use vane_core::launch_plan::EnginePlatform;
use vane_core::pattern_transaction::{
    build_hostlist_filename, check_hostlist_filename, hostlist_request, is_stale_hostlist, prepare_runtime_config,
    PatternApplyError,
};
use vane_core::preset::{Preset, PresetCategory};
use vane_core::runtime_config::{
    candidate_from_preset_and_sources, verify_runtime_config, AppliedRuntimeConfig, ConfigRevision, PreparedHostlist,
};
use vane_core::runtime_state::{RuntimeConfigState, RuntimeStateError};

fn builtin_presets() -> Vec<Preset> {
    vec![Preset {
        id: "default".to_string(),
        label: "Default".to_string(),
        description: String::new(),
        icon: String::new(),
        args: vec!["--wf-tcp=80,443".to_string(), "--qnum=200".to_string(), "--dpi-desync=fake".to_string()],
        is_custom: false,
        priority: 1,
        category: PresetCategory::Standard,
    }]
}

#[test]
fn test_runtime_config_state_commit_applied() {
    let mut state = RuntimeConfigState::new(ConfigRevision::new(1));
    let preset = builtin_presets().into_iter().next().unwrap();
    let candidate = candidate_from_preset_and_sources(&preset, "whitelist", "example.com", false);
    let verified = verify_runtime_config(candidate, ConfigRevision::new(2)).unwrap();

    state.set_desired(verified.clone());
    let applied = AppliedRuntimeConfig::process_started(verified.clone(), 1234);

    assert!(state.commit_applied(applied).is_ok());
    assert_eq!(state.applied().unwrap().process_id, 1234);
    assert_eq!(state.latest_completed_revision().get(), 2);
}

#[test]
fn test_runtime_config_state_stale_revision_rejected() {
    let mut state = RuntimeConfigState::new(ConfigRevision::new(10));
    let preset = builtin_presets().into_iter().next().unwrap();
    let candidate = candidate_from_preset_and_sources(&preset, "all", "", false);
    let verified = verify_runtime_config(candidate, ConfigRevision::new(5)).unwrap();

    let applied = AppliedRuntimeConfig::process_started(verified, 5678);
    let err = state.commit_applied(applied).unwrap_err();

    assert_eq!(err, RuntimeStateError::StaleRevision { current: 10, attempted: 5 });
}

#[test]
fn test_build_hostlist_filename() {
    let preset = builtin_presets().into_iter().next().unwrap();
    let candidate = candidate_from_preset_and_sources(&preset, "whitelist", "a.com", false);
    let verified = verify_runtime_config(candidate, ConfigRevision::new(42)).unwrap();

    let filename = build_hostlist_filename(verified.revision, &verified.fingerprint);
    assert!(filename.starts_with("domains-rev-42-"));
    assert!(filename.ends_with(".txt"));
    assert_eq!(filename.len(), "domains-rev-42-".len() + 8 + ".txt".len());
}

#[test]
fn test_unsafe_path_traversal_hostlist_rejected() {
    let res = check_hostlist_filename("../evil.txt");
    assert!(res.is_err());
    assert!(check_hostlist_filename("dir\\evil.txt").is_err());
    assert!(check_hostlist_filename("domains-rev-1-a1b2c3d4.txt").is_ok());
    assert_eq!(
        res.unwrap_err().message(),
        "pattern hostlist preparation failed: Unsafe path traversal characters in hostlist filename"
    );
}

#[test]
fn stale_hostlists_spare_the_active_and_previous_files() {
    assert!(is_stale_hostlist("domains-rev-1-a1b2c3d4.txt", Some("domains-rev-2-e5f6g7h8.txt"), None));
    assert!(!is_stale_hostlist("domains-rev-2-e5f6g7h8.txt", Some("domains-rev-2-e5f6g7h8.txt"), None));
    assert!(!is_stale_hostlist("domains-rev-1-a1b2c3d4.txt", None, Some("domains-rev-1-a1b2c3d4.txt")));
    assert!(!is_stale_hostlist("settings.json", None, None));
    assert!(!is_stale_hostlist("domains-rev-3.bak", None, None));
}

#[test]
fn prepared_configuration_plans_the_hostlist_it_needs() {
    let preset = builtin_presets().into_iter().next().unwrap();
    let candidate = candidate_from_preset_and_sources(&preset, "whitelist", "a.com\nb.com", true);
    let verified = verify_runtime_config(candidate, ConfigRevision::new(7)).unwrap();
    let (name, content) = hostlist_request(&verified).expect("whitelist needs a hostlist");
    assert!(name.starts_with("domains-rev-7-"));
    assert_eq!(content, "a.com\nb.com");

    let path = format!("C:\\data\\{name}");
    let prepared =
        prepare_runtime_config(verified.clone(), Some(path.clone()), EnginePlatform::Windows, "C:\\bin\\winws.exe".to_string())
            .expect("plannable");
    assert_eq!(prepared.hostlist, PreparedHostlist::Planned { path: path.clone(), domain_count: 2 });
    assert!(prepared.launch_plan.final_arguments.contains(&format!("--hostlist={path}")));

    let missing = prepare_runtime_config(verified, None, EnginePlatform::Windows, "C:\\bin\\winws.exe".to_string());
    assert!(missing.is_err());

    let all = verify_runtime_config(candidate_from_preset_and_sources(&preset, "all", "", false), ConfigRevision::new(8))
        .unwrap();
    assert!(hostlist_request(&all).is_none());
    let prepared_all = prepare_runtime_config(all, None, EnginePlatform::Windows, "C:\\bin\\winws.exe".to_string()).unwrap();
    assert_eq!(prepared_all.hostlist, PreparedHostlist::NotRequired);
    assert_eq!(
        PatternApplyError::Validation("x".to_string()).message(),
        "pattern configuration validation failed: x"
    );
}
