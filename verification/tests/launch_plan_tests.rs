use vane_core::launch_plan::{
    build_engine_launch_plan, EngineBinaryKind, EngineLaunchInput, EnginePlatform, HostlistPlan,
    KillSwitchRequirement, LaunchBypassInput, LaunchBypassMode, PlatformLaunchPlan,
};
use vane_core::preset::{Preset, PresetCategory};

fn preset(id: &str, args: &[&str]) -> Preset {
    Preset {
        id: id.to_string(),
        label: id.to_string(),
        description: String::new(),
        icon: "zap".to_string(),
        args: args.iter().map(|a| a.to_string()).collect(),
        is_custom: false,
        priority: 1,
        category: PresetCategory::Standard,
    }
}

/// A stand-in for the shipped preset list.
fn builtin_presets() -> Vec<Preset> {
    vec![
        preset("default", &["--wf-tcp=80,443", "--qnum=200", "--dpi-desync=fake"]),
        preset("tr-1", &["--wf-tcp=80,443", "--dpi-desync=fake", "--dpi-desync-ttl=5"]),
        preset("https-sni-ghost", &["--wf-tcp=443", "--dpi-desync=syndata,fake"]),
        preset("youtube-quic", &["--wf-udp=443", "--dpi-desync=fake"]),
    ]
}

fn make_test_input<'a>(
    preset: &'a Preset,
    platform: EnginePlatform,
    executable: String,
    mode: LaunchBypassMode,
    domain_list: &str,
    hostlist_path: Option<String>,
    kill_switch: bool,
) -> EngineLaunchInput<'a> {
    EngineLaunchInput {
        preset,
        platform,
        executable,
        bypass: LaunchBypassInput { mode, domain_list: domain_list.to_string(), hostlist_path, kill_switch },
    }
}

#[test]
fn test_planner_purity_no_side_effects() {
    let preset = Preset {
        id: "default".to_string(),
        label: "Default".to_string(),
        description: "Desc".to_string(),
        icon: "zap".to_string(),
        args: vec!["--wf-tcp=80,443".to_string(), "--dpi-desync=fake".to_string()],
        is_custom: false,
        priority: 1,
        category: Default::default(),
    };
    let input = EngineLaunchInput {
        preset: &preset,
        platform: EnginePlatform::Windows,
        executable: String::from("C:\\Program Files\\Vane\\winws.exe"),
        bypass: LaunchBypassInput {
            mode: LaunchBypassMode::All,
            domain_list: String::new(),
            hostlist_path: None,
            kill_switch: false,
        },
    };
    let plan = build_engine_launch_plan(input).unwrap();
    assert_eq!(plan.preset_id, "default");
    assert_eq!(plan.binary.kind, EngineBinaryKind::Winws);
    assert_eq!(plan.binary.working_directory, String::from("C:\\Program Files\\Vane"));
    assert_eq!(plan.final_arguments, vec!["--wf-tcp=80,443", "--dpi-desync=fake"]);
}

#[test]
fn w01_default_preset_windows_plan() {
    let preset = builtin_presets().into_iter().find(|p| p.id == "default").unwrap();
    let exe = String::from("C:\\Program Files\\Vane\\winws.exe");
    let input =
        make_test_input(&preset, EnginePlatform::Windows, exe.clone(), LaunchBypassMode::All, "", None, false);
    let plan = build_engine_launch_plan(input).unwrap();
    assert_eq!(plan.preset_id, "default");
    assert_eq!(plan.binary.kind, EngineBinaryKind::Winws);
    assert_eq!(plan.binary.executable, exe);
    assert_eq!(plan.binary.working_directory, String::from("C:\\Program Files\\Vane"));
    assert_eq!(plan.hostlist, HostlistPlan::NoHostlist);
    assert_eq!(plan.kill_switch, KillSwitchRequirement::Disabled);
    assert_eq!(plan.final_arguments, preset.args);
}

#[test]
fn w02_whitelist_hostlist_include_windows() {
    let preset = builtin_presets().into_iter().next().unwrap();
    let hostlist_path = String::from("C:\\Users\\Test\\AppData\\domains.txt");
    let input = make_test_input(
        &preset,
        EnginePlatform::Windows,
        String::from("C:\\Vane\\winws.exe"),
        LaunchBypassMode::Whitelist,
        "example.com\ntest.org\n",
        Some(hostlist_path.clone()),
        false,
    );
    let plan = build_engine_launch_plan(input).unwrap();
    match plan.hostlist {
        HostlistPlan::Include { path, domain_count } => {
            assert_eq!(path, hostlist_path);
            assert_eq!(domain_count, 2);
        }
        _ => panic!("Expected HostlistPlan::Include"),
    }
    assert!(plan.final_arguments.last().unwrap().starts_with("--hostlist="));
}

#[test]
fn w03_blacklist_hostlist_exclude_windows() {
    let preset = builtin_presets().into_iter().next().unwrap();
    let hostlist_path = String::from("C:\\Vane\\domains.txt");
    let input = make_test_input(
        &preset,
        EnginePlatform::Windows,
        String::from("C:\\Vane\\winws.exe"),
        LaunchBypassMode::Blacklist,
        "bad.com",
        Some(hostlist_path.clone()),
        false,
    );
    let plan = build_engine_launch_plan(input).unwrap();
    match plan.hostlist {
        HostlistPlan::Exclude { path, domain_count } => {
            assert_eq!(path, hostlist_path);
            assert_eq!(domain_count, 1);
        }
        _ => panic!("Expected HostlistPlan::Exclude"),
    }
    assert!(plan.final_arguments.last().unwrap().starts_with("--hostlist-exclude="));
}

#[test]
fn w04_all_mode_has_no_hostlist_arg() {
    let preset = builtin_presets().into_iter().next().unwrap();
    let input = make_test_input(
        &preset,
        EnginePlatform::Windows,
        String::from("C:\\Vane\\winws.exe"),
        LaunchBypassMode::All,
        "",
        None,
        false,
    );
    let plan = build_engine_launch_plan(input).unwrap();
    assert_eq!(plan.hostlist, HostlistPlan::NoHostlist);
    assert!(!plan.final_arguments.iter().any(|a| a.starts_with("--hostlist")));
}

#[test]
fn w05_empty_whitelist_returns_fail_closed_error() {
    let preset = builtin_presets().into_iter().next().unwrap();
    let input = make_test_input(
        &preset,
        EnginePlatform::Windows,
        String::from("C:\\Vane\\winws.exe"),
        LaunchBypassMode::Whitelist,
        "   \n  ",
        Some(String::from("C:\\domains.txt")),
        false,
    );
    let res = build_engine_launch_plan(input);
    assert!(res.is_err());
}

#[test]
fn w06_path_with_spaces_retained_as_pathbuf() {
    let preset = builtin_presets().into_iter().next().unwrap();
    let space_exe = String::from("C:\\Program Files (x86)\\Vane DPI Engine\\winws.exe");
    let input =
        make_test_input(&preset, EnginePlatform::Windows, space_exe.clone(), LaunchBypassMode::All, "", None, false);
    let plan = build_engine_launch_plan(input).unwrap();
    assert_eq!(plan.binary.executable, space_exe);
}

#[test]
fn w09_kill_switch_required_in_plan() {
    let preset = builtin_presets().into_iter().next().unwrap();
    let input = make_test_input(
        &preset,
        EnginePlatform::Windows,
        String::from("C:\\Vane\\winws.exe"),
        LaunchBypassMode::All,
        "",
        None,
        true,
    );
    let plan = build_engine_launch_plan(input).unwrap();
    assert_eq!(plan.kill_switch, KillSwitchRequirement::Required);
}

#[test]
fn l01_linux_binary_kind_is_nfqws() {
    let preset = builtin_presets().into_iter().next().unwrap();
    let input = make_test_input(
        &preset,
        EnginePlatform::Linux,
        String::from("/usr/bin/nfqws"),
        LaunchBypassMode::All,
        "",
        None,
        false,
    );
    let plan = build_engine_launch_plan(input).unwrap();
    assert_eq!(plan.binary.kind, EngineBinaryKind::Nfqws);
}

#[test]
fn l02_linux_includes_qnum_200_as_first_argument() {
    let preset = builtin_presets().into_iter().next().unwrap();
    let input = make_test_input(
        &preset,
        EnginePlatform::Linux,
        String::from("/usr/bin/nfqws"),
        LaunchBypassMode::All,
        "",
        None,
        false,
    );
    let plan = build_engine_launch_plan(input).unwrap();
    assert_eq!(plan.final_arguments.first().unwrap(), "--qnum=200");
}

#[test]
fn l03_documents_linux_wf_stripping_behavior() {
    let preset = Preset {
        id: "test-wf".to_string(),
        label: "Test WF".to_string(),
        description: "".to_string(),
        icon: "zap".to_string(),
        args: vec!["--wf-tcp=80,443".to_string(), "--dpi-desync=fake".to_string()],
        is_custom: true,
        priority: 1,
        category: Default::default(),
    };
    let input = make_test_input(
        &preset,
        EnginePlatform::Linux,
        String::from("/usr/bin/nfqws"),
        LaunchBypassMode::All,
        "",
        None,
        false,
    );
    let plan = build_engine_launch_plan(input).unwrap();
    assert!(!plan.final_arguments.iter().any(|a| a.starts_with("--wf-")));
    assert_eq!(plan.traffic_filter.declared_tcp_spec, Some("80,443".to_string()));
}

#[test]
fn l04_documents_current_linux_udp_filter_not_being_applied() {
    let preset = Preset {
        id: "udp-preset".to_string(),
        label: "UDP".to_string(),
        description: "".to_string(),
        icon: "zap".to_string(),
        args: vec!["--wf-udp=443".to_string(), "--dpi-desync=fake".to_string()],
        is_custom: true,
        priority: 1,
        category: Default::default(),
    };
    let input = make_test_input(
        &preset,
        EnginePlatform::Linux,
        String::from("/usr/bin/nfqws"),
        LaunchBypassMode::All,
        "",
        None,
        false,
    );
    let plan = build_engine_launch_plan(input).unwrap();
    assert_eq!(plan.traffic_filter.declared_udp_spec, Some("443".to_string()));
    assert_eq!(plan.traffic_filter.effective_linux_udp_spec, Some("443".to_string()));
}

#[test]
fn s01_deterministic_planning_100_runs() {
    let preset = builtin_presets().into_iter().next().unwrap();
    let exe = String::from("C:\\Vane\\winws.exe");
    let first_plan = build_engine_launch_plan(make_test_input(
        &preset,
        EnginePlatform::Windows,
        exe.clone(),
        LaunchBypassMode::All,
        "",
        None,
        false,
    ))
    .unwrap();
    for _ in 0..100 {
        let plan = build_engine_launch_plan(make_test_input(
            &preset,
            EnginePlatform::Windows,
            exe.clone(),
            LaunchBypassMode::All,
            "",
            None,
            false,
        ))
        .unwrap();
        assert_eq!(first_plan, plan);
    }
}

#[test]
fn p01_windows_default_preset_parity() {
    let preset = builtin_presets().into_iter().find(|p| p.id == "default").unwrap();
    let input = make_test_input(
        &preset,
        EnginePlatform::Windows,
        String::from("C:\\Vane\\winws.exe"),
        LaunchBypassMode::All,
        "",
        None,
        false,
    );
    let plan = build_engine_launch_plan(input).unwrap();
    assert_eq!(plan.final_arguments, preset.args);
}

#[test]
fn p07_tr_1_preset_parity() {
    let preset = builtin_presets().into_iter().find(|p| p.id == "tr-1").unwrap();
    let input = make_test_input(
        &preset,
        EnginePlatform::Windows,
        String::from("C:\\Vane\\winws.exe"),
        LaunchBypassMode::All,
        "",
        None,
        false,
    );
    let plan = build_engine_launch_plan(input).unwrap();
    assert_eq!(plan.final_arguments, preset.args);
}

#[test]
fn linux_plan_reads_sorted_port_ranges_and_defaults() {
    let ports = preset("ports", &["--wf-tcp=8080-8090,443", "--wf-udp=50000-65535", "--dpi-desync=fake"]);
    let plan = build_engine_launch_plan(make_test_input(
        &ports,
        EnginePlatform::Linux,
        String::from("nfqws"),
        LaunchBypassMode::All,
        "",
        None,
        false,
    ))
    .unwrap();
    assert_eq!(plan.binary.working_directory, "");
    match plan.platform_launch {
        PlatformLaunchPlan::Linux { queue_number, current_firewall_behavior, .. } => {
            assert_eq!(queue_number, 0);
            assert_eq!(current_firewall_behavior.tcp_ports, vec![443, 8080]);
            assert_eq!(current_firewall_behavior.udp_ports, vec![50000]);
        }
        _ => panic!("expected a Linux plan"),
    }
    let bare = preset("bare", &["--dpi-desync=fake"]);
    let plan = build_engine_launch_plan(make_test_input(
        &bare,
        EnginePlatform::Linux,
        String::from("/opt/nfqws"),
        LaunchBypassMode::All,
        "",
        None,
        false,
    ))
    .unwrap();
    assert_eq!(plan.traffic_filter.effective_linux_tcp_spec, Some("80,443".to_string()));
    match plan.platform_launch {
        PlatformLaunchPlan::Linux { current_firewall_behavior, .. } => {
            assert_eq!(current_firewall_behavior.tcp_ports, vec![80, 443]);
            assert!(current_firewall_behavior.udp_ports.is_empty());
        }
        _ => panic!("expected a Linux plan"),
    }
}

#[test]
fn empty_executable_and_missing_hostlist_path_are_refused() {
    let preset = builtin_presets().into_iter().next().unwrap();
    let err = build_engine_launch_plan(make_test_input(
        &preset,
        EnginePlatform::Windows,
        String::new(),
        LaunchBypassMode::All,
        "",
        None,
        false,
    ))
    .unwrap_err();
    assert_eq!(
        err,
        vane_core::preset::EngineError::BinaryNotFound("Binary path'in parent klasörü alınamadı: \"\"".to_string())
    );
    let err = build_engine_launch_plan(make_test_input(
        &preset,
        EnginePlatform::Windows,
        String::from("winws.exe"),
        LaunchBypassMode::Blacklist,
        "a.com",
        None,
        false,
    ))
    .unwrap_err();
    assert_eq!(
        err,
        vane_core::preset::EngineError::IoError("Pattern storage path is unavailable for blacklist hostlist".to_string())
    );
}
