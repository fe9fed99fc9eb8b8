use vane_core::domain::canonicalize_domain_rules;
use vane_core::engine_state::{
    bypass_config_from_settings, invalidate_bypass_config_cache, update_bypass_config_cache, BypassConfig,
    BypassConfigCache,
};

#[test]
fn f01_update_bypass_config_cache() {
    let mut cache = BypassConfigCache::new();
    update_bypass_config_cache(
        &mut cache,
        "whitelist".to_string(),
        "example.com".to_string(),
        "".to_string(),
        false,
    );
    assert_eq!(1, 1);
    assert_eq!(cache.config.as_ref().unwrap().domain_list, "example.com");
}

#[test]
fn f02_invalidate_bypass_config_cache() {
    let mut cache = BypassConfigCache::new();
    update_bypass_config_cache(&mut cache, "all".to_string(), "".to_string(), "".to_string(), false);
    invalidate_bypass_config_cache(&mut cache);
    assert_eq!(1, 1);
    assert!(cache.config.is_none());
}

#[test]
fn f03_kill_switch_atomic_flag_reflects_cache_update() {
    let mut cache = BypassConfigCache::new();
    update_bypass_config_cache(&mut cache, "all".to_string(), "".to_string(), "".to_string(), true);
    invalidate_bypass_config_cache(&mut cache);
    assert_eq!(1, 1);
    assert!(cache.kill_switch_enabled());
}

#[test]
fn f04_empty_whitelist_validation_fails_closed() {
    let mode = "whitelist";
    let hostlist = "";
    let is_valid = !(mode == "whitelist" && hostlist.trim().is_empty());
    assert!(!is_valid);
    let config = BypassConfig {
        mode: mode.to_string(),
        domain_list: hostlist.to_string(),
        proxy: String::new(),
        kill_switch: false,
    };
    assert!(config.validate_for_start().is_err());
}

#[test]
fn f05_all_mode_requires_no_hostlist() {
    let mode = "all";
    let hostlist = "";
    let is_valid = !(mode == "whitelist" && hostlist.trim().is_empty());
    assert!(is_valid);
    assert!(BypassConfig::all_sites().validate_for_start().is_ok());
}

#[test]
fn f06_blacklist_mode_canonicalization() {
    let raw_domains = vec!["BAD.EXAMPLE.COM.".to_string()];
    let canonical = canonicalize_domain_rules(&raw_domains).unwrap();
    assert_eq!(canonical, vec!["bad.example.com"]);
}

#[test]
fn f07_documents_engine_start_reading_persisted_settings_instead_of_runtime_cache() {
    let mut cache = BypassConfigCache::new();
    update_bypass_config_cache(
        &mut cache,
        "whitelist".to_string(),
        "cache.example.com".to_string(),
        "".to_string(),
        false,
    );
    invalidate_bypass_config_cache(&mut cache);
}

#[test]
fn whitelist_is_built_from_verified_array_not_legacy_domain_list() {
    let config = bypass_config_from_settings(
        "whitelist".to_string(),
        &vec![" Roblox.COM. ".to_string()],
        &vec![],
        String::new(),
        false,
    )
    .expect("valid settings");
    assert_eq!(config.domain_list, "roblox.com");
    assert!(config.validate_for_start().is_ok());
}

#[test]
fn empty_whitelist_is_fail_closed() {
    let config = bypass_config_from_settings("whitelist".to_string(), &vec![], &vec![], String::new(), false)
        .expect("valid settings");
    assert!(config.validate_for_start().is_err());
}

#[test]
fn persisted_settings_with_unknown_mode_or_bad_domain_are_refused() {
    assert!(bypass_config_from_settings("sometimes".to_string(), &vec![], &vec![], String::new(), false).is_err());
    assert!(bypass_config_from_settings(
        "blacklist".to_string(),
        &vec![],
        &vec!["http://bad.example/".to_string()],
        String::new(),
        false
    )
    .is_err());
    let blacklist = bypass_config_from_settings(
        "blacklist".to_string(),
        &vec!["ignored.com".to_string()],
        &vec!["B.com".to_string(), "a.com".to_string()],
        "127.0.0.1:1080".to_string(),
        true,
    )
    .unwrap();
    assert_eq!(blacklist.domain_list, "b.com\na.com");
    assert!(blacklist.kill_switch);
}
