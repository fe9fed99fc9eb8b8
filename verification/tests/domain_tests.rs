use vane_core::domain::{canonicalize_domain_rules, domain_rule_matches, DomainRuleError};

#[test]
fn canonicalizes_case_whitespace_and_final_dot() {
    let rules = canonicalize_domain_rules(&["  Roblox.COM.  ".to_string(), "roblox.com".to_string()])
        .expect("valid domains");
    assert_eq!(rules, vec!["roblox.com"]);
}

#[test]
fn rejects_urls_ports_ips_and_unicode() {
    for invalid in ["https://roblox.com/path", "roblox.com:443", "127.0.0.1", "[2001:db8::1]", "b\u{00fc}cher.de"] {
        assert!(canonicalize_domain_rules(&[invalid.to_string()]).is_err(), "accepted {invalid}");
    }
}

#[test]
fn accepts_explicit_punycode_and_valid_wildcard() {
    let rules = canonicalize_domain_rules(&["xn--bcher-kva.de".to_string(), "*.ROBLOX.com.".to_string()])
        .expect("valid rules");
    assert_eq!(rules, vec!["xn--bcher-kva.de", "*.roblox.com"]);
}

#[test]
fn exact_rule_matches_apex_and_boundary_safe_subdomains() {
    assert!(domain_rule_matches("roblox.com", "roblox.com"));
    assert!(domain_rule_matches("roblox.com", "www.roblox.com"));
    assert!(domain_rule_matches("roblox.com", "api.roblox.com."));
    assert!(!domain_rule_matches("roblox.com", "evilroblox.com"));
    assert!(!domain_rule_matches("roblox.com", "roblox.com.evil.test"));
}

#[test]
fn wildcard_matches_subdomains_but_not_apex() {
    assert!(domain_rule_matches("*.roblox.com", "www.roblox.com"));
    assert!(domain_rule_matches("*.roblox.com", "api.cdn.roblox.com"));
    assert!(!domain_rule_matches("*.roblox.com", "roblox.com"));
}

#[test]
fn does_not_expand_hidden_aliases() {
    let rules = canonicalize_domain_rules(&["roblox.com".to_string()]).expect("valid domain");
    assert_eq!(rules, vec!["roblox.com"]);
    assert!(!rules.iter().any(|rule| rule.contains("rbxcdn")));
}

#[test]
fn a01_simple_domain() {
    let rules = canonicalize_domain_rules(&["example.com".to_string()]).unwrap();
    assert_eq!(rules, vec!["example.com"]);
}

#[test]
fn a02_uppercase_domain() {
    let rules = canonicalize_domain_rules(&["EXAMPLE.COM".to_string()]).unwrap();
    assert_eq!(rules, vec!["example.com"]);
}

#[test]
fn a03_trailing_dot() {
    let rules = canonicalize_domain_rules(&["example.com.".to_string()]).unwrap();
    assert_eq!(rules, vec!["example.com"]);
}

#[test]
fn a04_subdomain() {
    let rules = canonicalize_domain_rules(&["sub.example.com".to_string()]).unwrap();
    assert_eq!(rules, vec!["sub.example.com"]);
}

#[test]
fn a05_url_formats_rejected() {
    let urls = ["https://example.com", "https://example.com/path", "http://example.com"];
    for url in urls {
        let res = canonicalize_domain_rules(&[url.to_string()]);
        assert!(matches!(res, Err(DomainRuleError::UrlOrPath)), "Failed for {}", url);
    }
}

#[test]
fn a06_port_in_domain_rejected() {
    let res = canonicalize_domain_rules(&["example.com:443".to_string()]);
    assert!(matches!(res, Err(DomainRuleError::UrlOrPath)));
}

#[test]
fn a08_unicode_and_punycode() {
    assert!(canonicalize_domain_rules(&["ünalakademi.com.tr".to_string()]).is_err());
    let res = canonicalize_domain_rules(&["xn--nalakademi-25a.com.tr".to_string()]).unwrap();
    assert_eq!(res, vec!["xn--nalakademi-25a.com.tr"]);
}

#[test]
fn a09_whitespace_and_control_chars() {
    let res = canonicalize_domain_rules(&["  example.com  ".to_string()]).unwrap();
    assert_eq!(res, vec!["example.com"]);
    assert!(canonicalize_domain_rules(&["example .com".to_string()]).is_err());
    assert!(canonicalize_domain_rules(&["example.com\ninvalid.com".to_string()]).is_err());
}

#[test]
fn a10_duplicate_deduplication() {
    let inputs = vec![
        "example.com".to_string(),
        "EXAMPLE.COM".to_string(),
        "example.com.".to_string(),
        "  example.com  ".to_string(),
    ];
    let res = canonicalize_domain_rules(&inputs).unwrap();
    assert_eq!(res, vec!["example.com"]);
}

#[test]
fn a11_large_domain_list_handling() {
    let large_list: Vec<String> = (0..10_000).map(|i| format!("sub{i}.example.com")).collect();
    let res = canonicalize_domain_rules(&large_list).unwrap();
    assert_eq!(res.len(), 10_000);
}

#[test]
fn a12_domain_matching_semantics() {
    assert!(domain_rule_matches("example.com", "example.com"));
    assert!(domain_rule_matches("example.com", "sub.example.com"));
    assert!(!domain_rule_matches("example.com", "notexample.com"));
}

#[test]
fn a13_proptest_canonicalization_idempotent_and_clean() {
    let samples = [
        "example.com", " A.B.C. ", "*.Sub.Example.ORG.", "x", "", "a\nb.com", "1.2.3.4", "ş.com",
        "xn--bcher-kva.de", "-bad.com", "ok-label.net", "*.*.com", "a..b", "trailing.dots...",
    ];
    for s in samples {
        let s = s.to_string();
        if let Ok(rules) = canonicalize_domain_rules(std::slice::from_ref(&s)) {
            for rule in &rules {
                assert!(!rule.contains('\n'));
                assert!(!rule.contains('\r'));
                assert!(!rule.contains('\0'));
                assert!(!rule.is_empty());
                let recan = canonicalize_domain_rules(std::slice::from_ref(rule)).unwrap();
                assert_eq!(recan, vec![rule.clone()]);
            }
        }
    }
}

#[test]
fn canonical_rules_keep_first_occurrence_order_and_are_fixed_points() {
    let inputs: Vec<String> = vec!["B.example.com", "a.example.com.", " b.EXAMPLE.com ", "*.Z.example.com"]
        .into_iter()
        .map(String::from)
        .collect();
    let rules = canonicalize_domain_rules(&inputs).unwrap();
    assert_eq!(rules, vec!["b.example.com", "a.example.com", "*.z.example.com"]);
    assert!(rules.len() <= inputs.len());
    for rule in &rules {
        assert_eq!(canonicalize_domain_rules(&[rule.clone()]).unwrap(), vec![rule.clone()]);
        assert!(rule.chars().all(|c| c.is_ascii_alphanumeric() || c == '-' || c == '.' || c == '*'));
    }
    let bad = vec!["ok.example.com".to_string(), "http://x.com".to_string()];
    assert!(canonicalize_domain_rules(&bad).is_err());
}
