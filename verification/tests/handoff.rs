use vpn_helper::config::Config;
use vpn_helper::handoff::{invocation, prepare, routing_script, stdin_payload, Mode};
use vpn_helper::invocation::Invocation;

fn sample() -> Config {
    Config {
        username: "alice".to_string(),
        password: "p@ss".to_string(),
        totp_secret: "GEZDGNBVGY3TQOJQGEZDGNBVGY3TQOJQ".to_string(),
        host: "vpn.example.com".to_string(),
        route_cidr: "10.0.0.0/8 192.168.1.0/24".to_string(),
    }
}

fn strings(items: &[&str]) -> Vec<String> {
    items.iter().map(|s| s.to_string()).collect()
}

#[test]
fn mode_from_name_knows_once_and_watch() {
    assert_eq!(Mode::from_name("once"), Mode::Once);
    assert_eq!(Mode::from_name("watch"), Mode::Watch);
}

#[test]
fn mode_from_name_takes_any_other_name_as_other() {
    assert_eq!(Mode::from_name(""), Mode::Other);
    assert_eq!(Mode::from_name("Once"), Mode::Other);
    assert_eq!(Mode::from_name("watch "), Mode::Other);
    assert_eq!(Mode::from_name("daemon"), Mode::Other);
}

#[test]
fn routing_script_joins_helper_and_route_with_a_space() {
    assert_eq!(routing_script("10.0.0.0/8"), "vpn-slice 10.0.0.0/8");
    assert_eq!(routing_script("10.0.0.0/8 172.16.0.0/12"), "vpn-slice 10.0.0.0/8 172.16.0.0/12");
    assert_eq!(routing_script(""), "vpn-slice ");
}

#[test]
fn invocation_once_has_the_detach_flag_before_the_host() {
    let inv = invocation(&sample(), Mode::Once);
    assert_eq!(inv.program, "openconnect");
    assert_eq!(
        inv.args,
        strings(&[
            "--user",
            "alice",
            "--passwd-on-stdin",
            "--script",
            "vpn-slice 10.0.0.0/8 192.168.1.0/24",
            "--background",
            "vpn.example.com",
        ])
    );
}

#[test]
fn invocation_watch_has_no_detach_flag() {
    let inv = invocation(&sample(), Mode::Watch);
    assert_eq!(inv.program, "openconnect");
    assert_eq!(
        inv.args,
        strings(&[
            "--user",
            "alice",
            "--passwd-on-stdin",
            "--script",
            "vpn-slice 10.0.0.0/8 192.168.1.0/24",
            "vpn.example.com",
        ])
    );
    assert!(!inv.args.contains(&"--background".to_string()));
}

#[test]
fn invocation_other_has_no_detach_flag() {
    let inv = invocation(&sample(), Mode::Other);
    assert_eq!(inv, invocation(&sample(), Mode::Watch));
}

#[test]
fn invocation_ends_with_the_host() {
    for mode in [Mode::Once, Mode::Watch, Mode::Other] {
        let inv = invocation(&sample(), mode);
        assert_eq!(inv.args.last(), Some(&"vpn.example.com".to_string()));
    }
}

#[test]
fn invocation_builder_appends_in_order() {
    let mut inv = Invocation::new("killall");
    assert_eq!(inv.program, "killall");
    assert!(inv.args.is_empty());
    inv.arg("-9");
    inv.arg("openconnect");
    assert_eq!(inv.args, strings(&["-9", "openconnect"]));
}

#[test]
fn stdin_payload_is_password_directly_followed_by_code() {
    let payload = stdin_payload("p@ss", "123456");
    assert_eq!(payload, "p@ss123456");
    assert_eq!(payload.as_bytes(), b"p@ss123456");
    assert_eq!(payload.len(), 10);
    assert!(!payload.ends_with('\n'));
}

#[test]
fn stdin_payload_keeps_spaces_and_leading_zeros() {
    assert_eq!(stdin_payload("pass word ", "005924"), "pass word 005924");
    assert_eq!(stdin_payload("", "005924"), "005924");
    assert_eq!(stdin_payload("p\u{e4}ss", "1"), "p\u{e4}ss1");
}

#[test]
fn prepare_joins_invocation_and_payload() {
    let handoff = prepare(&sample(), Mode::Once, "123456");
    assert_eq!(handoff.invocation, invocation(&sample(), Mode::Once));
    assert_eq!(handoff.payload, "p@ss123456");
}
