use sshmux::config::{host_key, Host};
use sshmux::dec::u64_to_string;
use sshmux::invoke::{build_ssh_args, effective_port};

fn h1() -> Host {
    Host {
        host: "h1".to_string(),
        user: Some("u1".to_string()),
        port: Some(22),
        identity_file: None,
    }
}

fn h2() -> Host {
    Host {
        host: "h2".to_string(),
        user: None,
        port: None,
        identity_file: None,
    }
}

#[test]
fn args_for_host_with_user_and_port() {
    let args = build_ssh_args(&h1(), &"uptime".to_string());
    assert_eq!(args, vec!["-p", "22", "u1@h1", "uptime"]);
}

#[test]
fn args_for_bare_host_default_port() {
    let args = build_ssh_args(&h2(), &"uptime".to_string());
    assert_eq!(args, vec!["-p", "22", "h2", "uptime"]);
}

#[test]
fn args_with_identity_file() {
    let h = Host {
        host: "db".to_string(),
        user: Some("admin".to_string()),
        port: Some(2222),
        identity_file: Some("/home/me/.ssh/id_ed25519".to_string()),
    };
    let args = build_ssh_args(&h, &"df -h".to_string());
    assert_eq!(
        args,
        vec!["-p", "2222", "-i", "/home/me/.ssh/id_ed25519", "admin@db", "df -h"]
    );
}

#[test]
fn destination_is_the_duplicate_key() {
    assert_eq!(host_key(&h1()), "u1@h1");
    assert_eq!(host_key(&h2()), "h2");
}

#[test]
fn port_defaults_to_22() {
    assert_eq!(effective_port(&h2()), 22);
    assert_eq!(effective_port(&h1()), 22);
    let h = Host { port: Some(8022), ..h2() };
    assert_eq!(effective_port(&h), 8022);
}

#[test]
fn decimal_rendering_exact() {
    assert_eq!(u64_to_string(0), "0");
    assert_eq!(u64_to_string(7), "7");
    assert_eq!(u64_to_string(22), "22");
    assert_eq!(u64_to_string(1024), "1024");
    assert_eq!(u64_to_string(65535), "65535");
    assert_eq!(u64_to_string(u64::MAX), "18446744073709551615");
}
