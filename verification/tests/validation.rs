use sshmux::config::{validate_config, Config, Host, ValidationError};

fn host(name: &str, user: Option<&str>) -> Host {
    Host {
        host: name.to_string(),
        user: user.map(|u| u.to_string()),
        port: None,
        identity_file: None,
    }
}

fn config_of(hosts: Vec<Host>) -> Config {
    Config { command: "uptime".to_string(), hosts }
}

#[test]
fn valid_config_passes() {
    let c = config_of(vec![host("h1", Some("u1")), host("h2", None)]);
    assert!(validate_config(&c, false).is_ok());
}

#[test]
fn empty_host_list_passes() {
    let c = config_of(vec![]);
    assert!(validate_config(&c, false).is_ok());
}

#[test]
fn duplicate_key_rejected_without_force() {
    let c = config_of(vec![host("h1", Some("u1")), host("h1", Some("u1"))]);
    match validate_config(&c, false) {
        Err(ValidationError::DuplicateHost { key }) => {
            assert_eq!(key, "u1@h1");
        }
        other => panic!("expected a duplicate-host error, got {:?}", other.is_ok()),
    }
}

#[test]
fn duplicate_key_accepted_with_force() {
    let c = config_of(vec![host("h1", Some("u1")), host("h1", Some("u1"))]);
    assert!(validate_config(&c, true).is_ok());
}

#[test]
fn duplicate_message_names_the_key() {
    let c = config_of(vec![host("h1", Some("u1")), host("h1", Some("u1"))]);
    let e = validate_config(&c, false).unwrap_err();
    assert_eq!(
        e.message(),
        "Duplicate host entry found: 'u1@h1'. Use --force to override."
    );
}

#[test]
fn same_host_different_users_is_no_duplicate() {
    let c = config_of(vec![host("h1", Some("u1")), host("h1", Some("u2"))]);
    assert!(validate_config(&c, false).is_ok());
}

#[test]
fn bare_hostnames_can_collide() {
    let c = config_of(vec![host("h1", None), host("h1", None)]);
    match validate_config(&c, false) {
        Err(ValidationError::DuplicateHost { key }) => assert_eq!(key, "h1"),
        _ => panic!("expected a duplicate-host error"),
    }
}

#[test]
fn empty_hostname_rejected() {
    let c = config_of(vec![host("h1", None), host("", None)]);
    match validate_config(&c, false) {
        Err(ValidationError::MissingHostname { index }) => assert_eq!(index, 1),
        _ => panic!("expected a missing-hostname error"),
    }
}

#[test]
fn whitespace_hostname_rejected() {
    let c = config_of(vec![host("   ", None)]);
    match validate_config(&c, false) {
        Err(ValidationError::MissingHostname { index }) => assert_eq!(index, 0),
        _ => panic!("expected a missing-hostname error"),
    }
}

#[test]
fn missing_hostname_message_names_the_index() {
    let c = config_of(vec![host("h1", None), host(" ", None)]);
    let e = validate_config(&c, false).unwrap_err();
    assert_eq!(e.message(), "Host entry at index 1 is missing a hostname.");
}

#[test]
fn first_rejected_entry_wins() {
    let c = config_of(vec![
        host("h1", Some("u1")),
        host("", None),
        host("h1", Some("u1")),
    ]);
    match validate_config(&c, false) {
        Err(ValidationError::MissingHostname { index }) => assert_eq!(index, 1),
        _ => panic!("expected the blank entry to be reported first"),
    }
}

#[test]
fn force_still_rejects_blank_hostnames() {
    let c = config_of(vec![host("", None)]);
    assert!(validate_config(&c, true).is_err());
}
