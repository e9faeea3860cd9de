use sshmux::lines::{check_ok_line, connecting_line, format_line, mux_channel, spawn_failed_line};

#[test]
fn format_line_tags_one_line() {
    let r = format_line(&"[h1]".to_string(), &"up 3 days".to_string());
    assert_eq!(r, "[h1] up 3 days");
}

#[test]
fn mux_preserves_order_and_count() {
    let lines = vec!["one".to_string(), "two".to_string(), "three".to_string()];
    let out = mux_channel(&"[h]".to_string(), &lines);
    assert_eq!(out, vec!["[h] one", "[h] two", "[h] three"]);
}

#[test]
fn mux_of_empty_channel_is_empty() {
    let out = mux_channel(&"[h]".to_string(), &vec![]);
    assert!(out.is_empty());
}

#[test]
fn mux_keeps_empty_lines() {
    let out = mux_channel(&"[h]".to_string(), &vec!["".to_string()]);
    assert_eq!(out, vec!["[h] "]);
}

#[test]
fn every_unit_is_one_complete_tagged_line() {
    let a = mux_channel(&"[h1]".to_string(), &vec!["x".to_string(), "y".to_string()]);
    let b = mux_channel(&"[h2]".to_string(), &vec!["z".to_string()]);
    // One possible arrival order at the sink.
    let sink = vec![a[0].clone(), b[0].clone(), a[1].clone()];
    for unit in &sink {
        assert!(unit.starts_with("[h1] ") || unit.starts_with("[h2] "));
        assert!(!unit.contains('\n'));
    }
}

#[test]
fn connecting_line_exact() {
    let r = connecting_line(&"[h1]".to_string(), &"h1".to_string(), 22);
    assert_eq!(r, "[h1] Connecting to h1:22...");
}

#[test]
fn spawn_failed_line_exact() {
    let r = spawn_failed_line(&"[h2]".to_string(), &"No such file or directory".to_string());
    assert_eq!(r, "[h2] Failed to spawn ssh command: No such file or directory");
}

#[test]
fn check_ok_line_exact() {
    assert_eq!(check_ok_line(), "Config is valid.");
}
