use sshmux::tag::{color_name, get_colored_prefix, tag_text};

#[test]
fn same_index_same_color() {
    assert_eq!(color_name(3), color_name(3));
    assert_eq!(color_name(0), color_name(0));
}

#[test]
fn palette_in_order() {
    assert_eq!(color_name(0), "red");
    assert_eq!(color_name(1), "green");
    assert_eq!(color_name(2), "yellow");
    assert_eq!(color_name(3), "blue");
    assert_eq!(color_name(4), "magenta");
    assert_eq!(color_name(5), "cyan");
    assert_eq!(color_name(6), "white");
}

#[test]
fn palette_cycles_with_period_seven() {
    assert_eq!(color_name(7), color_name(0));
    assert_eq!(color_name(7), "red");
    assert_eq!(color_name(13), color_name(6));
    assert_eq!(color_name(700), "red");
}

#[test]
fn tag_text_brackets_the_hostname() {
    assert_eq!(tag_text("h1"), "[h1]");
    assert_eq!(tag_text(""), "[]");
}

#[test]
fn colored_prefix_keeps_the_tag_text_intact() {
    let p = get_colored_prefix("h1", 0);
    assert!(p.contains("[h1]"));
    let q = get_colored_prefix("web-3", 9);
    assert!(q.contains("[web-3]"));
}

#[test]
fn two_hosts_same_name_distinct_positions_get_the_position_color() {
    // Identity comes from the position, not the hostname.
    assert_eq!(color_name(0), "red");
    assert_eq!(color_name(1), "green");
    assert_eq!(tag_text("h"), tag_text("h"));
}
