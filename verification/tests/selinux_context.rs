use process::selinux::parse_selinux_context;

#[test]
fn four_segments_populate_all_fields() {
    let r = parse_selinux_context("user_u:role_r:type_t:s0");
    assert_eq!(r.se_user, Some("user_u".to_string()));
    assert_eq!(r.se_role, Some("role_r".to_string()));
    assert_eq!(r.se_type, Some("type_t".to_string()));
    assert_eq!(r.se_sensitivity_level, Some("s0".to_string()));
}

#[test]
fn two_segments_leave_the_rest_none() {
    let r = parse_selinux_context("user_u:role_r");
    assert_eq!(r.se_user, Some("user_u".to_string()));
    assert_eq!(r.se_role, Some("role_r".to_string()));
    assert_eq!(r.se_type, None);
    assert_eq!(r.se_sensitivity_level, None);
}

#[test]
fn empty_string_yields_all_none() {
    let r = parse_selinux_context("");
    assert_eq!(r.se_user, None);
    assert_eq!(r.se_role, None);
    assert_eq!(r.se_type, None);
    assert_eq!(r.se_sensitivity_level, None);
}

#[test]
fn segments_are_trimmed() {
    let r = parse_selinux_context(" a : b :c\t: d\n");
    assert_eq!(r.se_user, Some("a".to_string()));
    assert_eq!(r.se_role, Some("b".to_string()));
    assert_eq!(r.se_type, Some("c".to_string()));
    assert_eq!(r.se_sensitivity_level, Some("d".to_string()));
}

#[test]
fn empty_middle_segment_is_none() {
    let r = parse_selinux_context("a::c");
    assert_eq!(r.se_user, Some("a".to_string()));
    assert_eq!(r.se_role, None);
    assert_eq!(r.se_type, Some("c".to_string()));
    assert_eq!(r.se_sensitivity_level, None);
}

#[test]
fn extra_segments_beyond_four_are_ignored() {
    let r = parse_selinux_context("a:b:c:d:e");
    assert_eq!(r.se_sensitivity_level, Some("d".to_string()));
}
