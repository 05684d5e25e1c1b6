use astreinte::routes::auth::{color_tag, name_fingerprint, needs_new_tag, tag_hue, tag_name};

#[test]
fn tag_name_is_the_first_word_or_x() {
    assert_eq!(tag_name("Jean Dupont"), "Jean");
    assert_eq!(tag_name("   "), "X");
    assert_eq!(tag_name(""), "X");
}

#[test]
fn fingerprint_of_names() {
    assert_eq!(name_fingerprint("Alice"), Some(55389));
    assert_eq!(name_fingerprint("Jean"), Some(37259));
    assert_eq!(name_fingerprint("X"), Some(3256));
    assert_eq!(name_fingerprint(""), Some(0));
    assert_eq!(name_fingerprint("é"), Some(8621));
}

#[test]
fn fingerprint_overflow_is_reported() {
    // The product by 37 overflows on the 105th copy of U+10FFFF.
    let long: String = std::iter::repeat('\u{10FFFF}').take(104).collect();
    assert!(name_fingerprint(&long).is_some());
    let longer: String = std::iter::repeat('\u{10FFFF}').take(105).collect();
    assert_eq!(name_fingerprint(&longer), None);
    let emoji: String = std::iter::repeat('😀').take(1000).collect();
    assert_eq!(tag_hue(&emoji), None);
}

#[test]
fn tag_hue_of_names() {
    assert_eq!(tag_hue("Alice Martin"), Some(309));
    assert_eq!(tag_hue("  Jean  "), Some(179));
    assert_eq!(tag_hue(""), Some(16));
}

#[test]
fn tag_hue_depends_on_first_word_only() {
    assert_eq!(tag_hue("Alice Martin"), tag_hue("Alice Durand"));
    assert_eq!(tag_hue(" \t"), tag_hue("X"));
}

#[test]
fn tag_hue_is_an_angle() {
    for name in ["Alice", "Bob", "Zoé", "Jean-Pierre", "Ωmega"] {
        assert!(tag_hue(name).unwrap() < 360);
    }
}

#[test]
fn color_tags_are_upper_case_hex() {
    assert_eq!(color_tag(255, 0, 16), "#FF0010");
    assert_eq!(color_tag(0, 0, 0), "#000000");
    assert_eq!(color_tag(171, 205, 239), "#ABCDEF");
    assert_eq!(color_tag(9, 10, 160), "#090AA0");
}

#[test]
fn color_tags_are_current() {
    for (r, g, b) in [(0, 0, 0), (255, 255, 255), (12, 200, 7)] {
        assert!(!needs_new_tag(&color_tag(r, g, b)));
    }
}

#[test]
fn tags_of_the_old_form_need_a_new_one() {
    assert!(needs_new_tag("[SSI]"));
    assert!(needs_new_tag("X"));
    assert!(needs_new_tag(""));
    assert!(needs_new_tag(" #FF0000"));
    assert!(!needs_new_tag("#FF0000"));
    assert!(!needs_new_tag("#"));
}

#[test]
fn tag_is_that_of_the_first_word() {
    for name in ["Alice Martin", "  Jean  Dupont ", "", "\t", "Zoé"] {
        let first = tag_name(name);
        assert_eq!(tag_name(&first), first);
        assert_eq!(tag_hue(&first), tag_hue(name));
    }
}
