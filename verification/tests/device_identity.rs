use hyprconnect_core::device::{
    choose_device_id, generate_device_id, load_device_name, load_or_generate_device_id,
    strip_trailing_nuls, with_underscores, DeviceId,
};

fn has_the_form_of_an_identifier(id: &str) -> bool {
    let chars: Vec<char> = id.chars().collect();
    chars.len() == 36
        && chars.iter().enumerate().all(|(i, c)| {
            if i == 8 || i == 13 || i == 18 || i == 23 {
                *c == '_'
            } else {
                c.is_ascii_digit() || ('a'..='f').contains(c)
            }
        })
}

#[test]
fn a_stored_identifier_is_kept_letter_for_letter() {
    for stored in ["abc_def", "abc_def\n", "  spaced  ", " ", "\n", "\u{e9}"] {
        let r = load_or_generate_device_id(Some(stored));
        assert_eq!(r, DeviceId { id: stored.to_string(), fresh: false });
    }
}

#[test]
fn the_same_store_gives_the_same_identifier_twice() {
    let first = load_or_generate_device_id(None);
    assert!(first.fresh);
    let second = load_or_generate_device_id(Some(&first.id));
    let third = load_or_generate_device_id(Some(&first.id));
    assert_eq!(second, DeviceId { id: first.id.clone(), fresh: false });
    assert_eq!(third, second);
}

#[test]
fn an_empty_store_gives_a_fresh_identifier() {
    for stored in [None, Some("")] {
        let r = load_or_generate_device_id(stored);
        assert!(r.fresh);
        assert!(has_the_form_of_an_identifier(&r.id), "{}", r.id);
    }
}

#[test]
fn fresh_identifiers_differ() {
    let a = load_or_generate_device_id(None);
    let b = load_or_generate_device_id(None);
    assert_ne!(a.id, b.id);
}

#[test]
fn generated_identifier_has_underscores_between_its_groups() {
    let id = generate_device_id();
    assert!(has_the_form_of_an_identifier(&id), "{}", id);
    assert_eq!(id.chars().nth(14), Some('4'));
}

#[test]
fn choose_device_id_by_cases() {
    assert_eq!(
        choose_device_id(Some("  kept  "), "fresh".to_string()),
        DeviceId { id: "  kept  ".to_string(), fresh: false }
    );
    assert_eq!(
        choose_device_id(Some(""), "fresh".to_string()),
        DeviceId { id: "fresh".to_string(), fresh: true }
    );
    assert_eq!(
        choose_device_id(None, "fresh".to_string()),
        DeviceId { id: "fresh".to_string(), fresh: true }
    );
}

#[test]
fn hyphens_become_underscores() {
    assert_eq!(
        with_underscores("67e55044-10b1-426f-9247-bb680e5fe0c8"),
        "67e55044_10b1_426f_9247_bb680e5fe0c8"
    );
    assert_eq!(with_underscores(""), "");
    assert_eq!(with_underscores("--a-"), "__a_");
    assert_eq!(with_underscores("né-e"), "né_e");
}

#[test]
fn device_name_is_the_text_before_the_padding() {
    let mut buffer = [0u8; 256];
    buffer[..6].copy_from_slice(b"laptop");
    assert_eq!(load_device_name(Some(&buffer)), "laptop");
}

#[test]
fn device_name_without_padding_is_taken_whole() {
    assert_eq!(load_device_name(Some(b"desk")), "desk");
    assert_eq!(load_device_name(Some(b"a\0b\0\0")), "a\0b");
    assert_eq!(load_device_name(Some(&[0u8; 16])), "");
    assert_eq!(load_device_name(Some(b"")), "");
}

#[test]
fn device_name_that_is_no_text_is_unknown() {
    assert_eq!(load_device_name(Some(&[b'a', 0xff, 0, 0])), "unknown");
}

#[test]
fn device_name_without_an_answer_is_the_default() {
    assert_eq!(load_device_name(None), "Hyprconnect");
}

#[test]
fn trailing_nuls_are_stripped() {
    assert_eq!(strip_trailing_nuls("host\0\0\0"), "host");
    assert_eq!(strip_trailing_nuls("\0host"), "\0host");
    assert_eq!(strip_trailing_nuls("höst\0"), "höst");
    assert_eq!(strip_trailing_nuls("\0\0"), "");
}
