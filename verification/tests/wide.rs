use widestring::U16CString;
use wlan_engine::windows_api::enums::MessageBoxResult;
use wlan_engine::windows_api::{
    convert_string_to_u16cstring, convert_u16_slice_to_string, convert_u16_slice_to_u16cstring,
    create_double_u16cstring,
};

#[test]
fn text_becomes_its_utf16_units() {
    let wide = convert_string_to_u16cstring(&String::from("Net")).unwrap();
    assert_eq!(wide.as_slice(), &[0x4e, 0x65, 0x74]);
    assert_eq!(wide.as_slice_with_nul(), &[0x4e, 0x65, 0x74, 0]);
}

#[test]
fn character_above_the_basic_plane_becomes_a_surrogate_pair() {
    let wide = convert_string_to_u16cstring(&String::from("a\u{1F600}")).unwrap();
    assert_eq!(wide.as_slice(), &[0x61, 0xD83D, 0xDE00]);
    let wide = convert_string_to_u16cstring(&String::from("\u{10000}\u{10FFFF}")).unwrap();
    assert_eq!(wide.as_slice(), &[0xD800, 0xDC00, 0xDBFF, 0xDFFF]);
    let wide = convert_string_to_u16cstring(&String::from("\u{e9}\u{ffff}")).unwrap();
    assert_eq!(wide.as_slice(), &[0xe9, 0xffff]);
}

#[test]
fn empty_text_becomes_an_empty_wide_string() {
    let wide = convert_string_to_u16cstring(&String::new()).unwrap();
    assert_eq!(wide.as_slice(), &[] as &[u16]);
}

#[test]
fn nul_inside_a_text_has_no_wide_string() {
    assert_eq!(convert_string_to_u16cstring(&String::from("a\0b")), None);
    assert_eq!(convert_string_to_u16cstring(&String::from("\0b")), None);
    assert_eq!(convert_string_to_u16cstring(&String::from("a\0\0")), None);
}

#[test]
fn nul_at_the_end_of_a_text_becomes_the_terminator() {
    let wide = convert_string_to_u16cstring(&String::from("ab\0")).unwrap();
    assert_eq!(wide.as_slice(), &[0x61, 0x62]);
    let wide = convert_string_to_u16cstring(&String::from("\0")).unwrap();
    assert_eq!(wide.as_slice(), &[] as &[u16]);
}

#[test]
fn buffer_is_cut_at_its_first_nul() {
    let wide = convert_u16_slice_to_u16cstring(&[0x48, 0x69, 0, 0x58, 0, 0]).unwrap();
    assert_eq!(wide.as_slice(), &[0x48, 0x69]);
    assert_eq!(wide, U16CString::from_str("Hi").unwrap());
}

#[test]
fn buffer_without_a_nul_is_taken_whole() {
    let wide = convert_u16_slice_to_u16cstring(&[0x48, 0x69]).unwrap();
    assert_eq!(wide.as_slice(), &[0x48, 0x69]);
}

#[test]
fn buffer_that_starts_with_a_nul_is_empty() {
    let wide = convert_u16_slice_to_u16cstring(&[0, 0x48, 0x69]).unwrap();
    assert_eq!(wide.as_slice(), &[] as &[u16]);
    let wide = convert_u16_slice_to_u16cstring(&[]).unwrap();
    assert_eq!(wide.as_slice(), &[] as &[u16]);
}

#[test]
fn buffer_decodes_up_to_its_first_nul() {
    assert_eq!(convert_u16_slice_to_string(&[0x48, 0x69, 0, 0x58]), "Hi");
    assert_eq!(convert_u16_slice_to_string(&[0x48, 0x69]), "Hi");
    assert_eq!(convert_u16_slice_to_string(&[0, 0x48]), "");
    assert_eq!(convert_u16_slice_to_string(&[]), "");
    assert_eq!(convert_u16_slice_to_string(&[0xD83D, 0xDE00, 0]), "\u{1F600}");
}

#[test]
fn unpaired_surrogate_is_replaced_when_decoding() {
    assert_eq!(convert_u16_slice_to_string(&[0x61, 0xD800, 0x62, 0]), "a\u{fffd}b");
}

#[test]
fn two_texts_become_two_wide_strings() {
    let pair = create_double_u16cstring(&String::from("Title"), &String::from("Body")).unwrap();
    assert_eq!(pair.0, U16CString::from_str("Title").unwrap());
    assert_eq!(pair.1, U16CString::from_str("Body").unwrap());
}

#[test]
fn either_text_with_a_nul_inside_gives_nothing() {
    assert_eq!(create_double_u16cstring(&String::from("a\0b"), &String::from("ok")), None);
    assert_eq!(create_double_u16cstring(&String::from("ok"), &String::from("a\0b")), None);
    assert_eq!(create_double_u16cstring(&String::from("\0x"), &String::from("\0y")), None);
}

#[test]
fn message_box_answers() {
    assert_eq!(MessageBoxResult::convert(6), MessageBoxResult::Yes);
    assert_eq!(MessageBoxResult::convert(7), MessageBoxResult::No);
    assert_eq!(MessageBoxResult::convert(1), MessageBoxResult::Unknown);
    assert_eq!(MessageBoxResult::convert(2), MessageBoxResult::Unknown);
    assert_eq!(MessageBoxResult::convert(0), MessageBoxResult::Unknown);
    assert_eq!(MessageBoxResult::convert(-1), MessageBoxResult::Unknown);
}

#[test]
fn only_yes_confirms() {
    assert!(MessageBoxResult::Yes.is_confirmed());
    assert!(!MessageBoxResult::No.is_confirmed());
    assert!(!MessageBoxResult::OK.is_confirmed());
    assert!(!MessageBoxResult::Cancel.is_confirmed());
    assert!(!MessageBoxResult::Unknown.is_confirmed());
}
