use ustring::{IndexOutOfBounds, UString};

#[test]
fn hello_with_accent_is_five_scalars() {
    let s = UString::from("héllo");
    let v = s.as_ustr();
    assert_eq!(v.len(), 5);
    assert_eq!(v[1], 'é');
    assert_eq!(v.try_index(1), Ok('é'));
    assert_eq!(v.slice(1, 3).to_string(), "él");
    let he = UString::from("hé");
    assert!(v.starts_with(&he.as_ustr()));
    let lo = UString::from("lo");
    assert!(v.ends_with(&lo.as_ustr()));
}

#[test]
fn hello_with_accent_rejects_wrong_affixes() {
    let s = UString::from("héllo");
    let v = s.as_ustr();
    let he_plain = UString::from("he");
    assert!(!v.starts_with(&he_plain.as_ustr()));
    let ll = UString::from("ll");
    assert!(!v.ends_with(&ll.as_ustr()));
    assert!(!v.starts_with(&ll.as_ustr()));
}

#[test]
fn empty_owned_value() {
    let s = UString::default();
    let v = s.as_ustr();
    assert_eq!(v.len(), 0);
    assert!(v.slice_shift_char().is_none());
    assert_eq!(String::from(&s), "");
    assert_eq!(v.to_string(), "");
    assert_eq!(String::from(s), "");
}

#[test]
fn empty_text_gives_empty_value() {
    let s = UString::from("");
    assert_eq!(s.as_ustr().len(), 0);
    assert!(s.as_ustr().slice_shift_char().is_none());
    assert_eq!(s, UString::default());
}

#[test]
fn push_bang_onto_hi() {
    let mut s = UString::from("hi");
    s.push('!');
    assert_eq!(s.as_ustr().to_string(), "hi!");
    assert_eq!(s.as_ustr().len(), 3);
    assert_eq!(s.as_ustr()[2], '!');
    assert_eq!(String::from(s), "hi!");
}

#[test]
fn the_one_error_is_index_out_of_bounds() {
    let mut s = UString::from("ab");
    assert_eq!(s.as_ustr().try_index(2), Err(IndexOutOfBounds));
    assert_eq!(s.as_ustr().try_slice(1, 3).map(|v| v.to_string()), Err(IndexOutOfBounds));
    assert_eq!(s.try_remove(2), Err(IndexOutOfBounds));
    assert_eq!(format!("{:?}", IndexOutOfBounds), "IndexOutOfBounds");
}
