use ustring::{IntoIter, Iter, UString};

#[test]
fn by_reference_yields_in_storage_order() {
    let s = UString::from("héllo");
    let mut it: Iter<'_> = (&s).into_iter();
    assert_eq!(it.next(), Some(&'h'));
    assert_eq!(it.next(), Some(&'é'));
    assert_eq!(it.next(), Some(&'l'));
    assert_eq!(it.next(), Some(&'l'));
    assert_eq!(it.next(), Some(&'o'));
    assert_eq!(it.next(), None);
    assert_eq!(it.next(), None);
}

#[test]
fn by_reference_leaves_the_source_and_restarts() {
    let s = UString::from("abc");
    let first: Vec<char> = (&s).into_iter().cloned().collect();
    let second: Vec<char> = (&s).into_iter().cloned().collect();
    assert_eq!(first, vec!['a', 'b', 'c']);
    assert_eq!(first, second);
    assert_eq!(s.as_ustr().len(), 3);
}

#[test]
fn by_value_drains_in_storage_order() {
    let s = UString::from("añb");
    let mut it: IntoIter = s.into_iter();
    assert_eq!(it.next(), Some('a'));
    assert_eq!(it.next(), Some('ñ'));
    assert_eq!(it.next(), Some('b'));
    assert_eq!(it.next(), None);
    assert_eq!(it.next(), None);
}

#[test]
fn view_iterates_over_its_window_only() {
    let s = UString::from("héllo");
    let middle: Vec<&char> = s.as_ustr().slice(1, 4).into_iter().collect();
    assert_eq!(middle, vec![&'é', &'l', &'l']);
}

#[test]
fn empty_string_yields_nothing() {
    let s = UString::default();
    assert_eq!((&s).into_iter().next(), None);
    assert_eq!(s.as_ustr().into_iter().next(), None);
    assert_eq!(s.into_iter().next(), None);
}

#[test]
fn for_loops_over_each_form() {
    let s = UString::from("abc");
    let mut seen = String::new();
    for c in &s {
        seen.push(*c);
    }
    for c in s.as_ustr() {
        seen.push(*c);
    }
    for c in s {
        seen.push(c);
    }
    assert_eq!(seen, "abcabcabc");
}

#[test]
fn iterators_compose_with_std_adaptors() {
    let s = UString::from("héllo");
    let upper: String = s.as_ustr().into_iter().flat_map(|c| c.to_uppercase()).collect();
    assert_eq!(upper, "HÉLLO");
    assert_eq!((&s).into_iter().count(), 5);
    let mut all: Vec<char> = s.into_iter().collect();
    all.reverse();
    assert_eq!(String::from(UString::from(all)), "olléh");
}

#[test]
fn debug_of_iterators_is_available() {
    let s = UString::from("a");
    assert!(format!("{:?}", (&s).into_iter()).contains("'a'"));
    assert!(format!("{:?}", s.into_iter()).contains("'a'"));
}
