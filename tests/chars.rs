use std::collections::hash_map::DefaultHasher;
use std::collections::HashMap;
use std::hash::{Hash, Hasher};

use bytes::Bytes;
use proto_values::chars::Chars;

fn hash_of<T: Hash + ?Sized>(v: &T) -> u64 {
    let mut h = DefaultHasher::new();
    v.hash(&mut h);
    h.finish()
}

#[test]
fn test_chars_hashmap() {
    let mut table: HashMap<Chars, u64> = HashMap::new();
    table.insert("foo".into(), 5);
    assert_eq!(5, *table.get("foo").unwrap());
}

#[test]
fn test_display_and_debug() {
    let s = "test";
    let string: String = s.into();
    let chars: Chars = s.into();

    assert_eq!(format!("{}", string), chars.to_string());
    assert_eq!(format!("{:?}", string), chars.to_debug_string());
}

#[test]
fn debug_rendering_escapes_like_str() {
    let chars = Chars::from(String::from("a\"b\n\u{e9}"));
    assert_eq!(chars.to_debug_string(), format!("{:?}", "a\"b\n\u{e9}"));
    assert_eq!(chars.to_debug_string(), "\"a\\\"b\\n\u{e9}\"");
}

#[test]
fn hashes_like_the_text() {
    let s = String::from("h\u{e9}llo");
    let chars = Chars::from(s.clone());
    assert_eq!(hash_of(&chars), hash_of(s.as_str()));
    assert_ne!(hash_of(&chars), hash_of(s.as_bytes()));
    let empty = Chars::new();
    assert_eq!(hash_of(&empty), hash_of(""));
}

#[test]
fn string_keyed_lookup_after_from_string() {
    let mut table: HashMap<Chars, u64> = HashMap::new();
    table.insert(Chars::from(String::from("bar")), 7);
    assert_eq!(Some(&7), table.get("bar"));
    assert_eq!(None, table.get("baz"));
}

#[test]
fn valid_bytes_are_accepted() {
    let b = Bytes::from(vec![0x68, 0xc3, 0xa9, 0xe2, 0x82, 0xac]);
    let c = Chars::from_bytes(b.clone()).unwrap();
    assert_eq!(c.as_str(), "h\u{e9}\u{20ac}");
    assert_eq!(c.len(), 6);
    assert!(!c.is_empty());
    assert_eq!(c.into_bytes(), b);
}

#[test]
fn empty_bytes_are_accepted() {
    let c = Chars::from_bytes(Bytes::new()).unwrap();
    assert!(c.is_empty());
    assert_eq!(c.as_str(), "");
}

#[test]
fn invalid_bytes_are_rejected() {
    match Chars::from_bytes(Bytes::from(vec![0x61, 0x62, 0xff, 0x63])) {
        Ok(_) => panic!("accepted invalid UTF-8"),
        Err(e) => assert_eq!(e.valid_up_to(), 2),
    }
    assert!(Chars::from_bytes(Bytes::from_static(&[0xc3])).is_err());
    assert!(Chars::from_bytes(Bytes::from_static(&[0xed, 0xa0, 0x80])).is_err());
}

#[test]
fn clear_leaves_it_empty() {
    let mut c = Chars::from("abc");
    assert!(!c.is_empty());
    c.clear();
    assert!(c.is_empty());
    assert_eq!(c.len(), 0);
    assert_eq!(c.as_str(), "");
    let mut e = Chars::new();
    e.clear();
    assert!(e.is_empty());
}

#[test]
fn length_counts_bytes() {
    let c = Chars::from("\u{e9}t\u{e9}");
    assert_eq!(c.len(), 5);
    assert_eq!(c.as_str().chars().count(), 3);
}

#[test]
fn conversions_keep_the_text() {
    let c = Chars::from_static_str("static");
    assert_eq!(&*c, "static");
    let owned: String = c.clone().into();
    assert_eq!(owned, "static");
    assert_eq!(c.into_string(), "static");
    let d = Chars::from_string(String::from("owned"));
    assert_eq!(d.as_str(), "owned");
    assert_eq!(d.into_bytes(), Bytes::from_static(b"owned"));
}

#[test]
fn equality_and_order_follow_the_bytes() {
    let a = Chars::from("abc");
    let b = Chars::from(String::from("abc"));
    let c = Chars::from("abd");
    assert!(a == b);
    assert!(a != c);
    assert!(a < c);
    assert!(Chars::new() < a);
    assert!(Chars::default() == Chars::new());
    assert!(a.clone() == a);
}

#[test]
fn views_as_text_and_bytes() {
    let c = Chars::from("xy\u{e9}");
    let s: &str = c.as_ref();
    let b: &[u8] = c.as_ref();
    assert_eq!(s, "xy\u{e9}");
    assert_eq!(b, &[0x78, 0x79, 0xc3, 0xa9]);
    let borrowed: &str = std::borrow::Borrow::borrow(&c);
    assert_eq!(borrowed, "xy\u{e9}");
}

#[test]
fn error_locates_the_first_invalid_sequence() {
    match Chars::from_bytes(Bytes::from_static(&[0x66, 0x6f, 0xff, 0x61])) {
        Ok(_) => panic!("accepted invalid UTF-8"),
        Err(e) => assert_eq!(e.valid_up_to(), 2),
    }
    match Chars::from_bytes(Bytes::from_static(&[0xe2, 0x82])) {
        Ok(_) => panic!("accepted a truncated sequence"),
        Err(e) => assert_eq!(e.valid_up_to(), 0),
    }
}

#[test]
fn order_is_bytewise_with_prefixes_first() {
    let ab = Chars::from("ab");
    let abc = Chars::from("abc");
    let b = Chars::from("b");
    assert!(ab < abc);
    assert!(abc < b);
    assert!(Chars::new() < ab);
    assert_eq!(ab.partial_cmp(&Chars::from("ab")), Some(std::cmp::Ordering::Equal));
    assert_eq!(b.cmp(&abc), std::cmp::Ordering::Greater);
}
