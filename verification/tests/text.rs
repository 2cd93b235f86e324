use cerena::table::NameMap;
use cerena::text::{fnv1a, hex_lower, push_decimal, same, seed32, unhex_bytes};

#[test]
fn fnv_is_stable() {
    assert_eq!(fnv1a("item.ember_staff"), fnv1a("item.ember_staff"));
    assert_ne!(fnv1a("item.ember_staff"), fnv1a("item.frost_staff"));
}

#[test]
fn fnv_has_the_published_values() {
    assert_eq!(fnv1a(""), 0xcbf2_9ce4_8422_2325);
    assert_eq!(fnv1a("a"), 0xaf63_dc4c_8601_ec8c);
    assert_eq!(fnv1a("foobar"), 0x8594_4171_f739_67e8);
}

#[test]
fn seeds_differ_by_name() {
    assert_eq!(seed32(""), 0x811c_9dc5);
    assert_ne!(seed32("mat.a"), seed32("mat.b"));
    assert_eq!(seed32("mat.a"), seed32("mat.a"));
}

#[test]
fn numbers_are_written_in_decimal() {
    let mut out = String::from("n=");
    push_decimal(&mut out, 0);
    push_decimal(&mut out, 10);
    push_decimal(&mut out, u64::MAX);
    assert_eq!(out, "n=01018446744073709551615");
}

#[test]
fn bytes_are_written_in_lower_case() {
    assert_eq!(hex_lower(&[0, 15, 16, 255]), "000f10ff");
    assert_eq!(unhex_bytes("000F10fF".as_bytes()), vec![0, 15, 16, 255]);
    assert_eq!(unhex_bytes("0g11".as_bytes()), Vec::<u8>::new());
}

#[test]
fn texts_are_the_same_letter_for_letter() {
    assert!(same("mob.wisp", "mob.wisp"));
    assert!(!same("mob.wisp", "mob.wasp"));
    assert!(!same("mob", "mob."));
}

#[test]
fn a_name_map_keeps_the_last_value() {
    let mut map: NameMap<u32> = NameMap::new();
    map.insert("b".to_string(), 1);
    map.insert("a".to_string(), 2);
    map.insert("b".to_string(), 3);
    assert_eq!(map.get("b"), Some(&3));
    assert_eq!(map.get("a"), Some(&2));
    assert_eq!(map.get("c"), None);
    assert!(map.contains("a") && !map.contains(""));
    let names: Vec<&str> = map.entries.iter().map(|e| e.0.as_str()).collect();
    assert_eq!(names, vec!["a", "b"]);
}
