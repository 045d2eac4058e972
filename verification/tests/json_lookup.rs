use ha_mpris_bridge::json::{obj_get, JsonVal};

#[test]
fn lookup_finds_first_match() {
    let entries = vec![
        ("a".to_string(), JsonVal::Int(1)),
        ("b".to_string(), JsonVal::Int(2)),
        ("a".to_string(), JsonVal::Int(3)),
    ];
    assert_eq!(obj_get(&entries, "a"), Some(&JsonVal::Int(1)));
    assert_eq!(obj_get(&entries, "b"), Some(&JsonVal::Int(2)));
    assert_eq!(obj_get(&entries, "c"), None);
}

#[test]
fn lookup_on_empty_object_misses() {
    let entries: Vec<(String, JsonVal)> = vec![];
    assert_eq!(obj_get(&entries, "a"), None);
}
