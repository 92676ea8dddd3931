use pipewire_device::properties::PropertyBag;

#[test]
fn empty_bag() {
    let bag = PropertyBag::new();
    assert_eq!(bag.len(), 0);
    assert!(bag.get("node.name").is_none());
}

#[test]
fn insert_and_get() {
    let mut bag = PropertyBag::new();
    bag.insert("node.name".to_string(), "Speakers".to_string());
    bag.insert("media.class".to_string(), "Audio/Sink".to_string());
    assert_eq!(bag.len(), 2);
    assert_eq!(bag.get("node.name").cloned(), Some("Speakers".to_string()));
    assert_eq!(bag.get("media.class").cloned(), Some("Audio/Sink".to_string()));
    assert!(bag.get("object.serial").is_none());
}

#[test]
fn repeated_key_keeps_position_and_takes_last_value() {
    let mut bag = PropertyBag::new();
    bag.insert("node.name".to_string(), "Old".to_string());
    bag.insert("media.class".to_string(), "Audio/Sink".to_string());
    bag.insert("node.name".to_string(), "New".to_string());
    assert_eq!(bag.len(), 2);
    assert_eq!(bag.entry_at(0).0, "node.name");
    assert_eq!(bag.entry_at(0).1, "New");
    assert_eq!(bag.entry_at(1).0, "media.class");
    assert_eq!(bag.get("node.name").cloned(), Some("New".to_string()));
}

#[test]
fn from_entries_last_duplicate_wins() {
    let dict = vec![
        ("node.name".to_string(), "Old".to_string()),
        ("node.nick".to_string(), "S".to_string()),
        ("node.name".to_string(), "New".to_string()),
    ];
    let bag = PropertyBag::from_entries(&dict);
    assert_eq!(bag.len(), 2);
    assert_eq!(bag.get("node.name").cloned(), Some("New".to_string()));
    assert_eq!(bag.get("node.nick").cloned(), Some("S".to_string()));
}

#[test]
fn from_entries_keeps_announcement_order() {
    let dict = vec![
        ("b".to_string(), "2".to_string()),
        ("a".to_string(), "1".to_string()),
        ("c".to_string(), "3".to_string()),
    ];
    let bag = PropertyBag::from_entries(&dict);
    assert_eq!(bag.entry_at(0).0, "b");
    assert_eq!(bag.entry_at(1).0, "a");
    assert_eq!(bag.entry_at(2).0, "c");
}
