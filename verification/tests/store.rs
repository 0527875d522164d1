use picviewer::store::{clone_tags, TagData};

fn store_tags_of(list: &[&str]) -> Vec<String> {
    list.iter().map(|tag| tag.to_string()).collect()
}

#[test]
fn empty_store_has_no_tags_for_any_name() {
    let store = TagData::new();
    assert_eq!(store.len(), 0);
    assert!(!store.contains("a.jpg"));
    assert_eq!(store.get("a.jpg"), Vec::<String>::new());
    assert!(store.as_records().is_empty());
}

#[test]
fn insert_then_get_returns_the_tags_in_order() {
    let mut store = TagData::new();
    store.insert("a.jpg".to_string(), store_tags_of(&["sea", "sun", "sea", ""]));
    assert!(store.contains("a.jpg"));
    assert_eq!(store.get("a.jpg"), store_tags_of(&["sea", "sun", "sea", ""]));
    assert_eq!(store.len(), 1);
}

#[test]
fn insert_replaces_the_tags_of_the_name_and_keeps_the_others() {
    let mut store = TagData::new();
    store.insert("a.jpg".to_string(), store_tags_of(&["one", "two"]));
    store.insert("b.png".to_string(), store_tags_of(&["other"]));
    store.insert("a.jpg".to_string(), store_tags_of(&["three"]));
    assert_eq!(store.len(), 2);
    assert_eq!(store.get("a.jpg"), store_tags_of(&["three"]));
    assert_eq!(store.get("b.png"), store_tags_of(&["other"]));
    assert_eq!(store.get("c.gif"), Vec::<String>::new());
}

#[test]
fn names_differ_by_case_and_by_every_character() {
    let mut store = TagData::new();
    store.insert("a.jpg".to_string(), store_tags_of(&["lower"]));
    store.insert("A.jpg".to_string(), store_tags_of(&["upper"]));
    store.insert("".to_string(), store_tags_of(&["nameless"]));
    assert_eq!(store.len(), 3);
    assert_eq!(store.get("a.jpg"), store_tags_of(&["lower"]));
    assert_eq!(store.get("A.jpg"), store_tags_of(&["upper"]));
    assert_eq!(store.get(""), store_tags_of(&["nameless"]));
    assert!(!store.contains("a.jp"));
}

#[test]
fn records_keep_the_order_of_first_insertion() {
    let mut store = TagData::new();
    store.insert("z.jpg".to_string(), store_tags_of(&["1"]));
    store.insert("a.jpg".to_string(), store_tags_of(&["2"]));
    store.insert("z.jpg".to_string(), store_tags_of(&["3"]));
    let records = store.as_records();
    assert_eq!(records.len(), 2);
    assert_eq!(records[0].name, "z.jpg");
    assert_eq!(records[0].tags, store_tags_of(&["3"]));
    assert_eq!(records[1].name, "a.jpg");
    assert_eq!(records[1].tags, store_tags_of(&["2"]));
}

#[test]
fn an_empty_tag_list_is_still_a_record() {
    let mut store = TagData::new();
    store.insert("a.jpg".to_string(), Vec::new());
    assert!(store.contains("a.jpg"));
    assert_eq!(store.get("a.jpg"), Vec::<String>::new());
    assert_eq!(store.len(), 1);
}

#[test]
fn clone_tags_copies_every_tag() {
    let tags = store_tags_of(&["a", "b", "a"]);
    assert_eq!(clone_tags(&tags), tags);
    assert_eq!(clone_tags(&Vec::new()), Vec::<String>::new());
}
