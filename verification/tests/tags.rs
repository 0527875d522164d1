use picviewer::codec::parse_store;
use picviewer::tags::{load_tags, lookup_tags, save_tags, store_tags, Sidecar};
use picviewer::TagError;

fn tag_list(list: &[&str]) -> Vec<String> {
    list.iter().map(|tag| tag.to_string()).collect()
}

fn written(text: String) -> Sidecar {
    Sidecar::Content(text)
}

#[test]
fn load_without_sidecar_is_empty() {
    assert_eq!(load_tags("/photos/a.jpg", &Sidecar::Missing), Ok(Vec::new()));
    assert_eq!(load_tags("a.jpg", &Sidecar::Missing), Ok(Vec::new()));
    assert_eq!(lookup_tags("a.jpg", &Sidecar::Missing), Ok(Vec::new()));
}

#[test]
fn save_then_load_returns_the_tags() {
    let text = save_tags("/photos/a.jpg", &Sidecar::Missing, tag_list(&["a", "b"])).expect("saved");
    assert_eq!(load_tags("/photos/a.jpg", &written(text)), Ok(tag_list(&["a", "b"])));
}

#[test]
fn save_then_load_keeps_order_duplicates_and_empty_tags() {
    let tags = tag_list(&["b", "a", "b", "", "a", ""]);
    let text = save_tags("/photos/a.jpg", &Sidecar::Missing, tags.clone()).expect("saved");
    assert_eq!(load_tags("/photos/a.jpg", &written(text)), Ok(tags));
}

#[test]
fn save_into_a_missing_sidecar_writes_one_record() {
    let text = save_tags("/photos/a.jpg", &Sidecar::Missing, tag_list(&["a", "b"])).expect("saved");
    assert_eq!(text, "{\n  \"images\": {\n    \"a.jpg\": [\n      \"a\",\n      \"b\"\n    ]\n  }\n}");
}

#[test]
fn second_save_replaces_the_first() {
    let first = save_tags("/photos/a.jpg", &Sidecar::Missing, tag_list(&["one", "two"])).expect("saved");
    let second = save_tags("/photos/a.jpg", &written(first), tag_list(&["three"])).expect("saved");
    assert_eq!(load_tags("/photos/a.jpg", &written(second.clone())), Ok(tag_list(&["three"])));
    let direct = save_tags("/photos/a.jpg", &Sidecar::Missing, tag_list(&["three"])).expect("saved");
    assert_eq!(second, direct);
}

#[test]
fn save_keeps_the_tags_of_other_images() {
    let one = save_tags("/photos/a.jpg", &Sidecar::Missing, tag_list(&["sea"])).expect("saved");
    let two = save_tags("/photos/b.png", &written(one), tag_list(&["hill", "sky"])).expect("saved");
    let three = save_tags("/photos/a.jpg", &written(two), tag_list(&["lake"])).expect("saved");
    let sidecar = written(three);
    assert_eq!(load_tags("/photos/a.jpg", &sidecar), Ok(tag_list(&["lake"])));
    assert_eq!(load_tags("/photos/b.png", &sidecar), Ok(tag_list(&["hill", "sky"])));
    assert_eq!(load_tags("/photos/c.gif", &sidecar), Ok(Vec::new()));
    let store = parse_store(match &sidecar {
        Sidecar::Content(text) => text,
        _ => unreachable!(),
    })
    .expect("a store");
    assert_eq!(store.len(), 2);
}

#[test]
fn save_with_no_tags_keeps_an_empty_record() {
    let one = save_tags("/photos/a.jpg", &Sidecar::Missing, tag_list(&["sea"])).expect("saved");
    let two = save_tags("/photos/a.jpg", &written(one), Vec::new()).expect("saved");
    assert_eq!(two, "{\n  \"images\": {\n    \"a.jpg\": []\n  }\n}");
    assert_eq!(load_tags("/photos/a.jpg", &written(two)), Ok(Vec::new()));
}

#[test]
fn load_fails_on_a_corrupt_sidecar() {
    let corrupt = written("{ this is not json".to_string());
    assert!(matches!(load_tags("/photos/a.jpg", &corrupt), Err(TagError::DataFormat(_))));
    assert!(matches!(lookup_tags("a.jpg", &corrupt), Err(TagError::DataFormat(_))));
}

#[test]
fn save_over_a_corrupt_sidecar_starts_afresh() {
    let corrupt = written("{ this is not json".to_string());
    let text = save_tags("/photos/a.jpg", &corrupt, tag_list(&["new"])).expect("saved");
    assert_eq!(text, "{\n  \"images\": {\n    \"a.jpg\": [\n      \"new\"\n    ]\n  }\n}");
    let store = parse_store(&text).expect("a store");
    assert_eq!(store.len(), 1);
    assert_eq!(store.get("a.jpg"), tag_list(&["new"]));
}

#[test]
fn a_sidecar_of_another_shape_counts_as_corrupt() {
    for text in ["[]", "{}", "{\"images\": 3}", "{\"images\": {\"b.png\": [\"x\", 1]}}"] {
        let sidecar = written(text.to_string());
        assert!(matches!(load_tags("/photos/a.jpg", &sidecar), Err(TagError::DataFormat(_))));
        let saved = save_tags("/photos/a.jpg", &sidecar, tag_list(&["new"])).expect("saved");
        let store = parse_store(&saved).expect("a store");
        assert_eq!(store.len(), 1);
        assert_eq!(store.get("a.jpg"), tag_list(&["new"]));
    }
}

#[test]
fn same_name_in_two_directories_is_independent() {
    let here = save_tags("/one/a.jpg", &Sidecar::Missing, tag_list(&["first"])).expect("saved");
    let there = save_tags("/two/a.jpg", &Sidecar::Missing, tag_list(&["second", "more"])).expect("saved");
    assert_eq!(load_tags("/one/a.jpg", &written(here.clone())), Ok(tag_list(&["first"])));
    assert_eq!(load_tags("/two/a.jpg", &written(there.clone())), Ok(tag_list(&["second", "more"])));
    let here_again = save_tags("/one/a.jpg", &written(here), tag_list(&["changed"])).expect("saved");
    assert_eq!(load_tags("/one/a.jpg", &written(here_again)), Ok(tag_list(&["changed"])));
    assert_eq!(load_tags("/two/a.jpg", &written(there)), Ok(tag_list(&["second", "more"])));
}

#[test]
fn the_directory_is_not_part_of_the_stored_name() {
    let text = save_tags("/one/a.jpg", &Sidecar::Missing, tag_list(&["x"])).expect("saved");
    assert_eq!(load_tags("/elsewhere/deep/a.jpg", &written(text.clone())), Ok(tag_list(&["x"])));
    assert_eq!(lookup_tags("a.jpg", &written(text)), Ok(tag_list(&["x"])));
}

#[test]
fn a_path_without_parent_is_invalid() {
    let good = written("{\"images\": {}}".to_string());
    for path in ["/", ""] {
        for sidecar in [&Sidecar::Missing, &good, &Sidecar::Unreadable("denied".to_string())] {
            assert_eq!(load_tags(path, sidecar), Err(TagError::InvalidPath));
            assert_eq!(save_tags(path, sidecar, tag_list(&["x"])), Err(TagError::InvalidPath));
        }
    }
}

#[test]
fn an_unreadable_sidecar_is_an_io_error_with_its_cause() {
    let sidecar = Sidecar::Unreadable("permission denied".to_string());
    let expected = TagError::Io("permission denied".to_string());
    assert_eq!(load_tags("/photos/a.jpg", &sidecar), Err(expected.clone()));
    assert_eq!(lookup_tags("a.jpg", &sidecar), Err(expected.clone()));
    assert_eq!(save_tags("/photos/a.jpg", &sidecar, tag_list(&["x"])), Err(expected.clone()));
    assert_eq!(store_tags("a.jpg".to_string(), &sidecar, tag_list(&["x"])), Err(expected));
}

#[test]
fn a_path_that_ends_in_dots_is_stored_under_the_empty_name() {
    let text = save_tags("/photos/..", &Sidecar::Missing, tag_list(&["odd"])).expect("saved");
    assert_eq!(text, "{\n  \"images\": {\n    \"\": [\n      \"odd\"\n    ]\n  }\n}");
    assert_eq!(load_tags("/photos/..", &written(text)), Ok(tag_list(&["odd"])));
}

#[test]
fn store_tags_goes_by_the_given_name() {
    let text = store_tags("a.jpg".to_string(), &Sidecar::Missing, tag_list(&["x"])).expect("stored");
    let more = store_tags("b.jpg".to_string(), &written(text), tag_list(&["y"])).expect("stored");
    assert_eq!(lookup_tags("a.jpg", &written(more.clone())), Ok(tag_list(&["x"])));
    assert_eq!(lookup_tags("b.jpg", &written(more.clone())), Ok(tag_list(&["y"])));
    assert_eq!(lookup_tags("A.jpg", &written(more)), Ok(Vec::new()));
}

#[test]
fn load_reads_a_sidecar_written_by_hand() {
    let sidecar = written("{\"images\":{\"a.jpg\":[\"tag1\",\"tag2\"],\"b.png\":[]},\"extra\":true}".to_string());
    assert_eq!(load_tags("/photos/a.jpg", &sidecar), Ok(tag_list(&["tag1", "tag2"])));
    assert_eq!(load_tags("/photos/b.png", &sidecar), Ok(Vec::new()));
    assert_eq!(load_tags("/photos/c.gif", &sidecar), Ok(Vec::new()));
}

#[test]
fn messages_of_the_errors() {
    assert_eq!(TagError::NotFound.message(), "Directory does not exist");
    assert_eq!(TagError::InvalidPath.message(), "Invalid image path");
    assert_eq!(TagError::Io("disk full".to_string()).message(), "disk full");
    assert_eq!(TagError::DataFormat("bad".to_string()).message(), "bad");
    let said = serde_json::from_str::<serde_json::Value>("nope").unwrap_err().to_string();
    match load_tags("/photos/a.jpg", &written("nope".to_string())) {
        Err(error) => assert_eq!(error.message(), said),
        Ok(_) => panic!("not json"),
    }
}
