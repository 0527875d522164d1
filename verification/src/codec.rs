//! The JSON form of a tag store, `{"images": {"<file name>": ["<tag>", ...]}}`,
//! and the way between that form and [`TagData`].

use crate::error::TagError;
use crate::json::{
    array_value, as_array, as_object, as_text, empty_object, error_text, json_of_text, member,
    member_names, object_members, object_value, parse, pretty_text, print_pretty, put_member,
    text_value, value_json, values_json, Json,
};
use crate::store::{
    distinct_names, has_name, lemma_record_in_map, records_view, tags_view, StoreMap, TagData,
};
use vstd::prelude::*;

verus! {

/// The name of the one member of a store document that is read.
pub open spec fn images_key() -> Seq<char> {
    "images"@
}

/// The JSON form of a list of tags: the array of its tags as strings.
pub open spec fn tags_json(tags: Seq<Seq<char>>) -> Json {
    Json::Array(tags.map_values(|tag: Seq<char>| Json::Text(tag)))
}

/// The JSON form of a store: an object whose member `images` is an object
/// with one member per file name, the array of that image's tags.
pub open spec fn store_json(store: StoreMap) -> Json {
    Json::Object(
        Map::<Seq<char>, Json>::empty().insert(
            images_key(),
            Json::Object(store.map_values(|tags: Seq<Seq<char>>| tags_json(tags))),
        ),
    )
}

/// Whether every item of a list is a string.
pub open spec fn all_text(items: Seq<Json>) -> bool {
    forall|i: int| 0 <= i < items.len() ==> (#[trigger] items[i]) is Text
}

/// The list of tags that a document stands for: it must be an array of
/// strings.
pub open spec fn json_tags(list: Json) -> Option<Seq<Seq<char>>> {
    match list {
        Json::Array(items) => if all_text(items) {
            Some(items.map_values(|item: Json| item->Text_0))
        } else {
            None
        },
        _ => None,
    }
}

/// The store that a document stands for. The document must be an object with
/// a member `images`, that member an object, and each of its members an array
/// of strings. Other members of the document are not looked at.
pub open spec fn json_store(document: Json) -> Option<StoreMap> {
    match document {
        Json::Object(root) => if root.contains_key(images_key()) {
            match root[images_key()] {
                Json::Object(images) => if forall|name: Seq<char>|
                    images.contains_key(name) ==> json_tags(#[trigger] images[name]) is Some {
                    Some(images.map_values(|list: Json| json_tags(list).unwrap()))
                } else {
                    None
                },
                _ => None,
            }
        } else {
            None
        },
        _ => None,
    }
}

/// The store that a sidecar's text stands for, if it stands for one: the
/// text must be JSON, and the document a store.
pub open spec fn text_store(text: Seq<char>) -> Option<StoreMap> {
    match json_of_text(text) {
        Some(document) => json_store(document),
        None => None,
    }
}

/// The text that is written for a store.
pub open spec fn store_text(store: StoreMap) -> Seq<char> {
    pretty_text(store_json(store))
}

/// A list of tags is read back from its JSON form unchanged, in order and
/// with its duplicates.
pub proof fn lemma_tags_round_trip(tags: Seq<Seq<char>>)
    ensures
        json_tags(tags_json(tags)) == Some(tags),
{
    assert(tags_json(tags)->Array_0.map_values(|item: Json| item->Text_0) =~= tags);
}

/// A store is read back from its JSON form unchanged.
pub proof fn lemma_store_round_trip(store: StoreMap)
    ensures
        json_store(store_json(store)) == Some(store),
{
    let images = store.map_values(|tags: Seq<Seq<char>>| tags_json(tags));
    assert forall|name: Seq<char>| images.contains_key(name) implies json_tags(
        #[trigger] images[name],
    ) == Some(store[name]) by {
        lemma_tags_round_trip(store[name]);
    }
    assert(images.map_values(|list: Json| json_tags(list).unwrap()) =~= store);
}

/// Reads a list of tags from a JSON value: `None` unless the value is an
/// array of strings.
pub fn decode_tags(list: &serde_json::Value) -> (r: Option<Vec<String>>)
    ensures
        match json_tags(value_json(*list)) {
            Some(tags) => r matches Some(read) && tags_view(read@) == tags,
            None => r is None,
        },
{
    let items = match as_array(list) {
        Some(items) => items,
        None => {
            return None;
        },
    };
    let ghost documents = values_json(items@);
    let mut tags: Vec<String> = Vec::new();
    let mut i: usize = 0;
    while i < items.len()
        invariant
            i <= items.len(),
            value_json(*list) == Json::Array(documents),
            documents == values_json(items@),
            tags.len() == i,
            forall|k: int| 0 <= k < i ==> #[trigger] documents[k] == Json::Text(tags[k]@),
        decreases items.len() - i,
    {
        match as_text(&items[i]) {
            Some(text) => {
                tags.push(text.to_owned());
            },
            None => {
                assert(!(documents[i as int] is Text));
                return None;
            },
        }
        i += 1;
    }
    Some(tags)
}

/// Reads a store from a JSON value: `None` unless the value has the form of
/// a store.
pub fn decode_store(document: &serde_json::Value) -> (r: Option<TagData>)
    ensures
        match json_store(value_json(*document)) {
            Some(store) => r matches Some(read) && read@ == store,
            None => r is None,
        },
{
    let root = match as_object(document) {
        Some(root) => root,
        None => {
            return None;
        },
    };
    let images_value = match member(root, "images") {
        Some(value) => value,
        None => {
            return None;
        },
    };
    let images = match as_object(images_value) {
        Some(images) => images,
        None => {
            return None;
        },
    };
    let ghost members = object_members(*root);
    let ghost lists = object_members(*images);
    let names = member_names(images);
    let mut store = TagData::new();
    let mut i: usize = 0;
    while i < names.len()
        invariant
            i <= names.len(),
            value_json(*document) == Json::Object(members),
            members.contains_key(images_key()),
            members[images_key()] == Json::Object(lists),
            lists == object_members(*images),
            forall|a: int, b: int| 0 <= a < b < names.len() ==> names[a]@ != names[b]@,
            forall|k: int| 0 <= k < names.len() ==> lists.contains_key(#[trigger] names[k]@),
            forall|k: int| 0 <= k < i ==> json_tags(lists[#[trigger] names[k]@]) is Some,
            forall|name: Seq<char>|
                store@.contains_key(name) <==> exists|k: int|
                    0 <= k < i && #[trigger] names[k]@ == name,
            forall|name: Seq<char>| #[trigger]
                store@.contains_key(name) ==> Some(store@[name]) == json_tags(lists[name]),
        decreases names.len() - i,
    {
        let name = names[i].clone();
        let tags = match member(images, name.as_str()) {
            Some(list) => match decode_tags(list) {
                Some(tags) => tags,
                None => {
                    return None;
                },
            },
            None => {
                return None;
            },
        };
        store.insert(name, tags);
        assert forall|key: Seq<char>| store@.contains_key(key) implies exists|k: int|
            0 <= k < i + 1 && #[trigger] names[k]@ == key by {
            if key != names[i as int]@ {
                let k = choose|k: int| 0 <= k < i && #[trigger] names[k]@ == key;
                assert(names[k]@ == key);
            }
        }
        i += 1;
    }
    assert forall|name: Seq<char>| lists.contains_key(name) implies store@.contains_key(name)
        && json_tags(#[trigger] lists[name]) is Some by {
        let k = choose|k: int| 0 <= k < names.len() && #[trigger] names[k]@ == name;
        assert(json_tags(lists[names[k]@]) is Some);
    }
    assert(store@ =~= lists.map_values(|list: Json| json_tags(list).unwrap()));
    Some(store)
}

/// Reads a store from the text of a sidecar file. Fails with `DataFormat`
/// exactly where the text is not JSON or the document is not a store.
pub fn parse_store(text: &str) -> (r: Result<TagData, TagError>)
    ensures
        match text_store(text@) {
            Some(store) => r matches Ok(read) && read@ == store,
            None => r matches Err(TagError::DataFormat(_)),
        },
{
    match parse(text) {
        Ok(document) => match decode_store(&document) {
            Some(store) => Ok(store),
            None => Err(
                TagError::DataFormat("the document is not a tag store".to_owned()),
            ),
        },
        Err(error) => Err(TagError::DataFormat(error_text(&error))),
    }
}

/// The JSON value of a list of tags.
pub fn encode_tags(tags: &Vec<String>) -> (value: serde_json::Value)
    ensures
        value_json(value) == tags_json(tags_view(tags@)),
{
    let mut items: Vec<serde_json::Value> = Vec::new();
    let mut i: usize = 0;
    while i < tags.len()
        invariant
            i <= tags.len(),
            items.len() == i,
            forall|k: int| 0 <= k < i ==> value_json(#[trigger] items[k]) == Json::Text(tags[k]@),
        decreases tags.len() - i,
    {
        items.push(text_value(tags[i].clone()));
        i += 1;
    }
    assert(values_json(items@) =~= tags_view(tags@).map_values(|tag: Seq<char>| Json::Text(tag)));
    array_value(items)
}

/// The JSON value of a store.
pub fn encode_store(store: &TagData) -> (document: serde_json::Value)
    ensures
        value_json(document) == store_json(store@),
{
    let records = store.as_records();
    let ghost model = store.records();
    let mut images = empty_object();
    let mut i: usize = 0;
    while i < records.len()
        invariant
            i <= records.len(),
            records_view(records@) == model,
            model == store.records(),
            distinct_names(model),
            forall|name: Seq<char>|
                object_members(images).contains_key(name) <==> exists|k: int|
                    0 <= k < i && (#[trigger] model[k]).0 == name,
            forall|k: int|
                0 <= k < i ==> object_members(images)[(#[trigger] model[k]).0] == tags_json(
                    model[k].1,
                ),
        decreases records.len() - i,
    {
        let record = &records[i];
        assert(record@ == model[i as int]);
        put_member(&mut images, record.name.clone(), encode_tags(&record.tags));
        assert forall|name: Seq<char>|
            object_members(images).contains_key(name) implies exists|k: int|
            0 <= k < i + 1 && (#[trigger] model[k]).0 == name by {
            if name != model[i as int].0 {
                let k = choose|k: int| 0 <= k < i && (#[trigger] model[k]).0 == name;
                assert(model[k].0 == name);
            }
        }
        i += 1;
    }
    proof {
        let wanted = store@.map_values(|tags: Seq<Seq<char>>| tags_json(tags));
        assert forall|name: Seq<char>| wanted.contains_key(name) implies object_members(
            images,
        ).contains_key(name) && object_members(images)[name] == wanted[name] by {
            let k = choose|k: int| 0 <= k < model.len() && (#[trigger] model[k]).0 == name;
            lemma_record_in_map(model, k);
        }
        assert forall|name: Seq<char>| object_members(images).contains_key(
            name,
        ) implies wanted.contains_key(name) by {
            assert(has_name(model, name));
        }
        assert(object_members(images) =~= wanted);
    }
    let mut root = empty_object();
    put_member(&mut root, "images".to_owned(), object_value(images));
    object_value(root)
}

/// The text to write for a store: its JSON form, printed over several lines
/// with indentation.
pub fn render_store(store: &TagData) -> (text: String)
    ensures
        text@ == store_text(store@),
{
    let document = encode_store(store);
    match print_pretty(&document) {
        Ok(text) => text,
        Err(_) => unreached(),
    }
}

} // verus!
