//! The tag store of one directory: which tags each image file name carries.

use vstd::prelude::*;

verus! {

/// A directory's tag store as a mathematical value: tags by image file name.
pub type StoreMap = Map<Seq<char>, Seq<Seq<char>>>;

/// A list of tags as sequences of characters, in order and with duplicates.
pub open spec fn tags_view(tags: Seq<String>) -> Seq<Seq<char>> {
    tags.map_values(|tag: String| tag@)
}

/// The tags that a store holds for a file name: none where the name is absent.
pub open spec fn lookup(store: StoreMap, name: Seq<char>) -> Seq<Seq<char>> {
    if store.contains_key(name) {
        store[name]
    } else {
        Seq::empty()
    }
}

/// No two records carry the same file name.
pub open spec fn distinct_names(records: Seq<(Seq<char>, Seq<Seq<char>>)>) -> bool {
    forall|i: int, j: int| 0 <= i < j < records.len() ==> records[i].0 != records[j].0
}

/// Whether some record carries the file name.
pub open spec fn has_name(records: Seq<(Seq<char>, Seq<Seq<char>>)>, name: Seq<char>) -> bool {
    exists|i: int| 0 <= i < records.len() && (#[trigger] records[i]).0 == name
}

/// The store that a sequence of records stands for.
pub open spec fn records_map(records: Seq<(Seq<char>, Seq<Seq<char>>)>) -> StoreMap {
    Map::new(
        |name: Seq<char>| has_name(records, name),
        |name: Seq<char>|
            records[choose|i: int| 0 <= i < records.len() && (#[trigger] records[i]).0 == name].1,
    )
}

/// With distinct names, the store maps each record's name to that record's tags.
pub proof fn lemma_record_in_map(records: Seq<(Seq<char>, Seq<Seq<char>>)>, i: int)
    requires
        distinct_names(records),
        0 <= i < records.len(),
    ensures
        records_map(records).contains_key(records[i].0),
        records_map(records)[records[i].0] == records[i].1,
{
}

/// Appending a record under a new name inserts it into the store.
pub proof fn lemma_push_record(
    records: Seq<(Seq<char>, Seq<Seq<char>>)>,
    name: Seq<char>,
    tags: Seq<Seq<char>>,
)
    requires
        distinct_names(records),
        !has_name(records, name),
    ensures
        distinct_names(records.push((name, tags))),
        records_map(records.push((name, tags))) == records_map(records).insert(name, tags),
{
    let grown = records.push((name, tags));
    assert forall|key: Seq<char>|
        has_name(grown, key) <==> (key == name || has_name(records, key)) by {
        if key == name {
            assert(grown[records.len() as int].0 == key);
        }
        if has_name(records, key) {
            let k = choose|k: int| 0 <= k < records.len() && (#[trigger] records[k]).0 == key;
            assert(grown[k].0 == key);
        }
    }
    assert forall|key: Seq<char>| has_name(grown, key) implies records_map(grown)[key]
        == records_map(records).insert(name, tags)[key] by {
        let k = choose|k: int| 0 <= k < grown.len() && (#[trigger] grown[k]).0 == key;
        lemma_record_in_map(grown, k);
        if k < records.len() {
            lemma_record_in_map(records, k);
        }
    }
}

/// Replacing the tags of a record replaces them in the store.
pub proof fn lemma_update_record(
    records: Seq<(Seq<char>, Seq<Seq<char>>)>,
    i: int,
    tags: Seq<Seq<char>>,
)
    requires
        distinct_names(records),
        0 <= i < records.len(),
    ensures
        distinct_names(records.update(i, (records[i].0, tags))),
        records_map(records.update(i, (records[i].0, tags))) == records_map(records).insert(
            records[i].0,
            tags,
        ),
{
    let name = records[i].0;
    let changed = records.update(i, (name, tags));
    assert forall|key: Seq<char>| has_name(changed, key) <==> has_name(records, key) by {
        if has_name(records, key) {
            let k = choose|k: int| 0 <= k < records.len() && (#[trigger] records[k]).0 == key;
            assert(changed[k].0 == key);
        }
    }
    assert forall|key: Seq<char>| has_name(changed, key) implies records_map(changed)[key]
        == records_map(records).insert(name, tags)[key] by {
        let k = choose|k: int| 0 <= k < changed.len() && (#[trigger] changed[k]).0 == key;
        lemma_record_in_map(changed, k);
        lemma_record_in_map(records, k);
    }
}

/// A copy of a list of tags.
pub fn clone_tags(tags: &Vec<String>) -> (copy: Vec<String>)
    ensures
        copy@ == tags@,
{
    let mut copy: Vec<String> = Vec::new();
    let mut i: usize = 0;
    while i < tags.len()
        invariant
            i <= tags.len(),
            copy@ == tags@.take(i as int),
        decreases tags.len() - i,
    {
        copy.push(tags[i].clone());
        i += 1;
    }
    copy
}

/// The tags of one image, under its bare file name.
#[derive(Debug, Clone, PartialEq, Eq)]
pub struct TagRecord {
    pub name: String,
    pub tags: Vec<String>,
}

impl View for TagRecord {
    type V = (Seq<char>, Seq<Seq<char>>);

    open spec fn view(&self) -> (Seq<char>, Seq<Seq<char>>) {
        (self.name@, tags_view(self.tags@))
    }
}

/// The records of a list, each as its file name and tags.
pub open spec fn records_view(records: Seq<TagRecord>) -> Seq<(Seq<char>, Seq<Seq<char>>)> {
    records.map_values(|record: TagRecord| record@)
}

/// The tag store of one directory. No file name occurs twice in it.
#[derive(Debug)]
pub struct TagData {
    images: Vec<TagRecord>,
}

impl View for TagData {
    type V = StoreMap;

    open spec fn view(&self) -> StoreMap {
        records_map(self.records())
    }
}

impl TagData {
    /// The records in the order in which their names were first stored.
    pub closed spec fn records(&self) -> Seq<(Seq<char>, Seq<Seq<char>>)> {
        records_view(self.images@)
    }

    #[verifier::type_invariant]
    spec fn well_formed(&self) -> bool {
        distinct_names(records_view(self.images@))
    }

    /// The empty store.
    pub fn new() -> (store: TagData)
        ensures
            store.records() == Seq::<(Seq<char>, Seq<Seq<char>>)>::empty(),
            store@ == StoreMap::empty(),
    {
        TagData { images: Vec::new() }
    }

    /// The number of images that the store has a record for.
    pub fn len(&self) -> (n: usize)
        ensures
            n == self.records().len(),
    {
        self.images.len()
    }

    /// The records themselves, for a reader that walks the whole store.
    pub fn as_records(&self) -> (records: &Vec<TagRecord>)
        ensures
            records_view(records@) == self.records(),
            distinct_names(self.records()),
    {
        proof {
            use_type_invariant(self);
        }
        &self.images
    }

    /// Where the record of a file name stands, if the store has one.
    fn position(&self, name: &str) -> (at: Option<usize>)
        ensures
            match at {
                Some(i) => i < self.records().len() && self.records()[i as int].0 == name@,
                None => !has_name(self.records(), name@),
            },
    {
        let wanted = name.to_owned();
        let mut i: usize = 0;
        while i < self.images.len()
            invariant
                i <= self.images.len(),
                wanted@ == name@,
                forall|k: int| 0 <= k < i ==> (#[trigger] self.records()[k]).0 != name@,
            decreases self.images.len() - i,
        {
            if self.images[i].name == wanted {
                return Some(i);
            }
            i += 1;
        }
        None
    }

    /// Whether the store has a record for the file name.
    pub fn contains(&self, name: &str) -> (found: bool)
        ensures
            found == self@.contains_key(name@),
    {
        self.position(name).is_some()
    }

    /// The tags stored for a file name, in stored order; none where the store
    /// has no record for it.
    pub fn get(&self, name: &str) -> (tags: Vec<String>)
        ensures
            tags_view(tags@) == lookup(self@, name@),
    {
        match self.position(name) {
            Some(i) => {
                proof {
                    use_type_invariant(self);
                    lemma_record_in_map(self.records(), i as int);
                }
                clone_tags(&self.images[i].tags)
            },
            None => Vec::new(),
        }
    }

    /// Stores `tags` for a file name, in place of whatever was stored for it.
    /// Every other record stays as it is.
    pub fn insert(&mut self, name: String, tags: Vec<String>)
        ensures
            final(self)@ == old(self)@.insert(name@, tags_view(tags@)),
    {
        proof {
            use_type_invariant(&*self);
        }
        let ghost before = self.records();
        let ghost stored = tags_view(tags@);
        let at = self.position(name.as_str());
        let mut images: Vec<TagRecord> = Vec::new();
        core::mem::swap(&mut self.images, &mut images);
        match at {
            Some(i) => {
                proof {
                    lemma_update_record(before, i as int, stored);
                }
                images.set(i, TagRecord { name, tags });
                assert(records_view(images@) =~= before.update(
                    i as int,
                    (before[i as int].0, stored),
                ));
            },
            None => {
                proof {
                    lemma_push_record(before, name@, stored);
                }
                images.push(TagRecord { name, tags });
                assert(records_view(images@) =~= before.push((name@, stored)));
            },
        }
        self.images = images;
    }
}

} // verus!
