//! A catalog files texts under string keys: each key has an ordered list of
//! texts in which nothing occurs twice.

use vstd::prelude::*;
use crate::text::{copy_texts, holds_text, lemma_text_views_push, str_views, text_views};

verus! {

/// What a catalog holds: for each key on file, its texts in the order in
/// which they were first filed.
pub type Lists = Map<Seq<char>, Seq<Seq<char>>>;

/// The list filed under `key`: empty where the key is not on file.
pub open spec fn listed(lists: Lists, key: Seq<char>) -> Seq<Seq<char>> {
    if lists.contains_key(key) {
        lists[key]
    } else {
        Seq::empty()
    }
}

/// `list` with `text` at its end, unless `text` is in it already.
pub open spec fn appended(list: Seq<Seq<char>>, text: Seq<char>) -> Seq<Seq<char>> {
    if list.contains(text) {
        list
    } else {
        list.push(text)
    }
}

/// `lists` after `text` has been filed under `key`.
pub open spec fn filed(lists: Lists, key: Seq<char>, text: Seq<char>) -> Lists {
    lists.insert(key, appended(listed(lists, key), text))
}

/// `lists` after each of `texts` has been filed under `key`, first to last.
pub open spec fn filed_all(lists: Lists, key: Seq<char>, texts: Seq<Seq<char>>) -> Lists
    decreases texts.len(),
{
    if texts.len() == 0 {
        lists
    } else {
        filed(filed_all(lists, key, texts.drop_last()), key, texts.last())
    }
}

/// Every list on file has at least one text and holds none twice.
pub open spec fn tidy(lists: Lists) -> bool {
    forall|key: Seq<char>| #[trigger]
        lists.contains_key(key) ==> lists[key].len() > 0 && lists[key].no_duplicates()
}

/// One key with its texts.
struct Shelf {
    key: String,
    texts: Vec<String>,
}

/// A collection of ordered text lists, each filed under a key.
pub struct Catalog {
    shelves: Vec<Shelf>,
}

spec fn has_shelf(shelves: Seq<Shelf>, key: Seq<char>) -> bool {
    exists|i: int| 0 <= i < shelves.len() && (#[trigger] shelves[i]).key@ == key
}

spec fn shelf_of(shelves: Seq<Shelf>, key: Seq<char>) -> int {
    choose|i: int| 0 <= i < shelves.len() && (#[trigger] shelves[i]).key@ == key
}

spec fn distinct_keys(shelves: Seq<Shelf>) -> bool {
    forall|i: int, j: int|
        0 <= i < j < shelves.len() ==> (#[trigger] shelves[i]).key@ != (#[trigger] shelves[j]).key@
}

spec fn lists_of(shelves: Seq<Shelf>) -> Lists {
    Map::new(
        |key: Seq<char>| has_shelf(shelves, key),
        |key: Seq<char>| text_views(shelves[shelf_of(shelves, key)].texts@),
    )
}

/// With distinct keys, the shelf at `i` is the one that its key leads to.
proof fn lemma_shelf_found(shelves: Seq<Shelf>, i: int)
    requires
        distinct_keys(shelves),
        0 <= i < shelves.len(),
    ensures
        has_shelf(shelves, shelves[i].key@),
        shelf_of(shelves, shelves[i].key@) == i,
        lists_of(shelves).contains_key(shelves[i].key@),
        lists_of(shelves)[shelves[i].key@] == text_views(shelves[i].texts@),
{
    let key = shelves[i].key@;
    let j = shelf_of(shelves, key);
    assert(0 <= j < shelves.len() && shelves[j].key@ == key);
    if j < i {
        assert(shelves[j].key@ != shelves[i].key@);
    } else if i < j {
        assert(shelves[i].key@ != shelves[j].key@);
    }
}

impl View for Catalog {
    type V = Lists;

    closed spec fn view(&self) -> Lists {
        lists_of(self.shelves@)
    }
}

impl Catalog {
    #[verifier::type_invariant]
    spec fn inv(self) -> bool {
        &&& distinct_keys(self.shelves@)
        &&& forall|i: int|
            0 <= i < self.shelves.len() ==> {
                &&& (#[trigger] self.shelves[i]).texts.len() > 0
                &&& text_views(self.shelves[i].texts@).no_duplicates()
            }
    }

    /// A catalog with nothing on file.
    pub fn new() -> (catalog: Catalog)
        ensures
            catalog@ == Lists::empty(),
            tidy(catalog@),
    {
        let catalog = Catalog { shelves: Vec::new() };
        assert(catalog@ =~= Lists::empty());
        catalog
    }

    /// The number of keys on file.
    pub fn len(&self) -> (count: usize)
        ensures
            self@.dom().finite(),
            count == self@.dom().len(),
            tidy(self@),
    {
        proof {
            use_type_invariant(self);
            self.lemma_tidy();
            lemma_key_count(self.shelves@);
        }
        self.shelves.len()
    }

    proof fn lemma_tidy(&self)
        requires
            self.inv(),
        ensures
            tidy(self@),
            self@.dom().finite(),
    {
        let shelves = self.shelves@;
        assert forall|key: Seq<char>| #[trigger] self@.contains_key(key) implies self@[key].len() > 0
            && self@[key].no_duplicates() by {
            let i = shelf_of(shelves, key);
            lemma_shelf_found(shelves, i);
        }
        lemma_key_count(shelves);
    }

    /// The index of the shelf that `key` names, if there is one.
    fn find(&self, key: &String) -> (at: Option<usize>)
        ensures
            match at {
                Some(i) => i < self.shelves.len() && self.shelves[i as int].key@ == key@,
                None => !has_shelf(self.shelves@, key@),
            },
    {
        let mut i: usize = 0;
        while i < self.shelves.len()
            invariant
                i <= self.shelves.len(),
                forall|j: int| 0 <= j < i ==> (#[trigger] self.shelves[j]).key@ != key@,
            decreases self.shelves.len() - i,
        {
            if self.shelves[i].key == *key {
                return Some(i);
            }
            i += 1;
        }
        None
    }

    /// True where nothing is on file.
    pub fn is_empty(&self) -> (empty: bool)
        ensures
            empty == (self@ == Lists::empty()),
    {
        let empty = self.shelves.len() == 0;
        proof {
            if empty {
                assert(self@ =~= Lists::empty());
            } else {
                use_type_invariant(self);
                lemma_shelf_found(self.shelves@, 0);
            }
        }
        empty
    }

    /// True where `key` is on file.
    pub fn has_key(&self, key: &String) -> (found: bool)
        ensures
            found == self@.contains_key(key@),
    {
        self.find(key).is_some()
    }

    /// The keys on file, each once.
    pub fn keys(&self) -> (keys: Vec<String>)
        ensures
            text_views(keys@).no_duplicates(),
            forall|key: Seq<char>| text_views(keys@).contains(key) <==> self@.contains_key(key),
    {
        proof {
            use_type_invariant(self);
        }
        let mut keys: Vec<String> = Vec::new();
        let mut i: usize = 0;
        while i < self.shelves.len()
            invariant
                i <= self.shelves.len(),
                keys.len() == i,
                forall|j: int| 0 <= j < i ==> (#[trigger] keys@[j])@ == self.shelves[j].key@,
            decreases self.shelves.len() - i,
        {
            keys.push(self.shelves[i].key.clone());
            i += 1;
        }
        proof {
            let views = text_views(keys@);
            let shelves = self.shelves@;
            assert forall|a: int, b: int| 0 <= a < views.len() && 0 <= b < views.len() && a != b implies views[a]
                != views[b] by {
                assert(keys@[a]@ == shelves[a].key@ && keys@[b]@ == shelves[b].key@);
                if a < b {
                    assert(shelves[a].key@ != shelves[b].key@);
                } else {
                    assert(shelves[b].key@ != shelves[a].key@);
                }
            }
            assert forall|key: Seq<char>| views.contains(key) <==> self@.contains_key(key) by {
                if views.contains(key) {
                    let j = choose|j: int| 0 <= j < views.len() && views[j] == key;
                    assert(keys@[j]@ == shelves[j].key@);
                }
                if self@.contains_key(key) {
                    let j = shelf_of(shelves, key);
                    assert(keys@[j]@ == shelves[j].key@);
                    assert(views[j] == key);
                }
            }
        }
        keys
    }

    /// The texts filed under `key`, in the order in which they were first
    /// filed; none where the key is not on file.
    pub fn get(&self, key: &String) -> (texts: Vec<String>)
        ensures
            text_views(texts@) == listed(self@, key@),
            texts.len() > 0 <==> self@.contains_key(key@),
            text_views(texts@).no_duplicates(),
    {
        proof {
            use_type_invariant(self);
            self.lemma_tidy();
        }
        match self.find(key) {
            Some(i) => {
                proof {
                    lemma_shelf_found(self.shelves@, i as int);
                }
                copy_texts(&self.shelves[i].texts)
            },
            None => {
                let texts: Vec<String> = Vec::new();
                assert(text_views(texts@) =~= Seq::<Seq<char>>::empty());
                texts
            },
        }
    }

    /// Files each of `texts` under `key`, first to last, as `add` does.
    pub fn add_all(&mut self, key: &str, texts: &Vec<&str>)
        ensures
            final(self)@ == filed_all(old(self)@, key@, str_views(texts@)),
            tidy(final(self)@),
    {
        proof {
            use_type_invariant(&*self);
            self.lemma_tidy();
        }
        let mut i: usize = 0;
        while i < texts.len()
            invariant
                i <= texts.len(),
                self@ == filed_all(old(self)@, key@, str_views(texts@).take(i as int)),
                tidy(self@),
            decreases texts.len() - i,
        {
            proof {
                let next = str_views(texts@).take(i + 1);
                assert(next.drop_last() =~= str_views(texts@).take(i as int));
                assert(next.last() == texts@[i as int]@);
            }
            self.add(String::from_str(key), String::from_str(texts[i]));
            i += 1;
        }
        assert(str_views(texts@).take(texts.len() as int) =~= str_views(texts@));
    }

    /// Files `text` under `key`, at the end of the key's list, unless the list
    /// holds it already.
    pub fn add(&mut self, key: String, text: String)
        ensures
            final(self)@ == filed(old(self)@, key@, text@),
            tidy(final(self)@),
    {
        proof {
            use_type_invariant(&*self);
            self.lemma_tidy();
            lemma_filed_keeps_tidy(self@, key@, text@);
        }
        let found = self.find(&key);
        let ghost before = self.shelves@;
        let mut shelves: Vec<Shelf> = Vec::new();
        core::mem::swap(&mut self.shelves, &mut shelves);
        match found {
            Some(i) => {
                proof {
                    lemma_shelf_found(before, i as int);
                }
                if !holds_text(&shelves[i].texts, &text) {
                    proof {
                        lemma_text_views_push(before[i as int].texts@, text);
                    }
                    shelves[i].texts.push(text);
                    proof {
                        let after = shelves@;
                        assert forall|j: int| 0 <= j < after.len() implies (#[trigger] after[j]).key@
                            == before[j].key@ by {}
                        lemma_same_keys(before, after);
                        lemma_shelf_found(after, i as int);
                        assert forall|k: Seq<char>| #[trigger]
                            lists_of(after).contains_key(k) && k != key@ implies lists_of(after)[k]
                            == lists_of(before)[k] by {
                            let j = shelf_of(after, k);
                            lemma_shelf_found(after, j);
                            lemma_shelf_found(before, j);
                        }
                        assert(lists_of(after) =~= filed(lists_of(before), key@, text@));
                    }
                } else {
                    assert(lists_of(before) =~= filed(lists_of(before), key@, text@));
                }
            },
            None => {
                let mut texts: Vec<String> = Vec::new();
                texts.push(text);
                shelves.push(Shelf { key, texts });
                proof {
                    let after = shelves@;
                    assert(text_views(texts@) =~= Seq::<Seq<char>>::empty().push(text@));
                    assert(distinct_keys(after)) by {
                        assert forall|a: int, b: int| 0 <= a < b < after.len() implies (
                        #[trigger] after[a]).key@ != (#[trigger] after[b]).key@ by {
                            if b < before.len() {
                                assert(before[a].key@ != before[b].key@);
                            } else {
                                assert(before[a].key@ != key@);
                            }
                        }
                    }
                    lemma_shelf_found(after, before.len() as int);
                    assert forall|k: Seq<char>| k != key@ implies (has_shelf(after, k) == has_shelf(
                        before,
                        k,
                    )) by {
                        if has_shelf(after, k) {
                            let j = shelf_of(after, k);
                            assert(before[j].key@ == k);
                        }
                        if has_shelf(before, k) {
                            let j = shelf_of(before, k);
                            assert(after[j].key@ == k);
                        }
                    }
                    assert forall|k: Seq<char>| #[trigger]
                        lists_of(after).contains_key(k) && k != key@ implies lists_of(after)[k]
                        == lists_of(before)[k] by {
                        let j = shelf_of(before, k);
                        lemma_shelf_found(before, j);
                        assert(after[j] == before[j]);
                        lemma_shelf_found(after, j);
                    }
                    assert(lists_of(after) =~= filed(lists_of(before), key@, text@));
                }
            },
        }
        self.shelves = shelves;
    }
}

/// A key that is not on file lists nothing.
pub proof fn lemma_unknown_key_lists_nothing(lists: Lists, key: Seq<char>)
    requires
        !lists.contains_key(key),
    ensures
        listed(lists, key) == Seq::<Seq<char>>::empty(),
        listed(lists, key).len() == 0,
{
}

/// Filing a text a second time changes nothing.
pub proof fn lemma_filed_twice(lists: Lists, key: Seq<char>, text: Seq<char>)
    ensures
        filed(filed(lists, key, text), key, text) == filed(lists, key, text),
        listed(filed(lists, key, text), key).contains(text),
{
    let once = appended(listed(lists, key), text);
    if !listed(lists, key).contains(text) {
        assert(once[once.len() - 1] == text);
    }
    assert(filed(filed(lists, key, text), key, text) =~= filed(lists, key, text));
}

/// Filing keeps what was on file in its order: under the key, the old list
/// is the front of the new one, which is longer by one text at most; every
/// other key keeps its list.
pub proof fn lemma_filed_keeps_order(lists: Lists, key: Seq<char>, text: Seq<char>, other: Seq<char>)
    ensures
        listed(lists, key) == listed(filed(lists, key, text), key).take(listed(lists, key).len() as int),
        listed(filed(lists, key, text), key).len() == listed(lists, key).len() + (if listed(
            lists,
            key,
        ).contains(text) {
            0int
        } else {
            1int
        }),
        other != key ==> listed(filed(lists, key, text), other) == listed(lists, other),
{
    let before = listed(lists, key);
    assert(appended(before, text).take(before.len() as int) =~= before);
}

/// Filing a text in tidy lists leaves them tidy.
pub proof fn lemma_filed_keeps_tidy(lists: Lists, key: Seq<char>, text: Seq<char>)
    requires
        tidy(lists),
    ensures
        tidy(filed(lists, key, text)),
{
    let before = listed(lists, key);
    let after = appended(before, text);
    if lists.contains_key(key) {
        assert(before.no_duplicates());
    }
    if !before.contains(text) {
        assert forall|i: int, j: int| 0 <= i < after.len() && 0 <= j < after.len() && i != j implies after[i]
            != after[j] by {
            if i < before.len() && j < before.len() {
                assert(before[i] != before[j]);
            } else if i < before.len() {
                assert(before.contains(before[i]));
            } else {
                assert(before.contains(before[j]));
            }
        }
    }
    assert forall|k: Seq<char>| #[trigger] filed(lists, key, text).contains_key(k) implies filed(
        lists,
        key,
        text,
    )[k].len() > 0 && filed(lists, key, text)[k].no_duplicates() by {
        if k != key {
            assert(lists.contains_key(k));
        }
    }
}

/// Filing a list of distinct texts under a key that is not on file puts
/// exactly that list on file.
pub proof fn lemma_filed_all_fresh(lists: Lists, key: Seq<char>, texts: Seq<Seq<char>>)
    requires
        !lists.contains_key(key),
        texts.no_duplicates(),
    ensures
        filed_all(lists, key, texts) == if texts.len() == 0 {
            lists
        } else {
            lists.insert(key, texts)
        },
    decreases texts.len(),
{
    if texts.len() > 0 {
        let front = texts.drop_last();
        assert(front.no_duplicates()) by {
            assert forall|i: int, j: int| 0 <= i < front.len() && 0 <= j < front.len() && i != j implies front[i]
                != front[j] by {
                assert(texts[i] != texts[j]);
            }
        }
        lemma_filed_all_fresh(lists, key, front);
        assert(!front.contains(texts.last())) by {
            if front.contains(texts.last()) {
                let i = choose|i: int| 0 <= i < front.len() && front[i] == texts.last();
                assert(texts[i] != texts[texts.len() - 1]);
            }
        }
        assert(front.push(texts.last()) =~= texts);
        let so_far = filed_all(lists, key, front);
        if front.len() == 0 {
            assert(listed(so_far, key) =~= front);
        }
        assert(filed(so_far, key, texts.last()) =~= lists.insert(key, texts));
    }
}

/// Two rows of shelves with the same keys have the same keys on file.
proof fn lemma_same_keys(before: Seq<Shelf>, after: Seq<Shelf>)
    requires
        before.len() == after.len(),
        forall|j: int| 0 <= j < after.len() ==> (#[trigger] after[j]).key@ == before[j].key@,
    ensures
        distinct_keys(before) ==> distinct_keys(after),
        forall|k: Seq<char>| has_shelf(after, k) == has_shelf(before, k),
{
    if distinct_keys(before) {
        assert forall|a: int, b: int| 0 <= a < b < after.len() implies (#[trigger] after[a]).key@ != (
        #[trigger] after[b]).key@ by {
            assert(before[a].key@ != before[b].key@);
        }
    }
    assert forall|k: Seq<char>| has_shelf(after, k) == has_shelf(before, k) by {
        if has_shelf(after, k) {
            let j = shelf_of(after, k);
            assert(before[j].key@ == k);
        }
        if has_shelf(before, k) {
            let j = shelf_of(before, k);
            assert(after[j].key@ == k);
        }
    }
}

/// A row of shelves with distinct keys has as many keys as shelves.
proof fn lemma_key_count(shelves: Seq<Shelf>)
    requires
        distinct_keys(shelves),
    ensures
        lists_of(shelves).dom().finite(),
        lists_of(shelves).dom().len() == shelves.len(),
    decreases shelves.len(),
{
    if shelves.len() == 0 {
        assert(lists_of(shelves).dom() =~= Set::<Seq<char>>::empty());
    } else {
        let front = shelves.drop_last();
        let last = shelves.last();
        assert(distinct_keys(front)) by {
            assert forall|a: int, b: int| 0 <= a < b < front.len() implies (#[trigger] front[a]).key@
                != (#[trigger] front[b]).key@ by {
                assert(shelves[a].key@ != shelves[b].key@);
            }
        }
        lemma_key_count(front);
        assert(!has_shelf(front, last.key@)) by {
            if has_shelf(front, last.key@) {
                let j = shelf_of(front, last.key@);
                assert(shelves[j].key@ != shelves[shelves.len() - 1].key@);
            }
        }
        assert forall|k: Seq<char>| has_shelf(shelves, k) == (has_shelf(front, k) || k == last.key@) by {
            if has_shelf(shelves, k) {
                let j = shelf_of(shelves, k);
                if j < front.len() {
                    assert(front[j].key@ == k);
                }
            }
            if has_shelf(front, k) {
                let j = shelf_of(front, k);
                assert(shelves[j].key@ == k);
            }
            if k == last.key@ {
                assert(shelves[shelves.len() - 1].key@ == k);
            }
        }
        assert(lists_of(shelves).dom() =~= lists_of(front).dom().insert(last.key@));
    }
}

} // verus!
