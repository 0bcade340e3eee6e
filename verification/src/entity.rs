//! The record that an instruction is projected into: a mapping from attribute
//! names to values.

use vstd::prelude::*;

verus! {

/// The value of one attribute of a record.
#[derive(PartialEq, Debug)]
pub enum Value {
    U8(u8),
    U16(u16),
    U64(u64),
    U128(u128),
    Text(String),
    List(Vec<u64>),
}

/// A `Value` as plain values.
pub enum ValueView {
    U8(u8),
    U16(u16),
    U64(u64),
    U128(u128),
    Text(Seq<char>),
    List(Seq<u64>),
}

impl View for Value {
    type V = ValueView;

    open spec fn view(&self) -> ValueView {
        match *self {
            Value::U8(n) => ValueView::U8(n),
            Value::U16(n) => ValueView::U16(n),
            Value::U64(n) => ValueView::U64(n),
            Value::U128(n) => ValueView::U128(n),
            Value::Text(s) => ValueView::Text(s@),
            Value::List(v) => ValueView::List(v@),
        }
    }
}

/// A list with the items of `list`.
pub(crate) fn copy_list(list: &Vec<u64>) -> (items: Vec<u64>)
    ensures
        items@ == list@,
{
    let mut items: Vec<u64> = Vec::new();
    let mut i: usize = 0;
    while i < list.len()
        invariant
            i <= list@.len(),
            items@ == list@.subrange(0, i as int),
        decreases list@.len() - i,
    {
        items.push(list[i]);
        i = i + 1;
        assert(items@ =~= list@.subrange(0, i as int));
    }
    assert(items@ =~= list@);
    items
}

impl Clone for Value {
    /// A value with the same view.
    fn clone(&self) -> (r: Value)
        ensures
            r@ == self@,
    {
        match self {
            Value::U8(n) => Value::U8(*n),
            Value::U16(n) => Value::U16(*n),
            Value::U64(n) => Value::U64(*n),
            Value::U128(n) => Value::U128(*n),
            Value::Text(s) => Value::Text(s.clone()),
            Value::List(v) => Value::List(copy_list(v)),
        }
    }
}

/// One attribute: a name and its value.
#[derive(Debug)]
struct Entry {
    name: String,
    value: Value,
}

/// A record: attribute names, each with one value. No name occurs twice; to
/// insert under a name that is present replaces its value.
#[derive(Debug)]
pub struct Entity {
    entries: Vec<Entry>,
}

/// The texts of `texts` as sequences of characters.
pub open spec fn text_views(texts: Seq<String>) -> Seq<Seq<char>> {
    texts.map_values(|s: String| s@)
}

/// The names of `entries`, in their order.
spec fn names_of(entries: Seq<Entry>) -> Seq<Seq<char>> {
    entries.map_values(|e: Entry| e.name@)
}

impl View for Entity {
    type V = Map<Seq<char>, ValueView>;

    closed spec fn view(&self) -> Map<Seq<char>, ValueView> {
        let names = names_of(self.entries@);
        Map::new(|k: Seq<char>| names.contains(k), |k: Seq<char>| self.entries@[names.index_of(k)].value@)
    }
}

impl Clone for Entity {
    /// A record with the same attributes.
    fn clone(&self) -> (r: Entity)
        ensures
            r@ == self@,
    {
        proof {
            use_type_invariant(self);
        }
        let mut entries: Vec<Entry> = Vec::new();
        let mut i: usize = 0;
        while i < self.entries.len()
            invariant
                i <= self.entries@.len(),
                entries@.len() == i,
                forall|j: int|
                    0 <= j < i ==> entries@[j].name@ == self.entries@[j].name@ && entries@[j].value@
                        == self.entries@[j].value@,
            decreases self.entries@.len() - i,
        {
            let entry = &self.entries[i];
            entries.push(Entry { name: entry.name.clone(), value: entry.value.clone() });
            i = i + 1;
        }
        proof {
            assert(names_of(entries@) =~= names_of(self.entries@));
        }
        let r = Entity { entries };
        proof {
            assert(r@ =~= self@);
        }
        r
    }
}

impl Entity {
    #[verifier::type_invariant]
    spec fn names_are_distinct(self) -> bool {
        names_of(self.entries@).no_duplicates()
    }

    /// A record without attributes.
    pub fn new() -> (r: Entity)
        ensures
            r@ == Map::<Seq<char>, ValueView>::empty(),
    {
        let r = Entity { entries: Vec::new() };
        assert(r@ =~= Map::<Seq<char>, ValueView>::empty());
        r
    }

    /// Under which index `name` stands, if it is present.
    fn position(&self, name: &String) -> (r: Option<usize>)
        ensures
            match r {
                Some(i) => i < self.entries@.len() && self.entries@[i as int].name@ == name@,
                None => !names_of(self.entries@).contains(name@),
            },
    {
        let mut i: usize = 0;
        while i < self.entries.len()
            invariant
                i <= self.entries@.len(),
                forall|j: int| 0 <= j < i ==> self.entries@[j].name@ != name@,
            decreases self.entries@.len() - i,
        {
            if self.entries[i].name == *name {
                return Some(i);
            }
            i = i + 1;
        }
        None
    }

    /// Sets the attribute `name` to `value`, whether or not it was present.
    pub fn insert(&mut self, name: String, value: Value)
        ensures
            final(self)@ == old(self)@.insert(name@, value@),
    {
        proof {
            use_type_invariant(&*self);
        }
        let ghost before = self.entries@;
        let ghost names = names_of(before);
        let ghost key = name@;
        let ghost val = value@;
        let found = self.position(&name);
        let entry = Entry { name, value };
        // The entries change outside the record and come back in one step:
        // the record never holds a list whose names it does not vouch for.
        let mut entries: Vec<Entry> = Vec::new();
        proof {
            assert(names_of(entries@) =~= Seq::<Seq<char>>::empty());
        }
        core::mem::swap(&mut self.entries, &mut entries);
        match found {
            Some(i) => {
                entries.set(i, entry);
                proof {
                    assert(names[i as int] == key);
                    assert(names_of(entries@) =~= names);
                }
            },
            None => {
                entries.push(entry);
                proof {
                    assert(names_of(entries@) =~= names.push(key));
                }
            },
        }
        let ghost after = entries@;
        let ghost grown = names_of(after);
        core::mem::swap(&mut self.entries, &mut entries);
        proof {
            assert forall|k: Seq<char>| grown.contains(k) <==> (k == key || names.contains(k)) by {
                if names.contains(k) {
                    let j = names.index_of(k);
                    assert(grown[j] == k);
                }
                if k == key {
                    if found is Some {
                        assert(grown[found->0 as int] == k);
                    } else {
                        assert(grown[names.len() as int] == k);
                    }
                }
            }
            assert forall|k: Seq<char>| grown.contains(k) implies (#[trigger] after[grown.index_of(k)]).value@
                == (if k == key {
                val
            } else {
                before[names.index_of(k)].value@
            }) by {
                let j = grown.index_of(k);
                assert(grown[j] == k);
                if k == key {
                    if found is Some {
                        assert(grown[found->0 as int] == k);
                    } else {
                        assert(grown[names.len() as int] == k);
                    }
                } else {
                    assert(names[j] == k);
                    assert(names.index_of(k) == j);
                }
            }
            assert(self@ =~= old(self)@.insert(key, val));
        }
    }

    /// The value of the attribute `name`, if it is present.
    pub fn get(&self, name: &str) -> (r: Option<&Value>)
        ensures
            r is Some <==> self@.contains_key(name@),
            r matches Some(v) ==> self@[name@] == v@,
    {
        proof {
            use_type_invariant(self);
        }
        let key = name.to_owned();
        match self.position(&key) {
            Some(i) => {
                proof {
                    let names = names_of(self.entries@);
                    assert(names[i as int] == name@);
                }
                Some(&self.entries[i].value)
            },
            None => None,
        }
    }

    /// The names of the attributes, each once.
    pub fn names(&self) -> (names: Vec<String>)
        ensures
            text_views(names@).no_duplicates(),
            forall|name: Seq<char>| self@.contains_key(name) <==> text_views(names@).contains(name),
    {
        proof {
            use_type_invariant(self);
        }
        let mut names: Vec<String> = Vec::new();
        let mut i: usize = 0;
        while i < self.entries.len()
            invariant
                i <= self.entries@.len(),
                names@.len() == i,
                forall|j: int| 0 <= j < i ==> names@[j]@ == self.entries@[j].name@,
            decreases self.entries@.len() - i,
        {
            names.push(self.entries[i].name.clone());
            i = i + 1;
        }
        proof {
            assert(text_views(names@) =~= names_of(self.entries@));
        }
        names
    }

    /// The number of attributes.
    pub fn len(&self) -> (n: usize)
        ensures
            self@.dom().finite(),
            n == self@.dom().len(),
    {
        proof {
            use_type_invariant(self);
            let names = names_of(self.entries@);
            names.unique_seq_to_set();
            assert(self@.dom() =~= names.to_set());
        }
        self.entries.len()
    }
}

} // verus!
