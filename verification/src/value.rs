//! The scalar values that the protocol carries, and maps from names to them.

use vstd::prelude::*;

verus! {

/// A scalar value of the protocol.
///
/// A floating-point number is kept as the 64 bits of its IEEE 754 encoding:
/// this layer carries such numbers through and never computes with them.
/// `Other` stands for the values that this layer does not look into (lists,
/// maps, graph structures, temporal and spatial values).
#[derive(Debug)]
pub enum Value {
    Null,
    Boolean(bool),
    Integer(i64),
    Float(u64),
    String(String),
    Other,
}

/// The mathematical content of a [`Value`].
pub ghost enum ValueView {
    Null,
    Boolean(bool),
    Integer(i64),
    Float(u64),
    String(Seq<char>),
    Other,
}

impl View for Value {
    type V = ValueView;

    open spec fn view(&self) -> ValueView {
        match self {
            Value::Null => ValueView::Null,
            Value::Boolean(b) => ValueView::Boolean(*b),
            Value::Integer(i) => ValueView::Integer(*i),
            Value::Float(bits) => ValueView::Float(*bits),
            Value::String(s) => ValueView::String(s@),
            Value::Other => ValueView::Other,
        }
    }
}

impl Clone for Value {
    fn clone(&self) -> (copy: Value)
        ensures
            copy@ == self@,
    {
        match self {
            Value::Null => Value::Null,
            Value::Boolean(b) => Value::Boolean(*b),
            Value::Integer(i) => Value::Integer(*i),
            Value::Float(bits) => Value::Float(*bits),
            Value::String(s) => Value::String(s.clone()),
            Value::Other => Value::Other,
        }
    }
}


/// One named value of a [`PropertyMap`].
#[derive(Debug)]
pub struct Entry {
    pub name: String,
    pub value: Value,
}

/// No two entries of `entries` carry the same name.
pub open spec fn names_distinct(entries: Seq<Entry>) -> bool {
    forall|i: int, j: int|
        0 <= i < j < entries.len() ==> (#[trigger] entries[i]).name@ != (#[trigger] entries[j]).name@
}

/// `entries` lists the map `map`: it names each key of `map` exactly once,
/// with the value that `map` gives to it, and names nothing else.
pub open spec fn lists(entries: Seq<Entry>, map: Map<Seq<char>, ValueView>) -> bool {
    &&& names_distinct(entries)
    &&& forall|i: int|
        0 <= i < entries.len() ==> map.contains_key((#[trigger] entries[i]).name@)
            && map[entries[i].name@] == entries[i].value@
    &&& forall|name: Seq<char>| #[trigger]
        map.contains_key(name) ==> exists|i: int|
            0 <= i < entries.len() && (#[trigger] entries[i]).name@ == name
}

/// The map that a sequence of entries spells out, a later entry replacing an
/// earlier one of the same name.
pub closed spec fn map_of(entries: Seq<Entry>) -> Map<Seq<char>, ValueView>
    decreases entries.len(),
{
    if entries.len() == 0 {
        Map::empty()
    } else {
        map_of(entries.drop_last()).insert(entries.last().name@, entries.last().value@)
    }
}

/// The keys of `map_of(entries)` are the names that occur in `entries`.
proof fn lemma_map_of_keys(entries: Seq<Entry>)
    ensures
        map_of(entries).dom().finite(),
        forall|name: Seq<char>| #[trigger]
            map_of(entries).contains_key(name) <==> exists|i: int|
                0 <= i < entries.len() && (#[trigger] entries[i]).name@ == name,
    decreases entries.len(),
{
    if entries.len() > 0 {
        let front = entries.drop_last();
        lemma_map_of_keys(front);
        assert forall|name: Seq<char>| #[trigger]
            map_of(entries).contains_key(name) implies exists|i: int|
            0 <= i < entries.len() && (#[trigger] entries[i]).name@ == name by {
            if name == entries.last().name@ {
                assert(entries[entries.len() - 1].name@ == name);
            } else {
                assert(map_of(front).contains_key(name));
                let i = choose|i: int| 0 <= i < front.len() && (#[trigger] front[i]).name@ == name;
                assert(entries[i].name@ == name);
            }
        }
        assert forall|name: Seq<char>|
            (exists|i: int|
                0 <= i < entries.len() && (#[trigger] entries[i]).name@
                    == name) implies #[trigger] map_of(entries).contains_key(name) by {
            let i = choose|i: int| 0 <= i < entries.len() && (#[trigger] entries[i]).name@ == name;
            if i < entries.len() - 1 {
                assert(front[i].name@ == name);
            }
        }
    }
}

/// Where no name occurs twice, `map_of(entries)` gives each name the value
/// that stands beside it.
proof fn lemma_map_of_lists(entries: Seq<Entry>)
    requires
        names_distinct(entries),
    ensures
        lists(entries, map_of(entries)),
    decreases entries.len(),
{
    lemma_map_of_keys(entries);
    if entries.len() > 0 {
        let front = entries.drop_last();
        assert(names_distinct(front)) by {
            assert forall|i: int, j: int| 0 <= i < j < front.len() implies (#[trigger] front[i]).name@
                != (#[trigger] front[j]).name@ by {
                assert(entries[i].name@ != entries[j].name@);
            }
        }
        lemma_map_of_lists(front);
        assert forall|i: int| 0 <= i < entries.len() implies map_of(entries).contains_key(
            (#[trigger] entries[i]).name@,
        ) && map_of(entries)[entries[i].name@] == entries[i].value@ by {
            if i < entries.len() - 1 {
                assert(front[i].name@ == entries[i].name@);
                assert(entries[i].name@ != entries[entries.len() - 1].name@);
            }
        }
    }
}

/// Two maps that one sequence of entries lists are the same map.
proof fn lemma_lists_one_map(
    entries: Seq<Entry>,
    left: Map<Seq<char>, ValueView>,
    right: Map<Seq<char>, ValueView>,
)
    requires
        lists(entries, left),
        lists(entries, right),
    ensures
        left == right,
{
    assert forall|name: Seq<char>| left.contains_key(name) implies right.contains_key(name)
        && left[name] == right[name] by {
        let i = choose|i: int| 0 <= i < entries.len() && (#[trigger] entries[i]).name@ == name;
        assert(right.contains_key(entries[i].name@));
    }
    assert forall|name: Seq<char>| right.contains_key(name) implies left.contains_key(name) by {
        let i = choose|i: int| 0 <= i < entries.len() && (#[trigger] entries[i]).name@ == name;
        assert(left.contains_key(entries[i].name@));
    }
    assert(left =~= right);
}

/// Where no name occurs twice, `map_of(entries)` has as many keys as there
/// are entries.
proof fn lemma_map_of_len(entries: Seq<Entry>)
    requires
        names_distinct(entries),
    ensures
        map_of(entries).dom().finite(),
        map_of(entries).len() == entries.len(),
    decreases entries.len(),
{
    lemma_map_of_keys(entries);
    if entries.len() > 0 {
        let front = entries.drop_last();
        assert(names_distinct(front)) by {
            assert forall|i: int, j: int| 0 <= i < j < front.len() implies (#[trigger] front[i]).name@
                != (#[trigger] front[j]).name@ by {
                assert(entries[i].name@ != entries[j].name@);
            }
        }
        lemma_map_of_len(front);
        lemma_map_of_keys(front);
        assert(!map_of(front).contains_key(entries.last().name@)) by {
            if map_of(front).contains_key(entries.last().name@) {
                let i = choose|i: int|
                    0 <= i < front.len() && (#[trigger] front[i]).name@ == entries.last().name@;
                assert(entries[i].name@ != entries[entries.len() - 1].name@);
            }
        }
    }
}

/// A finite map from names to values: the properties of a node.
///
/// The map is kept as a list of entries in which no name stands twice.
#[derive(Debug)]
pub struct PropertyMap {
    entries: Vec<Entry>,
}

impl View for PropertyMap {
    type V = Map<Seq<char>, ValueView>;

    closed spec fn view(&self) -> Map<Seq<char>, ValueView> {
        map_of(self.entries@)
    }
}

impl PropertyMap {
    #[verifier::type_invariant]
    spec fn well_formed(self) -> bool {
        names_distinct(self.entries@)
    }

    /// The map that holds nothing.
    pub fn new() -> (map: PropertyMap)
        ensures
            map@ == Map::<Seq<char>, ValueView>::empty(),
    {
        PropertyMap { entries: Vec::new() }
    }

    /// The entries of the map, each name once.
    pub fn entries(&self) -> (entries: &Vec<Entry>)
        ensures
            lists(entries@, self@),
    {
        proof {
            use_type_invariant(self);
            lemma_map_of_lists(self.entries@);
        }
        &self.entries
    }

    /// The number of names in the map.
    pub fn len(&self) -> (n: usize)
        ensures
            self@.dom().finite(),
            n == self@.len(),
    {
        proof {
            use_type_invariant(self);
            lemma_map_of_len(self.entries@);
        }
        self.entries.len()
    }

    /// The value that the map gives to `name`, if it gives one.
    pub fn get(&self, name: &str) -> (found: Option<&Value>)
        ensures
            found is Some <==> self@.contains_key(name@),
            found matches Some(value) ==> value@ == self@[name@],
    {
        proof {
            use_type_invariant(self);
            lemma_map_of_lists(self.entries@);
        }
        let key = String::from_str(name);
        let mut i: usize = 0;
        while i < self.entries.len()
            invariant
                0 <= i <= self.entries.len(),
                key@ == name@,
                forall|j: int| 0 <= j < i ==> (#[trigger] self.entries[j]).name@ != name@,
                lists(self.entries@, self@),
            decreases self.entries.len() - i,
        {
            if self.entries[i].name == key {
                return Some(&self.entries[i].value);
            }
            i += 1;
        }
        None
    }

    /// Gives `name` the value `value`, and returns the value that `name`
    /// had before, if it had one.
    pub fn insert(&mut self, name: String, value: Value) -> (previous: Option<Value>)
        ensures
            final(self)@ == old(self)@.insert(name@, value@),
            previous is Some <==> old(self)@.contains_key(name@),
            previous matches Some(before) ==> before@ == old(self)@[name@],
    {
        proof {
            use_type_invariant(&*self);
            lemma_map_of_lists(self.entries@);
        }
        let mut entries: Vec<Entry> = Vec::new();
        core::mem::swap(&mut self.entries, &mut entries);
        let ghost before_map = map_of(entries@);
        let ghost after_map = before_map.insert(name@, value@);
        let mut i: usize = 0;
        while i < entries.len()
            invariant
                0 <= i <= entries.len(),
                forall|j: int| 0 <= j < i ==> (#[trigger] entries[j]).name@ != name@,
                lists(entries@, before_map),
                before_map == old(self)@,
                before_map == map_of(entries@),
                after_map == before_map.insert(name@, value@),
            decreases entries.len() - i,
        {
            if entries[i].name == name {
                let before = entries[i].value.clone();
                let ghost updated = entries@.update(i as int, Entry { name, value });
                proof {
                    assert(names_distinct(updated)) by {
                        assert forall|a: int, b: int| 0 <= a < b < updated.len() implies (
                        #[trigger] updated[a]).name@ != (#[trigger] updated[b]).name@ by {
                            assert(entries@[a].name@ != entries@[b].name@);
                        }
                    }
                    lemma_map_of_lists(updated);
                    assert(lists(updated, after_map)) by {
                        assert forall|k: Seq<char>| #[trigger]
                            after_map.contains_key(k) implies exists|j: int|
                            0 <= j < updated.len() && (#[trigger] updated[j]).name@ == k by {
                            if k == name@ {
                                assert(updated[i as int].name@ == k);
                            } else {
                                let j = choose|j: int|
                                    0 <= j < entries@.len() && (#[trigger] entries@[j]).name@ == k;
                                assert(updated[j].name@ == k);
                            }
                        }
                        assert forall|j: int| 0 <= j < updated.len() implies after_map.contains_key(
                            (#[trigger] updated[j]).name@,
                        ) && after_map[updated[j].name@] == updated[j].value@ by {
                            if j != i {
                                assert(entries@[j].name@ != entries@[i as int].name@);
                            }
                        }
                    }
                    lemma_lists_one_map(updated, map_of(updated), after_map);
                }
                entries.set(i, Entry { name, value });
                self.entries = entries;
                return Some(before);
            }
            i += 1;
        }
        let ghost pushed = entries@.push(Entry { name, value });
        proof {
            assert(pushed.drop_last() == entries@);
            assert(names_distinct(pushed));
            assert(map_of(pushed) == after_map);
        }
        entries.push(Entry { name, value });
        self.entries = entries;
        None
    }
}

} // verus!
