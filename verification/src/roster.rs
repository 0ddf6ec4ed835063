//! Lists of distinct names: the players of a game, the voters of a ballot,
//! the identifiers of the games in play.

use vstd::prelude::*;

verus! {

/// The table that gives the name at place `i` of `names` the value
/// `values[i]`.
pub open spec fn table<V>(names: Seq<Seq<char>>, values: Seq<V>) -> Map<Seq<char>, V> {
    Map::new(
        |name: Seq<char>| names.contains(name),
        |name: Seq<char>| values[names.index_of(name)],
    )
}

/// A table has an entry for each of its names and for nothing else.
pub proof fn lemma_table_dom<V>(names: Seq<Seq<char>>, values: Seq<V>)
    ensures
        table(names, values).dom() == names.to_set(),
        table(names, values).dom().finite(),
{
    assert(table(names, values).dom() =~= names.to_set());
    vstd::seq_lib::seq_to_set_is_finite(names);
}

/// In a table of distinct names, the name at place `i` has the value at
/// place `i`.
pub proof fn lemma_table_entry<V>(names: Seq<Seq<char>>, values: Seq<V>, place: int)
    requires
        names.no_duplicates(),
        0 <= place < names.len(),
    ensures
        table(names, values).dom().contains(names[place]),
        table(names, values)[names[place]] == values[place],
{
    let i = names.index_of(names[place]);
    assert(names[i] == names[place]);
}

/// A new name with its value at the end of the lists is a new entry of the
/// table.
pub proof fn lemma_table_push<V>(names: Seq<Seq<char>>, values: Seq<V>, name: Seq<char>, value: V)
    requires
        names.no_duplicates(),
        names.len() == values.len(),
        !names.contains(name),
    ensures
        table(names.push(name), values.push(value)) == table(names, values).insert(name, value),
{
    let longer = names.push(name);
    let after = table(longer, values.push(value));
    let expected = table(names, values).insert(name, value);
    assert forall|other: Seq<char>| after.dom().contains(other) <==> expected.dom().contains(
        other,
    ) by {
        if names.contains(other) {
            let i = names.index_of(other);
            assert(longer[i] == other);
        }
        if other == name {
            assert(longer[names.len() as int] == other);
        }
    }
    assert forall|other: Seq<char>| after.dom().contains(other) implies after[other]
        == expected[other] by {
        let i = longer.index_of(other);
        if other == name {
            assert(longer[names.len() as int] == name);
            if i < names.len() {
                assert(names[i] == name);
            }
        } else {
            assert(names[i] == other);
            let j = names.index_of(other);
            assert(names[j] == other);
        }
    }
    assert(after =~= expected);
}

/// A new value at the place of a name is a new value of that name's entry.
pub proof fn lemma_table_update<V>(names: Seq<Seq<char>>, values: Seq<V>, place: int, value: V)
    requires
        names.no_duplicates(),
        names.len() == values.len(),
        0 <= place < names.len(),
    ensures
        table(names, values.update(place, value)) == table(names, values).insert(
            names[place],
            value,
        ),
{
    let after = table(names, values.update(place, value));
    let expected = table(names, values).insert(names[place], value);
    assert forall|other: Seq<char>| after.dom().contains(other) <==> expected.dom().contains(
        other,
    ) by {
    }
    assert forall|other: Seq<char>| after.dom().contains(other) implies after[other]
        == expected[other] by {
        let i = names.index_of(other);
        assert(names[i] == other);
    }
    assert(after =~= expected);
}

/// Names in the order in which they arrived, each at most once.
pub struct Roster {
    names: Vec<String>,
}

impl View for Roster {
    type V = Set<Seq<char>>;

    /// The names on the roster.
    closed spec fn view(&self) -> Set<Seq<char>> {
        self.names().to_set()
    }
}

impl Roster {
    /// The names in the order of their arrival.
    pub closed spec fn names(&self) -> Seq<Seq<char>> {
        self.names@.map_values(|name: String| name@)
    }

    /// No name is listed twice.
    pub open spec fn wf(&self) -> bool {
        self.names().no_duplicates()
    }

    /// The names of a roster form a finite set, which holds as many names as
    /// the roster lists, and exactly the listed ones.
    pub proof fn lemma_view(&self)
        requires
            self.wf(),
        ensures
            self@.finite(),
            self@.len() == self.names().len(),
            forall|name: Seq<char>| self@.contains(name) <==> self.names().contains(name),
    {
        self.names().unique_seq_to_set();
    }

    /// A roster without names.
    pub fn new() -> (roster: Roster)
        ensures
            roster.wf(),
            roster.names() == Seq::<Seq<char>>::empty(),
            roster@ == Set::<Seq<char>>::empty(),
    {
        let roster = Roster { names: Vec::new() };
        assert(roster.names() =~= Seq::<Seq<char>>::empty());
        assert(roster@ =~= Set::<Seq<char>>::empty());
        roster
    }

    /// The number of names.
    pub fn len(&self) -> (len: usize)
        ensures
            len == self.names().len(),
    {
        self.names.len()
    }

    /// The place of `name` in the order of arrival, if it is listed.
    pub fn position(&self, name: &String) -> (place: Option<usize>)
        ensures
            match place {
                Some(index) => index < self.names().len() && self.names()[index as int] == name@,
                None => !self.names().contains(name@),
            },
            place is Some <==> self@.contains(name@),
    {
        let mut index: usize = 0;
        while index < self.names.len()
            invariant
                index <= self.names@.len(),
                forall|i: int| 0 <= i < index ==> self.names()[i] != name@,
            decreases self.names@.len() - index,
        {
            if self.names[index] == *name {
                assert(self.names()[index as int] == name@);
                return Some(index);
            }
            index += 1;
        }
        None
    }

    /// Whether `name` is listed.
    pub fn contains(&self, name: &String) -> (found: bool)
        ensures
            found == self@.contains(name@),
    {
        self.position(name).is_some()
    }

    /// The name at place `index`.
    pub fn name(&self, index: usize) -> (name: &String)
        requires
            index < self.names().len(),
        ensures
            name@ == self.names()[index as int],
    {
        &self.names[index]
    }

    /// Lists `name` unless it is listed already, and returns whether it was
    /// new. A new name goes to the end; the others keep their places.
    pub fn insert(&mut self, name: String) -> (inserted: bool)
        requires
            old(self).wf(),
        ensures
            final(self).wf(),
            inserted == !old(self)@.contains(name@),
            final(self)@ == old(self)@.insert(name@),
            inserted ==> final(self).names() == old(self).names().push(name@),
            !inserted ==> final(self).names() == old(self).names(),
    {
        if self.contains(&name) {
            assert(self@ =~= old(self)@.insert(name@));
            return false;
        }
        let ghost text = name@;
        self.names.push(name);
        assert(self.names() =~= old(self).names().push(text));
        assert(self@ =~= old(self)@.insert(text)) by {
            assert forall|other: Seq<char>| self@.contains(other) <==> old(self)@.insert(
                text,
            ).contains(other) by {
                if old(self).names().contains(other) {
                    let i = old(self).names().index_of(other);
                    assert(self.names()[i] == other);
                }
                if other == text {
                    assert(self.names()[self.names().len() - 1] == other);
                }
            }
        }
        true
    }

    /// Removes every name.
    pub fn clear(&mut self)
        ensures
            final(self).wf(),
            final(self).names() == Seq::<Seq<char>>::empty(),
            final(self)@ == Set::<Seq<char>>::empty(),
    {
        self.names.clear();
        assert(self.names() =~= Seq::<Seq<char>>::empty());
        assert(self@ =~= Set::<Seq<char>>::empty());
    }
}

} // verus!
