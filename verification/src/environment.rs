//! A snapshot of the variables a process was started with.

use vstd::prelude::*;

verus! {

/// The variables that a list of entries binds, read from first to last: an
/// entry overrides every earlier entry of the same name.
spec fn bindings(entries: Seq<(String, String)>) -> Map<Seq<char>, Seq<char>>
    decreases entries.len(),
{
    if entries.len() == 0 {
        Map::empty()
    } else {
        bindings(entries.drop_last()).insert(entries.last().0@, entries.last().1@)
    }
}

/// A name is bound exactly when some entry carries it, and then to the value
/// of the last such entry.
proof fn lemma_bindings_lookup(entries: Seq<(String, String)>, name: Seq<char>)
    ensures
        bindings(entries).contains_key(name) <==> exists|i: int|
            0 <= i < entries.len() && (#[trigger] entries[i]).0@ == name,
        forall|i: int|
            0 <= i < entries.len() && (#[trigger] entries[i]).0@ == name && (forall|j: int|
                i < j < entries.len() ==> (#[trigger] entries[j]).0@ != name) ==> bindings(
                entries,
            )[name] == entries[i].1@,
    decreases entries.len(),
{
    if entries.len() > 0 {
        let front = entries.drop_last();
        lemma_bindings_lookup(front, name);
        assert forall|i: int| 0 <= i < front.len() implies front[i] == entries[i] by {}
        if entries.last().0@ == name {
            assert(entries[entries.len() - 1].0@ == name);
        } else {
            if bindings(entries).contains_key(name) {
                let i = choose|i: int| 0 <= i < front.len() && (#[trigger] front[i]).0@ == name;
                assert(entries[i].0@ == name);
            }
            assert forall|i: int|
                0 <= i < entries.len() && (#[trigger] entries[i]).0@ == name && (forall|j: int|
                    i < j < entries.len() ==> (#[trigger] entries[j]).0@ != name) implies bindings(
                entries,
            )[name] == entries[i].1@ by {
                assert(i < front.len());
                assert(front[i].0@ == name);
                assert forall|j: int| i < j < front.len() implies (#[trigger] front[j]).0@
                    != name by {
                    assert(entries[j].0@ != name);
                }
            }
        }
    }
}

/// The variables of a process at one moment: a finite mapping from a
/// variable's name to its value.
pub struct Environment {
    entries: Vec<(String, String)>,
}

impl View for Environment {
    type V = Map<Seq<char>, Seq<char>>;

    closed spec fn view(&self) -> Map<Seq<char>, Seq<char>> {
        bindings(self.entries@)
    }
}

impl Environment {
    /// The environment in which no variable is set.
    pub fn new() -> (env: Environment)
        ensures
            env@ == Map::<Seq<char>, Seq<char>>::empty(),
    {
        Environment { entries: Vec::new() }
    }

    /// The value of the variable `name`, if it is set.
    pub fn get(&self, name: &str) -> (value: Option<String>)
        ensures
            value is Some <==> self@.contains_key(name@),
            value is Some ==> value->Some_0@ == self@[name@],
    {
        let key: String = name.to_owned();
        let mut i: usize = self.entries.len();
        while i > 0
            invariant
                i <= self.entries.len(),
                key@ == name@,
                forall|j: int| i <= j < self.entries.len() ==> (#[trigger] self.entries@[j]).0@ != name@,
            decreases i,
        {
            i = i - 1;
            if self.entries[i].0 == key {
                let found: String = self.entries[i].1.clone();
                proof {
                    lemma_bindings_lookup(self.entries@, name@);
                }
                return Some(found);
            }
        }
        proof {
            lemma_bindings_lookup(self.entries@, name@);
        }
        None
    }

    /// Unsets the variable `name`. Every other variable keeps its value.
    pub fn remove(&mut self, name: &str)
        ensures
            final(self)@ == old(self)@.remove(name@),
    {
        let key: String = name.to_owned();
        let mut kept: Vec<(String, String)> = Vec::new();
        let mut i: usize = 0;
        while i < self.entries.len()
            invariant
                i <= self.entries.len(),
                key@ == name@,
                *self == *old(self),
                bindings(kept@) == bindings(self.entries@.take(i as int)).remove(name@),
            decreases self.entries.len() - i,
        {
            proof {
                let next = self.entries@.take(i + 1);
                assert(next.drop_last() == self.entries@.take(i as int));
                assert(next.last() == self.entries@[i as int]);
            }
            if self.entries[i].0 != key {
                let entry: (String, String) = (self.entries[i].0.clone(), self.entries[i].1.clone());
                proof {
                    assert(kept@.push(entry).drop_last() == kept@);
                }
                kept.push(entry);
            }
            i = i + 1;
        }
        proof {
            assert(self.entries@.take(i as int) == self.entries@);
        }
        self.entries = kept;
    }

    /// Sets the variable `name` to `value`, whether or not it was set before.
    /// Every other variable keeps its value.
    pub fn set(&mut self, name: &str, value: &str)
        ensures
            final(self)@ == old(self)@.insert(name@, value@),
    {
        self.remove(name);
        let entry: (String, String) = (name.to_owned(), value.to_owned());
        proof {
            assert(self.entries@.push(entry).drop_last() == self.entries@);
        }
        self.entries.push(entry);
    }
}

} // verus!
