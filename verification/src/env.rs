//! The environment: a single flat name-to-value binding store. `define`
//! inserts or overwrites (last write wins), `get` resolves by name. There is
//! no scoping hierarchy: every binding is visible everywhere and bindings are
//! never removed.
use vstd::prelude::*;

use crate::ast::Identifier;
use crate::interperter::{val_v, EnvV, Value};

verus! {

pub struct Environment {
    entries: Vec<(String, Value)>,
}

/// The mapping that a list of entries denotes: later entries overwrite
/// earlier ones.
pub closed spec fn map_of(s: Seq<(String, Value)>) -> EnvV
    decreases s.len(),
{
    if s.len() == 0 {
        Map::empty()
    } else {
        map_of(s.drop_last()).insert(s.last().0@, val_v(s.last().1))
    }
}

impl View for Environment {
    type V = EnvV;

    closed spec fn view(&self) -> EnvV {
        map_of(self.entries@)
    }
}

proof fn lemma_absent(s: Seq<(String, Value)>, k: Seq<char>)
    requires
        forall|j: int| 0 <= j < s.len() ==> (#[trigger] s[j]).0@ != k,
    ensures
        !map_of(s).contains_key(k),
    decreases s.len(),
{
    if s.len() > 0 {
        lemma_absent(s.drop_last(), k);
    }
}

proof fn lemma_found(s: Seq<(String, Value)>, i: int, k: Seq<char>)
    requires
        0 <= i < s.len(),
        s[i].0@ == k,
        forall|j: int| i < j < s.len() ==> (#[trigger] s[j]).0@ != k,
    ensures
        map_of(s).contains_key(k),
        map_of(s)[k] == val_v(s[i].1),
    decreases s.len(),
{
    if i < s.len() - 1 {
        lemma_found(s.drop_last(), i, k);
    }
}

impl Environment {
    pub fn new() -> (r: Self)
        ensures
            r@ == Map::<Seq<char>, crate::interperter::ValueV>::empty(),
    {
        Environment { entries: Vec::new() }
    }

    /// Insert or overwrite the binding for the identifier's name.
    pub fn define(&mut self, identifier: Identifier, value: Value)
        ensures
            final(self)@ == old(self)@.insert(identifier.name@, val_v(value)),
    {
        let Identifier { name, stack_index: _ } = identifier;
        self.entries.push((name, value));
        proof {
            assert(self.entries@.drop_last() =~= old(self).entries@);
        }
    }

    /// Resolve a name; the returned value is an independently owned copy of
    /// the stored one.
    pub fn get(&self, identifier: &Identifier) -> (r: Option<Value>)
        ensures
            match r {
                Some(v) => self@.contains_key(identifier.name@) && val_v(v) == self@.index(
                    identifier.name@,
                ),
                None => !self@.contains_key(identifier.name@),
            },
    {
        let mut i: usize = self.entries.len();
        while i > 0
            invariant
                i <= self.entries.len(),
                forall|j: int|
                    i <= j < self.entries.len() ==> (#[trigger] self.entries@[j]).0@
                        != identifier.name@,
            decreases i,
        {
            i = i - 1;
            let entry = &self.entries[i];
            if entry.0.eq(&identifier.name) {
                proof {
                    lemma_found(self.entries@, i as int, identifier.name@);
                }
                return Some(entry.1.deep_copy());
            }
        }
        proof {
            lemma_absent(self.entries@, identifier.name@);
        }
        None
    }
}

} // verus!
