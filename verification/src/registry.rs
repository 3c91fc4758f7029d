//! The click-action registry: a map from action name to a caller-supplied
//! operation value, populated at startup and looked up on click events.
//!
//! Registering a name that is already present overwrites the earlier entry:
//! the last registration wins. This is the deliberate policy, stated by the
//! contract of `register`, not an accident of the storage order.
//!
//! The registry is generic in the operation it stores; the surrounding
//! binary keeps the actual side-effecting closures and hands the registry
//! whatever value lets it find them again.

use vstd::prelude::*;

use crate::text::str_eq;

verus! {

/// One registered action.
pub struct ActionEntry<T> {
    pub name: String,
    pub op: T,
}

/// The map an entry list denotes: entries are read in order, a later entry
/// for the same name overriding an earlier one.
pub open spec fn action_map<T>(s: Seq<ActionEntry<T>>) -> Map<Seq<char>, T>
    decreases s.len(),
{
    if s.len() == 0 {
        Map::empty()
    } else {
        action_map(s.drop_last()).insert(s.last().name@, s.last().op)
    }
}

/// The name-to-operation registry consulted on click dispatch.
pub struct ActionRegistry<T> {
    entries: Vec<ActionEntry<T>>,
}

impl<T> View for ActionRegistry<T> {
    type V = Map<Seq<char>, T>;

    closed spec fn view(&self) -> Map<Seq<char>, T> {
        action_map(self.entries@)
    }
}

/// Registering one name twice leaves only the second operation: after
/// both registrations the registry is what it would be had only the
/// second happened, and a dispatch of that name finds the second
/// operation, whatever was bound before.
pub proof fn lemma_register_overwrites<T>(m: Map<Seq<char>, T>, name: Seq<char>, op1: T, op2: T)
    ensures
        m.insert(name, op1).insert(name, op2) == m.insert(name, op2),
        m.insert(name, op1).insert(name, op2)[name] == op2,
{
    assert(m.insert(name, op1).insert(name, op2) =~= m.insert(name, op2));
}

/// Entries at positions `i` and beyond never name `k`, so the denoted map
/// treats `k` exactly as the first `i` entries alone would.
proof fn lemma_action_map_tail_miss<T>(s: Seq<ActionEntry<T>>, i: int, k: Seq<char>)
    requires
        0 <= i <= s.len(),
        forall|j: int| i <= j < s.len() ==> s[j].name@ != k,
    ensures
        action_map(s).dom().contains(k) == action_map(s.take(i)).dom().contains(k),
        action_map(s).dom().contains(k) ==> action_map(s)[k] == action_map(s.take(i))[k],
    decreases s.len() - i,
{
    if i == s.len() {
        assert(s.take(i) =~= s);
    } else {
        let s2 = s.drop_last();
        assert(s[s.len() - 1].name@ != k);
        lemma_action_map_tail_miss(s2, i, k);
        assert(s2.take(i) =~= s.take(i));
    }
}

impl<T> ActionRegistry<T> {
    /// An empty registry: no name is bound.
    pub fn new() -> (r: ActionRegistry<T>)
        ensures
            r@ == Map::<Seq<char>, T>::empty(),
    {
        ActionRegistry { entries: Vec::new() }
    }

    /// Binds `name` to `op`. If `name` was bound before, the old binding is
    /// silently overwritten: the registry afterwards is the old one with
    /// `name` mapped to `op` and nothing else changed.
    pub fn register(&mut self, name: String, op: T)
        ensures
            final(self)@ == old(self)@.insert(name@, op),
    {
        let ghost pre = self.entries@;
        let ghost key: Seq<char> = name@;
        self.entries.push(ActionEntry { name, op });
        proof {
            assert(self.entries@.drop_last() =~= pre);
            assert(self.entries@.last().name@ == key);
        }
    }

    /// Looks `name` up. Returns the operation registered last under that
    /// name, or nothing when the name is unknown; an unknown name is a
    /// no-op for the caller and never a failure.
    pub fn dispatch<'a>(&'a self, name: &str) -> (r: Option<&'a T>)
        ensures
            match r {
                Some(op) => self@.dom().contains(name@) && *op == self@[name@],
                None => !self@.dom().contains(name@),
            },
    {
        let n = self.entries.len();
        let mut i: usize = n;
        while i > 0
            invariant
                i <= n,
                n == self.entries.len(),
                forall|j: int| i <= j < n ==> self.entries@[j].name@ != name@,
            decreases i,
        {
            i = i - 1;
            if str_eq(self.entries[i].name.as_str(), name) {
                proof {
                    lemma_action_map_tail_miss(self.entries@, i + 1, name@);
                    assert(self.entries@.take(i + 1).drop_last() =~= self.entries@.take(
                        i as int,
                    ));
                    assert(self.entries@.take(i + 1).last() == self.entries@[i as int]);
                }
                return Some(&self.entries[i].op);
            }
        }
        proof {
            lemma_action_map_tail_miss(self.entries@, 0, name@);
            assert(self.entries@.take(0) =~= Seq::<ActionEntry<T>>::empty());
        }
        None
    }
}

} // verus!
