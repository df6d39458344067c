//! The game registry: a mapping from process id to resolved executable name.

use std::collections::HashMap;
use vstd::prelude::*;
use vstd::std_specs::iter::IteratorSpec;

verus! {

broadcast use vstd::std_specs::hash::group_hash_axioms;

/// In-memory registry of currently active game processes.
///
/// Each entry maps a process id to the executable name that was resolved for
/// it when it was inserted. A process id absent from the registry is
/// authoritatively "not an active game". An entry exists only if name
/// resolution succeeded at insertion time.
pub struct GameRegistry {
    games: HashMap<i32, String>,
}

impl View for GameRegistry {
    type V = Map<i32, Seq<char>>;

    closed spec fn view(&self) -> Map<i32, Seq<char>> {
        self.games@.map_values(|name: String| name@)
    }
}

impl GameRegistry {
    /// Creates an empty registry: no process is believed active.
    pub fn new() -> (r: Self)
        ensures
            r@ == Map::<i32, Seq<char>>::empty(),
    {
        let games: HashMap<i32, String> = HashMap::new();
        let r = GameRegistry { games };
        proof {
            assert(r@ =~= Map::<i32, Seq<char>>::empty());
        }
        r
    }

    /// Number of processes currently registered as active.
    pub fn len(&self) -> (n: usize)
        ensures
            n == self@.len(),
    {
        proof {
            assert(self@.dom() =~= self.games@.dom());
        }
        self.games.len()
    }

    /// True if and only if the given process id is currently registered.
    pub fn contains(&self, pid: i32) -> (r: bool)
        ensures
            r == self@.dom().contains(pid),
    {
        proof {
            assert(self@.dom() =~= self.games@.dom());
        }
        self.games.contains_key(&pid)
    }

    /// The executable name recorded for the given process id, if registered.
    pub fn get(&self, pid: i32) -> (r: Option<&String>)
        ensures
            match r {
                Some(name) => self@.dom().contains(pid) && name@ == self@[pid],
                None => !self@.dom().contains(pid),
            },
    {
        proof {
            assert(self@.dom() =~= self.games@.dom());
        }
        self.games.get(&pid)
    }

    /// The derived "games active" flag: true if and only if the registry is
    /// non-empty, whatever mutations came before.
    pub fn games_active(&self) -> (r: bool)
        ensures
            r <==> self@ != Map::<i32, Seq<char>>::empty(),
    {
        let empty = self.games.is_empty();
        proof {
            if self.games@.dom() =~= Set::<i32>::empty() {
                assert(self@ =~= Map::<i32, Seq<char>>::empty());
            } else {
                let k = self.games@.dom().choose();
                assert(self@.dom().contains(k));
            }
        }
        !empty
    }

    /// Inserts or overwrites the entry for the given process id.
    pub fn insert(&mut self, pid: i32, name: String)
        ensures
            final(self)@ == old(self)@.insert(pid, name@),
    {
        self.games.insert(pid, name);
        proof {
            assert(self@ =~= old(self)@.insert(pid, name@));
        }
    }

    /// Removes the entry for the given process id. Removing an id that is not
    /// registered leaves the registry as it was.
    pub fn remove(&mut self, pid: i32)
        ensures
            final(self)@ == old(self)@.remove(pid),
    {
        self.games.remove(&pid);
        proof {
            assert(self@ =~= old(self)@.remove(pid));
        }
    }

    /// Discards every entry.
    pub fn clear(&mut self)
        ensures
            final(self)@ == Map::<i32, Seq<char>>::empty(),
    {
        self.games.clear();
        proof {
            assert(self@ =~= Map::<i32, Seq<char>>::empty());
        }
    }

    /// The current content as a list of `(process id, executable name)`
    /// pairs, one per registered process, for the presentation layer. The
    /// order of the pairs is not specified.
    pub fn pairs(&self) -> (r: Vec<(i32, String)>)
        ensures
            r@.len() == self@.len(),
            forall|i: int|
                0 <= i < r@.len() ==> self@.dom().contains(#[trigger] r@[i].0) && self@[r@[i].0]
                    == r@[i].1@,
            forall|p: i32|
                self@.dom().contains(p) ==> exists|i: int| 0 <= i < r@.len() && r@[i].0 == p,
            forall|i: int, j: int| 0 <= i < j < r@.len() ==> (#[trigger] r@[i]).0 != (#[trigger] r@[j]).0,
    {
        let ghost m = self.games@;
        let ghost iseq = vstd::std_specs::hash::spec_hash_map_iter(&self.games).remaining();
        let mut out: Vec<(i32, String)> = Vec::new();
        for pair in it: self.games.iter()
            invariant
                it.seq() == iseq,
                out@.len() == it.index(),
                forall|i: int|
                    0 <= i < out@.len() ==> (#[trigger] out@[i]).0 == *iseq[i].0 && out@[i].1
                        == *iseq[i].1,
        {
            out.push((*pair.0, pair.1.clone()));
        }
        proof {
            assert(self@.dom() =~= m.dom());
            assert(iseq.len() == m.dom().len());
            assert forall|p: i32| self@.dom().contains(p) implies exists|i: int|
                0 <= i < out@.len() && out@[i].0 == p by {
                assert(iseq.contains((&p, &m[p])));
                let i = choose|i: int| 0 <= i < iseq.len() && iseq[i] == (&p, &m[p]);
                assert(out@[i].0 == p);
            }
            assert forall|i: int, j: int| 0 <= i < j < out@.len() implies (out@[i]).0 != (
            out@[j]).0 by {
                if out@[i].0 == out@[j].0 {
                    assert(m[*iseq[i].0] == *iseq[i].1);
                    assert(m[*iseq[j].0] == *iseq[j].1);
                    assert(iseq[i] == iseq[j]);
                    assert(iseq.no_duplicates());
                }
            }
        }
        out
    }

    /// Applies a "registered" event with the outcome of name resolution for
    /// the process id: a resolved name is inserted, overwriting any previous
    /// entry; a failed resolution leaves the registry unchanged, so the id is
    /// treated as if it were unregistered.
    pub fn apply_registered(&mut self, pid: i32, resolved: Option<String>)
        ensures
            match resolved {
                Some(name) => final(self)@ == old(self)@.insert(pid, name@),
                None => final(self)@ == old(self)@,
            },
    {
        match resolved {
            Some(name) => self.insert(pid, name),
            None => {},
        }
    }

    /// Applies an "unregistered" event: the process id is removed whether or
    /// not it was registered.
    pub fn apply_unregistered(&mut self, pid: i32)
        ensures
            final(self)@ == old(self)@.remove(pid),
    {
        self.remove(pid);
    }

    /// Replaces the whole registry with the outcome of a full reconciliation:
    /// the daemon-reported ids in `pids`, each paired with its resolution
    /// outcome in `names`. Prior content is discarded entirely, never merged.
    pub fn rebuild(&mut self, pids: &Vec<i32>, names: &Vec<Option<String>>)
        requires
            pids@.len() == names@.len(),
        ensures
            final(self)@ == reconciled_map(pids@, names.deep_view()),
    {
        self.clear();
        let ghost dnames: Seq<Option<Seq<char>>> = names.deep_view();
        let mut i: usize = 0;
        while i < pids.len()
            invariant
                pids@.len() == names@.len(),
                dnames == names.deep_view(),
                i <= pids@.len(),
                self@ == reconciled_map(pids@.take(i as int), dnames.take(i as int)),
            decreases pids@.len() - i,
        {
            let pid = pids[i];
            match &names[i] {
                Some(name) => {
                    let n = name.clone();
                    self.insert(pid, n);
                },
                None => {},
            }
            proof {
                assert(pids@.take(i + 1).drop_last() =~= pids@.take(i as int));
                assert(dnames.take(i + 1).drop_last() =~= dnames.take(i as int));
            }
            i += 1;
        }
        proof {
            assert(pids@.take(pids@.len() as int) =~= pids@);
            assert(dnames.take(dnames.len() as int) =~= dnames);
        }
    }
}

/// The registry contents that a full reconciliation produces from the
/// daemon-reported ids `pids` and their resolution outcomes `names`, taken in
/// order: an id whose resolution succeeded maps to the resolved name, an id
/// whose resolution failed is left out.
pub open spec fn reconciled_map(pids: Seq<i32>, names: Seq<Option<Seq<char>>>) -> Map<
    i32,
    Seq<char>,
>
    decreases pids.len(),
{
    if pids.len() == 0 {
        Map::empty()
    } else {
        let rest = reconciled_map(pids.drop_last(), names.drop_last());
        match names[pids.len() - 1] {
            Some(name) => rest.insert(pids.last(), name),
            None => rest,
        }
    }
}

/// Law: a reconciliation can only register daemon-reported ids — every key of
/// the reconciled registry comes from the reported list.
pub proof fn lemma_reconciled_map_dom(pids: Seq<i32>, names: Seq<Option<Seq<char>>>)
    ensures
        forall|p: i32| reconciled_map(pids, names).dom().contains(p) ==> pids.contains(p),
    decreases pids.len(),
{
    if pids.len() == 0 {
    } else {
        lemma_reconciled_map_dom(pids.drop_last(), names.drop_last());
        assert forall|p: i32| reconciled_map(pids, names).dom().contains(p) implies pids.contains(
            p,
        ) by {
            if p == pids.last() {
                assert(pids[pids.len() - 1] == p);
            } else {
                assert(reconciled_map(pids.drop_last(), names.drop_last()).dom().contains(p));
                assert(pids.drop_last().contains(p));
                let j = choose|j: int| 0 <= j < pids.drop_last().len() && pids.drop_last()[j] == p;
                assert(pids[j] == p);
            }
        }
    }
}

/// Law: removing a process id that is not registered is a no-op — the
/// registry, and with it its size, does not change.
pub proof fn lemma_remove_absent_is_noop(m: Map<i32, Seq<char>>, pid: i32)
    requires
        !m.dom().contains(pid),
    ensures
        m.remove(pid) == m,
        m.remove(pid).len() == m.len(),
{
    assert(m.remove(pid) =~= m);
}

/// Law: a "registered" event followed by an "unregistered" event for the same
/// process id leaves that id out of the registry, whatever name was resolved.
pub proof fn lemma_register_then_unregister(m: Map<i32, Seq<char>>, pid: i32, name: Seq<char>)
    ensures
        m.insert(pid, name).remove(pid) == m.remove(pid),
        !m.insert(pid, name).remove(pid).dom().contains(pid),
{
    assert(m.insert(pid, name).remove(pid) =~= m.remove(pid));
}

/// Law: a duplicate "registered" event overwrites — registering the same id
/// twice leaves exactly one entry for it, holding the latest resolved name.
pub proof fn lemma_duplicate_registration_overwrites(
    m: Map<i32, Seq<char>>,
    pid: i32,
    first: Seq<char>,
    second: Seq<char>,
)
    ensures
        m.insert(pid, first).insert(pid, second) == m.insert(pid, second),
        m.insert(pid, first).insert(pid, second)[pid] == second,
{
    assert(m.insert(pid, first).insert(pid, second) =~= m.insert(pid, second));
}

} // verus!
