//! The synchronization engine: translates daemon notifications and the
//! startup list query into registry mutations.

use crate::registry::lemma_reconciled_map_dom;
use crate::registry::reconciled_map;
use crate::registry::GameRegistry;
use crate::resolver::ProcessResolver;
use vstd::prelude::*;

verus! {

/// One notification from the daemon, tagged with its kind so that both
/// notification streams can be merged into a single totally ordered sequence
/// of events, giving the registry a single writer.
#[derive(Clone, Copy, Debug, PartialEq, Eq, Structural)]
pub enum GameEvent {
    /// The daemon registered the process id as an active game.
    Registered(i32),
    /// The daemon unregistered the process id.
    Unregistered(i32),
}

/// The engine that keeps a [`GameRegistry`] consistent with the daemon's
/// authoritative state: one full reconciliation at startup, then one
/// incremental mutation per event, resolving executable names through a
/// [`ProcessResolver`].
pub struct SyncEngine {
    registry: GameRegistry,
    resolver: ProcessResolver,
    synced: bool,
}

impl View for SyncEngine {
    type V = Map<i32, Seq<char>>;

    closed spec fn view(&self) -> Map<i32, Seq<char>> {
        self.registry@
    }
}

impl SyncEngine {
    /// Whether the first full reconciliation has happened. Until it has, the
    /// empty registry is only a default, never a confirmed "no active games".
    pub closed spec fn spec_synced(&self) -> bool {
        self.synced
    }

    /// Creates an engine whose registry is empty and not yet synced: before
    /// the first successful reconciliation, nothing is believed active.
    pub fn new() -> (r: Self)
        ensures
            r@ == Map::<i32, Seq<char>>::empty(),
            !r.spec_synced(),
    {
        SyncEngine {
            registry: GameRegistry::new(),
            resolver: ProcessResolver::new(),
            synced: false,
        }
    }

    /// Whether the engine has left its initial state: true from the first
    /// successful reconciliation on.
    pub fn is_synced(&self) -> (r: bool)
        ensures
            r == self.spec_synced(),
    {
        self.synced
    }

    /// Read-only access to the current registry content, for display.
    pub fn registry(&self) -> (r: &GameRegistry)
        ensures
            r@ == self@,
    {
        &self.registry
    }

    /// Handles a "registered" notification incrementally: resolves the one id
    /// and, on success, inserts or overwrites its entry; on resolution
    /// failure the registry is left unchanged. Returns whether resolution
    /// succeeded; which name the OS reported cannot be pinned down, so on
    /// success the contract promises an insertion of some name.
    pub fn handle_registered(&mut self, pid: i32) -> (resolved: bool)
        ensures
            resolved ==> exists|name: Seq<char>| final(self)@ == old(self)@.insert(pid, name),
            !resolved ==> final(self)@ == old(self)@,
            final(self).spec_synced() == old(self).spec_synced(),
    {
        let name = self.resolver.resolve(pid);
        let resolved = name.is_some();
        let ghost resolved_name: Option<Seq<char>> = name.deep_view();
        self.registry.apply_registered(pid, name);
        proof {
            if resolved {
                assert(self@ == old(self)@.insert(pid, resolved_name.unwrap()));
            }
        }
        resolved
    }

    /// Handles an "unregistered" notification: the id is removed whether or
    /// not it was registered, so the removal is idempotent.
    pub fn handle_unregistered(&mut self, pid: i32)
        ensures
            final(self)@ == old(self)@.remove(pid),
            final(self).spec_synced() == old(self).spec_synced(),
    {
        self.registry.apply_unregistered(pid);
    }

    /// Applies one event from the merged notification stream.
    pub fn handle_event(&mut self, event: GameEvent)
        ensures
            match event {
                GameEvent::Registered(pid) => final(self)@ == old(self)@ || exists|
                    name: Seq<char>,
                |
                    final(self)@ == old(self)@.insert(pid, name),
                GameEvent::Unregistered(pid) => final(self)@ == old(self)@.remove(pid),
            },
            final(self).spec_synced() == old(self).spec_synced(),
    {
        match event {
            GameEvent::Registered(pid) => {
                self.handle_registered(pid);
            },
            GameEvent::Unregistered(pid) => {
                self.handle_unregistered(pid);
            },
        }
    }

    /// Performs a full reconciliation against the daemon-reported list of
    /// active ids: the registry is replaced by exactly the outcome of
    /// resolving each reported id — prior content never survives, and only
    /// reported ids can end up registered. Used once at startup to establish
    /// the baseline; a caller that prefers coarse full refreshes may also run
    /// it again after any notification instead of mutating incrementally.
    pub fn reconcile(&mut self, active: &Vec<i32>)
        ensures
            final(self).spec_synced(),
            exists|names: Seq<Option<Seq<char>>>|
                names.len() == active@.len() && final(self)@ == reconciled_map(active@, names),
            forall|p: i32| final(self)@.dom().contains(p) ==> active@.contains(p),
    {
        let names = self.resolver.resolve_all(active);
        self.registry.rebuild(active, &names);
        self.synced = true;
        proof {
            assert(names.deep_view().len() == active@.len());
            lemma_reconciled_map_dom(active@, names.deep_view());
        }
    }
}

} // verus!
