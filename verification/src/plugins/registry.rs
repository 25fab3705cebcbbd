//! The single source of truth for which plugins exist right now.

use vstd::prelude::*;
use vstd::string::*;

use crate::plugins::info::{PluginInfo, PluginInfoView};
use crate::plugins::table::{
    distinct_keys, lemma_no_rows, lemma_push_row, lemma_remove_row, lemma_row, lemma_row_of_key,
    lemma_table_finite, lemma_update_row, row_at, table_of,
};

verus! {

/// The stored descriptors as rows: each under its own id.
pub open spec fn descriptor_rows(entries: Seq<PluginInfo>) -> Seq<(Seq<char>, PluginInfoView)> {
    Seq::new(entries.len(), |i: int| (entries[i].id@, entries[i]@))
}

/// Whether position `i` of `entries` holds the descriptor with id `id`.
pub open spec fn holds_at(entries: Seq<PluginInfo>, i: int, id: Seq<char>) -> bool {
    0 <= i < entries.len() && entries[i].id@ == id
}

/// No id occurs twice among `entries`.
pub open spec fn distinct_ids(entries: Seq<PluginInfo>) -> bool {
    forall|i: int, j: int|
        0 <= i < j < entries.len() ==> (#[trigger] entries[i]).id@ != (#[trigger] entries[j]).id@
}

/// `snapshot` shows exactly the plugins of `registered`: every descriptor in
/// it is the one registered under its id, no id is shown twice, and no
/// registered id is missing.
pub open spec fn is_snapshot_of(
    snapshot: Seq<PluginInfo>,
    registered: Map<Seq<char>, PluginInfoView>,
) -> bool {
    &&& forall|i: int|
        0 <= i < snapshot.len() ==> registered.contains_key((#[trigger] snapshot[i]).id@)
            && registered[snapshot[i].id@] == snapshot[i]@
    &&& distinct_ids(snapshot)
    &&& forall|id: Seq<char>| #[trigger]
        registered.contains_key(id) ==> exists|i: int| holds_at(snapshot, i, id)
}

/// A mapping from plugin id to descriptor.
///
/// The order in which descriptors were inserted carries no meaning.
pub struct Registry {
    entries: Vec<PluginInfo>,
}

impl View for Registry {
    type V = Map<Seq<char>, PluginInfoView>;

    closed spec fn view(&self) -> Map<Seq<char>, PluginInfoView> {
        table_of(descriptor_rows(self.entries@))
    }
}

impl Registry {
    /// The registry's invariant: no id is stored twice.
    pub closed spec fn wf(&self) -> bool {
        distinct_keys(descriptor_rows(self.entries@))
    }

    /// Every descriptor is stored under its own id, and the registry is
    /// finite.
    pub proof fn lemma_keys_are_ids(&self)
        requires
            self.wf(),
        ensures
            forall|id: Seq<char>| #[trigger] self@.contains_key(id) ==> self@[id].id == id,
            self@.dom().finite(),
    {
        let rows = descriptor_rows(self.entries@);
        assert forall|id: Seq<char>| #[trigger] self@.contains_key(id) implies self@[id].id
            == id by {
            let i = lemma_row_of_key(rows, id);
        }
        lemma_table_finite(rows);
    }

    /// The empty registry.
    pub fn new() -> (registry: Self)
        ensures
            registry.wf(),
            registry@ == Map::<Seq<char>, PluginInfoView>::empty(),
    {
        let registry = Registry { entries: Vec::new() };
        proof {
            lemma_no_rows(descriptor_rows(registry.entries@));
        }
        registry
    }

    /// The position at which `id` is stored, if it is stored.
    fn position(&self, id: &str) -> (found: Option<usize>)
        requires
            self.wf(),
        ensures
            match found {
                Some(i) => row_at(descriptor_rows(self.entries@), i as int, id@),
                None => !self@.contains_key(id@),
            },
    {
        let probe = String::from_str(id);
        let ghost rows = descriptor_rows(self.entries@);
        let mut i: usize = 0;
        while i < self.entries.len()
            invariant
                i <= self.entries.len(),
                probe@ == id@,
                rows == descriptor_rows(self.entries@),
                forall|k: int| 0 <= k < i ==> !row_at(rows, k, id@),
            decreases self.entries.len() - i,
        {
            if self.entries[i].id == probe {
                return Some(i);
            }
            i += 1;
        }
        proof {
            if self@.contains_key(id@) {
                let k = choose|k: int| row_at(rows, k, id@);
                assert(!row_at(rows, k, id@));
            }
        }
        None
    }

    /// Stores `descriptor` under its id, in place of any descriptor that was
    /// stored under that id before.
    pub fn insert(&mut self, descriptor: PluginInfo)
        requires
            old(self).wf(),
        ensures
            final(self).wf(),
            final(self)@ == old(self)@.insert(descriptor.id@, descriptor@),
    {
        let ghost before = descriptor_rows(self.entries@);
        let ghost id = descriptor.id@;
        let ghost value = descriptor@;
        let found = self.position(descriptor.id.as_str());
        match found {
            Some(i) => {
                self.entries.set(i, descriptor);
                proof {
                    lemma_update_row(before, i as int, value);
                    assert(descriptor_rows(self.entries@) =~= before.update(i as int, (id, value)));
                }
            },
            None => {
                self.entries.push(descriptor);
                proof {
                    lemma_push_row(before, id, value);
                    assert(descriptor_rows(self.entries@) =~= before.push((id, value)));
                }
            },
        }
    }

    /// Takes the descriptor stored under `id` out of the registry.
    pub fn remove(&mut self, id: &str) -> (removed: Option<PluginInfo>)
        requires
            old(self).wf(),
        ensures
            final(self).wf(),
            final(self)@ == old(self)@.remove(id@),
            match removed {
                Some(descriptor) => old(self)@.contains_key(id@) && descriptor@ == old(self)@[id@],
                None => !old(self)@.contains_key(id@),
            },
    {
        let ghost before = descriptor_rows(self.entries@);
        let found = self.position(id);
        match found {
            Some(i) => {
                let descriptor = self.entries.remove(i);
                proof {
                    lemma_row(before, i as int);
                    lemma_remove_row(before, i as int);
                    assert(descriptor_rows(self.entries@) =~= before.remove(i as int));
                }
                Some(descriptor)
            },
            None => {
                assert(self@ =~= old(self)@.remove(id@));
                None
            },
        }
    }

    /// A copy of the descriptor stored under `id`.
    pub fn get(&self, id: &str) -> (found: Option<PluginInfo>)
        requires
            self.wf(),
        ensures
            match found {
                Some(descriptor) => self@.contains_key(id@) && descriptor@ == self@[id@],
                None => !self@.contains_key(id@),
            },
    {
        match self.position(id) {
            Some(i) => {
                proof {
                    lemma_row(descriptor_rows(self.entries@), i as int);
                }
                Some(self.entries[i].clone())
            },
            None => None,
        }
    }

    /// A snapshot of every descriptor: each id of the registry once, with the
    /// descriptor stored under it. Later changes to the registry do not show
    /// in the snapshot.
    pub fn list(&self) -> (snapshot: Vec<PluginInfo>)
        requires
            self.wf(),
        ensures
            is_snapshot_of(snapshot@, self@),
            snapshot@.len() == self@.dom().len(),
    {
        let mut snapshot: Vec<PluginInfo> = Vec::new();
        let mut i: usize = 0;
        while i < self.entries.len()
            invariant
                i <= self.entries.len(),
                snapshot@ == self.entries@.take(i as int),
            decreases self.entries.len() - i,
        {
            snapshot.push(self.entries[i].clone());
            assert(snapshot@ =~= self.entries@.take(i + 1));
            i += 1;
        }
        proof {
            assert(snapshot@ =~= self.entries@);
            let rows = descriptor_rows(self.entries@);
            lemma_table_finite(rows);
            assert forall|i: int| 0 <= i < snapshot@.len() implies self@.contains_key(
                (#[trigger] snapshot@[i]).id@,
            ) && self@[snapshot@[i].id@] == snapshot@[i]@ by {
                lemma_row(rows, i);
            }
            assert forall|a: int, b: int| 0 <= a < b < snapshot@.len() implies (
            #[trigger] snapshot@[a]).id@ != (#[trigger] snapshot@[b]).id@ by {
                assert(rows[a].0 != rows[b].0);
            }
            assert forall|id: Seq<char>| #[trigger] self@.contains_key(id) implies exists|i: int|
                holds_at(snapshot@, i, id) by {
                let i = lemma_row_of_key(rows, id);
                assert(holds_at(snapshot@, i, id));
            }
        }
        snapshot
    }
}

} // verus!
