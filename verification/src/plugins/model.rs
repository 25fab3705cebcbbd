//! The manager's state as mathematics, and the steps that change it.
//!
//! Per plugin id the lifecycle is `Unloaded -> Loading -> Loaded -> Unloading
//! -> Unloaded`. The registry shows a plugin from the moment its load is
//! committed until the moment its unload is finished; `Loading` and
//! `Unloading` last only while an operation is in flight. A load in flight
//! is the ticket that the caller holds: until it is handed back, the manager
//! holds nothing under its id.

use vstd::prelude::*;

use crate::error::LoadError;
use crate::plugins::ids::{generated_before, plugin_id_text};
use crate::plugins::info::PluginInfoView;

verus! {

/// How a plugin is implemented.
#[derive(Clone, Copy, Debug, PartialEq, Eq, Structural)]
pub enum Backing {
    /// Instantiated inside the host process.
    Native,
    /// Lives inside the foreign runtime, behind the bridge.
    Foreign,
}

/// What an inspection of the artifact at a plugin path found.
#[derive(Clone, Copy, Debug, PartialEq, Eq, Structural)]
pub enum ArtifactKind {
    /// Not a plugin.
    Invalid,
    /// A plugin that runs inside the host process.
    Native,
    /// A plugin that runs inside the foreign runtime.
    Foreign,
}

/// Where a plugin id stands in its lifecycle, as far as the manager's state
/// shows.
pub enum Phase {
    /// Nothing is registered under the id: it was never loaded, its load is
    /// still in flight, or it was unloaded.
    Unloaded,
    /// The plugin is registered and no unload of it has started.
    Loaded,
    /// The plugin is still registered while it shuts down.
    Unloading,
}

/// What the manager knows of the live reference to one loaded plugin.
pub struct HandleView {
    pub backing: Backing,
    /// Whether an unload of the plugin is in flight.
    pub unloading: bool,
}

/// The state of a plugin manager.
pub struct ManagerView {
    /// What the registry shows: the descriptor of every loaded plugin.
    pub plugins: Map<Seq<char>, PluginInfoView>,
    /// The live references the manager holds, under the same ids.
    pub handles: Map<Seq<char>, HandleView>,
    /// How many ids have been given out.
    pub issued: nat,
}

/// Why a load cannot start, if it cannot: the artifact is no plugin, or it
/// needs the foreign runtime and no usable bridge is there.
pub open spec fn load_refusal(artifact: ArtifactKind, bridge_usable: bool) -> Option<LoadError> {
    match artifact {
        ArtifactKind::Invalid => Some(LoadError::ArtifactInvalid),
        ArtifactKind::Native => None,
        ArtifactKind::Foreign => if bridge_usable {
            None
        } else {
            Some(LoadError::BridgeUnavailable)
        },
    }
}

/// The implementation strategy that an artifact calls for.
pub open spec fn backing_for(artifact: ArtifactKind) -> Backing {
    if artifact == ArtifactKind::Foreign {
        Backing::Foreign
    } else {
        Backing::Native
    }
}

/// The descriptor under which a plugin is registered when its load commits.
pub open spec fn loaded_descriptor(id: Seq<char>, path: Seq<char>) -> PluginInfoView {
    PluginInfoView { id, name: "Example Plugin"@, version: "1.0.0"@, enabled: true, path }
}

impl ManagerView {
    /// The state of a manager that has loaded nothing yet.
    pub open spec fn initial() -> ManagerView {
        ManagerView { plugins: Map::empty(), handles: Map::empty(), issued: 0 }
    }

    /// What holds of every state a manager can reach: the handles are those
    /// of the registered plugins, every descriptor stands under its own id
    /// and is enabled, and every id in use was given out by this manager.
    pub open spec fn inv(self) -> bool {
        &&& self.plugins.dom() == self.handles.dom()
        &&& forall|id: Seq<char>| #[trigger]
            self.plugins.contains_key(id) ==> {
                &&& self.plugins[id].id == id
                &&& self.plugins[id].enabled
                &&& generated_before(id, self.issued)
            }
    }

    /// Where `id` stands in its lifecycle.
    pub open spec fn phase(self, id: Seq<char>) -> Phase {
        if !self.plugins.contains_key(id) {
            Phase::Unloaded
        } else if self.handles[id].unloading {
            Phase::Unloading
        } else {
            Phase::Loaded
        }
    }

    /// The id that the next load will get.
    pub open spec fn next_id(self) -> Seq<char> {
        plugin_id_text(self.issued)
    }

    /// A load starts: the next id is given out.
    pub open spec fn reserve(self) -> ManagerView {
        ManagerView { issued: self.issued + 1, ..self }
    }

    /// Whether a load that got the `index`-th id may still commit.
    pub open spec fn awaits(self, index: nat) -> bool {
        index < self.issued && !self.plugins.contains_key(plugin_id_text(index))
    }

    /// A load commits: the descriptor and the handle appear together.
    pub open spec fn commit(self, id: Seq<char>, path: Seq<char>, backing: Backing) -> ManagerView {
        ManagerView {
            plugins: self.plugins.insert(id, loaded_descriptor(id, path)),
            handles: self.handles.insert(id, HandleView { backing, unloading: false }),
            ..self
        }
    }

    /// A whole load of an in-process plugin.
    pub open spec fn after_load(self, path: Seq<char>) -> ManagerView {
        self.reserve().commit(self.next_id(), path, Backing::Native)
    }

    /// Whether an unload of `id` may start: the plugin is loaded and no other
    /// unload of it is in flight.
    pub open spec fn can_unload(self, id: Seq<char>) -> bool {
        self.plugins.contains_key(id) && !self.handles[id].unloading
    }

    /// Whether an unload of `id` is in flight.
    pub open spec fn is_unloading(self, id: Seq<char>) -> bool {
        self.plugins.contains_key(id) && self.handles[id].unloading
    }

    /// An unload starts: the plugin stays registered while it shuts down.
    pub open spec fn retire(self, id: Seq<char>) -> ManagerView {
        ManagerView {
            handles: self.handles.insert(
                id,
                HandleView { backing: self.handles[id].backing, unloading: true },
            ),
            ..self
        }
    }

    /// An unload finishes: the descriptor and the handle go together.
    pub open spec fn discard(self, id: Seq<char>) -> ManagerView {
        ManagerView { plugins: self.plugins.remove(id), handles: self.handles.remove(id), ..self }
    }

    /// A whole unload, which changes nothing unless it may start.
    pub open spec fn after_unload(self, id: Seq<char>) -> ManagerView {
        if self.can_unload(id) {
            self.discard(id)
        } else {
            self
        }
    }
}

/// Giving out an id keeps the invariant, and the id given out is in use
/// nowhere.
pub proof fn lemma_reserve(state: ManagerView)
    requires
        state.inv(),
    ensures
        state.reserve().inv(),
        state.reserve().awaits(state.issued),
        !state.plugins.contains_key(state.next_id()),
{
    let after = state.reserve();
    assert forall|id: Seq<char>| #[trigger] after.plugins.contains_key(id) implies generated_before(
        id,
        after.issued,
    ) by {
        let k = choose|k: nat| k < state.issued && id == #[trigger] plugin_id_text(k);
        assert(k < after.issued && id == plugin_id_text(k));
    }
    if state.plugins.contains_key(state.next_id()) {
        crate::plugins::ids::lemma_next_id_is_fresh(state.next_id(), state.issued);
    }
}

/// Committing a load that may still commit keeps the invariant.
pub proof fn lemma_commit(state: ManagerView, index: nat, path: Seq<char>, backing: Backing)
    requires
        state.inv(),
        state.awaits(index),
    ensures
        state.commit(plugin_id_text(index), path, backing).inv(),
{
    let id = plugin_id_text(index);
    let after = state.commit(id, path, backing);
    assert(after.plugins.dom() =~= after.handles.dom());
    assert forall|other: Seq<char>| #[trigger] after.plugins.contains_key(other) implies generated_before(
        other,
        after.issued,
    ) by {
        if other == id {
            assert(index < after.issued && other == plugin_id_text(index));
        }
    }
}

/// Starting an unload keeps the invariant.
pub proof fn lemma_retire(state: ManagerView, id: Seq<char>)
    requires
        state.inv(),
        state.plugins.contains_key(id),
    ensures
        state.retire(id).inv(),
        state.retire(id).is_unloading(id),
        state.retire(id).discard(id) == state.discard(id),
{
    let after = state.retire(id);
    assert(after.plugins.dom() =~= after.handles.dom());
    assert(after.discard(id).handles =~= state.discard(id).handles);
}

/// Finishing an unload keeps the invariant.
pub proof fn lemma_discard(state: ManagerView, id: Seq<char>)
    requires
        state.inv(),
    ensures
        state.discard(id).inv(),
{
    let after = state.discard(id);
    assert(after.plugins.dom() =~= after.handles.dom());
}

} // verus!
