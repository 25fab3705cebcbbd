//! The plugin manager: loads, unloads, lists and describes plugins.
//!
//! Standing a plugin up and shutting it down happen outside the manager and
//! may take long, so both operations come in two halves. The first half
//! decides and hands out a ticket; the caller does the outside work with no
//! hold on the manager; the second half takes the ticket back and settles
//! the registry. Where no outside work is needed, [`PluginManager::load`]
//! and [`PluginManager::unload`] run both halves at once.

use vstd::prelude::*;
use vstd::string::*;

use crate::bridge::session::PythonBridge;
use crate::error::{BridgeError, LoadError, NotFoundError};
use crate::plugins::ids::{plugin_id, plugin_id_text};
use crate::plugins::info::PluginInfo;
use crate::plugins::model::{
    backing_for, lemma_commit, lemma_discard, lemma_reserve, lemma_retire, load_refusal,
    ArtifactKind, Backing, HandleView, ManagerView,
};
use crate::plugins::registry::{is_snapshot_of, Registry};
use crate::plugins::table::{
    distinct_keys, lemma_no_rows, lemma_push_row, lemma_remove_row, lemma_row, lemma_update_row,
    row_at, table_of,
};

verus! {

/// The manager's live reference to one loaded plugin. It never leaves the
/// manager.
struct PluginHandle {
    id: String,
    backing: Backing,
    unloading: bool,
}

spec fn handle_rows(handles: Seq<PluginHandle>) -> Seq<(Seq<char>, HandleView)> {
    Seq::new(
        handles.len(),
        |i: int|
            (
                handles[i].id@,
                HandleView { backing: handles[i].backing, unloading: handles[i].unloading },
            ),
    )
}

/// Whether calls may go through `bridge`: there is one, and it is usable.
pub open spec fn bridge_ready(bridge: Option<&PythonBridge>) -> bool {
    match bridge {
        Some(bridge) => bridge.usable(),
        None => false,
    }
}

/// A load in flight: the id it was given and what is being loaded.
#[derive(Debug)]
pub struct LoadTicket {
    index: u64,
    id: String,
    path: String,
    backing: Backing,
}

impl LoadTicket {
    /// Which load this is, counted from zero.
    pub closed spec fn index(&self) -> nat {
        self.index as nat
    }

    pub closed spec fn id_text(&self) -> Seq<char> {
        self.id@
    }

    pub closed spec fn path_text(&self) -> Seq<char> {
        self.path@
    }

    pub closed spec fn backing_kind(&self) -> Backing {
        self.backing
    }

    /// The id that the plugin will be registered under.
    pub fn id(&self) -> (id: &str)
        ensures
            id@ == self.id_text(),
    {
        self.id.as_str()
    }

    /// The path of the artifact being loaded.
    pub fn path(&self) -> (path: &str)
        ensures
            path@ == self.path_text(),
    {
        self.path.as_str()
    }

    /// Whether the plugin has to be stood up inside the foreign runtime.
    pub fn backing(&self) -> (backing: Backing)
        ensures
            backing == self.backing_kind(),
    {
        self.backing
    }
}

/// An unload in flight: the plugin that is to be shut down.
#[derive(Debug)]
pub struct UnloadTicket {
    id: String,
    backing: Backing,
}

impl UnloadTicket {
    pub closed spec fn id_text(&self) -> Seq<char> {
        self.id@
    }

    pub closed spec fn backing_kind(&self) -> Backing {
        self.backing
    }

    /// The id of the plugin that is being unloaded.
    pub fn id(&self) -> (id: &str)
        ensures
            id@ == self.id_text(),
    {
        self.id.as_str()
    }

    /// Whether the plugin has to be shut down inside the foreign runtime.
    pub fn backing(&self) -> (backing: Backing)
        ensures
            backing == self.backing_kind(),
    {
        self.backing
    }
}

/// Whether `ticket` is the ticket of the load that would start next in
/// `state`, for this path and this kind of artifact.
pub open spec fn names_load(
    ticket: &LoadTicket,
    state: ManagerView,
    path: Seq<char>,
    artifact: ArtifactKind,
) -> bool {
    &&& ticket.index() == state.issued
    &&& ticket.id_text() == state.next_id()
    &&& ticket.path_text() == path
    &&& ticket.backing_kind() == backing_for(artifact)
}

/// Whether `ticket` is a ticket for the unload of the plugin `id` as `state`
/// holds it.
pub open spec fn names_unload(ticket: &UnloadTicket, state: ManagerView, id: Seq<char>) -> bool {
    &&& state.plugins.contains_key(id)
    &&& ticket.id_text() == id
    &&& ticket.backing_kind() == state.handles[id].backing
}

/// Whether `tickets` name exactly the plugins that `state` holds, each once.
pub open spec fn names_all(tickets: Seq<UnloadTicket>, state: ManagerView) -> bool {
    &&& forall|i: int|
        0 <= i < tickets.len() ==> names_unload(
            #[trigger] &tickets[i],
            state,
            tickets[i].id_text(),
        )
    &&& forall|i: int, j: int|
        0 <= i < j < tickets.len() ==> (#[trigger] tickets[i]).id_text() != (
        #[trigger] tickets[j]).id_text()
    &&& forall|id: Seq<char>| #[trigger]
        state.plugins.contains_key(id) ==> exists|i: int|
            0 <= i < tickets.len() && (#[trigger] tickets[i]).id_text() == id
}

/// Orchestrates the plugin lifecycle against the registry.
pub struct PluginManager {
    registry: Registry,
    handles: Vec<PluginHandle>,
    next_index: u64,
}

impl View for PluginManager {
    type V = ManagerView;

    closed spec fn view(&self) -> ManagerView {
        ManagerView {
            plugins: self.registry@,
            handles: table_of(handle_rows(self.handles@)),
            issued: self.next_index as nat,
        }
    }
}

impl PluginManager {
    /// The manager's invariant. Every manager made by [`PluginManager::new`]
    /// and changed through the methods below satisfies it.
    pub closed spec fn wf(&self) -> bool {
        &&& self.registry.wf()
        &&& distinct_keys(handle_rows(self.handles@))
        &&& self@.inv()
    }

    /// A well-formed manager is in a state that satisfies the state
    /// invariant, with less than 2^64 ids given out.
    pub proof fn lemma_wf(&self)
        requires
            self.wf(),
        ensures
            self@.inv(),
            self@.issued <= u64::MAX,
    {
    }

    /// A manager that has loaded nothing.
    pub fn new() -> (manager: Self)
        ensures
            manager.wf(),
            manager@ == ManagerView::initial(),
    {
        let manager = PluginManager { registry: Registry::new(), handles: Vec::new(), next_index: 0 };
        proof {
            lemma_no_rows(handle_rows(manager.handles@));
            assert(manager@.plugins.dom() =~= manager@.handles.dom());
        }
        manager
    }

    /// Whether another id can be given out.
    pub fn can_issue(&self) -> (yes: bool)
        ensures
            yes == (self@.issued < u64::MAX),
    {
        self.next_index < u64::MAX
    }

    /// Whether the load that `ticket` stands for may still commit here.
    pub fn awaits(&self, ticket: &LoadTicket) -> (yes: bool)
        requires
            self.wf(),
        ensures
            yes == self@.awaits(ticket.index()),
    {
        if ticket.index < self.next_index {
            let id = plugin_id(ticket.index);
            self.registry.get(id.as_str()).is_none()
        } else {
            false
        }
    }

    /// Whether an unload of the plugin `plugin_id` is in flight.
    pub fn is_unloading(&self, plugin_id: &str) -> (yes: bool)
        requires
            self.wf(),
        ensures
            yes == self@.is_unloading(plugin_id@),
    {
        match self.handle_position(plugin_id) {
            Some(i) => {
                proof {
                    lemma_row(handle_rows(self.handles@), i as int);
                }
                self.handles[i].unloading
            },
            None => false,
        }
    }

    /// The position of the handle of plugin `id`, if the plugin is loaded.
    fn handle_position(&self, id: &str) -> (found: Option<usize>)
        requires
            self.wf(),
        ensures
            match found {
                Some(i) => row_at(handle_rows(self.handles@), i as int, id@)
                    && self@.plugins.contains_key(id@),
                None => !self@.plugins.contains_key(id@),
            },
    {
        let probe = String::from_str(id);
        let ghost rows = handle_rows(self.handles@);
        let mut i: usize = 0;
        while i < self.handles.len()
            invariant
                i <= self.handles.len(),
                probe@ == id@,
                rows == handle_rows(self.handles@),
                distinct_keys(rows),
                table_of(rows).dom() == self@.plugins.dom(),
                forall|k: int| 0 <= k < i ==> !row_at(rows, k, id@),
            decreases self.handles.len() - i,
        {
            if self.handles[i].id == probe {
                proof {
                    lemma_row(rows, i as int);
                }
                return Some(i);
            }
            i += 1;
        }
        proof {
            if table_of(rows).contains_key(id@) {
                let k = choose|k: int| row_at(rows, k, id@);
                assert(!row_at(rows, k, id@));
            }
        }
        None
    }

    /// First half of a load: decides whether the plugin at `plugin_path` can
    /// be loaded and, if so, gives the load its id. `artifact` says what the
    /// inspection of the artifact found; `bridge` is the bridge of the
    /// process, if it has one. The registry does not change.
    pub fn begin_load(
        &mut self,
        plugin_path: &str,
        artifact: ArtifactKind,
        bridge: Option<&PythonBridge>,
    ) -> (started: Result<LoadTicket, LoadError>)
        requires
            old(self).wf(),
            old(self)@.issued < u64::MAX,
        ensures
            final(self).wf(),
            match load_refusal(artifact, bridge_ready(bridge)) {
                Some(error) => started == Err::<LoadTicket, LoadError>(error) && final(self)@
                    == old(self)@,
                None => {
                    &&& started is Ok
                    &&& started->Ok_0.index() == old(self)@.issued
                    &&& started->Ok_0.id_text() == old(self)@.next_id()
                    &&& started->Ok_0.path_text() == plugin_path@
                    &&& started->Ok_0.backing_kind() == backing_for(artifact)
                    &&& final(self)@ == old(self)@.reserve()
                },
            },
    {
        let backing = match artifact {
            ArtifactKind::Invalid => {
                return Err(LoadError::ArtifactInvalid);
            },
            ArtifactKind::Native => Backing::Native,
            ArtifactKind::Foreign => {
                let ready = match bridge {
                    Some(bridge) => bridge.is_usable(),
                    None => false,
                };
                if !ready {
                    return Err(LoadError::BridgeUnavailable);
                }
                Backing::Foreign
            },
        };
        let index: u64 = self.next_index;
        let id = plugin_id(index);
        proof {
            lemma_reserve(self@);
        }
        self.next_index = index + 1;
        Ok(LoadTicket { index, id, path: String::from_str(plugin_path), backing })
    }

    /// Second half of a load. `outcome` says what standing the plugin up
    /// came to. On success the plugin is registered, enabled, under the id
    /// of the ticket; on failure the registry stays as it was.
    pub fn finish_load(&mut self, ticket: LoadTicket, outcome: Result<(), BridgeError>) -> (finished:
        Result<String, LoadError>)
        requires
            old(self).wf(),
            ticket.id_text() == plugin_id_text(ticket.index()),
            old(self)@.awaits(ticket.index()),
        ensures
            final(self).wf(),
            match outcome {
                Ok(_) => {
                    &&& finished is Ok
                    &&& finished->Ok_0@ == ticket.id_text()
                    &&& final(self)@ == old(self)@.commit(
                        ticket.id_text(),
                        ticket.path_text(),
                        ticket.backing_kind(),
                    )
                },
                Err(error) => finished == Err::<String, LoadError>(LoadError::Bridge(error))
                    && final(self)@ == old(self)@,
            },
    {
        match outcome {
            Err(error) => Err(LoadError::Bridge(error)),
            Ok(_) => {
                let ghost before = self@;
                let ghost rows = handle_rows(self.handles@);
                let LoadTicket { index, id, path, backing } = ticket;
                let descriptor = PluginInfo {
                    id: id.clone(),
                    name: String::from_str("Example Plugin"),
                    version: String::from_str("1.0.0"),
                    enabled: true,
                    path,
                };
                let handle = PluginHandle { id: id.clone(), backing, unloading: false };
                self.registry.insert(descriptor);
                self.handles.push(handle);
                proof {
                    let view = HandleView { backing, unloading: false };
                    lemma_push_row(rows, id@, view);
                    assert(handle_rows(self.handles@) =~= rows.push((id@, view)));
                    lemma_commit(before, index as nat, path@, backing);
                }
                Ok(id)
            },
        }
    }

    /// A whole load in one call. `stand_up` is handed the ticket and does
    /// the outside work of standing the plugin up; it is called once, and
    /// not at all for a load that is refused. Either the plugin ends up
    /// registered, or the registry is as it was.
    pub fn load_with<F: FnOnce(&LoadTicket) -> Result<(), BridgeError>>(
        &mut self,
        plugin_path: &str,
        artifact: ArtifactKind,
        bridge: Option<&PythonBridge>,
        stand_up: F,
    ) -> (loaded: Result<String, LoadError>)
        requires
            old(self).wf(),
            old(self)@.issued < u64::MAX,
            forall|ticket: &LoadTicket|
                load_refusal(artifact, bridge_ready(bridge)) is None && names_load(
                    ticket,
                    old(self)@,
                    plugin_path@,
                    artifact,
                ) ==> #[trigger] stand_up.requires((ticket,)),
        ensures
            final(self).wf(),
            match load_refusal(artifact, bridge_ready(bridge)) {
                Some(error) => loaded == Err::<String, LoadError>(error) && final(self)@ == old(
                    self,
                )@,
                None => exists|ticket: &LoadTicket, outcome: Result<(), BridgeError>|
                    {
                        &&& #[trigger] stand_up.ensures((ticket,), outcome)
                        &&& names_load(ticket, old(self)@, plugin_path@, artifact)
                        &&& match outcome {
                            Ok(_) => {
                                &&& loaded is Ok
                                &&& loaded->Ok_0@ == old(self)@.next_id()
                                &&& final(self)@ == old(self)@.reserve().commit(
                                    old(self)@.next_id(),
                                    plugin_path@,
                                    backing_for(artifact),
                                )
                            },
                            Err(error) => loaded == Err::<String, LoadError>(
                                LoadError::Bridge(error),
                            ) && final(self)@ == old(self)@.reserve(),
                        }
                    },
            },
    {
        proof {
            lemma_reserve(self@);
        }
        match self.begin_load(plugin_path, artifact, bridge) {
            Ok(ticket) => {
                let outcome = stand_up(&ticket);
                let ghost handed = ticket;
                let ghost got = outcome;
                let loaded = self.finish_load(ticket, outcome);
                assert(stand_up.ensures((&handed,), got) && names_load(
                    &handed,
                    old(self)@,
                    plugin_path@,
                    artifact,
                ));
                loaded
            },
            Err(error) => Err(error),
        }
    }

    /// Loads the in-process plugin at `plugin_path` in one step and returns
    /// the id it was registered under.
    pub fn load(&mut self, plugin_path: &str) -> (loaded: Result<String, LoadError>)
        requires
            old(self).wf(),
            old(self)@.issued < u64::MAX,
        ensures
            final(self).wf(),
            loaded is Ok,
            loaded->Ok_0@ == old(self)@.next_id(),
            final(self)@ == old(self)@.after_load(plugin_path@),
    {
        proof {
            lemma_reserve(self@);
        }
        match self.begin_load(plugin_path, ArtifactKind::Native, None) {
            Ok(ticket) => self.finish_load(ticket, Ok(())),
            Err(error) => Err(error),
        }
    }

    /// First half of an unload: marks the plugin as on its way out, so that
    /// no second unload of it can start, and says what has to be shut down.
    /// The plugin stays registered until the second half.
    pub fn begin_unload(&mut self, plugin_id: &str) -> (started: Result<UnloadTicket, NotFoundError>)
        requires
            old(self).wf(),
        ensures
            final(self).wf(),
            if old(self)@.can_unload(plugin_id@) {
                &&& started is Ok
                &&& started->Ok_0.id_text() == plugin_id@
                &&& started->Ok_0.backing_kind() == old(self)@.handles[plugin_id@].backing
                &&& final(self)@ == old(self)@.retire(plugin_id@)
            } else {
                &&& started is Err
                &&& started->Err_0.id@ == plugin_id@
                &&& final(self)@ == old(self)@
            },
    {
        let ghost before = self@;
        let ghost rows = handle_rows(self.handles@);
        match self.handle_position(plugin_id) {
            Some(i) => {
                proof {
                    lemma_row(rows, i as int);
                }
                if self.handles[i].unloading {
                    Err(NotFoundError { id: String::from_str(plugin_id) })
                } else {
                    let backing = self.handles[i].backing;
                    let id = self.handles[i].id.clone();
                    self.handles.set(i, PluginHandle { id, backing, unloading: true });
                    proof {
                        let view = HandleView { backing, unloading: true };
                        lemma_update_row(rows, i as int, view);
                        assert(handle_rows(self.handles@) =~= rows.update(
                            i as int,
                            (plugin_id@, view),
                        ));
                        lemma_retire(before, plugin_id@);
                    }
                    Ok(UnloadTicket { id: String::from_str(plugin_id), backing })
                }
            },
            None => Err(NotFoundError { id: String::from_str(plugin_id) }),
        }
    }

    /// Second half of an unload. `shutdown` says what shutting the plugin
    /// down came to. Whatever it says, the plugin leaves the registry; a
    /// failure is handed back for the caller to report.
    pub fn finish_unload(&mut self, ticket: UnloadTicket, shutdown: Result<(), BridgeError>) -> (failure:
        Option<BridgeError>)
        requires
            old(self).wf(),
            old(self)@.is_unloading(ticket.id_text()),
        ensures
            final(self).wf(),
            final(self)@ == old(self)@.discard(ticket.id_text()),
            match shutdown {
                Ok(_) => failure is None,
                Err(error) => failure == Some(error),
            },
    {
        let ghost before = self@;
        let ghost rows = handle_rows(self.handles@);
        let found = self.handle_position(ticket.id.as_str());
        self.registry.remove(ticket.id.as_str());
        match found {
            Some(i) => {
                self.handles.remove(i);
                proof {
                    lemma_remove_row(rows, i as int);
                    assert(handle_rows(self.handles@) =~= rows.remove(i as int));
                }
            },
            None => {},
        }
        proof {
            lemma_discard(before, ticket.id_text());
        }
        match shutdown {
            Ok(_) => None,
            Err(error) => Some(error),
        }
    }

    /// A whole unload in one call. `shut_down` is handed the ticket and does
    /// the outside work of shutting the plugin down; it is called once, and
    /// not at all if no unload may start. Whatever `shut_down` returns, the
    /// plugin leaves the registry.
    pub fn unload_with<F: FnOnce(&UnloadTicket) -> Result<(), BridgeError>>(
        &mut self,
        plugin_id: &str,
        shut_down: F,
    ) -> (unloaded: Result<(), NotFoundError>)
        requires
            old(self).wf(),
            forall|ticket: &UnloadTicket|
                old(self)@.can_unload(plugin_id@) && names_unload(ticket, old(self)@, plugin_id@)
                    ==> #[trigger] shut_down.requires((ticket,)),
        ensures
            final(self).wf(),
            final(self)@ == old(self)@.after_unload(plugin_id@),
            unloaded is Ok <==> old(self)@.can_unload(plugin_id@),
            unloaded is Err ==> unloaded->Err_0.id@ == plugin_id@,
            old(self)@.can_unload(plugin_id@) ==> exists|
                ticket: &UnloadTicket,
                outcome: Result<(), BridgeError>,
            |
                #[trigger] shut_down.ensures((ticket,), outcome) && names_unload(
                    ticket,
                    old(self)@,
                    plugin_id@,
                ),
    {
        proof {
            if self@.plugins.contains_key(plugin_id@) {
                lemma_retire(self@, plugin_id@);
            }
        }
        match self.begin_unload(plugin_id) {
            Ok(ticket) => {
                let outcome = shut_down(&ticket);
                let ghost handed = ticket;
                let ghost got = outcome;
                self.finish_unload(ticket, outcome);
                assert(shut_down.ensures((&handed,), got) && names_unload(
                    &handed,
                    old(self)@,
                    plugin_id@,
                ));
                Ok(())
            },
            Err(error) => Err(error),
        }
    }

    /// Unloads the plugin `plugin_id` in one step.
    pub fn unload(&mut self, plugin_id: &str) -> (unloaded: Result<(), NotFoundError>)
        requires
            old(self).wf(),
        ensures
            final(self).wf(),
            final(self)@ == old(self)@.after_unload(plugin_id@),
            unloaded is Ok <==> old(self)@.can_unload(plugin_id@),
            unloaded is Err ==> unloaded->Err_0.id@ == plugin_id@,
    {
        proof {
            if self@.plugins.contains_key(plugin_id@) {
                lemma_retire(self@, plugin_id@);
            }
        }
        match self.begin_unload(plugin_id) {
            Ok(ticket) => {
                self.finish_unload(ticket, Ok(()));
                Ok(())
            },
            Err(error) => Err(error),
        }
    }

    /// Takes every plugin out of the registry, for the end of the host. The
    /// tickets say what is left to shut down: one for each plugin that was
    /// registered.
    pub fn teardown(&mut self) -> (leaving: Vec<UnloadTicket>)
        requires
            old(self).wf(),
        ensures
            final(self).wf(),
            final(self)@ == (ManagerView {
                plugins: Map::empty(),
                handles: Map::empty(),
                issued: old(self)@.issued,
            }),
            names_all(leaving@, old(self)@),
    {
        let ghost start = self@;
        let mut leaving: Vec<UnloadTicket> = Vec::new();
        while self.handles.len() > 0
            invariant
                self.wf(),
                self@.issued == start.issued,
                start.inv(),
                forall|id: Seq<char>| #[trigger]
                    self@.plugins.contains_key(id) ==> start.plugins.contains_key(id)
                        && self@.handles[id].backing == start.handles[id].backing,
                forall|i: int|
                    0 <= i < leaving.len() ==> names_unload(
                        #[trigger] &leaving[i],
                        start,
                        leaving[i].id_text(),
                    ) && !self@.plugins.contains_key(leaving[i].id_text()),
                forall|i: int, j: int|
                    0 <= i < j < leaving.len() ==> (#[trigger] leaving[i]).id_text() != (
                    #[trigger] leaving[j]).id_text(),
                forall|id: Seq<char>| #[trigger]
                    start.plugins.contains_key(id) ==> self@.plugins.contains_key(id) || exists|
                        i: int,
                    |
                        0 <= i < leaving.len() && (#[trigger] leaving[i]).id_text() == id,
            decreases self.handles.len(),
        {
            let ghost before = self@;
            let ghost rows = handle_rows(self.handles@);
            let ghost listed = leaving@;
            let last: usize = self.handles.len() - 1;
            proof {
                lemma_row(rows, last as int);
                lemma_remove_row(rows, last as int);
            }
            let handle = self.handles.remove(last);
            let ticket = UnloadTicket { id: handle.id, backing: handle.backing };
            self.registry.remove(ticket.id.as_str());
            leaving.push(ticket);
            proof {
                let gone = ticket.id_text();
                assert(handle_rows(self.handles@) =~= rows.remove(last as int));
                assert(self@ == before.discard(gone));
                lemma_discard(before, gone);
                assert forall|id: Seq<char>| #[trigger]
                    start.plugins.contains_key(id) implies self@.plugins.contains_key(id)
                    || exists|i: int|
                    0 <= i < leaving.len() && (#[trigger] leaving[i]).id_text() == id by {
                    if !self@.plugins.contains_key(id) {
                        if id == gone {
                            assert(leaving[listed.len() as int].id_text() == id);
                        } else {
                            let i = choose|i: int|
                                0 <= i < listed.len() && (#[trigger] listed[i]).id_text() == id;
                            assert(leaving[i].id_text() == id);
                        }
                    }
                }
            }
        }
        proof {
            lemma_no_rows(handle_rows(self.handles@));
            assert(self@.plugins =~= Map::empty());
        }
        leaving
    }

    /// A snapshot of the descriptors of all plugins that are loaded now.
    pub fn list(&self) -> (snapshot: Vec<PluginInfo>)
        requires
            self.wf(),
        ensures
            is_snapshot_of(snapshot@, self@.plugins),
            snapshot@.len() == self@.plugins.dom().len(),
    {
        self.registry.list()
    }

    /// A copy of the descriptor of the plugin `plugin_id`.
    pub fn get_info(&self, plugin_id: &str) -> (info: Result<PluginInfo, NotFoundError>)
        requires
            self.wf(),
        ensures
            match info {
                Ok(descriptor) => self@.plugins.contains_key(plugin_id@) && descriptor@
                    == self@.plugins[plugin_id@],
                Err(error) => !self@.plugins.contains_key(plugin_id@) && error.id@ == plugin_id@,
            },
    {
        match self.registry.get(plugin_id) {
            Some(descriptor) => Ok(descriptor),
            None => Err(NotFoundError { id: String::from_str(plugin_id) }),
        }
    }
}

impl Default for PluginManager {
    fn default() -> (manager: Self)
        ensures
            manager.wf(),
            manager@ == ManagerView::initial(),
    {
        PluginManager::new()
    }
}

} // verus!
