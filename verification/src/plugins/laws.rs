//! What holds of the manager over whole histories of calls.
//!
//! The statements here speak of [`ManagerView`], the state that the
//! contracts of [`crate::plugins::PluginManager`] speak of. Each call of the
//! manager takes that state one [`step`] further.

use vstd::prelude::*;

use crate::error::LoadError;
use crate::plugins::ids::{lemma_plugin_ids_distinct, plugin_id_text};
use crate::plugins::model::{
    lemma_commit, lemma_discard, lemma_reserve, lemma_retire, load_refusal, ArtifactKind, Backing,
    ManagerView, Phase,
};

verus! {

/// One call that changes a manager.
pub enum Call {
    /// `load` with this path.
    Load(Seq<char>),
    /// `unload` with this id.
    Unload(Seq<char>),
    /// `begin_load` for an artifact of this kind, with or without a usable
    /// bridge.
    BeginLoad(ArtifactKind, bool),
    /// `finish_load` with the ticket of the load of this number, for this
    /// path and backing; the flag says whether standing the plugin up
    /// succeeded.
    FinishLoad(nat, Seq<char>, Backing, bool),
    /// `begin_unload` with this id.
    BeginUnload(Seq<char>),
    /// `finish_unload` with the ticket for this id.
    FinishUnload(Seq<char>),
}

/// Whether `call` may be made in `state`: what the call requires.
pub open spec fn permitted(state: ManagerView, call: Call) -> bool {
    match call {
        Call::FinishLoad(index, _, _, _) => state.awaits(index),
        Call::FinishUnload(id) => state.is_unloading(id),
        _ => true,
    }
}

/// The state that one call leaves behind.
pub open spec fn step(state: ManagerView, call: Call) -> ManagerView {
    match call {
        Call::Load(path) => state.after_load(path),
        Call::Unload(id) => state.after_unload(id),
        Call::BeginLoad(artifact, bridge_usable) => if load_refusal(artifact, bridge_usable)
            is None {
            state.reserve()
        } else {
            state
        },
        Call::FinishLoad(index, path, backing, stood_up) => if stood_up {
            state.commit(plugin_id_text(index), path, backing)
        } else {
            state
        },
        Call::BeginUnload(id) => if state.can_unload(id) {
            state.retire(id)
        } else {
            state
        },
        Call::FinishUnload(id) => state.discard(id),
    }
}

/// The state of a new manager after `calls`, made in this order.
pub open spec fn replay(calls: Seq<Call>) -> ManagerView
    decreases calls.len(),
{
    if calls.len() == 0 {
        ManagerView::initial()
    } else {
        step(replay(calls.drop_last()), calls.last())
    }
}

/// Every call of `calls` may be made when it is made.
pub open spec fn valid(calls: Seq<Call>) -> bool {
    forall|p: int| 0 <= p < calls.len() ==> permitted(replay(#[trigger] calls.take(p)), calls[p])
}

/// Call number `p` of `calls` gives out an id, and the id is `id`.
pub open spec fn issued_at(calls: Seq<Call>, p: int, id: Seq<char>) -> bool {
    &&& 0 <= p < calls.len()
    &&& replay(calls.take(p)).next_id() == id
    &&& match calls[p] {
        Call::Load(_) => true,
        Call::BeginLoad(artifact, bridge_usable) => load_refusal(artifact, bridge_usable) is None,
        _ => false,
    }
}

/// Call number `p` of `calls` completes a load, and the plugin gets the id
/// `id`.
pub open spec fn loaded_at(calls: Seq<Call>, p: int, id: Seq<char>) -> bool {
    &&& 0 <= p < calls.len()
    &&& match calls[p] {
        Call::Load(_) => replay(calls.take(p)).next_id() == id,
        Call::FinishLoad(index, _, _, stood_up) => stood_up && plugin_id_text(index) == id,
        _ => false,
    }
}

/// Call number `q` of `calls` completes an unload of the plugin `id`.
pub open spec fn unloaded_at(calls: Seq<Call>, q: int, id: Seq<char>) -> bool {
    &&& 0 <= q < calls.len()
    &&& match calls[q] {
        Call::Unload(gone) => gone == id && replay(calls.take(q)).can_unload(id),
        Call::FinishUnload(gone) => gone == id,
        _ => false,
    }
}

/// Some load of `id` was completed in `calls`, and no unload of `id` was
/// completed after it.
pub open spec fn survives(calls: Seq<Call>, id: Seq<char>) -> bool {
    exists|p: int|
        #[trigger] loaded_at(calls, p, id) && forall|q: int|
            p < q < calls.len() ==> !#[trigger] unloaded_at(calls, q, id)
}

proof fn lemma_take_front(calls: Seq<Call>, p: int)
    requires
        0 <= p < calls.len(),
    ensures
        calls.take(p) == calls.drop_last().take(p),
        calls.take(calls.len() - 1) == calls.drop_last(),
{
    assert(calls.take(p) =~= calls.drop_last().take(p));
    assert(calls.take(calls.len() - 1) =~= calls.drop_last());
}

/// A permitted call keeps the invariant.
pub proof fn lemma_step_keeps_inv(state: ManagerView, call: Call)
    requires
        state.inv(),
        permitted(state, call),
    ensures
        step(state, call).inv(),
{
    match call {
        Call::Load(path) => {
            lemma_reserve(state);
            lemma_commit(state.reserve(), state.issued, path, Backing::Native);
        },
        Call::Unload(id) => {
            lemma_discard(state, id);
        },
        Call::BeginLoad(_, _) => {
            lemma_reserve(state);
        },
        Call::FinishLoad(index, path, backing, _) => {
            lemma_commit(state, index, path, backing);
        },
        Call::BeginUnload(id) => {
            if state.can_unload(id) {
                lemma_retire(state, id);
            }
        },
        Call::FinishUnload(id) => {
            lemma_discard(state, id);
        },
    }
}

/// Every state that a new manager reaches satisfies the invariant.
pub proof fn lemma_replay_inv(calls: Seq<Call>)
    requires
        valid(calls),
    ensures
        replay(calls).inv(),
    decreases calls.len(),
{
    if calls.len() == 0 {
        assert(replay(calls).plugins.dom() =~= replay(calls).handles.dom());
    } else {
        let front = calls.drop_last();
        assert forall|p: int| 0 <= p < front.len() implies permitted(
            replay(#[trigger] front.take(p)),
            front[p],
        ) by {
            lemma_take_front(calls, p);
            assert(permitted(replay(calls.take(p)), calls[p]));
        }
        lemma_replay_inv(front);
        lemma_take_front(calls, 0);
        assert(permitted(replay(calls.take(calls.len() - 1)), calls[calls.len() - 1]));
        lemma_step_keeps_inv(replay(front), calls.last());
    }
}

/// After any sequence of calls on a new manager, the registry holds exactly
/// the ids for which a load was completed and no unload was completed
/// since.
pub proof fn lemma_registry_reflects_history(calls: Seq<Call>)
    ensures
        forall|id: Seq<char>| #[trigger]
            replay(calls).plugins.contains_key(id) <==> survives(calls, id),
    decreases calls.len(),
{
    if calls.len() == 0 {
        assert forall|id: Seq<char>| !survives(calls, id) by {
            if survives(calls, id) {
                let p = choose|p: int|
                    #[trigger] loaded_at(calls, p, id) && forall|q: int|
                        p < q < calls.len() ==> !#[trigger] unloaded_at(calls, q, id);
                assert(loaded_at(calls, p, id));
            }
        }
    } else {
        let front = calls.drop_last();
        let last_index = calls.len() - 1;
        let before = replay(front);
        let after = replay(calls);
        lemma_registry_reflects_history(front);
        lemma_take_front(calls, 0);
        assert forall|p: int, id: Seq<char>| 0 <= p < front.len() implies (loaded_at(calls, p, id)
            <==> loaded_at(front, p, id)) && (unloaded_at(calls, p, id) <==> unloaded_at(
            front,
            p,
            id,
        )) by {
            lemma_take_front(calls, p);
        }
        assert forall|id: Seq<char>| #[trigger] after.plugins.contains_key(id) <==> survives(
            calls,
            id,
        ) by {
            if after.plugins.contains_key(id) {
                if loaded_at(calls, last_index, id) {
                } else {
                    assert(before.plugins.contains_key(id));
                    assert(survives(front, id));
                    let p = choose|p: int|
                        #[trigger] loaded_at(front, p, id) && forall|q: int|
                            p < q < front.len() ==> !#[trigger] unloaded_at(front, q, id);
                    assert(loaded_at(calls, p, id));
                    assert forall|q: int| p < q < calls.len() implies !#[trigger] unloaded_at(
                        calls,
                        q,
                        id,
                    ) by {
                        if q < front.len() {
                            assert(!unloaded_at(front, q, id));
                        }
                    }
                }
            }
            if survives(calls, id) {
                let p = choose|p: int|
                    #[trigger] loaded_at(calls, p, id) && forall|q: int|
                        p < q < calls.len() ==> !#[trigger] unloaded_at(calls, q, id);
                if p < front.len() {
                    assert(loaded_at(front, p, id));
                    assert forall|q: int| p < q < front.len() implies !#[trigger] unloaded_at(
                        front,
                        q,
                        id,
                    ) by {
                        assert(!unloaded_at(calls, q, id));
                    }
                    assert(survives(front, id));
                    assert(before.plugins.contains_key(id));
                    assert(!unloaded_at(calls, last_index, id));
                }
            }
        }
    }
}

/// The number of ids given out never falls, and every call that gives one
/// out raises it.
proof fn lemma_issued_grows(calls: Seq<Call>, p: int, q: int)
    requires
        0 <= p <= q <= calls.len(),
    ensures
        replay(calls.take(p)).issued <= replay(calls.take(q)).issued,
        p < q && issued_at(calls, p, replay(calls.take(p)).next_id()) ==> replay(
            calls.take(p),
        ).issued < replay(calls.take(q)).issued,
    decreases q - p,
{
    if p < q {
        lemma_issued_grows(calls, p, q - 1);
        assert(calls.take(q).drop_last() =~= calls.take(q - 1));
        assert(calls.take(q).last() == calls[q - 1]);
    }
}

/// However loads and unloads are interleaved, no id is given out twice.
pub proof fn lemma_ids_are_given_out_once(
    calls: Seq<Call>,
    p: int,
    q: int,
    first: Seq<char>,
    second: Seq<char>,
)
    requires
        issued_at(calls, p, first),
        issued_at(calls, q, second),
        p != q,
    ensures
        first != second,
{
    if p < q {
        lemma_issued_grows(calls, p, q);
    } else {
        lemma_issued_grows(calls, q, p);
    }
    lemma_plugin_ids_distinct(replay(calls.take(p)).issued, replay(calls.take(q)).issued);
}

/// Two loads in a row return different ids, whatever the manager held
/// before.
pub proof fn lemma_consecutive_loads_differ(state: ManagerView, first: Seq<char>, second: Seq<char>)
    ensures
        state.next_id() != state.after_load(first).next_id(),
        state.after_load(first).after_load(second).issued == state.issued + 2,
{
    lemma_plugin_ids_distinct(state.issued, state.issued + 1);
}

/// An unload of an id that is not registered fails and changes nothing, in
/// one step or in two.
pub proof fn lemma_unload_of_absent_id(state: ManagerView, id: Seq<char>)
    requires
        !state.plugins.contains_key(id),
    ensures
        !state.can_unload(id),
        state.after_unload(id) == state,
        step(state, Call::Unload(id)) == state,
        step(state, Call::BeginUnload(id)) == state,
{
}

/// Right after a load, the id it returned names a descriptor that carries
/// this id, is enabled and remembers the path.
pub proof fn lemma_loaded_plugin_is_registered(state: ManagerView, path: Seq<char>)
    ensures
        state.after_load(path).plugins.contains_key(state.next_id()),
        state.after_load(path).plugins[state.next_id()].id == state.next_id(),
        state.after_load(path).plugins[state.next_id()].enabled,
        state.after_load(path).plugins[state.next_id()].path == path,
        state.after_load(path).can_unload(state.next_id()),
{
}

/// Right after a load in two halves commits, the id of the ticket names a
/// descriptor that carries this id, is enabled and remembers the path.
pub proof fn lemma_committed_plugin_is_registered(
    state: ManagerView,
    id: Seq<char>,
    path: Seq<char>,
    backing: Backing,
)
    ensures
        state.commit(id, path, backing).plugins.contains_key(id),
        state.commit(id, path, backing).plugins[id].id == id,
        state.commit(id, path, backing).plugins[id].enabled,
        state.commit(id, path, backing).plugins[id].path == path,
        state.commit(id, path, backing).handles[id].backing == backing,
        state.commit(id, path, backing).can_unload(id),
{
}

/// A load changes nothing but what it adds, and an unload nothing but what
/// it removes.
pub proof fn lemma_other_plugins_untouched(state: ManagerView, path: Seq<char>, id: Seq<char>)
    requires
        state.inv(),
        state.plugins.contains_key(id),
    ensures
        state.after_load(path).plugins.contains_key(id),
        state.after_load(path).plugins[id] == state.plugins[id],
        forall|other: Seq<char>|
            other != id ==> (#[trigger] state.after_unload(other).plugins.contains_key(id)
                && state.after_unload(other).plugins[id] == state.plugins[id]),
{
    lemma_reserve(state);
}

/// Without a usable bridge, a plugin that needs the foreign runtime is
/// refused as `BridgeUnavailable` and the manager stays as it was; a plugin
/// that runs in the host process loads whether or not there is a bridge.
pub proof fn lemma_bridge_gates_foreign_plugins_only(state: ManagerView, bridge_usable: bool)
    ensures
        load_refusal(ArtifactKind::Foreign, false) == Some(LoadError::BridgeUnavailable),
        step(state, Call::BeginLoad(ArtifactKind::Foreign, false)) == state,
        load_refusal(ArtifactKind::Foreign, true) is None,
        load_refusal(ArtifactKind::Native, bridge_usable) is None,
        step(state, Call::BeginLoad(ArtifactKind::Native, bridge_usable)) == state.reserve(),
        load_refusal(ArtifactKind::Invalid, bridge_usable) == Some(LoadError::ArtifactInvalid),
{
}

/// Whether a plugin id may pass from phase `from` to phase `to` in one call:
/// it stays where it is, gets loaded, starts to unload, or is unloaded.
pub open spec fn lifecycle_move(from: Phase, to: Phase) -> bool {
    ||| from == to
    ||| from is Unloaded && to is Loaded
    ||| from is Loaded && to is Unloading
    ||| from is Loaded && to is Unloaded
    ||| from is Unloading && to is Unloaded
}

/// Every permitted call moves every plugin id along its lifecycle, and a
/// call that names one id moves no other.
pub proof fn lemma_calls_follow_the_lifecycle(state: ManagerView, call: Call, id: Seq<char>)
    requires
        state.inv(),
        permitted(state, call),
    ensures
        lifecycle_move(state.phase(id), step(state, call).phase(id)),
        match call {
            Call::Load(_) => id != state.next_id(),
            Call::BeginLoad(_, _) => true,
            Call::FinishLoad(index, _, _, _) => id != plugin_id_text(index),
            Call::Unload(named) => id != named,
            Call::BeginUnload(named) => id != named,
            Call::FinishUnload(named) => id != named,
        } ==> step(state, call).phase(id) == state.phase(id),
{
    lemma_reserve(state);
}

/// The registry shows a plugin as loaded or not at all: neither giving out
/// an id nor starting an unload changes what it shows, and a load whose
/// plugin could not be stood up leaves no trace.
pub proof fn lemma_in_flight_steps_are_invisible(state: ManagerView, call: Call)
    requires
        call is BeginLoad || call is BeginUnload || (call matches Call::FinishLoad(_, _, _, stood_up)
            && !stood_up),
    ensures
        step(state, call).plugins == state.plugins,
{
}

} // verus!
