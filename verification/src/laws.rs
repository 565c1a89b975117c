//! Laws of the registry, the RPC facade and the router.
//!
//! Each proof function states, over the same spec functions the
//! executable contracts use, a property that relates several
//! operations or holds of every input.

use crate::assoc::{lemma_first_where_at, lemma_first_where_bounds};
use crate::errors::Errors;
use crate::extensions::spec_notify;
use crate::filesystems::{spec_read, FileInfoV};
use crate::messaging::{ExtensionMessagesV, MessagesV};
use crate::server::{spec_router_post, spec_router_result};
use crate::state::{
    find_state_index, lookup_fs, lookup_state, spec_authorized, spec_rpc_ext_info,
    spec_rpc_ext_list, spec_rpc_get,
    spec_rpc_list_post, spec_rpc_list_result, spec_rpc_read_post, spec_rpc_read_result,
    spec_rpc_set_post, spec_rpc_set_result, spec_rpc_write_post, spec_rpc_write_result,
    spec_state_list_result, spec_state_read_result, state_key_is, StateDataV, StateV, StatesListV,
};
use vstd::prelude::*;

verus! {

/// A token in a state's authorized set — recorded for the state
/// itself or a global `All` token — yields that state's current
/// data; any other token yields `None` rather than an error; so does
/// an absent state.
pub proof fn lemma_token_gates_get(sl: StatesListV, id: int, tok: Seq<char>)
    ensures
        match lookup_state(sl, id) {
            Some(st) => spec_rpc_get(sl, id, tok) == (if spec_authorized(sl, st, tok) {
                Some(st.data)
            } else {
                None::<StateDataV>
            }),
            None => spec_rpc_get(sl, id, tok) is None,
        },
{
}

/// For a state id absent from the registry, every RPC operation
/// returns `StateNotFound` (the data read returns `None`) and
/// performs no side effect: no extension notification, no filesystem
/// access, the registry unchanged.
pub proof fn lemma_unknown_state_no_effect(
    sl: StatesListV,
    path: Seq<char>,
    content: Seq<char>,
    name: Seq<char>,
    ext_id: Seq<char>,
    d: StateDataV,
    id: int,
    tok: Seq<char>,
)
    requires
        lookup_state(sl, id) is None,
    ensures
        spec_rpc_get(sl, id, tok) is None,
        spec_rpc_set_result(sl, id, tok) == Err::<(), Errors>(Errors::StateNotFound),
        spec_rpc_set_post(sl, id, d, tok) == sl,
        spec_rpc_read_result(sl, path, name, id, tok) == Err::<FileInfoV, Errors>(
            Errors::StateNotFound,
        ),
        spec_rpc_read_post(sl, path, name, id, tok) == sl,
        spec_rpc_write_result(sl, name, id, tok) == Err::<(), Errors>(Errors::StateNotFound),
        spec_rpc_write_post(sl, path, content, name, id, tok) == sl,
        spec_rpc_list_result(sl, path, name, id, tok) == Err::<
            Seq<crate::filesystems::DirItemInfoV>,
            Errors,
        >(Errors::StateNotFound),
        spec_rpc_list_post(sl, path, name, id, tok) == sl,
        spec_rpc_ext_info(sl, ext_id, id, tok) == Err::<
            crate::extensions::ManifestInfoV,
            Errors,
        >(Errors::StateNotFound),
        spec_rpc_ext_list(sl, id, tok) == Err::<Seq<Seq<char>>, Errors>(Errors::StateNotFound),
{
}

/// Replacing a state's data and immediately reading it back with the
/// same token returns exactly the data just set.
pub proof fn lemma_set_then_get(sl: StatesListV, id: int, d: StateDataV, tok: Seq<char>)
    requires
        spec_rpc_set_result(sl, id, tok) == Ok::<(), Errors>(()),
    ensures
        spec_rpc_get(spec_rpc_set_post(sl, id, d, tok), id, tok) == Some(d),
{
    let i = find_state_index(sl.states, id).unwrap();
    lemma_first_where_bounds(sl.states, state_key_is(id));
    let post = spec_rpc_set_post(sl, id, d, tok);
    assert(post.states.len() == sl.states.len());
    assert(post.states[i].0 == id);
    assert forall|j: int| 0 <= j < i implies !state_key_is(id)(post.states[j]) by {
        assert(post.states[j].0 == sl.states[j].0);
    }
    lemma_first_where_at(post.states, state_key_is(id), i);
    assert(post.states[i].1.data == d);
    assert(post.states[i].1.tokens == sl.states[i].1.tokens);
    assert(post.tokens == sl.tokens);
}

/// No notify-less mutation path: a successful data replacement is
/// immediately followed by exactly one `CoreMessage(StateUpdated)`
/// notification to every extension of every state, carrying the data
/// just set; no other state's data changes.
pub proof fn lemma_set_notifies(sl: StatesListV, id: int, d: StateDataV, tok: Seq<char>)
    requires
        spec_rpc_set_result(sl, id, tok) == Ok::<(), Errors>(()),
    ensures
        ({
            let post = spec_rpc_set_post(sl, id, d, tok);
            let i = find_state_index(sl.states, id).unwrap();
            let m = ExtensionMessagesV::CoreMessage(MessagesV::StateUpdated { state_data: d });
            &&& post.states.len() == sl.states.len()
            &&& post.states[i].0 == id
            &&& post.states[i].1.data == d
            &&& forall|j: int|
                0 <= j < sl.states.len() ==> post.states[j].1.extensions == spec_notify(
                    sl.states[j].1.extensions,
                    m,
                )
            &&& forall|j: int|
                0 <= j < sl.states.len() && j != i ==> post.states[j].1.data
                    == sl.states[j].1.data
        }),
{
    lemma_first_where_bounds(sl.states, state_key_is(id));
    let i = find_state_index(sl.states, id).unwrap();
    let post = spec_rpc_set_post(sl, id, d, tok);
    let m = ExtensionMessagesV::CoreMessage(MessagesV::StateUpdated { state_data: d });
    assert forall|j: int|
        0 <= j < sl.states.len() implies post.states[j].1.extensions == spec_notify(
        sl.states[j].1.extensions,
        m,
    ) by {
        if j == i {
            assert((StateV { data: d, ..sl.states[i].1 }).extensions == sl.states[i].1.extensions);
        }
    }
}

/// A successful file read produces, for every extension loaded in the
/// addressed state, exactly one notification carrying the very result
/// returned to the caller; every other state is untouched.
pub proof fn lemma_read_notifies(
    sl: StatesListV,
    path: Seq<char>,
    name: Seq<char>,
    id: int,
    tok: Seq<char>,
)
    requires
        lookup_state(sl, id) is Some,
        lookup_state(sl, id).unwrap().tokens.contains(tok),
        lookup_fs(lookup_state(sl, id).unwrap(), name) is Some,
    ensures
        ({
            let st = lookup_state(sl, id).unwrap();
            let r = spec_rpc_read_result(sl, path, name, id, tok);
            let post = spec_rpc_read_post(sl, path, name, id, tok);
            let i = find_state_index(sl.states, id).unwrap();
            &&& r == spec_read(lookup_fs(st, name).unwrap(), path)
            &&& post.states.len() == sl.states.len()
            &&& post.states[i].1.extensions.len() == st.extensions.len()
            &&& forall|k: int|
                0 <= k < st.extensions.len() ==> post.states[i].1.extensions[k].received
                    == st.extensions[k].received.push(ExtensionMessagesV::ReadFile(id, name, r))
            &&& forall|j: int|
                0 <= j < sl.states.len() && j != i ==> post.states[j] == sl.states[j]
        }),
{
    lemma_first_where_bounds(sl.states, state_key_is(id));
}

/// The write counterpart of [`lemma_read_notifies`]: one notification
/// per loaded extension, carrying the written content and the result
/// returned to the caller.
pub proof fn lemma_write_notifies(
    sl: StatesListV,
    path: Seq<char>,
    content: Seq<char>,
    name: Seq<char>,
    id: int,
    tok: Seq<char>,
)
    requires
        lookup_state(sl, id) is Some,
        lookup_state(sl, id).unwrap().tokens.contains(tok),
        lookup_fs(lookup_state(sl, id).unwrap(), name) is Some,
    ensures
        ({
            let st = lookup_state(sl, id).unwrap();
            let r = spec_rpc_write_result(sl, name, id, tok);
            let post = spec_rpc_write_post(sl, path, content, name, id, tok);
            let i = find_state_index(sl.states, id).unwrap();
            &&& r == Ok::<(), Errors>(())
            &&& post.states.len() == sl.states.len()
            &&& post.states[i].1.extensions.len() == st.extensions.len()
            &&& forall|k: int|
                0 <= k < st.extensions.len() ==> post.states[i].1.extensions[k].received
                    == st.extensions[k].received.push(
                    ExtensionMessagesV::WriteFile(id, name, content, Ok(())),
                )
            &&& forall|j: int|
                0 <= j < sl.states.len() && j != i ==> post.states[j] == sl.states[j]
        }),
{
    lemma_first_where_bounds(sl.states, state_key_is(id));
}

/// The listing counterpart of [`lemma_read_notifies`]: one
/// notification per loaded extension, carrying the listed path and
/// the result returned to the caller.
pub proof fn lemma_list_notifies(
    sl: StatesListV,
    path: Seq<char>,
    name: Seq<char>,
    id: int,
    tok: Seq<char>,
)
    requires
        lookup_state(sl, id) is Some,
        lookup_state(sl, id).unwrap().tokens.contains(tok),
        lookup_fs(lookup_state(sl, id).unwrap(), name) is Some,
    ensures
        ({
            let st = lookup_state(sl, id).unwrap();
            let r = spec_rpc_list_result(sl, path, name, id, tok);
            let post = spec_rpc_list_post(sl, path, name, id, tok);
            let i = find_state_index(sl.states, id).unwrap();
            &&& r == spec_state_list_result(st, path, name)
            &&& r is Ok
            &&& post.states.len() == sl.states.len()
            &&& post.states[i].1.extensions.len() == st.extensions.len()
            &&& forall|k: int|
                0 <= k < st.extensions.len() ==> post.states[i].1.extensions[k].received
                    == st.extensions[k].received.push(
                    ExtensionMessagesV::ListDir(id, name, path, r),
                )
            &&& forall|j: int|
                0 <= j < sl.states.len() && j != i ==> post.states[j] == sl.states[j]
        }),
{
    lemma_first_where_bounds(sl.states, state_key_is(id));
}

/// The router drops a subscription to an unknown state without
/// forwarding anything to the transport and without error or change.
pub proof fn lemma_router_unknown_listen(sl: StatesListV, id: int, trig: Seq<char>)
    requires
        lookup_state(sl, id) is None,
    ensures
        spec_router_result(sl, MessagesV::ListenToState { state_id: id, trigger: trig }) is None,
        spec_router_post(sl, MessagesV::ListenToState { state_id: id, trigger: trig }) == sl,
{
}

} // verus!
