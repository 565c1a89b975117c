//! Message router and RPC facade.
//!
//! [`Server::process_message`] is the dispatch step of the
//! single-consumer message loop: the caller owns the receiving end of
//! the inbound channel, feeds messages in strictly in arrival order,
//! and hands whatever the step returns to the active transport
//! handler. [`RpcManager`] is the synchronous request/response
//! surface over the registry; every call runs the same guard
//! sequence: locate the state, fail with `StateNotFound`, verify the
//! token, fail with `BadToken`, then perform the operation.

use crate::errors::Errors;
use crate::extensions::{manifest_result_view, ManifestInfo};
use crate::filesystems::{dir_result_view, file_result_view, DirItemInfo, FileInfo};
use crate::messaging::{ExtensionMessages, ExtensionMessagesV, Messages, MessagesV};
use crate::state::{
    ext_list_result_view, lookup_state, opt_data_view, spec_notify_all, spec_rpc_ext_info,
    spec_rpc_ext_list, spec_rpc_get, spec_rpc_list_post, spec_rpc_list_result, spec_rpc_read_post,
    spec_rpc_read_result, spec_rpc_set_post, spec_rpc_set_result, spec_rpc_write_post,
    spec_rpc_write_result, spec_run_state, StateData, StatesList, StatesListV,
};
use vstd::prelude::*;

verus! {

/// What the router hands to the transport for one inbound message:
/// the state's current data for a subscription to a known state,
/// nothing for one to an unknown state or for an update broadcast,
/// and the message itself for anything else.
pub open spec fn spec_router_result(sl: StatesListV, m: MessagesV) -> Option<MessagesV> {
    match m {
        MessagesV::ListenToState { state_id, trigger } => match lookup_state(sl, state_id) {
            Some(st) => Some(MessagesV::StateUpdated { state_data: st.data }),
            None => None,
        },
        MessagesV::StateUpdated { state_data } => None,
        MessagesV::ShowPopup { state_id, title, content } => Some(m),
    }
}

/// The registry after the router processed one inbound message: a
/// subscription runs the addressed state's init hooks, an update is
/// re-broadcast to every state's extensions, anything else leaves the
/// registry untouched.
pub open spec fn spec_router_post(sl: StatesListV, m: MessagesV) -> StatesListV {
    match m {
        MessagesV::ListenToState { state_id, trigger } => spec_run_state(sl, state_id),
        MessagesV::StateUpdated { state_data } => spec_notify_all(
            sl,
            ExtensionMessagesV::CoreMessage(m),
        ),
        MessagesV::ShowPopup { state_id, title, content } => sl,
    }
}

/// View of an optional message, for stating contracts.
pub open spec fn opt_msg_view(r: Option<Messages>) -> Option<MessagesV> {
    match r {
        Some(m) => Some(m@),
        None => None,
    }
}

/// The message-routing core: owns the registry on behalf of the
/// single consumer of the inbound channel.
pub struct Server {
    /// The registry the router dispatches into.
    pub states: StatesList,
}

impl Server {
    /// A server over the given registry.
    pub fn new(states: StatesList) -> (r: Server)
        ensures
            r.states@ == states@,
    {
        Server { states }
    }

    /// Process one inbound message, in arrival order.
    ///
    /// - A subscription to a known state yields that state's current
    ///   data as a `StateUpdated` message for the transport, and runs
    ///   the state's extension init hooks. A subscription to an
    ///   unknown state is silently dropped: no message, no error, no
    ///   change.
    /// - A `StateUpdated` broadcast is delivered to every state's
    ///   extensions as a `CoreMessage`, list-wide, not filtered by
    ///   the update's own state id.
    /// - Anything else is returned verbatim for the transport.
    ///
    /// The caller hands the returned message, if any, to the active
    /// transport handler, so for a subscription the transport send
    /// happens after the init hooks ran; the pushed data is captured
    /// before the hooks, so its content is unaffected. The registry
    /// is taken directly so that the router and the RPC facade can
    /// share one.
    pub fn process_message(states: &mut StatesList, msg: Messages) -> (r: Option<Messages>)
        ensures
            opt_msg_view(r) == spec_router_result(old(states)@, msg@),
            final(states)@ == spec_router_post(old(states)@, msg@),
    {
        match msg {
            Messages::ListenToState { state_id, trigger: _ } => {
                let data = match states.get_state_by_id(state_id) {
                    Some(st) => Some(st.data().clone()),
                    None => None,
                };
                match data {
                    Some(d) => {
                        states.run_state_extensions(state_id);
                        Some(Messages::StateUpdated { state_data: d })
                    },
                    None => None,
                }
            },
            Messages::StateUpdated { state_data } => {
                let m = ExtensionMessages::CoreMessage(Messages::StateUpdated { state_data });
                states.notify_extensions(&m);
                None
            },
            Messages::ShowPopup { state_id, title, content } => Some(
                Messages::ShowPopup { state_id, title, content },
            ),
        }
    }

    /// Process one inbound message against the server's own registry.
    pub fn handle_message(&mut self, msg: Messages) -> (r: Option<Messages>)
        ensures
            opt_msg_view(r) == spec_router_result(old(self).states@, msg@),
            final(self).states@ == spec_router_post(old(self).states@, msg@),
    {
        Server::process_message(&mut self.states, msg)
    }
}

/// The RPC facade: a token-gated request/response surface over the
/// registry, addressed by state id and a caller-supplied token.
pub struct RpcManager {
    /// The registry every call is guarded against.
    pub states: StatesList,
}

impl RpcManager {
    /// A facade over the given registry.
    pub fn new(states: StatesList) -> (r: RpcManager)
        ensures
            r.states@ == states@,
    {
        RpcManager { states }
    }

    /// The state's current data, exactly when the state exists and
    /// the token is in its authorized set; `None` otherwise, never an
    /// error.
    pub fn get_state_by_id(&self, state_id: u8, token: String) -> (r: Option<StateData>)
        ensures
            opt_data_view(r) == spec_rpc_get(self.states@, state_id as int, token@),
    {
        self.states.get_state_data_by_id(state_id, &token)
    }

    /// Replace a state's data wholesale; the change is atomic under
    /// the registry and is immediately followed by a
    /// `CoreMessage(StateUpdated)` broadcast to every state's
    /// extensions — the same list-wide fan-out the router performs
    /// for a `StateUpdated` message, so no mutation goes unobserved.
    pub fn set_state_by_id(&mut self, state_id: u8, new_state_data: StateData, token: String) -> (r: Result<(), Errors>)
        ensures
            r == spec_rpc_set_result(old(self).states@, state_id as int, token@),
            final(self).states@ == spec_rpc_set_post(
                old(self).states@,
                state_id as int,
                new_state_data@,
                token@,
            ),
    {
        self.states.set_state_data_by_id(state_id, new_state_data, &token)
    }

    /// Content of a file, through the state's named filesystem; the
    /// outcome is also broadcast to that state's extensions.
    pub fn read_file_by_path(
        &mut self,
        path: String,
        filesystem_name: String,
        state_id: u8,
        token: String,
    ) -> (r: Result<FileInfo, Errors>)
        ensures
            file_result_view(r) == spec_rpc_read_result(
                old(self).states@,
                path@,
                filesystem_name@,
                state_id as int,
                token@,
            ),
            final(self).states@ == spec_rpc_read_post(
                old(self).states@,
                path@,
                filesystem_name@,
                state_id as int,
                token@,
            ),
    {
        self.states.read_file_by_path(&path, &filesystem_name, state_id, &token)
    }

    /// Write new content to a path, through the state's named
    /// filesystem; the outcome is also broadcast to that state's
    /// extensions.
    pub fn write_file_by_path(
        &mut self,
        path: String,
        content: String,
        filesystem_name: String,
        state_id: u8,
        token: String,
    ) -> (r: Result<(), Errors>)
        ensures
            r == spec_rpc_write_result(
                old(self).states@,
                filesystem_name@,
                state_id as int,
                token@,
            ),
            final(self).states@ == spec_rpc_write_post(
                old(self).states@,
                path@,
                content@,
                filesystem_name@,
                state_id as int,
                token@,
            ),
    {
        self.states.write_file_by_path(&path, &content, &filesystem_name, state_id, &token)
    }

    /// Items inside a directory, through the state's named
    /// filesystem; the outcome is also broadcast to that state's
    /// extensions.
    pub fn list_dir_by_path(
        &mut self,
        path: String,
        filesystem_name: String,
        state_id: u8,
        token: String,
    ) -> (r: Result<Vec<DirItemInfo>, Errors>)
        ensures
            dir_result_view(r) == spec_rpc_list_result(
                old(self).states@,
                path@,
                filesystem_name@,
                state_id as int,
                token@,
            ),
            final(self).states@ == spec_rpc_list_post(
                old(self).states@,
                path@,
                filesystem_name@,
                state_id as int,
                token@,
            ),
    {
        self.states.list_dir_by_path(&path, &filesystem_name, state_id, &token)
    }

    /// Manifest of one extension of the addressed state.
    pub fn get_ext_info_by_id(&self, extension_id: String, state_id: u8, token: String) -> (r:
        Result<ManifestInfo, Errors>)
        ensures
            manifest_result_view(r) == spec_rpc_ext_info(
                self.states@,
                extension_id@,
                state_id as int,
                token@,
            ),
    {
        self.states.get_ext_info_by_id(&extension_id, state_id, &token)
    }

    /// Ids of the extensions loaded into the addressed state.
    pub fn get_ext_list_by_id(&self, state_id: u8, token: String) -> (r: Result<Vec<String>, Errors>)
        ensures
            ext_list_result_view(r) == spec_rpc_ext_list(self.states@, state_id as int, token@),
    {
        self.states.get_ext_list_by_id(state_id, &token)
    }
}

} // verus!
