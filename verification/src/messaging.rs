//! Messages moved through the core.
//!
//! [`Messages`] are the transient values exchanged with transport
//! channels: control events the router intercepts, and payloads it
//! forwards verbatim. [`ExtensionMessages`] wrap what a state's
//! loaded extensions observe: a re-broadcast core message, or the
//! outcome of one filesystem operation.

use crate::errors::Errors;
use crate::filesystems::{
    dir_result_view, file_result_view, DirItemInfo, DirItemInfoV, FileInfo, FileInfoV,
};
use crate::state::{StateData, StateDataV};
use vstd::prelude::*;

verus! {

/// Inbound and outbound events of the message router.
#[derive(Debug, PartialEq)]
pub enum Messages {
    /// A channel subscribes to a state's updates.
    ListenToState { state_id: u8, trigger: String },
    /// A state's data was replaced.
    StateUpdated { state_data: StateData },
    /// A payload meant purely for transport delivery.
    ShowPopup { state_id: u8, title: String, content: String },
}

/// Mathematical value of a [`Messages`].
#[verifier::ext_equal]
pub ghost enum MessagesV {
    ListenToState { state_id: int, trigger: Seq<char> },
    StateUpdated { state_data: StateDataV },
    ShowPopup { state_id: int, title: Seq<char>, content: Seq<char> },
}

impl View for Messages {
    type V = MessagesV;

    open spec fn view(&self) -> MessagesV {
        match self {
            Messages::ListenToState { state_id, trigger } => MessagesV::ListenToState {
                state_id: *state_id as int,
                trigger: trigger@,
            },
            Messages::StateUpdated { state_data } => MessagesV::StateUpdated {
                state_data: state_data@,
            },
            Messages::ShowPopup { state_id, title, content } => MessagesV::ShowPopup {
                state_id: *state_id as int,
                title: title@,
                content: content@,
            },
        }
    }
}

impl Clone for Messages {
    fn clone(&self) -> (r: Messages)
        ensures
            r@ == self@,
    {
        match self {
            Messages::ListenToState { state_id, trigger } => Messages::ListenToState {
                state_id: *state_id,
                trigger: trigger.clone(),
            },
            Messages::StateUpdated { state_data } => Messages::StateUpdated {
                state_data: state_data.clone(),
            },
            Messages::ShowPopup { state_id, title, content } => Messages::ShowPopup {
                state_id: *state_id,
                title: title.clone(),
                content: content.clone(),
            },
        }
    }
}

/// What a state's loaded extensions observe.
#[derive(Debug, PartialEq)]
pub enum ExtensionMessages {
    /// A core [`Messages`] re-broadcast to every extension.
    CoreMessage(Messages),
    /// Outcome of a file read: state id, filesystem name, result.
    ReadFile(u8, String, Result<FileInfo, Errors>),
    /// Outcome of a file write: state id, filesystem name, written
    /// content, result.
    WriteFile(u8, String, String, Result<(), Errors>),
    /// Outcome of a directory listing: state id, filesystem name,
    /// listed path, result.
    ListDir(u8, String, String, Result<Vec<DirItemInfo>, Errors>),
}

/// Mathematical value of an [`ExtensionMessages`].
#[verifier::ext_equal]
pub ghost enum ExtensionMessagesV {
    CoreMessage(MessagesV),
    ReadFile(int, Seq<char>, Result<FileInfoV, Errors>),
    WriteFile(int, Seq<char>, Seq<char>, Result<(), Errors>),
    ListDir(int, Seq<char>, Seq<char>, Result<Seq<DirItemInfoV>, Errors>),
}

impl View for ExtensionMessages {
    type V = ExtensionMessagesV;

    open spec fn view(&self) -> ExtensionMessagesV {
        match self {
            ExtensionMessages::CoreMessage(m) => ExtensionMessagesV::CoreMessage(m@),
            ExtensionMessages::ReadFile(id, name, r) => ExtensionMessagesV::ReadFile(
                *id as int,
                name@,
                file_result_view(*r),
            ),
            ExtensionMessages::WriteFile(id, name, content, r) => ExtensionMessagesV::WriteFile(
                *id as int,
                name@,
                content@,
                *r,
            ),
            ExtensionMessages::ListDir(id, name, path, r) => ExtensionMessagesV::ListDir(
                *id as int,
                name@,
                path@,
                dir_result_view(*r),
            ),
        }
    }
}

/// Copy of a read result, preserving its mathematical value.
pub fn clone_file_result(r: &Result<FileInfo, Errors>) -> (c: Result<FileInfo, Errors>)
    ensures
        file_result_view(c) == file_result_view(*r),
{
    match r {
        Ok(f) => Ok(f.clone()),
        Err(e) => Err(*e),
    }
}

/// Copy of a listing, preserving its mathematical value.
pub fn clone_dir_items(v: &Vec<DirItemInfo>) -> (c: Vec<DirItemInfo>)
    ensures
        c@.map_values(|d: DirItemInfo| d@) == v@.map_values(|d: DirItemInfo| d@),
{
    let mut c: Vec<DirItemInfo> = Vec::new();
    let n = v.len();
    let mut i: usize = 0;
    while i < n
        invariant
            i <= n,
            n == v.len(),
            c@.len() == i,
            forall|j: int| 0 <= j < i ==> c@[j]@ == v@[j]@,
        decreases n - i,
    {
        c.push(v[i].clone());
        i = i + 1;
    }
    proof {
        assert(c@.map_values(|d: DirItemInfo| d@) =~= v@.map_values(|d: DirItemInfo| d@));
    }
    c
}

/// Copy of a listing result, preserving its mathematical value.
pub fn clone_dir_result(r: &Result<Vec<DirItemInfo>, Errors>) -> (c: Result<
    Vec<DirItemInfo>,
    Errors,
>)
    ensures
        dir_result_view(c) == dir_result_view(*r),
{
    match r {
        Ok(v) => Ok(clone_dir_items(v)),
        Err(e) => Err(*e),
    }
}

impl Clone for ExtensionMessages {
    fn clone(&self) -> (r: ExtensionMessages)
        ensures
            r@ == self@,
    {
        match self {
            ExtensionMessages::CoreMessage(m) => ExtensionMessages::CoreMessage(m.clone()),
            ExtensionMessages::ReadFile(id, name, res) => ExtensionMessages::ReadFile(
                *id,
                name.clone(),
                clone_file_result(res),
            ),
            ExtensionMessages::WriteFile(id, name, content, res) => ExtensionMessages::WriteFile(
                *id,
                name.clone(),
                content.clone(),
                *res,
            ),
            ExtensionMessages::ListDir(id, name, path, res) => ExtensionMessages::ListDir(
                *id,
                name.clone(),
                path.clone(),
                clone_dir_result(res),
            ),
        }
    }
}

} // verus!
