//! States and their registry.
//!
//! A [`State`] is one editing session: its data, the tokens that
//! authorize access to it, a named table of filesystems and the
//! extensions loaded into it. A [`StatesList`] is the registry of all
//! states, keyed by the id each state carried when it was added, plus
//! the global token table. A token authorizes access to a state by
//! membership: it was either granted to that state directly or is a
//! global `All` token of the registry.

use crate::assoc::{first_where, lemma_first_where_at, lemma_first_where_bounds, lemma_first_where_none};
use crate::errors::{Errors, FilesystemErrors};
use crate::extensions::{
    manifest_result_view, spec_ext_info, spec_ext_list, spec_notify, spec_run, ExtensionsManager,
    LoadedExtensionV, ManifestInfo,
};
use crate::filesystems::{
    dir_result_view, file_result_view, spec_list, spec_read, spec_write, DirItemInfo, FileInfo,
    MemoryFilesystem, MemoryFilesystemV,
};
use crate::messaging::{
    clone_dir_result, clone_file_result, ExtensionMessages, ExtensionMessagesV, Messages, MessagesV,
};
use vstd::pervasive::VecAdditionalExecFns;
use vstd::prelude::*;

verus! {

/// The serializable payload of one editing session.
#[derive(Debug, PartialEq)]
pub struct StateData {
    /// The id the session was created with.
    pub id: u8,
    /// Opaque session content (open buffers, cursors, ...).
    pub content: String,
}

/// Mathematical value of a [`StateData`].
#[verifier::ext_equal]
pub ghost struct StateDataV {
    pub id: int,
    pub content: Seq<char>,
}

impl View for StateData {
    type V = StateDataV;

    open spec fn view(&self) -> StateDataV {
        StateDataV { id: self.id as int, content: self.content@ }
    }
}

impl Clone for StateData {
    fn clone(&self) -> (r: StateData)
        ensures
            r@ == self@,
    {
        StateData { id: self.id, content: self.content.clone() }
    }
}

impl StateData {
    /// Fresh session data with empty content.
    pub fn new(id: u8) -> (r: Self)
        ensures
            r@ == (StateDataV { id: id as int, content: Seq::empty() }),
    {
        StateData { id, content: String::new() }
    }
}

/// Scope a global token authorizes.
#[derive(Debug, PartialEq)]
pub enum TokenFlags {
    /// The token is valid for every state of the registry.
    All(String),
}

/// Mathematical value of a [`TokenFlags`].
#[verifier::ext_equal]
pub ghost enum TokenFlagsV {
    All(Seq<char>),
}

impl View for TokenFlags {
    type V = TokenFlagsV;

    open spec fn view(&self) -> TokenFlagsV {
        match self {
            TokenFlags::All(s) => TokenFlagsV::All(s@),
        }
    }
}

impl Clone for TokenFlags {
    fn clone(&self) -> (r: TokenFlags)
        ensures
            r@ == self@,
    {
        match self {
            TokenFlags::All(s) => TokenFlags::All(s.clone()),
        }
    }
}

/// One editing session.
pub struct State {
    /// The session payload. Mutation goes through [`State::update`].
    pub data: StateData,
    tokens: Vec<String>,
    filesystems: Vec<(String, MemoryFilesystem)>,
    extensions: ExtensionsManager,
}

/// Mathematical value of a [`State`].
#[verifier::ext_equal]
pub ghost struct StateV {
    pub data: StateDataV,
    pub tokens: Seq<Seq<char>>,
    pub filesystems: Seq<(Seq<char>, MemoryFilesystemV)>,
    pub extensions: Seq<LoadedExtensionV>,
}

impl View for State {
    type V = StateV;

    closed spec fn view(&self) -> StateV {
        StateV {
            data: self.data@,
            tokens: self.tokens@.map_values(|t: String| t@),
            filesystems: self.filesystems@.map_values(
                |e: (String, MemoryFilesystem)| (e.0@, e.1@),
            ),
            extensions: self.extensions@,
        }
    }
}

/// Predicate selecting the filesystem table entry for `name`.
pub open spec fn fs_name_is(name: Seq<char>) -> spec_fn((Seq<char>, MemoryFilesystemV)) -> bool {
    |e: (Seq<char>, MemoryFilesystemV)| e.0 == name
}

/// Index of the first filesystem registered under `name`, if any.
pub open spec fn find_fs_index(st: StateV, name: Seq<char>) -> Option<int> {
    first_where(st.filesystems, fs_name_is(name))
}

/// The filesystem registered under `name`, if any.
pub open spec fn lookup_fs(st: StateV, name: Seq<char>) -> Option<MemoryFilesystemV> {
    match find_fs_index(st, name) {
        Some(i) => Some(st.filesystems[i].1),
        None => None,
    }
}

/// What a read through the state returns.
pub open spec fn spec_state_read_result(st: StateV, path: Seq<char>, name: Seq<char>) -> Result<
    crate::filesystems::FileInfoV,
    Errors,
> {
    match lookup_fs(st, name) {
        Some(fs) => spec_read(fs, path),
        None => Err(Errors::Fs(FilesystemErrors::FilesystemNotFound)),
    }
}

/// The state after a read: untouched when the filesystem is absent;
/// otherwise every extension observed the read's outcome.
pub open spec fn spec_state_read_post(st: StateV, path: Seq<char>, name: Seq<char>, state_id: int) -> StateV {
    match lookup_fs(st, name) {
        Some(fs) => StateV {
            extensions: spec_notify(
                st.extensions,
                ExtensionMessagesV::ReadFile(state_id, name, spec_read(fs, path)),
            ),
            ..st
        },
        None => st,
    }
}

/// What a write through the state returns.
pub open spec fn spec_state_write_result(st: StateV, name: Seq<char>) -> Result<(), Errors> {
    match lookup_fs(st, name) {
        Some(fs) => Ok(()),
        None => Err(Errors::Fs(FilesystemErrors::FilesystemNotFound)),
    }
}

/// The state after a write: untouched when the filesystem is absent;
/// otherwise the store is updated and every extension observed the
/// write's outcome.
pub open spec fn spec_state_write_post(
    st: StateV,
    path: Seq<char>,
    content: Seq<char>,
    name: Seq<char>,
    state_id: int,
) -> StateV {
    match find_fs_index(st, name) {
        Some(i) => StateV {
            filesystems: st.filesystems.update(
                i,
                (st.filesystems[i].0, spec_write(st.filesystems[i].1, path, content)),
            ),
            extensions: spec_notify(
                st.extensions,
                ExtensionMessagesV::WriteFile(state_id, name, content, Ok(())),
            ),
            ..st
        },
        None => st,
    }
}

/// What a listing through the state returns.
pub open spec fn spec_state_list_result(st: StateV, path: Seq<char>, name: Seq<char>) -> Result<
    Seq<crate::filesystems::DirItemInfoV>,
    Errors,
> {
    match lookup_fs(st, name) {
        Some(fs) => Ok(spec_list(fs.files, path)),
        None => Err(Errors::Fs(FilesystemErrors::FilesystemNotFound)),
    }
}

/// The state after a listing: untouched when the filesystem is
/// absent; otherwise every extension observed the listing's outcome.
pub open spec fn spec_state_list_post(st: StateV, path: Seq<char>, name: Seq<char>, state_id: int) -> StateV {
    match lookup_fs(st, name) {
        Some(fs) => StateV {
            extensions: spec_notify(
                st.extensions,
                ExtensionMessagesV::ListDir(state_id, name, path, Ok(spec_list(fs.files, path))),
            ),
            ..st
        },
        None => st,
    }
}

impl State {
    /// A fresh session: empty data under `id`, no tokens, no
    /// filesystems, the given extensions.
    pub fn new(id: u8, extensions: ExtensionsManager) -> (r: Self)
        ensures
            r@ == (StateV {
                data: StateDataV { id: id as int, content: Seq::empty() },
                tokens: Seq::empty(),
                filesystems: Seq::empty(),
                extensions: extensions@,
            }),
    {
        let ghost ev = extensions@;
        let r = State {
            data: StateData::new(id),
            tokens: Vec::new(),
            filesystems: Vec::new(),
            extensions,
        };
        proof {
            assert(r@ =~= (StateV {
                data: StateDataV { id: id as int, content: Seq::empty() },
                tokens: Seq::empty(),
                filesystems: Seq::empty(),
                extensions: ev,
            }));
        }
        r
    }

    /// The session with one more token granted.
    pub fn with_token(self, token: String) -> (r: Self)
        ensures
            r@ == (StateV { tokens: self@.tokens.push(token@), ..self@ }),
    {
        let ghost s0 = self@;
        let ghost tv = token@;
        let mut st = self;
        st.tokens.push(token);
        proof {
            assert(st@.tokens =~= s0.tokens.push(tv));
            assert(st@ =~= (StateV { tokens: s0.tokens.push(tv), ..s0 }));
        }
        st
    }

    /// The session with a filesystem registered under `name`: the
    /// existing entry for that name is replaced, or a new one
    /// appended.
    pub fn with_filesystem(self, name: String, filesystem: MemoryFilesystem) -> (r: Self)
        ensures
            r@ == (match find_fs_index(self@, name@) {
                Some(i) => StateV {
                    filesystems: self@.filesystems.update(i, (name@, filesystem@)),
                    ..self@
                },
                None => StateV {
                    filesystems: self@.filesystems.push((name@, filesystem@)),
                    ..self@
                },
            }),
    {
        let ghost s0 = self@;
        let ghost nv = name@;
        let ghost fv = filesystem@;
        let mut st = self;
        match st.index_of_fs(&name) {
            Some(i) => {
                st.filesystems.set(i, (name, filesystem));
                proof {
                    assert(st@.filesystems =~= s0.filesystems.update(
                        find_fs_index(s0, nv).unwrap(),
                        (nv, fv),
                    ));
                    assert(st@ =~= (StateV {
                        filesystems: s0.filesystems.update(find_fs_index(s0, nv).unwrap(), (nv, fv)),
                        ..s0
                    }));
                }
            },
            None => {
                st.filesystems.push((name, filesystem));
                proof {
                    assert(st@.filesystems =~= s0.filesystems.push((nv, fv)));
                    assert(st@ =~= (StateV { filesystems: s0.filesystems.push((nv, fv)), ..s0 }));
                }
            },
        }
        st
    }

    /// Index of the first filesystem registered under `name`, if any.
    fn index_of_fs(&self, name: &String) -> (r: Option<usize>)
        ensures
            match r {
                Some(i) => i < self.filesystems.len() && find_fs_index(self@, name@) == Some(
                    i as int,
                ),
                None => find_fs_index(self@, name@) is None,
            },
    {
        let ghost p = fs_name_is(name@);
        let n = self.filesystems.len();
        let mut i: usize = 0;
        while i < n
            invariant
                i <= n,
                n == self.filesystems.len(),
                forall|j: int| 0 <= j < i ==> !p(self@.filesystems[j]),
                p == fs_name_is(name@),
            decreases n - i,
        {
            if self.filesystems[i].0.eq(name) {
                proof {
                    lemma_first_where_at(self@.filesystems, p, i as int);
                }
                return Some(i);
            }
            i = i + 1;
        }
        proof {
            lemma_first_where_none(self@.filesystems, p);
        }
        None
    }

    /// The session payload.
    pub fn data(&self) -> (r: &StateData)
        ensures
            r@ == self@.data,
    {
        &self.data
    }

    /// Whether `token` is recorded for this state itself. The
    /// registry's guards also consult the global `All` table, so a
    /// global token authorizes access without being recorded here.
    pub fn has_token(&self, token: &String) -> (r: bool)
        ensures
            r == self@.tokens.contains(token@),
    {
        let n = self.tokens.len();
        let mut i: usize = 0;
        while i < n
            invariant
                i <= n,
                n == self.tokens.len(),
                forall|j: int| 0 <= j < i ==> self@.tokens[j] != token@,
            decreases n - i,
        {
            if self.tokens[i].eq(token) {
                proof {
                    assert(self@.tokens[i as int] == token@);
                }
                return true;
            }
            i = i + 1;
        }
        proof {
            assert(!self@.tokens.contains(token@)) by {
                if self@.tokens.contains(token@) {
                    let j = choose|j: int|
                        0 <= j < self@.tokens.len() && self@.tokens[j] == token@;
                    assert(self@.tokens[j] != token@);
                }
            }
        }
        false
    }

    /// Replace the session data wholesale. The method itself
    /// notifies nobody, keeping notification ordering explicit at
    /// the call site: the caller must follow it with whatever
    /// broadcast makes the change observable, as
    /// [`StatesList::set_state_data_by_id`] does.
    pub fn update(&mut self, new_data: StateData)
        ensures
            final(self)@ == (StateV { data: new_data@, ..old(self)@ }),
    {
        let ghost d = new_data@;
        self.data = new_data;
        proof {
            assert(self@ =~= (StateV { data: d, ..old(self)@ }));
        }
    }

    /// Run the init hook of every loaded extension.
    pub fn run_extensions(&mut self)
        ensures
            final(self)@ == (StateV { extensions: spec_run(old(self)@.extensions), ..old(self)@ }),
    {
        self.extensions.run_extensions();
        proof {
            assert(self@ =~= (StateV {
                extensions: spec_run(old(self)@.extensions),
                ..old(self)@
            }));
        }
    }

    /// Deliver one message to every loaded extension.
    pub fn notify_extensions(&mut self, message: &ExtensionMessages)
        ensures
            final(self)@ == (StateV {
                extensions: spec_notify(old(self)@.extensions, message@),
                ..old(self)@
            }),
    {
        self.extensions.notify_extensions(message);
        proof {
            assert(self@ =~= (StateV {
                extensions: spec_notify(old(self)@.extensions, message@),
                ..old(self)@
            }));
        }
    }

    /// The filesystem registered under `name`, if any.
    pub fn get_fs_by_name(&self, name: &String) -> (r: Option<&MemoryFilesystem>)
        ensures
            match r {
                Some(fs) => lookup_fs(self@, name@) == Some(fs@),
                None => lookup_fs(self@, name@) is None,
            },
    {
        match self.index_of_fs(name) {
            Some(i) => Some(&self.filesystems[i].1),
            None => None,
        }
    }

    /// Manifest of the loaded extension with the given id, or
    /// `ExtensionNotFound`.
    pub fn get_ext_info_by_id(&self, extension_id: &String) -> (r: Result<ManifestInfo, Errors>)
        ensures
            manifest_result_view(r) == spec_ext_info(self@.extensions, extension_id@),
    {
        self.extensions.get_ext_info_by_id(extension_id)
    }

    /// Ids of the loaded extensions, in loading order.
    pub fn get_ext_list_by_id(&self) -> (r: Vec<String>)
        ensures
            r@.map_values(|s: String| s@) == spec_ext_list(self@.extensions),
    {
        self.extensions.get_ext_list_by_id()
    }

    /// The extensions manager, for inspection.
    pub fn extensions(&self) -> (r: &ExtensionsManager)
        ensures
            r@ == self@.extensions,
    {
        &self.extensions
    }

    /// Read a file through the named filesystem and broadcast the
    /// outcome to every loaded extension.
    pub fn read_file(&mut self, path: &String, filesystem_name: &String, state_id: u8) -> (r:
        Result<FileInfo, Errors>)
        ensures
            file_result_view(r) == spec_state_read_result(old(self)@, path@, filesystem_name@),
            final(self)@ == spec_state_read_post(
                old(self)@,
                path@,
                filesystem_name@,
                state_id as int,
            ),
    {
        match self.index_of_fs(filesystem_name) {
            None => Err(Errors::Fs(FilesystemErrors::FilesystemNotFound)),
            Some(i) => {
                proof {
                    assert(self@.filesystems[find_fs_index(self@, filesystem_name@).unwrap()].1
                        == self.filesystems@[i as int].1@);
                }
                let result = self.filesystems[i].1.read_file_by_path(path);
                let notification = ExtensionMessages::ReadFile(
                    state_id,
                    filesystem_name.clone(),
                    clone_file_result(&result),
                );
                self.extensions.notify_extensions(&notification);
                proof {
                    assert(self@ =~= spec_state_read_post(
                        old(self)@,
                        path@,
                        filesystem_name@,
                        state_id as int,
                    ));
                }
                result
            },
        }
    }

    /// Write a file through the named filesystem and broadcast the
    /// outcome to every loaded extension.
    pub fn write_file(
        &mut self,
        path: &String,
        content: &String,
        filesystem_name: &String,
        state_id: u8,
    ) -> (r: Result<(), Errors>)
        ensures
            r == spec_state_write_result(old(self)@, filesystem_name@),
            final(self)@ == spec_state_write_post(
                old(self)@,
                path@,
                content@,
                filesystem_name@,
                state_id as int,
            ),
    {
        match self.index_of_fs(filesystem_name) {
            None => Err(Errors::Fs(FilesystemErrors::FilesystemNotFound)),
            Some(i) => {
                let e = &mut self.filesystems[i];
                let result = e.1.write_file_by_path(path, content);
                proof {
                    assert(self@.filesystems =~= old(self)@.filesystems.update(
                        i as int,
                        (
                            old(self)@.filesystems[i as int].0,
                            spec_write(old(self)@.filesystems[i as int].1, path@, content@),
                        ),
                    ));
                }
                let notification = ExtensionMessages::WriteFile(
                    state_id,
                    filesystem_name.clone(),
                    content.clone(),
                    result,
                );
                self.extensions.notify_extensions(&notification);
                proof {
                    assert(self@ =~= spec_state_write_post(
                        old(self)@,
                        path@,
                        content@,
                        filesystem_name@,
                        state_id as int,
                    ));
                }
                result
            },
        }
    }

    /// List a directory through the named filesystem and broadcast
    /// the outcome to every loaded extension.
    pub fn list_dir(&mut self, path: &String, filesystem_name: &String, state_id: u8) -> (r:
        Result<Vec<DirItemInfo>, Errors>)
        ensures
            dir_result_view(r) == spec_state_list_result(old(self)@, path@, filesystem_name@),
            final(self)@ == spec_state_list_post(
                old(self)@,
                path@,
                filesystem_name@,
                state_id as int,
            ),
    {
        match self.index_of_fs(filesystem_name) {
            None => Err(Errors::Fs(FilesystemErrors::FilesystemNotFound)),
            Some(i) => {
                proof {
                    assert(self@.filesystems[find_fs_index(self@, filesystem_name@).unwrap()].1
                        == self.filesystems@[i as int].1@);
                }
                let result = self.filesystems[i].1.list_dir_by_path(path);
                let notification = ExtensionMessages::ListDir(
                    state_id,
                    filesystem_name.clone(),
                    path.clone(),
                    clone_dir_result(&result),
                );
                self.extensions.notify_extensions(&notification);
                proof {
                    assert(self@ =~= spec_state_list_post(
                        old(self)@,
                        path@,
                        filesystem_name@,
                        state_id as int,
                    ));
                }
                result
            },
        }
    }
}

/// Predicate selecting the registry entry keyed by `id`.
pub open spec fn state_key_is(id: int) -> spec_fn((int, StateV)) -> bool {
    |e: (int, StateV)| e.0 == id
}

/// Index of the first registry entry keyed by `id`, if any.
pub open spec fn find_state_index(states: Seq<(int, StateV)>, id: int) -> Option<int> {
    first_where(states, state_key_is(id))
}

/// Mathematical value of a [`StatesList`].
#[verifier::ext_equal]
pub ghost struct StatesListV {
    pub states: Seq<(int, StateV)>,
    pub tokens: Seq<TokenFlagsV>,
}

impl StatesListV {
    /// No two registry entries share an id.
    pub open spec fn wf(self) -> bool {
        forall|i: int, j: int|
            0 <= i < j < self.states.len() ==> self.states[i].0 != self.states[j].0
    }
}

/// The state registered under `id`, if any.
pub open spec fn lookup_state(sl: StatesListV, id: int) -> Option<StateV> {
    match find_state_index(sl.states, id) {
        Some(i) => Some(sl.states[i].1),
        None => None,
    }
}

/// The token strings every state is granted through the registry's
/// `All` tokens.
pub open spec fn all_token_strings(tokens: Seq<TokenFlagsV>) -> Seq<Seq<char>> {
    tokens.map_values(
        |t: TokenFlagsV| match t {
            TokenFlagsV::All(s) => s,
        },
    )
}

/// Whether `tok` authorizes access to state `st` of registry `sl`:
/// it is recorded for the state itself, or it is a global `All`
/// token of the registry, consulted at query time.
pub open spec fn spec_authorized(sl: StatesListV, st: StateV, tok: Seq<char>) -> bool {
    st.tokens.contains(tok) || all_token_strings(sl.tokens).contains(tok)
}

/// The registry after a state is added: the state is granted every
/// global `All` token, then stored under its current id, replacing an
/// existing entry with that id.
pub open spec fn spec_with_state(sl: StatesListV, st: StateV) -> StatesListV {
    let granted = StateV { tokens: st.tokens + all_token_strings(sl.tokens), ..st };
    let key = st.data.id;
    match find_state_index(sl.states, key) {
        Some(i) => StatesListV { states: sl.states.update(i, (key, granted)), ..sl },
        None => StatesListV { states: sl.states.push((key, granted)), ..sl },
    }
}

/// Registry of all states plus the global token table.
pub struct StatesList {
    states: Vec<(u8, State)>,
    tokens: Vec<TokenFlags>,
}

impl View for StatesList {
    type V = StatesListV;

    closed spec fn view(&self) -> StatesListV {
        StatesListV {
            states: self.states@.map_values(|e: (u8, State)| (e.0 as int, e.1@)),
            tokens: self.tokens@.map_values(|t: TokenFlags| t@),
        }
    }
}

impl StatesList {
    /// An empty registry with no tokens.
    pub fn new() -> (r: Self)
        ensures
            r@ == (StatesListV { states: Seq::empty(), tokens: Seq::empty() }),
            r@.wf(),
    {
        let r = StatesList { states: Vec::new(), tokens: Vec::new() };
        proof {
            assert(r@ =~= (StatesListV { states: Seq::empty(), tokens: Seq::empty() }));
        }
        r
    }

    /// The registry with its global token table replaced.
    pub fn with_tokens(self, tokens: Vec<TokenFlags>) -> (r: Self)
        ensures
            r@ == (StatesListV {
                tokens: tokens@.map_values(|t: TokenFlags| t@),
                ..self@
            }),
            self@.wf() ==> r@.wf(),
    {
        let ghost s0 = self@;
        let mut sl = self;
        sl.tokens = tokens;
        proof {
            assert(sl@ =~= (StatesListV { tokens: sl.tokens@.map_values(|t: TokenFlags| t@), ..s0 }));
        }
        sl
    }

    /// Index of the registry entry keyed by `id`, if any.
    fn index_of_state(&self, id: u8) -> (r: Option<usize>)
        ensures
            match r {
                Some(i) => i < self.states.len() && find_state_index(self@.states, id as int)
                    == Some(i as int),
                None => find_state_index(self@.states, id as int) is None,
            },
    {
        let ghost p = state_key_is(id as int);
        let n = self.states.len();
        let mut i: usize = 0;
        while i < n
            invariant
                i <= n,
                n == self.states.len(),
                forall|j: int| 0 <= j < i ==> !p(self@.states[j]),
                p == state_key_is(id as int),
            decreases n - i,
        {
            if self.states[i].0 == id {
                proof {
                    lemma_first_where_at(self@.states, p, i as int);
                }
                return Some(i);
            }
            i = i + 1;
        }
        proof {
            lemma_first_where_none(self@.states, p);
        }
        None
    }

    /// Whether `token` is a global `All` token of the registry.
    fn global_has_token(&self, token: &String) -> (r: bool)
        ensures
            r == all_token_strings(self@.tokens).contains(token@),
    {
        let n = self.tokens.len();
        let mut i: usize = 0;
        while i < n
            invariant
                i <= n,
                n == self.tokens.len(),
                forall|j: int| 0 <= j < i ==> all_token_strings(self@.tokens)[j] != token@,
            decreases n - i,
        {
            let matched = match &self.tokens[i] {
                TokenFlags::All(t) => t.eq(token),
            };
            if matched {
                proof {
                    assert(all_token_strings(self@.tokens)[i as int] == token@);
                }
                return true;
            }
            i = i + 1;
        }
        proof {
            assert(!all_token_strings(self@.tokens).contains(token@)) by {
                if all_token_strings(self@.tokens).contains(token@) {
                    let j = choose|j: int|
                        0 <= j < all_token_strings(self@.tokens).len()
                            && all_token_strings(self@.tokens)[j] == token@;
                    assert(all_token_strings(self@.tokens)[j] != token@);
                }
            }
        }
        false
    }

    /// Whether `token` authorizes access to the state at index `i`:
    /// recorded for that state, or a global `All` token.
    fn authorizes(&self, i: usize, token: &String) -> (r: bool)
        requires
            i < self.states.len(),
        ensures
            r == spec_authorized(self@, self@.states[i as int].1, token@),
    {
        self.states[i].1.has_token(token) || self.global_has_token(token)
    }

    /// The registry with one more state, granted every global `All`
    /// token and stored under its current id.
    pub fn with_state(self, state: State) -> (r: Self)
        ensures
            r@ == spec_with_state(self@, state@),
            self@.wf() ==> r@.wf(),
    {
        let ghost s0 = self@;
        let ghost st0 = state@;
        let mut sl = self;
        let mut st = state;
        let n = sl.tokens.len();
        let mut i: usize = 0;
        while i < n
            invariant
                i <= n,
                n == sl.tokens.len(),
                sl@ == s0,
                st@ == (StateV {
                    tokens: st0.tokens + all_token_strings(s0.tokens.take(i as int)),
                    ..st0
                }),
            decreases n - i,
        {
            let granted = match &sl.tokens[i] {
                TokenFlags::All(s) => s.clone(),
            };
            st = st.with_token(granted);
            proof {
                assert(all_token_strings(s0.tokens.take(i as int + 1)) =~= all_token_strings(
                    s0.tokens.take(i as int),
                ).push(granted@));
                assert(st@.tokens =~= st0.tokens + all_token_strings(s0.tokens.take(i as int + 1)));
                assert(st@ =~= (StateV {
                    tokens: st0.tokens + all_token_strings(s0.tokens.take(i as int + 1)),
                    ..st0
                }));
            }
            i = i + 1;
        }
        proof {
            assert(s0.tokens.take(n as int) =~= s0.tokens);
        }
        let key = st.data.id;
        proof {
            assert(key as int == st0.data.id);
        }
        match sl.index_of_state(key) {
            Some(i) => {
                proof {
                    lemma_first_where_bounds(s0.states, state_key_is(key as int));
                }
                sl.states.set(i, (key, st));
                proof {
                    assert(sl@.states =~= spec_with_state(s0, st0).states);
                    assert(sl@ =~= spec_with_state(s0, st0));
                    if s0.wf() {
                        assert forall|a: int, b: int|
                            0 <= a < b < sl@.states.len() implies sl@.states[a].0
                            != sl@.states[b].0 by {
                            assert(s0.states[i as int].0 == key as int);
                        }
                    }
                }
            },
            None => {
                sl.states.push((key, st));
                proof {
                    assert(sl@.states =~= spec_with_state(s0, st0).states);
                    assert(sl@ =~= spec_with_state(s0, st0));
                    if s0.wf() {
                        lemma_first_where_bounds(s0.states, state_key_is(key as int));
                        assert forall|a: int, b: int|
                            0 <= a < b < sl@.states.len() implies sl@.states[a].0
                            != sl@.states[b].0 by {
                            if b == sl@.states.len() - 1 {
                                assert(!state_key_is(key as int)(s0.states[a]));
                            }
                        }
                    }
                }
            },
        }
        sl
    }

    /// The state registered under `state_id`, if any. The handle is
    /// independent of the registry: absence is an expected condition,
    /// answered with `None`.
    pub fn get_state_by_id(&self, state_id: u8) -> (r: Option<&State>)
        ensures
            match r {
                Some(st) => lookup_state(self@, state_id as int) == Some(st@),
                None => lookup_state(self@, state_id as int) is None,
            },
    {
        match self.index_of_state(state_id) {
            Some(i) => Some(&self.states[i].1),
            None => None,
        }
    }

    /// Deliver one message to the extensions of every state, in
    /// registry order.
    pub fn notify_extensions(&mut self, message: &ExtensionMessages)
        ensures
            final(self)@ == spec_notify_all(old(self)@, message@),
    {
        let n = self.states.len();
        let mut i: usize = 0;
        while i < n
            invariant
                i <= n,
                n == self.states.len(),
                self@.states.len() == old(self)@.states.len(),
                self@.tokens == old(self)@.tokens,
                forall|j: int| i <= j < n ==> self@.states[j] == old(self)@.states[j],
                forall|j: int|
                    0 <= j < i ==> self@.states[j] == (
                        old(self)@.states[j].0,
                        StateV {
                            extensions: spec_notify(old(self)@.states[j].1.extensions, message@),
                            ..old(self)@.states[j].1
                        },
                    ),
            decreases n - i,
        {
            let ghost prev = self@;
            let e = &mut self.states[i];
            e.1.notify_extensions(message);
            proof {
                assert(self@.states =~= prev.states.update(
                    i as int,
                    (
                        prev.states[i as int].0,
                        StateV {
                            extensions: spec_notify(prev.states[i as int].1.extensions, message@),
                            ..prev.states[i as int].1
                        },
                    ),
                ));
            }
            i = i + 1;
        }
        proof {
            assert(self@ =~= spec_notify_all(old(self)@, message@));
        }
    }

    /// Run the init hook of every extension of the state registered
    /// under `state_id`; a no-op when the state is absent.
    pub fn run_state_extensions(&mut self, state_id: u8)
        ensures
            final(self)@ == spec_run_state(old(self)@, state_id as int),
    {
        match self.index_of_state(state_id) {
            None => {
            },
            Some(i) => {
                let e = &mut self.states[i];
                e.1.run_extensions();
                proof {
                    assert(self@.states =~= old(self)@.states.update(
                        i as int,
                        (
                            old(self)@.states[i as int].0,
                            StateV {
                                extensions: spec_run(old(self)@.states[i as int].1.extensions),
                                ..old(self)@.states[i as int].1
                            },
                        ),
                    ));
                    assert(self@ =~= spec_run_state(old(self)@, state_id as int));
                }
            },
        }
    }

    /// Data of the state registered under `state_id`, when `token`
    /// authorizes it; `None` for an absent state or a token that does
    /// not, never an error.
    pub fn get_state_data_by_id(&self, state_id: u8, token: &String) -> (r: Option<StateData>)
        ensures
            opt_data_view(r) == spec_rpc_get(self@, state_id as int, token@),
    {
        match self.index_of_state(state_id) {
            None => None,
            Some(i) => {
                if self.authorizes(i, token) {
                    Some(self.states[i].1.data.clone())
                } else {
                    None
                }
            },
        }
    }

    /// Replace the data of the state registered under `state_id`,
    /// when `token` authorizes it. The replacement is atomic, and is
    /// immediately followed by a `CoreMessage(StateUpdated)`
    /// broadcast to every state's extensions — the same list-wide
    /// fan-out the router performs for a `StateUpdated` message, so
    /// no mutation goes unobserved.
    pub fn set_state_data_by_id(&mut self, state_id: u8, new_state_data: StateData, token: &String) -> (r: Result<(), Errors>)
        ensures
            r == spec_rpc_set_result(old(self)@, state_id as int, token@),
            final(self)@ == spec_rpc_set_post(
                old(self)@,
                state_id as int,
                new_state_data@,
                token@,
            ),
    {
        let ghost d = new_state_data@;
        match self.index_of_state(state_id) {
            None => Err(Errors::StateNotFound),
            Some(i) => {
                if !self.authorizes(i, token) {
                    return Err(Errors::BadToken);
                }
                let broadcast_data = new_state_data.clone();
                let e = &mut self.states[i];
                e.1.update(new_state_data);
                proof {
                    assert(self@.states =~= old(self)@.states.update(
                        i as int,
                        (
                            old(self)@.states[i as int].0,
                            StateV { data: d, ..old(self)@.states[i as int].1 },
                        ),
                    ));
                    assert(self@ =~= (StatesListV {
                        states: old(self)@.states.update(
                            i as int,
                            (
                                old(self)@.states[i as int].0,
                                StateV { data: d, ..old(self)@.states[i as int].1 },
                            ),
                        ),
                        ..old(self)@
                    }));
                }
                let m = ExtensionMessages::CoreMessage(Messages::StateUpdated {
                    state_data: broadcast_data,
                });
                self.notify_extensions(&m);
                proof {
                    assert(self@ =~= spec_rpc_set_post(old(self)@, state_id as int, d, token@));
                }
                Ok(())
            },
        }
    }

    /// Read a file of the named filesystem of the state registered
    /// under `state_id`, when `token` authorizes it; the outcome is
    /// broadcast to that state's extensions.
    pub fn read_file_by_path(&mut self, path: &String, filesystem_name: &String, state_id: u8, token: &String) -> (r: Result<FileInfo, Errors>)
        ensures
            file_result_view(r) == spec_rpc_read_result(
                old(self)@,
                path@,
                filesystem_name@,
                state_id as int,
                token@,
            ),
            final(self)@ == spec_rpc_read_post(
                old(self)@,
                path@,
                filesystem_name@,
                state_id as int,
                token@,
            ),
    {
        match self.index_of_state(state_id) {
            None => Err(Errors::StateNotFound),
            Some(i) => {
                if !self.authorizes(i, token) {
                    return Err(Errors::BadToken);
                }
                let e = &mut self.states[i];
                let result = e.1.read_file(path, filesystem_name, state_id);
                proof {
                    assert(self@.states =~= old(self)@.states.update(
                        i as int,
                        (
                            old(self)@.states[i as int].0,
                            spec_state_read_post(
                                old(self)@.states[i as int].1,
                                path@,
                                filesystem_name@,
                                state_id as int,
                            ),
                        ),
                    ));
                    assert(self@ =~= spec_rpc_read_post(
                        old(self)@,
                        path@,
                        filesystem_name@,
                        state_id as int,
                        token@,
                    ));
                }
                result
            },
        }
    }

    /// Write a file of the named filesystem of the state registered
    /// under `state_id`, when `token` authorizes it; the outcome is
    /// broadcast to that state's extensions.
    pub fn write_file_by_path(
        &mut self,
        path: &String,
        content: &String,
        filesystem_name: &String,
        state_id: u8,
        token: &String,
    ) -> (r: Result<(), Errors>)
        ensures
            r == spec_rpc_write_result(
                old(self)@,
                filesystem_name@,
                state_id as int,
                token@,
            ),
            final(self)@ == spec_rpc_write_post(
                old(self)@,
                path@,
                content@,
                filesystem_name@,
                state_id as int,
                token@,
            ),
    {
        match self.index_of_state(state_id) {
            None => Err(Errors::StateNotFound),
            Some(i) => {
                if !self.authorizes(i, token) {
                    return Err(Errors::BadToken);
                }
                let e = &mut self.states[i];
                let result = e.1.write_file(path, content, filesystem_name, state_id);
                proof {
                    assert(self@.states =~= old(self)@.states.update(
                        i as int,
                        (
                            old(self)@.states[i as int].0,
                            spec_state_write_post(
                                old(self)@.states[i as int].1,
                                path@,
                                content@,
                                filesystem_name@,
                                state_id as int,
                            ),
                        ),
                    ));
                    assert(self@ =~= spec_rpc_write_post(
                        old(self)@,
                        path@,
                        content@,
                        filesystem_name@,
                        state_id as int,
                        token@,
                    ));
                }
                result
            },
        }
    }

    /// List a directory of the named filesystem of the state
    /// registered under `state_id`, when `token` authorizes it; the
    /// outcome is broadcast to that state's extensions.
    pub fn list_dir_by_path(&mut self, path: &String, filesystem_name: &String, state_id: u8, token: &String) -> (r: Result<Vec<DirItemInfo>, Errors>)
        ensures
            dir_result_view(r) == spec_rpc_list_result(
                old(self)@,
                path@,
                filesystem_name@,
                state_id as int,
                token@,
            ),
            final(self)@ == spec_rpc_list_post(
                old(self)@,
                path@,
                filesystem_name@,
                state_id as int,
                token@,
            ),
    {
        match self.index_of_state(state_id) {
            None => Err(Errors::StateNotFound),
            Some(i) => {
                if !self.authorizes(i, token) {
                    return Err(Errors::BadToken);
                }
                let e = &mut self.states[i];
                let result = e.1.list_dir(path, filesystem_name, state_id);
                proof {
                    assert(self@.states =~= old(self)@.states.update(
                        i as int,
                        (
                            old(self)@.states[i as int].0,
                            spec_state_list_post(
                                old(self)@.states[i as int].1,
                                path@,
                                filesystem_name@,
                                state_id as int,
                            ),
                        ),
                    ));
                    assert(self@ =~= spec_rpc_list_post(
                        old(self)@,
                        path@,
                        filesystem_name@,
                        state_id as int,
                        token@,
                    ));
                }
                result
            },
        }
    }

    /// Manifest of an extension of the state registered under
    /// `state_id`, when `token` authorizes it.
    pub fn get_ext_info_by_id(&self, extension_id: &String, state_id: u8, token: &String) -> (r:
        Result<ManifestInfo, Errors>)
        ensures
            manifest_result_view(r) == spec_rpc_ext_info(
                self@,
                extension_id@,
                state_id as int,
                token@,
            ),
    {
        match self.index_of_state(state_id) {
            None => Err(Errors::StateNotFound),
            Some(i) => {
                if !self.authorizes(i, token) {
                    return Err(Errors::BadToken);
                }
                self.states[i].1.get_ext_info_by_id(extension_id)
            },
        }
    }

    /// Ids of the extensions of the state registered under
    /// `state_id`, when `token` authorizes it.
    pub fn get_ext_list_by_id(&self, state_id: u8, token: &String) -> (r: Result<Vec<String>, Errors>)
        ensures
            ext_list_result_view(r) == spec_rpc_ext_list(self@, state_id as int, token@),
    {
        match self.index_of_state(state_id) {
            None => Err(Errors::StateNotFound),
            Some(i) => {
                if !self.authorizes(i, token) {
                    return Err(Errors::BadToken);
                }
                Ok(self.states[i].1.get_ext_list_by_id())
            },
        }
    }
}

/// The registry after every state's extensions observed `m`.
pub open spec fn spec_notify_all(sl: StatesListV, m: ExtensionMessagesV) -> StatesListV {
    StatesListV {
        states: sl.states.map_values(
            |e: (int, StateV)| (e.0, StateV { extensions: spec_notify(e.1.extensions, m), ..e.1 }),
        ),
        ..sl
    }
}

/// The registry after the init hooks of the state keyed `id` ran;
/// unchanged when the state is absent.
pub open spec fn spec_run_state(sl: StatesListV, id: int) -> StatesListV {
    match find_state_index(sl.states, id) {
        None => sl,
        Some(i) => StatesListV {
            states: sl.states.update(
                i,
                (sl.states[i].0, StateV { extensions: spec_run(sl.states[i].1.extensions), ..sl.states[i].1 }),
            ),
            ..sl
        },
    }
}

/// View of an optional state-data result, for stating contracts.
pub open spec fn opt_data_view(r: Option<StateData>) -> Option<StateDataV> {
    match r {
        Some(d) => Some(d@),
        None => None,
    }
}

/// View of an extension-list result, for stating contracts.
pub open spec fn ext_list_result_view(r: Result<Vec<String>, Errors>) -> Result<
    Seq<Seq<char>>,
    Errors,
> {
    match r {
        Ok(v) => Ok(v@.map_values(|s: String| s@)),
        Err(e) => Err(e),
    }
}

/// What a data read through the facade returns: the state's current
/// data exactly when the state exists and the token is in its
/// authorized set; `None` otherwise.
pub open spec fn spec_rpc_get(sl: StatesListV, id: int, tok: Seq<char>) -> Option<StateDataV> {
    match lookup_state(sl, id) {
        Some(st) => if spec_authorized(sl, st, tok) {
            Some(st.data)
        } else {
            None
        },
        None => None,
    }
}

/// What a data replacement through the facade returns.
pub open spec fn spec_rpc_set_result(sl: StatesListV, id: int, tok: Seq<char>) -> Result<
    (),
    Errors,
> {
    match lookup_state(sl, id) {
        None => Err(Errors::StateNotFound),
        Some(st) => if spec_authorized(sl, st, tok) {
            Ok(())
        } else {
            Err(Errors::BadToken)
        },
    }
}

/// The registry after a data replacement through the facade: the
/// addressed state's data is replaced, and the update is immediately
/// broadcast to every state's extensions as a
/// `CoreMessage(StateUpdated)`, list-wide as the router handles a
/// `StateUpdated` — there is no notify-less mutation path.
pub open spec fn spec_rpc_set_post(sl: StatesListV, id: int, d: StateDataV, tok: Seq<char>) -> StatesListV {
    match find_state_index(sl.states, id) {
        None => sl,
        Some(i) => if spec_authorized(sl, sl.states[i].1, tok) {
            let updated = StatesListV {
                states: sl.states.update(
                    i,
                    (sl.states[i].0, StateV { data: d, ..sl.states[i].1 }),
                ),
                ..sl
            };
            spec_notify_all(
                updated,
                ExtensionMessagesV::CoreMessage(MessagesV::StateUpdated { state_data: d }),
            )
        } else {
            sl
        },
    }
}

/// What a file read through the facade returns.
pub open spec fn spec_rpc_read_result(
    sl: StatesListV,
    path: Seq<char>,
    name: Seq<char>,
    id: int,
    tok: Seq<char>,
) -> Result<crate::filesystems::FileInfoV, Errors> {
    match lookup_state(sl, id) {
        None => Err(Errors::StateNotFound),
        Some(st) => if spec_authorized(sl, st, tok) {
            spec_state_read_result(st, path, name)
        } else {
            Err(Errors::BadToken)
        },
    }
}

/// The registry after a file read through the facade: only the
/// addressed state's extensions observed the outcome; a guard failure
/// leaves everything untouched.
pub open spec fn spec_rpc_read_post(
    sl: StatesListV,
    path: Seq<char>,
    name: Seq<char>,
    id: int,
    tok: Seq<char>,
) -> StatesListV {
    match find_state_index(sl.states, id) {
        None => sl,
        Some(i) => if spec_authorized(sl, sl.states[i].1, tok) {
            StatesListV {
                states: sl.states.update(
                    i,
                    (sl.states[i].0, spec_state_read_post(sl.states[i].1, path, name, id)),
                ),
                ..sl
            }
        } else {
            sl
        },
    }
}

/// What a file write through the facade returns.
pub open spec fn spec_rpc_write_result(sl: StatesListV, name: Seq<char>, id: int, tok: Seq<char>) -> Result<(), Errors> {
    match lookup_state(sl, id) {
        None => Err(Errors::StateNotFound),
        Some(st) => if spec_authorized(sl, st, tok) {
            spec_state_write_result(st, name)
        } else {
            Err(Errors::BadToken)
        },
    }
}

/// The registry after a file write through the facade.
pub open spec fn spec_rpc_write_post(
    sl: StatesListV,
    path: Seq<char>,
    content: Seq<char>,
    name: Seq<char>,
    id: int,
    tok: Seq<char>,
) -> StatesListV {
    match find_state_index(sl.states, id) {
        None => sl,
        Some(i) => if spec_authorized(sl, sl.states[i].1, tok) {
            StatesListV {
                states: sl.states.update(
                    i,
                    (sl.states[i].0, spec_state_write_post(sl.states[i].1, path, content, name, id)),
                ),
                ..sl
            }
        } else {
            sl
        },
    }
}

/// What a directory listing through the facade returns.
pub open spec fn spec_rpc_list_result(
    sl: StatesListV,
    path: Seq<char>,
    name: Seq<char>,
    id: int,
    tok: Seq<char>,
) -> Result<Seq<crate::filesystems::DirItemInfoV>, Errors> {
    match lookup_state(sl, id) {
        None => Err(Errors::StateNotFound),
        Some(st) => if spec_authorized(sl, st, tok) {
            spec_state_list_result(st, path, name)
        } else {
            Err(Errors::BadToken)
        },
    }
}

/// The registry after a directory listing through the facade.
pub open spec fn spec_rpc_list_post(
    sl: StatesListV,
    path: Seq<char>,
    name: Seq<char>,
    id: int,
    tok: Seq<char>,
) -> StatesListV {
    match find_state_index(sl.states, id) {
        None => sl,
        Some(i) => if spec_authorized(sl, sl.states[i].1, tok) {
            StatesListV {
                states: sl.states.update(
                    i,
                    (sl.states[i].0, spec_state_list_post(sl.states[i].1, path, name, id)),
                ),
                ..sl
            }
        } else {
            sl
        },
    }
}

/// What an extension-info lookup through the facade returns.
pub open spec fn spec_rpc_ext_info(sl: StatesListV, ext_id: Seq<char>, id: int, tok: Seq<char>) -> Result<crate::extensions::ManifestInfoV, Errors> {
    match lookup_state(sl, id) {
        None => Err(Errors::StateNotFound),
        Some(st) => if spec_authorized(sl, st, tok) {
            spec_ext_info(st.extensions, ext_id)
        } else {
            Err(Errors::BadToken)
        },
    }
}

/// What an extension-list lookup through the facade returns.
pub open spec fn spec_rpc_ext_list(sl: StatesListV, id: int, tok: Seq<char>) -> Result<
    Seq<Seq<char>>,
    Errors,
> {
    match lookup_state(sl, id) {
        None => Err(Errors::StateNotFound),
        Some(st) => if spec_authorized(sl, st, tok) {
            Ok(spec_ext_list(st.extensions))
        } else {
            Err(Errors::BadToken)
        },
    }
}

} // verus!
