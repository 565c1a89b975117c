use gveditor_core::errors::{Errors, ExtensionErrors, FilesystemErrors};
use gveditor_core::extensions::{ExtensionInfo, ExtensionsManager, LoadedExtension, ManifestInfo};
use gveditor_core::filesystems::{DirItemInfo, FileInfo, MemoryFilesystem};
use gveditor_core::messaging::{ExtensionMessages, Messages};
use gveditor_core::server::{RpcManager, Server};
use gveditor_core::state::{State, StateData, StatesList, TokenFlags};

fn manager_with(ext_id: &str, ext_name: &str) -> ExtensionsManager {
    let mut mgr = ExtensionsManager::new();
    mgr.load_extension(ManifestInfo {
        extension: ExtensionInfo { id: ext_id.to_string(), name: ext_name.to_string() },
    });
    mgr
}

/// Registry with one state id `1`, token `"test"`, an in-memory
/// filesystem named `"mem"` containing `/a.txt = "hi"`, and one
/// loaded extension `"ext.one"`.
fn sample_states() -> StatesList {
    let mut fs = MemoryFilesystem::new();
    fs.write_file_by_path(&"/a.txt".to_string(), &"hi".to_string()).unwrap();
    let state = State::new(1, manager_with("ext.one", "One"))
        .with_filesystem("mem".to_string(), fs);
    StatesList::new()
        .with_tokens(vec![TokenFlags::All("test".to_string())])
        .with_state(state)
}

fn extensions_of(states: &StatesList, id: u8) -> &Vec<LoadedExtension> {
    states.get_state_by_id(id).unwrap().extensions().extensions()
}

#[test]
fn read_with_valid_token_returns_content() {
    let mut rpc = RpcManager::new(sample_states());
    let r = rpc.read_file_by_path("/a.txt".to_string(), "mem".to_string(), 1, "test".to_string());
    assert_eq!(r, Ok(FileInfo { content: "hi".to_string() }));
}

#[test]
fn read_with_wrong_token_is_bad_token() {
    let mut rpc = RpcManager::new(sample_states());
    let r = rpc.read_file_by_path("/a.txt".to_string(), "mem".to_string(), 1, "wrong".to_string());
    assert_eq!(r, Err(Errors::BadToken));
}

#[test]
fn read_with_unknown_state_is_state_not_found() {
    let mut rpc = RpcManager::new(sample_states());
    let r = rpc.read_file_by_path("/a.txt".to_string(), "mem".to_string(), 2, "test".to_string());
    assert_eq!(r, Err(Errors::StateNotFound));
}

#[test]
fn read_with_unknown_filesystem_is_filesystem_not_found() {
    let mut rpc = RpcManager::new(sample_states());
    let r = rpc.read_file_by_path("/a.txt".to_string(), "disk".to_string(), 1, "test".to_string());
    assert_eq!(r, Err(Errors::Fs(FilesystemErrors::FilesystemNotFound)));
}

#[test]
fn read_missing_file_is_file_not_found() {
    let mut rpc = RpcManager::new(sample_states());
    let r = rpc.read_file_by_path("/b.txt".to_string(), "mem".to_string(), 1, "test".to_string());
    assert_eq!(r, Err(Errors::Fs(FilesystemErrors::FileNotFound)));
}

#[test]
fn get_state_data_gated_by_token() {
    let rpc = RpcManager::new(sample_states());
    let ok = rpc.get_state_by_id(1, "test".to_string());
    assert_eq!(ok, Some(StateData { id: 1, content: String::new() }));
    let bad = rpc.get_state_by_id(1, "wrong".to_string());
    assert_eq!(bad, None);
    let absent = rpc.get_state_by_id(9, "test".to_string());
    assert_eq!(absent, None);
}

#[test]
fn set_then_get_returns_data_just_set() {
    let mut rpc = RpcManager::new(sample_states());
    let d = StateData { id: 1, content: "buffer: main.rs".to_string() };
    assert_eq!(rpc.set_state_by_id(1, d.clone(), "test".to_string()), Ok(()));
    assert_eq!(rpc.get_state_by_id(1, "test".to_string()), Some(d));
}

#[test]
fn set_guard_failures() {
    let mut rpc = RpcManager::new(sample_states());
    let d = StateData { id: 1, content: "x".to_string() };
    assert_eq!(rpc.set_state_by_id(2, d.clone(), "test".to_string()), Err(Errors::StateNotFound));
    assert_eq!(rpc.set_state_by_id(1, d, "wrong".to_string()), Err(Errors::BadToken));
}

#[test]
fn unknown_state_performs_no_side_effect() {
    let mut rpc = RpcManager::new(sample_states());
    let _ = rpc.read_file_by_path("/a.txt".to_string(), "mem".to_string(), 2, "test".to_string());
    let _ = rpc.write_file_by_path(
        "/a.txt".to_string(),
        "zz".to_string(),
        "mem".to_string(),
        2,
        "test".to_string(),
    );
    let exts = extensions_of(&rpc.states, 1);
    assert!(exts[0].received().is_empty());
    let r = rpc.read_file_by_path("/a.txt".to_string(), "mem".to_string(), 1, "test".to_string());
    assert_eq!(r, Ok(FileInfo { content: "hi".to_string() }));
}

#[test]
fn successful_read_notifies_each_extension_once() {
    let mut rpc = RpcManager::new(sample_states());
    let r = rpc.read_file_by_path("/a.txt".to_string(), "mem".to_string(), 1, "test".to_string());
    let exts = extensions_of(&rpc.states, 1);
    assert_eq!(exts.len(), 1);
    assert_eq!(
        *exts[0].received(),
        vec![ExtensionMessages::ReadFile(1, "mem".to_string(), r)]
    );
}

#[test]
fn failed_guard_notifies_nobody() {
    let mut rpc = RpcManager::new(sample_states());
    let _ = rpc.read_file_by_path("/a.txt".to_string(), "mem".to_string(), 1, "wrong".to_string());
    let _ = rpc.read_file_by_path("/a.txt".to_string(), "disk".to_string(), 1, "test".to_string());
    let exts = extensions_of(&rpc.states, 1);
    assert!(exts[0].received().is_empty());
}

#[test]
fn write_persists_and_notifies() {
    let mut rpc = RpcManager::new(sample_states());
    let r = rpc.write_file_by_path(
        "/b.txt".to_string(),
        "new".to_string(),
        "mem".to_string(),
        1,
        "test".to_string(),
    );
    assert_eq!(r, Ok(()));
    let back = rpc.read_file_by_path("/b.txt".to_string(), "mem".to_string(), 1, "test".to_string());
    assert_eq!(back, Ok(FileInfo { content: "new".to_string() }));
    let exts = extensions_of(&rpc.states, 1);
    assert_eq!(
        exts[0].received()[0],
        ExtensionMessages::WriteFile(1, "mem".to_string(), "new".to_string(), Ok(()))
    );
}

#[test]
fn write_overwrites_existing_file() {
    let mut rpc = RpcManager::new(sample_states());
    rpc.write_file_by_path(
        "/a.txt".to_string(),
        "bye".to_string(),
        "mem".to_string(),
        1,
        "test".to_string(),
    )
    .unwrap();
    let back = rpc.read_file_by_path("/a.txt".to_string(), "mem".to_string(), 1, "test".to_string());
    assert_eq!(back, Ok(FileInfo { content: "bye".to_string() }));
}

#[test]
fn list_dir_returns_prefixed_files_and_notifies() {
    let mut rpc = RpcManager::new(sample_states());
    rpc.write_file_by_path(
        "/sub/c.txt".to_string(),
        "c".to_string(),
        "mem".to_string(),
        1,
        "test".to_string(),
    )
    .unwrap();
    let r = rpc.list_dir_by_path("/sub".to_string(), "mem".to_string(), 1, "test".to_string());
    assert_eq!(
        r,
        Ok(vec![DirItemInfo { path: "/sub/c.txt".to_string(), is_file: true }])
    );
    let all = rpc.list_dir_by_path("/".to_string(), "mem".to_string(), 1, "test".to_string());
    assert_eq!(
        all,
        Ok(vec![
            DirItemInfo { path: "/a.txt".to_string(), is_file: true },
            DirItemInfo { path: "/sub/c.txt".to_string(), is_file: true },
        ])
    );
    let exts = extensions_of(&rpc.states, 1);
    let last = exts[0].received().last().unwrap().clone();
    assert_eq!(
        last,
        ExtensionMessages::ListDir(
            1,
            "mem".to_string(),
            "/".to_string(),
            all,
        )
    );
}

#[test]
fn ext_info_and_list() {
    let rpc = RpcManager::new(sample_states());
    let info = rpc.get_ext_info_by_id("ext.one".to_string(), 1, "test".to_string());
    assert_eq!(
        info,
        Ok(ManifestInfo {
            extension: ExtensionInfo { id: "ext.one".to_string(), name: "One".to_string() },
        })
    );
    let missing = rpc.get_ext_info_by_id("ext.two".to_string(), 1, "test".to_string());
    assert_eq!(missing, Err(Errors::Ext(ExtensionErrors::ExtensionNotFound)));
    let list = rpc.get_ext_list_by_id(1, "test".to_string());
    assert_eq!(list, Ok(vec!["ext.one".to_string()]));
    let gone = rpc.get_ext_list_by_id(3, "test".to_string());
    assert_eq!(gone, Err(Errors::StateNotFound));
}

#[test]
fn router_listen_pushes_state_and_runs_extensions() {
    let mut server = Server::new(sample_states());
    let out = server.handle_message(Messages::ListenToState {
        state_id: 1,
        trigger: "client".to_string(),
    });
    assert_eq!(
        out,
        Some(Messages::StateUpdated {
            state_data: StateData { id: 1, content: String::new() },
        })
    );
    let exts = extensions_of(&server.states, 1);
    assert!(exts[0].is_initialized());
}

#[test]
fn router_listen_unknown_state_is_silent() {
    let mut server = Server::new(sample_states());
    let out = server.handle_message(Messages::ListenToState {
        state_id: 7,
        trigger: "client".to_string(),
    });
    assert_eq!(out, None);
    let exts = extensions_of(&server.states, 1);
    assert!(!exts[0].is_initialized());
    assert!(exts[0].received().is_empty());
}

#[test]
fn router_broadcasts_state_updated_to_every_state() {
    let second = State::new(2, manager_with("ext.two", "Two"));
    let states = sample_states().with_state(second);
    let mut server = Server::new(states);
    let update = Messages::StateUpdated {
        state_data: StateData { id: 1, content: "fresh".to_string() },
    };
    let out = server.handle_message(update.clone());
    assert_eq!(out, None);
    for id in [1u8, 2u8] {
        let exts = extensions_of(&server.states, id);
        assert_eq!(
            *exts[0].received(),
            vec![ExtensionMessages::CoreMessage(update.clone())]
        );
    }
}

#[test]
fn router_forwards_other_messages_verbatim() {
    let mut server = Server::new(sample_states());
    let popup = Messages::ShowPopup {
        state_id: 1,
        title: "hello".to_string(),
        content: "world".to_string(),
    };
    let out = server.handle_message(popup.clone());
    assert_eq!(out, Some(popup));
}

#[test]
fn all_token_grants_access_to_every_state() {
    let states = sample_states().with_state(State::new(2, ExtensionsManager::new()));
    let rpc = RpcManager::new(states);
    assert!(rpc.get_state_by_id(1, "test".to_string()).is_some());
    assert!(rpc.get_state_by_id(2, "test".to_string()).is_some());
}

#[test]
fn state_local_token_grants_only_that_state() {
    let first = State::new(1, ExtensionsManager::new()).with_token("secret".to_string());
    let second = State::new(2, ExtensionsManager::new());
    let states = StatesList::new().with_state(first).with_state(second);
    let rpc = RpcManager::new(states);
    assert!(rpc.get_state_by_id(1, "secret".to_string()).is_some());
    assert_eq!(rpc.get_state_by_id(2, "secret".to_string()), None);
}

#[test]
fn has_token_is_membership() {
    let state = State::new(1, ExtensionsManager::new()).with_token("a".to_string());
    assert!(state.has_token(&"a".to_string()));
    assert!(!state.has_token(&"b".to_string()));
}

#[test]
fn memory_filesystem_read_write_list() {
    let mut fs = MemoryFilesystem::new();
    assert_eq!(
        fs.read_file_by_path(&"/x".to_string()),
        Err(Errors::Fs(FilesystemErrors::FileNotFound))
    );
    fs.write_file_by_path(&"/x".to_string(), &"1".to_string()).unwrap();
    fs.write_file_by_path(&"/x".to_string(), &"2".to_string()).unwrap();
    assert_eq!(fs.read_file_by_path(&"/x".to_string()), Ok(FileInfo { content: "2".to_string() }));
    let listed = fs.list_dir_by_path(&"/".to_string()).unwrap();
    assert_eq!(listed, vec![DirItemInfo { path: "/x".to_string(), is_file: true }]);
    let empty = fs.list_dir_by_path(&"/none".to_string()).unwrap();
    assert!(empty.is_empty());
}

#[test]
fn failed_read_still_notifies_with_error_result() {
    let mut rpc = RpcManager::new(sample_states());
    let r = rpc.read_file_by_path("/b.txt".to_string(), "mem".to_string(), 1, "test".to_string());
    assert_eq!(r, Err(Errors::Fs(FilesystemErrors::FileNotFound)));
    let exts = extensions_of(&rpc.states, 1);
    assert_eq!(
        *exts[0].received(),
        vec![ExtensionMessages::ReadFile(1, "mem".to_string(), r)]
    );
}

#[test]
fn write_and_list_guard_failures() {
    let mut rpc = RpcManager::new(sample_states());
    let w = rpc.write_file_by_path(
        "/a.txt".to_string(),
        "x".to_string(),
        "disk".to_string(),
        1,
        "test".to_string(),
    );
    assert_eq!(w, Err(Errors::Fs(FilesystemErrors::FilesystemNotFound)));
    let l = rpc.list_dir_by_path("/".to_string(), "mem".to_string(), 1, "wrong".to_string());
    assert_eq!(l, Err(Errors::BadToken));
    let i = rpc.get_ext_info_by_id("ext.one".to_string(), 1, "wrong".to_string());
    assert_eq!(i, Err(Errors::BadToken));
    let exts = extensions_of(&rpc.states, 1);
    assert!(exts[0].received().is_empty());
}

#[test]
fn global_and_local_tokens_combine() {
    let state = State::new(1, ExtensionsManager::new()).with_token("local".to_string());
    let states = StatesList::new()
        .with_tokens(vec![TokenFlags::All("global".to_string())])
        .with_state(state);
    let rpc = RpcManager::new(states);
    assert!(rpc.get_state_by_id(1, "local".to_string()).is_some());
    assert!(rpc.get_state_by_id(1, "global".to_string()).is_some());
    assert_eq!(rpc.get_state_by_id(1, "other".to_string()), None);
}

#[test]
fn adding_state_with_existing_id_replaces_it() {
    let replacement = State::new(1, manager_with("ext.two", "Two"));
    let states = sample_states().with_state(replacement);
    let rpc = RpcManager::new(states);
    let list = rpc.get_ext_list_by_id(1, "test".to_string());
    assert_eq!(list, Ok(vec!["ext.two".to_string()]));
}

#[test]
fn successful_set_broadcasts_update_to_every_state() {
    let second = State::new(2, manager_with("ext.two", "Two"));
    let states = sample_states().with_state(second);
    let mut rpc = RpcManager::new(states);
    let d = StateData { id: 1, content: "fresh".to_string() };
    assert_eq!(rpc.set_state_by_id(1, d.clone(), "test".to_string()), Ok(()));
    let expected = ExtensionMessages::CoreMessage(Messages::StateUpdated { state_data: d });
    for id in [1u8, 2u8] {
        let exts = extensions_of(&rpc.states, id);
        assert_eq!(*exts[0].received(), vec![expected.clone()]);
    }
}

#[test]
fn failed_set_broadcasts_nothing() {
    let mut rpc = RpcManager::new(sample_states());
    let d = StateData { id: 1, content: "x".to_string() };
    let _ = rpc.set_state_by_id(1, d.clone(), "wrong".to_string());
    let _ = rpc.set_state_by_id(9, d, "test".to_string());
    let exts = extensions_of(&rpc.states, 1);
    assert!(exts[0].received().is_empty());
}

#[test]
fn all_token_added_after_state_still_authorizes() {
    let states = StatesList::new()
        .with_state(State::new(1, ExtensionsManager::new()))
        .with_tokens(vec![TokenFlags::All("late".to_string())]);
    let rpc = RpcManager::new(states);
    assert!(rpc.get_state_by_id(1, "late".to_string()).is_some());
    assert_eq!(rpc.get_state_by_id(1, "other".to_string()), None);
}
