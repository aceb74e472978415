use ractor::watch::{
    AccessKind, AccessMode, EventKind, FileEvent, RpcReplyPort, Watch, WatchEffect, WatchMessage,
    WatchState,
};
use std::sync::Arc;

type Message = WatchMessage<&'static str>;

fn show(effects: Vec<WatchEffect<u32, &'static str>>) -> Vec<String> {
    effects
        .iter()
        .map(|effect| match effect {
            WatchEffect::WatchPath(path) => format!("watch {}", path),
            WatchEffect::Reply(reply, port) => format!("reply {} {}", reply, port),
            WatchEffect::Deliver(port, path) => format!("tell {} {}", port, path),
        })
        .collect()
}

fn watch(state: &mut WatchState<u32>, path: &str, port: u32, closed: bool) -> Vec<String> {
    let reply = RpcReplyPort { closed, port: "asker" };
    let message: Message = WatchMessage::WatchPort(path.to_string(), reply);
    show(Watch {}.handle(message, Arc::new(port), None, state))
}

fn written(state: &mut WatchState<u32>, path: &str, cwd: Option<&str>) -> Option<Vec<String>> {
    let message: Message = WatchMessage::WatchNotification(path.to_string());
    Watch {}.try_handle(message, Arc::new(0), cwd.map(|dir| dir.to_string()), state).map(show)
}

#[test]
fn a_watched_path_gets_a_port() {
    let mut state = Watch {}.pre_start();
    assert_eq!(watch(&mut state, "src", 1, false), vec!["watch src", "reply asker 1"]);
    assert_eq!(watch(&mut state, "doc", 2, true), vec!["watch doc"]);
    assert_eq!(
        written(&mut state, "/home/me/doc/a.md", Some("/home/me")),
        Some(vec!["tell 2 doc/a.md".to_string()])
    );
}

#[test]
fn every_path_that_is_a_beginning_is_told_once() {
    let mut state = Watch {}.pre_start();
    watch(&mut state, "src", 1, false);
    watch(&mut state, "src/actor", 2, false);
    watch(&mut state, "sr", 3, false);
    watch(&mut state, "src/actor/mod.rs", 4, false);
    assert_eq!(
        written(&mut state, "/w/src/actor/mod.rs", Some("/w")),
        Some(vec![
            "tell 1 src/actor/mod.rs".to_string(),
            "tell 2 src/actor/mod.rs".to_string(),
            "tell 4 src/actor/mod.rs".to_string(),
        ])
    );
    assert_eq!(
        written(&mut state, "/w/src/lib.rs", Some("/w/")),
        Some(vec!["tell 1 src/lib.rs".to_string()])
    );
    assert_eq!(written(&mut state, "/w/tests/a.rs", Some("/w")), Some(vec![]));
}

#[test]
fn a_path_that_is_watched_again_has_the_new_port_only() {
    let mut state = Watch {}.pre_start();
    watch(&mut state, "a", 1, false);
    watch(&mut state, "b", 2, false);
    watch(&mut state, "a", 3, false);
    assert_eq!(written(&mut state, "/w/a/x", Some("/w")), Some(vec!["tell 3 a/x".to_string()]));
    assert_eq!(written(&mut state, "/w/b/x", Some("/w")), Some(vec!["tell 2 b/x".to_string()]));
}

#[test]
fn a_file_outside_the_working_directory_cannot_be_told() {
    let mut state = Watch {}.pre_start();
    assert_eq!(written(&mut state, "/other/x", Some("/w")), Some(vec![]));
    assert_eq!(written(&mut state, "/other/x", None), Some(vec![]));
    watch(&mut state, "a", 1, false);
    assert_eq!(written(&mut state, "/other/x", Some("/w")), None);
    assert_eq!(written(&mut state, "/ww/x", Some("/w")), None);
    assert_eq!(written(&mut state, "/w/a/x", None), None);
    assert_eq!(written(&mut state, "/w/a/x", Some("/w")), Some(vec!["tell 1 a/x".to_string()]));
}

#[test]
fn the_ports_that_are_picked_out_are_told() {
    let mut state: WatchState<u32> = Watch {}.pre_start();
    state.insert("a".to_string(), Arc::new(1));
    state.insert("b".to_string(), Arc::new(2));
    state.insert("c".to_string(), Arc::new(3));
    let told = show(state.pick("x", &vec![true, false, true]));
    assert_eq!(told, vec!["tell 1 x", "tell 3 x"]);
    assert_eq!(show(state.relay("b/x")), vec!["tell 2 b/x"]);
    assert_eq!(show(state.relay("c")), vec!["tell 3 c"]);
}

#[test]
fn a_file_below_the_working_directory_is_told() {
    let mut state: WatchState<u32> = Watch {}.pre_start();
    let cwd = || Some("/w".to_string());
    let message = || -> Message { WatchMessage::WatchNotification("/w/a/x".to_string()) };
    assert!(show(Watch {}.handle(message(), Arc::new(0), cwd(), &mut state)).is_empty());
    watch(&mut state, "a", 1, false);
    let told = show(Watch {}.handle(message(), Arc::new(0), cwd(), &mut state));
    assert_eq!(told, vec!["tell 1 a/x"]);
}

#[test]
fn a_message_that_cannot_be_handled_changes_nothing() {
    let mut state: WatchState<u32> = Watch {}.pre_start();
    watch(&mut state, "a", 1, false);
    for message in [WatchMessage::Start, WatchMessage::Stop, WatchMessage::Watch("b".to_string())] {
        let message: Message = message;
        assert!(Watch {}.try_handle(message, Arc::new(2), None, &mut state).is_none());
    }
    let reply = RpcReplyPort { closed: false, port: "asker" };
    let message: Message = WatchMessage::WatchPort("b".to_string(), reply);
    let handled = Watch {}.try_handle(message, Arc::new(2), None, &mut state).map(show);
    assert_eq!(handled, Some(vec!["watch b".to_string(), "reply asker 2".to_string()]));
    assert_eq!(show(state.relay("b/x")), vec!["tell 2 b/x"]);
}

#[test]
fn only_a_file_that_was_written_is_reported() {
    let paths = |kind| {
        let event = FileEvent { kind, paths: vec!["/w/a".to_string(), "/w/b".to_string()] };
        let messages: Vec<Message> = Watch::notifications(event);
        messages
            .into_iter()
            .map(|message| match message {
                WatchMessage::WatchNotification(path) => path,
                _ => panic!("only notifications"),
            })
            .collect::<Vec<String>>()
    };
    assert_eq!(paths(EventKind::Access(AccessKind::Close(AccessMode::Write))), vec!["/w/a", "/w/b"]);
    for kind in [
        EventKind::Any,
        EventKind::Create,
        EventKind::Modify,
        EventKind::Remove,
        EventKind::Other,
        EventKind::Access(AccessKind::Any),
        EventKind::Access(AccessKind::Read),
        EventKind::Access(AccessKind::Other),
        EventKind::Access(AccessKind::Open(AccessMode::Write)),
        EventKind::Access(AccessKind::Close(AccessMode::Read)),
        EventKind::Access(AccessKind::Close(AccessMode::Any)),
    ] {
        assert!(paths(kind).is_empty());
    }
}

#[test]
fn the_replied_port_is_the_one_that_is_told() {
    let mut state: WatchState<u32> = Watch {}.pre_start();
    let port = Arc::new(5);
    let message: Message = WatchMessage::WatchPort(
        "a".to_string(),
        RpcReplyPort { closed: false, port: "asker" },
    );
    let effects = Watch {}.handle(message, Arc::clone(&port), None, &mut state);
    let replied = match &effects[1] {
        WatchEffect::Reply(_, replied) => Arc::clone(replied),
        _ => panic!("there is an answer"),
    };
    assert!(Arc::ptr_eq(&port, &replied));
    match &state.relay::<()>("a/b")[0] {
        WatchEffect::Deliver(told, path) => {
            assert!(Arc::ptr_eq(&port, told));
            assert_eq!(path, "a/b");
        }
        _ => panic!("it is told"),
    }
}
