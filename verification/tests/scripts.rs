//! End-to-end scenarios for the shipped scripts, driven through the
//! dispatch engine against a fresh host environment.

use gromnie_scripts::auto_login::AutoLoginScript;
use gromnie_scripts::echo::EchoScript;
use gromnie_scripts::engine::{AnyScript, Engine};
use gromnie_scripts::events::{
    AccountInfo, CharacterInfo, ChatInfo, Event, ObjectInfo,
};
use gromnie_scripts::file_logger::FileLoggerScript;
use gromnie_scripts::hello_world::HelloWorldScript;
use gromnie_scripts::host::{ClientState, HostEnv};

fn character_list_event(account: &str, characters: Vec<(u32, &str)>) -> Event {
    Event::CharacterListReceived(AccountInfo {
        name: account.to_string(),
        character_list: characters
            .into_iter()
            .map(|(id, name)| CharacterInfo { id, name: name.to_string() })
            .collect(),
    })
}

#[test]
fn hello_world_greets_exactly_once_after_five_seconds() {
    let mut env = HostEnv::new(false, ClientState::InWorld);
    let mut engine = Engine::new();
    engine.register(&mut env, AnyScript::HelloWorld(HelloWorldScript::new()));

    engine.dispatch_event(
        &mut env,
        &Event::CreateObject(ObjectInfo { id: 7, name: "Box".to_string() }),
    );
    assert_eq!(env.timer_count(), 1);
    assert_eq!(env.diagnostic(1).as_str(), "Object created: Box (ID: 7)");
    assert_eq!(env.diagnostic(2).as_str(), "Scheduled 5-second greeting timer");

    // Four one-second ticks: not yet elapsed, nothing sent.
    for _ in 0..4 {
        engine.tick(&mut env, 1000);
        assert_eq!(env.chat_len(), 0);
    }
    // The fifth tick reaches the five-second delay: the greeting fires.
    engine.tick(&mut env, 1000);
    assert_eq!(env.chat_len(), 1);
    assert_eq!(env.chat_message(0).as_str(), "Hello from WASM! \u{1f44b}");

    // An additional tick must not repeat it.
    engine.tick(&mut env, 1000);
    assert_eq!(env.chat_len(), 1);
}

#[test]
fn auto_login_logs_and_skips_empty_character_list() {
    let mut env = HostEnv::new(false, ClientState::CharacterSelect);
    let mut engine = Engine::new();
    engine.register(&mut env, AnyScript::AutoLogin(AutoLoginScript::new()));

    engine.dispatch_event(&mut env, &character_list_event("acct1", vec![]));

    assert_eq!(env.logins_len(), 0);
    assert_eq!(
        env.diagnostic(1).as_str(),
        "Auto Login: No characters found on account 'acct1'. Cannot auto-login."
    );
}

#[test]
fn auto_login_logs_in_first_character_exactly_once() {
    let mut env = HostEnv::new(false, ClientState::CharacterSelect);
    let mut engine = Engine::new();
    engine.register(&mut env, AnyScript::AutoLogin(AutoLoginScript::new()));

    let ev = character_list_event("acct1", vec![(1, "Foo")]);
    engine.dispatch_event(&mut env, &ev);

    assert_eq!(env.logins_len(), 1);
    let login = env.login(0);
    assert_eq!(login.account.as_str(), "acct1");
    assert_eq!(login.character_id, 1);
    assert_eq!(login.character_name.as_str(), "Foo");
    assert_eq!(
        env.diagnostic(1).as_str(),
        "Auto Login: Logging in as first character 'Foo' (ID: 1)"
    );

    // Delivering the identical event again produces zero additional calls.
    let ev2 = character_list_event("acct1", vec![(1, "Foo")]);
    engine.dispatch_event(&mut env, &ev2);
    assert_eq!(env.logins_len(), 1);
}

#[test]
fn unsubscribed_scripts_are_not_invoked() {
    let mut env = HostEnv::new(false, ClientState::InWorld);
    let mut engine = Engine::new();
    engine.register(&mut env, AnyScript::AutoLogin(AutoLoginScript::new()));
    engine.register(&mut env, AnyScript::HelloWorld(HelloWorldScript::new()));
    let loaded = env.diagnostics_len();

    // A chat message matches neither subscription: no diagnostics, no
    // login, no timer appears.
    engine.dispatch_event(
        &mut env,
        &Event::ChatMessageReceived(ChatInfo {
            channel: 3,
            message: "hi".to_string(),
            timestamp_millis: 1234,
        }),
    );
    assert_eq!(env.diagnostics_len(), loaded);
    assert_eq!(env.logins_len(), 0);
    assert_eq!(env.timer_count(), 0);
}

#[test]
fn echo_receives_every_event_kind() {
    let mut env = HostEnv::new(false, ClientState::InWorld);
    let mut engine = Engine::new();
    engine.register(&mut env, AnyScript::Echo(EchoScript::new()));
    assert_eq!(env.diagnostic(0).as_str(), "Echo Script loaded!");

    engine.dispatch_event(
        &mut env,
        &Event::CreateObject(ObjectInfo { id: 5, name: "X".to_string() }),
    );
    assert_eq!(env.diagnostic(1).as_str(), "CreateObject(id: 5, name: X)");

    engine.dispatch_event(
        &mut env,
        &Event::ChatMessageReceived(ChatInfo {
            channel: 2,
            message: "hello".to_string(),
            timestamp_millis: 99,
        }),
    );
    assert_eq!(env.diagnostic(2).as_str(), "ChatMessageReceived(channel: 2, message: hello)");

    engine.dispatch_event(&mut env, &character_list_event("a", vec![(9, "Z")]));
    assert_eq!(env.diagnostic(3).as_str(), "CharacterListReceived(account: a, characters: 1)");

    engine.shutdown(&mut env);
    assert_eq!(env.diagnostic(4).as_str(), "Echo Script unloaded!");
    assert_eq!(engine.len(), 0);
}

#[test]
fn file_logger_writes_chat_lines_between_markers() {
    let mut env = HostEnv::new(true, ClientState::InWorld);
    let mut engine = Engine::new();
    engine.register(&mut env, AnyScript::FileLogger(FileLoggerScript::new()));
    assert_eq!(
        env.diagnostic(0).as_str(),
        "File logger started - logging to /script_data/chat.log"
    );
    assert_eq!(env.sandbox().file_count(), 1);

    engine.dispatch_event(
        &mut env,
        &Event::ChatMessageReceived(ChatInfo {
            channel: 1,
            message: "first".to_string(),
            timestamp_millis: 1000,
        }),
    );
    engine.dispatch_event(
        &mut env,
        &Event::ChatMessageReceived(ChatInfo {
            channel: 2,
            message: "second".to_string(),
            timestamp_millis: 2000,
        }),
    );
    engine.shutdown(&mut env);

    let content = env.sandbox().content(0).clone();
    assert_eq!(
        content.as_str(),
        "\n=== File Logger WASM started ===\n\
         [1000] [channel:1] first\n\
         [2000] [channel:2] second\n\
         === File Logger WASM stopped ===\n\n"
    );
}

#[test]
fn file_logger_reload_appends_and_preserves_prior_lines() {
    let mut env = HostEnv::new(true, ClientState::InWorld);

    let mut engine = Engine::new();
    engine.register(&mut env, AnyScript::FileLogger(FileLoggerScript::new()));
    engine.dispatch_event(
        &mut env,
        &Event::ChatMessageReceived(ChatInfo {
            channel: 1,
            message: "before".to_string(),
            timestamp_millis: 10,
        }),
    );
    engine.shutdown(&mut env);
    let first_cycle = env.sandbox().content(0).clone();

    // A new load/unload cycle on the same host: the log is reopened in
    // append mode, so everything from the first cycle survives untouched.
    let mut engine2 = Engine::new();
    engine2.register(&mut env, AnyScript::FileLogger(FileLoggerScript::new()));
    engine2.dispatch_event(
        &mut env,
        &Event::ChatMessageReceived(ChatInfo {
            channel: 1,
            message: "after".to_string(),
            timestamp_millis: 20,
        }),
    );
    engine2.shutdown(&mut env);

    let content = env.sandbox().content(0).clone();
    assert_eq!(env.sandbox().file_count(), 1);
    assert!(content.as_str().starts_with(first_cycle.as_str()));
    assert!(content.as_str().contains("[10] [channel:1] before\n"));
    assert!(content.as_str().contains("[20] [channel:1] after\n"));
}

#[test]
fn file_logger_degrades_without_sandbox_root() {
    let mut env = HostEnv::new(false, ClientState::InWorld);
    let mut engine = Engine::new();
    engine.register(&mut env, AnyScript::FileLogger(FileLoggerScript::new()));

    assert_eq!(env.diagnostic(0).as_str(), "Failed to open log file: no sandbox root granted");
    assert_eq!(env.chat_message(0).as_str(), "Failed to open log file: no sandbox root granted");
    assert_eq!(env.sandbox().file_count(), 0);

    // Chat events are simply dropped; nothing crashes, nothing is stored.
    engine.dispatch_event(
        &mut env,
        &Event::ChatMessageReceived(ChatInfo {
            channel: 1,
            message: "lost".to_string(),
            timestamp_millis: 5,
        }),
    );
    assert_eq!(env.sandbox().file_count(), 0);
    engine.shutdown(&mut env);
    assert_eq!(env.diagnostic(1).as_str(), "File logger stopped");
}

#[test]
fn descriptors_carry_stable_identities() {
    let auto = AnyScript::AutoLogin(AutoLoginScript::new());
    let echo = AnyScript::Echo(EchoScript::new());
    let fl = AnyScript::FileLogger(FileLoggerScript::new());
    let hello = AnyScript::HelloWorld(HelloWorldScript::new());

    assert_eq!(auto.describe().id.as_str(), "auto_login_wasm");
    assert_eq!(auto.describe().name.as_str(), "Auto Login (WASM)");
    assert_eq!(echo.describe().id.as_str(), "echo");
    assert_eq!(fl.describe().id.as_str(), "file_logger_wasm");
    assert_eq!(
        fl.describe().description.as_str(),
        "WASM component that logs chat messages to /script_data/chat.log"
    );
    assert_eq!(hello.describe().id.as_str(), "hello_world_wasm");
    assert_eq!(
        hello.describe().description.as_str(),
        "WASM component that sends a greeting 5 seconds after an object is created"
    );
}

#[test]
fn client_state_snapshot_reflects_host_updates() {
    let mut env = HostEnv::new(false, ClientState::CharacterSelect);
    assert_eq!(env.get_client_state(), ClientState::CharacterSelect);
    env.set_client_state(ClientState::InWorld);
    assert_eq!(env.get_client_state(), ClientState::InWorld);
}

#[test]
fn event_time_reflects_what_the_host_published() {
    let mut env = HostEnv::new(false, ClientState::InWorld);
    assert_eq!(env.get_event_time_millis(), 0);
    env.set_event_time_millis(1700000000123);
    assert_eq!(env.get_event_time_millis(), 1700000000123);
}
