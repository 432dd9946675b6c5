//! The file-logger script: appends every chat message it receives to one
//! append-only log file under the sandbox root, bracketed by a startup and
//! a shutdown marker line per load/unload cycle. When no sandbox root is
//! granted it degrades to logging-only behaviour instead of failing.

use vstd::prelude::*;

use crate::events::{Event, EventModel, EVENT_CHAT_MESSAGE_RECEIVED};
use crate::descriptor::ScriptDescriptor;
use crate::host::{EnvModel, HostEnv};
use crate::sandbox::{sandbox_append, sandbox_open, sandbox_open_handle};
use crate::subscription::SubscriptionSet;
use crate::text::{chat_line, format_chat_line};

verus! {

/// The path of the chat log, interpreted under the sandbox root.
pub open spec fn log_path() -> Seq<char> {
    "/script_data/chat.log"@
}

/// The marker written right after the log is opened.
pub open spec fn start_marker() -> Seq<char> {
    "\n=== File Logger WASM started ===\n"@
}

/// The marker written right before the log is released.
pub open spec fn stop_marker() -> Seq<char> {
    "=== File Logger WASM stopped ===\n\n"@
}

/// Whether the script's stream handle points into the sandbox.
pub open spec fn fl_stream_wf(stream: Option<int>, env: EnvModel) -> bool {
    match stream {
        Some(h) => 0 <= h < env.sandbox.files.len(),
        None => true,
    }
}

/// The stream handle after loading: the opened file's handle, or nothing
/// when the host granted no sandbox root.
pub open spec fn fl_state_after_load(env: EnvModel) -> Option<int> {
    if env.sandbox.available {
        Some(sandbox_open_handle(env.sandbox, log_path()))
    } else {
        None
    }
}

/// The environment after loading: on success the log file is opened (in
/// append mode, never truncating), the start marker is appended and one
/// diagnostic is logged; on failure the error is reported through both
/// the diagnostic and the chat side channel.
pub open spec fn fl_env_after_load(env: EnvModel) -> EnvModel {
    if env.sandbox.available {
        EnvModel {
            diagnostics: env.diagnostics.push(
                "File logger started - logging to /script_data/chat.log"@,
            ),
            sandbox: sandbox_append(
                sandbox_open(env.sandbox, log_path()),
                sandbox_open_handle(env.sandbox, log_path()),
                start_marker(),
            ),
            ..env
        }
    } else {
        EnvModel {
            diagnostics: env.diagnostics.push(
                "Failed to open log file: no sandbox root granted"@,
            ),
            chat: env.chat.push("Failed to open log file: no sandbox root granted"@),
            ..env
        }
    }
}

/// The environment after one delivery: a chat message is appended to the
/// open log as one formatted line; without an open log nothing happens.
pub open spec fn fl_env_after_event(stream: Option<int>, env: EnvModel, ev: EventModel) -> EnvModel {
    match ev {
        EventModel::ChatMessageReceived(c) => match stream {
            Some(h) => EnvModel {
                sandbox: sandbox_append(
                    env.sandbox,
                    h,
                    chat_line(c.timestamp_millis, c.channel, c.message),
                ),
                ..env
            },
            None => env,
        },
        _ => env,
    }
}

/// The environment after unloading: the stop marker is appended if a log
/// was open, and the stop diagnostic is always logged.
pub open spec fn fl_env_after_unload(stream: Option<int>, env: EnvModel) -> EnvModel {
    match stream {
        Some(h) => EnvModel {
            diagnostics: env.diagnostics.push("File logger stopped"@),
            sandbox: sandbox_append(env.sandbox, h, stop_marker()),
            ..env
        },
        None => EnvModel {
            diagnostics: env.diagnostics.push("File logger stopped"@),
            ..env
        },
    }
}

/// The file-logger script instance: the handle of its open log stream,
/// exclusively owned, released on unload.
pub struct FileLoggerScript {
    stream: Option<usize>,
}

impl View for FileLoggerScript {
    type V = Option<int>;

    closed spec fn view(&self) -> Option<int> {
        match self.stream {
            Some(h) => Some(h as int),
            None => None,
        }
    }
}

impl FileLoggerScript {
    /// A fresh instance: no stream open yet.
    pub fn new() -> (s: FileLoggerScript)
        ensures
            s@ is None,
    {
        FileLoggerScript { stream: None }
    }

    /// Identity; pure and callable at any time.
    pub fn describe(&self) -> (d: ScriptDescriptor)
        ensures
            d@.id == "file_logger_wasm"@,
            d@.name == "File Logger (WASM)"@,
            d@.description == "WASM component that logs chat messages to /script_data/chat.log"@,
    {
        ScriptDescriptor {
            id: String::from_str("file_logger_wasm"),
            name: String::from_str("File Logger (WASM)"),
            description: String::from_str(
                "WASM component that logs chat messages to /script_data/chat.log",
            ),
        }
    }

    /// The subscription set, queried once: chat messages only.
    pub fn subscribed_events(&self) -> (s: SubscriptionSet)
        ensures
            s@ == seq![EVENT_CHAT_MESSAGE_RECEIVED],
    {
        let mut kinds: Vec<u32> = Vec::new();
        kinds.push(EVENT_CHAT_MESSAGE_RECEIVED);
        proof {
            assert(kinds@ =~= seq![EVENT_CHAT_MESSAGE_RECEIVED]);
        }
        SubscriptionSet::from_kinds(kinds)
    }

    /// Lifecycle: open the log in append mode and write the start marker,
    /// or report the failure and carry on without a log.
    pub fn on_load(&mut self, env: &mut HostEnv)
        requires
            old(env)@.sandbox.wf(),
        ensures
            final(self)@ == fl_state_after_load(old(env)@),
            final(env)@ == fl_env_after_load(old(env)@),
            final(env)@.sandbox.wf(),
            fl_stream_wf(final(self)@, final(env)@),
    {
        match env.open_log_stream("/script_data/chat.log") {
            Some(h) => {
                self.stream = Some(h);
                env.append_log(h, "\n=== File Logger WASM started ===\n");
                env.log("File logger started - logging to /script_data/chat.log");
                proof {
                    assert(env@ =~= fl_env_after_load(old(env)@));
                }
            },
            None => {
                self.stream = None;
                env.log("Failed to open log file: no sandbox root granted");
                env.send_chat("Failed to open log file: no sandbox root granted");
                proof {
                    assert(env@ =~= fl_env_after_load(old(env)@));
                }
            },
        }
    }

    /// Lifecycle: write the stop marker, release the stream, report.
    pub fn on_unload(&mut self, env: &mut HostEnv)
        requires
            old(env)@.sandbox.wf(),
            fl_stream_wf(old(self)@, old(env)@),
        ensures
            final(self)@ is None,
            final(env)@ == fl_env_after_unload(old(self)@, old(env)@),
            final(env)@.sandbox.wf(),
    {
        match self.stream {
            Some(h) => {
                env.append_log(h, "=== File Logger WASM stopped ===\n\n");
            },
            None => {},
        }
        self.stream = None;
        env.log("File logger stopped");
        proof {
            assert(env@ =~= fl_env_after_unload(old(self)@, old(env)@));
        }
    }

    /// Handle one delivery: append the chat message to the open log as one
    /// `[<millis>] [channel:<id>] <message>` line.
    pub fn on_event(&mut self, env: &mut HostEnv, event: &Event)
        requires
            old(env)@.sandbox.wf(),
            fl_stream_wf(old(self)@, old(env)@),
        ensures
            final(self)@ == old(self)@,
            final(env)@ == fl_env_after_event(old(self)@, old(env)@, event@),
            final(env)@.sandbox.wf(),
            fl_stream_wf(final(self)@, final(env)@),
    {
        match event {
            Event::ChatMessageReceived(chat_info) => {
                match self.stream {
                    Some(h) => {
                        let line = format_chat_line(
                            chat_info.timestamp_millis,
                            chat_info.channel,
                            chat_info.message.as_str(),
                        );
                        env.append_log(h, line.as_str());
                        proof {
                            assert(env@ =~= fl_env_after_event(old(self)@, old(env)@, event@));
                        }
                    },
                    None => {},
                }
            },
            _ => {},
        }
    }

    /// Ticks carry no periodic work for this script.
    pub fn on_tick(&mut self, env: &mut HostEnv, delta_millis: u64)
        ensures
            final(self)@ == old(self)@,
            final(env)@ == old(env)@,
    {
        let _ = env;
        let _ = delta_millis;
    }
}

} // verus!
