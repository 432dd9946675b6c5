//! The sandboxed host-action surface: the narrow capability set through
//! which a script's only effects on the outside world occur. Every call is
//! a single synchronous operation with no script-visible concurrency.
//!
//! The environment records each diagnostic line, each chat send and each
//! login request, owns the process's timer store and the sandboxed
//! filesystem, and carries the client-state snapshot the host last
//! published.

use vstd::prelude::*;

use crate::actions::{LoginModel, LoginRequest};
use crate::lemma_vec_deep_view_push;
use crate::sandbox::{
    sandbox_append, sandbox_open, sandbox_open_handle, Sandbox, SandboxModel,
};
use crate::timers::{
    advance_timers, consume_timer, millis_of_seconds, timer_fires, TimerFacility, TimerModel,
    TimersModel,
};

verus! {

/// A point-in-time snapshot of the client's scene/session state. It is
/// stale immediately after the call that produced it; across separate
/// dispatch calls a script must fetch it anew.
#[derive(Clone, Copy, PartialEq, Eq, Structural, Debug)]
pub enum ClientState {
    /// The client sits at character selection.
    CharacterSelect,
    /// A character is logged into the world.
    InWorld,
}

/// Mathematical abstraction of [`HostEnv`].
#[verifier::ext_equal]
pub struct EnvModel {
    pub diagnostics: Seq<Seq<char>>,
    pub chat: Seq<Seq<char>>,
    pub logins: Seq<LoginModel>,
    pub timers: TimersModel,
    pub sandbox: SandboxModel,
    pub client: ClientState,
    pub event_time_millis: u64,
}

impl EnvModel {
    /// Well-formedness of the host-owned stores.
    pub open spec fn wf(self) -> bool {
        self.timers.wf() && self.sandbox.wf()
    }
}

/// The host side of the contract, as one script process sees it.
pub struct HostEnv {
    diagnostics: Vec<String>,
    chat: Vec<String>,
    logins: Vec<LoginRequest>,
    timers: TimerFacility,
    sandbox: Sandbox,
    client: ClientState,
    event_time_millis: u64,
}

impl View for HostEnv {
    type V = EnvModel;

    closed spec fn view(&self) -> EnvModel {
        EnvModel {
            diagnostics: self.diagnostics.deep_view(),
            chat: self.chat.deep_view(),
            logins: self.logins.deep_view(),
            timers: self.timers@,
            sandbox: self.sandbox@,
            client: self.client,
            event_time_millis: self.event_time_millis,
        }
    }
}

impl HostEnv {
    /// A fresh environment: nothing recorded, no timers, an empty sandbox
    /// (available or not as the host decided), and the given client state.
    pub fn new(sandbox_available: bool, client: ClientState) -> (env: HostEnv)
        ensures
            env@.wf(),
            env@.diagnostics == Seq::<Seq<char>>::empty(),
            env@.chat == Seq::<Seq<char>>::empty(),
            env@.logins == Seq::<LoginModel>::empty(),
            env@.timers.next_id == 0,
            env@.timers.timers == Seq::<TimerModel>::empty(),
            env@.sandbox.available == sandbox_available,
            env@.sandbox.files.len() == 0,
            env@.client == client,
            env@.event_time_millis == 0,
    {
        let env = HostEnv {
            diagnostics: Vec::new(),
            chat: Vec::new(),
            logins: Vec::new(),
            timers: TimerFacility::new(),
            sandbox: Sandbox::new(sandbox_available),
            client,
            event_time_millis: 0,
        };
        proof {
            assert(env@.diagnostics =~= Seq::<Seq<char>>::empty());
            assert(env@.chat =~= Seq::<Seq<char>>::empty());
            assert(env@.logins =~= Seq::<LoginModel>::empty());
        }
        env
    }

    /// Best-effort diagnostic sink; never fails observably to the caller.
    pub fn log(&mut self, message: &str)
        ensures
            final(self)@ == (EnvModel {
                diagnostics: old(self)@.diagnostics.push(message@),
                ..old(self)@
            }),
    {
        let s = String::from_str(message);
        let ghost pre = self.diagnostics;
        let ghost sm = s;
        self.diagnostics.push(s);
        proof {
            lemma_vec_deep_view_push(pre, self.diagnostics, sm);
            assert(self@ =~= (EnvModel {
                diagnostics: old(self)@.diagnostics.push(message@),
                ..old(self)@
            }));
        }
    }

    /// Best-effort in-world chat send; a failure is host-internal and not
    /// surfaced to the script.
    pub fn send_chat(&mut self, message: &str)
        ensures
            final(self)@ == (EnvModel { chat: old(self)@.chat.push(message@), ..old(self)@ }),
    {
        let s = String::from_str(message);
        let ghost pre = self.chat;
        let ghost sm = s;
        self.chat.push(s);
        proof {
            lemma_vec_deep_view_push(pre, self.chat, sm);
            assert(self@ =~= (EnvModel { chat: old(self)@.chat.push(message@), ..old(self)@ }));
        }
    }

    /// The irreversible state-changing action: request a character login.
    /// The request is recorded; callers guard it with a single-fire guard
    /// so it is issued at most once per logical attempt.
    pub fn login_character(&mut self, account: &str, character_id: u32, character_name: &str)
        ensures
            final(self)@ == (EnvModel {
                logins: old(self)@.logins.push(
                    LoginModel {
                        account: account@,
                        character_id,
                        character_name: character_name@,
                    },
                ),
                ..old(self)@
            }),
    {
        let req = LoginRequest {
            account: String::from_str(account),
            character_id,
            character_name: String::from_str(character_name),
        };
        let ghost pre = self.logins;
        let ghost reqv = req;
        let ghost reqm = req@;
        self.logins.push(req);
        proof {
            lemma_vec_deep_view_push(pre, self.logins, reqv);
            assert(self@ =~= (EnvModel { logins: old(self)@.logins.push(reqm), ..old(self)@ }));
        }
    }

    /// Schedule a timer `seconds` from now; returns the fresh handle
    /// immediately, never blocking.
    pub fn schedule_timer(&mut self, seconds: u64, tag: &str) -> (id: u64)
        requires
            old(self)@.timers.wf(),
            old(self)@.timers.next_id < u64::MAX,
        ensures
            id == old(self)@.timers.next_id,
            final(self)@ == (EnvModel {
                timers: TimersModel {
                    next_id: (old(self)@.timers.next_id + 1) as u64,
                    timers: old(self)@.timers.timers.push(
                        TimerModel {
                            id,
                            remaining_millis: millis_of_seconds(seconds),
                            tag: tag@,
                            consumed: false,
                        },
                    ),
                },
                ..old(self)@
            }),
            final(self)@.timers.wf(),
    {
        let id = self.timers.schedule(seconds, tag);
        proof {
            assert(self@ =~= (EnvModel {
                timers: TimersModel {
                    next_id: (old(self)@.timers.next_id + 1) as u64,
                    timers: old(self)@.timers.timers.push(
                        TimerModel {
                            id,
                            remaining_millis: millis_of_seconds(seconds),
                            tag: tag@,
                            consumed: false,
                        },
                    ),
                },
                ..old(self)@
            }));
        }
        id
    }

    /// Poll a timer handle from within a tick; true at most once per handle.
    pub fn check_timer(&mut self, id: u64) -> (fired: bool)
        requires
            old(self)@.timers.wf(),
        ensures
            fired == timer_fires(old(self)@.timers, id),
            final(self)@ == (EnvModel {
                timers: consume_timer(old(self)@.timers, id),
                ..old(self)@
            }),
            final(self)@.timers.wf(),
    {
        let fired = self.timers.check(id);
        proof {
            assert(self@ =~= (EnvModel {
                timers: consume_timer(old(self)@.timers, id),
                ..old(self)@
            }));
        }
        fired
    }

    /// Host side of a tick: account the elapsed time to every timer.
    pub fn advance_time(&mut self, delta_millis: u64)
        requires
            old(self)@.timers.wf(),
        ensures
            final(self)@ == (EnvModel {
                timers: advance_timers(old(self)@.timers, delta_millis),
                ..old(self)@
            }),
            final(self)@.timers.wf(),
    {
        self.timers.advance(delta_millis);
        proof {
            assert(self@ =~= (EnvModel {
                timers: advance_timers(old(self)@.timers, delta_millis),
                ..old(self)@
            }));
        }
    }

    /// Open a log stream at `path` under the sandbox root, in append mode.
    /// `None` exactly when the host granted no sandbox root; recoverable.
    pub fn open_log_stream(&mut self, path: &str) -> (h: Option<usize>)
        requires
            old(self)@.sandbox.wf(),
        ensures
            final(self)@ == (EnvModel {
                sandbox: sandbox_open(old(self)@.sandbox, path@),
                ..old(self)@
            }),
            final(self)@.sandbox.wf(),
            h is None <==> !old(self)@.sandbox.available,
            h matches Some(i) ==> i as int == sandbox_open_handle(old(self)@.sandbox, path@) && (
            i as int) < final(self)@.sandbox.files.len()
                && final(self)@.sandbox.files[i as int].path == path@,
    {
        let h = self.sandbox.open_append(path);
        proof {
            assert(self@ =~= (EnvModel {
                sandbox: sandbox_open(old(self)@.sandbox, path@),
                ..old(self)@
            }));
        }
        h
    }

    /// Append a line of text to an open log stream.
    pub fn append_log(&mut self, h: usize, text: &str)
        requires
            old(self)@.sandbox.wf(),
            h < old(self)@.sandbox.files.len(),
        ensures
            final(self)@ == (EnvModel {
                sandbox: sandbox_append(old(self)@.sandbox, h as int, text@),
                ..old(self)@
            }),
            final(self)@.sandbox.wf(),
    {
        self.sandbox.append(h, text);
        proof {
            assert(self@ =~= (EnvModel {
                sandbox: sandbox_append(old(self)@.sandbox, h as int, text@),
                ..old(self)@
            }));
        }
    }

    /// A snapshot of the client's current scene/session state.
    pub fn get_client_state(&self) -> (c: ClientState)
        ensures
            c == self@.client,
    {
        self.client
    }

    /// Host side: publish a new client state for later snapshots.
    pub fn set_client_state(&mut self, client: ClientState)
        ensures
            final(self)@ == (EnvModel { client, ..old(self)@ }),
    {
        self.client = client;
        proof {
            assert(self@ =~= (EnvModel { client, ..old(self)@ }));
        }
    }

    /// The host's time of the event being dispatched, in milliseconds
    /// since the epoch.
    pub fn get_event_time_millis(&self) -> (t: u64)
        ensures
            t == self@.event_time_millis,
    {
        self.event_time_millis
    }

    /// Host side: publish the event time before delivering an event.
    pub fn set_event_time_millis(&mut self, t: u64)
        ensures
            final(self)@ == (EnvModel { event_time_millis: t, ..old(self)@ }),
    {
        self.event_time_millis = t;
        proof {
            assert(self@ =~= (EnvModel { event_time_millis: t, ..old(self)@ }));
        }
    }

    /// How many diagnostic lines have been logged.
    pub fn diagnostics_len(&self) -> (n: usize)
        ensures
            n == self@.diagnostics.len(),
    {
        self.diagnostics.len()
    }

    /// One logged diagnostic line.
    pub fn diagnostic(&self, i: usize) -> (s: &String)
        requires
            i < self@.diagnostics.len(),
        ensures
            s@ == self@.diagnostics[i as int],
    {
        proof {
            assert(self@.diagnostics[i as int] == self.diagnostics@[i as int]@);
        }
        &self.diagnostics[i]
    }

    /// How many chat messages have been sent.
    pub fn chat_len(&self) -> (n: usize)
        ensures
            n == self@.chat.len(),
    {
        self.chat.len()
    }

    /// One sent chat message.
    pub fn chat_message(&self, i: usize) -> (s: &String)
        requires
            i < self@.chat.len(),
        ensures
            s@ == self@.chat[i as int],
    {
        proof {
            assert(self@.chat[i as int] == self.chat@[i as int]@);
        }
        &self.chat[i]
    }

    /// How many login requests have been issued.
    pub fn logins_len(&self) -> (n: usize)
        ensures
            n == self@.logins.len(),
    {
        self.logins.len()
    }

    /// One issued login request.
    pub fn login(&self, i: usize) -> (r: &LoginRequest)
        requires
            i < self@.logins.len(),
        ensures
            r@ == self@.logins[i as int],
    {
        proof {
            assert(self@.logins[i as int] == self.logins@[i as int]@);
        }
        &self.logins[i]
    }

    /// The sandboxed filesystem, for reading log contents back.
    pub fn sandbox(&self) -> (s: &Sandbox)
        ensures
            s@ == self@.sandbox,
    {
        &self.sandbox
    }

    /// How many timers the host holds for this process.
    pub fn timer_count(&self) -> (n: usize)
        ensures
            n == self@.timers.timers.len(),
    {
        self.timers.len()
    }
}

} // verus!
