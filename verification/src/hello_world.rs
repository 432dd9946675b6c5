//! The hello-world script: when an object is created it schedules a
//! five-second timer, and on the first tick that finds the timer elapsed
//! it sends one greeting to chat — exactly once per scheduled timer.

use vstd::prelude::*;

use crate::descriptor::ScriptDescriptor;
use crate::events::{Event, EventModel, ObjectModel, EVENT_CREATE_OBJECT};
use crate::host::{EnvModel, HostEnv};
use crate::subscription::SubscriptionSet;
use crate::text::{dec_rep, u32_to_dec};
use crate::timers::{consume_timer, millis_of_seconds, timer_fires, TimerModel, TimersModel};

verus! {

/// The delay of the greeting timer, in seconds.
pub const GREETING_DELAY_SECONDS: u64 = 5;

/// The diagnostic line logged when the object-creation event arrives.
pub open spec fn object_created_line(o: ObjectModel) -> Seq<char> {
    "Object created: "@ + o.name + " (ID: "@ + dec_rep(o.id as nat) + ")"@
}

/// The greeting sent to chat when the timer fires.
pub open spec fn greeting_text() -> Seq<char> {
    "Hello from WASM! \u{1f44b}"@
}

/// The script's timer handle after it has handled `ev`: an object
/// creation schedules a fresh timer (whose handle the host picks as its
/// next id); other events leave the handle alone.
pub open spec fn hello_state_after_event(timer: Option<u64>, env: EnvModel, ev: EventModel) -> Option<
    u64,
> {
    match ev {
        EventModel::CreateObject(_) => Some(env.timers.next_id),
        _ => timer,
    }
}

/// The environment after one delivery: for an object creation, two
/// diagnostic lines and one freshly scheduled five-second timer; for any
/// other event, nothing.
pub open spec fn hello_env_after_event(timer: Option<u64>, env: EnvModel, ev: EventModel) -> EnvModel {
    match ev {
        EventModel::CreateObject(o) => EnvModel {
            diagnostics: env.diagnostics.push(object_created_line(o)).push(
                "Scheduled 5-second greeting timer"@,
            ),
            timers: TimersModel {
                next_id: (env.timers.next_id + 1) as u64,
                timers: env.timers.timers.push(
                    TimerModel {
                        id: env.timers.next_id,
                        remaining_millis: millis_of_seconds(GREETING_DELAY_SECONDS as u64),
                        tag: "greeting"@,
                        consumed: false,
                    },
                ),
            },
            ..env
        },
        _ => env,
    }
}

/// The script's timer handle after one tick: cleared when the held timer
/// reports elapsed, kept otherwise.
pub open spec fn hello_state_after_tick(timer: Option<u64>, env: EnvModel) -> Option<u64> {
    match timer {
        Some(id) => if timer_fires(env.timers, id) {
            None
        } else {
            Some(id)
        },
        None => None,
    }
}

/// The environment after one tick of this script: polling consumes the
/// held timer's "elapsed" report; on the tick it first reports elapsed the
/// script logs one line and sends the greeting once.
pub open spec fn hello_env_after_tick(timer: Option<u64>, env: EnvModel) -> EnvModel {
    match timer {
        Some(id) => if timer_fires(env.timers, id) {
            EnvModel {
                diagnostics: env.diagnostics.push("Timer fired! Sending greeting..."@),
                chat: env.chat.push(greeting_text()),
                timers: consume_timer(env.timers, id),
                ..env
            }
        } else {
            EnvModel { timers: consume_timer(env.timers, id), ..env }
        },
        None => env,
    }
}

/// The hello-world script instance: at most one pending greeting timer.
pub struct HelloWorldScript {
    timer_id: Option<u64>,
}

impl View for HelloWorldScript {
    type V = Option<u64>;

    closed spec fn view(&self) -> Option<u64> {
        self.timer_id
    }
}

impl HelloWorldScript {
    /// A fresh instance: no timer pending.
    pub fn new() -> (s: HelloWorldScript)
        ensures
            s@ is None,
    {
        HelloWorldScript { timer_id: None }
    }

    /// Identity; pure and callable at any time.
    pub fn describe(&self) -> (d: ScriptDescriptor)
        ensures
            d@.id == "hello_world_wasm"@,
            d@.name == "Hello World (WASM)"@,
            d@.description
                == "WASM component that sends a greeting 5 seconds after an object is created"@,
    {
        ScriptDescriptor {
            id: String::from_str("hello_world_wasm"),
            name: String::from_str("Hello World (WASM)"),
            description: String::from_str(
                "WASM component that sends a greeting 5 seconds after an object is created",
            ),
        }
    }

    /// The subscription set, queried once: object creations only.
    pub fn subscribed_events(&self) -> (s: SubscriptionSet)
        ensures
            s@ == seq![EVENT_CREATE_OBJECT],
    {
        let mut kinds: Vec<u32> = Vec::new();
        kinds.push(EVENT_CREATE_OBJECT);
        proof {
            assert(kinds@ =~= seq![EVENT_CREATE_OBJECT]);
        }
        SubscriptionSet::from_kinds(kinds)
    }

    /// Lifecycle: announce the load.
    pub fn on_load(&mut self, env: &mut HostEnv)
        ensures
            final(self)@ == old(self)@,
            final(env)@ == (EnvModel {
                diagnostics: old(env)@.diagnostics.push("Hello World script loaded!"@),
                ..old(env)@
            }),
    {
        env.log("Hello World script loaded!");
    }

    /// Lifecycle: announce the unload; nothing to release.
    pub fn on_unload(&mut self, env: &mut HostEnv)
        ensures
            final(self)@ == old(self)@,
            final(env)@ == (EnvModel {
                diagnostics: old(env)@.diagnostics.push("Hello World script unloaded!"@),
                ..old(env)@
            }),
    {
        env.log("Hello World script unloaded!");
    }

    /// Handle one delivery: log the creation and schedule the greeting.
    pub fn on_event(&mut self, env: &mut HostEnv, event: &Event)
        requires
            old(env)@.timers.wf(),
            old(env)@.timers.next_id < u64::MAX,
        ensures
            final(self)@ == hello_state_after_event(old(self)@, old(env)@, event@),
            final(env)@ == hello_env_after_event(old(self)@, old(env)@, event@),
            final(env)@.timers.wf(),
    {
        match event {
            Event::CreateObject(obj) => {
                let line = object_created_message(obj.id, obj.name.as_str());
                env.log(line.as_str());
                let timer_id = env.schedule_timer(GREETING_DELAY_SECONDS, "greeting");
                self.timer_id = Some(timer_id);
                env.log("Scheduled 5-second greeting timer");
                proof {
                    assert(env@ =~= hello_env_after_event(old(self)@, old(env)@, event@));
                }
            },
            _ => {
                proof {
                    assert(env@ =~= hello_env_after_event(old(self)@, old(env)@, event@));
                }
            },
        }
    }

    /// Poll the pending timer; on its first "elapsed" report, greet once
    /// and forget the handle so the greeting cannot repeat.
    pub fn on_tick(&mut self, env: &mut HostEnv, delta_millis: u64)
        requires
            old(env)@.timers.wf(),
        ensures
            final(self)@ == hello_state_after_tick(old(self)@, old(env)@),
            final(env)@ == hello_env_after_tick(old(self)@, old(env)@),
            final(env)@.timers.wf(),
    {
        let _ = delta_millis;
        let fire = match self.timer_id {
            Some(timer_id) => env.check_timer(timer_id),
            None => false,
        };
        if fire {
            env.log("Timer fired! Sending greeting...");
            env.send_chat("Hello from WASM! \u{1f44b}");
            self.timer_id = None;
            proof {
                assert(env@ =~= hello_env_after_tick(old(self)@, old(env)@));
            }
        } else {
            proof {
                assert(env@ =~= hello_env_after_tick(old(self)@, old(env)@));
            }
        }
    }
}

/// Build the object-created diagnostic, exactly [`object_created_line`].
pub fn object_created_message(id: u32, name: &str) -> (r: String)
    ensures
        r@ == object_created_line(ObjectModel { id, name: name@ }),
{
    let mut s = String::from_str("Object created: ");
    s.append(name);
    s.append(" (ID: ");
    let d = u32_to_dec(id);
    s.append(d.as_str());
    s.append(")");
    proof {
        assert(s@ =~= object_created_line(ObjectModel { id, name: name@ }));
    }
    s
}

} // verus!
