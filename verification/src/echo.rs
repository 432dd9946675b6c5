//! The echo script: subscribes to the wildcard kind and logs a one-line
//! summary of every event it receives, for debugging.

use vstd::prelude::*;

use crate::descriptor::ScriptDescriptor;
use crate::events::{Event, EventModel, EVENT_ALL};
use crate::host::{EnvModel, HostEnv};
use crate::subscription::SubscriptionSet;
use crate::text::{dec_rep, u32_to_dec, u64_to_dec};

verus! {

/// The one-line summary the echo script logs for an event.
pub open spec fn event_summary(ev: EventModel) -> Seq<char> {
    match ev {
        EventModel::CharacterListReceived(a) => "CharacterListReceived(account: "@ + a.name
            + ", characters: "@ + dec_rep(a.character_list.len() as nat) + ")"@,
        EventModel::CreateObject(o) => "CreateObject(id: "@ + dec_rep(o.id as nat) + ", name: "@
            + o.name + ")"@,
        EventModel::ChatMessageReceived(c) => "ChatMessageReceived(channel: "@ + dec_rep(
            c.channel as nat,
        ) + ", message: "@ + c.message + ")"@,
    }
}

/// The environment after the echo script has handled `ev`: exactly one
/// diagnostic line, the event's summary, is appended; nothing else moves.
pub open spec fn echo_env_after_event(env: EnvModel, ev: EventModel) -> EnvModel {
    EnvModel { diagnostics: env.diagnostics.push(event_summary(ev)), ..env }
}

/// The echo script instance. It keeps no state of its own.
pub struct EchoScript {}

impl View for EchoScript {
    type V = ();

    open spec fn view(&self) -> () {
        ()
    }
}

impl EchoScript {
    /// A fresh instance, as the host constructs it: no external input.
    pub fn new() -> (s: EchoScript) {
        EchoScript {}
    }

    /// Identity; pure and callable at any time.
    pub fn describe(&self) -> (d: ScriptDescriptor)
        ensures
            d@.id == "echo"@,
            d@.name == "Echo Script (WASM)"@,
            d@.description == "Echoes all events received by the scripting system for debugging purposes"@,
    {
        ScriptDescriptor {
            id: String::from_str("echo"),
            name: String::from_str("Echo Script (WASM)"),
            description: String::from_str(
                "Echoes all events received by the scripting system for debugging purposes",
            ),
        }
    }

    /// The subscription set, queried once right after load: everything.
    pub fn subscribed_events(&self) -> (s: SubscriptionSet)
        ensures
            s@ == seq![EVENT_ALL],
    {
        let mut kinds: Vec<u32> = Vec::new();
        kinds.push(EVENT_ALL);
        proof {
            assert(kinds@ =~= seq![EVENT_ALL]);
        }
        SubscriptionSet::from_kinds(kinds)
    }

    /// Lifecycle: announce the load.
    pub fn on_load(&mut self, env: &mut HostEnv)
        ensures
            final(self)@ == old(self)@,
            final(env)@ == (EnvModel {
                diagnostics: old(env)@.diagnostics.push("Echo Script loaded!"@),
                ..old(env)@
            }),
    {
        env.log("Echo Script loaded!");
    }

    /// Lifecycle: announce the unload; nothing to release.
    pub fn on_unload(&mut self, env: &mut HostEnv)
        ensures
            final(self)@ == old(self)@,
            final(env)@ == (EnvModel {
                diagnostics: old(env)@.diagnostics.push("Echo Script unloaded!"@),
                ..old(env)@
            }),
    {
        env.log("Echo Script unloaded!");
    }

    /// Log the event's summary.
    pub fn on_event(&mut self, env: &mut HostEnv, event: &Event)
        ensures
            final(self)@ == old(self)@,
            final(env)@ == echo_env_after_event(old(env)@, event@),
    {
        let line = event_summary_message(event);
        env.log(line.as_str());
    }

    /// Ticks carry no periodic work for this script.
    pub fn on_tick(&mut self, env: &mut HostEnv, delta_millis: u64)
        ensures
            final(self)@ == old(self)@,
            final(env)@ == old(env)@,
    {
        let _ = env;
        let _ = delta_millis;
    }
}

/// Build the summary line, exactly [`event_summary`].
pub fn event_summary_message(event: &Event) -> (r: String)
    ensures
        r@ == event_summary(event@),
{
    match event {
        Event::CharacterListReceived(a) => {
            let mut s = String::from_str("CharacterListReceived(account: ");
            s.append(a.name.as_str());
            s.append(", characters: ");
            let n = u64_to_dec(a.character_list.len() as u64);
            s.append(n.as_str());
            s.append(")");
            proof {
                assert(s@ =~= event_summary(event@));
            }
            s
        },
        Event::CreateObject(o) => {
            let mut s = String::from_str("CreateObject(id: ");
            let id = u32_to_dec(o.id);
            s.append(id.as_str());
            s.append(", name: ");
            s.append(o.name.as_str());
            s.append(")");
            proof {
                assert(s@ =~= event_summary(event@));
            }
            s
        },
        Event::ChatMessageReceived(c) => {
            let mut s = String::from_str("ChatMessageReceived(channel: ");
            let ch = u32_to_dec(c.channel);
            s.append(ch.as_str());
            s.append(", message: ");
            s.append(c.message.as_str());
            s.append(")");
            proof {
                assert(s@ =~= event_summary(event@));
            }
            s
        },
    }
}

} // verus!
