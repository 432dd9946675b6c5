//! The auto-login script: on the first character list received it logs in
//! the first available character, guarded so that redelivered events can
//! never issue a second login.

use vstd::prelude::*;

use crate::actions::LoginModel;
use crate::descriptor::ScriptDescriptor;
use crate::events::{
    CharacterInfo, CharacterModel, Event, EventModel, EVENT_CHARACTER_LIST_RECEIVED,
};
use crate::guard::SingleFireGuard;
use crate::host::{EnvModel, HostEnv};
use crate::subscription::SubscriptionSet;
use crate::text::{dec_rep, u32_to_dec};

verus! {

/// The diagnostic line logged when the account has no characters.
pub open spec fn no_characters_line(account: Seq<char>) -> Seq<char> {
    "Auto Login: No characters found on account '"@ + account + "'. Cannot auto-login."@
}

/// The diagnostic line logged before the login request is issued.
pub open spec fn logging_in_line(c: CharacterModel) -> Seq<char> {
    "Auto Login: Logging in as first character '"@ + c.name + "' (ID: "@ + dec_rep(c.id as nat)
        + ")"@
}

/// The guard state after the script has handled `ev`: any character-list
/// event claims the guard; every other event leaves it alone.
pub open spec fn auto_login_state_after(handled: bool, ev: EventModel) -> bool {
    match ev {
        EventModel::CharacterListReceived(_) => true,
        _ => handled,
    }
}

/// The diagnostic lines one delivery appends: none once handled, the
/// no-characters line for an empty list, else the logging-in line.
pub open spec fn auto_login_diag(handled: bool, ev: EventModel) -> Seq<Seq<char>> {
    match ev {
        EventModel::CharacterListReceived(a) => if handled {
            Seq::<Seq<char>>::empty()
        } else if a.character_list.len() == 0 {
            seq![no_characters_line(a.name)]
        } else {
            seq![logging_in_line(a.character_list[0])]
        },
        _ => Seq::<Seq<char>>::empty(),
    }
}

/// The login requests one delivery issues: exactly one — for the first
/// character of the list — on the first delivery with a non-empty list,
/// and none in every other case.
pub open spec fn auto_login_logins(handled: bool, ev: EventModel) -> Seq<LoginModel> {
    match ev {
        EventModel::CharacterListReceived(a) => if !handled && a.character_list.len() > 0 {
            seq![
                LoginModel {
                    account: a.name,
                    character_id: a.character_list[0].id,
                    character_name: a.character_list[0].name,
                },
            ]
        } else {
            Seq::<LoginModel>::empty()
        },
        _ => Seq::<LoginModel>::empty(),
    }
}

/// The environment after one delivery: the diagnostic lines and login
/// requests above are appended; nothing else moves.
pub open spec fn auto_login_env_after(handled: bool, env: EnvModel, ev: EventModel) -> EnvModel {
    EnvModel {
        diagnostics: env.diagnostics + auto_login_diag(handled, ev),
        logins: env.logins + auto_login_logins(handled, ev),
        ..env
    }
}

/// The auto-login script instance: a single-fire guard is its whole state.
pub struct AutoLoginScript {
    guard: SingleFireGuard,
}

impl View for AutoLoginScript {
    type V = bool;

    closed spec fn view(&self) -> bool {
        self.guard.spec_fired()
    }
}

impl AutoLoginScript {
    /// A fresh instance: the guard unclaimed.
    pub fn new() -> (s: AutoLoginScript)
        ensures
            !s@,
    {
        AutoLoginScript { guard: SingleFireGuard::new() }
    }

    /// Identity; pure and callable at any time.
    pub fn describe(&self) -> (d: ScriptDescriptor)
        ensures
            d@.id == "auto_login_wasm"@,
            d@.name == "Auto Login (WASM)"@,
            d@.description
                == "Automatically logs in using the first available character. Errors if no characters exist."@,
    {
        ScriptDescriptor {
            id: String::from_str("auto_login_wasm"),
            name: String::from_str("Auto Login (WASM)"),
            description: String::from_str(
                "Automatically logs in using the first available character. Errors if no characters exist.",
            ),
        }
    }

    /// The subscription set, queried once: character-list events only.
    pub fn subscribed_events(&self) -> (s: SubscriptionSet)
        ensures
            s@ == seq![EVENT_CHARACTER_LIST_RECEIVED],
    {
        let mut kinds: Vec<u32> = Vec::new();
        kinds.push(EVENT_CHARACTER_LIST_RECEIVED);
        proof {
            assert(kinds@ =~= seq![EVENT_CHARACTER_LIST_RECEIVED]);
        }
        SubscriptionSet::from_kinds(kinds)
    }

    /// Lifecycle: announce the load.
    pub fn on_load(&mut self, env: &mut HostEnv)
        ensures
            final(self)@ == old(self)@,
            final(env)@ == (EnvModel {
                diagnostics: old(env)@.diagnostics.push("Auto Login script loaded"@),
                ..old(env)@
            }),
    {
        env.log("Auto Login script loaded");
    }

    /// Lifecycle: announce the unload; nothing to release.
    pub fn on_unload(&mut self, env: &mut HostEnv)
        ensures
            final(self)@ == old(self)@,
            final(env)@ == (EnvModel {
                diagnostics: old(env)@.diagnostics.push("Auto Login script unloaded"@),
                ..old(env)@
            }),
    {
        env.log("Auto Login script unloaded");
    }

    /// Handle one delivery. The guard is claimed *before* the irreversible
    /// login request, so a redelivered list can never log in twice.
    pub fn on_event(&mut self, env: &mut HostEnv, event: &Event)
        ensures
            final(self)@ == auto_login_state_after(old(self)@, event@),
            final(env)@ == auto_login_env_after(old(self)@, old(env)@, event@),
    {
        match event {
            Event::CharacterListReceived(account) => {
                let first_time = self.guard.test_and_set();
                if !first_time {
                    proof {
                        assert(env@ =~= auto_login_env_after(old(self)@, old(env)@, event@));
                    }
                    return;
                }
                if account.character_list.len() == 0 {
                    let line = no_characters_message(account.name.as_str());
                    env.log(line.as_str());
                    proof {
                        assert(env@ =~= auto_login_env_after(old(self)@, old(env)@, event@));
                    }
                    return;
                }
                let first = &account.character_list[0];
                proof {
                    assert(first@ == account@.character_list[0]);
                }
                let line = logging_in_message(first);
                env.log(line.as_str());
                env.login_character(account.name.as_str(), first.id, first.name.as_str());
                proof {
                    assert(env@ =~= auto_login_env_after(old(self)@, old(env)@, event@));
                }
            },
            _ => {
                proof {
                    assert(env@ =~= auto_login_env_after(old(self)@, old(env)@, event@));
                }
            },
        }
    }

    /// Ticks carry no periodic work for this script.
    pub fn on_tick(&mut self, env: &mut HostEnv, delta_millis: u64)
        ensures
            final(self)@ == old(self)@,
            final(env)@ == old(env)@,
    {
        let _ = env;
        let _ = delta_millis;
    }
}

/// Build the no-characters diagnostic, exactly [`no_characters_line`].
pub fn no_characters_message(account: &str) -> (r: String)
    ensures
        r@ == no_characters_line(account@),
{
    let mut s = String::from_str("Auto Login: No characters found on account '");
    s.append(account);
    s.append("'. Cannot auto-login.");
    proof {
        assert(s@ =~= no_characters_line(account@));
    }
    s
}

/// Build the logging-in diagnostic, exactly [`logging_in_line`].
pub fn logging_in_message(character: &CharacterInfo) -> (r: String)
    ensures
        r@ == logging_in_line(character@),
{
    let mut s = String::from_str("Auto Login: Logging in as first character '");
    s.append(character.name.as_str());
    s.append("' (ID: ");
    let id = u32_to_dec(character.id);
    s.append(id.as_str());
    s.append(")");
    proof {
        assert(s@ =~= logging_in_line(character@));
    }
    s
}

/// The login requests a whole run of deliveries issues, starting from
/// guard state `handled`.
pub open spec fn auto_login_run_logins(handled: bool, evs: Seq<EventModel>) -> Seq<LoginModel>
    decreases evs.len(),
{
    if evs.len() == 0 {
        Seq::<LoginModel>::empty()
    } else {
        auto_login_logins(handled, evs[0]) + auto_login_run_logins(
            auto_login_state_after(handled, evs[0]),
            evs.drop_first(),
        )
    }
}

/// Once the guard is claimed, no run of further deliveries issues a login.
pub proof fn lemma_auto_login_spent_guard_is_silent(evs: Seq<EventModel>)
    ensures
        auto_login_run_logins(true, evs).len() == 0,
    decreases evs.len(),
{
    if evs.len() > 0 {
        lemma_auto_login_spent_guard_is_silent(evs.drop_first());
    }
}

/// The single-fire law: over any run of deliveries within one loaded
/// lifetime — the same triggering event repeated, or any mixture of
/// events — the irreversible login action is issued at most once.
pub proof fn lemma_auto_login_single_fire(handled: bool, evs: Seq<EventModel>)
    ensures
        auto_login_run_logins(handled, evs).len() <= 1,
        handled ==> auto_login_run_logins(handled, evs).len() == 0,
    decreases evs.len(),
{
    if evs.len() == 0 {
    } else if handled {
        lemma_auto_login_spent_guard_is_silent(evs);
    } else {
        match evs[0] {
            EventModel::CharacterListReceived(_) => {
                lemma_auto_login_spent_guard_is_silent(evs.drop_first());
            },
            _ => {
                lemma_auto_login_single_fire(false, evs.drop_first());
            },
        }
    }
}

} // verus!
