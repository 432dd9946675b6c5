//! The dispatch engine: owns the ordered list of loaded script instances
//! and their cached subscription sets, and routes each host event, tick
//! and lifecycle call to them in registration order, single-threaded and
//! synchronous.
//!
//! Every script callback is verified total — it neither panics nor loops —
//! so the engine has no fault path to contain: the containment the
//! contract asks of unverified hosts is established here by proof.

use vstd::prelude::*;

use crate::auto_login::{
    auto_login_env_after, auto_login_state_after, AutoLoginScript,
};
use crate::echo::{echo_env_after_event, EchoScript};
use crate::descriptor::ScriptDescriptor;
use crate::events::{
    Event, EventModel, EVENT_ALL, EVENT_CHARACTER_LIST_RECEIVED, EVENT_CHAT_MESSAGE_RECEIVED,
    EVENT_CREATE_OBJECT,
};
use crate::file_logger::{
    fl_env_after_event, fl_env_after_load, fl_env_after_unload, fl_state_after_load,
    fl_stream_wf, FileLoggerScript,
};
use crate::hello_world::{
    hello_env_after_event, hello_env_after_tick, hello_state_after_event, hello_state_after_tick,
    HelloWorldScript,
};
use crate::host::{EnvModel, HostEnv};
use crate::lemma_vec_deep_view_push;
use crate::lemma_vec_deep_view_update;
use crate::subscription::{sub_matches, SubscriptionSet};
use crate::timers::advance_timers;

verus! {

/// One loaded script instance, whichever of the shipped scripts it is.
/// The set of scripts is closed; dispatch is a match, not reflection.
pub enum AnyScript {
    AutoLogin(AutoLoginScript),
    Echo(EchoScript),
    FileLogger(FileLoggerScript),
    HelloWorld(HelloWorldScript),
}

/// Mathematical abstraction of [`AnyScript`]: each script's own state.
pub enum ScriptModel {
    AutoLogin(bool),
    Echo,
    FileLogger(Option<int>),
    HelloWorld(Option<u64>),
}

impl View for AnyScript {
    type V = ScriptModel;

    open spec fn view(&self) -> ScriptModel {
        match self {
            AnyScript::AutoLogin(s) => ScriptModel::AutoLogin(s@),
            AnyScript::Echo(_) => ScriptModel::Echo,
            AnyScript::FileLogger(s) => ScriptModel::FileLogger(s@),
            AnyScript::HelloWorld(s) => ScriptModel::HelloWorld(s@),
        }
    }
}

/// The stable identifier each script declares, the key the host uses to
/// address it.
pub open spec fn script_id_of(s: ScriptModel) -> Seq<char> {
    match s {
        ScriptModel::AutoLogin(_) => "auto_login_wasm"@,
        ScriptModel::Echo => "echo"@,
        ScriptModel::FileLogger(_) => "file_logger_wasm"@,
        ScriptModel::HelloWorld(_) => "hello_world_wasm"@,
    }
}

/// Whether two script instances are of the same script.
pub open spec fn same_script_kind(a: ScriptModel, b: ScriptModel) -> bool {
    match (a, b) {
        (ScriptModel::AutoLogin(_), ScriptModel::AutoLogin(_)) => true,
        (ScriptModel::Echo, ScriptModel::Echo) => true,
        (ScriptModel::FileLogger(_), ScriptModel::FileLogger(_)) => true,
        (ScriptModel::HelloWorld(_), ScriptModel::HelloWorld(_)) => true,
        _ => false,
    }
}

/// Identity is unique across the shipped scripts: instances of different
/// scripts never share an id, so a host loading at most one instance of
/// each script addresses every loaded instance unambiguously.
pub proof fn lemma_distinct_scripts_have_distinct_ids(a: ScriptModel, b: ScriptModel)
    requires
        !same_script_kind(a, b),
    ensures
        script_id_of(a) != script_id_of(b),
{
    reveal_strlit("auto_login_wasm");
    reveal_strlit("echo");
    reveal_strlit("file_logger_wasm");
    reveal_strlit("hello_world_wasm");
    assert("file_logger_wasm"@[0] != "hello_world_wasm"@[0]);
    assert("auto_login_wasm"@.len() != "echo"@.len());
    assert("auto_login_wasm"@.len() != "file_logger_wasm"@.len());
    assert("auto_login_wasm"@.len() != "hello_world_wasm"@.len());
    assert("echo"@.len() != "file_logger_wasm"@.len());
    assert("echo"@.len() != "hello_world_wasm"@.len());
}

/// The subscription set each script declares, fixed per script.
pub open spec fn subs_of(s: ScriptModel) -> Seq<u32> {
    match s {
        ScriptModel::AutoLogin(_) => seq![EVENT_CHARACTER_LIST_RECEIVED],
        ScriptModel::Echo => seq![EVENT_ALL],
        ScriptModel::FileLogger(_) => seq![EVENT_CHAT_MESSAGE_RECEIVED],
        ScriptModel::HelloWorld(_) => seq![EVENT_CREATE_OBJECT],
    }
}

/// Whether a script's state points only at host resources that exist.
pub open spec fn script_wf(s: ScriptModel, env: EnvModel) -> bool {
    match s {
        ScriptModel::FileLogger(stream) => fl_stream_wf(stream, env),
        _ => true,
    }
}

/// The script state after its load callback.
pub open spec fn state_after_load(s: ScriptModel, env: EnvModel) -> ScriptModel {
    match s {
        ScriptModel::FileLogger(_) => ScriptModel::FileLogger(fl_state_after_load(env)),
        _ => s,
    }
}

/// The environment after a script's load callback.
pub open spec fn env_after_load(s: ScriptModel, env: EnvModel) -> EnvModel {
    match s {
        ScriptModel::AutoLogin(_) => EnvModel {
            diagnostics: env.diagnostics.push("Auto Login script loaded"@),
            ..env
        },
        ScriptModel::Echo => EnvModel {
            diagnostics: env.diagnostics.push("Echo Script loaded!"@),
            ..env
        },
        ScriptModel::FileLogger(_) => fl_env_after_load(env),
        ScriptModel::HelloWorld(_) => EnvModel {
            diagnostics: env.diagnostics.push("Hello World script loaded!"@),
            ..env
        },
    }
}

/// The script state after one event delivery.
pub open spec fn state_after_event(s: ScriptModel, env: EnvModel, ev: EventModel) -> ScriptModel {
    match s {
        ScriptModel::AutoLogin(handled) => ScriptModel::AutoLogin(
            auto_login_state_after(handled, ev),
        ),
        ScriptModel::Echo => ScriptModel::Echo,
        ScriptModel::FileLogger(stream) => ScriptModel::FileLogger(stream),
        ScriptModel::HelloWorld(timer) => ScriptModel::HelloWorld(
            hello_state_after_event(timer, env, ev),
        ),
    }
}

/// The environment after one event delivery to one script.
pub open spec fn env_after_event(s: ScriptModel, env: EnvModel, ev: EventModel) -> EnvModel {
    match s {
        ScriptModel::AutoLogin(handled) => auto_login_env_after(handled, env, ev),
        ScriptModel::Echo => echo_env_after_event(env, ev),
        ScriptModel::FileLogger(stream) => fl_env_after_event(stream, env, ev),
        ScriptModel::HelloWorld(timer) => hello_env_after_event(timer, env, ev),
    }
}

/// The script state after one tick.
pub open spec fn state_after_tick(s: ScriptModel, env: EnvModel) -> ScriptModel {
    match s {
        ScriptModel::HelloWorld(timer) => ScriptModel::HelloWorld(
            hello_state_after_tick(timer, env),
        ),
        _ => s,
    }
}

/// The environment after one tick of one script.
pub open spec fn env_after_tick(s: ScriptModel, env: EnvModel) -> EnvModel {
    match s {
        ScriptModel::HelloWorld(timer) => hello_env_after_tick(timer, env),
        _ => env,
    }
}

/// The environment after a script's unload callback.
pub open spec fn env_after_unload(s: ScriptModel, env: EnvModel) -> EnvModel {
    match s {
        ScriptModel::AutoLogin(_) => EnvModel {
            diagnostics: env.diagnostics.push("Auto Login script unloaded"@),
            ..env
        },
        ScriptModel::Echo => EnvModel {
            diagnostics: env.diagnostics.push("Echo Script unloaded!"@),
            ..env
        },
        ScriptModel::FileLogger(stream) => fl_env_after_unload(stream, env),
        ScriptModel::HelloWorld(_) => EnvModel {
            diagnostics: env.diagnostics.push("Hello World script unloaded!"@),
            ..env
        },
    }
}

impl AnyScript {
    /// Identity of the wrapped script; pure.
    pub fn describe(&self) -> (d: ScriptDescriptor)
        ensures
            d@.id == script_id_of(self@),
    {
        match self {
            AnyScript::AutoLogin(s) => s.describe(),
            AnyScript::Echo(s) => s.describe(),
            AnyScript::FileLogger(s) => s.describe(),
            AnyScript::HelloWorld(s) => s.describe(),
        }
    }

    /// The wrapped script's subscription set.
    pub fn subscribed_events(&self) -> (s: SubscriptionSet)
        ensures
            s@ == subs_of(self@),
    {
        match self {
            AnyScript::AutoLogin(s) => s.subscribed_events(),
            AnyScript::Echo(s) => s.subscribed_events(),
            AnyScript::FileLogger(s) => s.subscribed_events(),
            AnyScript::HelloWorld(s) => s.subscribed_events(),
        }
    }

    /// The load callback, exactly once, before any event or tick.
    pub fn on_load(&mut self, env: &mut HostEnv)
        requires
            old(env)@.wf(),
        ensures
            final(self)@ == state_after_load(old(self)@, old(env)@),
            final(env)@ == env_after_load(old(self)@, old(env)@),
            final(env)@.wf(),
            script_wf(final(self)@, final(env)@),
            forall|s2: ScriptModel| script_wf(s2, old(env)@) ==> script_wf(s2, final(env)@),
            final(env)@.timers.next_id == old(env)@.timers.next_id,
    {
        match self {
            AnyScript::AutoLogin(s) => s.on_load(env),
            AnyScript::Echo(s) => s.on_load(env),
            AnyScript::FileLogger(s) => s.on_load(env),
            AnyScript::HelloWorld(s) => s.on_load(env),
        }
        proof {
            lemma_env_growth_preserves_script_wf(old(env)@, env@);
        }
    }

    /// One event delivery.
    pub fn on_event(&mut self, env: &mut HostEnv, event: &Event)
        requires
            old(env)@.wf(),
            script_wf(old(self)@, old(env)@),
            old(env)@.timers.next_id < u64::MAX,
        ensures
            final(self)@ == state_after_event(old(self)@, old(env)@, event@),
            final(env)@ == env_after_event(old(self)@, old(env)@, event@),
            final(env)@.wf(),
            script_wf(final(self)@, final(env)@),
            forall|s2: ScriptModel| script_wf(s2, old(env)@) ==> script_wf(s2, final(env)@),
            final(env)@.timers.next_id <= old(env)@.timers.next_id + 1,
    {
        match self {
            AnyScript::AutoLogin(s) => s.on_event(env, event),
            AnyScript::Echo(s) => s.on_event(env, event),
            AnyScript::FileLogger(s) => s.on_event(env, event),
            AnyScript::HelloWorld(s) => s.on_event(env, event),
        }
        proof {
            lemma_env_growth_preserves_script_wf(old(env)@, env@);
        }
    }

    /// One tick, with the elapsed time since the previous tick.
    pub fn on_tick(&mut self, env: &mut HostEnv, delta_millis: u64)
        requires
            old(env)@.wf(),
            script_wf(old(self)@, old(env)@),
        ensures
            final(self)@ == state_after_tick(old(self)@, old(env)@),
            final(env)@ == env_after_tick(old(self)@, old(env)@),
            final(env)@.wf(),
            script_wf(final(self)@, final(env)@),
            forall|s2: ScriptModel| script_wf(s2, old(env)@) ==> script_wf(s2, final(env)@),
            final(env)@.timers.next_id == old(env)@.timers.next_id,
    {
        match self {
            AnyScript::AutoLogin(s) => s.on_tick(env, delta_millis),
            AnyScript::Echo(s) => s.on_tick(env, delta_millis),
            AnyScript::FileLogger(s) => s.on_tick(env, delta_millis),
            AnyScript::HelloWorld(s) => s.on_tick(env, delta_millis),
        }
        proof {
            lemma_env_growth_preserves_script_wf(old(env)@, env@);
        }
    }

    /// The unload callback, exactly once, after which the instance drops.
    pub fn on_unload(&mut self, env: &mut HostEnv)
        requires
            old(env)@.wf(),
            script_wf(old(self)@, old(env)@),
        ensures
            final(env)@ == env_after_unload(old(self)@, old(env)@),
            final(env)@.wf(),
            script_wf(final(self)@, final(env)@),
            forall|s2: ScriptModel| script_wf(s2, old(env)@) ==> script_wf(s2, final(env)@),
            final(env)@.timers.next_id == old(env)@.timers.next_id,
    {
        match self {
            AnyScript::AutoLogin(s) => s.on_unload(env),
            AnyScript::Echo(s) => s.on_unload(env),
            AnyScript::FileLogger(s) => s.on_unload(env),
            AnyScript::HelloWorld(s) => s.on_unload(env),
        }
        proof {
            lemma_env_growth_preserves_script_wf(old(env)@, env@);
        }
    }
}

/// Host resources never shrink under any script or host step that keeps
/// the sandbox at least as large: every script state well-formed against
/// the smaller environment stays well-formed.
pub proof fn lemma_env_growth_preserves_script_wf(pre: EnvModel, post: EnvModel)
    requires
        pre.sandbox.files.len() <= post.sandbox.files.len(),
    ensures
        forall|s2: ScriptModel| script_wf(s2, pre) ==> script_wf(s2, post),
{
}

/// One registration entry: the instance and its cached subscription set,
/// queried once at load and treated as fixed from then on.
pub struct Entry {
    pub script: AnyScript,
    pub subs: SubscriptionSet,
}

/// Mathematical abstraction of [`Entry`].
#[verifier::ext_equal]
pub struct EntryModel {
    pub script: ScriptModel,
    pub subs: Seq<u32>,
}

impl View for Entry {
    type V = EntryModel;

    open spec fn view(&self) -> EntryModel {
        EntryModel { script: self.script@, subs: self.subs@ }
    }
}

impl DeepView for Entry {
    type V = EntryModel;

    open spec fn deep_view(&self) -> EntryModel {
        self.view()
    }
}

/// All entries' scripts are well-formed against the environment.
pub open spec fn entries_wf(entries: Seq<EntryModel>, env: EnvModel) -> bool {
    forall|i: int| 0 <= i < entries.len() ==> script_wf(#[trigger] entries[i].script, env)
}

/// Every entry's cached subscription set is the one its script declares.
pub open spec fn entries_subs_cached(entries: Seq<EntryModel>) -> bool {
    forall|i: int| 0 <= i < entries.len() ==> #[trigger] entries[i].subs == subs_of(
        entries[i].script,
    )
}

/// The entries and environment after the event `ev` has been offered to
/// the entries from index `i` on, in order: each entry whose cached
/// subscription set matches the event's kind (or holds the wildcard)
/// handles it against the environment left by its predecessors; entries
/// that did not subscribe are not invoked at all.
pub open spec fn dispatch_from(
    entries: Seq<EntryModel>,
    env: EnvModel,
    ev: EventModel,
    i: int,
) -> (Seq<EntryModel>, EnvModel)
    decreases entries.len() - i
        when 0 <= i <= entries.len()
{
    if i >= entries.len() {
        (entries, env)
    } else if sub_matches(entries[i].subs, ev.kind()) {
        let stepped = EntryModel {
            script: state_after_event(entries[i].script, env, ev),
            subs: entries[i].subs,
        };
        dispatch_from(
            entries.update(i, stepped),
            env_after_event(entries[i].script, env, ev),
            ev,
            i + 1,
        )
    } else {
        dispatch_from(entries, env, ev, i + 1)
    }
}

/// The entries and environment after one tick has been delivered to the
/// entries from index `i` on, in order.
pub open spec fn tick_from(entries: Seq<EntryModel>, env: EnvModel, i: int) -> (
    Seq<EntryModel>,
    EnvModel,
)
    decreases entries.len() - i
        when 0 <= i <= entries.len()
{
    if i >= entries.len() {
        (entries, env)
    } else {
        let stepped = EntryModel {
            script: state_after_tick(entries[i].script, env),
            subs: entries[i].subs,
        };
        tick_from(entries.update(i, stepped), env_after_tick(entries[i].script, env), i + 1)
    }
}

/// The environment after the entries from index `i` on have been unloaded,
/// in order.
pub open spec fn unload_from(entries: Seq<EntryModel>, env: EnvModel, i: int) -> EnvModel
    decreases entries.len() - i
        when 0 <= i <= entries.len()
{
    if i >= entries.len() {
        env
    } else {
        unload_from(entries, env_after_unload(entries[i].script, env), i + 1)
    }
}

/// The dispatch engine: the ordered list of loaded instances, visited in
/// registration order, exclusively owned and mutated only here.
pub struct Engine {
    entries: Vec<Entry>,
}

impl View for Engine {
    type V = Seq<EntryModel>;

    closed spec fn view(&self) -> Seq<EntryModel> {
        self.entries.deep_view()
    }
}

impl Engine {
    /// An engine with no scripts registered.
    pub fn new() -> (e: Engine)
        ensures
            e@ == Seq::<EntryModel>::empty(),
    {
        let e = Engine { entries: Vec::new() };
        proof {
            assert(e@ =~= Seq::<EntryModel>::empty());
        }
        e
    }

    /// How many scripts are loaded.
    pub fn len(&self) -> (n: usize)
        ensures
            n == self@.len(),
    {
        self.entries.len()
    }

    /// Register one constructed instance: call its load callback exactly
    /// once, then query and cache its subscription set, then append it to
    /// the registration order.
    pub fn register(&mut self, env: &mut HostEnv, script: AnyScript)
        requires
            old(env)@.wf(),
            entries_wf(old(self)@, old(env)@),
        ensures
            final(self)@ == old(self)@.push(
                EntryModel {
                    script: state_after_load(script@, old(env)@),
                    subs: subs_of(script@),
                },
            ),
            final(env)@ == env_after_load(script@, old(env)@),
            final(env)@.wf(),
            entries_wf(final(self)@, final(env)@),
            entries_subs_cached(old(self)@) ==> entries_subs_cached(final(self)@),
            final(env)@.timers.next_id == old(env)@.timers.next_id,
    {
        let mut script = script;
        let ghost pre_script = script@;
        script.on_load(env);
        let subs = script.subscribed_events();
        let entry = Entry { script, subs };
        let ghost entryv = entry;
        let ghost pre = self.entries;
        self.entries.push(entry);
        proof {
            lemma_vec_deep_view_push(pre, self.entries, entryv);
            assert(state_after_load(pre_script, old(env)@) == entryv@.script);
            assert(subs_of(pre_script) == subs_of(entryv@.script));
            assert forall|j: int|
                0 <= j < self@.len() implies script_wf(#[trigger] self@[j].script, env@) by {
                if j < old(self)@.len() {
                    assert(self@[j] == old(self)@[j]);
                    assert(script_wf(old(self)@[j].script, old(env)@));
                }
            }
            if entries_subs_cached(old(self)@) {
                assert forall|j: int|
                    0 <= j < self@.len() implies #[trigger] self@[j].subs == subs_of(
                    self@[j].script,
                ) by {
                    if j < old(self)@.len() {
                        assert(self@[j] == old(self)@[j]);
                    }
                }
            }
        }
    }

    /// Deliver one event to every loaded script whose cached subscription
    /// set contains the event's kind or the wildcard, in registration
    /// order. A script that did not subscribe to the kind is not invoked:
    /// its state is untouched and it contributes no effect.
    pub fn dispatch_event(&mut self, env: &mut HostEnv, event: &Event)
        requires
            old(env)@.wf(),
            entries_wf(old(self)@, old(env)@),
            old(env)@.timers.next_id + old(self)@.len() <= u64::MAX,
        ensures
            (final(self)@, final(env)@) == dispatch_from(old(self)@, old(env)@, event@, 0),
            final(env)@.wf(),
            entries_wf(final(self)@, final(env)@),
    {
        self.dispatch_rec(env, event, 0);
    }

    /// Offer the event to the entries from index `i` on.
    fn dispatch_rec(&mut self, env: &mut HostEnv, event: &Event, i: usize)
        requires
            i <= old(self)@.len(),
            old(env)@.wf(),
            entries_wf(old(self)@, old(env)@),
            old(env)@.timers.next_id + (old(self)@.len() - i) <= u64::MAX,
        ensures
            (final(self)@, final(env)@) == dispatch_from(old(self)@, old(env)@, event@, i as int),
            final(env)@.wf(),
            entries_wf(final(self)@, final(env)@),
        decreases old(self)@.len() - i,
    {
        let n = self.entries.len();
        if i == n {
            return;
        }
        proof {
            assert(self@[i as int] == self.entries@[i as int]@);
        }
        let kind = event.kind();
        let matched = self.entries[i].subs.matches(kind);
        if matched {
            let ghost pre = self.entries;
            let ghost pre_model = self@;
            let ghost pre_env = env@;
            {
                let e = &mut self.entries[i];
                e.script.on_event(env, event);
            }
            proof {
                let stepped = EntryModel {
                    script: state_after_event(pre_model[i as int].script, pre_env, event@),
                    subs: pre_model[i as int].subs,
                };
                lemma_vec_deep_view_update(
                    pre,
                    self.entries,
                    i as int,
                    self.entries@[i as int],
                );
                assert(self.entries@[i as int]@ =~= stepped);
                assert(self@ =~= pre_model.update(i as int, stepped));
                assert forall|j: int|
                    0 <= j < self@.len() implies script_wf(#[trigger] self@[j].script, env@) by {
                    if j != i as int {
                        assert(self@[j] == pre_model[j]);
                        assert(script_wf(pre_model[j].script, pre_env));
                    }
                }
            }
            self.dispatch_rec(env, event, i + 1);
        } else {
            self.dispatch_rec(env, event, i + 1);
        }
    }

    /// One host tick: account the elapsed time to the timers, then call
    /// every loaded script's tick callback in registration order — the
    /// only place the passage of time is observable to scripts.
    pub fn tick(&mut self, env: &mut HostEnv, delta_millis: u64)
        requires
            old(env)@.wf(),
            entries_wf(old(self)@, old(env)@),
        ensures
            ({
                let advanced = EnvModel {
                    timers: advance_timers(old(env)@.timers, delta_millis),
                    ..old(env)@
                };
                (final(self)@, final(env)@) == tick_from(old(self)@, advanced, 0)
            }),
            final(env)@.wf(),
            entries_wf(final(self)@, final(env)@),
    {
        env.advance_time(delta_millis);
        proof {
            lemma_env_growth_preserves_script_wf(old(env)@, env@);
        }
        self.tick_rec(env, delta_millis, 0);
    }

    /// Deliver the tick to the entries from index `i` on.
    fn tick_rec(&mut self, env: &mut HostEnv, delta_millis: u64, i: usize)
        requires
            i <= old(self)@.len(),
            old(env)@.wf(),
            entries_wf(old(self)@, old(env)@),
        ensures
            (final(self)@, final(env)@) == tick_from(old(self)@, old(env)@, i as int),
            final(env)@.wf(),
            entries_wf(final(self)@, final(env)@),
        decreases old(self)@.len() - i,
    {
        let n = self.entries.len();
        if i == n {
            return;
        }
        proof {
            assert(self@[i as int] == self.entries@[i as int]@);
        }
        let ghost pre = self.entries;
        let ghost pre_model = self@;
        let ghost pre_env = env@;
        {
            let e = &mut self.entries[i];
            e.script.on_tick(env, delta_millis);
        }
        proof {
            let stepped = EntryModel {
                script: state_after_tick(pre_model[i as int].script, pre_env),
                subs: pre_model[i as int].subs,
            };
            lemma_vec_deep_view_update(pre, self.entries, i as int, self.entries@[i as int]);
            assert(self.entries@[i as int]@ =~= stepped);
            assert(self@ =~= pre_model.update(i as int, stepped));
            assert forall|j: int|
                0 <= j < self@.len() implies script_wf(#[trigger] self@[j].script, env@) by {
                if j != i as int {
                    assert(self@[j] == pre_model[j]);
                    assert(script_wf(pre_model[j].script, pre_env));
                }
            }
        }
        self.tick_rec(env, delta_millis, i + 1);
    }

    /// Shut down: call every loaded script's unload callback exactly once,
    /// in registration order, then drop the instances.
    pub fn shutdown(&mut self, env: &mut HostEnv)
        requires
            old(env)@.wf(),
            entries_wf(old(self)@, old(env)@),
        ensures
            final(self)@ == Seq::<EntryModel>::empty(),
            final(env)@ == unload_from(old(self)@, old(env)@, 0),
            final(env)@.wf(),
    {
        self.unload_rec(env, 0);
        self.entries = Vec::new();
        proof {
            assert(self@ =~= Seq::<EntryModel>::empty());
        }
    }

    /// Unload the entries from index `i` on; their states stay in place
    /// (the caller drops them afterwards).
    fn unload_rec(&mut self, env: &mut HostEnv, i: usize)
        requires
            i <= old(self)@.len(),
            old(env)@.wf(),
            entries_wf(old(self)@, old(env)@),
        ensures
            final(env)@ == unload_from(old(self)@, old(env)@, i as int),
            final(env)@.wf(),
            final(self)@.len() == old(self)@.len(),
        decreases old(self)@.len() - i,
    {
        let n = self.entries.len();
        if i == n {
            return;
        }
        proof {
            assert(self@[i as int] == self.entries@[i as int]@);
        }
        let ghost pre = self.entries;
        let ghost pre_model = self@;
        let ghost pre_env = env@;
        {
            let e = &mut self.entries[i];
            e.script.on_unload(env);
        }
        proof {
            lemma_vec_deep_view_update(pre, self.entries, i as int, self.entries@[i as int]);
            assert forall|j: int|
                0 <= j < self@.len() implies script_wf(#[trigger] self@[j].script, env@) by {
                if j != i as int {
                    assert(self@[j] == pre_model[j]);
                    assert(script_wf(pre_model[j].script, pre_env));
                }
            }
        }
        let ghost mid_model = self@;
        let ghost mid_env = env@;
        self.unload_rec(env, i + 1);
        proof {
            lemma_unload_from_ignores_states(mid_model, pre_model, mid_env, i as int + 1);
            assert(mid_env == env_after_unload(pre_model[i as int].script, pre_env));
        }
    }
}

/// Unloading from index `i` on reads only the entries at `i` and beyond;
/// two entry lists that agree there unload identically.
pub proof fn lemma_unload_from_ignores_states(
    e1: Seq<EntryModel>,
    e2: Seq<EntryModel>,
    env: EnvModel,
    i: int,
)
    requires
        0 <= i <= e1.len(),
        e1.len() == e2.len(),
        forall|j: int| i <= j < e1.len() ==> #[trigger] e1[j].script == e2[j].script,
    ensures
        unload_from(e1, env, i) == unload_from(e2, env, i),
    decreases e1.len() - i,
{
    if i < e1.len() {
        lemma_unload_from_ignores_states(
            e1,
            e2,
            env_after_unload(e1[i].script, env),
            i + 1,
        );
    }
}

/// Dispatch touches neither the registration order nor the cached
/// subscription sets: the entry list keeps its length, and every entry
/// keeps its subscription set.
pub proof fn lemma_dispatch_keeps_shape(
    entries: Seq<EntryModel>,
    env: EnvModel,
    ev: EventModel,
    i: int,
)
    requires
        0 <= i <= entries.len(),
    ensures
        dispatch_from(entries, env, ev, i).0.len() == entries.len(),
        forall|j: int|
            0 <= j < entries.len() ==> #[trigger] dispatch_from(entries, env, ev, i).0[j].subs
                == entries[j].subs,
        forall|j: int|
            0 <= j < i ==> #[trigger] dispatch_from(entries, env, ev, i).0[j] == entries[j],
    decreases entries.len() - i,
{
    if i < entries.len() {
        if sub_matches(entries[i].subs, ev.kind()) {
            let stepped = EntryModel {
                script: state_after_event(entries[i].script, env, ev),
                subs: entries[i].subs,
            };
            lemma_dispatch_keeps_shape(
                entries.update(i, stepped),
                env_after_event(entries[i].script, env, ev),
                ev,
                i + 1,
            );
        } else {
            lemma_dispatch_keeps_shape(entries, env, ev, i + 1);
        }
    }
}

/// The subscription law: a script whose cached subscription set contains
/// neither the event's kind nor the wildcard is never invoked for that
/// event — dispatch leaves its entry, state included, exactly as it was.
pub proof fn lemma_unsubscribed_script_untouched(
    entries: Seq<EntryModel>,
    env: EnvModel,
    ev: EventModel,
    j: int,
)
    requires
        0 <= j < entries.len(),
        !sub_matches(entries[j].subs, ev.kind()),
    ensures
        dispatch_from(entries, env, ev, 0).0[j] == entries[j],
{
    lemma_unsubscribed_from(entries, env, ev, 0, j);
}

/// Helper for [`lemma_unsubscribed_script_untouched`], generalised over
/// the starting index.
pub proof fn lemma_unsubscribed_from(
    entries: Seq<EntryModel>,
    env: EnvModel,
    ev: EventModel,
    i: int,
    j: int,
)
    requires
        0 <= i <= entries.len(),
        0 <= j < entries.len(),
        !sub_matches(entries[j].subs, ev.kind()),
    ensures
        dispatch_from(entries, env, ev, i).0[j] == entries[j],
    decreases entries.len() - i,
{
    if i < entries.len() {
        if sub_matches(entries[i].subs, ev.kind()) {
            let stepped = EntryModel {
                script: state_after_event(entries[i].script, env, ev),
                subs: entries[i].subs,
            };
            lemma_unsubscribed_from(
                entries.update(i, stepped),
                env_after_event(entries[i].script, env, ev),
                ev,
                i + 1,
                j,
            );
        } else {
            lemma_unsubscribed_from(entries, env, ev, i + 1, j);
        }
    } else {
        lemma_dispatch_keeps_shape(entries, env, ev, i);
    }
}

} // verus!
