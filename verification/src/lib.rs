//! A verified runtime contract for lightweight, host-driven plugin scripts.
//!
//! A host application loads script instances, routes game events to the
//! scripts that subscribed to them, drives a periodic tick on which timers
//! are polled, and exposes a narrow capability surface (logging, chat,
//! character login, an append-only sandboxed log file) as the scripts'
//! only way to affect the outside world.

pub mod actions;
pub mod artifact;
pub mod auto_login;
pub mod descriptor;
pub mod echo;
pub mod engine;
pub mod events;
pub mod file_logger;
pub mod guard;
pub mod hello_world;
pub mod host;
pub mod sandbox;
pub mod subscription;
pub mod text;
pub mod timers;

use vstd::prelude::*;

verus! {

/// Updating one element of a vector updates its deep view pointwise.
pub proof fn lemma_vec_deep_view_update<T: DeepView>(pre: Vec<T>, post: Vec<T>, i: int, x: T)
    requires
        0 <= i < pre@.len(),
        post@ == pre@.update(i, x),
    ensures
        post.deep_view() == pre.deep_view().update(i, x.deep_view()),
{
    assert forall|j: int| 0 <= j < post@.len() implies #[trigger] post.deep_view()[j] == pre
        .deep_view().update(i, x.deep_view())[j] by {
        assert(post.deep_view()[j] == post@[j].deep_view());
        assert(pre.deep_view()[j] == pre@[j].deep_view());
    }
    assert(post.deep_view() =~= pre.deep_view().update(i, x.deep_view()));
}

/// Pushing onto a vector pushes onto its deep view.
pub proof fn lemma_vec_deep_view_push<T: DeepView>(pre: Vec<T>, post: Vec<T>, x: T)
    requires
        post@ == pre@.push(x),
    ensures
        post.deep_view() == pre.deep_view().push(x.deep_view()),
{
    assert forall|j: int| 0 <= j < post@.len() implies #[trigger] post.deep_view()[j] == pre
        .deep_view().push(x.deep_view())[j] by {
        assert(post.deep_view()[j] == post@[j].deep_view());
        if j < pre@.len() {
            assert(pre.deep_view()[j] == pre@[j].deep_view());
        }
    }
    assert(post.deep_view() =~= pre.deep_view().push(x.deep_view()));
}

} // verus!
