use vstd::prelude::*;

use crate::contract::{
    spec_add_task, spec_get_profile, spec_get_tasks, spec_register, StoreState,
};
use crate::response::StatusCode;
use crate::task::{init_task_view, TaskView};
use crate::user::UserView;
use crate::AccountId;

verus! {

/// Onboarding is visible and all-or-nothing: after a registration that is
/// not a duplicate, the write reports `Created`, the profile read returns
/// `Success` with exactly the submitted fields, and the task-list read
/// returns `Success` with a one-element list whose task is the placeholder
/// and not yet done. Profile and task list land together: neither exists
/// without the other.
pub proof fn lemma_register_success_reads(s: StoreState, a: AccountId, u: UserView)
    requires
        !s.profiles.contains_key(a),
    ensures
        spec_register(s, a, u).1 == StatusCode::Created,
        spec_get_profile(spec_register(s, a, u).0, a) == ((StatusCode::Success, Some(u))),
        spec_get_tasks(spec_register(s, a, u).0, a) == ((
            StatusCode::Success,
            Some(seq![init_task_view()]),
        )),
        !init_task_view().is_done,
        spec_register(s, a, u).0.profiles.contains_key(a),
        spec_register(s, a, u).0.task_lists.contains_key(a),
{
}

/// Registering an account that already has a profile is rejected as
/// `Duplicate` and leaves the whole state untouched.
pub proof fn lemma_register_duplicate(s: StoreState, a: AccountId, u: UserView)
    requires
        s.profiles.contains_key(a),
    ensures
        spec_register(s, a, u) == ((s, StatusCode::Duplicate)),
{
}

/// Registering the same account twice: the second call reports `Duplicate`
/// and leaves the state produced by the first call unchanged, so the first
/// profile and its task list survive as written.
pub proof fn lemma_register_twice(s: StoreState, a: AccountId, u1: UserView, u2: UserView)
    requires
        !s.profiles.contains_key(a),
    ensures
        spec_register(spec_register(s, a, u1).0, a, u2) == ((
            spec_register(s, a, u1).0,
            StatusCode::Duplicate,
        )),
        spec_register(s, a, u1).0.profiles[a] == u1,
        spec_register(s, a, u1).0.task_lists[a] == seq![init_task_view()],
{
}

/// Appending a task for an account that never registered reports
/// `InternalError`, leaves the whole state untouched, and in particular
/// creates no partial task list for that account.
pub proof fn lemma_add_task_unregistered(s: StoreState, a: AccountId, t: TaskView)
    requires
        s.wf(),
        !s.profiles.contains_key(a),
    ensures
        spec_add_task(s, a, t) == ((s, StatusCode::InternalError)),
        !spec_add_task(s, a, t).0.task_lists.contains_key(a),
{
    assert(!s.task_lists.contains_key(a));
}

/// Two appends for a registered account land in submission order: the task
/// list afterwards is the old list followed by the first task, then the
/// second, and the task-list read returns exactly that list.
pub proof fn lemma_add_task_order(s: StoreState, a: AccountId, t1: TaskView, t2: TaskView)
    requires
        s.task_lists.contains_key(a),
    ensures
        spec_add_task(s, a, t1).1 == StatusCode::Created,
        spec_add_task(spec_add_task(s, a, t1).0, a, t2).1 == StatusCode::Created,
        spec_get_tasks(spec_add_task(spec_add_task(s, a, t1).0, a, t2).0, a) == ((
            StatusCode::Success,
            Some(s.task_lists[a] + seq![t1, t2]),
        )),
{
    assert(s.task_lists[a].push(t1).push(t2) =~= s.task_lists[a] + seq![t1, t2]);
}

/// Reads on an account without records never report `Success`: the profile
/// read returns `NotFound` with an absent payload, the task-list read an
/// error envelope with an absent payload.
pub proof fn lemma_reads_unknown(s: StoreState, a: AccountId)
    requires
        s.wf(),
        !s.profiles.contains_key(a),
    ensures
        spec_get_profile(s, a) == ((StatusCode::NotFound, None::<UserView>)),
        spec_get_tasks(s, a) == ((StatusCode::InternalError, None::<Seq<TaskView>>)),
        spec_get_profile(s, a).0 != StatusCode::Success,
        spec_get_tasks(s, a).0 != StatusCode::Success,
{
    assert(!s.task_lists.contains_key(a));
}

/// Registration preserves well-formedness: it never creates a task list for
/// an account without a profile.
pub proof fn lemma_register_preserves_wf(s: StoreState, a: AccountId, u: UserView)
    requires
        s.wf(),
    ensures
        spec_register(s, a, u).0.wf(),
{
}

/// Appending a task preserves well-formedness.
pub proof fn lemma_add_task_preserves_wf(s: StoreState, a: AccountId, t: TaskView)
    requires
        s.wf(),
    ensures
        spec_add_task(s, a, t).0.wf(),
{
}

} // verus!
