use vstd::prelude::*;

use std::collections::HashMap;

use crate::AccountId;
use crate::response::{BaseResponse, DataResponse, StatusCode};
use crate::task::{clone_tasks, init_task_view, task_view, tasks_view, Task, TaskView};
use crate::user::{user_view, User, UserView};

verus! {

broadcast use vstd::std_specs::hash::group_hash_axioms;

/// Mathematical state of the whole store: the profile mapping and the
/// task-list mapping, keyed independently by account.
pub ghost struct StoreState {
    pub profiles: Map<AccountId, UserView>,
    pub task_lists: Map<AccountId, Seq<TaskView>>,
}

impl StoreState {
    /// A task list exists only for an account that also has a profile.
    /// (The administrator established at construction has a profile and no
    /// task list; every registered account has both.)
    pub open spec fn wf(self) -> bool {
        forall|a: AccountId| #[trigger]
            self.task_lists.contains_key(a) ==> self.profiles.contains_key(a)
    }
}

/// Registration: insert-if-absent of the profile, coupled with the creation
/// of the account's task list seeded with one placeholder task. On conflict
/// the state is left untouched and the write reports `Duplicate`.
pub open spec fn spec_register(s: StoreState, a: AccountId, u: UserView) -> (StoreState, StatusCode) {
    if s.profiles.contains_key(a) {
        (s, StatusCode::Duplicate)
    } else {
        (
            StoreState {
                profiles: s.profiles.insert(a, u),
                task_lists: s.task_lists.insert(a, seq![init_task_view()]),
            },
            StatusCode::Created,
        )
    }
}

/// Appending a task: allowed only for an account that already has a task
/// list; otherwise the state is left untouched and the write reports
/// `InternalError`.
pub open spec fn spec_add_task(s: StoreState, a: AccountId, t: TaskView) -> (StoreState, StatusCode) {
    if s.task_lists.contains_key(a) {
        (
            StoreState {
                profiles: s.profiles,
                task_lists: s.task_lists.insert(a, s.task_lists[a].push(t)),
            },
            StatusCode::Created,
        )
    } else {
        (s, StatusCode::InternalError)
    }
}

/// Profile lookup: the stored profile, or an explicit absence.
pub open spec fn spec_get_profile(s: StoreState, a: AccountId) -> (StatusCode, Option<UserView>) {
    if s.profiles.contains_key(a) {
        (StatusCode::Success, Some(s.profiles[a]))
    } else {
        (StatusCode::NotFound, None)
    }
}

/// Task-list lookup: the stored list in insertion order, or an explicit
/// absence.
pub open spec fn spec_get_tasks(s: StoreState, a: AccountId) -> (StatusCode, Option<Seq<TaskView>>) {
    if s.task_lists.contains_key(a) {
        (StatusCode::Success, Some(s.task_lists[a]))
    } else {
        (StatusCode::InternalError, None)
    }
}

/// The payload view of a profile read.
pub open spec fn opt_user_view(o: Option<User>) -> Option<UserView> {
    match o {
        Some(u) => Some(u@),
        None => None,
    }
}

/// The payload view of a task-list read.
pub open spec fn opt_tasks_view(o: Option<Vec<Task>>) -> Option<Seq<TaskView>> {
    match o {
        Some(v) => Some(tasks_view(v)),
        None => None,
    }
}

/// The record store: one profile and at most one task list per account.
pub struct TodoContract {
    users: HashMap<AccountId, User>,
    tasks: HashMap<AccountId, Vec<Task>>,
}

impl View for TodoContract {
    type V = StoreState;

    closed spec fn view(&self) -> StoreState {
        StoreState {
            profiles: self.users@.map_values(|u: User| u@),
            task_lists: self.tasks@.map_values(|v: Vec<Task>| tasks_view(v)),
        }
    }
}

impl TodoContract {
    /// Constructor: establishes the administrator profile for the deploying
    /// account. The administrator receives no task list.
    pub fn new(
        admin: AccountId,
        first_name: String,
        last_name: String,
        email: String,
        age: u32,
    ) -> (c: TodoContract)
        ensures
            c@.profiles == Map::<AccountId, UserView>::empty().insert(
                admin,
                user_view(first_name@, last_name@, email@, age),
            ),
            c@.task_lists == Map::<AccountId, Seq<TaskView>>::empty(),
            c@.wf(),
    {
        let ghost u = user_view(first_name@, last_name@, email@, age);
        let mut users: HashMap<AccountId, User> = HashMap::new();
        let tasks: HashMap<AccountId, Vec<Task>> = HashMap::new();
        let profile = User::new(first_name, last_name, email, age);
        users.insert(admin, profile);
        let c = TodoContract { users: users, tasks: tasks };
        proof {
            assert(c@.profiles =~= Map::<AccountId, UserView>::empty().insert(admin, u));
            assert(c@.task_lists =~= Map::<AccountId, Seq<TaskView>>::empty());
        }
        c
    }

    /// Constant liveness probe; touches no state.
    pub fn get_name(&self) -> (r: String)
        ensures
            r@ == "Works"@,
    {
        "Works".to_owned()
    }

    /// Profile read for the given account: `Success` with exactly the stored
    /// profile when one exists, `NotFound` with an absent payload otherwise.
    pub fn get_my_account(&self, account: AccountId) -> (r: DataResponse<User>)
        ensures
            (r.status, opt_user_view(r.data)) == spec_get_profile(self@, account),
    {
        match self.users.get(&account) {
            Some(user) => DataResponse { status: StatusCode::Success, data: Some(user.get_user()) },
            None => DataResponse { status: StatusCode::NotFound, data: None },
        }
    }

    /// Onboarding: inserts the profile and the seeded task list together, or
    /// rejects the write as `Duplicate` and changes nothing.
    pub fn register_user(
        &mut self,
        account: AccountId,
        first_name: String,
        last_name: String,
        email: String,
        age: u32,
    ) -> (r: BaseResponse)
        ensures
            final(self)@ == spec_register(
                old(self)@,
                account,
                user_view(first_name@, last_name@, email@, age),
            ).0,
            r.status == spec_register(
                old(self)@,
                account,
                user_view(first_name@, last_name@, email@, age),
            ).1,
    {
        if self.users.contains_key(&account) {
            BaseResponse { status: StatusCode::Duplicate }
        } else {
            let ghost u = user_view(first_name@, last_name@, email@, age);
            let profile = User::new(first_name, last_name, email, age);
            let mut initial_tasks: Vec<Task> = Vec::new();
            initial_tasks.push(Task::new());
            proof {
                assert(tasks_view(initial_tasks) =~= seq![init_task_view()]);
            }
            self.users.insert(account, profile);
            self.tasks.insert(account, initial_tasks);
            proof {
                assert(self@.profiles =~= old(self)@.profiles.insert(account, u));
                assert(self@.task_lists =~= old(self)@.task_lists.insert(
                    account,
                    seq![init_task_view()],
                ));
            }
            BaseResponse { status: StatusCode::Created }
        }
    }

    /// Task append for the given account: requires an existing task list,
    /// appends one not-yet-done task at its end as one atomic replace, and
    /// otherwise reports `InternalError` and changes nothing.
    pub fn add_task(&mut self, account: AccountId, task_name: String, task_date: String) -> (r:
        BaseResponse)
        ensures
            final(self)@ == spec_add_task(old(self)@, account, task_view(task_name@, task_date@)).0,
            r.status == spec_add_task(old(self)@, account, task_view(task_name@, task_date@)).1,
    {
        match self.tasks.remove(&account) {
            Some(mut my_tasks) => {
                let ghost t = task_view(task_name@, task_date@);
                my_tasks.push(Task::create(task_name, task_date));
                proof {
                    assert(tasks_view(my_tasks) =~= old(self)@.task_lists[account].push(t));
                }
                self.tasks.insert(account, my_tasks);
                proof {
                    assert(self@.task_lists =~= old(self)@.task_lists.insert(
                        account,
                        old(self)@.task_lists[account].push(t),
                    ));
                    assert(self@.profiles =~= old(self)@.profiles);
                }
                BaseResponse { status: StatusCode::Created }
            },
            None => {
                proof {
                    assert(self@.task_lists =~= old(self)@.task_lists);
                    assert(self@.profiles =~= old(self)@.profiles);
                }
                BaseResponse { status: StatusCode::InternalError }
            },
        }
    }

    /// Task-list read for the given account: `Success` with the stored list
    /// in insertion order when one exists, an error envelope with an absent
    /// payload otherwise.
    pub fn get_my_tasks(&self, account: AccountId) -> (r: DataResponse<Vec<Task>>)
        ensures
            (r.status, opt_tasks_view(r.data)) == spec_get_tasks(self@, account),
    {
        match self.tasks.get(&account) {
            Some(list) => DataResponse { status: StatusCode::Success, data: Some(clone_tasks(list)) },
            None => DataResponse { status: StatusCode::InternalError, data: None },
        }
    }
}

} // verus!
