use vstd::prelude::*;

verus! {

/// Mathematical image of a work item.
pub ghost struct TaskView {
    pub task_name: Seq<char>,
    pub task_date: Seq<char>,
    pub is_done: bool,
}

/// The view a freshly created task with the given name and date has:
/// nothing in scope ever flips `is_done`, so it is `false` at creation.
pub open spec fn task_view(task_name: Seq<char>, task_date: Seq<char>) -> TaskView {
    TaskView { task_name: task_name, task_date: task_date, is_done: false }
}

/// The placeholder task that seeds every fresh task list.
pub open spec fn init_task_view() -> TaskView {
    task_view("Init"@, "Init"@)
}

/// A work item. `task_date` is opaque text: no calendar validation is done.
#[derive(Debug, PartialEq, Eq)]
pub struct Task {
    pub task_name: String,
    pub task_date: String,
    pub is_done: bool,
}

impl View for Task {
    type V = TaskView;

    open spec fn view(&self) -> TaskView {
        TaskView {
            task_name: self.task_name@,
            task_date: self.task_date@,
            is_done: self.is_done,
        }
    }
}

impl Task {
    /// The placeholder task every fresh task list starts with.
    pub fn new() -> (t: Task)
        ensures
            t@ == init_task_view(),
    {
        Task { task_name: "Init".to_owned(), task_date: "Init".to_owned(), is_done: false }
    }

    /// A new, not yet done task with the given name and date.
    pub fn create(task_name: String, task_date: String) -> (t: Task)
        ensures
            t@ == task_view(task_name@, task_date@),
    {
        Task { task_name: task_name, task_date: task_date, is_done: false }
    }

    /// An owned copy of the record, field for field.
    pub fn get_task(&self) -> (t: Task)
        ensures
            t@ == self@,
    {
        Task {
            task_name: self.task_name.clone(),
            task_date: self.task_date.clone(),
            is_done: self.is_done,
        }
    }
}

/// The sequence of task views a stored task list stands for.
pub open spec fn tasks_view(v: Vec<Task>) -> Seq<TaskView> {
    v@.map_values(|t: Task| t@)
}

/// A copy of a whole task list, task for task and in the same order.
pub fn clone_tasks(v: &Vec<Task>) -> (r: Vec<Task>)
    ensures
        tasks_view(r) == tasks_view(*v),
{
    let mut r: Vec<Task> = Vec::new();
    let mut i: usize = 0;
    while i < v.len()
        invariant
            i <= v@.len(),
            r@.len() == i,
            forall|j: int| 0 <= j < i ==> r@[j]@ == v@[j]@,
        decreases v@.len() - i,
    {
        let t = v[i].get_task();
        r.push(t);
        i = i + 1;
    }
    proof {
        assert(tasks_view(r) =~= tasks_view(*v));
    }
    r
}

} // verus!
