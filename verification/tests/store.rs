use todo_contract::response::StatusCode;
use todo_contract::task::Task;
use todo_contract::user::User;
use todo_contract::TodoContract;

const ADMIN: u64 = 1;
const B: u64 = 2;
const UNKNOWN: u64 = 77;

fn admin_contract() -> TodoContract {
    TodoContract::new(
        ADMIN,
        String::from("Admin"),
        String::from("Root"),
        String::from("admin@x.io"),
        40,
    )
}

fn register_b(c: &mut TodoContract) {
    let r = c.register_user(
        B,
        String::from("A"),
        String::from("B"),
        String::from("a@b.io"),
        20,
    );
    assert_eq!(r.status, StatusCode::Created);
}

fn init_task() -> Task {
    Task {
        task_name: String::from("Init"),
        task_date: String::from("Init"),
        is_done: false,
    }
}

#[test]
fn register_then_read_profile_and_tasks() {
    let mut c = admin_contract();
    register_b(&mut c);

    let p = c.get_my_account(B);
    assert_eq!(p.status, StatusCode::Success);
    let expected = User {
        first_name: String::from("A"),
        last_name: String::from("B"),
        email: String::from("a@b.io"),
        age: 20,
    };
    assert_eq!(p.data, Some(expected));

    let t = c.get_my_tasks(B);
    assert_eq!(t.status, StatusCode::Success);
    let list = t.data.unwrap();
    assert_eq!(list.len(), 1);
    assert!(!list[0].is_done);
    assert_eq!(list[0], init_task());
}

#[test]
fn register_duplicate_leaves_records_unchanged() {
    let mut c = admin_contract();
    register_b(&mut c);

    let second = c.register_user(
        B,
        String::from("Other"),
        String::from("Name"),
        String::from("other@x.io"),
        99,
    );
    assert_eq!(second.status, StatusCode::Duplicate);

    let p = c.get_my_account(B);
    assert_eq!(p.status, StatusCode::Success);
    let u = p.data.unwrap();
    assert_eq!(u.first_name, "A");
    assert_eq!(u.last_name, "B");
    assert_eq!(u.email, "a@b.io");
    assert_eq!(u.age, 20);

    let t = c.get_my_tasks(B);
    assert_eq!(t.status, StatusCode::Success);
    assert_eq!(t.data.unwrap(), vec![init_task()]);
}

#[test]
fn add_task_unregistered_creates_nothing() {
    let mut c = admin_contract();
    let r = c.add_task(UNKNOWN, String::from("x"), String::from("y"));
    assert_eq!(r.status, StatusCode::InternalError);

    let t = c.get_my_tasks(UNKNOWN);
    assert_ne!(t.status, StatusCode::Success);
    assert_eq!(t.data, None);
}

#[test]
fn add_task_twice_appends_in_order() {
    let mut c = admin_contract();
    register_b(&mut c);

    let r1 = c.add_task(B, String::from("task1"), String::from("2024-01-01"));
    assert_eq!(r1.status, StatusCode::Created);
    let r2 = c.add_task(B, String::from("task2"), String::from("2024-01-02"));
    assert_eq!(r2.status, StatusCode::Created);

    let t = c.get_my_tasks(B);
    assert_eq!(t.status, StatusCode::Success);
    let list = t.data.unwrap();
    assert_eq!(list.len(), 3);
    assert_eq!(list[0], init_task());
    assert_eq!(list[1].task_name, "task1");
    assert_eq!(list[1].task_date, "2024-01-01");
    assert!(!list[1].is_done);
    assert_eq!(list[2].task_name, "task2");
    assert_eq!(list[2].task_date, "2024-01-02");
    assert!(!list[2].is_done);
}

#[test]
fn reads_on_unknown_account_never_succeed() {
    let c = admin_contract();

    let p = c.get_my_account(UNKNOWN);
    assert_eq!(p.status, StatusCode::NotFound);
    assert_eq!(p.data, None);

    let t = c.get_my_tasks(UNKNOWN);
    assert_eq!(t.status, StatusCode::InternalError);
    assert_eq!(t.data, None);
}

#[test]
fn reads_are_idempotent() {
    let mut c = admin_contract();
    register_b(&mut c);
    c.add_task(B, String::from("one"), String::from("2024-02-02"));

    assert_eq!(c.get_my_account(B), c.get_my_account(B));
    assert_eq!(c.get_my_tasks(B), c.get_my_tasks(B));
    assert_eq!(c.get_my_account(UNKNOWN), c.get_my_account(UNKNOWN));
    assert_eq!(c.get_my_tasks(UNKNOWN), c.get_my_tasks(UNKNOWN));
}

#[test]
fn full_scenario() {
    let mut c = admin_contract();

    let reg = c.register_user(
        B,
        String::from("A"),
        String::from("B"),
        String::from("a@b.io"),
        20,
    );
    assert_eq!(reg.status, StatusCode::Created);

    let add = c.add_task(B, String::from("buy milk"), String::from("2024-01-01"));
    assert_eq!(add.status, StatusCode::Created);

    let t = c.get_my_tasks(B);
    assert_eq!(t.status, StatusCode::Success);
    let list = t.data.unwrap();
    let expected = vec![
        init_task(),
        Task {
            task_name: String::from("buy milk"),
            task_date: String::from("2024-01-01"),
            is_done: false,
        },
    ];
    assert_eq!(list, expected);
}

#[test]
fn admin_has_profile_but_no_task_list() {
    let c = admin_contract();

    let p = c.get_my_account(ADMIN);
    assert_eq!(p.status, StatusCode::Success);
    let u = p.data.unwrap();
    assert_eq!(u.first_name, "Admin");
    assert_eq!(u.last_name, "Root");
    assert_eq!(u.email, "admin@x.io");
    assert_eq!(u.age, 40);

    let t = c.get_my_tasks(ADMIN);
    assert_eq!(t.status, StatusCode::InternalError);
    assert_eq!(t.data, None);
}

#[test]
fn get_name_is_constant_probe() {
    let c = admin_contract();
    assert_eq!(c.get_name(), "Works");
    assert_eq!(c.get_name(), "Works");
}
