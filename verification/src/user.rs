use vstd::prelude::*;

verus! {

/// Mathematical image of a stored profile: the field views, nothing more.
pub ghost struct UserView {
    pub first_name: Seq<char>,
    pub last_name: Seq<char>,
    pub email: Seq<char>,
    pub age: u32,
}

/// The view a profile built from the given fields has.
pub open spec fn user_view(
    first_name: Seq<char>,
    last_name: Seq<char>,
    email: Seq<char>,
    age: u32,
) -> UserView {
    UserView { first_name: first_name, last_name: last_name, email: email, age: age }
}

/// An identity profile. The store performs no format validation on the
/// strings; `age` is a plain non-negative integer.
#[derive(Debug, PartialEq, Eq)]
pub struct User {
    pub first_name: String,
    pub last_name: String,
    pub email: String,
    pub age: u32,
}

impl View for User {
    type V = UserView;

    open spec fn view(&self) -> UserView {
        UserView {
            first_name: self.first_name@,
            last_name: self.last_name@,
            email: self.email@,
            age: self.age,
        }
    }
}

impl User {
    /// A profile holding exactly the given fields.
    pub fn new(first_name: String, last_name: String, email: String, age: u32) -> (u: User)
        ensures
            u@ == user_view(first_name@, last_name@, email@, age),
    {
        User { first_name: first_name, last_name: last_name, email: email, age: age }
    }

    /// A copy of this profile, field for field.
    pub fn get_user(&self) -> (u: User)
        ensures
            u@ == self@,
    {
        User {
            first_name: self.first_name.clone(),
            last_name: self.last_name.clone(),
            email: self.email.clone(),
            age: self.age,
        }
    }
}

} // verus!
