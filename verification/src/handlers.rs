//! The four endpoint handlers: each turns a request into an HTTP status
//! code and a response body made of plain values.

use vstd::prelude::*;
use crate::text::{trim, trimmed};
use crate::validate::{age_accepted, email_accepted, name_accepted, validate_user};

verus! {

/// A candidate user record, as the create-user endpoint receives it.
#[derive(Debug)]
pub struct CreateUserRequest {
    pub name: String,
    pub email: String,
    pub age: u8,
}

/// The success body of the create-user endpoint.
#[derive(Debug)]
pub struct CreateUserResponse {
    pub id: u32,
    pub name: String,
    pub email: String,
    pub age: u8,
    pub message: String,
}

/// The failure body of the create-user endpoint.
#[derive(Debug)]
pub struct ErrorResponse {
    pub error: String,
    pub message: String,
}

/// The body of the greeting endpoint.
#[derive(Debug)]
pub struct HelloResponse {
    pub message: String,
    pub status: String,
}

/// One record of the fixed user listing.
#[derive(Debug)]
pub struct User {
    pub id: u32,
    pub name: String,
    pub email: String,
    pub age: u8,
}

/// The body of a create-user reply: a created record or a validation error.
#[derive(Debug)]
pub enum CreateUserReply {
    Created(CreateUserResponse),
    Rejected(ErrorResponse),
}

/// The placeholder identifier that every created user receives.
pub const FAKE_USER_ID: u32 = 42;

/// Handles `POST /users`: checks the three validation rules in order and
/// returns 400 with the first failure's message, or 201 with the created
/// record, whose name and email are trimmed and whose id is the fixed
/// placeholder.
pub fn create_user(req: &CreateUserRequest) -> (r: (u16, CreateUserReply))
    ensures
        !name_accepted(req.name@) ==> r.0 == 400 && (r.1 matches CreateUserReply::Rejected(e)
            && e.error@ == "Validation Error"@ && e.message@ == "Name cannot be empty"@),
        name_accepted(req.name@) && !email_accepted(req.email@) ==> r.0 == 400 && (
        r.1 matches CreateUserReply::Rejected(e) && e.error@ == "Validation Error"@
            && e.message@ == "Please provide a valid email address"@),
        name_accepted(req.name@) && email_accepted(req.email@) && !age_accepted(req.age)
            ==> r.0 == 400 && (r.1 matches CreateUserReply::Rejected(e) && e.error@
            == "Validation Error"@ && e.message@ == "Age must be greater than 0"@),
        name_accepted(req.name@) && email_accepted(req.email@) && age_accepted(req.age) ==> r.0
            == 201 && (r.1 matches CreateUserReply::Created(c) && c.id == FAKE_USER_ID && c.name@
            == trimmed(req.name@) && c.email@ == trimmed(req.email@) && c.age == req.age
            && c.message@ == "User created successfully!"@),
{
    match validate_user(req.name.as_str(), req.email.as_str(), req.age) {
        Err(e) => {
            let body = ErrorResponse {
                error: String::from_str("Validation Error"),
                message: e.message(),
            };
            (400, CreateUserReply::Rejected(body))
        },
        Ok(()) => {
            let body = CreateUserResponse {
                id: FAKE_USER_ID,
                name: trim(req.name.as_str()),
                email: trim(req.email.as_str()),
                age: req.age,
                message: String::from_str("User created successfully!"),
            };
            (201, CreateUserReply::Created(body))
        },
    }
}

/// Handles `GET /users`: always returns 200 with the same two fixed
/// records, Alice then Bob.
pub fn get_users() -> (r: (u16, Vec<User>))
    ensures
        r.0 == 200,
        r.1@.len() == 2,
        r.1@[0].id == 1 && r.1@[0].name@ == "Alice"@ && r.1@[0].email@ == "alice@example.com"@
            && r.1@[0].age == 25,
        r.1@[1].id == 2 && r.1@[1].name@ == "Bob"@ && r.1@[1].email@ == "bob@example.com"@
            && r.1@[1].age == 30,
{
    let mut users: Vec<User> = Vec::new();
    users.push(
        User {
            id: 1,
            name: String::from_str("Alice"),
            email: String::from_str("alice@example.com"),
            age: 25,
        },
    );
    users.push(
        User {
            id: 2,
            name: String::from_str("Bob"),
            email: String::from_str("bob@example.com"),
            age: 30,
        },
    );
    (200, users)
}

/// Handles `GET /`: always returns 200 with the fixed greeting body.
pub fn hello_world() -> (r: (u16, HelloResponse))
    ensures
        r.0 == 200,
        r.1.message@ == "Hello, World!"@,
        r.1.status@ == "success"@,
{
    let body = HelloResponse {
        message: String::from_str("Hello, World!"),
        status: String::from_str("success"),
    };
    (200, body)
}

/// Handles `GET /health`: always returns 200 with the fixed plain-text body.
pub fn health_check() -> (r: (u16, &'static str))
    ensures
        r.0 == 200,
        r.1@ == "Server is alive and kicking!"@,
{
    (200, "Server is alive and kicking!")
}

} // verus!
