//! The todo record, and the payloads that create or change one.

use crate::text::{all_digits, is_digit, parse_i64, read_i64};
use vstd::prelude::*;

verus! {

/// The payload that creates a todo. `done` is `false` where the payload
/// leaves it out.
#[derive(Debug, PartialEq, Eq)]
pub struct CreateTodo {
    pub title: String,
    pub description: String,
    pub done: bool,
}

/// A partial change to the todo `id`: each field that is `None` stays as it
/// is. No route takes one.
#[derive(Clone, Debug, PartialEq, Eq)]
pub struct UpdatedTodo {
    pub id: i64,
    pub title: Option<String>,
    pub description: Option<String>,
    pub done: Option<bool>,
}

/// A stored todo. Storage assigns `id` when the row is inserted, and it
/// never changes.
#[derive(Debug, PartialEq, Eq)]
pub struct Todo {
    pub id: i64,
    pub title: String,
    pub description: String,
    pub done: bool,
}

/// What a `CreateTodo` holds.
pub struct CreateTodoView {
    pub title: Seq<char>,
    pub description: Seq<char>,
    pub done: bool,
}

/// What a `Todo` holds.
pub struct TodoView {
    pub id: i64,
    pub title: Seq<char>,
    pub description: Seq<char>,
    pub done: bool,
}

impl View for CreateTodo {
    type V = CreateTodoView;

    open spec fn view(&self) -> CreateTodoView {
        CreateTodoView { title: self.title@, description: self.description@, done: self.done }
    }
}

impl View for Todo {
    type V = TodoView;

    open spec fn view(&self) -> TodoView {
        TodoView {
            id: self.id,
            title: self.title@,
            description: self.description@,
            done: self.done,
        }
    }
}

impl Clone for CreateTodo {
    fn clone(&self) -> (r: Self)
        ensures
            r@ == self@,
    {
        CreateTodo {
            title: self.title.clone(),
            description: self.description.clone(),
            done: self.done,
        }
    }
}

impl Clone for Todo {
    fn clone(&self) -> (r: Self)
        ensures
            r@ == self@,
    {
        Todo {
            id: self.id,
            title: self.title.clone(),
            description: self.description.clone(),
            done: self.done,
        }
    }
}

/// The shape of an identifier in hyphenated lower-case text: 36 characters,
/// hyphens after the 8th, 12th, 16th and 20th hexadecimal digit.
pub open spec fn is_hyphenated_uuid(s: Seq<char>) -> bool {
    &&& s.len() == 36
    &&& forall|i: int|
        0 <= i < 36 ==> if i == 8 || i == 13 || i == 18 || i == 23 {
            #[trigger] s[i] == '-'
        } else {
            is_digit(s[i]) || 0x61 <= s[i] as u32 <= 0x66
        }
}

/// The todo that `payload` and the identifier text `id_text` give: one whose
/// id is the number that the text writes, where it writes one.
pub open spec fn todo_from_id_text(payload: CreateTodoView, id_text: Seq<char>) -> Option<
    TodoView,
> {
    match parse_i64(id_text) {
        Some(id) => Some(
            TodoView {
                id,
                title: payload.title,
                description: payload.description,
                done: payload.done,
            },
        ),
        None => None,
    }
}

/// Calls `uuid::Uuid::new_v4` and writes the identifier out with its
/// `to_string`. Not proved: that the text has the hyphenated shape. Which
/// identifier comes back is left open.
#[verifier::external_body]
pub(crate) fn random_uuid_text() -> (r: String)
    ensures
        is_hyphenated_uuid(r@),
{
    uuid::Uuid::new_v4().to_string()
}

/// A hyphenated identifier never writes a decimal number: its ninth
/// character is a hyphen, and a sign may only stand first.
pub proof fn lemma_uuid_text_is_no_number(s: Seq<char>)
    requires
        is_hyphenated_uuid(s),
    ensures
        parse_i64(s) is None,
{
    let d = crate::text::after_sign(s, true);
    assert(s[0] != '-' && s[0] != '+') by {
        assert(is_digit(s[0]) || 0x61 <= s[0] as u32 <= 0x66);
    }
    assert(d == s);
    assert(s[8] == '-');
    assert(!is_digit(d[8]));
    assert(!all_digits(d));
}

impl Todo {
    /// The todo with these four fields.
    pub fn new(id: i64, title: String, description: String, done: bool) -> (todo: Self)
        ensures
            todo.id == id,
            todo.title == title,
            todo.description == description,
            todo.done == done,
    {
        Self { id, title, description, done }
    }

    /// The todo that `create_todo` describes, with the id that `id_text`
    /// writes in decimal; `None` where the text writes no 64-bit number.
    pub fn from_id_text(create_todo: CreateTodo, id_text: &str) -> (todo: Option<Self>)
        ensures
            match todo {
                Some(t) => todo_from_id_text(create_todo@, id_text@) == Some(t@),
                None => todo_from_id_text(create_todo@, id_text@) is None,
            },
    {
        match read_i64(id_text) {
            Some(id) => Some(
                Self {
                    id,
                    title: create_todo.title,
                    description: create_todo.description,
                    done: create_todo.done,
                },
            ),
            None => None,
        }
    }

    /// Tries to build a todo whose id is read from the text of a fresh random
    /// identifier. That text is hyphenated, so it never reads as a number:
    /// the result is always `None`, and ids come from storage alone.
    pub fn from(create_todo: CreateTodo) -> (todo: Option<Self>)
        ensures
            todo is None,
    {
        let id_text = random_uuid_text();
        proof {
            lemma_uuid_text_is_no_number(id_text@);
        }
        Self::from_id_text(create_todo, id_text.as_str())
    }
}

} // verus!
