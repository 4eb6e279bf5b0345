//! The account entity and its mathematical view.

use vstd::prelude::*;

verus! {

/// Gender of an account holder: a closed set of two values.
#[derive(Debug, Clone, Copy, PartialEq, Eq, Structural)]
pub enum Gender {
    Male,
    Female,
}

impl Gender {
    /// The small integer under which storage keeps each value.
    pub open spec fn spec_num_value(self) -> i16 {
        match self {
            Gender::Male => 1,
            Gender::Female => 2,
        }
    }

    /// The small integer under which storage keeps this value.
    #[verifier::when_used_as_spec(spec_num_value)]
    pub fn num_value(self) -> (n: i16)
        ensures
            n == self.spec_num_value(),
    {
        match self {
            Gender::Male => 1,
            Gender::Female => 2,
        }
    }

    /// The value that storage keeps under `n`, if there is one.
    pub fn from_num_value(n: i16) -> (g: Option<Gender>)
        ensures
            g matches Some(v) ==> v.spec_num_value() == n,
            g is None <==> n != 1 && n != 2,
    {
        if n == 1 {
            Some(Gender::Male)
        } else if n == 2 {
            Some(Gender::Female)
        } else {
            None
        }
    }
}

/// One row of the account table.
///
/// `created_at` and `updated_at` count microseconds since the Unix epoch, UTC.
/// `password` holds the stored digest, never the plaintext.
pub struct Model {
    pub id: i32,
    pub username: String,
    pub password: String,
    pub age: Option<i32>,
    pub gender: Gender,
    pub email: Option<String>,
    pub created_at: i64,
    pub updated_at: i64,
    pub is_deleted: bool,
}

/// What a row is, with its texts as sequences of characters.
pub struct ModelView {
    pub id: i32,
    pub username: Seq<char>,
    pub password: Seq<char>,
    pub age: Option<i32>,
    pub gender: Gender,
    pub email: Option<Seq<char>>,
    pub created_at: i64,
    pub updated_at: i64,
    pub is_deleted: bool,
}

/// The view of an optional text.
pub open spec fn text_view(text: Option<String>) -> Option<Seq<char>> {
    match text {
        Some(s) => Some(s@),
        None => None,
    }
}

/// The view of a text that may be absent, explicitly empty, or given.
pub open spec fn nullable_text_view(text: Option<Option<String>>) -> Option<Option<Seq<char>>> {
    match text {
        Some(inner) => Some(text_view(inner)),
        None => None,
    }
}

/// The view of an optional row.
pub open spec fn row_view(row: Option<Model>) -> Option<ModelView> {
    match row {
        Some(m) => Some(m@),
        None => None,
    }
}

impl View for Model {
    type V = ModelView;

    open spec fn view(&self) -> ModelView {
        ModelView {
            id: self.id,
            username: self.username@,
            password: self.password@,
            age: self.age,
            gender: self.gender,
            email: text_view(self.email),
            created_at: self.created_at,
            updated_at: self.updated_at,
            is_deleted: self.is_deleted,
        }
    }
}

/// A copy of an optional text.
pub fn clone_text(text: &Option<String>) -> (copy: Option<String>)
    ensures
        copy == *text,
{
    match text {
        Some(s) => Some(s.clone()),
        None => None,
    }
}

impl Clone for Model {
    fn clone(&self) -> (copy: Self)
        ensures
            copy == *self,
    {
        Model {
            id: self.id,
            username: self.username.clone(),
            password: self.password.clone(),
            age: self.age,
            gender: self.gender,
            email: clone_text(&self.email),
            created_at: self.created_at,
            updated_at: self.updated_at,
            is_deleted: self.is_deleted,
        }
    }
}

} // verus!
