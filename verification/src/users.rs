//! The user model.

use vstd::prelude::*;

verus! {

/// An authenticated user.
#[derive(Debug, Clone)]
pub struct User {
    /// The user's unique identifier.
    pub id: String,
    /// The user's name.
    pub name: String,
    /// The user's email addresses.
    pub emails: Vec<String>,
}

} // verus!
