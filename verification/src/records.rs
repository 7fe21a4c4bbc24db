//! The record shapes the surrounding application stores and the extracted
//! actions ultimately operate on: notes, note categories and client
//! payments. The storage itself lives outside this library.

use vstd::prelude::*;

verus! {

/// A stored note.
#[derive(Debug, Clone, PartialEq)]
pub struct Note {
    pub id: String,
    pub title: String,
    pub content: Option<String>,
    pub category_id: Option<String>,
    pub completed: bool,
    pub sort_order: i32,
    pub created_at: String,
    pub updated_at: String,
}

/// A note category.
#[derive(Debug, Clone, PartialEq)]
pub struct Category {
    pub id: String,
    pub name: String,
    pub color: String,
}

/// What it takes to create a note.
#[derive(Debug, Clone, PartialEq)]
pub struct CreateNoteInput {
    pub title: String,
    pub content: Option<String>,
    pub category_id: Option<String>,
}

/// What it takes to rewrite a note.
#[derive(Debug, Clone, PartialEq)]
pub struct UpdateNoteInput {
    pub id: String,
    pub title: String,
    pub content: Option<String>,
    pub category_id: Option<String>,
}

/// What it takes to create a category.
#[derive(Debug, Clone, PartialEq)]
pub struct CreateCategoryInput {
    pub name: String,
    pub color: String,
}

/// What it takes to rewrite a category.
#[derive(Debug, Clone, PartialEq)]
pub struct UpdateCategoryInput {
    pub id: String,
    pub name: String,
    pub color: String,
}

/// One period of a client's payment history.
#[derive(Debug, Clone, PartialEq)]
pub struct ClientPayment {
    pub id: String,
    pub client_id: String,
    pub period: String,
    pub paid: bool,
    pub paid_at: Option<String>,
}

} // verus!
