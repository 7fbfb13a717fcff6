//! Core logic of a small content backend: a partial-mutation compiler that
//! turns a caller-supplied create/patch document for a typed entity into an
//! ordered, injection-safe sequence of assignment fragments and typed
//! parameter bindings, plus the pagination helpers used by the list views.

pub mod text;
pub mod values;
pub mod derives;
pub mod schema;
pub mod document;
pub mod seqs;
pub mod edge;
pub mod compiler;
pub mod laws;
pub mod tables;
pub mod entities;
pub mod paging;
pub mod listing;
pub mod errors;
pub mod models;
pub mod queries;
