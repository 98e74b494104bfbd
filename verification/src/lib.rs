//! Repository and partial-update core of a book club's back end.
//!
//! Books and meetings live in a schemaless document store. This library
//! holds everything that decides: the identifier codec, the stored shape of
//! each entity, the builder of partial updates, the commands each repository
//! operation sends to the store, what each reply of the store means, and the
//! two-tier error taxonomy. Talking to the store is left to the caller.

pub mod book;
pub mod book_laws;
pub mod book_repository;
pub mod book_service;
pub mod document;
pub mod handlers;
pub mod identifier;
pub mod meeting;
pub mod meeting_laws;
pub mod meeting_repository;
pub mod meeting_service;
pub mod store;
pub mod update;
pub mod views;

pub use book::{Book, BookResponse, CreateBook, UpdateBook, VoteBook};
pub use handlers::{ErrorResponse, UpdateBookRequest, UpdateMeetingRequest};
pub use meeting::{CreateMeeting, Meeting, UpdateMeeting};
