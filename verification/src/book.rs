//! Books: the entity and the requests that create and change one.
//!
//! Points in time are milliseconds since the Unix epoch.

use crate::update::distinct;
use vstd::prelude::*;

verus! {

/// A book as callers see it.
#[derive(Debug, Clone, PartialEq, Eq)]
pub struct BookResponse {
    pub id: String,
    pub title: String,
    pub author: String,
    pub description: String,
    pub page_count: u32,
    pub pitch_by: String,
    pub first_suggested: i64,
    pub supporters: Vec<String>,
}

/// A book, under the name that the domain uses for it.
pub type Book = BookResponse;

/// The mathematical content of a `BookResponse`.
pub struct BookView {
    pub id: Seq<char>,
    pub title: Seq<char>,
    pub author: Seq<char>,
    pub description: Seq<char>,
    pub page_count: u32,
    pub pitch_by: Seq<char>,
    pub first_suggested: i64,
    pub supporters: Seq<Seq<char>>,
}

impl View for BookResponse {
    type V = BookView;

    open spec fn view(&self) -> BookView {
        BookView {
            id: self.id@,
            title: self.title@,
            author: self.author@,
            description: self.description@,
            page_count: self.page_count,
            pitch_by: self.pitch_by@,
            first_suggested: self.first_suggested,
            supporters: self.supporters.deep_view(),
        }
    }
}

impl DeepView for BookResponse {
    type V = BookView;

    open spec fn deep_view(&self) -> BookView {
        self@
    }
}

/// A request for creating a book. It names neither an identifier nor a
/// creation time: the repository assigns both.
#[derive(Debug, Clone, PartialEq, Eq)]
pub struct CreateBook {
    pub title: String,
    pub author: String,
    pub description: String,
    pub page_count: u32,
    pub pitch_by: String,
    pub supporters: Vec<String>,
}

/// The mathematical content of a `CreateBook`.
pub struct CreateBookView {
    pub title: Seq<char>,
    pub author: Seq<char>,
    pub description: Seq<char>,
    pub page_count: u32,
    pub pitch_by: Seq<char>,
    pub supporters: Seq<Seq<char>>,
}

impl View for CreateBook {
    type V = CreateBookView;

    open spec fn view(&self) -> CreateBookView {
        CreateBookView {
            title: self.title@,
            author: self.author@,
            description: self.description@,
            page_count: self.page_count,
            pitch_by: self.pitch_by@,
            supporters: self.supporters.deep_view(),
        }
    }
}

/// A request for updating a book: the text of its identifier, and a new
/// value for each field that is to change. A creation time that it names
/// changes nothing: a book keeps the one it was created with.
#[derive(Debug, Clone, PartialEq, Eq)]
pub struct UpdateBook {
    pub id: String,
    pub title: Option<String>,
    pub author: Option<String>,
    pub description: Option<String>,
    pub page_count: Option<u32>,
    pub pitch_by: Option<String>,
    pub first_suggested: Option<i64>,
    pub supporters: Option<Vec<String>>,
}

/// The mathematical content of an `UpdateBook`.
pub struct UpdateBookView {
    pub id: Seq<char>,
    pub title: Option<Seq<char>>,
    pub author: Option<Seq<char>>,
    pub description: Option<Seq<char>>,
    pub page_count: Option<u32>,
    pub pitch_by: Option<Seq<char>>,
    pub first_suggested: Option<i64>,
    pub supporters: Option<Seq<Seq<char>>>,
}

impl View for UpdateBook {
    type V = UpdateBookView;

    open spec fn view(&self) -> UpdateBookView {
        UpdateBookView {
            id: self.id@,
            title: self.title.deep_view(),
            author: self.author.deep_view(),
            description: self.description.deep_view(),
            page_count: self.page_count,
            pitch_by: self.pitch_by.deep_view(),
            first_suggested: self.first_suggested,
            supporters: self.supporters.deep_view(),
        }
    }
}

impl UpdateBookView {
    /// The book that this request makes of `book`: each field that the
    /// request names has the request's value, every other field is as it
    /// was. The creation time is never changed, whatever the request says
    /// of it, and supporters that the request names are kept each once.
    pub open spec fn applied_to(self, book: BookView) -> BookView {
        BookView {
            id: book.id,
            title: self.title.unwrap_or(book.title),
            author: self.author.unwrap_or(book.author),
            description: self.description.unwrap_or(book.description),
            page_count: self.page_count.unwrap_or(book.page_count),
            pitch_by: self.pitch_by.unwrap_or(book.pitch_by),
            first_suggested: book.first_suggested,
            supporters: match self.supporters {
                Some(supporters) => distinct(supporters),
                None => book.supporters,
            },
        }
    }

    /// What the request changes: the request without a creation time, and
    /// with the supporters that it names each once.
    pub open spec fn changes(self) -> UpdateBookView {
        UpdateBookView {
            first_suggested: None,
            supporters: match self.supporters {
                Some(supporters) => Some(distinct(supporters)),
                None => None,
            },
            ..self
        }
    }

    /// Whether the request changes nothing: it names no field but, at
    /// most, the creation time.
    pub open spec fn changes_nothing(self) -> bool {
        self.changes().is_empty()
    }

    /// Whether the request names no field.
    pub open spec fn is_empty(self) -> bool {
        &&& self.title is None
        &&& self.author is None
        &&& self.description is None
        &&& self.page_count is None
        &&& self.pitch_by is None
        &&& self.first_suggested is None
        &&& self.supporters is None
    }
}

/// A request for voting for a book.
#[derive(Debug, Clone, PartialEq, Eq)]
pub struct VoteBook {
    pub supporter: String,
}

impl View for VoteBook {
    type V = Seq<char>;

    open spec fn view(&self) -> Seq<char> {
        self.supporter@
    }
}

} // verus!
