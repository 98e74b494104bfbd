//! The books domain: forwards every call to the repository and decides
//! which of the repository's errors a caller may see.

use crate::book::{Book, BookView, CreateBook, CreateBookView, UpdateBook, VoteBook};
use crate::book_repository::{
    delete_command, deleted_book, find_command, found_book, insert_command, inserted_id,
    listed_books, update_command, vote_command, BookRepository, Error as RepositoryError,
    ErrorView as RepositoryErrorView,
};
use crate::identifier::Identifier;
use crate::store::{
    found_view, listed_view, PendingInsert, StoreCommand, StoreCommandView, StoreFailure,
};
use crate::views::outcome;
use mongodb::bson::Document;
use vstd::prelude::*;

verus! {

/// The error type for everything: either the caller's fault, with a text
/// for the caller, or an internal error, whose cause stays inside.
#[derive(Debug, Clone, PartialEq, Eq)]
pub enum Error {
    Internal(RepositoryError),
    User(String),
}

/// The mathematical content of an `Error`.
pub enum ErrorView {
    Internal(RepositoryErrorView),
    User(Seq<char>),
}

impl View for Error {
    type V = ErrorView;

    open spec fn view(&self) -> ErrorView {
        match self {
            Error::Internal(cause) => ErrorView::Internal(cause@),
            Error::User(message) => ErrorView::User(message@),
        }
    }
}

impl DeepView for Error {
    type V = ErrorView;

    open spec fn deep_view(&self) -> ErrorView {
        self@
    }
}

impl ErrorView {
    /// The error that the service makes of an error of the repository: a
    /// missing book and a text that is no identifier are the caller's fault
    /// and keep their text; everything else is internal.
    pub open spec fn from(error: RepositoryErrorView) -> ErrorView {
        match error {
            RepositoryErrorView::NoSuchBook => ErrorView::User(error.message()),
            RepositoryErrorView::ObjectId => ErrorView::User(error.message()),
            _ => ErrorView::Internal(error),
        }
    }

    /// The text for the caller. An internal error has one text, whatever
    /// its cause.
    pub open spec fn message(self) -> Seq<char> {
        match self {
            ErrorView::Internal(_) => "An internal error occurred."@,
            ErrorView::User(message) => message,
        }
    }
}

/// A result of the repository, with its error as the service reports it.
pub open spec fn reported<T>(result: Result<T, RepositoryErrorView>) -> Result<T, ErrorView> {
    match result {
        Ok(value) => Ok(value),
        Err(error) => Err(ErrorView::from(error)),
    }
}

/// The book that a successful insert has created.
pub open spec fn created(create: CreateBookView, first_suggested: i64, id: Seq<char>) -> BookView {
    BookView {
        id,
        title: create.title,
        author: create.author,
        description: create.description,
        page_count: create.page_count,
        pitch_by: create.pitch_by,
        first_suggested,
        supporters: create.supporters,
    }
}

/// What the reply to an insert means: the new book, which is the request
/// with the identifier that the store assigned and the creation time that
/// the insert carried.
pub open spec fn created_book(
    create: CreateBookView,
    first_suggested: i64,
    reply: Result<Option<Seq<u8>>, Seq<char>>,
) -> Result<BookView, ErrorView> {
    match reported(inserted_id(reply)) {
        Ok(id) => Ok(created(create, first_suggested, id)),
        Err(error) => Err(error),
    }
}

impl Error {
    /// Makes the service's error of an error of the repository.
    pub fn from(err: RepositoryError) -> (error: Error)
        ensures
            error@ == ErrorView::from(err@),
    {
        match err {
            RepositoryError::NoSuchBook => Error::User(err.to_string()),
            RepositoryError::ObjectId(_) => Error::User(err.to_string()),
            err => Error::Internal(err),
        }
    }

    /// The text for the caller.
    pub fn to_string(&self) -> (text: String)
        ensures
            text@ == self@.message(),
    {
        match self {
            Error::Internal(_) => "An internal error occurred.".to_owned(),
            Error::User(message) => message.clone(),
        }
    }
}

/// Represents the books domain.
#[derive(Debug, Clone, PartialEq, Eq)]
pub struct BookService {
    repository: BookRepository,
}

impl BookService {
    /// The repository that the service works with.
    pub closed spec fn repository(&self) -> BookRepository {
        self.repository
    }

    /// Creates a new service.
    pub fn new(repository: BookRepository) -> (service: Self)
        ensures
            service.repository() == repository,
    {
        Self { repository }
    }

    /// Prepares the creation of a book.
    pub fn create_book(&self, create_book: &CreateBook) -> (res: Result<PendingInsert, Error>)
        ensures
            match res {
                Ok(pending) => insert_command(create_book@, pending.first_suggested) == Ok::<
                    StoreCommandView,
                    RepositoryErrorView,
                >(pending.command@),
                Err(error) => forall|first_suggested: i64|
                    reported(insert_command(create_book@, first_suggested)) == Err::<
                        StoreCommandView,
                        ErrorView,
                    >(error@),
            },
    {
        match self.repository.insert_book(create_book) {
            Ok(pending) => Ok(pending),
            Err(error) => Err(Error::from(error)),
        }
    }

    /// Reads the store's reply to the insert that `create_book` prepared
    /// with the given creation time: the new book.
    pub fn created_book(
        &self,
        create_book: CreateBook,
        first_suggested: i64,
        reply: Result<Option<Identifier>, StoreFailure>,
    ) -> (res: Result<Book, Error>)
        ensures
            outcome(res) == created_book(create_book@, first_suggested, outcome(reply)),
    {
        let id = match self.repository.inserted_book(reply) {
            Ok(id) => id,
            Err(error) => return Err(Error::from(error)),
        };
        Ok(
            Book {
                id,
                title: create_book.title,
                author: create_book.author,
                description: create_book.description,
                page_count: create_book.page_count,
                pitch_by: create_book.pitch_by,
                first_suggested,
                supporters: create_book.supporters,
            },
        )
    }

    /// Prepares the lookup of the book with the given identifier.
    pub fn book(&self, id: &str) -> (res: Result<StoreCommand, Error>)
        ensures
            outcome(res) == reported(find_command(id@)),
    {
        match self.repository.book(id) {
            Ok(command) => Ok(command),
            Err(error) => Err(Error::from(error)),
        }
    }

    /// Updates a book.
    pub fn update_book(&self, update_book: UpdateBook) -> (res: Result<StoreCommand, Error>)
        ensures
            outcome(res) == reported(update_command(update_book@)),
    {
        match self.repository.update_book(update_book) {
            Ok(command) => Ok(command),
            Err(error) => Err(Error::from(error)),
        }
    }

    /// Prepares a vote for the book with the given identifier.
    pub fn vote_book(&self, id: &str, vote_book: VoteBook) -> (res: Result<StoreCommand, Error>)
        ensures
            outcome(res) == reported(vote_command(id@, vote_book@)),
    {
        match self.repository.vote_book(id, vote_book) {
            Ok(command) => Ok(command),
            Err(error) => Err(Error::from(error)),
        }
    }

    /// Reads the store's reply to a lookup, an update or a vote: the book as
    /// it is now.
    pub fn found_book(&self, reply: Result<Option<Document>, StoreFailure>) -> (res: Result<
        Book,
        Error,
    >)
        ensures
            outcome(res) == reported(found_book(found_view(reply))),
    {
        match self.repository.found_book(reply) {
            Ok(book) => Ok(book),
            Err(error) => Err(Error::from(error)),
        }
    }

    /// Prepares the listing of all books.
    pub fn books(&self) -> (command: StoreCommand)
        ensures
            command@ == StoreCommandView::FindAll,
    {
        self.repository.books()
    }

    /// Reads the store's reply to a listing: all books.
    pub fn listed_books(&self, reply: Result<Vec<Document>, StoreFailure>) -> (res: Result<
        Vec<Book>,
        Error,
    >)
        ensures
            outcome(res) == reported(listed_books(listed_view(reply))),
    {
        match self.repository.listed_books(reply) {
            Ok(books) => Ok(books),
            Err(error) => Err(Error::from(error)),
        }
    }

    /// Prepares the deletion of the book with the given identifier.
    pub fn delete_book(&self, id: &str) -> (res: Result<StoreCommand, Error>)
        ensures
            outcome(res) == reported(delete_command(id@)),
    {
        match self.repository.delete_book(id) {
            Ok(command) => Ok(command),
            Err(error) => Err(Error::from(error)),
        }
    }

    /// Reads the store's reply to a delete.
    pub fn deleted_book(&self, reply: Result<(), StoreFailure>) -> (res: Result<(), Error>)
        ensures
            outcome(res) == reported(deleted_book(outcome(reply))),
    {
        match self.repository.deleted_book(reply) {
            Ok(done) => Ok(done),
            Err(error) => Err(Error::from(error)),
        }
    }
}

} // verus!
