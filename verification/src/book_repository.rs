//! Data access for books: the stored shape of a book, the commands that
//! each operation sends to the store, and what the store's replies mean.
//!
//! Every operation has two halves. The first turns the request into a
//! command for the store, or refuses the request before the store is
//! touched. The second turns the store's reply into the result.

use crate::book::{Book, BookView, CreateBook, CreateBookView, UpdateBook, UpdateBookView, VoteBook};
use crate::document::{
    document_fields, empty_document, read_count, read_id, read_list, read_text, read_timestamp,
    required_count, required_id, required_list, required_text, required_timestamp, set_field,
    DecodeError, DecodeErrorView, DocumentView, Value, ValueView,
};
use crate::identifier::{identifier_text, parsed, Identifier, InvalidIdentifier};
use crate::store::{
    contents, found_view, listed_view, now_millis, PendingInsert, StoreCommand, StoreCommandView,
    StoreFailure, ID,
};
use crate::update::{
    count_of, count_value, distinct_texts, list_of, list_value, push_set, text_of, text_value,
    then_set, timestamp_of, timestamp_value, Expression, ExpressionView, SetOperation,
    SetOperationView,
};
use crate::views::outcome;
use mongodb::bson::Document;
use vstd::prelude::*;

verus! {

/// The stored name of the title.
pub const TITLE: &'static str = "title";

/// The stored name of the author.
pub const AUTHOR: &'static str = "author";

/// The stored name of the description.
pub const DESCRIPTION: &'static str = "description";

/// The stored name of the number of pages.
pub const PAGE_COUNT: &'static str = "pageCount";

/// The stored name of the member who pitched the book.
pub const PITCH_BY: &'static str = "pitchBy";

/// The stored name of the creation time.
pub const FIRST_SUGGESTED: &'static str = "firstSuggested";

/// The stored name of the supporters.
pub const SUPPORTERS: &'static str = "supporters";

/// The stored name of the number of supporters, which the store keeps
/// beside the supporters to order books by it.
pub const SUPPORTER_COUNT: &'static str = "supporterCount";

/// The text of the error for a request whose supporters are too many to
/// count in a stored number.
pub const TOO_MANY_SUPPORTERS: &'static str = "The number of supporters cannot be stored.";

/// What can go wrong in the repository.
#[derive(Debug, Clone, PartialEq, Eq)]
pub enum Error {
    /// The request could not be put into a document.
    Serialization(String),
    /// A document of the store could not be read as a book.
    Deserialization(DecodeError),
    /// The text is not an identifier.
    ObjectId(InvalidIdentifier),
    /// The store reported a failure.
    MongoDb(StoreFailure),
    /// The store acknowledged an insert without a usable identifier.
    BadObjectId,
    /// No book has the identifier.
    NoSuchBook,
}

/// The mathematical content of an `Error`.
pub enum ErrorView {
    Serialization(Seq<char>),
    Deserialization(DecodeErrorView),
    ObjectId,
    MongoDb(Seq<char>),
    BadObjectId,
    NoSuchBook,
}

impl View for Error {
    type V = ErrorView;

    open spec fn view(&self) -> ErrorView {
        match self {
            Error::Serialization(message) => ErrorView::Serialization(message@),
            Error::Deserialization(error) => ErrorView::Deserialization(error@),
            Error::ObjectId(_) => ErrorView::ObjectId,
            Error::MongoDb(failure) => ErrorView::MongoDb(failure@),
            Error::BadObjectId => ErrorView::BadObjectId,
            Error::NoSuchBook => ErrorView::NoSuchBook,
        }
    }
}

impl DeepView for Error {
    type V = ErrorView;

    open spec fn deep_view(&self) -> ErrorView {
        self@
    }
}

impl ErrorView {
    /// The text that describes the error.
    pub open spec fn message(self) -> Seq<char> {
        match self {
            ErrorView::Serialization(message) => message,
            ErrorView::Deserialization(error) => error.message(),
            ErrorView::ObjectId => "Invalid ID."@,
            ErrorView::MongoDb(message) => message,
            ErrorView::BadObjectId => "Insert did not return ObjectId."@,
            ErrorView::NoSuchBook => "Book does not exist."@,
        }
    }
}

impl Error {
    /// The text that describes the error.
    pub fn to_string(&self) -> (text: String)
        ensures
            text@ == self@.message(),
    {
        match self {
            Error::Serialization(message) => message.clone(),
            Error::Deserialization(error) => error.to_string(),
            Error::ObjectId(_) => "Invalid ID.".to_owned(),
            Error::MongoDb(failure) => failure.message.clone(),
            Error::BadObjectId => "Insert did not return ObjectId.".to_owned(),
            Error::NoSuchBook => "Book does not exist.".to_owned(),
        }
    }
}

/// A book as it is stored.
#[derive(Debug, Clone, PartialEq, Eq)]
pub struct BookDocument {
    pub id: Identifier,
    pub title: String,
    pub author: String,
    pub description: String,
    pub page_count: u32,
    pub pitch_by: String,
    pub first_suggested: i64,
    pub supporters: Vec<String>,
}

/// The mathematical content of a `BookDocument`.
pub struct BookDocumentView {
    pub id: Seq<u8>,
    pub title: Seq<char>,
    pub author: Seq<char>,
    pub description: Seq<char>,
    pub page_count: u32,
    pub pitch_by: Seq<char>,
    pub first_suggested: i64,
    pub supporters: Seq<Seq<char>>,
}

impl View for BookDocument {
    type V = BookDocumentView;

    open spec fn view(&self) -> BookDocumentView {
        BookDocumentView {
            id: self.id@,
            title: self.title@,
            author: self.author@,
            description: self.description@,
            page_count: self.page_count,
            pitch_by: self.pitch_by@,
            first_suggested: self.first_suggested,
            supporters: self.supporters.deep_view(),
        }
    }
}

impl DeepView for BookDocument {
    type V = BookDocumentView;

    open spec fn deep_view(&self) -> BookDocumentView {
        self@
    }
}

impl BookDocumentView {
    /// What a stored document is as a book. The identifier, the title, the
    /// author, the description, the number of pages, the pitcher, the
    /// creation time and the supporters must be there, each of its kind.
    /// Where several fields are wrong, the error names the first of them in
    /// that order. Other fields of the document are not read.
    pub open spec fn decode(document: DocumentView) -> Result<BookDocumentView, DecodeErrorView> {
        let id = required_id(document, ID@);
        let title = required_text(document, TITLE@);
        let author = required_text(document, AUTHOR@);
        let description = required_text(document, DESCRIPTION@);
        let page_count = required_count(document, PAGE_COUNT@);
        let pitch_by = required_text(document, PITCH_BY@);
        let first_suggested = required_timestamp(document, FIRST_SUGGESTED@);
        let supporters = required_list(document, SUPPORTERS@);
        if id is Err {
            Err(id->Err_0)
        } else if title is Err {
            Err(title->Err_0)
        } else if author is Err {
            Err(author->Err_0)
        } else if description is Err {
            Err(description->Err_0)
        } else if page_count is Err {
            Err(page_count->Err_0)
        } else if pitch_by is Err {
            Err(pitch_by->Err_0)
        } else if first_suggested is Err {
            Err(first_suggested->Err_0)
        } else if supporters is Err {
            Err(supporters->Err_0)
        } else {
            Ok(
                BookDocumentView {
                    id: id->Ok_0,
                    title: title->Ok_0,
                    author: author->Ok_0,
                    description: description->Ok_0,
                    page_count: page_count->Ok_0,
                    pitch_by: pitch_by->Ok_0,
                    first_suggested: first_suggested->Ok_0,
                    supporters: supporters->Ok_0,
                },
            )
        }
    }

    /// The book that callers see: the stored one, with its identifier as
    /// text.
    pub open spec fn into_book(self) -> BookView {
        BookView {
            id: identifier_text(self.id),
            title: self.title,
            author: self.author,
            description: self.description,
            page_count: self.page_count,
            pitch_by: self.pitch_by,
            first_suggested: self.first_suggested,
            supporters: self.supporters,
        }
    }
}

impl BookDocument {
    /// Reads a stored document as a book.
    pub fn decode(document: &Document) -> (res: Result<BookDocument, DecodeError>)
        ensures
            outcome(res) == BookDocumentView::decode(document_fields(*document)),
    {
        let id = match read_id(document, ID) {
            Ok(id) => id,
            Err(error) => return Err(error),
        };
        let title = match read_text(document, TITLE) {
            Ok(title) => title,
            Err(error) => return Err(error),
        };
        let author = match read_text(document, AUTHOR) {
            Ok(author) => author,
            Err(error) => return Err(error),
        };
        let description = match read_text(document, DESCRIPTION) {
            Ok(description) => description,
            Err(error) => return Err(error),
        };
        let page_count = match read_count(document, PAGE_COUNT) {
            Ok(page_count) => page_count,
            Err(error) => return Err(error),
        };
        let pitch_by = match read_text(document, PITCH_BY) {
            Ok(pitch_by) => pitch_by,
            Err(error) => return Err(error),
        };
        let first_suggested = match read_timestamp(document, FIRST_SUGGESTED) {
            Ok(first_suggested) => first_suggested,
            Err(error) => return Err(error),
        };
        let supporters = match read_list(document, SUPPORTERS) {
            Ok(supporters) => supporters,
            Err(error) => return Err(error),
        };
        Ok(
            BookDocument {
                id,
                title,
                author,
                description,
                page_count,
                pitch_by,
                first_suggested,
                supporters,
            },
        )
    }

    /// Turns the stored book into the one that callers see.
    pub fn into_book(self) -> (book: Book)
        ensures
            book@ == self@.into_book(),
    {
        Book {
            id: self.id.render(),
            title: self.title,
            author: self.author,
            description: self.description,
            page_count: self.page_count,
            pitch_by: self.pitch_by,
            first_suggested: self.first_suggested,
            supporters: self.supporters,
        }
    }
}

/// The operations that the builder makes of a request: one for each field
/// that the request names, under the field's stored name, in this order:
/// title, author, description, number of pages, pitcher, creation time,
/// supporters.
pub open spec fn update_operations(update: UpdateBookView) -> Seq<SetOperationView> {
    let operations = Seq::<SetOperationView>::empty();
    let operations = then_set(operations, TITLE@, text_value(update.title));
    let operations = then_set(operations, AUTHOR@, text_value(update.author));
    let operations = then_set(operations, DESCRIPTION@, text_value(update.description));
    let operations = then_set(operations, PAGE_COUNT@, count_value(update.page_count));
    let operations = then_set(operations, PITCH_BY@, text_value(update.pitch_by));
    let operations = then_set(
        operations,
        FIRST_SUGGESTED@,
        timestamp_value(update.first_suggested),
    );
    then_set(operations, SUPPORTERS@, list_value(update.supporters))
}

/// The operations of a vote: the supporters become their union with the new
/// supporter, and then the stored number of supporters becomes the size of
/// that union.
pub open spec fn vote_operations(supporter: Seq<char>) -> Seq<SetOperationView> {
    seq![
        SetOperationView {
            field: SUPPORTERS@,
            value: ExpressionView::Union { list: SUPPORTERS@, member: supporter },
        },
        SetOperationView {
            field: SUPPORTER_COUNT@,
            value: ExpressionView::Size { list: SUPPORTERS@ },
        },
    ]
}

/// The document that an insert stores: every field of the request under its
/// stored name, the creation time, and the number of supporters.
pub open spec fn insert_document(create: CreateBookView, first_suggested: i64) -> DocumentView {
    DocumentView::empty().insert(TITLE@, ValueView::Text(create.title)).insert(
        AUTHOR@,
        ValueView::Text(create.author),
    ).insert(DESCRIPTION@, ValueView::Text(create.description)).insert(
        PAGE_COUNT@,
        ValueView::Integer(create.page_count as i64),
    ).insert(PITCH_BY@, ValueView::Text(create.pitch_by)).insert(
        SUPPORTERS@,
        ValueView::TextList(create.supporters),
    ).insert(FIRST_SUGGESTED@, ValueView::Timestamp(first_suggested)).insert(
        SUPPORTER_COUNT@,
        ValueView::Integer(create.supporters.len() as i64),
    )
}

/// The command of an insert. A request is refused where its supporters are
/// more than a stored number can count.
pub open spec fn insert_command(create: CreateBookView, first_suggested: i64) -> Result<
    StoreCommandView,
    ErrorView,
> {
    if create.supporters.len() > i64::MAX {
        Err(ErrorView::Serialization(TOO_MANY_SUPPORTERS@))
    } else {
        Ok(StoreCommandView::InsertOne { document: insert_document(create, first_suggested) })
    }
}

/// What the reply to an insert means: the text of the identifier that the
/// store assigned.
pub open spec fn inserted_id(reply: Result<Option<Seq<u8>>, Seq<char>>) -> Result<
    Seq<char>,
    ErrorView,
> {
    match reply {
        Err(failure) => Err(ErrorView::MongoDb(failure)),
        Ok(Some(id)) => Ok(identifier_text(id)),
        Ok(None) => Err(ErrorView::BadObjectId),
    }
}

/// The command that looks a book up. A text that is no identifier is
/// refused.
pub open spec fn find_command(id: Seq<char>) -> Result<StoreCommandView, ErrorView> {
    match parsed(id) {
        Ok(id) => Ok(StoreCommandView::FindOne { id }),
        Err(_) => Err(ErrorView::ObjectId),
    }
}

/// The operation that makes the stored number of supporters the number of
/// the supporters that are stored.
pub open spec fn count_operation() -> SetOperationView {
    SetOperationView { field: SUPPORTER_COUNT@, value: ExpressionView::Size { list: SUPPORTERS@ } }
}

/// The operations that an update sends to the store: those of what the
/// request changes, so none on the creation time, and the supporters each
/// once; and where the request names supporters, the stored number of
/// supporters is counted anew after them.
pub open spec fn sent_operations(update: UpdateBookView) -> Seq<SetOperationView> {
    let operations = update_operations(update.changes());
    if update.supporters is Some {
        operations.push(count_operation())
    } else {
        operations
    }
}

/// The command of an update. A text that is no identifier is refused. A
/// request that changes nothing only looks the book up; any other request
/// becomes one find-and-modify.
pub open spec fn update_command(update: UpdateBookView) -> Result<StoreCommandView, ErrorView> {
    match parsed(update.id) {
        Err(_) => Err(ErrorView::ObjectId),
        Ok(id) => if update.changes_nothing() {
            Ok(StoreCommandView::FindOne { id })
        } else {
            Ok(StoreCommandView::FindOneAndUpdate { id, update: sent_operations(update) })
        },
    }
}

/// The command of a vote: one find-and-modify. A text that is no
/// identifier is refused.
pub open spec fn vote_command(id: Seq<char>, supporter: Seq<char>) -> Result<
    StoreCommandView,
    ErrorView,
> {
    match parsed(id) {
        Ok(id) => Ok(StoreCommandView::FindOneAndUpdate { id, update: vote_operations(supporter) }),
        Err(_) => Err(ErrorView::ObjectId),
    }
}

/// The command that deletes a book. A text that is no identifier is
/// refused.
pub open spec fn delete_command(id: Seq<char>) -> Result<StoreCommandView, ErrorView> {
    match parsed(id) {
        Ok(id) => Ok(StoreCommandView::DeleteOne { id }),
        Err(_) => Err(ErrorView::ObjectId),
    }
}

/// What the reply to a lookup, an update or a vote means: the book as it
/// is stored now.
pub open spec fn found_book(reply: Result<Option<DocumentView>, Seq<char>>) -> Result<
    BookView,
    ErrorView,
> {
    match reply {
        Err(failure) => Err(ErrorView::MongoDb(failure)),
        Ok(None) => Err(ErrorView::NoSuchBook),
        Ok(Some(document)) => match BookDocumentView::decode(document) {
            Ok(stored) => Ok(stored.into_book()),
            Err(error) => Err(ErrorView::Deserialization(error)),
        },
    }
}

/// Whether the document at `index` is the first that cannot be read as a
/// book.
pub open spec fn is_first_unreadable(documents: Seq<DocumentView>, index: int) -> bool {
    &&& 0 <= index < documents.len()
    &&& BookDocumentView::decode(documents[index]) is Err
    &&& forall|i: int| 0 <= i < index ==> (#[trigger] BookDocumentView::decode(documents[i])) is Ok
}

/// What the reply to a listing means: every book, in the order of the
/// reply. One document that cannot be read fails the whole listing, with
/// the error of the first such document.
pub open spec fn listed_books(reply: Result<Seq<DocumentView>, Seq<char>>) -> Result<
    Seq<BookView>,
    ErrorView,
> {
    match reply {
        Err(failure) => Err(ErrorView::MongoDb(failure)),
        Ok(documents) => {
            if exists|index: int| is_first_unreadable(documents, index) {
                let first = choose|index: int| is_first_unreadable(documents, index);
                Err(ErrorView::Deserialization(BookDocumentView::decode(documents[first])->Err_0))
            } else {
                Ok(
                    Seq::new(
                        documents.len(),
                        |i: int| BookDocumentView::decode(documents[i])->Ok_0.into_book(),
                    ),
                )
            }
        },
    }
}

/// What the reply to a delete means. A delete succeeds whether or not there
/// was a book to delete.
pub open spec fn deleted_book(reply: Result<(), Seq<char>>) -> Result<(), ErrorView> {
    match reply {
        Err(failure) => Err(ErrorView::MongoDb(failure)),
        Ok(_) => Ok(()),
    }
}

/// The builder makes no operation exactly where the request names no
/// field.
pub proof fn lemma_no_operations(update: UpdateBookView)
    ensures
        update_operations(update).len() == 0 <==> update.is_empty(),
{
    let operations = Seq::<SetOperationView>::empty();
    let titled = then_set(operations, TITLE@, text_value(update.title));
    let authored = then_set(titled, AUTHOR@, text_value(update.author));
    let described = then_set(authored, DESCRIPTION@, text_value(update.description));
    let paged = then_set(described, PAGE_COUNT@, count_value(update.page_count));
    let pitched = then_set(paged, PITCH_BY@, text_value(update.pitch_by));
    let suggested = then_set(pitched, FIRST_SUGGESTED@, timestamp_value(update.first_suggested));
    let supported = then_set(suggested, SUPPORTERS@, list_value(update.supporters));
    assert(titled.len() >= 0);
    assert(authored.len() >= titled.len());
    assert(described.len() >= authored.len());
    assert(paged.len() >= described.len());
    assert(pitched.len() >= paged.len());
    assert(suggested.len() >= pitched.len());
    assert(supported.len() >= suggested.len());
}

/// Builds one operation for each field that the request names. The
/// repository sends them for what the request changes.
pub fn build_update(update_book: UpdateBook) -> (updates: Vec<SetOperation>)
    ensures
        updates.deep_view() == update_operations(update_book@),
{
    let mut updates: Vec<SetOperation> = Vec::new();
    assert(updates.deep_view() =~= Seq::<SetOperationView>::empty());
    push_set(&mut updates, TITLE, text_of(update_book.title));
    push_set(&mut updates, AUTHOR, text_of(update_book.author));
    push_set(&mut updates, DESCRIPTION, text_of(update_book.description));
    push_set(&mut updates, PAGE_COUNT, count_of(update_book.page_count));
    push_set(&mut updates, PITCH_BY, text_of(update_book.pitch_by));
    push_set(&mut updates, FIRST_SUGGESTED, timestamp_of(update_book.first_suggested));
    push_set(&mut updates, SUPPORTERS, list_of(update_book.supporters));
    updates
}

/// Builds the operations of a vote for the given supporter.
pub fn build_vote(vote_book: VoteBook) -> (updates: Vec<SetOperation>)
    ensures
        updates.deep_view() == vote_operations(vote_book@),
{
    let mut updates: Vec<SetOperation> = Vec::new();
    updates.push(
        SetOperation {
            field: SUPPORTERS.to_owned(),
            value: Expression::Union { list: SUPPORTERS.to_owned(), member: vote_book.supporter },
        },
    );
    updates.push(
        SetOperation {
            field: SUPPORTER_COUNT.to_owned(),
            value: Expression::Size { list: SUPPORTERS.to_owned() },
        },
    );
    assert(updates.deep_view() =~= vote_operations(vote_book@));
    updates
}

/// Gives access to the collection of books.
#[derive(Debug, Clone, PartialEq, Eq)]
pub struct BookRepository {
    collection: String,
}

impl BookRepository {
    /// The name of the collection that the repository works on.
    pub closed spec fn collection_name(&self) -> Seq<char> {
        self.collection@
    }

    /// Creates a repository on the collection with the given name.
    pub fn new(collection: String) -> (repository: Self)
        ensures
            repository.collection_name() == collection@,
    {
        Self { collection }
    }

    /// The name of the collection that the repository works on.
    pub fn collection(&self) -> (name: &str)
        ensures
            name@ == self.collection_name(),
    {
        self.collection.as_str()
    }

    /// Prepares the insert of a new book, with the server's clock as its
    /// creation time.
    pub fn insert_book(&self, create_book: &CreateBook) -> (res: Result<PendingInsert, Error>)
        ensures
            match res {
                Ok(pending) => insert_command(create_book@, pending.first_suggested) == Ok::<
                    StoreCommandView,
                    ErrorView,
                >(pending.command@),
                Err(error) => forall|first_suggested: i64|
                    insert_command(create_book@, first_suggested) == Err::<
                        StoreCommandView,
                        ErrorView,
                    >(error@),
            },
    {
        let first_suggested = now_millis();
        match self.insert_book_at(create_book, first_suggested) {
            Ok(command) => Ok(PendingInsert { first_suggested, command }),
            Err(error) => Err(error),
        }
    }

    /// Prepares the insert of a new book that was created at the given time.
    pub fn insert_book_at(&self, create_book: &CreateBook, first_suggested: i64) -> (res: Result<
        StoreCommand,
        Error,
    >)
        ensures
            outcome(res) == insert_command(create_book@, first_suggested),
    {
        let count: u64 = create_book.supporters.len() as u64;
        if count > 0x7fff_ffff_ffff_ffff {
            return Err(Error::Serialization(TOO_MANY_SUPPORTERS.to_owned()));
        }
        let mut document = empty_document();
        set_field(&mut document, TITLE, Value::Text(create_book.title.clone()));
        set_field(&mut document, AUTHOR, Value::Text(create_book.author.clone()));
        set_field(&mut document, DESCRIPTION, Value::Text(create_book.description.clone()));
        set_field(&mut document, PAGE_COUNT, Value::Integer(create_book.page_count as i64));
        set_field(&mut document, PITCH_BY, Value::Text(create_book.pitch_by.clone()));
        set_field(&mut document, SUPPORTERS, Value::texts(&create_book.supporters));
        set_field(&mut document, FIRST_SUGGESTED, Value::Timestamp(first_suggested));
        set_field(&mut document, SUPPORTER_COUNT, Value::Integer(count as i64));
        Ok(StoreCommand::InsertOne { document })
    }

    /// Reads the store's reply to an insert: the text of the new book's
    /// identifier.
    pub fn inserted_book(&self, reply: Result<Option<Identifier>, StoreFailure>) -> (res: Result<
        String,
        Error,
    >)
        ensures
            outcome(res) == inserted_id(outcome(reply)),
    {
        match reply {
            Err(failure) => Err(Error::MongoDb(failure)),
            Ok(Some(id)) => Ok(id.render()),
            Ok(None) => Err(Error::BadObjectId),
        }
    }

    /// Prepares the lookup of the book with the given identifier.
    pub fn book(&self, id: &str) -> (res: Result<StoreCommand, Error>)
        ensures
            outcome(res) == find_command(id@),
    {
        match Identifier::parse(id) {
            Ok(id) => Ok(StoreCommand::FindOne { id }),
            Err(error) => Err(Error::ObjectId(error)),
        }
    }

    /// Prepares an update. The book is named by `update_book.id`. The
    /// creation time is left alone, whatever the request says of it;
    /// supporters that the request names are stored each once, and counted.
    pub fn update_book(&self, update_book: UpdateBook) -> (res: Result<StoreCommand, Error>)
        ensures
            outcome(res) == update_command(update_book@),
    {
        let id = match Identifier::parse(update_book.id.as_str()) {
            Ok(id) => id,
            Err(error) => return Err(Error::ObjectId(error)),
        };
        proof {
            lemma_no_operations(update_book@.changes());
        }
        let counted = update_book.supporters.is_some();
        let changes = UpdateBook {
            id: update_book.id,
            title: update_book.title,
            author: update_book.author,
            description: update_book.description,
            page_count: update_book.page_count,
            pitch_by: update_book.pitch_by,
            first_suggested: None,
            supporters: match update_book.supporters {
                Some(supporters) => Some(distinct_texts(supporters)),
                None => None,
            },
        };
        assert(changes@ == update_book@.changes());
        let mut update = build_update(changes);
        if counted {
            update.push(
                SetOperation {
                    field: SUPPORTER_COUNT.to_owned(),
                    value: Expression::Size { list: SUPPORTERS.to_owned() },
                },
            );
            assert(update.deep_view() == sent_operations(update_book@));
        }
        if update.len() == 0 {
            Ok(StoreCommand::FindOne { id })
        } else {
            Ok(StoreCommand::FindOneAndUpdate { id, update })
        }
    }

    /// Prepares a vote for the book with the given identifier.
    pub fn vote_book(&self, id: &str, vote_book: VoteBook) -> (res: Result<StoreCommand, Error>)
        ensures
            outcome(res) == vote_command(id@, vote_book@),
    {
        match Identifier::parse(id) {
            Ok(id) => Ok(StoreCommand::FindOneAndUpdate { id, update: build_vote(vote_book) }),
            Err(error) => Err(Error::ObjectId(error)),
        }
    }

    /// Reads the store's reply to a lookup, an update or a vote: the book as
    /// it is now.
    pub fn found_book(&self, reply: Result<Option<Document>, StoreFailure>) -> (res: Result<
        Book,
        Error,
    >)
        ensures
            outcome(res) == found_book(found_view(reply)),
    {
        match reply {
            Err(failure) => Err(Error::MongoDb(failure)),
            Ok(None) => Err(Error::NoSuchBook),
            Ok(Some(document)) => match BookDocument::decode(&document) {
                Ok(stored) => Ok(stored.into_book()),
                Err(error) => Err(Error::Deserialization(error)),
            },
        }
    }

    /// Prepares the listing of all books.
    pub fn books(&self) -> (command: StoreCommand)
        ensures
            command@ == StoreCommandView::FindAll,
    {
        StoreCommand::FindAll
    }

    /// Reads the store's reply to a listing: all books.
    pub fn listed_books(&self, reply: Result<Vec<Document>, StoreFailure>) -> (res: Result<
        Vec<Book>,
        Error,
    >)
        ensures
            outcome(res) == listed_books(listed_view(reply)),
    {
        let documents = match reply {
            Ok(documents) => documents,
            Err(failure) => return Err(Error::MongoDb(failure)),
        };
        let mut books: Vec<Book> = Vec::new();
        let mut i: usize = 0;
        while i < documents.len()
            invariant
                i <= documents.len(),
                books.len() == i,
                listed_view(reply) == Ok::<Seq<DocumentView>, Seq<char>>(contents(documents@)),
                forall|j: int|
                    0 <= j < i ==> (#[trigger] BookDocumentView::decode(
                        contents(documents@)[j],
                    )) is Ok,
                forall|j: int|
                    0 <= j < i ==> (#[trigger] books@[j])@ == BookDocumentView::decode(
                        contents(documents@)[j],
                    )->Ok_0.into_book(),
            decreases documents.len() - i,
        {
            match BookDocument::decode(&documents[i]) {
                Ok(stored) => books.push(stored.into_book()),
                Err(error) => {
                    assert(is_first_unreadable(contents(documents@), i as int));
                    let ghost first = choose|index: int|
                        is_first_unreadable(contents(documents@), index);
                    assert(first == i);
                    return Err(Error::Deserialization(error));
                },
            }
            i = i + 1;
        }
        assert(forall|index: int| !is_first_unreadable(contents(documents@), index));
        assert(books.deep_view() =~= Seq::new(
            contents(documents@).len(),
            |i: int| BookDocumentView::decode(contents(documents@)[i])->Ok_0.into_book(),
        ));
        Ok(books)
    }

    /// Prepares the deletion of the book with the given identifier.
    pub fn delete_book(&self, id: &str) -> (res: Result<StoreCommand, Error>)
        ensures
            outcome(res) == delete_command(id@),
    {
        match Identifier::parse(id) {
            Ok(id) => Ok(StoreCommand::DeleteOne { id }),
            Err(error) => Err(Error::ObjectId(error)),
        }
    }

    /// Reads the store's reply to a delete.
    pub fn deleted_book(&self, reply: Result<(), StoreFailure>) -> (res: Result<(), Error>)
        ensures
            outcome(res) == deleted_book(outcome(reply)),
    {
        match reply {
            Err(failure) => Err(Error::MongoDb(failure)),
            Ok(_) => Ok(()),
        }
    }
}

} // verus!
