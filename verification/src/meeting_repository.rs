//! Data access for meetings: the stored shape of a meeting, the commands
//! that each operation sends to the store, and what the store's replies mean.
//!
//! Every operation has two halves. The first turns the request into a
//! command for the store, or refuses the request before the store is
//! touched. The second turns the store's reply into the result.

use crate::document::{
    document_fields, empty_document, optional_text, optional_timestamp, read_id, read_list,
    read_optional_text, read_optional_timestamp, read_text, read_timestamp, required_id,
    required_list, required_text, required_timestamp, set_field, DecodeError, DecodeErrorView,
    DocumentView, Value, ValueView,
};
use crate::identifier::{identifier_text, parsed, Identifier, InvalidIdentifier};
use crate::meeting::{
    CreateMeeting, CreateMeetingView, Meeting, MeetingView, UpdateMeeting, UpdateMeetingView,
};
use crate::store::{
    contents, found_view, listed_view, now_millis, PendingInsert, StoreCommand, StoreCommandView,
    StoreFailure, ID,
};
use crate::update::{
    copy_text, distinct_texts, list_of, list_value, or_null, or_null_of, push_set, text_of,
    text_value, then_set, timestamp_of, timestamp_value, SetOperation, SetOperationView,
};
use crate::views::outcome;
use mongodb::bson::Document;
use vstd::prelude::*;

verus! {

/// The stored name of the date.
pub const DATE: &'static str = "date";

/// The stored name of the location.
pub const LOCATION: &'static str = "location";

/// The stored name of the title.
pub const TITLE: &'static str = "title";

/// The stored name of the author.
pub const AUTHOR: &'static str = "author";

/// The stored name of the description.
pub const DESCRIPTION: &'static str = "description";

/// The stored name of the member who pitched the book.
pub const PITCHED_BY: &'static str = "pitchedBy";

/// The stored name of the creation time.
pub const FIRST_SUGGESTED: &'static str = "firstSuggested";

/// The stored name of the supporters.
pub const SUPPORTERS: &'static str = "supporters";

/// What can go wrong in the repository.
#[derive(Debug, Clone, PartialEq, Eq)]
pub enum Error {
    /// The request could not be put into a document.
    Serialization(String),
    /// A document of the store could not be read as a meeting.
    Deserialization(DecodeError),
    /// The text is not an identifier.
    ObjectId(InvalidIdentifier),
    /// The store reported a failure.
    MongoDb(StoreFailure),
    /// The store acknowledged an insert without a usable identifier.
    BadObjectId,
    /// No meeting has the identifier.
    NoSuchMeeting,
}

/// The mathematical content of an `Error`.
pub enum ErrorView {
    Serialization(Seq<char>),
    Deserialization(DecodeErrorView),
    ObjectId,
    MongoDb(Seq<char>),
    BadObjectId,
    NoSuchMeeting,
}

impl View for Error {
    type V = ErrorView;

    open spec fn view(&self) -> ErrorView {
        match self {
            Error::Serialization(message) => ErrorView::Serialization(message@),
            Error::Deserialization(error) => ErrorView::Deserialization(error@),
            Error::ObjectId(_) => ErrorView::ObjectId,
            Error::MongoDb(failure) => ErrorView::MongoDb(failure@),
            Error::BadObjectId => ErrorView::BadObjectId,
            Error::NoSuchMeeting => ErrorView::NoSuchMeeting,
        }
    }
}

impl DeepView for Error {
    type V = ErrorView;

    open spec fn deep_view(&self) -> ErrorView {
        self@
    }
}

impl ErrorView {
    /// The text that describes the error.
    pub open spec fn message(self) -> Seq<char> {
        match self {
            ErrorView::Serialization(message) => message,
            ErrorView::Deserialization(error) => error.message(),
            ErrorView::ObjectId => "Invalid ID."@,
            ErrorView::MongoDb(message) => message,
            ErrorView::BadObjectId => "Insert did not return ObjectId."@,
            ErrorView::NoSuchMeeting => "Meeting does not exist."@,
        }
    }
}

impl Error {
    /// The text that describes the error.
    pub fn to_string(&self) -> (text: String)
        ensures
            text@ == self@.message(),
    {
        match self {
            Error::Serialization(message) => message.clone(),
            Error::Deserialization(error) => error.to_string(),
            Error::ObjectId(_) => "Invalid ID.".to_owned(),
            Error::MongoDb(failure) => failure.message.clone(),
            Error::BadObjectId => "Insert did not return ObjectId.".to_owned(),
            Error::NoSuchMeeting => "Meeting does not exist.".to_owned(),
        }
    }
}

/// A meeting as it is stored.
#[derive(Debug, Clone, PartialEq, Eq)]
pub struct MeetingDocument {
    pub id: Identifier,
    pub date: Option<i64>,
    pub location: Option<String>,
    pub title: String,
    pub author: String,
    pub description: String,
    pub pitched_by: String,
    pub first_suggested: i64,
    pub supporters: Vec<String>,
}

/// The mathematical content of a `MeetingDocument`.
pub struct MeetingDocumentView {
    pub id: Seq<u8>,
    pub date: Option<i64>,
    pub location: Option<Seq<char>>,
    pub title: Seq<char>,
    pub author: Seq<char>,
    pub description: Seq<char>,
    pub pitched_by: Seq<char>,
    pub first_suggested: i64,
    pub supporters: Seq<Seq<char>>,
}

impl View for MeetingDocument {
    type V = MeetingDocumentView;

    open spec fn view(&self) -> MeetingDocumentView {
        MeetingDocumentView {
            id: self.id@,
            date: self.date,
            location: self.location.deep_view(),
            title: self.title@,
            author: self.author@,
            description: self.description@,
            pitched_by: self.pitched_by@,
            first_suggested: self.first_suggested,
            supporters: self.supporters.deep_view(),
        }
    }
}

impl DeepView for MeetingDocument {
    type V = MeetingDocumentView;

    open spec fn deep_view(&self) -> MeetingDocumentView {
        self@
    }
}

impl MeetingDocumentView {
    /// What a stored document is as a meeting. The identifier, the title,
    /// the author, the description, the pitcher, the creation time and the
    /// supporters must be there, each of its kind; the date and the location
    /// may be missing or null. Where several fields are wrong, the error
    /// names the first of them in this order: identifier, date, location,
    /// title, author, description, pitcher, creation time, supporters.
    pub open spec fn decode(document: DocumentView) -> Result<
        MeetingDocumentView,
        DecodeErrorView,
    > {
        let id = required_id(document, ID@);
        let date = optional_timestamp(document, DATE@);
        let location = optional_text(document, LOCATION@);
        let title = required_text(document, TITLE@);
        let author = required_text(document, AUTHOR@);
        let description = required_text(document, DESCRIPTION@);
        let pitched_by = required_text(document, PITCHED_BY@);
        let first_suggested = required_timestamp(document, FIRST_SUGGESTED@);
        let supporters = required_list(document, SUPPORTERS@);
        if id is Err {
            Err(id->Err_0)
        } else if date is Err {
            Err(date->Err_0)
        } else if location is Err {
            Err(location->Err_0)
        } else if title is Err {
            Err(title->Err_0)
        } else if author is Err {
            Err(author->Err_0)
        } else if description is Err {
            Err(description->Err_0)
        } else if pitched_by is Err {
            Err(pitched_by->Err_0)
        } else if first_suggested is Err {
            Err(first_suggested->Err_0)
        } else if supporters is Err {
            Err(supporters->Err_0)
        } else {
            Ok(
                MeetingDocumentView {
                    id: id->Ok_0,
                    date: date->Ok_0,
                    location: location->Ok_0,
                    title: title->Ok_0,
                    author: author->Ok_0,
                    description: description->Ok_0,
                    pitched_by: pitched_by->Ok_0,
                    first_suggested: first_suggested->Ok_0,
                    supporters: supporters->Ok_0,
                },
            )
        }
    }

    /// The meeting that callers see: the stored one, with its identifier as
    /// text.
    pub open spec fn into_meeting(self) -> MeetingView {
        MeetingView {
            id: identifier_text(self.id),
            date: self.date,
            location: self.location,
            title: self.title,
            author: self.author,
            description: self.description,
            pitched_by: self.pitched_by,
            first_suggested: self.first_suggested,
            supporters: self.supporters,
        }
    }
}

impl MeetingDocument {
    /// Reads a stored document as a meeting.
    pub fn decode(document: &Document) -> (res: Result<MeetingDocument, DecodeError>)
        ensures
            outcome(res) == MeetingDocumentView::decode(document_fields(*document)),
    {
        let id = match read_id(document, ID) {
            Ok(id) => id,
            Err(error) => return Err(error),
        };
        let date = match read_optional_timestamp(document, DATE) {
            Ok(date) => date,
            Err(error) => return Err(error),
        };
        let location = match read_optional_text(document, LOCATION) {
            Ok(location) => location,
            Err(error) => return Err(error),
        };
        let title = match read_text(document, TITLE) {
            Ok(title) => title,
            Err(error) => return Err(error),
        };
        let author = match read_text(document, AUTHOR) {
            Ok(author) => author,
            Err(error) => return Err(error),
        };
        let description = match read_text(document, DESCRIPTION) {
            Ok(description) => description,
            Err(error) => return Err(error),
        };
        let pitched_by = match read_text(document, PITCHED_BY) {
            Ok(pitched_by) => pitched_by,
            Err(error) => return Err(error),
        };
        let first_suggested = match read_timestamp(document, FIRST_SUGGESTED) {
            Ok(first_suggested) => first_suggested,
            Err(error) => return Err(error),
        };
        let supporters = match read_list(document, SUPPORTERS) {
            Ok(supporters) => supporters,
            Err(error) => return Err(error),
        };
        Ok(
            MeetingDocument {
                id,
                date,
                location,
                title,
                author,
                description,
                pitched_by,
                first_suggested,
                supporters,
            },
        )
    }

    /// Turns the stored meeting into the one that callers see.
    pub fn into_meeting(self) -> (meeting: Meeting)
        ensures
            meeting@ == self@.into_meeting(),
    {
        Meeting {
            id: self.id.render(),
            date: self.date,
            location: self.location,
            title: self.title,
            author: self.author,
            description: self.description,
            pitched_by: self.pitched_by,
            first_suggested: self.first_suggested,
            supporters: self.supporters,
        }
    }
}

/// The operations that the builder makes of a request: one for each field
/// that the request names, under the field's stored name, in this order:
/// title, author, description, date, location, pitcher, creation time,
/// supporters.
pub open spec fn update_operations(update: UpdateMeetingView) -> Seq<SetOperationView> {
    let operations = Seq::<SetOperationView>::empty();
    let operations = then_set(operations, TITLE@, text_value(update.title));
    let operations = then_set(operations, AUTHOR@, text_value(update.author));
    let operations = then_set(operations, DESCRIPTION@, text_value(update.description));
    let operations = then_set(operations, DATE@, timestamp_value(update.date));
    let operations = then_set(operations, LOCATION@, text_value(update.location));
    let operations = then_set(operations, PITCHED_BY@, text_value(update.pitched_by));
    let operations = then_set(
        operations,
        FIRST_SUGGESTED@,
        timestamp_value(update.first_suggested),
    );
    then_set(operations, SUPPORTERS@, list_value(update.supporters))
}

/// The document that an insert stores: every field of the request under its
/// stored name, a missing date or location as null, and the creation time.
pub open spec fn insert_document(create: CreateMeetingView, first_suggested: i64) -> DocumentView {
    DocumentView::empty().insert(
        DATE@,
        or_null(timestamp_value(create.date)),
    ).insert(LOCATION@, or_null(text_value(create.location))).insert(
        TITLE@,
        ValueView::Text(create.title),
    ).insert(AUTHOR@, ValueView::Text(create.author)).insert(
        DESCRIPTION@,
        ValueView::Text(create.description),
    ).insert(PITCHED_BY@, ValueView::Text(create.pitched_by)).insert(
        FIRST_SUGGESTED@,
        ValueView::Timestamp(first_suggested),
    ).insert(SUPPORTERS@, ValueView::TextList(create.supporters))
}

/// The command of an insert.
pub open spec fn insert_command(
    create: CreateMeetingView,
    first_suggested: i64,
) -> StoreCommandView {
    StoreCommandView::InsertOne { document: insert_document(create, first_suggested) }
}

/// What the reply to an insert means: the text of the identifier that the
/// store assigned.
pub open spec fn inserted_id(reply: Result<Option<Seq<u8>>, Seq<char>>) -> Result<
    Seq<char>,
    ErrorView,
> {
    match reply {
        Err(failure) => Err(ErrorView::MongoDb(failure)),
        Ok(Some(id)) => Ok(identifier_text(id)),
        Ok(None) => Err(ErrorView::BadObjectId),
    }
}

/// The operations that an update sends to the store: those of what the
/// request changes, so none on the creation time, and the supporters each
/// once.
pub open spec fn sent_operations(update: UpdateMeetingView) -> Seq<SetOperationView> {
    update_operations(update.changes())
}

/// The command of an update. A text that is no identifier is refused. A
/// request that changes nothing only looks the meeting up; any other
/// request becomes one find-and-modify.
pub open spec fn update_command(update: UpdateMeetingView) -> Result<StoreCommandView, ErrorView> {
    match parsed(update.id) {
        Err(_) => Err(ErrorView::ObjectId),
        Ok(id) => if update.changes_nothing() {
            Ok(StoreCommandView::FindOne { id })
        } else {
            Ok(StoreCommandView::FindOneAndUpdate { id, update: sent_operations(update) })
        },
    }
}

/// What the reply to an update means: the meeting as it is stored now.
pub open spec fn found_meeting(reply: Result<Option<DocumentView>, Seq<char>>) -> Result<
    MeetingView,
    ErrorView,
> {
    match reply {
        Err(failure) => Err(ErrorView::MongoDb(failure)),
        Ok(None) => Err(ErrorView::NoSuchMeeting),
        Ok(Some(document)) => match MeetingDocumentView::decode(document) {
            Ok(stored) => Ok(stored.into_meeting()),
            Err(error) => Err(ErrorView::Deserialization(error)),
        },
    }
}

/// Whether the document at `index` is the first that cannot be read as a
/// meeting.
pub open spec fn is_first_unreadable(documents: Seq<DocumentView>, index: int) -> bool {
    &&& 0 <= index < documents.len()
    &&& MeetingDocumentView::decode(documents[index]) is Err
    &&& forall|i: int|
        0 <= i < index ==> (#[trigger] MeetingDocumentView::decode(documents[i])) is Ok
}

/// What the reply to a listing means: every meeting, in the order of the
/// reply. One document that cannot be read fails the whole listing, with
/// the error of the first such document.
pub open spec fn listed_meetings(reply: Result<Seq<DocumentView>, Seq<char>>) -> Result<
    Seq<MeetingView>,
    ErrorView,
> {
    match reply {
        Err(failure) => Err(ErrorView::MongoDb(failure)),
        Ok(documents) => {
            if exists|index: int| is_first_unreadable(documents, index) {
                let first = choose|index: int| is_first_unreadable(documents, index);
                Err(
                    ErrorView::Deserialization(
                        MeetingDocumentView::decode(documents[first])->Err_0,
                    ),
                )
            } else {
                Ok(
                    Seq::new(
                        documents.len(),
                        |i: int| MeetingDocumentView::decode(documents[i])->Ok_0.into_meeting(),
                    ),
                )
            }
        },
    }
}

/// The builder makes no operation exactly where the request names no
/// field.
pub proof fn lemma_no_operations(update: UpdateMeetingView)
    ensures
        update_operations(update).len() == 0 <==> update.is_empty(),
{
    let operations = Seq::<SetOperationView>::empty();
    let titled = then_set(operations, TITLE@, text_value(update.title));
    let authored = then_set(titled, AUTHOR@, text_value(update.author));
    let described = then_set(authored, DESCRIPTION@, text_value(update.description));
    let dated = then_set(described, DATE@, timestamp_value(update.date));
    let located = then_set(dated, LOCATION@, text_value(update.location));
    let pitched = then_set(located, PITCHED_BY@, text_value(update.pitched_by));
    let suggested = then_set(
        pitched,
        FIRST_SUGGESTED@,
        timestamp_value(update.first_suggested),
    );
    let supported = then_set(suggested, SUPPORTERS@, list_value(update.supporters));
    assert(titled.len() >= 0);
    assert(authored.len() >= titled.len());
    assert(described.len() >= authored.len());
    assert(dated.len() >= described.len());
    assert(located.len() >= dated.len());
    assert(pitched.len() >= located.len());
    assert(suggested.len() >= pitched.len());
    assert(supported.len() >= suggested.len());
}

/// Builds one operation for each field that the request names. The
/// repository sends them for what the request changes.
pub fn build_update(update_meeting: UpdateMeeting) -> (updates: Vec<SetOperation>)
    ensures
        updates.deep_view() == update_operations(update_meeting@),
{
    let mut updates: Vec<SetOperation> = Vec::new();
    assert(updates.deep_view() =~= Seq::<SetOperationView>::empty());
    push_set(&mut updates, TITLE, text_of(update_meeting.title));
    push_set(&mut updates, AUTHOR, text_of(update_meeting.author));
    push_set(&mut updates, DESCRIPTION, text_of(update_meeting.description));
    push_set(&mut updates, DATE, timestamp_of(update_meeting.date));
    push_set(&mut updates, LOCATION, text_of(update_meeting.location));
    push_set(&mut updates, PITCHED_BY, text_of(update_meeting.pitched_by));
    push_set(&mut updates, FIRST_SUGGESTED, timestamp_of(update_meeting.first_suggested));
    push_set(&mut updates, SUPPORTERS, list_of(update_meeting.supporters));
    updates
}

/// Gives access to the collection of meetings.
#[derive(Debug, Clone, PartialEq, Eq)]
pub struct MeetingRepository {
    collection: String,
}

impl MeetingRepository {
    /// The name of the collection that the repository works on.
    pub closed spec fn collection_name(&self) -> Seq<char> {
        self.collection@
    }

    /// Creates a repository on the collection with the given name.
    pub fn new(collection: String) -> (repository: Self)
        ensures
            repository.collection_name() == collection@,
    {
        Self { collection }
    }

    /// The name of the collection that the repository works on.
    pub fn collection(&self) -> (name: &str)
        ensures
            name@ == self.collection_name(),
    {
        self.collection.as_str()
    }

    /// Prepares the insert of a new meeting, with the server's clock as its
    /// creation time.
    pub fn insert_meeting(&self, create_meeting: &CreateMeeting) -> (pending: PendingInsert)
        ensures
            pending.command@ == insert_command(create_meeting@, pending.first_suggested),
    {
        let first_suggested = now_millis();
        let command = self.insert_meeting_at(create_meeting, first_suggested);
        PendingInsert { first_suggested, command }
    }

    /// Prepares the insert of a new meeting that was created at the given
    /// time.
    pub fn insert_meeting_at(
        &self,
        create_meeting: &CreateMeeting,
        first_suggested: i64,
    ) -> (command: StoreCommand)
        ensures
            command@ == insert_command(create_meeting@, first_suggested),
    {
        let mut document = empty_document();
        set_field(&mut document, DATE, or_null_of(timestamp_of(create_meeting.date)));
        let location = copy_text(&create_meeting.location);
        set_field(&mut document, LOCATION, or_null_of(text_of(location)));
        set_field(&mut document, TITLE, Value::Text(create_meeting.title.clone()));
        set_field(&mut document, AUTHOR, Value::Text(create_meeting.author.clone()));
        set_field(&mut document, DESCRIPTION, Value::Text(create_meeting.description.clone()));
        set_field(&mut document, PITCHED_BY, Value::Text(create_meeting.pitched_by.clone()));
        set_field(&mut document, FIRST_SUGGESTED, Value::Timestamp(first_suggested));
        set_field(&mut document, SUPPORTERS, Value::texts(&create_meeting.supporters));
        StoreCommand::InsertOne { document }
    }

    /// Reads the store's reply to an insert: the text of the new meeting's
    /// identifier.
    pub fn inserted_meeting(&self, reply: Result<Option<Identifier>, StoreFailure>) -> (res: Result<
        String,
        Error,
    >)
        ensures
            outcome(res) == inserted_id(outcome(reply)),
    {
        match reply {
            Err(failure) => Err(Error::MongoDb(failure)),
            Ok(Some(id)) => Ok(id.render()),
            Ok(None) => Err(Error::BadObjectId),
        }
    }

    /// Prepares an update. The meeting is named by `update_meeting.id`. The
    /// creation time is left alone, whatever the request says of it, and
    /// supporters that the request names are stored each once.
    pub fn update_meeting(&self, update_meeting: UpdateMeeting) -> (res: Result<
        StoreCommand,
        Error,
    >)
        ensures
            outcome(res) == update_command(update_meeting@),
    {
        let id = match Identifier::parse(update_meeting.id.as_str()) {
            Ok(id) => id,
            Err(error) => return Err(Error::ObjectId(error)),
        };
        proof {
            lemma_no_operations(update_meeting@.changes());
        }
        let changes = UpdateMeeting {
            id: update_meeting.id,
            date: update_meeting.date,
            location: update_meeting.location,
            title: update_meeting.title,
            author: update_meeting.author,
            description: update_meeting.description,
            pitched_by: update_meeting.pitched_by,
            first_suggested: None,
            supporters: match update_meeting.supporters {
                Some(supporters) => Some(distinct_texts(supporters)),
                None => None,
            },
        };
        assert(changes@ == update_meeting@.changes());
        let update = build_update(changes);
        if update.len() == 0 {
            Ok(StoreCommand::FindOne { id })
        } else {
            Ok(StoreCommand::FindOneAndUpdate { id, update })
        }
    }

    /// Reads the store's reply to an update: the meeting as it is now.
    pub fn updated_meeting(&self, reply: Result<Option<Document>, StoreFailure>) -> (res: Result<
        Meeting,
        Error,
    >)
        ensures
            outcome(res) == found_meeting(found_view(reply)),
    {
        match reply {
            Err(failure) => Err(Error::MongoDb(failure)),
            Ok(None) => Err(Error::NoSuchMeeting),
            Ok(Some(document)) => match MeetingDocument::decode(&document) {
                Ok(stored) => Ok(stored.into_meeting()),
                Err(error) => Err(Error::Deserialization(error)),
            },
        }
    }

    /// Prepares the listing of all meetings.
    pub fn meetings(&self) -> (command: StoreCommand)
        ensures
            command@ == StoreCommandView::FindAll,
    {
        StoreCommand::FindAll
    }

    /// Reads the store's reply to a listing: all meetings.
    pub fn listed_meetings(&self, reply: Result<Vec<Document>, StoreFailure>) -> (res: Result<
        Vec<Meeting>,
        Error,
    >)
        ensures
            outcome(res) == listed_meetings(listed_view(reply)),
    {
        let documents = match reply {
            Ok(documents) => documents,
            Err(failure) => return Err(Error::MongoDb(failure)),
        };
        let mut meetings: Vec<Meeting> = Vec::new();
        let mut i: usize = 0;
        while i < documents.len()
            invariant
                i <= documents.len(),
                meetings.len() == i,
                listed_view(reply) == Ok::<Seq<DocumentView>, Seq<char>>(contents(documents@)),
                forall|j: int|
                    0 <= j < i ==> (#[trigger] MeetingDocumentView::decode(
                        contents(documents@)[j],
                    )) is Ok,
                forall|j: int|
                    0 <= j < i ==> (#[trigger] meetings@[j])@ == MeetingDocumentView::decode(
                        contents(documents@)[j],
                    )->Ok_0.into_meeting(),
            decreases documents.len() - i,
        {
            match MeetingDocument::decode(&documents[i]) {
                Ok(stored) => meetings.push(stored.into_meeting()),
                Err(error) => {
                    assert(is_first_unreadable(contents(documents@), i as int));
                    let ghost first = choose|index: int|
                        is_first_unreadable(contents(documents@), index);
                    assert(first == i);
                    return Err(Error::Deserialization(error));
                },
            }
            i = i + 1;
        }
        assert(forall|index: int| !is_first_unreadable(contents(documents@), index));
        assert(meetings.deep_view() =~= Seq::new(
            contents(documents@).len(),
            |i: int| MeetingDocumentView::decode(contents(documents@)[i])->Ok_0.into_meeting(),
        ));
        Ok(meetings)
    }
}

} // verus!
