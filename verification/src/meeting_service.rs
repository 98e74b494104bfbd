//! The meetings domain: forwards every call to the repository and decides
//! which of the repository's errors a caller may see.

use crate::identifier::Identifier;
use crate::meeting::{CreateMeeting, CreateMeetingView, Meeting, MeetingView, UpdateMeeting};
use crate::meeting_repository::{
    found_meeting, insert_command, inserted_id, listed_meetings, update_command,
    Error as RepositoryError, ErrorView as RepositoryErrorView, MeetingRepository,
};
use crate::store::{
    found_view, listed_view, PendingInsert, StoreCommand, StoreCommandView, StoreFailure,
};
use crate::views::outcome;
use mongodb::bson::Document;
use vstd::prelude::*;

verus! {

/// The error type for everything: either the caller's fault, with a text
/// for the caller, or an internal error, whose cause stays inside.
#[derive(Debug, Clone, PartialEq, Eq)]
pub enum Error {
    Internal(RepositoryError),
    User(String),
}

/// The mathematical content of an `Error`.
pub enum ErrorView {
    Internal(RepositoryErrorView),
    User(Seq<char>),
}

impl View for Error {
    type V = ErrorView;

    open spec fn view(&self) -> ErrorView {
        match self {
            Error::Internal(cause) => ErrorView::Internal(cause@),
            Error::User(message) => ErrorView::User(message@),
        }
    }
}

impl DeepView for Error {
    type V = ErrorView;

    open spec fn deep_view(&self) -> ErrorView {
        self@
    }
}

impl ErrorView {
    /// The error that the service makes of an error of the repository: a
    /// missing meeting and a text that is no identifier are the caller's
    /// fault and keep their text; everything else is internal.
    pub open spec fn from(error: RepositoryErrorView) -> ErrorView {
        match error {
            RepositoryErrorView::NoSuchMeeting => ErrorView::User(error.message()),
            RepositoryErrorView::ObjectId => ErrorView::User(error.message()),
            _ => ErrorView::Internal(error),
        }
    }

    /// The text for the caller. An internal error has one text, whatever
    /// its cause.
    pub open spec fn message(self) -> Seq<char> {
        match self {
            ErrorView::Internal(_) => "An internal error occurred."@,
            ErrorView::User(message) => message,
        }
    }
}

/// A result of the repository, with its error as the service reports it.
pub open spec fn reported<T>(result: Result<T, RepositoryErrorView>) -> Result<T, ErrorView> {
    match result {
        Ok(value) => Ok(value),
        Err(error) => Err(ErrorView::from(error)),
    }
}

/// The meeting that a successful insert has created.
pub open spec fn created(
    create: CreateMeetingView,
    first_suggested: i64,
    id: Seq<char>,
) -> MeetingView {
    MeetingView {
        id,
        date: create.date,
        location: create.location,
        title: create.title,
        author: create.author,
        description: create.description,
        pitched_by: create.pitched_by,
        first_suggested,
        supporters: create.supporters,
    }
}

/// What the reply to an insert means: the new meeting, which is the
/// request with the identifier that the store assigned and the creation
/// time that the insert carried.
pub open spec fn created_meeting(
    create: CreateMeetingView,
    first_suggested: i64,
    reply: Result<Option<Seq<u8>>, Seq<char>>,
) -> Result<MeetingView, ErrorView> {
    match reported(inserted_id(reply)) {
        Ok(id) => Ok(created(create, first_suggested, id)),
        Err(error) => Err(error),
    }
}

impl Error {
    /// Makes the service's error of an error of the repository.
    pub fn from(err: RepositoryError) -> (error: Error)
        ensures
            error@ == ErrorView::from(err@),
    {
        match err {
            RepositoryError::NoSuchMeeting => Error::User(err.to_string()),
            RepositoryError::ObjectId(_) => Error::User(err.to_string()),
            err => Error::Internal(err),
        }
    }

    /// The text for the caller.
    pub fn to_string(&self) -> (text: String)
        ensures
            text@ == self@.message(),
    {
        match self {
            Error::Internal(_) => "An internal error occurred.".to_owned(),
            Error::User(message) => message.clone(),
        }
    }
}

/// Represents the meetings domain.
#[derive(Debug, Clone, PartialEq, Eq)]
pub struct MeetingService {
    repository: MeetingRepository,
}

impl MeetingService {
    /// The repository that the service works with.
    pub closed spec fn repository(&self) -> MeetingRepository {
        self.repository
    }

    /// Creates a new service.
    pub fn new(repository: MeetingRepository) -> (service: Self)
        ensures
            service.repository() == repository,
    {
        Self { repository }
    }

    /// Prepares the creation of a meeting.
    pub fn create_meeting(&self, create_meeting: &CreateMeeting) -> (pending: PendingInsert)
        ensures
            pending.command@ == insert_command(create_meeting@, pending.first_suggested),
    {
        self.repository.insert_meeting(create_meeting)
    }

    /// Reads the store's reply to the insert that `create_meeting` prepared
    /// with the given creation time: the new meeting.
    pub fn created_meeting(
        &self,
        create_meeting: CreateMeeting,
        first_suggested: i64,
        reply: Result<Option<Identifier>, StoreFailure>,
    ) -> (res: Result<Meeting, Error>)
        ensures
            outcome(res) == created_meeting(create_meeting@, first_suggested, outcome(reply)),
    {
        let id = match self.repository.inserted_meeting(reply) {
            Ok(id) => id,
            Err(error) => return Err(Error::from(error)),
        };
        Ok(
            Meeting {
                id,
                date: create_meeting.date,
                location: create_meeting.location,
                title: create_meeting.title,
                author: create_meeting.author,
                description: create_meeting.description,
                pitched_by: create_meeting.pitched_by,
                first_suggested,
                supporters: create_meeting.supporters,
            },
        )
    }

    /// Prepares an update of a meeting.
    pub fn update_meeting(&self, update_meeting: UpdateMeeting) -> (res: Result<
        StoreCommand,
        Error,
    >)
        ensures
            outcome(res) == reported(update_command(update_meeting@)),
    {
        match self.repository.update_meeting(update_meeting) {
            Ok(command) => Ok(command),
            Err(error) => Err(Error::from(error)),
        }
    }

    /// Reads the store's reply to an update: the meeting as it is now.
    pub fn updated_meeting(&self, reply: Result<Option<Document>, StoreFailure>) -> (res: Result<
        Meeting,
        Error,
    >)
        ensures
            outcome(res) == reported(found_meeting(found_view(reply))),
    {
        match self.repository.updated_meeting(reply) {
            Ok(meeting) => Ok(meeting),
            Err(error) => Err(Error::from(error)),
        }
    }

    /// Prepares the listing of all meetings.
    pub fn meetings(&self) -> (command: StoreCommand)
        ensures
            command@ == StoreCommandView::FindAll,
    {
        self.repository.meetings()
    }

    /// Reads the store's reply to a listing: all meetings.
    pub fn listed_meetings(&self, reply: Result<Vec<Document>, StoreFailure>) -> (res: Result<
        Vec<Meeting>,
        Error,
    >)
        ensures
            outcome(res) == reported(listed_meetings(listed_view(reply))),
    {
        match self.repository.listed_meetings(reply) {
            Ok(meetings) => Ok(meetings),
            Err(error) => Err(Error::from(error)),
        }
    }
}

} // verus!
