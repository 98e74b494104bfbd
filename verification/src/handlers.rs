//! The HTTP boundary, as far as it decides anything: the requests as they
//! arrive, and the status and body of an error response.

use crate::book::UpdateBook;
use crate::book_service::{Error as BookError, ErrorView as BookErrorView};
use crate::meeting::UpdateMeeting;
use crate::meeting_service::{Error as MeetingError, ErrorView as MeetingErrorView};
use vstd::prelude::*;

verus! {

/// The status of a response to a request that failed by the caller's fault.
pub const BAD_REQUEST: u16 = 400;

/// The status of a response to a request that failed inside.
pub const INTERNAL_SERVER_ERROR: u16 = 500;

/// The body of a non-2XX (error) response.
#[derive(Debug, Clone, PartialEq, Eq)]
pub struct ErrorResponse {
    pub status_code: u16,
    pub message: String,
}

/// The mathematical content of an `ErrorResponse`.
pub struct ErrorResponseView {
    pub status_code: u16,
    pub message: Seq<char>,
}

impl View for ErrorResponse {
    type V = ErrorResponseView;

    open spec fn view(&self) -> ErrorResponseView {
        ErrorResponseView { status_code: self.status_code, message: self.message@ }
    }
}

/// An API request for updating a book.
#[derive(Debug, Clone, PartialEq, Eq)]
pub struct UpdateBookRequest {
    pub title: Option<String>,
    pub author: Option<String>,
    pub description: Option<String>,
    pub page_count: Option<u32>,
    pub pitch_by: Option<String>,
    pub first_suggested: Option<i64>,
    pub supporters: Option<Vec<String>>,
}

impl UpdateBookRequest {
    /// The update that this request asks for the book with the given
    /// identifier: every field as the request has it.
    pub open spec fn for_book(self, id: String) -> UpdateBook {
        UpdateBook {
            id,
            title: self.title,
            author: self.author,
            description: self.description,
            page_count: self.page_count,
            pitch_by: self.pitch_by,
            first_suggested: self.first_suggested,
            supporters: self.supporters,
        }
    }

    /// Joins the request with the identifier from the path.
    pub fn into(self, id: String) -> (update_book: UpdateBook)
        ensures
            update_book == self.for_book(id),
    {
        UpdateBook {
            id,
            title: self.title,
            author: self.author,
            description: self.description,
            page_count: self.page_count,
            pitch_by: self.pitch_by,
            first_suggested: self.first_suggested,
            supporters: self.supporters,
        }
    }
}

/// An API request for updating a meeting.
#[derive(Debug, Clone, PartialEq, Eq)]
pub struct UpdateMeetingRequest {
    pub date: Option<i64>,
    pub location: Option<String>,
    pub title: Option<String>,
    pub author: Option<String>,
    pub description: Option<String>,
    pub pitched_by: Option<String>,
    pub first_suggested: Option<i64>,
    pub supporters: Option<Vec<String>>,
}

impl UpdateMeetingRequest {
    /// The update that this request asks for the meeting with the given
    /// identifier: every field as the request has it.
    pub open spec fn for_meeting(self, id: String) -> UpdateMeeting {
        UpdateMeeting {
            id,
            date: self.date,
            location: self.location,
            title: self.title,
            author: self.author,
            description: self.description,
            pitched_by: self.pitched_by,
            first_suggested: self.first_suggested,
            supporters: self.supporters,
        }
    }

    /// Joins the request with the identifier from the path.
    pub fn into(self, id: String) -> (update_meeting: UpdateMeeting)
        ensures
            update_meeting == self.for_meeting(id),
    {
        UpdateMeeting {
            id,
            date: self.date,
            location: self.location,
            title: self.title,
            author: self.author,
            description: self.description,
            pitched_by: self.pitched_by,
            first_suggested: self.first_suggested,
            supporters: self.supporters,
        }
    }
}

impl BookErrorView {
    /// The status of the response: 400 for the caller's fault, 500 for an
    /// internal error.
    pub open spec fn status_code(self) -> u16 {
        match self {
            BookErrorView::Internal(_) => INTERNAL_SERVER_ERROR,
            BookErrorView::User(_) => BAD_REQUEST,
        }
    }

    /// The body of the response: the status and the text for the caller.
    pub open spec fn error_response(self) -> ErrorResponseView {
        ErrorResponseView { status_code: self.status_code(), message: self.message() }
    }
}

impl BookError {
    /// The status of the response to a request that failed with this error.
    pub fn status_code(&self) -> (status: u16)
        ensures
            status == self@.status_code(),
    {
        match self {
            BookError::Internal(_) => INTERNAL_SERVER_ERROR,
            BookError::User(_) => BAD_REQUEST,
        }
    }

    /// The body of the response to a request that failed with this error.
    pub fn error_response(&self) -> (response: ErrorResponse)
        ensures
            response@ == self@.error_response(),
    {
        ErrorResponse { status_code: self.status_code(), message: self.to_string() }
    }
}

impl MeetingErrorView {
    /// The status of the response: 400 for the caller's fault, 500 for an
    /// internal error.
    pub open spec fn status_code(self) -> u16 {
        match self {
            MeetingErrorView::Internal(_) => INTERNAL_SERVER_ERROR,
            MeetingErrorView::User(_) => BAD_REQUEST,
        }
    }

    /// The body of the response: the status and the text for the caller.
    pub open spec fn error_response(self) -> ErrorResponseView {
        ErrorResponseView { status_code: self.status_code(), message: self.message() }
    }
}

impl MeetingError {
    /// The status of the response to a request that failed with this error.
    pub fn status_code(&self) -> (status: u16)
        ensures
            status == self@.status_code(),
    {
        match self {
            MeetingError::Internal(_) => INTERNAL_SERVER_ERROR,
            MeetingError::User(_) => BAD_REQUEST,
        }
    }

    /// The body of the response to a request that failed with this error.
    pub fn error_response(&self) -> (response: ErrorResponse)
        ensures
            response@ == self@.error_response(),
    {
        ErrorResponse { status_code: self.status_code(), message: self.to_string() }
    }
}

} // verus!
