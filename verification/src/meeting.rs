//! Meetings: the entity and the requests that create and change one.
//!
//! Points in time are milliseconds since the Unix epoch.

use crate::update::distinct;
use vstd::prelude::*;

verus! {

/// A meeting as callers see it.
#[derive(Debug, Clone, PartialEq, Eq)]
pub struct Meeting {
    pub id: String,
    pub date: Option<i64>,
    pub location: Option<String>,
    pub title: String,
    pub author: String,
    pub description: String,
    pub pitched_by: String,
    pub first_suggested: i64,
    pub supporters: Vec<String>,
}

/// The mathematical content of a `Meeting`.
pub struct MeetingView {
    pub id: Seq<char>,
    pub date: Option<i64>,
    pub location: Option<Seq<char>>,
    pub title: Seq<char>,
    pub author: Seq<char>,
    pub description: Seq<char>,
    pub pitched_by: Seq<char>,
    pub first_suggested: i64,
    pub supporters: Seq<Seq<char>>,
}

impl View for Meeting {
    type V = MeetingView;

    open spec fn view(&self) -> MeetingView {
        MeetingView {
            id: self.id@,
            date: self.date,
            location: self.location.deep_view(),
            title: self.title@,
            author: self.author@,
            description: self.description@,
            pitched_by: self.pitched_by@,
            first_suggested: self.first_suggested,
            supporters: self.supporters.deep_view(),
        }
    }
}

impl DeepView for Meeting {
    type V = MeetingView;

    open spec fn deep_view(&self) -> MeetingView {
        self@
    }
}

/// A request to create a meeting. It names neither an identifier nor a
/// creation time: the repository assigns both.
#[derive(Debug, Clone, PartialEq, Eq)]
pub struct CreateMeeting {
    pub date: Option<i64>,
    pub location: Option<String>,
    pub title: String,
    pub author: String,
    pub description: String,
    pub pitched_by: String,
    pub supporters: Vec<String>,
}

/// The mathematical content of a `CreateMeeting`.
pub struct CreateMeetingView {
    pub date: Option<i64>,
    pub location: Option<Seq<char>>,
    pub title: Seq<char>,
    pub author: Seq<char>,
    pub description: Seq<char>,
    pub pitched_by: Seq<char>,
    pub supporters: Seq<Seq<char>>,
}

impl View for CreateMeeting {
    type V = CreateMeetingView;

    open spec fn view(&self) -> CreateMeetingView {
        CreateMeetingView {
            date: self.date,
            location: self.location.deep_view(),
            title: self.title@,
            author: self.author@,
            description: self.description@,
            pitched_by: self.pitched_by@,
            supporters: self.supporters.deep_view(),
        }
    }
}

/// A request to change a meeting: the text of its identifier, and a new
/// value for each field that is to change. A creation time that it names
/// changes nothing: a meeting keeps the one it was created with.
#[derive(Debug, Clone, PartialEq, Eq)]
pub struct UpdateMeeting {
    pub id: String,
    pub date: Option<i64>,
    pub location: Option<String>,
    pub title: Option<String>,
    pub author: Option<String>,
    pub description: Option<String>,
    pub pitched_by: Option<String>,
    pub first_suggested: Option<i64>,
    pub supporters: Option<Vec<String>>,
}

/// The mathematical content of an `UpdateMeeting`.
pub struct UpdateMeetingView {
    pub id: Seq<char>,
    pub date: Option<i64>,
    pub location: Option<Seq<char>>,
    pub title: Option<Seq<char>>,
    pub author: Option<Seq<char>>,
    pub description: Option<Seq<char>>,
    pub pitched_by: Option<Seq<char>>,
    pub first_suggested: Option<i64>,
    pub supporters: Option<Seq<Seq<char>>>,
}

impl View for UpdateMeeting {
    type V = UpdateMeetingView;

    open spec fn view(&self) -> UpdateMeetingView {
        UpdateMeetingView {
            id: self.id@,
            date: self.date,
            location: self.location.deep_view(),
            title: self.title.deep_view(),
            author: self.author.deep_view(),
            description: self.description.deep_view(),
            pitched_by: self.pitched_by.deep_view(),
            first_suggested: self.first_suggested,
            supporters: self.supporters.deep_view(),
        }
    }
}

impl UpdateMeetingView {
    /// The meeting that this request makes of `meeting`: each field that the
    /// request names has the request's value, every other field is as it
    /// was. The creation time is never changed, whatever the request says
    /// of it, and supporters that the request names are kept each once.
    pub open spec fn applied_to(self, meeting: MeetingView) -> MeetingView {
        MeetingView {
            id: meeting.id,
            date: match self.date {
                Some(date) => Some(date),
                None => meeting.date,
            },
            location: match self.location {
                Some(location) => Some(location),
                None => meeting.location,
            },
            title: self.title.unwrap_or(meeting.title),
            author: self.author.unwrap_or(meeting.author),
            description: self.description.unwrap_or(meeting.description),
            pitched_by: self.pitched_by.unwrap_or(meeting.pitched_by),
            first_suggested: meeting.first_suggested,
            supporters: match self.supporters {
                Some(supporters) => distinct(supporters),
                None => meeting.supporters,
            },
        }
    }

    /// What the request changes: the request without a creation time, and
    /// with the supporters that it names each once.
    pub open spec fn changes(self) -> UpdateMeetingView {
        UpdateMeetingView {
            first_suggested: None,
            supporters: match self.supporters {
                Some(supporters) => Some(distinct(supporters)),
                None => None,
            },
            ..self
        }
    }

    /// Whether the request changes nothing: it names no field but, at
    /// most, the creation time.
    pub open spec fn changes_nothing(self) -> bool {
        self.changes().is_empty()
    }

    /// Whether the request names no field.
    pub open spec fn is_empty(self) -> bool {
        &&& self.date is None
        &&& self.location is None
        &&& self.title is None
        &&& self.author is None
        &&& self.description is None
        &&& self.pitched_by is None
        &&& self.first_suggested is None
        &&& self.supporters is None
    }
}

} // verus!
