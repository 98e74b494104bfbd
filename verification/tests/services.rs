use bookclub_api::book_repository::{BookRepository, Error as BookRepositoryError};
use bookclub_api::book_service::{BookService, Error as BookError};
use bookclub_api::document::DecodeError;
use bookclub_api::identifier::{Identifier, InvalidIdentifier};
use bookclub_api::meeting_repository::{Error as MeetingRepositoryError, MeetingRepository};
use bookclub_api::meeting_service::{Error as MeetingError, MeetingService};
use bookclub_api::store::{StoreCommand, StoreFailure};
use bookclub_api::{
    BookResponse, CreateBook, CreateMeeting, ErrorResponse, Meeting, UpdateBook,
    UpdateBookRequest, UpdateMeeting, UpdateMeetingRequest, VoteBook,
};

const ID: &str = "5f8d0d55b54764421b7156c3";

fn book_service() -> BookService {
    BookService::new(BookRepository::new("books".to_string()))
}

fn meeting_service() -> MeetingService {
    MeetingService::new(MeetingRepository::new("meetings".to_string()))
}

fn dune() -> CreateBook {
    CreateBook {
        title: "Dune".to_string(),
        author: "Frank Herbert".to_string(),
        description: "Sand.".to_string(),
        page_count: 412,
        pitch_by: "alice".to_string(),
        supporters: vec![],
    }
}

fn emma() -> CreateMeeting {
    CreateMeeting {
        date: None,
        location: Some("library".to_string()),
        title: "Emma".to_string(),
        author: "Jane Austen".to_string(),
        description: "Matchmaking.".to_string(),
        pitched_by: "carol".to_string(),
        supporters: vec!["carol".to_string()],
    }
}

fn failure() -> StoreFailure {
    StoreFailure { message: "connection refused to 10.0.0.7".to_string() }
}

#[test]
fn a_missing_book_and_an_invalid_identifier_are_the_callers_fault() {
    assert_eq!(
        BookError::from(BookRepositoryError::NoSuchBook),
        BookError::User("Book does not exist.".to_string())
    );
    assert_eq!(
        BookError::from(BookRepositoryError::ObjectId(InvalidIdentifier)),
        BookError::User("Invalid ID.".to_string())
    );
    assert_eq!(
        MeetingError::from(MeetingRepositoryError::NoSuchMeeting),
        MeetingError::User("Meeting does not exist.".to_string())
    );
    assert_eq!(
        MeetingError::from(MeetingRepositoryError::ObjectId(InvalidIdentifier)),
        MeetingError::User("Invalid ID.".to_string())
    );
}

#[test]
fn every_other_error_is_internal_and_keeps_its_cause_inside() {
    let causes = vec![
        BookRepositoryError::Serialization("too deep".to_string()),
        BookRepositoryError::Deserialization(DecodeError::MissingField("title")),
        BookRepositoryError::MongoDb(failure()),
        BookRepositoryError::BadObjectId,
    ];
    for cause in causes {
        let error = BookError::from(cause.clone());
        assert_eq!(error, BookError::Internal(cause));
        assert_eq!(error.to_string(), "An internal error occurred.");
        assert_eq!(error.status_code(), 500);
    }
    let causes = vec![
        MeetingRepositoryError::Serialization("too deep".to_string()),
        MeetingRepositoryError::Deserialization(DecodeError::InvalidType("date")),
        MeetingRepositoryError::MongoDb(failure()),
        MeetingRepositoryError::BadObjectId,
    ];
    for cause in causes {
        let error = MeetingError::from(cause.clone());
        assert_eq!(error, MeetingError::Internal(cause));
        assert_eq!(error.to_string(), "An internal error occurred.");
        assert_eq!(error.status_code(), 500);
    }
}

#[test]
fn a_user_error_shows_its_text_with_status_400() {
    let error = BookError::User("Book does not exist.".to_string());
    assert_eq!(error.to_string(), "Book does not exist.");
    assert_eq!(error.status_code(), 400);
    assert_eq!(
        error.error_response(),
        ErrorResponse { status_code: 400, message: "Book does not exist.".to_string() }
    );
    let error = MeetingError::User("Invalid ID.".to_string());
    assert_eq!(
        error.error_response(),
        ErrorResponse { status_code: 400, message: "Invalid ID.".to_string() }
    );
}

#[test]
fn an_internal_error_answers_with_status_500_and_the_one_text() {
    assert_eq!(
        BookError::Internal(BookRepositoryError::MongoDb(failure())).error_response(),
        ErrorResponse { status_code: 500, message: "An internal error occurred.".to_string() }
    );
    assert_eq!(
        MeetingError::Internal(MeetingRepositoryError::BadObjectId).error_response(),
        ErrorResponse { status_code: 500, message: "An internal error occurred.".to_string() }
    );
}

#[test]
fn get_of_an_invalid_identifier_is_a_user_error_unlike_not_found() {
    let invalid = book_service().book("not-a-valid-id").unwrap_err();
    let missing = book_service().found_book(Ok(None)).unwrap_err();
    assert_eq!(invalid, BookError::User("Invalid ID.".to_string()));
    assert_eq!(missing, BookError::User("Book does not exist.".to_string()));
    assert_ne!(invalid, missing);
    assert_eq!(invalid.status_code(), 400);
    assert_eq!(missing.status_code(), 400);
}

#[test]
fn the_book_service_forwards_what_the_repository_prepares() {
    let repository = BookRepository::new("books".to_string());
    let service = book_service();
    let id = Identifier::parse(ID).unwrap();
    assert_eq!(service.book(ID), Ok(StoreCommand::FindOne { id }));
    assert_eq!(service.books(), StoreCommand::FindAll);
    assert_eq!(service.delete_book(ID), Ok(StoreCommand::DeleteOne { id }));
    let vote = VoteBook { supporter: "alice".to_string() };
    assert_eq!(service.vote_book(ID, vote.clone()).ok(), repository.vote_book(ID, vote).ok());
    let update = UpdateBookRequest {
        title: Some("Emma".to_string()),
        author: None,
        description: None,
        page_count: Some(474),
        pitch_by: None,
        first_suggested: None,
        supporters: None,
    }
    .into(ID.to_string());
    assert_eq!(
        service.update_book(update.clone()).ok(),
        repository.update_book(update).ok()
    );
    assert_eq!(
        service.delete_book("x"),
        Err(BookError::User("Invalid ID.".to_string()))
    );
    assert_eq!(
        service.vote_book("x", VoteBook { supporter: "alice".to_string() }),
        Err(BookError::User("Invalid ID.".to_string()))
    );
}

#[test]
fn the_book_service_reports_replies_with_its_own_errors() {
    let service = book_service();
    assert_eq!(
        service.found_book(Err(failure())),
        Err(BookError::Internal(BookRepositoryError::MongoDb(failure())))
    );
    assert_eq!(
        service.listed_books(Err(failure())),
        Err(BookError::Internal(BookRepositoryError::MongoDb(failure())))
    );
    assert_eq!(service.listed_books(Ok(vec![])), Ok(vec![]));
    assert_eq!(service.deleted_book(Ok(())), Ok(()));
    assert_eq!(
        service.deleted_book(Err(failure())),
        Err(BookError::Internal(BookRepositoryError::MongoDb(failure())))
    );
}

#[test]
fn a_created_book_is_the_request_with_identifier_and_creation_time() {
    let service = book_service();
    let pending = service.create_book(&dune()).unwrap();
    assert!(matches!(pending.command, StoreCommand::InsertOne { .. }));
    let id = Identifier::parse(ID).unwrap();
    assert_eq!(
        service.created_book(dune(), 1_600_000_000_000, Ok(Some(id))),
        Ok(BookResponse {
            id: ID.to_string(),
            title: "Dune".to_string(),
            author: "Frank Herbert".to_string(),
            description: "Sand.".to_string(),
            page_count: 412,
            pitch_by: "alice".to_string(),
            first_suggested: 1_600_000_000_000,
            supporters: vec![],
        })
    );
    assert_eq!(
        service.created_book(dune(), 0, Ok(None)),
        Err(BookError::Internal(BookRepositoryError::BadObjectId))
    );
    assert_eq!(
        service.created_book(dune(), 0, Err(failure())),
        Err(BookError::Internal(BookRepositoryError::MongoDb(failure())))
    );
}

#[test]
fn a_created_meeting_is_the_request_with_identifier_and_creation_time() {
    let service = meeting_service();
    let pending = service.create_meeting(&emma());
    assert!(matches!(pending.command, StoreCommand::InsertOne { .. }));
    let id = Identifier::parse(ID).unwrap();
    assert_eq!(
        service.created_meeting(emma(), 1_600_000_000_000, Ok(Some(id))),
        Ok(Meeting {
            id: ID.to_string(),
            date: None,
            location: Some("library".to_string()),
            title: "Emma".to_string(),
            author: "Jane Austen".to_string(),
            description: "Matchmaking.".to_string(),
            pitched_by: "carol".to_string(),
            first_suggested: 1_600_000_000_000,
            supporters: vec!["carol".to_string()],
        })
    );
    assert_eq!(
        service.created_meeting(emma(), 0, Ok(None)),
        Err(MeetingError::Internal(MeetingRepositoryError::BadObjectId))
    );
}

#[test]
fn the_meeting_service_forwards_and_reports() {
    let service = meeting_service();
    let update = UpdateMeetingRequest {
        date: None,
        location: None,
        title: None,
        author: None,
        description: None,
        pitched_by: None,
        first_suggested: None,
        supporters: None,
    };
    assert_eq!(
        service.update_meeting(update.clone().into(ID.to_string())),
        Ok(StoreCommand::FindOne { id: Identifier::parse(ID).unwrap() })
    );
    assert_eq!(
        service.update_meeting(update.into("nope".to_string())),
        Err(MeetingError::User("Invalid ID.".to_string()))
    );
    assert_eq!(service.meetings(), StoreCommand::FindAll);
    assert_eq!(
        service.updated_meeting(Ok(None)),
        Err(MeetingError::User("Meeting does not exist.".to_string()))
    );
    assert_eq!(
        service.updated_meeting(Err(failure())),
        Err(MeetingError::Internal(MeetingRepositoryError::MongoDb(failure())))
    );
    assert_eq!(service.listed_meetings(Ok(vec![])), Ok(vec![]));
    assert_eq!(
        service.listed_meetings(Err(failure())),
        Err(MeetingError::Internal(MeetingRepositoryError::MongoDb(failure())))
    );
}

#[test]
fn a_request_joined_with_its_identifier_keeps_every_field() {
    let request = UpdateBookRequest {
        title: Some("Emma".to_string()),
        author: Some("Jane Austen".to_string()),
        description: None,
        page_count: Some(474),
        pitch_by: None,
        first_suggested: Some(5),
        supporters: Some(vec!["carol".to_string()]),
    };
    assert_eq!(
        request.into(ID.to_string()),
        UpdateBook {
            id: ID.to_string(),
            title: Some("Emma".to_string()),
            author: Some("Jane Austen".to_string()),
            description: None,
            page_count: Some(474),
            pitch_by: None,
            first_suggested: Some(5),
            supporters: Some(vec!["carol".to_string()]),
        }
    );
    let request = UpdateMeetingRequest {
        date: Some(7),
        location: Some("library".to_string()),
        title: None,
        author: None,
        description: Some("Matchmaking.".to_string()),
        pitched_by: Some("carol".to_string()),
        first_suggested: None,
        supporters: None,
    };
    assert_eq!(
        request.into("anything".to_string()),
        UpdateMeeting {
            id: "anything".to_string(),
            date: Some(7),
            location: Some("library".to_string()),
            title: None,
            author: None,
            description: Some("Matchmaking.".to_string()),
            pitched_by: Some("carol".to_string()),
            first_suggested: None,
            supporters: None,
        }
    );
}
