use bookclub_api::document::{empty_document, field_value, set_field, DecodeError, Value};
use bookclub_api::identifier::{Identifier, InvalidIdentifier};
use bookclub_api::meeting_repository::{build_update, Error, MeetingDocument, MeetingRepository};
use bookclub_api::store::{StoreCommand, StoreFailure};
use bookclub_api::update::{Expression, SetOperation};
use bookclub_api::{CreateMeeting, Meeting, UpdateMeeting};
use mongodb::bson::Document;

const ID: &str = "60a7b8c9d0e1f2a3b4c5d6e7";

fn meeting_repository() -> MeetingRepository {
    MeetingRepository::new("meetings".to_string())
}

fn no_meeting_update(id: &str) -> UpdateMeeting {
    UpdateMeeting {
        id: id.to_string(),
        date: None,
        location: None,
        title: None,
        author: None,
        description: None,
        pitched_by: None,
        first_suggested: None,
        supporters: None,
    }
}

fn set(field: &str, value: Value) -> SetOperation {
    SetOperation { field: field.to_string(), value: Expression::Literal(value) }
}

fn text(value: &str) -> Value {
    Value::Text(value.to_string())
}

fn emma() -> CreateMeeting {
    CreateMeeting {
        date: Some(1_650_000_000_000),
        location: None,
        title: "Emma".to_string(),
        author: "Jane Austen".to_string(),
        description: "Matchmaking.".to_string(),
        pitched_by: "carol".to_string(),
        supporters: vec!["carol".to_string()],
    }
}

fn stored_emma() -> Document {
    let mut document = empty_document();
    set_field(&mut document, "_id", Value::Id(Identifier::parse(ID).unwrap()));
    set_field(&mut document, "date", Value::Timestamp(1_650_000_000_000));
    set_field(&mut document, "location", Value::Null);
    set_field(&mut document, "title", text("Emma"));
    set_field(&mut document, "author", text("Jane Austen"));
    set_field(&mut document, "description", text("Matchmaking."));
    set_field(&mut document, "pitchedBy", text("carol"));
    set_field(&mut document, "firstSuggested", Value::Timestamp(1_600_000_000_000));
    set_field(&mut document, "supporters", Value::texts(&vec!["carol".to_string()]));
    document
}

fn without(document: &Document, name: &str) -> Document {
    let mut rest = document.clone();
    rest.remove(name);
    rest
}

#[test]
fn the_meeting_repository_keeps_the_name_of_its_collection() {
    assert_eq!(meeting_repository().collection(), "meetings");
}

#[test]
fn build_update_of_a_meeting_without_fields_has_no_operation() {
    assert_eq!(build_update(no_meeting_update(ID)), vec![]);
}

#[test]
fn build_update_of_a_meeting_sets_each_named_field_in_order() {
    let update = UpdateMeeting {
        id: ID.to_string(),
        date: Some(1_650_000_000_000),
        location: Some("library".to_string()),
        title: Some("Emma".to_string()),
        author: Some("Jane Austen".to_string()),
        description: Some("Matchmaking.".to_string()),
        pitched_by: Some("carol".to_string()),
        first_suggested: Some(1_600_000_000_000),
        supporters: Some(vec!["carol".to_string()]),
    };
    assert_eq!(
        build_update(update),
        vec![
            set("title", text("Emma")),
            set("author", text("Jane Austen")),
            set("description", text("Matchmaking.")),
            set("date", Value::Timestamp(1_650_000_000_000)),
            set("location", text("library")),
            set("pitchedBy", text("carol")),
            set("firstSuggested", Value::Timestamp(1_600_000_000_000)),
            set("supporters", Value::texts(&vec!["carol".to_string()])),
        ]
    );
}

#[test]
fn build_update_of_a_meeting_leaves_out_what_is_not_named() {
    let update = UpdateMeeting {
        pitched_by: Some("dave".to_string()),
        date: Some(-1),
        ..no_meeting_update(ID)
    };
    assert_eq!(
        build_update(update),
        vec![set("date", Value::Timestamp(-1)), set("pitchedBy", text("dave"))]
    );
}

#[test]
fn insert_meeting_at_stores_the_request_and_the_creation_time() {
    let command = meeting_repository().insert_meeting_at(&emma(), 1_600_000_000_000);
    let StoreCommand::InsertOne { document } = command else {
        panic!("an insert sends an insert");
    };
    assert_eq!(document.len(), 8);
    assert_eq!(field_value(&document, "date"), Some(Value::Timestamp(1_650_000_000_000)));
    assert_eq!(field_value(&document, "location"), Some(Value::Null));
    assert_eq!(field_value(&document, "title"), Some(text("Emma")));
    assert_eq!(field_value(&document, "author"), Some(text("Jane Austen")));
    assert_eq!(field_value(&document, "description"), Some(text("Matchmaking.")));
    assert_eq!(field_value(&document, "pitchedBy"), Some(text("carol")));
    assert_eq!(
        field_value(&document, "firstSuggested"),
        Some(Value::Timestamp(1_600_000_000_000))
    );
    assert_eq!(
        field_value(&document, "supporters"),
        Some(Value::texts(&vec!["carol".to_string()]))
    );
    assert_eq!(field_value(&document, "_id"), None);
}

#[test]
fn insert_meeting_at_stores_a_missing_date_as_null_and_a_location_as_text() {
    let create = CreateMeeting { date: None, location: Some("library".to_string()), ..emma() };
    let StoreCommand::InsertOne { document } =
        meeting_repository().insert_meeting_at(&create, 0)
    else {
        panic!("an insert sends an insert");
    };
    assert_eq!(field_value(&document, "date"), Some(Value::Null));
    assert_eq!(field_value(&document, "location"), Some(text("library")));
    assert_eq!(field_value(&document, "firstSuggested"), Some(Value::Timestamp(0)));
}

#[test]
fn insert_meeting_stamps_the_document_with_the_time_it_reports() {
    let pending = meeting_repository().insert_meeting(&emma());
    assert!(pending.first_suggested > 1_600_000_000_000);
    assert_eq!(
        pending.command,
        meeting_repository().insert_meeting_at(&emma(), pending.first_suggested)
    );
}

#[test]
fn inserted_meeting_reads_the_identifier_of_the_reply() {
    let id = Identifier::parse(ID).unwrap();
    assert_eq!(meeting_repository().inserted_meeting(Ok(Some(id))), Ok(ID.to_string()));
    assert_eq!(
        meeting_repository().inserted_meeting(Ok(None)),
        Err(Error::BadObjectId)
    );
    let failure = StoreFailure { message: "no primary".to_string() };
    assert_eq!(
        meeting_repository().inserted_meeting(Err(failure.clone())),
        Err(Error::MongoDb(failure))
    );
}

#[test]
fn an_update_of_a_meeting_is_one_find_and_modify() {
    let update = UpdateMeeting { location: Some("library".to_string()), ..no_meeting_update(ID) };
    assert_eq!(
        meeting_repository().update_meeting(update),
        Ok(StoreCommand::FindOneAndUpdate {
            id: Identifier::parse(ID).unwrap(),
            update: vec![set("location", text("library"))],
        })
    );
}

#[test]
fn an_update_of_a_meeting_without_fields_still_looks_it_up() {
    assert_eq!(
        meeting_repository().update_meeting(no_meeting_update(ID)),
        Ok(StoreCommand::FindOne { id: Identifier::parse(ID).unwrap() })
    );
}

#[test]
fn an_update_of_a_meeting_refuses_an_invalid_identifier() {
    assert_eq!(
        meeting_repository().update_meeting(no_meeting_update("not-a-valid-id")),
        Err(Error::ObjectId(InvalidIdentifier))
    );
    assert_eq!(
        meeting_repository().update_meeting(UpdateMeeting {
            title: Some("A".to_string()),
            ..no_meeting_update("")
        }),
        Err(Error::ObjectId(InvalidIdentifier))
    );
}

#[test]
fn updated_meeting_reads_the_stored_document() {
    assert_eq!(
        meeting_repository().updated_meeting(Ok(Some(stored_emma()))),
        Ok(Meeting {
            id: ID.to_string(),
            date: Some(1_650_000_000_000),
            location: None,
            title: "Emma".to_string(),
            author: "Jane Austen".to_string(),
            description: "Matchmaking.".to_string(),
            pitched_by: "carol".to_string(),
            first_suggested: 1_600_000_000_000,
            supporters: vec!["carol".to_string()],
        })
    );
}

#[test]
fn a_meeting_may_lack_its_date_and_location() {
    let document = without(&without(&stored_emma(), "date"), "location");
    let stored = MeetingDocument::decode(&document).unwrap();
    assert_eq!(stored.date, None);
    assert_eq!(stored.location, None);
    let mut document = stored_emma();
    set_field(&mut document, "location", text("library"));
    assert_eq!(
        MeetingDocument::decode(&document).unwrap().location,
        Some("library".to_string())
    );
}

#[test]
fn decode_of_a_meeting_names_the_first_field_that_is_wrong() {
    let stored = stored_emma();
    let required =
        ["_id", "title", "author", "description", "pitchedBy", "firstSuggested", "supporters"];
    for name in required {
        let error = MeetingDocument::decode(&without(&stored, name)).unwrap_err();
        assert_eq!(error, DecodeError::MissingField(name));
    }
    let mut wrong = without(&stored, "title");
    set_field(&mut wrong, "date", text("tomorrow"));
    assert_eq!(MeetingDocument::decode(&wrong), Err(DecodeError::InvalidType("date")));
    set_field(&mut wrong, "_id", Value::Null);
    assert_eq!(MeetingDocument::decode(&wrong), Err(DecodeError::InvalidType("_id")));
}

#[test]
fn updated_meeting_of_no_document_is_no_such_meeting() {
    assert_eq!(meeting_repository().updated_meeting(Ok(None)), Err(Error::NoSuchMeeting));
}

#[test]
fn updated_meeting_reports_failures_and_unreadable_documents() {
    let failure = StoreFailure { message: "timeout".to_string() };
    assert_eq!(
        meeting_repository().updated_meeting(Err(failure.clone())),
        Err(Error::MongoDb(failure))
    );
    assert_eq!(
        meeting_repository().updated_meeting(Ok(Some(without(&stored_emma(), "supporters")))),
        Err(Error::Deserialization(DecodeError::MissingField("supporters")))
    );
}

#[test]
fn a_listing_of_meetings_asks_for_every_meeting() {
    assert_eq!(meeting_repository().meetings(), StoreCommand::FindAll);
}

#[test]
fn listed_meetings_reads_every_document_in_order() {
    let mut dune = stored_emma();
    set_field(&mut dune, "title", text("Dune"));
    let meetings = meeting_repository().listed_meetings(Ok(vec![dune, stored_emma()])).unwrap();
    assert_eq!(meetings.len(), 2);
    assert_eq!(meetings[0].title, "Dune");
    assert_eq!(meetings[1].title, "Emma");
    assert_eq!(meeting_repository().listed_meetings(Ok(vec![])), Ok(vec![]));
}

#[test]
fn one_unreadable_meeting_fails_the_whole_listing() {
    let documents = vec![stored_emma(), without(&stored_emma(), "author"), Document::new()];
    assert_eq!(
        meeting_repository().listed_meetings(Ok(documents)),
        Err(Error::Deserialization(DecodeError::MissingField("author")))
    );
    let failure = StoreFailure { message: "cursor lost".to_string() };
    assert_eq!(
        meeting_repository().listed_meetings(Err(failure.clone())),
        Err(Error::MongoDb(failure))
    );
}

#[test]
fn meeting_repository_errors_describe_themselves() {
    assert_eq!(Error::Serialization("too deep".to_string()).to_string(), "too deep");
    assert_eq!(
        Error::Deserialization(DecodeError::InvalidType("date")).to_string(),
        "invalid type for field `date`"
    );
    assert_eq!(Error::ObjectId(InvalidIdentifier).to_string(), "Invalid ID.");
    assert_eq!(
        Error::MongoDb(StoreFailure { message: "timeout".to_string() }).to_string(),
        "timeout"
    );
    assert_eq!(Error::BadObjectId.to_string(), "Insert did not return ObjectId.");
    assert_eq!(Error::NoSuchMeeting.to_string(), "Meeting does not exist.");
}

#[test]
fn an_update_of_a_meeting_never_sets_the_creation_time() {
    let only_time = UpdateMeeting { first_suggested: Some(5), ..no_meeting_update(ID) };
    assert_eq!(
        meeting_repository().update_meeting(only_time),
        Ok(StoreCommand::FindOne { id: Identifier::parse(ID).unwrap() })
    );
    let both = UpdateMeeting {
        location: Some("library".to_string()),
        first_suggested: Some(5),
        ..no_meeting_update(ID)
    };
    assert_eq!(
        meeting_repository().update_meeting(both),
        Ok(StoreCommand::FindOneAndUpdate {
            id: Identifier::parse(ID).unwrap(),
            update: vec![set("location", text("library"))],
        })
    );
}

#[test]
fn an_update_of_a_meeting_keeps_each_supporter_once() {
    let update = UpdateMeeting {
        supporters: Some(vec!["carol".to_string(), "dave".to_string(), "carol".to_string()]),
        ..no_meeting_update(ID)
    };
    assert_eq!(
        meeting_repository().update_meeting(update),
        Ok(StoreCommand::FindOneAndUpdate {
            id: Identifier::parse(ID).unwrap(),
            update: vec![set(
                "supporters",
                Value::texts(&vec!["carol".to_string(), "dave".to_string()])
            )],
        })
    );
}
