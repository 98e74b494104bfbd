use bookclub_api::book_repository::{BookRepository, Error as RepositoryError};
use bookclub_api::book_service::{BookService, Error};
use bookclub_api::document::{field_value, set_field, Value};
use bookclub_api::identifier::Identifier;
use bookclub_api::meeting_repository::MeetingRepository;
use bookclub_api::meeting_service::{Error as MeetingError, MeetingService};
use bookclub_api::store::{StoreCommand, StoreFailure};
use bookclub_api::update::Expression;
use bookclub_api::{
    BookResponse, CreateBook, CreateMeeting, Meeting, UpdateBook, UpdateMeeting, VoteBook,
};
use mongodb::bson::Document;

/// A store in memory, as far as these scenarios need one.
struct Collection {
    documents: Vec<(Identifier, Document)>,
    next: u8,
}

enum Answer {
    Inserted(Identifier),
    Found(Option<Document>),
    Listed(Vec<Document>),
    Deleted,
}

fn texts_under(document: &Document, list: &str) -> Vec<String> {
    let Some(value) = field_value(document, list) else {
        panic!("no list under {list}");
    };
    value.into_texts().expect("a list of texts")
}

impl Collection {
    fn new() -> Collection {
        Collection { documents: Vec::new(), next: 1 }
    }

    fn position(&self, id: &Identifier) -> Option<usize> {
        self.documents.iter().position(|(stored, _)| stored == id)
    }

    fn run(&mut self, command: StoreCommand) -> Answer {
        match command {
            StoreCommand::InsertOne { mut document } => {
                let id = Identifier::from_bytes([self.next; 12]);
                self.next += 1;
                set_field(&mut document, "_id", Value::Id(id));
                self.documents.push((id, document));
                Answer::Inserted(id)
            }
            StoreCommand::FindOne { id } => {
                Answer::Found(self.position(&id).map(|at| self.documents[at].1.clone()))
            }
            StoreCommand::FindOneAndUpdate { id, update } => {
                let Some(at) = self.position(&id) else {
                    return Answer::Found(None);
                };
                let document = &mut self.documents[at].1;
                for operation in update {
                    let value = match operation.value {
                        Expression::Literal(value) => value,
                        Expression::Union { list, member } => {
                            let mut texts = texts_under(document, &list);
                            texts.sort();
                            texts.dedup();
                            if !texts.contains(&member) {
                                texts.insert(0, member);
                            }
                            Value::texts(&texts)
                        }
                        Expression::Size { list } => {
                            Value::Integer(texts_under(document, &list).len() as i64)
                        }
                    };
                    set_field(document, &operation.field, value);
                }
                Answer::Found(Some(document.clone()))
            }
            StoreCommand::FindAll => {
                let documents = self.documents.iter().map(|(_, document)| document.clone());
                Answer::Listed(documents.collect())
            }
            StoreCommand::DeleteOne { id } => {
                self.documents.retain(|(stored, _)| *stored != id);
                Answer::Deleted
            }
        }
    }

    fn find(&mut self, command: StoreCommand) -> Result<Option<Document>, StoreFailure> {
        match self.run(command) {
            Answer::Found(found) => Ok(found),
            _ => panic!("the store answers a lookup with what it found"),
        }
    }

    fn insert(&mut self, command: StoreCommand) -> Result<Option<Identifier>, StoreFailure> {
        match self.run(command) {
            Answer::Inserted(id) => Ok(Some(id)),
            _ => panic!("the store answers an insert with an identifier"),
        }
    }

    fn list(&mut self, command: StoreCommand) -> Result<Vec<Document>, StoreFailure> {
        match self.run(command) {
            Answer::Listed(documents) => Ok(documents),
            _ => panic!("the store answers a listing with documents"),
        }
    }

    fn delete(&mut self, command: StoreCommand) -> Result<(), StoreFailure> {
        match self.run(command) {
            Answer::Deleted => Ok(()),
            _ => panic!("the store answers a delete"),
        }
    }
}

fn service() -> BookService {
    BookService::new(BookRepository::new("books".to_string()))
}

fn meetings() -> MeetingService {
    MeetingService::new(MeetingRepository::new("meetings".to_string()))
}

fn book_a() -> CreateBook {
    CreateBook {
        title: "A".to_string(),
        author: "nobody".to_string(),
        description: "first".to_string(),
        page_count: 100,
        pitch_by: "alice".to_string(),
        supporters: vec![],
    }
}

fn no_update(id: &str) -> UpdateBook {
    UpdateBook {
        id: id.to_string(),
        title: None,
        author: None,
        description: None,
        page_count: None,
        pitch_by: None,
        first_suggested: None,
        supporters: None,
    }
}

fn create(store: &mut Collection, create_book: CreateBook) -> BookResponse {
    let pending = service().create_book(&create_book).unwrap();
    let reply = store.insert(pending.command);
    service().created_book(create_book, pending.first_suggested, reply).unwrap()
}

fn get(store: &mut Collection, id: &str) -> Result<BookResponse, Error> {
    let reply = store.find(service().book(id)?);
    service().found_book(reply)
}

fn update(store: &mut Collection, update_book: UpdateBook) -> Result<BookResponse, Error> {
    let reply = store.find(service().update_book(update_book)?);
    service().found_book(reply)
}

fn vote(store: &mut Collection, id: &str, supporter: &str) -> Result<BookResponse, Error> {
    let command = service().vote_book(id, VoteBook { supporter: supporter.to_string() })?;
    let reply = store.find(command);
    service().found_book(reply)
}

fn delete(store: &mut Collection, id: &str) -> Result<(), Error> {
    let reply = store.delete(service().delete_book(id)?);
    service().deleted_book(reply)
}

fn stored_count(store: &Collection, id: &str) -> Option<Value> {
    let id = Identifier::parse(id).unwrap();
    let at = store.position(&id)?;
    field_value(&store.documents[at].1, "supporterCount")
}

#[test]
fn get_after_insert_reads_the_request_with_identifier_and_creation_time() {
    let mut store = Collection::new();
    let created = create(&mut store, book_a());
    assert_eq!(created.id, "010101010101010101010101");
    assert_eq!(created.title, "A");
    assert_eq!(created.author, "nobody");
    assert_eq!(created.description, "first");
    assert_eq!(created.page_count, 100);
    assert_eq!(created.pitch_by, "alice");
    assert_eq!(created.supporters, Vec::<String>::new());
    assert_eq!(get(&mut store, &created.id), Ok(created));
}

#[test]
fn a_partial_update_touches_only_the_named_fields() {
    let mut store = Collection::new();
    let created = create(&mut store, book_a());
    let updated = update(
        &mut store,
        UpdateBook { author: Some("B".to_string()), ..no_update(&created.id) },
    )
    .unwrap();
    assert_eq!(updated.title, "A");
    assert_eq!(updated.author, "B");
    assert_eq!(updated, BookResponse { author: "B".to_string(), ..created.clone() });
    assert_eq!(get(&mut store, &created.id), Ok(updated));
}

#[test]
fn an_empty_update_returns_the_book_unchanged() {
    let mut store = Collection::new();
    let created = create(&mut store, book_a());
    assert_eq!(update(&mut store, no_update(&created.id)), Ok(created.clone()));
    assert_eq!(get(&mut store, &created.id), Ok(created));
}

#[test]
fn an_update_of_a_missing_book_is_not_found() {
    let mut store = Collection::new();
    create(&mut store, book_a());
    let missing = "5f8d0d55b54764421b7156c3";
    let not_found = Err(Error::User("Book does not exist.".to_string()));
    assert_eq!(update(&mut store, no_update(missing)), not_found);
    assert_eq!(
        update(&mut store, UpdateBook { title: Some("Z".to_string()), ..no_update(missing) }),
        not_found
    );
    assert_eq!(vote(&mut store, missing, "alice"), not_found);
    assert_eq!(get(&mut store, missing), not_found);
    assert_eq!(store.documents.len(), 1);
}

#[test]
fn voting_twice_leaves_one_alice() {
    let mut store = Collection::new();
    let created = create(&mut store, book_a());
    assert_eq!(stored_count(&store, &created.id), Some(Value::Integer(0)));
    let once = vote(&mut store, &created.id, "alice").unwrap();
    assert_eq!(once.supporters, vec!["alice".to_string()]);
    assert_eq!(stored_count(&store, &created.id), Some(Value::Integer(1)));
    let twice = vote(&mut store, &created.id, "alice").unwrap();
    assert_eq!(twice.supporters, vec!["alice".to_string()]);
    assert_eq!(twice, once);
    assert_eq!(stored_count(&store, &created.id), Some(Value::Integer(1)));
    let both = vote(&mut store, &created.id, "bob").unwrap();
    assert_eq!(both.supporters.len(), 2);
    assert!(both.supporters.contains(&"alice".to_string()));
    assert!(both.supporters.contains(&"bob".to_string()));
    assert_eq!(stored_count(&store, &created.id), Some(Value::Integer(2)));
    assert_eq!(both, BookResponse { supporters: both.supporters.clone(), ..created });
}

#[test]
fn an_update_leaves_the_creation_time_as_it_was() {
    let mut store = Collection::new();
    let created = create(&mut store, book_a());
    let request = UpdateBook {
        title: Some("T".to_string()),
        first_suggested: Some(created.first_suggested + 1_000),
        ..no_update(&created.id)
    };
    let updated = update(&mut store, request).unwrap();
    assert_eq!(updated, BookResponse { title: "T".to_string(), ..created.clone() });
    assert_eq!(updated.first_suggested, created.first_suggested);
    let only_time = UpdateBook { first_suggested: Some(0), ..no_update(&created.id) };
    assert_eq!(update(&mut store, only_time), Ok(updated.clone()));
    assert_eq!(get(&mut store, &created.id), Ok(updated));
}

#[test]
fn an_update_of_the_supporters_stores_a_set_and_its_size() {
    let mut store = Collection::new();
    let created = create(&mut store, book_a());
    let names = vec!["bob".to_string(), "alice".to_string(), "bob".to_string()];
    let request = UpdateBook { supporters: Some(names), ..no_update(&created.id) };
    let updated = update(&mut store, request).unwrap();
    assert_eq!(updated.supporters, vec!["bob".to_string(), "alice".to_string()]);
    assert_eq!(stored_count(&store, &created.id), Some(Value::Integer(2)));
    let voted = vote(&mut store, &created.id, "alice").unwrap();
    assert_eq!(voted.supporters.len(), 2);
    assert_eq!(stored_count(&store, &created.id), Some(Value::Integer(2)));
    let request = UpdateBook { supporters: Some(Vec::new()), ..no_update(&created.id) };
    assert_eq!(update(&mut store, request).unwrap().supporters, Vec::<String>::new());
    assert_eq!(stored_count(&store, &created.id), Some(Value::Integer(0)));
}

#[test]
fn the_reported_identifier_is_the_one_asked_for() {
    let mut store = Collection::new();
    let first = create(&mut store, book_a());
    let second = create(&mut store, CreateBook { title: "B".to_string(), ..book_a() });
    let request = UpdateBook { title: Some("C".to_string()), ..no_update(&second.id) };
    assert_eq!(update(&mut store, request).unwrap().id, second.id);
    assert_eq!(vote(&mut store, &first.id, "alice").unwrap().id, first.id);
    assert_eq!(get(&mut store, &first.id).unwrap().title, "A");
}

#[test]
fn two_updates_of_distinct_fields_both_apply() {
    let mut store = Collection::new();
    let created = create(&mut store, book_a());
    update(&mut store, UpdateBook { title: Some("T".to_string()), ..no_update(&created.id) })
        .unwrap();
    let second = update(
        &mut store,
        UpdateBook { page_count: Some(7), ..no_update(&created.id) },
    )
    .unwrap();
    assert_eq!(second.title, "T");
    assert_eq!(second.page_count, 7);
    assert_eq!(
        get(&mut store, &created.id),
        Ok(BookResponse { title: "T".to_string(), page_count: 7, ..created })
    );
}

#[test]
fn get_after_delete_is_not_found_and_a_second_delete_succeeds() {
    let mut store = Collection::new();
    let created = create(&mut store, book_a());
    assert_eq!(delete(&mut store, &created.id), Ok(()));
    assert_eq!(
        get(&mut store, &created.id),
        Err(Error::User("Book does not exist.".to_string()))
    );
    assert_eq!(delete(&mut store, &created.id), Ok(()));
}

#[test]
fn a_failing_store_is_an_internal_error() {
    let failure = StoreFailure { message: "no primary".to_string() };
    let error = service().found_book(Err(failure.clone())).unwrap_err();
    assert_eq!(error, Error::Internal(RepositoryError::MongoDb(failure)));
    assert_eq!(error.to_string(), "An internal error occurred.");
}

#[test]
fn a_listing_reads_every_stored_book() {
    let mut store = Collection::new();
    let first = create(&mut store, book_a());
    let second = create(&mut store, CreateBook { title: "B".to_string(), ..book_a() });
    let reply = store.list(service().books());
    assert_eq!(service().listed_books(reply), Ok(vec![first, second]));
}

#[test]
fn a_meeting_can_be_created_listed_and_updated() {
    let mut store = Collection::new();
    let request = CreateMeeting {
        date: None,
        location: None,
        title: "Emma".to_string(),
        author: "Jane Austen".to_string(),
        description: "Matchmaking.".to_string(),
        pitched_by: "carol".to_string(),
        supporters: vec!["carol".to_string()],
    };
    let pending = meetings().create_meeting(&request);
    let reply = store.insert(pending.command);
    let created = meetings().created_meeting(request, pending.first_suggested, reply).unwrap();
    let listing = store.list(meetings().meetings());
    assert_eq!(meetings().listed_meetings(listing), Ok(vec![created.clone()]));
    let update = UpdateMeeting {
        id: created.id.clone(),
        date: Some(1_650_000_000_000),
        location: Some("library".to_string()),
        title: None,
        author: None,
        description: None,
        pitched_by: None,
        first_suggested: None,
        supporters: None,
    };
    let reply = store.find(meetings().update_meeting(update).unwrap());
    let updated = meetings().updated_meeting(reply).unwrap();
    assert_eq!(
        updated,
        Meeting {
            date: Some(1_650_000_000_000),
            location: Some("library".to_string()),
            ..created.clone()
        }
    );
    let empty = UpdateMeeting {
        id: created.id.clone(),
        date: None,
        location: None,
        title: None,
        author: None,
        description: None,
        pitched_by: None,
        first_suggested: None,
        supporters: None,
    };
    let reply = store.find(meetings().update_meeting(empty.clone()).unwrap());
    assert_eq!(meetings().updated_meeting(reply), Ok(updated));
    let missing = UpdateMeeting { id: "5f8d0d55b54764421b7156c3".to_string(), ..empty };
    let reply = store.find(meetings().update_meeting(missing).unwrap());
    assert_eq!(
        meetings().updated_meeting(reply),
        Err(MeetingError::User("Meeting does not exist.".to_string()))
    );
}

#[test]
fn an_update_of_a_meeting_leaves_the_creation_time_as_it_was() {
    let mut store = Collection::new();
    let request = CreateMeeting {
        date: None,
        location: None,
        title: "Emma".to_string(),
        author: "Jane Austen".to_string(),
        description: "Matchmaking.".to_string(),
        pitched_by: "carol".to_string(),
        supporters: vec!["carol".to_string()],
    };
    let pending = meetings().create_meeting(&request);
    let reply = store.insert(pending.command);
    let created = meetings().created_meeting(request, pending.first_suggested, reply).unwrap();
    let update = UpdateMeeting {
        id: created.id.clone(),
        date: None,
        location: None,
        title: Some("Persuasion".to_string()),
        author: None,
        description: None,
        pitched_by: None,
        first_suggested: Some(created.first_suggested - 1),
        supporters: Some(vec!["dave".to_string(), "dave".to_string()]),
    };
    let reply = store.find(meetings().update_meeting(update).unwrap());
    assert_eq!(
        meetings().updated_meeting(reply),
        Ok(Meeting {
            title: "Persuasion".to_string(),
            supporters: vec!["dave".to_string()],
            ..created
        })
    );
}
