//! What holds of the meeting repository against a working store.
//!
//! Each law takes a sequence of store steps, as `store_step` allows them,
//! and says what the repository makes of the replies.

use crate::document::{DocumentView, ValueView};
use crate::identifier::{identifier_text, lemma_render_then_parse, parsed, InvalidIdentifier};
use crate::meeting::{CreateMeetingView, MeetingView, UpdateMeetingView};
use crate::meeting_repository::{
    found_meeting, insert_command, insert_document, inserted_id, sent_operations,
    update_command, update_operations, ErrorView, MeetingDocumentView, AUTHOR, DATE,
    DESCRIPTION, FIRST_SUGGESTED, LOCATION, PITCHED_BY, SUPPORTERS, TITLE,
};
use crate::meeting_service::{created, created_meeting, ErrorView as ServiceErrorView};
use crate::store::{
    keeps_identifier, lemma_step_keeps_well_formed, store_step, well_formed, with_id, Reply,
    StoreCommandView, StoreView, ID,
};
use crate::update::{
    lemma_distinct, lemma_literal_update, lemma_then_set, lemma_then_set_leaves, list_value,
    text_value, then_set, timestamp_value, update_result, SetOperationView,
};
use vstd::prelude::*;

verus! {

/// The stored names of a meeting's fields differ from one another.
pub proof fn lemma_names_differ()
    ensures
        ID@.len() == 3,
        DATE@.len() == 4,
        TITLE@.len() == 5,
        AUTHOR@.len() == 6,
        LOCATION@.len() == 8,
        PITCHED_BY@.len() == 9,
        SUPPORTERS@.len() == 10,
        DESCRIPTION@.len() == 11,
        FIRST_SUGGESTED@.len() == 14,
{
    reveal_strlit("_id");
    reveal_strlit("date");
    reveal_strlit("title");
    reveal_strlit("author");
    reveal_strlit("location");
    reveal_strlit("pitchedBy");
    reveal_strlit("supporters");
    reveal_strlit("description");
    reveal_strlit("firstSuggested");
}

/// The document in which each field that the request names has the
/// request's value, and every other field that of `before`.
pub open spec fn named_document(before: DocumentView, update: UpdateMeetingView) -> DocumentView {
    let document = before;
    let document = match update.title {
        Some(title) => document.insert(TITLE@, ValueView::Text(title)),
        None => document,
    };
    let document = match update.author {
        Some(author) => document.insert(AUTHOR@, ValueView::Text(author)),
        None => document,
    };
    let document = match update.description {
        Some(description) => document.insert(DESCRIPTION@, ValueView::Text(description)),
        None => document,
    };
    let document = match update.date {
        Some(date) => document.insert(DATE@, ValueView::Timestamp(date)),
        None => document,
    };
    let document = match update.location {
        Some(location) => document.insert(LOCATION@, ValueView::Text(location)),
        None => document,
    };
    let document = match update.pitched_by {
        Some(pitched_by) => document.insert(PITCHED_BY@, ValueView::Text(pitched_by)),
        None => document,
    };
    let document = match update.first_suggested {
        Some(first_suggested) => document.insert(
            FIRST_SUGGESTED@,
            ValueView::Timestamp(first_suggested),
        ),
        None => document,
    };
    match update.supporters {
        Some(supporters) => document.insert(SUPPORTERS@, ValueView::TextList(supporters)),
        None => document,
    }
}

/// The document that an update makes of `before`: each field that the
/// request changes has the request's value, the supporters each once.
pub open spec fn updated_document(before: DocumentView, update: UpdateMeetingView) -> DocumentView {
    named_document(before, update.changes())
}

/// The operations that the builder makes of a request have one result: the
/// document with each named field set.
pub proof fn lemma_built_result(
    before: DocumentView,
    update: UpdateMeetingView,
    after: DocumentView,
)
    ensures
        update_result(before, update_operations(update), after) <==> after == named_document(
            before,
            update,
        ),
{
    let operations = Seq::<SetOperationView>::empty();
    lemma_then_set(before, operations, TITLE@, text_value(update.title));
    let operations = then_set(operations, TITLE@, text_value(update.title));
    lemma_then_set(before, operations, AUTHOR@, text_value(update.author));
    let operations = then_set(operations, AUTHOR@, text_value(update.author));
    lemma_then_set(before, operations, DESCRIPTION@, text_value(update.description));
    let operations = then_set(operations, DESCRIPTION@, text_value(update.description));
    lemma_then_set(before, operations, DATE@, timestamp_value(update.date));
    let operations = then_set(operations, DATE@, timestamp_value(update.date));
    lemma_then_set(before, operations, LOCATION@, text_value(update.location));
    let operations = then_set(operations, LOCATION@, text_value(update.location));
    lemma_then_set(before, operations, PITCHED_BY@, text_value(update.pitched_by));
    let operations = then_set(operations, PITCHED_BY@, text_value(update.pitched_by));
    lemma_then_set(before, operations, FIRST_SUGGESTED@, timestamp_value(update.first_suggested));
    let operations = then_set(
        operations,
        FIRST_SUGGESTED@,
        timestamp_value(update.first_suggested),
    );
    lemma_then_set(before, operations, SUPPORTERS@, list_value(update.supporters));
    let operations = then_set(operations, SUPPORTERS@, list_value(update.supporters));
    assert(operations == update_operations(update));
    lemma_literal_update(before, operations, after);
}

/// The operations that an update sends have one result: the updated
/// document.
pub proof fn lemma_update_result(
    before: DocumentView,
    update: UpdateMeetingView,
    after: DocumentView,
)
    ensures
        update_result(before, sent_operations(update), after) <==> after == updated_document(
            before,
            update,
        ),
{
    lemma_built_result(before, update.changes(), after);
}

/// The commands of the repository leave the identifier of every document
/// alone.
pub proof fn lemma_commands_keep_identifier(update: UpdateMeetingView)
    ensures
        update_command(update) matches Ok(command) ==> keeps_identifier(command),
{
    lemma_names_differ();
    let changes = update.changes();
    let operations = Seq::<SetOperationView>::empty();
    lemma_then_set_leaves(operations, TITLE@, text_value(changes.title), ID@);
    let operations = then_set(operations, TITLE@, text_value(changes.title));
    lemma_then_set_leaves(operations, AUTHOR@, text_value(changes.author), ID@);
    let operations = then_set(operations, AUTHOR@, text_value(changes.author));
    lemma_then_set_leaves(operations, DESCRIPTION@, text_value(changes.description), ID@);
    let operations = then_set(operations, DESCRIPTION@, text_value(changes.description));
    lemma_then_set_leaves(operations, DATE@, timestamp_value(changes.date), ID@);
    let operations = then_set(operations, DATE@, timestamp_value(changes.date));
    lemma_then_set_leaves(operations, LOCATION@, text_value(changes.location), ID@);
    let operations = then_set(operations, LOCATION@, text_value(changes.location));
    lemma_then_set_leaves(operations, PITCHED_BY@, text_value(changes.pitched_by), ID@);
    let operations = then_set(operations, PITCHED_BY@, text_value(changes.pitched_by));
    lemma_then_set_leaves(
        operations,
        FIRST_SUGGESTED@,
        timestamp_value(changes.first_suggested),
        ID@,
    );
    let operations = then_set(
        operations,
        FIRST_SUGGESTED@,
        timestamp_value(changes.first_suggested),
    );
    lemma_then_set_leaves(operations, SUPPORTERS@, list_value(changes.supporters), ID@);
    let operations = then_set(operations, SUPPORTERS@, list_value(changes.supporters));
    assert(operations == update_operations(changes));
}

/// A stored meeting that is updated reads as the meeting with each changed
/// field as the request has it and every other field as it was.
pub proof fn lemma_updated_document_reads(before: DocumentView, update: UpdateMeetingView)
    requires
        MeetingDocumentView::decode(before) is Ok,
    ensures
        found_meeting(Ok(Some(updated_document(before, update)))) == Ok::<MeetingView, ErrorView>(
            update.applied_to(MeetingDocumentView::decode(before)->Ok_0.into_meeting()),
        ),
        update.changes_nothing() ==> updated_document(before, update) == before,
{
    lemma_names_differ();
    let after = updated_document(before, update);
    let stored = MeetingDocumentView::decode(before)->Ok_0;
    assert(MeetingDocumentView::decode(after) is Ok);
    let read = MeetingDocumentView::decode(after)->Ok_0;
    assert(read.id == stored.id);
    assert(read.into_meeting() == update.applied_to(stored.into_meeting()));
}

/// Round trip. A meeting that was inserted and is then looked up under the
/// identifier that the insert returned reads as the request, with that
/// identifier and the creation time of the insert; and this is the meeting
/// that the insert reported. A collection whose documents hold their own
/// identifiers stays such a collection.
pub proof fn law_lookup_after_insert(
    create: CreateMeetingView,
    first_suggested: i64,
    before: StoreView,
    inserted: StoreView,
    id: Seq<u8>,
    after: StoreView,
    found: Option<DocumentView>,
)
    requires
        store_step(before, insert_command(create, first_suggested), inserted, Reply::Inserted(id)),
        store_step(inserted, StoreCommandView::FindOne { id }, after, Reply::Found(found)),
    ensures
        inserted_id(Ok(Some(id))) == Ok::<Seq<char>, ErrorView>(identifier_text(id)),
        parsed(identifier_text(id)) == Ok::<Seq<u8>, InvalidIdentifier>(id),
        found_meeting(Ok(found)) == Ok::<MeetingView, ErrorView>(
            created(create, first_suggested, identifier_text(id)),
        ),
        created_meeting(create, first_suggested, Ok(Some(id))) == Ok::<
            MeetingView,
            ServiceErrorView,
        >(created(create, first_suggested, identifier_text(id))),
        after == inserted,
        well_formed(before) ==> well_formed(inserted),
{
    lemma_names_differ();
    lemma_render_then_parse(id);
    let document = with_id(insert_document(create, first_suggested), id);
    assert(inserted[id] == document);
    assert(found == Some(document));
    assert(MeetingDocumentView::decode(document) is Ok);
    if well_formed(before) {
        lemma_step_keeps_well_formed(
            before,
            insert_command(create, first_suggested),
            inserted,
            Reply::Inserted(id),
        );
    }
}

/// A partial update touches only the fields it changes. The meeting that
/// the update reports is the stored meeting with each named field as the
/// request has it, and a lookup afterwards reads the same meeting. Its
/// creation time is the stored one, whatever the request says of it. Where
/// the request names supporters, the meeting has them each once. A request
/// that changes nothing reports the meeting unchanged. In a collection
/// whose documents hold their own identifiers the reported identifier is
/// the request's, and the collection stays such a collection.
pub proof fn law_update_changes_named_fields(
    update: UpdateMeetingView,
    id: Seq<u8>,
    before: StoreView,
    updated: StoreView,
    reported_document: Option<DocumentView>,
    after: StoreView,
    found: Option<DocumentView>,
)
    requires
        parsed(update.id) == Ok::<Seq<u8>, InvalidIdentifier>(id),
        before.contains_key(id),
        MeetingDocumentView::decode(before[id]) is Ok,
        store_step(
            before,
            update_command(update)->Ok_0,
            updated,
            Reply::Found(reported_document),
        ),
        store_step(updated, StoreCommandView::FindOne { id }, after, Reply::Found(found)),
    ensures
        found_meeting(Ok(reported_document)) == Ok::<MeetingView, ErrorView>(
            update.applied_to(MeetingDocumentView::decode(before[id])->Ok_0.into_meeting()),
        ),
        found_meeting(Ok(found)) == found_meeting(Ok(reported_document)),
        found_meeting(Ok(reported_document))->Ok_0.first_suggested
            == MeetingDocumentView::decode(before[id])->Ok_0.first_suggested,
        update.supporters is Some ==> found_meeting(
            Ok(reported_document),
        )->Ok_0.supporters.no_duplicates(),
        update.changes_nothing() ==> updated == before,
        well_formed(before) ==> {
            &&& well_formed(updated)
            &&& found_meeting(Ok(reported_document))->Ok_0.id == identifier_text(id)
        },
{
    let old_meeting = MeetingDocumentView::decode(before[id])->Ok_0.into_meeting();
    lemma_updated_document_reads(before[id], update);
    lemma_commands_keep_identifier(update);
    if well_formed(before) {
        lemma_step_keeps_well_formed(
            before,
            update_command(update)->Ok_0,
            updated,
            Reply::Found(reported_document),
        );
    }
    if let Some(supporters) = update.supporters {
        lemma_distinct(supporters);
    }
    if update.changes_nothing() {
        assert(update.applied_to(old_meeting) == old_meeting);
    } else {
        let document = choose|document: DocumentView|
            #![trigger update_result(before[id], sent_operations(update), document)]
            update_result(before[id], sent_operations(update), document) && updated
                == before.insert(id, document) && Reply::Found(reported_document) == Reply::Found(
                Some(document),
            );
        lemma_update_result(before[id], update, document);
    }
}

/// An update of a meeting that does not exist changes nothing and reports
/// that there is no such meeting, whether or not the request names a field.
pub proof fn law_update_of_missing_meeting(
    update: UpdateMeetingView,
    id: Seq<u8>,
    before: StoreView,
    after: StoreView,
    reported_document: Option<DocumentView>,
)
    requires
        parsed(update.id) == Ok::<Seq<u8>, InvalidIdentifier>(id),
        !before.contains_key(id),
        store_step(before, update_command(update)->Ok_0, after, Reply::Found(reported_document)),
    ensures
        found_meeting(Ok(reported_document)) == Err::<MeetingView, ErrorView>(
            ErrorView::NoSuchMeeting,
        ),
        after == before,
{
}

/// Two updates of one meeting, one after the other, both apply: the second
/// works on what the first has made, so that fields which only the first
/// names keep the first one's values.
pub proof fn law_updates_in_sequence(
    first: UpdateMeetingView,
    second: UpdateMeetingView,
    id: Seq<u8>,
    before: StoreView,
    middle: StoreView,
    first_reported: Option<DocumentView>,
    after: StoreView,
    second_reported: Option<DocumentView>,
)
    requires
        parsed(first.id) == Ok::<Seq<u8>, InvalidIdentifier>(id),
        parsed(second.id) == Ok::<Seq<u8>, InvalidIdentifier>(id),
        before.contains_key(id),
        MeetingDocumentView::decode(before[id]) is Ok,
        store_step(before, update_command(first)->Ok_0, middle, Reply::Found(first_reported)),
        store_step(middle, update_command(second)->Ok_0, after, Reply::Found(second_reported)),
    ensures
        found_meeting(Ok(second_reported)) == Ok::<MeetingView, ErrorView>(
            second.applied_to(
                first.applied_to(MeetingDocumentView::decode(before[id])->Ok_0.into_meeting()),
            ),
        ),
{
    lemma_names_differ();
    lemma_updated_document_reads(before[id], first);
    if !first.changes_nothing() {
        let document = choose|document: DocumentView|
            #![trigger update_result(before[id], sent_operations(first), document)]
            update_result(before[id], sent_operations(first), document) && middle
                == before.insert(id, document) && Reply::Found(first_reported) == Reply::Found(
                Some(document),
            );
        lemma_update_result(before[id], first, document);
    }
    assert(middle.contains_key(id));
    assert(middle[id] == updated_document(before[id], first));
    assert(MeetingDocumentView::decode(middle[id]) is Ok);
    lemma_updated_document_reads(middle[id], second);
    if !second.changes_nothing() {
        let document = choose|document: DocumentView|
            #![trigger update_result(middle[id], sent_operations(second), document)]
            update_result(middle[id], sent_operations(second), document) && after
                == middle.insert(id, document) && Reply::Found(second_reported) == Reply::Found(
                Some(document),
            );
        lemma_update_result(middle[id], second, document);
    }
}

/// A text that is no identifier is refused before the store is touched, as
/// the caller's fault, and with another text than a meeting that is
/// missing.
pub proof fn law_invalid_identifier(update: UpdateMeetingView)
    requires
        parsed(update.id) is Err,
    ensures
        update_command(update) == Err::<StoreCommandView, ErrorView>(ErrorView::ObjectId),
        ServiceErrorView::from(ErrorView::ObjectId) is User,
        ServiceErrorView::from(ErrorView::NoSuchMeeting) is User,
        ServiceErrorView::from(ErrorView::ObjectId) != ServiceErrorView::from(
            ErrorView::NoSuchMeeting,
        ),
{
    reveal_strlit("Invalid ID.");
    reveal_strlit("Meeting does not exist.");
    assert("Invalid ID."@.len() == 11);
    assert("Meeting does not exist."@.len() == 23);
}

/// The text of an internal error says nothing of its cause.
pub proof fn law_internal_errors_do_not_leak(first: ErrorView, second: ErrorView)
    requires
        ServiceErrorView::from(first) is Internal,
        ServiceErrorView::from(second) is Internal,
    ensures
        ServiceErrorView::from(first).message() == ServiceErrorView::from(second).message(),
{
}

} // verus!
