//! What holds of the book repository against a working store.
//!
//! Each law takes a sequence of store steps, as `store_step` allows them,
//! and says what the repository makes of the replies.

use crate::book::{BookView, CreateBookView, UpdateBookView};
use crate::book_repository::{
    count_operation, delete_command, deleted_book, find_command, found_book, insert_command,
    insert_document, inserted_id, sent_operations, update_command, update_operations,
    vote_command, vote_operations, BookDocumentView, ErrorView, AUTHOR, DESCRIPTION,
    FIRST_SUGGESTED, PAGE_COUNT, PITCH_BY, SUPPORTERS, SUPPORTER_COUNT, TITLE,
};
use crate::book_service::{created, created_book, reported, ErrorView as ServiceErrorView};
use crate::document::{DocumentView, ValueView};
use crate::identifier::{identifier_text, lemma_render_then_parse, parsed, InvalidIdentifier};
use crate::store::{
    keeps_identifier, lemma_step_keeps_well_formed, store_step, well_formed, with_id, Reply,
    StoreCommandView, StoreView, ID,
};
use crate::update::{
    count_value, distinct, leaves_field, lemma_distinct, lemma_literal_update,
    lemma_one_more_operation, lemma_then_set, lemma_then_set_leaves, list_value,
    operation_result, text_value, then_set, timestamp_value, update_result, SetOperationView,
};
use vstd::prelude::*;

verus! {

/// The stored names of a book's fields differ from one another.
pub proof fn lemma_names_differ()
    ensures
        ID@.len() == 3,
        TITLE@.len() == 5,
        AUTHOR@.len() == 6,
        DESCRIPTION@.len() == 11,
        PAGE_COUNT@.len() == 9,
        PITCH_BY@.len() == 7,
        SUPPORTERS@.len() == 10,
        FIRST_SUGGESTED@.len() == 14,
        SUPPORTER_COUNT@.len() == 14,
        FIRST_SUGGESTED@[0] == 'f',
        SUPPORTER_COUNT@[0] == 's',
{
    reveal_strlit("_id");
    reveal_strlit("title");
    reveal_strlit("author");
    reveal_strlit("description");
    reveal_strlit("pageCount");
    reveal_strlit("pitchBy");
    reveal_strlit("supporters");
    reveal_strlit("firstSuggested");
    reveal_strlit("supporterCount");
}

/// The document in which each field that the request names has the
/// request's value, and every other field that of `before`.
pub open spec fn named_document(before: DocumentView, update: UpdateBookView) -> DocumentView {
    let document = before;
    let document = match update.title {
        Some(title) => document.insert(TITLE@, ValueView::Text(title)),
        None => document,
    };
    let document = match update.author {
        Some(author) => document.insert(AUTHOR@, ValueView::Text(author)),
        None => document,
    };
    let document = match update.description {
        Some(description) => document.insert(DESCRIPTION@, ValueView::Text(description)),
        None => document,
    };
    let document = match update.page_count {
        Some(page_count) => document.insert(PAGE_COUNT@, ValueView::Integer(page_count as i64)),
        None => document,
    };
    let document = match update.pitch_by {
        Some(pitch_by) => document.insert(PITCH_BY@, ValueView::Text(pitch_by)),
        None => document,
    };
    let document = match update.first_suggested {
        Some(first_suggested) => document.insert(
            FIRST_SUGGESTED@,
            ValueView::Timestamp(first_suggested),
        ),
        None => document,
    };
    match update.supporters {
        Some(supporters) => document.insert(SUPPORTERS@, ValueView::TextList(supporters)),
        None => document,
    }
}

/// The document that an update makes of `before`: each field that the
/// request changes has the request's value, the supporters each once; and
/// where the request names supporters, the stored number of supporters is
/// their number.
pub open spec fn updated_document(before: DocumentView, update: UpdateBookView) -> DocumentView {
    let document = named_document(before, update.changes());
    match update.supporters {
        Some(supporters) => document.insert(
            SUPPORTER_COUNT@,
            ValueView::Integer(distinct(supporters).len() as i64),
        ),
        None => document,
    }
}

/// The operations that the builder makes of a request have one result: the
/// document with each named field set.
pub proof fn lemma_built_result(before: DocumentView, update: UpdateBookView, after: DocumentView)
    ensures
        update_result(before, update_operations(update), after) <==> after == named_document(
            before,
            update,
        ),
{
    let operations = Seq::<SetOperationView>::empty();
    lemma_then_set(before, operations, TITLE@, text_value(update.title));
    let operations = then_set(operations, TITLE@, text_value(update.title));
    lemma_then_set(before, operations, AUTHOR@, text_value(update.author));
    let operations = then_set(operations, AUTHOR@, text_value(update.author));
    lemma_then_set(before, operations, DESCRIPTION@, text_value(update.description));
    let operations = then_set(operations, DESCRIPTION@, text_value(update.description));
    lemma_then_set(before, operations, PAGE_COUNT@, count_value(update.page_count));
    let operations = then_set(operations, PAGE_COUNT@, count_value(update.page_count));
    lemma_then_set(before, operations, PITCH_BY@, text_value(update.pitch_by));
    let operations = then_set(operations, PITCH_BY@, text_value(update.pitch_by));
    lemma_then_set(before, operations, FIRST_SUGGESTED@, timestamp_value(update.first_suggested));
    let operations = then_set(
        operations,
        FIRST_SUGGESTED@,
        timestamp_value(update.first_suggested),
    );
    lemma_then_set(before, operations, SUPPORTERS@, list_value(update.supporters));
    let operations = then_set(operations, SUPPORTERS@, list_value(update.supporters));
    assert(operations == update_operations(update));
    lemma_literal_update(before, operations, after);
}

/// The operations that an update sends have at most one result: the
/// updated document. They have it wherever the supporters that the request
/// names are no more than a stored number can count.
pub proof fn lemma_update_result(before: DocumentView, update: UpdateBookView, after: DocumentView)
    ensures
        update_result(before, sent_operations(update), after) ==> after == updated_document(
            before,
            update,
        ),
        (update.supporters matches Some(supporters) ==> distinct(supporters).len() <= i64::MAX)
            ==> update_result(
            before,
            sent_operations(update),
            updated_document(before, update),
        ),
{
    lemma_names_differ();
    let changes = update.changes();
    let operations = update_operations(changes);
    let named = named_document(before, changes);
    lemma_built_result(before, changes, named);
    match update.supporters {
        Some(supporters) => {
            lemma_one_more_operation(before, operations, count_operation(), after);
            lemma_one_more_operation(
                before,
                operations,
                count_operation(),
                updated_document(before, update),
            );
            assert(named[SUPPORTERS@] == ValueView::TextList(distinct(supporters)));
            if update_result(before, sent_operations(update), after) {
                let middle = choose|middle: DocumentView|
                    #![trigger update_result(before, operations, middle)]
                    update_result(before, operations, middle) && operation_result(
                        middle,
                        count_operation(),
                        after,
                    );
                lemma_built_result(before, changes, middle);
            }
            if distinct(supporters).len() <= i64::MAX {
                assert(operation_result(
                    named,
                    count_operation(),
                    updated_document(before, update),
                ));
            }
        },
        None => {
            lemma_built_result(before, changes, after);
        },
    }
}

/// The commands of the repository leave the identifier of every document
/// alone.
pub proof fn lemma_commands_keep_identifier(
    update: UpdateBookView,
    id: Seq<char>,
    supporter: Seq<char>,
)
    ensures
        update_command(update) matches Ok(command) ==> keeps_identifier(command),
        vote_command(id, supporter) matches Ok(command) ==> keeps_identifier(command),
        find_command(id) matches Ok(command) ==> keeps_identifier(command),
        delete_command(id) matches Ok(command) ==> keeps_identifier(command),
{
    lemma_names_differ();
    let changes = update.changes();
    let operations = Seq::<SetOperationView>::empty();
    lemma_then_set_leaves(operations, TITLE@, text_value(changes.title), ID@);
    let operations = then_set(operations, TITLE@, text_value(changes.title));
    lemma_then_set_leaves(operations, AUTHOR@, text_value(changes.author), ID@);
    let operations = then_set(operations, AUTHOR@, text_value(changes.author));
    lemma_then_set_leaves(operations, DESCRIPTION@, text_value(changes.description), ID@);
    let operations = then_set(operations, DESCRIPTION@, text_value(changes.description));
    lemma_then_set_leaves(operations, PAGE_COUNT@, count_value(changes.page_count), ID@);
    let operations = then_set(operations, PAGE_COUNT@, count_value(changes.page_count));
    lemma_then_set_leaves(operations, PITCH_BY@, text_value(changes.pitch_by), ID@);
    let operations = then_set(operations, PITCH_BY@, text_value(changes.pitch_by));
    lemma_then_set_leaves(
        operations,
        FIRST_SUGGESTED@,
        timestamp_value(changes.first_suggested),
        ID@,
    );
    let operations = then_set(
        operations,
        FIRST_SUGGESTED@,
        timestamp_value(changes.first_suggested),
    );
    lemma_then_set_leaves(operations, SUPPORTERS@, list_value(changes.supporters), ID@);
    let operations = then_set(operations, SUPPORTERS@, list_value(changes.supporters));
    assert(operations == update_operations(changes));
    assert(leaves_field(sent_operations(update), ID@));
    assert(leaves_field(vote_operations(supporter), ID@));
}

/// A stored book that is updated reads as the book with each changed field
/// as the request has it and every other field as it was. It holds the
/// identifier that it held; and where the request names supporters, it
/// holds their number.
pub proof fn lemma_updated_document_reads(before: DocumentView, update: UpdateBookView)
    requires
        BookDocumentView::decode(before) is Ok,
    ensures
        found_book(Ok(Some(updated_document(before, update)))) == Ok::<BookView, ErrorView>(
            update.applied_to(BookDocumentView::decode(before)->Ok_0.into_book()),
        ),
        updated_document(before, update).contains_key(ID@),
        updated_document(before, update)[ID@] == before[ID@],
        update.changes_nothing() ==> updated_document(before, update) == before,
        update.supporters is Some || counts_supporters(before) ==> counts_supporters(
            updated_document(before, update),
        ),
{
    lemma_names_differ();
    let after = updated_document(before, update);
    let stored = BookDocumentView::decode(before)->Ok_0;
    assert(BookDocumentView::decode(after) is Ok);
    let read = BookDocumentView::decode(after)->Ok_0;
    assert(read.id == stored.id);
    assert(read.into_book() == update.applied_to(stored.into_book()));
}

/// Whether the document holds a list of supporters and, as the stored
/// number of supporters, the length of that list.
pub open spec fn counts_supporters(document: DocumentView) -> bool {
    &&& document.contains_key(SUPPORTERS@)
    &&& document[SUPPORTERS@] is TextList
    &&& document.contains_key(SUPPORTER_COUNT@)
    &&& document[SUPPORTER_COUNT@] == ValueView::Integer(
        document[SUPPORTERS@]->TextList_0.len() as i64,
    )
}

/// Round trip. A book whose insert was accepted and that is then looked up
/// under the identifier that the insert returned reads as the request, with
/// that identifier and the creation time of the insert; and this is the book
/// that the insert reported. The stored number of supporters is their
/// number, and a collection whose documents hold their own identifiers
/// stays such a collection.
pub proof fn law_lookup_after_insert(
    create: CreateBookView,
    first_suggested: i64,
    before: StoreView,
    inserted: StoreView,
    id: Seq<u8>,
    after: StoreView,
    found: Option<DocumentView>,
)
    requires
        insert_command(create, first_suggested) is Ok,
        store_step(
            before,
            insert_command(create, first_suggested)->Ok_0,
            inserted,
            Reply::Inserted(id),
        ),
        store_step(inserted, StoreCommandView::FindOne { id }, after, Reply::Found(found)),
    ensures
        insert_command(create, first_suggested) == Ok::<StoreCommandView, ErrorView>(
            StoreCommandView::InsertOne { document: insert_document(create, first_suggested) },
        ),
        inserted_id(Ok(Some(id))) == Ok::<Seq<char>, ErrorView>(identifier_text(id)),
        find_command(identifier_text(id)) == Ok::<StoreCommandView, ErrorView>(
            StoreCommandView::FindOne { id },
        ),
        found_book(Ok(found)) == Ok::<BookView, ErrorView>(
            created(create, first_suggested, identifier_text(id)),
        ),
        created_book(create, first_suggested, Ok(Some(id))) == Ok::<
            BookView,
            ServiceErrorView,
        >(created(create, first_suggested, identifier_text(id))),
        after == inserted,
        counts_supporters(inserted[id]),
        well_formed(before) ==> well_formed(inserted),
{
    lemma_names_differ();
    lemma_render_then_parse(id);
    let document = with_id(insert_document(create, first_suggested), id);
    assert(inserted[id] == document);
    assert(found == Some(document));
    assert(BookDocumentView::decode(document) is Ok);
    if well_formed(before) {
        lemma_step_keeps_well_formed(
            before,
            insert_command(create, first_suggested)->Ok_0,
            inserted,
            Reply::Inserted(id),
        );
    }
}

/// A lookup changes nothing and reads the stored book. In a collection
/// whose documents hold their own identifiers, the book that it reports has
/// the identifier that was asked for.
pub proof fn law_lookup_reads_the_stored_book(
    id: Seq<u8>,
    before: StoreView,
    after: StoreView,
    found: Option<DocumentView>,
)
    requires
        before.contains_key(id),
        BookDocumentView::decode(before[id]) is Ok,
        store_step(before, StoreCommandView::FindOne { id }, after, Reply::Found(found)),
    ensures
        after == before,
        found_book(Ok(found)) == Ok::<BookView, ErrorView>(
            BookDocumentView::decode(before[id])->Ok_0.into_book(),
        ),
        well_formed(before) ==> found_book(Ok(found))->Ok_0.id == identifier_text(id),
{
}

/// A partial update touches only the fields it changes. The book that
/// the update reports is the stored book with each named field as the
/// request has it, and a lookup afterwards reads the same book. Its
/// creation time is the stored one, whatever the request says of it. Where
/// the request names supporters, the book has them each once, and the
/// stored number of supporters is their number. A request that changes
/// nothing reports the book unchanged. In a collection whose documents hold
/// their own identifiers the reported identifier is the request's, and the
/// collection stays such a collection.
pub proof fn law_update_changes_named_fields(
    update: UpdateBookView,
    id: Seq<u8>,
    before: StoreView,
    updated: StoreView,
    reported_document: Option<DocumentView>,
    after: StoreView,
    found: Option<DocumentView>,
)
    requires
        parsed(update.id) == Ok::<Seq<u8>, InvalidIdentifier>(id),
        before.contains_key(id),
        BookDocumentView::decode(before[id]) is Ok,
        store_step(
            before,
            update_command(update)->Ok_0,
            updated,
            Reply::Found(reported_document),
        ),
        store_step(updated, StoreCommandView::FindOne { id }, after, Reply::Found(found)),
    ensures
        found_book(Ok(reported_document)) == Ok::<BookView, ErrorView>(
            update.applied_to(BookDocumentView::decode(before[id])->Ok_0.into_book()),
        ),
        found_book(Ok(found)) == found_book(Ok(reported_document)),
        found_book(Ok(reported_document))->Ok_0.first_suggested == BookDocumentView::decode(
            before[id],
        )->Ok_0.first_suggested,
        update.supporters is Some ==> found_book(
            Ok(reported_document),
        )->Ok_0.supporters.no_duplicates(),
        update.supporters is Some || counts_supporters(before[id]) ==> counts_supporters(
            updated[id],
        ),
        update.changes_nothing() ==> updated == before,
        well_formed(before) ==> {
            &&& well_formed(updated)
            &&& found_book(Ok(reported_document))->Ok_0.id == identifier_text(id)
        },
{
    let old_book = BookDocumentView::decode(before[id])->Ok_0.into_book();
    lemma_updated_document_reads(before[id], update);
    lemma_commands_keep_identifier(update, update.id, update.id);
    if well_formed(before) {
        lemma_step_keeps_well_formed(
            before,
            update_command(update)->Ok_0,
            updated,
            Reply::Found(reported_document),
        );
    }
    if let Some(supporters) = update.supporters {
        lemma_distinct(supporters);
    }
    if update.changes_nothing() {
        assert(update.applied_to(old_book) == old_book);
    } else {
        let document = choose|document: DocumentView|
            #![trigger update_result(before[id], sent_operations(update), document)]
            update_result(before[id], sent_operations(update), document) && updated
                == before.insert(id, document) && Reply::Found(reported_document) == Reply::Found(
                Some(document),
            );
        lemma_update_result(before[id], update, document);
    }
}

/// An update of a book that does not exist changes nothing and reports
/// that there is no such book, whether or not the request names a field.
pub proof fn law_update_of_missing_book(
    update: UpdateBookView,
    id: Seq<u8>,
    before: StoreView,
    after: StoreView,
    reported_document: Option<DocumentView>,
)
    requires
        parsed(update.id) == Ok::<Seq<u8>, InvalidIdentifier>(id),
        !before.contains_key(id),
        store_step(before, update_command(update)->Ok_0, after, Reply::Found(reported_document)),
    ensures
        found_book(Ok(reported_document)) == Err::<BookView, ErrorView>(ErrorView::NoSuchBook),
        after == before,
{
}

/// Two updates of one book, one after the other, both apply: the second
/// works on what the first has made, so that fields which only the first
/// names keep the first one's values.
pub proof fn law_updates_in_sequence(
    first: UpdateBookView,
    second: UpdateBookView,
    id: Seq<u8>,
    before: StoreView,
    middle: StoreView,
    first_reported: Option<DocumentView>,
    after: StoreView,
    second_reported: Option<DocumentView>,
)
    requires
        parsed(first.id) == Ok::<Seq<u8>, InvalidIdentifier>(id),
        parsed(second.id) == Ok::<Seq<u8>, InvalidIdentifier>(id),
        before.contains_key(id),
        BookDocumentView::decode(before[id]) is Ok,
        store_step(before, update_command(first)->Ok_0, middle, Reply::Found(first_reported)),
        store_step(middle, update_command(second)->Ok_0, after, Reply::Found(second_reported)),
    ensures
        found_book(Ok(second_reported)) == Ok::<BookView, ErrorView>(
            second.applied_to(
                first.applied_to(BookDocumentView::decode(before[id])->Ok_0.into_book()),
            ),
        ),
{
    lemma_names_differ();
    lemma_updated_document_reads(before[id], first);
    if !first.changes_nothing() {
        let document = choose|document: DocumentView|
            #![trigger update_result(before[id], sent_operations(first), document)]
            update_result(before[id], sent_operations(first), document) && middle
                == before.insert(id, document) && Reply::Found(first_reported) == Reply::Found(
                Some(document),
            );
        lemma_update_result(before[id], first, document);
    }
    assert(middle.contains_key(id));
    assert(middle[id] == updated_document(before[id], first));
    assert(BookDocumentView::decode(middle[id]) is Ok);
    lemma_updated_document_reads(middle[id], second);
    if !second.changes_nothing() {
        let document = choose|document: DocumentView|
            #![trigger update_result(middle[id], sent_operations(second), document)]
            update_result(middle[id], sent_operations(second), document) && after
                == middle.insert(id, document) && Reply::Found(second_reported) == Reply::Found(
                Some(document),
            );
        lemma_update_result(middle[id], second, document);
    }
}

/// Whether `after` is `before` with one more supporter: every other field
/// is as it was, and the supporters are those of `before` together with
/// `supporter`, each once.
pub open spec fn is_vote(before: BookView, supporter: Seq<char>, after: BookView) -> bool {
    &&& after == BookView { supporters: after.supporters, ..before }
    &&& after.supporters.no_duplicates()
    &&& after.supporters.contains(supporter)
    &&& forall|text: Seq<char>|
        #![trigger after.supporters.contains(text)]
        after.supporters.contains(text) <==> (before.supporters.contains(text) || text
            == supporter)
}

/// What one vote makes of a stored book: the document reads as the book
/// with one more supporter, and it counts the supporters that it holds.
proof fn lemma_vote_result(before: DocumentView, supporter: Seq<char>, after: DocumentView)
    requires
        BookDocumentView::decode(before) is Ok,
        update_result(before, vote_operations(supporter), after),
    ensures
        BookDocumentView::decode(after) is Ok,
        is_vote(
            BookDocumentView::decode(before)->Ok_0.into_book(),
            supporter,
            BookDocumentView::decode(after)->Ok_0.into_book(),
        ),
        after.contains_key(SUPPORTER_COUNT@),
        after[SUPPORTER_COUNT@] == ValueView::Integer(
            BookDocumentView::decode(after)->Ok_0.supporters.len() as i64,
        ),
        BookDocumentView::decode(after)->Ok_0.supporters.len() <= i64::MAX,
{
    lemma_names_differ();
    let operations = vote_operations(supporter);
    let united = choose|united: DocumentView|
        #![trigger operation_result(before, operations[0], united)]
        operation_result(before, operations[0], united) && update_result(
            united,
            operations.drop_first(),
            after,
        );
    let rest = operations.drop_first();
    assert(rest[0] == operations[1]);
    let counted = choose|counted: DocumentView|
        #![trigger operation_result(united, rest[0], counted)]
        operation_result(united, rest[0], counted) && update_result(
            counted,
            rest.drop_first(),
            after,
        );
    assert(rest.drop_first().len() == 0);
    assert(after == counted);
    assert(BookDocumentView::decode(after) is Ok);
}

/// Vote idempotence. A vote adds the supporter to the book's supporters,
/// each of them once; a second vote of the same supporter changes neither
/// who the supporters are nor how many. After each vote the stored number
/// of supporters is the number of supporters, so the second vote leaves it
/// as the first made it; and so does the first, where the supporter was
/// among the supporters and the stored number was theirs. In a collection whose documents hold their own
/// identifiers the reported identifier is the one voted for, and the
/// collection stays such a collection.
pub proof fn law_vote_twice(
    supporter: Seq<char>,
    id: Seq<u8>,
    before: StoreView,
    voted: StoreView,
    first_reported: Option<DocumentView>,
    after: StoreView,
    second_reported: Option<DocumentView>,
)
    requires
        id.len() == 12,
        before.contains_key(id),
        BookDocumentView::decode(before[id]) is Ok,
        store_step(
            before,
            StoreCommandView::FindOneAndUpdate { id, update: vote_operations(supporter) },
            voted,
            Reply::Found(first_reported),
        ),
        store_step(
            voted,
            StoreCommandView::FindOneAndUpdate { id, update: vote_operations(supporter) },
            after,
            Reply::Found(second_reported),
        ),
    ensures
        vote_command(identifier_text(id), supporter) == Ok::<StoreCommandView, ErrorView>(
            StoreCommandView::FindOneAndUpdate { id, update: vote_operations(supporter) },
        ),
        found_book(Ok(first_reported)) is Ok,
        found_book(Ok(second_reported)) is Ok,
        is_vote(
            BookDocumentView::decode(before[id])->Ok_0.into_book(),
            supporter,
            found_book(Ok(first_reported))->Ok_0,
        ),
        is_vote(
            found_book(Ok(first_reported))->Ok_0,
            supporter,
            found_book(Ok(second_reported))->Ok_0,
        ),
        found_book(Ok(second_reported))->Ok_0.supporters.to_set() == found_book(
            Ok(first_reported),
        )->Ok_0.supporters.to_set(),
        found_book(Ok(second_reported))->Ok_0.supporters.len() == found_book(
            Ok(first_reported),
        )->Ok_0.supporters.len(),
        voted[id][SUPPORTER_COUNT@] == ValueView::Integer(
            found_book(Ok(first_reported))->Ok_0.supporters.len() as i64,
        ),
        after[id][SUPPORTER_COUNT@] == ValueView::Integer(
            found_book(Ok(second_reported))->Ok_0.supporters.len() as i64,
        ),
        counts_supporters(voted[id]),
        counts_supporters(after[id]),
        after[id][SUPPORTER_COUNT@] == voted[id][SUPPORTER_COUNT@],
        ({
            let stored = BookDocumentView::decode(before[id])->Ok_0.supporters;
            &&& counts_supporters(before[id])
            &&& stored.no_duplicates()
            &&& stored.contains(supporter)
        }) ==> voted[id][SUPPORTER_COUNT@] == before[id][SUPPORTER_COUNT@],
        well_formed(before) ==> {
            &&& well_formed(voted)
            &&& well_formed(after)
            &&& found_book(Ok(first_reported))->Ok_0.id == identifier_text(id)
            &&& found_book(Ok(second_reported))->Ok_0.id == identifier_text(id)
        },
{
    lemma_render_then_parse(id);
    lemma_commands_keep_identifier(
        UpdateBookView {
            id: identifier_text(id),
            title: None,
            author: None,
            description: None,
            page_count: None,
            pitch_by: None,
            first_suggested: None,
            supporters: None,
        },
        identifier_text(id),
        supporter,
    );
    if well_formed(before) {
        lemma_step_keeps_well_formed(
            before,
            StoreCommandView::FindOneAndUpdate { id, update: vote_operations(supporter) },
            voted,
            Reply::Found(first_reported),
        );
        lemma_step_keeps_well_formed(
            voted,
            StoreCommandView::FindOneAndUpdate { id, update: vote_operations(supporter) },
            after,
            Reply::Found(second_reported),
        );
    }
    let operations = vote_operations(supporter);
    let first = choose|document: DocumentView|
        #![trigger update_result(before[id], operations, document)]
        update_result(before[id], operations, document) && voted == before.insert(id, document)
            && Reply::Found(first_reported) == Reply::Found(Some(document));
    lemma_vote_result(before[id], supporter, first);
    assert(voted.contains_key(id) && voted[id] == first);
    let second = choose|document: DocumentView|
        #![trigger update_result(voted[id], operations, document)]
        update_result(voted[id], operations, document) && after == voted.insert(id, document)
            && Reply::Found(second_reported) == Reply::Found(Some(document));
    lemma_vote_result(first, supporter, second);
    let stored = BookDocumentView::decode(before[id])->Ok_0.supporters;
    let once = found_book(Ok(first_reported))->Ok_0.supporters;
    let twice = found_book(Ok(second_reported))->Ok_0.supporters;
    assert(twice.to_set() =~= once.to_set());
    once.unique_seq_to_set();
    twice.unique_seq_to_set();
    if stored.no_duplicates() && stored.contains(supporter) {
        assert(once.to_set() =~= stored.to_set());
        stored.unique_seq_to_set();
    }
}

/// Delete, then look up. After a delete the book is not found, and a second
/// delete succeeds like the first.
pub proof fn law_lookup_after_delete(
    id: Seq<u8>,
    before: StoreView,
    deleted: StoreView,
    first_reply: Reply,
    looked_up: StoreView,
    found: Option<DocumentView>,
    after: StoreView,
    second_reply: Reply,
)
    requires
        id.len() == 12,
        store_step(before, StoreCommandView::DeleteOne { id }, deleted, first_reply),
        store_step(deleted, StoreCommandView::FindOne { id }, looked_up, Reply::Found(found)),
        store_step(looked_up, StoreCommandView::DeleteOne { id }, after, second_reply),
    ensures
        delete_command(identifier_text(id)) == Ok::<StoreCommandView, ErrorView>(
            StoreCommandView::DeleteOne { id },
        ),
        first_reply == Reply::Deleted,
        second_reply == Reply::Deleted,
        deleted_book(Ok(())) == Ok::<(), ErrorView>(()),
        found_book(Ok(found)) == Err::<BookView, ErrorView>(ErrorView::NoSuchBook),
        after == deleted,
        well_formed(before) ==> well_formed(after),
{
    lemma_render_then_parse(id);
    assert(after =~= deleted);
    if well_formed(before) {
        lemma_step_keeps_well_formed(
            before,
            StoreCommandView::DeleteOne { id },
            deleted,
            first_reply,
        );
    }
}

/// A text that is no identifier is refused before the store is touched, as
/// the caller's fault, and with another text than a book that is missing.
pub proof fn law_invalid_identifier(id: Seq<char>)
    requires
        parsed(id) is Err,
    ensures
        find_command(id) == Err::<StoreCommandView, ErrorView>(ErrorView::ObjectId),
        delete_command(id) == Err::<StoreCommandView, ErrorView>(ErrorView::ObjectId),
        forall|supporter: Seq<char>|
            #[trigger] vote_command(id, supporter) == Err::<StoreCommandView, ErrorView>(
                ErrorView::ObjectId,
            ),
        ServiceErrorView::from(ErrorView::ObjectId) is User,
        ServiceErrorView::from(ErrorView::NoSuchBook) is User,
        ServiceErrorView::from(ErrorView::ObjectId) != ServiceErrorView::from(
            ErrorView::NoSuchBook,
        ),
{
    reveal_strlit("Invalid ID.");
    reveal_strlit("Book does not exist.");
    assert("Invalid ID."@.len() == 11);
    assert("Book does not exist."@.len() == 20);
}

/// The text of an internal error says nothing of its cause.
pub proof fn law_internal_errors_do_not_leak(first: ErrorView, second: ErrorView)
    requires
        ServiceErrorView::from(first) is Internal,
        ServiceErrorView::from(second) is Internal,
    ensures
        ServiceErrorView::from(first).message() == ServiceErrorView::from(second).message(),
{
}

} // verus!
