//! The store, as the repositories see it: the commands they send, the
//! failure it may report, and a model of what a working store does.

use crate::document::{document_fields, DocumentView, ValueView};
use crate::identifier::Identifier;
use crate::update::{
    leaves_field, lemma_field_left, update_result, SetOperation, SetOperationView,
};
use mongodb::bson::Document;
use vstd::prelude::*;

verus! {

/// The name under which the store keeps the identifier of a document.
pub const ID: &'static str = "_id";

/// A failure that the store reported, with the store's own words.
#[derive(Debug, Clone, PartialEq, Eq)]
pub struct StoreFailure {
    pub message: String,
}

impl View for StoreFailure {
    type V = Seq<char>;

    open spec fn view(&self) -> Seq<char> {
        self.message@
    }
}

impl DeepView for StoreFailure {
    type V = Seq<char>;

    open spec fn deep_view(&self) -> Seq<char> {
        self@
    }
}

/// One request to the store. The store carries out each as a single
/// indivisible step.
#[derive(Debug, PartialEq)]
pub enum StoreCommand {
    /// Store the document under a new identifier and report the identifier.
    InsertOne { document: Document },
    /// Report the document with the identifier, if there is one.
    FindOne { id: Identifier },
    /// Apply the operations to the document with the identifier, if there is
    /// one, and report the document as it is afterwards.
    FindOneAndUpdate { id: Identifier, update: Vec<SetOperation> },
    /// Report every document.
    FindAll,
    /// Remove the document with the identifier, if there is one.
    DeleteOne { id: Identifier },
}

/// The mathematical content of a `StoreCommand`.
pub enum StoreCommandView {
    InsertOne { document: DocumentView },
    FindOne { id: Seq<u8> },
    FindOneAndUpdate { id: Seq<u8>, update: Seq<SetOperationView> },
    FindAll,
    DeleteOne { id: Seq<u8> },
}

impl View for StoreCommand {
    type V = StoreCommandView;

    open spec fn view(&self) -> StoreCommandView {
        match self {
            StoreCommand::InsertOne { document } => StoreCommandView::InsertOne {
                document: document_fields(*document),
            },
            StoreCommand::FindOne { id } => StoreCommandView::FindOne { id: id@ },
            StoreCommand::FindOneAndUpdate { id, update } => StoreCommandView::FindOneAndUpdate {
                id: id@,
                update: update.deep_view(),
            },
            StoreCommand::FindAll => StoreCommandView::FindAll,
            StoreCommand::DeleteOne { id } => StoreCommandView::DeleteOne { id: id@ },
        }
    }
}

impl DeepView for StoreCommand {
    type V = StoreCommandView;

    open spec fn deep_view(&self) -> StoreCommandView {
        self@
    }
}

/// An insert that is ready to be sent: the command, and the creation time
/// that its document carries.
#[derive(Debug, PartialEq)]
pub struct PendingInsert {
    pub first_suggested: i64,
    pub command: StoreCommand,
}

/// `DateTime::now` of the outside crate, read by `timestamp_millis`: the
/// server's clock, in milliseconds since the Unix epoch. Nothing is known of
/// the value.
#[verifier::external_body]
pub(crate) fn now_millis() -> i64 {
    mongodb::bson::DateTime::now().timestamp_millis()
}

/// What the store answered to a request for one document: the content of
/// the document, if it found one, or the failure in the store's words.
pub open spec fn found_view(reply: Result<Option<Document>, StoreFailure>) -> Result<
    Option<DocumentView>,
    Seq<char>,
> {
    match reply {
        Ok(Some(document)) => Ok(Some(document_fields(document))),
        Ok(None) => Ok(None),
        Err(failure) => Err(failure@),
    }
}

/// The content of each document, in the order of the documents.
pub open spec fn contents(documents: Seq<Document>) -> Seq<DocumentView> {
    documents.map_values(|document: Document| document_fields(document))
}

/// What the store answered to a request for every document: the content of
/// each, or the failure in the store's words.
pub open spec fn listed_view(reply: Result<Vec<Document>, StoreFailure>) -> Result<
    Seq<DocumentView>,
    Seq<char>,
> {
    match reply {
        Ok(documents) => Ok(contents(documents@)),
        Err(failure) => Err(failure@),
    }
}

/// The content of a collection: each identifier in use with its document.
pub type StoreView = Map<Seq<u8>, DocumentView>;

/// What a working store answers.
pub enum Reply {
    /// The identifier that the store gave to the inserted document.
    Inserted(Seq<u8>),
    /// The document that was asked for, if it exists.
    Found(Option<DocumentView>),
    /// Every document.
    Listed(Seq<DocumentView>),
    /// The document is gone.
    Deleted,
}

/// The document as the store keeps it under `id`.
pub open spec fn with_id(document: DocumentView, id: Seq<u8>) -> DocumentView {
    document.insert(ID@, ValueView::Id(id))
}

/// Whether a working store that holds `before` may answer `command` with
/// `reply` and hold `after` from then on.
///
/// An insert takes an identifier that is not in use. A find-and-modify
/// reads the document, applies the operations and writes the result back in
/// one step, so that nothing can come between. A listing holds every
/// document once, in an order of the store's choice.
pub open spec fn store_step(
    before: StoreView,
    command: StoreCommandView,
    after: StoreView,
    reply: Reply,
) -> bool {
    match command {
        StoreCommandView::InsertOne { document } => exists|id: Seq<u8>|
            #![trigger before.contains_key(id)]
            {
                &&& id.len() == 12
                &&& !before.contains_key(id)
                &&& after == before.insert(id, with_id(document, id))
                &&& reply == Reply::Inserted(id)
            },
        StoreCommandView::FindOne { id } => {
            &&& after == before
            &&& reply == Reply::Found(
                if before.contains_key(id) {
                    Some(before[id])
                } else {
                    None
                },
            )
        },
        StoreCommandView::FindOneAndUpdate { id, update } => {
            if before.contains_key(id) {
                exists|updated: DocumentView|
                    #![trigger update_result(before[id], update, updated)]
                    {
                        &&& update_result(before[id], update, updated)
                        &&& after == before.insert(id, updated)
                        &&& reply == Reply::Found(Some(updated))
                    }
            } else {
                after == before && reply == Reply::Found(None)
            }
        },
        StoreCommandView::FindAll => {
            &&& after == before
            &&& reply matches Reply::Listed(documents)
            &&& exists|ids: Seq<Seq<u8>>|
                #![trigger ids.no_duplicates()]
                {
                    &&& ids.no_duplicates()
                    &&& ids.to_set() == before.dom()
                    &&& documents == ids.map_values(|id: Seq<u8>| before[id])
                }
        },
        StoreCommandView::DeleteOne { id } => {
            &&& after == before.remove(id)
            &&& reply == Reply::Deleted
        },
    }
}

/// Whether every document of the collection holds, under the name of the
/// identifier, the identifier that it is kept under.
pub open spec fn well_formed(store: StoreView) -> bool {
    forall|id: Seq<u8>| #[trigger]
        store.contains_key(id) ==> {
            &&& id.len() == 12
            &&& store[id].contains_key(ID@)
            &&& store[id][ID@] == ValueView::Id(id)
        }
}

/// Whether the command leaves the identifier of every document alone: a
/// find-and-modify does so where none of its operations assigns to the name
/// of the identifier, every other command always.
pub open spec fn keeps_identifier(command: StoreCommandView) -> bool {
    match command {
        StoreCommandView::FindOneAndUpdate { id, update } => leaves_field(update, ID@),
        _ => true,
    }
}

/// A collection in which every document holds its own identifier stays so
/// under every step of a command that leaves the identifiers alone.
pub proof fn lemma_step_keeps_well_formed(
    before: StoreView,
    command: StoreCommandView,
    after: StoreView,
    reply: Reply,
)
    requires
        well_formed(before),
        keeps_identifier(command),
        store_step(before, command, after, reply),
    ensures
        well_formed(after),
{
    match command {
        StoreCommandView::InsertOne { document } => {
            let new = choose|id: Seq<u8>|
                #![trigger before.contains_key(id)]
                {
                    &&& id.len() == 12
                    &&& !before.contains_key(id)
                    &&& after == before.insert(id, with_id(document, id))
                    &&& reply == Reply::Inserted(id)
                };
            assert forall|id: Seq<u8>| #[trigger] after.contains_key(id) implies {
                &&& id.len() == 12
                &&& after[id].contains_key(ID@)
                &&& after[id][ID@] == ValueView::Id(id)
            } by {
                if id != new {
                    assert(before.contains_key(id));
                }
            }
        },
        StoreCommandView::FindOneAndUpdate { id: target, update } => {
            if before.contains_key(target) {
                let updated = choose|updated: DocumentView|
                    #![trigger update_result(before[target], update, updated)]
                    {
                        &&& update_result(before[target], update, updated)
                        &&& after == before.insert(target, updated)
                        &&& reply == Reply::Found(Some(updated))
                    };
                lemma_field_left(before[target], update, updated, ID@);
                assert forall|id: Seq<u8>| #[trigger] after.contains_key(id) implies {
                    &&& id.len() == 12
                    &&& after[id].contains_key(ID@)
                    &&& after[id][ID@] == ValueView::Id(id)
                } by {
                    assert(before.contains_key(id));
                }
            }
        },
        StoreCommandView::DeleteOne { id: target } => {
            assert forall|id: Seq<u8>| #[trigger] after.contains_key(id) implies {
                &&& id.len() == 12
                &&& after[id].contains_key(ID@)
                &&& after[id][ID@] == ValueView::Id(id)
            } by {
                assert(before.contains_key(id));
            }
        },
        _ => {},
    }
}

} // verus!
