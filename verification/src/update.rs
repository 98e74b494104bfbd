//! Update operations: what a find-and-modify asks the store to change.
//!
//! An update is a sequence of set-operations. The store applies them in
//! order to the document it found, each one to the result of the one
//! before, and the whole sequence as one indivisible step.

use crate::document::{DocumentView, Value, ValueView};
use vstd::prelude::*;

verus! {

/// What a set-operation assigns.
#[derive(Debug, Clone, PartialEq, Eq)]
pub enum Expression {
    /// The given value.
    Literal(Value),
    /// The texts of the list stored under `list` together with `member`,
    /// each text once.
    Union { list: String, member: String },
    /// The number of texts in the list stored under `list`.
    Size { list: String },
}

/// The mathematical content of an `Expression`.
pub enum ExpressionView {
    Literal(ValueView),
    Union { list: Seq<char>, member: Seq<char> },
    Size { list: Seq<char> },
}

impl View for Expression {
    type V = ExpressionView;

    open spec fn view(&self) -> ExpressionView {
        match self {
            Expression::Literal(value) => ExpressionView::Literal(value@),
            Expression::Union { list, member } => ExpressionView::Union {
                list: list@,
                member: member@,
            },
            Expression::Size { list } => ExpressionView::Size { list: list@ },
        }
    }
}

/// One set-operation: the stored name of a field and what it becomes.
#[derive(Debug, Clone, PartialEq, Eq)]
pub struct SetOperation {
    pub field: String,
    pub value: Expression,
}

/// The mathematical content of a `SetOperation`.
pub struct SetOperationView {
    pub field: Seq<char>,
    pub value: ExpressionView,
}

impl View for SetOperation {
    type V = SetOperationView;

    open spec fn view(&self) -> SetOperationView {
        SetOperationView { field: self.field@, value: self.value@ }
    }
}

impl DeepView for SetOperation {
    type V = SetOperationView;

    open spec fn deep_view(&self) -> SetOperationView {
        self@
    }
}

/// The operation that sets `field` to the given value.
pub open spec fn set_literal(field: Seq<char>, value: ValueView) -> SetOperationView {
    SetOperationView { field, value: ExpressionView::Literal(value) }
}

/// Whether `merged` is a union of the texts of `list` with `member`: it
/// holds exactly those texts, each once. Their order is the store's choice.
pub open spec fn is_union(list: Seq<Seq<char>>, member: Seq<char>, merged: Seq<Seq<char>>) -> bool {
    &&& merged.no_duplicates()
    &&& forall|text: Seq<char>|
        #![trigger merged.contains(text)]
        merged.contains(text) <==> (list.contains(text) || text == member)
}

/// Whether `after` is what `operation` may make of the document `before`.
/// An operation that reads a list has no result where the document holds
/// no list under that name.
pub open spec fn operation_result(
    before: DocumentView,
    operation: SetOperationView,
    after: DocumentView,
) -> bool {
    match operation.value {
        ExpressionView::Literal(value) => after == before.insert(operation.field, value),
        ExpressionView::Union { list, member } => {
            &&& before.contains_key(list)
            &&& before[list] matches ValueView::TextList(texts)
            &&& exists|merged: Seq<Seq<char>>|
                #![trigger is_union(texts, member, merged)]
                is_union(texts, member, merged) && after == before.insert(
                    operation.field,
                    ValueView::TextList(merged),
                )
        },
        ExpressionView::Size { list } => {
            &&& before.contains_key(list)
            &&& before[list] matches ValueView::TextList(texts)
            &&& texts.len() <= i64::MAX
            &&& after == before.insert(
                operation.field,
                ValueView::Integer(texts.len() as i64),
            )
        },
    }
}

/// Whether `after` is what the operations, applied in order, may make of
/// the document `before`.
pub open spec fn update_result(
    before: DocumentView,
    operations: Seq<SetOperationView>,
    after: DocumentView,
) -> bool
    decreases operations.len(),
{
    if operations.len() == 0 {
        after == before
    } else {
        exists|middle: DocumentView|
            #![trigger operation_result(before, operations[0], middle)]
            operation_result(before, operations[0], middle) && update_result(
                middle,
                operations.drop_first(),
                after,
            )
    }
}

/// Whether every operation assigns a given value.
pub open spec fn all_literal(operations: Seq<SetOperationView>) -> bool {
    forall|i: int|
        0 <= i < operations.len() ==> (#[trigger] operations[i]).value is Literal
}

/// The document that operations with given values make of `before`.
pub open spec fn with_literals(
    before: DocumentView,
    operations: Seq<SetOperationView>,
) -> DocumentView
    decreases operations.len(),
{
    if operations.len() == 0 {
        before
    } else {
        with_literals(
            before.insert(operations[0].field, operations[0].value->Literal_0),
            operations.drop_first(),
        )
    }
}

/// An update whose operations all assign given values has one result.
pub proof fn lemma_literal_update(
    before: DocumentView,
    operations: Seq<SetOperationView>,
    after: DocumentView,
)
    requires
        all_literal(operations),
    ensures
        update_result(before, operations, after) <==> after == with_literals(before, operations),
    decreases operations.len(),
{
    if operations.len() > 0 {
        let first = operations[0];
        let middle = before.insert(first.field, first.value->Literal_0);
        let rest = operations.drop_first();
        assert(all_literal(rest)) by {
            assert forall|i: int| 0 <= i < rest.len() implies (#[trigger] rest[i]).value is Literal
            by {
                assert(rest[i] == operations[i + 1]);
            }
        }
        lemma_literal_update(middle, rest, after);
        assert(operation_result(before, first, middle));
        if update_result(before, operations, after) {
            let m = choose|m: DocumentView|
                #![trigger operation_result(before, operations[0], m)]
                operation_result(before, operations[0], m) && update_result(
                    m,
                    operations.drop_first(),
                    after,
                );
            assert(m == middle);
        }
    }
}

/// One more operation with a given value, after the others, sets its field
/// in what the others made.
pub proof fn lemma_with_literals_push(
    before: DocumentView,
    operations: Seq<SetOperationView>,
    field: Seq<char>,
    value: ValueView,
)
    ensures
        with_literals(before, operations.push(set_literal(field, value))) == with_literals(
            before,
            operations,
        ).insert(field, value),
    decreases operations.len(),
{
    let longer = operations.push(set_literal(field, value));
    if operations.len() == 0 {
        assert(longer.drop_first() == operations);
        assert(with_literals(before.insert(field, value), operations) == before.insert(
            field,
            value,
        ));
    } else {
        assert(longer[0] == operations[0]);
        assert(longer.drop_first() == operations.drop_first().push(set_literal(field, value)));
        lemma_with_literals_push(
            before.insert(operations[0].field, operations[0].value->Literal_0),
            operations.drop_first(),
            field,
            value,
        );
    }
}

/// The operations and then one more make of a document what the one more
/// makes of what the operations made of it.
pub proof fn lemma_one_more_operation(
    before: DocumentView,
    operations: Seq<SetOperationView>,
    last: SetOperationView,
    after: DocumentView,
)
    ensures
        update_result(before, operations.push(last), after) <==> exists|middle: DocumentView|
            #![trigger update_result(before, operations, middle)]
            update_result(before, operations, middle) && operation_result(middle, last, after),
    decreases operations.len(),
{
    let longer = operations.push(last);
    if operations.len() == 0 {
        assert(longer[0] == last);
        assert(longer.drop_first().len() == 0);
        if update_result(before, longer, after) {
            let made = choose|made: DocumentView|
                #![trigger operation_result(before, longer[0], made)]
                operation_result(before, longer[0], made) && update_result(
                    made,
                    longer.drop_first(),
                    after,
                );
            assert(made == after);
            assert(update_result(before, operations, before));
        }
        if exists|middle: DocumentView|
            #![trigger update_result(before, operations, middle)]
            update_result(before, operations, middle) && operation_result(middle, last, after) {
            let middle = choose|middle: DocumentView|
                #![trigger update_result(before, operations, middle)]
                update_result(before, operations, middle) && operation_result(middle, last, after);
            assert(middle == before);
            assert(operation_result(before, longer[0], after));
            assert(update_result(after, longer.drop_first(), after));
        }
    } else {
        let rest = operations.drop_first();
        assert(longer[0] == operations[0]);
        assert(longer.drop_first() == rest.push(last));
        if update_result(before, longer, after) {
            let first = choose|first: DocumentView|
                #![trigger operation_result(before, longer[0], first)]
                operation_result(before, longer[0], first) && update_result(
                    first,
                    longer.drop_first(),
                    after,
                );
            lemma_one_more_operation(first, rest, last, after);
            let middle = choose|middle: DocumentView|
                #![trigger update_result(first, rest, middle)]
                update_result(first, rest, middle) && operation_result(middle, last, after);
            assert(operation_result(before, operations[0], first));
            assert(update_result(before, operations, middle));
        }
        if exists|middle: DocumentView|
            #![trigger update_result(before, operations, middle)]
            update_result(before, operations, middle) && operation_result(middle, last, after) {
            let middle = choose|middle: DocumentView|
                #![trigger update_result(before, operations, middle)]
                update_result(before, operations, middle) && operation_result(middle, last, after);
            let first = choose|first: DocumentView|
                #![trigger operation_result(before, operations[0], first)]
                operation_result(before, operations[0], first) && update_result(
                    first,
                    rest,
                    middle,
                );
            lemma_one_more_operation(first, rest, last, after);
            assert(update_result(first, rest, middle));
            assert(update_result(first, rest.push(last), after));
            assert(operation_result(before, longer[0], first));
        }
    }
}

/// Whether no operation assigns to the field `name`.
pub open spec fn leaves_field(operations: Seq<SetOperationView>, name: Seq<char>) -> bool {
    forall|i: int| 0 <= i < operations.len() ==> (#[trigger] operations[i]).field != name
}

/// An update leaves every field as it was to which none of its operations
/// assigns.
pub proof fn lemma_field_left(
    before: DocumentView,
    operations: Seq<SetOperationView>,
    after: DocumentView,
    name: Seq<char>,
)
    requires
        update_result(before, operations, after),
        leaves_field(operations, name),
    ensures
        after.contains_key(name) == before.contains_key(name),
        before.contains_key(name) ==> after[name] == before[name],
    decreases operations.len(),
{
    if operations.len() > 0 {
        let rest = operations.drop_first();
        let first = choose|first: DocumentView|
            #![trigger operation_result(before, operations[0], first)]
            operation_result(before, operations[0], first) && update_result(first, rest, after);
        assert(operations[0].field != name);
        assert(leaves_field(rest, name)) by {
            assert forall|i: int| 0 <= i < rest.len() implies (#[trigger] rest[i]).field
                != name by {
                assert(rest[i] == operations[i + 1]);
            }
        }
        lemma_field_left(first, rest, after, name);
    }
}

/// One more operation on another field leaves `name` alone as the
/// operations before it do.
pub proof fn lemma_then_set_leaves(
    operations: Seq<SetOperationView>,
    field: Seq<char>,
    value: Option<ValueView>,
    name: Seq<char>,
)
    requires
        leaves_field(operations, name),
        field != name,
    ensures
        leaves_field(then_set(operations, field, value), name),
{
}

/// The texts of `texts`, each once, in the order in which they first occur.
pub open spec fn distinct(texts: Seq<Seq<char>>) -> Seq<Seq<char>>
    decreases texts.len(),
{
    if texts.len() == 0 {
        texts
    } else {
        let before = distinct(texts.drop_last());
        if before.contains(texts.last()) {
            before
        } else {
            before.push(texts.last())
        }
    }
}

/// `distinct` holds the texts of the list and no others, each once, and no
/// more of them than the list; a list without duplicates it leaves as it
/// is.
pub proof fn lemma_distinct(texts: Seq<Seq<char>>)
    ensures
        distinct(texts).no_duplicates(),
        distinct(texts).len() <= texts.len(),
        forall|text: Seq<char>|
            #![trigger distinct(texts).contains(text)]
            distinct(texts).contains(text) <==> texts.contains(text),
        texts.no_duplicates() ==> distinct(texts) == texts,
    decreases texts.len(),
{
    if texts.len() > 0 {
        let shorter = texts.drop_last();
        let before = distinct(shorter);
        let last = texts.last();
        lemma_distinct(shorter);
        assert forall|text: Seq<char>| #![trigger distinct(texts).contains(text)]
            distinct(texts).contains(text) <==> texts.contains(text) by {
            if texts.contains(text) {
                let i = choose|i: int| 0 <= i < texts.len() && texts[i] == text;
                if i < texts.len() - 1 {
                    assert(shorter[i] == text);
                    assert(shorter.contains(text));
                    assert(before.contains(text));
                    let j = choose|j: int| 0 <= j < before.len() && before[j] == text;
                    assert(distinct(texts)[j] == text);
                } else if !before.contains(last) {
                    assert(distinct(texts)[before.len() as int] == text);
                }
            }
            if distinct(texts).contains(text) {
                let j = choose|j: int| 0 <= j < distinct(texts).len() && distinct(texts)[j] == text;
                if j < before.len() {
                    assert(before[j] == text);
                    assert(before.contains(text));
                    assert(shorter.contains(text));
                    let i = choose|i: int| 0 <= i < shorter.len() && shorter[i] == text;
                    assert(texts[i] == text);
                } else {
                    assert(texts[texts.len() - 1] == text);
                }
            }
        }
        if texts.no_duplicates() {
            assert(shorter.no_duplicates());
            assert(!shorter.contains(last)) by {
                if shorter.contains(last) {
                    let i = choose|i: int| 0 <= i < shorter.len() && shorter[i] == last;
                    assert(texts[i] == texts[texts.len() - 1]);
                }
            }
            assert(shorter.push(last) == texts);
        }
    }
}

/// The texts, each once, in the order in which they first occur.
pub fn distinct_texts(texts: Vec<String>) -> (kept: Vec<String>)
    ensures
        kept.deep_view() == distinct(texts.deep_view()),
{
    let mut kept: Vec<String> = Vec::new();
    let mut i: usize = 0;
    assert(texts.deep_view().take(0) == Seq::<Seq<char>>::empty());
    assert(kept.deep_view() == Seq::<Seq<char>>::empty());
    while i < texts.len()
        invariant
            i <= texts.len(),
            kept.deep_view() == distinct(texts.deep_view().take(i as int)),
        decreases texts.len() - i,
    {
        let mut found = false;
        let mut j: usize = 0;
        while j < kept.len()
            invariant
                i < texts.len(),
                j <= kept.len(),
                found <==> exists|k: int| 0 <= k < j && kept@[k]@ == texts@[i as int]@,
            decreases kept.len() - j,
        {
            if kept[j] == texts[i] {
                found = true;
            }
            j = j + 1;
        }
        proof {
            let seen = texts.deep_view().take(i as int);
            let longer = texts.deep_view().take(i + 1);
            assert(longer.drop_last() == seen);
            assert(longer.last() == texts@[i as int]@);
            assert(found <==> kept.deep_view().contains(texts@[i as int]@)) by {
                if found {
                    let k = choose|k: int| 0 <= k < kept.len() && kept@[k]@ == texts@[i as int]@;
                    assert(kept.deep_view()[k] == texts@[i as int]@);
                }
                if kept.deep_view().contains(texts@[i as int]@) {
                    let k = choose|k: int|
                        0 <= k < kept.deep_view().len() && kept.deep_view()[k]
                            == texts@[i as int]@;
                    assert(kept@[k]@ == texts@[i as int]@);
                }
            }
        }
        if !found {
            let ghost shorter = kept.deep_view();
            kept.push(texts[i].clone());
            assert(kept.deep_view() == shorter.push(texts@[i as int]@));
        }
        i = i + 1;
    }
    assert(texts.deep_view().take(texts.len() as int) == texts.deep_view());
    kept
}

/// The operations, followed by one that sets `field` where a value is
/// given.
pub open spec fn then_set(
    operations: Seq<SetOperationView>,
    field: Seq<char>,
    value: Option<ValueView>,
) -> Seq<SetOperationView> {
    match value {
        Some(value) => operations.push(set_literal(field, value)),
        None => operations,
    }
}

/// One more operation, where a value is given, sets its field in what the
/// operations before it made.
pub proof fn lemma_then_set(
    before: DocumentView,
    operations: Seq<SetOperationView>,
    field: Seq<char>,
    value: Option<ValueView>,
)
    requires
        all_literal(operations),
    ensures
        all_literal(then_set(operations, field, value)),
        with_literals(before, then_set(operations, field, value)) == match value {
            Some(value) => with_literals(before, operations).insert(field, value),
            None => with_literals(before, operations),
        },
{
    if let Some(value) = value {
        lemma_with_literals_push(before, operations, field, value);
    }
}

/// Appends to `operations` the one that sets `field`, where a value is given.
pub fn push_set(operations: &mut Vec<SetOperation>, field: &str, value: Option<Value>)
    ensures
        final(operations).deep_view() == then_set(
            old(operations).deep_view(),
            field@,
            value.deep_view(),
        ),
{
    if let Some(value) = value {
        let operation = SetOperation { field: field.to_owned(), value: Expression::Literal(value) };
        operations.push(operation);
        assert(operations.deep_view() =~= old(operations).deep_view().push(
            set_literal(field@, value@),
        ));
    } else {
        assert(operations.deep_view() =~= old(operations).deep_view());
    }
}

/// A text, where there is one, as a stored value.
pub open spec fn text_value(text: Option<Seq<char>>) -> Option<ValueView> {
    match text {
        Some(text) => Some(ValueView::Text(text)),
        None => None,
    }
}

/// A point in time, where there is one, as a stored value.
pub open spec fn timestamp_value(millis: Option<i64>) -> Option<ValueView> {
    match millis {
        Some(millis) => Some(ValueView::Timestamp(millis)),
        None => None,
    }
}

/// A list of texts, where there is one, as a stored value.
pub open spec fn list_value(texts: Option<Seq<Seq<char>>>) -> Option<ValueView> {
    match texts {
        Some(texts) => Some(ValueView::TextList(texts)),
        None => None,
    }
}

/// A value, or the store's null where there is none.
pub open spec fn or_null(value: Option<ValueView>) -> ValueView {
    match value {
        Some(value) => value,
        None => ValueView::Null,
    }
}

/// A whole number as a stored value.
pub open spec fn count_value(number: Option<u32>) -> Option<ValueView> {
    match number {
        Some(number) => Some(ValueView::Integer(number as i64)),
        None => None,
    }
}

/// A text, where there is one, as a stored value.
pub(crate) fn text_of(text: Option<String>) -> (value: Option<Value>)
    ensures
        value.deep_view() == text_value(text.deep_view()),
{
    match text {
        Some(text) => Some(Value::Text(text)),
        None => None,
    }
}

/// A point in time, where there is one, as a stored value.
pub(crate) fn timestamp_of(millis: Option<i64>) -> (value: Option<Value>)
    ensures
        value.deep_view() == timestamp_value(millis),
{
    match millis {
        Some(millis) => Some(Value::Timestamp(millis)),
        None => None,
    }
}

/// A list of texts, where there is one, as a stored value.
pub(crate) fn list_of(texts: Option<Vec<String>>) -> (value: Option<Value>)
    ensures
        value.deep_view() == list_value(texts.deep_view()),
{
    match texts {
        Some(texts) => Some(Value::texts(&texts)),
        None => None,
    }
}

/// A value, or the store's null where there is none.
pub(crate) fn or_null_of(value: Option<Value>) -> (stored: Value)
    ensures
        stored@ == or_null(value.deep_view()),
{
    match value {
        Some(value) => value,
        None => Value::Null,
    }
}

/// A copy of the text, where there is one.
pub(crate) fn copy_text(text: &Option<String>) -> (copy: Option<String>)
    ensures
        copy.deep_view() == text.deep_view(),
{
    match text {
        Some(text) => Some(text.clone()),
        None => None,
    }
}

/// A whole number, where there is one, as a stored value.
pub(crate) fn count_of(number: Option<u32>) -> (value: Option<Value>)
    ensures
        value.deep_view() == count_value(number),
{
    match number {
        Some(number) => Some(Value::Integer(number as i64)),
        None => None,
    }
}

} // verus!
