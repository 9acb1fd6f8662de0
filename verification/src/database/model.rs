//! The records of a backend as contracts see them: a sequence in the order of
//! creation. What finding, storing and removing mean on it, and the laws that
//! connect the three.

use vstd::prelude::*;
use crate::database::base::TransactionStore;
use crate::models::transaction::{CreateTransactionView, Transaction, TransactionView};

verus! {

/// The latest record of `records` whose id is `id`, if there is one.
pub open spec fn lookup(records: Seq<TransactionView>, id: Seq<char>) -> Option<TransactionView>
    decreases records.len(),
{
    if records.len() == 0 {
        None
    } else if records.last().id == id {
        Some(records.last())
    } else {
        lookup(records.drop_last(), id)
    }
}

/// `records` without the records whose id is `id`, the others in their order.
pub open spec fn without_id(records: Seq<TransactionView>, id: Seq<char>) -> Seq<TransactionView>
    decreases records.len(),
{
    if records.len() == 0 {
        records
    } else if records.last().id == id {
        without_id(records.drop_last(), id)
    } else {
        without_id(records.drop_last(), id).push(records.last())
    }
}

/// What an answer to a search holds, as contracts see it.
pub open spec fn found_view(found: Option<Transaction>) -> Option<TransactionView> {
    match found {
        Some(t) => Some(t@),
        None => None,
    }
}

/// What a list of records holds, as contracts see it.
pub open spec fn views(all: Seq<Transaction>) -> Seq<TransactionView> {
    all.map_values(|t: Transaction| t@)
}

/// `after` is `before` with one more record at its end: a new record under
/// `id`, which no record of `before` has, that carries `request`.
pub open spec fn created(
    before: Seq<TransactionView>,
    request: CreateTransactionView,
    id: Seq<char>,
    after: Seq<TransactionView>,
) -> bool {
    &&& lookup(before, id) is None
    &&& after.len() == before.len() + 1
    &&& after.drop_last() == before
    &&& after.last().id == id
    &&& after.last().carries(request)
}

/// Round trip: a transaction that a backend has just stored is found under
/// the id that the backend gave it, and what is found has the account type,
/// the payment date, the amount and the description of the request.
pub proof fn lemma_created_is_found<T: TransactionStore>(
    before: Seq<TransactionView>,
    request: CreateTransactionView,
    id: Seq<char>,
    after: Seq<TransactionView>,
)
    requires
        T::canonical_id(id) == Some(id),
        created(before, request, id, after),
    ensures
        T::canonical_id(id) matches Some(key) && lookup(after, key) matches Some(record) && {
            &&& record.id == id
            &&& record.account_type == request.account_type
            &&& record.payment_date == request.payment_date
            &&& record.amount == request.amount
            &&& record.description == request.description
        },
{
}

/// Storing a transaction leaves every other id as it was: what was found
/// under it is still found, and what was absent is still absent.
pub proof fn lemma_created_keeps_others(
    before: Seq<TransactionView>,
    request: CreateTransactionView,
    id: Seq<char>,
    after: Seq<TransactionView>,
    other: Seq<char>,
)
    requires
        created(before, request, id, after),
        other != id,
    ensures
        lookup(after, other) == lookup(before, other),
{
}

/// Deletion: after the records under an id are removed, nothing is found
/// under it.
pub proof fn lemma_deleted_is_absent(records: Seq<TransactionView>, id: Seq<char>)
    ensures
        lookup(without_id(records, id), id) is None,
    decreases records.len(),
{
    if records.len() > 0 {
        lemma_deleted_is_absent(records.drop_last(), id);
        if records.last().id != id {
            let rest = without_id(records.drop_last(), id);
            assert(rest.push(records.last()).drop_last() == rest);
        }
    }
}

/// Removing the records under an id leaves every other id as it was.
pub proof fn lemma_deleted_keeps_others(
    records: Seq<TransactionView>,
    id: Seq<char>,
    other: Seq<char>,
)
    requires
        other != id,
    ensures
        lookup(without_id(records, id), other) == lookup(records, other),
    decreases records.len(),
{
    if records.len() > 0 {
        lemma_deleted_keeps_others(records.drop_last(), id, other);
        if records.last().id != id {
            let rest = without_id(records.drop_last(), id);
            assert(rest.push(records.last()).drop_last() == rest);
        }
    }
}

/// Removing the records under an id that no record has changes nothing.
pub proof fn lemma_deleting_the_absent_changes_nothing(
    records: Seq<TransactionView>,
    id: Seq<char>,
)
    requires
        lookup(records, id) is None,
    ensures
        without_id(records, id) == records,
    decreases records.len(),
{
    if records.len() > 0 {
        lemma_deleting_the_absent_changes_nothing(records.drop_last(), id);
        assert(records.drop_last().push(records.last()) == records);
    }
}

/// Absence: nothing is found under an id exactly where no record has it.
pub proof fn lemma_absent_iff_never_stored(records: Seq<TransactionView>, id: Seq<char>)
    ensures
        lookup(records, id) is None <==> forall|i: int|
            0 <= i < records.len() ==> (#[trigger] records[i]).id != id,
    decreases records.len(),
{
    if records.len() > 0 {
        let rest = records.drop_last();
        lemma_absent_iff_never_stored(rest, id);
        if records.last().id != id {
            if lookup(rest, id) is None {
                assert forall|i: int| 0 <= i < records.len() implies (#[trigger] records[i]).id
                    != id by {
                    if i < rest.len() {
                        assert(records[i] == rest[i]);
                    }
                }
            } else {
                let i = choose|i: int| 0 <= i < rest.len() && (#[trigger] rest[i]).id == id;
                assert(records[i] == rest[i]);
            }
        }
    }
}

/// What is found under an id is a stored record with that id.
pub proof fn lemma_found_is_stored(records: Seq<TransactionView>, id: Seq<char>)
    ensures
        lookup(records, id) matches Some(record) ==> record.id == id && records.contains(record),
    decreases records.len(),
{
    if records.len() > 0 {
        if records.last().id == id {
            assert(records[records.len() - 1] == records.last());
        } else {
            lemma_found_is_stored(records.drop_last(), id);
            let rest = records.drop_last();
            if lookup(rest, id) is Some {
                let record = lookup(rest, id)->Some_0;
                let i = choose|i: int| 0 <= i < rest.len() && rest[i] == record;
                assert(records[i] == record);
            }
        }
    }
}


/// Every id of `records` is among `issued`: what is stored was handed out.
pub open spec fn accounted(records: Seq<TransactionView>, issued: Set<Seq<char>>) -> bool {
    forall|i: int| 0 <= i < records.len() ==> issued.contains((#[trigger] records[i]).id)
}

/// `issued` and the ids of `records`: the ids handed out after `records`
/// were stored one after the other, where `issued` were handed out before.
pub open spec fn issued_with(issued: Set<Seq<char>>, records: Seq<TransactionView>) -> Set<
    Seq<char>,
>
    decreases records.len(),
{
    if records.len() == 0 {
        issued
    } else {
        issued_with(issued, records.drop_last()).insert(records.last().id)
    }
}

/// Storing takes no id back: what was handed out before stays handed out.
pub proof fn lemma_issued_with_keeps(
    issued: Set<Seq<char>>,
    records: Seq<TransactionView>,
    id: Seq<char>,
)
    requires
        issued.contains(id),
    ensures
        issued_with(issued, records).contains(id),
    decreases records.len(),
{
    if records.len() > 0 {
        lemma_issued_with_keeps(issued, records.drop_last(), id);
    }
}

/// Ids are never given again. Where a backend handed `first` out when
/// `then` were the ids handed out, and later hands `second` out when `later`
/// are, the two differ; and so they do whatever was removed in between,
/// because removing takes no id back.
pub proof fn lemma_ids_are_never_given_again(
    then: Set<Seq<char>>,
    first: Seq<char>,
    later: Set<Seq<char>>,
    second: Seq<char>,
)
    requires
        then.insert(first).subset_of(later),
        !later.contains(second),
    ensures
        first != second,
        !then.contains(second),
{
    assert(then.insert(first).contains(first));
    if then.contains(second) {
        assert(then.insert(first).contains(second));
    }
}

/// The id of a new record differs from the id of every record that was
/// stored when it was handed out, and from every id handed out before.
pub proof fn lemma_new_id_is_new(
    records: Seq<TransactionView>,
    issued: Set<Seq<char>>,
    id: Seq<char>,
)
    requires
        accounted(records, issued),
        !issued.contains(id),
    ensures
        lookup(records, id) is None,
{
    lemma_absent_iff_never_stored(records, id);
}

/// No two of `records` have the same id.
pub open spec fn unique_ids(records: Seq<TransactionView>) -> bool {
    forall|i: int, j: int|
        0 <= i < j < records.len() ==> (#[trigger] records[i]).id != (#[trigger] records[j]).id
}

/// Where ids are unique, every record is the one that is found under its
/// id.
pub proof fn lemma_unique_is_found(records: Seq<TransactionView>, index: int)
    requires
        unique_ids(records),
        0 <= index < records.len(),
    ensures
        lookup(records, records[index].id) == Some(records[index]),
    decreases records.len(),
{
    if index < records.len() - 1 {
        let rest = records.drop_last();
        assert(records[index].id != records[records.len() - 1].id);
        assert(rest[index] == records[index]);
        assert forall|i: int, j: int| 0 <= i < j < rest.len() implies (#[trigger] rest[i]).id != (
        #[trigger] rest[j]).id by {
            assert(rest[i] == records[i]);
            assert(rest[j] == records[j]);
        }
        lemma_unique_is_found(rest, index);
    }
}

/// Storing a transaction keeps ids unique.
pub proof fn lemma_created_keeps_ids_unique(
    before: Seq<TransactionView>,
    request: CreateTransactionView,
    id: Seq<char>,
    after: Seq<TransactionView>,
)
    requires
        created(before, request, id, after),
        unique_ids(before),
    ensures
        unique_ids(after),
{
    lemma_absent_iff_never_stored(before, id);
    assert forall|i: int, j: int| 0 <= i < j < after.len() implies (#[trigger] after[i]).id != (
    #[trigger] after[j]).id by {
        assert(after[i] == before[i]);
        if j < before.len() {
            assert(after[j] == before[j]);
        }
    }
}

/// What is left after a removal was there before it.
pub proof fn lemma_deleted_was_stored(records: Seq<TransactionView>, id: Seq<char>)
    ensures
        forall|k: int|
            0 <= k < without_id(records, id).len() ==> records.contains(
                #[trigger] without_id(records, id)[k],
            ),
    decreases records.len(),
{
    if records.len() > 0 {
        let rest = records.drop_last();
        let left = without_id(records, id);
        lemma_deleted_was_stored(rest, id);
        assert forall|k: int| 0 <= k < left.len() implies records.contains(#[trigger] left[k]) by {
            if k < without_id(rest, id).len() {
                assert(left[k] == without_id(rest, id)[k]);
                assert(rest.contains(left[k]));
                let p = choose|p: int| 0 <= p < rest.len() && rest[p] == left[k];
                assert(records[p] == left[k]);
            } else {
                assert(left[k] == records[records.len() - 1]);
            }
        }
    }
}

/// Removing the records under an id keeps ids unique.
pub proof fn lemma_deleted_keeps_ids_unique(records: Seq<TransactionView>, id: Seq<char>)
    requires
        unique_ids(records),
    ensures
        unique_ids(without_id(records, id)),
    decreases records.len(),
{
    if records.len() > 0 {
        let rest = records.drop_last();
        let left = without_id(records, id);
        assert forall|i: int, j: int| 0 <= i < j < rest.len() implies (#[trigger] rest[i]).id != (
        #[trigger] rest[j]).id by {
            assert(rest[i] == records[i]);
            assert(rest[j] == records[j]);
        }
        lemma_deleted_keeps_ids_unique(rest, id);
        lemma_deleted_was_stored(rest, id);
        if records.last().id != id {
            assert forall|i: int, j: int| 0 <= i < j < left.len() implies (#[trigger] left[i]).id
                != (#[trigger] left[j]).id by {
                assert(left[i] == without_id(rest, id)[i]);
                if j < without_id(rest, id).len() {
                    assert(left[j] == without_id(rest, id)[j]);
                } else {
                    assert(rest.contains(left[i]));
                    let p = choose|p: int| 0 <= p < rest.len() && rest[p] == left[i];
                    assert(records[p] == left[i]);
                    assert(records[records.len() - 1] == left[j]);
                }
            }
        }
    }
}

} // verus!
