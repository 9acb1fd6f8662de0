//! Reading comma-separated text into records.

use vstd::prelude::*;

verus! {

/// What the reader made of a statement: for each record in the order of the
/// text, its fields, or the reader's complaint about it. The reader takes
/// every record for data, a header too, and asks of each record after the
/// first that it has as many fields as the first.
pub uninterp spec fn csv_records(data: Seq<char>) -> Seq<Result<Seq<Seq<char>>, Seq<char>>>;

/// The fields of a record, as contracts see them.
pub open spec fn fields_view(fields: Vec<String>) -> Seq<Seq<char>> {
    fields@.map_values(|field: String| field@)
}

/// What the reader made of one record, as contracts see it.
pub open spec fn read_view(read: Result<Vec<String>, String>) -> Result<Seq<Seq<char>>, Seq<char>> {
    match read {
        Ok(fields) => Ok(fields_view(fields)),
        Err(complaint) => Err(complaint@),
    }
}

/// Reads `data` as comma-separated records with `csv::Reader::records`, on a
/// reader built with `csv::ReaderBuilder` that takes no record for a header.
/// The contract gives the outcome a name: the same text gives the same
/// records. It claims one thing more: a text without characters has no
/// records.
#[verifier::external_body]
pub(crate) fn read_csv(data: &str) -> (records: Vec<Result<Vec<String>, String>>)
    ensures
        records@.map_values(|read: Result<Vec<String>, String>| read_view(read)) == csv_records(
            data@,
        ),
        data@.len() == 0 ==> records@.len() == 0,
{
    csv::ReaderBuilder::new()
        .has_headers(false)
        .from_reader(data.as_bytes())
        .records()
        .map(|read| match read {
            Ok(record) => Ok(record.iter().map(|field| field.to_string()).collect()),
            Err(error) => Err(error.to_string()),
        })
        .collect()
}

/// The field at `position`, or the empty text where the record is shorter.
pub open spec fn field_or_empty(fields: Seq<Seq<char>>, position: usize) -> Seq<char> {
    if position < fields.len() {
        fields[position as int]
    } else {
        Seq::empty()
    }
}

/// The field at `position`, if the record is that long.
pub(crate) fn field<'a>(fields: &'a Vec<String>, position: usize) -> (found: Option<&'a str>)
    ensures
        match found {
            Some(text) => position < fields.len() && text@ == fields[position as int]@,
            None => position >= fields.len(),
        },
{
    if position < fields.len() {
        Some(fields[position].as_str())
    } else {
        None
    }
}

/// The records that stand for transactions: all of them, or all but the
/// first where the first is a header.
pub open spec fn data_records<A>(skip_header: bool, records: Seq<A>) -> Seq<A> {
    if skip_header && records.len() > 0 {
        records.drop_first()
    } else {
        records
    }
}

/// The index of the first `Err` among `results`, or their count where each
/// of them is `Ok`.
pub open spec fn first_err<A, B>(results: Seq<Result<A, B>>) -> int
    decreases results.len(),
{
    if results.len() == 0 {
        0
    } else if results.first() is Err {
        0
    } else {
        1 + first_err(results.drop_first())
    }
}

/// `first_err` is an index of `results`, or their count.
pub proof fn lemma_first_err_in_range<A, B>(results: Seq<Result<A, B>>)
    ensures
        0 <= first_err(results) <= results.len(),
    decreases results.len(),
{
    if results.len() > 0 {
        lemma_first_err_in_range(results.drop_first());
    }
}

/// `first_err` is the one index before which every result is `Ok` and at
/// which the results end or a result is `Err`.
pub proof fn lemma_first_err<A, B>(results: Seq<Result<A, B>>, index: int)
    requires
        0 <= index <= results.len(),
        forall|i: int| 0 <= i < index ==> (#[trigger] results[i]) is Ok,
        index < results.len() ==> results[index] is Err,
    ensures
        first_err(results) == index,
    decreases index,
{
    if index > 0 {
        let rest = results.drop_first();
        assert(results[0] is Ok);
        assert forall|i: int| 0 <= i < index - 1 implies (#[trigger] rest[i]) is Ok by {
            assert(rest[i] == results[i + 1]);
        }
        if index - 1 < rest.len() {
            assert(rest[index - 1] == results[index]);
        }
        lemma_first_err(rest, index - 1);
    }
}

} // verus!
