//! Taking statements in. A statement is comma-separated text; each of its
//! records becomes a transaction of the service.
//!
//! This goes in two steps, with one step of the caller's between them.
//! `read_records` splits the text into rows of three columns. The caller
//! reads the amount of each row as a number: numbers with a fraction are
//! floating point, which this library carries as bit patterns and never reads,
//! writes or computes with. `Service::parse_data` then takes the rows, makes a
//! transaction of each and stores it, row by row.

use vstd::prelude::*;
use crate::database::base::{DatabaseInit, TransactionRead, TransactionWrite};
use crate::database::model::{
    accounted, issued_with, lemma_issued_with_keeps, lookup, unique_ids,
};
use crate::models::transaction::{
    Amount, CreateTransaction, CreateTransactionView, Date, Timestamp, TransactionView,
};
use crate::reader::{
    csv_records, data_records, field, field_or_empty, first_err, lemma_first_err,
    lemma_first_err_in_range, read_csv, read_view,
};
use crate::service::transaction::{from_backend, TransactionError, TransactionService};

verus! {

/// Where a statement of one institution keeps what a transaction is made of:
/// the institution's label, the zero-based positions of three columns,
/// whether the first record is a header, and the format of the dates.
pub struct Config {
    pub name: String,
    pub description_position: usize,
    pub date_position: usize,
    pub amount_position: usize,
    /// The first record names the columns and is no transaction.
    pub skip_header: bool,
    /// The format of the date column, in the notation of `strftime`.
    pub date_format: String,
}

/// Why a statement could not be taken in.
#[derive(Debug)]
pub enum ParseError {
    /// The reader could not make a record of a line.
    RecordError(String),
    /// The amount column holds no number.
    AmountConversionError(String),
    /// The date column holds no date of the configured format.
    DateConversionError(String),
    /// The service could not store a transaction.
    SaveError(String),
}

/// What a `ParseError` holds, as contracts see it.
pub enum ParseErrorView {
    RecordError(Seq<char>),
    AmountConversionError(Seq<char>),
    DateConversionError(Seq<char>),
    SaveError(Seq<char>),
}

impl View for ParseError {
    type V = ParseErrorView;

    open spec fn view(&self) -> ParseErrorView {
        match self {
            ParseError::RecordError(e) => ParseErrorView::RecordError(e@),
            ParseError::AmountConversionError(e) => ParseErrorView::AmountConversionError(e@),
            ParseError::DateConversionError(e) => ParseErrorView::DateConversionError(e@),
            ParseError::SaveError(e) => ParseErrorView::SaveError(e@),
        }
    }
}

impl ParseError {
    /// The error as one line of text: its kind, then its message.
    pub open spec fn rendering(&self) -> Seq<char> {
        match self {
            ParseError::RecordError(e) => "RecordError: "@ + e@,
            ParseError::AmountConversionError(e) => "AmountConversionError: "@ + e@,
            ParseError::DateConversionError(e) => "DateConversionError: "@ + e@,
            ParseError::SaveError(e) => "SaveError: "@ + e@,
        }
    }

    /// Renders the error as one line of text.
    pub fn to_string(&self) -> (text: String)
        ensures
            text@ == self.rendering(),
    {
        match self {
            ParseError::RecordError(e) => String::from_str("RecordError: ").concat(e.as_str()),
            ParseError::AmountConversionError(e) => String::from_str(
                "AmountConversionError: ",
            ).concat(e.as_str()),
            ParseError::DateConversionError(e) => String::from_str(
                "DateConversionError: ",
            ).concat(e.as_str()),
            ParseError::SaveError(e) => String::from_str("SaveError: ").concat(e.as_str()),
        }
    }
}

/// Whose fault a failure is, for a front end that answers with a class of
/// status.
#[derive(Clone, Copy, Debug, PartialEq, Eq, Structural)]
pub enum FailureClass {
    /// What was sent in is malformed.
    Client,
    /// The service or its backend failed.
    Server,
}

/// The class of a failure to take a statement in: a row that asks for no
/// transaction is the client's, a transaction that could not be stored is
/// the server's.
pub fn failure_class(error: &ParseError) -> (class: FailureClass)
    ensures
        class == (if error is SaveError {
            FailureClass::Server
        } else {
            FailureClass::Client
        }),
{
    match error {
        ParseError::SaveError(_) => FailureClass::Server,
        _ => FailureClass::Client,
    }
}

/// One record of a statement: the text of the three configured columns.
#[derive(Debug)]
pub struct RawRecord {
    pub date: String,
    pub amount: String,
    pub description: String,
}

/// What a `RawRecord` holds, as contracts see it.
pub struct RawRecordView {
    pub date: Seq<char>,
    pub amount: Seq<char>,
    pub description: Seq<char>,
}

impl View for RawRecord {
    type V = RawRecordView;

    open spec fn view(&self) -> RawRecordView {
        RawRecordView { date: self.date@, amount: self.amount@, description: self.description@ }
    }
}

/// The three columns that `config` names, out of the fields of one record.
pub open spec fn raw_record(config: Config, fields: Seq<Seq<char>>) -> RawRecordView {
    RawRecordView {
        date: field_or_empty(fields, config.date_position),
        amount: field_or_empty(fields, config.amount_position),
        description: field_or_empty(fields, config.description_position),
    }
}

/// What `config` makes of one record that was read.
pub open spec fn raw_row(config: Config, read: Result<Seq<Seq<char>>, Seq<char>>) -> Result<
    RawRecordView,
    Seq<char>,
> {
    match read {
        Ok(fields) => Ok(raw_record(config, fields)),
        Err(complaint) => Err(complaint),
    }
}

/// What `config` makes of the records that were read: the header dropped,
/// then of each record its three columns or the reader's complaint.
pub open spec fn raw_rows(config: Config, records: Seq<Result<Seq<Seq<char>>, Seq<char>>>) -> Seq<
    Result<RawRecordView, Seq<char>>,
> {
    data_records(config.skip_header, records).map_values(
        |read: Result<Seq<Seq<char>>, Seq<char>>| raw_row(config, read),
    )
}

/// One row of `read_records`, as contracts see it.
pub open spec fn raw_row_view(row: Result<RawRecord, String>) -> Result<RawRecordView, Seq<char>> {
    match row {
        Ok(record) => Ok(record@),
        Err(complaint) => Err(complaint@),
    }
}

/// Splits the text of a statement into its rows: the records in the order of
/// the text, without the first where `config` says it is a header, and of
/// each the three columns that `config` names. A column that a record is too
/// short for is empty. A record that the reader complains of is an `Err` with
/// the complaint, in its place among the rows.
pub fn read_records(config: &Config, data: &str) -> (rows: Vec<Result<RawRecord, String>>)
    ensures
        rows@.map_values(|row: Result<RawRecord, String>| raw_row_view(row)) == raw_rows(
            *config,
            csv_records(data@),
        ),
        data@.len() == 0 ==> rows@.len() == 0,
{
    let records = read_csv(data);
    let ghost read = records@.map_values(|read: Result<Vec<String>, String>| read_view(read));
    let first: usize = if config.skip_header && records.len() > 0 {
        1
    } else {
        0
    };
    let mut rows: Vec<Result<RawRecord, String>> = Vec::new();
    let mut index: usize = first;
    while index < records.len()
        invariant
            first <= index <= records.len(),
            first == if config.skip_header && records.len() > 0 { 1usize } else { 0usize },
            read == records@.map_values(|read: Result<Vec<String>, String>| read_view(read)),
            rows.len() == index - first,
            forall|k: int|
                0 <= k < rows.len() ==> raw_row_view(#[trigger] rows[k]) == raw_row(
                    *config,
                    read[k + first],
                ),
        decreases records.len() - index,
    {
        let row = match &records[index] {
            Ok(fields) => {
                let date = string_or_empty(field(fields, config.date_position));
                let amount = string_or_empty(field(fields, config.amount_position));
                let description = string_or_empty(field(fields, config.description_position));
                Ok(
                    RawRecord {
                        date: String::from_str(date),
                        amount: String::from_str(amount),
                        description: String::from_str(description),
                    },
                )
            },
            Err(complaint) => Err(complaint.clone()),
        };
        rows.push(row);
        index += 1;
    }
    proof {
        let got = rows@.map_values(|row: Result<RawRecord, String>| raw_row_view(row));
        let want = raw_rows(*config, read);
        assert(got.len() == want.len());
        assert forall|k: int| 0 <= k < got.len() implies got[k] == want[k] by {
            assert(raw_row_view(rows[k]) == raw_row(*config, read[k + first]));
        }
        assert(got =~= want);
    }
    rows
}

/// A record whose amount column has been read as a number: the number, or
/// why the column holds none.
#[derive(Debug)]
pub struct Record {
    pub date: String,
    pub amount: Result<Amount, String>,
    pub description: String,
}

/// What a `Record` holds, as contracts see it.
pub struct RecordView {
    pub date: Seq<char>,
    pub amount: Result<Amount, Seq<char>>,
    pub description: Seq<char>,
}

impl View for Record {
    type V = RecordView;

    open spec fn view(&self) -> RecordView {
        RecordView {
            date: self.date@,
            amount: match self.amount {
                Ok(amount) => Ok(amount),
                Err(complaint) => Err(complaint@),
            },
            description: self.description@,
        }
    }
}

/// One row of a statement, as contracts see it.
pub open spec fn row_view(row: Result<Record, String>) -> Result<RecordView, Seq<char>> {
    match row {
        Ok(record) => Ok(record@),
        Err(complaint) => Err(complaint@),
    }
}

/// The rows of a statement, as contracts see them.
pub open spec fn rows_view(rows: Seq<Result<Record, String>>) -> Seq<Result<RecordView, Seq<char>>> {
    rows.map_values(|row: Result<Record, String>| row_view(row))
}

/// The day that `text` names when read by `format`, or why it names none.
pub uninterp spec fn chrono_parse_date(text: Seq<char>, format: Seq<char>) -> Result<
    Date,
    Seq<char>,
>;

/// What a date that was read holds, as contracts see it.
pub open spec fn date_view(parsed: Result<Date, String>) -> Result<Date, Seq<char>> {
    match parsed {
        Ok(date) => Ok(date),
        Err(complaint) => Err(complaint@),
    }
}

/// Reads a day out of `text` with `chrono::NaiveDate::parse_from_str`, where
/// `format` is in the notation of `strftime`. The contract gives the outcome a
/// name, and claims of a day that was read what chrono says of every
/// `NaiveDate`: its month is one of twelve and its day one of at most 31.
#[verifier::external_body]
fn parse_date(text: &str, format: &str) -> (parsed: Result<Date, String>)
    ensures
        date_view(parsed) == chrono_parse_date(text@, format@),
        parsed matches Ok(date) ==> date.well_formed(),
{
    match chrono::NaiveDate::parse_from_str(text, format) {
        Ok(day) => Ok(
            Date {
                year: chrono::Datelike::year(&day),
                month: chrono::Datelike::month(&day),
                day: chrono::Datelike::day(&day),
            },
        ),
        Err(error) => Err(error.to_string()),
    }
}

/// The transaction that one row asks for under `config`, or why the row asks
/// for none. The reader's complaint comes first, then the amount, then the
/// date. The transaction is dated at the first instant of its day.
pub open spec fn request_of(config: Config, row: Result<RecordView, Seq<char>>) -> Result<
    CreateTransactionView,
    ParseErrorView,
> {
    match row {
        Err(complaint) => Err(ParseErrorView::RecordError(complaint)),
        Ok(record) => match record.amount {
            Err(complaint) => Err(ParseErrorView::AmountConversionError(complaint)),
            Ok(amount) => match chrono_parse_date(record.date, config.date_format@) {
                Err(complaint) => Err(ParseErrorView::DateConversionError(complaint)),
                Ok(date) => Ok(
                    CreateTransactionView {
                        account_type: config.name@,
                        payment_date: Timestamp::midnight(date),
                        amount,
                        description: record.description,
                    },
                ),
            },
        },
    }
}

/// What `transaction_of` returns, as contracts see it.
pub open spec fn request_view(request: Result<CreateTransaction, ParseError>) -> Result<
    CreateTransactionView,
    ParseErrorView,
> {
    match request {
        Ok(transaction) => Ok(transaction@),
        Err(error) => Err(error@),
    }
}

/// Makes of one row the transaction that it asks for under `config`.
pub fn transaction_of(config: &Config, row: &Result<Record, String>) -> (request: Result<
    CreateTransaction,
    ParseError,
>)
    ensures
        request_view(request) == request_of(*config, row_view(*row)),
        request matches Ok(transaction) ==> transaction.payment_date.well_formed(),
        request matches Ok(transaction) ==> config.name@.len() == 0 || transaction@.well_formed(),
{
    match row {
        Err(complaint) => Err(ParseError::RecordError(complaint.clone())),
        Ok(record) => match &record.amount {
            Err(complaint) => Err(ParseError::AmountConversionError(complaint.clone())),
            Ok(amount) => match parse_date(record.date.as_str(), config.date_format.as_str()) {
                Err(complaint) => Err(ParseError::DateConversionError(complaint)),
                Ok(date) => Ok(
                    CreateTransaction {
                        account_type: config.name.clone(),
                        payment_date: Timestamp::at_midnight(date),
                        amount: *amount,
                        description: record.description.clone(),
                    },
                ),
            },
        },
    }
}

/// `after` is `before` with one new record for each of `rows`, in the order
/// of the rows: each row asks for a transaction under `config`, its record
/// carries that transaction, and the record's id was new when it was stored.
pub open spec fn ingested(
    config: Config,
    rows: Seq<Result<RecordView, Seq<char>>>,
    before: Seq<TransactionView>,
    after: Seq<TransactionView>,
) -> bool {
    &&& after.len() == before.len() + rows.len()
    &&& after.take(before.len() as int) == before
    &&& forall|i: int|
        0 <= i < rows.len() ==> {
            &&& request_of(config, #[trigger] rows[i]) matches Ok(request)
            &&& after[before.len() + i].carries(request)
            &&& lookup(after.take(before.len() + i), after[before.len() + i].id) is None
        }
}

/// What each of `rows` asks for under `config`, in the order of the rows.
pub open spec fn requests(config: Config, rows: Seq<Result<RecordView, Seq<char>>>) -> Seq<
    Result<CreateTransactionView, ParseErrorView>,
> {
    rows.map_values(|row: Result<RecordView, Seq<char>>| request_of(config, row))
}

/// `message` is the line of text of a `SaveError` of the service, which in
/// turn carries the line of text of some error of a backend.
pub open spec fn from_service(message: Seq<char>) -> bool {
    exists|inner: TransactionError|
        inner is SaveError && from_backend(inner.message()) && message
            == #[trigger] inner.rendering()
}

/// Takes statements in: each row becomes a transaction of the service that
/// it holds.
pub struct Service<T> where T: DatabaseInit + TransactionWrite + TransactionRead {
    pub transaction_service: TransactionService<T>,
}

impl<T> View for Service<T> where T: DatabaseInit + TransactionWrite + TransactionRead {
    type V = Seq<TransactionView>;

    /// The records that the service holds, in the order of their creation.
    open spec fn view(&self) -> Seq<TransactionView> {
        self.transaction_service@
    }
}

impl<T> Service<T> where T: DatabaseInit + TransactionWrite + TransactionRead {
    /// The ids that the backend has handed out so far, those of removed
    /// transactions among them.
    pub open spec fn issued(&self) -> Set<Seq<char>> {
        self.transaction_service.issued()
    }

    pub fn new(transaction_service: TransactionService<T>) -> (service: Service<T>)
        ensures
            service.transaction_service == transaction_service,
    {
        Self { transaction_service }
    }

    /// Stores the transactions that `records` ask for, row by row in their
    /// order, and stops at the first row that asks for none or that the
    /// service cannot store. The rows before that one stay stored; the rows
    /// after it are not looked at.
    ///
    /// Whatever the backend: `Ok` comes only where every row asks for a
    /// transaction, and an error that is no `SaveError` is the error of the
    /// first row that asks for none (`first_err`). Where the first row
    /// already asks for none, its error is the result. Without rows there is
    /// nothing to do, and the result is `Ok`.
    ///
    /// With a backend that conforms, the count of new records tells how far
    /// it came: that many rows were stored, in order. With `Ok` it is the
    /// count of all rows. With an error the row at that count is the one that
    /// stopped it: where the row asks for no transaction the error is the
    /// row's own, and else it is a `SaveError`. The ids of the new records
    /// are ids that the backend had never handed out, and they are all that
    /// was handed out since.
    pub fn parse_data(
        &mut self,
        extraction_config: Config,
        records: Vec<Result<Record, String>>,
    ) -> (result: Result<(), ParseError>)
        ensures
            ({
                let asked = requests(extraction_config, rows_view(records@));
                let stop = first_err(asked);
                &&& result is Ok ==> stop == asked.len()
                &&& result matches Err(error) ==> error@ is SaveError || (stop < asked.len()
                    && asked[stop] == Err::<CreateTransactionView, ParseErrorView>(error@))
                &&& asked.len() == 0 ==> result is Ok
                &&& stop == 0 && asked.len() > 0 ==> result is Err && asked[0] == Err::<
                    CreateTransactionView,
                    ParseErrorView,
                >(result->Err_0@)
                &&& result matches Err(ParseError::SaveError(message)) ==> from_service(message@)
            }),
            T::conforms() ==> ({
                let rows = rows_view(records@);
                let stored = final(self)@.len() - old(self)@.len();
                &&& 0 <= stored <= rows.len()
                &&& ingested(extraction_config, rows.take(stored), old(self)@, final(self)@)
                &&& result is Ok ==> stored == rows.len()
                &&& result matches Err(error) ==> stored < rows.len() && match request_of(
                    extraction_config,
                    rows[stored],
                ) {
                    Err(failure) => error@ == failure,
                    Ok(_) => error@ is SaveError,
                }
                &&& unique_ids(old(self)@) ==> unique_ids(final(self)@)
                &&& final(self).issued() == issued_with(
                    old(self).issued(),
                    final(self)@.skip(old(self)@.len() as int),
                )
                &&& forall|i: int|
                    0 <= i < stored ==> !old(self).issued().contains(
                        (#[trigger] final(self)@[old(self)@.len() + i]).id,
                    )
                &&& accounted(old(self)@, old(self).issued()) ==> accounted(
                    final(self)@,
                    final(self).issued(),
                )
            }),
    {
        let ghost rows = rows_view(records@);
        let ghost before = self@;
        let ghost handed = self.issued();
        assert(self@.skip(before.len() as int) =~= Seq::empty());
        let mut index: usize = 0;
        assert(rows.take(0).len() == 0);
        assert(self@.take(before.len() as int) == before);
        while index < records.len()
            invariant
                index <= records.len(),
                rows == rows_view(records@),
                before == old(self)@,
                forall|i: int| 0 <= i < index ==> request_of(extraction_config, #[trigger] rows[i]) is Ok,
                T::conforms() ==> self@.len() == before.len() + index,
                T::conforms() ==> ingested(extraction_config, rows.take(index as int), before, self@),
                T::conforms() && unique_ids(before) ==> unique_ids(self@),
                handed == old(self).issued(),
                T::conforms() ==> self.issued() == issued_with(
                    handed,
                    self@.skip(before.len() as int),
                ),
                T::conforms() ==> forall|i: int|
                    0 <= i < index ==> !handed.contains((#[trigger] self@[before.len() + i]).id),
                T::conforms() && accounted(before, handed) ==> accounted(self@, self.issued()),
            decreases records.len() - index,
        {
            let ghost current = self@;
            let request = transaction_of(&extraction_config, &records[index]);
            assert(row_view(records[index as int]) == rows[index as int]);
            match request {
                Err(error) => {
                    proof {
                        lemma_first_err(requests(extraction_config, rows), index as int);
                    }
                    return Err(error);
                },
                Ok(new_transaction) => {
                    let ghost asked = new_transaction@;
                    match self.transaction_service.create_transaction(new_transaction) {
                        Err(error) => {
                            proof {
                                let all = requests(extraction_config, rows);
                                assert(all[0] is Ok) by {
                                    assert(request_of(extraction_config, rows[0]) is Ok);
                                }
                                lemma_first_err_in_range(all.drop_first());
                            }
                            return Err(ParseError::SaveError(error.to_string()));
                        },
                        Ok(_) => {
                            proof {
                                if T::conforms() {
                                    lemma_ingested_one_more(
                                        extraction_config,
                                        rows,
                                        index as int,
                                        before,
                                        current,
                                        self@,
                                    );
                                    let new = self@.skip(before.len() as int);
                                    assert(new.drop_last() == current.skip(before.len() as int));
                                    assert(new.last() == self@.last());
                                    if handed.contains(self@.last().id) {
                                        lemma_issued_with_keeps(
                                            handed,
                                            current.skip(before.len() as int),
                                            self@.last().id,
                                        );
                                    }
                                    assert forall|i: int| 0 <= i < index + 1 implies !handed.contains(
                                        (#[trigger] self@[before.len() + i]).id,
                                    ) by {
                                        if i < index {
                                            assert(self@[before.len() + i] == current[before.len()
                                                + i]);
                                        } else {
                                            assert(self@[before.len() + i] == self@.last());
                                        }
                                    }
                                }
                            }
                        },
                    }
                },
            }
            index += 1;
        }
        proof {
            assert(rows.take(index as int) == rows);
            lemma_first_err(requests(extraction_config, rows), index as int);
        }
        Ok(())
    }
}

/// Where the first `index` rows are taken in and the next row's transaction
/// is stored as one more record, the first `index + 1` rows are taken in.
proof fn lemma_ingested_one_more(
    config: Config,
    rows: Seq<Result<RecordView, Seq<char>>>,
    index: int,
    before: Seq<TransactionView>,
    current: Seq<TransactionView>,
    after: Seq<TransactionView>,
)
    requires
        0 <= index < rows.len(),
        ingested(config, rows.take(index), before, current),
        request_of(config, rows[index]) is Ok,
        lookup(current, after.last().id) is None,
        after.len() == current.len() + 1,
        after.drop_last() == current,
        after.last().carries(request_of(config, rows[index])->Ok_0),
    ensures
        ingested(config, rows.take(index + 1), before, after),
{
    let done = rows.take(index);
    let more = rows.take(index + 1);
    assert(after.take(before.len() as int) == current.take(before.len() as int));
    assert forall|i: int| 0 <= i < more.len() implies {
        &&& request_of(config, #[trigger] more[i]) matches Ok(request)
        &&& after[before.len() + i].carries(request)
        &&& lookup(after.take(before.len() + i), after[before.len() + i].id) is None
    } by {
        if i < index {
            assert(more[i] == done[i]);
            assert(after[before.len() + i] == current[before.len() + i]);
            assert(after.take(before.len() + i) == current.take(before.len() + i));
        } else {
            assert(more[i] == rows[index]);
            assert(after[before.len() + i] == after.last());
            assert(after.take(before.len() + i) == current);
        }
    }
}

/// The text of a column, or the empty text where the row has no such column.
pub fn string_or_empty<'a>(s: Option<&'a str>) -> (text: &'a str)
    ensures
        text@ == match s {
            Some(value) => value@,
            None => Seq::<char>::empty(),
        },
{
    match s {
        Some(value) => value,
        None => {
            proof {
                reveal_strlit("");
            }
            ""
        },
    }
}

} // verus!
