//! Reading statements into transactions without storing them. As with
//! `service::parse`, the caller reads the amounts as numbers between the two
//! steps, `Service::columns` and `Service::parse`.

use vstd::prelude::*;
use crate::models::transaction::Amount;
use crate::reader::{
    csv_records, data_records, field, first_err, lemma_first_err, read_csv, read_view,
};

verus! {

/// Where a statement keeps the date and the amount of a transaction: the
/// account's label and the zero-based positions of the two columns.
pub struct Config {
    pub name: String,
    pub date: usize,
    pub amount: usize,
}

/// The kind of account that a statement comes from, with its columns.
pub enum AccountType {
    Test(Config),
    Lloyds(Config),
}

impl AccountType {
    /// The columns of the account's statements.
    pub open spec fn columns(&self) -> Config {
        match self {
            AccountType::Test(conf) => *conf,
            AccountType::Lloyds(conf) => *conf,
        }
    }

    /// The columns of the account's statements.
    pub fn config(&self) -> (conf: &Config)
        ensures
            *conf == self.columns(),
    {
        match self {
            AccountType::Test(conf) => conf,
            AccountType::Lloyds(conf) => conf,
        }
    }
}

/// A transaction as a statement gives it: the account's label, the date as
/// it is written, and the amount.
#[derive(Debug)]
pub struct ParsedTransaction {
    pub accounttype: String,
    pub date: String,
    pub amount: Amount,
}

/// What a `ParsedTransaction` holds, as contracts see it.
pub struct ParsedTransactionView {
    pub accounttype: Seq<char>,
    pub date: Seq<char>,
    pub amount: Amount,
}

impl View for ParsedTransaction {
    type V = ParsedTransactionView;

    open spec fn view(&self) -> ParsedTransactionView {
        ParsedTransactionView {
            accounttype: self.accounttype@,
            date: self.date@,
            amount: self.amount,
        }
    }
}

/// The two columns of one record, each where the record is long enough.
#[derive(Debug)]
pub struct RawColumns {
    pub date: Option<String>,
    pub amount: Option<String>,
}

/// What a `RawColumns` holds, as contracts see it.
pub struct RawColumnsView {
    pub date: Option<Seq<char>>,
    pub amount: Option<Seq<char>>,
}

/// A text that may be missing, as contracts see it.
pub open spec fn text_view(text: Option<String>) -> Option<Seq<char>> {
    match text {
        Some(text) => Some(text@),
        None => None,
    }
}

impl View for RawColumns {
    type V = RawColumnsView;

    open spec fn view(&self) -> RawColumnsView {
        RawColumnsView { date: text_view(self.date), amount: text_view(self.amount) }
    }
}

/// The two columns of one record, the amount read as a number: the number,
/// or why the column holds none.
#[derive(Debug)]
pub struct Columns {
    pub date: Option<String>,
    pub amount: Option<Result<Amount, String>>,
}

/// What a `Columns` holds, as contracts see it.
pub struct ColumnsView {
    pub date: Option<Seq<char>>,
    pub amount: Option<Result<Amount, Seq<char>>>,
}

impl View for Columns {
    type V = ColumnsView;

    open spec fn view(&self) -> ColumnsView {
        ColumnsView {
            date: text_view(self.date),
            amount: match self.amount {
                Some(Ok(amount)) => Some(Ok(amount)),
                Some(Err(complaint)) => Some(Err(complaint@)),
                None => None,
            },
        }
    }
}

/// The field at `position`, where the record is that long.
pub open spec fn field_at(fields: Seq<Seq<char>>, position: usize) -> Option<Seq<char>> {
    if position < fields.len() {
        Some(fields[position as int])
    } else {
        None
    }
}

/// What `conf` makes of one record that was read.
pub open spec fn raw_columns(conf: Config, read: Result<Seq<Seq<char>>, Seq<char>>) -> Result<
    RawColumnsView,
    Seq<char>,
> {
    match read {
        Ok(fields) => Ok(
            RawColumnsView {
                date: field_at(fields, conf.date),
                amount: field_at(fields, conf.amount),
            },
        ),
        Err(complaint) => Err(complaint),
    }
}

/// One row of `Service::columns`, as contracts see it.
pub open spec fn raw_view(row: Result<RawColumns, String>) -> Result<RawColumnsView, Seq<char>> {
    match row {
        Ok(columns) => Ok(columns@),
        Err(complaint) => Err(complaint@),
    }
}

/// One row of a statement, as contracts see it.
pub open spec fn row_view(row: Result<Columns, String>) -> Result<ColumnsView, Seq<char>> {
    match row {
        Ok(columns) => Ok(columns@),
        Err(complaint) => Err(complaint@),
    }
}

/// The transaction that one row gives under the label `name`, or why it
/// gives none: the reader's complaint, a missing date, a missing amount, or
/// an amount that is no number, whichever comes first in that order.
pub open spec fn parsed_of(name: Seq<char>, row: Result<ColumnsView, Seq<char>>) -> Result<
    ParsedTransactionView,
    Seq<char>,
> {
    match row {
        Err(complaint) => Err(complaint),
        Ok(columns) => match columns.date {
            None => Err("Could not find date"@),
            Some(date) => match columns.amount {
                None => Err("Could not find amount"@),
                Some(Err(complaint)) => Err(complaint),
                Some(Ok(amount)) => Ok(ParsedTransactionView { accounttype: name, date, amount }),
            },
        },
    }
}

/// What each of the rows gives under the label `name`, in their order.
pub open spec fn parsed_rows(name: Seq<char>, rows: Seq<Result<Columns, String>>) -> Seq<
    Result<ParsedTransactionView, Seq<char>>,
> {
    rows.map_values(|row: Result<Columns, String>| parsed_of(name, row_view(row)))
}

/// Reads statements into transactions, without storing them.
pub struct Service;

impl Service {
    pub fn new() -> Self {
        Self {  }
    }

    /// Splits the text of a statement into its rows: the records after the
    /// header in the order of the text, and of each the two columns of the
    /// account, each where the record is long enough. A record that the
    /// reader complains of is an `Err` with the complaint, in its place.
    pub fn columns(&self, account_type: &AccountType, data: &str) -> (rows: Vec<
        Result<RawColumns, String>,
    >)
        ensures
            rows@.map_values(|row: Result<RawColumns, String>| raw_view(row)) == data_records(
                true,
                csv_records(data@),
            ).map_values(
                |read: Result<Seq<Seq<char>>, Seq<char>>| raw_columns(account_type.columns(), read),
            ),
            data@.len() == 0 ==> rows@.len() == 0,
    {
        let conf = account_type.config();
        let records = read_csv(data);
        let ghost read = records@.map_values(|read: Result<Vec<String>, String>| read_view(read));
        let first: usize = if records.len() > 0 {
            1
        } else {
            0
        };
        let mut rows: Vec<Result<RawColumns, String>> = Vec::new();
        let mut index: usize = first;
        while index < records.len()
            invariant
                first <= index <= records.len(),
                first == if records.len() > 0 { 1usize } else { 0usize },
                *conf == account_type.columns(),
                read == records@.map_values(|read: Result<Vec<String>, String>| read_view(read)),
                rows.len() == index - first,
                forall|k: int|
                    0 <= k < rows.len() ==> raw_view(#[trigger] rows[k]) == raw_columns(
                        *conf,
                        read[k + first],
                    ),
            decreases records.len() - index,
        {
            let row = match &records[index] {
                Ok(fields) => {
                    let date = match field(fields, conf.date) {
                        Some(text) => Some(String::from_str(text)),
                        None => None,
                    };
                    let amount = match field(fields, conf.amount) {
                        Some(text) => Some(String::from_str(text)),
                        None => None,
                    };
                    Ok(RawColumns { date, amount })
                },
                Err(complaint) => Err(complaint.clone()),
            };
            rows.push(row);
            index += 1;
        }
        proof {
            let got = rows@.map_values(|row: Result<RawColumns, String>| raw_view(row));
            let want = data_records(true, read).map_values(
                |read: Result<Seq<Seq<char>>, Seq<char>>| raw_columns(*conf, read),
            );
            assert(got.len() == want.len());
            assert forall|k: int| 0 <= k < got.len() implies got[k] == want[k] by {
                assert(raw_view(rows[k]) == raw_columns(*conf, read[k + first]));
            }
            assert(got =~= want);
        }
        rows
    }

    /// Makes a transaction of each row, in the order of the rows, under the
    /// label of the account. The first row that gives none ends it: the
    /// error is that row's complaint.
    pub fn parse(&self, account_type: AccountType, rows: Vec<Result<Columns, String>>) -> (result:
        Result<Vec<ParsedTransaction>, String>)
        ensures
            ({
                let given = parsed_rows(account_type.columns().name@, rows@);
                let stop = first_err(given);
                match result {
                    Ok(transactions) => {
                        &&& stop == given.len()
                        &&& transactions.len() == given.len()
                        &&& forall|i: int|
                            0 <= i < given.len() ==> (#[trigger] given[i]) == Ok::<
                                ParsedTransactionView,
                                Seq<char>,
                            >(transactions[i]@)
                    },
                    Err(complaint) => {
                        &&& stop < given.len()
                        &&& given[stop] == Err::<ParsedTransactionView, Seq<char>>(complaint@)
                    },
                }
            }),
    {
        let conf = account_type.config();
        let ghost given = parsed_rows(conf.name@, rows@);
        let mut parsed_transactions: Vec<ParsedTransaction> = Vec::new();
        let mut index: usize = 0;
        while index < rows.len()
            invariant
                index <= rows.len(),
                *conf == account_type.columns(),
                given == parsed_rows(conf.name@, rows@),
                parsed_transactions.len() == index,
                forall|i: int|
                    0 <= i < index ==> (#[trigger] given[i]) == Ok::<
                        ParsedTransactionView,
                        Seq<char>,
                    >(parsed_transactions[i]@),
            decreases rows.len() - index,
        {
            let parsed = Self::parsed(conf, &rows[index]);
            match parsed {
                Ok(transaction) => {
                    parsed_transactions.push(transaction);
                },
                Err(complaint) => {
                    proof {
                        lemma_first_err(given, index as int);
                    }
                    return Err(complaint);
                },
            }
            index += 1;
        }
        proof {
            lemma_first_err(given, index as int);
        }
        Ok(parsed_transactions)
    }

    /// Makes of one row the transaction that it gives under the label of
    /// `conf`.
    pub fn parsed(conf: &Config, row: &Result<Columns, String>) -> (result: Result<
        ParsedTransaction,
        String,
    >)
        ensures
            parsed_of(conf.name@, row_view(*row)) == match result {
                Ok(transaction) => Ok::<ParsedTransactionView, Seq<char>>(transaction@),
                Err(complaint) => Err(complaint@),
            },
    {
        match row {
            Err(complaint) => Err(complaint.clone()),
            Ok(columns) => match &columns.date {
                None => Err(String::from_str("Could not find date")),
                Some(date) => match &columns.amount {
                    None => Err(String::from_str("Could not find amount")),
                    Some(Err(complaint)) => Err(complaint.clone()),
                    Some(Ok(amount)) => Ok(
                        ParsedTransaction {
                            accounttype: conf.name.clone(),
                            date: date.clone(),
                            amount: *amount,
                        },
                    ),
                },
            },
        }
    }
}

} // verus!
