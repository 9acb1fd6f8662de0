//! The domain model: a transaction that asks to be stored, and a stored one.

use vstd::prelude::*;
use crate::database::base::GetId;
use crate::database::id::{create_new_uuid, uuid_canonical};

verus! {

/// A signed amount of money, held as the bit pattern of an IEEE 754 binary64
/// number. The library carries the pattern through and never computes with it.
#[derive(Clone, Copy, Debug, PartialEq, Eq, Structural)]
pub struct Amount {
    pub bits: u64,
}

impl Amount {
    pub fn from_bits(bits: u64) -> (amount: Amount)
        ensures
            amount.bits == bits,
    {
        Amount { bits }
    }

    pub fn to_bits(&self) -> (bits: u64)
        ensures
            bits == self.bits,
    {
        self.bits
    }
}

/// A day of the proleptic Gregorian calendar.
#[derive(Clone, Copy, Debug, PartialEq, Eq, Structural)]
pub struct Date {
    pub year: i32,
    pub month: u32,
    pub day: u32,
}

/// `year` has a 29th of February.
pub open spec fn leap(year: int) -> bool {
    year % 4 == 0 && (year % 100 != 0 || year % 400 == 0)
}

/// The count of days of the month `month` of `year`, for a month from 1 to
/// 12.
pub open spec fn days_in(year: int, month: int) -> int {
    if month == 2 {
        if leap(year) {
            29
        } else {
            28
        }
    } else if month == 4 || month == 6 || month == 9 || month == 11 {
        30
    } else {
        31
    }
}

impl Date {
    /// The calendar has this day: the month is one of twelve, and the day
    /// one of the days of that month in that year.
    pub open spec fn well_formed(&self) -> bool {
        &&& 1 <= self.month <= 12
        &&& 1 <= self.day <= days_in(self.year as int, self.month as int)
    }

    /// Whether the calendar has this day.
    pub fn is_well_formed(&self) -> (valid: bool)
        ensures
            valid == self.well_formed(),
    {
        if self.month < 1 || self.month > 12 || self.day < 1 {
            return false;
        }
        let leap_year = self.year % 4 == 0 && (self.year % 100 != 0 || self.year % 400 == 0);
        let days: u32 = if self.month == 2 {
            if leap_year {
                29
            } else {
                28
            }
        } else if self.month == 4 || self.month == 6 || self.month == 9 || self.month == 11 {
            30
        } else {
            31
        };
        self.day <= days
    }

    /// The day `day` of the month `month` of `year`, if the calendar has it.
    pub fn new(year: i32, month: u32, day: u32) -> (date: Option<Date>)
        ensures
            date == if (Date { year, month, day }).well_formed() {
                Some(Date { year, month, day })
            } else {
                None
            },
    {
        let date = Date { year, month, day };
        if date.is_well_formed() {
            Some(date)
        } else {
            None
        }
    }
}

/// A calendar date and a time of day, without a time zone.
#[derive(Clone, Copy, Debug, PartialEq, Eq, Structural)]
pub struct Timestamp {
    pub date: Date,
    pub hour: u32,
    pub minute: u32,
    pub second: u32,
    pub nanosecond: u32,
}

impl Timestamp {
    /// The date is well formed and the time lies within one day. A nanosecond
    /// count of a second or more stands for a leap second.
    pub open spec fn well_formed(&self) -> bool {
        &&& self.date.well_formed()
        &&& self.hour < 24
        &&& self.minute < 60
        &&& self.second < 60
        &&& self.nanosecond < 2_000_000_000
    }

    /// Whether the date is well formed and the time lies within one day.
    pub fn is_well_formed(&self) -> (valid: bool)
        ensures
            valid == self.well_formed(),
    {
        self.date.is_well_formed() && self.hour < 24 && self.minute < 60 && self.second < 60
            && self.nanosecond < 2_000_000_000
    }

    /// The first instant of `date`.
    pub open spec fn midnight(date: Date) -> Timestamp {
        Timestamp { date, hour: 0, minute: 0, second: 0, nanosecond: 0 }
    }

    pub fn at_midnight(date: Date) -> (timestamp: Timestamp)
        ensures
            timestamp == Timestamp::midnight(date),
            date.well_formed() ==> timestamp.well_formed(),
    {
        Timestamp { date, hour: 0, minute: 0, second: 0, nanosecond: 0 }
    }
}

/// What a `CreateTransaction` holds, as contracts see it.
pub struct CreateTransactionView {
    pub account_type: Seq<char>,
    pub payment_date: Timestamp,
    pub amount: Amount,
    pub description: Seq<char>,
}

impl CreateTransactionView {
    /// The request names an account and is dated on a day of the calendar.
    pub open spec fn well_formed(&self) -> bool {
        &&& self.account_type.len() > 0
        &&& self.payment_date.well_formed()
    }
}

/// What a `Transaction` holds, as contracts see it.
pub struct TransactionView {
    pub id: Seq<char>,
    pub account_type: Seq<char>,
    pub payment_date: Timestamp,
    pub amount: Amount,
    pub description: Seq<char>,
    pub created_at: Timestamp,
    pub updated_at: Timestamp,
}

impl TransactionView {
    /// The record came from `request`: the four fields that a request holds
    /// are the request's own.
    pub open spec fn carries(&self, request: CreateTransactionView) -> bool {
        &&& self.account_type == request.account_type
        &&& self.payment_date == request.payment_date
        &&& self.amount == request.amount
        &&& self.description == request.description
    }
}

/// A transaction that has not been stored yet.
#[derive(Debug)]
pub struct CreateTransaction {
    pub account_type: String,
    pub payment_date: Timestamp,
    pub amount: Amount,
    pub description: String,
}

impl View for CreateTransaction {
    type V = CreateTransactionView;

    open spec fn view(&self) -> CreateTransactionView {
        CreateTransactionView {
            account_type: self.account_type@,
            payment_date: self.payment_date,
            amount: self.amount,
            description: self.description@,
        }
    }
}

impl CreateTransaction {
    /// Whether the request names an account and is dated on a day of the
    /// calendar.
    pub fn is_well_formed(&self) -> (valid: bool)
        ensures
            valid == self@.well_formed(),
    {
        !self.account_type.as_str().is_empty() && self.payment_date.is_well_formed()
    }
}

impl Clone for CreateTransaction {
    fn clone(&self) -> (copy: CreateTransaction)
        ensures
            copy@ == self@,
    {
        CreateTransaction {
            account_type: self.account_type.clone(),
            payment_date: self.payment_date,
            amount: self.amount,
            description: self.description.clone(),
        }
    }
}

/// A stored transaction: a request with the id and the two times that the
/// backend gave it.
#[derive(Debug)]
pub struct Transaction {
    pub id: String,
    pub account_type: String,
    pub payment_date: Timestamp,
    pub amount: Amount,
    pub description: String,
    pub created_at: Timestamp,
    pub updated_at: Timestamp,
}

impl View for Transaction {
    type V = TransactionView;

    open spec fn view(&self) -> TransactionView {
        TransactionView {
            id: self.id@,
            account_type: self.account_type@,
            payment_date: self.payment_date,
            amount: self.amount,
            description: self.description@,
            created_at: self.created_at,
            updated_at: self.updated_at,
        }
    }
}

/// The time by `chrono::Utc::now`, without its zone. The contract claims what
/// chrono says of every date and time of day: the ranges of their parts.
#[verifier::external_body]
fn now() -> (time: Timestamp)
    ensures
        time.well_formed(),
{
    let now = chrono::Utc::now().naive_utc();
    Timestamp {
        date: Date {
            year: chrono::Datelike::year(&now),
            month: chrono::Datelike::month(&now),
            day: chrono::Datelike::day(&now),
        },
        hour: chrono::Timelike::hour(&now),
        minute: chrono::Timelike::minute(&now),
        second: chrono::Timelike::second(&now),
        nanosecond: chrono::Timelike::nanosecond(&now),
    }
}

impl Transaction {
    /// The record that stores `create_transaction` from now on: the request
    /// under a new random UUID, created and last changed at the time of the
    /// call.
    pub fn stamped(create_transaction: CreateTransaction) -> (record: Transaction)
        ensures
            record@.carries(create_transaction@),
            uuid_canonical(record.id@) == Ok::<Seq<char>, Seq<char>>(record.id@),
            record.created_at == record.updated_at,
            record.created_at.well_formed(),
    {
        Transaction::new(create_transaction, create_new_uuid(), now())
    }

    /// The record that stores `create_transaction` under `id` at the time
    /// `now`: the request with its id, created and last changed at `now`.
    pub fn new(create_transaction: CreateTransaction, id: String, now: Timestamp) -> (record:
        Transaction)
        ensures
            record@.carries(create_transaction@),
            record.id == id,
            record.created_at == now,
            record.updated_at == now,
    {
        Transaction {
            id,
            account_type: create_transaction.account_type,
            payment_date: create_transaction.payment_date,
            amount: create_transaction.amount,
            description: create_transaction.description,
            created_at: now,
            updated_at: now,
        }
    }
}

impl GetId for Transaction {
    fn get_id(&self) -> (id: String)
        ensures
            id@ == self.id@,
    {
        self.id.clone()
    }
}

impl Clone for Transaction {
    fn clone(&self) -> (copy: Transaction)
        ensures
            copy@ == self@,
    {
        Transaction {
            id: self.id.clone(),
            account_type: self.account_type.clone(),
            payment_date: self.payment_date,
            amount: self.amount,
            description: self.description.clone(),
            created_at: self.created_at,
            updated_at: self.updated_at,
        }
    }
}

} // verus!
