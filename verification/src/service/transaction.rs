//! The service facade: the one entry point to the stored transactions.

use vstd::prelude::*;
use crate::database::base::{
    DatabaseError, DatabaseInit, TransactionRead, TransactionStore, TransactionWrite,
};
use crate::database::model::{
    accounted, created, found_view, lemma_created_keeps_ids_unique,
    lemma_deleted_keeps_ids_unique, lookup, unique_ids, views, without_id,
};
use crate::models::transaction::{CreateTransaction, Transaction, TransactionView};

verus! {

/// Why the service could not do what it was asked: the operation that failed,
/// with the backend's error as a line of text.
#[derive(Debug)]
pub enum TransactionError {
    SaveError(String),
    FindError(String),
    DeleteError(String),
}

impl TransactionError {
    /// The message that the error carries.
    pub open spec fn message(&self) -> Seq<char> {
        match self {
            TransactionError::SaveError(e) => e@,
            TransactionError::FindError(e) => e@,
            TransactionError::DeleteError(e) => e@,
        }
    }

    /// The text that names the error's kind and introduces its message.
    pub open spec fn prefix(&self) -> Seq<char> {
        match self {
            TransactionError::SaveError(_) => "TransactionError -> SaveError, "@,
            TransactionError::FindError(_) => "TransactionError -> FindError, "@,
            TransactionError::DeleteError(_) => "TransactionError -> DeleteError, "@,
        }
    }

    /// The error as one line of text: its kind, then its message.
    pub open spec fn rendering(&self) -> Seq<char> {
        self.prefix() + self.message()
    }

    /// Renders the error as one line of text.
    pub fn to_string(&self) -> (text: String)
        ensures
            text@ == self.rendering(),
    {
        match self {
            TransactionError::SaveError(e) => String::from_str(
                "TransactionError -> SaveError, ",
            ).concat(e.as_str()),
            TransactionError::FindError(e) => String::from_str(
                "TransactionError -> FindError, ",
            ).concat(e.as_str()),
            TransactionError::DeleteError(e) => String::from_str(
                "TransactionError -> DeleteError, ",
            ).concat(e.as_str()),
        }
    }

    /// A backend's failure to store, as the service reports it.
    pub fn save_failed(error: &DatabaseError) -> (wrapped: TransactionError)
        ensures
            wrapped is SaveError,
            wrapped.message() == error.rendering(),
    {
        TransactionError::SaveError(error.to_string())
    }

    /// A backend's failure to read, as the service reports it.
    pub fn find_failed(error: &DatabaseError) -> (wrapped: TransactionError)
        ensures
            wrapped is FindError,
            wrapped.message() == error.rendering(),
    {
        TransactionError::FindError(error.to_string())
    }

    /// A backend's failure to remove, as the service reports it.
    pub fn delete_failed(error: &DatabaseError) -> (wrapped: TransactionError)
        ensures
            wrapped is DeleteError,
            wrapped.message() == error.rendering(),
    {
        TransactionError::DeleteError(error.to_string())
    }
}

/// `message` is the line of text of some error of a backend: it names the
/// kind of that error and carries its message.
pub open spec fn from_backend(message: Seq<char>) -> bool {
    exists|inner: DatabaseError| message == #[trigger] inner.rendering()
}

/// The one entry point to the stored transactions. It owns one backend for its
/// lifetime and reports every failure of the backend as a `TransactionError`.
///
/// What its operations do to the stored records is stated for a backend that
/// conforms (`TransactionStore::conforms`), and when reading and removing
/// succeed for one that is unfailing too (`TransactionStore::unfailing`). Of
/// any backend it is stated which kind of error each operation can return.
pub struct TransactionService<T> where T: DatabaseInit + TransactionWrite + TransactionRead {
    db: T,
}

impl<T> View for TransactionService<T> where T: DatabaseInit + TransactionWrite + TransactionRead {
    type V = Seq<TransactionView>;

    /// The records that the backend holds, in the order of their creation.
    closed spec fn view(&self) -> Seq<TransactionView> {
        self.db.records()
    }
}

impl<T> TransactionService<T> where T: DatabaseInit + TransactionWrite + TransactionRead {
    /// The ids that the backend has handed out so far, those of removed
    /// transactions among them.
    pub closed spec fn issued(&self) -> Set<Seq<char>> {
        self.db.issued()
    }

    /// A service over `db`.
    pub fn new(db: T) -> (service: TransactionService<T>)
        ensures
            service@ == db.records(),
            service.issued() == db.issued(),
    {
        Self { db }
    }

    /// Stores `create_transaction` and returns the id that the backend gave
    /// it: an id that the backend has never handed out, not even to a
    /// transaction that was removed since. Any failure of the backend is a
    /// `SaveError`, and stores nothing.
    pub fn create_transaction(&mut self, create_transaction: CreateTransaction) -> (result: Result<
        String,
        TransactionError,
    >)
        ensures
            result matches Err(e) ==> e is SaveError && from_backend(e.message()),
            T::conforms() ==> {
                &&& result matches Ok(id) ==> {
                    &&& T::canonical_id(id@) == Some(id@)
                    &&& created(old(self)@, create_transaction@, id@, final(self)@)
                    &&& !old(self).issued().contains(id@)
                    &&& final(self).issued() == old(self).issued().insert(id@)
                }
                &&& result is Err ==> {
                    &&& final(self)@ == old(self)@
                    &&& final(self).issued() == old(self).issued()
                }
                &&& accounted(final(self)@, final(self).issued())
                &&& unique_ids(old(self)@) ==> unique_ids(final(self)@)
            },
    {
        let ghost before = self@;
        match self.db.create_transaction(create_transaction) {
            Ok(id) => {
                proof {
                    if T::conforms() && unique_ids(before) {
                        lemma_created_keeps_ids_unique(before, create_transaction@, id@, self@);
                    }
                }
                Ok(id)
            },
            Err(e) => Err(TransactionError::save_failed(&e)),
        }
    }

    /// The transaction stored under `id`, or `None` where there is none. A
    /// text that is no id to the backend, and any failure of the backend, is
    /// a `FindError`.
    pub fn find_transaction(&mut self, id: &str) -> (result: Result<
        Option<Transaction>,
        TransactionError,
    >)
        ensures
            result matches Err(e) ==> e is FindError && from_backend(e.message()),
            T::conforms() ==> {
                &&& final(self)@ == old(self)@
                &&& final(self).issued() == old(self).issued()
                &&& T::canonical_id(id@) is None ==> result is Err
                &&& T::canonical_id(id@) is Some && T::unfailing() ==> result is Ok
                &&& result matches Ok(found) ==> {
                    &&& T::canonical_id(id@) matches Some(key)
                    &&& found_view(found) == lookup(old(self)@, key)
                }
            },
    {
        match self.db.get_transaction(id) {
            Ok(found) => Ok(found),
            Err(e) => Err(TransactionError::find_failed(&e)),
        }
    }

    /// All the stored transactions, each once, in an order of the backend's
    /// choosing. Any failure of the backend is a `FindError`.
    pub fn find_transactions(&mut self) -> (result: Result<Vec<Transaction>, TransactionError>)
        ensures
            result matches Err(e) ==> e is FindError && from_backend(e.message()),
            T::conforms() ==> {
                &&& final(self)@ == old(self)@
                &&& final(self).issued() == old(self).issued()
                &&& T::unfailing() ==> result is Ok
                &&& result matches Ok(all) ==> views(all@).to_multiset() == old(self)@.to_multiset()
            },
    {
        match self.db.get_transactions() {
            Ok(all) => Ok(all),
            Err(e) => Err(TransactionError::find_failed(&e)),
        }
    }

    /// Removes the transaction stored under `id`; where there is none, nothing
    /// changes. The id stays handed out. A text that is no id to the backend,
    /// and any failure of the backend, is a `DeleteError`, and removes
    /// nothing.
    pub fn delete_transaction(&mut self, id: &str) -> (result: Result<(), TransactionError>)
        ensures
            result matches Err(e) ==> e is DeleteError && from_backend(e.message()),
            T::conforms() ==> {
                &&& T::canonical_id(id@) is None ==> result is Err
                &&& T::canonical_id(id@) is Some && T::unfailing() ==> result is Ok
                &&& result is Ok ==> {
                    &&& T::canonical_id(id@) matches Some(key)
                    &&& final(self)@ == without_id(old(self)@, key)
                }
                &&& result is Err ==> final(self)@ == old(self)@
                &&& final(self).issued() == old(self).issued()
                &&& accounted(final(self)@, final(self).issued())
                &&& unique_ids(old(self)@) ==> unique_ids(final(self)@)
            },
    {
        let ghost before = self@;
        match self.db.delete_transaction(id) {
            Ok(()) => {
                proof {
                    if T::conforms() && unique_ids(before) {
                        lemma_deleted_keeps_ids_unique(before, T::canonical_id(id@)->Some_0);
                    }
                }
                Ok(())
            },
            Err(e) => Err(TransactionError::delete_failed(&e)),
        }
    }
}

} // verus!
