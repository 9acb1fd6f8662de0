//! What a storage backend must be able to do: open and release its resource,
//! store and remove records, read them back.

use vstd::prelude::*;
use crate::database::model::{accounted, created, found_view, lookup, views, without_id};
use crate::models::transaction::{CreateTransaction, Transaction, TransactionView};

verus! {

/// Why a backend could not do what it was asked. Each kind carries a message
/// for a human reader.
#[derive(Debug)]
pub enum DatabaseError {
    /// The backend's resource could not be reached.
    ConnectionError(String),
    /// The handle to the backend could not be built.
    ClientError(String),
    SaveError(String),
    GetError(String),
    DeleteError(String),
    /// A stored record could not be encoded or decoded.
    JsonError(String),
    /// A stored value is not text.
    StringConversionError(String),
    /// The backend answered in a shape that the adapter does not know.
    UnknownValueError(String),
}

impl DatabaseError {
    /// The message that the error carries.
    pub open spec fn message(&self) -> Seq<char> {
        match self {
            DatabaseError::ConnectionError(e) => e@,
            DatabaseError::ClientError(e) => e@,
            DatabaseError::SaveError(e) => e@,
            DatabaseError::GetError(e) => e@,
            DatabaseError::DeleteError(e) => e@,
            DatabaseError::JsonError(e) => e@,
            DatabaseError::StringConversionError(e) => e@,
            DatabaseError::UnknownValueError(e) => e@,
        }
    }

    /// The text that names the error's kind and introduces its message.
    pub open spec fn prefix(&self) -> Seq<char> {
        match self {
            DatabaseError::ConnectionError(_) => "DatabaseError -> ConnectionError, "@,
            DatabaseError::ClientError(_) => "DatabaseError -> ClientError, "@,
            DatabaseError::SaveError(_) => "DatabaseError -> SaveError, "@,
            DatabaseError::GetError(_) => "DatabaseError -> GetError, "@,
            DatabaseError::DeleteError(_) => "DatabaseError -> DeleteError, "@,
            DatabaseError::JsonError(_) => "DatabaseError -> JsonError, "@,
            DatabaseError::StringConversionError(_) => "DatabaseError -> StringConversionError, "@,
            DatabaseError::UnknownValueError(_) => "DatabaseError -> UnknownValueError, "@,
        }
    }

    /// The error as one line of text: its kind, then its message.
    pub open spec fn rendering(&self) -> Seq<char> {
        self.prefix() + self.message()
    }

    /// Renders the error as one line of text.
    pub fn to_string(&self) -> (text: String)
        ensures
            text@ == self.rendering(),
    {
        match self {
            DatabaseError::ConnectionError(e) => String::from_str(
                "DatabaseError -> ConnectionError, ",
            ).concat(e.as_str()),
            DatabaseError::ClientError(e) => String::from_str(
                "DatabaseError -> ClientError, ",
            ).concat(e.as_str()),
            DatabaseError::SaveError(e) => String::from_str("DatabaseError -> SaveError, ").concat(
                e.as_str(),
            ),
            DatabaseError::GetError(e) => String::from_str("DatabaseError -> GetError, ").concat(
                e.as_str(),
            ),
            DatabaseError::DeleteError(e) => String::from_str(
                "DatabaseError -> DeleteError, ",
            ).concat(e.as_str()),
            DatabaseError::JsonError(e) => String::from_str("DatabaseError -> JsonError, ").concat(
                e.as_str(),
            ),
            DatabaseError::StringConversionError(e) => String::from_str(
                "DatabaseError -> StringConversionError, ",
            ).concat(e.as_str()),
            DatabaseError::UnknownValueError(e) => String::from_str(
                "DatabaseError -> UnknownValueError, ",
            ).concat(e.as_str()),
        }
    }
}

/// The rule of the closed resource, for an operation that failed with
/// `error`: where the resource was not open before the operation and is not
/// open after it, the operation could not open it, and the error says so.
pub open spec fn never_opened(before: bool, after: bool, error: DatabaseError) -> bool {
    !before && !after ==> error is ConnectionError || error is ClientError
}

/// What a backend stands for in contracts: the records it holds, the ids it
/// has handed out, whether its resource is open, and which texts it takes for
/// ids.
///
/// A backend that the verifier has read says what these are for it and
/// answers `conforms` with `true`: the contracts of the capability traits
/// then bind it, and it was proved to keep them. A backend written out of the
/// verifier's sight leaves them as they are here, and nothing is claimed of
/// it.
pub trait TransactionStore {
    /// The contracts of the capability traits bind this backend.
    open spec fn conforms() -> bool {
        false
    }

    /// Reading and removing cannot fail on this backend, but for a text that
    /// is no id. A backend whose resource can be lost leaves this out.
    open spec fn unfailing() -> bool {
        false
    }

    /// The stored records, in the order in which they were created.
    open spec fn records(&self) -> Seq<TransactionView> {
        Seq::empty()
    }

    /// The ids that the backend has handed out so far, those of removed
    /// records among them. No id is handed out twice.
    open spec fn issued(&self) -> Set<Seq<char>> {
        Set::empty()
    }

    /// The backend's resource is open.
    open spec fn connected(&self) -> bool {
        false
    }

    /// The id that the backend reads out of `id`, in the form in which it
    /// hands ids out; `None` where `id` is not an id to this backend.
    open spec fn canonical_id(id: Seq<char>) -> Option<Seq<char>> {
        Some(id)
    }
}

/// The lifecycle of a backend's resource.
pub trait DatabaseInit: TransactionStore {
    /// Opens the resource. On an open one this is no error and loses nothing.
    fn connect(&mut self) -> (result: Result<(), DatabaseError>)
        ensures
            Self::conforms() ==> {
                &&& result is Ok ==> final(self).connected()
                &&& old(self).connected() ==> {
                    &&& result is Ok
                    &&& final(self).records() == old(self).records()
                    &&& final(self).issued() == old(self).issued()
                }
            },
    ;

    /// Releases the resource. On a released one this is no error and changes
    /// nothing.
    fn disconnect(&mut self) -> (result: Result<(), DatabaseError>)
        ensures
            Self::conforms() ==> {
                &&& result is Ok ==> !final(self).connected()
                &&& !old(self).connected() ==> {
                    &&& result is Ok
                    &&& final(self).records() == old(self).records()
                    &&& final(self).issued() == old(self).issued()
                }
            },
    ;
}

/// Storing and removing records. An operation on a backend whose resource
/// is not open opens it first.
pub trait TransactionWrite: TransactionStore {
    /// Stores `create_transaction` as a new record under an id that the
    /// backend has never handed out, and returns the id. A failure stores
    /// nothing and hands no id out.
    fn create_transaction(&mut self, create_transaction: CreateTransaction) -> (result: Result<
        String,
        DatabaseError,
    >)
        ensures
            Self::conforms() ==> {
                &&& result matches Ok(id) ==> {
                    &&& Self::canonical_id(id@) == Some(id@)
                    &&& created(
                        old(self).records(),
                        create_transaction@,
                        id@,
                        final(self).records(),
                    )
                    &&& !old(self).issued().contains(id@)
                    &&& final(self).issued() == old(self).issued().insert(id@)
                    &&& final(self).connected()
                }
                &&& result is Err ==> {
                    &&& final(self).records() == old(self).records()
                    &&& final(self).issued() == old(self).issued()
                }
                &&& accounted(final(self).records(), final(self).issued())
                &&& result matches Err(error) ==> never_opened(
                    old(self).connected(),
                    final(self).connected(),
                    error,
                )
            },
    ;

    /// Removes the record whose id is `id`. Where there is none, nothing
    /// changes; a text that is no id is an error, and a failure removes
    /// nothing. The id of a removed record stays handed out.
    fn delete_transaction(&mut self, id: &str) -> (result: Result<(), DatabaseError>)
        ensures
            Self::conforms() ==> {
                &&& Self::canonical_id(id@) is None ==> result is Err
                &&& Self::canonical_id(id@) is Some && Self::unfailing() ==> result is Ok
                &&& result is Ok ==> {
                    &&& Self::canonical_id(id@) matches Some(key)
                    &&& final(self).records() == without_id(old(self).records(), key)
                    &&& final(self).connected()
                }
                &&& result is Err ==> final(self).records() == old(self).records()
                &&& final(self).issued() == old(self).issued()
                &&& accounted(final(self).records(), final(self).issued())
                &&& result matches Err(error) ==> Self::canonical_id(id@) is None || never_opened(
                    old(self).connected(),
                    final(self).connected(),
                    error,
                )
            },
    ;
}

/// Reading records back. Reading changes no record. An operation on a
/// backend whose resource is not open opens it first.
pub trait TransactionRead: TransactionStore {
    /// The record whose id is `id`, or `None` where the backend holds no such
    /// record. A text that is no id is a `GetError`.
    fn get_transaction(&mut self, id: &str) -> (result: Result<Option<Transaction>, DatabaseError>)
        ensures
            Self::conforms() ==> {
                &&& final(self).records() == old(self).records()
                &&& final(self).issued() == old(self).issued()
                &&& accounted(final(self).records(), final(self).issued())
                &&& Self::canonical_id(id@) is None ==> result is Err && result->Err_0 is GetError
                &&& Self::canonical_id(id@) is Some && Self::unfailing() ==> result is Ok
                &&& result matches Ok(found) ==> {
                    &&& Self::canonical_id(id@) matches Some(key)
                    &&& found_view(found) == lookup(old(self).records(), key)
                    &&& final(self).connected()
                }
                &&& result matches Err(error) ==> Self::canonical_id(id@) is None || never_opened(
                    old(self).connected(),
                    final(self).connected(),
                    error,
                )
            },
    ;

    /// All the records, each stored record once, in an order of the backend's
    /// choosing.
    fn get_transactions(&mut self) -> (result: Result<Vec<Transaction>, DatabaseError>)
        ensures
            Self::conforms() ==> {
                &&& final(self).records() == old(self).records()
                &&& final(self).issued() == old(self).issued()
                &&& accounted(final(self).records(), final(self).issued())
                &&& Self::unfailing() ==> result is Ok
                &&& result matches Ok(all) ==> {
                    &&& views(all@).to_multiset() == old(self).records().to_multiset()
                    &&& final(self).connected()
                }
                &&& result matches Err(error) ==> never_opened(
                    old(self).connected(),
                    final(self).connected(),
                    error,
                )
            },
    ;
}

/// A record that knows the id under which it is stored.
pub trait GetId {
    /// The record's id.
    fn get_id(&self) -> (id: String);
}

/// Storing records of any kind as text: each record under its own id.
pub trait DatabaseWrite {
    /// Stores `text`, which stands for `record`, under the record's id.
    fn save<R: GetId>(&mut self, record: R, text: String) -> (result: Result<(), DatabaseError>);
}

/// Reading back what was stored as text.
pub trait DatabaseRead {
    /// The text stored under `id`, or `None` where there is none.
    fn find(&mut self, id: &str) -> (result: Result<Option<String>, DatabaseError>);
}

} // verus!
