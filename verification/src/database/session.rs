//! The rules that every adapter follows, whatever it stores its records in:
//! when to open and release the resource, and how to report what failed.
//! The adapter does the work on its resource and tells the session how it
//! went.

use vstd::prelude::*;
use crate::database::base::DatabaseError;
use crate::database::id::{canonical_uuid, uuid_canonical};

verus! {

/// What a backend is asked to do with its records.
#[derive(Clone, Copy, Debug, PartialEq, Eq, Structural)]
pub enum Operation {
    Create,
    Delete,
    Get,
    GetAll,
}

impl Operation {
    /// A failure of this operation with `message`, as a backend reports it:
    /// a `SaveError` of a creation, a `DeleteError` of a deletion, a
    /// `GetError` of a reading.
    pub open spec fn failed(self, message: Seq<char>, error: DatabaseError) -> bool {
        &&& error.message() == message
        &&& match self {
            Operation::Create => error is SaveError,
            Operation::Delete => error is DeleteError,
            Operation::Get => error is GetError,
            Operation::GetAll => error is GetError,
        }
    }

    /// The id that `id` names to an adapter whose ids are UUIDs, in its usual
    /// form. A text that is no UUID is a failure of this operation, with the
    /// reader's words.
    pub fn key(self, id: &str) -> (result: Result<String, DatabaseError>)
        ensures
            match uuid_canonical(id@) {
                Ok(key) => result matches Ok(found) && found@ == key,
                Err(complaint) => result matches Err(error) && self.failed(complaint, error),
            },
    {
        match canonical_uuid(id) {
            Ok(key) => Ok(key),
            Err(complaint) => Err(self.failure(complaint)),
        }
    }

    /// Reports a failure of this operation, with the words of whatever
    /// failed.
    pub fn failure(self, message: String) -> (error: DatabaseError)
        ensures
            self.failed(message@, error),
    {
        match self {
            Operation::Create => DatabaseError::SaveError(message),
            Operation::Delete => DatabaseError::DeleteError(message),
            Operation::Get => DatabaseError::GetError(message),
            Operation::GetAll => DatabaseError::GetError(message),
        }
    }
}

/// What an adapter does to its resource next.
#[derive(Clone, Copy, Debug, PartialEq, Eq, Structural)]
pub enum Action {
    /// Nothing: the resource is as it should be.
    Keep,
    /// Open the resource.
    Open,
    /// Release the resource.
    Release,
}

/// Why a resource could not be opened.
#[derive(Debug)]
pub enum OpenFailure {
    /// The handle to the backend could not be built.
    Client(String),
    /// The handle was built, and the backend could not be reached with it.
    Connection(String),
}

/// What an adapter knows of its resource: whether it is open. The adapter
/// asks the session what to do, does it, and tells the session how it went.
#[derive(Debug)]
pub struct Session {
    open: bool,
}

impl Session {
    /// The resource is open.
    pub closed spec fn connected(&self) -> bool {
        self.open
    }

    /// A session whose resource is not open yet.
    pub fn new() -> (session: Session)
        ensures
            !session.connected(),
    {
        Session { open: false }
    }

    /// The resource is open.
    pub fn is_connected(&self) -> (open: bool)
        ensures
            open == self.connected(),
    {
        self.open
    }

    /// What a call of `connect` does: it opens a resource that is not open,
    /// and leaves an open one alone.
    pub fn connect(&self) -> (action: Action)
        ensures
            action == if self.connected() {
                Action::Keep
            } else {
                Action::Open
            },
    {
        if self.open {
            Action::Keep
        } else {
            Action::Open
        }
    }

    /// Takes note of how opening the resource went. A failure leaves the
    /// resource as it was, and is reported with the words of whatever failed:
    /// as a `ClientError` where no handle could be built, as a
    /// `ConnectionError` where the backend could not be reached.
    pub fn opened(&mut self, outcome: Result<(), OpenFailure>) -> (result: Result<
        (),
        DatabaseError,
    >)
        ensures
            match outcome {
                Ok(_) => result is Ok && final(self).connected(),
                Err(failure) => {
                    &&& result matches Err(error)
                    &&& match failure {
                        OpenFailure::Client(message) => error is ClientError && error.message()
                            == message@,
                        OpenFailure::Connection(message) => error is ConnectionError
                            && error.message() == message@,
                    }
                    &&& final(self).connected() == old(self).connected()
                },
            },
    {
        match outcome {
            Ok(_) => {
                self.open = true;
                Ok(())
            },
            Err(OpenFailure::Client(message)) => Err(DatabaseError::ClientError(message)),
            Err(OpenFailure::Connection(message)) => Err(DatabaseError::ConnectionError(message)),
        }
    }

    /// What a call of `disconnect` does: it releases an open resource, and
    /// leaves a released one alone.
    pub fn disconnect(&self) -> (action: Action)
        ensures
            action == if self.connected() {
                Action::Release
            } else {
                Action::Keep
            },
    {
        if self.open {
            Action::Release
        } else {
            Action::Keep
        }
    }

    /// Takes note of how releasing the resource went. The resource counts as
    /// released either way; a failure is a `ConnectionError` with the words
    /// of whatever failed.
    pub fn released(&mut self, outcome: Result<(), String>) -> (result: Result<(), DatabaseError>)
        ensures
            !final(self).connected(),
            match outcome {
                Ok(_) => result is Ok,
                Err(message) => {
                    &&& result matches Err(error)
                    &&& error is ConnectionError
                    &&& error.message() == message@
                },
            },
    {
        self.open = false;
        match outcome {
            Ok(_) => Ok(()),
            Err(message) => Err(DatabaseError::ConnectionError(message)),
        }
    }
}

} // verus!
