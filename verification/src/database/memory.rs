//! A backend that keeps its records in the process.

use vstd::prelude::*;
use crate::database::base::{
    DatabaseError, DatabaseInit, TransactionRead, TransactionStore, TransactionWrite,
};
use crate::database::model::{
    accounted, lemma_absent_iff_never_stored, lemma_deleted_is_absent, lemma_deleted_keeps_others,
    lemma_deleting_the_absent_changes_nothing, lookup, views, without_id,
};
use crate::reader::fields_view;
use crate::database::id::uuid_canonical;
use crate::database::session::{Action, Operation, Session};
use crate::models::transaction::{CreateTransaction, Transaction, TransactionView};

verus! {

/// A key-value backend that keeps its entries in the process: one entry for
/// each transaction, under a random UUID. It opens itself with the first
/// operation that needs it, and keeps what it holds when it is closed. It
/// remembers the ids of the entries that were removed, and gives none of them
/// to a new entry.
pub struct Memory {
    session: Session,
    entries: Vec<Transaction>,
    retired: Vec<String>,
}

/// The index of the latest entry under `key`, if there is one.
fn position(entries: &Vec<Transaction>, key: &String) -> (found: Option<usize>)
    ensures
        match found {
            Some(index) => index < entries.len() && lookup(views(entries@), key@) == Some(
                entries[index as int]@,
            ),
            None => lookup(views(entries@), key@) is None,
        },
{
    let ghost all = views(entries@);
    let mut found: Option<usize> = None;
    let mut index: usize = 0;
    assert(all.take(0) =~= Seq::empty());
    while index < entries.len()
        invariant
            index <= entries.len(),
            all == views(entries@),
            match found {
                Some(at) => at < index && lookup(all.take(index as int), key@) == Some(all[at as int]),
                None => lookup(all.take(index as int), key@) is None,
            },
        decreases entries.len() - index,
    {
        proof {
            let seen = all.take(index + 1);
            assert(seen.drop_last() == all.take(index as int));
            assert(seen.last() == entries[index as int]@);
        }
        if entries[index].id == *key {
            found = Some(index);
        }
        index += 1;
    }
    assert(all.take(index as int) == all);
    found
}

/// Whether `id` is one of `ids`.
fn listed(ids: &Vec<String>, id: &String) -> (found: bool)
    ensures
        found == fields_view(*ids).contains(id@),
{
    let mut index: usize = 0;
    while index < ids.len()
        invariant
            index <= ids.len(),
            forall|j: int| 0 <= j < index ==> (#[trigger] ids[j])@ != id@,
        decreases ids.len() - index,
    {
        if ids[index] == *id {
            assert(fields_view(*ids)[index as int] == id@);
            return true;
        }
        index += 1;
    }
    assert forall|j: int| 0 <= j < fields_view(*ids).len() implies fields_view(*ids)[j]
        != id@ by {
        assert(ids[j]@ != id@);
    }
    false
}

impl Memory {
    /// A backend that holds nothing, has handed no id out and is not open
    /// yet.
    pub fn new() -> (backend: Memory)
        ensures
            backend.records() == Seq::<TransactionView>::empty(),
            backend.issued() == Set::<Seq<char>>::empty(),
            !backend.connected(),
    {
        let backend = Memory { session: Session::new(), entries: Vec::new(), retired: Vec::new() };
        assert(views(backend.entries@) =~= Seq::empty());
        assert(fields_view(backend.retired) =~= Seq::empty());
        assert(backend.issued() =~= Set::empty());
        backend
    }

    /// Stores `record` as it is, under the id that it carries, unless that
    /// id has been handed out before: then nothing is stored, and the
    /// failure is a `SaveError`.
    pub fn store(&mut self, record: Transaction) -> (result: Result<String, DatabaseError>)
        ensures
            final(self).connected() == old(self).connected(),
            old(self).issued().contains(record.id@) ==> {
                &&& result matches Err(error) && error is SaveError
                &&& final(self).records() == old(self).records()
                &&& final(self).issued() == old(self).issued()
            },
            !old(self).issued().contains(record.id@) ==> {
                &&& result matches Ok(id) && id@ == record.id@
                &&& final(self).records() == old(self).records().push(record@)
                &&& final(self).issued() == old(self).issued().insert(record.id@)
            },
    {
        let id = record.id.clone();
        let stored = match position(&self.entries, &id) {
            Some(_) => true,
            None => false,
        };
        if stored || listed(&self.retired, &id) {
            Err(Operation::Create.failure(String::from_str("the new id is taken")))
        } else {
            let ghost before = views(self.entries@);
            self.entries.push(record);
            proof {
                let after = views(self.entries@);
                assert(after =~= before.push(record@));
                assert(after.drop_last() == before);
                assert(self.issued() =~= old(self).issued().insert(id@));
            }
            Ok(id)
        }
    }

    /// Whatever the backend holds, each id of its entries is one of the ids
    /// that it has handed out.
    pub proof fn lemma_accounted(&self)
        ensures
            accounted(self.records(), self.issued()),
    {
        let records = self.records();
        assert forall|i: int| 0 <= i < records.len() implies self.issued().contains(
            (#[trigger] records[i]).id,
        ) by {
            lemma_absent_iff_never_stored(records, records[i].id);
        }
    }
}

impl TransactionStore for Memory {
    open spec fn conforms() -> bool {
        true
    }

    open spec fn unfailing() -> bool {
        true
    }

    closed spec fn records(&self) -> Seq<TransactionView> {
        views(self.entries@)
    }

    /// The ids of the entries, and the ids of the entries that were removed.
    closed spec fn issued(&self) -> Set<Seq<char>> {
        Set::new(
            |id: Seq<char>|
                lookup(views(self.entries@), id) is Some || fields_view(self.retired).contains(id),
        )
    }

    closed spec fn connected(&self) -> bool {
        self.session.connected()
    }

    /// An id is a UUID; its usual form is the one under which it is stored.
    open spec fn canonical_id(id: Seq<char>) -> Option<Seq<char>> {
        match uuid_canonical(id) {
            Ok(key) => Some(key),
            Err(_) => None,
        }
    }
}

impl DatabaseInit for Memory {
    /// Opens the backend. This cannot fail, and keeps what is stored.
    fn connect(&mut self) -> (result: Result<(), DatabaseError>)
        ensures
            result is Ok,
            final(self).connected(),
            final(self).records() == old(self).records(),
            final(self).issued() == old(self).issued(),
    {
        match self.session.connect() {
            Action::Open => self.session.opened(Ok(())),
            _ => Ok(()),
        }
    }

    /// Closes the backend. This cannot fail, and keeps what is stored.
    fn disconnect(&mut self) -> (result: Result<(), DatabaseError>)
        ensures
            result is Ok,
            !final(self).connected(),
            final(self).records() == old(self).records(),
            final(self).issued() == old(self).issued(),
    {
        match self.session.disconnect() {
            Action::Release => self.session.released(Ok(())),
            _ => Ok(()),
        }
    }
}

impl TransactionWrite for Memory {
    /// Opens the backend, makes a record of the transaction under a new
    /// random UUID, with the time of the call as the time of its creation and
    /// of its last change, and stores it (`Memory::store`). The one failure
    /// is a `SaveError`, where the UUID that chance gave has been handed out
    /// before. A backend that has handed no id out cannot fail.
    fn create_transaction(&mut self, create_transaction: CreateTransaction) -> (result: Result<
        String,
        DatabaseError,
    >)
        ensures
            old(self).issued() == Set::<Seq<char>>::empty() ==> result is Ok,
            result matches Ok(_) ==> final(self).records().last().created_at
                == final(self).records().last().updated_at,
            result matches Err(e) ==> e is SaveError,
    {
        self.connect()?;
        let record = Transaction::stamped(create_transaction);
        let ghost before = self.records();
        let result = self.store(record);
        proof {
            self.lemma_accounted();
            if result is Ok {
                assert(self.records().drop_last() == before);
            }
        }
        result
    }

    /// Removes the entry under `id`, and keeps its id among the ids handed
    /// out. A text that is no UUID is a `DeleteError`; nothing else fails.
    fn delete_transaction(&mut self, id: &str) -> (result: Result<(), DatabaseError>)
        ensures
            result matches Err(e) ==> e is DeleteError,
    {
        match Operation::Delete.key(id) {
            Err(error) => {
                proof {
                    self.lemma_accounted();
                }
                Err(error)
            },
            Ok(key) => {
                self.connect()?;
                let ghost all = views(self.entries@);
                let mut kept: Vec<Transaction> = Vec::new();
                let mut removed = false;
                let mut index: usize = 0;
                assert(all.take(0) =~= Seq::empty());
                assert(views(kept@) =~= Seq::empty());
                while index < self.entries.len()
                    invariant
                        index <= self.entries.len(),
                        all == views(self.entries@),
                        all == old(self).records(),
                        self.issued() == old(self).issued(),
                        self.connected(),
                        views(kept@) == without_id(all.take(index as int), key@),
                        removed == (lookup(all.take(index as int), key@) is Some),
                    decreases self.entries.len() - index,
                {
                    proof {
                        let seen = all.take(index + 1);
                        assert(seen.drop_last() == all.take(index as int));
                        assert(seen.last() == self.entries[index as int]@);
                    }
                    if self.entries[index].id != key {
                        let ghost shorter = views(kept@);
                        kept.push(self.entries[index].clone());
                        assert(views(kept@) =~= shorter.push(self.entries[index as int]@));
                    } else {
                        removed = true;
                    }
                    index += 1;
                }
                assert(all.take(index as int) == all);
                let ghost gone = fields_view(self.retired);
                self.entries = kept;
                if removed {
                    self.retired.push(key);
                    assert(fields_view(self.retired) =~= gone.push(key@));
                }
                proof {
                    let left = views(self.entries@);
                    let now_gone = fields_view(self.retired);
                    assert forall|other: Seq<char>|
                        self.issued().contains(other) == old(self).issued().contains(other) by {
                        if other == key@ {
                            lemma_deleted_is_absent(all, key@);
                            if removed {
                                assert(now_gone[now_gone.len() - 1] == key@);
                            } else {
                                lemma_deleting_the_absent_changes_nothing(all, key@);
                            }
                        } else {
                            lemma_deleted_keeps_others(all, key@, other);
                            if removed {
                                if gone.contains(other) {
                                    let at = choose|at: int|
                                        0 <= at < gone.len() && gone[at] == other;
                                    assert(now_gone[at] == other);
                                }
                                if now_gone.contains(other) {
                                    let at = choose|at: int|
                                        0 <= at < now_gone.len() && now_gone[at] == other;
                                    assert(gone[at] == other);
                                }
                            }
                        }
                    }
                    assert(self.issued() =~= old(self).issued());
                    self.lemma_accounted();
                }
                Ok(())
            },
        }
    }
}

impl TransactionRead for Memory {
    /// The entry under `id`. A text that is no UUID is a `GetError`; nothing
    /// else fails.
    fn get_transaction(&mut self, id: &str) -> (result: Result<Option<Transaction>, DatabaseError>) {
        proof {
            self.lemma_accounted();
        }
        match Operation::Get.key(id) {
            Err(error) => Err(error),
            Ok(key) => {
                self.connect()?;
                match position(&self.entries, &key) {
                    Some(index) => Ok(Some(self.entries[index].clone())),
                    None => Ok(None),
                }
            },
        }
    }

    /// All the entries, in the order of their creation. This cannot fail.
    fn get_transactions(&mut self) -> (result: Result<Vec<Transaction>, DatabaseError>)
        ensures
            result matches Ok(all) && views(all@) == old(self).records(),
    {
        proof {
            self.lemma_accounted();
        }
        self.connect()?;
        let mut all: Vec<Transaction> = Vec::new();
        let mut index: usize = 0;
        assert(views(all@) =~= views(self.entries@).take(0));
        while index < self.entries.len()
            invariant
                index <= self.entries.len(),
                views(self.entries@) == old(self).records(),
                self.issued() == old(self).issued(),
                self.connected(),
                views(all@) == views(self.entries@).take(index as int),
            decreases self.entries.len() - index,
        {
            let ghost shorter = views(all@);
            all.push(self.entries[index].clone());
            assert(views(all@) =~= shorter.push(self.entries[index as int]@));
            assert(views(all@) =~= views(self.entries@).take(index + 1));
            index += 1;
        }
        assert(views(self.entries@).take(index as int) =~= views(self.entries@));
        Ok(all)
    }
}

} // verus!
