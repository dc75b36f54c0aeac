use vstd::prelude::*;

use crate::application::repository::table::{
    distinct_ids, has_row, lemma_table_entry, lemma_table_push, lemma_table_row, position,
    row_index, table, Keyed,
};
use crate::application::repository::{RepositoryError, RepositoryResult};
use crate::domain::transaction::Transaction;
use crate::infrastructure::clock::now_micros;
use crate::infrastructure::ids::random_uuid;

verus! {

impl Keyed for Transaction {
    open spec fn key(&self) -> u128 {
        self.id
    }

    fn row_id(&self) -> (id: u128) {
        self.id
    }
}

/// The rows a ledger may hold: ids are unique and every record moves a
/// positive amount between two different accounts.
pub open spec fn valid_records(rows: Seq<Transaction>) -> bool {
    &&& distinct_ids(rows)
    &&& forall|i: int| 0 <= i < rows.len() ==> (#[trigger] rows[i]).is_valid()
}

/// The `transactions` table: records are added and read, never changed
/// or removed.
pub struct TransactionLedger {
    rows: Vec<Transaction>,
}

impl View for TransactionLedger {
    type V = Map<u128, Transaction>;

    /// The records by id.
    open spec fn view(&self) -> Map<u128, Transaction> {
        table(self.rows())
    }
}

impl TransactionLedger {
    /// The records in the order in which they were added.
    pub closed spec fn rows(&self) -> Seq<Transaction> {
        self.rows@
    }

    /// The ledger holds each id once and valid records only. This holds
    /// of every ledger at all times.
    #[verifier::type_invariant]
    pub open spec fn wf(&self) -> bool {
        valid_records(self.rows())
    }

    /// An empty ledger.
    pub fn new() -> (ledger: TransactionLedger)
        ensures
            ledger.rows() == Seq::<Transaction>::empty(),
            ledger@ == Map::<u128, Transaction>::empty(),
    {
        let ledger = TransactionLedger { rows: Vec::new() };
        assert(ledger@ =~= Map::<u128, Transaction>::empty());
        ledger
    }

    /// Every record of a well-formed ledger is stored under its own id
    /// and is valid.
    pub proof fn lemma_records_valid(&self, id: u128)
        requires
            self.wf(),
            self@.contains_key(id),
        ensures
            self@[id].id == id,
            self@[id].is_valid(),
    {
        lemma_table_entry(self.rows(), id);
    }

    /// The position of the record with the id `id`.
    fn position(&self, id: u128) -> (found: Option<usize>)
        ensures
            match found {
                Some(i) => i < self.rows().len() && self.rows()[i as int].id == id
                    && row_index(self.rows(), id) == i && self@.contains_key(id),
                None => !has_row(self.rows(), id) && !self@.contains_key(id),
            },
    {
        proof {
            use_type_invariant(self);
        }
        position(&self.rows, id)
    }

    /// Whether a record with the id `id` is stored.
    pub fn contains(&self, id: u128) -> (found: bool)
        ensures
            found == self@.contains_key(id),
    {
        self.position(id).is_some()
    }
}

/// All records, in the order in which they were added.
pub fn list(ledger: &TransactionLedger) -> (records: Vec<Transaction>)
    ensures
        records@ == ledger.rows(),
{
    ledger.rows.clone()
}

/// What looking up `id` among `records` returns.
pub open spec fn get_outcome(records: Map<u128, Transaction>, id: u128) -> RepositoryResult<
    Transaction,
> {
    if records.contains_key(id) {
        Ok(records[id])
    } else {
        Err(RepositoryError::RowNotFound)
    }
}

/// The record with the id `id`, or `RowNotFound`.
pub fn get_by_id(id: u128, ledger: &TransactionLedger) -> (result: RepositoryResult<Transaction>)
    ensures
        result == get_outcome(ledger@, id),
{
    match ledger.position(id) {
        Some(i) => {
            proof {
                use_type_invariant(ledger);
                lemma_table_row(ledger.rows(), i as int);
            }
            Ok(ledger.rows[i])
        },
        None => Err(RepositoryError::RowNotFound),
    }
}

/// What adding `record` to the records `before` returns: the record,
/// `UniqueViolation` where its id is taken, or `CheckViolation` where it
/// is not valid.
pub open spec fn add_outcome(before: Map<u128, Transaction>, record: Transaction)
    -> RepositoryResult<Transaction> {
    if before.contains_key(record.id) {
        Err(RepositoryError::UniqueViolation)
    } else if !record.is_valid() {
        Err(RepositoryError::CheckViolation)
    } else {
        Ok(record)
    }
}

/// Appends `record` to the ledger. Where that fails the ledger is
/// unchanged; in no case is a record that was there before changed or
/// removed.
pub fn add_record(record: Transaction, ledger: &mut TransactionLedger) -> (result:
    RepositoryResult<Transaction>)
    ensures
        result == add_outcome(old(ledger)@, record),
        result is Err ==> final(ledger).rows() == old(ledger).rows(),
        result is Ok ==> final(ledger).rows() == old(ledger).rows().push(record),
        result is Ok ==> final(ledger)@ == old(ledger)@.insert(record.id, record),
        forall|id: u128| #[trigger]
            old(ledger)@.contains_key(id) ==> final(ledger)@.contains_key(id) && final(ledger)@[id]
                == old(ledger)@[id],
{
    if ledger.position(record.id).is_some() {
        return Err(RepositoryError::UniqueViolation);
    }
    if record.amount_cents <= 0 || record.source_account_id == record.destination_account_id {
        return Err(RepositoryError::CheckViolation);
    }
    proof {
        use_type_invariant(&*ledger);
        lemma_table_push(ledger.rows(), record);
    }
    let mut rows = Vec::new();
    std::mem::swap(&mut rows, &mut ledger.rows);
    rows.push(record);
    ledger.rows = rows;
    Ok(record)
}

/// The record of a transfer of `amount_cents` from `source_account_id`
/// to `destination_account_id`, with the id `id`, made at the time `now`.
pub open spec fn new_record(
    id: u128,
    source_account_id: u128,
    destination_account_id: u128,
    amount_cents: i64,
    now: i64,
) -> Transaction {
    Transaction {
        id,
        source_account_id,
        destination_account_id,
        amount_cents,
        created_at: Some(now),
    }
}

/// Appends the record of a transfer under a freshly drawn id, stamped
/// with the current time: what `add_record` does for some id and some
/// time that is not before the epoch.
pub fn add(
    source_account_id: u128,
    destination_account_id: u128,
    amount_cents: i64,
    ledger: &mut TransactionLedger,
) -> (result: RepositoryResult<Transaction>)
    ensures
        exists|id: u128, now: i64|
            now >= 0 && result == add_outcome(
                old(ledger)@,
                #[trigger] new_record(
                    id,
                    source_account_id,
                    destination_account_id,
                    amount_cents,
                    now,
                ),
            ),
        result is Err ==> final(ledger).rows() == old(ledger).rows(),
        result matches Ok(record) ==> {
            &&& final(ledger).rows() == old(ledger).rows().push(record)
            &&& final(ledger)@ == old(ledger)@.insert(record.id, record)
        },
        forall|id: u128| #[trigger]
            old(ledger)@.contains_key(id) ==> final(ledger)@.contains_key(id) && final(ledger)@[id]
                == old(ledger)@[id],
{
    let id = random_uuid();
    let now = now_micros();
    let record = Transaction {
        id,
        source_account_id,
        destination_account_id,
        amount_cents,
        created_at: Some(now),
    };
    assert(record == new_record(
        id,
        source_account_id,
        destination_account_id,
        amount_cents,
        now,
    ));
    add_record(record, ledger)
}

} // verus!
