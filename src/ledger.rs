//! The append-only ledger of scan attempts and its count of verified scans.

use vstd::prelude::*;

verus! {

/// One scan attempt, as written to the ledger.
pub struct ScanRecord {
    /// Position in the ledger, counting from 1.
    pub id: u64,
    pub barcode: String,
    /// Whether the scan was verified as a good unit.
    pub success: bool,
    /// When the scan happened, as an RFC 3339 timestamp with its offset.
    pub created_at: String,
}

/// Number of records in `records` whose scan was verified.
pub open spec fn success_count(records: Seq<ScanRecord>) -> nat
    decreases records.len(),
{
    if records.len() == 0 {
        0
    } else {
        success_count(records.drop_last()) + if records.last().success {
            1nat
        } else {
            0nat
        }
    }
}

/// Record ids run 1, 2, 3, ... in ledger order.
pub open spec fn ids_in_order(records: Seq<ScanRecord>) -> bool {
    forall|i: int| 0 <= i < records.len() ==> (#[trigger] records[i]).id == i + 1
}

/// No more records are verified than there are records.
pub proof fn lemma_success_count_bounded(records: Seq<ScanRecord>)
    ensures
        success_count(records) <= records.len(),
    decreases records.len(),
{
    if records.len() > 0 {
        lemma_success_count_bounded(records.drop_last());
    }
}

/// The count of verified scans is the number of records whose `success` flag is set.
pub proof fn lemma_success_count_is_filter(records: Seq<ScanRecord>)
    ensures
        success_count(records) == records.filter(|r: ScanRecord| r.success).len(),
    decreases records.len(),
{
    reveal(Seq::filter);
    if records.len() > 0 {
        lemma_success_count_is_filter(records.drop_last());
    }
}

/// Appending a record raises the count of verified scans by one when the record is a
/// success, and leaves it as it was when it is not.
pub proof fn lemma_count_after_append(records: Seq<ScanRecord>, r: ScanRecord)
    ensures
        success_count(records.push(r)) == success_count(records) + if r.success {
            1nat
        } else {
            0nat
        },
{
    assert(records.push(r).drop_last() =~= records);
}

/// An append-only log of scan attempts, successful or not.
pub struct ScanLedger {
    records: Vec<ScanRecord>,
}

impl ScanLedger {
    /// The records, oldest first.
    pub closed spec fn view(&self) -> Seq<ScanRecord> {
        self.records@
    }

    /// Ids of a ledger are its positions counted from 1.
    pub open spec fn wf(&self) -> bool {
        ids_in_order(self.view())
    }

    /// An empty ledger.
    pub fn new() -> (r: ScanLedger)
        ensures
            r.view() == Seq::<ScanRecord>::empty(),
            r.wf(),
    {
        ScanLedger { records: Vec::new() }
    }

    /// Number of records, successful or not.
    pub fn len(&self) -> (r: usize)
        ensures
            r == self.view().len(),
    {
        self.records.len()
    }

    /// The records, oldest first.
    pub fn records(&self) -> (r: &Vec<ScanRecord>)
        ensures
            r@ == self.view(),
    {
        &self.records
    }

    /// Writes one scan attempt at the end of the ledger and returns its id, the next in
    /// sequence.
    pub fn append(&mut self, barcode: String, success: bool, created_at: String) -> (r: u64)
        requires
            old(self).wf(),
            old(self).view().len() < u64::MAX,
        ensures
            final(self).wf(),
            r == old(self).view().len() + 1,
            final(self).view() == old(self).view().push(
                ScanRecord { id: r, barcode, success, created_at },
            ),
    {
        let id: u64 = self.records.len() as u64 + 1;
        let rec = ScanRecord { id, barcode, success, created_at };
        self.records.push(rec);
        proof {
            assert forall|i: int| 0 <= i < self.records@.len() implies (
            #[trigger] self.records@[i]).id == i + 1 by {
                if i < self.records@.len() - 1 {
                    assert(self.records@[i] == old(self).records@[i]);
                }
            }
        }
        id
    }

    /// Number of records whose scan was verified, over the whole ledger.
    pub fn count_successful(&self) -> (r: u64)
        ensures
            r == success_count(self.view()),
    {
        let mut count: u64 = 0;
        let mut i: usize = 0;
        while i < self.records.len()
            invariant
                0 <= i <= self.records@.len(),
                count == success_count(self.records@.subrange(0, i as int)),
            decreases self.records@.len() - i,
        {
            proof {
                let s = self.records@.subrange(0, i as int + 1);
                assert(s.drop_last() =~= self.records@.subrange(0, i as int));
                lemma_success_count_bounded(self.records@.subrange(0, i as int));
            }
            if self.records[i].success {
                count = count + 1;
            }
            i = i + 1;
        }
        assert(self.records@.subrange(0, i as int) =~= self.records@);
        count
    }
}

} // verus!
