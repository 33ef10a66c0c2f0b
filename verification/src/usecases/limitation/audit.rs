//! The record of every limit that was written and of the answer it got.

use super::state::{LimitWrite, WriteOutcome};
use crate::address::{device_of, AddressDevice};
use crate::model::MsgCounter;
use crate::time::Duration;
use std::collections::VecDeque;
use vstd::prelude::*;

verus! {

/// How many records a log keeps unless it is told otherwise.
pub const DEFAULT_CAPACITY: usize = 512;

/// One limit write and its answer.
#[derive(Clone, Debug, PartialEq, Eq)]
pub struct LimitRecord {
    /// When it was decided, on the monotonic clock.
    pub at: Duration,
    /// When it was decided, on the calendar.
    pub timestamp: Option<String>,
    /// The peer that wrote, or was written to.
    pub peer: Option<AddressDevice>,
    /// The number of the write.
    pub request: MsgCounter,
    /// The limit, unless it could not be read.
    pub write: Option<LimitWrite>,
    /// The answer.
    pub outcome: WriteOutcome,
    /// On what grounds it was answered so.
    pub basis: Option<String>,
}

/// The content of a [`LimitRecord`].
pub struct LimitRecordView {
    /// When it was decided, on the monotonic clock.
    pub at: Duration,
    /// When it was decided, on the calendar.
    pub timestamp: Option<Seq<char>>,
    /// The peer that wrote, or was written to.
    pub peer: Option<Seq<char>>,
    /// The number of the write.
    pub request: MsgCounter,
    /// The limit, unless it could not be read.
    pub write: Option<LimitWrite>,
    /// The answer.
    pub outcome: WriteOutcome,
    /// On what grounds it was answered so.
    pub basis: Option<Seq<char>>,
}

/// The content of an optional text.
pub open spec fn text_of(text: Option<String>) -> Option<Seq<char>> {
    match text {
        Some(text) => Some(text@),
        None => None,
    }
}

impl View for LimitRecord {
    type V = LimitRecordView;

    open spec fn view(&self) -> LimitRecordView {
        LimitRecordView {
            at: self.at,
            timestamp: text_of(self.timestamp),
            peer: device_of(self.peer),
            request: self.request,
            write: self.write,
            outcome: self.outcome,
            basis: text_of(self.basis),
        }
    }
}

impl LimitRecordView {
    /// A record with neither a calendar time nor a peer nor grounds.
    pub open spec fn bare(
        at: Duration,
        request: MsgCounter,
        write: Option<LimitWrite>,
        outcome: WriteOutcome,
    ) -> LimitRecordView {
        LimitRecordView {
            at,
            timestamp: None,
            peer: None,
            request,
            write,
            outcome,
            basis: None,
        }
    }
}

impl LimitRecord {
    /// The record of a limit that was read.
    pub fn new(at: Duration, request: MsgCounter, write: LimitWrite, outcome: WriteOutcome) -> (r:
        LimitRecord)
        ensures
            r@ == LimitRecordView::bare(at, request, Some(write), outcome),
    {
        LimitRecord {
            at,
            timestamp: None,
            peer: None,
            request,
            write: Some(write),
            outcome,
            basis: None,
        }
    }

    /// The record of a limit that could not be read.
    pub fn unreadable(at: Duration, request: MsgCounter, outcome: WriteOutcome) -> (r: LimitRecord)
        ensures
            r@ == LimitRecordView::bare(at, request, None, outcome),
    {
        LimitRecord {
            at,
            timestamp: None,
            peer: None,
            request,
            write: None,
            outcome,
            basis: None,
        }
    }

    /// Adds the calendar time.
    #[must_use]
    pub fn at_time(self, timestamp: String) -> (r: LimitRecord)
        ensures
            r@ == (LimitRecordView { timestamp: Some(timestamp@), ..self@ }),
    {
        LimitRecord { timestamp: Some(timestamp), ..self }
    }

    /// Adds the peer.
    #[must_use]
    pub fn with_peer(self, peer: AddressDevice) -> (r: LimitRecord)
        ensures
            r@ == (LimitRecordView { peer: Some(peer@), ..self@ }),
    {
        LimitRecord { peer: Some(peer), ..self }
    }

    /// Adds the grounds.
    #[must_use]
    pub fn on_basis(self, basis: String) -> (r: LimitRecord)
        ensures
            r@ == (LimitRecordView { basis: Some(basis@), ..self@ }),
    {
        LimitRecord { basis: Some(basis), ..self }
    }
}

/// The newest records, up to a capacity, and a count of those that had to go.
#[derive(Clone, Debug)]
pub struct AuditLog {
    records: VecDeque<LimitRecord>,
    capacity: usize,
    dropped: u64,
}

/// The content of an [`AuditLog`].
pub struct AuditView {
    /// The records, oldest first.
    pub records: Seq<LimitRecordView>,
    /// How many are kept.
    pub capacity: usize,
    /// How many had to go.
    pub dropped: u64,
}

/// The contents of records.
pub open spec fn record_views(records: Seq<LimitRecord>) -> Seq<LimitRecordView> {
    records.map_values(|record: LimitRecord| record@)
}

impl View for AuditLog {
    type V = AuditView;

    closed spec fn view(&self) -> AuditView {
        AuditView {
            records: record_views(self.records@),
            capacity: self.capacity,
            dropped: self.dropped,
        }
    }
}

impl AuditView {
    /// There is room for a record, and no more are kept than there is room for.
    pub open spec fn wf(self) -> bool {
        1 <= self.capacity && self.records.len() <= self.capacity
    }

    /// A log without records.
    pub open spec fn holding(capacity: usize) -> AuditView {
        AuditView {
            records: Seq::empty(),
            capacity: if capacity < 1 {
                1
            } else {
                capacity
            },
            dropped: 0,
        }
    }

    /// How many of the oldest records have to go to make room for one.
    pub open spec fn excess(self) -> int {
        if self.records.len() < self.capacity {
            0
        } else if self.capacity == 0 {
            self.records.len() as int
        } else {
            self.records.len() - self.capacity + 1
        }
    }

    /// With one more record.
    pub open spec fn recorded(self, record: LimitRecordView) -> AuditView {
        AuditView {
            records: self.records.skip(self.excess()).push(record),
            dropped: if self.dropped + self.excess() <= u64::MAX {
                (self.dropped + self.excess()) as u64
            } else {
                u64::MAX
            },
            ..self
        }
    }

    /// With several more records, one after the other.
    pub open spec fn recorded_all(self, records: Seq<LimitRecordView>) -> AuditView
        decreases records.len(),
    {
        if records.len() == 0 {
            self
        } else {
            self.recorded_all(records.drop_last()).recorded(records.last())
        }
    }
}

impl Default for AuditLog {
    fn default() -> (r: AuditLog)
        ensures
            r@ == AuditView::holding(DEFAULT_CAPACITY),
    {
        AuditLog::new()
    }
}

impl AuditLog {
    /// A log of the default capacity.
    pub fn new() -> (r: AuditLog)
        ensures
            r@ == AuditView::holding(DEFAULT_CAPACITY),
    {
        AuditLog::with_capacity(DEFAULT_CAPACITY)
    }

    /// A log that keeps so many records, and at least one.
    pub fn with_capacity(capacity: usize) -> (r: AuditLog)
        ensures
            r@ == AuditView::holding(capacity),
    {
        let log = AuditLog {
            records: VecDeque::new(),
            capacity: if capacity < 1 {
                1
            } else {
                capacity
            },
            dropped: 0,
        };
        assert(log@.records =~= Seq::empty());
        log
    }

    /// A log as it was stored: its records, oldest first, how many it keeps, and how many had to
    /// go.
    pub fn restored(records: VecDeque<LimitRecord>, capacity: usize, dropped: u64) -> (r: AuditLog)
        ensures
            r@ == (AuditView {
                records: record_views(records@),
                dropped,
                ..AuditView::holding(capacity)
            }),
    {
        AuditLog {
            records,
            capacity: if capacity < 1 {
                1
            } else {
                capacity
            },
            dropped,
        }
    }

    /// How many records are kept.
    pub fn capacity(&self) -> (r: usize)
        ensures
            r == self@.capacity,
    {
        self.capacity
    }

    /// Adds a record. Where there is no room, the oldest go, and are counted.
    pub fn record(&mut self, record: LimitRecord)
        ensures
            final(self)@ == old(self)@.recorded(record@),
    {
        let ghost before = self@;
        let ghost mut gone: int = 0;
        assert(before.records.skip(0) =~= before.records);
        while self.records.len() >= self.capacity && self.records.len() > 0
            invariant
                0 <= gone <= before.excess(),
                gone == 0 ==> self@.dropped == before.dropped,
                self@.capacity == before.capacity,
                self@.records == before.records.skip(gone),
                self@.dropped == if before.dropped + gone <= u64::MAX {
                    (before.dropped + gone) as u64
                } else {
                    u64::MAX
                },
            decreases self.records@.len(),
        {
            let ghost held = self.records@;
            self.records.pop_front();
            self.dropped = if self.dropped == u64::MAX {
                self.dropped
            } else {
                self.dropped + 1
            };
            proof {
                let views = record_views(held);
                assert(views == before.records.skip(gone));
                assert(self.records@ == held.subrange(1, held.len() as int));
                gone = gone + 1;
                assert(record_views(self.records@) =~= views.skip(1));
                assert(self@.records =~= before.records.skip(gone));
            }
        }
        proof {
            assert(record_views(self.records@).len() == self.records@.len());
            assert(gone == before.excess());
        }
        let ghost kept = self.records@;
        self.records.push_back(record);
        assert(record_views(self.records@) =~= record_views(kept).push(record@));
    }

    /// The records, oldest first.
    pub fn records(&self) -> (r: &VecDeque<LimitRecord>)
        ensures
            record_views(r@) == self@.records,
    {
        &self.records
    }

    /// The newest record.
    pub fn last(&self) -> (r: Option<&LimitRecord>)
        ensures
            match r {
                Some(record) => self@.records.len() > 0 && record@ == self@.records.last(),
                None => self@.records.len() == 0,
            },
    {
        let count: usize = self.records.len();
        if count == 0 {
            None
        } else {
            Some(&self.records[count - 1])
        }
    }

    /// How many records there are.
    pub fn len(&self) -> (r: usize)
        ensures
            r == self@.records.len(),
    {
        self.records.len()
    }

    /// Whether there are none.
    pub fn is_empty(&self) -> (r: bool)
        ensures
            r == (self@.records.len() == 0),
    {
        self.records.len() == 0
    }

    /// How many records had to go.
    pub fn dropped(&self) -> (r: u64)
        ensures
            r == self@.dropped,
    {
        self.dropped
    }

    /// Hands the records over, oldest first, and keeps none.
    pub fn drain(&mut self) -> (r: Vec<LimitRecord>)
        ensures
            record_views(r@) == old(self)@.records,
            final(self)@ == (AuditView { records: Seq::empty(), ..old(self)@ }),
    {
        let ghost before = self@;
        let mut taken: Vec<LimitRecord> = Vec::new();
        assert(record_views(taken@) + record_views(self.records@) =~= before.records);
        while self.records.len() > 0
            invariant
                record_views(taken@) + record_views(self.records@) == before.records,
                self@.capacity == before.capacity,
                self@.dropped == before.dropped,
            decreases self.records@.len(),
        {
            let ghost held = self.records@;
            let ghost had = taken@;
            match self.records.pop_front() {
                Some(record) => {
                    taken.push(record);
                    proof {
                        assert(record_views(taken@) + record_views(self.records@) =~= record_views(
                            had,
                        ) + record_views(held));
                    }
                },
                None => {},
            }
        }
        assert(record_views(taken@) =~= before.records);
        assert(self@.records =~= Seq::empty());
        taken
    }
}

/// A log never holds more than it has room for, and always has room for the newest record.
pub proof fn law_log_is_bounded(log: AuditView, record: LimitRecordView)
    requires
        log.wf(),
    ensures
        AuditView::holding(log.capacity).wf(),
        log.recorded(record).wf(),
        log.recorded(record).records.len() > 0,
        log.recorded(record).records.last() == record,
{
}

/// What was recorded is what is held, in order, preceded by what was dropped: nothing is lost
/// without being counted.
pub proof fn law_nothing_is_lost_uncounted(log: AuditView, records: Seq<LimitRecordView>)
    requires
        log.wf(),
        log.dropped + log.records.len() + records.len() <= u64::MAX,
    ensures
        ({
            let after = log.recorded_all(records);
            let lost = after.dropped - log.dropped;
            &&& after.wf()
            &&& after.capacity == log.capacity
            &&& 0 <= lost <= (log.records + records).len()
            &&& after.records == (log.records + records).skip(lost)
        }),
    decreases records.len(),
{
    if records.len() == 0 {
        assert(log.records + records =~= log.records);
        assert(log.records.skip(0) =~= log.records);
    } else {
        let rest = records.drop_last();
        law_nothing_is_lost_uncounted(log, rest);
        let before = log.recorded_all(rest);
        let after = log.recorded_all(records);
        let lost = after.dropped - log.dropped;
        assert(after.records =~= (log.records + records).skip(lost));
    }
}

} // verus!
