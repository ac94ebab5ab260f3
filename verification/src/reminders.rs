//! The durable reminder ledger and the scheduler step over it.
//!
//! Rows are created pending, become due when their fire time passes, and
//! are marked completed only after a delivery succeeded. A failed delivery
//! leaves the row pending, so it is picked up again on the next tick:
//! delivery is at least once, and `completed` moves false to true exactly
//! once and never back.

use vstd::prelude::*;

verus! {

/// A reminder as handed to the delivery loop.
pub struct Reminder {
    pub id: u64,
    pub timestamp: u64,
    pub message: String,
    pub user_id: u64,
    pub channel_id: u64,
    pub private: bool,
}

impl Clone for Reminder {
    fn clone(&self) -> (r: Self)
        ensures
            r == *self,
    {
        Reminder {
            id: self.id,
            timestamp: self.timestamp,
            message: self.message.clone(),
            user_id: self.user_id,
            channel_id: self.channel_id,
            private: self.private,
        }
    }
}

/// A reminder as a user schedules it, before the ledger assigns its
/// identifier.
pub struct NewReminder {
    pub timestamp: u64,
    pub message: String,
    pub user_id: u64,
    pub channel_id: u64,
    pub private: bool,
}

/// A reminder row as the ledger keeps it, with its completion mark.
pub struct ReminderRow {
    pub id: u64,
    pub timestamp: u64,
    pub message: String,
    pub user_id: u64,
    pub channel_id: u64,
    pub private: bool,
    pub completed: bool,
}

impl ReminderRow {
    /// The row as handed to the delivery loop, without the completion mark.
    pub open spec fn as_reminder(self) -> Reminder {
        Reminder {
            id: self.id,
            timestamp: self.timestamp,
            message: self.message,
            user_id: self.user_id,
            channel_id: self.channel_id,
            private: self.private,
        }
    }

    /// A row is due when it is still pending and its fire time has passed.
    pub open spec fn due_at(self, now: u64) -> bool {
        !self.completed && self.timestamp <= now
    }
}

/// The rows of `rows` that are due at `now`, in store order, as reminders.
pub open spec fn due(rows: Seq<ReminderRow>, now: u64) -> Seq<Reminder>
    decreases rows.len(),
{
    if rows.len() == 0 {
        Seq::empty()
    } else {
        due(rows.drop_last(), now) + if rows.last().due_at(now) {
            seq![rows.last().as_reminder()]
        } else {
            Seq::empty()
        }
    }
}

/// How many reminders of `rs` carry the identifier `id`.
pub open spec fn id_count(rs: Seq<Reminder>, id: u64) -> nat
    decreases rs.len(),
{
    if rs.len() == 0 {
        0
    } else {
        id_count(rs.drop_last(), id) + if rs.last().id == id {
            1nat
        } else {
            0nat
        }
    }
}

/// A due row shows up in the due list.
pub proof fn lemma_due_contains(rows: Seq<ReminderRow>, now: u64, i: int)
    requires
        0 <= i < rows.len(),
        rows[i].due_at(now),
    ensures
        due(rows, now).contains(rows[i].as_reminder()),
    decreases rows.len(),
{
    if i == rows.len() - 1 {
        let d = due(rows, now);
        assert(d[d.len() - 1] == rows[i].as_reminder());
    } else {
        lemma_due_contains(rows.drop_last(), now, i);
        let d0 = due(rows.drop_last(), now);
        let j = choose|j: int| 0 <= j < d0.len() && d0[j] == rows[i].as_reminder();
        assert(due(rows, now)[j] == rows[i].as_reminder());
    }
}

/// An identifier whose rows are all completed never shows up in a due list.
pub proof fn lemma_due_excludes_completed(rows: Seq<ReminderRow>, now: u64, id: u64)
    requires
        forall|i: int| 0 <= i < rows.len() && (#[trigger] rows[i]).id == id ==> rows[i].completed,
    ensures
        forall|j: int| 0 <= j < due(rows, now).len() ==> (#[trigger] due(rows, now)[j]).id != id,
    decreases rows.len(),
{
    if rows.len() > 0 {
        let prefix = rows.drop_last();
        assert forall|i: int|
            0 <= i < prefix.len() && (#[trigger] prefix[i]).id == id implies prefix[i].completed by {
            assert(rows[i].id == id ==> rows[i].completed);
        }
        lemma_due_excludes_completed(prefix, now, id);
        let dp = due(prefix, now);
        let dr = due(rows, now);
        assert forall|j: int| 0 <= j < dr.len() implies (#[trigger] dr[j]).id != id by {
            if j < dp.len() {
                assert(dr[j] == dp[j]);
            } else {
                assert(rows.last().due_at(now));
                assert(rows[rows.len() - 1].id == id ==> rows[rows.len() - 1].completed);
            }
        }
    }
}

/// With unique identifiers, the due list names an identifier exactly once
/// when its row is due, and never otherwise.
pub proof fn lemma_due_id_count(rows: Seq<ReminderRow>, now: u64, id: u64)
    requires
        forall|i: int, j: int| 0 <= i < j < rows.len() ==> rows[i].id != rows[j].id,
    ensures
        id_count(due(rows, now), id) == if exists|i: int|
            0 <= i < rows.len() && (#[trigger] rows[i]).id == id && rows[i].due_at(now) {
            1nat
        } else {
            0nat
        },
    decreases rows.len(),
{
    if rows.len() > 0 {
        let prefix = rows.drop_last();
        let last = rows.last();
        lemma_due_id_count(prefix, now, id);
        let dp = due(prefix, now);
        let dr = due(rows, now);
        if last.due_at(now) {
            assert(dr =~= dp.push(last.as_reminder()));
            assert(dr.drop_last() =~= dp);
            assert(id_count(dr, id) == id_count(dp, id) + if last.id == id {
                1nat
            } else {
                0nat
            });
        } else {
            assert(dr =~= dp);
        }
        let has_prefix = exists|i: int|
            0 <= i < prefix.len() && (#[trigger] prefix[i]).id == id && prefix[i].due_at(now);
        let has_rows = exists|i: int|
            0 <= i < rows.len() && (#[trigger] rows[i]).id == id && rows[i].due_at(now);
        if has_prefix {
            let i = choose|i: int|
                0 <= i < prefix.len() && (#[trigger] prefix[i]).id == id && prefix[i].due_at(now);
            assert(rows[i].id == id && rows[i].due_at(now));
        }
        if has_rows {
            let i = choose|i: int|
                0 <= i < rows.len() && (#[trigger] rows[i]).id == id && rows[i].due_at(now);
            if i < rows.len() - 1 {
                assert(prefix[i].id == id && prefix[i].due_at(now));
            }
        }
        if last.id == id && has_prefix {
            let i = choose|i: int|
                0 <= i < prefix.len() && (#[trigger] prefix[i]).id == id && prefix[i].due_at(now);
            assert(rows[i].id != rows[rows.len() - 1].id);
            assert(false);
        }
    }
}

/// The durable queue of reminders, keyed by an identifier the ledger
/// assigns in increasing order.
pub struct ReminderLedger {
    rows: Vec<ReminderRow>,
    next_id: u64,
}

impl View for ReminderLedger {
    type V = Seq<ReminderRow>;

    closed spec fn view(&self) -> Seq<ReminderRow> {
        self.rows@
    }
}

impl ReminderLedger {
    /// The identifier the next scheduled reminder will receive.
    pub closed spec fn spec_next_id(&self) -> u64 {
        self.next_id
    }

    /// Identifiers are unique and always below the next one to be assigned.
    pub open spec fn wf(self) -> bool {
        &&& forall|i: int, j: int| 0 <= i < j < self@.len() ==> self@[i].id != self@[j].id
        &&& forall|i: int| 0 <= i < self@.len() ==> (#[trigger] self@[i]).id < self.spec_next_id()
    }

    /// Creates an empty ledger.
    pub fn new() -> (r: Self)
        ensures
            r@ =~= Seq::<ReminderRow>::empty(),
            r.wf(),
            r.spec_next_id() == 1,
    {
        ReminderLedger { rows: Vec::new(), next_id: 1 }
    }

    /// Schedules a reminder: the ledger assigns it the next identifier and
    /// stores it pending.
    pub fn new_reminder(&mut self, new: NewReminder) -> (id: u64)
        requires
            old(self).wf(),
            old(self).spec_next_id() < u64::MAX,
        ensures
            final(self).wf(),
            id == old(self).spec_next_id(),
            final(self).spec_next_id() == old(self).spec_next_id() + 1,
            final(self)@ == old(self)@.push(
                ReminderRow {
                    id: id,
                    timestamp: new.timestamp,
                    message: new.message,
                    user_id: new.user_id,
                    channel_id: new.channel_id,
                    private: new.private,
                    completed: false,
                },
            ),
    {
        let id = self.next_id;
        let row = ReminderRow {
            id: id,
            timestamp: new.timestamp,
            message: new.message,
            user_id: new.user_id,
            channel_id: new.channel_id,
            private: new.private,
            completed: false,
        };
        self.rows.push(row);
        self.next_id = id + 1;
        proof {
            let rows1 = self@;
            assert forall|i: int, j: int| 0 <= i < j < rows1.len() implies rows1[i].id
                != rows1[j].id by {
                if j < rows1.len() - 1 {
                    assert(old(self)@[i].id != old(self)@[j].id);
                } else {
                    assert(old(self)@[i].id < old(self).spec_next_id());
                }
            }
            assert forall|i: int| 0 <= i < rows1.len() implies (#[trigger] rows1[i]).id
                < self.spec_next_id() by {
                if i < rows1.len() - 1 {
                    assert(old(self)@[i].id < old(self).spec_next_id());
                }
            }
        }
        id
    }

    /// Returns every reminder that is still pending and whose fire time is
    /// at or before `now`, in store order.
    pub fn get_expired_reminders(&self, now: u64) -> (r: Vec<Reminder>)
        ensures
            r@ == due(self@, now),
    {
        let mut out: Vec<Reminder> = Vec::new();
        let n = self.rows.len();
        for i in 0..n
            invariant
                n == self@.len(),
                out@ == due(self@.take(i as int), now),
        {
            proof {
                assert(self@.take(i + 1).drop_last() =~= self@.take(i as int));
                assert(self@.take(i + 1).last() == self@[i as int]);
            }
            let row = &self.rows[i];
            if !row.completed && row.timestamp <= now {
                let reminder = Reminder {
                    id: row.id,
                    timestamp: row.timestamp,
                    message: row.message.clone(),
                    user_id: row.user_id,
                    channel_id: row.channel_id,
                    private: row.private,
                };
                out.push(reminder);
                proof {
                    assert(out@ =~= due(self@.take(i + 1), now));
                }
            } else {
                proof {
                    assert(out@ =~= due(self@.take(i + 1), now));
                }
            }
        }
        proof {
            assert(self@.take(n as int) =~= self@);
        }
        out
    }

    /// Marks the row carrying `id` completed; every other field and row is
    /// untouched, and a ledger without the row is left as it is. A completed
    /// row stays completed.
    pub fn set_completed(&mut self, id: u64)
        requires
            old(self).wf(),
        ensures
            final(self).wf(),
            final(self).spec_next_id() == old(self).spec_next_id(),
            final(self)@.len() == old(self)@.len(),
            forall|i: int|
                0 <= i < old(self)@.len() ==> final(self)@[i] == if (#[trigger] old(self)@[i]).id
                    == id {
                    ReminderRow { completed: true, ..old(self)@[i] }
                } else {
                    old(self)@[i]
                },
    {
        let n = self.rows.len();
        for i in 0..n
            invariant
                n == self@.len() == old(self)@.len(),
                self.spec_next_id() == old(self).spec_next_id(),
                forall|j: int|
                    i <= j < old(self)@.len() ==> self@[j] == old(self)@[j],
                forall|j: int|
                    0 <= j < i ==> self@[j] == if (#[trigger] old(self)@[j]).id == id {
                        ReminderRow { completed: true, ..old(self)@[j] }
                    } else {
                        old(self)@[j]
                    },
        {
            if self.rows[i].id == id {
                let row = self.rows[i].clone();
                self.rows.set(i, ReminderRow { completed: true, ..row });
            }
        }
        proof {
            assert forall|i: int, j: int| 0 <= i < j < self@.len() implies self@[i].id
                != self@[j].id by {
                assert(self@[i].id == old(self)@[i].id);
                assert(self@[j].id == old(self)@[j].id);
            }
            assert forall|i: int| 0 <= i < self@.len() implies (#[trigger] self@[i]).id
                < self.spec_next_id() by {
                assert(self@[i].id == old(self)@[i].id);
            }
        }
    }

    /// Applies one delivery outcome from the scheduler loop: a successful
    /// delivery marks the reminder completed, a failed one leaves the ledger
    /// exactly as it was, so the reminder is retried on the next tick.
    pub fn record_delivery(&mut self, id: u64, delivered: bool)
        requires
            old(self).wf(),
        ensures
            final(self).wf(),
            final(self).spec_next_id() == old(self).spec_next_id(),
            !delivered ==> final(self)@ == old(self)@,
            delivered ==> final(self)@.len() == old(self)@.len() && forall|i: int|
                0 <= i < old(self)@.len() ==> final(self)@[i] == if (#[trigger] old(self)@[i]).id
                    == id {
                    ReminderRow { completed: true, ..old(self)@[i] }
                } else {
                    old(self)@[i]
                },
    {
        if delivered {
            self.set_completed(id);
        }
    }
}

/// The relation `set_completed` (or a successful `record_delivery`)
/// establishes between the ledger before and after marking `id` completed.
pub open spec fn completion_step(before: ReminderLedger, after: ReminderLedger, id: u64) -> bool {
    &&& after@.len() == before@.len()
    &&& forall|i: int|
        0 <= i < before@.len() ==> after@[i] == if (#[trigger] before@[i]).id == id {
            ReminderRow { completed: true, ..before@[i] }
        } else {
            before@[i]
        }
}

/// A reminder due on a tick is handed out for delivery exactly once on that
/// tick; once its delivery is recorded as successful, the row is completed
/// and no later tick hands it out again.
pub proof fn lemma_reminder_round_trip(
    before: ReminderLedger,
    after: ReminderLedger,
    i: int,
    now: u64,
    later: u64,
)
    requires
        before.wf(),
        0 <= i < before@.len(),
        before@[i].due_at(now),
        completion_step(before, after, before@[i].id),
    ensures
        id_count(due(before@, now), before@[i].id) == 1,
        after@[i].completed,
        forall|j: int|
            0 <= j < due(after@, later).len() ==> (#[trigger] due(after@, later)[j]).id
                != before@[i].id,
{
    let id = before@[i].id;
    lemma_due_id_count(before@, now, id);
    assert(before@[i].id == id && before@[i].due_at(now));
    assert forall|j: int|
        0 <= j < after@.len() && (#[trigger] after@[j]).id == id implies after@[j].completed by {
        if before@[j].id == id {
        } else {
            assert(after@[j] == before@[j]);
        }
    }
    lemma_due_excludes_completed(after@, later, id);
}

/// A delivery that fails on one tick leaves the row pending and unchanged,
/// and every later tick hands the reminder out again.
pub proof fn lemma_failed_delivery_retried(
    before: ReminderLedger,
    after: ReminderLedger,
    i: int,
    now: u64,
    later: u64,
)
    requires
        before.wf(),
        0 <= i < before@.len(),
        before@[i].due_at(now),
        after@ == before@,
        now <= later,
    ensures
        after@[i] == before@[i],
        !after@[i].completed,
        due(after@, later).contains(before@[i].as_reminder()),
{
    lemma_due_contains(after@, later, i);
}

/// The requested delay, in seconds, of a reminder asked for in days, hours
/// and minutes.
pub fn reminder_offset_seconds(days: u32, hours: u32, minutes: u32) -> (r: u64)
    ensures
        r == days * 86400 + hours * 3600 + minutes * 60,
{
    (days as u64) * 86400 + (hours as u64) * 3600 + (minutes as u64) * 60
}

/// Builds the reminder a user scheduled at `now` with the given delay: it
/// fires once the delay has elapsed, addressed to the user in the channel
/// the request came from.
pub fn build_reminder(
    now: u64,
    days: u32,
    hours: u32,
    minutes: u32,
    message: String,
    user_id: u64,
    channel_id: u64,
) -> (r: NewReminder)
    requires
        now + days * 86400 + hours * 3600 + minutes * 60 <= u64::MAX,
    ensures
        r.timestamp == now + days * 86400 + hours * 3600 + minutes * 60,
        r.message == message,
        r.user_id == user_id,
        r.channel_id == channel_id,
        r.private == false,
{
    let offset = reminder_offset_seconds(days, hours, minutes);
    NewReminder {
        timestamp: now + offset,
        message: message,
        user_id: user_id,
        channel_id: channel_id,
        private: false,
    }
}

impl Clone for ReminderRow {
    fn clone(&self) -> (r: Self)
        ensures
            r == *self,
    {
        ReminderRow {
            id: self.id,
            timestamp: self.timestamp,
            message: self.message.clone(),
            user_id: self.user_id,
            channel_id: self.channel_id,
            private: self.private,
            completed: self.completed,
        }
    }
}

} // verus!
