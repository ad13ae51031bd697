//! The whole ledger as a mathematical object, and the conservation law.
//!
//! An operation sees one loan and one or two day buckets. Conservation
//! speaks of all of them at once: what the totals hold is what the loans
//! that still run owe, plus what lies in the buckets of the days that have
//! passed and that the liquidation sweep has not reached yet. This file
//! states that law on a model of the ledger and proves that every kind of
//! change the operations make keeps it.

use vstd::prelude::*;
use crate::calendar::{is_midnight, next_midnight};
use crate::sums::{
    lemma_sum_add, lemma_sum_agree, lemma_sum_bounds, lemma_sum_nonnegative,
    lemma_sum_one_changed, lemma_sum_single, lemma_sum_zero, sum,
};

verus! {

/// A debt and the collateral held for it.
pub struct Amounts {
    pub borrowed: int,
    pub collateral: int,
}

impl Amounts {
    /// Nothing owed, nothing held.
    pub open spec fn zero() -> Amounts {
        Amounts { borrowed: 0, collateral: 0 }
    }

    /// Whether nothing is owed and nothing is held.
    pub open spec fn is_zero(self) -> bool {
        self.borrowed == 0 && self.collateral == 0
    }

    /// The debt (`debt`) or the collateral.
    pub open spec fn pick(self, debt: bool) -> int {
        if debt {
            self.borrowed
        } else {
            self.collateral
        }
    }

    /// The sum of two amounts.
    pub open spec fn plus(self, other: Amounts) -> Amounts {
        Amounts {
            borrowed: self.borrowed + other.borrowed,
            collateral: self.collateral + other.collateral,
        }
    }

    /// The difference of two amounts.
    pub open spec fn less(self, other: Amounts) -> Amounts {
        Amounts {
            borrowed: self.borrowed - other.borrowed,
            collateral: self.collateral - other.collateral,
        }
    }

    /// Whether neither part is negative.
    pub open spec fn valid(self) -> bool {
        self.borrowed >= 0 && self.collateral >= 0
    }
}

/// One loan: when it ends and what it owes and holds.
pub struct Debt {
    pub end_date: int,
    pub amounts: Amounts,
}

/// The ledger: the totals, the sweep's cursor, every loan, and the bucket of
/// every day, found by the number of the day (its date divided by the length
/// of a day). From `horizon` on no bucket holds anything.
pub struct Book {
    pub totals: Amounts,
    pub cursor: int,
    pub horizon: int,
    pub loans: Seq<Debt>,
    pub days: Map<int, Amounts>,
}

/// The number of the day that begins at `date`.
pub open spec fn day_of(date: int) -> int {
    date / 86400
}

impl Book {
    /// The bucket of day `n`.
    pub open spec fn day(self, n: int) -> Amounts {
        if self.days.dom().contains(n) {
            self.days[n]
        } else {
            Amounts::zero()
        }
    }

    /// What the buckets of the days `from .. to` hold.
    pub open spec fn held_in_days(self, from: int, to: int, debt: bool) -> int {
        sum((to - from) as nat, |t: int| self.day(from + t).pick(debt))
    }

    /// What loan `i` adds to the bucket of `date`.
    pub open spec fn share_on(self, i: int, date: int, debt: bool) -> int {
        if self.loans[i].end_date == date {
            self.loans[i].amounts.pick(debt)
        } else {
            0
        }
    }

    /// What loan `i` owes or holds if it has not run out at `now`.
    pub open spec fn running_share(self, i: int, now: int, debt: bool) -> int {
        if self.loans[i].end_date >= now {
            self.loans[i].amounts.pick(debt)
        } else {
            0
        }
    }

    /// What the first `m` loans that end on `date` owe or hold.
    pub open spec fn owed_on_among(self, m: nat, date: int, debt: bool) -> int {
        sum(m, |i: int| self.share_on(i, date, debt))
    }

    /// What the loans that end on `date` owe or hold.
    pub open spec fn owed_on(self, date: int, debt: bool) -> int {
        self.owed_on_among(self.loans.len(), date, debt)
    }

    /// What the loans that have not run out at `now` owe or hold.
    pub open spec fn owed_by_running(self, now: int, debt: bool) -> int {
        sum(self.loans.len(), |i: int| self.running_share(i, now, debt))
    }

    /// The number of the first day that has not begun before `now`.
    pub open spec fn first_running_day(now: int) -> int {
        if is_midnight(now) {
            day_of(now)
        } else {
            day_of(now) + 1
        }
    }

    /// The number of the first day that the sweep has not reached and that
    /// has not begun before `now`.
    pub open spec fn first_open_day(self, now: int) -> int {
        if day_of(self.cursor) >= Self::first_running_day(now) {
            day_of(self.cursor)
        } else {
            Self::first_running_day(now)
        }
    }

    /// The invariant of the ledger at time `now`.
    ///
    /// The cursor lies on a day boundary, no later than the first midnight
    /// after `now`. No amount is negative, and the buckets of the days the
    /// sweep has handled are empty. A loan that still runs and is not
    /// empty ends on a day boundary that the sweep has not passed and that
    /// lies before the horizon. The totals are what the buckets from the
    /// cursor on hold. The bucket of a day that has not begun before `now`
    /// and that the sweep has not reached holds what the loans that end on
    /// it owe and hold.
    pub open spec fn inv(self, now: int) -> bool {
        &&& is_midnight(self.cursor)
        &&& self.cursor <= next_midnight(now)
        &&& day_of(self.cursor) <= self.horizon
        &&& forall|n: int| #[trigger] self.day(n).valid()
        &&& forall|n: int| n >= self.horizon ==> #[trigger] self.day(n).is_zero()
        &&& forall|n: int| n < day_of(self.cursor) ==> #[trigger] self.day(n).is_zero()
        &&& forall|i: int|
            0 <= i < self.loans.len() ==> (#[trigger] self.loans[i]).amounts.valid()
        &&& forall|i: int|
            0 <= i < self.loans.len() && (#[trigger] self.loans[i]).end_date >= now
                && !self.loans[i].amounts.is_zero() ==> {
                &&& is_midnight(self.loans[i].end_date)
                &&& self.loans[i].end_date >= self.cursor
                &&& day_of(self.loans[i].end_date) < self.horizon
            }
        &&& forall|debt: bool|
            #![trigger self.totals.pick(debt)]
            self.totals.pick(debt) == self.held_in_days(day_of(self.cursor), self.horizon, debt)
        &&& forall|n: int, debt: bool|
            self.first_open_day(now) <= n ==> #[trigger] self.day(n).pick(debt) == self.owed_on(
                n * 86400,
                debt,
            )
    }

    /// Conservation at time `now`: the totals are what the running loans
    /// owe and hold, plus what lies in the buckets of the days from the
    /// cursor up to `now`.
    pub open spec fn conserved(self, now: int, debt: bool) -> bool {
        self.totals.pick(debt) == self.owed_by_running(now, debt) + self.held_in_days(
            day_of(self.cursor),
            self.first_open_day(now),
            debt,
        )
    }
}

impl Book {
    /// The buckets of a range of days, split at a day in between.
    pub proof fn lemma_days_split(self, from: int, mid: int, to: int, debt: bool)
        requires
            from <= mid <= to,
        ensures
            self.held_in_days(from, to, debt) == self.held_in_days(from, mid, debt)
                + self.held_in_days(mid, to, debt),
        decreases to - mid,
    {
        if mid < to {
            self.lemma_days_split(from, mid, to - 1, debt);
        }
    }

    /// Two ledgers whose buckets agree on a range of days hold the same in
    /// them.
    pub proof fn lemma_days_agree(self, other: Book, from: int, to: int, debt: bool)
        requires
            from <= to,
            forall|n: int| from <= n < to ==> self.day(n) == other.day(n),
        ensures
            self.held_in_days(from, to, debt) == other.held_in_days(from, to, debt),
    {
        let f = |t: int| self.day(from + t).pick(debt);
        let g = |t: int| other.day(from + t).pick(debt);
        lemma_sum_agree((to - from) as nat, f, g);
    }

    /// Where the bucket of day `n` changes by `delta` and the others stay,
    /// what a range of days around `n` holds changes by `delta`.
    pub proof fn lemma_day_changed(self, other: Book, from: int, to: int, n: int, delta: Amounts, debt: bool)
        requires
            from <= n < to,
            other.day(n) == self.day(n).plus(delta),
            forall|m: int| from <= m < to && m != n ==> self.day(m) == other.day(m),
        ensures
            other.held_in_days(from, to, debt) == self.held_in_days(from, to, debt) + delta.pick(
                debt,
            ),
    {
        let f = |t: int| self.day(from + t).pick(debt);
        let g = |t: int| other.day(from + t).pick(debt);
        lemma_sum_one_changed((to - from) as nat, f, g, n - from, delta.pick(debt));
    }

    /// Days that hold nothing add nothing.
    pub proof fn lemma_days_empty(self, from: int, to: int, debt: bool)
        requires
            from <= to,
            forall|n: int| from <= n < to ==> (#[trigger] self.day(n)).is_zero(),
        ensures
            self.held_in_days(from, to, debt) == 0,
    {
        let f = |t: int| self.day(from + t).pick(debt);
        lemma_sum_zero((to - from) as nat, f);
    }

    /// No bucket of a range holds more than the range.
    pub proof fn lemma_day_within(self, from: int, to: int, n: int, debt: bool)
        requires
            from <= n < to,
            forall|m: int| (#[trigger] self.day(m)).valid(),
        ensures
            0 <= self.day(n).pick(debt) <= self.held_in_days(from, to, debt),
    {
        let f = |t: int| self.day(from + t).pick(debt);
        lemma_sum_bounds((to - from) as nat, f, n - from);
    }

    /// What loan `i` adds to the buckets of the days `from .. to`: what it
    /// owes or holds if it ends on one of them, else nothing.
    pub open spec fn share_in_days(self, i: int, from: int, to: int, debt: bool) -> int {
        if is_midnight(self.loans[i].end_date) && from <= day_of(self.loans[i].end_date) < to {
            self.loans[i].amounts.pick(debt)
        } else {
            0
        }
    }

    /// Summing one loan over the days of a range finds it on the day it
    /// ends on.
    proof fn lemma_one_loan_over_days(self, i: int, from: int, to: int, debt: bool)
        requires
            from <= to,
        ensures
            sum((to - from) as nat, |t: int| self.share_on(i, (from + t) * 86400, debt))
                == self.share_in_days(i, from, to, debt),
    {
        let f = |t: int| self.share_on(i, (from + t) * 86400, debt);
        let end = self.loans[i].end_date;
        if is_midnight(end) && from <= day_of(end) < to {
            let k = day_of(end) - from;
            lemma_sum_single((to - from) as nat, f, k);
        } else {
            lemma_sum_zero((to - from) as nat, f);
        }
    }

    /// What the first `m` loans owe and hold on the days of a range, summed
    /// day by day, is what they add to those days, summed loan by loan.
    proof fn lemma_loans_over_days(self, m: nat, from: int, to: int, debt: bool)
        requires
            from <= to,
        ensures
            sum((to - from) as nat, |t: int| self.owed_on_among(m, (from + t) * 86400, debt))
                == sum(m, |i: int| self.share_in_days(i, from, to, debt)),
        decreases m,
    {
        let rows = |t: int| self.owed_on_among(m, (from + t) * 86400, debt);
        if m == 0 {
            lemma_sum_zero((to - from) as nat, rows);
        } else {
            let fewer = |t: int| self.owed_on_among((m - 1) as nat, (from + t) * 86400, debt);
            let last = |t: int| self.share_on(m - 1, (from + t) * 86400, debt);
            self.lemma_loans_over_days((m - 1) as nat, from, to, debt);
            self.lemma_one_loan_over_days(m - 1, from, to, debt);
            lemma_sum_add((to - from) as nat, fewer, last, rows);
        }
    }

    /// Conservation follows from the invariant.
    pub proof fn lemma_conservation(self, now: int, debt: bool)
        requires
            self.inv(now),
        ensures
            self.conserved(now, debt),
    {
        let from = day_of(self.cursor);
        let open = self.first_open_day(now);
        let to = if self.horizon >= open {
            self.horizon
        } else {
            open
        };
        // The totals are the buckets from the cursor to the horizon, and
        // beyond the horizon up to `to` nothing is held.
        self.lemma_days_split(from, self.horizon, to, debt);
        self.lemma_days_empty(self.horizon, to, debt);
        self.lemma_days_split(from, open, to, debt);
        // The open days hold what the loans that end on them owe and hold.
        let held = |t: int| self.day(open + t).pick(debt);
        let rows = |t: int| self.owed_on_among(self.loans.len(), (open + t) * 86400, debt);
        lemma_sum_agree((to - open) as nat, held, rows);
        self.lemma_loans_over_days(self.loans.len(), open, to, debt);
        // Loan by loan, that is what the running loans owe and hold.
        let cols = |i: int| self.share_in_days(i, open, to, debt);
        let running = |i: int| self.running_share(i, now, debt);
        lemma_sum_agree(self.loans.len(), cols, running);
    }

    /// Conservation of the debt and of the collateral follows from the
    /// invariant.
    pub proof fn lemma_conserved(self, now: int)
        requires
            self.inv(now),
        ensures
            self.conserved(now, true),
            self.conserved(now, false),
    {
        self.lemma_conservation(now, true);
        self.lemma_conservation(now, false);
    }

    /// The invariant stays true while time passes.
    pub proof fn lemma_time_passes(self, now: int, later: int)
        requires
            self.inv(now),
            now <= later,
        ensures
            self.inv(later),
    {
    }
}

/// The larger of two day numbers.
pub open spec fn later_day(a: int, b: int) -> int {
    if a >= b {
        a
    } else {
        b
    }
}

impl Book {
    /// The ledger after the sweep has handled the day of the cursor: the
    /// bucket of that day is empty, what it held has left the totals, and the
    /// cursor stands on the next day.
    pub open spec fn swept(self) -> Book {
        let n = day_of(self.cursor);
        Book {
            totals: self.totals.less(self.day(n)),
            cursor: self.cursor + 86400,
            horizon: later_day(self.horizon, n + 1),
            days: self.days.insert(n, Amounts::zero()),
            ..self
        }
    }

    /// The ledger after loan `i` changed by `delta`, in the loan, in the
    /// bucket of its last day and in the totals.
    pub open spec fn adjusted(self, i: int, delta: Amounts) -> Book {
        let n = day_of(self.loans[i].end_date);
        Book {
            totals: self.totals.plus(delta),
            horizon: later_day(self.horizon, n + 1),
            loans: self.loans.update(
                i,
                Debt { amounts: self.loans[i].amounts.plus(delta), ..self.loans[i] },
            ),
            days: self.days.insert(n, self.day(n).plus(delta)),
            ..self
        }
    }

    /// The ledger after `debt` was opened in the place of loan `i`.
    pub open spec fn opened(self, i: int, debt: Debt) -> Book {
        let n = day_of(debt.end_date);
        Book {
            totals: self.totals.plus(debt.amounts),
            horizon: later_day(self.horizon, n + 1),
            loans: self.loans.update(i, debt),
            days: self.days.insert(n, self.day(n).plus(debt.amounts)),
            ..self
        }
    }

    /// The ledger after loan `i` was closed: what it owed and held has left
    /// the bucket of its last day and the totals, and the loan is empty.
    pub open spec fn closed(self, i: int) -> Book {
        let n = day_of(self.loans[i].end_date);
        Book {
            totals: self.totals.less(self.loans[i].amounts),
            horizon: later_day(self.horizon, n + 1),
            loans: self.loans.update(i, Debt { end_date: 0, amounts: Amounts::zero() }),
            days: self.days.insert(n, self.day(n).less(self.loans[i].amounts)),
            ..self
        }
    }

    /// The ledger after loan `i` was moved to end on `end_date`.
    pub open spec fn moved(self, i: int, end_date: int) -> Book {
        let from = day_of(self.loans[i].end_date);
        let to = day_of(end_date);
        let amounts = self.loans[i].amounts;
        Book {
            horizon: later_day(later_day(self.horizon, from + 1), to + 1),
            loans: self.loans.update(i, Debt { end_date, ..self.loans[i] }),
            days: self.days.insert(from, self.day(from).less(amounts)).insert(
                to,
                self.day(to).plus(amounts),
            ),
            ..self
        }
    }

    /// Where one loan changes and the others stay, what the loans that end
    /// on a date owe and hold changes by what that loan adds to it.
    proof fn lemma_loan_changed(self, other: Book, i: int, date: int, debt: bool)
        requires
            0 <= i < self.loans.len(),
            other.loans.len() == self.loans.len(),
            forall|j: int| 0 <= j < self.loans.len() && j != i ==> self.loans[j] == other.loans[j],
        ensures
            other.owed_on(date, debt) == self.owed_on(date, debt) - self.share_on(i, date, debt)
                + other.share_on(i, date, debt),
    {
        let f = |j: int| self.share_on(j, date, debt);
        let g = |j: int| other.share_on(j, date, debt);
        lemma_sum_one_changed(self.loans.len(), f, g, i, g(i) - f(i));
    }

    /// Ledgers with the same loans owe and hold the same on every date.
    proof fn lemma_same_loans(self, other: Book, date: int, debt: bool)
        requires
            other.loans == self.loans,
        ensures
            other.owed_on(date, debt) == self.owed_on(date, debt),
    {
        let f = |j: int| self.share_on(j, date, debt);
        let g = |j: int| other.share_on(j, date, debt);
        lemma_sum_agree(self.loans.len(), f, g);
    }

    /// What the loans that end on a date owe and hold is not negative.
    proof fn lemma_owed_valid(self, date: int, debt: bool)
        requires
            forall|i: int| 0 <= i < self.loans.len() ==> (#[trigger] self.loans[i]).amounts.valid(),
        ensures
            self.owed_on(date, debt) >= 0,
    {
        let f = |j: int| self.share_on(j, date, debt);
        lemma_sum_nonnegative(self.loans.len(), f);
    }

    /// What the buckets from the cursor to the horizon hold does not change
    /// when the horizon moves out.
    proof fn lemma_horizon_moves(self, to: int, debt: bool)
        requires
            day_of(self.cursor) <= self.horizon <= to,
            forall|n: int| n >= self.horizon ==> (#[trigger] self.day(n)).is_zero(),
        ensures
            self.held_in_days(day_of(self.cursor), to, debt) == self.held_in_days(
                day_of(self.cursor),
                self.horizon,
                debt,
            ),
    {
        self.lemma_days_split(day_of(self.cursor), self.horizon, to, debt);
        self.lemma_days_empty(self.horizon, to, debt);
    }

    /// The sweep keeps the invariant, and the bucket it empties held no
    /// more than the totals.
    pub proof fn lemma_swept(self, now: int)
        requires
            self.inv(now),
            self.cursor < now,
        ensures
            self.swept().inv(now),
            self.day(day_of(self.cursor)).borrowed <= self.totals.borrowed,
            self.day(day_of(self.cursor)).collateral <= self.totals.collateral,
    {
        let after = self.swept();
        let n = day_of(self.cursor);
        let to = later_day(self.horizon, n + 1);
        assert forall|m: int| #[trigger] after.day(m).valid() by {
            assert(self.day(m).valid());
        }
        assert forall|m: int| m >= after.horizon implies #[trigger] after.day(m).is_zero() by {
            assert(self.day(m).is_zero());
        }
        assert forall|m: int| m < day_of(after.cursor) implies #[trigger] after.day(
            m,
        ).is_zero() by {
            if m != n {
                assert(self.day(m).is_zero());
            }
        }
        assert forall|debt: bool| #![trigger after.totals.pick(debt)]
            after.totals.pick(debt) == after.held_in_days(
                day_of(after.cursor),
                after.horizon,
                debt,
            ) by {
            assert(self.totals.pick(debt) == self.held_in_days(n, self.horizon, debt));
            self.lemma_horizon_moves(to, debt);
            self.lemma_days_split(n, n + 1, to, debt);
            let f = |t: int| self.day(n + t).pick(debt);
            assert(sum(1, f) == sum(0, f) + f(0));
            assert(self.held_in_days(n, n + 1, debt) == self.day(n).pick(debt));
            self.lemma_days_agree(after, n + 1, to, debt);
        }
        assert forall|m: int, debt: bool| after.first_open_day(now) <= m implies #[trigger] after.day(
            m,
        ).pick(debt) == after.owed_on(m * 86400, debt) by {
            assert(self.day(m).pick(debt) == self.owed_on(m * 86400, debt));
            self.lemma_same_loans(after, m * 86400, debt);
        }
        assert(self.totals.pick(true) == self.held_in_days(n, self.horizon, true));
        assert(self.totals.pick(false) == self.held_in_days(n, self.horizon, false));
        self.lemma_horizon_moves(to, true);
        self.lemma_horizon_moves(to, false);
        self.lemma_day_within(n, to, n, true);
        self.lemma_day_within(n, to, n, false);
    }
}

impl Book {
    /// The common ground of every change to one loan: where the loan, the
    /// bucket of one open day and the totals change by the same amounts, and
    /// what the loan adds to every open day changes with its bucket, the
    /// invariant stays true.
    proof fn lemma_rebooked(self, after: Book, now: int, i: int, n: int, delta: Amounts)
        requires
            self.inv(now),
            0 <= i < self.loans.len(),
            after.loans.len() == self.loans.len(),
            forall|j: int| 0 <= j < self.loans.len() && j != i ==> self.loans[j] == after.loans[j],
            after.cursor == self.cursor,
            after.horizon == later_day(self.horizon, n + 1),
            after.days == self.days.insert(n, self.day(n).plus(delta)),
            after.totals == self.totals.plus(delta),
            n >= self.first_open_day(now),
            after.loans[i].amounts.valid(),
            after.loans[i].end_date >= now && !after.loans[i].amounts.is_zero() ==> {
                &&& is_midnight(after.loans[i].end_date)
                &&& after.loans[i].end_date >= self.cursor
                &&& day_of(after.loans[i].end_date) < after.horizon
            },
            forall|m: int, debt: bool|
                m >= self.first_open_day(now) ==> #[trigger] after.share_on(i, m * 86400, debt)
                    - self.share_on(i, m * 86400, debt) == (if m == n {
                    delta.pick(debt)
                } else {
                    0
                }),
        ensures
            after.inv(now),
    {
        let from = day_of(self.cursor);
        let to = after.horizon;
        assert forall|m: int| m != n implies after.day(m) == self.day(m) by {}
        assert forall|m: int, debt: bool| after.first_open_day(now) <= m implies #[trigger] after.day(
            m,
        ).pick(debt) == after.owed_on(m * 86400, debt) by {
            assert(self.day(m).pick(debt) == self.owed_on(m * 86400, debt));
            self.lemma_loan_changed(after, i, m * 86400, debt);
            assert(after.share_on(i, m * 86400, debt) - self.share_on(i, m * 86400, debt) == (if m
                == n {
                delta.pick(debt)
            } else {
                0
            }));
        }
        assert forall|m: int| #[trigger] after.day(m).valid() by {
            assert(self.day(m).valid());
            if m == n {
                after.lemma_owed_valid(n * 86400, true);
                after.lemma_owed_valid(n * 86400, false);
                assert(after.day(n).pick(true) == after.owed_on(n * 86400, true));
                assert(after.day(n).pick(false) == after.owed_on(n * 86400, false));
            }
        }
        assert forall|debt: bool| #![trigger after.totals.pick(debt)]
            after.totals.pick(debt) == after.held_in_days(
                day_of(after.cursor),
                after.horizon,
                debt,
            ) by {
            assert(self.totals.pick(debt) == self.held_in_days(from, self.horizon, debt));
            self.lemma_horizon_moves(to, debt);
            self.lemma_day_changed(after, from, to, n, delta, debt);
        }
    }

    /// A change of a running loan keeps the invariant. The loan ends on a
    /// day boundary that the sweep has not passed, and no amount of it turns
    /// negative.
    pub proof fn lemma_adjusted(self, now: int, i: int, delta: Amounts)
        requires
            self.inv(now),
            0 <= i < self.loans.len(),
            self.loans[i].end_date >= now,
            is_midnight(self.loans[i].end_date),
            self.loans[i].end_date >= self.cursor,
            self.loans[i].amounts.plus(delta).valid(),
        ensures
            self.adjusted(i, delta).inv(now),
    {
        let after = self.adjusted(i, delta);
        let end = self.loans[i].end_date;
        let n = day_of(end);
        self.lemma_rebooked(after, now, i, n, delta);
    }

    /// Opening a loan in the place of one that has run out or is empty
    /// keeps the invariant. The new loan ends on a day boundary, no earlier
    /// than the first midnight after `now`.
    pub proof fn lemma_opened(self, now: int, i: int, debt: Debt)
        requires
            self.inv(now),
            0 <= i < self.loans.len(),
            self.loans[i].end_date < now || self.loans[i].amounts.is_zero(),
            is_midnight(debt.end_date),
            debt.end_date >= next_midnight(now),
            debt.amounts.valid(),
        ensures
            self.opened(i, debt).inv(now),
    {
        let after = self.opened(i, debt);
        let n = day_of(debt.end_date);
        self.lemma_rebooked(after, now, i, n, debt.amounts);
    }

    /// Closing a running loan keeps the invariant, and the bucket of its
    /// last day and the totals held no less than the loan.
    pub proof fn lemma_closed(self, now: int, i: int)
        requires
            self.inv(now),
            0 <= i < self.loans.len(),
            self.loans[i].end_date >= now,
            is_midnight(self.loans[i].end_date),
            self.loans[i].end_date >= self.cursor,
        ensures
            self.closed(i).inv(now),
            self.closed(i).day(day_of(self.loans[i].end_date)).valid(),
            self.closed(i).totals.valid(),
    {
        let after = self.closed(i);
        let end = self.loans[i].end_date;
        let n = day_of(end);
        let delta = Amounts::zero().less(self.loans[i].amounts);
        self.lemma_rebooked(after, now, i, n, delta);
        after.lemma_totals_valid(now);
    }

    /// The totals of a ledger that keeps the invariant are not negative.
    pub proof fn lemma_totals_valid(self, now: int)
        requires
            self.inv(now),
        ensures
            self.totals.valid(),
    {
        let f = |t: int| self.day(day_of(self.cursor) + t).pick(true);
        let g = |t: int| self.day(day_of(self.cursor) + t).pick(false);
        let n = (self.horizon - day_of(self.cursor)) as nat;
        assert forall|t: int| 0 <= t < n implies #[trigger] f(t) >= 0 by {
            assert(self.day(day_of(self.cursor) + t).valid());
        }
        assert forall|t: int| 0 <= t < n implies #[trigger] g(t) >= 0 by {
            assert(self.day(day_of(self.cursor) + t).valid());
        }
        lemma_sum_nonnegative(n, f);
        lemma_sum_nonnegative(n, g);
        assert(self.totals.pick(true) == self.held_in_days(day_of(self.cursor), self.horizon, true));
        assert(self.totals.pick(false) == self.held_in_days(
            day_of(self.cursor),
            self.horizon,
            false,
        ));
    }

    /// Moving a running loan to a later day keeps the invariant.
    pub proof fn lemma_moved(self, now: int, i: int, end_date: int)
        requires
            self.inv(now),
            0 <= i < self.loans.len(),
            self.loans[i].end_date >= now,
            is_midnight(self.loans[i].end_date),
            self.loans[i].end_date >= self.cursor,
            is_midnight(end_date),
            end_date > self.loans[i].end_date,
            end_date >= next_midnight(now),
        ensures
            self.moved(i, end_date).inv(now),
            self.moved(i, end_date).day(day_of(self.loans[i].end_date)).valid(),
    {
        let amounts = self.loans[i].amounts;
        let closed = self.closed(i);
        let moved = self.moved(i, end_date);
        self.lemma_closed(now, i);
        closed.lemma_opened(now, i, Debt { end_date, amounts });
        let reopened = closed.opened(i, Debt { end_date, amounts });
        assert(reopened.loans =~= moved.loans);
    }
}

impl Book {
    /// The ledger without loans or buckets, the sweep standing on `cursor`,
    /// with room for `loans` loans.
    pub open spec fn empty(cursor: int, loans: nat) -> Book {
        Book {
            totals: Amounts::zero(),
            cursor,
            horizon: day_of(cursor),
            loans: Seq::new(loans, |i: int| Debt { end_date: 0, amounts: Amounts::zero() }),
            days: Map::empty(),
        }
    }

    /// The empty ledger keeps the invariant: this is where every ledger
    /// begins.
    pub proof fn lemma_empty(cursor: int, loans: nat, now: int)
        requires
            is_midnight(cursor),
            cursor <= next_midnight(now),
        ensures
            Self::empty(cursor, loans).inv(now),
    {
        let book = Self::empty(cursor, loans);
        assert forall|n: int, debt: bool| book.first_open_day(now) <= n implies #[trigger] book.day(
            n,
        ).pick(debt) == book.owed_on(n * 86400, debt) by {
            let f = |i: int| book.share_on(i, n * 86400, debt);
            assert forall|i: int| 0 <= i < book.loans.len() implies #[trigger] f(i) == 0 by {}
            lemma_sum_zero(book.loans.len(), f);
        }
    }
}

impl Book {
    /// A running loan holds no more than the bucket of its last day, and
    /// that bucket no more than the totals.
    pub proof fn lemma_loan_within(self, now: int, i: int, debt: bool)
        requires
            self.inv(now),
            0 <= i < self.loans.len(),
            self.loans[i].end_date >= now,
            is_midnight(self.loans[i].end_date),
            self.loans[i].end_date >= self.cursor,
        ensures
            0 <= self.loans[i].amounts.pick(debt) <= self.day(
                day_of(self.loans[i].end_date),
            ).pick(debt) <= self.totals.pick(debt),
    {
        let end = self.loans[i].end_date;
        let n = day_of(end);
        let f = |j: int| self.share_on(j, n * 86400, debt);
        lemma_sum_bounds(self.loans.len(), f, i);
        if n < self.horizon {
            self.lemma_day_within(day_of(self.cursor), self.horizon, n, debt);
        } else {
            assert(self.day(n).is_zero());
            self.lemma_totals_valid(now);
        }
    }
}

} // verus!
