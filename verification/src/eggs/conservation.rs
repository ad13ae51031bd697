//! Conservation: the totals of the state are what the loans and the day
//! buckets hold, before and after every operation.
//!
//! The ledger as a whole is a [`Book`]. An operation is handed some of its
//! records: the state, one loan, one or two buckets. The lemmas here take a
//! book that keeps its invariant and whose records are those handed to the
//! operation, and show that the book with the records the operation leaves
//! keeps the invariant too. [`Book::lemma_conservation`] turns the invariant
//! into the sum it stands for.

use vstd::prelude::*;
use crate::address::Address;
use crate::book::{day_of, later_day, Amounts, Book, Debt};
use crate::calendar::{is_midnight, next_midnight, term_end};
use crate::eggs::admin::is_initial;
use crate::eggs::context::{LoanOperation, Trade};
use crate::eggs::position::{
    collateral_removed, loan_prolonged, position_closed, position_flash_closed, repaid,
};
use crate::eggs::trading::{bought, sold};
use crate::eggs::lending::{borrowed, borrowed_more, leveraged};
use crate::eggs::liquidation::swept_through;
use crate::eggs::states::{DailyLoanData, EggsState, Loan};
use crate::eggs::utils::{loan_created, loans_added, loans_removed, sweep};

verus! {

/// The totals of a state.
pub open spec fn totals_of(state: EggsState) -> Amounts {
    Amounts { borrowed: state.total_borrowed as int, collateral: state.total_collateral as int }
}

/// What a bucket holds.
pub open spec fn amounts_of(daily: DailyLoanData) -> Amounts {
    Amounts { borrowed: daily.borrowed as int, collateral: daily.collateral as int }
}

/// A loan as the book sees it.
pub open spec fn debt_of(loan: Loan) -> Debt {
    Debt {
        end_date: loan.end_date as int,
        amounts: Amounts { borrowed: loan.borrowed as int, collateral: loan.collateral as int },
    }
}

/// Whether `state` is the state of the book.
pub open spec fn state_is(book: Book, state: EggsState) -> bool {
    book.totals == totals_of(state) && book.cursor == state.last_liquidation_date
}

/// Whether `loan` is loan `i` of the book.
pub open spec fn loan_is(book: Book, i: int, loan: Loan) -> bool {
    0 <= i < book.loans.len() && book.loans[i] == debt_of(loan)
}

/// Whether `daily` is the bucket that the book keeps for `date`: it holds
/// what the book holds for that day, and it carries that date unless it is
/// empty.
pub open spec fn bucket_is(book: Book, daily: DailyLoanData, date: int) -> bool {
    is_midnight(date) && daily.serves(date) && book.day(day_of(date)) == amounts_of(daily)
}

/// The book with the state written back.
pub open spec fn with_state(book: Book, state: EggsState) -> Book {
    Book { totals: totals_of(state), cursor: state.last_liquidation_date as int, ..book }
}

/// The book with the bucket of `date` written back.
pub open spec fn with_bucket(book: Book, date: int, daily: DailyLoanData) -> Book {
    Book {
        horizon: later_day(book.horizon, day_of(date) + 1),
        days: book.days.insert(day_of(date), amounts_of(daily)),
        ..book
    }
}

/// The book with loan `i` written back.
pub open spec fn with_loan(book: Book, i: int, loan: Loan) -> Book {
    Book { loans: book.loans.update(i, debt_of(loan)), ..book }
}

/// The book after one step of the sweep at time `now` left `state` and
/// `daily` behind. While the cursor is not in the past the book stays as it
/// is.
pub open spec fn after_sweep(book: Book, now: i64, state: EggsState, daily: DailyLoanData) -> Book {
    if book.cursor < now {
        with_bucket(with_state(book, state), book.cursor, daily)
    } else {
        book
    }
}

/// The step of the sweep keeps the invariant.
pub proof fn lemma_sweep_conserves(
    book: Book,
    state: EggsState,
    daily: DailyLoanData,
    escrow: u64,
    now: i64,
)
    requires
        book.inv(now as int),
        state_is(book, state),
        state.last_liquidation_date < now ==> bucket_is(
            book,
            daily,
            state.last_liquidation_date as int,
        ),
        sweep(state, daily, escrow, now) is Ok,
    ensures
        ({
            let swept = sweep(state, daily, escrow, now)->Ok_0;
            let after = after_sweep(book, now, swept.state, swept.daily);
            &&& after.inv(now as int)
            &&& state_is(after, swept.state)
            &&& after.loans == book.loans
            &&& forall|n: int| n != day_of(book.cursor) ==> after.day(n) == book.day(n)
            &&& swept.state.last_liquidation_date <= next_midnight(now as int)
        }),
{
    if book.cursor < now {
        book.lemma_swept(now as int);
    }
}

/// The book with the state, loan `i` and the bucket of `date` written back.
pub open spec fn written(
    book: Book,
    i: int,
    date: int,
    state: EggsState,
    loan: Loan,
    daily: DailyLoanData,
) -> Book {
    with_loan(with_bucket(with_state(book, state), date, daily), i, loan)
}

/// A change of a running loan by `delta`, made alike in the loan, in the
/// bucket of its last day and in the totals, keeps the invariant.
pub proof fn lemma_change_conserves(
    book: Book,
    i: int,
    now: i64,
    loan: Loan,
    state: EggsState,
    changed_loan: Loan,
    daily: DailyLoanData,
    delta: Amounts,
)
    requires
        book.inv(now as int),
        loan_is(book, i, loan),
        loan.borrowed > 0,
        !loan.expired_at(now as int),
        book.cursor == state.last_liquidation_date,
        totals_of(state) == book.totals.plus(delta),
        amounts_of(daily) == book.day(day_of(loan.end_date as int)).plus(delta),
        debt_of(changed_loan) == (Debt {
            end_date: loan.end_date as int,
            amounts: debt_of(loan).amounts.plus(delta),
        }),
    ensures
        written(book, i, loan.end_date as int, state, changed_loan, daily).inv(now as int),
{
    book.lemma_adjusted(now as int, i, delta);
}

/// Opening a loan in the place of one that has run out or is empty keeps
/// the invariant.
pub proof fn lemma_creation_conserves(
    book: Book,
    i: int,
    now: i64,
    loan: Loan,
    state: EggsState,
    daily: DailyLoanData,
    end_date: i64,
    collateral: u64,
    borrowed: u64,
    number_of_days: u64,
    user: Address,
)
    requires
        book.inv(now as int),
        state_is(book, state),
        loan_is(book, i, loan),
        loan.wf(),
        loan.expired_at(now as int) || loan.borrowed == 0,
        bucket_is(book, daily, end_date as int),
        end_date >= next_midnight(now as int),
        loan_created(state, daily, end_date, collateral, borrowed, number_of_days, user) is Ok,
    ensures
        ({
            let (entered, opened, day) = loan_created(
                state,
                daily,
                end_date,
                collateral,
                borrowed,
                number_of_days,
                user,
            )->Ok_0;
            written(book, i, end_date as int, entered, opened, day).inv(now as int)
        }),
{
    let (entered, opened, day) = loan_created(
        state,
        daily,
        end_date,
        collateral,
        borrowed,
        number_of_days,
        user,
    )->Ok_0;
    let debt = debt_of(opened);
    book.lemma_opened(now as int, i, debt);
}

/// Closing a running loan keeps the invariant, and nothing falls below
/// zero on the way.
pub proof fn lemma_closing_conserves(
    book: Book,
    i: int,
    now: i64,
    loan: Loan,
    state: EggsState,
    daily: DailyLoanData,
)
    requires
        book.inv(now as int),
        state_is(book, state),
        loan_is(book, i, loan),
        loan.borrowed > 0,
        !loan.expired_at(now as int),
        daily.date == loan.end_date,
        book.day(day_of(loan.end_date as int)) == amounts_of(daily),
    ensures
        ({
            let (removed, day) = loans_removed(state, daily, loan.borrowed, loan.collateral);
            &&& written(book, i, loan.end_date as int, removed, loan.cleared(), day).inv(now as int)
            &&& totals_of(removed) == totals_of(state).less(debt_of(loan).amounts)
            &&& amounts_of(day) == amounts_of(daily).less(debt_of(loan).amounts)
        }),
{
    book.lemma_closed(now as int, i);
}

/// Taking part of what a running loan owes or holds out of the loan, the
/// bucket of its last day and the totals keeps the invariant, and nothing
/// falls below zero on the way.
pub proof fn lemma_removal_conserves(
    book: Book,
    i: int,
    now: i64,
    loan: Loan,
    state: EggsState,
    daily: DailyLoanData,
    borrowed: u64,
    collateral: u64,
)
    requires
        book.inv(now as int),
        state_is(book, state),
        loan_is(book, i, loan),
        loan.borrowed > 0,
        !loan.expired_at(now as int),
        daily.date == loan.end_date,
        book.day(day_of(loan.end_date as int)) == amounts_of(daily),
        borrowed <= loan.borrowed,
        collateral <= loan.collateral,
    ensures
        ({
            let (removed, day) = loans_removed(state, daily, borrowed, collateral);
            let left = Loan {
                borrowed: (loan.borrowed - borrowed) as u64,
                collateral: (loan.collateral - collateral) as u64,
                ..loan
            };
            written(book, i, loan.end_date as int, removed, left, day).inv(now as int)
        }),
{
    let (removed, day) = loans_removed(state, daily, borrowed, collateral);
    let left = Loan {
        borrowed: (loan.borrowed - borrowed) as u64,
        collateral: (loan.collateral - collateral) as u64,
        ..loan
    };
    let delta = Amounts { borrowed: -(borrowed as int), collateral: -(collateral as int) };
    book.lemma_loan_within(now as int, i, true);
    book.lemma_loan_within(now as int, i, false);
    lemma_change_conserves(book, i, now, loan, removed, left, day, delta);
}

/// Entering more debt and collateral of a running loan in the loan, the
/// bucket of its last day and the totals keeps the invariant.
pub proof fn lemma_addition_conserves(
    book: Book,
    i: int,
    now: i64,
    loan: Loan,
    state: EggsState,
    daily: DailyLoanData,
    borrowed: u64,
    collateral: u64,
)
    requires
        book.inv(now as int),
        state_is(book, state),
        loan_is(book, i, loan),
        loan.borrowed > 0,
        !loan.expired_at(now as int),
        daily.date == loan.end_date,
        book.day(day_of(loan.end_date as int)) == amounts_of(daily),
        loan.borrowed + borrowed <= u64::MAX,
        loan.collateral + collateral <= u64::MAX,
        loans_added(state, daily, borrowed, collateral) is Some,
    ensures
        ({
            let (entered, day) = loans_added(state, daily, borrowed, collateral)->Some_0;
            let grown = Loan {
                borrowed: (loan.borrowed + borrowed) as u64,
                collateral: (loan.collateral + collateral) as u64,
                ..loan
            };
            written(book, i, loan.end_date as int, entered, grown, day).inv(now as int)
        }),
{
    let (entered, day) = loans_added(state, daily, borrowed, collateral)->Some_0;
    let grown = Loan {
        borrowed: (loan.borrowed + borrowed) as u64,
        collateral: (loan.collateral + collateral) as u64,
        ..loan
    };
    let delta = Amounts { borrowed: borrowed as int, collateral: collateral as int };
    lemma_change_conserves(book, i, now, loan, entered, grown, day, delta);
}

/// Whether the records of `ctx` are those of the book: its state, loan `i`,
/// the bucket of `date`, and, where the operation sweeps and the cursor is
/// in the past, the bucket of the cursor's day.
pub open spec fn reads(book: Book, i: int, date: int, now: i64, ctx: LoanOperation, sweeps: bool) -> bool {
    &&& state_is(book, ctx.state)
    &&& loan_is(book, i, ctx.loan)
    &&& bucket_is(book, ctx.daily_loan_data, date)
    &&& sweeps && ctx.state.last_liquidation_date < now ==> bucket_is(
        book,
        ctx.liquidation_data,
        ctx.state.last_liquidation_date as int,
    )
}

/// The book with the records written back that an operation on loan `i`
/// and the bucket of `date` has left in `after`.
pub open spec fn ledger_after(
    book: Book,
    i: int,
    date: int,
    now: i64,
    after: LoanOperation,
    sweeps: bool,
) -> Book {
    written(
        if sweeps {
            after_sweep(book, now, after.state, after.liquidation_data)
        } else {
            book
        },
        i,
        date,
        after.state,
        after.loan,
        after.daily_loan_data,
    )
}

/// The sweep at the head of an operation on a loan: the book it leaves
/// keeps the invariant, and still holds the loan and the bucket of `date`.
proof fn lemma_head_sweep(book: Book, i: int, date: int, now: i64, ctx: LoanOperation)
    requires
        book.inv(now as int),
        reads(book, i, date, now, ctx, true),
        date >= now,
        sweep(ctx.state, ctx.liquidation_data, ctx.escrow_token_amount, now) is Ok,
    ensures
        ({
            let swept = sweep(ctx.state, ctx.liquidation_data, ctx.escrow_token_amount, now)->Ok_0;
            let after = after_sweep(book, now, swept.state, swept.daily);
            &&& after.inv(now as int)
            &&& state_is(after, swept.state)
            &&& loan_is(after, i, ctx.loan)
            &&& bucket_is(after, ctx.daily_loan_data, date)
        }),
{
    lemma_sweep_conserves(book, ctx.state, ctx.liquidation_data, ctx.escrow_token_amount, now);
}

/// Conservation through `borrow`: the book with the records that a
/// successful call leaves keeps the invariant, and the loan it opens owes
/// something.
pub proof fn lemma_borrow_conserves(
    book: Book,
    i: int,
    ctx: LoanOperation,
    now: i64,
    sol: u64,
    number_of_days: u64,
)
    requires
        book.inv(now as int),
        reads(book, i, term_end(now as int, number_of_days as int), now, ctx, true),
        ctx.loan.wf(),
        borrowed(ctx, now, sol, number_of_days) is Ok,
    ensures
        ({
            let after = borrowed(ctx, now, sol, number_of_days)->Ok_0.0;
            &&& ledger_after(
                book,
                i,
                term_end(now as int, number_of_days as int),
                now,
                after,
                true,
            ).inv(now as int)
            &&& after.loan.borrowed > 0
        }),
{
    let date = term_end(now as int, number_of_days as int);
    let after = borrowed(ctx, now, sol, number_of_days)->Ok_0.0;
    let swept = sweep(ctx.state, ctx.liquidation_data, ctx.escrow_token_amount, now)->Ok_0;
    let book1 = after_sweep(book, now, swept.state, swept.daily);
    lemma_head_sweep(book, i, date, now, ctx);
    let user_eggs = after.loan.collateral;
    let loaned = after.loan.borrowed;
    lemma_creation_conserves(
        book1,
        i,
        now,
        ctx.loan,
        swept.state,
        ctx.daily_loan_data,
        date as i64,
        user_eggs,
        loaned,
        number_of_days,
        ctx.authority,
    );
}

/// Conservation through `leverage`: the book with the records that a
/// successful call leaves keeps the invariant, and the loan it opens owes
/// something.
pub proof fn lemma_leverage_conserves(
    book: Book,
    i: int,
    ctx: LoanOperation,
    now: i64,
    sol: u64,
    number_of_days: u64,
)
    requires
        book.inv(now as int),
        reads(book, i, term_end(now as int, number_of_days as int), now, ctx, true),
        ctx.loan.wf(),
        ctx.state.wf(),
        leveraged(ctx, now, sol, number_of_days) is Ok,
    ensures
        ({
            let after = leveraged(ctx, now, sol, number_of_days)->Ok_0.0;
            &&& ledger_after(
                book,
                i,
                term_end(now as int, number_of_days as int),
                now,
                after,
                true,
            ).inv(now as int)
            &&& after.loan.borrowed > 0
        }),
{
    let date = term_end(now as int, number_of_days as int);
    let after = leveraged(ctx, now, sol, number_of_days)->Ok_0.0;
    let swept = sweep(ctx.state, ctx.liquidation_data, ctx.escrow_token_amount, now)->Ok_0;
    let book1 = after_sweep(book, now, swept.state, swept.daily);
    lemma_head_sweep(book, i, date, now, ctx);
    let minted = EggsState {
        total_minted: (swept.state.total_minted + after.loan.collateral) as u64,
        ..swept.state
    };
    lemma_creation_conserves(
        book1,
        i,
        now,
        ctx.loan,
        minted,
        ctx.daily_loan_data,
        date as i64,
        after.loan.collateral,
        after.loan.borrowed,
        number_of_days,
        ctx.authority,
    );
    crate::eggs::utils::lemma_interest(sol, number_of_days);
    crate::math::lemma_mul_div_monotonic_right(
        sol as int,
        swept.state.buy_fee_leverage as int,
        25,
        1000,
    );
}

/// Conservation through `borrow_more` on a loan that owes something.
pub proof fn lemma_borrow_more_conserves(book: Book, i: int, ctx: LoanOperation, now: i64, sol: u64)
    requires
        book.inv(now as int),
        reads(book, i, ctx.loan.end_date as int, now, ctx, true),
        ctx.loan.borrowed > 0,
        borrowed_more(ctx, now, sol) is Ok,
    ensures
        ({
            let after = borrowed_more(ctx, now, sol)->Ok_0.0;
            &&& ledger_after(book, i, ctx.loan.end_date as int, now, after, true).inv(now as int)
            &&& after.loan.borrowed > 0
        }),
{
    let date = ctx.loan.end_date as int;
    let after = borrowed_more(ctx, now, sol)->Ok_0.0;
    let swept = sweep(ctx.state, ctx.liquidation_data, ctx.escrow_token_amount, now)->Ok_0;
    let book1 = after_sweep(book, now, swept.state, swept.daily);
    lemma_head_sweep(book, i, date, now, ctx);
    lemma_addition_conserves(
        book1,
        i,
        now,
        ctx.loan,
        swept.state,
        ctx.daily_loan_data,
        (after.loan.borrowed - ctx.loan.borrowed) as u64,
        (after.loan.collateral - ctx.loan.collateral) as u64,
    );
}

/// Conservation through `remove_collateral` on a loan that owes something.
pub proof fn lemma_remove_collateral_conserves(
    book: Book,
    i: int,
    ctx: LoanOperation,
    now: i64,
    amount: u64,
)
    requires
        book.inv(now as int),
        reads(book, i, ctx.loan.end_date as int, now, ctx, true),
        ctx.loan.borrowed > 0,
        collateral_removed(ctx, now, amount) is Ok,
    ensures
        ({
            let after = collateral_removed(ctx, now, amount)->Ok_0.0;
            &&& ledger_after(book, i, ctx.loan.end_date as int, now, after, true).inv(now as int)
            &&& after.loan.borrowed > 0
        }),
{
    let date = ctx.loan.end_date as int;
    let swept = sweep(ctx.state, ctx.liquidation_data, ctx.escrow_token_amount, now)->Ok_0;
    let book1 = after_sweep(book, now, swept.state, swept.daily);
    lemma_head_sweep(book, i, date, now, ctx);
    lemma_removal_conserves(book1, i, now, ctx.loan, swept.state, ctx.daily_loan_data, 0, amount);
}

/// Conservation through `repay`.
pub proof fn lemma_repay_conserves(book: Book, i: int, ctx: LoanOperation, now: i64, repay_amount: u64)
    requires
        book.inv(now as int),
        reads(book, i, ctx.loan.end_date as int, now, ctx, false),
        repaid(ctx, now, repay_amount) is Ok,
    ensures
        ({
            let after = repaid(ctx, now, repay_amount)->Ok_0.0;
            &&& ledger_after(book, i, ctx.loan.end_date as int, now, after, false).inv(now as int)
            &&& after.loan.borrowed > 0
        }),
{
    lemma_removal_conserves(
        book,
        i,
        now,
        ctx.loan,
        ctx.state,
        ctx.daily_loan_data,
        repay_amount,
        0,
    );
}

/// Conservation through `close_position` on a loan that owes something.
pub proof fn lemma_close_position_conserves(
    book: Book,
    i: int,
    ctx: LoanOperation,
    now: i64,
    repay_amount: u64,
)
    requires
        book.inv(now as int),
        reads(book, i, ctx.loan.end_date as int, now, ctx, false),
        ctx.loan.borrowed > 0,
        position_closed(ctx, now, repay_amount) is Ok,
    ensures
        ({
            let after = position_closed(ctx, now, repay_amount)->Ok_0.0;
            &&& ledger_after(book, i, ctx.loan.end_date as int, now, after, false).inv(now as int)
            &&& after.loan.wf()
        }),
{
    lemma_closing_conserves(book, i, now, ctx.loan, ctx.state, ctx.daily_loan_data);
}

/// Conservation through `flash_close_position` on a loan that owes
/// something.
pub proof fn lemma_flash_close_position_conserves(book: Book, i: int, ctx: LoanOperation, now: i64)
    requires
        book.inv(now as int),
        reads(book, i, ctx.loan.end_date as int, now, ctx, true),
        ctx.loan.borrowed > 0,
        position_flash_closed(ctx, now) is Ok,
    ensures
        ({
            let after = position_flash_closed(ctx, now)->Ok_0.0;
            &&& ledger_after(book, i, ctx.loan.end_date as int, now, after, true).inv(now as int)
            &&& after.loan.wf()
        }),
{
    let date = ctx.loan.end_date as int;
    let swept = sweep(ctx.state, ctx.liquidation_data, ctx.escrow_token_amount, now)->Ok_0;
    let book1 = after_sweep(book, now, swept.state, swept.daily);
    lemma_head_sweep(book, i, date, now, ctx);
    let burned = EggsState {
        total_minted: (swept.state.total_minted - ctx.loan.collateral) as u64,
        ..swept.state
    };
    lemma_closing_conserves(book1, i, now, ctx.loan, burned, ctx.daily_loan_data);
}

/// Conservation through `extend_loan` on a loan that owes something. The
/// book is handed the bucket of the day the loan ends on and that of the day
/// it will end on, and both are written back.
pub proof fn lemma_extend_loan_conserves(
    book: Book,
    i: int,
    ctx: LoanOperation,
    new_daily: DailyLoanData,
    now: i64,
    number_of_days: u64,
    payment: u64,
)
    requires
        book.inv(now as int),
        reads(book, i, ctx.loan.end_date as int, now, ctx, false),
        bucket_is(book, new_daily, ctx.loan.end_date + number_of_days * 86400),
        ctx.loan.borrowed > 0,
        loan_prolonged(ctx, new_daily, now, number_of_days, payment) is Ok,
    ensures
        ({
            let (after, new_day, _) = loan_prolonged(
                ctx,
                new_daily,
                now,
                number_of_days,
                payment,
            )->Ok_0;
            &&& with_bucket(
                ledger_after(book, i, ctx.loan.end_date as int, now, after, false),
                after.loan.end_date as int,
                new_day,
            ).inv(now as int)
            &&& after.loan.borrowed > 0
        }),
{
    let (after, new_day, _) = loan_prolonged(ctx, new_daily, now, number_of_days, payment)->Ok_0;
    let new_end = after.loan.end_date as int;
    book.lemma_loan_within(now as int, i, true);
    book.lemma_loan_within(now as int, i, false);
    book.lemma_moved(now as int, i, new_end);
}

/// Conservation through `buy`: the sweep at its head is all that touches
/// the ledger.
pub proof fn lemma_buy_conserves(book: Book, ctx: Trade, now: i64, amount: u64)
    requires
        book.inv(now as int),
        state_is(book, ctx.state),
        ctx.state.last_liquidation_date < now ==> bucket_is(
            book,
            ctx.liquidation_data,
            ctx.state.last_liquidation_date as int,
        ),
        bought(ctx, now, amount) is Ok,
    ensures
        ({
            let after = bought(ctx, now, amount)->Ok_0.0;
            after_sweep(book, now, after.state, after.liquidation_data).inv(now as int)
        }),
{
    lemma_sweep_conserves(book, ctx.state, ctx.liquidation_data, ctx.escrow_token_amount, now);
}

/// Conservation through `sell`: the sweep at its head is all that touches
/// the ledger.
pub proof fn lemma_sell_conserves(book: Book, ctx: Trade, now: i64, eggs_amount: u64)
    requires
        book.inv(now as int),
        state_is(book, ctx.state),
        ctx.state.last_liquidation_date < now ==> bucket_is(
            book,
            ctx.liquidation_data,
            ctx.state.last_liquidation_date as int,
        ),
        sold(ctx, now, eggs_amount) is Ok,
    ensures
        ({
            let after = sold(ctx, now, eggs_amount)->Ok_0.0;
            after_sweep(book, now, after.state, after.liquidation_data).inv(now as int)
        }),
{
    lemma_sweep_conserves(book, ctx.state, ctx.liquidation_data, ctx.escrow_token_amount, now);
}

/// The book after a sweep over several days has run over the buckets from
/// index `from` on.
pub open spec fn after_sweeps(
    book: Book,
    now: i64,
    state: EggsState,
    daily: Seq<DailyLoanData>,
    escrow: u64,
    from: int,
) -> Book
    decreases daily.len() - from,
{
    if from < 0 || from >= daily.len() || state.last_liquidation_date >= now {
        book
    } else {
        match sweep(state, daily[from], escrow, now) {
            Err(_) => book,
            Ok(step) => after_sweeps(
                after_sweep(book, now, step.state, step.daily),
                now,
                step.state,
                daily.update(from, step.daily),
                step.escrow,
                from + 1,
            ),
        }
    }
}

/// Conservation through `liquidate_loans`: where the buckets handed in are
/// those of the days from the cursor on, one after the other, the book
/// keeps the invariant through the whole sweep.
pub proof fn lemma_liquidate_loans_conserves(
    book: Book,
    state: EggsState,
    daily: Seq<DailyLoanData>,
    escrow: u64,
    now: i64,
    from: int,
)
    requires
        book.inv(now as int),
        state_is(book, state),
        0 <= from,
        forall|k: int|
            from <= k < daily.len() ==> bucket_is(
                book,
                #[trigger] daily[k],
                state.last_liquidation_date + (k - from) * 86400,
            ),
        swept_through(state, daily, escrow, now, from) is Ok,
    ensures
        after_sweeps(book, now, state, daily, escrow, from).inv(now as int),
        state_is(
            after_sweeps(book, now, state, daily, escrow, from),
            swept_through(state, daily, escrow, now, from)->Ok_0.state,
        ),
    decreases daily.len() - from,
{
    if from < daily.len() && state.last_liquidation_date < now {
        let step = sweep(state, daily[from], escrow, now)->Ok_0;
        let book1 = after_sweep(book, now, step.state, step.daily);
        let daily1 = daily.update(from, step.daily);
        lemma_sweep_conserves(book, state, daily[from], escrow, now);
        lemma_liquidate_loans_conserves(book1, step.state, daily1, step.escrow, now, from + 1);
    }
}

/// Conservation begins with `initialize`: the state it makes is that of the
/// empty book, which keeps the invariant.
pub proof fn lemma_initialize_conserves(
    state: EggsState,
    authority: Address,
    mint: Address,
    bump: u8,
    now: i64,
    loans: nat,
)
    requires
        is_initial(state, authority, mint, bump, now),
    ensures
        Book::empty(state.last_liquidation_date as int, loans).inv(now as int),
        state_is(Book::empty(state.last_liquidation_date as int, loans), state),
{
    Book::lemma_empty(state.last_liquidation_date as int, loans, now as int);
}

} // verus!
