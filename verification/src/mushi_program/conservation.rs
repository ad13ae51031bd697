//! Conservation: the totals of the ledger are what the loans and the day
//! buckets hold, before and after every instruction.
//!
//! The ledger as a whole is a [`Book`]. An instruction is handed some of its
//! records: the ledger's totals, one loan, one or two buckets. The lemmas
//! here take a book that keeps its invariant and whose records are those
//! handed to the instruction, and show that the book with the records the
//! instruction leaves keeps the invariant too. [`Book::lemma_conservation`]
//! turns the invariant into the sum it stands for.

use vstd::prelude::*;
use crate::book::{day_of, later_day, Amounts, Book, Debt};
use crate::calendar::{is_midnight, next_midnight, term_end};
use crate::mushi_program::context::{
    ACommon, ACommonExtExtendLoan, ACommonExtLoan, ACommonExtSubLoan,
};
use crate::mushi_program::ixs::borrow::{borrowed, borrowed_more};
use crate::mushi_program::ixs::buy_sell::{purchased, sold, swept_accounts};
use crate::mushi_program::ixs::extend_loan::loan_extended;
use crate::mushi_program::ixs::init_main_state::{is_initial, InitializeInput};
use crate::mushi_program::ixs::leverage::leveraged;
use crate::mushi_program::ixs::position::{position_closed, position_flash_closed};
use crate::mushi_program::ixs::remove_collateral::collateral_removed;
use crate::mushi_program::ixs::repay::repaid;
use crate::address::Address;
use crate::mushi_program::state::{DailyStats, GlobalStats, MainState, UserLoan};
use crate::mushi_program::utils::{interest, sweep};

verus! {

/// The totals of a ledger.
pub open spec fn totals_of(global: GlobalStats) -> Amounts {
    Amounts { borrowed: global.total_borrowed as int, collateral: global.total_collateral as int }
}

/// What a bucket holds.
pub open spec fn amounts_of(daily: DailyStats) -> Amounts {
    Amounts { borrowed: daily.borrowed as int, collateral: daily.collateral as int }
}

/// A loan as the book sees it.
pub open spec fn debt_of(loan: UserLoan) -> Debt {
    Debt {
        end_date: loan.end_date as int,
        amounts: Amounts { borrowed: loan.borrowed as int, collateral: loan.collateral as int },
    }
}

/// Whether `global` is the ledger of the book.
pub open spec fn state_is(book: Book, global: GlobalStats) -> bool {
    book.totals == totals_of(global) && book.cursor == global.last_liquidation_date
}

/// Whether `loan` is loan `i` of the book.
pub open spec fn loan_is(book: Book, i: int, loan: UserLoan) -> bool {
    0 <= i < book.loans.len() && book.loans[i] == debt_of(loan)
}

/// Whether `daily` is the bucket that the book keeps for `date`: it holds
/// what the book holds for that day, and it carries that date unless it is
/// empty.
pub open spec fn bucket_is(book: Book, daily: DailyStats, date: int) -> bool {
    is_midnight(date) && daily.serves(date) && book.day(day_of(date)) == amounts_of(daily)
}

/// The book with the ledger written back.
pub open spec fn with_state(book: Book, global: GlobalStats) -> Book {
    Book { totals: totals_of(global), cursor: global.last_liquidation_date as int, ..book }
}

/// The book with the bucket of `date` written back.
pub open spec fn with_bucket(book: Book, date: int, daily: DailyStats) -> Book {
    Book {
        horizon: later_day(book.horizon, day_of(date) + 1),
        days: book.days.insert(day_of(date), amounts_of(daily)),
        ..book
    }
}

/// The book with loan `i` written back.
pub open spec fn with_loan(book: Book, i: int, loan: UserLoan) -> Book {
    Book { loans: book.loans.update(i, debt_of(loan)), ..book }
}

/// The book after one step of the sweep at time `now` left `global` and
/// `daily` behind. While the cursor is not in the past the book stays as it
/// is.
pub open spec fn after_sweep(book: Book, now: i64, global: GlobalStats, daily: DailyStats) -> Book {
    if book.cursor < now {
        with_bucket(with_state(book, global), book.cursor, daily)
    } else {
        book
    }
}

/// The book with the ledger, loan `i` and the bucket of `date` written
/// back.
pub open spec fn written(
    book: Book,
    i: int,
    date: int,
    global: GlobalStats,
    loan: UserLoan,
    daily: DailyStats,
) -> Book {
    with_loan(with_bucket(with_state(book, global), date, daily), i, loan)
}

/// Whether the records of `ctx` are those of the book: its ledger, loan
/// `i`, and, where the instruction sweeps and the cursor is in the past, the
/// bucket of the cursor's day.
pub open spec fn reads(book: Book, i: int, now: i64, ctx: ACommon, sweeps: bool) -> bool {
    &&& state_is(book, ctx.global_state)
    &&& loan_is(book, i, ctx.user_loan)
    &&& sweeps && ctx.global_state.last_liquidation_date < now ==> bucket_is(
        book,
        ctx.last_liquidation_date_state,
        ctx.global_state.last_liquidation_date as int,
    )
}

/// The book with the records written back that an instruction on loan `i`
/// and the bucket of `date` has left.
pub open spec fn ledger_after(
    book: Book,
    i: int,
    date: int,
    now: i64,
    after: ACommon,
    daily: DailyStats,
    sweeps: bool,
) -> Book {
    written(
        if sweeps {
            after_sweep(book, now, after.global_state, after.last_liquidation_date_state)
        } else {
            book
        },
        i,
        date,
        after.global_state,
        after.user_loan,
        daily,
    )
}

/// The step of the sweep keeps the invariant.
pub proof fn lemma_sweep_conserves(
    book: Book,
    global: GlobalStats,
    daily: DailyStats,
    token_vault: u64,
    now: i64,
)
    requires
        book.inv(now as int),
        state_is(book, global),
        global.last_liquidation_date < now ==> bucket_is(
            book,
            daily,
            global.last_liquidation_date as int,
        ),
        sweep(global, daily, token_vault, now) is Ok,
    ensures
        ({
            let swept = sweep(global, daily, token_vault, now)->Ok_0;
            let after = after_sweep(book, now, swept.global, swept.daily);
            &&& after.inv(now as int)
            &&& state_is(after, swept.global)
            &&& after.loans == book.loans
            &&& forall|n: int| n != day_of(book.cursor) ==> after.day(n) == book.day(n)
        }),
{
    if book.cursor < now {
        book.lemma_swept(now as int);
    }
}

/// The sweep at the head of an instruction on a loan: the book it leaves
/// keeps the invariant, and still holds the loan and the bucket of `date`.
proof fn lemma_head_sweep(book: Book, i: int, date: int, now: i64, ctx: ACommon, daily: DailyStats)
    requires
        book.inv(now as int),
        reads(book, i, now, ctx, true),
        bucket_is(book, daily, date),
        date >= now,
        swept_accounts(ctx, now) is Ok,
    ensures
        ({
            let swept = swept_accounts(ctx, now)->Ok_0.0;
            let after = after_sweep(
                book,
                now,
                swept.global_state,
                swept.last_liquidation_date_state,
            );
            &&& after.inv(now as int)
            &&& state_is(after, swept.global_state)
            &&& loan_is(after, i, ctx.user_loan)
            &&& bucket_is(after, daily, date)
            &&& swept.user_loan == ctx.user_loan
        }),
{
    lemma_sweep_conserves(
        book,
        ctx.global_state,
        ctx.last_liquidation_date_state,
        ctx.token_vault_amount,
        now,
    );
}

/// A change of a running loan by `delta`, made alike in the loan, in the
/// bucket of its last day and in the totals, keeps the invariant.
proof fn lemma_change_conserves(
    book: Book,
    i: int,
    now: i64,
    loan: UserLoan,
    global: GlobalStats,
    changed_loan: UserLoan,
    daily: DailyStats,
    delta: Amounts,
)
    requires
        book.inv(now as int),
        loan_is(book, i, loan),
        loan.borrowed > 0,
        !loan.expired_at(now as int),
        book.cursor == global.last_liquidation_date,
        totals_of(global) == book.totals.plus(delta),
        amounts_of(daily) == book.day(day_of(loan.end_date as int)).plus(delta),
        debt_of(changed_loan).end_date == loan.end_date,
        debt_of(changed_loan).amounts == debt_of(loan).amounts.plus(delta),
    ensures
        written(book, i, loan.end_date as int, global, changed_loan, daily).inv(now as int),
{
    book.lemma_adjusted(now as int, i, delta);
}

/// Opening a loan in the place of one that has run out or is empty keeps
/// the invariant.
proof fn lemma_opening_conserves(
    book: Book,
    i: int,
    now: i64,
    loan: UserLoan,
    global: GlobalStats,
    opened: UserLoan,
    before: DailyStats,
    daily: DailyStats,
)
    requires
        book.inv(now as int),
        loan_is(book, i, loan),
        loan.wf(),
        loan.expired_at(now as int) || loan.borrowed == 0,
        bucket_is(book, before, opened.end_date as int),
        opened.end_date >= next_midnight(now as int),
        book.cursor == global.last_liquidation_date,
        totals_of(global) == book.totals.plus(debt_of(opened).amounts),
        amounts_of(daily) == amounts_of(before).plus(debt_of(opened).amounts),
    ensures
        written(book, i, opened.end_date as int, global, opened, daily).inv(now as int),
{
    let debt = debt_of(opened);
    book.lemma_opened(now as int, i, debt);
}

/// Closing a running loan keeps the invariant.
proof fn lemma_closing_conserves(
    book: Book,
    i: int,
    now: i64,
    loan: UserLoan,
    global: GlobalStats,
    before: DailyStats,
    daily: DailyStats,
)
    requires
        book.inv(now as int),
        loan_is(book, i, loan),
        loan.borrowed > 0,
        !loan.expired_at(now as int),
        book.day(day_of(loan.end_date as int)) == amounts_of(before),
        book.cursor == global.last_liquidation_date,
        totals_of(global) == book.totals.less(debt_of(loan).amounts),
        amounts_of(daily) == amounts_of(before).less(debt_of(loan).amounts),
    ensures
        written(book, i, loan.end_date as int, global, UserLoan::cleared(), daily).inv(
            now as int,
        ),
{
    book.lemma_closed(now as int, i);
}

/// The interest for less than 366 days is at most 40 thousandths of the
/// amount.
pub proof fn lemma_interest(amount: u64, number_of_days: u64)
    requires
        number_of_days < 366,
    ensures
        0 <= interest(amount, number_of_days) <= crate::math::mul_div(amount as int, 40, 1000)
            <= amount,
{
    crate::fees::lemma_interest_bounded(
        amount as int,
        number_of_days as int,
        39_000_000,
        1_000_000,
        1_000_000_000,
    );
}

/// Conservation through `borrow`: the book with the records that a
/// successful call leaves keeps the invariant, and the loan it opens owes
/// something.
pub proof fn lemma_borrow_conserves(
    book: Book,
    i: int,
    ctx: ACommonExtLoan,
    now: i64,
    number_of_days: u64,
    es_amount: u64,
)
    requires
        book.inv(now as int),
        reads(book, i, now, ctx.common, true),
        bucket_is(book, ctx.daily_state_end_date, term_end(now as int, number_of_days as int)),
        ctx.common.user_loan.wf(),
        borrowed(ctx, now, number_of_days, es_amount) is Ok,
    ensures
        ({
            let after = borrowed(ctx, now, number_of_days, es_amount)->Ok_0.0;
            &&& ledger_after(
                book,
                i,
                term_end(now as int, number_of_days as int),
                now,
                after.common,
                after.daily_state_end_date,
                true,
            ).inv(now as int)
            &&& after.common.user_loan.borrowed > 0
        }),
{
    let date = term_end(now as int, number_of_days as int);
    let after = borrowed(ctx, now, number_of_days, es_amount)->Ok_0.0;
    let swept = swept_accounts(ctx.common, now)->Ok_0.0;
    let book1 = after_sweep(book, now, swept.global_state, swept.last_liquidation_date_state);
    lemma_head_sweep(book, i, date, now, ctx.common, ctx.daily_state_end_date);
    lemma_opening_conserves(
        book1,
        i,
        now,
        ctx.common.user_loan,
        after.common.global_state,
        after.common.user_loan,
        ctx.daily_state_end_date,
        after.daily_state_end_date,
    );
}

/// Conservation through `leverage`: the book with the records that a
/// successful call leaves keeps the invariant, and the loan it opens owes
/// something.
pub proof fn lemma_leverage_conserves(
    book: Book,
    i: int,
    ctx: ACommonExtLoan,
    now: i64,
    number_of_days: u64,
    es_amount: u64,
)
    requires
        book.inv(now as int),
        reads(book, i, now, ctx.common, true),
        bucket_is(book, ctx.daily_state_end_date, term_end(now as int, number_of_days as int)),
        ctx.common.user_loan.wf(),
        ctx.common.main_state.wf(),
        leveraged(ctx, now, number_of_days, es_amount) is Ok,
    ensures
        ({
            let after = leveraged(ctx, now, number_of_days, es_amount)->Ok_0.0;
            &&& ledger_after(
                book,
                i,
                term_end(now as int, number_of_days as int),
                now,
                after.common,
                after.daily_state_end_date,
                true,
            ).inv(now as int)
            &&& after.common.user_loan.borrowed > 0
        }),
{
    let date = term_end(now as int, number_of_days as int);
    let after = leveraged(ctx, now, number_of_days, es_amount)->Ok_0.0;
    let swept = swept_accounts(ctx.common, now)->Ok_0.0;
    let book1 = after_sweep(book, now, swept.global_state, swept.last_liquidation_date_state);
    lemma_head_sweep(book, i, date, now, ctx.common, ctx.daily_state_end_date);
    lemma_interest(es_amount, number_of_days);
    crate::math::lemma_mul_div_monotonic_right(
        es_amount as int,
        ctx.common.main_state.buy_fee_leverage as int,
        25,
        1000,
    );
    lemma_opening_conserves(
        book1,
        i,
        now,
        ctx.common.user_loan,
        after.common.global_state,
        after.common.user_loan,
        ctx.daily_state_end_date,
        after.daily_state_end_date,
    );
}

/// Conservation through `borrow_more` on a loan that owes something.
pub proof fn lemma_borrow_more_conserves(
    book: Book,
    i: int,
    ctx: ACommonExtSubLoan,
    now: i64,
    es_amount: u64,
)
    requires
        book.inv(now as int),
        reads(book, i, now, ctx.common, true),
        bucket_is(book, ctx.daily_state_old_end_date, ctx.common.user_loan.end_date as int),
        ctx.common.user_loan.borrowed > 0,
        borrowed_more(ctx, now, es_amount) is Ok,
    ensures
        ({
            let after = borrowed_more(ctx, now, es_amount)->Ok_0.0;
            &&& ledger_after(
                book,
                i,
                ctx.common.user_loan.end_date as int,
                now,
                after.common,
                after.daily_state_old_end_date,
                true,
            ).inv(now as int)
            &&& after.common.user_loan.borrowed > 0
        }),
{
    let loan = ctx.common.user_loan;
    let date = loan.end_date as int;
    let after = borrowed_more(ctx, now, es_amount)->Ok_0.0;
    let swept = swept_accounts(ctx.common, now)->Ok_0.0;
    let book1 = after_sweep(book, now, swept.global_state, swept.last_liquidation_date_state);
    lemma_head_sweep(book, i, date, now, ctx.common, ctx.daily_state_old_end_date);
    let delta = Amounts {
        borrowed: after.common.user_loan.borrowed - loan.borrowed,
        collateral: after.common.user_loan.collateral - loan.collateral,
    };
    lemma_change_conserves(
        book1,
        i,
        now,
        loan,
        after.common.global_state,
        after.common.user_loan,
        after.daily_state_old_end_date,
        delta,
    );
}

/// Conservation through `remove_collateral` on a loan that owes something.
pub proof fn lemma_remove_collateral_conserves(
    book: Book,
    i: int,
    ctx: ACommonExtSubLoan,
    now: i64,
    amount: u64,
)
    requires
        book.inv(now as int),
        reads(book, i, now, ctx.common, true),
        bucket_is(book, ctx.daily_state_old_end_date, ctx.common.user_loan.end_date as int),
        ctx.common.user_loan.borrowed > 0,
        collateral_removed(ctx, now, amount) is Ok,
    ensures
        ({
            let after = collateral_removed(ctx, now, amount)->Ok_0.0;
            &&& ledger_after(
                book,
                i,
                ctx.common.user_loan.end_date as int,
                now,
                after.common,
                after.daily_state_old_end_date,
                true,
            ).inv(now as int)
            &&& after.common.user_loan.borrowed > 0
        }),
{
    let loan = ctx.common.user_loan;
    let date = loan.end_date as int;
    let after = collateral_removed(ctx, now, amount)->Ok_0.0;
    let swept = swept_accounts(ctx.common, now)->Ok_0.0;
    let book1 = after_sweep(book, now, swept.global_state, swept.last_liquidation_date_state);
    lemma_head_sweep(book, i, date, now, ctx.common, ctx.daily_state_old_end_date);
    let delta = Amounts { borrowed: 0, collateral: -(amount as int) };
    lemma_change_conserves(
        book1,
        i,
        now,
        loan,
        after.common.global_state,
        after.common.user_loan,
        after.daily_state_old_end_date,
        delta,
    );
}

/// Conservation through `repay`.
pub proof fn lemma_repay_conserves(
    book: Book,
    i: int,
    ctx: ACommonExtSubLoan,
    now: i64,
    es_amount: u64,
)
    requires
        book.inv(now as int),
        reads(book, i, now, ctx.common, false),
        bucket_is(book, ctx.daily_state_old_end_date, ctx.common.user_loan.end_date as int),
        repaid(ctx, now, es_amount) is Ok,
    ensures
        ({
            let after = repaid(ctx, now, es_amount)->Ok_0.0;
            &&& ledger_after(
                book,
                i,
                ctx.common.user_loan.end_date as int,
                now,
                after.common,
                after.daily_state_old_end_date,
                false,
            ).inv(now as int)
            &&& after.common.user_loan.borrowed > 0
        }),
{
    let after = repaid(ctx, now, es_amount)->Ok_0.0;
    let delta = Amounts { borrowed: -(es_amount as int), collateral: 0 };
    lemma_change_conserves(
        book,
        i,
        now,
        ctx.common.user_loan,
        after.common.global_state,
        after.common.user_loan,
        after.daily_state_old_end_date,
        delta,
    );
}

/// Conservation through `close_position` on a loan that owes something.
pub proof fn lemma_close_position_conserves(
    book: Book,
    i: int,
    ctx: ACommonExtSubLoan,
    now: i64,
    es_amount: u64,
)
    requires
        book.inv(now as int),
        reads(book, i, now, ctx.common, false),
        bucket_is(book, ctx.daily_state_old_end_date, ctx.common.user_loan.end_date as int),
        ctx.common.user_loan.borrowed > 0,
        position_closed(ctx, now, es_amount) is Ok,
    ensures
        ({
            let after = position_closed(ctx, now, es_amount)->Ok_0.0;
            &&& ledger_after(
                book,
                i,
                ctx.common.user_loan.end_date as int,
                now,
                after.common,
                after.daily_state_old_end_date,
                false,
            ).inv(now as int)
            &&& after.common.user_loan.wf()
        }),
{
    let after = position_closed(ctx, now, es_amount)->Ok_0.0;
    lemma_closing_conserves(
        book,
        i,
        now,
        ctx.common.user_loan,
        after.common.global_state,
        ctx.daily_state_old_end_date,
        after.daily_state_old_end_date,
    );
}

/// Conservation through `flash_close_position` on a loan that owes
/// something.
pub proof fn lemma_flash_close_position_conserves(
    book: Book,
    i: int,
    ctx: ACommonExtSubLoan,
    now: i64,
)
    requires
        book.inv(now as int),
        reads(book, i, now, ctx.common, true),
        bucket_is(book, ctx.daily_state_old_end_date, ctx.common.user_loan.end_date as int),
        ctx.common.user_loan.borrowed > 0,
        position_flash_closed(ctx, now) is Ok,
    ensures
        ({
            let after = position_flash_closed(ctx, now)->Ok_0.0;
            &&& ledger_after(
                book,
                i,
                ctx.common.user_loan.end_date as int,
                now,
                after.common,
                after.daily_state_old_end_date,
                true,
            ).inv(now as int)
            &&& after.common.user_loan.wf()
        }),
{
    let loan = ctx.common.user_loan;
    let date = loan.end_date as int;
    let after = position_flash_closed(ctx, now)->Ok_0.0;
    let swept = swept_accounts(ctx.common, now)->Ok_0.0;
    let book1 = after_sweep(book, now, swept.global_state, swept.last_liquidation_date_state);
    lemma_head_sweep(book, i, date, now, ctx.common, ctx.daily_state_old_end_date);
    lemma_closing_conserves(
        book1,
        i,
        now,
        loan,
        after.common.global_state,
        ctx.daily_state_old_end_date,
        after.daily_state_old_end_date,
    );
}

/// Conservation through `extend_loan` on a loan that owes something. The
/// book is handed the bucket of the day the loan ends on and that of the day
/// it will end on, and both are written back.
pub proof fn lemma_extend_loan_conserves(
    book: Book,
    i: int,
    ctx: ACommonExtExtendLoan,
    now: i64,
    number_of_days: u64,
    payment: u64,
)
    requires
        book.inv(now as int),
        reads(book, i, now, ctx.common, false),
        bucket_is(book, ctx.daily_state_old_end_date, ctx.common.user_loan.end_date as int),
        bucket_is(
            book,
            ctx.daily_state_new_end_date,
            ctx.common.user_loan.end_date + number_of_days * 86400,
        ),
        ctx.common.user_loan.borrowed > 0,
        loan_extended(ctx, now, number_of_days, payment) is Ok,
    ensures
        ({
            let after = loan_extended(ctx, now, number_of_days, payment)->Ok_0.0;
            &&& with_bucket(
                ledger_after(
                    book,
                    i,
                    ctx.common.user_loan.end_date as int,
                    now,
                    after.common,
                    after.daily_state_old_end_date,
                    false,
                ),
                after.common.user_loan.end_date as int,
                after.daily_state_new_end_date,
            ).inv(now as int)
            &&& after.common.user_loan.borrowed > 0
        }),
{
    let after = loan_extended(ctx, now, number_of_days, payment)->Ok_0.0;
    let new_end = after.common.user_loan.end_date as int;
    book.lemma_moved(now as int, i, new_end);
}

/// Conservation through a purchase: the sweep at its head is all that
/// touches the ledger.
pub proof fn lemma_buy_conserves(
    book: Book,
    ctx: ACommon,
    now: i64,
    es_amount: u64,
    min_mushi_out: Option<u64>,
    referred: bool,
)
    requires
        book.inv(now as int),
        state_is(book, ctx.global_state),
        ctx.global_state.last_liquidation_date < now ==> bucket_is(
            book,
            ctx.last_liquidation_date_state,
            ctx.global_state.last_liquidation_date as int,
        ),
        purchased(ctx, now, es_amount, min_mushi_out, referred) is Ok,
    ensures
        ({
            let after = purchased(ctx, now, es_amount, min_mushi_out, referred)->Ok_0.0;
            after_sweep(book, now, after.global_state, after.last_liquidation_date_state).inv(
                now as int,
            )
        }),
{
    lemma_sweep_conserves(
        book,
        ctx.global_state,
        ctx.last_liquidation_date_state,
        ctx.token_vault_amount,
        now,
    );
}

/// Conservation through a sale: the sweep at its head is all that touches
/// the ledger.
pub proof fn lemma_sell_conserves(
    book: Book,
    ctx: ACommon,
    now: i64,
    token_amount: u64,
    min_eclipse_out: Option<u64>,
)
    requires
        book.inv(now as int),
        state_is(book, ctx.global_state),
        ctx.global_state.last_liquidation_date < now ==> bucket_is(
            book,
            ctx.last_liquidation_date_state,
            ctx.global_state.last_liquidation_date as int,
        ),
        sold(ctx, now, token_amount, min_eclipse_out) is Ok,
    ensures
        ({
            let after = sold(ctx, now, token_amount, min_eclipse_out)->Ok_0.0;
            after_sweep(book, now, after.global_state, after.last_liquidation_date_state).inv(
                now as int,
            )
        }),
{
    lemma_sweep_conserves(
        book,
        ctx.global_state,
        ctx.last_liquidation_date_state,
        ctx.token_vault_amount,
        now,
    );
}

/// Conservation begins with `init_main_state`: the ledger it makes is that
/// of the empty book, which keeps the invariant.
pub proof fn lemma_init_main_state_conserves(
    main_state: MainState,
    global_state: GlobalStats,
    admin: Address,
    quote_token: Address,
    input: InitializeInput,
    now: i64,
    loans: nat,
)
    requires
        is_initial(main_state, global_state, admin, quote_token, input, now),
    ensures
        Book::empty(global_state.last_liquidation_date as int, loans).inv(now as int),
        state_is(Book::empty(global_state.last_liquidation_date as int, loans), global_state),
{
    Book::lemma_empty(global_state.last_liquidation_date as int, loans, now as int);
}

/// Conservation through `liquidate_expired_loans`: the step of the sweep is
/// all it does.
pub proof fn lemma_liquidate_expired_loans_conserves(book: Book, ctx: ACommon, now: i64)
    requires
        book.inv(now as int),
        state_is(book, ctx.global_state),
        ctx.global_state.last_liquidation_date < now ==> bucket_is(
            book,
            ctx.last_liquidation_date_state,
            ctx.global_state.last_liquidation_date as int,
        ),
        swept_accounts(ctx, now) is Ok,
    ensures
        ({
            let after = swept_accounts(ctx, now)->Ok_0.0;
            after_sweep(book, now, after.global_state, after.last_liquidation_date_state).inv(
                now as int,
            )
        }),
{
    lemma_sweep_conserves(
        book,
        ctx.global_state,
        ctx.last_liquidation_date_state,
        ctx.token_vault_amount,
        now,
    );
}

} // verus!
