//! Properties that hold across the operations of the library, stated over
//! the same spec functions as the operations' contracts.
use crate::error::LendingError;
use crate::event::{event_at, reads_event, AutaraEvent};
use crate::ixs::args::{
    canonical_instruction, lemma_instruction_data_unique, lemma_instruction_data_wire_at,
    reads_instruction, same_aurata_instruction,
};
use crate::ixs::types::AurataInstruction;
use crate::liquidator::runner::{spec_next_consecutive_failures, PollOutcome};
use crate::math::fixed_ops::u_one;
use crate::math::rounding::RoundingMode;
use crate::math::shares_tracker::{
    spec_atoms_to_shares, spec_deposit_atoms, spec_withdraw_shares, with_total, SharesTracker,
};
use crate::math::ufixed_point::{ufp, UFixedPoint};
use crate::oracle::oracle_config::{spec_validate_rate, OracleValidationConfig};
use crate::oracle::oracle_price::OracleRate;
use crate::oracle::oracle_provider::{spec_feed_address, spec_provider_load};
use crate::oracle::oracle_config::OracleProvider;
use crate::pubkey::Pubkey;
use crate::state::borrow_position::BorrowPosition;
use crate::state::market::{
    spec_health, spec_market_borrow, spec_market_settle_capital_sweep, spec_market_deposit_collateral, spec_market_liquidate,
    spec_market_repay_all, spec_market_socialize_loss, spec_market_withdraw_collateral, Market,
};
use crate::state::supply_vault::spec_utilisation_rate;
use crate::interest_rate::adaptive_curve::{
    spec_compute_next_rates, spec_err, AdaptiveInterestRateCurve, ADJUSTMENT_SPEED_BITS,
    TARGET_UTILISATION_RATE_BITS,
};
use crate::interest_rate::interest_rate::InterestRate;
use crate::interest_rate::interest_rate_per_second::{spec_compounding, InterestRatePerSecond};
use crate::interest_rate::lending_interest_rate::MarketBorrowRateParameters;
use crate::math::fixed_ops::{i_one, trunc_div};
use crate::math::ifixed_point::{
    ifp, ifp_floor, spec_checked_exp, spec_exp_series, spec_i_add, spec_i_div, spec_i_mul,
    spec_i_mul_int, spec_i_shift, spec_i_sub, IFixedPoint, LN_2_BITS, LN_2_DIV_2_BITS,
};
use crate::interest_rate::polyline::{
    is_used, lemma_used_len, line_value, padded_points, segment_end, spec_apr_borrow_rate_bps,
    spec_validate_points, used_len, used_len_from, PolylineInterestRatePoint,
};
use crate::interest_rate::interest_rate_kind::InterestRateCurveKind;
use crate::interest_rate::pod_interest_rate::{
    lemma_pod_holds_unique, lemma_pod_payload_len, pod_holds, pod_kind_of, pod_payload, pod_union,
};
use crate::interest_rate::interest_rate_kind::spec_borrow_rate_per_second;
use crate::interest_rate::interest_rate_per_second::spec_from_apr;
use crate::interest_rate::polyline::PolylineInterestRateCurve;
use crate::math::shares_tracker::spec_apply_interest_rate_with_fee;
use crate::math::ufixed_point::spec_u_add;
use crate::oracle::oracle_config::{ChaosProvider, UncheckedOracleRate};
use crate::oracle::oracle_price::spec_scale_expo;
use crate::oracle::oracle_provider::{byte_i8, le_u64, spec_chaos_load};
use crate::state::supply_vault::{spec_sync_clock, SupplyVault};
use vstd::prelude::*;

verus! {

/// Depositing atoms and withdrawing the shares they minted, rounded down,
/// never gives back more atoms than were deposited, and leaves the tracker
/// as it was.
pub proof fn law_deposit_then_withdraw_never_profits(t: SharesTracker, atoms: u64)
    requires
        spec_deposit_atoms(t, atoms).0 is Ok,
        spec_withdraw_shares(
            spec_deposit_atoms(t, atoms).1,
            spec_deposit_atoms(t, atoms).0->Ok_0,
            RoundingMode::RoundDown,
        ).0 is Ok,
    ensures
        spec_withdraw_shares(
            spec_deposit_atoms(t, atoms).1,
            spec_deposit_atoms(t, atoms).0->Ok_0,
            RoundingMode::RoundDown,
        ).0->Ok_0 <= atoms,
        spec_withdraw_shares(
            spec_deposit_atoms(t, atoms).1,
            spec_deposit_atoms(t, atoms).0->Ok_0,
            RoundingMode::RoundDown,
        ).1 == t,
{
    let p = t.atoms_per_share.bits as int;
    let one = u_one();
    let s = spec_deposit_atoms(t, atoms).0->Ok_0;
    assert(p != 0);
    assert(s.bits == (atoms * one * one) / p);
    assert(s.bits * p <= atoms * one * one) by (nonlinear_arith)
        requires
            s.bits == (atoms * one * one) / p,
            p > 0,
            atoms >= 0,
            one > 0,
    ;
    let x = (s.bits * p) / one;
    assert(x <= atoms * one) by (nonlinear_arith)
        requires
            x == (s.bits * p) / one,
            s.bits * p <= atoms * one * one,
            one > 0,
    ;
    assert(x / one <= atoms) by (nonlinear_arith)
        requires
            x <= atoms * one,
            x >= 0,
            one > 0,
    ;
}

/// At a share price of exactly one atom per share, depositing `atoms` mints
/// exactly `atoms` shares, and withdrawing those shares later, from any
/// tracker still at that price and holding at least as many shares, gives
/// back exactly `atoms`, whatever deposits and withdrawals came between.
pub proof fn law_unit_share_price_round_trip(t: SharesTracker, atoms: u64, later: SharesTracker)
    requires
        t.atoms_per_share.bits == u_one(),
        later.atoms_per_share.bits == u_one(),
        later.total_shares.bits >= atoms * u_one(),
    ensures
        spec_atoms_to_shares(t, atoms) == Ok::<UFixedPoint, LendingError>(ufp(atoms * u_one())),
        spec_deposit_atoms(t, atoms).0 is Ok ==> spec_deposit_atoms(t, atoms).0 == Ok::<
            UFixedPoint,
            LendingError,
        >(ufp(atoms * u_one())),
        spec_withdraw_shares(later, ufp(atoms * u_one()), RoundingMode::RoundDown) == (
            Ok::<u64, LendingError>(atoms),
            with_total(later, ufp(later.total_shares.bits - atoms * u_one())),
        ),
{
    let one = u_one();
    let a = atoms as int;
    assert(0 <= a * one <= u128::MAX) by (nonlinear_arith)
        requires
            0 <= a <= u64::MAX,
            one == 0x1_0000_0000_0000_0000,
    ;
    assert((a * one * one) / one == a * one) by (nonlinear_arith)
        requires
            one > 0,
    ;
    assert((a * one) / one == a) by (nonlinear_arith)
        requires
            one > 0,
    ;
    assert(ufp(a * one).bits == a * one);
}

/// A successful borrow leaves the position at or below the market's max
/// ltv and the vault at or below its max utilisation rate.
pub proof fn law_borrow_respects_limits(
    m: Market,
    bp: BorrowPosition,
    atoms: u64,
    supply_oracle: OracleRate,
    collateral_oracle: OracleRate,
)
    requires
        spec_market_borrow(m, bp, atoms, supply_oracle, collateral_oracle).0 is Ok,
    ensures
        ({
            let (_, m1, bp1) = spec_market_borrow(m, bp, atoms, supply_oracle, collateral_oracle);
            &&& spec_health(m1, bp1, bp1.collateral_deposited_atoms, collateral_oracle, supply_oracle)
                matches Ok(h) && h.ltv.bits <= m.config.ltv_config.max_ltv.bits
            &&& spec_utilisation_rate(m1.supply_vault) matches Ok(ur) && ur.bits
                <= m.config.max_utilisation_rate.bits
        }),
{
}

/// A successful withdrawal of collateral leaves the position at or below
/// the market's max ltv.
pub proof fn law_withdraw_collateral_respects_max_ltv(
    m: Market,
    bp: BorrowPosition,
    atoms: u64,
    collateral_oracle: OracleRate,
    supply_oracle: OracleRate,
)
    requires
        spec_market_withdraw_collateral(m, bp, atoms, collateral_oracle, supply_oracle).0 is Ok,
    ensures
        ({
            let (_, m1, bp1) = spec_market_withdraw_collateral(
                m,
                bp,
                atoms,
                collateral_oracle,
                supply_oracle,
            );
            spec_health(m, bp1, bp1.collateral_deposited_atoms, collateral_oracle, supply_oracle)
                matches Ok(h) && h.ltv.bits <= m.config.ltv_config.max_ltv.bits
        }),
{
}

/// A successful liquidation never raises the position's ltv, and the health
/// it reports afterwards is the position's health in the new market.
pub proof fn law_liquidation_never_raises_ltv(
    m: Market,
    bp: BorrowPosition,
    collateral_oracle: OracleRate,
    supply_oracle: OracleRate,
    max_repay_atoms: u64,
)
    requires
        spec_market_liquidate(m, bp, collateral_oracle, supply_oracle, max_repay_atoms).0 is Ok,
    ensures
        ({
            let (r, m1, bp1) = spec_market_liquidate(
                m,
                bp,
                collateral_oracle,
                supply_oracle,
                max_repay_atoms,
            );
            let ctx = r->Ok_0;
            &&& ctx.health_after_liquidation.ltv.bits <= ctx.health_before_liquidation.ltv.bits
            &&& spec_health(m1, bp1, bp1.collateral_deposited_atoms, collateral_oracle, supply_oracle)
                == Ok::<_, LendingError>(ctx.health_after_liquidation)
            &&& ctx.liquidation_result_with_bonus.borrowed_atoms_to_repay <= max_repay_atoms
        }),
{
}

/// A successful settlement of a capital sweep ends the sweep: nothing stays
/// swept, the collateral it returns (no more than was swept, nor than the
/// caller allowed) is credited to both the position and the vault, the
/// position's debt shares and their price do not rise, the repayment stays
/// within the caller's cap, and the ltv does not rise.
pub proof fn law_settlement_accounting(
    m: Market,
    bp: BorrowPosition,
    collateral_oracle: OracleRate,
    supply_oracle: OracleRate,
    max_repay_atoms: u64,
    max_collateral_atoms_to_return: u64,
)
    requires
        spec_market_settle_capital_sweep(
            m,
            bp,
            collateral_oracle,
            supply_oracle,
            max_repay_atoms,
            max_collateral_atoms_to_return,
        ).0 is Ok,
    ensures
        ({
            let (r, m1, bp1) = spec_market_settle_capital_sweep(
                m,
                bp,
                collateral_oracle,
                supply_oracle,
                max_repay_atoms,
                max_collateral_atoms_to_return,
            );
            let res = r->Ok_0;
            &&& bp1.swept_collateral_atoms == 0
            &&& !bp1.capital_sweep_pending
            &&& res.collateral_atoms_returned <= bp.swept_collateral_atoms
            &&& res.collateral_atoms_returned <= max_collateral_atoms_to_return
            &&& bp1.collateral_deposited_atoms == bp.collateral_deposited_atoms
                + res.collateral_atoms_returned
            &&& m1.collateral_vault.total_collateral_atoms
                == m.collateral_vault.total_collateral_atoms + res.collateral_atoms_returned
            &&& bp1.borrowed_shares.bits <= bp.borrowed_shares.bits
            &&& m1.supply_vault.borrow_shares_tracker.atoms_per_share
                == m.supply_vault.borrow_shares_tracker.atoms_per_share
            &&& res.liquidation_result_with_bonus.borrowed_atoms_to_repay <= max_repay_atoms
            &&& res.health_after_settlement.ltv.bits <= res.health_before_settlement.ltv.bits
        }),
{
}

/// The collateral held by the vault moves exactly as the position's
/// collateral does when collateral is deposited.
pub proof fn law_deposit_keeps_vault_in_step(m: Market, bp: BorrowPosition, atoms: u64)
    requires
        spec_market_deposit_collateral(m, bp, atoms).0 is Ok,
    ensures
        ({
            let (_, m1, bp1) = spec_market_deposit_collateral(m, bp, atoms);
            m1.collateral_vault.total_collateral_atoms - bp1.collateral_deposited_atoms
                == m.collateral_vault.total_collateral_atoms - bp.collateral_deposited_atoms
        }),
{
}

/// The collateral held by the vault moves exactly as the position's
/// collateral does when collateral is withdrawn.
pub proof fn law_withdraw_keeps_vault_in_step(
    m: Market,
    bp: BorrowPosition,
    atoms: u64,
    collateral_oracle: OracleRate,
    supply_oracle: OracleRate,
)
    requires
        spec_market_withdraw_collateral(m, bp, atoms, collateral_oracle, supply_oracle).0 is Ok,
    ensures
        ({
            let (_, m1, bp1) = spec_market_withdraw_collateral(
                m,
                bp,
                atoms,
                collateral_oracle,
                supply_oracle,
            );
            m1.collateral_vault.total_collateral_atoms - bp1.collateral_deposited_atoms
                == m.collateral_vault.total_collateral_atoms - bp.collateral_deposited_atoms
        }),
{
}

/// The collateral held by the vault moves exactly as the position's
/// collateral does when the position is liquidated.
pub proof fn law_liquidation_keeps_vault_in_step(
    m: Market,
    bp: BorrowPosition,
    collateral_oracle: OracleRate,
    supply_oracle: OracleRate,
    max_repay_atoms: u64,
)
    requires
        spec_market_liquidate(m, bp, collateral_oracle, supply_oracle, max_repay_atoms).0 is Ok,
    ensures
        ({
            let (_, m1, bp1) = spec_market_liquidate(
                m,
                bp,
                collateral_oracle,
                supply_oracle,
                max_repay_atoms,
            );
            m1.collateral_vault.total_collateral_atoms - bp1.collateral_deposited_atoms
                == m.collateral_vault.total_collateral_atoms - bp.collateral_deposited_atoms
        }),
{
}

/// The collateral held by the vault moves exactly as the position's
/// collateral does when its loss is socialized (all of it leaves).
pub proof fn law_socialize_loss_keeps_vault_in_step(
    m: Market,
    bp: BorrowPosition,
    collateral_oracle: OracleRate,
    supply_oracle: OracleRate,
)
    requires
        spec_market_socialize_loss(m, bp, collateral_oracle, supply_oracle).0 is Ok,
    ensures
        ({
            let (_, m1, bp1) = spec_market_socialize_loss(m, bp, collateral_oracle, supply_oracle);
            &&& m1.collateral_vault.total_collateral_atoms - bp1.collateral_deposited_atoms
                == m.collateral_vault.total_collateral_atoms - bp.collateral_deposited_atoms
            &&& bp1.collateral_deposited_atoms == 0
            &&& bp1.borrowed_shares.bits == 0
        }),
{
}

/// Repaying all of a position's debt leaves it without debt.
pub proof fn law_repay_all_clears_debt(m: Market, bp: BorrowPosition)
    requires
        spec_market_repay_all(m, bp).0 is Ok,
    ensures
        spec_market_repay_all(m, bp).2.borrowed_shares.bits == 0,
        spec_market_repay_all(m, bp).2.initial_borrowed_atoms == 0,
        spec_market_repay_all(m, bp).2.collateral_deposited_atoms == bp.collateral_deposited_atoms,
{
}

/// A price is only ever read from the account at the feed's canonical
/// address.
pub proof fn law_prices_come_from_the_canonical_account(
    p: OracleProvider,
    key: Pubkey,
    data: Seq<u8>,
    owner: Pubkey,
)
    requires
        spec_provider_load(p, key, data, owner) is Ok,
    ensures
        spec_feed_address(p) == Some(key.0@),
{
}

/// A checked price is positive, with a confidence that is not negative, no
/// older than the configured max age, and within the configured relative
/// confidence.
pub proof fn law_checked_prices_are_usable(
    rate: OracleRate,
    publish_time: i64,
    config: OracleValidationConfig,
    unix_timestamp: i64,
)
    requires
        spec_validate_rate(rate, publish_time, config, unix_timestamp) is Ok,
    ensures
        spec_validate_rate(rate, publish_time, config, unix_timestamp) == Ok::<
            OracleRate,
            LendingError,
        >(rate),
        rate.rate.bits > 0,
        rate.confidence.bits >= 0,
        config.max_age matches Some(max_age) ==> unix_timestamp - publish_time <= max_age,
{
}

/// In a dry run the count of consecutive failures never moves, so the bot
/// never stops, whatever the rounds give.
pub proof fn law_dry_run_never_counts_failures(consecutive: u32, outcome: PollOutcome)
    ensures
        spec_next_consecutive_failures(consecutive, true, outcome) == consecutive,
{
}

/// A live round with a landed transaction resets the count of consecutive
/// failures.
pub proof fn law_success_resets_failures(consecutive: u32, live_success: u64, live_failure: u64)
    requires
        live_success > 0,
    ensures
        spec_next_consecutive_failures(
            consecutive,
            false,
            PollOutcome::Scanned { live_success, live_failure },
        ) == 0,
{
}

/// No time elapsed, no interest: compounding any rate over zero seconds
/// gives a zero rate.
pub proof fn law_no_time_no_interest(rate: InterestRatePerSecond)
    ensures
        spec_compounding(rate, 0) == Ok::<InterestRate, LendingError>(InterestRate(ifp(0))),
{
    lemma_exp_of_zero();
    assert(spec_i_mul_int(rate.0, 0) == Ok::<IFixedPoint, LendingError>(ifp(0)));
}

/// `exp(0)` is exactly one.
proof fn lemma_exp_of_zero()
    ensures
        spec_checked_exp(ifp(0)) == Ok::<IFixedPoint, LendingError>(ifp(i_one())),
{
    let x = ifp(0);
    let a = ifp(LN_2_DIV_2_BITS as int);
    assert(spec_i_add(x, a) == Ok::<IFixedPoint, LendingError>(a));
    let n = LN_2_DIV_2_BITS as int * i_one();
    assert(n == 97551793252583 * 0x1_0000_0000_0000);
    assert(trunc_div(n, LN_2_BITS as int) == n / (LN_2_BITS as int));
    assert(n / 195103586505167 < i_one()) by (nonlinear_arith)
        requires
            n == 97551793252583 * 0x1_0000_0000_0000,
    ;
    assert(n / 195103586505167 >= 0) by (nonlinear_arith)
        requires
            n == 97551793252583 * 0x1_0000_0000_0000,
    ;
    let d = spec_i_div(a, ifp(LN_2_BITS as int))->Ok_0;
    assert(ifp_floor(d) == 0);
    assert(spec_i_mul(ifp(0 * i_one()), ifp(LN_2_BITS as int)) == Ok::<IFixedPoint, LendingError>(
        ifp(0),
    ));
    assert(spec_i_sub(x, ifp(0)) == Ok::<IFixedPoint, LendingError>(ifp(0)));
    reveal_with_fuel(spec_exp_series, 6);
    assert(spec_exp_series(ifp(0), 2) == Ok::<(IFixedPoint, IFixedPoint), LendingError>(
        (ifp(0), ifp(i_one())),
    ));
    assert(spec_exp_series(ifp(0), 3) == Ok::<(IFixedPoint, IFixedPoint), LendingError>(
        (ifp(0), ifp(i_one())),
    ));
    assert(spec_exp_series(ifp(0), 4) == Ok::<(IFixedPoint, IFixedPoint), LendingError>(
        (ifp(0), ifp(i_one())),
    ));
    assert(spec_exp_series(ifp(0), 5) == Ok::<(IFixedPoint, IFixedPoint), LendingError>(
        (ifp(0), ifp(i_one())),
    ));
    assert(spec_exp_series(ifp(0), 6) == Ok::<(IFixedPoint, IFixedPoint), LendingError>(
        (ifp(0), ifp(i_one())),
    ));
    assert(spec_exp_series(ifp(0), 7) == Ok::<(IFixedPoint, IFixedPoint), LendingError>(
        (ifp(0), ifp(i_one())),
    ));
    assert(spec_i_shift(ifp(i_one()), 0) == Some(ifp(i_one()))) by (bit_vector);
}

/// At the target utilisation the rate at target of a curve in use stays
/// put, whatever time elapsed, and the borrow rate is the rate at target.
pub proof fn law_rate_at_target_steady_at_target(
    curve: AdaptiveInterestRateCurve,
    elapsed: u64,
)
    requires
        curve.rate_at_target.0.bits != 0,
    ensures
        spec_compute_next_rates(
            curve,
            MarketBorrowRateParameters {
                utilisation_rate: ifp(TARGET_UTILISATION_RATE_BITS as int),
                elapsed_seconds_since_last_update: elapsed,
            },
        ) == Ok::<(InterestRatePerSecond, InterestRatePerSecond), LendingError>(
            (curve.rate_at_target, curve.rate_at_target),
        ),
{
    let start = curve.rate_at_target;
    let zero = ifp(0);
    assert(spec_err(ifp(TARGET_UTILISATION_RATE_BITS as int)) == Ok::<IFixedPoint, LendingError>(zero));
    assert(spec_i_mul(ifp(ADJUSTMENT_SPEED_BITS as int), zero) == Ok::<IFixedPoint, LendingError>(zero));
    assert(zero.bits * elapsed == 0) by (nonlinear_arith)
        requires
            zero.bits == 0,
    ;
    assert(spec_i_mul_int(zero, elapsed) == Ok::<IFixedPoint, LendingError>(zero));
    assert(spec_i_mul(ifp(3 * i_one()), zero) == Ok::<IFixedPoint, LendingError>(zero));
    assert(spec_i_add(zero, ifp(i_one())) == Ok::<IFixedPoint, LendingError>(ifp(i_one())));
    assert((i_one() * start.0.bits) / i_one() == start.0.bits) by (nonlinear_arith);
    assert(spec_i_mul(ifp(i_one()), start.0) == Ok::<IFixedPoint, LendingError>(start.0));
}

/// The data of the instruction that logs an event reads back as that very
/// event.
pub proof fn law_logged_event_reads_back(event: AutaraEvent, r: Option<AutaraEvent>)
    requires
        reads_event(AurataInstruction::Log.wire() + event.wire(), r),
    ensures
        r == Some(event),
{
    let d = AurataInstruction::Log.wire() + event.wire();
    event.lemma_wire_len();
    assert(d.subrange(1, 1 + event.wire().len() as int) =~= event.wire());
    assert(event_at(d, 1, event));
    match r {
        Some(e) => AutaraEvent::lemma_event_at_unique(d, 1, e, event),
        None => {},
    }
}

/// The data of an instruction, read back, is that instruction again: the
/// same arguments, and a callback with the same program, accounts and data.
/// This holds of every instruction whose callback fits on the wire and
/// whose oracle configs hold no zero setting (a zero setting reads back as
/// none).
pub proof fn law_instruction_data_reads_back(ix: AurataInstruction, r: Option<AurataInstruction>)
    requires
        canonical_instruction(ix),
        reads_instruction(ix.wire(), r),
    ensures
        r matches Some(x) && same_aurata_instruction(x, ix),
{
    let d = ix.wire();
    assert(d.subrange(0, d.len() as int) =~= d);
    lemma_instruction_data_wire_at(d, 0, ix);
    match r {
        Some(x) => lemma_instruction_data_unique(d, 0, x, ix),
        None => {},
    }
}


proof fn lemma_used_len_at(pts: Seq<PolylineInterestRatePoint>, i: int, k: int)
    requires
        0 <= i <= k <= pts.len(),
        forall|j: int| i <= j < k ==> is_used(#[trigger] pts[j]),
        k < pts.len() ==> !is_used(pts[k]),
    ensures
        used_len_from(pts, i) == k,
    decreases k - i,
{
    if i < k {
        lemma_used_len_at(pts, i + 1, k);
    }
}

/// The points of a curve built from valid points that are all in use are
/// exactly those points, in order: none of the padding shows.
pub proof fn law_curve_points_are_the_given_points(points: Seq<PolylineInterestRatePoint>)
    requires
        spec_validate_points(points) is Ok,
        forall|j: int| 0 <= j < points.len() ==> is_used(#[trigger] points[j]),
    ensures
        used_len(padded_points(points)) == points.len(),
        padded_points(points).take(used_len(padded_points(points))) == points,
{
    let full = padded_points(points);
    let k = points.len() as int;
    assert forall|j: int| 0 <= j < k implies is_used(#[trigger] full[j]) by {
        assert(full[j] == points[j]);
    }
    if k < full.len() {
        assert(full[k].borrow_rate_bps == 0);
    }
    lemma_used_len_at(full, 0, k);
    assert(full.take(k) =~= points);
}

/// Along the used points of a valid curve, utilisation and borrow rate
/// both strictly increase.
proof fn lemma_points_increase(pts: Seq<PolylineInterestRatePoint>, a: int, b: int)
    requires
        spec_validate_points(pts) is Ok,
        0 <= a < b < used_len(pts),
    ensures
        pts[a].utilization_rate_bps < pts[b].utilization_rate_bps,
        pts[a].borrow_rate_bps < pts[b].borrow_rate_bps,
    decreases b - a,
{
    lemma_used_len(pts, 0);
    assert(is_used(pts[b]));
    if a < b - 1 {
        lemma_points_increase(pts, a, b - 1);
    }
}

proof fn lemma_segment(pts: Seq<PolylineInterestRatePoint>, n: int, u: u32, i: int)
    requires
        1 <= i < n,
    ensures
        i <= segment_end(pts, n, u, i) < n,
        segment_end(pts, n, u, i) + 1 < n ==> u < pts[segment_end(pts, n, u, i)].utilization_rate_bps,
        segment_end(pts, n, u, i) > i ==> u >= pts[segment_end(pts, n, u, i) - 1].utilization_rate_bps,
    decreases n - i,
{
    if i + 1 < n && u >= pts[i].utilization_rate_bps {
        lemma_segment(pts, n, u, i + 1);
    }
}

proof fn lemma_segment_monotone(pts: Seq<PolylineInterestRatePoint>, n: int, u1: u32, u2: u32, i: int)
    requires
        1 <= i < n,
        u1 <= u2,
    ensures
        segment_end(pts, n, u1, i) <= segment_end(pts, n, u2, i),
    decreases n - i,
{
    lemma_segment(pts, n, u2, i);
    if i + 1 < n && u1 >= pts[i].utilization_rate_bps {
        lemma_segment_monotone(pts, n, u1, u2, i + 1);
    }
}

/// The value of a rising segment, for rates and utilisations small enough
/// that nothing is truncated.
proof fn lemma_line(s: PolylineInterestRatePoint, e: PolylineInterestRatePoint, u: u32)
    requires
        s.utilization_rate_bps < e.utilization_rate_bps,
        s.borrow_rate_bps < e.borrow_rate_bps <= 100_000,
        s.utilization_rate_bps <= u <= 10_000,
    ensures
        line_value(s, e, u) == s.borrow_rate_bps + (e.borrow_rate_bps - s.borrow_rate_bps) * (u
            - s.utilization_rate_bps) / (e.utilization_rate_bps - s.utilization_rate_bps),
        s.borrow_rate_bps <= line_value(s, e, u),
        u <= e.utilization_rate_bps ==> line_value(s, e, u) <= e.borrow_rate_bps,
        u == s.utilization_rate_bps ==> line_value(s, e, u) == s.borrow_rate_bps,
        u == e.utilization_rate_bps ==> line_value(s, e, u) == e.borrow_rate_bps,
{
    let db = e.borrow_rate_bps - s.borrow_rate_bps;
    let du = u - s.utilization_rate_bps;
    let dx = e.utilization_rate_bps - s.utilization_rate_bps;
    let d = db * du / dx;
    assert(0 <= d <= 1_000_000_000) by (nonlinear_arith)
        requires
            0 < db <= 100_000,
            0 <= du <= 10_000,
            dx >= 1,
            d == db * du / dx,
    ;
    assert((d as u64) as u32 == d);
    if du <= dx {
        assert(d <= db) by (nonlinear_arith)
            requires
                0 < db,
                0 <= du <= dx,
                dx >= 1,
                d == db * du / dx,
        ;
    }
    if du == 0 {
        assert(d == 0) by (nonlinear_arith)
            requires
                du == 0,
                dx >= 1,
                d == db * du / dx,
        ;
    }
    if du == dx {
        assert(d == db) by (nonlinear_arith)
            requires
                du == dx,
                dx >= 1,
                d == db * du / dx,
        ;
    }
}

proof fn lemma_line_monotone(s: PolylineInterestRatePoint, e: PolylineInterestRatePoint, u1: u32, u2: u32)
    requires
        s.utilization_rate_bps < e.utilization_rate_bps,
        s.borrow_rate_bps < e.borrow_rate_bps <= 100_000,
        s.utilization_rate_bps <= u1 <= u2 <= 10_000,
    ensures
        line_value(s, e, u1) <= line_value(s, e, u2),
{
    lemma_line(s, e, u1);
    lemma_line(s, e, u2);
    let db = e.borrow_rate_bps - s.borrow_rate_bps;
    let dx = e.utilization_rate_bps - s.utilization_rate_bps;
    let du1 = u1 - s.utilization_rate_bps;
    let du2 = u2 - s.utilization_rate_bps;
    assert(db * du1 <= db * du2) by (nonlinear_arith)
        requires
            0 < db,
            0 <= du1 <= du2,
    ;
    assert(db * du1 / dx <= db * du2 / dx) by (nonlinear_arith)
        requires
            db * du1 <= db * du2,
            dx >= 1,
    ;
}

/// Facts about the segment that holds `u` on a valid curve with at least
/// two points: it lies between used points, starts at or before `u`, and
/// when it is not the last it ends after `u`.
proof fn lemma_curve_segment(pts: Seq<PolylineInterestRatePoint>, u: u32)
    requires
        spec_validate_points(pts) is Ok,
        used_len(pts) >= 2,
    ensures
        ({
            let n = used_len(pts);
            let i = segment_end(pts, n, u, 1);
            &&& 1 <= i < n
            &&& n <= pts.len()
            &&& pts[i - 1].utilization_rate_bps <= u
            &&& i + 1 < n ==> u < pts[i].utilization_rate_bps
            &&& pts[i - 1].utilization_rate_bps < pts[i].utilization_rate_bps
            &&& pts[i - 1].borrow_rate_bps < pts[i].borrow_rate_bps
        }),
{
    let n = used_len(pts);
    lemma_used_len(pts, 0);
    lemma_segment(pts, n, u, 1);
    let i = segment_end(pts, n, u, 1);
    lemma_points_increase(pts, i - 1, i);
}

/// On a valid curve whose rates are at most 1000% (100 000 bps), the borrow
/// rate at the utilisation of one of its points is that point's rate.
pub proof fn law_curve_passes_through_its_points(pts: Seq<PolylineInterestRatePoint>, k: int)
    requires
        spec_validate_points(pts) is Ok,
        forall|j: int| 0 <= j < pts.len() ==> #[trigger] pts[j].borrow_rate_bps <= 100_000,
        0 <= k < used_len(pts),
        pts[k].utilization_rate_bps <= 10_000,
    ensures
        spec_apr_borrow_rate_bps(pts, pts[k].utilization_rate_bps) == pts[k].borrow_rate_bps,
{
    let n = used_len(pts);
    let u = pts[k].utilization_rate_bps;
    lemma_used_len(pts, 0);
    if n >= 2 {
        lemma_curve_segment(pts, u);
        let i = segment_end(pts, n, u, 1);
        if k < i - 1 {
            lemma_points_increase(pts, k, i - 1);
        }
        if i + 1 < n && i < k {
            lemma_points_increase(pts, i, k);
        }
        if i + 1 < n && k == i {
            assert(false);
        }
        assert(pts[i].borrow_rate_bps <= 100_000);
        lemma_line(pts[i - 1], pts[i], u);
        if k > i {
            lemma_points_increase(pts, i, k);
            assert(i + 1 >= n);
            assert(false);
        }
    }
}

/// On a valid curve whose rates are at most 1000% (100 000 bps), the borrow
/// rate never falls as the utilisation rises up to 100%; a curve of one
/// point has that point's rate everywhere.
pub proof fn law_curve_rate_is_monotone(pts: Seq<PolylineInterestRatePoint>, u1: u32, u2: u32)
    requires
        spec_validate_points(pts) is Ok,
        forall|j: int| 0 <= j < pts.len() ==> #[trigger] pts[j].borrow_rate_bps <= 100_000,
        u1 <= u2 <= 10_000,
    ensures
        spec_apr_borrow_rate_bps(pts, u1) <= spec_apr_borrow_rate_bps(pts, u2),
        used_len(pts) == 1 ==> spec_apr_borrow_rate_bps(pts, u1) == pts[0].borrow_rate_bps,
{
    let n = used_len(pts);
    lemma_used_len(pts, 0);
    if n >= 2 {
        lemma_curve_segment(pts, u1);
        lemma_curve_segment(pts, u2);
        lemma_segment_monotone(pts, n, u1, u2, 1);
        let i1 = segment_end(pts, n, u1, 1);
        let i2 = segment_end(pts, n, u2, 1);
        assert(pts[i1].borrow_rate_bps <= 100_000);
        assert(pts[i2].borrow_rate_bps <= 100_000);
        if i1 == i2 {
            lemma_line_monotone(pts[i1 - 1], pts[i1], u1, u2);
        } else {
            lemma_line(pts[i1 - 1], pts[i1], u1);
            lemma_line(pts[i2 - 1], pts[i2], u2);
            if i1 < i2 - 1 {
                lemma_points_increase(pts, i1, i2 - 1);
            }
        }
    }
}


/// A curve stored as a market account lays it out reads back as that very
/// curve.
pub proof fn law_stored_curve_reads_back(k: InterestRateCurveKind, r: InterestRateCurveKind)
    requires
        pod_holds(pod_kind_of(k), pod_union(k), r),
    ensures
        r == k,
{
    lemma_pod_payload_len(k);
    assert(pod_union(k).subrange(0, pod_payload(k).len() as int) =~= pod_payload(k));
    lemma_pod_holds_unique(pod_kind_of(k), pod_union(k), k, r);
}


/// Applying interest with a fee mints exactly the fee shares it returns: the
/// total grows by them and by nothing else.
proof fn lemma_fee_shares_are_minted(t: SharesTracker, rate: InterestRate, fee: UFixedPoint)
    requires
        spec_apply_interest_rate_with_fee(t, rate, fee).0 is Ok,
    ensures
        spec_apply_interest_rate_with_fee(t, rate, fee).1.total_shares.bits == t.total_shares.bits
            + spec_apply_interest_rate_with_fee(t, rate, fee).0->Ok_0.bits,
{
}

/// Accruing interest takes the lending fee as newly minted supply shares and
/// splits them: the protocol's pending fee shares grow by
/// `floor(minted * protocol_bps / 10 000)` (in share bits) and the curator's
/// by the rest of the minted shares. Nothing is minted nor owed when no time
/// has passed.
pub proof fn law_sync_clock_splits_fee_between_protocol_and_curator(
    v: SupplyVault,
    unix_timestamp: i64,
    lending_market_fee: UFixedPoint,
    protocol_bps: u16,
)
    requires
        spec_sync_clock(v, unix_timestamp, lending_market_fee, protocol_bps).0 is Ok,
    ensures
        ({
            let v1 = spec_sync_clock(v, unix_timestamp, lending_market_fee, protocol_bps).1;
            let minted = v1.supply_shares_tracker.total_shares.bits
                - v.supply_shares_tracker.total_shares.bits;
            &&& minted >= 0
            &&& v1.pending_protocol_fee_shares.bits == v.pending_protocol_fee_shares.bits + (
            minted * protocol_bps) / 10_000
            &&& v1.pending_curator_fee_shares.bits == v.pending_curator_fee_shares.bits + minted - (
            minted * protocol_bps) / 10_000
            &&& unix_timestamp <= v.last_update_unix_timestamp ==> v1 == v
        }),
{
    if unix_timestamp > v.last_update_unix_timestamp {
        let elapsed = (unix_timestamp - v.last_update_unix_timestamp) as u64;
        let ur = spec_utilisation_rate(v)->Ok_0;
        let params = MarketBorrowRateParameters {
            utilisation_rate: ur,
            elapsed_seconds_since_last_update: elapsed,
        };
        let br = spec_borrow_rate_per_second(v.interest_rate_curve, params).0->Ok_0;
        let brd = spec_compounding(br, elapsed)->Ok_0;
        let lir = crate::interest_rate::interest_rate::spec_map_rate(spec_i_mul(brd.0, ur))->Ok_0;
        lemma_fee_shares_are_minted(v.supply_shares_tracker, lir, lending_market_fee);
    }
}

/// A Chaos Labs price comes from the state's spot price (the `u64` at byte
/// 42 of the account, after the discriminator, version and price id),
/// scaled by its exponent (byte 58), with no confidence interval and the
/// observation time at byte 50 as its time; the moving-average price
/// (bytes 59 to 75) plays no part: two accounts that differ only there
/// give the same answer.
pub proof fn law_chaos_price_is_the_spot_price(
    p: ChaosProvider,
    data: Seq<u8>,
    other: Seq<u8>,
    owner: Pubkey,
)
    requires
        spec_chaos_load(p, data, owner) is Ok,
        other.len() == data.len(),
        forall|i: int| 0 <= i < data.len() && !(59 <= i < 76) ==> #[trigger] other[i] == data[i],
    ensures
        ({
            let u: UncheckedOracleRate = spec_chaos_load(p, data, owner)->Ok_0;
            &&& spec_scale_expo(le_u64(data, 42) as u64, byte_i8(data, 58) as i8)
                == Ok::<IFixedPoint, LendingError>(u.rate.rate)
            &&& spec_scale_expo(0, byte_i8(data, 58) as i8) == Ok::<IFixedPoint, LendingError>(
                u.rate.confidence,
            )
            &&& u.publish_time == le_u64(data, 50) as i64
        }),
        spec_chaos_load(p, other, owner) == spec_chaos_load(p, data, owner),
{
    assert(other.subrange(0, 8) =~= data.subrange(0, 8));
    assert(other.subrange(10, 42) =~= data.subrange(10, 42));
    assert(le_u64(other, 42) == le_u64(data, 42));
    assert(le_u64(other, 50) == le_u64(data, 50));
    assert(other[58] == data[58]);
    assert(other[76] == data[76]);
}

/// A polyline curve charges the yearly rate that the curve gives at the
/// utilisation in basis points (the utilisation times 10 000, rounded
/// down), turned into a rate per second; the curve does not change. Every
/// utilisation from 0 to 100% has a rate.
pub proof fn law_polyline_rate_follows_utilisation(
    curve: PolylineInterestRateCurve,
    params: MarketBorrowRateParameters,
)
    requires
        0 <= params.utilisation_rate.bits <= i_one(),
    ensures
        ({
            let u = (params.utilisation_rate.bits * 10_000) / i_one();
            let apr = spec_apr_borrow_rate_bps(curve.points@, u as u32);
            &&& 0 <= u <= 10_000
            &&& spec_borrow_rate_per_second(InterestRateCurveKind::Polyline(curve), params) == (
                Ok::<InterestRatePerSecond, LendingError>(
                    spec_from_apr(ifp(trunc_div(apr * i_one(), 10_000))),
                ),
                InterestRateCurveKind::Polyline(curve),
            )
        }),
{
    let b = params.utilisation_rate.bits as int;
    let one = i_one();
    assert(0 <= b * 10_000 <= one * 10_000) by (nonlinear_arith)
        requires
            0 <= b <= one,
    ;
    assert((b * 10_000) / one <= 10_000) by (nonlinear_arith)
        requires
            0 <= b * 10_000 <= one * 10_000,
            one > 0,
    ;
}

/// Only an insolvent position (ltv of one or more) has its loss socialized:
/// a successful socialization always follows a health reading of at least
/// one, and a solvent position whose health can be read is refused with
/// `CannotSocializeDebtForHealthyPosition`, leaving market and position as
/// they were.
pub proof fn law_only_insolvent_positions_are_socialized(
    m: Market,
    bp: BorrowPosition,
    collateral_oracle: OracleRate,
    supply_oracle: OracleRate,
)
    ensures
        spec_market_socialize_loss(m, bp, collateral_oracle, supply_oracle).0 is Ok ==> (spec_health(
            m,
            bp,
            bp.collateral_deposited_atoms,
            collateral_oracle,
            supply_oracle,
        ) matches Ok(h) && h.ltv.bits >= 0x1_0000_0000_0000),
        !bp.capital_sweep_pending ==> (spec_health(
            m,
            bp,
            bp.collateral_deposited_atoms,
            collateral_oracle,
            supply_oracle,
        ) matches Ok(h) && h.ltv.bits < 0x1_0000_0000_0000 ==> spec_market_socialize_loss(
            m,
            bp,
            collateral_oracle,
            supply_oracle,
        ) == (
            Err::<(u64, u64), LendingError>(LendingError::CannotSocializeDebtForHealthyPosition),
            m,
            bp,
        )),
{
}

} // verus!
