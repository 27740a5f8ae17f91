//! The risk gate: decides, from a snapshot of the open positions, whether a
//! proposed trade may go ahead, and where its stop-loss belongs.

use vstd::prelude::*;
use std::sync::Arc;
use crate::config::{RiskLimits, TradingConfig};
use crate::decimal::{
    checked_difference, checked_product, checked_sum, lemma_pow10_positive, pow10, Decimal,
};
use crate::error::Error;
use crate::types::{find_position, lemma_find_position, spec_find_position, Position};

verus! {

/// The notional value of the positions, size times current price, added up
/// from the first to the last, starting at zero; `None` as soon as a product
/// or a sum cannot be held.
pub open spec fn spec_total_exposure(positions: Seq<Position>) -> Option<Decimal>
    decreases positions.len(),
{
    if positions.len() == 0 {
        Some(Decimal::from_parts(0, 0))
    } else {
        match (
            spec_total_exposure(positions.drop_last()),
            checked_product(positions.last().size, positions.last().current_price),
        ) {
            (Some(acc), Some(notional)) => checked_sum(acc, notional),
            _ => None,
        }
    }
}

/// The unrealized profit and loss of the positions, added up from the first
/// to the last, starting at zero; `None` as soon as a sum cannot be held.
pub open spec fn spec_total_pnl(positions: Seq<Position>) -> Option<Decimal>
    decreases positions.len(),
{
    if positions.len() == 0 {
        Some(Decimal::from_parts(0, 0))
    } else {
        match spec_total_pnl(positions.drop_last()) {
            Some(acc) => checked_sum(acc, positions.last().unrealized_pnl),
            None => None,
        }
    }
}

/// Whether the open exposure together with the proposed trade is above the
/// position limit; `None` when that total cannot be computed.
pub open spec fn spec_exposure_breached(
    limits: RiskLimits,
    positions: Seq<Position>,
    size: Decimal,
    price: Decimal,
) -> Option<bool> {
    match (spec_total_exposure(positions), checked_product(size, price)) {
        (Some(open), Some(proposed)) => match checked_sum(open, proposed) {
            Some(total) => Some(limits.max_position_size.spec_lt(total)),
            None => None,
        },
        _ => None,
    }
}

/// Whether the total unrealized loss is beyond the drawdown ceiling; `None`
/// when the total cannot be computed.
pub open spec fn spec_drawdown_breached(limits: RiskLimits, positions: Seq<Position>) -> Option<
    bool,
> {
    match spec_total_pnl(positions) {
        Some(pnl) => Some(pnl.spec_lt(limits.max_drawdown.spec_neg())),
        None => None,
    }
}

/// The verdict on a proposed trade. Both limits are always looked at: the
/// trade is refused (`Some(false)`) when either is breached, whatever became
/// of the other; it is admitted (`Some(true)`) when neither is; and there is no
/// verdict (`None`) when a limit that was not seen breached could not be
/// computed.
pub open spec fn spec_check(
    limits: RiskLimits,
    positions: Seq<Position>,
    size: Decimal,
    price: Decimal,
) -> Option<bool> {
    let exposure = spec_exposure_breached(limits, positions, size, price);
    let drawdown = spec_drawdown_breached(limits, positions);
    if exposure == Some(true) || drawdown == Some(true) {
        Some(false)
    } else if exposure is None || drawdown is None {
        None
    } else {
        Some(true)
    }
}

/// The stop-loss price for an entry: the entry price times one minus the
/// stop-loss rate; `None` when it cannot be held.
pub open spec fn spec_stop_loss(limits: RiskLimits, entry_price: Decimal) -> Option<Decimal> {
    match checked_difference(Decimal::from_parts(1, 0), limits.stop_loss_rate) {
        Some(keep) => checked_product(entry_price, keep),
        None => None,
    }
}

/// No two positions are in the same symbol.
pub open spec fn spec_distinct_symbols(positions: Seq<Position>) -> bool {
    forall|i: int, j: int|
        0 <= i < j < positions.len() ==> positions[i].symbol@ != positions[j].symbol@
}

/// A position takes the place of the one held in its symbol, or comes last
/// where there is none.
pub open spec fn spec_upsert(positions: Seq<Position>, p: Position) -> Seq<Position> {
    match spec_find_position(positions, p.symbol@) {
        Some(i) => positions.update(i, p),
        None => positions.push(p),
    }
}

/// The snapshot made of what a venue reports: the positions in the order in
/// which their symbols first occur, each symbol with the position reported
/// last for it.
pub open spec fn spec_snapshot(reported: Seq<Position>) -> Seq<Position>
    decreases reported.len(),
{
    if reported.len() == 0 {
        Seq::empty()
    } else {
        spec_upsert(spec_snapshot(reported.drop_last()), reported.last())
    }
}

/// Taking a position into a snapshot keeps its symbols apart.
pub proof fn lemma_upsert_distinct(positions: Seq<Position>, p: Position)
    requires
        spec_distinct_symbols(positions),
    ensures
        spec_distinct_symbols(spec_upsert(positions, p)),
{
    lemma_find_position(positions, p.symbol@);
    let after = spec_upsert(positions, p);
    match spec_find_position(positions, p.symbol@) {
        Some(k) => {
            assert forall|i: int, j: int| 0 <= i < j < after.len() implies after[i].symbol@
                != after[j].symbol@ by {
                assert(after[i].symbol@ == positions[i].symbol@);
                assert(after[j].symbol@ == positions[j].symbol@);
            }
        },
        None => {
            assert forall|i: int, j: int| 0 <= i < j < after.len() implies after[i].symbol@
                != after[j].symbol@ by {
                if j < positions.len() {
                    assert(after[i] == positions[i]);
                    assert(after[j] == positions[j]);
                } else {
                    assert(after[i] == positions[i]);
                    assert(after[j] == p);
                }
            }
        },
    }
}

/// A snapshot never holds two positions in one symbol.
pub proof fn lemma_snapshot_distinct(reported: Seq<Position>)
    ensures
        spec_distinct_symbols(spec_snapshot(reported)),
    decreases reported.len(),
{
    if reported.len() > 0 {
        lemma_snapshot_distinct(reported.drop_last());
        lemma_upsert_distinct(spec_snapshot(reported.drop_last()), reported.last());
    }
}

/// Once a total has failed, further positions do not mend it.
proof fn lemma_exposure_stays_none(s: Seq<Position>, k: int)
    requires
        0 <= k <= s.len(),
        spec_total_exposure(s.subrange(0, k)) is None,
    ensures
        spec_total_exposure(s) is None,
    decreases s.len() - k,
{
    if k < s.len() {
        assert(s.subrange(0, k + 1).drop_last() =~= s.subrange(0, k));
        lemma_exposure_stays_none(s, k + 1);
    } else {
        assert(s.subrange(0, k) =~= s);
    }
}

proof fn lemma_pnl_stays_none(s: Seq<Position>, k: int)
    requires
        0 <= k <= s.len(),
        spec_total_pnl(s.subrange(0, k)) is None,
    ensures
        spec_total_pnl(s) is None,
    decreases s.len() - k,
{
    if k < s.len() {
        assert(s.subrange(0, k + 1).drop_last() =~= s.subrange(0, k));
        lemma_pnl_stays_none(s, k + 1);
    } else {
        assert(s.subrange(0, k) =~= s);
    }
}

pub struct RiskManager {
    config: Arc<TradingConfig>,
    positions: Vec<Position>,
}

impl RiskManager {
    /// The stop-loss rate is at least zero and below one, and the snapshot
    /// holds at most one position in each symbol.
    #[verifier::type_invariant]
    pub closed spec fn wf(self) -> bool {
        self.config.risk_limits.spec_is_valid() && spec_distinct_symbols(self.positions@)
    }


    /// The limits this gate enforces.
    pub closed spec fn spec_limits(self) -> RiskLimits {
        self.config.risk_limits
    }

    /// The snapshot of open positions this gate decides on.
    pub closed spec fn spec_positions(self) -> Seq<Position> {
        self.positions@
    }

    /// A gate with an empty snapshot; refused when the stop-loss rate is not
    /// at least zero and below one.
    pub fn new(config: Arc<TradingConfig>) -> (r: Result<RiskManager, Error>)
        ensures
            r is Ok <==> config.risk_limits.spec_is_valid(),
            r matches Ok(m) ==> m.spec_limits() == config.risk_limits && m.spec_positions()
                =~= Seq::<Position>::empty(),
            r matches Err(e) ==> e is ConfigError,
    {
        if config.risk_limits.is_valid() {
            Ok(RiskManager { config, positions: Vec::new() })
        } else {
            Err(Error::config("stop_loss_rate must be at least 0 and below 1"))
        }
    }

    /// Replaces the snapshot by the positions the venue has just reported:
    /// one position for each symbol, the one reported last.
    /// Nothing here fetches positions: the caller supplies them.
    pub fn update_positions(&mut self, positions: Vec<Position>)
        ensures
            final(self).spec_positions() == spec_snapshot(positions@),
            final(self).spec_limits() == old(self).spec_limits(),
    {
        proof {
            use_type_invariant(&*self);
        }
        let mut snapshot: Vec<Position> = Vec::new();
        let n: usize = positions.len();
        let mut i: usize = 0;
        assert(positions@.subrange(0, 0) =~= Seq::<Position>::empty());
        while i < n
            invariant
                i <= n,
                n == positions@.len(),
                snapshot@ == spec_snapshot(positions@.subrange(0, i as int)),
            decreases n - i,
        {
            assert(positions@.subrange(0, i + 1).drop_last() =~= positions@.subrange(0, i as int));
            assert(positions@.subrange(0, i + 1).last() == positions@[i as int]);
            let reported = &positions[i];
            let p = Position {
                symbol: reported.symbol.clone(),
                size: reported.size,
                entry_price: reported.entry_price,
                current_price: reported.current_price,
                unrealized_pnl: reported.unrealized_pnl,
            };
            proof {
                lemma_find_position(snapshot@, p.symbol@);
            }
            match find_position(&snapshot, reported.symbol.as_str()) {
                Some(k) => {
                    snapshot.set(k, p);
                },
                None => {
                    snapshot.push(p);
                },
            }
            i = i + 1;
        }
        assert(positions@.subrange(0, n as int) =~= positions@);
        proof {
            lemma_snapshot_distinct(positions@);
        }
        self.positions = snapshot;
    }

    /// The snapshot as it stands, with at most one position in each symbol.
    pub fn positions(&self) -> (r: &Vec<Position>)
        ensures
            r@ == self.spec_positions(),
            spec_distinct_symbols(r@),
    {
        proof {
            use_type_invariant(self);
        }
        &self.positions
    }

    /// The notional value of the snapshot.
    pub fn total_exposure(&self) -> (r: Option<Decimal>)
        ensures
            r == spec_total_exposure(self.spec_positions()),
    {
        let n: usize = self.positions.len();
        let ghost all = self.positions@;
        let mut acc = Decimal::zero();
        let mut i: usize = 0;
        assert(all.subrange(0, 0) =~= Seq::<Position>::empty());
        while i < n
            invariant
                i <= n,
                n == all.len(),
                all == self.positions@,
                spec_total_exposure(all.subrange(0, i as int)) == Some(acc),
            decreases n - i,
        {
            let ghost after = all.subrange(0, i + 1);
            assert(after.drop_last() =~= all.subrange(0, i as int));
            assert(after.last() == all[i as int]);
            let p = &self.positions[i];
            let next = match p.size.checked_mul(p.current_price) {
                Some(notional) => acc.checked_add(notional),
                None => None,
            };
            assert(spec_total_exposure(after) == next);
            match next {
                Some(total) => {
                    acc = total;
                },
                None => {
                    proof {
                        lemma_exposure_stays_none(all, i + 1);
                    }
                    return None;
                },
            }
            i = i + 1;
        }
        assert(all.subrange(0, n as int) =~= all);
        Some(acc)
    }

    /// The unrealized profit and loss of the snapshot.
    pub fn total_pnl(&self) -> (r: Option<Decimal>)
        ensures
            r == spec_total_pnl(self.spec_positions()),
    {
        let n: usize = self.positions.len();
        let ghost all = self.positions@;
        let mut acc = Decimal::zero();
        let mut i: usize = 0;
        assert(all.subrange(0, 0) =~= Seq::<Position>::empty());
        while i < n
            invariant
                i <= n,
                n == all.len(),
                all == self.positions@,
                spec_total_pnl(all.subrange(0, i as int)) == Some(acc),
            decreases n - i,
        {
            let ghost after = all.subrange(0, i + 1);
            assert(after.drop_last() =~= all.subrange(0, i as int));
            assert(after.last() == all[i as int]);
            let next = acc.checked_add(self.positions[i].unrealized_pnl);
            assert(spec_total_pnl(after) == next);
            match next {
                Some(total) => {
                    acc = total;
                },
                None => {
                    proof {
                        lemma_pnl_stays_none(all, i + 1);
                    }
                    return None;
                },
            }
            i = i + 1;
        }
        assert(all.subrange(0, n as int) =~= all);
        Some(acc)
    }

    /// Whether a trade of `size` at `price` may go ahead. `Ok(false)` when the
    /// exposure limit or the drawdown ceiling is breached, `Ok(true)` when
    /// neither is, and `RiskError` when a limit that was not seen breached
    /// could not be computed. The snapshot is not changed.
    pub fn check_risk(&self, symbol: &str, size: Decimal, price: Decimal) -> (r: Result<
        bool,
        Error,
    >)
        ensures
            self.spec_check_result(size, price, r),
    {
        let exposure = match (self.total_exposure(), size.checked_mul(price)) {
            (Some(open), Some(proposed)) => match open.checked_add(proposed) {
                Some(total) => Some(self.config.risk_limits.max_position_size.lt(total)),
                None => None,
            },
            _ => None,
        };
        let drawdown = match self.total_pnl() {
            Some(pnl) => Some(pnl.lt(self.config.risk_limits.max_drawdown.neg())),
            None => None,
        };
        match (exposure, drawdown) {
            (Some(true), _) => Ok(false),
            (_, Some(true)) => Ok(false),
            (Some(false), Some(false)) => Ok(true),
            _ => Err(Error::RiskError("exposure or drawdown cannot be computed".to_string())),
        }
    }

    /// What `check_risk` promises of its result.
    pub open spec fn spec_check_result(
        self,
        size: Decimal,
        price: Decimal,
        r: Result<bool, Error>,
    ) -> bool {
        match spec_check(self.spec_limits(), self.spec_positions(), size, price) {
            Some(verdict) => r matches Ok(v) && v == verdict,
            None => r matches Err(Error::RiskError(_)),
        }
    }

    /// The price at which a position entered at `entry_price` is to be
    /// stopped out; `RiskError` when it cannot be held.
    pub fn calculate_stop_loss(&self, entry_price: Decimal) -> (r: Result<Decimal, Error>)
        ensures
            match spec_stop_loss(self.spec_limits(), entry_price) {
                Some(stop) => r matches Ok(v) && v == stop,
                None => r matches Err(Error::RiskError(_)),
            },
    {
        let keep = Decimal::one().checked_sub(self.config.risk_limits.stop_loss_rate);
        let stop = match keep {
            Some(k) => entry_price.checked_mul(k),
            None => None,
        };
        match stop {
            Some(v) => Ok(v),
            None => Err(Error::RiskError("stop-loss price cannot be computed".to_string())),
        }
    }
}

/// A breached drawdown ceiling refuses every trade: when the total unrealized
/// profit and loss is below the negated ceiling, the verdict is a refusal
/// whatever the size, the price and the exposure are.
pub proof fn law_drawdown_refuses(
    limits: RiskLimits,
    positions: Seq<Position>,
    size: Decimal,
    price: Decimal,
)
    requires
        spec_total_pnl(positions) matches Some(pnl) && pnl.spec_lt(limits.max_drawdown.spec_neg()),
    ensures
        spec_check(limits, positions, size, price) == Some(false),
{
}

/// With no unrealized profit or loss and a ceiling that is not negative, the
/// exposure alone decides: the trade is refused when the open exposure plus
/// the proposed notional is above the position limit, and admitted when it is
/// not.
pub proof fn law_exposure_decides(
    limits: RiskLimits,
    positions: Seq<Position>,
    size: Decimal,
    price: Decimal,
)
    requires
        limits.max_drawdown.wf(),
        limits.max_drawdown.spec_mantissa() >= 0,
        spec_total_pnl(positions) matches Some(pnl) && pnl.spec_mantissa() == 0,
    ensures
        spec_exposure_breached(limits, positions, size, price) matches Some(over) ==> spec_check(
            limits,
            positions,
            size,
            price,
        ) == Some(!over),
        spec_exposure_breached(limits, positions, size, price) is None ==> spec_check(
            limits,
            positions,
            size,
            price,
        ) is None,
{
    let pnl = spec_total_pnl(positions).unwrap();
    let floor = limits.max_drawdown.spec_neg();
    Decimal::lemma_from_parts(
        -limits.max_drawdown.spec_mantissa(),
        limits.max_drawdown.spec_scale(),
    );
    lemma_pow10_positive(pnl.spec_scale());
    assert(floor.spec_mantissa() * pow10(pnl.spec_scale()) <= 0) by (nonlinear_arith)
        requires
            floor.spec_mantissa() <= 0,
            pow10(pnl.spec_scale()) > 0,
    ;
    assert(pnl.spec_mantissa() * pow10(floor.spec_scale()) == 0) by (nonlinear_arith)
        requires
            pnl.spec_mantissa() == 0,
    ;
    assert(!pnl.spec_lt(floor));
}

/// Asking twice gives the same answer: two results of `check_risk` for the
/// same gate, size and price are both verdicts, and then the same verdict, or
/// both failures.
pub proof fn law_check_repeatable(
    gate: RiskManager,
    size: Decimal,
    price: Decimal,
    first: Result<bool, Error>,
    second: Result<bool, Error>,
)
    requires
        gate.spec_check_result(size, price, first),
        gate.spec_check_result(size, price, second),
    ensures
        first is Ok <==> second is Ok,
        first matches Ok(a) ==> second matches Ok(b) && a == b,
{
}

} // verus!
