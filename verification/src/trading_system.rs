//! The trading loop, as a pair of state machines. The caller performs each
//! action that is asked for (a fetch, an order, a sleep) and reports the
//! result back as an event; every decision is taken here.
//!
//! Symbols are processed one after the other within a cycle, all against the
//! one snapshot of positions taken at the start of that cycle. A purchase
//! made earlier in a cycle is therefore not yet part of the exposure that the
//! later symbols of the same cycle are checked against; it is from the next
//! refresh on.

use vstd::prelude::*;
use std::sync::Arc;
use crate::config::TradingConfig;
use crate::decimal::Decimal;
use crate::error::Error;
use crate::risk::{spec_check, spec_snapshot, spec_stop_loss, RiskManager};
use crate::strategy::{MACrossStrategy, Strategy};
use crate::types::{
    find_position, lemma_find_position, spec_find_position, Kline, Order, OrderType, Position,
    Signal,
};

verus! {

/// The candle interval asked of the market data source.
pub const KLINE_INTERVAL: &'static str = "1m";

/// The number of candles asked of the market data source.
pub const KLINE_LIMIT: u32 = 1000u32;

/// The pause between two cycles, in seconds.
pub const CYCLE_PAUSE_SECONDS: u64 = 60u64;

/// How the pipeline of one symbol ended when nothing failed.
#[derive(Debug)]
pub enum Outcome {
    /// The strategy said to hold.
    Held,
    /// The risk limits did not admit the purchase: a deliberate no-trade.
    RiskRejected,
    /// The entry was filled and its stop-loss placed.
    Bought { entry: Order, stop_loss: Order },
    /// The strategy said to sell and there was no position to sell.
    NothingToSell,
    /// The whole position was sold.
    Sold { order: Order },
}

/// What the caller is to do next for a symbol.
#[derive(Debug)]
pub enum Action {
    FetchKlines { symbol: String, interval: String, limit: u32 },
    FetchTicker { symbol: String },
    GetPositions,
    PlaceOrder { symbol: String, order_type: OrderType, size: Decimal, price: Option<Decimal> },
    /// Nothing: the pipeline has ended.
    Finish,
}

/// What came of the action last asked for.
#[derive(Debug)]
pub enum Event {
    Klines(Result<Vec<Kline>, Error>),
    Ticker(Result<Decimal, Error>),
    Positions(Result<Vec<Position>, Error>),
    OrderPlaced(Result<Order, Error>),
}

/// Where the pipeline of one symbol stands.
#[derive(Debug)]
pub enum PipelineState {
    /// Candles have been asked for.
    Fetching,
    /// The signal is known and the current price has been asked for.
    Deciding { signal: Signal },
    /// The purchase was admitted and the entry order has been asked for.
    Entering { size: Decimal, price: Decimal },
    /// The entry is filled and its stop-loss has been asked for.
    Protecting { entry: Order },
    /// The positions have been asked for, to find the one to sell.
    Locating,
    /// The sale has been asked for.
    Exiting,
    Done(Outcome),
    Failed(Error),
}

/// A state together with the action that leads on from it.
#[derive(Debug)]
pub struct Step {
    pub state: PipelineState,
    pub action: Action,
}

impl PipelineState {
    /// Whether the pipeline has ended.
    pub open spec fn spec_is_terminal(self) -> bool {
        self is Done || self is Failed
    }

    pub fn is_terminal(&self) -> (r: bool)
        ensures
            r == self.spec_is_terminal(),
    {
        match self {
            PipelineState::Done(_) => true,
            PipelineState::Failed(_) => true,
            _ => false,
        }
    }

    /// How far the pipeline has come: fetching, deciding, the two halves of
    /// executing, the end.
    pub open spec fn spec_rank(self) -> nat {
        match self {
            PipelineState::Fetching => 0,
            PipelineState::Deciding { .. } => 1,
            PipelineState::Entering { .. } => 2,
            PipelineState::Locating => 2,
            PipelineState::Protecting { .. } => 3,
            PipelineState::Exiting => 3,
            PipelineState::Done(_) => 4,
            PipelineState::Failed(_) => 4,
        }
    }
}

impl Action {
    /// An order for `symbol` of the given kind, size and price.
    pub open spec fn spec_is_order(
        self,
        symbol: Seq<char>,
        order_type: OrderType,
        size: Decimal,
        price: Option<Decimal>,
    ) -> bool {
        self matches Action::PlaceOrder { symbol: s, order_type: t, size: z, price: p } && s@
            == symbol && t == order_type && z == size && p == price
    }
}

/// The trading loop for one configuration and one strategy.
pub struct TradingSystem<S: Strategy> {
    config: Arc<TradingConfig>,
    strategy: S,
    risk_manager: RiskManager,
}

impl<S: Strategy> TradingSystem<S> {
    pub closed spec fn spec_strategy(self) -> S {
        self.strategy
    }

    pub closed spec fn spec_risk(self) -> RiskManager {
        self.risk_manager
    }

    /// The symbols traded, in the order in which a cycle goes through them.
    pub closed spec fn spec_symbols(self) -> Seq<String> {
        self.config.symbols@
    }

    /// A trading loop around any strategy, with an empty snapshot of
    /// positions; refused when the risk limits are not valid.
    pub fn with_strategy(config: Arc<TradingConfig>, strategy: S) -> (r: Result<
        TradingSystem<S>,
        Error,
    >)
        ensures
            r is Ok <==> config.risk_limits.spec_is_valid(),
            r matches Ok(t) ==> t.spec_strategy() == strategy && t.spec_symbols()
                == config.symbols@ && t.spec_risk().spec_limits() == config.risk_limits
                && t.spec_risk().spec_positions() =~= Seq::<Position>::empty(),
            r matches Err(e) ==> e is ConfigError,
    {
        match RiskManager::new(config.clone()) {
            Ok(risk_manager) => Ok(TradingSystem { config, strategy, risk_manager }),
            Err(e) => Err(e),
        }
    }

    /// The step ended in the failure `e`.
    pub open spec fn spec_failed_with(r: Step, e: Error) -> bool {
        r.state == PipelineState::Failed(e) && r.action is Finish
    }

    /// The step ended because the event was not the one awaited.
    pub open spec fn spec_unexpected(r: Step) -> bool {
        r.state matches PipelineState::Failed(Error::UnknownError(m)) && m@ == "unexpected event"@
            && r.action is Finish
    }

    /// The step ended with an unprotected position in `symbol`, and `cause`
    /// holds of what caused it.
    pub open spec fn spec_unprotected(
        r: Step,
        symbol: Seq<char>,
        cause: spec_fn(Error) -> bool,
    ) -> bool {
        r.state matches PipelineState::Failed(Error::ProtectiveOrderFailed { symbol: s, cause: c })
            && s@ == symbol && cause(*c) && r.action is Finish
    }

    /// After the candles came: the strategy decides, and the current price is
    /// asked for; where it cannot decide the pipeline fails, on too short a
    /// history with `InsufficientData`.
    pub open spec fn spec_after_klines(self, symbol: Seq<char>, data: Seq<Kline>, r: Step) -> bool {
        match self.spec_strategy().spec_signal(data) {
            Some(signal) => r.state == (PipelineState::Deciding { signal }) && (
            r.action matches Action::FetchTicker { symbol: s } && s@ == symbol),
            None => r.state is Failed && r.action is Finish && (data.len()
                < self.spec_strategy().spec_min_history() ==> (
            r.state matches PipelineState::Failed(Error::InsufficientData { required, available })
                && required == self.spec_strategy().spec_min_history() && available
                == data.len())),
        }
    }

    /// A buy signal at `price`: the strategy sizes the position, the risk
    /// limits are checked, and only an admitted purchase is ordered, at
    /// market.
    pub open spec fn spec_after_buy(self, symbol: Seq<char>, price: Decimal, r: Step) -> bool {
        match self.spec_strategy().spec_position_size(price) {
            Some(size) => match spec_check(
                self.spec_risk().spec_limits(),
                self.spec_risk().spec_positions(),
                size,
                price,
            ) {
                Some(true) => r.state == (PipelineState::Entering { size, price })
                    && r.action.spec_is_order(symbol, OrderType::Buy, size, None),
                Some(false) => r.state == PipelineState::Done(Outcome::RiskRejected)
                    && r.action is Finish,
                None => r.state matches PipelineState::Failed(Error::RiskError(_))
                    && r.action is Finish,
            },
            None => r.state is Failed && r.action is Finish,
        }
    }

    /// A sell signal, once the positions are known: the whole of the first
    /// position in `symbol` is sold at market; with no such position there is
    /// nothing to do, and that is no failure.
    pub open spec fn spec_after_sell(
        self,
        symbol: Seq<char>,
        positions: Seq<Position>,
        r: Step,
    ) -> bool {
        match spec_find_position(positions, symbol) {
            Some(i) => r.state == PipelineState::Exiting && r.action.spec_is_order(
                symbol,
                OrderType::Sell,
                positions[i].size,
                None,
            ),
            None => r.state == PipelineState::Done(Outcome::NothingToSell) && r.action is Finish,
        }
    }

    /// After the entry was filled: a stop-loss of the same size is ordered
    /// at the stop price; where that price cannot be computed the position
    /// stays unprotected.
    pub open spec fn spec_after_entry(
        self,
        symbol: Seq<char>,
        size: Decimal,
        price: Decimal,
        entry: Order,
        r: Step,
    ) -> bool {
        match spec_stop_loss(self.spec_risk().spec_limits(), price) {
            Some(stop) => r.state == (PipelineState::Protecting { entry })
                && r.action.spec_is_order(symbol, OrderType::StopLoss, size, Some(stop)),
            None => Self::spec_unprotected(r, symbol, |c: Error| c is RiskError),
        }
    }

    /// The transition relation of the pipeline: `r` is the step that follows
    /// `state` on `event`.
    pub open spec fn spec_transition(
        self,
        symbol: Seq<char>,
        state: PipelineState,
        event: Event,
        r: Step,
    ) -> bool {
        match state {
            PipelineState::Fetching => match event {
                Event::Klines(Ok(data)) => self.spec_after_klines(symbol, data@, r),
                Event::Klines(Err(e)) => Self::spec_failed_with(r, e),
                _ => Self::spec_unexpected(r),
            },
            PipelineState::Deciding { signal } => match event {
                Event::Ticker(Ok(price)) => match signal {
                    Signal::Buy => self.spec_after_buy(symbol, price, r),
                    Signal::Sell => r.state == PipelineState::Locating && r.action is GetPositions,
                    Signal::Hold => r.state == PipelineState::Done(Outcome::Held)
                        && r.action is Finish,
                },
                Event::Ticker(Err(e)) => Self::spec_failed_with(r, e),
                _ => Self::spec_unexpected(r),
            },
            PipelineState::Entering { size, price } => match event {
                Event::OrderPlaced(Ok(entry)) => self.spec_after_entry(
                    symbol,
                    size,
                    price,
                    entry,
                    r,
                ),
                Event::OrderPlaced(Err(e)) => Self::spec_failed_with(r, e),
                _ => Self::spec_unexpected(r),
            },
            PipelineState::Protecting { entry } => match event {
                Event::OrderPlaced(Ok(stop_loss)) => r.state == PipelineState::Done(
                    Outcome::Bought { entry, stop_loss },
                ) && r.action is Finish,
                Event::OrderPlaced(Err(e)) => Self::spec_unprotected(r, symbol, |c: Error| c == e),
                _ => Self::spec_unprotected(r, symbol, |c: Error| c is UnknownError),
            },
            PipelineState::Locating => match event {
                Event::Positions(Ok(positions)) => self.spec_after_sell(symbol, positions@, r),
                Event::Positions(Err(e)) => Self::spec_failed_with(r, e),
                _ => Self::spec_unexpected(r),
            },
            PipelineState::Exiting => match event {
                Event::OrderPlaced(Ok(order)) => r.state == PipelineState::Done(
                    Outcome::Sold { order },
                ) && r.action is Finish,
                Event::OrderPlaced(Err(e)) => Self::spec_failed_with(r, e),
                _ => Self::spec_unexpected(r),
            },
            PipelineState::Done(_) => r.state == state && r.action is Finish,
            PipelineState::Failed(_) => r.state == state && r.action is Finish,
        }
    }

    /// The first step for a symbol: its candles are asked for.
    pub fn begin_symbol(&self, symbol: &str) -> (r: Step)
        ensures
            r.state == PipelineState::Fetching,
            r.action matches Action::FetchKlines { symbol: s, interval, limit } && s@ == symbol@
                && interval@ == KLINE_INTERVAL@ && limit == KLINE_LIMIT,
    {
        Step {
            state: PipelineState::Fetching,
            action: Action::FetchKlines {
                symbol: symbol.to_string(),
                interval: KLINE_INTERVAL.to_string(),
                limit: KLINE_LIMIT,
            },
        }
    }

    /// Handles a buy signal at the current price.
    pub fn handle_buy_signal(&self, symbol: &str, price: Decimal) -> (r: Step)
        ensures
            self.spec_after_buy(symbol@, price, r),
    {
        let size = match self.strategy.calculate_position_size(price) {
            Ok(size) => size,
            Err(e) => {
                return Step { state: PipelineState::Failed(e), action: Action::Finish };
            },
        };
        match self.risk_manager.check_risk(symbol, size, price) {
            Ok(true) => Step {
                state: PipelineState::Entering { size, price },
                action: Action::PlaceOrder {
                    symbol: symbol.to_string(),
                    order_type: OrderType::Buy,
                    size,
                    price: None,
                },
            },
            Ok(false) => Step {
                state: PipelineState::Done(Outcome::RiskRejected),
                action: Action::Finish,
            },
            Err(e) => Step { state: PipelineState::Failed(e), action: Action::Finish },
        }
    }

    /// Handles a sell signal, given the positions the venue reports.
    pub fn handle_sell_signal(&self, symbol: &str, positions: &Vec<Position>) -> (r: Step)
        ensures
            self.spec_after_sell(symbol@, positions@, r),
    {
        match find_position(positions, symbol) {
            Some(i) => {
                proof {
                    lemma_find_position(positions@, symbol@);
                }
                Step {
                    state: PipelineState::Exiting,
                    action: Action::PlaceOrder {
                        symbol: symbol.to_string(),
                        order_type: OrderType::Sell,
                        size: positions[i].size,
                        price: None,
                    },
                }
            },
            None => Step {
                state: PipelineState::Done(Outcome::NothingToSell),
                action: Action::Finish,
            },
        }
    }

    /// Takes the pipeline of `symbol` one step on: from the state it is in
    /// and the event that came, to the next state and the action to perform.
    /// A failure at any stage ends the pipeline of this symbol and of no
    /// other.
    pub fn process_symbol(&self, symbol: &str, state: PipelineState, event: Event) -> (r: Step)
        ensures
            self.spec_transition(symbol@, state, event, r),
    {
        match state {
            PipelineState::Fetching => match event {
                Event::Klines(Ok(data)) => match self.strategy.generate_signal(data.as_slice()) {
                    Ok(signal) => Step {
                        state: PipelineState::Deciding { signal },
                        action: Action::FetchTicker { symbol: symbol.to_string() },
                    },
                    Err(e) => failed(e),
                },
                Event::Klines(Err(e)) => failed(e),
                _ => unexpected(),
            },
            PipelineState::Deciding { signal } => match event {
                Event::Ticker(Ok(price)) => match signal {
                    Signal::Buy => self.handle_buy_signal(symbol, price),
                    Signal::Sell => Step {
                        state: PipelineState::Locating,
                        action: Action::GetPositions,
                    },
                    Signal::Hold => Step {
                        state: PipelineState::Done(Outcome::Held),
                        action: Action::Finish,
                    },
                },
                Event::Ticker(Err(e)) => failed(e),
                _ => unexpected(),
            },
            PipelineState::Entering { size, price } => match event {
                Event::OrderPlaced(Ok(entry)) => match self.risk_manager.calculate_stop_loss(
                    price,
                ) {
                    Ok(stop) => Step {
                        state: PipelineState::Protecting { entry },
                        action: Action::PlaceOrder {
                            symbol: symbol.to_string(),
                            order_type: OrderType::StopLoss,
                            size,
                            price: Some(stop),
                        },
                    },
                    Err(e) => unprotected(symbol, e),
                },
                Event::OrderPlaced(Err(e)) => failed(e),
                _ => unexpected(),
            },
            PipelineState::Protecting { entry } => match event {
                Event::OrderPlaced(Ok(stop_loss)) => Step {
                    state: PipelineState::Done(Outcome::Bought { entry, stop_loss }),
                    action: Action::Finish,
                },
                Event::OrderPlaced(Err(e)) => unprotected(symbol, e),
                _ => unprotected(symbol, Error::UnknownError("unexpected event".to_string())),
            },
            PipelineState::Locating => match event {
                Event::Positions(Ok(positions)) => self.handle_sell_signal(symbol, &positions),
                Event::Positions(Err(e)) => failed(e),
                _ => unexpected(),
            },
            PipelineState::Exiting => match event {
                Event::OrderPlaced(Ok(order)) => Step {
                    state: PipelineState::Done(Outcome::Sold { order }),
                    action: Action::Finish,
                },
                Event::OrderPlaced(Err(e)) => failed(e),
                _ => unexpected(),
            },
            PipelineState::Done(outcome) => Step {
                state: PipelineState::Done(outcome),
                action: Action::Finish,
            },
            PipelineState::Failed(e) => failed(e),
        }
    }
}

/// The step that ends a pipeline in the failure `e`.
fn failed(e: Error) -> (r: Step)
    ensures
        r.state == PipelineState::Failed(e),
        r.action is Finish,
{
    Step { state: PipelineState::Failed(e), action: Action::Finish }
}

/// The step that ends a pipeline on an event that was not awaited.
fn unexpected() -> (r: Step)
    ensures
        r.state matches PipelineState::Failed(Error::UnknownError(m)) && m@ == "unexpected event"@,
        r.action is Finish,
{
    failed(Error::UnknownError("unexpected event".to_string()))
}

/// The step that ends a pipeline with an entry that has no stop-loss.
fn unprotected(symbol: &str, cause: Error) -> (r: Step)
    ensures
        r.state matches PipelineState::Failed(Error::ProtectiveOrderFailed { symbol: s, cause: c })
            && s@ == symbol@ && *c == cause,
        r.action is Finish,
{
    failed(Error::ProtectiveOrderFailed { symbol: symbol.to_string(), cause: Box::new(cause) })
}

impl TradingSystem<MACrossStrategy> {
    /// A trading loop with the crossover strategy. Only the venue `binance`
    /// is known; the configuration is refused for any other, and when its
    /// risk limits or its windows are not valid.
    pub fn new(config: TradingConfig) -> (r: Result<TradingSystem<MACrossStrategy>, Error>)
        ensures
            r is Ok <==> config.exchange@ == "binance"@ && config.spec_is_valid(),
            r matches Ok(t) ==> t.spec_strategy().spec_config() == config && t.spec_symbols()
                == config.symbols@ && t.spec_risk().spec_limits() == config.risk_limits
                && t.spec_risk().spec_positions() =~= Seq::<Position>::empty(),
            r matches Err(e) ==> e is ConfigError,
            config.exchange@ != "binance"@ ==> (r matches Err(Error::ConfigError(m)) && m@
                == "Unsupported exchange"@),
    {
        if config.exchange != "binance".to_string() {
            return Err(Error::config("Unsupported exchange"));
        }
        let config = Arc::new(config);
        let strategy = match MACrossStrategy::new(config.clone()) {
            Ok(strategy) => strategy,
            Err(e) => {
                return Err(e);
            },
        };
        TradingSystem::with_strategy(config, strategy)
    }
}

/// Where a cycle stands.
#[derive(Clone, Copy, Debug, PartialEq, Eq, Structural)]
pub enum CycleState {
    /// At the top of a cycle.
    Idle,
    /// The positions have been asked for, to refresh the snapshot.
    Refreshing,
    /// The symbols before `next` have been handed out.
    Processing { next: usize },
    /// The snapshot could not be refreshed: nothing is traded this cycle.
    Resting,
    /// The loop was told to stop.
    Stopped,
}

/// What the caller is to do next in a cycle.
#[derive(Clone, Copy, Debug, PartialEq, Eq, Structural)]
pub enum CycleAction {
    /// Ask the venue for the positions and report them with
    /// `refresh_positions`.
    RefreshPositions,
    /// Run the pipeline of the symbol at `index` to its end.
    ProcessSymbol { index: usize },
    Sleep { seconds: u64 },
    /// Leave the loop.
    Stop,
}

#[derive(Clone, Copy, Debug, PartialEq, Eq, Structural)]
pub struct CycleStep {
    pub state: CycleState,
    pub action: CycleAction,
}

/// The schedule of a loop over `symbols` symbols. A cycle refreshes the
/// snapshot once, hands out every symbol in order, whatever became of the
/// ones before, and pauses. A request to stop is honoured at the top of a
/// cycle and between two symbols, never in the middle of a pipeline.
pub open spec fn spec_run(symbols: nat, state: CycleState, stop_requested: bool) -> CycleStep {
    let stop = CycleStep { state: CycleState::Stopped, action: CycleAction::Stop };
    let pause = CycleStep {
        state: CycleState::Idle,
        action: CycleAction::Sleep { seconds: CYCLE_PAUSE_SECONDS },
    };
    match state {
        CycleState::Stopped => stop,
        CycleState::Idle => if stop_requested {
            stop
        } else {
            CycleStep { state: CycleState::Refreshing, action: CycleAction::RefreshPositions }
        },
        CycleState::Refreshing => CycleStep {
            state: CycleState::Refreshing,
            action: CycleAction::RefreshPositions,
        },
        CycleState::Processing { next } => if stop_requested {
            stop
        } else if next < symbols {
            CycleStep {
                state: CycleState::Processing { next: (next + 1) as usize },
                action: CycleAction::ProcessSymbol { index: next },
            }
        } else {
            pause
        },
        CycleState::Resting => if stop_requested {
            stop
        } else {
            pause
        },
    }
}

impl<S: Strategy> TradingSystem<S> {
    /// The next step of the loop.
    pub fn run(&self, state: CycleState, stop_requested: bool) -> (r: CycleStep)
        ensures
            r == spec_run(self.spec_symbols().len(), state, stop_requested),
    {
        let stop = CycleStep { state: CycleState::Stopped, action: CycleAction::Stop };
        let pause = CycleStep {
            state: CycleState::Idle,
            action: CycleAction::Sleep { seconds: CYCLE_PAUSE_SECONDS },
        };
        match state {
            CycleState::Stopped => stop,
            CycleState::Idle => if stop_requested {
                stop
            } else {
                CycleStep { state: CycleState::Refreshing, action: CycleAction::RefreshPositions }
            },
            CycleState::Refreshing => CycleStep {
                state: CycleState::Refreshing,
                action: CycleAction::RefreshPositions,
            },
            CycleState::Processing { next } => if stop_requested {
                stop
            } else if next < self.config.symbols.len() {
                CycleStep {
                    state: CycleState::Processing { next: next + 1 },
                    action: CycleAction::ProcessSymbol { index: next },
                }
            } else {
                pause
            },
            CycleState::Resting => if stop_requested {
                stop
            } else {
                pause
            },
        }
    }

    /// Takes in what the venue answered when asked for the positions. While
    /// the cycle waits for them, positions replace the snapshot and the
    /// symbols come next; a failure leaves the snapshot alone and the cycle
    /// without trades. At any other time nothing changes.
    pub fn refresh_positions(&mut self, state: CycleState, result: Result<Vec<Position>, Error>) -> (r:
        CycleState)
        ensures
            final(self).spec_strategy() == old(self).spec_strategy(),
            final(self).spec_symbols() == old(self).spec_symbols(),
            final(self).spec_risk().spec_limits() == old(self).spec_risk().spec_limits(),
            state == CycleState::Refreshing ==> match result {
                Ok(positions) => r == (CycleState::Processing { next: 0 })
                    && final(self).spec_risk().spec_positions() == spec_snapshot(positions@),
                Err(_) => r == CycleState::Resting && final(self).spec_risk().spec_positions()
                    == old(self).spec_risk().spec_positions(),
            },
            state != CycleState::Refreshing ==> r == state
                && final(self).spec_risk().spec_positions() == old(
                self,
            ).spec_risk().spec_positions(),
    {
        match state {
            CycleState::Refreshing => match result {
                Ok(positions) => {
                    self.risk_manager.update_positions(positions);
                    CycleState::Processing { next: 0 }
                },
                Err(_) => CycleState::Resting,
            },
            _ => state,
        }
    }

    /// The symbol at `index` in the order of a cycle.
    pub fn symbol(&self, index: usize) -> (r: Option<&String>)
        ensures
            index < self.spec_symbols().len() ==> r == Some(&self.spec_symbols()[index as int]),
            index >= self.spec_symbols().len() ==> r is None,
    {
        if index < self.config.symbols.len() {
            Some(&self.config.symbols[index])
        } else {
            None
        }
    }

    /// The snapshot of positions the risk limits are checked against.
    pub fn positions(&self) -> (r: &Vec<Position>)
        ensures
            r@ == self.spec_risk().spec_positions(),
    {
        self.risk_manager.positions()
    }

    /// A pipeline only moves forward, and it ends exactly when there is
    /// nothing more to do: a state that has ended stays as it is; any other
    /// state is followed by one further on; and the action is `Finish` exactly
    /// when the new state has ended.
    pub proof fn law_pipeline_advances(
        self,
        symbol: Seq<char>,
        state: PipelineState,
        event: Event,
        r: Step,
    )
        requires
            self.spec_transition(symbol, state, event, r),
        ensures
            state.spec_is_terminal() ==> r.state == state,
            !state.spec_is_terminal() ==> r.state.spec_rank() > state.spec_rank(),
            r.action is Finish <==> r.state.spec_is_terminal(),
    {
    }

    /// No purchase without admission: an order to buy is asked for only on a
    /// buy signal, at the price that came, for the size the strategy gave,
    /// and after the risk limits admitted exactly that trade.
    pub proof fn law_entry_needs_admission(
        self,
        symbol: Seq<char>,
        state: PipelineState,
        event: Event,
        r: Step,
    )
        requires
            self.spec_transition(symbol, state, event, r),
            r.action matches Action::PlaceOrder { order_type: OrderType::Buy, .. },
        ensures
            state matches PipelineState::Deciding { signal: Signal::Buy },
            event matches Event::Ticker(Ok(price)) && (self.spec_strategy().spec_position_size(
                price,
            ) matches Some(size) && spec_check(
                self.spec_risk().spec_limits(),
                self.spec_risk().spec_positions(),
                size,
                price,
            ) == Some(true) && r.action.spec_is_order(symbol, OrderType::Buy, size, None)),
    {
    }

    /// A stop-loss is asked for only right after the entry it protects was
    /// filled, and a failure to place it is reported as an unprotected
    /// position in that symbol.
    pub proof fn law_stop_loss_follows_entry(
        self,
        symbol: Seq<char>,
        state: PipelineState,
        event: Event,
        r: Step,
    )
        requires
            self.spec_transition(symbol, state, event, r),
        ensures
            r.action matches Action::PlaceOrder { order_type: OrderType::StopLoss, .. } ==> (
            state is Entering && event matches Event::OrderPlaced(Ok(_))),
            state is Protecting && !(event matches Event::OrderPlaced(Ok(_))) ==> (
            r.state matches PipelineState::Failed(Error::ProtectiveOrderFailed { symbol: s, .. })
                && s@ == symbol),
    {
    }
}

} // verus!
