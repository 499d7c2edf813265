use vstd::prelude::*;
use crate::history::{last_window, window_push, window_push_all, PriceHistory, HISTORY_CAPACITY};
use crate::models::{
    stage, spec_is_second_leg, spec_opposite, BotState, Side, TradeType,
};

verus! {

/// A trade recorded by the bot: its role in the round, the side it bought, and
/// the fill details (price, shares, cost, time) that the caller measured.
#[derive(Clone, Copy)]
pub struct TradeEntry<A> {
    pub trade_type: TradeType,
    pub side: Side,
    pub fill: A,
}

/// What one price snapshot showed, reduced to the comparisons the bot acts on.
///
/// The caller derives each flag from the snapshot's prices and the bot's
/// thresholds; `prices` is the snapshot's Yes/No price pair, which the bot
/// records for dump detection; `yes_fill` and `no_fill` describe buying the
/// configured number of shares of each side at the snapshot's current price.
#[derive(Clone, Copy)]
pub struct Observation<A, P> {
    /// The snapshot came after the dump-detection window closed.
    pub past_window: bool,
    /// The snapshot's Yes/No price pair.
    pub prices: P,
    /// The Yes price fell by at least the move threshold from the oldest
    /// recorded pair, once this snapshot's pair is recorded
    /// (see `DumpHedgeTrader::oldest_after_recording`).
    pub yes_dumped: bool,
    /// The same for the No price.
    pub no_dumped: bool,
    /// Buying Yes now.
    pub yes_fill: A,
    /// Buying No now.
    pub no_fill: A,
    /// The first leg's price plus the opposite side's current price is within the sum target.
    pub within_target: bool,
    /// The first leg has waited at least the stop-loss time.
    pub waited_out: bool,
    /// At most the final-exit margin of the round remains.
    pub near_end: bool,
    /// The round is within its last second.
    pub round_over: bool,
}

/// What the bot did on a snapshot.
#[derive(Clone, Copy, Debug, PartialEq, Eq, Structural)]
pub enum Action {
    /// Bought the first leg on the side that dumped.
    Leg1(Side),
    /// Bought the second leg, of this kind, on this side.
    Leg2(TradeType, Side),
    /// Closed the round.
    RoundComplete,
}

/// The number of recorded price pairs needed before a dump can be detected.
pub const MIN_HISTORY: usize = 3;

/// The abstract state of the bot.
pub struct TraderView<A, P> {
    pub state: BotState,
    pub leg1_side: Option<Side>,
    pub leg2_type: Option<TradeType>,
    pub trades: Seq<TradeEntry<A>>,
    /// The price pairs recorded for dump detection, oldest first.
    pub history: Seq<P>,
}

/// The state in which a round starts.
pub open spec fn initial<A, P>() -> TraderView<A, P> {
    TraderView {
        state: BotState::Idle,
        leg1_side: None,
        leg2_type: None,
        trades: Seq::empty(),
        history: Seq::empty(),
    }
}

/// What a well-formed bot state looks like in each stage of a round.
pub open spec fn wf_view<A, P>(v: TraderView<A, P>) -> bool {
    &&& v.history.len() <= HISTORY_CAPACITY
    &&& v.state == BotState::Idle ==> v.history.len() == 0
    &&& stage(v.state) >= 2 ==> v.history.len() >= MIN_HISTORY
    &&& wf_stage(v)
}

/// The legs and trades that each stage of a round holds.
pub open spec fn wf_stage<A, P>(v: TraderView<A, P>) -> bool {
    match v.state {
        BotState::Idle | BotState::Watching => {
            &&& v.leg1_side is None
            &&& v.leg2_type is None
            &&& v.trades.len() == 0
        },
        BotState::Leg1Placed => {
            &&& v.leg1_side is Some
            &&& v.leg2_type is None
            &&& v.trades.len() == 1
            &&& v.trades[0].trade_type == TradeType::Leg1
            &&& v.trades[0].side == v.leg1_side->0
        },
        BotState::Hedging | BotState::Complete => {
            &&& v.leg1_side is Some
            &&& v.leg2_type is Some
            &&& spec_is_second_leg(v.leg2_type->0)
            &&& v.trades.len() == 2
            &&& v.trades[0].trade_type == TradeType::Leg1
            &&& v.trades[0].side == v.leg1_side->0
            &&& v.trades[1].trade_type == v.leg2_type->0
            &&& v.trades[1].side == spec_opposite(v.leg1_side->0)
        },
    }
}

/// The fill for buying `side` on this snapshot.
pub open spec fn fill_for<A, P>(o: Observation<A, P>, side: Side) -> A {
    match side {
        Side::Yes => o.yes_fill,
        Side::No => o.no_fill,
    }
}

/// The state after buying the first leg on `side`.
pub open spec fn after_leg1<A, P>(v: TraderView<A, P>, side: Side, fill: A) -> TraderView<A, P> {
    TraderView {
        state: BotState::Leg1Placed,
        leg1_side: Some(side),
        trades: v.trades.push(TradeEntry { trade_type: TradeType::Leg1, side, fill }),
        ..v
    }
}

/// The state after buying the second leg of kind `t` on `side`.
pub open spec fn after_leg2<A, P>(v: TraderView<A, P>, t: TradeType, side: Side, fill: A) -> TraderView<A, P> {
    TraderView {
        state: BotState::Hedging,
        leg2_type: Some(t),
        trades: v.trades.push(TradeEntry { trade_type: t, side, fill }),
        ..v
    }
}

/// The kind of second leg the bot buys while its first leg is open, if any:
/// a hedge when the pair is cheap enough, else a stop-loss once the wait is
/// over, else a final exit near the end of the round.
pub open spec fn second_leg_kind<A, P>(o: Observation<A, P>) -> Option<TradeType> {
    if o.within_target {
        Some(TradeType::Leg2Hedge)
    } else if o.waited_out {
        Some(TradeType::Leg2StopLoss)
    } else if o.near_end {
        Some(TradeType::Leg2Final)
    } else {
        None
    }
}

/// Whether a snapshot's prices are recorded for dump detection: only while
/// watching, and only inside the dump window.
pub open spec fn records<A, P>(v: TraderView<A, P>, o: Observation<A, P>) -> bool {
    v.state == BotState::Watching && !o.past_window
}

/// One snapshot's effect on the bot: the next state and what it did.
pub open spec fn step<A, P>(v: TraderView<A, P>, o: Observation<A, P>) -> (TraderView<A, P>, Option<Action>) {
    match v.state {
        BotState::Idle => (TraderView { state: BotState::Watching, ..v }, None),
        BotState::Watching => {
            if o.past_window {
                (v, None)
            } else {
                let w = TraderView { history: window_push(v.history, o.prices), ..v };
                if w.history.len() < MIN_HISTORY {
                    (w, None)
                } else if o.yes_dumped {
                    (after_leg1(w, Side::Yes, o.yes_fill), Some(Action::Leg1(Side::Yes)))
                } else if o.no_dumped {
                    (after_leg1(w, Side::No, o.no_fill), Some(Action::Leg1(Side::No)))
                } else {
                    (w, None)
                }
            }
        },
        BotState::Leg1Placed => {
            let hedge_side = spec_opposite(v.leg1_side->0);
            match second_leg_kind(o) {
                Some(t) => (
                    after_leg2(v, t, hedge_side, fill_for(o, hedge_side)),
                    Some(Action::Leg2(t, hedge_side)),
                ),
                None => (v, None),
            }
        },
        BotState::Hedging => {
            if o.round_over {
                (TraderView { state: BotState::Complete, ..v }, Some(Action::RoundComplete))
            } else {
                (v, None)
            }
        },
        BotState::Complete => (v, None),
    }
}

/// The state after feeding a sequence of snapshots to the bot.
pub open spec fn run<A, P>(v: TraderView<A, P>, obs: Seq<Observation<A, P>>) -> TraderView<A, P>
    decreases obs.len(),
{
    if obs.len() == 0 {
        v
    } else {
        run(step(v, obs[0]).0, obs.drop_first())
    }
}

/// The dump-and-hedge bot of one round: its stage, its legs and its trade log.
pub struct DumpHedgeTrader<A, P> {
    state: BotState,
    leg1_side: Option<Side>,
    leg2_type: Option<TradeType>,
    trades: Vec<TradeEntry<A>>,
    history: PriceHistory<P>,
}

impl<A, P> View for DumpHedgeTrader<A, P> {
    type V = TraderView<A, P>;

    closed spec fn view(&self) -> TraderView<A, P> {
        TraderView {
            state: self.state,
            leg1_side: self.leg1_side,
            leg2_type: self.leg2_type,
            trades: self.trades@,
            history: self.history@,
        }
    }
}

impl<A: Copy, P: Copy> DumpHedgeTrader<A, P> {
    /// Whether the bot's fields agree with its stage.
    pub open spec fn wf(&self) -> bool {
        wf_view(self@)
    }

    /// A bot at the start of a round.
    pub fn new() -> (r: DumpHedgeTrader<A, P>)
        ensures
            r@ == initial::<A, P>(),
            r.wf(),
    {
        DumpHedgeTrader {
            state: BotState::Idle,
            leg1_side: None,
            leg2_type: None,
            trades: Vec::new(),
            history: PriceHistory::new(),
        }
    }

    /// Starts a new round: back to `Idle`, no legs, no trades, no recorded prices.
    pub fn reset(&mut self)
        ensures
            final(self)@ == initial::<A, P>(),
            final(self).wf(),
    {
        self.state = BotState::Idle;
        self.leg1_side = None;
        self.leg2_type = None;
        self.trades.clear();
        self.history.clear();
    }

    /// The price pairs recorded for dump detection, oldest first.
    pub fn history(&self) -> (r: &Vec<P>)
        ensures
            r@ == self@.history,
    {
        self.history.entries()
    }

    /// The oldest recorded pair once `prices` is recorded: the pair from which
    /// a dump on this snapshot is measured.
    pub fn oldest_after_recording(&self, prices: P) -> (r: P)
        requires
            self.wf(),
        ensures
            r == window_push(self@.history, prices)[0],
    {
        self.history.oldest_after_push(prices)
    }

    pub fn state(&self) -> (r: BotState)
        ensures
            r == self@.state,
    {
        self.state
    }

    pub fn leg1_side(&self) -> (r: Option<Side>)
        ensures
            r == self@.leg1_side,
    {
        self.leg1_side
    }

    pub fn leg2_type(&self) -> (r: Option<TradeType>)
        ensures
            r == self@.leg2_type,
    {
        self.leg2_type
    }

    /// The trades of the round, in the order they were made.
    pub fn trades(&self) -> (r: &Vec<TradeEntry<A>>)
        ensures
            r@ == self@.trades,
    {
        &self.trades
    }

    /// Feeds one snapshot to the bot. It returns what the bot did and moves it
    /// on exactly as `step` says.
    pub fn on_snapshot(&mut self, obs: Observation<A, P>) -> (r: Option<Action>)
        requires
            old(self).wf(),
        ensures
            final(self).wf(),
            (final(self)@, r) == step(old(self)@, obs),
    {
        proof {
            lemma_step_preserves_wf(self@, obs);
        }
        match self.state {
            BotState::Idle => {
                self.state = BotState::Watching;
                None
            },
            BotState::Watching => {
                if obs.past_window {
                    return None;
                }
                self.history.push(obs.prices);
                if self.history.len() < MIN_HISTORY {
                    None
                } else if obs.yes_dumped {
                    self.buy_leg1(Side::Yes, obs.yes_fill);
                    Some(Action::Leg1(Side::Yes))
                } else if obs.no_dumped {
                    self.buy_leg1(Side::No, obs.no_fill);
                    Some(Action::Leg1(Side::No))
                } else {
                    None
                }
            },
            BotState::Leg1Placed => {
                let leg1 = match self.leg1_side {
                    Some(s) => s,
                    None => {
                        return None;
                    },
                };
                let hedge_side = leg1.opposite();
                let fill = match hedge_side {
                    Side::Yes => obs.yes_fill,
                    Side::No => obs.no_fill,
                };
                let kind = if obs.within_target {
                    Some(TradeType::Leg2Hedge)
                } else if obs.waited_out {
                    Some(TradeType::Leg2StopLoss)
                } else if obs.near_end {
                    Some(TradeType::Leg2Final)
                } else {
                    None
                };
                match kind {
                    Some(t) => {
                        self.state = BotState::Hedging;
                        self.leg2_type = Some(t);
                        self.trades.push(TradeEntry { trade_type: t, side: hedge_side, fill });
                        Some(Action::Leg2(t, hedge_side))
                    },
                    None => None,
                }
            },
            BotState::Hedging => {
                if obs.round_over {
                    self.state = BotState::Complete;
                    Some(Action::RoundComplete)
                } else {
                    None
                }
            },
            BotState::Complete => None,
        }
    }

    fn buy_leg1(&mut self, side: Side, fill: A)
        ensures
            final(self)@ == after_leg1(old(self)@, side, fill),
    {
        self.state = BotState::Leg1Placed;
        self.leg1_side = Some(side);
        self.trades.push(TradeEntry { trade_type: TradeType::Leg1, side, fill });
    }

    /// The positions of the trades that settle the round: the first first-leg
    /// trade and the first second-leg trade, when both exist.
    pub fn settlement_legs(&self) -> (r: Option<(usize, usize)>)
        ensures
            match r {
                Some((i, j)) => {
                    &&& i < self@.trades.len()
                    &&& j < self@.trades.len()
                    &&& self@.trades[i as int].trade_type == TradeType::Leg1
                    &&& spec_is_second_leg(self@.trades[j as int].trade_type)
                    &&& forall|k: int| 0 <= k < i ==> self@.trades[k].trade_type != TradeType::Leg1
                    &&& forall|k: int| 0 <= k < j ==> !spec_is_second_leg(self@.trades[k].trade_type)
                },
                None => {
                    ||| forall|k: int| 0 <= k < self@.trades.len() ==> self@.trades[k].trade_type != TradeType::Leg1
                    ||| forall|k: int| 0 <= k < self@.trades.len() ==> !spec_is_second_leg(self@.trades[k].trade_type)
                },
            },
            self.wf() ==> (r == if stage(self@.state) >= 3 { Some((0usize, 1usize)) } else { None::<(usize, usize)> }),
    {
        let n = self.trades.len();
        let mut leg1: Option<usize> = None;
        let mut i: usize = 0;
        while i < n
            invariant
                n == self@.trades.len(),
                i <= n,
                leg1 is None ==> forall|k: int| 0 <= k < i ==> self@.trades[k].trade_type != TradeType::Leg1,
                leg1 matches Some(a) ==> a < n && self@.trades[a as int].trade_type == TradeType::Leg1
                    && forall|k: int| 0 <= k < a ==> self@.trades[k].trade_type != TradeType::Leg1,
            decreases n - i,
        {
            if leg1.is_none() && self.trades[i].trade_type == TradeType::Leg1 {
                leg1 = Some(i);
            }
            i = i + 1;
        }
        let mut leg2: Option<usize> = None;
        let mut j: usize = 0;
        while j < n
            invariant
                n == self@.trades.len(),
                j <= n,
                leg2 is None ==> forall|k: int| 0 <= k < j ==> !spec_is_second_leg(self@.trades[k].trade_type),
                leg2 matches Some(b) ==> b < n && spec_is_second_leg(self@.trades[b as int].trade_type)
                    && forall|k: int| 0 <= k < b ==> !spec_is_second_leg(self@.trades[k].trade_type),
            decreases n - j,
        {
            if leg2.is_none() && self.trades[j].trade_type.is_second_leg() {
                leg2 = Some(j);
            }
            j = j + 1;
        }
        match (leg1, leg2) {
            (Some(a), Some(b)) => Some((a, b)),
            _ => None,
        }
    }
}

/// Every snapshot keeps the bot well formed.
pub proof fn lemma_step_preserves_wf<A, P>(v: TraderView<A, P>, o: Observation<A, P>)
    requires
        wf_view(v),
    ensures
        wf_view(step(v, o).0),
{
}

/// A snapshot moves the bot at most one stage forward and never back; it
/// appends at most one trade and keeps the earlier ones; and the bot buys a
/// leg exactly when it appends a trade.
pub proof fn lemma_step_progress<A, P>(v: TraderView<A, P>, o: Observation<A, P>)
    requires
        wf_view(v),
    ensures
        ({
            let (w, a) = step(v, o);
            &&& stage(w.state) == stage(v.state) || stage(w.state) == stage(v.state) + 1
            &&& w.trades.len() == v.trades.len() || w.trades.len() == v.trades.len() + 1
            &&& w.trades.subrange(0, v.trades.len() as int) == v.trades
            &&& (w.trades.len() == v.trades.len() + 1 <==> (a matches Some(Action::Leg1(_))
                || a matches Some(Action::Leg2(_, _))))
            &&& (a is Some ==> stage(w.state) == stage(v.state) + 1)
            &&& (stage(w.state) == stage(v.state) + 1 ==> (a is Some || v.state == BotState::Idle))
        }),
{
    let (w, a) = step(v, o);
    assert(w.trades.subrange(0, v.trades.len() as int) =~= v.trades);
}

/// The price pairs a sequence of snapshots records for dump detection, in order.
pub open spec fn recorded_prices<A, P>(v: TraderView<A, P>, obs: Seq<Observation<A, P>>) -> Seq<P>
    decreases obs.len(),
{
    if obs.len() == 0 {
        Seq::empty()
    } else {
        let here = if records(v, obs[0]) { seq![obs[0].prices] } else { Seq::empty() };
        here + recorded_prices(step(v, obs[0]).0, obs.drop_first())
    }
}

/// A snapshot's prices are recorded exactly when the bot is watching and the
/// dump window is open; an `Idle` or late snapshot leaves the recorded prices
/// as they were.
pub proof fn lemma_step_records<A, P>(v: TraderView<A, P>, o: Observation<A, P>)
    ensures
        step(v, o).0.history == if v.state == BotState::Watching && !o.past_window {
            window_push(v.history, o.prices)
        } else {
            v.history
        },
{
}

/// While watching, a snapshot after the dump window changes nothing and buys
/// nothing; one inside the window that leaves fewer than `MIN_HISTORY`
/// recorded pairs only records its pair.
pub proof fn lemma_watching_without_trade<A, P>(v: TraderView<A, P>, o: Observation<A, P>)
    requires
        v.state == BotState::Watching,
    ensures
        o.past_window ==> step(v, o) == (v, None::<Action>),
        !o.past_window && v.history.len() + 1 < MIN_HISTORY ==> step(v, o) == (
            TraderView { history: v.history.push(o.prices), ..v },
            None::<Action>,
        ),
{
}

/// After any sequence of snapshots, the bot's recorded prices are the window
/// of the pairs that the watching, in-window snapshots brought.
pub proof fn lemma_run_history<A, P>(v: TraderView<A, P>, obs: Seq<Observation<A, P>>)
    ensures
        run(v, obs).history == window_push_all(v.history, recorded_prices(v, obs)),
    decreases obs.len(),
{
    if obs.len() > 0 {
        let w = step(v, obs[0]).0;
        let rest = recorded_prices(w, obs.drop_first());
        lemma_run_history(w, obs.drop_first());
        if records(v, obs[0]) {
            let all = seq![obs[0].prices] + rest;
            assert(all[0] == obs[0].prices);
            assert(all.drop_first() =~= rest);
        } else {
            assert(Seq::<P>::empty() + rest =~= rest);
        }
    }
}

/// Within a round, the bot holds exactly the last `HISTORY_CAPACITY` pairs
/// recorded since the round started, so a first leg, which needs
/// `MIN_HISTORY` recorded pairs, comes no earlier than the third watching,
/// in-window snapshot.
pub proof fn lemma_round_history<A, P>(obs: Seq<Observation<A, P>>)
    ensures
        run(initial::<A, P>(), obs).history == last_window(recorded_prices(initial::<A, P>(), obs)),
{
    lemma_run_history(initial::<A, P>(), obs);
    crate::history::lemma_window_holds_latest(recorded_prices(initial::<A, P>(), obs));
}

/// A round that has bought a first leg has recorded at least `MIN_HISTORY`
/// price pairs from watching, in-window snapshots.
pub proof fn lemma_first_leg_needs_history<A, P>(obs: Seq<Observation<A, P>>)
    ensures
        run(initial::<A, P>(), obs).trades.len() >= 1 ==> recorded_prices(initial::<A, P>(), obs).len()
            >= MIN_HISTORY,
{
    lemma_round_history(obs);
    lemma_round_trades(obs);
    lemma_run_preserves_wf(initial::<A, P>(), obs);
}

/// The bot buys a first leg only while watching, inside the dump window, once
/// enough prices are recorded, and on the side that dumped, Yes before No.
pub proof fn lemma_first_leg_conditions<A, P>(v: TraderView<A, P>, o: Observation<A, P>, side: Side)
    requires
        step(v, o).1 == Some(Action::Leg1(side)),
    ensures
        v.state == BotState::Watching,
        !o.past_window,
        step(v, o).0.history == window_push(v.history, o.prices),
        step(v, o).0.history.len() >= MIN_HISTORY,
        side == Side::Yes <==> o.yes_dumped,
        side == Side::No ==> o.no_dumped,
        step(v, o).0.trades.last() == (TradeEntry { trade_type: TradeType::Leg1, side, fill: fill_for(o, side) }),
{
}

/// The bot buys a second leg only while its first leg is open, always on the
/// opposite side, and prefers a hedge to a stop-loss and a stop-loss to a
/// final exit.
pub proof fn lemma_second_leg_conditions<A, P>(v: TraderView<A, P>, o: Observation<A, P>, t: TradeType, side: Side)
    requires
        wf_view(v),
        step(v, o).1 == Some(Action::Leg2(t, side)),
    ensures
        v.state == BotState::Leg1Placed,
        side == spec_opposite(v.trades[0].side),
        t == TradeType::Leg2Hedge <==> o.within_target,
        t == TradeType::Leg2StopLoss <==> !o.within_target && o.waited_out,
        t == TradeType::Leg2Final <==> !o.within_target && !o.waited_out && o.near_end,
        step(v, o).0.trades.last() == (TradeEntry { trade_type: t, side, fill: fill_for(o, side) }),
{
}

/// The first snapshot of a round only starts watching: it buys nothing and
/// records nothing, whatever it shows.
pub proof fn lemma_idle_starts_watching<A, P>(v: TraderView<A, P>, o: Observation<A, P>)
    requires
        v.state == BotState::Idle,
    ensures
        step(v, o).1 is None,
        step(v, o).0.state == BotState::Watching,
        step(v, o).0.history == v.history,
        step(v, o).0.trades == v.trades,
        step(v, o).0.leg1_side == v.leg1_side,
        step(v, o).0.leg2_type == v.leg2_type,
{
}

/// While watching inside the dump window, once this snapshot's pair makes at
/// least `MIN_HISTORY` recorded pairs, a dump buys the first leg: on Yes when
/// Yes dumped, else on No when No dumped, at that side's fill, however many
/// pairs the window already holds. Without a dump the bot keeps watching.
pub proof fn lemma_dump_buys_first_leg<A, P>(v: TraderView<A, P>, o: Observation<A, P>)
    requires
        wf_view(v),
        v.state == BotState::Watching,
        !o.past_window,
        v.history.len() + 1 >= MIN_HISTORY,
    ensures
        o.yes_dumped ==> step(v, o).1 == Some(Action::Leg1(Side::Yes)),
        !o.yes_dumped && o.no_dumped ==> step(v, o).1 == Some(Action::Leg1(Side::No)),
        o.yes_dumped || o.no_dumped ==> {
            let side = if o.yes_dumped { Side::Yes } else { Side::No };
            &&& step(v, o).0.state == BotState::Leg1Placed
            &&& step(v, o).0.leg1_side == Some(side)
            &&& step(v, o).0.trades == v.trades.push(
                TradeEntry { trade_type: TradeType::Leg1, side, fill: fill_for(o, side) },
            )
        },
        !o.yes_dumped && !o.no_dumped ==> step(v, o).1 is None && step(v, o).0.state
            == BotState::Watching && step(v, o).0.trades == v.trades,
{
}

/// With the first leg open, a pair within the sum target is hedged at once:
/// the bot buys a hedge on the opposite side at that side's fill and moves to
/// `Hedging`, whatever the window, the wait and the time left.
pub proof fn lemma_within_target_hedges<A, P>(v: TraderView<A, P>, o: Observation<A, P>)
    requires
        wf_view(v),
        v.state == BotState::Leg1Placed,
        o.within_target,
    ensures
        ({
            let side = spec_opposite(v.trades[0].side);
            &&& step(v, o).1 == Some(Action::Leg2(TradeType::Leg2Hedge, side))
            &&& step(v, o).0.state == BotState::Hedging
            &&& step(v, o).0.leg2_type == Some(TradeType::Leg2Hedge)
            &&& step(v, o).0.trades == v.trades.push(
                TradeEntry { trade_type: TradeType::Leg2Hedge, side, fill: fill_for(o, side) },
            )
        }),
{
}

/// With the first leg open and no hedge in reach, a first leg that has waited
/// out the stop-loss time is closed by a stop-loss on the opposite side,
/// whatever the window and the time left.
pub proof fn lemma_waited_out_stops_loss<A, P>(v: TraderView<A, P>, o: Observation<A, P>)
    requires
        wf_view(v),
        v.state == BotState::Leg1Placed,
        !o.within_target,
        o.waited_out,
    ensures
        ({
            let side = spec_opposite(v.trades[0].side);
            &&& step(v, o).1 == Some(Action::Leg2(TradeType::Leg2StopLoss, side))
            &&& step(v, o).0.state == BotState::Hedging
            &&& step(v, o).0.trades == v.trades.push(
                TradeEntry { trade_type: TradeType::Leg2StopLoss, side, fill: fill_for(o, side) },
            )
        }),
{
}

/// With the first leg open, the end of the round always closes it: some
/// second leg is bought on the opposite side and the bot moves to `Hedging`,
/// whatever the window; a final exit when neither a hedge nor a stop-loss
/// applies.
pub proof fn lemma_near_end_closes_leg<A, P>(v: TraderView<A, P>, o: Observation<A, P>)
    requires
        wf_view(v),
        v.state == BotState::Leg1Placed,
        o.near_end,
    ensures
        step(v, o).0.state == BotState::Hedging,
        step(v, o).0.trades.len() == v.trades.len() + 1,
        step(v, o).1 matches Some(Action::Leg2(_, s)) && s == spec_opposite(v.trades[0].side),
        !o.within_target && !o.waited_out ==> step(v, o).1 == Some(
            Action::Leg2(TradeType::Leg2Final, spec_opposite(v.trades[0].side)),
        ),
{
}

/// With the first leg open and no reason to close it (no hedge in reach, the
/// wait not over, the end not near), the bot keeps waiting unchanged.
pub proof fn lemma_first_leg_waits<A, P>(v: TraderView<A, P>, o: Observation<A, P>)
    requires
        v.state == BotState::Leg1Placed,
        !o.within_target,
        !o.waited_out,
        !o.near_end,
    ensures
        step(v, o) == (v, None::<Action>),
{
}

/// Once both legs are bought, the round's last second completes the round,
/// whatever the window; before it the bot waits unchanged. Completing buys
/// nothing.
pub proof fn lemma_round_over_completes<A, P>(v: TraderView<A, P>, o: Observation<A, P>)
    requires
        v.state == BotState::Hedging,
    ensures
        o.round_over ==> step(v, o).1 == Some(Action::RoundComplete) && step(v, o).0.state
            == BotState::Complete && step(v, o).0.trades == v.trades && step(v, o).0.history
            == v.history,
        !o.round_over ==> step(v, o) == (v, None::<Action>),
{
}

/// The dump window matters only while watching: in every other stage two
/// snapshots that differ only in whether the window has closed have the same
/// effect.
pub proof fn lemma_window_only_matters_while_watching<A, P>(
    v: TraderView<A, P>,
    o1: Observation<A, P>,
    o2: Observation<A, P>,
)
    requires
        v.state != BotState::Watching,
        o2 == (Observation { past_window: o2.past_window, ..o1 }),
    ensures
        step(v, o1) == step(v, o2),
{
}

/// While watching inside the window, the decision does not depend on how full
/// the window is once it holds `MIN_HISTORY` pairs: two bots that differ only
/// in the pairs recorded before, both with at least `MIN_HISTORY - 1` of them,
/// take the same action on the same snapshot.
pub proof fn lemma_full_window_still_trades<A, P>(
    v1: TraderView<A, P>,
    v2: TraderView<A, P>,
    o: Observation<A, P>,
)
    requires
        wf_view(v1),
        wf_view(v2),
        v1.state == BotState::Watching,
        v2 == (TraderView { history: v2.history, ..v1 }),
        v1.history.len() + 1 >= MIN_HISTORY,
        v2.history.len() + 1 >= MIN_HISTORY,
    ensures
        step(v1, o).1 == step(v2, o).1,
        step(v1, o).0.state == step(v2, o).0.state,
        step(v1, o).0.trades == step(v2, o).0.trades,
{
}

/// Any sequence of snapshots keeps the bot well formed.
pub proof fn lemma_run_preserves_wf<A, P>(v: TraderView<A, P>, obs: Seq<Observation<A, P>>)
    requires
        wf_view(v),
    ensures
        wf_view(run(v, obs)),
    decreases obs.len(),
{
    if obs.len() > 0 {
        lemma_step_preserves_wf(v, obs[0]);
        lemma_run_preserves_wf(step(v, obs[0]).0, obs.drop_first());
    }
}

/// Within a round the bot only moves forward and never forgets a trade.
pub proof fn lemma_run_monotone<A, P>(v: TraderView<A, P>, obs: Seq<Observation<A, P>>)
    requires
        wf_view(v),
    ensures
        stage(run(v, obs).state) >= stage(v.state),
        run(v, obs).trades.len() >= v.trades.len(),
        run(v, obs).trades.subrange(0, v.trades.len() as int) == v.trades,
    decreases obs.len(),
{
    if obs.len() > 0 {
        let w = step(v, obs[0]).0;
        lemma_step_progress(v, obs[0]);
        lemma_step_preserves_wf(v, obs[0]);
        lemma_run_monotone(w, obs.drop_first());
        let r = run(w, obs.drop_first());
        assert(r.trades.subrange(0, v.trades.len() as int) =~= r.trades.subrange(
            0,
            w.trades.len() as int,
        ).subrange(0, v.trades.len() as int));
    }
}

/// Whatever snapshots a round sees, the bot makes at most two trades: the
/// first is a first leg, the second is a second leg on the opposite side, and
/// the bot's stage says how many there are.
pub proof fn lemma_round_trades<A, P>(obs: Seq<Observation<A, P>>)
    ensures
        ({
            let w = run(initial::<A, P>(), obs);
            &&& w.trades.len() <= 2
            &&& w.trades.len() >= 1 ==> w.trades[0].trade_type == TradeType::Leg1
            &&& w.trades.len() == 2 ==> spec_is_second_leg(w.trades[1].trade_type)
            &&& w.trades.len() == 2 ==> w.trades[1].side == spec_opposite(w.trades[0].side)
            &&& (w.trades.len() == 0 <==> stage(w.state) <= 1)
            &&& (w.trades.len() == 1 <==> w.state == BotState::Leg1Placed)
            &&& (w.trades.len() == 2 <==> stage(w.state) >= 3)
        }),
{
    lemma_run_preserves_wf(initial::<A, P>(), obs);
}

/// A completed round stays complete and unchanged, whatever snapshots follow.
pub proof fn lemma_complete_is_final<A, P>(v: TraderView<A, P>, obs: Seq<Observation<A, P>>)
    requires
        v.state == BotState::Complete,
    ensures
        run(v, obs) == v,
    decreases obs.len(),
{
    if obs.len() > 0 {
        lemma_complete_is_final(step(v, obs[0]).0, obs.drop_first());
    }
}

} // verus!
