use polymarket_arb_bot::models::{BotState, Side, TradeType};
use polymarket_arb_bot::trader::{Action, DumpHedgeTrader, Observation};

/// A fill tagged by price in thousandths and the side it was offered for.
type Fill = (u32, char);
/// A Yes/No price pair in thousandths.
type Pair = (u32, u32);
type Bot = DumpHedgeTrader<Fill, Pair>;

fn quiet(prices: Pair) -> Observation<Fill, Pair> {
    Observation {
        past_window: false,
        prices,
        yes_dumped: false,
        no_dumped: false,
        yes_fill: (prices.0, 'y'),
        no_fill: (prices.1, 'n'),
        within_target: false,
        waited_out: false,
        near_end: false,
        round_over: false,
    }
}

/// A watching bot that has recorded three quiet pairs.
fn primed() -> Bot {
    let mut t = Bot::new();
    assert_eq!(t.on_snapshot(quiet((500, 500))), None);
    for _ in 0..3 {
        assert_eq!(t.on_snapshot(quiet((500, 500))), None);
    }
    assert_eq!(t.history().len(), 3);
    t
}

#[test]
fn new_trader_is_idle_and_empty() {
    let t = Bot::new();
    assert_eq!(t.state(), BotState::Idle);
    assert_eq!(t.leg1_side(), None);
    assert_eq!(t.leg2_type(), None);
    assert!(t.trades().is_empty());
    assert!(t.history().is_empty());
    assert_eq!(t.settlement_legs(), None);
}

#[test]
fn idle_snapshot_only_starts_watching() {
    let mut t = Bot::new();
    let o = Observation { yes_dumped: true, ..quiet((100, 900)) };
    assert_eq!(t.on_snapshot(o), None);
    assert_eq!(t.state(), BotState::Watching);
    assert!(t.trades().is_empty());
    assert!(t.history().is_empty());
}

#[test]
fn late_snapshots_are_not_recorded() {
    let mut t = Bot::new();
    t.on_snapshot(quiet((500, 500)));
    t.on_snapshot(quiet((500, 500)));
    let o = Observation { past_window: true, yes_dumped: true, ..quiet((100, 900)) };
    assert_eq!(t.on_snapshot(o), None);
    assert_eq!(t.history(), &vec![(500, 500)]);
    assert_eq!(t.state(), BotState::Watching);
}

#[test]
fn no_leg1_before_three_recorded_pairs() {
    let mut t = Bot::new();
    t.on_snapshot(quiet((500, 500)));
    let o = Observation { yes_dumped: true, ..quiet((300, 700)) };
    assert_eq!(t.on_snapshot(o), None);
    assert_eq!(t.on_snapshot(o), None);
    assert_eq!(t.history().len(), 2);
    assert_eq!(t.on_snapshot(o), Some(Action::Leg1(Side::Yes)));
    assert_eq!(t.history().len(), 3);
}

#[test]
fn history_keeps_latest_five_pairs() {
    let mut t = Bot::new();
    t.on_snapshot(quiet((0, 0)));
    for i in 1..=7u32 {
        assert_eq!(t.oldest_after_recording((i, i)), (if i > 5 { i - 4 } else { 1 }, if i > 5 { i - 4 } else { 1 }));
        t.on_snapshot(quiet((i, i)));
    }
    assert_eq!(t.history(), &vec![(3, 3), (4, 4), (5, 5), (6, 6), (7, 7)]);
}

#[test]
fn yes_dump_buys_yes_first_leg() {
    let mut t = primed();
    let o = Observation { yes_dumped: true, no_dumped: true, ..quiet((320, 680)) };
    assert_eq!(t.on_snapshot(o), Some(Action::Leg1(Side::Yes)));
    assert_eq!(t.state(), BotState::Leg1Placed);
    assert_eq!(t.leg1_side(), Some(Side::Yes));
    assert_eq!(t.trades().len(), 1);
    assert_eq!(t.trades()[0].trade_type, TradeType::Leg1);
    assert_eq!(t.trades()[0].side, Side::Yes);
    assert_eq!(t.trades()[0].fill, (320, 'y'));
    assert_eq!(t.settlement_legs(), None);
    t.on_snapshot(quiet((330, 670)));
    assert_eq!(t.history().len(), 4);
}

#[test]
fn no_dump_buys_no_first_leg_then_hedges_yes() {
    let mut t = primed();
    let o = Observation { no_dumped: true, ..quiet((700, 300)) };
    assert_eq!(t.on_snapshot(o), Some(Action::Leg1(Side::No)));
    assert_eq!(t.on_snapshot(quiet((700, 300))), None);
    let o = Observation { within_target: true, waited_out: true, ..quiet((610, 390)) };
    assert_eq!(t.on_snapshot(o), Some(Action::Leg2(TradeType::Leg2Hedge, Side::Yes)));
    assert_eq!(t.state(), BotState::Hedging);
    assert_eq!(t.leg2_type(), Some(TradeType::Leg2Hedge));
    assert_eq!(t.trades()[1].side, Side::Yes);
    assert_eq!(t.trades()[1].fill, (610, 'y'));
    assert_eq!(t.settlement_legs(), Some((0, 1)));
}

#[test]
fn stop_loss_before_final_exit() {
    let mut t = primed();
    t.on_snapshot(Observation { yes_dumped: true, ..quiet((300, 700)) });
    let o = Observation { waited_out: true, near_end: true, ..quiet((500, 500)) };
    assert_eq!(t.on_snapshot(o), Some(Action::Leg2(TradeType::Leg2StopLoss, Side::No)));
    assert_eq!(t.trades()[1].fill, (500, 'n'));
}

#[test]
fn final_exit_near_round_end() {
    let mut t = primed();
    t.on_snapshot(Observation { yes_dumped: true, ..quiet((300, 700)) });
    let o = Observation { near_end: true, ..quiet((500, 500)) };
    assert_eq!(t.on_snapshot(o), Some(Action::Leg2(TradeType::Leg2Final, Side::No)));
}

#[test]
fn round_completes_and_stays_complete() {
    let mut t = primed();
    t.on_snapshot(Observation { yes_dumped: true, ..quiet((300, 700)) });
    t.on_snapshot(Observation { within_target: true, ..quiet((300, 600)) });
    assert_eq!(t.on_snapshot(quiet((300, 600))), None);
    assert_eq!(t.state(), BotState::Hedging);
    assert_eq!(t.on_snapshot(Observation { round_over: true, ..quiet((300, 600)) }), Some(Action::RoundComplete));
    assert_eq!(t.state(), BotState::Complete);
    let all = Observation {
        yes_dumped: true,
        no_dumped: true,
        within_target: true,
        waited_out: true,
        near_end: true,
        round_over: true,
        ..quiet((100, 100))
    };
    assert_eq!(t.on_snapshot(all), None);
    assert_eq!(t.state(), BotState::Complete);
    assert_eq!(t.trades().len(), 2);
    assert_eq!(t.history().len(), 4);
    assert_eq!(t.settlement_legs(), Some((0, 1)));
}

#[test]
fn reset_starts_a_new_round() {
    let mut t = primed();
    t.on_snapshot(Observation { yes_dumped: true, ..quiet((300, 700)) });
    t.reset();
    assert_eq!(t.state(), BotState::Idle);
    assert_eq!(t.leg1_side(), None);
    assert_eq!(t.leg2_type(), None);
    assert!(t.trades().is_empty());
    assert!(t.history().is_empty());
}
