use polymarket_arb_bot::models::{BotState, Side, TradeType};

#[test]
fn trade_type_labels_match_names() {
    assert_eq!(TradeType::Leg1.label(), "Leg1");
    assert_eq!(TradeType::Leg2Hedge.label(), "Leg2Hedge");
    assert_eq!(TradeType::Leg2StopLoss.label(), "Leg2StopLoss");
    assert_eq!(TradeType::Leg2Final.label(), "Leg2Final");
}

#[test]
fn trade_type_label_round_trip() {
    for t in [TradeType::Leg1, TradeType::Leg2Hedge, TradeType::Leg2StopLoss, TradeType::Leg2Final] {
        assert_eq!(TradeType::from_label(t.label()), t);
        assert_eq!(TradeType::from_label(&format!("{:?}", t)), t);
    }
}

#[test]
fn unknown_trade_type_label_reads_as_leg1() {
    assert_eq!(TradeType::from_label("leg2hedge"), TradeType::Leg1);
    assert_eq!(TradeType::from_label(""), TradeType::Leg1);
    assert_eq!(TradeType::from_label("Leg2"), TradeType::Leg1);
}

#[test]
fn side_labels_and_round_trip() {
    assert_eq!(Side::Yes.label(), "Yes");
    assert_eq!(Side::No.label(), "No");
    assert_eq!(Side::from_label("Yes"), Side::Yes);
    assert_eq!(Side::from_label("No"), Side::No);
    assert_eq!(Side::from_label("yes"), Side::No);
    assert_eq!(Side::from_label(""), Side::No);
}

#[test]
fn opposite_and_winning_sides() {
    assert_eq!(Side::Yes.opposite(), Side::No);
    assert_eq!(Side::No.opposite(), Side::Yes);
    assert_eq!(Side::winning(true), Side::Yes);
    assert_eq!(Side::winning(false), Side::No);
}

#[test]
fn second_leg_kinds() {
    assert!(!TradeType::Leg1.is_second_leg());
    assert!(TradeType::Leg2Hedge.is_second_leg());
    assert!(TradeType::Leg2StopLoss.is_second_leg());
    assert!(TradeType::Leg2Final.is_second_leg());
}

#[test]
fn bot_state_labels_match_debug_names() {
    for s in [BotState::Idle, BotState::Watching, BotState::Leg1Placed, BotState::Hedging, BotState::Complete] {
        assert_eq!(s.label(), format!("{:?}", s));
    }
}
