use vstd::prelude::*;

verus! {

/// The role a trade plays in a round.
#[derive(Clone, Copy, Debug, PartialEq, Eq, Structural)]
pub enum TradeType {
    Leg1,
    Leg2Hedge,
    Leg2StopLoss,
    Leg2Final,
}

/// The outcome token a trade buys.
#[derive(Clone, Copy, Debug, PartialEq, Eq, Structural)]
pub enum Side {
    Yes,
    No,
}

/// The stage of the trading bot within one round.
#[derive(Clone, Copy, Debug, PartialEq, Eq, Structural)]
pub enum BotState {
    Idle,
    Watching,
    Leg1Placed,
    Hedging,
    Complete,
}

/// The label of a trade type, as the dashboard shows it.
pub open spec fn trade_type_label(t: TradeType) -> Seq<char> {
    match t {
        TradeType::Leg1 => "Leg1"@,
        TradeType::Leg2Hedge => "Leg2Hedge"@,
        TradeType::Leg2StopLoss => "Leg2StopLoss"@,
        TradeType::Leg2Final => "Leg2Final"@,
    }
}

/// The trade type that a label names; an unknown label reads as `Leg1`.
pub open spec fn trade_type_of_label(s: Seq<char>) -> TradeType {
    if s == "Leg2Hedge"@ {
        TradeType::Leg2Hedge
    } else if s == "Leg2StopLoss"@ {
        TradeType::Leg2StopLoss
    } else if s == "Leg2Final"@ {
        TradeType::Leg2Final
    } else {
        TradeType::Leg1
    }
}

/// The label of a side, as the dashboard shows it.
pub open spec fn side_label(s: Side) -> Seq<char> {
    match s {
        Side::Yes => "Yes"@,
        Side::No => "No"@,
    }
}

/// The side that a label names: `Yes` for the label "Yes", `No` for any other.
pub open spec fn side_of_label(s: Seq<char>) -> Side {
    if s == "Yes"@ {
        Side::Yes
    } else {
        Side::No
    }
}

/// The label of a bot state, as the dashboard shows it.
pub open spec fn bot_state_label(s: BotState) -> Seq<char> {
    match s {
        BotState::Idle => "Idle"@,
        BotState::Watching => "Watching"@,
        BotState::Leg1Placed => "Leg1Placed"@,
        BotState::Hedging => "Hedging"@,
        BotState::Complete => "Complete"@,
    }
}

/// The position of a state in the order in which a round passes through them.
pub open spec fn stage(s: BotState) -> nat {
    match s {
        BotState::Idle => 0,
        BotState::Watching => 1,
        BotState::Leg1Placed => 2,
        BotState::Hedging => 3,
        BotState::Complete => 4,
    }
}

pub open spec fn spec_opposite(s: Side) -> Side {
    match s {
        Side::Yes => Side::No,
        Side::No => Side::Yes,
    }
}

pub open spec fn spec_winning(result_up: bool) -> Side {
    if result_up {
        Side::Yes
    } else {
        Side::No
    }
}

pub open spec fn spec_is_second_leg(t: TradeType) -> bool {
    t != TradeType::Leg1
}

fn str_eq(a: &str, b: &str) -> (r: bool)
    ensures
        r == (a@ == b@),
{
    a.to_owned() == b.to_owned()
}

impl TradeType {
    /// The dashboard label of this trade type.
    pub fn label(&self) -> (r: &'static str)
        ensures
            r@ == trade_type_label(*self),
    {
        match self {
            TradeType::Leg1 => "Leg1",
            TradeType::Leg2Hedge => "Leg2Hedge",
            TradeType::Leg2StopLoss => "Leg2StopLoss",
            TradeType::Leg2Final => "Leg2Final",
        }
    }

    /// Reads a trade type back from its label; an unknown label reads as `Leg1`.
    pub fn from_label(s: &str) -> (r: TradeType)
        ensures
            r == trade_type_of_label(s@),
    {
        if str_eq(s, "Leg2Hedge") {
            TradeType::Leg2Hedge
        } else if str_eq(s, "Leg2StopLoss") {
            TradeType::Leg2StopLoss
        } else if str_eq(s, "Leg2Final") {
            TradeType::Leg2Final
        } else {
            TradeType::Leg1
        }
    }

    /// Whether this trade closes a round's position (any second-leg kind).
    pub fn is_second_leg(&self) -> (r: bool)
        ensures
            r == spec_is_second_leg(*self),
    {
        match self {
            TradeType::Leg1 => false,
            _ => true,
        }
    }
}

impl Side {
    /// The dashboard label of this side.
    pub fn label(&self) -> (r: &'static str)
        ensures
            r@ == side_label(*self),
    {
        match self {
            Side::Yes => "Yes",
            Side::No => "No",
        }
    }

    /// Reads a side back from its label: "Yes" is `Yes`, anything else `No`.
    pub fn from_label(s: &str) -> (r: Side)
        ensures
            r == side_of_label(s@),
    {
        if str_eq(s, "Yes") {
            Side::Yes
        } else {
            Side::No
        }
    }

    /// The other outcome token: the side on which a first leg is hedged.
    pub fn opposite(&self) -> (r: Side)
        ensures
            r == spec_opposite(*self),
            r != *self,
    {
        match self {
            Side::Yes => Side::No,
            Side::No => Side::Yes,
        }
    }

    /// The side that pays out: `Yes` when the market resolved up, else `No`.
    pub fn winning(result_up: bool) -> (r: Side)
        ensures
            r == spec_winning(result_up),
    {
        if result_up {
            Side::Yes
        } else {
            Side::No
        }
    }
}

impl BotState {
    /// The dashboard label of this state.
    pub fn label(&self) -> (r: &'static str)
        ensures
            r@ == bot_state_label(*self),
    {
        match self {
            BotState::Idle => "Idle",
            BotState::Watching => "Watching",
            BotState::Leg1Placed => "Leg1Placed",
            BotState::Hedging => "Hedging",
            BotState::Complete => "Complete",
        }
    }
}

proof fn lemma_trade_labels_known()
    ensures
        "Leg1"@.len() == 4,
        "Leg2Hedge"@.len() == 9,
        "Leg2StopLoss"@.len() == 12,
        "Leg2Final"@.len() == 9,
        "Leg2Hedge"@[4] == 'H',
        "Leg2Final"@[4] == 'F',
{
    reveal_strlit("Leg1");
    reveal_strlit("Leg2Hedge");
    reveal_strlit("Leg2StopLoss");
    reveal_strlit("Leg2Final");
}

/// Reading back the label of a trade type gives that trade type.
pub proof fn lemma_trade_type_label_round_trip(t: TradeType)
    ensures
        trade_type_of_label(trade_type_label(t)) == t,
{
    lemma_trade_labels_known();
}

/// Reading back the label of a side gives that side.
pub proof fn lemma_side_label_round_trip(s: Side)
    ensures
        side_of_label(side_label(s)) == s,
{
    reveal_strlit("Yes");
    reveal_strlit("No");
    assert("Yes"@.len() == 3);
    assert("No"@.len() == 2);
}

/// Distinct trade types have distinct labels, and so do distinct states.
pub proof fn lemma_labels_distinct(t1: TradeType, t2: TradeType, s1: BotState, s2: BotState)
    ensures
        t1 != t2 ==> trade_type_label(t1) != trade_type_label(t2),
        s1 != s2 ==> bot_state_label(s1) != bot_state_label(s2),
{
    lemma_trade_type_label_round_trip(t1);
    lemma_trade_type_label_round_trip(t2);
    reveal_strlit("Idle");
    reveal_strlit("Watching");
    reveal_strlit("Leg1Placed");
    reveal_strlit("Hedging");
    reveal_strlit("Complete");
    assert("Idle"@.len() == 4);
    assert("Watching"@.len() == 8);
    assert("Leg1Placed"@.len() == 10);
    assert("Hedging"@.len() == 7);
    assert("Complete"@.len() == 8);
    assert("Watching"@[0] == 'W');
    assert("Complete"@[0] == 'C');
}

} // verus!
