use vstd::prelude::*;

verus! {

/// Where a token's price is read from.
#[derive(Clone, Copy, Debug, PartialEq, Eq, Structural)]
pub enum PriceSource {
    /// The price of the last trade.
    LastTrade,
    /// Both the best bid and the best ask are live: their midpoint.
    Midpoint,
    /// Only the best bid is live.
    Bid,
    /// Only the best ask is live.
    Ask,
}

/// How the pair of Yes/No prices is formed from what is known of each side.
#[derive(Clone, Copy, Debug, PartialEq, Eq, Structural)]
pub enum PairBasis {
    /// Both sides have a price of their own.
    Both,
    /// Only Yes is known: No is one minus Yes, kept within [0, 1].
    InferNo,
    /// Only No is known: Yes is one minus No, kept within [0, 1].
    InferYes,
    /// Neither side is known: both are one half.
    Even,
}

/// Where a token's price is read from: the last trade when there is one,
/// else the live quotes of the book (the midpoint when both the best bid and
/// the best ask are positive, else the one that is); none when there is no
/// last trade and the book is empty on both sides.
pub fn price_source(last_known: bool, bid_live: bool, ask_live: bool) -> (r: Option<PriceSource>)
    ensures
        r == if last_known {
            Some(PriceSource::LastTrade)
        } else if bid_live && ask_live {
            Some(PriceSource::Midpoint)
        } else if bid_live {
            Some(PriceSource::Bid)
        } else if ask_live {
            Some(PriceSource::Ask)
        } else {
            None::<PriceSource>
        },
{
    if last_known {
        Some(PriceSource::LastTrade)
    } else {
        match (bid_live, ask_live) {
            (true, true) => Some(PriceSource::Midpoint),
            (true, false) => Some(PriceSource::Bid),
            (false, true) => Some(PriceSource::Ask),
            (false, false) => None,
        }
    }
}

/// How to form the Yes/No pair when the Yes price and the No price are each
/// known (from a last trade or the book) or not.
pub fn pair_basis(yes_known: bool, no_known: bool) -> (r: PairBasis)
    ensures
        r == if yes_known && no_known {
            PairBasis::Both
        } else if yes_known {
            PairBasis::InferNo
        } else if no_known {
            PairBasis::InferYes
        } else {
            PairBasis::Even
        },
{
    match (yes_known, no_known) {
        (true, true) => PairBasis::Both,
        (true, false) => PairBasis::InferNo,
        (false, true) => PairBasis::InferYes,
        (false, false) => PairBasis::Even,
    }
}

} // verus!
