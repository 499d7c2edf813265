use polymarket_arb_bot::pricing::{pair_basis, price_source, PairBasis, PriceSource};

#[test]
fn last_trade_is_preferred() {
    for bid in [true, false] {
        for ask in [true, false] {
            assert_eq!(price_source(true, bid, ask), Some(PriceSource::LastTrade));
        }
    }
}

#[test]
fn book_quotes_without_last_trade() {
    assert_eq!(price_source(false, true, true), Some(PriceSource::Midpoint));
    assert_eq!(price_source(false, true, false), Some(PriceSource::Bid));
    assert_eq!(price_source(false, false, true), Some(PriceSource::Ask));
    assert_eq!(price_source(false, false, false), None);
}

#[test]
fn pair_basis_cases() {
    assert_eq!(pair_basis(true, true), PairBasis::Both);
    assert_eq!(pair_basis(true, false), PairBasis::InferNo);
    assert_eq!(pair_basis(false, true), PairBasis::InferYes);
    assert_eq!(pair_basis(false, false), PairBasis::Even);
}
