use polymarket_arb_bot::history::{PriceHistory, HISTORY_CAPACITY};

#[test]
fn history_keeps_the_latest_five() {
    let mut h: PriceHistory<u32> = PriceHistory::new();
    assert_eq!(h.len(), 0);
    assert_eq!(h.oldest(), None);
    for x in 1..=4u32 {
        h.push(x);
    }
    assert_eq!(h.len(), 4);
    assert_eq!(h.oldest(), Some(1));
    h.push(5);
    assert_eq!(h.len(), HISTORY_CAPACITY);
    assert_eq!(h.oldest(), Some(1));
    h.push(6);
    assert_eq!(h.len(), 5);
    assert_eq!(h.oldest(), Some(2));
    assert_eq!(h.entries(), &vec![2, 3, 4, 5, 6]);
    for x in 7..=20u32 {
        h.push(x);
    }
    assert_eq!(h.entries(), &vec![16, 17, 18, 19, 20]);
}

#[test]
fn history_clear_empties() {
    let mut h: PriceHistory<(f64, f64)> = PriceHistory::new();
    h.push((0.5, 0.5));
    h.push((0.4, 0.6));
    h.clear();
    assert_eq!(h.len(), 0);
    assert_eq!(h.oldest(), None);
}
