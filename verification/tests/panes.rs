use marketfeed::panes::{Pane, PaneType};

#[test]
fn new_pane_is_unpinned() {
    let p = Pane::new(PaneType::Chart);
    assert!(p.id == PaneType::Chart);
    assert!(!p.is_pinned);
}

#[test]
fn pane_titles() {
    assert_eq!(PaneType::Prices.to_string(), "Watchlist");
    assert_eq!(PaneType::Book.to_string(), "Book");
    assert_eq!(PaneType::Trades.to_string(), "Trades");
    assert_eq!(PaneType::Market.to_string(), "Market");
    assert_eq!(PaneType::Balances.to_string(), "Balances");
    assert_eq!(PaneType::Orders.to_string(), "Orders");
    assert_eq!(PaneType::Calculator.to_string(), "Calculator");
    assert_eq!(PaneType::Chart.to_string(), "Chart");
}

#[test]
fn pane_type_from_index_is_balances() {
    assert!(PaneType::from(0usize) == PaneType::Balances);
    assert!(PaneType::from(7usize) == PaneType::Balances);
}
