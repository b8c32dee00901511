//! Dashboard pane identities: which view a pane of the grid shows.

use vstd::prelude::*;
use vstd::string::StringExecFns;

verus! {

/// The kinds of pane the dashboard grid can show.
#[derive(PartialEq, Eq, Structural)]
pub enum PaneType {
    Prices,
    Book,
    Trades,
    Market,
    Balances,
    Orders,
    Calculator,
    Chart,
}

/// The title under which a pane type is shown.
pub open spec fn pane_title(t: PaneType) -> Seq<char> {
    match t {
        PaneType::Prices => "Watchlist"@,
        PaneType::Book => "Book"@,
        PaneType::Trades => "Trades"@,
        PaneType::Market => "Market"@,
        PaneType::Balances => "Balances"@,
        PaneType::Orders => "Orders"@,
        PaneType::Calculator => "Calculator"@,
        PaneType::Chart => "Chart"@,
    }
}

impl PaneType {
    /// The pane's displayed title.
    pub fn to_string(&self) -> (r: String)
        ensures
            r@ == pane_title(*self),
    {
        match self {
            PaneType::Prices => String::from_str("Watchlist"),
            PaneType::Book => String::from_str("Book"),
            PaneType::Trades => String::from_str("Trades"),
            PaneType::Market => String::from_str("Market"),
            PaneType::Balances => String::from_str("Balances"),
            PaneType::Orders => String::from_str("Orders"),
            PaneType::Calculator => String::from_str("Calculator"),
            PaneType::Chart => String::from_str("Chart"),
        }
    }
}

impl From<usize> for PaneType {
    /// Restoring a pane from a bare index always yields the balances pane.
    fn from(value: usize) -> (r: Self) {
        PaneType::Balances
    }
}

impl vstd::std_specs::convert::FromSpecImpl<usize> for PaneType {
    open spec fn obeys_from_spec() -> bool {
        true
    }

    open spec fn from_spec(value: usize) -> PaneType {
        PaneType::Balances
    }
}

/// One pane of the dashboard grid.
pub struct Pane {
    pub id: PaneType,
    pub is_pinned: bool,
}

impl Pane {
    /// A fresh, unpinned pane showing `ty`.
    pub fn new(ty: PaneType) -> (p: Self)
        ensures
            p.id == ty,
            !p.is_pinned,
    {
        Pane { id: ty, is_pinned: false }
    }
}

} // verus!
