//! Icons and labels of the Overview page's panels.
use vstd::prelude::*;

use crate::components::theme::IconKind;
use crate::overview::{api_error_label, FinancialDirection, MarketStatus, PortfolioPerformance};
use crate::text::{owned, push_str};

verus! {

broadcast use vstd::string::group_string_axioms;

/// The arrow for a direction: up, down, or a dash when flat.
pub fn financial_direction_icon(direction: FinancialDirection) -> (r: IconKind)
    ensures
        r == match direction {
            FinancialDirection::Up => IconKind::ArrowUp,
            FinancialDirection::Down => IconKind::ArrowDown,
            FinancialDirection::Flat => IconKind::Minus,
        },
{
    match direction {
        FinancialDirection::Up => IconKind::ArrowUp,
        FinancialDirection::Down => IconKind::ArrowDown,
        FinancialDirection::Flat => IconKind::Minus,
    }
}

/// The icon of the portfolio panel: information while there are no holdings,
/// else the arrow of the portfolio's direction.
pub fn portfolio_direction_icon(performance: &PortfolioPerformance) -> (r: IconKind)
    ensures
        r == if performance.is_empty {
            IconKind::Info
        } else {
            match performance.direction {
                FinancialDirection::Up => IconKind::ArrowUp,
                FinancialDirection::Down => IconKind::ArrowDown,
                FinancialDirection::Flat => IconKind::Minus,
            }
        },
{
    if performance.is_empty {
        IconKind::Info
    } else {
        financial_direction_icon(performance.direction)
    }
}

/// The change line of the portfolio panel: the change with its percent in
/// brackets, or the change text alone while there are no holdings.
pub fn portfolio_change_label(performance: &PortfolioPerformance) -> (r: String)
    ensures
        r@ == if performance.is_empty {
            performance.change_label@
        } else {
            performance.change_label@ + " ("@ + performance.change_pct_label@ + ")"@
        },
{
    if performance.is_empty {
        performance.change_label.clone()
    } else {
        let mut out = owned(performance.change_label.as_str());
        push_str(&mut out, " (");
        push_str(&mut out, performance.change_pct_label.as_str());
        push_str(&mut out, ")");
        out
    }
}

/// The icon of the empty market panel: a warning after a failed request, else information.
pub fn market_empty_icon(status: &MarketStatus) -> (r: IconKind)
    ensures
        r == if status.label@ == api_error_label() {
            IconKind::TriangleAlert
        } else {
            IconKind::Info
        },
{
    if status.is_error() {
        IconKind::TriangleAlert
    } else {
        IconKind::Info
    }
}

} // verus!
