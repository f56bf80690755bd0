//! What the commands decide: which packages to act on, and what their
//! reports show.

pub mod import;
pub mod jettison;
pub mod ship;

use vstd::prelude::*;

use crate::coloring::StyledIcon;

verus! {

/// A cell of a report: a text, or an icon.
#[derive(Debug, PartialEq, Eq)]
pub enum Cell {
    Text(String),
    Icon(StyledIcon),
}

/// The contents of a [`Cell`].
pub enum CellView {
    Text(Seq<char>),
    Icon(StyledIcon),
}

impl View for Cell {
    type V = CellView;

    open spec fn view(&self) -> CellView {
        match self {
            Cell::Text(s) => CellView::Text(s@),
            Cell::Icon(i) => CellView::Icon(*i),
        }
    }
}

} // verus!
