//! The style kinds the client's theme distinguishes.  The widgets they
//! style belong to the front end; the kinds themselves are plain data.

use vstd::prelude::*;

verus! {

/// The styles a grid widget can be themed with.
#[derive(Clone, Copy, Debug, PartialEq, Eq, Structural)]
pub enum GridStyle {
    Default,
}

/// The styles a row widget can be themed with.
#[derive(Clone, Copy, Debug, PartialEq, Eq, Structural)]
pub enum RowStyle {
    ActionShortcut,
    FormInput,
    ListFirstSectionTitle,
    ListSectionTitle,
    GridFirstSectionTitle,
    GridSectionTitle,
    GridItemTitle,
    RootBottomPanel,
    RootTopPanel,
}

} // verus!
