//! The client's main-view state machine: which action panel, if any, is
//! open over the search results, and which of its items holds focus.

use vstd::prelude::*;

verus! {

/// How tall one action item of a panel is estimated to be, in logical
/// pixels, for scroll positioning.
pub const ESTIMATED_ACTION_ITEM_HEIGHT: usize = 38;

/// How many action items one panel shows at a time.
pub const ACTION_PANEL_VISIBLE_ITEMS: usize = 7;

/// A handle on a scrollable list: which item holds focus, how tall an item
/// is taken to be, and how many items are in view at once.
#[derive(Debug)]
pub struct ScrollHandle {
    pub focused_index: Option<usize>,
    pub item_height: usize,
    pub rows_per_view: usize,
}

impl ScrollHandle {
    pub fn new(focus_first: bool, item_height: usize, rows_per_view: usize) -> (r: ScrollHandle)
        ensures
            r.focused_index == if focus_first {
                Some(0usize)
            } else {
                None::<usize>
            },
            r.item_height == item_height,
            r.rows_per_view == rows_per_view,
    {
        ScrollHandle {
            focused_index: if focus_first {
                Some(0)
            } else {
                None
            },
            item_height,
            rows_per_view,
        }
    }
}

/// The ephemeral state of the main view.
#[derive(Debug)]
pub enum MainViewState {
    Closed,
    SearchResultActionPanel { focused_action_item: ScrollHandle },
    InlineViewActionPanel { focused_action_item: ScrollHandle },
}

/// The state shows no action panel.
pub open spec fn is_closed_state(s: MainViewState) -> bool {
    s matches MainViewState::Closed
}

/// The state shows the action panel of a search result, with a fresh
/// handle focused as asked.
pub open spec fn is_search_panel_state(s: MainViewState, focus_first: bool) -> bool {
    s matches MainViewState::SearchResultActionPanel { focused_action_item }
        && focused_action_item.focused_index == (if focus_first {
        Some(0usize)
    } else {
        None::<usize>
    }) && focused_action_item.item_height == ESTIMATED_ACTION_ITEM_HEIGHT
        && focused_action_item.rows_per_view == ACTION_PANEL_VISIBLE_ITEMS
}

/// The state shows the action panel of an inline view, with a fresh handle
/// focused as asked.
pub open spec fn is_inline_panel_state(s: MainViewState, focus_first: bool) -> bool {
    s matches MainViewState::InlineViewActionPanel { focused_action_item }
        && focused_action_item.focused_index == (if focus_first {
        Some(0usize)
    } else {
        None::<usize>
    }) && focused_action_item.item_height == ESTIMATED_ACTION_ITEM_HEIGHT
        && focused_action_item.rows_per_view == ACTION_PANEL_VISIBLE_ITEMS
}

impl MainViewState {
    /// A view starts with no panel open.
    pub fn new() -> (r: Self)
        ensures
            is_closed_state(r),
    {
        MainViewState::Closed
    }

    /// Close whatever panel is open.
    pub fn initial(prev_state: &mut MainViewState)
        ensures
            is_closed_state(*final(prev_state)),
    {
        *prev_state = Self::Closed
    }

    /// Open the action panel of the focused search result.
    pub fn search_result_action_panel(prev_state: &mut MainViewState, focus_first: bool)
        ensures
            is_search_panel_state(*final(prev_state), focus_first),
    {
        *prev_state = Self::SearchResultActionPanel {
            focused_action_item: ScrollHandle::new(
                focus_first,
                ESTIMATED_ACTION_ITEM_HEIGHT,
                ACTION_PANEL_VISIBLE_ITEMS,
            ),
        }
    }

    /// Open the action panel of the inline view.
    pub fn inline_result_action_panel(prev_state: &mut MainViewState, focus_first: bool)
        ensures
            is_inline_panel_state(*final(prev_state), focus_first),
    {
        *prev_state = Self::InlineViewActionPanel {
            focused_action_item: ScrollHandle::new(
                focus_first,
                ESTIMATED_ACTION_ITEM_HEIGHT,
                ACTION_PANEL_VISIBLE_ITEMS,
            ),
        }
    }
}

} // verus!
