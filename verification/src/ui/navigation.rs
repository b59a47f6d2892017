//! Navigation between the views of the TUI.
use vstd::prelude::*;
use vstd::view::View as _;

use crate::state::View;

verus! {

/// Navigation handler for the TUI.
pub struct Navigation;

/// The tabs, in order.
pub open spec fn tab_order() -> Seq<View> {
    seq![View::Dashboard, View::Apps, View::AppDetail, View::Logs, View::Settings]
}

impl Navigation {
    /// The view that a key selects, if any.
    pub open spec fn view_for_key(key: char) -> Option<View> {
        if key == '1' {
            Some(View::Dashboard)
        } else if key == '2' {
            Some(View::Apps)
        } else if key == '3' {
            Some(View::AppDetail)
        } else if key == '4' {
            Some(View::Logs)
        } else if key == '5' {
            Some(View::Settings)
        } else {
            None
        }
    }

    /// Handle navigation input: the view that the key selects, whatever the current view.
    pub fn handle_key(view: View, key: char) -> (selected: Option<View>)
        ensures
            selected == Self::view_for_key(key),
    {
        match key {
            '1' => Some(View::Dashboard),
            '2' => Some(View::Apps),
            '3' => Some(View::AppDetail),
            '4' => Some(View::Logs),
            '5' => Some(View::Settings),
            _ => None,
        }
    }

    /// Get all available views.
    pub fn all_views() -> (views: Vec<View>)
        ensures
            views@ == tab_order(),
    {
        let views = vec![View::Dashboard, View::Apps, View::AppDetail, View::Logs, View::Settings];
        assert(views@ =~= tab_order());
        views
    }
}

/// Each view's shortcut key selects that view, and the tabs are listed in the
/// order of their shortcuts and positions.
pub proof fn lemma_shortcuts_select_their_view(v: View)
    ensures
        Navigation::view_for_key(v.shortcut_of()) == Some(v),
        tab_order()[v.position() as int] == v,
        tab_order().len() == 5,
{
}

} // verus!
