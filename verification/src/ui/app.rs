//! How the TUI reacts to keys, and how a login changes the state.
use vstd::prelude::*;
use vstd::view::View as _;

use crate::auth::oauth::User;
use crate::error::Error;
use crate::state::{AppState, View};
use crate::text::prefixed;
use crate::ui::navigation::Navigation;

verus! {

broadcast use vstd::string::group_string_axioms;

/// A key press, as far as the TUI tells keys apart.
#[derive(Debug, Clone, Copy, PartialEq, Eq)]
pub enum KeyInput {
    /// A character key.
    Char(char),
    /// Escape.
    Esc,
    /// Tab.
    Tab,
    /// Shift-Tab.
    BackTab,
    /// Arrow down.
    Down,
    /// Arrow up.
    Up,
    /// Any other key.
    Other,
}

/// What the TUI does after a key.
#[derive(Debug, Clone, Copy, PartialEq, Eq)]
pub enum KeyOutcome {
    /// Leave the TUI.
    Quit,
    /// Redraw and wait for the next key.
    Continue,
    /// Start the SSO login.
    Login,
}

/// The message when the configuration lacks credentials for a login.
pub open spec fn missing_credentials_text() -> Seq<char> {
    "Missing client_id or client_secret. Configure via config file or environment variables."@
}

/// The selection after moving down: one further, unless at the last application.
pub open spec fn selection_below(index: usize, len: nat) -> usize {
    if len > 0 && index < len - 1 {
        (index + 1) as usize
    } else {
        index
    }
}

/// The selection after moving up: one back, unless at the first application.
pub open spec fn selection_above(index: usize) -> usize {
    if index > 0 {
        (index - 1) as usize
    } else {
        index
    }
}

/// Whether two states agree on everything a key changes.
pub open spec fn same_screen(a: &AppState, b: &AppState) -> bool {
    &&& a.current_view == b.current_view
    &&& a.selected_app_index == b.selected_app_index
    &&& a.applications == b.applications
    &&& a.error_message == b.error_message
    &&& a.is_authenticated == b.is_authenticated
    &&& a.is_loading == b.is_loading
}

impl AppState {
    /// Moves the selection down one application, staying on the last one.
    pub fn select_next_app(&mut self)
        ensures
            final(self).selected_app_index == selection_below(
                old(self).selected_app_index,
                old(self).applications@.len(),
            ),
            final(self).current_view == old(self).current_view,
            final(self).applications == old(self).applications,
            final(self).error_message == old(self).error_message,
            final(self).is_authenticated == old(self).is_authenticated,
            final(self).is_loading == old(self).is_loading,
            final(self).config == old(self).config,
            final(self).client == old(self).client,
    {
        let last = if self.applications.len() > 0 {
            self.applications.len() - 1
        } else {
            0
        };
        if self.selected_app_index < last {
            self.selected_app_index = self.selected_app_index + 1;
        }
    }

    /// Moves the selection up one application, staying on the first one.
    pub fn select_previous_app(&mut self)
        ensures
            final(self).selected_app_index == selection_above(old(self).selected_app_index),
            final(self).current_view == old(self).current_view,
            final(self).applications == old(self).applications,
            final(self).error_message == old(self).error_message,
            final(self).is_authenticated == old(self).is_authenticated,
            final(self).is_loading == old(self).is_loading,
            final(self).config == old(self).config,
            final(self).client == old(self).client,
    {
        if self.selected_app_index > 0 {
            self.selected_app_index = self.selected_app_index - 1;
        }
    }

    /// Reacts to a key: `q` or Escape quits; `1`-`5` select a view; Tab and
    /// Shift-Tab move between views; Down/`j` and Up/`k` move the selection;
    /// `l`/`L` asks for a login when the settings view is shown. Every other
    /// key changes nothing.
    pub fn handle_key_input(&mut self, key: KeyInput) -> (outcome: KeyOutcome)
        ensures
            final(self).applications == old(self).applications,
            final(self).error_message == old(self).error_message,
            final(self).is_authenticated == old(self).is_authenticated,
            final(self).is_loading == old(self).is_loading,
            final(self).config == old(self).config,
            final(self).client == old(self).client,
            match key {
                KeyInput::Esc => outcome == KeyOutcome::Quit && same_screen(final(self), old(self)),
                KeyInput::Tab => outcome == KeyOutcome::Continue && final(self).current_view
                    == old(self).current_view.following() && final(self).selected_app_index
                    == old(self).selected_app_index,
                KeyInput::BackTab => outcome == KeyOutcome::Continue && final(self).current_view
                    == old(self).current_view.preceding() && final(self).selected_app_index
                    == old(self).selected_app_index,
                KeyInput::Down => outcome == KeyOutcome::Continue && final(self).current_view
                    == old(self).current_view && final(self).selected_app_index
                    == selection_below(
                    old(self).selected_app_index,
                    old(self).applications@.len(),
                ),
                KeyInput::Up => outcome == KeyOutcome::Continue && final(self).current_view
                    == old(self).current_view && final(self).selected_app_index
                    == selection_above(old(self).selected_app_index),
                KeyInput::Other => outcome == KeyOutcome::Continue && same_screen(
                    final(self),
                    old(self),
                ),
                KeyInput::Char(c) => if c == 'q' {
                    outcome == KeyOutcome::Quit && same_screen(final(self), old(self))
                } else if c == 'j' {
                    outcome == KeyOutcome::Continue && final(self).current_view
                        == old(self).current_view && final(self).selected_app_index
                        == selection_below(
                        old(self).selected_app_index,
                        old(self).applications@.len(),
                    )
                } else if c == 'k' {
                    outcome == KeyOutcome::Continue && final(self).current_view
                        == old(self).current_view && final(self).selected_app_index
                        == selection_above(old(self).selected_app_index)
                } else if c == 'l' || c == 'L' {
                    same_screen(final(self), old(self)) && outcome == (if old(self).current_view
                        == View::Settings {
                        KeyOutcome::Login
                    } else {
                        KeyOutcome::Continue
                    })
                } else {
                    outcome == KeyOutcome::Continue && final(self).selected_app_index
                        == old(self).selected_app_index && final(self).current_view == (
                    match Navigation::view_for_key(c) {
                        Some(v) => v,
                        None => old(self).current_view,
                    })
                },
            },
    {
        match key {
            KeyInput::Esc => KeyOutcome::Quit,
            KeyInput::Tab => {
                self.next_view();
                KeyOutcome::Continue
            },
            KeyInput::BackTab => {
                self.prev_view();
                KeyOutcome::Continue
            },
            KeyInput::Down => {
                self.select_next_app();
                KeyOutcome::Continue
            },
            KeyInput::Up => {
                self.select_previous_app();
                KeyOutcome::Continue
            },
            KeyInput::Other => KeyOutcome::Continue,
            KeyInput::Char(c) => {
                if c == 'q' {
                    KeyOutcome::Quit
                } else if c == 'j' {
                    self.select_next_app();
                    KeyOutcome::Continue
                } else if c == 'k' {
                    self.select_previous_app();
                    KeyOutcome::Continue
                } else if c == 'l' || c == 'L' {
                    if self.current_view == View::Settings {
                        KeyOutcome::Login
                    } else {
                        KeyOutcome::Continue
                    }
                } else {
                    match Navigation::handle_key(self.current_view, c) {
                        Some(v) => {
                            self.current_view = v;
                        },
                        None => {},
                    }
                    KeyOutcome::Continue
                }
            },
        }
    }

    /// The credentials for a login: the configured client ID and secret, an
    /// absent one counting as empty. When either is empty the login cannot
    /// start: the state shows why, and there are none.
    pub fn login_credentials(&mut self) -> (creds: Option<(String, String)>)
        ensures
            ({
                let id = match old(self).config.anypoint.client_id {
                    Some(v) => v@,
                    None => Seq::<char>::empty(),
                };
                let secret = match old(self).config.anypoint.client_secret {
                    Some(v) => v@,
                    None => Seq::<char>::empty(),
                };
                if id.len() == 0 || secret.len() == 0 {
                    &&& creds is None
                    &&& final(self).error_message matches Some(m) && m@
                        == missing_credentials_text()
                } else {
                    &&& creds matches Some(c) && c.0@ == id && c.1@ == secret
                    &&& final(self).error_message == old(self).error_message
                }
            }),
            final(self).current_view == old(self).current_view,
            final(self).selected_app_index == old(self).selected_app_index,
            final(self).applications == old(self).applications,
            final(self).is_authenticated == old(self).is_authenticated,
            final(self).is_loading == old(self).is_loading,
            final(self).config == old(self).config,
            final(self).client == old(self).client,
    {
        let client_id = match &self.config.anypoint.client_id {
            Some(v) => v.clone(),
            None => String::new(),
        };
        let client_secret = match &self.config.anypoint.client_secret {
            Some(v) => v.clone(),
            None => String::new(),
        };
        if client_id.unicode_len() == 0 || client_secret.unicode_len() == 0 {
            self.error_message = Some(
                String::from_str(
                    "Missing client_id or client_secret. Configure via config file or environment variables.",
                ),
            );
            return None;
        }
        Some((client_id, client_secret))
    }

    /// Records a successful login: the state is authenticated and greets the user.
    pub fn record_login(&mut self, user: &User)
        ensures
            final(self).is_authenticated,
            final(self).error_message matches Some(m) && m@ == "Logged in as: "@
                + user.display_name_of(),
            final(self).current_view == old(self).current_view,
            final(self).selected_app_index == old(self).selected_app_index,
            final(self).applications == old(self).applications,
            final(self).is_loading == old(self).is_loading,
            final(self).config == old(self).config,
            final(self).client == old(self).client,
    {
        let name = user.display_name();
        self.is_authenticated = true;
        self.error_message = Some(prefixed("Logged in as: ", name));
    }

    /// Records a failed login: the state shows the error.
    pub fn record_login_failure(&mut self, error: &Error)
        ensures
            final(self).error_message matches Some(m) && m@ == "Login failed: "@ + error.text(),
            final(self).is_authenticated == old(self).is_authenticated,
            final(self).current_view == old(self).current_view,
            final(self).selected_app_index == old(self).selected_app_index,
            final(self).applications == old(self).applications,
            final(self).is_loading == old(self).is_loading,
            final(self).config == old(self).config,
            final(self).client == old(self).client,
    {
        let text = error.message();
        self.error_message = Some(prefixed("Login failed: ", text.as_str()));
    }
}

/// Moving the selection keeps it on a listed application: from a valid
/// selection, down and up both lead to a valid selection; and moving down then
/// up returns to where it was, unless it was already on the last one.
pub proof fn lemma_selection_stays_in_range(index: usize, len: nat)
    requires
        index < len <= usize::MAX,
    ensures
        selection_below(index, len) < len,
        selection_above(index) < len,
        index + 1 < len ==> selection_above(selection_below(index, len)) == index,
        index > 0 ==> selection_below(selection_above(index), len) == index,
{
}

} // verus!
