//! What the views show: status counts, the status line, and settings texts.
use vstd::prelude::*;
use vstd::view::View as _;

use crate::state::{AppState, AppStatus, ApplicationSummary};
use crate::text::string_of;

verus! {

broadcast use vstd::string::group_string_axioms;

/// How many of the applications have the status.
pub open spec fn count_status(apps: Seq<ApplicationSummary>, status: AppStatus) -> nat
    decreases apps.len(),
{
    if apps.len() == 0 {
        0
    } else {
        count_status(apps.drop_last(), status) + if apps.last().status == status {
            1nat
        } else {
            0nat
        }
    }
}

/// How many of the applications have the status.
pub fn status_count(apps: &Vec<ApplicationSummary>, status: AppStatus) -> (n: usize)
    ensures
        n == count_status(apps@, status),
{
    let mut n: usize = 0;
    for i in 0..apps.len()
        invariant
            n == count_status(apps@.take(i as int), status),
            n <= i,
    {
        assert(apps@.take(i + 1).drop_last() =~= apps@.take(i as int));
        if apps[i].status == status {
            n = n + 1;
        }
    }
    assert(apps@.take(apps@.len() as int) =~= apps@);
    n
}

/// A single application counts once for its own status and not at all for
/// any other.
pub proof fn lemma_count_single(app: ApplicationSummary, status: AppStatus)
    ensures
        count_status(seq![app], status) == (if app.status == status {
            1nat
        } else {
            0nat
        }),
{
    assert(seq![app].drop_last() =~= Seq::<ApplicationSummary>::empty());
    assert(count_status(Seq::<ApplicationSummary>::empty(), status) == 0);
    assert(seq![app].last() == app);
}

/// Counting two lists one after the other is counting each and adding.
pub proof fn lemma_count_concat(xs: Seq<ApplicationSummary>, ys: Seq<ApplicationSummary>, status: AppStatus)
    ensures
        count_status(xs + ys, status) == count_status(xs, status) + count_status(ys, status),
    decreases ys.len(),
{
    if ys.len() == 0 {
        assert(xs + ys =~= xs);
    } else {
        lemma_count_concat(xs, ys.drop_last(), status);
        assert((xs + ys).drop_last() =~= xs + ys.drop_last());
        assert((xs + ys).last() == ys.last());
    }
}

/// The count is the number of positions whose application has the status:
/// exactly the applications with that status are counted.
pub proof fn lemma_count_is_matching_positions(apps: Seq<ApplicationSummary>, status: AppStatus)
    ensures
        count_status(apps, status) == apps.filter(|a: ApplicationSummary| a.status == status).len(),
    decreases apps.len(),
{
    reveal(Seq::filter);
    if apps.len() > 0 {
        lemma_count_is_matching_positions(apps.drop_last(), status);
    }
}

/// The counts of all statuses add up to the number of applications.
pub proof fn lemma_status_counts_add_up(apps: Seq<ApplicationSummary>)
    ensures
        count_status(apps, AppStatus::Starting) + count_status(apps, AppStatus::Started)
            + count_status(apps, AppStatus::Stopping) + count_status(apps, AppStatus::Stopped)
            + count_status(apps, AppStatus::Undeployed) + count_status(apps, AppStatus::Failed)
            + count_status(apps, AppStatus::Unknown) == apps.len(),
    decreases apps.len(),
{
    if apps.len() > 0 {
        lemma_status_counts_add_up(apps.drop_last());
    }
}

/// No status is counted more often than there are applications.
pub proof fn lemma_status_count_bounded(apps: Seq<ApplicationSummary>, status: AppStatus)
    ensures
        count_status(apps, status) <= apps.len(),
    decreases apps.len(),
{
    if apps.len() > 0 {
        lemma_status_count_bounded(apps.drop_last(), status);
    }
}

impl AppState {
    /// The text of the status bar: "Loading..." while loading, else the
    /// message if there is one, else "Ready".
    pub open spec fn status_line_of(&self) -> Seq<char> {
        if self.is_loading {
            "Loading..."@
        } else {
            match self.error_message {
                Some(m) => m@,
                None => "Ready"@,
            }
        }
    }

    /// The text of the status bar.
    pub fn status_line(&self) -> (line: String)
        ensures
            line@ == self.status_line_of(),
    {
        if self.is_loading {
            String::from_str("Loading...")
        } else {
            match &self.error_message {
                Some(m) => m.clone(),
                None => String::from_str("Ready"),
            }
        }
    }

    /// The name of the selected application, or `fallback` when none is selected.
    pub fn selected_app_name_or(&self, fallback: &str) -> (name: String)
        ensures
            name@ == (if self.selected_app_index < self.applications@.len() {
                self.applications@[self.selected_app_index as int].name@
            } else {
                fallback@
            }),
    {
        match self.selected_app() {
            Some(app) => app.name.clone(),
            None => String::from_str(fallback),
        }
    }

    /// The authentication status and the hint that the settings view shows.
    pub fn authentication_texts(&self) -> (texts: (&'static str, &'static str))
        ensures
            self.is_authenticated ==> texts.0@ == "✓ Authenticated"@ && texts.1@
                == "Press [L] to logout"@,
            !self.is_authenticated ==> texts.0@ == "✗ Not authenticated"@ && texts.1@
                == "Press [L] to login with SSO"@,
    {
        if self.is_authenticated {
            ("✓ Authenticated", "Press [L] to logout")
        } else {
            ("✗ Not authenticated", "Press [L] to login with SSO")
        }
    }

    /// Whether debug mode shows as enabled or disabled.
    pub fn debug_mode_text(&self) -> (text: &'static str)
        ensures
            self.config.ui.debug ==> text@ == "Enabled"@,
            !self.config.ui.debug ==> text@ == "Disabled"@,
    {
        if self.config.ui.debug {
            "Enabled"
        } else {
            "Disabled"
        }
    }
}

} // verus!
