//! The selection controller: it resolves an opaque UI activation identity to
//! an account position and moves the registry's active selection, ignoring
//! identities that match nothing.

use vstd::prelude::*;

use crate::registry::{AccountView, Registry};

verus! {

/// Position of the first account at or after `k` whose stored association is
/// exactly `id`, if any.
pub open spec fn first_match_from(accounts: Seq<AccountView>, id: Seq<char>, k: int) -> Option<int>
    decreases accounts.len() - k when 0 <= k <= accounts.len()
{
    if k >= accounts.len() {
        None
    } else if accounts[k].button_id == Some(id) {
        Some(k)
    } else {
        first_match_from(accounts, id, k + 1)
    }
}

/// Position of the first account whose stored association is exactly `id`.
pub open spec fn first_match(accounts: Seq<AccountView>, id: Seq<char>) -> Option<int> {
    first_match_from(accounts, id, 0)
}

/// A found position always lies within the list and really carries the
/// looked-up association.
proof fn lemma_first_match_in_range(accounts: Seq<AccountView>, id: Seq<char>, k: int)
    requires
        0 <= k <= accounts.len(),
    ensures
        match first_match_from(accounts, id, k) {
            Some(j) => k <= j < accounts.len() && accounts[j].button_id == Some(id),
            None => true,
        },
    decreases accounts.len() - k,
{
    if k < accounts.len() && accounts[k].button_id != Some(id) {
        lemma_first_match_in_range(accounts, id, k + 1);
    }
}

/// What a UI activation event means, once resolved.
#[derive(Clone, Copy, Debug, PartialEq, Eq, Structural)]
pub enum UiAction {
    /// The title item: open the project page.
    OpenInfo,
    /// The manual scan item: run the capture pipeline.
    StartScan,
    /// The quit item: leave the UI loop.
    Quit,
    /// The item associated with the account at this position.
    Select(usize),
    /// An identity matching nothing known: ignored.
    Ignore,
}

/// The opaque identities of the fixed menu items, recorded when the UI is
/// built.
pub struct MenuHandles {
    pub info_id: String,
    pub scan_id: String,
    pub quit_id: String,
}

impl Registry {
    /// First account whose association equals `id`, if any.
    pub fn resolve_activation(&self, id: &String) -> (r: Option<usize>)
        ensures
            match first_match(self@.accounts, id@) {
                Some(j) => r matches Some(u) && u == j,
                None => r is None,
            },
    {
        let n = self.accounts.len();
        let mut k: usize = 0;
        while k < n
            invariant
                n == self@.accounts.len(),
                k <= n,
                first_match(self@.accounts, id@) == first_match_from(self@.accounts, id@, k as int),
            decreases n - k,
        {
            proof {
                assert(self@.accounts[k as int] == self.accounts@[k as int]@);
            }
            let hit = match &self.accounts[k].button_id {
                Some(b) => b.eq(id),
                None => false,
            };
            if hit {
                proof {
                    assert(self@.accounts[k as int].button_id == Some(id@));
                    assert(first_match_from(self@.accounts, id@, k as int) == Some(k as int));
                }
                return Some(k);
            }
            proof {
                assert(self@.accounts[k as int].button_id != Some(id@));
                assert(first_match_from(self@.accounts, id@, k as int)
                    == first_match_from(self@.accounts, id@, k as int + 1));
            }
            k = k + 1;
        }
        None
    }

    /// Moves the selection to position `j` and reports the selected name for
    /// the label; an out-of-range position changes nothing.
    pub fn select_account(&mut self, j: usize) -> (label: Option<String>)
        requires
            old(self).wf(),
        ensures
            final(self).wf(),
            final(self)@.accounts == old(self)@.accounts,
            j < old(self)@.accounts.len() ==> {
                &&& final(self)@.active == Some(j as int)
                &&& label matches Some(u) && u@ == old(self)@.accounts[j as int].username
            },
            j >= old(self)@.accounts.len() ==> {
                &&& final(self)@.active == old(self)@.active
                &&& label is None
            },
    {
        if j < self.accounts.len() {
            let label = self.accounts[j].username.clone();
            self.set_active(j);
            Some(label)
        } else {
            None
        }
    }

    /// Handles an account activation event: if the identity matches some
    /// account's association, that account becomes the active selection and
    /// its name is returned for the label; otherwise the registry is left
    /// exactly as it was.
    pub fn handle_activation(&mut self, id: &String) -> (label: Option<String>)
        requires
            old(self).wf(),
        ensures
            final(self).wf(),
            final(self)@.accounts == old(self)@.accounts,
            match first_match(old(self)@.accounts, id@) {
                Some(j) => {
                    &&& final(self)@.active == Some(j)
                    &&& label matches Some(u) && u@ == old(self)@.accounts[j].username
                },
                None => {
                    &&& final(self)@.active == old(self)@.active
                    &&& label is None
                },
            },
    {
        proof {
            lemma_first_match_in_range(self@.accounts, id@, 0);
        }
        match self.resolve_activation(id) {
            Some(j) => self.select_account(j),
            None => None,
        }
    }

    /// Classifies a UI activation event: the fixed items are checked first,
    /// in the order title, scan, quit; anything else is matched against the
    /// accounts' associations, and an unknown identity is ignored.
    pub fn interpret_event(&self, handles: &MenuHandles, event_id: &String) -> (a: UiAction)
        ensures
            a == spec_interpret(self@.accounts, handles@, event_id@),
    {
        if event_id.eq(&handles.info_id) {
            UiAction::OpenInfo
        } else if event_id.eq(&handles.scan_id) {
            UiAction::StartScan
        } else if event_id.eq(&handles.quit_id) {
            UiAction::Quit
        } else {
            proof {
                lemma_first_match_in_range(self@.accounts, event_id@, 0);
            }
            match self.resolve_activation(event_id) {
                Some(j) => UiAction::Select(j),
                None => UiAction::Ignore,
            }
        }
    }
}

/// Mathematical image of the fixed menu identities.
pub struct MenuHandlesView {
    pub info_id: Seq<char>,
    pub scan_id: Seq<char>,
    pub quit_id: Seq<char>,
}

impl View for MenuHandles {
    type V = MenuHandlesView;

    open spec fn view(&self) -> MenuHandlesView {
        MenuHandlesView { info_id: self.info_id@, scan_id: self.scan_id@, quit_id: self.quit_id@ }
    }
}

/// The meaning of an activation event over the fixed items and the accounts.
pub open spec fn spec_interpret(
    accounts: Seq<AccountView>,
    handles: MenuHandlesView,
    event_id: Seq<char>,
) -> UiAction {
    if event_id == handles.info_id {
        UiAction::OpenInfo
    } else if event_id == handles.scan_id {
        UiAction::StartScan
    } else if event_id == handles.quit_id {
        UiAction::Quit
    } else {
        match first_match(accounts, event_id) {
            Some(j) => UiAction::Select(j as usize),
            None => UiAction::Ignore,
        }
    }
}

} // verus!
