//! The account registry: the ordered list of configured accounts and the
//! currently active selection. The list is fixed once loaded; only the
//! active index and the per-account UI association ever change.

use vstd::prelude::*;

verus! {

/// One configured account: its login name and, once the UI is built, the
/// opaque identity of the menu item that selects it.
pub struct Account {
    pub username: String,
    pub button_id: Option<String>,
}

/// Mathematical image of an `Account`.
pub struct AccountView {
    pub username: Seq<char>,
    pub button_id: Option<Seq<char>>,
}

impl View for Account {
    type V = AccountView;

    open spec fn view(&self) -> AccountView {
        AccountView {
            username: self.username@,
            button_id: match self.button_id {
                Some(id) => Some(id@),
                None => None,
            },
        }
    }
}

/// Mathematical image of a `Registry`.
pub struct RegistryView {
    pub accounts: Seq<AccountView>,
    pub active: Option<int>,
}

/// The ordered account list plus the active selection.
///
/// Invariant (`wf`): the active index is a valid position whenever the list
/// is non-empty, and absent exactly when the list is empty.
pub struct Registry {
    pub accounts: Vec<Account>,
    pub active: Option<usize>,
}

impl View for Registry {
    type V = RegistryView;

    open spec fn view(&self) -> RegistryView {
        RegistryView {
            accounts: Seq::new(self.accounts@.len(), |i: int| self.accounts@[i]@),
            active: match self.active {
                Some(i) => Some(i as int),
                None => None,
            },
        }
    }
}

impl Registry {
    /// Well-formedness: a valid selection exists if and only if the list is
    /// non-empty, and it always points at a real position.
    pub open spec fn wf(&self) -> bool {
        match self@.active {
            Some(i) => 0 <= i < self@.accounts.len(),
            None => self@.accounts.len() == 0,
        }
    }

    /// Builds the registry from the configured account names, in file order.
    /// The selection defaults to the first position, or to none when the
    /// configuration is empty. No account has a UI association yet.
    pub fn from_names(names: Vec<String>) -> (r: Registry)
        ensures
            r.wf(),
            r@.accounts.len() == names@.len(),
            forall|i: int| 0 <= i < names@.len() ==> #[trigger] r@.accounts[i].username == names@[i]@,
            forall|i: int| 0 <= i < names@.len() ==> #[trigger] r@.accounts[i].button_id is None,
            r@.active == if names@.len() == 0 { Option::<int>::None } else { Some(0int) },
    {
        let mut accounts: Vec<Account> = Vec::new();
        let mut k: usize = 0;
        while k < names.len()
            invariant
                k <= names@.len(),
                accounts@.len() == k,
                forall|i: int| 0 <= i < k ==> #[trigger] accounts@[i]@.username == names@[i]@,
                forall|i: int| 0 <= i < k ==> #[trigger] accounts@[i]@.button_id is None,
            decreases names@.len() - k,
        {
            let username = names[k].clone();
            accounts.push(Account { username, button_id: None });
            k = k + 1;
        }
        let active: Option<usize> = if accounts.len() == 0 { None } else { Some(0) };
        Registry { accounts, active }
    }

    /// Number of loaded accounts.
    pub fn len(&self) -> (n: usize)
        ensures
            n == self@.accounts.len(),
    {
        self.accounts.len()
    }

    /// Sets the active selection, ignoring an out-of-range index: an
    /// unrecognized position coming from the UI must never corrupt the
    /// selection or abort the process.
    pub fn set_active(&mut self, index: usize)
        requires
            old(self).wf(),
        ensures
            final(self).wf(),
            final(self)@.accounts == old(self)@.accounts,
            final(self)@.active == if index < old(self)@.accounts.len() {
                Some(index as int)
            } else {
                old(self)@.active
            },
    {
        if index < self.accounts.len() {
            self.active = Some(index);
        }
        assert(self@.accounts =~= old(self)@.accounts);
    }

    /// Resolves the active selection to the account name; none exactly when
    /// the registry is empty.
    pub fn active_identity(&self) -> (r: Option<String>)
        requires
            self.wf(),
        ensures
            match self@.active {
                Some(i) => r matches Some(u) && u@ == self@.accounts[i].username,
                None => r is None,
            },
    {
        match self.active {
            Some(i) => Some(self.accounts[i].username.clone()),
            None => None,
        }
    }

    /// Independent deep copy, so a long-running scan can work from it
    /// without holding any lock.
    pub fn snapshot(&self) -> (r: Registry)
        ensures
            r@ == self@,
    {
        let mut accounts: Vec<Account> = Vec::new();
        let mut k: usize = 0;
        while k < self.accounts.len()
            invariant
                k <= self.accounts@.len(),
                accounts@.len() == k,
                forall|i: int| 0 <= i < k ==> #[trigger] accounts@[i]@ == self.accounts@[i]@,
            decreases self.accounts@.len() - k,
        {
            let a = &self.accounts[k];
            let button_id = match &a.button_id {
                Some(id) => Some(id.clone()),
                None => None,
            };
            accounts.push(Account { username: a.username.clone(), button_id });
            k = k + 1;
        }
        let r = Registry { accounts, active: self.active };
        assert(r@.accounts =~= self@.accounts);
        assert(r@ =~= self@);
        r
    }

    /// Records the opaque UI identity of the menu item built for account
    /// `index`; everything else is left untouched. An out-of-range index is
    /// ignored.
    pub fn set_association(&mut self, index: usize, id: String)
        requires
            old(self).wf(),
        ensures
            final(self).wf(),
            final(self)@.active == old(self)@.active,
            final(self)@.accounts.len() == old(self)@.accounts.len(),
            index < old(self)@.accounts.len() ==> {
                &&& final(self)@.accounts[index as int].username
                    == old(self)@.accounts[index as int].username
                &&& final(self)@.accounts[index as int].button_id == Some(id@)
                &&& forall|i: int| 0 <= i < final(self)@.accounts.len() && i != index
                    ==> #[trigger] final(self)@.accounts[i] == old(self)@.accounts[i]
            },
            index >= old(self)@.accounts.len() ==> final(self)@.accounts == old(self)@.accounts,
    {
        if index < self.accounts.len() {
            let username = self.accounts[index].username.clone();
            self.accounts.set(index, Account { username, button_id: Some(id) });
        } else {
            assert(self@.accounts =~= old(self)@.accounts);
        }
    }
}

} // verus!
