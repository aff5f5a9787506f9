//! Mastodon accounts.

use crate::entities::account::Account as CanonicalAccount;
use crate::entities::account::AccountView;
use vstd::prelude::*;
use vstd::std_specs::convert::FromSpecImpl;

verus! {

/// An account as Mastodon reports it.
#[derive(Debug, Clone, PartialEq, Eq)]
pub struct Account {
    pub id: String,
    pub username: String,
    pub acct: String,
    pub display_name: String,
}

impl Account {
    /// The canonical account that stands for this one: every part is kept.
    pub open spec fn canonical(self) -> AccountView {
        AccountView {
            id: self.id,
            username: self.username,
            acct: self.acct@,
            display_name: Some(self.display_name),
        }
    }
}

/// The canonical accounts that stand for a sequence of accounts, in its order.
pub open spec fn canonical_accounts(accounts: Seq<Account>) -> Seq<AccountView> {
    accounts.map_values(|a: Account| a.canonical())
}

impl From<Account> for CanonicalAccount {
    fn from(val: Account) -> (account: CanonicalAccount)
        ensures
            account@ == val.canonical(),
    {
        CanonicalAccount {
            id: val.id,
            username: val.username,
            acct: val.acct,
            display_name: Some(val.display_name),
        }
    }
}

impl FromSpecImpl<Account> for CanonicalAccount {
    open spec fn obeys_from_spec() -> bool {
        false
    }

    open spec fn from_spec(val: Account) -> CanonicalAccount {
        arbitrary()
    }
}

} // verus!
