//! The canonical account.

use vstd::prelude::*;

verus! {

/// An account, as every backend's users are normalised into.
#[derive(Debug, Clone, PartialEq, Eq)]
pub struct Account {
    pub id: String,
    pub username: String,
    /// The address of the account: the username alone on its own server, the
    /// username, `@` and the server elsewhere.
    pub acct: String,
    /// The name that the account chose to show, if any.
    pub display_name: Option<String>,
}

/// An account with its address as a sequence of characters.
pub struct AccountView {
    pub id: String,
    pub username: String,
    pub acct: Seq<char>,
    pub display_name: Option<String>,
}

impl View for Account {
    type V = AccountView;

    open spec fn view(&self) -> AccountView {
        AccountView {
            id: self.id,
            username: self.username,
            acct: self.acct@,
            display_name: self.display_name,
        }
    }
}

/// The views of a sequence of accounts, in its order.
pub open spec fn account_views(accounts: Seq<Account>) -> Seq<AccountView> {
    accounts.map_values(|a: Account| a@)
}

} // verus!
