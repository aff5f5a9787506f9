//! Firefish users.

use crate::entities::account::{Account, AccountView};
use vstd::prelude::*;
use vstd::std_specs::convert::FromSpecImpl;
use vstd::string::StringExecFns;

verus! {

/// A user as Firefish reports it.
#[derive(Debug, Clone, PartialEq, Eq)]
pub struct User {
    pub id: String,
    /// The name that the user chose to show, if any.
    pub name: Option<String>,
    pub username: String,
    /// The server of a remote user; `None` for a local one.
    pub host: Option<String>,
}

impl User {
    /// The address of the user: the username alone for a local user, the
    /// username, `@` and the server for a remote one.
    pub open spec fn acct(self) -> Seq<char> {
        match self.host {
            Some(host) => self.username@ + seq!['@'] + host@,
            None => self.username@,
        }
    }

    /// The canonical account that stands for this user.
    pub open spec fn account(self) -> AccountView {
        AccountView {
            id: self.id,
            username: self.username,
            acct: self.acct(),
            display_name: self.name,
        }
    }
}

impl From<User> for Account {
    /// Normalises a user. The result is stated over its view, because the
    /// address is a new text.
    fn from(val: User) -> (account: Account)
        ensures
            account@ == val.account(),
    {
        let mut acct = val.username.clone();
        match &val.host {
            Some(host) => {
                proof {
                    reveal_strlit("@");
                }
                acct.append("@");
                acct.append(host.as_str());
                assert(acct@ =~= val.username@ + seq!['@'] + host@);
            },
            None => {},
        }
        Account { id: val.id, username: val.username, acct, display_name: val.name }
    }
}

impl FromSpecImpl<User> for Account {
    open spec fn obeys_from_spec() -> bool {
        false
    }

    open spec fn from_spec(val: User) -> Account {
        arbitrary()
    }
}

} // verus!
