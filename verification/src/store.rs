//! The store as a whole: the four tables, and what holds between them.

use crate::account_table::{AccessTokenTable, AccountTable};
use crate::accounts::{
    access_tokens_keyed, accounts_consistent, AccessTokenView, AccessTokensView, AccountView,
    AccountsView,
};
use crate::mod_table::{mods_keyed, ModTable, ModView, ModsView};
use crate::temp_login::{broker_keyed, BrokerView, TempLoginTable, TempLoginView};
use vstd::prelude::*;

verus! {

/// The store as a mathematical value: each table as a map from its primary
/// key.
pub struct DatabaseView {
    pub accounts: AccountsView,
    pub access_tokens: AccessTokensView,
    pub temp_login_tokens: BrokerView,
    pub mods: ModsView,
}

impl DatabaseView {
    /// Every access token and every mod belongs to an account that exists.
    pub open spec fn references_hold(self) -> bool {
        &&& forall|t: Seq<char>| #[trigger]
            self.access_tokens.contains_key(t) ==> self.accounts.contains_key(
                self.access_tokens[t].username,
            )
        &&& forall|id: u128| #[trigger]
            self.mods.contains_key(id) ==> self.accounts.contains_key(self.mods[id].author)
    }

    /// What holds of every state of the store: each row sits under its own
    /// key, no two accounts share a username or an external identity, and
    /// every reference to an account holds.
    pub open spec fn consistent(self) -> bool {
        &&& accounts_consistent(self.accounts)
        &&& access_tokens_keyed(self.access_tokens)
        &&& broker_keyed(self.temp_login_tokens)
        &&& mods_keyed(self.mods)
        &&& self.references_hold()
    }
}

/// The store: accounts, access tokens, temp login tokens and mods.
pub struct Database {
    pub accounts: AccountTable,
    pub access_tokens: AccessTokenTable,
    pub temp_login_tokens: TempLoginTable,
    pub mods: ModTable,
}

impl View for Database {
    type V = DatabaseView;

    open spec fn view(&self) -> DatabaseView {
        DatabaseView {
            accounts: self.accounts@,
            access_tokens: self.access_tokens@,
            temp_login_tokens: self.temp_login_tokens@,
            mods: self.mods@,
        }
    }
}

/// References that held keep holding where no account went away and the rows
/// that refer to accounts stayed as they were.
pub proof fn lemma_references_kept(before: DatabaseView, after: DatabaseView)
    requires
        before.references_hold(),
        after.access_tokens == before.access_tokens,
        after.mods == before.mods,
        forall|u: Seq<char>| #[trigger]
            before.accounts.contains_key(u) ==> after.accounts.contains_key(u),
    ensures
        after.references_hold(),
{
    assert forall|t: Seq<char>| #[trigger] after.access_tokens.contains_key(t) implies
        after.accounts.contains_key(after.access_tokens[t].username) by {
        assert(before.access_tokens.contains_key(t));
        assert(before.accounts.contains_key(before.access_tokens[t].username));
    }
    assert forall|id: u128| #[trigger] after.mods.contains_key(id) implies
        after.accounts.contains_key(after.mods[id].author) by {
        assert(before.mods.contains_key(id));
        assert(before.accounts.contains_key(before.mods[id].author));
    }
}

impl Database {
    /// Each table is well formed, and every reference to an account holds.
    pub open spec fn wf(&self) -> bool {
        &&& self.accounts.wf()
        &&& self.access_tokens.wf()
        &&& self.temp_login_tokens.wf()
        &&& self.mods.wf()
        &&& self@.references_hold()
    }

    /// A well-formed store is consistent.
    pub proof fn lemma_consistent(&self)
        requires
            self.wf(),
        ensures
            self@.consistent(),
    {
        self.accounts.lemma_consistent();
        self.access_tokens.lemma_keyed();
        self.temp_login_tokens.lemma_keyed();
        self.mods.lemma_keyed();
    }

    /// The empty store.
    pub fn new() -> (db: Self)
        ensures
            db.wf(),
            db@.accounts == Map::<Seq<char>, AccountView>::empty(),
            db@.access_tokens == Map::<Seq<char>, AccessTokenView>::empty(),
            db@.temp_login_tokens == Map::<Seq<char>, TempLoginView>::empty(),
            db@.mods == Map::<u128, ModView>::empty(),
    {
        Database {
            accounts: AccountTable::new(),
            access_tokens: AccessTokenTable::new(),
            temp_login_tokens: TempLoginTable::new(),
            mods: ModTable::new(),
        }
    }
}

} // verus!
