//! The tables of accounts and of access tokens.

use crate::accounts::{
    access_tokens_keyed, accounts_consistent, has_external_id, is_credential, AccessTokenView,
    AccessTokensView, AccountView, AccountsView, AcornAccessToken, AcornAccount,
};
use crate::table::{
    as_map, distinct_keys, has_key, lemma_as_map_at, lemma_as_map_empty, lemma_as_map_push,
    lemma_position, position, Keyed,
};
use crate::text::str_eq;
use vstd::prelude::*;

verus! {

/// The table of accounts: the username is the primary key, the external
/// identity a second unique key.
pub struct AccountTable {
    rows: Vec<AcornAccount>,
}

impl View for AccountTable {
    type V = AccountsView;

    closed spec fn view(&self) -> AccountsView {
        as_map(self.rows@)
    }
}

impl AccountTable {
    /// No username and no external identity is stored twice.
    pub closed spec fn wf(&self) -> bool {
        &&& distinct_keys(self.rows@)
        &&& forall|i: int, j: int|
            0 <= i < j < self.rows@.len() ==> (#[trigger] self.rows@[i]).discord_user_id@ != (
            #[trigger] self.rows@[j]).discord_user_id@
    }

    /// A well-formed table is consistent.
    pub proof fn lemma_consistent(&self)
        requires
            self.wf(),
        ensures
            accounts_consistent(self@),
    {
        assert forall|u: Seq<char>| #[trigger] self@.contains_key(u) implies self@[u].username
            == u by {
            lemma_position(self.rows@, u);
        }
        assert forall|u: Seq<char>, v: Seq<char>|
            #[trigger] self@.contains_key(u) && #[trigger] self@.contains_key(v)
                && self@[u].discord_user_id == self@[v].discord_user_id implies u == v by {
            lemma_position(self.rows@, u);
            lemma_position(self.rows@, v);
            let i = position(self.rows@, u);
            let j = position(self.rows@, v);
            if i < j {
                assert(self.rows@[i].discord_user_id@ != self.rows@[j].discord_user_id@);
            } else if j < i {
                assert(self.rows@[j].discord_user_id@ != self.rows@[i].discord_user_id@);
            }
        }
    }

    /// The empty table.
    pub fn new() -> (t: Self)
        ensures
            t.wf(),
            t@ == Map::<Seq<char>, AccountView>::empty(),
    {
        proof {
            lemma_as_map_empty::<AcornAccount>();
        }
        AccountTable { rows: Vec::new() }
    }

    fn find(&self, username: &str) -> (r: Option<usize>)
        requires
            self.wf(),
        ensures
            match r {
                Some(i) => i < self.rows@.len() && self.rows@[i as int].username@ == username@
                    && self@.contains_key(username@) && self@[username@] == self.rows@[i as int]@,
                None => !self@.contains_key(username@) && !has_key(self.rows@, username@),
            },
    {
        let mut i: usize = 0;
        while i < self.rows.len()
            invariant
                self.wf(),
                i <= self.rows@.len(),
                forall|j: int| 0 <= j < i ==> (#[trigger] self.rows@[j]).key() != username@,
            decreases self.rows@.len() - i,
        {
            if str_eq(self.rows[i].username.as_str(), username) {
                proof {
                    lemma_as_map_at(self.rows@, i as int);
                }
                return Some(i);
            }
            i += 1;
        }
        None
    }

    fn find_by_discord_id(&self, discord_user_id: &str) -> (r: Option<usize>)
        requires
            self.wf(),
        ensures
            r is Some <==> has_external_id(self@, discord_user_id@),
            r matches Some(i) ==> i < self.rows@.len() && self.rows@[i as int].discord_user_id@
                == discord_user_id@ && self@.contains_key(self.rows@[i as int].username@)
                && self@[self.rows@[i as int].username@] == self.rows@[i as int]@,
            r is None ==> forall|j: int|
                0 <= j < self.rows@.len() ==> (#[trigger] self.rows@[j]).discord_user_id@
                    != discord_user_id@,
    {
        let mut i: usize = 0;
        while i < self.rows.len()
            invariant
                self.wf(),
                i <= self.rows@.len(),
                forall|j: int|
                    0 <= j < i ==> (#[trigger] self.rows@[j]).discord_user_id@ != discord_user_id@,
            decreases self.rows@.len() - i,
        {
            if str_eq(self.rows[i].discord_user_id.as_str(), discord_user_id) {
                proof {
                    lemma_as_map_at(self.rows@, i as int);
                }
                return Some(i);
            }
            i += 1;
        }
        proof {
            if has_external_id(self@, discord_user_id@) {
                let u = choose|u: Seq<char>| #[trigger]
                    self@.contains_key(u) && self@[u].discord_user_id == discord_user_id@;
                lemma_position(self.rows@, u);
                assert(self.rows@[position(self.rows@, u)].discord_user_id@ != discord_user_id@);
            }
        }
        None
    }

    /// Whether an account of that username exists.
    pub fn contains(&self, username: &str) -> (r: bool)
        requires
            self.wf(),
        ensures
            r == self@.contains_key(username@),
    {
        self.find(username).is_some()
    }

    /// Whether an account has that username or that external identity.
    pub fn contains_either(&self, username: &str, discord_user_id: &str) -> (r: bool)
        requires
            self.wf(),
        ensures
            r == (self@.contains_key(username@) || has_external_id(self@, discord_user_id@)),
    {
        self.find(username).is_some() || self.find_by_discord_id(discord_user_id).is_some()
    }

    /// The account of that username.
    pub fn get(&self, username: &str) -> (r: Option<AcornAccount>)
        requires
            self.wf(),
        ensures
            r is Some <==> self@.contains_key(username@),
            r is Some ==> r->0@ == self@[username@],
    {
        match self.find(username) {
            Some(i) => Some(self.rows[i].clone()),
            None => None,
        }
    }

    /// The account bound to that external identity.
    pub fn get_by_discord_id(&self, discord_user_id: &str) -> (r: Option<AcornAccount>)
        requires
            self.wf(),
        ensures
            r is Some <==> has_external_id(self@, discord_user_id@),
            r is Some ==> r->0@.discord_user_id == discord_user_id@ && self@.contains_key(
                r->0@.username,
            ) && self@[r->0@.username] == r->0@,
    {
        match self.find_by_discord_id(discord_user_id) {
            Some(i) => Some(self.rows[i].clone()),
            None => None,
        }
    }

    /// Stores `account` unless its username or its external identity is taken.
    /// Returns whether it was stored.
    pub fn insert(&mut self, account: AcornAccount) -> (inserted: bool)
        requires
            old(self).wf(),
        ensures
            final(self).wf(),
            inserted == !(old(self)@.contains_key(account.username@) || has_external_id(
                old(self)@,
                account.discord_user_id@,
            )),
            final(self)@ == if inserted {
                old(self)@.insert(account.username@, account@)
            } else {
                old(self)@
            },
    {
        if self.find(account.username.as_str()).is_some() {
            return false;
        }
        if self.find_by_discord_id(account.discord_user_id.as_str()).is_some() {
            return false;
        }
        proof {
            lemma_as_map_push(self.rows@, account);
        }
        self.rows.push(account);
        true
    }
}

/// The table of access tokens, with the token's value as primary key.
pub struct AccessTokenTable {
    rows: Vec<AcornAccessToken>,
}

impl View for AccessTokenTable {
    type V = AccessTokensView;

    closed spec fn view(&self) -> AccessTokensView {
        as_map(self.rows@)
    }
}

impl AccessTokenTable {
    /// No token value is stored twice.
    pub closed spec fn wf(&self) -> bool {
        distinct_keys(self.rows@)
    }

    /// In a well-formed table every token is stored under its own value.
    pub proof fn lemma_keyed(&self)
        requires
            self.wf(),
        ensures
            access_tokens_keyed(self@),
    {
        assert forall|t: Seq<char>| #[trigger] self@.contains_key(t) implies self@[t].token
            == t by {
            lemma_position(self.rows@, t);
        }
    }

    /// The empty table.
    pub fn new() -> (t: Self)
        ensures
            t.wf(),
            t@ == Map::<Seq<char>, AccessTokenView>::empty(),
    {
        proof {
            lemma_as_map_empty::<AcornAccessToken>();
        }
        AccessTokenTable { rows: Vec::new() }
    }

    fn find(&self, token: &str) -> (r: Option<usize>)
        requires
            self.wf(),
        ensures
            match r {
                Some(i) => i < self.rows@.len() && self.rows@[i as int].token@ == token@
                    && self@.contains_key(token@) && self@[token@] == self.rows@[i as int]@,
                None => !self@.contains_key(token@) && !has_key(self.rows@, token@),
            },
    {
        let mut i: usize = 0;
        while i < self.rows.len()
            invariant
                self.wf(),
                i <= self.rows@.len(),
                forall|j: int| 0 <= j < i ==> (#[trigger] self.rows@[j]).key() != token@,
            decreases self.rows@.len() - i,
        {
            if str_eq(self.rows[i].token.as_str(), token) {
                proof {
                    lemma_as_map_at(self.rows@, i as int);
                }
                return Some(i);
            }
            i += 1;
        }
        None
    }

    /// Whether a token of that value is stored.
    pub fn contains(&self, token: &str) -> (r: bool)
        requires
            self.wf(),
        ensures
            r == self@.contains_key(token@),
    {
        self.find(token).is_some()
    }

    /// The stored credential made of `username` and `token`.
    pub fn get(&self, username: &str, token: &str) -> (r: Option<AcornAccessToken>)
        requires
            self.wf(),
        ensures
            r is Some <==> is_credential(self@, username@, token@),
            r is Some ==> r->0@ == self@[token@],
    {
        match self.find(token) {
            Some(i) => {
                if str_eq(self.rows[i].username.as_str(), username) {
                    Some(self.rows[i].clone())
                } else {
                    None
                }
            },
            None => None,
        }
    }

    /// Whether `username` and `token` are a stored credential.
    pub fn contains_pair(&self, username: &str, token: &str) -> (r: bool)
        requires
            self.wf(),
        ensures
            r == is_credential(self@, username@, token@),
    {
        match self.find(token) {
            Some(i) => str_eq(self.rows[i].username.as_str(), username),
            None => false,
        }
    }

    /// Stores `row` unless a token of its value is stored already. Returns
    /// whether it was stored.
    pub fn insert(&mut self, row: AcornAccessToken) -> (inserted: bool)
        requires
            old(self).wf(),
        ensures
            final(self).wf(),
            inserted == !old(self)@.contains_key(row.token@),
            final(self)@ == if inserted {
                old(self)@.insert(row.token@, row@)
            } else {
                old(self)@
            },
    {
        match self.find(row.token.as_str()) {
            Some(_) => false,
            None => {
                proof {
                    lemma_as_map_push(self.rows@, row);
                }
                self.rows.push(row);
                true
            },
        }
    }
}

} // verus!
