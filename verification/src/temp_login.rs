//! The temp login broker: short-lived, single-use tokens that bridge a login
//! started on a device with an identity exchange finished in a browser.

use crate::table::{
    as_map, distinct_keys, has_key, lemma_as_map_at, lemma_as_map_empty, lemma_as_map_push,
    lemma_as_map_remove, lemma_position, Keyed,
};
use crate::text::str_eq;
use vstd::prelude::*;

verus! {

/// How long a temp login token lives: five minutes, in microseconds.
pub const TEMP_LOGIN_TTL_MICROS: i64 = 300_000_000;

/// A temp login token as stored. Times are microseconds since the Unix epoch.
#[derive(Debug)]
pub struct TempLoginToken {
    pub token: String,
    pub username: String,
    pub expires_at: i64,
}

/// A stored temp login token as a mathematical value.
pub struct TempLoginView {
    pub token: Seq<char>,
    pub username: Seq<char>,
    pub expires_at: int,
}

impl View for TempLoginToken {
    type V = TempLoginView;

    open spec fn view(&self) -> TempLoginView {
        TempLoginView {
            token: self.token@,
            username: self.username@,
            expires_at: self.expires_at as int,
        }
    }
}

impl Keyed for TempLoginToken {
    type Key = Seq<char>;

    type Row = TempLoginView;

    open spec fn key(&self) -> Seq<char> {
        self.token@
    }

    open spec fn row(&self) -> TempLoginView {
        self@
    }
}

/// The broker's state: the stored tokens by their value.
pub type BrokerView = Map<Seq<char>, TempLoginView>;

/// Every token is stored under its own value.
pub open spec fn broker_keyed(m: BrokerView) -> bool {
    forall|k: Seq<char>| #[trigger] m.contains_key(k) ==> m[k].token == k
}

/// A stored token can still be resolved at time `now`.
pub open spec fn is_live(row: TempLoginView, now: int) -> bool {
    row.expires_at > now
}

/// When a token that is created at time `now` expires: five minutes later,
/// or at the end of the clock's range where that comes first.
pub open spec fn expiry_at(now: int) -> int {
    if now + TEMP_LOGIN_TTL_MICROS <= i64::MAX {
        now + TEMP_LOGIN_TTL_MICROS
    } else {
        i64::MAX as int
    }
}

/// The state after an attempt to create `token` for `username` at time `now`.
/// A value that is stored already, expired or not, is left as it is.
pub open spec fn broker_create(
    m: BrokerView,
    token: Seq<char>,
    username: Seq<char>,
    now: int,
) -> BrokerView {
    if m.contains_key(token) {
        m
    } else {
        m.insert(token, TempLoginView { token, username, expires_at: expiry_at(now) })
    }
}

/// Whether an attempt to create `token` meets a stored token of that value.
pub open spec fn broker_already_exists(m: BrokerView, token: Seq<char>) -> bool {
    m.contains_key(token)
}

/// The username that resolving `token` at time `now` yields, if any.
pub open spec fn broker_resolved(m: BrokerView, token: Seq<char>, now: int) -> Option<Seq<char>> {
    if m.contains_key(token) && is_live(m[token], now) {
        Some(m[token].username)
    } else {
        None
    }
}

/// The state after resolving `token` at time `now`: a hit consumes the token.
pub open spec fn broker_resolve(m: BrokerView, token: Seq<char>, now: int) -> BrokerView {
    if m.contains_key(token) && is_live(m[token], now) {
        m.remove(token)
    } else {
        m
    }
}

/// The state after a sweep at time `now`: the tokens whose expiry lies before
/// `now` are gone.
pub open spec fn broker_sweep(m: BrokerView, now: int) -> BrokerView {
    Map::new(|k: Seq<char>| m.contains_key(k) && m[k].expires_at >= now, |k: Seq<char>| m[k])
}

/// The table of temp login tokens, with the token's value as primary key.
pub struct TempLoginTable {
    rows: Vec<TempLoginToken>,
}

impl View for TempLoginTable {
    type V = BrokerView;

    closed spec fn view(&self) -> BrokerView {
        as_map(self.rows@)
    }
}

impl TempLoginTable {
    /// No token value is stored twice.
    pub closed spec fn wf(&self) -> bool {
        distinct_keys(self.rows@)
    }

    /// In a well-formed table every token is stored under its own value.
    pub proof fn lemma_keyed(&self)
        requires
            self.wf(),
        ensures
            broker_keyed(self@),
    {
        assert forall|k: Seq<char>| #[trigger] self@.contains_key(k) implies self@[k].token
            == k by {
            lemma_position(self.rows@, k);
        }
    }

    /// The empty table.
    pub fn new() -> (t: Self)
        ensures
            t.wf(),
            t@ == Map::<Seq<char>, TempLoginView>::empty(),
    {
        proof {
            lemma_as_map_empty::<TempLoginToken>();
        }
        TempLoginTable { rows: Vec::new() }
    }

    /// How many tokens are stored.
    pub fn len(&self) -> (n: usize)
        requires
            self.wf(),
        ensures
            n == self@.len(),
            self@.dom().finite(),
    {
        proof {
            self.lemma_len();
        }
        self.rows.len()
    }

    proof fn lemma_len(&self)
        requires
            self.wf(),
        ensures
            self@.dom().finite(),
            self@.len() == self.rows@.len(),
    {
        lemma_count(self.rows@);
    }

    fn find(&self, token: &str) -> (r: Option<usize>)
        requires
            self.wf(),
        ensures
            match r {
                Some(i) => i < self.rows@.len() && self.rows@[i as int].token@ == token@
                    && self@.contains_key(token@) && self@[token@] == self.rows@[i as int]@,
                None => !self@.contains_key(token@) && !has_key(self.rows@, token@),
            },
    {
        let mut i: usize = 0;
        while i < self.rows.len()
            invariant
                self.wf(),
                i <= self.rows@.len(),
                forall|j: int| 0 <= j < i ==> (#[trigger] self.rows@[j]).key() != token@,
            decreases self.rows@.len() - i,
        {
            if str_eq(self.rows[i].token.as_str(), token) {
                proof {
                    lemma_as_map_at(self.rows@, i as int);
                }
                return Some(i);
            }
            i += 1;
        }
        None
    }

    /// Stores `row` unless a token of its value is stored already. Returns
    /// whether it was stored.
    pub fn insert(&mut self, row: TempLoginToken) -> (inserted: bool)
        requires
            old(self).wf(),
        ensures
            final(self).wf(),
            inserted == !old(self)@.contains_key(row.token@),
            final(self)@ == if inserted {
                old(self)@.insert(row.token@, row@)
            } else {
                old(self)@
            },
    {
        match self.find(row.token.as_str()) {
            Some(_) => false,
            None => {
                proof {
                    lemma_as_map_push(self.rows@, row);
                }
                self.rows.push(row);
                true
            },
        }
    }

    /// Resolves `token` at time `now`: a stored token that has not expired is
    /// removed and its username returned. Anything else changes nothing.
    pub fn take_live(&mut self, token: &str, now: i64) -> (r: Option<String>)
        requires
            old(self).wf(),
        ensures
            final(self).wf(),
            final(self)@ == broker_resolve(old(self)@, token@, now as int),
            r is Some <==> broker_resolved(old(self)@, token@, now as int) is Some,
            r is Some ==> r->0@ == broker_resolved(old(self)@, token@, now as int)->0,
    {
        match self.find(token) {
            Some(i) => {
                if self.rows[i].expires_at > now {
                    proof {
                        lemma_as_map_remove(self.rows@, i as int);
                    }
                    let row = self.rows.remove(i);
                    Some(row.username)
                } else {
                    None
                }
            },
            None => None,
        }
    }

    /// Removes the token of the given value, if one is stored.
    pub fn remove(&mut self, token: &str)
        requires
            old(self).wf(),
        ensures
            final(self).wf(),
            final(self)@ == old(self)@.remove(token@),
    {
        match self.find(token) {
            Some(i) => {
                proof {
                    lemma_as_map_remove(self.rows@, i as int);
                }
                let _ = self.rows.remove(i);
            },
            None => {
                assert(self@.remove(token@) =~= self@);
            },
        }
    }

    /// Removes every token whose expiry lies before `now`.
    pub fn remove_expired(&mut self, now: i64)
        requires
            old(self).wf(),
        ensures
            final(self).wf(),
            final(self)@ == broker_sweep(old(self)@, now as int),
    {
        let ghost before = self@;
        let ghost mut gone: Set<Seq<char>> = Set::empty();
        let mut i: usize = 0;
        while i < self.rows.len()
            invariant
                self.wf(),
                i <= self.rows@.len(),
                forall|j: int| 0 <= j < i ==> (#[trigger] self.rows@[j]).expires_at >= now,
                forall|k: Seq<char>|
                    gone.contains(k) ==> before.contains_key(k) && before[k].expires_at < now,
                self@ == before.remove_keys(gone),
            decreases self.rows@.len() - i,
        {
            if self.rows[i].expires_at < now {
                proof {
                    lemma_as_map_at(self.rows@, i as int);
                    lemma_as_map_remove(self.rows@, i as int);
                    let k = self.rows@[i as int].token@;
                    assert(before.remove_keys(gone).remove(k) =~= before.remove_keys(
                        gone.insert(k),
                    ));
                    gone = gone.insert(k);
                }
                let _ = self.rows.remove(i);
            } else {
                i += 1;
            }
        }
        proof {
            let swept = broker_sweep(before, now as int);
            assert forall|k: Seq<char>| #[trigger] self@.contains_key(k) <==> swept.contains_key(
                k,
            ) by {
                if self@.contains_key(k) {
                    lemma_position(self.rows@, k);
                }
            }
            assert(self@ =~= swept);
        }
    }
}

/// A table without repeated keys has as many rows as its map has keys.
proof fn lemma_count(rows: Seq<TempLoginToken>)
    requires
        distinct_keys(rows),
    ensures
        as_map(rows).dom().finite(),
        as_map(rows).len() == rows.len(),
    decreases rows.len(),
{
    if rows.len() == 0 {
        lemma_as_map_empty::<TempLoginToken>();
        assert(rows =~= Seq::<TempLoginToken>::empty());
    } else {
        let last = rows.len() - 1;
        let front = rows.remove(last);
        lemma_as_map_at(rows, last);
        lemma_as_map_remove(rows, last);
        lemma_count(front);
        let k = rows[last].key();
        assert(as_map(rows) =~= as_map(front).insert(k, rows[last].row()));
        assert(!as_map(front).contains_key(k));
    }
}

} // verus!
