//! The account store and the access tokens issued to accounts.

use crate::response::{
    client_error, respond_err, response_view, server_error, ApiResponse, ApiResponseView,
    ErrorKind,
};
use crate::store::{lemma_references_kept, Database, DatabaseView};
use crate::table::Keyed;
use crate::temp_login::{
    broker_already_exists, broker_create, broker_resolve, broker_resolved, broker_sweep,
    expiry_at, TempLoginToken, TEMP_LOGIN_TTL_MICROS,
};
use crate::text::str_eq;
use vstd::prelude::*;

verus! {

/// How an atomic statement on the store can fail.
#[derive(Clone, Copy, Debug, PartialEq, Eq, Structural)]
pub enum StoreError {
    /// A unique key is taken already.
    UniqueViolation,
    /// The row refers to an account that does not exist.
    ForeignKeyViolation,
    /// The statement asked for exactly one row and found none.
    RowNotFound,
    /// A number left the range of its column.
    NumericOverflow,
    /// The store could not be reached, or gave up.
    Unavailable,
}

/// The failure that a five-character SQLSTATE code of the store stands for;
/// a failure without a code, or with any other code, means that the store
/// was not available.
pub open spec fn store_error_of(sqlstate: Option<Seq<char>>) -> StoreError {
    if sqlstate == Some("23505"@) {
        StoreError::UniqueViolation
    } else if sqlstate == Some("23503"@) {
        StoreError::ForeignKeyViolation
    } else if sqlstate == Some("22003"@) {
        StoreError::NumericOverflow
    } else {
        StoreError::Unavailable
    }
}

/// Reads the SQLSTATE code of a failed statement, if it has one.
pub fn store_error_from_sqlstate(sqlstate: Option<&str>) -> (e: StoreError)
    ensures
        e == store_error_of(
            match sqlstate {
                Some(code) => Some(code@),
                None => None,
            },
        ),
{
    match sqlstate {
        Some(code) => {
            if str_eq(code, "23505") {
                StoreError::UniqueViolation
            } else if str_eq(code, "23503") {
                StoreError::ForeignKeyViolation
            } else if str_eq(code, "22003") {
                StoreError::NumericOverflow
            } else {
                StoreError::Unavailable
            }
        },
        None => StoreError::Unavailable,
    }
}

/// An account. Times are microseconds since the Unix epoch.
#[derive(Debug)]
pub struct AcornAccount {
    pub username: String,
    pub discord_user_id: String,
    pub created_at: i64,
}

/// An account as a mathematical value.
pub struct AccountView {
    pub username: Seq<char>,
    pub discord_user_id: Seq<char>,
    pub created_at: int,
}

impl View for AcornAccount {
    type V = AccountView;

    open spec fn view(&self) -> AccountView {
        AccountView {
            username: self.username@,
            discord_user_id: self.discord_user_id@,
            created_at: self.created_at as int,
        }
    }
}

impl Clone for AcornAccount {
    fn clone(&self) -> (r: Self)
        ensures
            r == *self,
    {
        AcornAccount {
            username: self.username.clone(),
            discord_user_id: self.discord_user_id.clone(),
            created_at: self.created_at,
        }
    }
}

impl Keyed for AcornAccount {
    type Key = Seq<char>;

    type Row = AccountView;

    open spec fn key(&self) -> Seq<char> {
        self.username@
    }

    open spec fn row(&self) -> AccountView {
        self@
    }
}

/// An access token: a bearer credential of one account on one device.
#[derive(Debug)]
pub struct AcornAccessToken {
    pub token: String,
    pub username: String,
    pub device_info: String,
    pub created_at: i64,
}

/// An access token as a mathematical value.
pub struct AccessTokenView {
    pub token: Seq<char>,
    pub username: Seq<char>,
    pub device_info: Seq<char>,
    pub created_at: int,
}

impl View for AcornAccessToken {
    type V = AccessTokenView;

    open spec fn view(&self) -> AccessTokenView {
        AccessTokenView {
            token: self.token@,
            username: self.username@,
            device_info: self.device_info@,
            created_at: self.created_at as int,
        }
    }
}

impl Clone for AcornAccessToken {
    fn clone(&self) -> (r: Self)
        ensures
            r == *self,
    {
        AcornAccessToken {
            token: self.token.clone(),
            username: self.username.clone(),
            device_info: self.device_info.clone(),
            created_at: self.created_at,
        }
    }
}

impl Keyed for AcornAccessToken {
    type Key = Seq<char>;

    type Row = AccessTokenView;

    open spec fn key(&self) -> Seq<char> {
        self.token@
    }

    open spec fn row(&self) -> AccessTokenView {
        self@
    }
}

/// The accounts by username.
pub type AccountsView = Map<Seq<char>, AccountView>;

/// The access tokens by their value.
pub type AccessTokensView = Map<Seq<char>, AccessTokenView>;

/// Some account is bound to the external identity `id`.
pub open spec fn has_external_id(m: AccountsView, id: Seq<char>) -> bool {
    exists|u: Seq<char>| #[trigger] m.contains_key(u) && m[u].discord_user_id == id
}

/// Every account is stored under its own username, and no two accounts share
/// an external identity.
pub open spec fn accounts_consistent(m: AccountsView) -> bool {
    &&& forall|u: Seq<char>| #[trigger] m.contains_key(u) ==> m[u].username == u
    &&& forall|u: Seq<char>, v: Seq<char>|
        #[trigger] m.contains_key(u) && #[trigger] m.contains_key(v) && m[u].discord_user_id
            == m[v].discord_user_id ==> u == v
}

/// Every access token is stored under its own value.
pub open spec fn access_tokens_keyed(m: AccessTokensView) -> bool {
    forall|t: Seq<char>| #[trigger] m.contains_key(t) ==> m[t].token == t
}

/// The pair of `username` and `token` is a stored credential.
pub open spec fn is_credential(m: AccessTokensView, username: Seq<char>, token: Seq<char>) -> bool {
    m.contains_key(token) && m[token].username == username
}

/// Whether an account of that username exists.
pub fn check_if_account_exists(db: &Database, username: &str) -> (r: Result<bool, StoreError>)
    requires
        db.wf(),
    ensures
        r == Ok::<bool, StoreError>(db@.accounts.contains_key(username@)),
{
    Ok(db.accounts.contains(username))
}

/// Whether an account has that username or is bound to that external
/// identity.
pub fn check_if_account_exists_discord(db: &Database, username: &str, discord_user_id: &str) -> (r:
    Result<bool, StoreError>)
    requires
        db.wf(),
    ensures
        r == Ok::<bool, StoreError>(
            db@.accounts.contains_key(username@) || has_external_id(
                db@.accounts,
                discord_user_id@,
            ),
        ),
{
    Ok(db.accounts.contains_either(username, discord_user_id))
}

/// What a caller without a valid credential is told. It is the same whether
/// the username is unknown or the token is wrong.
pub open spec fn not_authenticated() -> ApiResponseView {
    Err(
        client_error(
            ErrorKind::Unauthenticated,
            "Not authenticated; invalid username or access token"@,
        ),
    )
}

/// The answer of the authentication check on a store in state `s`.
pub open spec fn authentication(
    s: DatabaseView,
    username: Seq<char>,
    token: Seq<char>,
) -> ApiResponseView {
    if is_credential(s.access_tokens, username, token) {
        Ok(None)
    } else {
        not_authenticated()
    }
}

/// The answer of the authentication check, once the store has told whether
/// the credential is stored.
pub open spec fn authentication_answer(stored: Result<bool, StoreError>) -> ApiResponseView {
    match stored {
        Ok(true) => Ok(None),
        Ok(false) => not_authenticated(),
        Err(_) => Err(
            server_error(ErrorKind::InternalFailure, "Failed to verify authentication"@),
        ),
    }
}

/// Answers the authentication check from what the store told.
pub fn authentication_response(stored: Result<bool, StoreError>) -> (r: ApiResponse)
    ensures
        response_view(r) == authentication_answer(stored),
{
    match stored {
        Ok(true) => Ok(None),
        Ok(false) => Err(
            respond_err(
                ErrorKind::Unauthenticated,
                "Not authenticated; invalid username or access token",
            ),
        ),
        Err(_) => Err(respond_err(ErrorKind::InternalFailure, "Failed to verify authentication")),
    }
}

/// Checks a bearer credential: succeeds exactly when the pair of username and
/// access token is stored.
pub fn ensure_account_authentication(db: &Database, username: &str, access_token: &str) -> (r:
    ApiResponse)
    requires
        db.wf(),
    ensures
        response_view(r) == authentication(db@, username@, access_token@),
{
    authentication_response(Ok(db.access_tokens.contains_pair(username, access_token)))
}

/// The account of that username; its absence is an error.
pub fn get_account(db: &Database, username: &str) -> (r: Result<AcornAccount, StoreError>)
    requires
        db.wf(),
    ensures
        r is Ok <==> db@.accounts.contains_key(username@),
        r is Ok ==> r->Ok_0@ == db@.accounts[username@],
        r is Err ==> r->Err_0 == StoreError::RowNotFound,
{
    match db.accounts.get(username) {
        Some(account) => Ok(account),
        None => Err(StoreError::RowNotFound),
    }
}

/// The account bound to that external identity, if there is one.
pub fn get_account_by_discord_id(db: &Database, discord_user_id: &str) -> (r: Result<
    Option<AcornAccount>,
    StoreError,
>)
    requires
        db.wf(),
    ensures
        r is Ok,
        r->Ok_0 is Some <==> has_external_id(db@.accounts, discord_user_id@),
        r->Ok_0 is Some ==> {
            let a = r->Ok_0->0@;
            &&& a.discord_user_id == discord_user_id@
            &&& db@.accounts.contains_key(a.username)
            &&& db@.accounts[a.username] == a
        },
{
    Ok(db.accounts.get_by_discord_id(discord_user_id))
}

/// The stored access token of that username and value; its absence is an
/// error.
pub fn get_access_token(db: &Database, username: &str, token: &str) -> (r: Result<
    AcornAccessToken,
    StoreError,
>)
    requires
        db.wf(),
    ensures
        r is Ok <==> is_credential(db@.access_tokens, username@, token@),
        r is Ok ==> r->Ok_0@ == db@.access_tokens[token@],
        r is Err ==> r->Err_0 == StoreError::RowNotFound,
{
    match db.access_tokens.get(username, token) {
        Some(row) => Ok(row),
        None => Err(StoreError::RowNotFound),
    }
}

/// An account with this username or this external identity exists already.
pub open spec fn account_taken(s: DatabaseView, a: AccountView) -> bool {
    s.accounts.contains_key(a.username) || has_external_id(s.accounts, a.discord_user_id)
}

/// The store after the statement that inserts the account `a`.
pub open spec fn after_insert_account(s: DatabaseView, a: AccountView) -> DatabaseView {
    if account_taken(s, a) {
        s
    } else {
        DatabaseView { accounts: s.accounts.insert(a.username, a), ..s }
    }
}

/// What the statement that inserts the account `a` returns.
pub open spec fn insert_account_result(s: DatabaseView, a: AccountView) -> Result<(), StoreError> {
    if account_taken(s, a) {
        Err(StoreError::UniqueViolation)
    } else {
        Ok(())
    }
}

/// Inserts an account. The check of both unique keys and the insertion are
/// one step: a username or an external identity that is taken makes the
/// statement fail and leaves the store as it was.
pub fn insert_account(db: &mut Database, account: &AcornAccount) -> (r: Result<(), StoreError>)
    requires
        old(db).wf(),
    ensures
        final(db).wf(),
        r == insert_account_result(old(db)@, account@),
        final(db)@ == after_insert_account(old(db)@, account@),
{
    let inserted = db.accounts.insert(account.clone());
    proof {
        lemma_references_kept(old(db)@, db@);
    }
    if inserted {
        Ok(())
    } else {
        Err(StoreError::UniqueViolation)
    }
}

/// What the statement that inserts the access token `t` returns.
pub open spec fn insert_access_token_result(s: DatabaseView, t: AccessTokenView) -> Result<
    (),
    StoreError,
> {
    if s.access_tokens.contains_key(t.token) {
        Err(StoreError::UniqueViolation)
    } else if !s.accounts.contains_key(t.username) {
        Err(StoreError::ForeignKeyViolation)
    } else {
        Ok(())
    }
}

/// The store after the statement that inserts the access token `t`.
pub open spec fn after_insert_access_token(s: DatabaseView, t: AccessTokenView) -> DatabaseView {
    if insert_access_token_result(s, t) is Ok {
        DatabaseView { access_tokens: s.access_tokens.insert(t.token, t), ..s }
    } else {
        s
    }
}

/// Inserts an access token. A token value that is stored already, or an owner
/// that is no account, makes the statement fail and leaves the store as it
/// was.
pub fn insert_access_token(db: &mut Database, access_token: &AcornAccessToken) -> (r: Result<
    (),
    StoreError,
>)
    requires
        old(db).wf(),
    ensures
        final(db).wf(),
        r == insert_access_token_result(old(db)@, access_token@),
        final(db)@ == after_insert_access_token(old(db)@, access_token@),
{
    if db.access_tokens.contains(access_token.token.as_str()) {
        return Err(StoreError::UniqueViolation);
    }
    if !db.accounts.contains(access_token.username.as_str()) {
        return Err(StoreError::ForeignKeyViolation);
    }
    let inserted = db.access_tokens.insert(access_token.clone());
    proof {
        assert forall|t: Seq<char>| #[trigger] db@.access_tokens.contains_key(t) implies
            db@.accounts.contains_key(db@.access_tokens[t].username) by {
            if t != access_token.token@ {
                assert(old(db)@.access_tokens.contains_key(t));
            }
        }
        assert forall|id: u128| #[trigger] db@.mods.contains_key(id) implies
            db@.accounts.contains_key(db@.mods[id].author) by {
            assert(old(db)@.mods.contains_key(id));
        }
    }
    Ok(())
}

/// When a temp login token that is created at time `now` expires: five
/// minutes later, or at the end of the clock's range where that comes first.
pub fn temp_login_expiry(now: i64) -> (expires_at: i64)
    ensures
        expires_at == expiry_at(now as int),
{
    if now > i64::MAX - TEMP_LOGIN_TTL_MICROS {
        i64::MAX
    } else {
        now + TEMP_LOGIN_TTL_MICROS
    }
}

/// What the insertion of a temp login token tells its caller, from how the
/// statement ended: a unique violation says that the token exists already,
/// and is no failure.
pub open spec fn temp_login_insert_outcome(executed: Result<(), StoreError>) -> Result<
    bool,
    StoreError,
> {
    match executed {
        Ok(_) => Ok(false),
        Err(StoreError::UniqueViolation) => Ok(true),
        Err(e) => Err(e),
    }
}

/// Reads the end of the statement that inserts a temp login token. The
/// statement itself detects a token that exists already; no check comes
/// before it.
pub fn temp_login_inserted(executed: Result<(), StoreError>) -> (r: Result<bool, StoreError>)
    ensures
        r == temp_login_insert_outcome(executed),
{
    match executed {
        Ok(_) => Ok(false),
        Err(StoreError::UniqueViolation) => Ok(true),
        Err(e) => Err(e),
    }
}

/// What the statement that inserts a temp login token returns: whether a
/// token of that value is stored already.
pub open spec fn insert_temp_login_token_result(s: DatabaseView, token: Seq<char>) -> Result<
    bool,
    StoreError,
> {
    Ok(broker_already_exists(s.temp_login_tokens, token))
}

/// The store after the statement that inserts a temp login token at time
/// `now`.
pub open spec fn after_insert_temp_login_token(
    s: DatabaseView,
    token: Seq<char>,
    username: Seq<char>,
    now: int,
) -> DatabaseView {
    DatabaseView {
        temp_login_tokens: broker_create(s.temp_login_tokens, token, username, now),
        ..s
    }
}

/// Creates a temp login token at time `now`, to expire five minutes later.
/// Returns whether a token of that value exists already, expired or not; the
/// insertion itself detects it, and then nothing changes.
pub fn insert_temp_login_token(
    db: &mut Database,
    temp_login_token: &str,
    username: &str,
    now: i64,
) -> (r: Result<bool, StoreError>)
    requires
        old(db).wf(),
    ensures
        final(db).wf(),
        r == insert_temp_login_token_result(old(db)@, temp_login_token@),
        final(db)@ == after_insert_temp_login_token(
            old(db)@,
            temp_login_token@,
            username@,
            now as int,
        ),
{
    let row = TempLoginToken {
        token: String::from_str(temp_login_token),
        username: String::from_str(username),
        expires_at: temp_login_expiry(now),
    };
    let inserted = db.temp_login_tokens.insert(row);
    proof {
        lemma_references_kept(old(db)@, db@);
    }
    temp_login_inserted(if inserted {
        Ok(())
    } else {
        Err(StoreError::UniqueViolation)
    })
}

/// The store after a sweep at time `now`.
pub open spec fn after_sweep(s: DatabaseView, now: int) -> DatabaseView {
    DatabaseView { temp_login_tokens: broker_sweep(s.temp_login_tokens, now), ..s }
}

/// Deletes the temp login tokens whose expiry lies before `now`.
pub fn delete_expired_temp_login_tokens(db: &mut Database, now: i64) -> (r: Result<
    (),
    StoreError,
>)
    requires
        old(db).wf(),
    ensures
        final(db).wf(),
        r is Ok,
        final(db)@ == after_sweep(old(db)@, now as int),
{
    db.temp_login_tokens.remove_expired(now);
    proof {
        lemma_references_kept(old(db)@, db@);
    }
    Ok(())
}

/// The store after resolving `token` at time `now`.
pub open spec fn after_resolve(s: DatabaseView, token: Seq<char>, now: int) -> DatabaseView {
    DatabaseView { temp_login_tokens: broker_resolve(s.temp_login_tokens, token, now), ..s }
}

/// Resolves a temp login token at time `now`. A stored token whose expiry lies
/// after `now` yields its username and is deleted in the same step, so that it
/// resolves once. Any other token yields nothing and changes nothing.
pub fn temp_login_token_get_username(db: &mut Database, temp_login_token: &str, now: i64) -> (r:
    Result<Option<String>, StoreError>)
    requires
        old(db).wf(),
    ensures
        final(db).wf(),
        r is Ok,
        final(db)@ == after_resolve(old(db)@, temp_login_token@, now as int),
        r->Ok_0 is Some <==> broker_resolved(
            old(db)@.temp_login_tokens,
            temp_login_token@,
            now as int,
        ) is Some,
        r->Ok_0 is Some ==> r->Ok_0->0@ == broker_resolved(
            old(db)@.temp_login_tokens,
            temp_login_token@,
            now as int,
        )->0,
{
    let username = db.temp_login_tokens.take_live(temp_login_token, now);
    proof {
        lemma_references_kept(old(db)@, db@);
    }
    Ok(username)
}

/// Deletes the temp login token of that value, if one is stored.
pub fn remove_temp_login_token(db: &mut Database, temp_login_token: &str) -> (r: Result<
    (),
    StoreError,
>)
    requires
        old(db).wf(),
    ensures
        final(db).wf(),
        r is Ok,
        final(db)@ == (DatabaseView {
            temp_login_tokens: old(db)@.temp_login_tokens.remove(temp_login_token@),
            ..old(db)@
        }),
{
    db.temp_login_tokens.remove(temp_login_token);
    proof {
        lemma_references_kept(old(db)@, db@);
    }
    Ok(())
}

} // verus!
