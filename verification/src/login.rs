//! The login handshake: registration, the exchange with the identity
//! provider, temp login tokens, and the issuing of access tokens.

use crate::accounts::{
    after_insert_account, after_insert_temp_login_token, after_resolve, has_external_id,
    insert_account_result, insert_temp_login_token_result, temp_login_expiry, AccessTokenView,
    AccountView, AcornAccessToken, AcornAccount, StoreError,
};
use crate::flow::{
    advance, answer_of, answers, perform, statement_of, Action, Pending, Returned, Statement,
    Step,
};
use crate::identity::{
    exchange_error_answer, resolve_error_answer, resolve_error_response, DiscordUserInfo,
    ExchangeError, ResolveError, TokenResponse,
};
use crate::response::{
    client_error, respond_err, respond_ok_empty, respond_ok_value, response_view, server_error,
    ApiError, ApiErrorView, ApiResponse, ApiResponseView, ErrorKind, ResponseBody,
    ResponseBodyView,
};
use crate::store::{Database, DatabaseView};
use crate::temp_login::{broker_resolved, expiry_at, TempLoginToken, TempLoginView};
use crate::text::{chars_of, concat3, str_eq};
use crate::token::{
    draw_entropy, encode_access_token, is_token_of, token_of, ACCESS_TOKEN_ENTROPY_BYTES,
};
use vstd::prelude::*;

verus! {

/// What a client sends to register.
#[derive(Debug)]
pub struct RegisterRequest {
    pub username: String,
    pub discord_user_id: String,
    pub discord_access_token: String,
}

/// What a device sends to announce a temp login token.
#[derive(Debug)]
pub struct TempLoginRequest {
    pub temp_login_token: String,
    pub username: String,
}

/// A character that a username may hold.
pub open spec fn is_username_char(c: char) -> bool {
    ||| 'a' <= c <= 'z'
    ||| 'A' <= c <= 'Z'
    ||| '0' <= c <= '9'
    ||| c == '_'
    ||| c == '-'
}

/// The username policy: 3 to 32 characters, each a latin letter, a digit, an
/// underscore or a hyphen.
pub open spec fn valid_username(username: Seq<char>) -> bool {
    &&& 3 <= username.len() <= 32
    &&& forall|i: int| 0 <= i < username.len() ==> is_username_char(#[trigger] username[i])
}

/// Whether `username` meets the username policy.
pub fn is_valid_username(username: &str) -> (r: bool)
    ensures
        r == valid_username(username@),
{
    let chars = chars_of(username);
    if chars.len() < 3 || chars.len() > 32 {
        return false;
    }
    let mut i: usize = 0;
    while i < chars.len()
        invariant
            i <= chars.len(),
            chars@ == username@,
            forall|j: int| 0 <= j < i ==> is_username_char(#[trigger] chars@[j]),
        decreases chars.len() - i,
    {
        let c = chars[i];
        let ok = ('a' <= c && c <= 'z') || ('A' <= c && c <= 'Z') || ('0' <= c && c <= '9') || c
            == '_' || c == '-';
        if !ok {
            return false;
        }
        i += 1;
    }
    true
}

/// The error answer for a statement of the store that failed: the caller
/// learns nothing of it, the log gets `context`.
pub fn store_error_response(context: &str) -> (r: ApiError)
    ensures
        r@ == server_error(ErrorKind::InternalFailure, context@),
{
    respond_err(ErrorKind::InternalFailure, context)
}

/// What a client with a malformed username is told.
pub open spec fn invalid_username_message() -> Seq<char> {
    "Invalid username! Username must be 3-32 characters long and contain only latin letters, digits, underscores, and hyphens; without spaces."@
}

/// The first step of a registration, before anything leaves this service:
/// the username must meet the policy.
pub fn register_precheck(request: &RegisterRequest) -> (r: Result<(), ApiError>)
    ensures
        r is Err <==> !valid_username(request.username@),
        r is Err ==> r->Err_0@ == client_error(ErrorKind::ClientInput, invalid_username_message()),
{
    if !is_valid_username(request.username.as_str()) {
        return Err(
            respond_err(
                ErrorKind::ClientInput,
                "Invalid username! Username must be 3-32 characters long and contain only latin letters, digits, underscores, and hyphens; without spaces.",
            ),
        );
    }
    Ok(())
}

/// Why the identity that the provider resolved does not back the claimed one,
/// if it does not.
pub open spec fn identity_check_failure(
    claimed_id: Seq<char>,
    user_info: Result<DiscordUserInfo, ResolveError>,
) -> Option<ApiErrorView> {
    match user_info {
        Err(e) => Some(resolve_error_answer(e)),
        Ok(info) => if info.id@ != claimed_id {
            Some(
                client_error(
                    ErrorKind::Unauthenticated,
                    "The provided discord user ID does not belong to the provided discord access token!"@,
                ),
            )
        } else {
            None
        },
    }
}

/// The second step of a registration: the external identity that the
/// provider resolved for the caller's external token must be the one that the
/// caller claims.
pub fn register_identity_check(
    discord_user_id: &str,
    user_info: &Result<DiscordUserInfo, ResolveError>,
) -> (r: Result<(), ApiError>)
    ensures
        r is Err <==> identity_check_failure(discord_user_id@, *user_info) is Some,
        r is Err ==> r->Err_0@ == identity_check_failure(discord_user_id@, *user_info)->0,
{
    match user_info {
        Err(e) => Err(resolve_error_response(*e)),
        Ok(info) => {
            if !str_eq(info.id.as_str(), discord_user_id) {
                Err(
                    respond_err(
                        ErrorKind::Unauthenticated,
                        "The provided discord user ID does not belong to the provided discord access token!",
                    ),
                )
            } else {
                Ok(())
            }
        },
    }
}

/// The answer to a registration whose account was handed to the store.
pub open spec fn registration_answer(inserted: Result<(), StoreError>) -> ApiResponseView {
    match inserted {
        Ok(_) => Ok(None),
        Err(StoreError::UniqueViolation) => Err(
            client_error(
                ErrorKind::Conflict,
                "Account with this username or discord user id already exists!"@,
            ),
        ),
        Err(_) => Err(server_error(ErrorKind::InternalFailure, "Could not insert account row"@)),
    }
}

/// The last step of a registration: a unique violation is a conflict, any
/// other failure of the store an internal error.
pub fn registration_response(inserted: Result<(), StoreError>) -> (r: ApiResponse)
    ensures
        response_view(r) == registration_answer(inserted),
{
    match inserted {
        Ok(_) => respond_ok_empty(),
        Err(StoreError::UniqueViolation) => Err(
            respond_err(
                ErrorKind::Conflict,
                "Account with this username or discord user id already exists!",
            ),
        ),
        Err(_) => Err(store_error_response("Could not insert account row")),
    }
}

/// Why a registration is turned away before the store is asked, if it is.
pub open spec fn register_rejection(
    request: RegisterRequest,
    user_info: Result<DiscordUserInfo, ResolveError>,
) -> Option<ApiErrorView> {
    if !valid_username(request.username@) {
        Some(client_error(ErrorKind::ClientInput, invalid_username_message()))
    } else {
        identity_check_failure(request.discord_user_id@, user_info)
    }
}

/// The account that a registration at time `now` creates.
pub open spec fn registered_account(request: RegisterRequest, now: int) -> AccountView {
    AccountView {
        username: request.username@,
        discord_user_id: request.discord_user_id@,
        created_at: now,
    }
}

/// The answer to a registration at time `now` on a store in state `s`.
pub open spec fn register_answer(
    s: DatabaseView,
    request: RegisterRequest,
    user_info: Result<DiscordUserInfo, ResolveError>,
    now: int,
) -> ApiResponseView {
    match register_rejection(request, user_info) {
        Some(e) => Err(e),
        None => registration_answer(insert_account_result(s, registered_account(request, now))),
    }
}

/// The store after a registration at time `now`.
pub open spec fn after_register(
    s: DatabaseView,
    request: RegisterRequest,
    user_info: Result<DiscordUserInfo, ResolveError>,
    now: int,
) -> DatabaseView {
    if register_rejection(request, user_info) is Some {
        s
    } else {
        after_insert_account(s, registered_account(request, now))
    }
}

/// Whether `step` is how a registration at time `now` begins: a username
/// that fails the policy is answered at once, before anything leaves this
/// service; any other asks the identity provider whose the request's external
/// access token is.
pub open spec fn began_register(request: RegisterRequest, now: i64, step: Step) -> bool {
    if !valid_username(request.username@) {
        answers(step, Err(client_error(ErrorKind::ClientInput, invalid_username_message())))
    } else {
        &&& step matches Step::Ask(
            Action::ResolveIdentity { external_access_token },
            Pending::ResolvingRegistrant { username, discord_user_id, now: kept },
        )
        &&& external_access_token@ == request.discord_access_token@
        &&& username@ == request.username@
        &&& discord_user_id@ == request.discord_user_id@
        &&& kept == now
    }
}

/// Begins a registration at time `now`.
pub fn begin_register(request: &RegisterRequest, now: i64) -> (step: Step)
    ensures
        began_register(*request, now, step),
{
    match register_precheck(request) {
        Err(e) => Step::Answer(Err(e)),
        Ok(_) => Step::Ask(
            Action::ResolveIdentity { external_access_token: request.discord_access_token.clone() },
            Pending::ResolvingRegistrant {
                username: request.username.clone(),
                discord_user_id: request.discord_user_id.clone(),
                now,
            },
        ),
    }
}

/// Registers an account at time `now`. `user_info` is what the identity
/// provider resolved for the request's external access token. The username
/// is checked first, then the identity; the account is then inserted in one
/// step that fails on a taken username or external identity. No access token
/// is issued.
pub fn api_post_register(
    db: &mut Database,
    request: &RegisterRequest,
    user_info: Result<DiscordUserInfo, ResolveError>,
    now: i64,
) -> (r: ApiResponse)
    requires
        old(db).wf(),
    ensures
        final(db).wf(),
        response_view(r) == register_answer(old(db)@, *request, user_info, now as int),
        final(db)@ == after_register(old(db)@, *request, user_info, now as int),
{
    let pending = match begin_register(request, now) {
        Step::Answer(answer) => {
            return answer;
        },
        Step::Ask(_, pending) => pending,
    };
    let (statement, pending) = match statement_of(advance(pending, Returned::Identity(user_info))) {
        Err(answer) => {
            return answer;
        },
        Ok(asked) => asked,
    };
    let returned = perform(db, statement);
    answer_of(advance(pending, returned))
}

/// The username of the account that is bound to the external identity `id`.
pub open spec fn username_of_external_id(s: DatabaseView, id: Seq<char>) -> Seq<char> {
    choose|u: Seq<char>| #[trigger]
        s.accounts.contains_key(u) && s.accounts[u].discord_user_id == id
}

/// The answer to a finished identity exchange, once the store has been asked
/// for the account of the resolved identity.
pub open spec fn discord_auth_result(
    tokens: TokenResponse,
    info: DiscordUserInfo,
    account: Result<Option<AcornAccount>, StoreError>,
) -> ApiResponseView {
    match account {
        Err(_) => Err(
            server_error(
                ErrorKind::InternalFailure,
                "Could not fetch account with discord user id"@,
            ),
        ),
        Ok(Some(a)) => Ok(
            Some(
                ResponseBodyView::ExistingAccount {
                    discord_user_id: info.id@,
                    username: a.username@,
                },
            ),
        ),
        Ok(None) => Ok(
            Some(
                ResponseBodyView::NewAccount {
                    discord_access_token: tokens.access_token@,
                    discord_user_id: info.id@,
                    discord_username: info.username@,
                },
            ),
        ),
    }
}

/// The last step of the identity exchange: an identity with an account logs
/// in, one without may register with the external token it is handed.
pub fn discord_auth_response(
    tokens: &TokenResponse,
    info: &DiscordUserInfo,
    account: Result<Option<AcornAccount>, StoreError>,
) -> (r: ApiResponse)
    ensures
        response_view(r) == discord_auth_result(*tokens, *info, account),
{
    match account {
        Err(_) => Err(store_error_response("Could not fetch account with discord user id")),
        Ok(Some(a)) => respond_ok_value(
            ResponseBody::ExistingAccount {
                discord_user_id: info.id.clone(),
                username: a.username,
            },
        ),
        Ok(None) => respond_ok_value(
            ResponseBody::NewAccount {
                discord_access_token: tokens.access_token.clone(),
                discord_user_id: info.id.clone(),
                discord_username: info.username.clone(),
            },
        ),
    }
}

/// The answer to an identity exchange on a store in state `s`.
pub open spec fn discord_auth_answer(
    s: DatabaseView,
    exchanged: Result<TokenResponse, ExchangeError>,
    user_info: Result<DiscordUserInfo, ResolveError>,
) -> ApiResponseView {
    match exchanged {
        Err(e) => Err(exchange_error_answer(e)),
        Ok(tokens) => match user_info {
            Err(e) => Err(resolve_error_answer(e)),
            Ok(info) => if has_external_id(s.accounts, info.id@) {
                Ok(
                    Some(
                        ResponseBodyView::ExistingAccount {
                            discord_user_id: info.id@,
                            username: username_of_external_id(s, info.id@),
                        },
                    ),
                )
            } else {
                Ok(
                    Some(
                        ResponseBodyView::NewAccount {
                            discord_access_token: tokens.access_token@,
                            discord_user_id: info.id@,
                            discord_username: info.username@,
                        },
                    ),
                )
            },
        },
    }
}

/// Whether `step` is how an identity exchange begins: it asks the provider
/// to exchange the authorisation code.
pub open spec fn began_discord_auth(discord_code: Seq<char>, step: Step) -> bool {
    step matches Step::Ask(Action::ExchangeCode { code }, Pending::Exchanging) && code@
        == discord_code
}

/// Begins an identity exchange.
pub fn begin_discord_auth(discord_code: &str) -> (step: Step)
    ensures
        began_discord_auth(discord_code@, step),
{
    Step::Ask(Action::ExchangeCode { code: String::from_str(discord_code) }, Pending::Exchanging)
}

/// Answers an identity exchange. `exchanged` is what the provider gave for
/// the authorisation code, `user_info` what it resolved for the external
/// access token; the latter is read only where the former succeeded. The
/// store is asked but not changed.
pub fn api_get_discord_auth(
    db: &mut Database,
    discord_code: &str,
    exchanged: Result<TokenResponse, ExchangeError>,
    user_info: Result<DiscordUserInfo, ResolveError>,
) -> (r: ApiResponse)
    requires
        old(db).wf(),
    ensures
        final(db).wf(),
        final(db)@ == old(db)@,
        response_view(r) == discord_auth_answer(old(db)@, exchanged, user_info),
{
    let pending = match begin_discord_auth(discord_code) {
        Step::Answer(answer) => {
            return answer;
        },
        Step::Ask(_, pending) => pending,
    };
    let pending = match advance(pending, Returned::Tokens(exchanged)) {
        Step::Answer(answer) => {
            return answer;
        },
        Step::Ask(_, pending) => pending,
    };
    let (statement, pending) = match statement_of(advance(pending, Returned::Identity(user_info))) {
        Err(answer) => {
            return answer;
        },
        Ok(asked) => asked,
    };
    let returned = perform(db, statement);
    proof {
        db.lemma_consistent();
        let id = user_info->Ok_0.id@;
        if has_external_id(db@.accounts, id) {
            let u = username_of_external_id(db@, id);
            assert(db@.accounts.contains_key(u));
            assert(db@.accounts.contains_key(returned->Account_0->Ok_0->0@.username));
        }
    }
    answer_of(advance(pending, returned))
}

/// The answer to the announcement of a temp login token.
pub open spec fn temp_login_answer(inserted: Result<bool, StoreError>) -> ApiResponseView {
    match inserted {
        Ok(false) => Ok(None),
        Ok(true) => Err(client_error(ErrorKind::Conflict, "Temp login token already exists"@)),
        Err(_) => Err(
            server_error(ErrorKind::InternalFailure, "Could not insert temp login token row"@),
        ),
    }
}

/// The last step of announcing a temp login token: a token that exists
/// already is a conflict.
pub fn temp_login_response(inserted: Result<bool, StoreError>) -> (r: ApiResponse)
    ensures
        response_view(r) == temp_login_answer(inserted),
{
    match inserted {
        Ok(false) => respond_ok_empty(),
        Ok(true) => Err(respond_err(ErrorKind::Conflict, "Temp login token already exists")),
        Err(_) => Err(store_error_response("Could not insert temp login token row")),
    }
}

/// Whether `step` is how the announcement of a temp login token at time `now`
/// begins: it asks the store to insert the token with its expiry.
pub open spec fn began_temp_login(request: TempLoginRequest, now: i64, step: Step) -> bool {
    &&& step matches Step::Ask(
        Action::Store(Statement::InsertTempLoginToken { row }),
        Pending::AnnouncingTempLogin,
    )
    &&& row@ == TempLoginView {
        token: request.temp_login_token@,
        username: request.username@,
        expires_at: expiry_at(now as int),
    }
}

/// Begins the announcement of a temp login token at time `now`.
pub fn begin_temp_login(request: &TempLoginRequest, now: i64) -> (step: Step)
    ensures
        began_temp_login(*request, now, step),
{
    Step::Ask(
        Action::Store(
            Statement::InsertTempLoginToken {
                row: TempLoginToken {
                    token: request.temp_login_token.clone(),
                    username: request.username.clone(),
                    expires_at: temp_login_expiry(now),
                },
            },
        ),
        Pending::AnnouncingTempLogin,
    )
}

/// Announces a temp login token at time `now`: creates it for the username,
/// to expire five minutes later, or answers with a conflict where a token of
/// that value exists.
pub fn api_post_temp_login(db: &mut Database, request: &TempLoginRequest, now: i64) -> (r:
    ApiResponse)
    requires
        old(db).wf(),
    ensures
        final(db).wf(),
        response_view(r) == temp_login_answer(
            insert_temp_login_token_result(old(db)@, request.temp_login_token@),
        ),
        final(db)@ == after_insert_temp_login_token(
            old(db)@,
            request.temp_login_token@,
            request.username@,
            now as int,
        ),
{
    let (statement, pending) = match statement_of(begin_temp_login(request, now)) {
        Err(answer) => {
            return answer;
        },
        Ok(asked) => asked,
    };
    let returned = perform(db, statement);
    answer_of(advance(pending, returned))
}

/// What the holder of an unknown, consumed or expired temp login token is
/// told. The three cases read the same.
pub open spec fn unknown_temp_login_message() -> Seq<char> {
    "Could not find username for temp login token. It may have expired or the user has not finished logging in yet."@
}

/// What is told where a temp login token names a username without account.
pub open spec fn no_such_account_message(username: Seq<char>) -> Seq<char> {
    "Account with username \""@ + username + "\" does not exist!"@
}

/// The view of optional random bytes.
pub open spec fn opt_entropy(entropy: Option<Vec<u8>>) -> Option<Seq<u8>> {
    match entropy {
        Some(bytes) => Some(bytes@),
        None => None,
    }
}

/// The token made of the random bytes, if there are any and they suffice.
pub open spec fn token_of_entropy(entropy: Option<Seq<u8>>) -> Option<Seq<char>> {
    match entropy {
        Some(bytes) => token_of(bytes),
        None => None,
    }
}

/// The step after resolving the temp login token: the username, or why the
/// request ends here.
pub fn access_token_after_resolve(resolved: Result<Option<String>, StoreError>) -> (r: Result<
    String,
    ApiError,
>)
    ensures
        r is Ok <==> resolved is Ok && resolved->Ok_0 is Some,
        r is Ok ==> r->Ok_0 == resolved->Ok_0->0,
        r is Err ==> r->Err_0@ == if resolved is Err {
            server_error(ErrorKind::InternalFailure, "Could not get username for temp login token"@)
        } else {
            client_error(ErrorKind::NotFound, unknown_temp_login_message())
        },
{
    match resolved {
        Err(_) => Err(store_error_response("Could not get username for temp login token")),
        Ok(None) => Err(
            respond_err(
                ErrorKind::NotFound,
                "Could not find username for temp login token. It may have expired or the user has not finished logging in yet.",
            ),
        ),
        Ok(Some(username)) => Ok(username),
    }
}

/// The step after asking whether the username has an account.
pub fn access_token_after_account_check(exists: Result<bool, StoreError>, username: &str) -> (r:
    Result<(), ApiError>)
    ensures
        r is Ok <==> exists == Ok::<bool, StoreError>(true),
        r is Err ==> r->Err_0@ == if exists is Err {
            server_error(ErrorKind::InternalFailure, "Could not check if account exists"@)
        } else {
            client_error(ErrorKind::NotFound, no_such_account_message(username@))
        },
{
    match exists {
        Err(_) => Err(store_error_response("Could not check if account exists")),
        Ok(false) => {
            let message = concat3("Account with username \"", username, "\" does not exist!");
            Err(respond_err(ErrorKind::NotFound, message.as_str()))
        },
        Ok(true) => Ok(()),
    }
}

/// The access token for `username` made of the given random bytes at time
/// `now`. Where the random source gave nothing, or less than the entropy
/// floor asks, no token is made and the request fails.
pub fn new_access_token(
    username: &str,
    device_info: &str,
    now: i64,
    entropy: &Option<Vec<u8>>,
) -> (r: Result<AcornAccessToken, ApiError>)
    ensures
        r is Ok <==> token_of_entropy(opt_entropy(*entropy)) is Some,
        r is Ok ==> r->Ok_0@ == (AccessTokenView {
            token: token_of_entropy(opt_entropy(*entropy))->0,
            username: username@,
            device_info: device_info@,
            created_at: now as int,
        }),
        r is Ok ==> is_token_of(r->Ok_0.token@, opt_entropy(*entropy)->0),
        r is Err ==> r->Err_0@ == server_error(
            ErrorKind::InternalFailure,
            "Could not generate access token!"@,
        ),
{
    let token = match entropy {
        Some(bytes) => encode_access_token(bytes.as_slice()),
        None => None,
    };
    match token {
        Some(token) => Ok(
            AcornAccessToken {
                token,
                username: String::from_str(username),
                device_info: String::from_str(device_info),
                created_at: now,
            },
        ),
        None => Err(respond_err(ErrorKind::InternalFailure, "Could not generate access token!")),
    }
}

/// The answer to a request for an access token whose token was handed to the
/// store.
pub open spec fn access_token_result(
    inserted: Result<(), StoreError>,
    token: Seq<char>,
) -> ApiResponseView {
    match inserted {
        Ok(_) => Ok(Some(ResponseBodyView::AccessToken { access_token: token })),
        Err(_) => Err(
            server_error(ErrorKind::InternalFailure, "Could not insert access token row"@),
        ),
    }
}

/// The last step of issuing an access token.
pub fn access_token_response(inserted: Result<(), StoreError>, token: &str) -> (r: ApiResponse)
    ensures
        response_view(r) == access_token_result(inserted, token@),
{
    match inserted {
        Ok(_) => respond_ok_value(
            ResponseBody::AccessToken { access_token: String::from_str(token) },
        ),
        Err(_) => Err(store_error_response("Could not insert access token row")),
    }
}

/// The access token that a request persists, if it gets that far: the temp
/// login token resolves, its username has an account, the random bytes
/// suffice, and no token of the same value is stored.
pub open spec fn issued_access_token(
    s: DatabaseView,
    temp_login_token: Seq<char>,
    device_info: Seq<char>,
    now: int,
    entropy: Option<Seq<u8>>,
) -> Option<AccessTokenView> {
    let resolved = broker_resolved(s.temp_login_tokens, temp_login_token, now);
    let token = token_of_entropy(entropy);
    if resolved is Some && s.accounts.contains_key(resolved->0) && token is Some
        && !s.access_tokens.contains_key(token->0) {
        Some(
            AccessTokenView {
                token: token->0,
                username: resolved->0,
                device_info,
                created_at: now,
            },
        )
    } else {
        None
    }
}

/// The answer to a request for an access token at time `now`, with the given
/// random bytes, on a store in state `s`.
pub open spec fn access_token_answer(
    s: DatabaseView,
    temp_login_token: Seq<char>,
    device_info: Seq<char>,
    now: int,
    entropy: Option<Seq<u8>>,
) -> ApiResponseView {
    let resolved = broker_resolved(s.temp_login_tokens, temp_login_token, now);
    let token = token_of_entropy(entropy);
    if resolved is None {
        Err(client_error(ErrorKind::NotFound, unknown_temp_login_message()))
    } else if !s.accounts.contains_key(resolved->0) {
        Err(client_error(ErrorKind::NotFound, no_such_account_message(resolved->0)))
    } else if token is None {
        Err(server_error(ErrorKind::InternalFailure, "Could not generate access token!"@))
    } else if s.access_tokens.contains_key(token->0) {
        Err(server_error(ErrorKind::InternalFailure, "Could not insert access token row"@))
    } else {
        Ok(Some(ResponseBodyView::AccessToken { access_token: token->0 }))
    }
}

/// The store after a request for an access token: the temp login token is
/// consumed if it resolved, and the issued token, if any, is stored.
pub open spec fn after_access_token(
    s: DatabaseView,
    temp_login_token: Seq<char>,
    device_info: Seq<char>,
    now: int,
    entropy: Option<Seq<u8>>,
) -> DatabaseView {
    let consumed = after_resolve(s, temp_login_token, now);
    match issued_access_token(s, temp_login_token, device_info, now, entropy) {
        Some(row) => DatabaseView {
            access_tokens: consumed.access_tokens.insert(row.token, row),
            ..consumed
        },
        None => consumed,
    }
}

/// Whether `step` is how a request for an access token begins: it asks the
/// store to resolve the temp login token at time `now`.
pub open spec fn began_access_token(
    temp_login_token: Seq<char>,
    device_info: Seq<char>,
    now: i64,
    entropy: Option<Seq<u8>>,
    step: Step,
) -> bool {
    &&& step matches Step::Ask(
        Action::Store(Statement::ResolveTempLoginToken { token, now: at }),
        Pending::ResolvingTempLogin { device_info: d, now: n, entropy: e },
    )
    &&& token@ == temp_login_token
    &&& at == now
    &&& d@ == device_info
    &&& n == now
    &&& opt_entropy(e) == entropy
}

/// Begins a request for an access token at time `now`, with the random bytes
/// that the token is to be made of.
pub fn begin_access_token(
    temp_login_token: &str,
    device_info: &str,
    now: i64,
    entropy: Option<Vec<u8>>,
) -> (step: Step)
    ensures
        began_access_token(temp_login_token@, device_info@, now, opt_entropy(entropy), step),
{
    Step::Ask(
        Action::Store(
            Statement::ResolveTempLoginToken { token: String::from_str(temp_login_token), now },
        ),
        Pending::ResolvingTempLogin { device_info: String::from_str(device_info), now, entropy },
    )
}

/// Begins a request for an access token at time `now`, with fresh random
/// bytes from the operating system.
pub fn start_access_token(temp_login_token: &str, device_info: &str, now: i64) -> (step: Step)
    ensures
        exists|entropy: Option<Seq<u8>>|
            {
                &&& entropy is Some ==> entropy->0.len() == ACCESS_TOKEN_ENTROPY_BYTES
                &&& #[trigger] began_access_token(
                    temp_login_token@,
                    device_info@,
                    now,
                    entropy,
                    step,
                )
            },
{
    let entropy = draw_entropy();
    let ghost drawn = opt_entropy(entropy);
    let step = begin_access_token(temp_login_token, device_info, now, entropy);
    assert(began_access_token(temp_login_token@, device_info@, now, drawn, step));
    step
}

/// Trades a temp login token for an access token, at time `now` and with the
/// given random bytes. The temp login token is resolved, which consumes it;
/// its username must have an account; the token is made of the random bytes
/// and stored for the username and device. A failure after the first step
/// leaves the temp login token consumed and no access token stored.
pub fn api_get_access_token_with(
    db: &mut Database,
    temp_login_token: &str,
    device_info: &str,
    now: i64,
    entropy: Option<Vec<u8>>,
) -> (r: ApiResponse)
    requires
        old(db).wf(),
    ensures
        final(db).wf(),
        response_view(r) == access_token_answer(
            old(db)@,
            temp_login_token@,
            device_info@,
            now as int,
            opt_entropy(entropy),
        ),
        final(db)@ == after_access_token(
            old(db)@,
            temp_login_token@,
            device_info@,
            now as int,
            opt_entropy(entropy),
        ),
        response_view(r) matches Ok(Some(ResponseBodyView::AccessToken { access_token }))
            ==> is_token_of(access_token, opt_entropy(entropy)->0),
{
    let step = begin_access_token(temp_login_token, device_info, now, entropy);
    let (statement, pending) = match statement_of(step) {
        Err(answer) => {
            return answer;
        },
        Ok(asked) => asked,
    };
    let returned = perform(db, statement);
    let (statement, pending) = match statement_of(advance(pending, returned)) {
        Err(answer) => {
            return answer;
        },
        Ok(asked) => asked,
    };
    let returned = perform(db, statement);
    let (statement, pending) = match statement_of(advance(pending, returned)) {
        Err(answer) => {
            return answer;
        },
        Ok(asked) => asked,
    };
    let returned = perform(db, statement);
    answer_of(advance(pending, returned))
}

/// The call issued at the time `now` with the random bytes `entropy`.
pub open spec fn access_token_issued_with(
    before: DatabaseView,
    after: DatabaseView,
    temp_login_token: Seq<char>,
    device_info: Seq<char>,
    now: i64,
    entropy: Option<Seq<u8>>,
    answer: ApiResponseView,
) -> bool {
    &&& entropy is Some ==> entropy->0.len() == ACCESS_TOKEN_ENTROPY_BYTES
    &&& answer == access_token_answer(before, temp_login_token, device_info, now as int, entropy)
    &&& after == after_access_token(before, temp_login_token, device_info, now as int, entropy)
    &&& answer matches Ok(Some(ResponseBodyView::AccessToken { access_token })) ==> is_token_of(
        access_token,
        entropy->0,
    )
}

/// Trades a temp login token for an access token, at time `now` and with
/// fresh random bytes from the operating system.
pub fn api_get_access_token(
    db: &mut Database,
    temp_login_token: &str,
    device_info: &str,
    now: i64,
) -> (r: ApiResponse)
    requires
        old(db).wf(),
    ensures
        final(db).wf(),
        exists|entropy: Option<Seq<u8>>|
            access_token_issued_with(
                old(db)@,
                final(db)@,
                temp_login_token@,
                device_info@,
                now,
                entropy,
                response_view(r),
            ),
{
    let entropy = draw_entropy();
    let ghost drawn = opt_entropy(entropy);
    let r = api_get_access_token_with(db, temp_login_token, device_info, now, entropy);
    assert(access_token_issued_with(
        old(db)@,
        db@,
        temp_login_token@,
        device_info@,
        now,
        drawn,
        response_view(r),
    ));
    r
}

/// The page that sends a browser on to the identity provider, after it has
/// put the temp login token aside.
pub open spec fn redirect_page(temp_login_token: Seq<char>) -> Seq<char> {
    "<!DOCTYPE html><html><head><title>AcornGM</title></head><body><h1>Redirecting to Discord...</h1><script>localStorage.setItem('tempLoginToken', '"@
        + temp_login_token
        + "');window.location.replace('https://discord.com/oauth2/authorize?client_id=1360325253766578479&response_type=code&redirect_uri=https%3A%2F%2Facorngm.biotomatede.hackclub.app%2Fdiscord_auth_page.html&scope=identify')</script></body></html>"@
}

/// Builds the page that stores the temp login token in the browser and
/// sends it on to the identity provider.
pub fn redirect_goto_discord_auth(temp_login_token: &str) -> (page: String)
    ensures
        page@ == redirect_page(temp_login_token@),
{
    concat3(
        "<!DOCTYPE html><html><head><title>AcornGM</title></head><body><h1>Redirecting to Discord...</h1><script>localStorage.setItem('tempLoginToken', '",
        temp_login_token,
        "');window.location.replace('https://discord.com/oauth2/authorize?client_id=1360325253766578479&response_type=code&redirect_uri=https%3A%2F%2Facorngm.biotomatede.hackclub.app%2Fdiscord_auth_page.html&scope=identify')</script></body></html>",
    )
}

} // verus!
