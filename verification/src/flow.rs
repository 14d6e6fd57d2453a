//! Requests as sequences of actions.
//!
//! A request does not touch the store or the network itself. It says which
//! action to perform next, a statement on the store or a call of the identity
//! provider, and is told what the action returned; then it either asks for
//! another action or answers. Whoever holds the store and the network runs
//! that loop: [`perform`] executes a statement on the store that this library
//! keeps, and a service with a database executes the same statement there.
//! [`advance`] takes the request from one action to the next.

use crate::accounts::{
    after_insert_access_token, after_insert_account, after_resolve, after_sweep,
    authentication_answer, authentication_response, check_if_account_exists,
    delete_expired_temp_login_tokens, get_account_by_discord_id,
    has_external_id, insert_access_token, insert_access_token_result, insert_account,
    insert_account_result, is_credential, temp_login_insert_outcome, temp_login_inserted,
    temp_login_token_get_username, AccessTokenView, AccountView, AcornAccessToken,
    AcornAccount, StoreError,
};
use crate::identity::{
    exchange_error_answer, exchange_error_response, resolve_error_answer, resolve_error_response,
    DiscordUserInfo, ExchangeError, ResolveError, TokenResponse,
};
use crate::login::{
    access_token_after_account_check, access_token_after_resolve, access_token_response,
    access_token_result, discord_auth_response, discord_auth_result, identity_check_failure,
    new_access_token, no_such_account_message, opt_entropy, register_identity_check,
    registration_answer, registration_response, temp_login_answer, temp_login_response,
    token_of_entropy, unknown_temp_login_message,
};
use crate::mod_table::{opt_bytes, opt_text, ModRecord, ModView};
use crate::mods::{
    after_change_mod, after_insert_mod, after_remove_mod, authorization_by,
    authorization_response, change_mod, change_mod_result, decide_authorization, forbidden,
    insert_mod, insert_mod_result, remove_mod, statement_answer, statement_response,
    Authorization,
};
use crate::response::{
    client_error, respond_err, response_view, server_error, ApiError, ApiErrorView, ApiResponse,
    ApiResponseView, ErrorKind,
};
use crate::store::{lemma_references_kept, Database, DatabaseView};
use crate::temp_login::{broker_resolved, TempLoginToken};
use crate::token::is_token_of;
use vstd::pervasive::unreached;
use vstd::prelude::*;

verus! {

/// One atomic statement on the store.
#[derive(Debug)]
pub enum Statement {
    /// Is there an account of this username?
    AccountExists { username: String },
    /// Which account is bound to this external identity?
    AccountByExternalId { discord_user_id: String },
    /// Are this username and access token a stored credential?
    CredentialExists { username: String, access_token: String },
    /// Insert this account; both unique keys are checked in the same step.
    InsertAccount { account: AcornAccount },
    /// Insert this access token.
    InsertAccessToken { row: AcornAccessToken },
    /// Insert this temp login token; a token of the same value makes the
    /// statement fail with a unique violation.
    InsertTempLoginToken { row: TempLoginToken },
    /// Delete the temp login token of this value if it expires after `now`,
    /// and return its username.
    ResolveTempLoginToken { token: String, now: i64 },
    /// Delete the temp login tokens whose expiry lies before `now`.
    DeleteExpiredTempLoginTokens { now: i64 },
    /// Who is the recorded author of this mod?
    ModAuthor { mod_id: u128 },
    /// Insert this mod.
    InsertMod { record: ModRecord },
    /// Replace the given parts of this mod and raise its version by one.
    ChangeMod { mod_id: u128, file_data: Option<Vec<u8>>, description: Option<String> },
    /// Delete this mod.
    RemoveMod { mod_id: u128 },
}

/// What a request asks of the outside: a statement on the store, or a call
/// of the identity provider.
#[derive(Debug)]
pub enum Action {
    /// Execute this statement on the store.
    Store(Statement),
    /// Exchange this authorisation code for the provider's tokens.
    ExchangeCode { code: String },
    /// Ask the provider whose this external access token is.
    ResolveIdentity { external_access_token: String },
}

/// What came back for an action.
#[derive(Debug)]
pub enum Returned {
    /// The answer to a question of yes or no.
    Flag(Result<bool, StoreError>),
    /// The end of a statement that returns nothing.
    Done(Result<(), StoreError>),
    /// A text, if a row was found.
    Text(Result<Option<String>, StoreError>),
    /// An account, if one was found.
    Account(Result<Option<AcornAccount>, StoreError>),
    /// The provider's tokens for an authorisation code.
    Tokens(Result<TokenResponse, ExchangeError>),
    /// The identity behind an external access token.
    Identity(Result<DiscordUserInfo, ResolveError>),
}

/// Whether `returned` is what the statement returns on a store in state `s`.
pub open spec fn statement_returns(
    s: DatabaseView,
    statement: Statement,
    returned: Returned,
) -> bool {
    match statement {
        Statement::AccountExists { username } => returned == Returned::Flag(
            Ok(s.accounts.contains_key(username@)),
        ),
        Statement::AccountByExternalId { discord_user_id } => {
            &&& returned matches Returned::Account(Ok(found))
            &&& found is Some <==> has_external_id(s.accounts, discord_user_id@)
            &&& found matches Some(a) ==> {
                &&& a@.discord_user_id == discord_user_id@
                &&& s.accounts.contains_key(a@.username)
                &&& s.accounts[a@.username] == a@
            }
        },
        Statement::CredentialExists { username, access_token } => returned == Returned::Flag(
            Ok(is_credential(s.access_tokens, username@, access_token@)),
        ),
        Statement::InsertAccount { account } => returned == Returned::Done(
            insert_account_result(s, account@),
        ),
        Statement::InsertAccessToken { row: access_token } => returned == Returned::Done(
            insert_access_token_result(s, access_token@),
        ),
        Statement::InsertTempLoginToken { row } => returned == Returned::Done(
            if s.temp_login_tokens.contains_key(row.token@) {
                Err(StoreError::UniqueViolation)
            } else {
                Ok(())
            },
        ),
        Statement::ResolveTempLoginToken { token, now } => {
            &&& returned matches Returned::Text(Ok(found))
            &&& found is Some <==> broker_resolved(s.temp_login_tokens, token@, now as int) is Some
            &&& found matches Some(username) ==> username@ == broker_resolved(
                s.temp_login_tokens,
                token@,
                now as int,
            )->0
        },
        Statement::DeleteExpiredTempLoginTokens { now } => {
            returned matches Returned::Done(done) && done is Ok
        },
        Statement::ModAuthor { mod_id } => {
            &&& returned matches Returned::Text(Ok(found))
            &&& found is Some <==> s.mods.contains_key(mod_id)
            &&& found matches Some(author) ==> author@ == s.mods[mod_id].author
        },
        Statement::InsertMod { record } => returned == Returned::Done(
            insert_mod_result(s, record@),
        ),
        Statement::ChangeMod { mod_id, file_data, description } => returned == Returned::Done(
            change_mod_result(s, mod_id),
        ),
        Statement::RemoveMod { mod_id } => returned matches Returned::Done(done) && done is Ok,
    }
}

/// The store after the statement, from the state `s`.
pub open spec fn after_statement(s: DatabaseView, statement: Statement) -> DatabaseView {
    match statement {
        Statement::AccountExists { username } => s,
        Statement::AccountByExternalId { discord_user_id } => s,
        Statement::CredentialExists { username, access_token } => s,
        Statement::InsertAccount { account } => after_insert_account(s, account@),
        Statement::InsertAccessToken { row: access_token } => after_insert_access_token(
            s,
            access_token@,
        ),
        Statement::InsertTempLoginToken { row } => if s.temp_login_tokens.contains_key(row.token@) {
            s
        } else {
            DatabaseView { temp_login_tokens: s.temp_login_tokens.insert(row.token@, row@), ..s }
        },
        Statement::ResolveTempLoginToken { token, now } => after_resolve(s, token@, now as int),
        Statement::DeleteExpiredTempLoginTokens { now } => after_sweep(s, now as int),
        Statement::ModAuthor { mod_id } => s,
        Statement::InsertMod { record } => after_insert_mod(s, record@),
        Statement::ChangeMod { mod_id, file_data, description } => after_change_mod(
            s,
            mod_id,
            opt_bytes(file_data),
            opt_text(description),
        ),
        Statement::RemoveMod { mod_id } => after_remove_mod(s, mod_id),
    }
}

/// Executes a statement on the store.
pub fn perform(db: &mut Database, statement: Statement) -> (returned: Returned)
    requires
        old(db).wf(),
    ensures
        final(db).wf(),
        statement_returns(old(db)@, statement, returned),
        final(db)@ == after_statement(old(db)@, statement),
{
    match statement {
        Statement::AccountExists { username } => Returned::Flag(
            check_if_account_exists(db, username.as_str()),
        ),
        Statement::AccountByExternalId { discord_user_id } => Returned::Account(
            get_account_by_discord_id(db, discord_user_id.as_str()),
        ),
        Statement::CredentialExists { username, access_token } => Returned::Flag(
            Ok(db.access_tokens.contains_pair(username.as_str(), access_token.as_str())),
        ),
        Statement::InsertAccount { account } => Returned::Done(insert_account(db, &account)),
        Statement::InsertAccessToken { row: access_token } => Returned::Done(
            insert_access_token(db, &access_token),
        ),
        Statement::InsertTempLoginToken { row } => {
            let inserted = db.temp_login_tokens.insert(row);
            proof {
                lemma_references_kept(old(db)@, db@);
            }
            Returned::Done(
                if inserted {
                    Ok(())
                } else {
                    Err(StoreError::UniqueViolation)
                },
            )
        },
        Statement::ResolveTempLoginToken { token, now } => Returned::Text(
            temp_login_token_get_username(db, token.as_str(), now),
        ),
        Statement::DeleteExpiredTempLoginTokens { now } => Returned::Done(
            delete_expired_temp_login_tokens(db, now),
        ),
        Statement::ModAuthor { mod_id } => {
            let author = match db.mods.author_of(mod_id) {
                Some(author) => Some(author.clone()),
                None => None,
            };
            Returned::Text(Ok(author))
        },
        Statement::InsertMod { record } => Returned::Done(insert_mod(db, record)),
        Statement::ChangeMod { mod_id, file_data, description } => Returned::Done(
            change_mod(db, mod_id, file_data, description),
        ),
        Statement::RemoveMod { mod_id } => Returned::Done(remove_mod(db, mod_id)),
    }
}

/// The parts of a mod that a change replaces.
#[derive(Debug)]
pub struct PreparedChange {
    pub file_data: Option<Vec<u8>>,
    pub description: Option<String>,
}

/// Where a request stands while it waits for what its last action returns.
#[derive(Debug)]
pub enum Pending {
    /// A registration waits for the identity behind its external token.
    ResolvingRegistrant { username: String, discord_user_id: String, now: i64 },
    /// A registration waits for the insertion of its account.
    Registering,
    /// An identity exchange waits for the provider's tokens.
    Exchanging,
    /// An identity exchange waits for the identity behind the tokens.
    ResolvingIdentity { tokens: TokenResponse },
    /// An identity exchange waits for the account of the identity.
    LookingUpIdentity { tokens: TokenResponse, info: DiscordUserInfo },
    /// An announcement waits for the insertion of its temp login token.
    AnnouncingTempLogin,
    /// A request for an access token waits for its temp login token to
    /// resolve.
    ResolvingTempLogin { device_info: String, now: i64, entropy: Option<Vec<u8>> },
    /// It waits to hear whether the username has an account.
    CheckingAccount { username: String, device_info: String, now: i64, entropy: Option<Vec<u8>> },
    /// It waits for the insertion of the access token.
    StoringAccessToken { token: String },
    /// An upload waits for the check of its credential; `upload` is what the
    /// check of its texts gave.
    AuthenticatingUpload { upload: Result<ModRecord, ApiError> },
    /// An upload waits for the insertion of its mod.
    StoringMod,
    /// A change waits for the check of its credential; `change` is what the
    /// check of its content gave.
    AuthenticatingChange {
        username: String,
        mod_id: u128,
        change: Result<PreparedChange, ApiError>,
    },
    /// A change waits for the recorded author of its mod.
    AuthorizingChange { username: String, mod_id: u128, change: Result<PreparedChange, ApiError> },
    /// A change waits for the statement that makes it.
    ChangingMod,
    /// A deletion waits for the check of its credential.
    AuthenticatingDeletion { username: String, mod_id: u128 },
    /// A deletion waits for the recorded author of its mod.
    AuthorizingDeletion { username: String, mod_id: u128 },
    /// A deletion waits for the statement that makes it.
    DeletingMod,
}

/// What a request does next: it asks for an action and waits, or it answers.
#[derive(Debug)]
pub enum Step {
    Ask(Action, Pending),
    Answer(ApiResponse),
}

/// How many actions a waiting request can still ask for, the one it waits
/// for not counted.
pub open spec fn actions_left(pending: Pending) -> nat {
    match pending {
        Pending::ResolvingRegistrant { .. } => 1,
        Pending::Registering => 0,
        Pending::Exchanging => 2,
        Pending::ResolvingIdentity { .. } => 1,
        Pending::LookingUpIdentity { .. } => 0,
        Pending::AnnouncingTempLogin => 0,
        Pending::ResolvingTempLogin { .. } => 2,
        Pending::CheckingAccount { .. } => 1,
        Pending::StoringAccessToken { .. } => 0,
        Pending::AuthenticatingUpload { .. } => 1,
        Pending::StoringMod => 0,
        Pending::AuthenticatingChange { .. } => 2,
        Pending::AuthorizingChange { .. } => 1,
        Pending::ChangingMod => 0,
        Pending::AuthenticatingDeletion { .. } => 2,
        Pending::AuthorizingDeletion { .. } => 1,
        Pending::DeletingMod => 0,
    }
}

/// The step is the answer `answer`.
pub open spec fn answers(step: Step, answer: ApiResponseView) -> bool {
    step matches Step::Answer(r) && response_view(r) == answer
}

/// The answer to a request that was handed something that its action does
/// not return.
pub open spec fn unexpected_answer() -> ApiResponseView {
    Err(server_error(ErrorKind::InternalFailure, "The action returned what was not asked for"@))
}

/// What the check of a change's content gave, as a mathematical value.
pub open spec fn change_view(change: Result<PreparedChange, ApiError>) -> Result<
    (Option<Seq<u8>>, Option<Seq<char>>),
    ApiErrorView,
> {
    match change {
        Ok(c) => Ok((opt_bytes(c.file_data), opt_text(c.description))),
        Err(e) => Err(e@),
    }
}

/// What the check of an upload's texts gave, as a mathematical value.
pub open spec fn upload_view(upload: Result<ModRecord, ApiError>) -> Result<ModView, ApiErrorView> {
    match upload {
        Ok(record) => Ok(record@),
        Err(e) => Err(e@),
    }
}

/// The step asks for the statement that tells the recorded author of the mod.
pub open spec fn asks_for_author(step: Step, mod_id: u128) -> bool {
    step matches Step::Ask(Action::Store(Statement::ModAuthor { mod_id: asked }), _) && asked
        == mod_id
}

/// Whether `step` is what follows for a request that waited in `pending`
/// once `returned` has come back.
pub open spec fn advanced(pending: Pending, returned: Returned, step: Step) -> bool {
    match pending {
        Pending::ResolvingRegistrant { username, discord_user_id, now } => match returned {
            Returned::Identity(info) => match identity_check_failure(discord_user_id@, info) {
                Some(e) => answers(step, Err(e)),
                None => {
                    &&& step matches Step::Ask(
                        Action::Store(Statement::InsertAccount { account }),
                        Pending::Registering,
                    )
                    &&& account@ == AccountView {
                        username: username@,
                        discord_user_id: discord_user_id@,
                        created_at: now as int,
                    }
                },
            },
            _ => answers(step, unexpected_answer()),
        },
        Pending::Registering => match returned {
            Returned::Done(done) => answers(step, registration_answer(done)),
            _ => answers(step, unexpected_answer()),
        },
        Pending::Exchanging => match returned {
            Returned::Tokens(Err(e)) => answers(step, Err(exchange_error_answer(e))),
            Returned::Tokens(Ok(tokens)) => {
                &&& step matches Step::Ask(
                    Action::ResolveIdentity { external_access_token },
                    Pending::ResolvingIdentity { tokens: kept },
                )
                &&& external_access_token@ == tokens.access_token@
                &&& kept == tokens
            },
            _ => answers(step, unexpected_answer()),
        },
        Pending::ResolvingIdentity { tokens } => match returned {
            Returned::Identity(Err(e)) => answers(step, Err(resolve_error_answer(e))),
            Returned::Identity(Ok(info)) => {
                &&& step matches Step::Ask(
                    Action::Store(Statement::AccountByExternalId { discord_user_id }),
                    Pending::LookingUpIdentity { tokens: kept, info: kept_info },
                )
                &&& discord_user_id@ == info.id@
                &&& kept == tokens
                &&& kept_info == info
            },
            _ => answers(step, unexpected_answer()),
        },
        Pending::LookingUpIdentity { tokens, info } => match returned {
            Returned::Account(account) => answers(step, discord_auth_result(tokens, info, account)),
            _ => answers(step, unexpected_answer()),
        },
        Pending::AnnouncingTempLogin => match returned {
            Returned::Done(done) => answers(
                step,
                temp_login_answer(temp_login_insert_outcome(done)),
            ),
            _ => answers(step, unexpected_answer()),
        },
        Pending::ResolvingTempLogin { device_info, now, entropy } => match returned {
            Returned::Text(Err(_)) => answers(
                step,
                Err(
                    server_error(
                        ErrorKind::InternalFailure,
                        "Could not get username for temp login token"@,
                    ),
                ),
            ),
            Returned::Text(Ok(None)) => answers(
                step,
                Err(client_error(ErrorKind::NotFound, unknown_temp_login_message())),
            ),
            Returned::Text(Ok(Some(username))) => {
                &&& step matches Step::Ask(
                    Action::Store(Statement::AccountExists { username: asked }),
                    Pending::CheckingAccount { username: u, device_info: d, now: n, entropy: e },
                )
                &&& asked@ == username@
                &&& u@ == username@
                &&& d@ == device_info@
                &&& n == now
                &&& opt_entropy(e) == opt_entropy(entropy)
            },
            _ => answers(step, unexpected_answer()),
        },
        Pending::CheckingAccount { username, device_info, now, entropy } => match returned {
            Returned::Flag(Err(_)) => answers(
                step,
                Err(server_error(ErrorKind::InternalFailure, "Could not check if account exists"@)),
            ),
            Returned::Flag(Ok(false)) => answers(
                step,
                Err(client_error(ErrorKind::NotFound, no_such_account_message(username@))),
            ),
            Returned::Flag(Ok(true)) => match token_of_entropy(opt_entropy(entropy)) {
                None => answers(
                    step,
                    Err(
                        server_error(
                            ErrorKind::InternalFailure,
                            "Could not generate access token!"@,
                        ),
                    ),
                ),
                Some(token) => {
                    &&& step matches Step::Ask(
                        Action::Store(Statement::InsertAccessToken { row: access_token }),
                        Pending::StoringAccessToken { token: kept },
                    )
                    &&& access_token@ == AccessTokenView {
                        token,
                        username: username@,
                        device_info: device_info@,
                        created_at: now as int,
                    }
                    &&& kept@ == token
                    &&& is_token_of(token, opt_entropy(entropy)->0)
                },
            },
            _ => answers(step, unexpected_answer()),
        },
        Pending::StoringAccessToken { token } => match returned {
            Returned::Done(done) => answers(step, access_token_result(done, token@)),
            _ => answers(step, unexpected_answer()),
        },
        Pending::AuthenticatingUpload { upload } => match returned {
            Returned::Flag(stored) => if authentication_answer(stored) is Err {
                answers(step, authentication_answer(stored))
            } else {
                match upload {
                    Err(e) => answers(step, Err(e@)),
                    Ok(record) => {
                        &&& step matches Step::Ask(
                            Action::Store(Statement::InsertMod { record: asked }),
                            Pending::StoringMod,
                        )
                        &&& asked@ == record@
                    },
                }
            },
            _ => answers(step, unexpected_answer()),
        },
        Pending::StoringMod => match returned {
            Returned::Done(done) => answers(step, statement_answer(done, "Could not create mod"@)),
            _ => answers(step, unexpected_answer()),
        },
        Pending::AuthenticatingChange { username, mod_id, change } => match returned {
            Returned::Flag(stored) => if authentication_answer(stored) is Err {
                answers(step, authentication_answer(stored))
            } else {
                &&& asks_for_author(step, mod_id)
                &&& step matches Step::Ask(
                    _,
                    Pending::AuthorizingChange { username: u, mod_id: m, change: c },
                )
                &&& u@ == username@
                &&& m == mod_id
                &&& change_view(c) == change_view(change)
            },
            _ => answers(step, unexpected_answer()),
        },
        Pending::AuthorizingChange { username, mod_id, change } => match returned {
            Returned::Text(Err(_)) => answers(
                step,
                Err(server_error(ErrorKind::InternalFailure, "Could not verify mod ownership"@)),
            ),
            Returned::Text(Ok(author)) => if authorization_by(opt_text(author), username@)
                != Authorization::Authorized {
                answers(step, forbidden())
            } else {
                match change {
                    Err(e) => answers(step, Err(e@)),
                    Ok(c) => {
                        &&& step matches Step::Ask(
                            Action::Store(
                                Statement::ChangeMod { mod_id: m, file_data, description },
                            ),
                            Pending::ChangingMod,
                        )
                        &&& m == mod_id
                        &&& opt_bytes(file_data) == opt_bytes(c.file_data)
                        &&& opt_text(description) == opt_text(c.description)
                    },
                }
            },
            _ => answers(step, unexpected_answer()),
        },
        Pending::ChangingMod => match returned {
            Returned::Done(done) => answers(step, statement_answer(done, "Could not update mod"@)),
            _ => answers(step, unexpected_answer()),
        },
        Pending::AuthenticatingDeletion { username, mod_id } => match returned {
            Returned::Flag(stored) => if authentication_answer(stored) is Err {
                answers(step, authentication_answer(stored))
            } else {
                &&& asks_for_author(step, mod_id)
                &&& step matches Step::Ask(
                    _,
                    Pending::AuthorizingDeletion { username: u, mod_id: m },
                )
                &&& u@ == username@
                &&& m == mod_id
            },
            _ => answers(step, unexpected_answer()),
        },
        Pending::AuthorizingDeletion { username, mod_id } => match returned {
            Returned::Text(Err(_)) => answers(
                step,
                Err(server_error(ErrorKind::InternalFailure, "Could not verify mod ownership"@)),
            ),
            Returned::Text(Ok(author)) => if authorization_by(opt_text(author), username@)
                != Authorization::Authorized {
                answers(step, forbidden())
            } else {
                &&& step matches Step::Ask(
                    Action::Store(Statement::RemoveMod { mod_id: m }),
                    Pending::DeletingMod,
                )
                &&& m == mod_id
            },
            _ => answers(step, unexpected_answer()),
        },
        Pending::DeletingMod => match returned {
            Returned::Done(done) => answers(step, statement_answer(done, "Could not delete mod"@)),
            _ => answers(step, unexpected_answer()),
        },
    }
}

/// The statement that a step asks the store to execute, with where the
/// request waits; or the step's answer.
pub(crate) fn statement_of(step: Step) -> (r: Result<(Statement, Pending), ApiResponse>)
    requires
        step is Answer || step matches Step::Ask(Action::Store(_), _),
    ensures
        match r {
            Ok((statement, pending)) => step == Step::Ask(Action::Store(statement), pending),
            Err(answer) => step == Step::Answer(answer),
        },
{
    match step {
        Step::Answer(answer) => Err(answer),
        Step::Ask(Action::Store(statement), pending) => Ok((statement, pending)),
        Step::Ask(_, _) => unreached(),
    }
}

/// The answer of a step that asks for nothing more.
pub(crate) fn answer_of(step: Step) -> (answer: ApiResponse)
    requires
        step is Answer,
    ensures
        step == Step::Answer(answer),
{
    match step {
        Step::Answer(answer) => answer,
        Step::Ask(_, _) => unreached(),
    }
}

fn unexpected() -> (step: Step)
    ensures
        answers(step, unexpected_answer()),
{
    Step::Answer(
        Err(respond_err(ErrorKind::InternalFailure, "The action returned what was not asked for")),
    )
}

fn ownership_failure() -> (step: Step)
    ensures
        answers(
            step,
            Err(server_error(ErrorKind::InternalFailure, "Could not verify mod ownership"@)),
        ),
{
    Step::Answer(Err(respond_err(ErrorKind::InternalFailure, "Could not verify mod ownership")))
}

/// Takes a waiting request one step further, with what its action returned:
/// it asks for its next action, or it answers. Each step leaves fewer
/// actions to ask for, so that every request comes to its answer.
pub fn advance(pending: Pending, returned: Returned) -> (step: Step)
    ensures
        advanced(pending, returned, step),
        step matches Step::Ask(_, next) ==> actions_left(next) < actions_left(pending),
{
    match pending {
        Pending::ResolvingRegistrant { username, discord_user_id, now } => match returned {
            Returned::Identity(info) => match register_identity_check(
                discord_user_id.as_str(),
                &info,
            ) {
                Err(e) => Step::Answer(Err(e)),
                Ok(_) => Step::Ask(
                    Action::Store(
                        Statement::InsertAccount {
                            account: AcornAccount { username, discord_user_id, created_at: now },
                        },
                    ),
                    Pending::Registering,
                ),
            },
            _ => unexpected(),
        },
        Pending::Registering => match returned {
            Returned::Done(done) => Step::Answer(registration_response(done)),
            _ => unexpected(),
        },
        Pending::Exchanging => match returned {
            Returned::Tokens(Err(e)) => Step::Answer(Err(exchange_error_response(e))),
            Returned::Tokens(Ok(tokens)) => Step::Ask(
                Action::ResolveIdentity { external_access_token: tokens.access_token.clone() },
                Pending::ResolvingIdentity { tokens },
            ),
            _ => unexpected(),
        },
        Pending::ResolvingIdentity { tokens } => match returned {
            Returned::Identity(Err(e)) => Step::Answer(Err(resolve_error_response(e))),
            Returned::Identity(Ok(info)) => Step::Ask(
                Action::Store(Statement::AccountByExternalId { discord_user_id: info.id.clone() }),
                Pending::LookingUpIdentity { tokens, info },
            ),
            _ => unexpected(),
        },
        Pending::LookingUpIdentity { tokens, info } => match returned {
            Returned::Account(account) => Step::Answer(
                discord_auth_response(&tokens, &info, account),
            ),
            _ => unexpected(),
        },
        Pending::AnnouncingTempLogin => match returned {
            Returned::Done(done) => Step::Answer(temp_login_response(temp_login_inserted(done))),
            _ => unexpected(),
        },
        Pending::ResolvingTempLogin { device_info, now, entropy } => match returned {
            Returned::Text(resolved) => match access_token_after_resolve(resolved) {
                Err(e) => Step::Answer(Err(e)),
                Ok(username) => Step::Ask(
                    Action::Store(Statement::AccountExists { username: username.clone() }),
                    Pending::CheckingAccount { username, device_info, now, entropy },
                ),
            },
            _ => unexpected(),
        },
        Pending::CheckingAccount { username, device_info, now, entropy } => match returned {
            Returned::Flag(exists) => match access_token_after_account_check(
                exists,
                username.as_str(),
            ) {
                Err(e) => Step::Answer(Err(e)),
                Ok(_) => match new_access_token(
                    username.as_str(),
                    device_info.as_str(),
                    now,
                    &entropy,
                ) {
                    Err(e) => Step::Answer(Err(e)),
                    Ok(access_token) => {
                        let token = access_token.token.clone();
                        Step::Ask(
                            Action::Store(Statement::InsertAccessToken { row: access_token }),
                            Pending::StoringAccessToken { token },
                        )
                    },
                },
            },
            _ => unexpected(),
        },
        Pending::StoringAccessToken { token } => match returned {
            Returned::Done(done) => Step::Answer(access_token_response(done, token.as_str())),
            _ => unexpected(),
        },
        Pending::AuthenticatingUpload { upload } => match returned {
            Returned::Flag(stored) => match authentication_response(stored) {
                Err(e) => Step::Answer(Err(e)),
                Ok(_) => match upload {
                    Err(e) => Step::Answer(Err(e)),
                    Ok(record) => Step::Ask(
                        Action::Store(Statement::InsertMod { record }),
                        Pending::StoringMod,
                    ),
                },
            },
            _ => unexpected(),
        },
        Pending::StoringMod => match returned {
            Returned::Done(done) => Step::Answer(statement_response(done, "Could not create mod")),
            _ => unexpected(),
        },
        Pending::AuthenticatingChange { username, mod_id, change } => match returned {
            Returned::Flag(stored) => match authentication_response(stored) {
                Err(e) => Step::Answer(Err(e)),
                Ok(_) => Step::Ask(
                    Action::Store(Statement::ModAuthor { mod_id }),
                    Pending::AuthorizingChange { username, mod_id, change },
                ),
            },
            _ => unexpected(),
        },
        Pending::AuthorizingChange { username, mod_id, change } => match returned {
            Returned::Text(Err(_)) => ownership_failure(),
            Returned::Text(Ok(author)) => match authorization_response(
                decide_authorization(author.as_ref(), username.as_str()),
            ) {
                Err(e) => Step::Answer(Err(e)),
                Ok(_) => match change {
                    Err(e) => Step::Answer(Err(e)),
                    Ok(c) => Step::Ask(
                        Action::Store(
                            Statement::ChangeMod {
                                mod_id,
                                file_data: c.file_data,
                                description: c.description,
                            },
                        ),
                        Pending::ChangingMod,
                    ),
                },
            },
            _ => unexpected(),
        },
        Pending::ChangingMod => match returned {
            Returned::Done(done) => Step::Answer(statement_response(done, "Could not update mod")),
            _ => unexpected(),
        },
        Pending::AuthenticatingDeletion { username, mod_id } => match returned {
            Returned::Flag(stored) => match authentication_response(stored) {
                Err(e) => Step::Answer(Err(e)),
                Ok(_) => Step::Ask(
                    Action::Store(Statement::ModAuthor { mod_id }),
                    Pending::AuthorizingDeletion { username, mod_id },
                ),
            },
            _ => unexpected(),
        },
        Pending::AuthorizingDeletion { username, mod_id } => match returned {
            Returned::Text(Err(_)) => ownership_failure(),
            Returned::Text(Ok(author)) => match authorization_response(
                decide_authorization(author.as_ref(), username.as_str()),
            ) {
                Err(e) => Step::Answer(Err(e)),
                Ok(_) => Step::Ask(
                    Action::Store(Statement::RemoveMod { mod_id }),
                    Pending::DeletingMod,
                ),
            },
            _ => unexpected(),
        },
        Pending::DeletingMod => match returned {
            Returned::Done(done) => Step::Answer(statement_response(done, "Could not delete mod")),
            _ => unexpected(),
        },
    }
}

} // verus!
