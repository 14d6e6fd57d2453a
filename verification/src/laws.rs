//! What holds of the store's statements taken together.

use crate::accounts::{
    account_taken, after_insert_account, after_insert_temp_login_token, authentication,
    insert_account_result, insert_temp_login_token_result, is_credential,
    not_authenticated, AccountView, StoreError,
};
use crate::forms::{DeleteFormView, UpdateFormView};
use crate::identity::{DiscordUserInfo, ResolveError};
use crate::login::{
    access_token_answer, after_access_token, after_register, register_answer,
    registered_account, temp_login_answer, token_of_entropy, unknown_temp_login_message,
    RegisterRequest,
};
use crate::mod_table::{mods_after_change, ModsView};
use crate::mods::{
    after_change_mod, after_delete, after_update, authorization, change_mod_result,
    delete_answer, mod_authorization, update_answer, update_rejection, Authorization,
};
use crate::response::{
    client_error, generic_message, is_server_side, response_status, server_error, ApiErrorView,
    ErrorKind, ResponseBodyView,
};
use crate::sanitize::{plain_char, sanitized};
use crate::store::DatabaseView;
use crate::temp_login::{
    broker_already_exists, broker_create, broker_keyed, broker_resolve, broker_resolved,
    broker_sweep, expiry_at, BrokerView,
};
use crate::text::{
    leading_marks, lemma_leading_marks, lemma_trailing_marks, trailing_marks, trimmed,
    white_space, white_space_of,
};
use crate::token::{is_token_of, is_url_safe_char, MIN_ENTROPY_BYTES};
use vstd::prelude::*;

verus! {

/// A token that was created resolves to its username once: a resolve at a
/// time `first` before the token's expiry yields the username, and a resolve
/// at any time after that one yields nothing.
pub proof fn law_created_token_resolves_once(
    m: BrokerView,
    token: Seq<char>,
    username: Seq<char>,
    now: int,
    first: int,
    second: int,
)
    requires
        !broker_already_exists(m, token),
        first < expiry_at(now),
    ensures
        ({
            let created = broker_create(m, token, username, now);
            let consumed = broker_resolve(created, token, first);
            &&& broker_resolved(created, token, first) == Some(username)
            &&& broker_resolved(consumed, token, second) is None
            &&& consumed == m
        }),
{
    let created = broker_create(m, token, username, now);
    assert(created.remove(token) =~= m);
}

/// Whatever the state, a token that resolved does not resolve again.
pub proof fn law_resolve_is_single_use(m: BrokerView, token: Seq<char>, first: int, second: int)
    requires
        broker_resolved(m, token, first) is Some,
    ensures
        broker_resolved(broker_resolve(m, token, first), token, second) is None,
{
}

/// A token that cannot be resolved leaves the state as it was.
pub proof fn law_failed_resolve_changes_nothing(m: BrokerView, token: Seq<char>, now: int)
    requires
        broker_resolved(m, token, now) is None,
    ensures
        broker_resolve(m, token, now) == m,
{
}

/// A token whose expiry has passed resolves to nothing, though no sweep has
/// removed it.
pub proof fn law_expired_token_is_not_found(m: BrokerView, token: Seq<char>, now: int)
    requires
        m.contains_key(token),
        m[token].expires_at <= now,
    ensures
        broker_resolved(m, token, now) is None,
        broker_resolve(m, token, now) == m,
{
}

/// A sweep is invisible to those who resolve: at any time from the sweep's
/// on, every token resolves as it would have without the sweep.
pub proof fn law_sweep_is_unobservable(m: BrokerView, token: Seq<char>, swept_at: int, now: int)
    requires
        swept_at <= now,
    ensures
        broker_resolved(broker_sweep(m, swept_at), token, now) == broker_resolved(m, token, now),
{
}

/// Sweeping twice at one time is sweeping once, and a sweep removes only
/// tokens that no longer resolve.
pub proof fn law_sweep_is_idempotent(m: BrokerView, now: int)
    ensures
        broker_sweep(broker_sweep(m, now), now) == broker_sweep(m, now),
        forall|k: Seq<char>|
            m.contains_key(k) && !#[trigger] broker_sweep(m, now).contains_key(k)
                ==> m[k].expires_at < now,
        broker_keyed(m) ==> broker_keyed(broker_sweep(m, now)),
{
    assert(broker_sweep(broker_sweep(m, now), now) =~= broker_sweep(m, now));
}

/// Two sweeps at different times commute, so sweeps that run side by side end
/// in one state.
pub proof fn law_sweeps_commute(m: BrokerView, a: int, b: int)
    ensures
        broker_sweep(broker_sweep(m, a), b) == broker_sweep(broker_sweep(m, b), a),
{
    assert(broker_sweep(broker_sweep(m, a), b) =~= broker_sweep(broker_sweep(m, b), a));
}

/// Inserting an account keeps the store consistent: no two accounts come to
/// share a username or an external identity.
pub proof fn law_registration_keeps_keys_unique(s: DatabaseView, a: AccountView)
    requires
        s.consistent(),
    ensures
        after_insert_account(s, a).consistent(),
{
    let after = after_insert_account(s, a);
    if !account_taken(s, a) {
        assert forall|u: Seq<char>, v: Seq<char>|
            #[trigger] after.accounts.contains_key(u) && #[trigger] after.accounts.contains_key(v)
                && after.accounts[u].discord_user_id
                == after.accounts[v].discord_user_id implies u == v by {
            if u != v {
                if u == a.username {
                    assert(s.accounts.contains_key(v));
                } else if v == a.username {
                    assert(s.accounts.contains_key(u));
                } else {
                    assert(s.accounts.contains_key(u) && s.accounts.contains_key(v));
                }
            }
        }
        assert forall|t: Seq<char>| #[trigger] after.access_tokens.contains_key(t) implies
            after.accounts.contains_key(after.access_tokens[t].username) by {
            assert(s.access_tokens.contains_key(t));
        }
        assert forall|id: u128| #[trigger] after.mods.contains_key(id) implies
            after.accounts.contains_key(after.mods[id].author) by {
            assert(s.mods.contains_key(id));
        }
    }
}

/// Of two registrations that share a username or an external identity, and of
/// which each would succeed alone, exactly one succeeds, whichever comes
/// first: the first is stored, the second meets a unique violation and
/// changes nothing.
pub proof fn law_one_of_two_registrations_succeeds(s: DatabaseView, a: AccountView, b: AccountView)
    requires
        s.consistent(),
        a.username == b.username || a.discord_user_id == b.discord_user_id,
        !account_taken(s, a),
        !account_taken(s, b),
    ensures
        ({
            let first = after_insert_account(s, a);
            &&& insert_account_result(s, a) == Ok::<(), StoreError>(())
            &&& insert_account_result(first, b) == Err::<(), StoreError>(
                StoreError::UniqueViolation,
            )
            &&& after_insert_account(first, b) == first
            &&& first.accounts == s.accounts.insert(a.username, a)
        }),
        ({
            let first = after_insert_account(s, b);
            &&& insert_account_result(s, b) == Ok::<(), StoreError>(())
            &&& insert_account_result(first, a) == Err::<(), StoreError>(
                StoreError::UniqueViolation,
            )
            &&& after_insert_account(first, a) == first
            &&& first.accounts == s.accounts.insert(b.username, b)
        }),
{
    let first_a = after_insert_account(s, a);
    assert(first_a.accounts.contains_key(a.username));
    assert(first_a.accounts[a.username].discord_user_id == a.discord_user_id);
    assert(account_taken(first_a, b));
    let first_b = after_insert_account(s, b);
    assert(first_b.accounts.contains_key(b.username));
    assert(first_b.accounts[b.username].discord_user_id == b.discord_user_id);
    assert(account_taken(first_b, a));
}

/// The ownership gate lets the recorded author pass and no one else: whoever
/// is not the author of a stored mod is forbidden, and of a mod that is not
/// stored nobody is the author.
pub proof fn law_only_the_author_is_authorized(s: DatabaseView, mod_id: u128, username: Seq<char>)
    ensures
        authorization(s, mod_id, username) == Authorization::Authorized <==> s.mods.contains_key(
            mod_id,
        ) && s.mods[mod_id].author == username,
        s.mods.contains_key(mod_id) && s.mods[mod_id].author != username ==> authorization(
            s,
            mod_id,
            username,
        ) == Authorization::Forbidden,
        mod_authorization(s, mod_id, username) is Ok <==> authorization(s, mod_id, username)
            == Authorization::Authorized,
{
}

/// Two accepted changes of one mod raise its version by exactly two, one
/// after the other: the first change stores the version plus one, the second
/// the version plus two, whatever each of them replaces and whichever comes
/// first.
pub proof fn law_two_changes_raise_version_by_two(
    s: DatabaseView,
    id: u128,
    first_file: Option<Seq<u8>>,
    first_description: Option<Seq<char>>,
    second_file: Option<Seq<u8>>,
    second_description: Option<Seq<char>>,
)
    requires
        s.mods.contains_key(id),
        s.mods[id].version + 2 <= i32::MAX,
    ensures
        ({
            let once = after_change_mod(s, id, first_file, first_description);
            let twice = after_change_mod(once, id, second_file, second_description);
            &&& change_mod_result(s, id) is Ok
            &&& change_mod_result(once, id) is Ok
            &&& once.mods[id].version == s.mods[id].version + 1
            &&& twice.mods[id].version == s.mods[id].version + 2
        }),
        ({
            let once = after_change_mod(s, id, second_file, second_description);
            let twice = after_change_mod(once, id, first_file, first_description);
            &&& change_mod_result(s, id) is Ok
            &&& change_mod_result(once, id) is Ok
            &&& once.mods[id].version == s.mods[id].version + 1
            &&& twice.mods[id].version == s.mods[id].version + 2
        }),
{
}

/// A change never lowers a version, and touches no mod but the one it names.
pub proof fn law_versions_never_decrease(
    m: ModsView,
    id: u128,
    file_data: Option<Seq<u8>>,
    description: Option<Seq<char>>,
    other: u128,
)
    requires
        m.contains_key(other),
    ensures
        mods_after_change(m, id, file_data, description).contains_key(other),
        mods_after_change(m, id, file_data, description)[other].version >= m[other].version,
        mods_after_change(m, id, file_data, description)[other].version <= m[other].version + 1,
        other != id ==> mods_after_change(m, id, file_data, description)[other] == m[other],
{
}

/// The handshake from end to end. A temp login token that is announced for a
/// user with an account is accepted once and refused as a conflict after
/// that; traded in before it expires, with random bytes that suffice and make
/// a token that is not yet stored, it yields an access token that is from
/// then on a credential of that user; traded in again, at any time and with
/// any random bytes, it is not found.
pub proof fn law_handshake_issues_one_access_token(
    s: DatabaseView,
    temp_login_token: Seq<char>,
    username: Seq<char>,
    device_info: Seq<char>,
    announced_at: int,
    again_at: int,
    first: int,
    second: int,
    entropy: Option<Seq<u8>>,
    later_entropy: Option<Seq<u8>>,
)
    requires
        s.accounts.contains_key(username),
        !s.temp_login_tokens.contains_key(temp_login_token),
        first < expiry_at(announced_at),
        token_of_entropy(entropy) is Some,
        !s.access_tokens.contains_key(token_of_entropy(entropy)->0),
    ensures
        ({
            let token = token_of_entropy(entropy)->0;
            let announced = after_insert_temp_login_token(
                s,
                temp_login_token,
                username,
                announced_at,
            );
            let issued = after_access_token(
                announced,
                temp_login_token,
                device_info,
                first,
                entropy,
            );
            &&& response_status(
                temp_login_answer(
                    insert_temp_login_token_result(s, temp_login_token),
                ),
            ) == 204
            &&& response_status(
                temp_login_answer(
                    insert_temp_login_token_result(announced, temp_login_token),
                ),
            ) == 409
            &&& after_insert_temp_login_token(announced, temp_login_token, username, again_at)
                == announced
            &&& access_token_answer(announced, temp_login_token, device_info, first, entropy)
                == Ok::<Option<ResponseBodyView>, ApiErrorView>(
                Some(ResponseBodyView::AccessToken { access_token: token }),
            )
            &&& is_credential(issued.access_tokens, username, token)
            &&& access_token_answer(issued, temp_login_token, device_info, second, later_entropy)
                == Err::<Option<ResponseBodyView>, ApiErrorView>(
                client_error(ErrorKind::NotFound, unknown_temp_login_message()),
            )
            &&& after_access_token(issued, temp_login_token, device_info, second, later_entropy)
                == issued
        }),
{
    let announced = after_insert_temp_login_token(s, temp_login_token, username, announced_at);
    let issued = after_access_token(announced, temp_login_token, device_info, first, entropy);
    assert(announced.temp_login_tokens.remove(temp_login_token) =~= s.temp_login_tokens);
    assert(issued.temp_login_tokens == s.temp_login_tokens);
}

/// Whoever fails the authentication check is told the same, whether the
/// username is unknown or the token is wrong: the answer does not tell
/// whether an account exists.
pub proof fn law_authentication_failures_read_alike(
    s: DatabaseView,
    username: Seq<char>,
    token: Seq<char>,
    other_username: Seq<char>,
    other_token: Seq<char>,
)
    requires
        !is_credential(s.access_tokens, username, token),
        !is_credential(s.access_tokens, other_username, other_token),
    ensures
        authentication(s, username, token) == authentication(s, other_username, other_token),
        authentication(s, username, token) == not_authenticated(),
        response_status(not_authenticated()) == 401,
{
}

/// A failure on the server's side shows the caller the generic message and
/// the status 500, whatever its detail.
pub proof fn law_server_errors_hide_their_detail(kind: ErrorKind, detail: Seq<char>)
    requires
        is_server_side(kind),
    ensures
        server_error(kind, detail).message == generic_message(),
        response_status(
            Err::<Option<ResponseBodyView>, ApiErrorView>(server_error(kind, detail)),
        ) == 500,
{
}

/// Of two registration requests that name the same username or the same
/// external identity, each of which would be answered with 204 if it came
/// alone, the one that comes first is answered with 204 and the other with
/// 409, in either order, and the store stays consistent.
pub proof fn law_one_of_two_register_requests_conflicts(
    s: DatabaseView,
    a: RegisterRequest,
    a_info: Result<DiscordUserInfo, ResolveError>,
    at: int,
    b: RegisterRequest,
    b_info: Result<DiscordUserInfo, ResolveError>,
    bt: int,
)
    requires
        s.consistent(),
        a.username@ == b.username@ || a.discord_user_id@ == b.discord_user_id@,
        response_status(register_answer(s, a, a_info, at)) == 204,
        response_status(register_answer(s, b, b_info, bt)) == 204,
    ensures
        response_status(register_answer(after_register(s, a, a_info, at), b, b_info, bt)) == 409,
        response_status(register_answer(after_register(s, b, b_info, bt), a, a_info, at)) == 409,
        after_register(after_register(s, a, a_info, at), b, b_info, bt) == after_register(
            s,
            a,
            a_info,
            at,
        ),
        after_register(after_register(s, b, b_info, bt), a, a_info, at) == after_register(
            s,
            b,
            b_info,
            bt,
        ),
        after_register(s, a, a_info, at).consistent(),
        after_register(s, b, b_info, bt).consistent(),
{
    let account_a = registered_account(a, at);
    let account_b = registered_account(b, bt);
    law_one_of_two_registrations_succeeds(s, account_a, account_b);
    law_registration_keeps_keys_unique(s, account_a);
    law_registration_keeps_keys_unique(s, account_b);
}

/// A change or a deletion that does not come from the recorded author of a
/// stored mod leaves the store as it was, and is not answered with success.
pub proof fn law_only_the_author_changes_a_mod(
    s: DatabaseView,
    change: UpdateFormView,
    deletion: DeleteFormView,
)
    requires
        authorization(s, change.mod_id, change.username) != Authorization::Authorized,
        authorization(s, deletion.mod_id, deletion.username) != Authorization::Authorized,
    ensures
        update_answer(s, change) is Err,
        after_update(s, change) == s,
        delete_answer(s, deletion) is Err,
        after_delete(s, deletion) == s,
{
}

/// Two changes of one mod that are each accepted are accepted one after the
/// other as well, in either order, and leave the version exactly two higher.
pub proof fn law_two_accepted_updates_raise_version_by_two(
    s: DatabaseView,
    first: UpdateFormView,
    second: UpdateFormView,
)
    requires
        first.mod_id == second.mod_id,
        update_rejection(s, first) is None,
        update_rejection(s, second) is None,
        s.mods[first.mod_id].version + 2 <= i32::MAX,
    ensures
        ({
            let id = first.mod_id;
            let once = after_update(s, first);
            let twice = after_update(once, second);
            &&& response_status(update_answer(s, first)) == 204
            &&& response_status(update_answer(once, second)) == 204
            &&& once.mods[id].version == s.mods[id].version + 1
            &&& twice.mods[id].version == s.mods[id].version + 2
        }),
        ({
            let id = first.mod_id;
            let once = after_update(s, second);
            let twice = after_update(once, first);
            &&& response_status(update_answer(s, second)) == 204
            &&& response_status(update_answer(once, first)) == 204
            &&& once.mods[id].version == s.mods[id].version + 1
            &&& twice.mods[id].version == s.mods[id].version + 2
        }),
{
}

/// The store after the accounts are inserted one after the other.
pub open spec fn after_inserts(s: DatabaseView, accounts: Seq<AccountView>) -> DatabaseView
    decreases accounts.len(),
{
    if accounts.len() == 0 {
        s
    } else {
        after_insert_account(after_inserts(s, accounts.drop_last()), accounts.last())
    }
}

/// Of any number of registrations that all name one username, or all name one
/// external identity, and of which each would succeed alone, exactly the one
/// that comes first succeeds, in whatever order they come: every other meets
/// a unique violation, and the store gains the first account and no other.
pub proof fn law_one_of_many_registrations_succeeds(
    s: DatabaseView,
    accounts: Seq<AccountView>,
    i: int,
)
    requires
        0 <= i < accounts.len(),
        (forall|j: int|
            0 <= j < accounts.len() ==> (#[trigger] accounts[j]).username == accounts[0].username)
            || (forall|j: int|
            0 <= j < accounts.len() ==> (#[trigger] accounts[j]).discord_user_id
                == accounts[0].discord_user_id),
        forall|j: int| 0 <= j < accounts.len() ==> !account_taken(s, #[trigger] accounts[j]),
    ensures
        insert_account_result(after_inserts(s, accounts.take(i)), accounts[i]) == if i == 0 {
            Ok::<(), StoreError>(())
        } else {
            Err::<(), StoreError>(StoreError::UniqueViolation)
        },
        after_inserts(s, accounts).accounts == s.accounts.insert(
            accounts[0].username,
            accounts[0],
        ),
        after_inserts(s, accounts) == after_insert_account(s, accounts[0]),
    decreases accounts.len() - i,
{
    lemma_first_registration_stays(s, accounts, i);
    lemma_first_registration_stays(s, accounts, accounts.len() as int);
    assert(accounts.take(accounts.len() as int) == accounts);
    if i > 0 {
        let first = after_insert_account(s, accounts[0]);
        assert(first.accounts.contains_key(accounts[0].username));
        assert(first.accounts[accounts[0].username].discord_user_id
            == accounts[0].discord_user_id);
        assert(account_taken(first, accounts[i]));
    } else {
        assert(accounts.take(0) =~= Seq::<AccountView>::empty());
    }
}

/// After the first of such registrations, however many of them follow, the
/// store is what the first one left.
proof fn lemma_first_registration_stays(s: DatabaseView, accounts: Seq<AccountView>, k: int)
    requires
        0 <= k <= accounts.len(),
        accounts.len() > 0,
        (forall|j: int|
            0 <= j < accounts.len() ==> (#[trigger] accounts[j]).username == accounts[0].username)
            || (forall|j: int|
            0 <= j < accounts.len() ==> (#[trigger] accounts[j]).discord_user_id
                == accounts[0].discord_user_id),
        forall|j: int| 0 <= j < accounts.len() ==> !account_taken(s, #[trigger] accounts[j]),
    ensures
        after_inserts(s, accounts.take(k)) == if k == 0 {
            s
        } else {
            after_insert_account(s, accounts[0])
        },
    decreases k,
{
    let upto = accounts.take(k);
    if k == 0 {
        assert(upto =~= Seq::<AccountView>::empty());
    } else {
        assert(upto.drop_last() == accounts.take(k - 1));
        assert(upto.last() == accounts[k - 1]);
        lemma_first_registration_stays(s, accounts, k - 1);
        if k > 1 {
            let first = after_insert_account(s, accounts[0]);
            assert(first.accounts.contains_key(accounts[0].username));
            assert(first.accounts[accounts[0].username].discord_user_id
                == accounts[0].discord_user_id);
            assert(account_taken(first, accounts[k - 1]));
        }
    }
}

/// Sanitising a sanitised text changes nothing.
pub proof fn law_sanitizing_twice_changes_nothing(s: Seq<char>)
    requires
        sanitized(s) is Some,
    ensures
        sanitized(sanitized(s)->0) == sanitized(s),
{
    let marks = white_space_of(s);
    let from = leading_marks(marks) as int;
    let to = s.len() - trailing_marks(marks);
    lemma_marks_end(marks);
    let t = trimmed(s);
    assert(t == s.subrange(from, to));
    let clean = sanitized(s)->0;
    let clean_marks = white_space_of(clean);
    assert forall|i: int| 0 <= i < clean.len() implies clean_marks[i] == marks[from + i] by {
        assert(clean[i] == plain_char(t[i]));
        assert(t[i] == s[from + i]);
        assert(white_space(plain_char(t[i])) == white_space(t[i]));
    }
    lemma_leading_marks(clean_marks, 0);
    lemma_trailing_marks(clean_marks, 0);
    assert(trimmed(clean) =~= clean);
    assert(sanitized(clean)->0 =~= clean);
}

/// The leading run of marks ends at an unmarked place or at the end, and so
/// does the trailing run at the other side.
proof fn lemma_marks_end(marks: Seq<bool>)
    ensures
        leading_marks(marks) <= marks.len(),
        leading_marks(marks) < marks.len() ==> !marks[leading_marks(marks) as int],
        trailing_marks(marks) <= marks.len(),
        trailing_marks(marks) < marks.len() ==> !marks[marks.len() - trailing_marks(marks) - 1],
    decreases marks.len(),
{
    if marks.len() > 0 {
        if marks[0] {
            let rest = marks.drop_first();
            lemma_marks_end(rest);
            if leading_marks(rest) < rest.len() {
                assert(rest[leading_marks(rest) as int] == marks[leading_marks(rest) as int + 1]);
            }
        }
        if marks.last() {
            let rest = marks.drop_last();
            lemma_marks_end(rest);
            if trailing_marks(rest) < rest.len() {
                assert(rest[rest.len() - trailing_marks(rest) - 1] == marks[marks.len()
                    - trailing_marks(marks) - 1]);
            }
        }
    }
}

/// Tokens made of different random bytes are different, and every character
/// of a token is of the URL-safe alphabet: none is `=`, `+` or `/`.
pub proof fn law_distinct_bytes_make_distinct_tokens(
    token: Seq<char>,
    entropy: Seq<u8>,
    other_token: Seq<char>,
    other_entropy: Seq<u8>,
)
    requires
        is_token_of(token, entropy),
        is_token_of(other_token, other_entropy),
    ensures
        entropy != other_entropy ==> token != other_token,
        forall|i: int|
            0 <= i < token.len() ==> is_url_safe_char(#[trigger] token[i]) && token[i] != '='
                && token[i] != '+' && token[i] != '/',
        entropy.len() >= MIN_ENTROPY_BYTES ==> token.len() >= 22,
{
}

} // verus!
