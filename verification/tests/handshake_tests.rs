use acorn_backend::accounts::{
    check_if_account_exists, check_if_account_exists_discord, delete_expired_temp_login_tokens,
    ensure_account_authentication, get_access_token, get_account, get_account_by_discord_id,
    insert_access_token, insert_account, insert_temp_login_token, remove_temp_login_token,
    temp_login_token_get_username, AcornAccessToken, AcornAccount, StoreError,
};
use acorn_backend::identity::{DiscordUserInfo, ExchangeError, ResolveError, TokenResponse};
use acorn_backend::login::{
    api_get_access_token, api_get_access_token_with, api_get_discord_auth, api_post_register,
    api_post_temp_login, RegisterRequest, TempLoginRequest,
};
use acorn_backend::response::{status_code, ApiResponse, ErrorKind, ResponseBody};
use acorn_backend::store::Database;
use acorn_backend::temp_login::TEMP_LOGIN_TTL_MICROS;

fn account(username: &str, id: &str) -> AcornAccount {
    AcornAccount { username: username.to_string(), discord_user_id: id.to_string(), created_at: 7 }
}

fn register_request(username: &str, id: &str) -> RegisterRequest {
    RegisterRequest {
        username: username.to_string(),
        discord_user_id: id.to_string(),
        discord_access_token: "external-token".to_string(),
    }
}

fn resolved(id: &str, name: &str) -> Result<DiscordUserInfo, ResolveError> {
    Ok(DiscordUserInfo {
        id: id.to_string(),
        username: name.to_string(),
        global_name: name.to_uppercase(),
    })
}

fn temp_login(token: &str, username: &str) -> TempLoginRequest {
    TempLoginRequest { temp_login_token: token.to_string(), username: username.to_string() }
}

fn error_of(r: &ApiResponse) -> (ErrorKind, String) {
    match r {
        Err(e) => (e.kind, e.message.clone()),
        Ok(_) => panic!("expected an error"),
    }
}

fn token_of(r: &ApiResponse) -> String {
    match r {
        Ok(Some(ResponseBody::AccessToken { access_token })) => access_token.clone(),
        _ => panic!("expected an access token"),
    }
}

#[test]
fn created_token_resolves_exactly_once() {
    let mut db = Database::new();
    assert_eq!(insert_temp_login_token(&mut db, "tok1", "alice", 1_000), Ok(false));
    assert_eq!(db.temp_login_tokens.len(), 1);
    assert_eq!(
        temp_login_token_get_username(&mut db, "tok1", 1_001),
        Ok(Some("alice".to_string()))
    );
    assert_eq!(db.temp_login_tokens.len(), 0);
    assert_eq!(temp_login_token_get_username(&mut db, "tok1", 1_002), Ok(None));
}

#[test]
fn token_lives_five_minutes_to_the_microsecond() {
    let mut db = Database::new();
    assert_eq!(TEMP_LOGIN_TTL_MICROS, 300_000_000);
    assert_eq!(insert_temp_login_token(&mut db, "a", "alice", 1_000), Ok(false));
    assert_eq!(insert_temp_login_token(&mut db, "b", "bob", 1_000), Ok(false));
    assert_eq!(
        temp_login_token_get_username(&mut db, "a", 300_000_999),
        Ok(Some("alice".to_string()))
    );
    assert_eq!(temp_login_token_get_username(&mut db, "b", 300_001_000), Ok(None));
}

#[test]
fn expired_token_is_not_found_without_a_sweep() {
    let mut db = Database::new();
    assert_eq!(insert_temp_login_token(&mut db, "tok", "alice", 0), Ok(false));
    assert_eq!(temp_login_token_get_username(&mut db, "tok", 300_000_001), Ok(None));
    assert_eq!(db.temp_login_tokens.len(), 1);
    assert_eq!(temp_login_token_get_username(&mut db, "tok", 900_000_000), Ok(None));
    assert_eq!(db.temp_login_tokens.len(), 1);
}

#[test]
fn expired_token_still_blocks_its_value_until_swept() {
    let mut db = Database::new();
    assert_eq!(insert_temp_login_token(&mut db, "tok", "alice", 0), Ok(false));
    assert_eq!(insert_temp_login_token(&mut db, "tok", "bob", 400_000_000), Ok(true));
    assert_eq!(delete_expired_temp_login_tokens(&mut db, 400_000_000), Ok(()));
    assert_eq!(insert_temp_login_token(&mut db, "tok", "bob", 400_000_000), Ok(false));
    assert_eq!(
        temp_login_token_get_username(&mut db, "tok", 400_000_001),
        Ok(Some("bob".to_string()))
    );
}

#[test]
fn duplicate_token_leaves_the_first_owner() {
    let mut db = Database::new();
    assert_eq!(insert_temp_login_token(&mut db, "tok", "alice", 10), Ok(false));
    assert_eq!(insert_temp_login_token(&mut db, "tok", "mallory", 20), Ok(true));
    assert_eq!(
        temp_login_token_get_username(&mut db, "tok", 30),
        Ok(Some("alice".to_string()))
    );
}

#[test]
fn sweep_removes_only_what_expired_before_now() {
    let mut db = Database::new();
    assert_eq!(insert_temp_login_token(&mut db, "old", "alice", 0), Ok(false));
    assert_eq!(insert_temp_login_token(&mut db, "edge", "bob", 100), Ok(false));
    assert_eq!(insert_temp_login_token(&mut db, "new", "carol", 200), Ok(false));
    assert_eq!(delete_expired_temp_login_tokens(&mut db, 300_000_100), Ok(()));
    assert_eq!(db.temp_login_tokens.len(), 2);
    assert_eq!(delete_expired_temp_login_tokens(&mut db, 300_000_100), Ok(()));
    assert_eq!(db.temp_login_tokens.len(), 2);
    assert_eq!(temp_login_token_get_username(&mut db, "edge", 300_000_100), Ok(None));
    assert_eq!(
        temp_login_token_get_username(&mut db, "new", 300_000_100),
        Ok(Some("carol".to_string()))
    );
    assert_eq!(delete_expired_temp_login_tokens(&mut db, i64::MAX), Ok(()));
    assert_eq!(db.temp_login_tokens.len(), 0);
}

#[test]
fn expiry_stops_at_the_end_of_the_clock() {
    let mut db = Database::new();
    assert_eq!(insert_temp_login_token(&mut db, "late", "alice", i64::MAX - 299_999_999), Ok(false));
    assert_eq!(insert_temp_login_token(&mut db, "last", "bob", i64::MAX), Ok(false));
    assert_eq!(insert_temp_login_token(&mut db, "last", "bob", i64::MAX), Ok(true));
    assert_eq!(db.temp_login_tokens.len(), 2);
    assert_eq!(
        temp_login_token_get_username(&mut db, "late", i64::MAX - 1),
        Ok(Some("alice".to_string()))
    );
    assert_eq!(temp_login_token_get_username(&mut db, "last", i64::MAX), Ok(None));
}

#[test]
fn remove_temp_login_token_deletes_only_that_token() {
    let mut db = Database::new();
    assert_eq!(insert_temp_login_token(&mut db, "a", "alice", 0), Ok(false));
    assert_eq!(insert_temp_login_token(&mut db, "b", "bob", 0), Ok(false));
    assert_eq!(remove_temp_login_token(&mut db, "a"), Ok(()));
    assert_eq!(remove_temp_login_token(&mut db, "missing"), Ok(()));
    assert_eq!(temp_login_token_get_username(&mut db, "a", 1), Ok(None));
    assert_eq!(temp_login_token_get_username(&mut db, "b", 1), Ok(Some("bob".to_string())));
}

#[test]
fn same_username_or_external_id_registers_once() {
    let mut db = Database::new();
    assert_eq!(insert_account(&mut db, &account("alice", "ext1")), Ok(()));
    assert_eq!(
        insert_account(&mut db, &account("alice", "ext2")),
        Err(StoreError::UniqueViolation)
    );
    assert_eq!(
        insert_account(&mut db, &account("bob", "ext1")),
        Err(StoreError::UniqueViolation)
    );
    assert_eq!(insert_account(&mut db, &account("bob", "ext2")), Ok(()));
    assert_eq!(check_if_account_exists(&db, "alice"), Ok(true));
    assert_eq!(check_if_account_exists(&db, "bob"), Ok(true));
    assert_eq!(check_if_account_exists(&db, "carol"), Ok(false));
    assert_eq!(get_account(&db, "alice").unwrap().discord_user_id, "ext1");
    assert_eq!(get_account(&db, "bob").unwrap().discord_user_id, "ext2");
}

#[test]
fn two_registrations_in_either_order_give_one_success() {
    let a = account("alice", "ext1");
    let b = account("alice2", "ext1");
    let mut first = Database::new();
    assert_eq!(insert_account(&mut first, &a), Ok(()));
    assert_eq!(insert_account(&mut first, &b), Err(StoreError::UniqueViolation));
    let mut second = Database::new();
    assert_eq!(insert_account(&mut second, &b), Ok(()));
    assert_eq!(insert_account(&mut second, &a), Err(StoreError::UniqueViolation));
    assert_eq!(check_if_account_exists(&first, "alice2"), Ok(false));
    assert_eq!(check_if_account_exists(&second, "alice"), Ok(false));
}

#[test]
fn account_lookups() {
    let mut db = Database::new();
    assert_eq!(insert_account(&mut db, &account("alice", "ext1")), Ok(()));
    assert_eq!(check_if_account_exists_discord(&db, "alice", "none"), Ok(true));
    assert_eq!(check_if_account_exists_discord(&db, "none", "ext1"), Ok(true));
    assert_eq!(check_if_account_exists_discord(&db, "none", "none"), Ok(false));
    assert_eq!(check_if_account_exists_discord(&db, "ext1", "alice"), Ok(false));
    let found = get_account_by_discord_id(&db, "ext1").unwrap().unwrap();
    assert_eq!(found.username, "alice");
    assert_eq!(found.created_at, 7);
    assert!(get_account_by_discord_id(&db, "alice").unwrap().is_none());
    assert_eq!(get_account(&db, "ext1").err(), Some(StoreError::RowNotFound));
}

#[test]
fn access_tokens_need_an_account_and_a_fresh_value() {
    let mut db = Database::new();
    let row = AcornAccessToken {
        token: "T".to_string(),
        username: "alice".to_string(),
        device_info: "laptop".to_string(),
        created_at: 5,
    };
    assert_eq!(insert_access_token(&mut db, &row), Err(StoreError::ForeignKeyViolation));
    assert_eq!(insert_account(&mut db, &account("alice", "ext1")), Ok(()));
    assert_eq!(insert_access_token(&mut db, &row), Ok(()));
    assert_eq!(insert_access_token(&mut db, &row), Err(StoreError::UniqueViolation));
    let stored = get_access_token(&db, "alice", "T").unwrap();
    assert_eq!(stored.device_info, "laptop");
    assert_eq!(stored.created_at, 5);
    assert_eq!(get_access_token(&db, "bob", "T").err(), Some(StoreError::RowNotFound));
    assert_eq!(get_access_token(&db, "alice", "U").err(), Some(StoreError::RowNotFound));
}

#[test]
fn authentication_fails_alike_for_unknown_user_and_wrong_token() {
    let mut db = Database::new();
    assert_eq!(insert_account(&mut db, &account("alice", "ext1")), Ok(()));
    let row = AcornAccessToken {
        token: "T".to_string(),
        username: "alice".to_string(),
        device_info: String::new(),
        created_at: 5,
    };
    assert_eq!(insert_access_token(&mut db, &row), Ok(()));
    assert!(matches!(ensure_account_authentication(&db, "alice", "T"), Ok(None)));
    let wrong_token = ensure_account_authentication(&db, "alice", "X");
    let unknown_user = ensure_account_authentication(&db, "nobody", "T");
    let both_wrong = ensure_account_authentication(&db, "nobody", "X");
    assert_eq!(status_code(&wrong_token), 401);
    assert_eq!(error_of(&wrong_token), error_of(&unknown_user));
    assert_eq!(error_of(&wrong_token), error_of(&both_wrong));
    assert_eq!(
        error_of(&wrong_token),
        (
            ErrorKind::Unauthenticated,
            "Not authenticated; invalid username or access token".to_string()
        )
    );
}

#[test]
fn register_then_login_scenario() {
    let mut db = Database::new();
    let r =
        api_post_register(&mut db, &register_request("alice", "ext123"), resolved("ext123", "al"), 10);
    assert_eq!(status_code(&r), 204);
    let r = api_post_temp_login(&mut db, &temp_login("tok1", "alice"), 20);
    assert_eq!(status_code(&r), 204);
    let r = api_post_temp_login(&mut db, &temp_login("tok1", "alice"), 21);
    assert_eq!(status_code(&r), 409);
    assert_eq!(error_of(&r), (ErrorKind::Conflict, "Temp login token already exists".to_string()));
    let r = api_get_access_token(&mut db, "tok1", "device", 30);
    assert_eq!(status_code(&r), 200);
    let token = token_of(&r);
    assert_eq!(token.len(), 250);
    assert!(token.chars().all(|c| c.is_ascii_alphanumeric() || c == '-' || c == '_'));
    assert!(matches!(ensure_account_authentication(&db, "alice", &token), Ok(None)));
    assert_eq!(get_access_token(&db, "alice", &token).unwrap().device_info, "device");
    let r = api_get_access_token(&mut db, "tok1", "device", 31);
    assert_eq!(status_code(&r), 404);
    assert_eq!(
        error_of(&r),
        (
            ErrorKind::NotFound,
            "Could not find username for temp login token. It may have expired or the user has not finished logging in yet.".to_string()
        )
    );
}

#[test]
fn registration_checks_username_then_identity_then_keys() {
    let mut db = Database::new();
    let bad_name = api_post_register(
        &mut db,
        &register_request("al", "ext1"),
        Err(ResolveError::Malformed),
        1,
    );
    assert_eq!(status_code(&bad_name), 400);
    assert_eq!(
        error_of(&bad_name).1,
        "Invalid username! Username must be 3-32 characters long and contain only latin letters, digits, underscores, and hyphens; without spaces."
    );
    let upstream = api_post_register(
        &mut db,
        &register_request("alice", "ext1"),
        Err(ResolveError::Upstream(401)),
        1,
    );
    assert_eq!(status_code(&upstream), 500);
    assert_eq!(error_of(&upstream), (ErrorKind::UpstreamFailure, "Internal server error".to_string()));
    let mismatch = api_post_register(
        &mut db,
        &register_request("alice", "ext1"),
        resolved("ext2", "al"),
        1,
    );
    assert_eq!(status_code(&mismatch), 401);
    assert_eq!(
        error_of(&mismatch).1,
        "The provided discord user ID does not belong to the provided discord access token!"
    );
    assert_eq!(check_if_account_exists(&db, "alice"), Ok(false));
    let created =
        api_post_register(&mut db, &register_request("alice", "ext1"), resolved("ext1", "al"), 42);
    assert!(matches!(created, Ok(None)));
    assert_eq!(get_account(&db, "alice").unwrap().created_at, 42);
    let same_name =
        api_post_register(&mut db, &register_request("alice", "ext2"), resolved("ext2", "al"), 43);
    assert_eq!(status_code(&same_name), 409);
    let same_id =
        api_post_register(&mut db, &register_request("bob", "ext1"), resolved("ext1", "al"), 43);
    assert_eq!(
        error_of(&same_id),
        (
            ErrorKind::Conflict,
            "Account with this username or discord user id already exists!".to_string()
        )
    );
    assert_eq!(get_account(&db, "alice").unwrap().created_at, 42);
    assert_eq!(check_if_account_exists(&db, "bob"), Ok(false));
}

#[test]
fn temp_login_is_accepted_at_any_time_and_refused_when_repeated() {
    let mut db = Database::new();
    let r = api_post_temp_login(&mut db, &temp_login("tok", "alice"), i64::MAX);
    assert_eq!(status_code(&r), 204);
    let r = api_post_temp_login(&mut db, &temp_login("tok", "alice"), i64::MAX);
    assert_eq!(status_code(&r), 409);
    let r = api_post_temp_login(&mut db, &temp_login("tok", "bob"), 0);
    assert_eq!(error_of(&r), (ErrorKind::Conflict, "Temp login token already exists".to_string()));
    let r = api_post_temp_login(&mut db, &temp_login("tok2", "bob"), i64::MIN);
    assert_eq!(status_code(&r), 204);
    assert_eq!(temp_login_token_get_username(&mut db, "tok2", i64::MIN + 299_999_999), Ok(Some("bob".to_string())));
}

#[test]
fn access_token_steps_fail_in_order() {
    let mut db = Database::new();
    let entropy = Some(vec![0xffu8; 16]);
    let unknown = api_get_access_token_with(&mut db, "tok", "dev", 1, entropy.clone());
    assert_eq!(status_code(&unknown), 404);

    assert_eq!(insert_temp_login_token(&mut db, "tok", "ghost", 0), Ok(false));
    let no_account = api_get_access_token_with(&mut db, "tok", "dev", 1, entropy.clone());
    assert_eq!(
        error_of(&no_account),
        (ErrorKind::NotFound, "Account with username \"ghost\" does not exist!".to_string())
    );
    assert_eq!(db.temp_login_tokens.len(), 0);

    assert_eq!(insert_account(&mut db, &account("alice", "ext1")), Ok(()));
    assert_eq!(insert_temp_login_token(&mut db, "tok", "alice", 0), Ok(false));
    let no_entropy = api_get_access_token_with(&mut db, "tok", "dev", 1, None);
    assert_eq!(status_code(&no_entropy), 500);
    match no_entropy {
        Err(e) => {
            assert_eq!(e.message, "Internal server error");
            assert_eq!(e.detail, "Could not generate access token!");
        }
        Ok(_) => panic!("expected an error"),
    }
    assert_eq!(db.temp_login_tokens.len(), 0);

    assert_eq!(insert_temp_login_token(&mut db, "tok", "alice", 0), Ok(false));
    let weak = api_get_access_token_with(&mut db, "tok", "dev", 1, Some(vec![1u8; 15]));
    assert_eq!(status_code(&weak), 500);

    assert_eq!(insert_temp_login_token(&mut db, "tok", "alice", 0), Ok(false));
    let issued = api_get_access_token_with(&mut db, "tok", "dev", 9, entropy.clone());
    assert_eq!(token_of(&issued), "_____________________w");
    let stored = get_access_token(&db, "alice", "_____________________w").unwrap();
    assert_eq!(stored.created_at, 9);
    assert_eq!(stored.device_info, "dev");

    assert_eq!(insert_temp_login_token(&mut db, "tok", "alice", 0), Ok(false));
    let repeated = api_get_access_token_with(&mut db, "tok", "dev", 9, entropy.clone());
    assert_eq!(status_code(&repeated), 500);
    match repeated {
        Err(e) => assert_eq!(e.detail, "Could not insert access token row"),
        Ok(_) => panic!("expected an error"),
    }
}

#[test]
fn discord_auth_tells_login_from_registration() {
    let mut db = Database::new();
    assert_eq!(insert_account(&mut db, &account("alice", "ext1")), Ok(()));
    let tokens = || -> Result<TokenResponse, ExchangeError> {
        Ok(TokenResponse {
            access_token: "ext-access".to_string(),
            token_type: "Bearer".to_string(),
            expires_in: 604800,
            refresh_token: "ext-refresh".to_string(),
            scope: "identify".to_string(),
        })
    };
    match api_get_discord_auth(&mut db, "code", tokens(), resolved("ext1", "al")) {
        Ok(Some(ResponseBody::ExistingAccount { discord_user_id, username })) => {
            assert_eq!(discord_user_id, "ext1");
            assert_eq!(username, "alice");
        }
        _ => panic!("expected an existing account"),
    }
    match api_get_discord_auth(&mut db, "code", tokens(), resolved("ext2", "bo")) {
        Ok(Some(ResponseBody::NewAccount {
            discord_access_token,
            discord_user_id,
            discord_username,
        })) => {
            assert_eq!(discord_access_token, "ext-access");
            assert_eq!(discord_user_id, "ext2");
            assert_eq!(discord_username, "bo");
        }
        _ => panic!("expected a new account"),
    }
    let r = api_get_discord_auth(&mut db, "code", Err(ExchangeError::InvalidCode), resolved("ext1", "al"));
    assert_eq!(
        error_of(&r),
        (
            ErrorKind::Unauthenticated,
            "Error while getting discord access token: Could not get discord token because the provided code is invalid".to_string()
        )
    );
    let r = api_get_discord_auth(&mut db, "code", Err(ExchangeError::InvalidGrant), resolved("ext1", "al"));
    assert_eq!(status_code(&r), 401);
    let r = api_get_discord_auth(&mut db, "code", Err(ExchangeError::Upstream(503)), resolved("ext1", "al"));
    assert_eq!(status_code(&r), 500);
    let r = api_get_discord_auth(&mut db, "code", Err(ExchangeError::Malformed), resolved("ext1", "al"));
    assert_eq!(status_code(&r), 500);
    let r = api_get_discord_auth(&mut db, "code", Err(ExchangeError::Unreachable), resolved("ext1", "al"));
    assert_eq!(status_code(&r), 500);
    let r = api_get_discord_auth(&mut db, "code", tokens(), Err(ResolveError::Upstream(401)));
    assert_eq!(error_of(&r), (ErrorKind::UpstreamFailure, "Internal server error".to_string()));
    let r = api_get_discord_auth(&mut db, "code", tokens(), Err(ResolveError::Unreachable));
    assert_eq!(status_code(&r), 500);
}
