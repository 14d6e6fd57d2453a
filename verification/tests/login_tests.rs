use acorn_backend::catchers::{api_catch_404, api_catch_422, api_catch_429};
use acorn_backend::identity::{
    exchange_code, get_user_info, DiscordUserInfo, ExchangeError, ResolveError, TokenResponse,
};
use acorn_backend::login::{is_valid_username, redirect_goto_discord_auth};
use acorn_backend::pages::{html_eula, html_index};
use acorn_backend::response::{
    respond_err, respond_ok_empty, respond_ok_value, status_code, ErrorKind, ResponseBody,
};
use acorn_backend::search_mods::{
    classify_separators, normalize_classified, normalize_search_query,
};
use acorn_backend::storage::{folder_path, text_of_download};
use acorn_backend::token::{
    encode_access_token, generate_access_token, ACCESS_TOKEN_ENTROPY_BYTES,
};
use std::collections::HashSet;

fn tokens() -> TokenResponse {
    TokenResponse {
        access_token: "a".to_string(),
        token_type: "Bearer".to_string(),
        expires_in: 1,
        refresh_token: "r".to_string(),
        scope: "identify".to_string(),
    }
}

#[test]
fn username_policy_edges() {
    assert!(is_valid_username("abc"));
    assert!(is_valid_username("A-z_0-9"));
    assert!(is_valid_username(&"x".repeat(32)));
    assert!(!is_valid_username(&"x".repeat(33)));
    assert!(!is_valid_username("ab"));
    assert!(!is_valid_username(""));
    assert!(!is_valid_username("has space"));
    assert!(!is_valid_username("abc\n"));
    assert!(!is_valid_username("\u{e9}l\u{e8}ve"));
    assert!(!is_valid_username("a.b.c"));
    assert!(!is_valid_username("abc!"));
    assert!(!is_valid_username("ab\u{ff10}"));
}

#[test]
fn username_policy_agrees_with_its_pattern() {
    let pattern = regex::Regex::new(r"^[a-zA-Z0-9_-]{3,32}$").unwrap();
    let samples = [
        "", "a", "ab", "abc", "abcd", "ABC", "a_b", "a-b", "a b", "a+b", "abc\n", "\nabc", "ab\t",
        "0123456789", "user.name", "user@name", "na\u{ef}ve", "___", "---", "a/b", "[abc]", "^abc$",
        "abcdefghijklmnopqrstuvwxyzABCDEF", "abcdefghijklmnopqrstuvwxyzABCDEFG", "{abc}", "Zz9`",
    ];
    for s in samples {
        assert_eq!(is_valid_username(s), pattern.is_match(s), "{:?}", s);
    }
}

#[test]
fn exchange_answer_is_told_apart_by_status_and_marks() {
    assert!(exchange_code(200, "{}", Some(tokens())).is_ok());
    assert!(exchange_code(299, "invalid_grant", Some(tokens())).is_ok());
    assert_eq!(exchange_code(200, "{}", None).err(), Some(ExchangeError::Malformed));
    assert_eq!(
        exchange_code(400, "{\"error\": \"Invalid \\\"code\\\" in request.\"}", None).err(),
        Some(ExchangeError::InvalidCode)
    );
    assert_eq!(
        exchange_code(400, "Invalid \"code\" in request", None).err(),
        Some(ExchangeError::Upstream(400))
    );
    assert_eq!(
        exchange_code(400, "{\"error\": \"invalid_grant\"}", Some(tokens())).err(),
        Some(ExchangeError::InvalidGrant)
    );
    assert_eq!(
        exchange_code(400, "invalid_grant Invalid \\\"code\\\" in request", None).err(),
        Some(ExchangeError::InvalidCode)
    );
    assert_eq!(exchange_code(503, "", None).err(), Some(ExchangeError::Upstream(503)));
    assert_eq!(exchange_code(199, "", Some(tokens())).err(), Some(ExchangeError::Upstream(199)));
    assert_eq!(exchange_code(300, "", Some(tokens())).err(), Some(ExchangeError::Upstream(300)));
    assert_eq!(exchange_code(200, "", Some(tokens())).unwrap().refresh_token, "r");
}

#[test]
fn identity_answer_is_told_apart_by_status() {
    let info = || DiscordUserInfo {
        id: "1".to_string(),
        username: "u".to_string(),
        global_name: "U".to_string(),
    };
    assert_eq!(get_user_info(200, Some(info())).unwrap().id, "1");
    assert_eq!(get_user_info(204, None).err(), Some(ResolveError::Malformed));
    assert_eq!(get_user_info(401, Some(info())).err(), Some(ResolveError::Upstream(401)));
    assert_eq!(get_user_info(500, None).err(), Some(ResolveError::Upstream(500)));
}

#[test]
fn encoded_token_of_known_bytes() {
    assert_eq!(encode_access_token(&[0u8; 16]), Some("AAAAAAAAAAAAAAAAAAAAAA".to_string()));
    assert_eq!(encode_access_token(&[0xffu8; 16]), Some("_____________________w".to_string()));
    assert_eq!(encode_access_token(&[0xffu8; 17]), Some("______________________8".to_string()));
    assert_eq!(
        encode_access_token(&[0xfbu8; 18]),
        Some("-_v7-_v7-_v7-_v7-_v7-_v7".to_string())
    );
    assert_eq!(encode_access_token(&[0u8; 15]), None);
    assert_eq!(encode_access_token(&[]), None);
    assert_eq!(encode_access_token(&vec![0u8; 4095]).unwrap().len(), 5460);
    assert_eq!(encode_access_token(&vec![0u8; 4096]).unwrap().len(), 5462);
    assert_eq!(encode_access_token(&vec![0u8; 4097]).unwrap().len(), 5463);
}

#[test]
fn thousand_generated_tokens_are_distinct_and_well_formed() {
    assert_eq!(ACCESS_TOKEN_ENTROPY_BYTES, 187);
    let mut seen = HashSet::new();
    for _ in 0..1000 {
        let token = generate_access_token().unwrap();
        assert_eq!(token.len(), 250);
        assert!(token.chars().all(|c| c.is_ascii_alphanumeric() || c == '-' || c == '_'));
        assert!(seen.insert(token));
    }
    assert_eq!(seen.len(), 1000);
}

#[test]
fn status_of_each_kind_of_answer() {
    assert_eq!(status_code(&respond_ok_empty()), 204);
    assert_eq!(
        status_code(&respond_ok_value(ResponseBody::AccessToken { access_token: "t".to_string() })),
        200
    );
    let kinds = [
        (ErrorKind::ClientInput, 400),
        (ErrorKind::Unauthenticated, 401),
        (ErrorKind::Forbidden, 403),
        (ErrorKind::NotFound, 404),
        (ErrorKind::Conflict, 409),
        (ErrorKind::Unprocessable, 422),
        (ErrorKind::RateLimited, 429),
        (ErrorKind::UpstreamFailure, 500),
        (ErrorKind::InternalFailure, 500),
    ];
    for (kind, code) in kinds {
        assert_eq!(kind.status(), code);
        assert_eq!(status_code(&Err(respond_err(kind, "why"))), code);
    }
}

#[test]
fn server_side_errors_hide_their_cause() {
    let e = respond_err(ErrorKind::InternalFailure, "connection refused at 10.0.0.3");
    assert_eq!(e.message, "Internal server error");
    assert_eq!(e.detail, "connection refused at 10.0.0.3");
    let e = respond_err(ErrorKind::UpstreamFailure, "provider said 502");
    assert_eq!(e.message, "Internal server error");
    assert_eq!(e.detail, "provider said 502");
    let e = respond_err(ErrorKind::Conflict, "taken");
    assert_eq!(e.message, "taken");
    assert_eq!(e.detail, "");
}

#[test]
fn catchers_answer_with_their_status() {
    let r = api_catch_404("/api/v1/nothing");
    assert_eq!(status_code(&r), 404);
    assert_eq!(r.err().unwrap().message, "Unknown URL: /api/v1/nothing");
    let r = api_catch_422();
    assert_eq!(status_code(&r), 422);
    assert_eq!(r.err().unwrap().message, "ur json is fucked");
    let r = api_catch_429();
    assert_eq!(status_code(&r), 429);
    assert_eq!(r.err().unwrap().message, "Too many requests!");
    assert_eq!(html_index(), "index.html");
    assert_eq!(html_eula(), "eula.html");
}

#[test]
fn redirect_page_carries_the_token() {
    let page = redirect_goto_discord_auth("tok-123");
    assert!(page.starts_with("<!DOCTYPE html><html><head><title>AcornGM</title></head>"));
    assert!(page.contains("localStorage.setItem('tempLoginToken', 'tok-123');"));
    assert!(page.contains(
        "window.location.replace('https://discord.com/oauth2/authorize?client_id=1360325253766578479&response_type=code&redirect_uri=https%3A%2F%2Facorngm.biotomatede.hackclub.app%2Fdiscord_auth_page.html&scope=identify')"
    ));
    assert!(page.ends_with("</script></body></html>"));
}

#[test]
fn search_query_becomes_terms_joined_by_and() {
    assert_eq!(normalize_search_query("hello, world!  foo"), "hello & world & foo");
    assert_eq!(normalize_search_query("  one  "), "one");
    assert_eq!(normalize_search_query("a-b_c"), "a & b & c");
    assert_eq!(normalize_search_query(""), "");
    assert_eq!(normalize_search_query(" ,;! "), "");
    assert_eq!(normalize_search_query("caf\u{e9}\u{3000}\u{4e2d}\u{6587}9"), "caf\u{e9} & \u{4e2d}\u{6587}9");
    assert_eq!(normalize_search_query("x"), "x");
    let expected = |raw: &str| -> String {
        raw.replace(|c: char| !c.is_alphanumeric() && !c.is_whitespace(), " ")
            .split_whitespace()
            .collect::<Vec<_>>()
            .join(" & ")
    };
    for raw in ["it's a (big) mod: v2.0", "tab\tand\nnewline", "\u{a0}nbsp\u{a0}", "a&b|c", "--"] {
        assert_eq!(normalize_search_query(raw), expected(raw));
    }
}

#[test]
fn terms_are_the_runs_between_separators() {
    let chars: Vec<char> = "ab-cd".chars().collect();
    assert_eq!(normalize_classified(&chars, &vec![false, false, true, false, false]), "ab & cd");
    assert_eq!(normalize_classified(&chars, &vec![false; 5]), "ab-cd");
    assert_eq!(normalize_classified(&chars, &vec![true; 5]), "");
    assert_eq!(normalize_classified(&chars, &vec![true, false, true, false, true]), "b & c");
    assert_eq!(normalize_classified(&chars, &vec![false, true, false, true, false]), "a & - & d");
    assert_eq!(normalize_classified(&vec![], &vec![]), "");
    let chars: Vec<char> = "a1 \u{e9}_\u{2460}\u{a0}!".chars().collect();
    assert_eq!(
        classify_separators(&chars),
        vec![false, false, true, false, true, false, true, true]
    );
}

#[test]
fn storage_names_the_root_by_the_empty_path() {
    assert_eq!(folder_path("/".to_string()), "");
    assert_eq!(folder_path("".to_string()), "");
    assert_eq!(folder_path("/mods".to_string()), "/mods");
    assert_eq!(folder_path("//".to_string()), "//");
    assert_eq!(
        text_of_download("/a.txt", "caf\u{e9} \u{1F600}".as_bytes().to_vec()),
        Ok("caf\u{e9} \u{1F600}".to_string())
    );
    assert_eq!(text_of_download("/a.txt", vec![]), Ok(String::new()));
    assert_eq!(
        text_of_download("/a.bin", vec![0x66, 0xff, 0x6f]),
        Err("Could not convert downloaded bytes from file /a.bin to String".to_string())
    );
    assert_eq!(
        text_of_download("/b", vec![0xed, 0xa0, 0x80]),
        Err("Could not convert downloaded bytes from file /b to String".to_string())
    );
}
