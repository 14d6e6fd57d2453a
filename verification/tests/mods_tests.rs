use acorn_backend::accounts::{insert_access_token, insert_account, AcornAccessToken, AcornAccount, StoreError};
use acorn_backend::mod_table::{ModRecord, INITIAL_MOD_VERSION};
use acorn_backend::forms::{
    get_bytes_form_field, get_bytes_form_field_opt, get_text_form_field, get_text_form_field_opt,
    parse_update_form, FormData, RawField, TextField, MAX_FILE_SIZE,
};
use acorn_backend::game_version::parse_game_version;
use acorn_backend::mods::{
    api_delete_mod, api_update_mod, api_upload_mod, api_upload_mod_with, authorize_mutation,
    change_mod, ensure_mod_authorization, insert_mod, mod_id_of, remove_mod, Authorization,
    MOD_ID_BYTES,
};
use acorn_backend::response::{status_code, ApiResponse, ErrorKind};
use acorn_backend::store::Database;

const MOD_ID: u128 = 0x550e8400_e29b_41d4_a716_446655440000;
const MOD_ID_TEXT: &str = "550e8400-e29b-41d4-a716-446655440000";

fn form(texts: &[(&str, &str)], raw: &[(&str, &[u8])]) -> FormData {
    FormData {
        texts: texts
            .iter()
            .map(|(n, t)| TextField { name: n.to_string(), text: t.to_string() })
            .collect(),
        raw: raw.iter().map(|(n, b)| RawField { name: n.to_string(), raw: b.to_vec() }).collect(),
    }
}

fn db_with_users() -> Database {
    let mut db = Database::new();
    for (name, id, token) in [("alice", "ext1", "TA"), ("bob", "ext2", "TB")] {
        let account = AcornAccount {
            username: name.to_string(),
            discord_user_id: id.to_string(),
            created_at: 0,
        };
        assert_eq!(insert_account(&mut db, &account), Ok(()));
        let row = AcornAccessToken {
            token: token.to_string(),
            username: name.to_string(),
            device_info: String::new(),
            created_at: 0,
        };
        assert_eq!(insert_access_token(&mut db, &row), Ok(()));
    }
    db
}

fn upload_form<'a>(title: &'a str, description: &'a str, game: &'a str, version: &'a str) -> FormData {
    form(
        &[
            ("username", "alice"),
            ("access_token", "TA"),
            ("title", title),
            ("description", description),
            ("game_name", game),
            ("game_version", version),
        ],
        &[("file_data", b"PAYLOAD")],
    )
}

fn message_of(r: &ApiResponse) -> (ErrorKind, String) {
    match r {
        Err(e) => (e.kind, e.message.clone()),
        Ok(_) => panic!("expected an error"),
    }
}

fn db_with_mod() -> Database {
    let mut db = db_with_users();
    let r = api_upload_mod_with(
        &mut db,
        true,
        "multipart/form-data",
        &upload_form("A fine title", "about", "Undertale", "1.8"),
        MOD_ID,
    );
    assert!(matches!(r, Ok(None)));
    db
}

#[test]
fn form_fields_take_the_first_of_a_name() {
    let f = form(&[("a", "1"), ("b", "2"), ("a", "3")], &[("x", b"\x01"), ("x", b"\x02")]);
    assert_eq!(get_text_form_field(&f, "a"), Ok(&"1".to_string()));
    assert_eq!(get_text_form_field_opt(&f, "b"), Some(&"2".to_string()));
    assert_eq!(get_text_form_field_opt(&f, "x"), None);
    assert_eq!(
        get_text_form_field(&f, "c"),
        Err("Text field `c` missing from request form!".to_string())
    );
    assert_eq!(get_bytes_form_field(&f, "x"), Ok(&vec![1u8]));
    assert_eq!(get_bytes_form_field_opt(&f, "a"), None);
    assert_eq!(
        get_bytes_form_field(&f, "file_data"),
        Err("Raw field `file_data` missing from request form!".to_string())
    );
}

#[test]
fn game_version_is_major_dot_minor() {
    assert_eq!(parse_game_version("1.8"), Some((1, 8)));
    assert_eq!(parse_game_version("0.0"), Some((0, 0)));
    assert_eq!(parse_game_version("+1.+08"), Some((1, 8)));
    assert_eq!(parse_game_version("2147483647.2147483647"), Some((2147483647, 2147483647)));
    assert_eq!(parse_game_version("2147483648.0"), None);
    assert_eq!(parse_game_version("0.2147483648"), None);
    assert_eq!(parse_game_version("4294967295.4294967295"), None);
    assert_eq!(parse_game_version("4294967296.0"), None);
    assert_eq!(parse_game_version("0.99999999999999999999"), None);
    assert_eq!(parse_game_version("1"), None);
    assert_eq!(parse_game_version("1."), None);
    assert_eq!(parse_game_version(".1"), None);
    assert_eq!(parse_game_version("1.2.3"), None);
    assert_eq!(parse_game_version("1.-2"), None);
    assert_eq!(parse_game_version("+.1"), None);
    assert_eq!(parse_game_version("1. 2"), None);
    assert_eq!(parse_game_version("a.b"), None);
    assert_eq!(parse_game_version(""), None);
    assert_eq!(parse_game_version("1.\u{0661}"), None);
    for text in ["12.34", "007.1", "+5.6", "1.2.3", "x", "3.", "99999999999.1", "1.+", "++1.1"] {
        let mut parts = text.split('.');
        let expected = (|| {
            let a = parts.next()?.parse::<u32>().ok()?;
            let b = parts.next()?.parse::<u32>().ok()?;
            if parts.next().is_some() {
                return None;
            }
            Some((i32::try_from(a).ok()?, i32::try_from(b).ok()?))
        })();
        assert_eq!(parse_game_version(text), expected, "{}", text);
    }
}

#[test]
fn upload_stores_the_sanitised_mod_at_the_initial_version() {
    let mut db = db_with_users();
    let r = api_upload_mod_with(
        &mut db,
        true,
        "multipart/form-data",
        &upload_form("  \u{201C}Great\u{201D} mod  ", " about \u{2013} it ", "Deltarune", "1.12"),
        MOD_ID,
    );
    assert_eq!(status_code(&r), 204);
    assert_eq!(db.mods.version_of(MOD_ID), Some(INITIAL_MOD_VERSION));
    assert_eq!(INITIAL_MOD_VERSION, 1);
    assert_eq!(authorize_mutation(&db, MOD_ID, "alice"), Authorization::Authorized);
    let again = api_upload_mod_with(
        &mut db,
        true,
        "multipart/form-data",
        &upload_form("Another title", "about", "Undertale", "1.0"),
        MOD_ID,
    );
    assert_eq!(status_code(&again), 500);
    assert_eq!(again.err().unwrap().detail, "Could not create mod");
}

#[test]
fn mod_id_is_made_of_sixteen_drawn_bytes() {
    assert_eq!(MOD_ID_BYTES, 16);
    assert_eq!(mod_id_of(&Some(vec![0xff; 16])), Some(0xffffffff_ffff_4fff_bfff_ffffffffffff));
    assert_eq!(mod_id_of(&Some(vec![0; 16])), Some(0x00000000_0000_4000_8000_000000000000));
    let bytes: Vec<u8> = (1..=16).collect();
    assert_eq!(mod_id_of(&Some(bytes)), Some(0x01020304_0506_4708_890a_0b0c0d0e0f10));
    assert_eq!(
        mod_id_of(&Some(vec![70, 235, 208, 238, 14, 109, 67, 201, 185, 13, 204, 195, 90, 145, 63, 62])),
        Some(0x46ebd0ee_0e6d_43c9_b90d_ccc35a913f3e)
    );
    assert_eq!(mod_id_of(&Some(vec![0xff; 15])), None);
    assert_eq!(mod_id_of(&Some(vec![0xff; 17])), None);
    assert_eq!(mod_id_of(&Some(vec![])), None);
    assert_eq!(mod_id_of(&None), None);
}

#[test]
fn upload_with_a_random_id_succeeds() {
    let mut db = db_with_users();
    let f = upload_form("A fine title", "about", "Undertale", "1.8");
    assert!(matches!(api_upload_mod(&mut db, true, "multipart/form-data", &f), Ok(None)));
    assert!(matches!(api_upload_mod(&mut db, true, "multipart/form-data", &f), Ok(None)));
}

#[test]
fn upload_is_refused_for_each_reason_in_order() {
    let mut db = db_with_users();
    let good = upload_form("A fine title", "about", "Undertale", "1.8");
    let r = api_upload_mod_with(&mut db, false, "text/plain", &good, MOD_ID);
    assert_eq!(message_of(&r), (ErrorKind::ClientInput, "Unsupported content type text/plain".to_string()));

    let names = ["username", "access_token", "title", "description", "game_name", "game_version"];
    for missing in names {
        let texts: Vec<(&str, &str)> =
            names.iter().filter(|n| **n != missing).map(|n| (*n, "v")).collect();
        let r = api_upload_mod_with(&mut db, true, "m", &form(&texts, &[("file_data", b"x")]), MOD_ID);
        assert_eq!(
            message_of(&r),
            (ErrorKind::ClientInput, format!("Text field `{}` missing from request form!", missing))
        );
    }
    let all: Vec<(&str, &str)> = names.iter().map(|n| (*n, "v")).collect();
    let r = api_upload_mod_with(&mut db, true, "m", &form(&all, &[]), MOD_ID);
    assert_eq!(
        message_of(&r),
        (ErrorKind::ClientInput, "Raw field `file_data` missing from request form!".to_string())
    );
    let r = api_upload_mod_with(&mut db, true, "m", &form(&all, &[("file_data", b"x")]), MOD_ID);
    assert_eq!(status_code(&r), 401);

    let cases = [
        (("   ", "about", "Undertale", "1.8"), "Invalid title"),
        (("short", "about", "Undertale", "1.8"), "Title should be 8-256 chars long"),
        (("  1234567  ", "about", "Undertale", "1.8"), "Title should be 8-256 chars long"),
        (("line one\nline two", "about", "Undertale", "1.8"), "Title must not contain newlines"),
        (("line one\rline two", "about", "Undertale", "1.8"), "Title must not contain newlines"),
        (("A fine title", " \n ", "Undertale", "1.8"), "Invalid description"),
        (("A fine title", "about", "undertale", "1.8"), "Invalid or unknown game name"),
        (("A fine title", "about", "Undertale 2", "1.8"), "Invalid or unknown game name"),
        (("A fine title", "about", "Deltarune", "1"), "Invalid game version"),
        (("A fine title", "about", "Deltarune", "1.x"), "Invalid game version"),
    ];
    for ((title, description, game, version), message) in cases {
        let r = api_upload_mod_with(
            &mut db,
            true,
            "m",
            &upload_form(title, description, game, version),
            MOD_ID,
        );
        assert_eq!(message_of(&r), (ErrorKind::ClientInput, message.to_string()));
    }
    let long = "x".repeat(257);
    let r = api_upload_mod_with(&mut db, true, "m", &upload_form(&long, "a", "Undertale", "1.8"), MOD_ID);
    assert_eq!(message_of(&r).1, "Title should be 8-256 chars long");
    let limit = "x".repeat(256);
    let r = api_upload_mod_with(&mut db, true, "m", &upload_form(&limit, "a", "Undertale", "1.8"), MOD_ID);
    assert!(matches!(r, Ok(None)));
    // Four characters of two bytes each: the title is measured in bytes.
    let r = api_upload_mod_with(
        &mut db,
        true,
        "m",
        &upload_form("\u{e9}\u{e9}\u{e9}\u{e9}", "a", "Undertale", "1.8"),
        MOD_ID + 1,
    );
    assert!(matches!(r, Ok(None)));
    assert_eq!(db.mods.contains(MOD_ID), true);
    assert_eq!(db.mods.contains(MOD_ID + 2), false);
}

#[test]
fn file_above_the_limit_is_refused() {
    assert_eq!(MAX_FILE_SIZE, 16_777_216);
    let mut db = db_with_users();
    let mut f = upload_form("A fine title", "about", "Undertale", "1.8");
    f.raw[0].raw = vec![0u8; 16_777_217];
    let r = api_upload_mod_with(&mut db, true, "m", &f, MOD_ID);
    assert_eq!(
        message_of(&r),
        (ErrorKind::ClientInput, "Raw field `file_data` exceeds the size limit".to_string())
    );
    f.raw[0].raw = vec![0u8; 16_777_216];
    assert!(matches!(api_upload_mod_with(&mut db, true, "m", &f, MOD_ID), Ok(None)));
}

#[test]
fn only_the_author_passes_the_ownership_check() {
    let db = db_with_mod();
    assert_eq!(authorize_mutation(&db, MOD_ID, "alice"), Authorization::Authorized);
    assert_eq!(authorize_mutation(&db, MOD_ID, "bob"), Authorization::Forbidden);
    assert_eq!(authorize_mutation(&db, MOD_ID, "Alice"), Authorization::Forbidden);
    assert_eq!(authorize_mutation(&db, MOD_ID, ""), Authorization::Forbidden);
    assert_eq!(authorize_mutation(&db, MOD_ID + 1, "alice"), Authorization::NotFound);
    assert!(matches!(ensure_mod_authorization(&db, MOD_ID, "alice"), Ok(None)));
    let other = ensure_mod_authorization(&db, MOD_ID, "bob");
    let missing = ensure_mod_authorization(&db, MOD_ID + 1, "alice");
    assert_eq!(status_code(&other), 403);
    assert_eq!(message_of(&other), message_of(&missing));
    assert_eq!(
        message_of(&other).1,
        "Unauthorized; you do not have permission to modify this mod"
    );
}

#[test]
fn mod_id_is_read_as_a_uuid() {
    let f = form(&[("username", "alice"), ("access_token", "TA"), ("mod_id", MOD_ID_TEXT)], &[]);
    let parsed = parse_update_form(&f).unwrap();
    assert_eq!(parsed.mod_id, MOD_ID);
    assert!(parsed.file_data.is_none());
    assert!(parsed.description.is_none());
    let f = form(
        &[
            ("username", "alice"),
            ("access_token", "TA"),
            ("mod_id", "550E8400E29B41D4A716446655440000"),
            ("description", "d"),
        ],
        &[("file_data", b"zz")],
    );
    let parsed = parse_update_form(&f).unwrap();
    assert_eq!(parsed.mod_id, MOD_ID);
    assert_eq!(parsed.file_data, Some(&b"zz".to_vec()));
    assert_eq!(parsed.description, Some(&"d".to_string()));
    let f = form(&[("username", "alice"), ("access_token", "TA"), ("mod_id", "not-a-uuid")], &[]);
    let e = parse_update_form(&f).err().unwrap();
    assert_eq!((e.kind, e.message.as_str()), (ErrorKind::ClientInput, "Invalid Mod UUID"));
}

#[test]
fn two_updates_raise_the_version_by_two() {
    let mut db = db_with_mod();
    let before = db.mods.version_of(MOD_ID).unwrap();
    let first = form(
        &[("username", "alice"), ("access_token", "TA"), ("mod_id", MOD_ID_TEXT), ("description", " new ")],
        &[],
    );
    let second = form(
        &[("username", "alice"), ("access_token", "TA"), ("mod_id", MOD_ID_TEXT)],
        &[("file_data", b"NEW")],
    );
    assert!(matches!(api_update_mod(&mut db, true, "m", &first), Ok(None)));
    assert_eq!(db.mods.version_of(MOD_ID), Some(before + 1));
    assert!(matches!(api_update_mod(&mut db, true, "m", &second), Ok(None)));
    assert_eq!(db.mods.version_of(MOD_ID), Some(before + 2));
}

#[test]
fn update_is_refused_for_each_reason_in_order() {
    let mut db = db_with_mod();
    let base = [("username", "bob"), ("access_token", "TB"), ("mod_id", MOD_ID_TEXT)];
    let r = api_update_mod(&mut db, false, "image/png", &form(&base, &[]));
    assert_eq!(message_of(&r).1, "Unsupported content type image/png");
    let r = api_update_mod(&mut db, true, "m", &form(&base[..2], &[]));
    assert_eq!(message_of(&r).1, "Text field `mod_id` missing from request form!");
    let r = api_update_mod(
        &mut db,
        true,
        "m",
        &form(&[("username", "bob"), ("access_token", "bad"), ("mod_id", MOD_ID_TEXT)], &[]),
    );
    assert_eq!(status_code(&r), 401);
    let r = api_update_mod(&mut db, true, "m", &form(&base, &[("file_data", b"x")]));
    assert_eq!(status_code(&r), 403);
    let own = [("username", "alice"), ("access_token", "TA"), ("mod_id", MOD_ID_TEXT)];
    let r = api_update_mod(&mut db, true, "m", &form(&own, &[]));
    assert_eq!(message_of(&r), (ErrorKind::ClientInput, "Nothing to update".to_string()));
    let blank = [
        ("username", "alice"),
        ("access_token", "TA"),
        ("mod_id", MOD_ID_TEXT),
        ("description", "   "),
    ];
    let r = api_update_mod(&mut db, true, "m", &form(&blank, &[("file_data", b"x")]));
    assert_eq!(message_of(&r), (ErrorKind::ClientInput, "Invalid description".to_string()));
    assert_eq!(db.mods.version_of(MOD_ID), Some(1));
    let missing = [
        ("username", "alice"),
        ("access_token", "TA"),
        ("mod_id", "00000000-0000-0000-0000-000000000001"),
    ];
    let r = api_update_mod(&mut db, true, "m", &form(&missing, &[("file_data", b"x")]));
    assert_eq!(status_code(&r), 403);
}

#[test]
fn version_at_its_maximum_cannot_grow() {
    let mut db = db_with_users();
    let record = ModRecord {
        id: 9,
        author: "alice".to_string(),
        title: "t".to_string(),
        description: "d".to_string(),
        game_name: "Undertale".to_string(),
        game_version_major: 1,
        game_version_minor: 0,
        file_data: vec![],
        version: i32::MAX - 1,
    };
    assert_eq!(insert_mod(&mut db, record), Ok(()));
    assert_eq!(change_mod(&mut db, 9, None, Some("e".to_string())), Ok(()));
    assert_eq!(db.mods.version_of(9), Some(i32::MAX));
    assert_eq!(change_mod(&mut db, 9, None, Some("f".to_string())), Err(StoreError::NumericOverflow));
    assert_eq!(db.mods.version_of(9), Some(i32::MAX));
    assert_eq!(change_mod(&mut db, 10, None, None), Ok(()));
    assert_eq!(db.mods.contains(10), false);
}

#[test]
fn mods_need_an_author_with_an_account() {
    let mut db = db_with_users();
    let record = |id: u128, author: &str| ModRecord {
        id,
        author: author.to_string(),
        title: "t".to_string(),
        description: "d".to_string(),
        game_name: "Undertale".to_string(),
        game_version_major: 1,
        game_version_minor: 0,
        file_data: vec![],
        version: 1,
    };
    assert_eq!(insert_mod(&mut db, record(1, "nobody")), Err(StoreError::ForeignKeyViolation));
    assert_eq!(insert_mod(&mut db, record(1, "alice")), Ok(()));
    assert_eq!(insert_mod(&mut db, record(1, "bob")), Err(StoreError::UniqueViolation));
    assert_eq!(authorize_mutation(&db, 1, "alice"), Authorization::Authorized);
    assert_eq!(remove_mod(&mut db, 1), Ok(()));
    assert_eq!(remove_mod(&mut db, 1), Ok(()));
    assert_eq!(authorize_mutation(&db, 1, "alice"), Authorization::NotFound);
}

#[test]
fn delete_is_for_the_author_only() {
    let mut db = db_with_mod();
    let r = api_delete_mod(&mut db, &form(&[("username", "alice"), ("access_token", "TA")], &[]));
    assert_eq!(message_of(&r).1, "Text field `mod_id` missing from request form!");
    let r = api_delete_mod(
        &mut db,
        &form(&[("username", "alice"), ("access_token", "TA"), ("mod_id", "zz")], &[]),
    );
    assert_eq!(message_of(&r).1, "Invalid Mod UUID");
    let r = api_delete_mod(
        &mut db,
        &form(&[("username", "bob"), ("access_token", "TA"), ("mod_id", MOD_ID_TEXT)], &[]),
    );
    assert_eq!(status_code(&r), 401);
    let r = api_delete_mod(
        &mut db,
        &form(&[("username", "bob"), ("access_token", "TB"), ("mod_id", MOD_ID_TEXT)], &[]),
    );
    assert_eq!(status_code(&r), 403);
    assert!(db.mods.contains(MOD_ID));
    let r = api_delete_mod(
        &mut db,
        &form(&[("username", "alice"), ("access_token", "TA"), ("mod_id", MOD_ID_TEXT)], &[]),
    );
    assert_eq!(status_code(&r), 204);
    assert!(!db.mods.contains(MOD_ID));
    let r = api_delete_mod(
        &mut db,
        &form(&[("username", "alice"), ("access_token", "TA"), ("mod_id", MOD_ID_TEXT)], &[]),
    );
    assert_eq!(status_code(&r), 403);
}
