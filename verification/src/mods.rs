//! Uploading, changing and deleting mods, behind the checks of credential and
//! ownership.

use crate::accounts::{is_credential, not_authenticated, StoreError};
use crate::flow::{
    advance, answer_of, answers, change_view, perform, statement_of, upload_view, Action, Pending,
    PreparedChange, Statement, Step,
};
use crate::forms::{
    delete_form_failure, delete_form_of, parse_delete_form, parse_update_form, parse_upload_form,
    update_form_failure, update_form_of, upload_form_failure, upload_form_of, DeleteForm,
    DeleteFormView, FormData, UpdateForm, UpdateFormView, UploadForm, UploadFormView,
};
use crate::game_version::{parse_game_version, parsed_game_version};
use crate::mod_table::{
    mods_after_change, opt_bytes, opt_text, ModRecord, ModView, INITIAL_MOD_VERSION,
};
use crate::response::{
    client_error, respond_err, respond_ok_empty, response_view, server_error, ApiError,
    ApiErrorView, ApiResponse, ApiResponseView, ErrorKind, ResponseBodyView,
};
use crate::sanitize::{sanitize_string, sanitized};
use crate::store::{Database, DatabaseView};
use crate::text::{concat3, contains, has_substring, str_eq};
use crate::token::os_random_bytes;
use vstd::prelude::*;
use vstd::slice::slice_to_vec;
use vstd::utf8::encode_utf8;

verus! {

/// What the ownership gate decides.
#[derive(Clone, Copy, Debug, PartialEq, Eq, Structural)]
pub enum Authorization {
    /// The caller is the recorded author.
    Authorized,
    /// The mod exists and someone else is its recorded author.
    Forbidden,
    /// No such mod is stored.
    NotFound,
}

/// What is decided on a store in state `s`: a mod may be changed by its
/// recorded author and by no one else.
pub open spec fn authorization(
    s: DatabaseView,
    mod_id: u128,
    username: Seq<char>,
) -> Authorization {
    if !s.mods.contains_key(mod_id) {
        Authorization::NotFound
    } else if s.mods[mod_id].author == username {
        Authorization::Authorized
    } else {
        Authorization::Forbidden
    }
}

/// What is decided from the recorded author of a mod, if the mod is stored.
pub open spec fn authorization_by(
    recorded_author: Option<Seq<char>>,
    username: Seq<char>,
) -> Authorization {
    match recorded_author {
        None => Authorization::NotFound,
        Some(author) => if author == username {
            Authorization::Authorized
        } else {
            Authorization::Forbidden
        },
    }
}

/// Decides from the recorded author of a mod whether `username` may change
/// it: only where the two are the same.
pub fn decide_authorization(recorded_author: Option<&String>, username: &str) -> (r: Authorization)
    ensures
        r == authorization_by(
            match recorded_author {
                Some(author) => Some(author@),
                None => None,
            },
            username@,
        ),
{
    match recorded_author {
        None => Authorization::NotFound,
        Some(author) => {
            if str_eq(author.as_str(), username) {
                Authorization::Authorized
            } else {
                Authorization::Forbidden
            }
        },
    }
}

/// Decides whether `username` may change or delete the mod `mod_id`.
pub fn authorize_mutation(db: &Database, mod_id: u128, username: &str) -> (r: Authorization)
    requires
        db.wf(),
    ensures
        r == authorization(db@, mod_id, username@),
{
    decide_authorization(db.mods.author_of(mod_id), username)
}

/// What a caller who may not change a mod is told. It is the same whether
/// the mod belongs to someone else or does not exist.
pub open spec fn forbidden() -> ApiResponseView {
    Err(
        client_error(
            ErrorKind::Forbidden,
            "Unauthorized; you do not have permission to modify this mod"@,
        ),
    )
}

/// The answer of the ownership gate.
pub open spec fn mod_authorization(
    s: DatabaseView,
    mod_id: u128,
    username: Seq<char>,
) -> ApiResponseView {
    if authorization(s, mod_id, username) == Authorization::Authorized {
        Ok(None)
    } else {
        forbidden()
    }
}

/// The answer that goes with a decision on ownership.
pub fn authorization_response(decision: Authorization) -> (r: ApiResponse)
    ensures
        response_view(r) == if decision == Authorization::Authorized {
            Ok::<Option<ResponseBodyView>, ApiErrorView>(None)
        } else {
            forbidden()
        },
{
    match decision {
        Authorization::Authorized => respond_ok_empty(),
        _ => Err(
            respond_err(
                ErrorKind::Forbidden,
                "Unauthorized; you do not have permission to modify this mod",
            ),
        ),
    }
}

/// Lets the recorded author of a mod pass and turns everyone else away.
pub fn ensure_mod_authorization(db: &Database, mod_id: u128, username: &str) -> (r: ApiResponse)
    requires
        db.wf(),
    ensures
        response_view(r) == mod_authorization(db@, mod_id, username@),
{
    authorization_response(authorize_mutation(db, mod_id, username))
}

/// The answer to a request whose last statement on the store ended as given:
/// success without content, or an internal error with `context` as detail.
pub open spec fn statement_answer(
    executed: Result<(), StoreError>,
    context: Seq<char>,
) -> ApiResponseView {
    match executed {
        Ok(_) => Ok(None),
        Err(_) => Err(server_error(ErrorKind::InternalFailure, context)),
    }
}

/// Answers a request from how its last statement on the store ended.
pub fn statement_response(executed: Result<(), StoreError>, context: &str) -> (r: ApiResponse)
    ensures
        response_view(r) == statement_answer(executed, context@),
{
    match executed {
        Ok(_) => respond_ok_empty(),
        Err(_) => Err(respond_err(ErrorKind::InternalFailure, context)),
    }
}

/// What the statement that inserts the mod `m` returns.
pub open spec fn insert_mod_result(s: DatabaseView, m: ModView) -> Result<(), StoreError> {
    if s.mods.contains_key(m.id) {
        Err(StoreError::UniqueViolation)
    } else if !s.accounts.contains_key(m.author) {
        Err(StoreError::ForeignKeyViolation)
    } else {
        Ok(())
    }
}

/// The store after the statement that inserts the mod `m`.
pub open spec fn after_insert_mod(s: DatabaseView, m: ModView) -> DatabaseView {
    if insert_mod_result(s, m) is Ok {
        DatabaseView { mods: s.mods.insert(m.id, m), ..s }
    } else {
        s
    }
}

/// Inserts a mod. An id that is stored already, or an author that is no
/// account, makes the statement fail and leaves the store as it was.
pub fn insert_mod(db: &mut Database, record: ModRecord) -> (r: Result<(), StoreError>)
    requires
        old(db).wf(),
    ensures
        final(db).wf(),
        r == insert_mod_result(old(db)@, record@),
        final(db)@ == after_insert_mod(old(db)@, record@),
{
    if db.mods.contains(record.id) {
        return Err(StoreError::UniqueViolation);
    }
    if !db.accounts.contains(record.author.as_str()) {
        return Err(StoreError::ForeignKeyViolation);
    }
    let ghost id = record.id;
    let inserted = db.mods.insert(record);
    proof {
        assert forall|t: Seq<char>| #[trigger] db@.access_tokens.contains_key(t) implies
            db@.accounts.contains_key(db@.access_tokens[t].username) by {
            assert(old(db)@.access_tokens.contains_key(t));
        }
        assert forall|other: u128| #[trigger] db@.mods.contains_key(other) implies
            db@.accounts.contains_key(db@.mods[other].author) by {
            if other != id {
                assert(old(db)@.mods.contains_key(other));
            }
        }
    }
    Ok(())
}

/// What the statement that changes the mod `id` returns: it fails only where
/// the version cannot grow.
pub open spec fn change_mod_result(s: DatabaseView, id: u128) -> Result<(), StoreError> {
    if s.mods.contains_key(id) && s.mods[id].version >= i32::MAX {
        Err(StoreError::NumericOverflow)
    } else {
        Ok(())
    }
}

/// The store after the statement that changes the mod `id`.
pub open spec fn after_change_mod(
    s: DatabaseView,
    id: u128,
    file_data: Option<Seq<u8>>,
    description: Option<Seq<char>>,
) -> DatabaseView {
    DatabaseView { mods: mods_after_change(s.mods, id, file_data, description), ..s }
}

/// Changes the mod `id`: replaces the given parts and sets the version to the
/// version plus one, in one step, so that no change is lost.
pub fn change_mod(
    db: &mut Database,
    id: u128,
    file_data: Option<Vec<u8>>,
    description: Option<String>,
) -> (r: Result<(), StoreError>)
    requires
        old(db).wf(),
    ensures
        final(db).wf(),
        r == change_mod_result(old(db)@, id),
        final(db)@ == after_change_mod(old(db)@, id, opt_bytes(file_data), opt_text(description)),
{
    let changed = db.mods.change(id, file_data, description);
    proof {
        assert forall|t: Seq<char>| #[trigger] db@.access_tokens.contains_key(t) implies
            db@.accounts.contains_key(db@.access_tokens[t].username) by {
            assert(old(db)@.access_tokens.contains_key(t));
        }
        assert forall|other: u128| #[trigger] db@.mods.contains_key(other) implies
            db@.accounts.contains_key(db@.mods[other].author) by {
            assert(old(db)@.mods.contains_key(other));
        }
    }
    if changed {
        Ok(())
    } else {
        Err(StoreError::NumericOverflow)
    }
}

/// The store after the statement that deletes the mod `id`.
pub open spec fn after_remove_mod(s: DatabaseView, id: u128) -> DatabaseView {
    DatabaseView { mods: s.mods.remove(id), ..s }
}

/// Deletes the mod `id`, if it is stored.
pub fn remove_mod(db: &mut Database, id: u128) -> (r: Result<(), StoreError>)
    requires
        old(db).wf(),
    ensures
        final(db).wf(),
        r is Ok,
        final(db)@ == after_remove_mod(old(db)@, id),
{
    db.mods.remove(id);
    proof {
        assert forall|t: Seq<char>| #[trigger] db@.access_tokens.contains_key(t) implies
            db@.accounts.contains_key(db@.access_tokens[t].username) by {
            assert(old(db)@.access_tokens.contains_key(t));
        }
        assert forall|other: u128| #[trigger] db@.mods.contains_key(other) implies
            db@.accounts.contains_key(db@.mods[other].author) by {
            assert(old(db)@.mods.contains_key(other));
        }
    }
    Ok(())
}

/// How many random bytes the id of a new mod is made of.
pub const MOD_ID_BYTES: usize = 16;

/// The number that bytes stand for, the first byte counting most.
pub open spec fn big_endian(bytes: Seq<u8>) -> nat
    decreases bytes.len(),
{
    if bytes.len() == 0 {
        0
    } else {
        big_endian(bytes.drop_last()) * 256 + bytes.last() as nat
    }
}

/// Sixteen bytes marked as a random UUID: the high half of the seventh byte
/// tells the version, which is 4, and the two high bits of the ninth the
/// variant.
pub open spec fn marked_random(bytes: Seq<u8>) -> Seq<u8> {
    bytes.update(6, (bytes[6] & 0x0f) | 0x40).update(8, (bytes[8] & 0x3f) | 0x80)
}

/// The random UUID that is made of sixteen random bytes, as a number.
pub open spec fn uuid_of_random_bytes(bytes: Seq<u8>) -> u128 {
    big_endian(marked_random(bytes)) as u128
}

/// `Builder::from_random_bytes` from the crate uuid, followed by
/// `Builder::into_uuid` and `Uuid::as_u128`: the bytes with the marks of
/// version and variant set, read as one number, the first byte counting
/// most. Copying the bytes into an array panics where they are not sixteen,
/// which the `requires` excludes.
#[verifier::external_body]
pub(crate) fn uuid_from_random_bytes(bytes: &Vec<u8>) -> (id: u128)
    requires
        bytes@.len() == MOD_ID_BYTES,
    ensures
        id == uuid_of_random_bytes(bytes@),
{
    let mut raw = [0u8; 16];
    raw.copy_from_slice(bytes);
    uuid::Builder::from_random_bytes(raw).into_uuid().as_u128()
}

/// The id that is made of what the random source gave, if it gave the
/// sixteen bytes of an id.
pub open spec fn drawn_mod_id(drawn: Option<Seq<u8>>) -> Option<u128> {
    match drawn {
        Some(bytes) => if bytes.len() == MOD_ID_BYTES {
            Some(uuid_of_random_bytes(bytes))
        } else {
            None
        },
        None => None,
    }
}

/// Makes the id of a new mod of what the random source gave.
pub fn mod_id_of(drawn: &Option<Vec<u8>>) -> (id: Option<u128>)
    ensures
        id == drawn_mod_id(opt_bytes(*drawn)),
{
    match drawn {
        Some(bytes) => {
            if bytes.len() == MOD_ID_BYTES {
                Some(uuid_from_random_bytes(bytes))
            } else {
                None
            }
        },
        None => None,
    }
}

/// The parts of an upload that validation hands on: the sanitised texts and
/// the game version as numbers.
#[derive(Debug)]
pub struct ValidUpload {
    pub title: String,
    pub description: String,
    pub game_version_major: i32,
    pub game_version_minor: i32,
}

/// A game that mods can be uploaded for.
pub open spec fn is_known_game(game_name: Seq<char>) -> bool {
    game_name == "Undertale"@ || game_name == "Deltarune"@
}

/// Why an upload is refused, if it is: the first of the title, the
/// description, the game name and the game version that is not in order. A
/// title must sanitise to 8 to 256 bytes without line breaks, a description
/// to a text that is not empty.
pub open spec fn upload_validation_failure(f: UploadFormView) -> Option<Seq<char>> {
    let title = sanitized(f.title);
    if title is None {
        Some("Invalid title"@)
    } else if encode_utf8(title->0).len() > 256 || encode_utf8(title->0).len() < 8 {
        Some("Title should be 8-256 chars long"@)
    } else if has_substring(title->0, "\n"@) || has_substring(title->0, "\r"@) {
        Some("Title must not contain newlines"@)
    } else if sanitized(f.description) is None {
        Some("Invalid description"@)
    } else if !is_known_game(f.game_name) {
        Some("Invalid or unknown game name"@)
    } else if parsed_game_version(f.game_version) is None {
        Some("Invalid game version"@)
    } else {
        None
    }
}

/// Checks the texts of an upload and hands on their sanitised forms.
pub fn validate_upload(form: &UploadForm) -> (r: Result<ValidUpload, ApiError>)
    ensures
        r is Err <==> upload_validation_failure(form@) is Some,
        r is Err ==> r->Err_0@ == client_error(
            ErrorKind::ClientInput,
            upload_validation_failure(form@)->0,
        ),
        r is Ok ==> {
            let v = r->Ok_0;
            &&& v.title@ == sanitized(form@.title)->0
            &&& v.description@ == sanitized(form@.description)->0
            &&& (v.game_version_major, v.game_version_minor) == parsed_game_version(
                form@.game_version,
            )->0
        },
{
    let title = match sanitize_string(form.title.as_str()) {
        Some(title) => title,
        None => {
            return Err(respond_err(ErrorKind::ClientInput, "Invalid title"));
        },
    };
    let title_bytes = title.as_str().as_bytes().len();
    if title_bytes > 256 || title_bytes < 8 {
        return Err(respond_err(ErrorKind::ClientInput, "Title should be 8-256 chars long"));
    }
    if contains(title.as_str(), "\n") || contains(title.as_str(), "\r") {
        return Err(respond_err(ErrorKind::ClientInput, "Title must not contain newlines"));
    }
    let description = match sanitize_string(form.description.as_str()) {
        Some(description) => description,
        None => {
            return Err(respond_err(ErrorKind::ClientInput, "Invalid description"));
        },
    };
    if !(str_eq(form.game_name.as_str(), "Undertale") || str_eq(
        form.game_name.as_str(),
        "Deltarune",
    )) {
        return Err(respond_err(ErrorKind::ClientInput, "Invalid or unknown game name"));
    }
    let (game_version_major, game_version_minor) = match parse_game_version(
        form.game_version.as_str(),
    ) {
        Some(version) => version,
        None => {
            return Err(respond_err(ErrorKind::ClientInput, "Invalid game version"));
        },
    };
    Ok(ValidUpload { title, description, game_version_major, game_version_minor })
}

/// The mod that a valid upload stores under the id `id`.
pub open spec fn uploaded_mod(f: UploadFormView, id: u128) -> ModView {
    let game_version = parsed_game_version(f.game_version)->0;
    ModView {
        id,
        author: f.username,
        title: sanitized(f.title)->0,
        description: sanitized(f.description)->0,
        game_name: f.game_name,
        game_version_major: game_version.0,
        game_version_minor: game_version.1,
        file_data: f.file_data,
        version: INITIAL_MOD_VERSION as int,
    }
}

/// The answer to an upload under the id `id` on a store in state `s`.
pub open spec fn upload_answer(s: DatabaseView, f: UploadFormView, id: u128) -> ApiResponseView {
    if !is_credential(s.access_tokens, f.username, f.access_token) {
        not_authenticated()
    } else if upload_validation_failure(f) is Some {
        Err(client_error(ErrorKind::ClientInput, upload_validation_failure(f)->0))
    } else if insert_mod_result(s, uploaded_mod(f, id)) is Err {
        Err(server_error(ErrorKind::InternalFailure, "Could not create mod"@))
    } else {
        Ok(None)
    }
}

/// The store after an upload under the id `id`.
pub open spec fn after_upload(s: DatabaseView, f: UploadFormView, id: u128) -> DatabaseView {
    if upload_answer(s, f, id) is Ok {
        after_insert_mod(s, uploaded_mod(f, id))
    } else {
        s
    }
}

/// The record of a valid upload under the id `id`: the caller is the author,
/// and the version is the initial one.
pub fn new_mod_record(form: &UploadForm, valid: ValidUpload, id: u128) -> (record: ModRecord)
    ensures
        record@ == (ModView {
            id,
            author: form@.username,
            title: valid.title@,
            description: valid.description@,
            game_name: form@.game_name,
            game_version_major: valid.game_version_major,
            game_version_minor: valid.game_version_minor,
            file_data: form@.file_data,
            version: INITIAL_MOD_VERSION as int,
        }),
{
    ModRecord {
        id,
        author: form.username.clone(),
        title: valid.title,
        description: valid.description,
        game_name: form.game_name.clone(),
        game_version_major: valid.game_version_major,
        game_version_minor: valid.game_version_minor,
        file_data: slice_to_vec(form.file_data.as_slice()),
        version: INITIAL_MOD_VERSION,
    }
}

/// Whether `step` is how an upload under the id `id` begins: it asks the
/// store whether the credential is stored, and keeps what the check of the
/// texts gave for the time after that.
pub open spec fn began_upload(f: UploadFormView, id: u128, step: Step) -> bool {
    &&& step matches Step::Ask(
        Action::Store(Statement::CredentialExists { username, access_token }),
        Pending::AuthenticatingUpload { upload },
    )
    &&& username@ == f.username
    &&& access_token@ == f.access_token
    &&& upload_view(upload) == match upload_validation_failure(f) {
        Some(message) => Err(client_error(ErrorKind::ClientInput, message)),
        None => Ok(uploaded_mod(f, id)),
    }
}

/// Begins an upload under the id `id`.
pub fn begin_upload_form(form: &UploadForm, id: u128) -> (step: Step)
    ensures
        began_upload(form@, id, step),
{
    let upload = match validate_upload(form) {
        Err(e) => Err(e),
        Ok(valid) => Ok(new_mod_record(form, valid, id)),
    };
    Step::Ask(
        Action::Store(
            Statement::CredentialExists {
                username: form.username.clone(),
                access_token: form.access_token.clone(),
            },
        ),
        Pending::AuthenticatingUpload { upload },
    )
}

/// Stores an uploaded mod under the id `id`, with the caller as its author:
/// the credential is checked first, then the texts; the mod starts at the
/// initial version.
pub fn upload_mod(db: &mut Database, form: &UploadForm, id: u128) -> (r: ApiResponse)
    requires
        old(db).wf(),
    ensures
        final(db).wf(),
        response_view(r) == upload_answer(old(db)@, form@, id),
        final(db)@ == after_upload(old(db)@, form@, id),
{
    let (statement, pending) = match statement_of(begin_upload_form(form, id)) {
        Err(answer) => {
            return answer;
        },
        Ok(asked) => asked,
    };
    let returned = perform(db, statement);
    let (statement, pending) = match statement_of(advance(pending, returned)) {
        Err(answer) => {
            return answer;
        },
        Ok(asked) => asked,
    };
    let returned = perform(db, statement);
    answer_of(advance(pending, returned))
}

/// What is told where the content type of a request is not
/// multipart/form-data.
pub open spec fn unsupported_content_type(content_type: Seq<char>) -> ApiErrorView {
    client_error(ErrorKind::ClientInput, "Unsupported content type "@ + content_type)
}

/// The answer to an upload request, from the raw form on.
pub open spec fn api_upload_answer(
    s: DatabaseView,
    is_form_data: bool,
    content_type: Seq<char>,
    form: FormData,
    id: u128,
) -> ApiResponseView {
    if !is_form_data {
        Err(unsupported_content_type(content_type))
    } else if upload_form_failure(form) is Some {
        Err(client_error(ErrorKind::ClientInput, upload_form_failure(form)->0))
    } else {
        upload_answer(s, upload_form_of(form), id)
    }
}

/// The store after an upload request.
pub open spec fn after_api_upload(
    s: DatabaseView,
    is_form_data: bool,
    form: FormData,
    id: u128,
) -> DatabaseView {
    if !is_form_data || upload_form_failure(form) is Some {
        s
    } else {
        after_upload(s, upload_form_of(form), id)
    }
}

/// The answer to a request whose content type is not multipart/form-data.
pub fn unsupported_content_type_response(content_type: &str) -> (e: ApiError)
    ensures
        e@ == unsupported_content_type(content_type@),
{
    let message = concat3("Unsupported content type ", content_type, "");
    assert(message@ =~= "Unsupported content type "@ + content_type@) by {
        reveal_strlit("");
    }
    respond_err(ErrorKind::ClientInput, message.as_str())
}

/// Whether `step` is how an upload request begins, from the raw form on: a
/// content type that is not multipart/form-data and a form that is no upload
/// are answered at once.
pub open spec fn began_api_upload(
    is_form_data: bool,
    content_type: Seq<char>,
    form: FormData,
    id: u128,
    step: Step,
) -> bool {
    if !is_form_data {
        answers(step, Err(unsupported_content_type(content_type)))
    } else if upload_form_failure(form) is Some {
        answers(step, Err(client_error(ErrorKind::ClientInput, upload_form_failure(form)->0)))
    } else {
        began_upload(upload_form_of(form), id, step)
    }
}

/// Begins an upload request whose new mod gets the id `id`.
pub fn begin_upload(
    content_type_is_form_data: bool,
    content_type: &str,
    form_data: &FormData,
    id: u128,
) -> (step: Step)
    ensures
        began_api_upload(content_type_is_form_data, content_type@, *form_data, id, step),
{
    if !content_type_is_form_data {
        return Step::Answer(Err(unsupported_content_type_response(content_type)));
    }
    match parse_upload_form(form_data) {
        Err(e) => Step::Answer(Err(e)),
        Ok(form) => begin_upload_form(&form, id),
    }
}

/// What is told where no id could be drawn for a new mod.
pub open spec fn no_mod_id() -> ApiResponseView {
    Err(server_error(ErrorKind::InternalFailure, "Could not generate mod id"@))
}

fn no_mod_id_response() -> (r: ApiResponse)
    ensures
        response_view(r) == no_mod_id(),
{
    Err(respond_err(ErrorKind::InternalFailure, "Could not generate mod id"))
}

/// Whether `step` is how an upload request begins whose new mod gets the id
/// that is made of what the random source gave: where it gave nothing, the
/// request is answered at once with an internal error.
pub open spec fn started_upload(
    is_form_data: bool,
    content_type: Seq<char>,
    form: FormData,
    drawn: Option<Seq<u8>>,
    step: Step,
) -> bool {
    &&& drawn is Some ==> drawn->0.len() == MOD_ID_BYTES
    &&& match drawn_mod_id(drawn) {
        Some(id) => began_api_upload(is_form_data, content_type, form, id, step),
        None => answers(step, no_mod_id()),
    }
}

/// Begins an upload request whose new mod gets a random UUID, made of
/// sixteen bytes from the operating system.
pub fn start_upload(
    content_type_is_form_data: bool,
    content_type: &str,
    form_data: &FormData,
) -> (step: Step)
    ensures
        exists|drawn: Option<Seq<u8>>|
            started_upload(content_type_is_form_data, content_type@, *form_data, drawn, step),
{
    let drawn = os_random_bytes(MOD_ID_BYTES);
    let step = match mod_id_of(&drawn) {
        Some(id) => begin_upload(content_type_is_form_data, content_type, form_data, id),
        None => Step::Answer(no_mod_id_response()),
    };
    assert(started_upload(
        content_type_is_form_data,
        content_type@,
        *form_data,
        opt_bytes(drawn),
        step,
    ));
    step
}

/// Handles an upload request whose new mod gets the id `id`. The content
/// type must be multipart/form-data and every field present before the
/// credential is looked at.
pub fn api_upload_mod_with(
    db: &mut Database,
    content_type_is_form_data: bool,
    content_type: &str,
    form_data: &FormData,
    id: u128,
) -> (r: ApiResponse)
    requires
        old(db).wf(),
    ensures
        final(db).wf(),
        response_view(r) == api_upload_answer(
            old(db)@,
            content_type_is_form_data,
            content_type@,
            *form_data,
            id,
        ),
        final(db)@ == after_api_upload(old(db)@, content_type_is_form_data, *form_data, id),
{
    if !content_type_is_form_data {
        return Err(unsupported_content_type_response(content_type));
    }
    let form = match parse_upload_form(form_data) {
        Err(e) => {
            return Err(e);
        },
        Ok(form) => form,
    };
    upload_mod(db, &form, id)
}

/// The call handled the upload with the id that is made of what the random
/// source gave: where it gave nothing, the answer is an internal error and
/// the store is as it was.
pub open spec fn uploaded_with(
    before: DatabaseView,
    after: DatabaseView,
    is_form_data: bool,
    content_type: Seq<char>,
    form: FormData,
    drawn: Option<Seq<u8>>,
    answer: ApiResponseView,
) -> bool {
    &&& drawn is Some ==> drawn->0.len() == MOD_ID_BYTES
    &&& match drawn_mod_id(drawn) {
        Some(id) => {
            &&& answer == api_upload_answer(before, is_form_data, content_type, form, id)
            &&& after == after_api_upload(before, is_form_data, form, id)
        },
        None => answer == no_mod_id() && after == before,
    }
}

/// Handles an upload request; the new mod gets a random UUID, made of
/// sixteen bytes from the operating system.
pub fn api_upload_mod(
    db: &mut Database,
    content_type_is_form_data: bool,
    content_type: &str,
    form_data: &FormData,
) -> (r: ApiResponse)
    requires
        old(db).wf(),
    ensures
        final(db).wf(),
        exists|drawn: Option<Seq<u8>>|
            uploaded_with(
                old(db)@,
                final(db)@,
                content_type_is_form_data,
                content_type@,
                *form_data,
                drawn,
                response_view(r),
            ),
{
    let drawn = os_random_bytes(MOD_ID_BYTES);
    let r = match mod_id_of(&drawn) {
        Some(id) => api_upload_mod_with(db, content_type_is_form_data, content_type, form_data, id),
        None => no_mod_id_response(),
    };
    assert(uploaded_with(
        old(db)@,
        db@,
        content_type_is_form_data,
        content_type@,
        *form_data,
        opt_bytes(drawn),
        response_view(r),
    ));
    r
}

/// The description that a change stores: the sanitised form of the one it
/// brings.
pub open spec fn update_description(f: UpdateFormView) -> Option<Seq<char>> {
    match f.description {
        Some(text) => sanitized(text),
        None => None,
    }
}

/// Why a change that its author may make is still refused, if it is: it
/// replaces nothing, or its description is empty once sanitised.
pub open spec fn update_content_failure(f: UpdateFormView) -> Option<Seq<char>> {
    if f.file_data is None && f.description is None {
        Some("Nothing to update"@)
    } else if f.description is Some && sanitized(f.description->0) is None {
        Some("Invalid description"@)
    } else {
        None
    }
}

/// Checks what a change brings, and hands on the description to store.
pub fn prepare_update(form: &UpdateForm) -> (r: Result<Option<String>, ApiError>)
    ensures
        r is Err <==> update_content_failure(form@) is Some,
        r is Err ==> r->Err_0@ == client_error(
            ErrorKind::ClientInput,
            update_content_failure(form@)->0,
        ),
        r is Ok ==> opt_text(r->Ok_0) == update_description(form@),
{
    if form.file_data.is_none() && form.description.is_none() {
        return Err(respond_err(ErrorKind::ClientInput, "Nothing to update"));
    }
    match form.description {
        Some(text) => match sanitize_string(text.as_str()) {
            Some(clean) => Ok(Some(clean)),
            None => Err(respond_err(ErrorKind::ClientInput, "Invalid description")),
        },
        None => Ok(None),
    }
}

/// Why a change is refused, if it is: the credential is checked first, then
/// the ownership, then that there is something to change, then the
/// description.
pub open spec fn update_rejection(s: DatabaseView, f: UpdateFormView) -> Option<ApiResponseView> {
    if !is_credential(s.access_tokens, f.username, f.access_token) {
        Some(not_authenticated())
    } else if authorization(s, f.mod_id, f.username) != Authorization::Authorized {
        Some(forbidden())
    } else if update_content_failure(f) is Some {
        Some(Err(client_error(ErrorKind::ClientInput, update_content_failure(f)->0)))
    } else {
        None
    }
}

/// The answer to a change on a store in state `s`.
pub open spec fn update_answer(s: DatabaseView, f: UpdateFormView) -> ApiResponseView {
    if update_rejection(s, f) is Some {
        update_rejection(s, f)->0
    } else if change_mod_result(s, f.mod_id) is Err {
        Err(server_error(ErrorKind::InternalFailure, "Could not update mod"@))
    } else {
        Ok(None)
    }
}

/// The store after a change.
pub open spec fn after_update(s: DatabaseView, f: UpdateFormView) -> DatabaseView {
    if update_rejection(s, f) is Some {
        s
    } else {
        after_change_mod(s, f.mod_id, f.file_data, update_description(f))
    }
}

/// Whether `step` is how a change begins: it asks the store whether the
/// credential is stored, and keeps what the check of the content gave for
/// the time after the checks of credential and ownership.
pub open spec fn began_update(f: UpdateFormView, step: Step) -> bool {
    &&& step matches Step::Ask(
        Action::Store(Statement::CredentialExists { username, access_token }),
        Pending::AuthenticatingChange { username: kept, mod_id, change },
    )
    &&& username@ == f.username
    &&& access_token@ == f.access_token
    &&& kept@ == f.username
    &&& mod_id == f.mod_id
    &&& change_view(change) == match update_content_failure(f) {
        Some(message) => Err(client_error(ErrorKind::ClientInput, message)),
        None => Ok((f.file_data, update_description(f))),
    }
}

/// Begins a change.
pub fn begin_update_form(form: &UpdateForm) -> (step: Step)
    ensures
        began_update(form@, step),
{
    let change = match prepare_update(form) {
        Err(e) => Err(e),
        Ok(description) => Ok(
            PreparedChange {
                file_data: match form.file_data {
                    Some(bytes) => Some(slice_to_vec(bytes.as_slice())),
                    None => None,
                },
                description,
            },
        ),
    };
    Step::Ask(
        Action::Store(
            Statement::CredentialExists {
                username: form.username.clone(),
                access_token: form.access_token.clone(),
            },
        ),
        Pending::AuthenticatingChange {
            username: form.username.clone(),
            mod_id: form.mod_id,
            change,
        },
    )
}

/// Changes a mod on behalf of its author: replaces the file, the description
/// or both, and raises the version by one in the same step.
pub fn update_mod(db: &mut Database, form: &UpdateForm) -> (r: ApiResponse)
    requires
        old(db).wf(),
    ensures
        final(db).wf(),
        response_view(r) == update_answer(old(db)@, form@),
        final(db)@ == after_update(old(db)@, form@),
{
    let (statement, pending) = match statement_of(begin_update_form(form)) {
        Err(answer) => {
            return answer;
        },
        Ok(asked) => asked,
    };
    let returned = perform(db, statement);
    let (statement, pending) = match statement_of(advance(pending, returned)) {
        Err(answer) => {
            return answer;
        },
        Ok(asked) => asked,
    };
    let returned = perform(db, statement);
    let (statement, pending) = match statement_of(advance(pending, returned)) {
        Err(answer) => {
            return answer;
        },
        Ok(asked) => asked,
    };
    let returned = perform(db, statement);
    answer_of(advance(pending, returned))
}

/// The answer to a change request, from the raw form on.
pub open spec fn api_update_answer(
    s: DatabaseView,
    is_form_data: bool,
    content_type: Seq<char>,
    form: FormData,
) -> ApiResponseView {
    if !is_form_data {
        Err(unsupported_content_type(content_type))
    } else if update_form_failure(form) is Some {
        Err(client_error(ErrorKind::ClientInput, update_form_failure(form)->0))
    } else {
        update_answer(s, update_form_of(form))
    }
}

/// The store after a change request.
pub open spec fn after_api_update(
    s: DatabaseView,
    is_form_data: bool,
    form: FormData,
) -> DatabaseView {
    if !is_form_data || update_form_failure(form) is Some {
        s
    } else {
        after_update(s, update_form_of(form))
    }
}

/// Whether `step` is how a change request begins, from the raw form on.
pub open spec fn began_api_update(
    is_form_data: bool,
    content_type: Seq<char>,
    form: FormData,
    step: Step,
) -> bool {
    if !is_form_data {
        answers(step, Err(unsupported_content_type(content_type)))
    } else if update_form_failure(form) is Some {
        answers(step, Err(client_error(ErrorKind::ClientInput, update_form_failure(form)->0)))
    } else {
        began_update(update_form_of(form), step)
    }
}

/// Begins a change request.
pub fn begin_update(
    content_type_is_form_data: bool,
    content_type: &str,
    form_data: &FormData,
) -> (step: Step)
    ensures
        began_api_update(content_type_is_form_data, content_type@, *form_data, step),
{
    if !content_type_is_form_data {
        return Step::Answer(Err(unsupported_content_type_response(content_type)));
    }
    match parse_update_form(form_data) {
        Err(e) => Step::Answer(Err(e)),
        Ok(form) => begin_update_form(&form),
    }
}

/// Handles a change request. The content type must be multipart/form-data
/// and the form well made before the credential is looked at.
pub fn api_update_mod(
    db: &mut Database,
    content_type_is_form_data: bool,
    content_type: &str,
    form_data: &FormData,
) -> (r: ApiResponse)
    requires
        old(db).wf(),
    ensures
        final(db).wf(),
        response_view(r) == api_update_answer(
            old(db)@,
            content_type_is_form_data,
            content_type@,
            *form_data,
        ),
        final(db)@ == after_api_update(old(db)@, content_type_is_form_data, *form_data),
{
    if !content_type_is_form_data {
        return Err(unsupported_content_type_response(content_type));
    }
    let form = match parse_update_form(form_data) {
        Err(e) => {
            return Err(e);
        },
        Ok(form) => form,
    };
    update_mod(db, &form)
}

/// The answer to a deletion on a store in state `s`.
pub open spec fn delete_answer(s: DatabaseView, f: DeleteFormView) -> ApiResponseView {
    if !is_credential(s.access_tokens, f.username, f.access_token) {
        not_authenticated()
    } else {
        mod_authorization(s, f.mod_id, f.username)
    }
}

/// The store after a deletion.
pub open spec fn after_delete(s: DatabaseView, f: DeleteFormView) -> DatabaseView {
    if delete_answer(s, f) is Ok {
        after_remove_mod(s, f.mod_id)
    } else {
        s
    }
}

/// Whether `step` is how a deletion begins: it asks the store whether the
/// credential is stored.
pub open spec fn began_delete(f: DeleteFormView, step: Step) -> bool {
    &&& step matches Step::Ask(
        Action::Store(Statement::CredentialExists { username, access_token }),
        Pending::AuthenticatingDeletion { username: kept, mod_id },
    )
    &&& username@ == f.username
    &&& access_token@ == f.access_token
    &&& kept@ == f.username
    &&& mod_id == f.mod_id
}

/// Begins a deletion.
pub fn begin_delete_form(form: &DeleteForm) -> (step: Step)
    ensures
        began_delete(form@, step),
{
    Step::Ask(
        Action::Store(
            Statement::CredentialExists {
                username: form.username.clone(),
                access_token: form.access_token.clone(),
            },
        ),
        Pending::AuthenticatingDeletion { username: form.username.clone(), mod_id: form.mod_id },
    )
}

/// Deletes a mod on behalf of its author.
pub fn delete_mod(db: &mut Database, form: &DeleteForm) -> (r: ApiResponse)
    requires
        old(db).wf(),
    ensures
        final(db).wf(),
        response_view(r) == delete_answer(old(db)@, form@),
        final(db)@ == after_delete(old(db)@, form@),
{
    let (statement, pending) = match statement_of(begin_delete_form(form)) {
        Err(answer) => {
            return answer;
        },
        Ok(asked) => asked,
    };
    let returned = perform(db, statement);
    let (statement, pending) = match statement_of(advance(pending, returned)) {
        Err(answer) => {
            return answer;
        },
        Ok(asked) => asked,
    };
    let returned = perform(db, statement);
    let (statement, pending) = match statement_of(advance(pending, returned)) {
        Err(answer) => {
            return answer;
        },
        Ok(asked) => asked,
    };
    let returned = perform(db, statement);
    answer_of(advance(pending, returned))
}

/// The answer to a deletion request, from the raw form on.
pub open spec fn api_delete_answer(s: DatabaseView, form: FormData) -> ApiResponseView {
    if delete_form_failure(form) is Some {
        Err(client_error(ErrorKind::ClientInput, delete_form_failure(form)->0))
    } else {
        delete_answer(s, delete_form_of(form))
    }
}

/// The store after a deletion request.
pub open spec fn after_api_delete(s: DatabaseView, form: FormData) -> DatabaseView {
    if delete_form_failure(form) is Some {
        s
    } else {
        after_delete(s, delete_form_of(form))
    }
}

/// Whether `step` is how a deletion request begins, from the raw form on.
pub open spec fn began_api_delete(form: FormData, step: Step) -> bool {
    if delete_form_failure(form) is Some {
        answers(step, Err(client_error(ErrorKind::ClientInput, delete_form_failure(form)->0)))
    } else {
        began_delete(delete_form_of(form), step)
    }
}

/// Begins a deletion request.
pub fn begin_delete(form_data: &FormData) -> (step: Step)
    ensures
        began_api_delete(*form_data, step),
{
    match parse_delete_form(form_data) {
        Err(e) => Step::Answer(Err(e)),
        Ok(form) => begin_delete_form(&form),
    }
}

/// Handles a deletion request.
pub fn api_delete_mod(db: &mut Database, form_data: &FormData) -> (r: ApiResponse)
    requires
        old(db).wf(),
    ensures
        final(db).wf(),
        response_view(r) == api_delete_answer(old(db)@, *form_data),
        final(db)@ == after_api_delete(old(db)@, *form_data),
{
    let form = match parse_delete_form(form_data) {
        Err(e) => {
            return Err(e);
        },
        Ok(form) => form,
    };
    delete_mod(db, &form)
}

} // verus!
