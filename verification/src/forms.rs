//! Multipart forms: their fields as they were sent, and the typed requests
//! that they are read as, once and at the boundary.

use crate::response::{client_error, respond_err, ApiError, ErrorKind};
use crate::text::{concat3, str_eq};
use vstd::prelude::*;

verus! {

/// The most bytes that an uploaded file may have: 16 MiB.
pub const MAX_FILE_SIZE: u64 = 16 * 1024 * 1024;

/// A text field of a multipart form.
#[derive(Debug)]
pub struct TextField {
    pub name: String,
    pub text: String,
}

/// A field of raw bytes of a multipart form.
#[derive(Debug)]
pub struct RawField {
    pub name: String,
    pub raw: Vec<u8>,
}

/// A multipart form as it was sent: its fields in order. A name may occur
/// more than once; the first occurrence counts.
#[derive(Debug)]
pub struct FormData {
    pub texts: Vec<TextField>,
    pub raw: Vec<RawField>,
}

/// The text of the first text field of that name.
pub open spec fn first_text(fields: Seq<TextField>, name: Seq<char>) -> Option<Seq<char>>
    decreases fields.len(),
{
    if fields.len() == 0 {
        None
    } else if fields[0].name@ == name {
        Some(fields[0].text@)
    } else {
        first_text(fields.drop_first(), name)
    }
}

/// The bytes of the first raw field of that name.
pub open spec fn first_raw(fields: Seq<RawField>, name: Seq<char>) -> Option<Seq<u8>>
    decreases fields.len(),
{
    if fields.len() == 0 {
        None
    } else if fields[0].name@ == name {
        Some(fields[0].raw@)
    } else {
        first_raw(fields.drop_first(), name)
    }
}

/// What is told where a required text field is missing.
pub open spec fn missing_text_message(field_name: Seq<char>) -> Seq<char> {
    "Text field `"@ + field_name + "` missing from request form!"@
}

/// What is told where a required raw field is missing.
pub open spec fn missing_raw_message(field_name: Seq<char>) -> Seq<char> {
    "Raw field `"@ + field_name + "` missing from request form!"@
}

/// The first text field of that name, if the form has one.
pub fn get_text_form_field_opt<'a>(form_data: &'a FormData, field_name: &str) -> (r: Option<
    &'a String,
>)
    ensures
        r is Some <==> first_text(form_data.texts@, field_name@) is Some,
        r is Some ==> r->0@ == first_text(form_data.texts@, field_name@)->0,
{
    let mut i: usize = 0;
    assert(form_data.texts@.skip(0) == form_data.texts@);
    while i < form_data.texts.len()
        invariant
            i <= form_data.texts@.len(),
            first_text(form_data.texts@, field_name@) == first_text(
                form_data.texts@.skip(i as int),
                field_name@,
            ),
        decreases form_data.texts@.len() - i,
    {
        let ghost rest = form_data.texts@.skip(i as int);
        assert(rest[0] == form_data.texts@[i as int]);
        assert(rest.drop_first() == form_data.texts@.skip(i + 1));
        if str_eq(form_data.texts[i].name.as_str(), field_name) {
            return Some(&form_data.texts[i].text);
        }
        i += 1;
    }
    None
}

/// The first text field of that name; its absence is an error.
pub fn get_text_form_field<'a>(form_data: &'a FormData, field_name: &str) -> (r: Result<
    &'a String,
    String,
>)
    ensures
        r is Ok <==> first_text(form_data.texts@, field_name@) is Some,
        r is Ok ==> r->Ok_0@ == first_text(form_data.texts@, field_name@)->0,
        r is Err ==> r->Err_0@ == missing_text_message(field_name@),
{
    match get_text_form_field_opt(form_data, field_name) {
        Some(text) => Ok(text),
        None => Err(concat3("Text field `", field_name, "` missing from request form!")),
    }
}

/// The first raw field of that name, if the form has one.
pub fn get_bytes_form_field_opt<'a>(form_data: &'a FormData, field_name: &str) -> (r: Option<
    &'a Vec<u8>,
>)
    ensures
        r is Some <==> first_raw(form_data.raw@, field_name@) is Some,
        r is Some ==> r->0@ == first_raw(form_data.raw@, field_name@)->0,
{
    let mut i: usize = 0;
    assert(form_data.raw@.skip(0) == form_data.raw@);
    while i < form_data.raw.len()
        invariant
            i <= form_data.raw@.len(),
            first_raw(form_data.raw@, field_name@) == first_raw(
                form_data.raw@.skip(i as int),
                field_name@,
            ),
        decreases form_data.raw@.len() - i,
    {
        let ghost rest = form_data.raw@.skip(i as int);
        assert(rest[0] == form_data.raw@[i as int]);
        assert(rest.drop_first() == form_data.raw@.skip(i + 1));
        if str_eq(form_data.raw[i].name.as_str(), field_name) {
            return Some(&form_data.raw[i].raw);
        }
        i += 1;
    }
    None
}

/// The first raw field of that name; its absence is an error.
pub fn get_bytes_form_field<'a>(form_data: &'a FormData, field_name: &str) -> (r: Result<
    &'a Vec<u8>,
    String,
>)
    ensures
        r is Ok <==> first_raw(form_data.raw@, field_name@) is Some,
        r is Ok ==> r->Ok_0@ == first_raw(form_data.raw@, field_name@)->0,
        r is Err ==> r->Err_0@ == missing_raw_message(field_name@),
{
    match get_bytes_form_field_opt(form_data, field_name) {
        Some(raw) => Ok(raw),
        None => Err(concat3("Raw field `", field_name, "` missing from request form!")),
    }
}

/// The number that `Uuid::parse_str` of the crate uuid reads from a text, as
/// `Uuid::as_u128` gives it; nothing where the crate refuses the text.
pub uninterp spec fn uuid_of(text: Seq<char>) -> Option<u128>;

/// `Uuid::parse_str` from the crate uuid, followed by `Uuid::as_u128`. The
/// result is named `uuid_of`.
#[verifier::external_body]
pub(crate) fn parse_uuid(text: &str) -> (r: Option<u128>)
    ensures
        r == uuid_of(text@),
{
    match uuid::Uuid::parse_str(text) {
        Ok(id) => Some(id.as_u128()),
        Err(_) => None,
    }
}

/// The fields of an upload, as the form held them.
#[derive(Debug)]
pub struct UploadForm<'a> {
    pub username: &'a String,
    pub access_token: &'a String,
    pub file_data: &'a Vec<u8>,
    pub title: &'a String,
    pub description: &'a String,
    pub game_name: &'a String,
    pub game_version: &'a String,
}

/// The fields of an upload as mathematical values.
pub struct UploadFormView {
    pub username: Seq<char>,
    pub access_token: Seq<char>,
    pub file_data: Seq<u8>,
    pub title: Seq<char>,
    pub description: Seq<char>,
    pub game_name: Seq<char>,
    pub game_version: Seq<char>,
}

impl<'a> View for UploadForm<'a> {
    type V = UploadFormView;

    open spec fn view(&self) -> UploadFormView {
        UploadFormView {
            username: self.username@,
            access_token: self.access_token@,
            file_data: self.file_data@,
            title: self.title@,
            description: self.description@,
            game_name: self.game_name@,
            game_version: self.game_version@,
        }
    }
}

/// The fields of a change: the mod, and the parts to replace.
#[derive(Debug)]
pub struct UpdateForm<'a> {
    pub username: &'a String,
    pub access_token: &'a String,
    pub mod_id: u128,
    pub file_data: Option<&'a Vec<u8>>,
    pub description: Option<&'a String>,
}

/// The fields of a change as mathematical values.
pub struct UpdateFormView {
    pub username: Seq<char>,
    pub access_token: Seq<char>,
    pub mod_id: u128,
    pub file_data: Option<Seq<u8>>,
    pub description: Option<Seq<char>>,
}

impl<'a> View for UpdateForm<'a> {
    type V = UpdateFormView;

    open spec fn view(&self) -> UpdateFormView {
        UpdateFormView {
            username: self.username@,
            access_token: self.access_token@,
            mod_id: self.mod_id,
            file_data: match self.file_data {
                Some(bytes) => Some(bytes@),
                None => None,
            },
            description: match self.description {
                Some(text) => Some(text@),
                None => None,
            },
        }
    }
}

/// The fields of a deletion.
#[derive(Debug)]
pub struct DeleteForm<'a> {
    pub username: &'a String,
    pub access_token: &'a String,
    pub mod_id: u128,
}

/// The fields of a deletion as mathematical values.
pub struct DeleteFormView {
    pub username: Seq<char>,
    pub access_token: Seq<char>,
    pub mod_id: u128,
}

impl<'a> View for DeleteForm<'a> {
    type V = DeleteFormView;

    open spec fn view(&self) -> DeleteFormView {
        DeleteFormView {
            username: self.username@,
            access_token: self.access_token@,
            mod_id: self.mod_id,
        }
    }
}

/// What is told where a file is larger than the limit.
pub open spec fn file_too_large_message() -> Seq<char> {
    "Raw field `file_data` exceeds the size limit"@
}

/// What is told where the mod's id is no UUID.
pub open spec fn invalid_mod_id_message() -> Seq<char> {
    "Invalid Mod UUID"@
}

fn required_text<'a>(form_data: &'a FormData, field_name: &str) -> (r: Result<&'a String, ApiError>)
    ensures
        r is Ok <==> first_text(form_data.texts@, field_name@) is Some,
        r is Ok ==> r->Ok_0@ == first_text(form_data.texts@, field_name@)->0,
        r is Err ==> r->Err_0@ == client_error(
            ErrorKind::ClientInput,
            missing_text_message(field_name@),
        ),
{
    match get_text_form_field(form_data, field_name) {
        Ok(text) => Ok(text),
        Err(message) => Err(respond_err(ErrorKind::ClientInput, message.as_str())),
    }
}

/// The optional file of a form: missing, present within the limit, or too
/// large.
fn sized_file<'a>(form_data: &'a FormData) -> (r: Result<Option<&'a Vec<u8>>, ApiError>)
    ensures
        r is Err <==> first_raw(form_data.raw@, "file_data"@) is Some && first_raw(
            form_data.raw@,
            "file_data"@,
        )->0.len() > MAX_FILE_SIZE,
        r is Err ==> r->Err_0@ == client_error(ErrorKind::ClientInput, file_too_large_message()),
        r is Ok ==> (r->Ok_0 is Some <==> first_raw(form_data.raw@, "file_data"@) is Some),
        r is Ok && r->Ok_0 is Some ==> r->Ok_0->0@ == first_raw(form_data.raw@, "file_data"@)->0,
{
    match get_bytes_form_field_opt(form_data, "file_data") {
        None => Ok(None),
        Some(bytes) => {
            if bytes.len() as u64 > MAX_FILE_SIZE {
                Err(
                    respond_err(
                        ErrorKind::ClientInput,
                        "Raw field `file_data` exceeds the size limit",
                    ),
                )
            } else {
                Ok(Some(bytes))
            }
        },
    }
}

/// Why a form is no upload, if it is none: the first required field that is
/// missing, in the order username, access token, file, title, description,
/// game name, game version; or a file above the limit.
pub open spec fn upload_form_failure(form: FormData) -> Option<Seq<char>> {
    let texts = form.texts@;
    let file = first_raw(form.raw@, "file_data"@);
    if first_text(texts, "username"@) is None {
        Some(missing_text_message("username"@))
    } else if first_text(texts, "access_token"@) is None {
        Some(missing_text_message("access_token"@))
    } else if file is None {
        Some(missing_raw_message("file_data"@))
    } else if file->0.len() > MAX_FILE_SIZE {
        Some(file_too_large_message())
    } else if first_text(texts, "title"@) is None {
        Some(missing_text_message("title"@))
    } else if first_text(texts, "description"@) is None {
        Some(missing_text_message("description"@))
    } else if first_text(texts, "game_name"@) is None {
        Some(missing_text_message("game_name"@))
    } else if first_text(texts, "game_version"@) is None {
        Some(missing_text_message("game_version"@))
    } else {
        None
    }
}

/// The upload that a form holds.
pub open spec fn upload_form_of(form: FormData) -> UploadFormView {
    UploadFormView {
        username: first_text(form.texts@, "username"@)->0,
        access_token: first_text(form.texts@, "access_token"@)->0,
        file_data: first_raw(form.raw@, "file_data"@)->0,
        title: first_text(form.texts@, "title"@)->0,
        description: first_text(form.texts@, "description"@)->0,
        game_name: first_text(form.texts@, "game_name"@)->0,
        game_version: first_text(form.texts@, "game_version"@)->0,
    }
}

/// Reads a form as an upload: every field is required.
pub fn parse_upload_form<'a>(form_data: &'a FormData) -> (r: Result<UploadForm<'a>, ApiError>)
    ensures
        r is Err <==> upload_form_failure(*form_data) is Some,
        r is Err ==> r->Err_0@ == client_error(
            ErrorKind::ClientInput,
            upload_form_failure(*form_data)->0,
        ),
        r is Ok ==> r->Ok_0@ == upload_form_of(*form_data),
{
    let username = match required_text(form_data, "username") {
        Ok(v) => v,
        Err(e) => {
            return Err(e);
        },
    };
    let access_token = match required_text(form_data, "access_token") {
        Ok(v) => v,
        Err(e) => {
            return Err(e);
        },
    };
    let file_data = match sized_file(form_data) {
        Ok(Some(v)) => v,
        Ok(None) => {
            let message = concat3("Raw field `", "file_data", "` missing from request form!");
            return Err(respond_err(ErrorKind::ClientInput, message.as_str()));
        },
        Err(e) => {
            return Err(e);
        },
    };
    let title = match required_text(form_data, "title") {
        Ok(v) => v,
        Err(e) => {
            return Err(e);
        },
    };
    let description = match required_text(form_data, "description") {
        Ok(v) => v,
        Err(e) => {
            return Err(e);
        },
    };
    let game_name = match required_text(form_data, "game_name") {
        Ok(v) => v,
        Err(e) => {
            return Err(e);
        },
    };
    let game_version = match required_text(form_data, "game_version") {
        Ok(v) => v,
        Err(e) => {
            return Err(e);
        },
    };
    Ok(
        UploadForm {
            username,
            access_token,
            file_data,
            title,
            description,
            game_name,
            game_version,
        },
    )
}

/// Why a form is no change, if it is none: a required field that is missing,
/// in the order username, access token, mod id; a mod id that is no UUID; or
/// a file above the limit.
pub open spec fn update_form_failure(form: FormData) -> Option<Seq<char>> {
    let texts = form.texts@;
    let file = first_raw(form.raw@, "file_data"@);
    if first_text(texts, "username"@) is None {
        Some(missing_text_message("username"@))
    } else if first_text(texts, "access_token"@) is None {
        Some(missing_text_message("access_token"@))
    } else if first_text(texts, "mod_id"@) is None {
        Some(missing_text_message("mod_id"@))
    } else if uuid_of(first_text(texts, "mod_id"@)->0) is None {
        Some(invalid_mod_id_message())
    } else if file is Some && file->0.len() > MAX_FILE_SIZE {
        Some(file_too_large_message())
    } else {
        None
    }
}

/// The change that a form holds.
pub open spec fn update_form_of(form: FormData) -> UpdateFormView {
    UpdateFormView {
        username: first_text(form.texts@, "username"@)->0,
        access_token: first_text(form.texts@, "access_token"@)->0,
        mod_id: uuid_of(first_text(form.texts@, "mod_id"@)->0)->0,
        file_data: first_raw(form.raw@, "file_data"@),
        description: first_text(form.texts@, "description"@),
    }
}

fn required_mod_id(form_data: &FormData) -> (r: Result<u128, ApiError>)
    ensures
        r is Ok <==> first_text(form_data.texts@, "mod_id"@) is Some && uuid_of(
            first_text(form_data.texts@, "mod_id"@)->0,
        ) is Some,
        r is Ok ==> r->Ok_0 == uuid_of(first_text(form_data.texts@, "mod_id"@)->0)->0,
        r is Err ==> r->Err_0@ == client_error(
            ErrorKind::ClientInput,
            if first_text(form_data.texts@, "mod_id"@) is None {
                missing_text_message("mod_id"@)
            } else {
                invalid_mod_id_message()
            },
        ),
{
    let text = match required_text(form_data, "mod_id") {
        Ok(v) => v,
        Err(e) => {
            return Err(e);
        },
    };
    match parse_uuid(text.as_str()) {
        Some(id) => Ok(id),
        None => Err(respond_err(ErrorKind::ClientInput, "Invalid Mod UUID")),
    }
}

/// Reads a form as a change: username, access token and mod id are required,
/// the file and the description optional.
pub fn parse_update_form<'a>(form_data: &'a FormData) -> (r: Result<UpdateForm<'a>, ApiError>)
    ensures
        r is Err <==> update_form_failure(*form_data) is Some,
        r is Err ==> r->Err_0@ == client_error(
            ErrorKind::ClientInput,
            update_form_failure(*form_data)->0,
        ),
        r is Ok ==> r->Ok_0@ == update_form_of(*form_data),
{
    let username = match required_text(form_data, "username") {
        Ok(v) => v,
        Err(e) => {
            return Err(e);
        },
    };
    let access_token = match required_text(form_data, "access_token") {
        Ok(v) => v,
        Err(e) => {
            return Err(e);
        },
    };
    let mod_id = match required_mod_id(form_data) {
        Ok(v) => v,
        Err(e) => {
            return Err(e);
        },
    };
    let file_data = match sized_file(form_data) {
        Ok(v) => v,
        Err(e) => {
            return Err(e);
        },
    };
    let description = get_text_form_field_opt(form_data, "description");
    Ok(UpdateForm { username, access_token, mod_id, file_data, description })
}

/// Why a form is no deletion, if it is none.
pub open spec fn delete_form_failure(form: FormData) -> Option<Seq<char>> {
    let texts = form.texts@;
    if first_text(texts, "username"@) is None {
        Some(missing_text_message("username"@))
    } else if first_text(texts, "access_token"@) is None {
        Some(missing_text_message("access_token"@))
    } else if first_text(texts, "mod_id"@) is None {
        Some(missing_text_message("mod_id"@))
    } else if uuid_of(first_text(texts, "mod_id"@)->0) is None {
        Some(invalid_mod_id_message())
    } else {
        None
    }
}

/// The deletion that a form holds.
pub open spec fn delete_form_of(form: FormData) -> DeleteFormView {
    DeleteFormView {
        username: first_text(form.texts@, "username"@)->0,
        access_token: first_text(form.texts@, "access_token"@)->0,
        mod_id: uuid_of(first_text(form.texts@, "mod_id"@)->0)->0,
    }
}

/// Reads a form as a deletion: username, access token and mod id are
/// required.
pub fn parse_delete_form<'a>(form_data: &'a FormData) -> (r: Result<DeleteForm<'a>, ApiError>)
    ensures
        r is Err <==> delete_form_failure(*form_data) is Some,
        r is Err ==> r->Err_0@ == client_error(
            ErrorKind::ClientInput,
            delete_form_failure(*form_data)->0,
        ),
        r is Ok ==> r->Ok_0@ == delete_form_of(*form_data),
{
    let username = match required_text(form_data, "username") {
        Ok(v) => v,
        Err(e) => {
            return Err(e);
        },
    };
    let access_token = match required_text(form_data, "access_token") {
        Ok(v) => v,
        Err(e) => {
            return Err(e);
        },
    };
    let mod_id = match required_mod_id(form_data) {
        Ok(v) => v,
        Err(e) => {
            return Err(e);
        },
    };
    Ok(DeleteForm { username, access_token, mod_id })
}

} // verus!
