//! Construction of the multipart form that transmits an upload request.
//! The form type belongs to reqwest and is opaque here; its contents are
//! modelled as a sequence of named parts, and the library proves that the
//! form it builds holds exactly the two parts the protocol fixes.

use vstd::prelude::*;
use vstd::utf8::encode_utf8;
use crate::request::UploadRequest;

verus! {

/// What one form part holds: its content bytes, its filename if one was set,
/// and its media type if one was set.
pub type PartModel = (Seq<u8>, Option<Seq<char>>, Option<Seq<char>>);

/// What a form holds: its parts with their field names, in the order they
/// were added.
pub type FormModel = Seq<(Seq<char>, PartModel)>;

#[verifier::external_type_specification]
#[verifier::external_body]
pub struct ExForm(reqwest::blocking::multipart::Form);

#[verifier::external_type_specification]
#[verifier::external_body]
pub struct ExPart(reqwest::blocking::multipart::Part);

/// The content, filename and media type that a reqwest part carries.
pub uninterp spec fn part_model(p: reqwest::blocking::multipart::Part) -> PartModel;

/// The named parts that a reqwest form carries, in order.
pub uninterp spec fn form_model(f: reqwest::blocking::multipart::Form) -> FormModel;

/// Whether the mime crate accepts `s` as a media type; `Part::mime_str`
/// decides this from the string alone.
pub uninterp spec fn is_valid_media_type(s: Seq<char>) -> bool;

/// The text that the mime crate's parser stores for an accepted media-type
/// string: its normalized form (ASCII lowercased, with an empty trailing
/// parameter list dropped), a function of the string alone.
pub uninterp spec fn canonical_media_type(s: Seq<char>) -> Seq<char>;

/// Relies on `Form::new`: a new form holds no parts.
#[verifier::external_body]
pub(crate) fn new_form() -> (f: reqwest::blocking::multipart::Form)
    ensures
        form_model(f) == Seq::<(Seq<char>, PartModel)>::empty(),
{
    reqwest::blocking::multipart::Form::new()
}

/// Relies on `Form::text`: it appends a text part holding the value's bytes,
/// with no filename and no media type set.
#[verifier::external_body]
pub(crate) fn form_text(
    f: reqwest::blocking::multipart::Form,
    name: String,
    value: String,
) -> (r: reqwest::blocking::multipart::Form)
    ensures
        form_model(r) == form_model(f).push(
            (name@, (encode_utf8(value@), None::<Seq<char>>, None::<Seq<char>>)),
        ),
{
    f.text(name, value)
}

/// Relies on `Form::part`: it appends the given part under the given name.
#[verifier::external_body]
pub(crate) fn form_part(
    f: reqwest::blocking::multipart::Form,
    name: String,
    p: reqwest::blocking::multipart::Part,
) -> (r: reqwest::blocking::multipart::Form)
    ensures
        form_model(r) == form_model(f).push((name@, part_model(p))),
{
    f.part(name, p)
}

/// Relies on `Part::bytes`: the part holds exactly the given bytes, with no
/// filename and no media type set.
#[verifier::external_body]
pub(crate) fn part_bytes(bytes: Vec<u8>) -> (p: reqwest::blocking::multipart::Part)
    ensures
        part_model(p) == (bytes@, None::<Seq<char>>, None::<Seq<char>>),
{
    reqwest::blocking::multipart::Part::bytes(bytes)
}

/// Relies on `Part::file_name`: it sets the part's filename and changes
/// nothing else.
#[verifier::external_body]
pub(crate) fn part_file_name(
    p: reqwest::blocking::multipart::Part,
    name: String,
) -> (r: reqwest::blocking::multipart::Part)
    ensures
        part_model(r) == (part_model(p).0, Some(name@), part_model(p).2),
{
    p.file_name(name)
}

/// Relies on `Part::mime_str`: it parses the string with the mime crate,
/// whose acceptance depends on the string alone; on success the part carries
/// the parsed media type in the parser's normalized form and is otherwise
/// unchanged.
#[verifier::external_body]
pub(crate) fn part_mime(
    p: reqwest::blocking::multipart::Part,
    mime: &str,
) -> (r: Option<reqwest::blocking::multipart::Part>)
    ensures
        match r {
            Some(q) => is_valid_media_type(mime@) && part_model(q) == (
                part_model(p).0,
                part_model(p).1,
                Some(canonical_media_type(mime@)),
            ),
            None => !is_valid_media_type(mime@),
        },
{
    p.mime_str(mime).ok()
}

/// The parts that the form for an upload request must hold: the text field
/// and the file part, in this order.
pub open spec fn spec_form_of(request: UploadRequest) -> FormModel {
    seq![
        (
            request.field_name@,
            (encode_utf8(request.field_value@), None::<Seq<char>>, None::<Seq<char>>),
        ),
        (
            request.file_field_name@,
            (
                request.bytes@,
                Some(request.file_name@),
                Some(canonical_media_type(request.media_type@)),
            ),
        ),
    ]
}

/// The error string returned when the request's media type is rejected.
pub open spec fn construction_failure_message() -> Seq<char> {
    "invalid media type for upload"@
}

/// Build the multipart form for a prepared upload request: a text field and a
/// file part, exactly as the request describes them, the media type in its
/// parsed normalized form. Construction fails only where the media type is
/// rejected, and then with the construction error.
pub fn build_form(request: UploadRequest) -> (r: Result<
    reqwest::blocking::multipart::Form,
    String,
>)
    ensures
        match r {
            Ok(f) => is_valid_media_type(request.media_type@) && form_model(f) == spec_form_of(
                request,
            ),
            Err(e) => !is_valid_media_type(request.media_type@) && e@
                == construction_failure_message(),
        },
{
    let UploadRequest {
        field_name,
        field_value,
        file_field_name,
        file_name,
        media_type,
        bytes,
        url: _,
    } = request;
    let part = part_bytes(bytes);
    let part = part_file_name(part, file_name);
    let part = match part_mime(part, media_type.as_str()) {
        Some(p) => p,
        None => {
            return Err("invalid media type for upload".to_owned());
        },
    };
    let form = new_form();
    let form = form_text(form, field_name, field_value);
    let form = form_part(form, file_field_name, part);
    proof {
        assert(form_model(form) =~= spec_form_of(request));
    }
    Ok(form)
}

} // verus!
