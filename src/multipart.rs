//! The parts of reqwest that the library relies on, with the contracts that
//! its source gives them.
//!
//! A form is modelled by its list of fields, in the order they were added:
//! each field is its name, the bytes of its body and its file name, if any.

use vstd::prelude::*;
use vstd::utf8::encode_utf8;
use reqwest::blocking::multipart::{Form, Part};

verus! {

#[verifier::external_type_specification]
#[verifier::external_body]
pub struct ExReqwestError(reqwest::Error);

#[verifier::external_type_specification]
#[verifier::external_body]
pub struct ExForm(reqwest::blocking::multipart::Form);

#[verifier::external_type_specification]
#[verifier::external_body]
pub struct ExPart(reqwest::blocking::multipart::Part);

/// The fields of a form, in the order they were added: name, body bytes and
/// file name.
pub uninterp spec fn form_fields(f: Form) -> Seq<(Seq<char>, Seq<u8>, Option<Seq<char>>)>;

/// The bytes that a part carries.
pub uninterp spec fn part_body(p: Part) -> Seq<u8>;

/// The file name attached to a part, if any.
pub uninterp spec fn part_file_name(p: Part) -> Option<Seq<char>>;

/// Relies on `Form::new`: a form starts with no fields.
#[verifier::external_body]
pub(crate) fn new_form() -> (r: Form)
    ensures
        form_fields(r) == Seq::<(Seq<char>, Seq<u8>, Option<Seq<char>>)>::empty(),
{
    Form::new()
}

/// Relies on `Form::text`: it appends a field whose body is the UTF-8
/// encoding of `value`, with no file name.
#[verifier::external_body]
pub(crate) fn add_text(form: Form, name: &str, value: &str) -> (r: Form)
    ensures
        form_fields(r) == form_fields(form).push((name@, encode_utf8(value@), None)),
{
    form.text(name.to_string(), value.to_string())
}

/// Relies on `Form::part`: it appends `part` under `name`.
#[verifier::external_body]
pub(crate) fn add_part(form: Form, name: &str, part: Part) -> (r: Form)
    ensures
        form_fields(r) == form_fields(form).push((name@, part_body(part), part_file_name(part))),
{
    form.part(name.to_string(), part)
}

/// Relies on `Part::bytes`: the part carries exactly `bytes`, with no file
/// name.
#[verifier::external_body]
pub(crate) fn bytes_part(bytes: Vec<u8>) -> (r: Part)
    ensures
        part_body(r) == bytes@,
        part_file_name(r) == None::<Seq<char>>,
{
    Part::bytes(bytes)
}

/// Relies on `Part::file_name`: it sets the file name and keeps the body.
#[verifier::external_body]
pub(crate) fn with_file_name(part: Part, file_name: &str) -> (r: Part)
    ensures
        part_body(r) == part_body(part),
        part_file_name(r) == Some(file_name@),
{
    part.file_name(file_name.to_string())
}

} // verus!
