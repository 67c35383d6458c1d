//! Registration and the upload request.

use vstd::prelude::*;
use vstd::utf8::encode_utf8;
use vstd::string::*;
use reqwest::blocking::multipart::Form;
use crate::multipart::{add_part, add_text, bytes_part, form_fields, new_form, with_file_name};

verus! {

/// The text that registration hands back in place of a certificate.
pub open spec fn placeholder_certificate() -> Seq<char> {
    "Fake certificate for "@
}

/// The address that monitoring data is posted to.
pub open spec fn agent_data_target(server_address: Seq<char>) -> Seq<char> {
    server_address + "/agent-data"@
}

/// The fields of the upload form: the host identifier as text under `uuid`,
/// and the payload under `upload_file` with the file name `agent_data`.
pub open spec fn agent_data_fields(uuid: Seq<char>, monitoring_data: Seq<u8>) -> Seq<
    (Seq<char>, Seq<u8>, Option<Seq<char>>),
> {
    seq![
        ("uuid"@, encode_utf8(uuid), None),
        ("upload_file"@, monitoring_data, Some("agent_data"@)),
    ]
}

/// Registers a host with the server at `server_address`.
///
/// No request is made: the signing request is not sent, and the result is
/// always the placeholder text.
pub fn register(_server_address: &str, _csr: Vec<u8>) -> (r: Result<String, reqwest::Error>)
    ensures
        r matches Ok(s) && s@ == placeholder_certificate(),
{
    Ok(String::from_str("Fake certificate for "))
}

/// The address that the upload is posted to: `server_address` followed by
/// `/agent-data`.
pub fn agent_data_url(server_address: &str) -> (r: String)
    ensures
        r@ == agent_data_target(server_address@),
{
    String::from_str(server_address).concat("/agent-data")
}

/// The multipart form of an upload: a text field `uuid` with the host
/// identifier, then a file field `upload_file` with the payload.
pub fn agent_data_form(uuid: &str, monitoring_data: Vec<u8>) -> (r: Form)
    ensures
        form_fields(r) == agent_data_fields(uuid@, monitoring_data@),
{
    let form = add_text(new_form(), "uuid", uuid);
    let part = with_file_name(bytes_part(monitoring_data), "agent_data");
    let r = add_part(form, "upload_file", part);
    assert(form_fields(r) =~= agent_data_fields(uuid@, monitoring_data@));
    r
}

} // verus!
