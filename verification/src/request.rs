//! Building the upload request descriptor.
//!
//! The builder turns a validated `(path, token, config?)` triple into a fully
//! specified request: the fixed `/upload` target, a cookie header carrying
//! the session token, the optional `config` query value rendered in decimal,
//! and the file to attach as the multipart `file` part.

use crate::digits::{dec_str, format_u64};
use vstd::prelude::*;

verus! {

/// The service's base address, which is both the request target's prefix and
/// the domain the token cookie is scoped to.
pub open spec fn base_url_spec() -> Seq<char> {
    "https://clips.lillie.rs"@
}

pub fn base_url() -> (r: &'static str)
    ensures
        r@ == base_url_spec(),
{
    "https://clips.lillie.rs"
}

/// The target of every upload: the base address followed by `/upload`.
pub open spec fn target_url_spec() -> Seq<char> {
    base_url_spec() + "/upload"@
}

/// The cookie header value carrying the session token as the named cookie
/// `tk`, scoped to the service's own domain.
pub open spec fn cookie_header_spec(token: Seq<char>) -> Seq<char> {
    "tk="@ + token + "; Domain="@ + base_url_spec()
}

/// The name of the multipart form part that carries the file's bytes.
pub open spec fn file_part_name_spec() -> Seq<char> {
    "file"@
}

pub fn file_part_name() -> (r: &'static str)
    ensures
        r@ == file_part_name_spec(),
{
    "file"
}

/// The name of the query parameter that selects a processing configuration.
pub open spec fn config_query_name_spec() -> Seq<char> {
    "config"@
}

pub fn config_query_name() -> (r: &'static str)
    ensures
        r@ == config_query_name_spec(),
{
    "config"
}

/// The mathematical content of an upload request descriptor.
pub ghost struct UploadRequestModel {
    pub target_url: Seq<char>,
    pub file_path: Seq<char>,
    pub auth_token: Seq<char>,
    pub cookie_header: Seq<char>,
    pub config_id: Option<Seq<char>>,
}

/// A fully specified upload request, ready for a transport to execute:
/// `POST target_url[?config=<config_id>]` with the cookie header attached and
/// the file at `file_path` as the multipart part named `file`.
#[derive(Debug)]
pub struct UploadRequest {
    pub target_url: String,
    pub file_path: String,
    pub auth_token: String,
    pub cookie_header: String,
    pub config_id: Option<String>,
}

impl View for UploadRequest {
    type V = UploadRequestModel;

    open spec fn view(&self) -> UploadRequestModel {
        UploadRequestModel {
            target_url: self.target_url@,
            file_path: self.file_path@,
            auth_token: self.auth_token@,
            cookie_header: self.cookie_header@,
            config_id: match self.config_id {
                Some(s) => Some(s@),
                None => None,
            },
        }
    }
}

impl UploadRequest {
    /// The descriptor invariant: non-empty path and token, the fixed target,
    /// a cookie header carrying the token, and a positive decimal config id
    /// when one is present.
    pub open spec fn wf(self) -> bool {
        &&& self@.file_path.len() > 0
        &&& self@.auth_token.len() > 0
        &&& self@.target_url == target_url_spec()
        &&& self@.cookie_header == cookie_header_spec(self@.auth_token)
        &&& match self@.config_id {
            Some(s) => exists|n: nat| n >= 1 && s == dec_str(n),
            None => true,
        }
    }
}

/// Why a triple of resolved arguments was rejected before any request was
/// built: each variant carries the user-facing prompt that reports it.
#[derive(PartialEq, Eq, Structural, Clone, Copy, Debug)]
pub enum RequestError {
    MissingFilePath,
    MissingToken,
    InvalidConfigId,
}

pub open spec fn request_error_message_spec(e: RequestError) -> Seq<char> {
    match e {
        RequestError::MissingFilePath => "please supply a file to upload"@,
        RequestError::MissingToken => "please supply a token for the service"@,
        RequestError::InvalidConfigId => "the config id must be a positive integer"@,
    }
}

impl RequestError {
    /// The user-facing prompt for an invocation that never reaches a
    /// transport.
    pub fn message(&self) -> (m: &'static str)
        ensures
            m@ == request_error_message_spec(*self),
    {
        match self {
            RequestError::MissingFilePath => "please supply a file to upload",
            RequestError::MissingToken => "please supply a token for the service",
            RequestError::InvalidConfigId => "the config id must be a positive integer",
        }
    }
}

/// When a triple of resolved arguments is accepted: both path and token are
/// present and a config id, when given, is positive.
pub open spec fn build_accepts(path: Seq<char>, token: Seq<char>, config_id: Option<u64>) -> bool {
    &&& path.len() > 0
    &&& token.len() > 0
    &&& (config_id matches Some(n) ==> n > 0)
}

/// The descriptor the builder produces for an accepted triple.
pub open spec fn built_request(
    path: Seq<char>,
    token: Seq<char>,
    config_id: Option<u64>,
) -> UploadRequestModel {
    UploadRequestModel {
        target_url: target_url_spec(),
        file_path: path,
        auth_token: token,
        cookie_header: cookie_header_spec(token),
        config_id: match config_id {
            Some(n) => Some(dec_str(n as nat)),
            None => None,
        },
    }
}

/// The error reported for a rejected triple: a missing path is reported
/// first, then a missing token, then a non-positive config id.
pub open spec fn build_error(path: Seq<char>, token: Seq<char>) -> RequestError {
    if path.len() == 0 {
        RequestError::MissingFilePath
    } else if token.len() == 0 {
        RequestError::MissingToken
    } else {
        RequestError::InvalidConfigId
    }
}

/// Relies on `cookie::Cookie`: a cookie built by `Cookie::build((name, value))`
/// with `CookieBuilder::domain(domain)` renders through `Display` as
/// `name=value; Domain=domain`, the values written verbatim (no
/// percent-encoding) and a leading `.` of the domain stripped.
#[verifier::external_body]
fn cookie_header_value(name: &str, value: &str, domain: &str) -> (r: String)
    requires
        domain@.len() == 0 || domain@[0] != '.',
    ensures
        r@ == name@ + "="@ + value@ + "; Domain="@ + domain@,
{
    cookie::Cookie::build((name, value)).domain(domain).build().to_string()
}

/// Builds the upload request descriptor for a resolved argument triple, or
/// reports why the triple is rejected before any transport is involved.
pub fn build_upload_request(file_path: String, auth_token: String, config_id: Option<u64>) -> (r:
    Result<UploadRequest, RequestError>)
    ensures
        r is Ok <==> build_accepts(file_path@, auth_token@, config_id),
        r matches Ok(req) ==> req@ == built_request(file_path@, auth_token@, config_id),
        r matches Ok(req) ==> req.wf(),
        r matches Err(e) ==> e == build_error(file_path@, auth_token@),
{
    if file_path.as_str().is_empty() {
        return Err(RequestError::MissingFilePath);
    }
    if auth_token.as_str().is_empty() {
        return Err(RequestError::MissingToken);
    }
    let config_value: Option<String> = match config_id {
        Some(n) => {
            if n == 0 {
                return Err(RequestError::InvalidConfigId);
            }
            Some(format_u64(n))
        },
        None => None,
    };
    let target_url = String::from_str(base_url()).concat("/upload");
    proof {
        reveal_strlit("https://clips.lillie.rs");
        reveal_strlit("tk");
        reveal_strlit("=");
        reveal_strlit("tk=");
        assert(base_url_spec()[0] == 'h');
    }
    let cookie_header = cookie_header_value("tk", auth_token.as_str(), base_url());
    proof {
        assert("tk"@ + "="@ =~= "tk="@);
        assert(cookie_header@ =~= cookie_header_spec(auth_token@));
        match config_id {
            Some(n) => {
                assert(n as nat >= 1 && dec_str(n as nat) == dec_str(n as nat));
            },
            None => {},
        }
    }
    Ok(
        UploadRequest {
            target_url,
            file_path,
            auth_token,
            cookie_header,
            config_id: config_value,
        },
    )
}

/// Law: a request built without a config id carries no `config` query value;
/// one built with `Some(n)` carries exactly one such value, the decimal
/// rendering of `n`, which reads back as the same integer.
pub proof fn lemma_config_query(path: Seq<char>, token: Seq<char>, config_id: Option<u64>)
    ensures
        built_request(path, token, Option::<u64>::None).config_id is None,
        config_id matches Some(n) ==> built_request(path, token, config_id).config_id == Some(
            dec_str(n as nat),
        ) && crate::digits::dec_val(dec_str(n as nat)) == n as nat,
{
    match config_id {
        Some(n) => crate::digits::lemma_dec_round_trip(n as nat),
        None => (),
    }
}

/// Law: for every token, the built request's target URL ends in `/upload`,
/// and its cookie header begins with `tk=` followed by the token itself.
pub proof fn lemma_request_wire_shape(token: Seq<char>)
    ensures
        target_url_spec().len() >= 7,
        target_url_spec().subrange(
            target_url_spec().len() - 7,
            target_url_spec().len() as int,
        ) == "/upload"@,
        cookie_header_spec(token).len() >= 3 + token.len(),
        cookie_header_spec(token).subrange(0, 3) == "tk="@,
        cookie_header_spec(token).subrange(3, 3 + token.len() as int) == token,
{
    reveal_strlit("https://clips.lillie.rs");
    reveal_strlit("/upload");
    reveal_strlit("tk=");
    assert(target_url_spec().subrange(
        target_url_spec().len() - 7,
        target_url_spec().len() as int,
    ) =~= "/upload"@);
    assert(cookie_header_spec(token).subrange(0, 3) =~= "tk="@);
    assert(cookie_header_spec(token).subrange(3, 3 + token.len() as int) =~= token);
}

} // verus!
