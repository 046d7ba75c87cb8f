//! Commit-message generation client: builds provider requests from a diff,
//! interprets provider responses, and decides every step of the exchange.
//! The network send, process environment and standard streams stay with the
//! embedding program; this crate is the logic between them.

use vstd::prelude::*;

pub mod deepseek;
pub mod error;
pub mod gemini;
pub mod json;
pub mod text;
pub mod transport;

use error::Error;
use json::{json_parse, Json};
use text::{ascii_lower, ascii_lower_bytes, bytes_eq};
use transport::{
    post_finish, spec_has_prefix, spec_read_failed_msg, spec_send_failed_msg, spec_status_msg,
    FetchOutcome,
};
use vstd::string::StringExecFns;
use vstd::string::StringSliceAdditionalSpecFns;
use vstd::utf8::encode_utf8;

verus! {

/// An HTTP POST a provider wants issued: target URL, header pairs, raw body.
pub struct HttpRequest {
    pub url: String,
    pub headers: Vec<(String, String)>,
    pub body: Vec<u8>,
}

/// The header pairs as character sequences.
pub open spec fn header_views(h: Seq<(String, String)>) -> Seq<(Seq<char>, Seq<char>)> {
    h.map_values(|p: (String, String)| (p.0@, p.1@))
}

/// The fixed instruction sent along with every diff.
pub open spec fn spec_prompt() -> Seq<char> {
    "You are a terminal based AI assistant.You are supposed to generate commit messages.Your input is the output of `git diff` command.Your output is a commit message. Be concise, there is no need to describe each and every change.For non-code changes (for example README), always generate a single line commit message.Again, be concise.For simple diffs, generate a single line commit message.For complex diffs, generate a multi-line commit message in the format:A brief summary of the changes.\n\n- A detailed description of the changes.\n"@
}

/// The message reported when the key named `key` is not configured.
pub open spec fn spec_error_message(key: Seq<char>) -> Seq<char> {
    key
        + " not found in environment variables. Either export it or add it to ${HOME}/.config/buddai.env."@
}

/// The message reported when a response does not have the provider's shape.
pub open spec fn spec_shape_err_msg() -> Seq<char> {
    "Failed to extract answer from response"@
}

/// A provider of generated commit messages: each impl fixes an endpoint,
/// an authentication mechanism, a request shape and a response field path.
pub trait Ask {
    /// The provider's display name.
    spec fn spec_name() -> Seq<char>;

    /// The environment variable that holds the provider's API key.
    spec fn spec_key_var() -> Seq<char>;

    /// The endpoint URL, given the API key.
    spec fn spec_url(key: Seq<char>) -> Seq<char>;

    /// The request headers, given the API key.
    spec fn spec_headers(key: Seq<char>) -> Seq<(Seq<char>, Seq<char>)>;

    /// The request body built over the diff's bytes.
    spec fn spec_body(diff: Seq<u8>) -> Seq<u8>;

    /// The text under the provider's response field path, if the shape is right.
    spec fn spec_extract(j: Json) -> Option<Seq<char>>;

    /// The provider's name for error reports.
    fn name() -> (r: &'static str)
        ensures
            r@ == Self::spec_name(),
    ;

    /// The name of the environment variable holding the credential.
    fn key_var() -> (r: &'static str)
        ensures
            r@ == Self::spec_key_var(),
    ;

    /// The fixed instruction text, shared by every provider.
    fn prompt() -> (r: &'static str)
        ensures
            r@ == spec_prompt(),
    {
        "You are a terminal based AI assistant.You are supposed to generate commit messages.Your input is the output of `git diff` command.Your output is a commit message. Be concise, there is no need to describe each and every change.For non-code changes (for example README), always generate a single line commit message.Again, be concise.For simple diffs, generate a single line commit message.For complex diffs, generate a multi-line commit message in the format:A brief summary of the changes.\n\n- A detailed description of the changes.\n"
    }

    /// The missing-credential message: it names the variable and the remedy.
    fn error_message(key: &str) -> (r: String)
        ensures
            r@ == spec_error_message(key@),
    {
        let mut s: String = key.to_owned();
        s.append(
            " not found in environment variables. Either export it or add it to ${HOME}/.config/buddai.env.",
        );
        s
    }

    /// Builds the provider's request from the diff and the API key.
    fn build_request(diff: &str, api_key: &str) -> (r: HttpRequest)
        ensures
            r.url@ == Self::spec_url(api_key@),
            header_views(r.headers@) == Self::spec_headers(api_key@),
            r.body@ == Self::spec_body(diff.spec_bytes()),
    ;

    /// Walks the provider's response field path: the exact text found there,
    /// or a shape error when any segment is missing or not a string.
    fn extract_answer(j: &Json) -> (r: Result<String, Error>)
        ensures
            match Self::spec_extract(*j) {
                Some(t) => r matches Ok(s) && s@ == t,
                None => r matches Err(e) && e.message@ == spec_shape_err_msg(),
            },
    ;
}

/// Starts an ask: with no credential configured it fails at once, naming the
/// provider's environment variable, and no request is produced to send;
/// with a credential it yields exactly the provider's request.
pub fn ask_begin<T: Ask>(diff: &str, api_key: Option<&String>) -> (r: Result<HttpRequest, Error>)
    ensures
        api_key is None ==> (r matches Err(e) && e.message@ == spec_error_message(
            T::spec_key_var(),
        )),
        api_key matches Some(k) ==> (r matches Ok(q) && q.url@ == T::spec_url(k@)
            && header_views(q.headers@) == T::spec_headers(k@) && q.body@ == T::spec_body(
            diff.spec_bytes(),
        )),
{
    match api_key {
        None => Err(Error { message: T::error_message(T::key_var()) }),
        Some(k) => Ok(T::build_request(diff, k.as_str())),
    }
}

/// Finishes an ask from the transport outcome: transport failures keep the
/// helper's message, a well-shaped response yields exactly the extracted
/// text, and a wrong shape yields the provider's shape error.
pub fn ask_finish<T: Ask>(outcome: FetchOutcome) -> (r: Result<String, Error>)
    ensures
        outcome matches FetchOutcome::SendFailed(m) ==> (r matches Err(e) && e.message@
            == spec_send_failed_msg(m@)),
        outcome matches FetchOutcome::BadStatus(st) ==> (r matches Err(e) && e.message@
            == spec_status_msg(st)),
        outcome matches FetchOutcome::ReadFailed(m) ==> (r matches Err(e) && e.message@
            == spec_read_failed_msg(m@)),
        outcome matches FetchOutcome::Body(text) ==> (match json_parse(text@) {
            Some(j) => (match T::spec_extract(j) {
                Some(t) => r matches Ok(s) && s@ == t,
                None => r matches Err(e) && e.message@ == spec_shape_err_msg(),
            }),
            None => r matches Err(e) && spec_has_prefix(
                e.message@,
                "Failed to parse response: "@,
            ),
        }),
{
    match post_finish(outcome) {
        Ok(j) => T::extract_answer(&j),
        Err(e) => Err(e),
    }
}

/// What the program prints for a finished ask: the answer itself, or a line
/// naming the provider and the failure.
pub fn answer_text<T: Ask>(response: Result<String, Error>) -> (r: String)
    ensures
        response matches Ok(a) ==> r@ == a@,
        response matches Err(e) ==> r@ == T::spec_name() + " failed: "@ + e.message@,
{
    match response {
        Ok(a) => a,
        Err(e) => {
            let mut s: String = T::name().to_owned();
            s.append(" failed: ");
            s.append(e.message.as_str());
            s
        },
    }
}

/// The two supported providers.
#[derive(Clone, Copy, Debug, PartialEq, Eq, Structural)]
pub enum Provider {
    Deepseek,
    Gemini,
}

/// Which provider a name selects: the comparison is on the name's bytes,
/// ASCII letters folded to lowercase.
pub open spec fn spec_select_provider(name: Seq<u8>) -> Option<Provider> {
    if ascii_lower(name) == encode_utf8("deepseek"@) {
        Some(Provider::Deepseek)
    } else if ascii_lower(name) == encode_utf8("gemini"@) {
        Some(Provider::Gemini)
    } else {
        None
    }
}

/// Selects a provider by name, case-insensitively for ASCII letters.
pub fn select_provider(name: &str) -> (r: Option<Provider>)
    ensures
        r == spec_select_provider(name.spec_bytes()),
{
    let low = ascii_lower_bytes(name.as_bytes());
    if bytes_eq(low.as_slice(), "deepseek".as_bytes()) {
        Some(Provider::Deepseek)
    } else if bytes_eq(low.as_slice(), "gemini".as_bytes()) {
        Some(Provider::Gemini)
    } else {
        None
    }
}

/// The line printed when no provider has the given name.
pub fn unknown_ai_message(name: &str) -> (r: String)
    ensures
        r@ == "Unknown AI: "@ + name@,
{
    let mut s: String = "Unknown AI: ".to_owned();
    s.append(name);
    s
}

} // verus!
