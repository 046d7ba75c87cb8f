//! The Gemini provider: generateContent endpoint, key in a URL query
//! parameter, answer under `candidates[0].content.parts[0].text`.

use vstd::prelude::*;

use crate::error::Error;
use crate::json::{spec_arr_get, spec_as_text, spec_obj_get, arr_get, as_text, obj_get, Json};
use crate::text::{escape_json, json_escaped};
use crate::{header_views, spec_prompt, Ask, HttpRequest};
use vstd::string::StringExecFns;
use vstd::string::StringSliceAdditionalSpecFns;
use vstd::utf8::encode_utf8;

verus! {

pub struct Gemini;

impl Ask for Gemini {
    open spec fn spec_name() -> Seq<char> {
        "Gemini"@
    }

    open spec fn spec_key_var() -> Seq<char> {
        "GOOGLE_API_KEY"@
    }

    open spec fn spec_url(key: Seq<char>) -> Seq<char> {
        "https://generativelanguage.googleapis.com/v1beta/models/gemini-1.5-flash:generateContent"@
            + "?key="@ + key
    }

    open spec fn spec_headers(key: Seq<char>) -> Seq<(Seq<char>, Seq<char>)> {
        seq![("Content-Type"@, "application/json"@)]
    }

    open spec fn spec_body(diff: Seq<u8>) -> Seq<u8> {
        encode_utf8("{\"contents\":[{\"role\":\"model\",\"parts\":{\"text\":\""@)
            + json_escaped(encode_utf8(spec_prompt()))
            + encode_utf8("\"}},{\"role\":\"user\",\"parts\":{\"text\":\""@) + json_escaped(diff)
            + encode_utf8("\"}}]}"@)
    }

    open spec fn spec_extract(j: Json) -> Option<Seq<char>> {
        match spec_obj_get(j, "candidates"@) {
            Some(c) => match spec_arr_get(c, 0) {
                Some(f) => match spec_obj_get(f, "content"@) {
                    Some(ct) => match spec_obj_get(ct, "parts"@) {
                        Some(p) => match spec_arr_get(p, 0) {
                            Some(part) => match spec_obj_get(part, "text"@) {
                                Some(t) => spec_as_text(t),
                                None => None,
                            },
                            None => None,
                        },
                        None => None,
                    },
                    None => None,
                },
                None => None,
            },
            None => None,
        }
    }

    fn name() -> (r: &'static str) {
        "Gemini"
    }

    fn key_var() -> (r: &'static str) {
        "GOOGLE_API_KEY"
    }

    fn build_request(diff: &str, api_key: &str) -> (r: HttpRequest) {
        let mut url: String =
            "https://generativelanguage.googleapis.com/v1beta/models/gemini-1.5-flash:generateContent".to_owned();
        url.append("?key=");
        url.append(api_key);

        let mut body: Vec<u8> = Vec::new();
        body.extend_from_slice("{\"contents\":[{\"role\":\"model\",\"parts\":{\"text\":\"".as_bytes());
        let escaped_prompt = escape_json(Self::prompt().as_bytes());
        body.extend_from_slice(escaped_prompt.as_slice());
        body.extend_from_slice("\"}},{\"role\":\"user\",\"parts\":{\"text\":\"".as_bytes());
        let escaped_diff = escape_json(diff.as_bytes());
        body.extend_from_slice(escaped_diff.as_slice());
        body.extend_from_slice("\"}}]}".as_bytes());

        let mut headers: Vec<(String, String)> = Vec::new();
        headers.push(("Content-Type".to_owned(), "application/json".to_owned()));

        let r = HttpRequest { url, headers, body };
        proof {
            assert(r.body@ =~= Self::spec_body(diff.spec_bytes()));
            assert(header_views(r.headers@) =~= Self::spec_headers(api_key@));
        }
        r
    }

    fn extract_answer(j: &Json) -> (r: Result<String, Error>) {
        let c = match obj_get(j, "candidates") {
            Some(v) => v,
            None => {
                return Err(Error::new("Failed to extract answer from response"));
            },
        };
        let f = match arr_get(c, 0) {
            Some(v) => v,
            None => {
                return Err(Error::new("Failed to extract answer from response"));
            },
        };
        let ct = match obj_get(f, "content") {
            Some(v) => v,
            None => {
                return Err(Error::new("Failed to extract answer from response"));
            },
        };
        let p = match obj_get(ct, "parts") {
            Some(v) => v,
            None => {
                return Err(Error::new("Failed to extract answer from response"));
            },
        };
        let part = match arr_get(p, 0) {
            Some(v) => v,
            None => {
                return Err(Error::new("Failed to extract answer from response"));
            },
        };
        let t = match obj_get(part, "text") {
            Some(v) => v,
            None => {
                return Err(Error::new("Failed to extract answer from response"));
            },
        };
        match as_text(t) {
            Some(s) => Ok(s.clone()),
            None => Err(Error::new("Failed to extract answer from response")),
        }
    }
}

} // verus!
