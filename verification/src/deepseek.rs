//! The Deepseek provider: chat-completions endpoint, key in an
//! `Authorization` header, answer under `choices[0].message.content`.

use vstd::prelude::*;

use crate::error::Error;
use crate::json::{spec_arr_get, spec_as_text, spec_obj_get, arr_get, as_text, obj_get, Json};
use crate::text::{escape_json, json_escaped};
use crate::{header_views, spec_prompt, Ask, HttpRequest};
use vstd::string::StringExecFns;
use vstd::string::StringSliceAdditionalSpecFns;
use vstd::utf8::encode_utf8;

verus! {

pub struct Deepseek;

impl Ask for Deepseek {
    open spec fn spec_name() -> Seq<char> {
        "Deepseek"@
    }

    open spec fn spec_key_var() -> Seq<char> {
        "DEEPSEEK_API_KEY"@
    }

    open spec fn spec_url(key: Seq<char>) -> Seq<char> {
        "https://api.deepseek.com/chat/completions"@
    }

    open spec fn spec_headers(key: Seq<char>) -> Seq<(Seq<char>, Seq<char>)> {
        seq![("Content-Type"@, "application/json"@), ("Authorization"@, key)]
    }

    open spec fn spec_body(diff: Seq<u8>) -> Seq<u8> {
        encode_utf8("{\"model\":\"deepseek-chat\",\"messages\":[{\"role\":\"user\",\"content\":\""@)
            + json_escaped(diff) + encode_utf8("\"},{\"role\":\"system\",\"content\":\""@)
            + json_escaped(encode_utf8(spec_prompt())) + encode_utf8("\"}]}"@)
    }

    open spec fn spec_extract(j: Json) -> Option<Seq<char>> {
        match spec_obj_get(j, "choices"@) {
            Some(c) => match spec_arr_get(c, 0) {
                Some(f) => match spec_obj_get(f, "message"@) {
                    Some(m) => match spec_obj_get(m, "content"@) {
                        Some(t) => spec_as_text(t),
                        None => None,
                    },
                    None => None,
                },
                None => None,
            },
            None => None,
        }
    }

    fn name() -> (r: &'static str) {
        "Deepseek"
    }

    fn key_var() -> (r: &'static str) {
        "DEEPSEEK_API_KEY"
    }

    fn build_request(diff: &str, api_key: &str) -> (r: HttpRequest) {
        let mut body: Vec<u8> = Vec::new();
        body.extend_from_slice(
            "{\"model\":\"deepseek-chat\",\"messages\":[{\"role\":\"user\",\"content\":\"".as_bytes(),
        );
        let escaped_diff = escape_json(diff.as_bytes());
        body.extend_from_slice(escaped_diff.as_slice());
        body.extend_from_slice("\"},{\"role\":\"system\",\"content\":\"".as_bytes());
        let escaped_prompt = escape_json(Self::prompt().as_bytes());
        body.extend_from_slice(escaped_prompt.as_slice());
        body.extend_from_slice("\"}]}".as_bytes());

        let mut headers: Vec<(String, String)> = Vec::new();
        headers.push(("Content-Type".to_owned(), "application/json".to_owned()));
        headers.push(("Authorization".to_owned(), api_key.to_owned()));

        let r = HttpRequest { url: "https://api.deepseek.com/chat/completions".to_owned(), headers, body };
        proof {
            assert(r.body@ =~= Self::spec_body(diff.spec_bytes()));
            assert(header_views(r.headers@) =~= Self::spec_headers(api_key@));
        }
        r
    }

    fn extract_answer(j: &Json) -> (r: Result<String, Error>) {
        let c = match obj_get(j, "choices") {
            Some(v) => v,
            None => {
                return Err(Error::new("Failed to extract answer from response"));
            },
        };
        let f = match arr_get(c, 0) {
            Some(v) => v,
            None => {
                return Err(Error::new("Failed to extract answer from response"));
            },
        };
        let m = match obj_get(f, "message") {
            Some(v) => v,
            None => {
                return Err(Error::new("Failed to extract answer from response"));
            },
        };
        let t = match obj_get(m, "content") {
            Some(v) => v,
            None => {
                return Err(Error::new("Failed to extract answer from response"));
            },
        };
        match as_text(t) {
            Some(s) => Ok(s.clone()),
            None => Err(Error::new("Failed to extract answer from response")),
        }
    }
}

} // verus!
