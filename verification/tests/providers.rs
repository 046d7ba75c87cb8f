use buddai::deepseek::Deepseek;
use buddai::error::Error;
use buddai::gemini::Gemini;
use buddai::json::{arr_get, as_text, obj_get, parse_json};
use buddai::transport::FetchOutcome;
use buddai::{
    answer_text, ask_begin, ask_finish, select_provider, unknown_ai_message, Ask, Provider,
};

#[test]
fn names_and_key_vars() {
    assert_eq!(Deepseek::name(), "Deepseek");
    assert_eq!(Gemini::name(), "Gemini");
    assert_eq!(Deepseek::key_var(), "DEEPSEEK_API_KEY");
    assert_eq!(Gemini::key_var(), "GOOGLE_API_KEY");
}

#[test]
fn prompt_is_shared_and_fixed() {
    assert_eq!(Deepseek::prompt(), Gemini::prompt());
    assert!(Deepseek::prompt().starts_with("You are a terminal based AI assistant."));
}

#[test]
fn error_message_names_variable_and_remedy() {
    let m = Deepseek::error_message("DEEPSEEK_API_KEY");
    assert_eq!(
        m,
        "DEEPSEEK_API_KEY not found in environment variables. Either export it or add it to ${HOME}/.config/buddai.env."
    );
}

#[test]
fn select_provider_is_case_insensitive() {
    assert_eq!(select_provider("gemini"), Some(Provider::Gemini));
    assert_eq!(select_provider("GeMiNi"), Some(Provider::Gemini));
    assert_eq!(select_provider("deepseek"), Some(Provider::Deepseek));
    assert_eq!(select_provider("DeepSeek"), Some(Provider::Deepseek));
}

#[test]
fn select_provider_rejects_unknown_names() {
    assert_eq!(select_provider("unknown"), None);
    assert_eq!(select_provider(""), None);
    assert_eq!(select_provider("gpt"), None);
}

#[test]
fn unknown_ai_message_names_the_input() {
    assert_eq!(unknown_ai_message("unknown"), "Unknown AI: unknown");
}

#[test]
fn ask_begin_fails_without_credential() {
    let r = ask_begin::<Deepseek>("diff --git a/x b/x\n+foo\n", None);
    let e = r.err().unwrap();
    assert_eq!(
        e.message,
        "DEEPSEEK_API_KEY not found in environment variables. Either export it or add it to ${HOME}/.config/buddai.env."
    );
    let r = ask_begin::<Gemini>("diff --git a/x b/x\n+foo\n", None);
    let e = r.err().unwrap();
    assert_eq!(
        e.message,
        "GOOGLE_API_KEY not found in environment variables. Either export it or add it to ${HOME}/.config/buddai.env."
    );
}

#[test]
fn deepseek_request_has_header_auth() {
    let key = "test-key-123".to_string();
    let q = ask_begin::<Deepseek>("hi", Some(&key)).ok().unwrap();
    assert_eq!(q.url, "https://api.deepseek.com/chat/completions");
    assert_eq!(q.headers.len(), 2);
    assert_eq!(q.headers[0].0, "Content-Type");
    assert_eq!(q.headers[0].1, "application/json");
    assert_eq!(q.headers[1].0, "Authorization");
    assert_eq!(q.headers[1].1, key);
    let body = String::from_utf8(q.body).unwrap();
    assert!(body.starts_with("{\"model\":\"deepseek-chat\",\"messages\":["));
    assert!(body.contains("{\"role\":\"user\",\"content\":\"hi\"}"));
    assert!(body.ends_with("\"}]}"));
}

#[test]
fn gemini_request_has_query_auth() {
    let key = "test-key-123".to_string();
    let q = ask_begin::<Gemini>("hi", Some(&key)).ok().unwrap();
    assert_eq!(
        q.url,
        format!(
            "https://generativelanguage.googleapis.com/v1beta/models/gemini-1.5-flash:generateContent?key={}",
            key
        )
    );
    assert_eq!(q.headers.len(), 1);
    assert_eq!(q.headers[0].0, "Content-Type");
    let body = String::from_utf8(q.body).unwrap();
    assert!(body.starts_with("{\"contents\":[{\"role\":\"model\",\"parts\":{\"text\":\""));
    assert!(body.contains("{\"role\":\"user\",\"parts\":{\"text\":\"hi\"}}"));
}

#[test]
fn deepseek_body_round_trips_the_diff() {
    let key = "k".to_string();
    let diff = "diff --git a/x b/x\n+say \"hi\"\\now\t\u{1}\n";
    let q = ask_begin::<Deepseek>(diff, Some(&key)).ok().unwrap();
    let body = String::from_utf8(q.body).unwrap();
    let j = parse_json(&body).unwrap();
    let messages = obj_get(&j, "messages").unwrap();
    let user = arr_get(messages, 0).unwrap();
    let content = obj_get(user, "content").unwrap();
    assert_eq!(as_text(content).unwrap(), diff);
    let system = arr_get(messages, 1).unwrap();
    let instruction = obj_get(system, "content").unwrap();
    assert_eq!(as_text(instruction).unwrap(), Deepseek::prompt());
}

#[test]
fn gemini_body_round_trips_the_diff() {
    let key = "k".to_string();
    let diff = "+foo\n\"quoted\"\r\n";
    let q = ask_begin::<Gemini>(diff, Some(&key)).ok().unwrap();
    let body = String::from_utf8(q.body).unwrap();
    let j = parse_json(&body).unwrap();
    let contents = obj_get(&j, "contents").unwrap();
    let user = arr_get(contents, 1).unwrap();
    let parts = obj_get(user, "parts").unwrap();
    let text = obj_get(parts, "text").unwrap();
    assert_eq!(as_text(text).unwrap(), diff);
}

#[test]
fn gemini_success_extracts_the_text() {
    let body = "{\"candidates\":[{\"content\":{\"parts\":[{\"text\":\"Add foo\"}]}}]}";
    let r = ask_finish::<Gemini>(FetchOutcome::Body(body.to_string()));
    assert_eq!(r.ok().unwrap(), "Add foo");
}

#[test]
fn deepseek_success_extracts_the_text() {
    let body = "{\"choices\":[{\"message\":{\"content\":\"Add foo line\"}}]}";
    let r = ask_finish::<Deepseek>(FetchOutcome::Body(body.to_string()));
    assert_eq!(r.ok().unwrap(), "Add foo line");
}

#[test]
fn extraction_keeps_whitespace_exactly() {
    let body = "{\"choices\":[{\"message\":{\"content\":\"Line one\\n\\n- detail  \\t end\\n\"}}]}";
    let r = ask_finish::<Deepseek>(FetchOutcome::Body(body.to_string()));
    assert_eq!(r.ok().unwrap(), "Line one\n\n- detail  \t end\n");
}

#[test]
fn empty_choices_is_a_shape_error() {
    let r = ask_finish::<Deepseek>(FetchOutcome::Body("{\"choices\":[]}".to_string()));
    assert_eq!(r.err().unwrap().message, "Failed to extract answer from response");
}

#[test]
fn missing_candidates_is_a_shape_error() {
    let r = ask_finish::<Gemini>(FetchOutcome::Body("{}".to_string()));
    assert_eq!(r.err().unwrap().message, "Failed to extract answer from response");
}

#[test]
fn non_string_leaf_is_a_shape_error() {
    let body = "{\"choices\":[{\"message\":{\"content\":42}}]}";
    let r = ask_finish::<Deepseek>(FetchOutcome::Body(body.to_string()));
    assert_eq!(r.err().unwrap().message, "Failed to extract answer from response");
}

#[test]
fn ask_finish_keeps_transport_errors() {
    let r = ask_finish::<Gemini>(FetchOutcome::SendFailed("dns error".to_string()));
    assert_eq!(r.err().unwrap().message, "Failed to send request: dns error");
    let r = ask_finish::<Deepseek>(FetchOutcome::BadStatus(401));
    assert_eq!(r.err().unwrap().message, "Request failed with status code: 401");
    let r = ask_finish::<Deepseek>(FetchOutcome::Body("not json".to_string()));
    assert!(r.err().unwrap().message.starts_with("Failed to parse response: "));
}

#[test]
fn answer_text_prints_answer_or_failure_line() {
    let ok = answer_text::<Deepseek>(Ok("Add foo".to_string()));
    assert_eq!(ok, "Add foo");
    let err = answer_text::<Gemini>(Err(Error::new("boom")));
    assert_eq!(err, "Gemini failed: boom");
}
