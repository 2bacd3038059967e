use http::header::{HeaderMap, HeaderValue};
use http::Request;
use openai_component::component::{Component, ComponentError, Reply, UpstreamResponse};
use openai_component::openai_payload::{ResponseError, UpstreamRequest};
use openai_component::settings::{Settings, SettingsError};
use serde_json::Value;

fn parsed(text: &str) -> Value {
    serde_json::from_str(text).unwrap()
}

fn settings_headers(value: &'static str) -> HeaderMap {
    let mut headers = HeaderMap::new();
    headers.insert("x-edgee-component-settings", HeaderValue::from_static(value));
    headers
}

fn settings(value: &'static str) -> Settings {
    Settings::new(&settings_headers(value)).unwrap()
}

/// Stands for the upstream API: notes that it was called and answers with a
/// fixed response.
fn answer_ok(request: &UpstreamRequest, called: &mut bool) -> Result<UpstreamResponse, String> {
    assert!(request.body_bytes().is_ok());
    *called = true;
    Ok(UpstreamResponse {
        status: 200,
        body: r#"{"choices": [{"message": {"role": "system", "content": "ok"}}]}"#.into(),
    })
}

fn handle(req: &Request<Value>, called: &mut bool) -> Result<Reply, ComponentError> {
    let request = Component::upstream_request(req.headers(), req.body())?;
    Component::reply_to(answer_ok(&request, called))
}

#[test]
fn test_handle_json_request_success() {
    let body = parsed(
        r#"{ "messages": [{
                "role": "user",
                "content": "Hello! Please say \"ok\" if this API call is working."
            }]}"#,
    );
    let req = Request::builder()
        .header(
            "x-edgee-component-settings",
            r#"{"api_key": "sk-XYZ", "model": "gpt-3.5-turbo"}"#,
        )
        .body(body)
        .unwrap();

    let mut send_called = false;
    let result = handle(&req, &mut send_called);

    assert!(result.is_ok());
    let resp = result.unwrap();
    assert_eq!(resp.status, 200);
    assert_eq!(resp.body.to_string(), r#"{"content":"ok","role":"system"}"#);
    assert!(send_called);
}

#[test]
fn test_handle_json_request_missing_messages() {
    let body = parsed("{}");
    let req = Request::builder()
        .header(
            "x-edgee-component-settings",
            r#"{"api_key": "sk-XYZ", "model": "gpt-3.5-turbo"}"#,
        )
        .body(body)
        .unwrap();

    let mut send_called = false;
    let result = handle(&req, &mut send_called);
    assert!(result.is_err());
    assert_eq!(
        result.unwrap_err().to_string(),
        "Missing 'messages' field in request body"
    );
    assert!(!send_called);
}

#[test]
fn missing_messages_is_a_bad_request() {
    let headers = settings_headers(r#"{"api_key":"sk-X","model":"gpt-3.5-turbo"}"#);
    let error = Component::upstream_request(&headers, &parsed("{}")).unwrap_err();
    assert!(matches!(error, ComponentError::MissingMessages));
    assert_eq!(error.to_string(), "Missing 'messages' field in request body");
    assert_eq!(error.status_code(), 400);
    let reply = error.reply();
    assert_eq!(reply.status, 400);
    assert_eq!(
        reply.body.to_string(),
        r#"{"error":"Missing 'messages' field in request body"}"#
    );
}

#[test]
fn hello_is_answered_with_the_first_choice() {
    let headers = settings_headers(r#"{"api_key":"sk-X","model":"gpt-3.5-turbo"}"#);
    let body = parsed(r#"{"messages":[{"role":"user","content":"Hello"}]}"#);
    let request = Component::upstream_request(&headers, &body).unwrap();
    assert_eq!(request.endpoint, "https://api.openai.com/v1/chat/completions");
    assert_eq!(
        request.headers,
        vec![
            ("Content-Type".to_string(), "application/json".to_string()),
            ("Authorization".to_string(), "Bearer sk-X".to_string()),
        ]
    );
    assert_eq!(
        request.body,
        parsed(
            r#"{"model":"gpt-3.5-turbo","messages":[
                {"role":"system","content":"You are a helpful assistant."},
                {"role":"user","content":"Hello"}]}"#
        )
    );

    let upstream = br#"{"choices":[{"message":{"role":"assistant","content":"Hi"}}]}"#;
    let reply = Component::reply(200, upstream).unwrap();
    assert_eq!(reply.status, 200);
    assert_eq!(reply.body, parsed(r#"{"role":"assistant","content":"Hi"}"#));
}

#[test]
fn missing_header_fails_whatever_the_body_holds() {
    let headers = HeaderMap::new();
    for text in [
        r#"{"messages":[{"role":"user","content":"Hello"}]}"#,
        r#"{}"#,
        r#"null"#,
        r#"[1,2,3]"#,
    ] {
        let error = Component::upstream_request(&headers, &parsed(text)).unwrap_err();
        assert!(matches!(error, ComponentError::Config(SettingsError::MissingHeader)));
        assert_eq!(error.to_string(), "Missing 'x-edgee-component-settings' header");
        assert_eq!(error.status_code(), 500);
    }
    let error = Component::upstream_request_from_bytes(&headers, b"{ not json").unwrap_err();
    assert!(matches!(error, ComponentError::Config(SettingsError::MissingHeader)));
    assert!(error.to_string().contains("Missing"));
    assert!(error.to_string().contains("x-edgee-component-settings"));
}

#[test]
fn normalized_messages_are_one_more_than_listed() {
    let settings = settings(r#"{"api_key":"k","model":"m"}"#);
    for (text, listed) in [
        (r#"{"messages":[]}"#, 0),
        (r#"{"messages":[{"role":"user","content":"a"}]}"#, 1),
        (r#"{"messages":[{"role":"user","content":"a"},{},"x",null,{"content":"b"}]}"#, 5),
    ] {
        let messages = Component::normalize_messages(&parsed(text), &settings).unwrap();
        assert_eq!(messages.len(), listed + 1);
        assert_eq!(messages[0].role, "system");
        assert_eq!(messages[0].content, "You are a helpful assistant.");
    }
}

#[test]
fn normalized_messages_default_role_and_content() {
    let settings = settings(r#"{"api_key":"k","model":"m","default_role":"customer"}"#);
    let body = parsed(
        r#"{"messages":[
            {"role":"assistant","content":"a"},
            {"content":"b"},
            {"role":"user"},
            {"role":5,"content":false},
            "text"
        ]}"#,
    );
    let messages = Component::normalize_messages(&body, &settings).unwrap();
    let pairs: Vec<(&str, &str)> = messages
        .iter()
        .map(|m| (m.role.as_str(), m.content.as_str()))
        .collect();
    assert_eq!(
        pairs,
        vec![
            ("system", "You are a helpful assistant."),
            ("assistant", "a"),
            ("customer", "b"),
            ("user", ""),
            ("customer", ""),
            ("customer", ""),
        ]
    );
}

#[test]
fn normalized_messages_keep_a_listed_system_message() {
    let settings =
        settings(r#"{"api_key":"k","model":"m","default_system_prompt":"Answer in French."}"#);
    let body = parsed(r#"{"messages":[{"role":"system","content":"Answer in Latin."}]}"#);
    let messages = Component::normalize_messages(&body, &settings).unwrap();
    assert_eq!(messages.len(), 2);
    assert_eq!(messages[0].role, "system");
    assert_eq!(messages[0].content, "Answer in French.");
    assert_eq!(messages[1].role, "system");
    assert_eq!(messages[1].content, "Answer in Latin.");
}

#[test]
fn messages_that_are_no_array_count_as_empty() {
    let settings = settings(r#"{"api_key":"k","model":"m"}"#);
    for text in [
        r#"{"messages":null}"#,
        r#"{"messages":"hello"}"#,
        r#"{"messages":{"role":"user","content":"x"}}"#,
        r#"{"messages":3}"#,
    ] {
        let messages = Component::normalize_messages(&parsed(text), &settings).unwrap();
        assert_eq!(messages.len(), 1);
        assert_eq!(messages[0].role, "system");
    }
}

#[test]
fn body_without_messages_member_is_refused() {
    let settings = settings(r#"{"api_key":"k","model":"m"}"#);
    for text in [r#"{}"#, r#"{"Messages":[]}"#, r#"[]"#, r#""messages""#, r#"null"#] {
        let error = Component::normalize_messages(&parsed(text), &settings).unwrap_err();
        assert!(matches!(error, ComponentError::MissingMessages));
    }
}

#[test]
fn upstream_request_follows_the_settings() {
    let headers = settings_headers(
        r#"{"api_key":"sk-1","model":"gpt-4o","max_completion_tokens":"64","default_role":"guest","default_system_prompt":"Be brief.","api_hostname":"https://llm.example.com"}"#,
    );
    let body = parsed(r#"{"messages":[{"content":"Hi"}],"ignored":true}"#);
    let request = Component::upstream_request(&headers, &body).unwrap();
    assert_eq!(request.endpoint, "https://llm.example.com/v1/chat/completions");
    assert_eq!(request.headers[1], ("Authorization".to_string(), "Bearer sk-1".to_string()));
    assert_eq!(
        String::from_utf8(request.body_bytes().unwrap()).unwrap(),
        r#"{"max_completion_tokens":64,"messages":[{"content":"Be brief.","role":"system"},{"content":"Hi","role":"guest"}],"model":"gpt-4o"}"#
    );
}

#[test]
fn upstream_request_with_takes_resolved_settings() {
    let settings = settings(r#"{"api_key":"k","model":"m","max_completion_tokens":"many"}"#);
    let request =
        Component::upstream_request_with(settings, &parsed(r#"{"messages":[]}"#)).unwrap();
    assert_eq!(
        request.body,
        parsed(
            r#"{"model":"m","messages":[{"role":"system","content":"You are a helpful assistant."}]}"#
        )
    );
}

#[test]
fn upstream_request_from_bytes_parses_the_body() {
    let headers = settings_headers(r#"{"api_key":"k","model":"m"}"#);
    let request = Component::upstream_request_from_bytes(
        &headers,
        br#" {"messages":[{"role":"user","content":"Hello"}]} "#,
    )
    .unwrap();
    assert_eq!(
        request.body,
        parsed(
            r#"{"model":"m","messages":[
                {"role":"system","content":"You are a helpful assistant."},
                {"role":"user","content":"Hello"}]}"#
        )
    );

    let error = Component::upstream_request_from_bytes(&headers, br#"{"messages":"#).unwrap_err();
    assert!(matches!(error, ComponentError::InvalidBody(_)));
    assert!(error.to_string().starts_with("Invalid request body: "));
    assert!(error.to_string().len() > "Invalid request body: ".len());
    assert_eq!(error.status_code(), 400);

    let error = Component::upstream_request_from_bytes(&headers, b"").unwrap_err();
    assert!(matches!(error, ComponentError::InvalidBody(_)));

    let error =
        Component::upstream_request_from_bytes(&headers, b"{\"messages\":[\"\xff\"]}").unwrap_err();
    assert!(matches!(error, ComponentError::InvalidBody(_)));

    let error = Component::upstream_request_from_bytes(&headers, br#"{"other":1}"#).unwrap_err();
    assert!(matches!(error, ComponentError::MissingMessages));
}

#[test]
fn reply_without_choices_is_the_fallback() {
    let reply = Component::reply(200, br#"{"choices": []}"#).unwrap();
    assert_eq!(reply.status, 200);
    assert_eq!(
        reply.body.to_string(),
        r#"{"content":"An error occurred","role":"system"}"#
    );
}

#[test]
fn reply_mirrors_the_upstream_status() {
    let upstream = br#"{"choices":[{"message":{"role":"assistant","content":"slow down"}}]}"#;
    for status in [100u16, 200, 201, 429, 500, 999] {
        let reply = Component::reply(status, upstream).unwrap();
        assert_eq!(reply.status, status);
        assert_eq!(reply.body, parsed(r#"{"role":"assistant","content":"slow down"}"#));
    }
}

#[test]
fn reply_needs_a_status_code() {
    let upstream = br#"{"choices":[]}"#;
    for status in [0u16, 1, 99, 1000, 65535] {
        let error = Component::reply(status, upstream).unwrap_err();
        assert!(matches!(error, ComponentError::InvalidStatus(found) if found == status));
        assert_eq!(error.to_string(), "Invalid status code");
        assert_eq!(error.status_code(), 500);
    }
    let error = Component::reply(0, b"not json").unwrap_err();
    assert!(matches!(error, ComponentError::InvalidResponse(_)));
}

#[test]
fn reply_reads_the_body_leniently_as_utf8() {
    let mut upstream = br#"{"choices":[{"message":{"role":"assistant","content":"caf"#.to_vec();
    upstream.push(0xff);
    upstream.extend_from_slice(br#""}}]}"#);
    let reply = Component::reply(200, &upstream).unwrap();
    assert_eq!(
        reply.body.get("content").unwrap().as_str(),
        Some("caf\u{fffd}")
    );
}

#[test]
fn reply_to_an_unreadable_response_is_an_error() {
    let error = Component::reply(200, b"<html>502</html>").unwrap_err();
    assert!(matches!(
        &error,
        ComponentError::InvalidResponse(ResponseError::InvalidJson(_))
    ));
    assert!(error.to_string().starts_with("Could not parse OpenAI response: "));
    assert!(error.to_string().len() > "Could not parse OpenAI response: ".len());
    assert_eq!(error.status_code(), 500);

    let error = Component::reply(200, br#"{"error":{"message":"quota"}}"#).unwrap_err();
    assert!(matches!(
        &error,
        ComponentError::InvalidResponse(ResponseError::MissingChoices)
    ));
    assert_eq!(
        error.to_string(),
        "Could not parse OpenAI response: missing field `choices`"
    );

    let error =
        Component::reply(200, br#"{"choices":[{"message":{"role":"assistant"}}]}"#).unwrap_err();
    assert!(matches!(
        &error,
        ComponentError::InvalidResponse(ResponseError::InvalidChoice)
    ));
}

#[test]
fn errors_map_to_their_status() {
    let config = ComponentError::Config(SettingsError::InvalidJson);
    assert_eq!(config.status_code(), 500);
    assert_eq!(config.to_string(), "Invalid settings JSON");

    let body = ComponentError::InvalidBody("EOF".to_string());
    assert_eq!(body.status_code(), 400);
    assert_eq!(body.to_string(), "Invalid request body: EOF");

    assert_eq!(ComponentError::MissingMessages.status_code(), 400);

    let send = ComponentError::SendFailed("connection refused".to_string());
    assert_eq!(send.status_code(), 500);
    assert_eq!(send.to_string(), "Failed to send OpenAI request: connection refused");

    let response = ComponentError::InvalidResponse(ResponseError::InvalidChoices);
    assert_eq!(response.status_code(), 500);
    assert_eq!(
        response.to_string(),
        "Could not parse OpenAI response: invalid type for `choices`, expected an array"
    );
}

#[test]
fn error_reply_holds_the_message_under_error() {
    let error = ComponentError::SendFailed("time \"out\"".to_string());
    assert_eq!(
        error.to_json(),
        parsed(r#"{"error":"Failed to send OpenAI request: time \"out\""}"#)
    );
    let reply = ComponentError::Config(SettingsError::MissingModel).reply();
    assert_eq!(reply.status, 500);
    assert_eq!(reply.body.to_string(), r#"{"error":"Missing model setting"}"#);
}

#[test]
fn reply_to_reads_a_response_and_reports_a_failure() {
    let reply = Component::reply_to(Ok(UpstreamResponse {
        status: 201,
        body: br#"{"choices":[{"message":{"role":"assistant","content":"Hi"}}]}"#.to_vec(),
    }))
    .unwrap();
    assert_eq!(reply.status, 201);
    assert_eq!(reply.body, parsed(r#"{"role":"assistant","content":"Hi"}"#));

    let error = Component::reply_to(Err("connection refused".to_string())).unwrap_err();
    assert!(matches!(&error, ComponentError::SendFailed(detail) if detail == "connection refused"));
    assert_eq!(error.to_string(), "Failed to send OpenAI request: connection refused");
    assert_eq!(error.status_code(), 500);

    let error = Component::reply_to(Ok(UpstreamResponse {
        status: 200,
        body: b"oops".to_vec(),
    }))
    .unwrap_err();
    assert!(matches!(error, ComponentError::InvalidResponse(_)));
}

#[test]
fn respond_always_gives_a_reply() {
    let reply = Component::respond(Component::reply(200, br#"{"choices":[]}"#));
    assert_eq!(reply.status, 200);
    assert_eq!(
        reply.body.to_string(),
        r#"{"content":"An error occurred","role":"system"}"#
    );

    let reply = Component::respond(Err(ComponentError::MissingMessages));
    assert_eq!(reply.status, 400);
    assert_eq!(
        reply.body.to_string(),
        r#"{"error":"Missing 'messages' field in request body"}"#
    );

    let reply = Component::respond(Component::reply(200, b"[]"));
    assert_eq!(reply.status, 500);
    assert_eq!(
        reply.body.to_string(),
        r#"{"error":"Could not parse OpenAI response: missing field `choices`"}"#
    );

    let headers = HeaderMap::new();
    let reply = Component::respond(
        Component::upstream_request_from_bytes(&headers, b"{}")
            .and_then(|_| Component::reply(200, b"{}")),
    );
    assert_eq!(reply.status, 500);
    assert_eq!(
        reply.body.to_string(),
        r#"{"error":"Missing 'x-edgee-component-settings' header"}"#
    );
}
