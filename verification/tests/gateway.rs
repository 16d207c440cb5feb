use llm_gateway::catalog::models_from_body;
use llm_gateway::prompt::{
    plan_generate_request, models_reply, prompt_reply_on_answer, prompt_reply_on_failure,
    GenerateRequest,
};
use llm_gateway::url::{generate_url, tags_url};

#[test]
fn trailing_slash_yields_the_same_url() {
    assert_eq!(generate_url("http://localhost:11434"), "http://localhost:11434/api/generate");
    assert_eq!(
        generate_url("http://localhost:11434/"),
        generate_url("http://localhost:11434"),
    );
    assert_eq!(tags_url("http://localhost:11434/"), tags_url("http://localhost:11434"));
    assert_eq!(tags_url("http://h"), "http://h/api/tags");
}

#[test]
fn many_trailing_slashes_are_all_trimmed() {
    assert_eq!(generate_url("http://h///"), "http://h/api/generate");
}

#[test]
fn models_projection_keeps_named_entries_in_order() {
    let body = b"{\"models\": [{\"name\":\"a\"},{\"name\":\"b\"},{\"other\":\"x\"}]}";
    let names = models_from_body(body).expect("body is valid JSON");
    assert_eq!(names, vec!["a".to_string(), "b".to_string()]);
}

#[test]
fn models_invalid_json_is_a_failure_with_an_empty_list() {
    let body = b"this is not json";
    let names = models_from_body(body);
    assert!(names.is_none());
    let (status, list) = models_reply(names);
    assert_eq!(status, 500);
    assert!(list.is_empty());
}

#[test]
fn models_missing_array_yields_an_empty_list_with_success() {
    assert_eq!(models_from_body(b"{\"other\": 1}"), Some(Vec::new()));
    assert_eq!(models_from_body(b"{\"models\": 3}"), Some(Vec::new()));
    let (status, list) = models_reply(models_from_body(b"{}"));
    assert_eq!(status, 200);
    assert!(list.is_empty());
}

#[test]
fn planned_request_carries_model_and_prompt_as_json() {
    let req = GenerateRequest {
        base_url: "http://localhost:11434/".to_string(),
        model: "m1".to_string(),
        prompt: "say \"hi\"".to_string(),
    };
    let outbound = plan_generate_request(&req);
    assert_eq!(outbound.url, "http://localhost:11434/api/generate");
    let parsed: serde_json::Value =
        serde_json::from_str(&outbound.body).expect("outbound body is JSON");
    assert_eq!(parsed.get("model").and_then(|v| v.as_str()), Some("m1"));
    assert_eq!(parsed.get("prompt").and_then(|v| v.as_str()), Some("say \"hi\""));
}

#[test]
fn failure_reply_is_a_non_empty_message_with_failure_status() {
    let reply = prompt_reply_on_failure();
    assert_eq!(reply.status, 500);
    assert!(!reply.text.is_empty());
}

#[test]
fn answer_reply_keeps_the_answer_with_success_status() {
    let reply = prompt_reply_on_answer("partial answer".to_string());
    assert_eq!(reply.status, 200);
    assert_eq!(reply.text, "partial answer");
}
