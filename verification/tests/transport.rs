use llm_gateway::prompt::{plan_generate_request, prompt_reply_on_failure, GenerateRequest};

#[test]
fn refused_backend_fails_fast_with_a_message() {
    let request = GenerateRequest {
        base_url: "http://127.0.0.1:9/".to_string(),
        model: "m".to_string(),
        prompt: "p".to_string(),
    };
    let outbound = plan_generate_request(&request);
    assert_eq!(outbound.url, "http://127.0.0.1:9/api/generate");

    let runtime = tokio::runtime::Builder::new_current_thread()
        .enable_all()
        .build()
        .expect("runtime");
    let sent = runtime.block_on(async {
        reqwest::Client::new()
            .post(&outbound.url)
            .header("content-type", "application/json")
            .body(outbound.body)
            .send()
            .await
    });
    assert!(sent.is_err());

    let reply = prompt_reply_on_failure();
    assert_eq!(reply.status, 500);
    assert!(!reply.text.is_empty());
}
