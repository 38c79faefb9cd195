use interlock::agent::cycle::{
    agent_step, blob_listing, cycles_exhausted_answer, entry, first_candidate_text, next_cycle, retry_step,
    RetryStep, MAX_AGENT_CYCLES,
    opening_history, record_observation, should_retry_request, system_prompt,
    tool_error_observation, AgentStep, GeminiCandidate, GeminiContent, GeminiPart,
    GeminiResponse, FORMAT_ERROR_OBSERVATION, MODEL_ACK, NO_ACTION_OBSERVATION, PROMPT_HEAD,
    PROMPT_MIDDLE, PROMPT_TAIL,
};

fn text_of(c: &GeminiContent) -> String {
    c.parts[0].text.clone().unwrap()
}

#[test]
fn blob_listing_lines() {
    let blobs = vec![
        ("id-1".to_string(), "a.pdf".to_string()),
        ("id-2".to_string(), "b.xlsx".to_string()),
    ];
    assert_eq!(blob_listing(&blobs), "- a.pdf (ID: id-1)\n- b.xlsx (ID: id-2)");
    assert_eq!(blob_listing(&vec![]), "");
}

#[test]
fn system_prompt_frames_lists() {
    let p = system_prompt("FILES", "TOOLS");
    assert_eq!(p, format!("{}FILES{}TOOLS{}", PROMPT_HEAD, PROMPT_MIDDLE, PROMPT_TAIL));
    assert!(p.starts_with("You are an industrial data assistant"));
    assert!(p.contains("Available files in this session:\nFILES\n\nGUIDELINES:"));
    assert!(p.contains("`[ { \"type\": \"heading\", \"level\": 1, \"text\": \"Title\" }"));
    assert!(p.ends_with("TOOLS:\nTOOLS\n\nBegin!\n"));
}

#[test]
fn opening_history_appends_query_when_missing() {
    let msgs = vec![
        ("user".to_string(), "hello".to_string()),
        ("assistant".to_string(), "hi".to_string()),
    ];
    let h = opening_history("PROMPT".to_string(), &msgs, "next");
    assert_eq!(h.len(), 5);
    assert_eq!(h[0].role, "user");
    assert_eq!(text_of(&h[0]), "PROMPT");
    assert_eq!(h[1].role, "model");
    assert_eq!(text_of(&h[1]), MODEL_ACK);
    assert_eq!(h[2].role, "user");
    assert_eq!(h[3].role, "model");
    assert_eq!(text_of(&h[3]), "hi");
    assert_eq!(h[4].role, "user");
    assert_eq!(text_of(&h[4]), "next");
}

#[test]
fn opening_history_keeps_stored_query() {
    let msgs = vec![("user".to_string(), "next".to_string())];
    let h = opening_history("P".to_string(), &msgs, "next");
    assert_eq!(h.len(), 3);
    assert_eq!(text_of(&h[2]), "next");
    let msgs = vec![("system".to_string(), "next".to_string())];
    let h = opening_history("P".to_string(), &msgs, "next");
    assert_eq!(h[2].role, "user");
    assert_eq!(h.len(), 3);
}

#[test]
fn step_final_answer() {
    let mut h = vec![entry("user", "q".to_string())];
    match agent_step(&mut h, "  Thought: done\nFinal Answer:   The file is ready.  \n") {
        AgentStep::Finish { answer } => assert_eq!(answer, "The file is ready."),
        _ => panic!("expected a final answer"),
    }
    assert_eq!(h.len(), 2);
    assert_eq!(h[1].role, "model");
    assert_eq!(text_of(&h[1]), "Thought: done\nFinal Answer:   The file is ready.");
}

#[test]
fn step_tool_call_records_cut_reply() {
    let mut h = Vec::new();
    let reply = "Thought: x\nAction: read_file\nAction Input: {\"blob_id\": \"1\"}\nAction: other\nAction Input: {}";
    match agent_step(&mut h, reply) {
        AgentStep::CallTool { action, input } => {
            assert_eq!(action, "read_file");
            assert_eq!(interlock::agent::tools::text_member_of(&input, "blob_id"), Some("1".to_string()));
        }
        _ => panic!("expected a tool call"),
    }
    assert_eq!(h.len(), 1);
    assert_eq!(text_of(&h[0]), "Thought: x\nAction: read_file\nAction Input: {\"blob_id\": \"1\"}\n");
}

#[test]
fn step_malformed_action() {
    let mut h = Vec::new();
    match agent_step(&mut h, "I will do Action: read_file now") {
        AgentStep::Retry => {}
        _ => panic!("expected a retry"),
    }
    assert_eq!(h.len(), 2);
    assert_eq!(h[1].role, "user");
    assert_eq!(text_of(&h[1]), format!("Observation: {}", FORMAT_ERROR_OBSERVATION));
}

#[test]
fn step_without_action_or_answer() {
    let mut h = Vec::new();
    match agent_step(&mut h, "Just chatting.") {
        AgentStep::Retry => {}
        _ => panic!("expected a retry"),
    }
    assert_eq!(text_of(&h[0]), "Just chatting.");
    assert_eq!(text_of(&h[1]), format!("Observation: {}", NO_ACTION_OBSERVATION));
}

#[test]
fn observations_and_errors() {
    let mut h = Vec::new();
    record_observation(&mut h, "3 files");
    assert_eq!(h[0].role, "user");
    assert_eq!(text_of(&h[0]), "Observation: 3 files");
    assert_eq!(tool_error_observation("read_file", "Blob not found"), "Error calling tool read_file: Blob not found");
    assert_eq!(cycles_exhausted_answer(), "Terminated: Maximum agent cycles reached without Final Answer.");
}

#[test]
fn retry_only_rate_limits_three_times() {
    assert!(should_retry_request(429, 0));
    assert!(should_retry_request(429, 2));
    assert!(!should_retry_request(429, 3));
    assert!(!should_retry_request(500, 0));
}

#[test]
fn candidate_text() {
    let resp = GeminiResponse {
        candidates: vec![GeminiCandidate {
            content: GeminiContent { role: "model".to_string(), parts: vec![GeminiPart { text: Some("hey".to_string()) }] },
        }],
    };
    assert_eq!(first_candidate_text(&resp), Some("hey".to_string()));
    let empty = GeminiResponse { candidates: vec![] };
    assert_eq!(first_candidate_text(&empty), None);
    let no_text = GeminiResponse {
        candidates: vec![GeminiCandidate {
            content: GeminiContent { role: "model".to_string(), parts: vec![GeminiPart { text: None }] },
        }],
    };
    assert_eq!(first_candidate_text(&no_text), None);
}

#[test]
fn cycle_budget_grants_twenty_five_turns() {
    let mut used = 0usize;
    let mut turns = 0;
    while let Some(t) = next_cycle(used) {
        assert_eq!(t, used + 1);
        used = t;
        turns += 1;
    }
    assert_eq!(turns, 25);
    assert_eq!(used, MAX_AGENT_CYCLES);
    assert_eq!(next_cycle(25), None);
}

#[test]
fn rate_refusals_are_retried_three_times() {
    assert!(matches!(retry_step(429, 0), RetryStep::Again { retries: 1 }));
    assert!(matches!(retry_step(429, 2), RetryStep::Again { retries: 3 }));
    assert!(matches!(retry_step(429, 3), RetryStep::Proceed));
    assert!(matches!(retry_step(200, 0), RetryStep::Proceed));
    assert!(matches!(retry_step(500, 0), RetryStep::Proceed));
}
