use interlock::agent::parse_agent_response;
use interlock::agent::agent_action_parts;
use interlock::agent::parse::{json_field_of, json_item_of, Json};
use interlock::agent::tools::text_member_of;

#[test]
fn test_parse_single_action() {
    let input = r#"
Thought: I should read the file.
Action: read_file
Action Input: { "blob_id": "123" }
"#;
    let (action, val, processed) = parse_agent_response(input).unwrap();
    assert_eq!(action, "read_file");
    assert_eq!(text_member_of(&val, "blob_id"), Some("123".to_string()));
    assert!(processed.contains("Action: read_file"));
    assert!(processed.contains("123"));
}

#[test]
fn test_parse_multiple_actions() {
    let input = r#"
Action: action_one
Action Input: { "key": "value_one" }
---
Thought: Now I do the second thing.
Action: action_two
Action Input: { "key": "value_two" }
"#;
    let (action, val, processed) = parse_agent_response(input).unwrap();
    assert_eq!(action, "action_one");
    assert_eq!(text_member_of(&val, "key"), Some("value_one".to_string()));

    // Ensure processed text does NOT contain the second action
    assert!(!processed.contains("action_two"));
    assert!(!processed.contains("value_two"));

    // Ensure processed text stops at "---" or before
    // processed text should include the JSON input for action_one
    assert!(processed.contains("value_one"));
}

#[test]
fn test_parse_complex_json() {
        let input = r#"
Action: complex_tool
Action Input: {
"nested": {
    "array": [1, 2, 3]
},
"str": "value"
}
Final Answer: I am done.
"#;
    let (action, val, processed) = parse_agent_response(input).unwrap();
    assert_eq!(action, "complex_tool");
    let nested = json_field_of(&val, "nested").unwrap();
    let array = json_field_of(nested, "array").unwrap();
    assert!(matches!(json_item_of(array, 0), Some(Json::Number(n)) if n == "1"));
    assert!(!processed.contains("Final Answer"));
}

#[test]
fn test_parse_markdown_json() {
    let input = r#"
Action: tool
Action Input: ```json
{ "a": 1 }
```
"#;
    let (action, val, _) = parse_agent_response(input).unwrap();
    assert_eq!(action, "tool");
    assert!(matches!(json_field_of(&val, "a"), Some(Json::Number(n)) if n == "1"));
}

#[test]
fn test_parse_no_action() {
    let input = "Just a thought.";
    assert!(parse_agent_response(input).is_none());
}

#[test]
fn parse_lowercases_action_and_cuts_after_argument() {
    let input = "Thought: go\n  ACTION:  Read_File  \nAction Input:   {\"blob_id\": \"x\"}\nObservation: none";
    let (action, json, processed) = agent_action_parts(input).unwrap();
    assert_eq!(action, "read_file");
    assert_eq!(json, "{\"blob_id\": \"x\"}\n".trim());
    assert_eq!(processed, "Thought: go\n  ACTION:  Read_File  \nAction Input:   {\"blob_id\": \"x\"}\n");
}

#[test]
fn parse_accepts_lowercase_marker() {
    let input = "Action: list_files\naction input: {}";
    let (action, json, processed) = agent_action_parts(input).unwrap();
    assert_eq!(action, "list_files");
    assert_eq!(json, "{}");
    assert_eq!(processed, input);
}

#[test]
fn parse_without_marker_is_none() {
    assert!(agent_action_parts("Action: list_files\nno input here").is_none());
    assert!(parse_agent_response("Action: list_files\nno input here").is_none());
}

#[test]
fn parse_rejects_invalid_json() {
    let input = "Action: tool\nAction Input: {not json}";
    assert!(agent_action_parts(input).is_some());
    assert!(parse_agent_response(input).is_none());
}

#[test]
fn parse_empty_object_argument() {
    let (action, val, processed) = parse_agent_response("action: READ_FILE\nAction Input: {}").unwrap();
    assert_eq!(action, "read_file");
    assert!(matches!(val, Json::Object(ref m) if m.is_empty()));
    assert_eq!(processed, "action: READ_FILE\nAction Input: {}");
}

#[test]
fn action_name_is_lowercased_word() {
    let (action, _, processed) = parse_agent_response("action: READ_File2\nAction Input: {}").unwrap();
    assert_eq!(action, "read_file2");
    assert!(!action.is_empty());
    assert_eq!(action.to_lowercase(), action);
    assert!(action.chars().all(|c| c.is_alphanumeric() || c == '_'));
    assert_eq!(processed, "action: READ_File2\nAction Input: {}");
    assert!(parse_agent_response("Action: two words\nAction Input: {}").is_none());
}
