use interlock::agent::registry::{get_default_registry, unknown_action_observation, ToolInfo, ToolRegistry};

#[test]
fn default_registry_lists_ten_tools() {
    let r = get_default_registry();
    assert_eq!(r.tools.len(), 10);
    let d = r.get_tool_descriptions();
    let lines: Vec<&str> = d.split('\n').collect();
    assert_eq!(lines.len(), 10);
    assert_eq!(lines[0], "1. list_files: Lists all files available in the current session.");
    assert_eq!(lines[9], "10. generate_image: Generates an image based on the prompt. (prompt: string, file_name: string, replace_existing: bool?)");
    assert_eq!(r.find_tool("read_file"), Some(3));
    assert_eq!(r.find_tool("search_internet"), None);
}

#[test]
fn register_replaces_same_name() {
    let mut r = ToolRegistry::new();
    assert_eq!(r.get_tool_descriptions(), "");
    r.register("a".to_string(), "first".to_string());
    r.register("b".to_string(), "second".to_string());
    r.register("a".to_string(), "again".to_string());
    assert_eq!(r.tools.len(), 2);
    assert_eq!(r.description_for("a"), Some("again".to_string()));
    assert_eq!(r.description_for("b"), Some("second".to_string()));
    assert_eq!(r.description_for("c"), None);
    assert_eq!(r.get_tool_descriptions(), "1. a: again\n2. b: second");
}

#[test]
fn unknown_action_lists_names() {
    let mut r = ToolRegistry::new();
    r.register("x".to_string(), "d".to_string());
    r.register("y".to_string(), "d".to_string());
    assert_eq!(
        unknown_action_observation("zap", &r),
        "Error: Unknown action 'zap'. Available tools are: [\"x\", \"y\"]"
    );
}

#[test]
fn well_formedness_is_checked() {
    let mut r = get_default_registry();
    assert!(r.is_well_formed());
    let first = ToolInfo { name: r.tools[0].name.clone(), description: "again".to_string() };
    r.tools.push(first);
    assert!(!r.is_well_formed());
}
