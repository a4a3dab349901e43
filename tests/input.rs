use guardrails::input::{get_file_and_content, is_blocking, is_js_ts_file, EditItem, ToolInput, ToolInputData};
use guardrails::rules::Severity;

fn call(tool: &str, path: Option<&str>, content: Option<&str>, new_string: Option<&str>, edits: Option<Vec<Option<&str>>>) -> ToolInput {
    ToolInput {
        tool_name: tool.to_string(),
        tool_input: ToolInputData {
            file_path: path.map(|p| p.to_string()),
            content: content.map(|c| c.to_string()),
            new_string: new_string.map(|c| c.to_string()),
            edits: edits.map(|es| es.into_iter().map(|e| EditItem { new_string: e.map(|s| s.to_string()) }).collect()),
        },
    }
}

#[test]
fn write_edit_and_multiedit_texts() {
    let w = call("Write", Some("/a.ts"), Some("x = 1"), None, None);
    assert_eq!(get_file_and_content(&w), Some(("/a.ts".to_string(), "x = 1".to_string())));
    let e = call("Edit", Some("/a.ts"), None, Some("y"), None);
    assert_eq!(get_file_and_content(&e), Some(("/a.ts".to_string(), "y".to_string())));
    let m = call("MultiEdit", Some("/a.ts"), None, None, Some(vec![Some("a"), None, Some("b")]));
    assert_eq!(get_file_and_content(&m), Some(("/a.ts".to_string(), "a\nb".to_string())));
}

#[test]
fn unsupported_or_empty_calls_give_nothing() {
    assert_eq!(get_file_and_content(&call("Read", Some("/a.ts"), Some("x"), None, None)), None);
    assert_eq!(get_file_and_content(&call("Write", None, Some("x"), None, None)), None);
    assert_eq!(get_file_and_content(&call("Write", Some(""), Some("x"), None, None)), None);
    assert_eq!(get_file_and_content(&call("Edit", Some("/a.ts"), None, Some(""), None)), None);
    assert_eq!(get_file_and_content(&call("MultiEdit", Some("/a.ts"), None, None, Some(vec![None]))), None);
}

#[test]
fn js_ts_extensions() {
    assert!(is_js_ts_file("/src/a.ts"));
    assert!(is_js_ts_file("/src/a.tsx"));
    assert!(is_js_ts_file("a.js"));
    assert!(is_js_ts_file("a.jsx"));
    assert!(!is_js_ts_file("a.json"));
    assert!(!is_js_ts_file("ts"));
}

#[test]
fn blocking_follows_the_list() {
    let block_on = vec![Severity::Critical, Severity::High];
    assert!(is_blocking(Severity::High, &block_on));
    assert!(!is_blocking(Severity::Low, &block_on));
    assert!(!is_blocking(Severity::High, &vec![]));
}
