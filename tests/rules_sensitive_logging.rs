use guardrails::rules::sensitive_logging::rule;
use guardrails::rules::Violation;

fn check(content: &str) -> Vec<Violation> {
    rule().unwrap().check(content, "/src/auth/login.ts")
}

#[test]
fn detects_sensitive_keywords() {
    let cases = [
        ("console.log('User password:', password);", "password"),
        ("console.log('Token:', accessToken);", "accessToken"),
        ("console.error('API Key:', apiKey);", "apiKey"),
        ("logger.info('Secret:', secret);", "secret"),
        ("console.log('Refresh:', refreshToken);", "refreshToken"),
        ("logger.debug('Cred:', credential);", "credential"),
    ];
    for (content, keyword) in cases {
        let violations = check(content);
        assert_eq!(violations.len(), 1, "Should detect: {}", keyword);
    }
}

#[test]
fn detects_template_literal_with_sensitive() {
    let content = r#"console.log(`User ${username} password: ${password}`);"#;
    assert!(!check(content).is_empty());
}

#[test]
fn allows_safe_logging() {
    let cases = [
        r#"console.log('Password:', '***MASKED***');"#,
        r#"console.log('User logged in:', userId);"#,
        r#"console.log('Request received');"#,
    ];
    for content in cases {
        assert!(check(content).is_empty(), "Should allow: {}", content);
    }
}

#[test]
fn sensitive_logging_ignores_comments() {
    let content = "// console.log('Debug:', password);\nconsole.log('User:', username);";
    assert!(check(content).is_empty());
}

#[test]
fn detects_nested_function_call() {
    let content = r#"console.log(getUser(id), password);"#;
    assert_eq!(check(content).len(), 1);
}

#[test]
fn detects_deeply_nested_calls() {
    let content = r#"console.log(getUser(getSession(token)), secret);"#;
    let violations = check(content);
    assert_eq!(violations.len(), 1);
}

#[test]
fn handles_string_with_parens() {
    // Parentheses inside strings should not affect depth tracking
    let content = r#"console.log("(test)", password);"#;
    let violations = check(content);
    assert_eq!(violations.len(), 1);
}

#[test]
fn no_duplicate_violations() {
    // Should report only once per line
    let content = r#"console.log(password, secret);"#;
    let violations = check(content);
    assert_eq!(violations.len(), 1);
}

#[test]
fn detects_sensitive_in_template_interpolation() {
    // Function calls inside ${...} should be parsed correctly
    let content = r#"console.log(`value: ${getPassword(password)}`);"#;
    assert_eq!(check(content).len(), 1);
}

#[test]
fn url_in_string_not_treated_as_comment() {
    // URL contains "//" but should not be treated as line comment
    let content = r#"console.log("https://example.com", password);"#;
    assert_eq!(check(content).len(), 1);
}

#[test]
fn ignores_block_comments() {
    let content = "/* console.log(password); */\nconsole.log('safe');";
    assert!(check(content).is_empty());
}

#[test]
fn ignores_inline_block_comment() {
    let content = "console.log(/* password */ 'masked');";
    assert!(check(content).is_empty());
}
