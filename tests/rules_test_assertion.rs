use guardrails::rules::test_assertion::rule;
use guardrails::rules::Violation;

fn check(content: &str) -> Vec<Violation> {
    let r = rule().unwrap();
    if !r.applies_to("/src/utils.test.ts") {
        return Vec::new();
    }
    r.check(content, "/src/utils.test.ts")
}

#[test]
fn detects_test_without_assertion() {
    let content = r#"
            it('should do something', () => {
                const result = doSomething();
            });
        "#;
    let violations = check(content);
    assert_eq!(violations.len(), 1);
    assert!(violations[0].failure.contains("should do something"));
}

#[test]
fn allows_test_with_expect() {
    let content = r#"
            it('should return true', () => {
                const result = doSomething();
                expect(result).toBe(true);
            });
        "#;
    assert!(check(content).is_empty());
}

#[test]
fn allows_test_with_assert() {
    let content = r#"
            it('should return true', () => {
                const result = doSomething();
                assert.equal(result, true);
            });
        "#;
    assert!(check(content).is_empty());
}

#[test]
fn allows_empty_test_placeholder() {
    let content = r#"
            it('should do something', () => {
            });
        "#;
    assert!(check(content).is_empty());
}

#[test]
fn allows_async_test_with_assertion() {
    let content = r#"
            it('should fetch data', async () => {
                const result = await fetchData();
                expect(result).toBeDefined();
            });
        "#;
    assert!(check(content).is_empty());
}

#[test]
fn allows_test_with_nested_braces_and_assertion() {
    let content = r#"
            it('should handle conditional', () => {
                if (condition) {
                    doSomething();
                }
                expect(result).toBe(true);
            });
        "#;
    assert!(check(content).is_empty());
}

#[test]
fn detects_test_with_nested_braces_no_assertion() {
    let content = r#"
            it('should handle conditional', () => {
                if (condition) {
                    doSomething();
                }
            });
        "#;
    let violations = check(content);
    assert_eq!(violations.len(), 1);
}

#[test]
fn handles_braces_in_string_literals() {
    let content = r#"
            it('should handle string with braces', () => {
                const s = "{ not a real brace }";
                expect(s).toBe("{ not a real brace }");
            });
        "#;
    assert!(check(content).is_empty());
}

#[test]
fn handles_braces_in_single_quotes() {
    let content = r#"
            it('should handle single quoted braces', () => {
                const s = '{ brace }';
                expect(s).toBeDefined();
            });
        "#;
    assert!(check(content).is_empty());
}

#[test]
fn handles_braces_in_template_literals() {
    let content = r#"
            it('should handle template literal braces', () => {
                const s = `{ template ${brace} }`;
                expect(s).toBeTruthy();
            });
        "#;
    assert!(check(content).is_empty());
}

#[test]
fn handles_braces_in_comments() {
    let content = r#"
            it('should handle comment braces', () => {
                // { this is a comment }
                /* { block comment } */
                expect(true).toBe(true);
            });
        "#;
    assert!(check(content).is_empty());
}

#[test]
fn detects_missing_assertion_with_string_braces() {
    let content = r#"
            it('should fail without assertion', () => {
                const s = "{ fake brace }";
                console.log(s);
            });
        "#;
    let violations = check(content);
    assert_eq!(violations.len(), 1);
}

#[test]
fn handles_template_literal_interpolation_with_braces() {
    let content = r#"
            it('should handle interpolation with arrow function', () => {
                const fn = () => { return 42; };
                const s = `result: ${fn()}`;
                expect(s).toBe("result: 42");
            });
        "#;
    assert!(check(content).is_empty());
}

#[test]
fn handles_nested_template_interpolation() {
    let content = r#"
            it('should handle nested interpolation', () => {
                const obj = { a: 1 };
                const s = `value: ${obj.a > 0 ? 'positive' : 'negative'}`;
                expect(s).toBeDefined();
            });
        "#;
    assert!(check(content).is_empty());
}

#[test]
fn detects_missing_assertion_with_template_interpolation() {
    let content = r#"
            it('should fail without assertion', () => {
                const fn = () => { return 42; };
                const s = `result: ${fn()}`;
                console.log(s);
            });
        "#;
    let violations = check(content);
    assert_eq!(violations.len(), 1);
}

#[test]
fn handles_string_inside_interpolation() {
    let content = r#"
            it('should handle string with braces inside interpolation', () => {
                const s = `value: ${"a{b}c"}`;
                expect(s).toBeDefined();
            });
        "#;
    assert!(check(content).is_empty());
}
