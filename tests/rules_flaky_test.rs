use guardrails::rules::flaky_test::rule;
use guardrails::rules::Violation;

fn check(content: &str) -> Vec<Violation> {
    let r = rule().unwrap();
    if !r.applies_to("/src/utils.test.ts") {
        return Vec::new();
    }
    r.check(content, "/src/utils.test.ts")
}

#[test]
fn detects_flaky_patterns() {
    let cases = [
        ("setTimeout(() => done(), 1000);", "setTimeout"),
        ("await sleep(500);", "sleep"),
        ("const value = Math.random();", "Math.random"),
        ("const now = Date.now();", "Date.now"),
        ("const date = new Date();", "new Date"),
    ];
    for (code, expected) in cases {
        let content = format!("it('test', () => {{ {} }});", code);
        let violations = check(&content);
        assert_eq!(violations.len(), 1, "Should detect: {}", expected);
        assert!(violations[0].failure.contains(expected));
    }
}

#[test]
fn allows_fake_timers_usage() {
    let content = r#"
            beforeEach(() => {
                jest.useFakeTimers();
            });
            it('should advance time', () => {
                jest.advanceTimersByTime(1000);
            });
        "#;
    assert!(check(content).is_empty());
}

#[test]
fn allows_waitfor_pattern() {
    let content = r#"
            it('should wait for element', async () => {
                await waitFor(() => expect(element).toBeVisible());
            });
        "#;
    assert!(check(content).is_empty());
}

#[test]
fn ignores_non_test_files() {
    let r = rule().unwrap();
    assert!(!r.applies_to("/src/utils.ts"));
}

#[test]
fn flaky_test_ignores_comments() {
    let content = r#"
            // Don't use setTimeout(() => done(), 1000);
            it('should work', () => {
                expect(true).toBe(true);
            });
        "#;
    assert!(check(content).is_empty());
}
