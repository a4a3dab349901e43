use guardrails::rules::crypto_weak::rule;
use guardrails::rules::Violation;

fn check(content: &str) -> Vec<Violation> {
    rule().unwrap().check(content, "/src/utils/hash.ts")
}

#[test]
fn detects_weak_algorithms() {
    let cases = [
        (
            "crypto.createHash('md5').update(data).digest('hex');",
            "MD5",
        ),
        (
            "crypto.createHash('sha1').update(data).digest('hex');",
            "SHA-1",
        ),
        ("crypto.createCipher('des', key);", "DES"),
    ];
    for (content, expected) in cases {
        let violations = check(content);
        assert_eq!(violations.len(), 1, "Should detect: {}", expected);
        assert!(violations[0].failure.contains(expected));
    }
}

#[test]
fn allows_strong_algorithms() {
    let content = r#"
            const hash = crypto.createHash('sha256').update(data).digest('hex');
            const cipher = crypto.createCipheriv('aes-256-gcm', key, iv);
        "#;
    assert!(check(content).is_empty());
}

#[test]
fn crypto_weak_ignores_comments() {
    let content = r#"
            // Don't use createHash('md5') - it's weak
            const hash = crypto.createHash('sha256').update(data).digest('hex');
        "#;
    assert!(check(content).is_empty());
}
