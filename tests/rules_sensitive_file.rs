use guardrails::rules::sensitive_file::rule;
use guardrails::rules::Violation;

fn check(path: &str) -> Vec<Violation> {
    rule().unwrap().check("", path)
}

#[test]
fn detects_env_file() {
    assert_eq!(check("/project/.env").len(), 1);
    assert_eq!(check("/project/.env.local").len(), 1);
    assert_eq!(check("/project/.env.production").len(), 1);
}

#[test]
fn detects_credentials_file() {
    assert_eq!(check("/project/credentials.json").len(), 1);
    assert_eq!(check("/project/aws_credentials.json").len(), 1);
}

#[test]
fn detects_key_files() {
    assert_eq!(check("/project/api_key.json").len(), 1);
    assert_eq!(check("/project/private.pem").len(), 1);
    assert_eq!(check("/project/server.key").len(), 1);
    assert_eq!(check("~/.ssh/id_rsa").len(), 1);
    assert_eq!(check("~/.ssh/id_ed25519").len(), 1);
}

#[test]
fn sensitive_file_allows_normal_files() {
    assert!(check("/project/src/index.ts").is_empty());
    assert!(check("/project/README.md").is_empty());
    assert!(check("/project/package.json").is_empty());
}

#[test]
fn blocks_env_example_for_safety() {
    // .env.example is often committed as a template, but we block it for safety
    assert_eq!(check("/project/.env.example").len(), 1);
}
