use guardrails::rules::generated_file::rule;
use guardrails::rules::Violation;

fn check(path: &str) -> Vec<Violation> {
    rule().unwrap().check("", path)
}

#[test]
fn detects_generated_ts() {
    assert_eq!(check("/src/api/client.generated.ts").len(), 1);
    assert_eq!(check("/src/api/types.generated.js").len(), 1);
}

#[test]
fn detects_g_files() {
    assert_eq!(check("/src/models/user.g.ts").len(), 1);
    assert_eq!(check("/lib/models/user.g.dart").len(), 1);
}

#[test]
fn detects_underscore_generated() {
    assert_eq!(check("/src/api/schema_generated.ts").len(), 1);
}

#[test]
fn detects_auto_files() {
    assert_eq!(check("/src/types/api.auto.ts").len(), 1);
}

#[test]
fn detects_generated_directory() {
    assert_eq!(check("/src/generated/types.ts").len(), 1);
    assert_eq!(check("/src/__generated__/graphql.ts").len(), 1);
}

#[test]
fn generated_file_allows_normal_files() {
    assert!(check("/src/components/Button.tsx").is_empty());
    assert!(check("/src/utils/helper.ts").is_empty());
    assert!(check("/src/api/client.ts").is_empty());
}
