use guardrails::rules::test_location::rule;
use guardrails::rules::Violation;

fn check(path: &str) -> Vec<Violation> {
    rule().unwrap().check("", path)
}

#[test]
fn detects_test_file_in_src() {
    assert_eq!(check("/project/src/utils/helper.test.ts").len(), 1);
    assert_eq!(check("/project/src/components/Button.spec.tsx").len(), 1);
}

#[test]
fn detects_tests_dir_in_src() {
    assert_eq!(check("/project/src/__tests__/utils.ts").len(), 1);
    assert_eq!(
        check("/project/src/components/__tests__/Button.ts").len(),
        1
    );
}

#[test]
fn allows_test_file_outside_src() {
    assert!(check("/project/tests/utils/helper.test.ts").is_empty());
    assert!(check("/project/__tests__/components/Button.spec.tsx").is_empty());
}

#[test]
fn allows_normal_files_in_src() {
    assert!(check("/project/src/utils/helper.ts").is_empty());
    assert!(check("/project/src/components/Button.tsx").is_empty());
}

#[test]
fn allows_files_outside_src() {
    assert!(check("/project/lib/utils.ts").is_empty());
    assert!(check("/project/app/page.tsx").is_empty());
}
