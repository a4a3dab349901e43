use guardrails::biome::{
    biome_violation, biome_violations, extract_fix_from_advices, get_fix_for_rule, BiomeAdvice,
    BiomeAdvices, BiomeDiagnostic, BiomeLocation, BiomeMessagePart,
};
use guardrails::rules::Severity;
use guardrails::{build_line_offsets, offset_to_line};

#[test]
fn test_build_line_offsets_empty() {
    let offsets = build_line_offsets("");
    assert!(offsets.is_empty());
}

#[test]
fn test_build_line_offsets_single_line() {
    let offsets = build_line_offsets("hello world");
    assert!(offsets.is_empty());
}

#[test]
fn test_build_line_offsets_multiple_lines() {
    let offsets = build_line_offsets("line1\nline2\nline3");
    assert_eq!(offsets, vec![5, 11]); // positions of \n characters
}

#[test]
fn test_offset_to_line_first_line() {
    let offsets = build_line_offsets("line1\nline2\nline3");
    assert_eq!(offset_to_line(&offsets, 0), 1);
    assert_eq!(offset_to_line(&offsets, 4), 1);
}

#[test]
fn test_offset_to_line_second_line() {
    let offsets = build_line_offsets("line1\nline2\nline3");
    assert_eq!(offset_to_line(&offsets, 6), 2);
    assert_eq!(offset_to_line(&offsets, 10), 2);
}

#[test]
fn test_offset_to_line_third_line() {
    let offsets = build_line_offsets("line1\nline2\nline3");
    assert_eq!(offset_to_line(&offsets, 12), 3);
}

#[test]
fn test_get_fix_for_known_rule() {
    assert!(get_fix_for_rule("lint/security/noGlobalEval").is_some());
    assert!(get_fix_for_rule("lint/suspicious/noExplicitAny").is_some());
    assert!(get_fix_for_rule("lint/a11y/useAltText").is_some());
}

#[test]
fn test_get_fix_for_unknown_rule() {
    assert!(get_fix_for_rule("unknown/rule").is_none());
}

#[test]
fn test_extract_fix_from_empty_advices() {
    let advices = BiomeAdvices { advices: vec![] };
    let result = extract_fix_from_advices(&advices, "fallback message");
    assert_eq!(result, "fallback message");
}

#[test]
fn test_extract_fix_from_log_advice() {
    let advices = BiomeAdvices {
        advices: vec![BiomeAdvice::Log {
            log: (
                "info".to_string(),
                vec![BiomeMessagePart {
                    content: "Fix suggestion".to_string(),
                }],
            ),
        }],
    };
    let result = extract_fix_from_advices(&advices, "fallback");
    assert_eq!(result, "Fix suggestion");
}

#[test]
fn extract_fix_joins_texts_and_skips_empty_and_other() {
    let part = |s: &str| BiomeMessagePart { content: s.to_string() };
    let advices = BiomeAdvices {
        advices: vec![
            BiomeAdvice::Log { log: ("info".to_string(), vec![part("Use "), part("const")]) },
            BiomeAdvice::Other,
            BiomeAdvice::Log { log: ("info".to_string(), vec![]) },
            BiomeAdvice::Log { log: ("info".to_string(), vec![part("instead.")]) },
        ],
    };
    assert_eq!(extract_fix_from_advices(&advices, "fallback"), "Use const instead.");
}

fn diagnostic(category: &str, severity: &str, span: Option<Vec<u32>>, source: &str) -> BiomeDiagnostic {
    BiomeDiagnostic {
        category: category.to_string(),
        severity: severity.to_string(),
        description: "Describes the problem".to_string(),
        advices: BiomeAdvices { advices: vec![] },
        location: BiomeLocation { span, source_code: Some(source.to_string()) },
    }
}

#[test]
fn biome_violation_maps_category_severity_fix_and_line() {
    let source = "let a;\nlet b;\nlet c;";
    let offsets = build_line_offsets(source);
    let d = diagnostic("lint/suspicious/noDebugger", "error", Some(vec![8, 9]), source);
    let v = biome_violation(&d, source, &offsets, "/src/a.ts");
    assert_eq!(v.rule, "biome/lint/suspicious/noDebugger");
    assert_eq!(v.severity, Severity::High);
    assert_eq!(v.failure, "Remove debugger statement");
    assert_eq!(v.file, "/src/a.ts");
    assert_eq!(v.line, Some(2));
}

#[test]
fn biome_violation_falls_back_to_description_and_low_severity() {
    let source = "x";
    let offsets = build_line_offsets(source);
    let d = diagnostic("lint/style/other", "information", None, source);
    let v = biome_violation(&d, source, &offsets, "/src/a.ts");
    assert_eq!(v.severity, Severity::Low);
    assert_eq!(v.failure, "Describes the problem");
    assert_eq!(v.line, None);
    let w = diagnostic("lint/style/other", "warning", Some(vec![]), source);
    let v = biome_violation(&w, source, &offsets, "/src/a.ts");
    assert_eq!(v.severity, Severity::Medium);
    assert_eq!(v.line, Some(1));
}

#[test]
fn biome_violations_count_lines_in_first_source() {
    let first = diagnostic("lint/a", "error", Some(vec![100]), "a\nb\nc");
    let second = diagnostic("lint/b", "error", Some(vec![2]), "");
    let vs = biome_violations(&vec![first, second], "/f.ts");
    assert_eq!(vs.len(), 2);
    assert_eq!(vs[0].line, Some(3));
    assert_eq!(vs[1].line, Some(2));
}
