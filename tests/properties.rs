use guardrails::config::Config;
use guardrails::extract::{extract_brace_content, extract_code_portions, extract_paren_content, is_in_comment};
use guardrails::pattern::Pattern;
use guardrails::rules::{analyze, count_non_comment_matches, find_non_comment_match, load_rules, sensitive_logging, sync_io, Severity};
use guardrails::scanner::StringScanner;
use guardrails::{build_line_offsets, offset_to_line};

#[test]
fn checking_twice_gives_the_same_findings() {
    let rule = sensitive_logging::rule().unwrap();
    let text = "console.log(password);\nlogger.info(token);\nconsole.log('ok');";
    let first = rule.check(text, "/src/a.ts");
    let second = rule.check(text, "/src/a.ts");
    assert_eq!(first.len(), 2);
    assert_eq!(first.len(), second.len());
    for (a, b) in first.iter().zip(second.iter()) {
        assert_eq!(a.rule, b.rule);
        assert_eq!(a.failure, b.failure);
        assert_eq!(a.line, b.line);
        assert_eq!(a.severity, b.severity);
    }
    assert_eq!(first[0].line, Some(1));
    assert_eq!(first[1].line, Some(2));
}

#[test]
fn parenthesis_in_string_does_not_end_extraction() {
    let text = b"(\"(a)\", b)";
    assert_eq!(extract_paren_content(text, 1), Some(&b"\"(a)\", b"[..]));
    assert_eq!(extract_paren_content(b"(a, (b)", 1), None);
    assert_eq!(extract_paren_content(b"(f(g(x)), y) rest", 1), Some(&b"f(g(x)), y"[..]));
}

#[test]
fn interpolation_braces_do_not_close_the_block() {
    let text = b"{ const s = `${ {a: 1}.a }}`; }";
    assert_eq!(extract_brace_content(text, 1), Some(&b" const s = `${ {a: 1}.a }}`; "[..]));
}

#[test]
fn nested_interpolation_closes_once_at_the_last_brace() {
    let text = b"`${fn(`${x}`)}`";
    let mut scanner = StringScanner::new(text, 0);
    let mut empties_after_open = 0;
    let mut was_open = false;
    let mut close_pos = 0;
    while scanner.pos < text.len() {
        let before = scanner.pos;
        scanner.advance();
        let open = !scanner.template_interp_depth.is_empty();
        if was_open && !open {
            empties_after_open += 1;
            close_pos = before;
        }
        was_open = open;
    }
    assert_eq!(empties_after_open, 1);
    assert_eq!(close_pos, 13);
    assert_eq!(text[close_pos], b'}');
    assert!(!scanner.in_template);
}

#[test]
fn line_lookup_counts_newlines_before_offset() {
    let text = "a\n\nbc\nd\n";
    let offsets = build_line_offsets(text);
    for o in 0..=text.len() {
        let before = text.as_bytes()[..o].iter().filter(|b| **b == b'\n').count();
        assert_eq!(offset_to_line(&offsets, o), before + 1);
    }
    assert_eq!(offset_to_line(&build_line_offsets("line1\nline2\nline3"), 12), 3);
}

#[test]
fn patterns_only_in_comments_are_not_reported() {
    let text = "// fs.readFileSync(a)\n/* readFileSync(b) */\n * readFileSync(c)\n  // readFileSync(d)\nok();";
    let rule = sync_io::rule().unwrap();
    assert!(rule.check(text, "/src/io.ts").is_empty());
    let p = Pattern::new("readFileSync").unwrap();
    assert_eq!(find_non_comment_match(text.as_bytes(), &p), None);
    assert_eq!(count_non_comment_matches(text.as_bytes(), &p), 0);
    let logging = sensitive_logging::rule().unwrap();
    assert!(logging.check("/* console.log(password) console.log(secret) */", "/a.ts").is_empty());
    assert!(logging.check("x(); // console.log(password); console.log(token);", "/a.ts").is_empty());
}

#[test]
fn comment_detection_on_the_line() {
    let text = b"a = 1; // note\nb = '//'; c";
    assert!(is_in_comment(text, 10));
    assert!(!is_in_comment(text, 3));
    assert!(!is_in_comment(text, 25));
    assert!(is_in_comment(b"x /* open", 9));
}

#[test]
fn code_portions_drop_strings_and_comments() {
    // An opening delimiter is still read as code, the rest of a literal or
    // comment is not; interpolated code is kept.
    assert_eq!(extract_code_portions(b"a + 'b' + `c${d}e` /* f */ // g\nh"), b"a + ' + `d} / \nh".to_vec());
    assert_eq!(extract_code_portions(b"log(password)"), b"log(password)".to_vec());
}

#[test]
fn masked_value_is_not_reported() {
    let rule = sensitive_logging::rule().unwrap();
    assert!(rule.check("console.log('Password:', '***MASKED***');", "/src/a.ts").is_empty());
}

#[test]
fn password_argument_is_reported_once_as_high() {
    let rule = sensitive_logging::rule().unwrap();
    let found = rule.check("console.log('User password:', password);", "/src/a.ts");
    assert_eq!(found.len(), 1);
    assert_eq!(found[0].severity, Severity::High);
    assert!(found[0].failure.contains("password"));
    assert_eq!(found[0].rule, "sensitive-logging");
    assert_eq!(found[0].file, "/src/a.ts");
    assert_eq!(found[0].line, Some(1));
}

#[test]
fn commented_call_is_not_reported() {
    let rule = sensitive_logging::rule().unwrap();
    assert!(rule.check("// console.log(password);\nconsole.log('ok');", "/src/a.ts").is_empty());
}

#[test]
fn nested_calls_give_one_finding() {
    let rule = sensitive_logging::rule().unwrap();
    assert_eq!(rule.check("console.log(getUser(getSession(token)), secret);", "/src/a.ts").len(), 1);
}

#[test]
fn unterminated_call_is_not_reported() {
    let rule = sensitive_logging::rule().unwrap();
    assert!(rule.check("console.log(password", "/src/a.ts").is_empty());
}

#[test]
fn offset_twelve_is_on_line_three() {
    let offsets = build_line_offsets("line1\nline2\nline3");
    assert_eq!(offset_to_line(&offsets, 12), 3);
    assert_eq!(offset_to_line(&offsets, 5), 1);
    assert_eq!(offset_to_line(&offsets, 17), 3);
}

#[test]
fn invalid_pattern_is_refused() {
    let e = Pattern::new("foo(").err().unwrap();
    assert_eq!(e.pattern, "foo(");
    assert!(Pattern::new("foo").is_ok());
}

#[test]
fn engine_runs_matching_rules_in_order() {
    let config = Config::default();
    let rules = load_rules(&config).unwrap();
    assert_eq!(rules.len(), 14);
    let text = "const data = fs.readFileSync('a');\nconsole.log(password);";
    let found = analyze(&rules, text, "/src/utils/file.ts");
    let ids: Vec<&str> = found.iter().map(|v| v.rule.as_str()).collect();
    assert_eq!(ids, vec!["sync-io", "sensitive-logging"]);
    assert!(analyze(&rules, text, "/src/utils/file.md").is_empty());
    assert_eq!(analyze(&rules, "", "/project/.env").len(), 1);
}

#[test]
fn disabled_rules_are_not_loaded() {
    let mut config = Config::default();
    config.rules.sync_io = false;
    config.rules.sensitive_logging = false;
    let rules = load_rules(&config).unwrap();
    assert_eq!(rules.len(), 12);
    let text = "const data = fs.readFileSync('a');\nconsole.log(password);";
    assert!(analyze(&rules, text, "/src/utils/file.ts").is_empty());
}

#[test]
fn transaction_message_counts_writes() {
    let rule = guardrails::rules::transaction::rule().unwrap();
    let text = "a.save();\nb.update();\nc.delete();";
    let found = rule.check(text, "/src/services/x.ts");
    assert_eq!(found.len(), 1);
    assert!(found[0].failure.ends_with("- 3 write ops detected"));
    assert_eq!(found[0].line, Some(1));
}

#[test]
fn test_assertion_reports_name_and_line() {
    let rule = guardrails::rules::test_assertion::rule().unwrap();
    let text = "\nit('does a thing', () => {\n  run();\n});";
    let found = rule.check(text, "/src/a.test.ts");
    assert_eq!(found.len(), 1);
    assert_eq!(found[0].failure, "Test 'does a thing' has no assertions. Add expect() or assert calls.");
    assert_eq!(found[0].line, Some(2));
}

#[test]
fn extra_rule_tables_report() {
    let console = guardrails::rules::console_log::rule().unwrap();
    let found = console.check("console.debug(x);\nconsole.log(y);", "/src/a.ts");
    let ids: Vec<&str> = found.iter().map(|v| v.rule.as_str()).collect();
    assert_eq!(ids, vec!["console-log", "console-debug"]);
    assert!(console.check("console.log(y);", "/src/a.test.ts").is_empty());
    let errors = guardrails::rules::error_handling::rule().unwrap();
    let found = errors.check("try { x(); } catch (e) {}", "/src/a.ts");
    assert_eq!(found.len(), 1);
    assert_eq!(found[0].severity, Severity::High);
}

#[test]
fn severity_labels_and_ranks() {
    assert_eq!(Severity::Critical.as_str(), "CRITICAL");
    assert_eq!(Severity::Low.as_str(), "LOW");
    assert!(Severity::Critical.rank() > Severity::High.rank());
    assert!(Severity::High.rank() > Severity::Medium.rank());
    assert!(Severity::Medium.rank() > Severity::Low.rank());
}

#[test]
fn interpolation_code_is_live_code() {
    let text = b"`a${x}`";
    let mut scanner = StringScanner::new(text, 0);
    scanner.advance();
    assert!(scanner.in_non_code_context());
    scanner.advance();
    scanner.advance();
    assert!(!scanner.template_interp_depth.is_empty());
    assert!(!scanner.in_non_code_context());
    scanner.advance();
    scanner.advance();
    assert!(scanner.in_non_code_context());
}

#[test]
fn interpolation_braces_keep_their_own_count() {
    assert_eq!(extract_brace_content(b"`${ {a:1} }` } z", 0), Some(&b"`${ {a:1} }` "[..]));
    assert_eq!(extract_brace_content(b"s = `${fn(`${x}`)}`; } z", 0), Some(&b"s = `${fn(`${x}`)}`; "[..]));
    assert_eq!(extract_paren_content(b"`${ (a }` ) z", 0), Some(&b"`${ (a }` "[..]));
}

#[test]
fn block_comment_from_an_earlier_line_counts() {
    let text = b"/*\nconsole.log(password);\n*/";
    assert!(is_in_comment(text, 3));
    assert!(!is_in_comment(b"/* a */\nb", 8));
    let logging = sensitive_logging::rule().unwrap();
    assert!(logging.check("/*\nconsole.log(password);\n*/\nconsole.log('ok');", "/a.ts").is_empty());
    let found = logging.check("/*\nconsole.log(password);\n*/\nconsole.log(secret);", "/a.ts");
    assert_eq!(found.len(), 1);
    assert_eq!(found[0].line, Some(4));
}
