use guardrails::scanner::StringScanner;
use guardrails::{build_line_offsets, offset_to_line};

#[test]
fn scanner_handles_simple_string() {
    let content = b"'hello'";
    let mut scanner = StringScanner::new(content, 0);

    assert!(!scanner.in_non_code_context());
    scanner.advance(); // '
    assert!(scanner.in_single_quote);
    while scanner.pos < content.len() {
        scanner.advance();
    }
    assert!(!scanner.in_single_quote);
}

#[test]
fn scanner_handles_block_comment() {
    let content = b"/* comment */code";
    let mut scanner = StringScanner::new(content, 0);

    scanner.advance(); // /* (advances by 2)
    assert!(scanner.in_block_comment);
    while scanner.in_block_comment && scanner.pos < content.len() {
        scanner.advance();
    }
    assert!(!scanner.in_block_comment);
    assert_eq!(scanner.pos, 13); // After */ (pointing to 'c' in code)
}

#[test]
fn scanner_handles_template_interpolation() {
    let content = b"`${x}`";
    let mut scanner = StringScanner::new(content, 0);

    scanner.advance(); // ` (pos=1)
    assert!(scanner.in_template);
    scanner.advance(); // ${ (advances by 2, pos=3, enters interpolation)
    assert!(!scanner.template_interp_depth.is_empty());
    assert!(!scanner.in_template); // Template paused during interpolation
    scanner.advance(); // x (pos=4)
    scanner.advance(); // } (pos=5, exits interpolation, resumes template)
    assert!(scanner.in_template);
    scanner.advance(); // ` (pos=6, exits template)
    assert!(!scanner.in_template);
}

#[test]
fn scanner_handles_line_comment() {
    let content = b"// comment\ncode";
    let mut scanner = StringScanner::new(content, 0);

    scanner.advance(); // // (advances by 2)
    assert!(scanner.in_line_comment);
    while scanner.in_line_comment && scanner.pos < content.len() {
        scanner.advance();
    }
    assert!(!scanner.in_line_comment);
    assert_eq!(scanner.pos, 11); // After \n (pointing to 'c' in code)
}

#[test]
fn line_offsets_work() {
    let offsets = build_line_offsets("line1\nline2\nline3");
    assert_eq!(offset_to_line(&offsets, 0), 1);
    assert_eq!(offset_to_line(&offsets, 6), 2);
    assert_eq!(offset_to_line(&offsets, 12), 3);
}

#[test]
fn escape_at_end_of_input() {
    let content = b"'\\";
    let mut scanner = StringScanner::new(content, 0);
    scanner.advance(); // '
    scanner.advance(); // \ (should not panic)
    assert!(scanner.pos <= content.len());
}
