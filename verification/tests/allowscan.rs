//! The scan for lint suppressions without a justification.

use fsring_core::allowscan::{scan_source, Violation, DENIED_LINTS, SUPPRESSION_PREFIXES};

#[test]
fn an_allow_without_a_proof_comment_is_a_violation() {
    let src = "fn a() {}\n#[allow(clippy::unwrap_used)]\nfn b() {}\n";
    let v = scan_source(src);
    assert_eq!(v.len(), 1, "expected one violation, got {v:?}");
    assert_eq!(v.first().map(|x| x.line), Some(2));
}

// Each fixture below is written on ONE physical line on purpose: a line that
// begins with the attribute text, even inside a string literal, is what this
// line-based scanner is built to notice.

#[test]
fn an_allow_with_a_proof_comment_is_accepted() {
    let src = "// SAFETY: bounded by the caller's assertion.\n#[allow(clippy::indexing_slicing)]\nfn b() {}\n";
    assert!(scan_source(src).is_empty(), "a justified allow must pass");
}

#[test]
fn a_blank_line_between_the_comment_and_the_attribute_is_tolerated() {
    let src = "// SAFETY: bounded above.\n\n#[allow(clippy::indexing_slicing)]\nfn b() {}\n";
    assert!(scan_source(src).is_empty());
}

#[test]
fn an_allow_of_an_undenied_lint_is_ignored() {
    let src = "#[allow(dead_code)]\nfn b() {}\n";
    assert!(scan_source(src).is_empty());
}

#[test]
fn an_expect_is_scanned_like_an_allow() {
    let src = "#[expect(clippy::unwrap_used)]\nfn b() {}\n";
    assert_eq!(
        scan_source(src).len(),
        1,
        "expect suppresses a deny exactly as allow does"
    );
}

#[test]
fn a_justified_expect_is_accepted() {
    let src = "// SAFETY: non-empty by construction.\n#[expect(clippy::indexing_slicing)]\nfn b() {}\n";
    assert!(scan_source(src).is_empty());
}

#[test]
fn a_multi_line_suppression_is_joined_before_matching() {
    let src = "#[allow(\n    clippy::unwrap_used,\n)]\nfn b() {}\n";
    assert_eq!(
        scan_source(src).len(),
        1,
        "a lint named on a continuation line must still be found"
    );
}

#[test]
fn an_inner_allow_is_scanned_too() {
    let src = "#![allow(clippy::expect_used)]\n";
    assert_eq!(scan_source(src).len(), 1);
}

// The tests below hold more of the scan.

#[test]
fn a_violation_carries_its_line_and_its_trimmed_text() {
    let src = "fn a() {}\n   #[allow(clippy::unwrap_used)]\t\nfn b() {}\n";
    assert_eq!(
        scan_source(src),
        vec![Violation {
            line: 2,
            text: "#[allow(clippy::unwrap_used)]".to_string(),
        }]
    );
}

#[test]
fn a_code_line_above_does_not_justify() {
    let src = "// SAFETY: above.\nfn a() {}\n#[allow(clippy::unwrap_used)]\nfn b() {}\n";
    let found = scan_source(src);
    assert_eq!(found.len(), 1);
    assert_eq!(found[0].line, 3);
}

#[test]
fn carriage_returns_and_a_missing_last_newline_change_nothing() {
    let src = "#[allow(clippy::unwrap_used)]\r\n\r\n#[expect(clippy::expect_used)]";
    let found: Vec<usize> = scan_source(src).iter().map(|v| v.line).collect();
    assert_eq!(found, vec![1, 3]);
}

#[test]
fn an_attribute_is_joined_over_eight_lines_and_no_further() {
    let eighth = "#[allow(\na,\na,\na,\na,\na,\na,\nclippy::unwrap_used,\n)]\n";
    assert_eq!(scan_source(eighth).len(), 1);
    let ninth = "#[allow(\na,\na,\na,\na,\na,\na,\na,\nclippy::unwrap_used,\n)]\n";
    assert!(scan_source(ninth).is_empty());
}

#[test]
fn the_join_stops_at_the_end_of_the_attribute() {
    let src = "#[allow(dead_code)]\n// clippy::unwrap_used\nfn b() {}\n";
    assert!(scan_source(src).is_empty());
}

#[test]
fn text_that_is_not_ascii_is_scanned_by_characters() {
    let src = "// \u{e9}\u{e9}\u{e9}\nlet s = \"\u{1f980}\";\n\u{3000}#[allow(clippy::indexing_slicing)]\u{a0}\n";
    assert_eq!(
        scan_source(src),
        vec![Violation {
            line: 3,
            text: "#[allow(clippy::indexing_slicing)]".to_string(),
        }]
    );
}

#[test]
fn every_denied_lint_and_every_prefix_is_known() {
    for lint in DENIED_LINTS {
        for prefix in SUPPRESSION_PREFIXES {
            assert_eq!(scan_source(&format!("{prefix}{lint})]\n")).len(), 1);
        }
    }
    assert!(scan_source("").is_empty());
    assert!(scan_source("\n\n").is_empty());
}
