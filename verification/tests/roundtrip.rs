//! Quoted-string escaping and its inverse: render-then-parse returns the
//! original characters, for quotes, backslashes and control characters.

use dgraph_query::condition::{Condition, ConditionValue};
use dgraph_query::escape::{json_quote_string, unescape_quoted};

fn round_trips(original: &str) {
    let quoted = json_quote_string(original);
    let parsed = unescape_quoted(quoted.as_str()).expect("a rendered quoted string parses");
    assert_eq!(parsed, original);
}

#[test]
fn quoting_escapes_specials_exactly() {
    assert_eq!(json_quote_string("plain"), "\"plain\"");
    assert_eq!(json_quote_string(""), "\"\"");
    assert_eq!(json_quote_string("a\"b"), "\"a\\\"b\"");
    assert_eq!(json_quote_string("a\\b"), "\"a\\\\b\"");
    assert_eq!(json_quote_string("a\nb\tc\rd"), "\"a\\nb\\tc\\rd\"");
    assert_eq!(json_quote_string("\u{8}\u{c}"), "\"\\b\\f\"");
    assert_eq!(json_quote_string("\u{1}\u{1f}"), "\"\\u0001\\u001f\"");
}

#[test]
fn quoted_values_round_trip() {
    round_trips("");
    round_trips("plain text");
    round_trips("with \"quotes\" inside");
    round_trips("back\\slash");
    round_trips("tab\there\nnewline\rreturn");
    round_trips("control \u{0} \u{1} \u{b} \u{e} \u{1f} end");
    round_trips("mixed \\\" \n \u{7} unicode \u{300} ☂");
}

#[test]
fn unescape_rejects_malformed_tokens() {
    assert!(unescape_quoted("no quotes").is_none());
    assert!(unescape_quoted("\"").is_none());
    assert!(unescape_quoted("\"dangling\\\"").is_none());
    assert!(unescape_quoted("\"bad \\x escape\"").is_none());
    assert!(unescape_quoted("\"short \\u00\"").is_none());
    assert!(unescape_quoted("\"bad hex \\u00zz\"").is_none());
}

#[test]
fn quoted_string_condition_round_trips_through_render() {
    let original = "needs \"escaping\" and \\ and \n";
    let c = Condition::EQ(
        "node_key".to_string(),
        ConditionValue::String(original.to_string()),
    );
    let rendered = c.to_query_string();
    let token = &rendered["eq(node_key, ".len()..rendered.len() - 1];
    assert_eq!(
        unescape_quoted(token).expect("token parses").as_str(),
        original
    );
}
