use wlankeys::doc::{extract_field, Element};
use wlankeys::wide::{decode_name, wide_copy, wide_eq};

fn w(s: &str) -> Vec<u16> {
    s.encode_utf16().collect()
}

fn el(name: &str, text: &str, children: Vec<Element>) -> Element {
    Element {
        name: w(name),
        text: w(text),
        children,
    }
}

#[test]
fn missing_path_is_not_found_not_an_error() {
    let doc = el(
        "WLANProfile",
        "",
        vec![el("MSM", "", vec![el("security", "", vec![])])],
    );
    let path = vec![w("MSM"), w("security"), w("sharedKey"), w("keyMaterial")];
    assert_eq!(extract_field(&doc, &path), None);
}

#[test]
fn empty_path_finds_nothing() {
    let doc = el("root", "text", vec![]);
    let path: Vec<Vec<u16>> = vec![];
    assert_eq!(extract_field(&doc, &path), None);
}

#[test]
fn credential_found_at_nested_path() {
    let doc = el(
        "WLANProfile",
        "",
        vec![el(
            "MSM",
            "",
            vec![el(
                "security",
                "",
                vec![el(
                    "sharedKey",
                    "",
                    vec![el("keyMaterial", "hunter2", vec![])],
                )],
            )],
        )],
    );
    let path = vec![w("MSM"), w("security"), w("sharedKey"), w("keyMaterial")];
    assert_eq!(extract_field(&doc, &path), Some(w("hunter2")));
}

#[test]
fn later_same_named_sibling_is_still_tried() {
    // Two siblings named "a": only the second subtree holds the rest of the
    // path, so abandoning the level after the first match would lose it.
    let doc = el(
        "root",
        "",
        vec![
            el("a", "", vec![el("x", "", vec![])]),
            el("a", "", vec![el("b", "", vec![el("c", "secret", vec![])])]),
        ],
    );
    let path = vec![w("a"), w("b"), w("c")];
    assert_eq!(extract_field(&doc, &path), Some(w("secret")));
}

#[test]
fn first_matching_subtree_wins_when_both_hold_the_path() {
    let doc = el(
        "root",
        "",
        vec![
            el("a", "", vec![el("b", "one", vec![])]),
            el("a", "", vec![el("b", "two", vec![])]),
        ],
    );
    let path = vec![w("a"), w("b")];
    assert_eq!(extract_field(&doc, &path), Some(w("one")));
}

#[test]
fn text_is_returned_exactly_as_stored() {
    let doc = el(
        "root",
        "",
        vec![el("keyMaterial", "correcthorse", vec![])],
    );
    let path = vec![w("keyMaterial")];
    assert_eq!(extract_field(&doc, &path), Some(w("correcthorse")));

    let padded = el(
        "root",
        "",
        vec![el("keyMaterial", "  spaced out  ", vec![])],
    );
    assert_eq!(extract_field(&padded, &path), Some(w("  spaced out  ")));
}

#[test]
fn decode_name_stops_at_first_null() {
    let mut b = w("Wi-Fi 1");
    b.push(0);
    b.push(88);
    b.push(0);
    assert_eq!(decode_name(&b), Some(w("Wi-Fi 1")));
}

#[test]
fn decode_name_rejects_buffer_without_terminator() {
    let b = w("no terminator here");
    assert_eq!(decode_name(&b), None);
    let empty: Vec<u16> = vec![];
    assert_eq!(decode_name(&empty), None);
}

#[test]
fn decode_name_of_immediate_null_is_empty() {
    let b = vec![0u16, 65, 66];
    assert_eq!(decode_name(&b), Some(vec![]));
}

#[test]
fn wide_helpers_compare_and_copy() {
    let a = w("same");
    let b = w("same");
    let c = w("other");
    assert!(wide_eq(&a, &b));
    assert!(!wide_eq(&a, &c));
    assert_eq!(wide_copy(&a), a);
}
