use demo2replay::handle::{is_descriptor_entry, next_handle};
use demo2replay::template::{render_template, Placeholder, Substitution};
use demo2replay::text::{decimal_string, replace_all};

#[test]
fn replace_all_replaces_every_occurrence() {
    assert_eq!(replace_all("%map% and %map%!", "%map%", "ctf_2fort"), "ctf_2fort and ctf_2fort!");
    assert_eq!(replace_all("aaaa", "aa", "b"), "bb");
    assert_eq!(replace_all("aaa", "aa", "b"), "ba");
    assert_eq!(replace_all("", "%x%", "y"), "");
}

#[test]
fn replace_all_leaves_text_without_pattern() {
    assert_eq!(replace_all("no tokens here", "%map%", "x"), "no tokens here");
    assert_eq!(replace_all("%ma", "%map%", "x"), "%ma");
}

#[test]
fn replace_all_handles_wide_characters() {
    assert_eq!(replace_all("é%t%ü", "%t%", "ß"), "éßü");
}

#[test]
fn decimal_string_examples() {
    assert_eq!(decimal_string(0), "0");
    assert_eq!(decimal_string(7), "7");
    assert_eq!(decimal_string(10), "10");
    assert_eq!(decimal_string(7758), "7758");
    assert_eq!(decimal_string(u64::MAX), u64::MAX.to_string());
}

#[test]
fn render_template_without_tokens_is_unchanged() {
    let subs = vec![
        Substitution { placeholder: Placeholder::MapName, value: String::from("pl_upward") },
        Substitution { placeholder: Placeholder::Title, value: String::from("T") },
    ];
    assert_eq!(render_template("plain text, 100% sure", &subs), "plain text, 100% sure");
}

#[test]
fn render_template_replaces_repeated_tokens() {
    let subs = vec![
        Substitution { placeholder: Placeholder::Handle, value: String::from("3") },
        Substitution { placeholder: Placeholder::Screenshot, value: String::from("shot") },
    ];
    assert_eq!(
        render_template("%handle%-%screenshot%-%handle%-%screenshot%", &subs),
        "3-shot-3-shot"
    );
}

#[test]
fn handle_counts_descriptors_only() {
    assert_eq!(next_handle(&vec![]), 0);
    let names: Vec<String> = ["a.dmx", "b.dem", "c.dmx", ".dmx", "d.DMX", "e.dmx.bak", "f.dmx"]
        .iter()
        .map(|s| s.to_string())
        .collect();
    assert_eq!(next_handle(&names), 3);
    let others: Vec<String> = ["x.dem", "y.vtf"].iter().map(|s| s.to_string()).collect();
    assert_eq!(next_handle(&others), 0);
}

#[test]
fn descriptor_entry_names() {
    assert!(is_descriptor_entry("replay.dmx"));
    assert!(is_descriptor_entry("..dmx"));
    assert!(!is_descriptor_entry(".dmx"));
    assert!(!is_descriptor_entry("dmx"));
    assert!(!is_descriptor_entry("a.dmxx"));
}
