use bert_cli::strip::strip_prompt;

#[test]
fn strip_removes_single_occurrence() {
    let out = strip_prompt("Hello world", "Hello");
    assert_eq!(out, " world");
}

#[test]
fn strip_removes_every_occurrence() {
    let out = strip_prompt("Hello world, Hello again", "Hello");
    assert_eq!(out, " world,  again");
}

#[test]
fn strip_empty_prompt_is_noop() {
    let out = strip_prompt("Hello world", "");
    assert_eq!(out, "Hello world");
}

#[test]
fn strip_absent_prompt_is_noop() {
    let out = strip_prompt("Hello world", "xyz");
    assert_eq!(out, "Hello world");
}

#[test]
fn strip_prompt_longer_than_output_is_noop() {
    let out = strip_prompt("hi", "hi there");
    assert_eq!(out, "hi");
}

#[test]
fn strip_removes_leading_echo() {
    let out = strip_prompt("Once upon a time there was a dog.", "Once upon a time");
    assert_eq!(out, " there was a dog.");
}

#[test]
fn strip_equal_strings_leaves_nothing() {
    let out = strip_prompt("same text", "same text");
    assert_eq!(out, "");
}

#[test]
fn strip_scans_left_to_right_without_overlap() {
    // Best-effort heuristic: removing "ab" from "aabb" leaves the outer
    // characters, which reassemble into "ab".
    let out = strip_prompt("aabb", "ab");
    assert_eq!(out, "ab");

    // Adjacent occurrences are both removed.
    let out = strip_prompt("abab", "ab");
    assert_eq!(out, "");

    // Overlapping candidates are not re-scanned.
    let out = strip_prompt("aaa", "aa");
    assert_eq!(out, "a");
}

#[test]
fn strip_handles_multibyte_text() {
    let out = strip_prompt("héllo wörld héllo", "héllo");
    assert_eq!(out, " wörld ");
}
