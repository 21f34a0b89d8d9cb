//! Tests for the prompt composer and the text utilities under it.

use hive::compose::{compose, reasoning_instructions, Placeholder};
use hive::strings::{
    contains_str, i32_to_string, join_lines, replace_all, replace_first, split_into_lines, str_eq,
    u64_to_string,
};
use hive::tool::{one_string_schema, Tool};

fn tool(name: &str, description: &str) -> Tool {
    Tool::function_tool(name, description, one_string_schema("path", "a path"))
}

#[test]
fn composing_twice_gives_byte_identical_output() {
    let template = "Greetings.\n{TOOLS}\nDir: {DIRECTORY}";
    let placeholders = vec![Placeholder::new("{DIRECTORY}", "/tmp".to_string())];
    let tools = vec![tool("read_file", "Read a file")];
    let a = compose(template, &placeholders, &tools);
    let b = compose(template, &placeholders, &tools);
    assert_eq!(a, b);
}

#[test]
fn tool_placeholder_is_replaced_with_the_listing() {
    let template = "Tools:\n{TOOLS}";
    let tools = vec![
        tool("read_file", "Read a file"),
        tool("write_file", "Write a file"),
    ];
    let composed = compose(template, &vec![], &tools);
    let expected = format!(
        "Tools:\n- **read_file**: Read a file\n- **write_file**: Write a file{}",
        reasoning_instructions()
    );
    assert_eq!(composed, expected);
}

#[test]
fn empty_catalogue_lists_no_tools_available() {
    let composed = compose("{TOOLS}", &vec![], &vec![]);
    let expected = format!("No tools available.{}", reasoning_instructions());
    assert_eq!(composed, expected);
}

#[test]
fn unsupplied_placeholder_stays_verbatim() {
    let composed = compose("Hello {NAME}", &vec![], &vec![]);
    let expected = format!("Hello {{NAME}}{}", reasoning_instructions());
    assert_eq!(composed, expected);
}

#[test]
fn every_occurrence_of_a_placeholder_is_substituted() {
    let placeholders = vec![Placeholder::new("{D}", "x".to_string())];
    let composed = compose("{D} and {D}", &placeholders, &vec![]);
    let expected = format!("x and x{}", reasoning_instructions());
    assert_eq!(composed, expected);
}

#[test]
fn replace_all_scans_left_to_right() {
    assert_eq!(replace_all("a{X}b{X}", "{X}", "-"), "a-b-");
    assert_eq!(replace_all("aaa", "aa", "b"), "ba");
    assert_eq!(replace_all("abc", "", "x"), "abc");
    assert_eq!(replace_all("abc", "zzzz", "x"), "abc");
}

#[test]
fn replace_first_touches_only_the_leftmost_occurrence() {
    assert_eq!(
        replace_first("hello world world", "world", "there").as_deref(),
        Some("hello there world")
    );
    assert_eq!(replace_first("hello", "absent", "x"), None);
}

#[test]
fn string_search_and_equality() {
    assert!(contains_str("the quick fox", "quick"));
    assert!(!contains_str("the quick fox", "slow"));
    assert!(contains_str("anything", ""));
    assert!(str_eq("same", "same"));
    assert!(!str_eq("same", "sane"));
}

#[test]
fn decimal_rendering() {
    assert_eq!(u64_to_string(0).as_str(), "0");
    assert_eq!(u64_to_string(7).as_str(), "7");
    assert_eq!(u64_to_string(1234567890).as_str(), "1234567890");
    assert_eq!(i32_to_string(-5).as_str(), "-5");
    assert_eq!(i32_to_string(0).as_str(), "0");
    assert_eq!(i32_to_string(i32::MIN).as_str(), "-2147483648");
}

#[test]
fn lines_split_and_join_like_a_line_iterator() {
    let lines = split_into_lines("a\nb\n");
    assert_eq!(lines, vec!["a".to_string(), "b".to_string()]);
    assert_eq!(split_into_lines(""), Vec::<String>::new());
    assert_eq!(split_into_lines("a\r\nb"), vec!["a".to_string(), "b".to_string()]);
    assert_eq!(split_into_lines("solo"), vec!["solo".to_string()]);
    assert_eq!(join_lines(&vec!["a".to_string(), "b".to_string()]).as_str(), "a\nb");
    assert_eq!(join_lines(&vec![]).as_str(), "");
}
