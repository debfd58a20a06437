use plpgsql_check_report::text::{chars_of, decimal_string, indent, replace_tabs};

#[test]
fn indent_pads_after_each_line_break() {
    assert_eq!(indent("a\nb\nc", "  "), "a\n  b\n  c");
    assert_eq!(indent("a\n", "> "), "a\n> ");
    assert_eq!(indent("\n\n", "xy"), "\nxy\nxy");
}

#[test]
fn indent_leaves_single_line_alone() {
    assert_eq!(indent("abc", "    "), "abc");
    assert_eq!(indent("", "    "), "");
}

#[test]
fn indent_with_empty_pad_is_identity() {
    assert_eq!(indent("a\nb\n", ""), "a\nb\n");
}

#[test]
fn indent_twice_stacks_the_pads() {
    let once = indent("a\nb", "  ");
    assert_eq!(indent(&once, "| "), "a\n|   b");
    assert_eq!(indent(&once, "| "), indent("a\nb", "|   "));
}

#[test]
fn replace_tabs_keeps_length() {
    let text = "\tif x then\n\t\treturn;\t";
    let out = replace_tabs(text);
    assert_eq!(out, " if x then\n  return; ");
    assert_eq!(out.chars().count(), text.chars().count());
    assert!(!out.contains('\t'));
}

#[test]
fn replace_tabs_without_tabs_is_identity() {
    assert_eq!(replace_tabs("select 1;"), "select 1;");
    assert_eq!(replace_tabs(""), "");
}

#[test]
fn decimal_string_writes_base_ten() {
    assert_eq!(decimal_string(0), "0");
    assert_eq!(decimal_string(7), "7");
    assert_eq!(decimal_string(10), "10");
    assert_eq!(decimal_string(109), "109");
    assert_eq!(decimal_string(1234567890), "1234567890");
    assert_eq!(decimal_string(usize::MAX), format!("{}", usize::MAX));
}

#[test]
fn chars_of_lists_characters() {
    assert_eq!(chars_of("aé🛑\n"), vec!['a', 'é', '🛑', '\n']);
    assert_eq!(chars_of(""), Vec::<char>::new());
}
