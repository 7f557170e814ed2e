use runner::relay::{encode_command, mask_line};

#[test]
fn digits_are_masked() {
    assert_eq!(mask_line("joined at 12,64 from 10.0.0.7"), "joined at **,** from **.*.*.*");
}

#[test]
fn non_digits_are_unchanged() {
    assert_eq!(mask_line("no digits here!"), "no digits here!");
}

#[test]
fn masking_twice_changes_nothing() {
    let once = mask_line("x=123 y=456");
    let twice = mask_line(&once);
    assert_eq!(once, twice);
    assert_eq!(once, "x=*** y=***");
}

#[test]
fn empty_line_stays_empty() {
    assert_eq!(mask_line(""), "");
}

#[test]
fn non_ascii_text_is_kept() {
    assert_eq!(mask_line("épée 3"), "épée *");
}

#[test]
fn commands_end_with_one_newline() {
    assert_eq!(encode_command("list"), "list\n");
    assert_eq!(encode_command(""), "\n");
}
