use pkexec_shell::text::{join_lines, split_lines};

fn owned(lines: &[&str]) -> Vec<String> {
    lines.iter().map(|line| line.to_string()).collect()
}

fn std_lines(text: &str) -> Vec<String> {
    text.lines().map(|line| line.to_string()).collect()
}

#[test]
fn split_lines_of_empty_text_is_empty() {
    assert_eq!(split_lines(""), Vec::<String>::new());
}

#[test]
fn split_lines_cuts_at_line_feeds() {
    assert_eq!(split_lines("a\nb\nc\n"), owned(&["a", "b", "c"]));
}

#[test]
fn split_lines_keeps_last_line_without_ending() {
    assert_eq!(split_lines("a\nb"), owned(&["a", "b"]));
    assert_eq!(split_lines("only"), owned(&["only"]));
}

#[test]
fn split_lines_keeps_empty_lines() {
    assert_eq!(split_lines("\n"), owned(&[""]));
    assert_eq!(split_lines("\n\n"), owned(&["", ""]));
    assert_eq!(split_lines("a\n\nb\n"), owned(&["a", "", "b"]));
}

#[test]
fn split_lines_drops_carriage_return_before_line_feed() {
    assert_eq!(split_lines("a\r\nb\r\n"), owned(&["a", "b"]));
    assert_eq!(split_lines("\r\n"), owned(&[""]));
}

#[test]
fn split_lines_drops_only_one_carriage_return() {
    assert_eq!(split_lines("a\r\r\n"), owned(&["a\r"]));
    assert_eq!(split_lines("\r\r\r\nx"), owned(&["\r\r", "x"]));
}

#[test]
fn split_lines_keeps_carriage_return_elsewhere() {
    assert_eq!(split_lines("a\rb\n"), owned(&["a\rb"]));
    assert_eq!(split_lines("a\r"), owned(&["a\r"]));
    assert_eq!(split_lines("a\n\r"), owned(&["a", "\r"]));
    assert_eq!(split_lines("\ra\n"), owned(&["\ra"]));
}

#[test]
fn split_lines_handles_text_beyond_ascii() {
    assert_eq!(split_lines("règle\nправило\r\n规则"), owned(&["règle", "правило", "规则"]));
}

#[test]
fn split_lines_agrees_with_std() {
    let samples = [
        "",
        "\n",
        "\r",
        "\r\n",
        "\n\r",
        "a",
        "a\n",
        "a\r",
        "a\r\n",
        "a\r\r\n",
        "a\nb",
        "a\n\nb",
        "a\r\n\r\nb\r",
        "\r\r",
        "\n\n\n",
        "x\ry\nz\r\n\r",
        "Chain INPUT (policy ACCEPT)\nnum  target\n1    ACCEPT\n",
    ];
    for sample in samples {
        assert_eq!(split_lines(sample), std_lines(sample), "for {:?}", sample);
    }
}

#[test]
fn join_lines_of_nothing_is_empty() {
    assert_eq!(join_lines(&Vec::new()), "");
}

#[test]
fn join_lines_of_one_line_is_that_line() {
    assert_eq!(join_lines(&owned(&["one"])), "one");
}

#[test]
fn join_lines_puts_line_feeds_between() {
    assert_eq!(join_lines(&owned(&["a", "b", "c"])), "a\nb\nc");
}

#[test]
fn join_lines_keeps_empty_lines() {
    assert_eq!(join_lines(&owned(&["", ""])), "\n");
    assert_eq!(join_lines(&owned(&["a", "", "b"])), "a\n\nb");
}

#[test]
fn join_lines_agrees_with_std() {
    let samples: [&[&str]; 5] = [&[], &[""], &["a"], &["a", "b"], &["", "x", ""]];
    for sample in samples {
        let lines = owned(sample);
        assert_eq!(join_lines(&lines), lines.join("\n"));
    }
}

#[test]
fn plain_lines_come_back_from_their_text() {
    let lines = owned(&["Chain INPUT (policy ACCEPT)", "", "1    ACCEPT  tcp", "  indented"]);
    let mut text = String::new();
    for line in &lines {
        text.push_str(line);
        text.push('\n');
    }
    assert_eq!(split_lines(&text), lines);
}
