use checklist::parser::{file_to_tasks, lines_to_tasks, parse_line_to_task, str_to_tasks, tasks_to_str};
use checklist::types::Task;
use regex::Regex;

fn task(description: &str, level: usize, completed: bool) -> Task {
    Task { description: description.to_string(), level, completed }
}

#[test]
fn parses_a_top_level_open_task() {
    assert_eq!(parse_line_to_task("- [ ] buy milk"), Some(task("buy milk", 0, false)));
}

#[test]
fn parses_a_nested_completed_task() {
    assert_eq!(parse_line_to_task("  - [x] 2%"), Some(task("2%", 1, true)));
}

#[test]
fn capital_x_counts_as_completed() {
    assert_eq!(parse_line_to_task("- [X] done"), Some(task("done", 0, true)));
}

#[test]
fn empty_description_is_a_task() {
    assert_eq!(parse_line_to_task("- [ ] "), Some(task("", 0, false)));
}

#[test]
fn odd_indent_rounds_the_level_down() {
    assert_eq!(parse_line_to_task(" - [ ] a"), Some(task("a", 0, false)));
    assert_eq!(parse_line_to_task("   - [ ] a"), Some(task("a", 1, false)));
    assert_eq!(parse_line_to_task("     - [x] a"), Some(task("a", 2, true)));
}

#[test]
fn deep_indent_gives_the_level() {
    assert_eq!(parse_line_to_task("        - [ ] deep"), Some(task("deep", 4, false)));
}

#[test]
fn description_keeps_its_own_spaces_and_symbols() {
    assert_eq!(
        parse_line_to_task("- [ ]   two  spaces - [x] inside "),
        Some(task("  two  spaces - [x] inside ", 0, false))
    );
}

#[test]
fn description_may_hold_characters_beyond_ascii() {
    assert_eq!(parse_line_to_task("  - [x] café ☕ 日本"), Some(task("café ☕ 日本", 1, true)));
}

#[test]
fn lines_of_another_shape_are_not_tasks() {
    assert_eq!(parse_line_to_task("not a task"), None);
    assert_eq!(parse_line_to_task(""), None);
    assert_eq!(parse_line_to_task("   "), None);
    assert_eq!(parse_line_to_task("- [ ]"), None);
    assert_eq!(parse_line_to_task("-[ ] a"), None);
    assert_eq!(parse_line_to_task("- [] a"), None);
    assert_eq!(parse_line_to_task("- [y] a"), None);
    assert_eq!(parse_line_to_task("- [|] a"), None);
    assert_eq!(parse_line_to_task("- [xx] a"), None);
    assert_eq!(parse_line_to_task("* [ ] a"), None);
    assert_eq!(parse_line_to_task("\t- [ ] a"), None);
    assert_eq!(parse_line_to_task("# - [ ] a"), None);
}

#[test]
fn a_line_break_inside_the_line_is_refused() {
    assert_eq!(parse_line_to_task("- [ ] a\nb"), None);
    assert_eq!(parse_line_to_task("- [ ] a\n"), None);
}

#[test]
fn example_lines_parse_to_two_tasks() {
    let lines = vec!["- [ ] buy milk".to_string(), "  - [x] 2%".to_string(), "not a task".to_string()];
    let tasks = lines_to_tasks(&lines);
    assert_eq!(tasks, vec![task("buy milk", 0, false), task("2%", 1, true)]);
    assert_eq!(tasks_to_str(&tasks), "- [ ] buy milk\n  - [x] 2%\n");
}

#[test]
fn file_that_could_not_be_read_gives_no_tasks() {
    assert_eq!(file_to_tasks(None), Vec::<Task>::new());
}

#[test]
fn file_that_was_read_gives_its_tasks() {
    let lines = vec!["# title".to_string(), "- [X] a".to_string(), "".to_string(), "    - [ ] b".to_string()];
    assert_eq!(file_to_tasks(Some(lines)), vec![task("a", 0, true), task("b", 2, false)]);
}

#[test]
fn serializes_nothing_as_empty_text() {
    assert_eq!(tasks_to_str(&Vec::new()), "");
}

#[test]
fn serializes_levels_as_two_spaces_each() {
    let tasks = vec![task("a", 0, false), task("b", 1, true), task("c", 3, false), task("", 2, true)];
    assert_eq!(tasks_to_str(&tasks), "- [ ] a\n  - [x] b\n      - [ ] c\n    - [x] \n");
}

#[test]
fn text_is_split_at_line_breaks() {
    assert_eq!(str_to_tasks(""), Vec::<Task>::new());
    assert_eq!(str_to_tasks("\n\n"), Vec::<Task>::new());
    assert_eq!(str_to_tasks("- [ ] a"), vec![task("a", 0, false)]);
    assert_eq!(str_to_tasks("- [ ] a\n"), vec![task("a", 0, false)]);
    assert_eq!(
        str_to_tasks("intro\n- [ ] a\n\n  - [x] b\nnot a task\n   - [X] c"),
        vec![task("a", 0, false), task("b", 1, true), task("c", 1, true)]
    );
}

#[test]
fn round_trip_gives_the_same_tasks() {
    let tasks = vec![
        task("buy milk", 0, false),
        task("2%", 1, true),
        task("", 0, false),
        task("  leading and trailing  ", 5, true),
        task("- [ ] looks like a task", 2, false),
        task("ünïcödé", 1, true),
    ];
    let text = tasks_to_str(&tasks);
    assert_eq!(str_to_tasks(&text), tasks);
    let lines: Vec<String> = text.lines().map(|line| line.to_string()).collect();
    assert_eq!(lines_to_tasks(&lines), tasks);
}

#[test]
fn round_trip_normalises_what_was_read() {
    let tasks = str_to_tasks("   - [X] a\nnoise\n- [ ] b");
    assert_eq!(tasks_to_str(&tasks), "  - [x] a\n- [ ] b\n");
}

#[test]
fn agrees_with_the_grammar_as_a_regular_expression() {
    let grammar = Regex::new(r"^( *)- \[([ xX])\] (.*)$").unwrap();
    let lines = [
        "- [ ] buy milk",
        "  - [x] 2%",
        "not a task",
        "",
        " - [X] odd",
        "       - [ ] seven",
        "- [ ]",
        "- [ ] ",
        "- [  ] a",
        "  -  [ ] a",
        "- [x]a",
        "-- [x] a",
        "x - [ ] a",
        "- [ ] - [ ] nested text",
        "\t- [ ] tab",
        "- [ ] tab\tinside",
        "- [ ] carriage return\r",
        "- [ ] line\nbreak",
    ];
    for line in lines {
        let expected = grammar.captures(line).map(|found| Task {
            description: found[3].to_string(),
            level: found[1].len() / 2,
            completed: found[2].eq_ignore_ascii_case("x"),
        });
        assert_eq!(parse_line_to_task(line), expected, "line {:?}", line);
    }
}
