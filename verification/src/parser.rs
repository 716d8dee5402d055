//! The codec between checklist text and tasks.
//!
//! A checklist line is `<indent>- [<mark>] <text>`: any number of spaces, a dash, a space, a
//! box that holds a space, `x` or `X`, a space, and the description, which runs to the end
//! of the line. The level of the task is the number of whole indentation units in the
//! indent. Lines of any other shape are not tasks and are passed over.
//!
//! The format is defined on sequences of characters by [`parse_line`] and [`serialize`]; the
//! executable functions are proved to compute them, and [`lemma_round_trip`] shows that
//! reading back what was written gives the same tasks.

use crate::constants::{lemma_level_indentation, INDENT_WIDTH, LEVEL_INDENTATION};
use crate::types::{task_views, Task, TaskView};
use crate::utils::{chars_of, string_of};
use vstd::prelude::*;
use vstd::string::StringExecFns;

verus! {

/// `width` spaces.
pub open spec fn spaces(width: nat) -> Seq<char> {
    Seq::new(width, |i: int| ' ')
}

/// The indent of a task at `level`.
pub open spec fn indentation(level: nat) -> Seq<char> {
    spaces(INDENT_WIDTH as nat * level)
}

/// The character in the box of a task.
pub open spec fn checkbox_mark(completed: bool) -> char {
    if completed {
        'x'
    } else {
        ' '
    }
}

/// The characters that may stand in a box.
pub open spec fn is_mark(c: char) -> bool {
    c == ' ' || c == 'x' || c == 'X'
}

/// The line with `width` spaces of indent, `mark` in the box, and `text` after it.
pub open spec fn checklist_line(width: nat, mark: char, text: Seq<char>) -> Seq<char> {
    spaces(width) + seq!['-', ' ', '[', mark, ']', ' '] + text
}

/// The line that stands for `task`, without a line break.
pub open spec fn task_line(task: TaskView) -> Seq<char> {
    checklist_line(INDENT_WIDTH as nat * task.level, checkbox_mark(task.completed), task.description)
}

/// The text that stands for `tasks`: their lines in order, each ended by a line break.
pub open spec fn serialize(tasks: Seq<TaskView>) -> Seq<char>
    decreases tasks.len(),
{
    if tasks.len() == 0 {
        Seq::empty()
    } else {
        serialize(tasks.drop_last()) + task_line(tasks.last()) + seq!['\n']
    }
}

/// No character of `text` is a line break.
pub open spec fn no_line_break(text: Seq<char>) -> bool {
    forall|i: int| 0 <= i < text.len() ==> text[i] != '\n'
}

/// The first index at or after `from` that does not hold a space, or the length of `line`
/// when there is none.
pub open spec fn skip_spaces(line: Seq<char>, from: int) -> int
    decreases line.len() - from,
{
    if from >= line.len() {
        line.len() as int
    } else if line[from] != ' ' {
        from
    } else {
        skip_spaces(line, from + 1)
    }
}

/// The number of spaces that `line` starts with.
pub open spec fn indent_width(line: Seq<char>) -> int {
    skip_spaces(line, 0)
}

/// `line` has the shape of a checklist line.
pub open spec fn is_checklist_line(line: Seq<char>) -> bool {
    let n = indent_width(line);
    &&& line.len() >= n + 6
    &&& line[n] == '-'
    &&& line[n + 1] == ' '
    &&& line[n + 2] == '['
    &&& is_mark(line[n + 3])
    &&& line[n + 4] == ']'
    &&& line[n + 5] == ' '
    &&& no_line_break(line)
}

/// The task that `line` stands for, if it has the shape of a checklist line.
pub open spec fn parse_line(line: Seq<char>) -> Option<TaskView> {
    let n = indent_width(line);
    if is_checklist_line(line) {
        Some(
            TaskView {
                description: line.skip(n + 6),
                level: (n / INDENT_WIDTH as int) as nat,
                completed: line[n + 3] == 'x' || line[n + 3] == 'X',
            },
        )
    } else {
        None
    }
}

/// The tasks that `lines` stand for, in order. Lines that are not checklist lines give
/// nothing.
pub open spec fn parse_lines(lines: Seq<Seq<char>>) -> Seq<TaskView>
    decreases lines.len(),
{
    if lines.len() == 0 {
        Seq::empty()
    } else {
        match parse_line(lines.last()) {
            Some(task) => parse_lines(lines.drop_last()).push(task),
            None => parse_lines(lines.drop_last()),
        }
    }
}

/// The lines of `text` that a line break has ended, and the characters after the last line
/// break. Reading character by character, a line break completes the current line and any
/// other character extends it.
pub open spec fn scan_lines(text: Seq<char>) -> (Seq<Seq<char>>, Seq<char>)
    decreases text.len(),
{
    if text.len() == 0 {
        (Seq::empty(), Seq::empty())
    } else {
        let (lines, current) = scan_lines(text.drop_last());
        if text.last() == '\n' {
            (lines.push(current), Seq::empty())
        } else {
            (lines, current.push(text.last()))
        }
    }
}

/// The lines of `text`. Each line break ends a line; characters after the last line break
/// form a last line of their own.
pub open spec fn split_lines(text: Seq<char>) -> Seq<Seq<char>> {
    let (lines, current) = scan_lines(text);
    if current.len() > 0 {
        lines.push(current)
    } else {
        lines
    }
}

/// The tasks that `text` stands for.
pub open spec fn parse_text(text: Seq<char>) -> Seq<TaskView> {
    parse_lines(split_lines(text))
}

/// The views of a sequence of strings, in the same order.
pub open spec fn string_views(lines: Seq<String>) -> Seq<Seq<char>> {
    lines.map_values(|s: String| s@)
}

/// [`skip_spaces`] stops at `stop` when only spaces lie between `from` and `stop` and
/// `stop` is the end of the line or holds another character.
pub proof fn lemma_skip_spaces(line: Seq<char>, from: int, stop: int)
    requires
        0 <= from <= stop <= line.len(),
        forall|i: int| from <= i < stop ==> line[i] == ' ',
        stop == line.len() || line[stop] != ' ',
    ensures
        skip_spaces(line, from) == stop,
    decreases stop - from,
{
    if from < stop {
        lemma_skip_spaces(line, from + 1, stop);
    }
}

/// A line of the checklist shape stands for a task, whatever the width of its indent: the
/// level is the number of whole indentation units in it, so a width that is no multiple of
/// the unit is rounded down and not refused.
pub proof fn lemma_parse_checklist_line(width: nat, mark: char, text: Seq<char>)
    requires
        is_mark(mark),
        no_line_break(text),
    ensures
        parse_line(checklist_line(width, mark, text)) == Some(
            TaskView {
                description: text,
                level: width / INDENT_WIDTH as nat,
                completed: mark != ' ',
            },
        ),
{
    let line = checklist_line(width, mark, text);
    lemma_skip_spaces(line, 0, width as int);
    assert(line.skip(width as int + 6) =~= text);
}

/// Only lines of the checklist shape stand for a task: a line that parses is its indent,
/// the dash, the box with one of the three marks, and the description.
pub proof fn lemma_parse_line_shape(line: Seq<char>)
    requires
        parse_line(line).is_some(),
    ensures
        0 <= indent_width(line),
        is_mark(line[indent_width(line) + 3]),
        no_line_break(parse_line(line).unwrap().description),
        line == checklist_line(
            indent_width(line) as nat,
            line[indent_width(line) + 3],
            parse_line(line).unwrap().description,
        ),
{
    lemma_skip_spaces_finds(line, 0);
}

/// [`skip_spaces`] passes over spaces only and stops within the line.
pub proof fn lemma_skip_spaces_finds(line: Seq<char>, from: int)
    requires
        0 <= from <= line.len(),
    ensures
        from <= skip_spaces(line, from) <= line.len(),
        forall|i: int| from <= i < skip_spaces(line, from) ==> line[i] == ' ',
        skip_spaces(line, from) == line.len() || line[skip_spaces(line, from)] != ' ',
    decreases line.len() - from,
{
    if from < line.len() && line[from] == ' ' {
        lemma_skip_spaces_finds(line, from + 1);
    }
}

/// The line written for a task reads back as that task.
pub proof fn lemma_parse_task_line(task: TaskView)
    requires
        no_line_break(task.description),
    ensures
        parse_line(task_line(task)) == Some(task),
        no_line_break(task_line(task)),
{
    lemma_parse_checklist_line(
        INDENT_WIDTH as nat * task.level,
        checkbox_mark(task.completed),
        task.description,
    );
}

/// Appending a run of characters without a line break extends the current line.
pub proof fn lemma_scan_lines_extend(text: Seq<char>, more: Seq<char>)
    requires
        no_line_break(more),
    ensures
        scan_lines(text + more) == (scan_lines(text).0, scan_lines(text).1 + more),
    decreases more.len(),
{
    if more.len() == 0 {
    } else {
        lemma_scan_lines_extend(text, more.drop_last());
        assert((text + more).drop_last() =~= text + more.drop_last());
        assert(scan_lines(text).1 + more =~= (scan_lines(text).1 + more.drop_last()).push(
            more.last(),
        ));
    }
}

/// Appending one more line and its line break to a text that ends with a line break, or is
/// empty, appends that line to its lines.
pub proof fn lemma_split_lines_append(text: Seq<char>, line: Seq<char>)
    requires
        scan_lines(text).1.len() == 0,
        no_line_break(line),
    ensures
        scan_lines(text + line + seq!['\n']) == (scan_lines(text).0.push(line), Seq::<char>::empty()),
        split_lines(text + line + seq!['\n']) == split_lines(text).push(line),
{
    lemma_scan_lines_extend(text, line);
    let whole = text + line + seq!['\n'];
    assert(whole.drop_last() =~= text + line);
}

/// The text written for a list of tasks ends every line with a line break, and its lines
/// are the lines of the tasks.
pub proof fn lemma_split_serialized(tasks: Seq<TaskView>)
    requires
        forall|i: int| 0 <= i < tasks.len() ==> no_line_break(#[trigger] tasks[i].description),
    ensures
        scan_lines(serialize(tasks)) == (tasks.map_values(|t: TaskView| task_line(t)), Seq::<char>::empty()),
        split_lines(serialize(tasks)) == tasks.map_values(|t: TaskView| task_line(t)),
    decreases tasks.len(),
{
    if tasks.len() > 0 {
        let front = tasks.drop_last();
        lemma_split_serialized(front);
        lemma_parse_task_line(tasks.last());
        lemma_split_lines_append(serialize(front), task_line(tasks.last()));
    }
}

/// Reading the lines written for a list of tasks gives back the list.
pub proof fn lemma_parse_task_lines(tasks: Seq<TaskView>)
    requires
        forall|i: int| 0 <= i < tasks.len() ==> no_line_break(#[trigger] tasks[i].description),
    ensures
        parse_lines(tasks.map_values(|t: TaskView| task_line(t))) == tasks,
    decreases tasks.len(),
{
    if tasks.len() > 0 {
        let lines = tasks.map_values(|t: TaskView| task_line(t));
        let front = tasks.drop_last();
        lemma_parse_task_lines(front);
        lemma_parse_task_line(tasks.last());
        assert(lines.drop_last() =~= front.map_values(|t: TaskView| task_line(t)));
    }
}

/// The round trip: writing a list of tasks whose descriptions hold no line break and
/// reading the text back gives the same list, with every description, level and box as it
/// was.
pub proof fn lemma_round_trip(tasks: Seq<TaskView>)
    requires
        forall|i: int| 0 <= i < tasks.len() ==> no_line_break(#[trigger] tasks[i].description),
    ensures
        parse_text(serialize(tasks)) == tasks,
{
    lemma_split_serialized(tasks);
    lemma_parse_task_lines(tasks);
}

/// Reads the checklist line `text[from..to]`.
fn parse_chars(text: &Vec<char>, from: usize, to: usize) -> (task: Option<Task>)
    requires
        from <= to <= text@.len(),
    ensures
        match task {
            Some(t) => parse_line(text@.subrange(from as int, to as int)) == Some(t@),
            None => parse_line(text@.subrange(from as int, to as int)).is_none(),
        },
{
    let ghost line = text@.subrange(from as int, to as int);
    let mut dash: usize = from;
    while dash < to && text[dash] == ' '
        invariant
            from <= dash <= to <= text@.len(),
            forall|i: int| from <= i < dash ==> text@[i] == ' ',
        decreases to - dash,
    {
        dash += 1;
    }
    let width: usize = dash - from;
    proof {
        lemma_skip_spaces(line, 0, width as int);
    }
    if to - dash < 6 {
        return None;
    }
    let mark: char = text[dash + 3];
    if text[dash] != '-' || text[dash + 1] != ' ' || text[dash + 2] != '[' || text[dash + 4] != ']'
        || text[dash + 5] != ' ' {
        return None;
    }
    if mark != ' ' && mark != 'x' && mark != 'X' {
        return None;
    }
    let mut at: usize = dash + 6;
    while at < to
        invariant
            from <= dash,
            dash + 6 <= at <= to <= text@.len(),
            line == text@.subrange(from as int, to as int),
            forall|i: int| dash + 6 <= i < at ==> text@[i] != '\n',
        decreases to - at,
    {
        if text[at] == '\n' {
            assert(line[at - from] == '\n');
            return None;
        }
        at += 1;
    }
    assert(no_line_break(line)) by {
        assert forall|i: int| 0 <= i < line.len() implies line[i] != '\n' by {
        }
    }
    let description = string_of(text, dash + 6, to);
    assert(description@ =~= line.skip(width + 6));
    Some(Task { description, level: width / INDENT_WIDTH, completed: mark == 'x' || mark == 'X' })
}

/// Reads one line. The result is the task that the line stands for, or `None` when the line
/// is not a checklist line.
pub fn parse_line_to_task(line: &str) -> (task: Option<Task>)
    ensures
        match task {
            Some(t) => parse_line(line@) == Some(t@),
            None => parse_line(line@).is_none(),
        },
{
    let chars = chars_of(line);
    assert(chars@.subrange(0, chars@.len() as int) =~= line@);
    parse_chars(&chars, 0, chars.len())
}

/// Reads the lines of a file: the tasks, in order, of those lines that are checklist lines.
pub fn lines_to_tasks(lines: &Vec<String>) -> (tasks: Vec<Task>)
    ensures
        task_views(tasks@) == parse_lines(string_views(lines@)),
{
    let mut tasks: Vec<Task> = Vec::new();
    let ghost all = string_views(lines@);
    for i in 0..lines.len()
        invariant
            all == string_views(lines@),
            task_views(tasks@) =~= parse_lines(all.take(i as int)),
    {
        assert(all.take(i + 1).drop_last() =~= all.take(i as int));
        match parse_line_to_task(lines[i].as_str()) {
            Some(task) => {
                tasks.push(task);
            },
            None => {},
        }
    }
    assert(all.take(lines@.len() as int) =~= all);
    tasks
}

/// The tasks to start with: those of the lines that were read, or none when the file could
/// not be read.
pub fn file_to_tasks(lines: Option<Vec<String>>) -> (tasks: Vec<Task>)
    ensures
        task_views(tasks@) == match lines {
            Some(read) => parse_lines(string_views(read@)),
            None => Seq::<TaskView>::empty(),
        },
{
    match lines {
        Some(read) => lines_to_tasks(&read),
        None => {
            let tasks: Vec<Task> = Vec::new();
            tasks
        },
    }
}

/// Reads a whole text: the tasks, in order, of those of its lines that are checklist lines.
pub fn str_to_tasks(text: &str) -> (tasks: Vec<Task>)
    ensures
        task_views(tasks@) == parse_text(text@),
{
    let chars = chars_of(text);
    let len: usize = chars.len();
    let mut tasks: Vec<Task> = Vec::new();
    let mut start: usize = 0;
    for at in 0..len
        invariant
            len == chars@.len(),
            chars@ == text@,
            start <= at,
            scan_lines(chars@.take(at as int)).1 == chars@.subrange(start as int, at as int),
            task_views(tasks@) =~= parse_lines(scan_lines(chars@.take(at as int)).0),
    {
        let ghost before = scan_lines(chars@.take(at as int));
        assert(chars@.take(at + 1).drop_last() =~= chars@.take(at as int));
        if chars[at] == '\n' {
            assert(before.0.push(before.1).drop_last() =~= before.0);
            match parse_chars(&chars, start, at) {
                Some(task) => {
                    tasks.push(task);
                },
                None => {},
            }
            start = at + 1;
        }
    }
    assert(chars@.take(len as int) =~= chars@);
    if start < len {
        let ghost ended = scan_lines(chars@);
        assert(ended.0.push(ended.1).drop_last() =~= ended.0);
        match parse_chars(&chars, start, len) {
            Some(task) => {
                tasks.push(task);
            },
            None => {},
        }
    }
    tasks
}

/// Writes the tasks as text, one line for each, in order.
pub fn tasks_to_str(tasks: &Vec<Task>) -> (output: String)
    ensures
        output@ == serialize(task_views(tasks@)),
{
    let mut output = String::new();
    let ghost all = task_views(tasks@);
    for i in 0..tasks.len()
        invariant
            all == task_views(tasks@),
            output@ == serialize(all.take(i as int)),
    {
        let task = &tasks[i];
        let ghost before = output@;
        let mut column: usize = 0;
        while column < task.level
            invariant
                column <= task.level,
                output@ == before + spaces(INDENT_WIDTH as nat * column as nat),
            decreases task.level - column,
        {
            output.append(LEVEL_INDENTATION);
            column += 1;
            assert(output@ =~= before + spaces(INDENT_WIDTH as nat * column as nat)) by {
                lemma_level_indentation();
            }
        }
        output.push('-');
        output.push(' ');
        output.push('[');
        output.push(if task.completed { 'x' } else { ' ' });
        output.push(']');
        output.push(' ');
        output.append(task.description.as_str());
        output.push('\n');
        assert(all.take(i + 1).drop_last() =~= all.take(i as int));
    }
    assert(all.take(tasks@.len() as int) =~= all);
    output
}

} // verus!
