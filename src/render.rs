//! Rendering of a classified report into styled lines of text.
use vstd::prelude::*;
use vstd::string::StringExecFns;
use crate::filter::{should_ignore_message, suppressed, IgnoreList};
use crate::model::{bucket_of, bucket_spec, Bucket, Entry, EntryType, Test, TestPass};
use crate::text::{decimal, push_decimal};

verus! {

/// How a piece of text is shown on a color terminal.
#[derive(Clone, Copy, Debug, PartialEq, Eq, Structural)]
pub enum Color {
    Plain,
    White,
    BrightGreen,
    Red,
    Yellow,
}

/// A run of text in one color.
#[derive(Debug)]
pub struct Segment {
    pub text: String,
    pub color: Color,
}

/// The text and color of each segment of a line.
pub open spec fn line_view(l: Vec<Segment>) -> Seq<(Seq<char>, Color)> {
    l@.map_values(|s: Segment| (s.text@, s.color))
}

pub open spec fn lines_view(v: Vec<Vec<Segment>>) -> Seq<Seq<(Seq<char>, Color)>> {
    v@.map_values(|l: Vec<Segment>| line_view(l))
}

/// The text of a line with its colors dropped.
pub open spec fn plain_of(l: Seq<(Seq<char>, Color)>) -> Seq<char>
    decreases l.len(),
{
    if l.len() == 0 {
        Seq::empty()
    } else {
        plain_of(l.drop_last()) + l.last().0
    }
}

pub open spec fn spacer() -> Seq<char> {
    "             "@
}

/// Label and color of the line that opens a test of a bucket.
pub open spec fn bucket_label(b: Bucket) -> (Seq<char>, Color) {
    match b {
        Bucket::Pass => ("     Success "@, Color::BrightGreen),
        Bucket::Fail => ("        Fail "@, Color::Red),
        Bucket::Other => ("     Warning "@, Color::Yellow),
    }
}

/// Label and color of a log entry of a kind.
pub open spec fn kind_label(k: EntryType) -> (Seq<char>, Color) {
    match k {
        EntryType::Info => ("        Info "@, Color::White),
        EntryType::Warning => ("     Warning "@, Color::Yellow),
        EntryType::Error => ("       Error "@, Color::Red),
    }
}

/// The line that opens a test: its label, then its path.
pub open spec fn header_spec(t: Test) -> Seq<(Seq<char>, Color)> {
    let b = bucket_spec(t.state);
    seq![
        bucket_label(b),
        (t.full_test_path@, if b == Bucket::Other { Color::Yellow } else { Color::White }),
    ]
}

/// Whether an entry of a test in bucket `b` is rendered.
pub open spec fn shown(b: Bucket, e: Entry, patterns: Seq<Seq<char>>) -> bool {
    match b {
        Bucket::Pass => e.event.entry_type != EntryType::Info && !suppressed(patterns, e.event.message@),
        Bucket::Fail => !suppressed(patterns, e.event.message@),
        Bucket::Other => false,
    }
}

pub open spec fn label_line(e: Entry) -> Seq<(Seq<char>, Color)> {
    seq![(spacer(), Color::Plain), kind_label(e.event.entry_type), (e.event.message@, Color::Plain)]
}

/// The `filename:lineNumber` line under a warning or an error.
pub open spec fn location_line(e: Entry) -> Seq<(Seq<char>, Color)> {
    seq![(spacer() + spacer() + e.filename@ + ":"@ + decimal(e.line_number as int), Color::Plain)]
}

/// The lines of one entry of a test in bucket `b`.
pub open spec fn entry_lines(b: Bucket, e: Entry, patterns: Seq<Seq<char>>) -> Seq<
    Seq<(Seq<char>, Color)>,
> {
    if !shown(b, e, patterns) {
        Seq::empty()
    } else if e.event.entry_type == EntryType::Info {
        seq![label_line(e)]
    } else {
        seq![label_line(e), location_line(e)]
    }
}

pub open spec fn entries_lines(b: Bucket, es: Seq<Entry>, patterns: Seq<Seq<char>>) -> Seq<
    Seq<(Seq<char>, Color)>,
>
    decreases es.len(),
{
    if es.len() == 0 {
        Seq::empty()
    } else {
        entries_lines(b, es.drop_last(), patterns) + entry_lines(b, es.last(), patterns)
    }
}

/// The lines of one test: its header, then its rendered entries in order.
pub open spec fn test_lines(t: Test, patterns: Seq<Seq<char>>) -> Seq<Seq<(Seq<char>, Color)>> {
    seq![header_spec(t)] + entries_lines(bucket_spec(t.state), t.entries@, patterns)
}

pub open spec fn tests_lines(ts: Seq<Test>, patterns: Seq<Seq<char>>) -> Seq<
    Seq<(Seq<char>, Color)>,
>
    decreases ts.len(),
{
    if ts.len() == 0 {
        Seq::empty()
    } else {
        tests_lines(ts.drop_last(), patterns) + test_lines(ts.last(), patterns)
    }
}

/// `<succeeded> passed, <failed> failed, <other> other`.
pub open spec fn summary_text(succeeded: int, failed: int, other: int) -> Seq<char> {
    decimal(succeeded) + " passed, "@ + decimal(failed) + " failed, "@ + decimal(other) + " other"@
}

/// Red when a test failed, else yellow when one was not run or passed with
/// warnings, else bright green.
pub open spec fn summary_color(failed: int, not_run: int, succeeded_with_warnings: int) -> Color {
    if failed > 0 {
        Color::Red
    } else if not_run > 0 || succeeded_with_warnings > 0 {
        Color::Yellow
    } else {
        Color::BrightGreen
    }
}

/// The summary line, from the report's own counts.
pub open spec fn summary_spec(r: TestPass) -> Seq<(Seq<char>, Color)> {
    seq![
        (
            summary_text(
                r.succeeded as int,
                r.failed as int,
                r.not_run + r.succeeded_with_warnings,
            ),
            summary_color(r.failed as int, r.not_run as int, r.succeeded_with_warnings as int),
        ),
    ]
}

/// The whole rendering: each test in order, then the summary line.
pub open spec fn report_lines(r: TestPass, patterns: Seq<Seq<char>>) -> Seq<Seq<(Seq<char>, Color)>> {
    tests_lines(r.tests@, patterns).push(summary_spec(r))
}

fn segment(text: String, color: Color) -> (r: Segment)
    ensures
        r.text@ == text@,
        r.color == color,
{
    Segment { text, color }
}

fn push_line(out: &mut Vec<Vec<Segment>>, line: Vec<Segment>)
    ensures
        lines_view(*final(out)) == lines_view(*old(out)).push(line_view(line)),
{
    out.push(line);
    assert(lines_view(*final(out)) =~= lines_view(*old(out)).push(line_view(line)));
}

fn push_segment(line: &mut Vec<Segment>, text: String, color: Color)
    ensures
        line_view(*final(line)) == line_view(*old(line)).push((text@, color)),
{
    line.push(segment(text, color));
    assert(line_view(*final(line)) =~= line_view(*old(line)).push((text@, color)));
}

/// The label and color that open a test of a bucket.
pub fn bucket_label_of(b: Bucket) -> (r: (&'static str, Color))
    ensures
        (r.0@, r.1) == bucket_label(b),
{
    match b {
        Bucket::Pass => ("     Success ", Color::BrightGreen),
        Bucket::Fail => ("        Fail ", Color::Red),
        Bucket::Other => ("     Warning ", Color::Yellow),
    }
}

/// The label and color of an entry kind.
pub fn kind_label_of(k: EntryType) -> (r: (&'static str, Color))
    ensures
        (r.0@, r.1) == kind_label(k),
{
    match k {
        EntryType::Info => ("        Info ", Color::White),
        EntryType::Warning => ("     Warning ", Color::Yellow),
        EntryType::Error => ("       Error ", Color::Red),
    }
}

/// The line that opens a test.
pub fn test_header(t: &Test) -> (r: Vec<Segment>)
    ensures
        line_view(r) == header_spec(*t),
{
    let b = bucket_of(t.state);
    let (label, color) = bucket_label_of(b);
    let mut line: Vec<Segment> = Vec::new();
    push_segment(&mut line, String::from_str(label), color);
    let path_color = match b {
        Bucket::Other => Color::Yellow,
        _ => Color::White,
    };
    push_segment(&mut line, t.full_test_path.clone(), path_color);
    assert(line_view(line) =~= header_spec(*t));
    line
}

/// Appends the lines of one entry of a test in bucket `b`.
pub fn push_entry_lines(out: &mut Vec<Vec<Segment>>, b: Bucket, e: &Entry, ignore: &IgnoreList)
    ensures
        lines_view(*final(out)) == lines_view(*old(out)) + entry_lines(b, *e, ignore@),
{
    let eligible = match b {
        Bucket::Pass => e.event.entry_type != EntryType::Info,
        Bucket::Fail => true,
        Bucket::Other => false,
    };
    if !eligible || should_ignore_message(e.event.message.as_str(), ignore) {
        assert(lines_view(*old(out)) + entry_lines(b, *e, ignore@) =~= lines_view(*old(out)));
        return;
    }
    let (label, color) = kind_label_of(e.event.entry_type);
    let mut first: Vec<Segment> = Vec::new();
    push_segment(&mut first, String::from_str(spacer_text()), Color::Plain);
    push_segment(&mut first, String::from_str(label), color);
    push_segment(&mut first, e.event.message.clone(), Color::Plain);
    assert(line_view(first) =~= label_line(*e));
    push_line(out, first);
    if e.event.entry_type != EntryType::Info {
        let mut text = String::from_str(spacer_text());
        text.append(spacer_text());
        text.append(e.filename.as_str());
        proof {
            reveal_strlit(":");
        }
        text.append(":");
        push_decimal(&mut text, e.line_number as i64);
        let mut second: Vec<Segment> = Vec::new();
        push_segment(&mut second, text, Color::Plain);
        assert(line_view(second) =~= location_line(*e));
        push_line(out, second);
    }
    assert(lines_view(*final(out)) =~= lines_view(*old(out)) + entry_lines(b, *e, ignore@));
}

fn spacer_text() -> (r: &'static str)
    ensures
        r@ == spacer(),
{
    "             "
}

/// Appends the lines of one test: its header, then each rendered entry.
pub fn push_test_lines(out: &mut Vec<Vec<Segment>>, t: &Test, ignore: &IgnoreList)
    ensures
        lines_view(*final(out)) == lines_view(*old(out)) + test_lines(*t, ignore@),
{
    let b = bucket_of(t.state);
    push_line(out, test_header(t));
    let mut i: usize = 0;
    while i < t.entries.len()
        invariant
            b == bucket_spec(t.state),
            i <= t.entries@.len(),
            lines_view(*out) == lines_view(*old(out)) + seq![header_spec(*t)] + entries_lines(
                b,
                t.entries@.subrange(0, i as int),
                ignore@,
            ),
        decreases t.entries.len() - i,
    {
        proof {
            let es = t.entries@.subrange(0, i + 1);
            assert(es.drop_last() =~= t.entries@.subrange(0, i as int));
            assert(es.last() == t.entries@[i as int]);
        }
        push_entry_lines(out, b, &t.entries[i], ignore);
        i = i + 1;
    }
    assert(t.entries@.subrange(0, i as int) =~= t.entries@);
    assert(lines_view(*final(out)) =~= lines_view(*old(out)) + test_lines(*t, ignore@));
}

/// The summary line, from the counts the report states.
pub fn summary_line(r: &TestPass) -> (l: Vec<Segment>)
    ensures
        line_view(l) == summary_spec(*r),
{
    let other: i64 = r.not_run as i64 + r.succeeded_with_warnings as i64;
    let mut text = String::new();
    push_decimal(&mut text, r.succeeded as i64);
    proof {
        reveal_strlit(" passed, ");
        reveal_strlit(" failed, ");
        reveal_strlit(" other");
    }
    text.append(" passed, ");
    push_decimal(&mut text, r.failed as i64);
    text.append(" failed, ");
    push_decimal(&mut text, other);
    text.append(" other");
    let color = if r.failed > 0 {
        Color::Red
    } else if r.not_run > 0 || r.succeeded_with_warnings > 0 {
        Color::Yellow
    } else {
        Color::BrightGreen
    };
    let mut line: Vec<Segment> = Vec::new();
    push_segment(&mut line, text, color);
    assert(line_view(line) =~= summary_spec(*r));
    line
}

/// Renders a report: every test in its current order, then the summary line.
pub fn render_report(r: &TestPass, ignore: &IgnoreList) -> (out: Vec<Vec<Segment>>)
    ensures
        lines_view(out) == report_lines(*r, ignore@),
{
    let mut out: Vec<Vec<Segment>> = Vec::new();
    let mut i: usize = 0;
    assert(lines_view(out) =~= tests_lines(r.tests@.subrange(0, 0), ignore@));
    while i < r.tests.len()
        invariant
            i <= r.tests@.len(),
            lines_view(out) == tests_lines(r.tests@.subrange(0, i as int), ignore@),
        decreases r.tests.len() - i,
    {
        proof {
            let ts = r.tests@.subrange(0, i + 1);
            assert(ts.drop_last() =~= r.tests@.subrange(0, i as int));
            assert(ts.last() == r.tests@[i as int]);
        }
        push_test_lines(&mut out, &r.tests[i], ignore);
        i = i + 1;
    }
    assert(r.tests@.subrange(0, i as int) =~= r.tests@);
    push_line(&mut out, summary_line(r));
    out
}

/// The text of a line with its colors dropped.
pub fn plain_text(line: &Vec<Segment>) -> (r: String)
    ensures
        r@ == plain_of(line_view(*line)),
{
    let mut text = String::new();
    let mut i: usize = 0;
    while i < line.len()
        invariant
            i <= line@.len(),
            text@ == plain_of(line_view(*line).subrange(0, i as int)),
        decreases line.len() - i,
    {
        proof {
            let s = line_view(*line).subrange(0, i + 1);
            assert(s.drop_last() =~= line_view(*line).subrange(0, i as int));
        }
        text.append(line[i].text.as_str());
        i = i + 1;
    }
    assert(line_view(*line).subrange(0, i as int) =~= line_view(*line));
    text
}

} // verus!
