//! Laws that relate the loader, the classifier and the renderer.
use vstd::prelude::*;
use crate::filter::suppressed;
use crate::model::{bucket_spec, Bucket, Entry, EntryType, Test, TestPass};
use crate::render::{
    Color,
    entries_lines,
    entry_lines,
    header_spec,
    label_line,
    location_line,
    plain_of,
    summary_spec,
    summary_text,
    test_lines,
};
use crate::text::{has_bom, report_text};

verus! {

/// Decoding bytes that carry a byte-order mark gives the same text as
/// decoding them with the mark already stripped (unless the rest starts
/// with a second mark, which is kept).
pub proof fn lemma_bom_idempotent(rest: Seq<u8>)
    requires
        !has_bom(rest),
    ensures
        report_text(seq![0xEFu8, 0xBBu8, 0xBFu8] + rest) == report_text(rest),
{
    let b = seq![0xEFu8, 0xBBu8, 0xBFu8] + rest;
    assert(has_bom(b));
    assert(b.subrange(3, b.len() as int) =~= rest);
}

/// The summary line depends only on the report's own counts, never on the
/// tests it lists.
pub proof fn lemma_summary_reads_counts(a: TestPass, b: TestPass)
    requires
        a.succeeded == b.succeeded,
        a.failed == b.failed,
        a.not_run == b.not_run,
        a.succeeded_with_warnings == b.succeeded_with_warnings,
    ensures
        summary_spec(a) == summary_spec(b),
{
}

/// Stripped of its color, the summary line reads
/// `<succeeded> passed, <failed> failed, <other> other`, whatever its color.
pub proof fn lemma_summary_plain_text(r: TestPass)
    ensures
        plain_of(summary_spec(r)) == summary_text(
            r.succeeded as int,
            r.failed as int,
            r.not_run + r.succeeded_with_warnings,
        ),
{
    let l = summary_spec(r);
    assert(l.drop_last() =~= Seq::<(Seq<char>, Color)>::empty());
    assert(plain_of(l.drop_last()) =~= Seq::<char>::empty());
    assert(Seq::<char>::empty() + l.last().0 =~= l.last().0);
}

/// An info entry of a passing test is never rendered.
pub proof fn lemma_pass_hides_info(e: Entry, patterns: Seq<Seq<char>>)
    requires
        e.event.entry_type == EntryType::Info,
    ensures
        entry_lines(Bucket::Pass, e, patterns) == Seq::<Seq<(Seq<char>, Color)>>::empty(),
{
}

/// A warning or an error of a passing or failing test that no pattern
/// suppresses is rendered, with its `filename:lineNumber` line directly
/// beneath it.
pub proof fn lemma_warning_error_located(b: Bucket, e: Entry, patterns: Seq<Seq<char>>)
    requires
        b != Bucket::Other,
        e.event.entry_type != EntryType::Info,
        !suppressed(patterns, e.event.message@),
    ensures
        entry_lines(b, e, patterns) == seq![label_line(e), location_line(e)],
{
}

/// A test that neither passed nor failed renders its header line alone.
pub proof fn lemma_other_shows_only_header(t: Test, patterns: Seq<Seq<char>>)
    requires
        bucket_spec(t.state) == Bucket::Other,
    ensures
        test_lines(t, patterns) == seq![header_spec(t)],
{
    lemma_other_entries_hidden(t.entries@, patterns);
    assert(seq![header_spec(t)] + Seq::<Seq<(Seq<char>, Color)>>::empty() =~= seq![header_spec(t)]);
}

proof fn lemma_other_entries_hidden(es: Seq<Entry>, patterns: Seq<Seq<char>>)
    ensures
        entries_lines(Bucket::Other, es, patterns) == Seq::<Seq<(Seq<char>, Color)>>::empty(),
    decreases es.len(),
{
    if es.len() > 0 {
        lemma_other_entries_hidden(es.drop_last(), patterns);
        assert(Seq::<Seq<(Seq<char>, Color)>>::empty() + Seq::<Seq<(Seq<char>, Color)>>::empty()
            =~= Seq::<Seq<(Seq<char>, Color)>>::empty());
    }
}

/// An entry whose message some ignore pattern matches is rendered in no
/// bucket.
pub proof fn lemma_suppressed_hidden(b: Bucket, e: Entry, patterns: Seq<Seq<char>>)
    requires
        suppressed(patterns, e.event.message@),
    ensures
        entry_lines(b, e, patterns) == Seq::<Seq<(Seq<char>, Color)>>::empty(),
{
}

} // verus!
