//! Laws of the git values: what the entries, hunks and files that are built
//! out of a report have to do with the report.
use crate::git::{
    counts_for, delta_entries, line_counts, line_path, marked, mentions,
    newline_count, opt_line_count, patch_hunks, short_form, staged_entries,
    staged_entry, unstaged_entries, unstaged_entry, DeltaKind, FileDelta, FileEntry, FileStatus,
    LineModel, LineTag, PatchLine, StatusRecord,
};
use crate::order::{law_sorted, sorted};
use crate::text::{bytes_text, lex_le, trimmed, without_trailing};
use vstd::prelude::*;

verus! {

/// What is sorted holds the same elements as before.
pub proof fn lemma_sorted_members(s: Seq<FileEntry>)
    ensures
        sorted(s).len() == s.len(),
        forall|i: int| 0 <= i < s.len() ==> s.contains(#[trigger] sorted(s)[i]),
        forall|k: int| 0 <= k < s.len() ==> sorted(s).contains(#[trigger] s[k]),
        forall|i: int, j: int|
            0 <= i < j < s.len() ==> lex_le(
                (#[trigger] sorted(s)[i]).path@,
                (#[trigger] sorted(s)[j]).path@,
            ),
{
    broadcast use vstd::seq_lib::group_to_multiset_ensures;

    law_sorted(s);
    assert forall|i: int| 0 <= i < s.len() implies s.contains(#[trigger] sorted(s)[i]) by {
        assert(sorted(s).to_multiset().count(sorted(s)[i]) > 0);
        assert(s.to_multiset().count(sorted(s)[i]) > 0);
    }
    assert forall|k: int| 0 <= k < s.len() implies sorted(s).contains(#[trigger] s[k]) by {
        assert(s.to_multiset().count(s[k]) > 0);
        assert(sorted(s).to_multiset().count(s[k]) > 0);
    }
    assert forall|i: int, j: int| 0 <= i < j < s.len() implies lex_le(
        (#[trigger] sorted(s)[i]).path@,
        (#[trigger] sorted(s)[j]).path@,
    ) by {
        assert(<FileEntry as crate::order::Ordered>::le(sorted(s)[i], sorted(s)[j]));
    }
}

// ── The files of a commit ────────────────────────────────────────────────

/// What a delta says of a file is what the file shows.
pub open spec fn shows_delta(f: FileEntry, d: FileDelta) -> bool {
    &&& d.path == Some(f.path)
    &&& (f.status == FileStatus::Added <==> d.kind == DeltaKind::Added)
    &&& (f.status == FileStatus::Deleted <==> d.kind == DeltaKind::Deleted)
    &&& (f.status == FileStatus::Renamed <==> (d.kind == DeltaKind::Renamed || d.kind
        == DeltaKind::Copied))
    &&& (f.status == FileStatus::Untracked <==> d.kind == DeltaKind::Untracked)
    &&& (f.status == FileStatus::Modified <==> d.kind == DeltaKind::Other)
    &&& f.additions == 0
    &&& f.deletions == 0
}

/// Some delta says what the file shows.
pub open spec fn is_named(f: FileEntry, deltas: Seq<FileDelta>) -> bool {
    exists|k: int| 0 <= k < deltas.len() && shows_delta(f, #[trigger] deltas[k])
}

/// Some file shows what the delta says.
pub open spec fn is_listed(d: FileDelta, files: Seq<FileEntry>) -> bool {
    exists|i: int| 0 <= i < files.len() && shows_delta(#[trigger] files[i], d)
}

proof fn lemma_delta_entries(deltas: Seq<FileDelta>)
    ensures
        delta_entries(deltas).len() == deltas.filter(|d: FileDelta| d.path is Some).len(),
        forall|i: int|
            0 <= i < delta_entries(deltas).len() ==> #[trigger] is_named(
                delta_entries(deltas)[i],
                deltas,
            ),
        forall|k: int|
            0 <= k < deltas.len() && deltas[k].path is Some ==> #[trigger] is_listed(
                deltas[k],
                delta_entries(deltas),
            ),
    decreases deltas.len(),
{
    reveal(Seq::filter);
    if deltas.len() > 0 {
        let rest = deltas.drop_last();
        let all = delta_entries(deltas);
        let some = delta_entries(rest);
        let n = deltas.len() - 1;
        lemma_delta_entries(rest);
        assert forall|i: int| 0 <= i < all.len() implies #[trigger] is_named(all[i], deltas) by {
            if i < some.len() {
                assert(is_named(some[i], rest));
                let k = choose|k: int|
                    0 <= k < rest.len() && shows_delta(some[i], #[trigger] rest[k]);
                assert(shows_delta(all[i], deltas[k]));
            } else {
                assert(shows_delta(all[i], deltas[n]));
            }
        }
        assert forall|k: int| 0 <= k < deltas.len() && deltas[k].path is Some implies #[trigger] is_listed(
            deltas[k],
            all,
        ) by {
            if k < n {
                assert(is_listed(rest[k], some));
                let i = choose|i: int|
                    0 <= i < some.len() && shows_delta(#[trigger] some[i], rest[k]);
                assert(all[i] == some[i]);
            } else {
                assert(shows_delta(all[some.len() as int], deltas[k]));
            }
        }
    }
}

/// Each file of a commit is one that the diff names, with the kind of change
/// that the diff gives it. No file with a path is left out, none is listed
/// that the diff does not name, and the files stand in the order of their
/// paths.
pub proof fn law_commit_files_show_their_deltas(deltas: Seq<FileDelta>, files: Seq<FileEntry>)
    requires
        files == sorted(delta_entries(deltas)),
    ensures
        files.len() == deltas.filter(|d: FileDelta| d.path is Some).len(),
        forall|i: int| 0 <= i < files.len() ==> #[trigger] is_named(files[i], deltas),
        forall|k: int|
            0 <= k < deltas.len() && deltas[k].path is Some ==> #[trigger] is_listed(
                deltas[k],
                files,
            ),
        forall|i: int, j: int|
            0 <= i < j < files.len() ==> lex_le(
                (#[trigger] files[i]).path@,
                (#[trigger] files[j]).path@,
            ),
{
    let raw = delta_entries(deltas);
    lemma_delta_entries(deltas);
    lemma_sorted_members(raw);
    assert forall|i: int| 0 <= i < files.len() implies #[trigger] is_named(files[i], deltas) by {
        assert(raw.contains(sorted(raw)[i]));
        let j = choose|j: int| 0 <= j < raw.len() && raw[j] == files[i];
        assert(is_named(raw[j], deltas));
    }
    assert forall|k: int| 0 <= k < deltas.len() && deltas[k].path is Some implies #[trigger] is_listed(
        deltas[k],
        files,
    ) by {
        assert(is_listed(deltas[k], raw));
        let j = choose|j: int| 0 <= j < raw.len() && shows_delta(#[trigger] raw[j], deltas[k]);
        assert(sorted(raw).contains(raw[j]));
        let i = choose|i: int| 0 <= i < files.len() && files[i] == raw[j];
        assert(shows_delta(files[i], deltas[k]));
    }
}

// ── The status of the working tree ───────────────────────────────────────

/// The patch line is one of the file at `p`, which it names by its new path or,
/// where it has none, by its old one.
pub open spec fn is_of(l: PatchLine, p: Seq<char>) -> bool {
    ||| l.new_path is Some && l.new_path->0@ == p
    ||| l.new_path is None && l.old_path is Some && l.old_path->0@ == p
}

/// The lines of the file at `p` that carry the mark `origin`.
pub open spec fn lines_of_file(lines: Seq<PatchLine>, p: Seq<char>, origin: char) -> Seq<PatchLine> {
    lines.filter(|l: PatchLine| is_of(l, p) && l.origin == origin)
}

proof fn lemma_marked_is_count(lines: Seq<PatchLine>, p: Seq<char>, origin: char)
    requires
        p.len() > 0,
    ensures
        marked(lines, p, origin) == lines_of_file(lines, p, origin).len(),
        marked(lines, p, origin) <= lines.len(),
        marked(lines, p, origin) > 0 ==> mentions(lines, p),
    decreases lines.len(),
{
    reveal(Seq::filter);
    if lines.len() > 0 {
        let t = lines.drop_last();
        lemma_marked_is_count(t, p, origin);
        if marked(t, p, origin) > 0 {
            let i = choose|i: int| 0 <= i < t.len() && line_path(#[trigger] t[i]) == p;
            assert(line_path(lines[i]) == p);
        } else if marked(lines, p, origin) > 0 {
            assert(line_path(lines[lines.len() - 1]) == p);
        }
    }
}

/// A patch is tallied by what it says: a file has as many added lines as the
/// patch has lines of it marked `+`, and as many removed ones as it has marked
/// `-`.
pub proof fn law_counts_are_those_of_the_patch(lines: Seq<PatchLine>, p: Seq<char>)
    requires
        lines.len() <= u32::MAX,
        p.len() > 0,
    ensures
        counts_for(line_counts(lines), p).0 == lines_of_file(lines, p, '+').len(),
        counts_for(line_counts(lines), p).1 == lines_of_file(lines, p, '-').len(),
{
    lemma_marked_is_count(lines, p, '+');
    lemma_marked_is_count(lines, p, '-');
}

/// What a record says of the index is what the staged entry shows. After a
/// rename the path is the one that the index has, where it is known. A rename
/// is shown before a new file, that before a change, and that before a removal.
pub open spec fn shows_staged(e: FileEntry, r: StatusRecord) -> bool {
    &&& r.flags.index_renamed || r.flags.index_new || r.flags.index_modified
        || r.flags.index_deleted
    &&& (e.status == FileStatus::Renamed <==> r.flags.index_renamed)
    &&& (e.status == FileStatus::Added <==> (r.flags.index_new && !r.flags.index_renamed))
    &&& (e.status == FileStatus::Modified <==> (r.flags.index_modified && !r.flags.index_renamed
        && !r.flags.index_new))
    &&& e.status != FileStatus::Untracked
    &&& (r.flags.index_renamed && r.index_path is Some ==> r.index_path == Some(e.path))
    &&& (!r.flags.index_renamed || r.index_path is None ==> r.path == Some(e.path))
}

/// What a record says of the working tree is what the unstaged entry shows.
pub open spec fn shows_unstaged(e: FileEntry, r: StatusRecord) -> bool {
    &&& r.flags.wt_renamed || r.flags.wt_new || r.flags.wt_modified || r.flags.wt_deleted
    &&& (e.status == FileStatus::Renamed <==> r.flags.wt_renamed)
    &&& (e.status == FileStatus::Untracked <==> (r.flags.wt_new && !r.flags.wt_renamed))
    &&& (e.status == FileStatus::Modified <==> (r.flags.wt_modified && !r.flags.wt_renamed
        && !r.flags.wt_new))
    &&& e.status != FileStatus::Added
    &&& (r.flags.wt_renamed && r.workdir_path is Some ==> r.workdir_path == Some(e.path))
    &&& (!r.flags.wt_renamed || r.workdir_path is None ==> r.path == Some(e.path))
}

/// The line counts of an entry are those that the patch has for its path.
pub open spec fn counts_lines_of(e: FileEntry, lines: Seq<PatchLine>) -> bool {
    e.path@.len() > 0 ==> {
        &&& e.additions == lines_of_file(lines, e.path@, '+').len()
        &&& e.deletions == lines_of_file(lines, e.path@, '-').len()
    }
}

proof fn lemma_newlines(b: Seq<u8>)
    ensures
        newline_count(b) == b.filter(|x: u8| x == 10u8).len(),
    decreases b.len(),
{
    reveal(Seq::filter);
    if b.len() > 0 {
        lemma_newlines(b.drop_last());
    }
}

/// An untracked file counts as many lines as it has line feeds, and one more
/// where the last line is not ended. A file with a NUL byte, and one that
/// cannot be read, counts none.
pub proof fn law_untracked_lines_are_counted(content: Option<Vec<u8>>)
    ensures
        content is None ==> opt_line_count(content) == 0,
        content matches Some(b) ==> {
            let feeds = b@.filter(|x: u8| x == 10u8).len();
            &&& b@.contains(0u8) ==> opt_line_count(content) == 0
            &&& !b@.contains(0u8) && feeds < u32::MAX ==> opt_line_count(content) == feeds + (
            if b@.len() > 0 && b@.last() != 10u8 {
                1int
            } else {
                0
            })
        },
{
    if let Some(b) = content {
        lemma_newlines(b@);
    }
}

proof fn lemma_staged(r: StatusRecord, lines: Seq<PatchLine>)
    requires
        lines.len() <= u32::MAX,
    ensures
        staged_entry(r, line_counts(lines)) matches Some(e) ==> shows_staged(e, r)
            && counts_lines_of(e, lines),
        staged_entry(r, line_counts(lines)) is None ==> !(r.flags.index_renamed
            || r.flags.index_new || r.flags.index_modified || r.flags.index_deleted) || (
        r.path is None && !(r.flags.index_renamed && r.index_path is Some)),
{
    if let Some(e) = staged_entry(r, line_counts(lines)) {
        if e.path@.len() > 0 {
            law_counts_are_those_of_the_patch(lines, e.path@);
        }
    }
}

proof fn lemma_unstaged(r: StatusRecord, lines: Seq<PatchLine>)
    requires
        lines.len() <= u32::MAX,
    ensures
        unstaged_entry(r, line_counts(lines)) matches Some(e) ==> {
            &&& shows_unstaged(e, r)
            &&& e.status != FileStatus::Untracked ==> counts_lines_of(e, lines)
            &&& e.status == FileStatus::Untracked ==> e.additions == opt_line_count(r.untracked)
                && e.deletions == 0
        },
        unstaged_entry(r, line_counts(lines)) is None ==> !(r.flags.wt_renamed || r.flags.wt_new
            || r.flags.wt_modified || r.flags.wt_deleted) || (r.path is None && !(
        r.flags.wt_renamed && r.workdir_path is Some)),
{
    if let Some(e) = unstaged_entry(r, line_counts(lines)) {
        if e.path@.len() > 0 {
            law_counts_are_those_of_the_patch(lines, e.path@);
        }
    }
}

/// A record that has something staged, and a path to show it under.
pub open spec fn has_staged(r: StatusRecord) -> bool {
    &&& r.flags.index_renamed || r.flags.index_new || r.flags.index_modified
        || r.flags.index_deleted
    &&& r.path is Some || (r.flags.index_renamed && r.index_path is Some)
}

pub open spec fn has_unstaged(r: StatusRecord) -> bool {
    &&& r.flags.wt_renamed || r.flags.wt_new || r.flags.wt_modified || r.flags.wt_deleted
    &&& r.path is Some || (r.flags.wt_renamed && r.workdir_path is Some)
}

proof fn lemma_staged_entries(records: Seq<StatusRecord>, lines: Seq<PatchLine>)
    requires
        lines.len() <= u32::MAX,
    ensures
        ({
            let s = staged_entries(records, line_counts(lines));
            &&& s.len() == records.filter(|r: StatusRecord| has_staged(r)).len()
            &&& forall|i: int|
                0 <= i < s.len() ==> counts_lines_of(#[trigger] s[i], lines) && exists|k: int|
                    0 <= k < records.len() && shows_staged(s[i], #[trigger] records[k])
            &&& forall|k: int|
                0 <= k < records.len() && has_staged(#[trigger] records[k]) ==> exists|i: int|
                    0 <= i < s.len() && shows_staged(#[trigger] s[i], records[k])
        }),
    decreases records.len(),
{
    reveal(Seq::filter);
    if records.len() > 0 {
        let rest = records.drop_last();
        let s = staged_entries(records, line_counts(lines));
        let t = staged_entries(rest, line_counts(lines));
        let n = records.len() - 1;
        lemma_staged_entries(rest, lines);
        lemma_staged(records[n], lines);
        assert forall|i: int| 0 <= i < s.len() implies counts_lines_of(#[trigger] s[i], lines)
            && exists|k: int| 0 <= k < records.len() && shows_staged(s[i], #[trigger] records[k]) by {
            if i < t.len() {
                assert(s[i] == t[i]);
                let k = choose|k: int| 0 <= k < rest.len() && shows_staged(t[i], #[trigger] rest[k]);
                assert(shows_staged(s[i], records[k]));
            } else {
                assert(shows_staged(s[i], records[n]));
            }
        }
        assert forall|k: int| 0 <= k < records.len() && has_staged(#[trigger] records[k]) implies exists|
            i: int,
        |
            0 <= i < s.len() && shows_staged(#[trigger] s[i], records[k]) by {
            if k < n {
                assert(rest[k] == records[k]);
                let i = choose|i: int| 0 <= i < t.len() && shows_staged(#[trigger] t[i], rest[k]);
                assert(s[i] == t[i]);
            } else {
                assert(shows_staged(s[t.len() as int], records[k]));
            }
        }
    }
}

proof fn lemma_unstaged_entries(records: Seq<StatusRecord>, lines: Seq<PatchLine>)
    requires
        lines.len() <= u32::MAX,
    ensures
        ({
            let s = unstaged_entries(records, line_counts(lines));
            &&& s.len() == records.filter(|r: StatusRecord| has_unstaged(r)).len()
            &&& forall|i: int|
                0 <= i < s.len() ==> exists|k: int|
                    0 <= k < records.len() && tells_unstaged(
                        #[trigger] s[i],
                        #[trigger] records[k],
                        lines,
                    )
            &&& forall|k: int|
                0 <= k < records.len() && has_unstaged(#[trigger] records[k]) ==> exists|i: int|
                    0 <= i < s.len() && tells_unstaged(#[trigger] s[i], records[k], lines)
        }),
    decreases records.len(),
{
    reveal(Seq::filter);
    if records.len() > 0 {
        let rest = records.drop_last();
        let s = unstaged_entries(records, line_counts(lines));
        let t = unstaged_entries(rest, line_counts(lines));
        let n = records.len() - 1;
        lemma_unstaged_entries(rest, lines);
        lemma_unstaged(records[n], lines);
        law_untracked_lines_are_counted(records[n].untracked);
        assert forall|i: int| 0 <= i < s.len() implies exists|k: int|
            0 <= k < records.len() && tells_unstaged(#[trigger] s[i], #[trigger] records[k], lines) by {
            if i < t.len() {
                assert(s[i] == t[i]);
                let k = choose|k: int|
                    0 <= k < rest.len() && tells_unstaged(t[i], #[trigger] rest[k], lines);
                assert(tells_unstaged(s[i], records[k], lines));
            } else {
                assert(tells_unstaged(s[i], records[n], lines));
            }
        }
        assert forall|k: int| 0 <= k < records.len() && has_unstaged(#[trigger] records[k]) implies exists|
            i: int,
        |
            0 <= i < s.len() && tells_unstaged(#[trigger] s[i], records[k], lines) by {
            if k < n {
                assert(rest[k] == records[k]);
                let i = choose|i: int|
                    0 <= i < t.len() && tells_unstaged(#[trigger] t[i], rest[k], lines);
                assert(s[i] == t[i]);
            } else {
                assert(tells_unstaged(s[t.len() as int], records[k], lines));
            }
        }
    }
}

/// The unstaged entry shows what the record says and counts the lines of the
/// patch, or its own where it is untracked.
pub open spec fn tells_unstaged(e: FileEntry, r: StatusRecord, lines: Seq<PatchLine>) -> bool {
    &&& shows_unstaged(e, r)
    &&& e.status != FileStatus::Untracked ==> counts_lines_of(e, lines)
    &&& e.status == FileStatus::Untracked ==> e.deletions == 0 && e.additions == opt_line_count(
        r.untracked,
    )
}

/// Each staged file is one that the report has a change of in its index, with
/// the kind of that change and with the lines that the patch of the index adds
/// and removes. No such record is left out, and the files stand in the order of
/// their paths.
pub proof fn law_staged_files_show_the_report(
    records: Seq<StatusRecord>,
    lines: Seq<PatchLine>,
    files: Seq<FileEntry>,
)
    requires
        lines.len() <= u32::MAX,
        files == sorted(staged_entries(records, line_counts(lines))),
    ensures
        files.len() == records.filter(|r: StatusRecord| has_staged(r)).len(),
        forall|i: int|
            0 <= i < files.len() ==> counts_lines_of(#[trigger] files[i], lines) && exists|k: int|
                0 <= k < records.len() && shows_staged(files[i], #[trigger] records[k]),
        forall|k: int|
            0 <= k < records.len() && has_staged(#[trigger] records[k]) ==> exists|i: int|
                0 <= i < files.len() && shows_staged(#[trigger] files[i], records[k]),
        forall|i: int, j: int|
            0 <= i < j < files.len() ==> lex_le(
                (#[trigger] files[i]).path@,
                (#[trigger] files[j]).path@,
            ),
{
    let raw = staged_entries(records, line_counts(lines));
    lemma_staged_entries(records, lines);
    lemma_sorted_members(raw);
    assert forall|i: int| 0 <= i < files.len() implies counts_lines_of(#[trigger] files[i], lines)
        && exists|k: int| 0 <= k < records.len() && shows_staged(files[i], #[trigger] records[k]) by {
        assert(raw.contains(sorted(raw)[i]));
        let j = choose|j: int| 0 <= j < raw.len() && raw[j] == files[i];
        assert(counts_lines_of(raw[j], lines));
        let k = choose|k: int|
            0 <= k < records.len() && shows_staged(raw[j], #[trigger] records[k]);
        assert(shows_staged(files[i], records[k]));
    }
    assert forall|k: int| 0 <= k < records.len() && has_staged(#[trigger] records[k]) implies exists|
        i: int,
    |
        0 <= i < files.len() && shows_staged(#[trigger] files[i], records[k]) by {
        let j = choose|j: int| 0 <= j < raw.len() && shows_staged(#[trigger] raw[j], records[k]);
        assert(sorted(raw).contains(raw[j]));
        let i = choose|i: int| 0 <= i < files.len() && files[i] == raw[j];
        assert(shows_staged(files[i], records[k]));
    }
}

/// Each unstaged file is one that the report has a change of in the working
/// tree, with the kind of that change. A tracked one has the lines that the
/// patch of the working tree adds and removes; an untracked one removes none.
/// No such record is left out, and the files stand in the order of their paths.
pub proof fn law_unstaged_files_show_the_report(
    records: Seq<StatusRecord>,
    lines: Seq<PatchLine>,
    files: Seq<FileEntry>,
)
    requires
        lines.len() <= u32::MAX,
        files == sorted(unstaged_entries(records, line_counts(lines))),
    ensures
        files.len() == records.filter(|r: StatusRecord| has_unstaged(r)).len(),
        forall|i: int|
            0 <= i < files.len() ==> exists|k: int|
                0 <= k < records.len() && tells_unstaged(
                    #[trigger] files[i],
                    #[trigger] records[k],
                    lines,
                ),
        forall|k: int|
            0 <= k < records.len() && has_unstaged(#[trigger] records[k]) ==> exists|i: int|
                0 <= i < files.len() && tells_unstaged(#[trigger] files[i], records[k], lines),
        forall|i: int, j: int|
            0 <= i < j < files.len() ==> lex_le(
                (#[trigger] files[i]).path@,
                (#[trigger] files[j]).path@,
            ),
{
    let raw = unstaged_entries(records, line_counts(lines));
    lemma_unstaged_entries(records, lines);
    lemma_sorted_members(raw);
    assert forall|i: int| 0 <= i < files.len() implies exists|k: int|
        0 <= k < records.len() && tells_unstaged(#[trigger] files[i], #[trigger] records[k], lines) by {
        assert(raw.contains(sorted(raw)[i]));
        let j = choose|j: int| 0 <= j < raw.len() && raw[j] == files[i];
        let k = choose|k: int|
            0 <= k < records.len() && tells_unstaged(raw[j], #[trigger] records[k], lines);
        assert(tells_unstaged(files[i], records[k], lines));
    }
    assert forall|k: int| 0 <= k < records.len() && has_unstaged(#[trigger] records[k]) implies exists|
        i: int,
    |
        0 <= i < files.len() && tells_unstaged(#[trigger] files[i], records[k], lines) by {
        let j = choose|j: int|
            0 <= j < raw.len() && tells_unstaged(#[trigger] raw[j], records[k], lines);
        assert(sorted(raw).contains(raw[j]));
        let i = choose|i: int| 0 <= i < files.len() && files[i] == raw[j];
        assert(tells_unstaged(files[i], records[k], lines));
    }
}

// ── The hunks of a patch ─────────────────────────────────────────────────

/// The patch line is one of text: added, removed or neither.
pub open spec fn is_text(l: PatchLine) -> bool {
    l.origin == '+' || l.origin == '-' || l.origin == ' '
}

/// What the patch says of a line is what the diff shows of it: the mark, the
/// number in the old file and that in the new one, and the text less the line
/// feeds at its end.
pub open spec fn shows_line(m: LineModel, l: PatchLine) -> bool {
    &&& is_text(l)
    &&& (m.tag == LineTag::Added <==> l.origin == '+')
    &&& (m.tag == LineTag::Removed <==> l.origin == '-')
    &&& (m.tag == LineTag::Context <==> l.origin == ' ')
    &&& m.old_lineno == l.old_lineno
    &&& m.new_lineno == l.new_lineno
    &&& is_cut_of(m.content, bytes_text(l.content@))
}

/// `s` is `t` less the line feeds at its end.
pub open spec fn is_cut_of(s: Seq<char>, t: Seq<char>) -> bool {
    &&& s.len() <= t.len()
    &&& t.take(s.len() as int) == s
    &&& forall|i: int| s.len() <= i < t.len() ==> #[trigger] t[i] == '\n'
    &&& s.len() > 0 ==> s.last() != '\n'
}

/// `s` is `t` less the white space around it: what is cut off is white space,
/// and what is left has none at either end.
pub open spec fn is_core_of(s: Seq<char>, t: Seq<char>) -> bool {
    exists|i: int| #[trigger] is_core_at(s, t, i)
}

pub open spec fn is_core_at(s: Seq<char>, t: Seq<char>, i: int) -> bool {
    &&& 0 <= i
    &&& i + s.len() <= t.len()
    &&& t.subrange(i, i + s.len()) == s
    &&& forall|k: int|
        0 <= k < t.len() && !(i <= k < i + s.len()) ==> crate::text::is_space(#[trigger] t[k])
    &&& s.len() > 0 ==> !crate::text::is_space(s[0]) && !crate::text::is_space(s.last())
}

pub proof fn lemma_cut(t: Seq<char>)
    ensures
        is_cut_of(without_trailing(t, '\n'), t),
    decreases t.len(),
{
    let s = without_trailing(t, '\n');
    if t.len() > 0 && t.last() == '\n' {
        let u = t.drop_last();
        lemma_cut(u);
        assert(t.take(s.len() as int) =~= u.take(s.len() as int));
        assert forall|i: int| s.len() <= i < t.len() implies #[trigger] t[i] == '\n' by {
            if i < u.len() {
                assert(u[i] == t[i]);
            }
        }
    } else {
        assert(t.take(t.len() as int) =~= t);
    }
}

/// A patch grows line by line. A line of another file changes nothing. A header
/// opens an empty hunk behind those there are. A line of text goes to the end
/// of the hunk that is open, and is lost where none is.
pub proof fn law_patch_grows_line_by_line(lines: Seq<PatchLine>, l: PatchLine, path: Seq<char>)
    requires
        path.len() > 0,
    ensures
        patch_hunks(Seq::empty(), path).len() == 0,
        !is_of(l, path) ==> patch_hunks(lines.push(l), path) == patch_hunks(lines, path),
        is_of(l, path) && l.origin == 'H' ==> {
            let was = patch_hunks(lines, path);
            let now = patch_hunks(lines.push(l), path);
            &&& now.len() == was.len() + 1
            &&& now.take(was.len() as int) == was
            &&& now.last().lines.len() == 0
            &&& is_core_of(now.last().header, bytes_text(l.content@))
        },
        is_of(l, path) && is_text(l) && patch_hunks(lines, path).len() > 0 ==> {
            let was = patch_hunks(lines, path);
            let now = patch_hunks(lines.push(l), path);
            &&& now.len() == was.len()
            &&& now.drop_last() == was.drop_last()
            &&& now.last().header == was.last().header
            &&& now.last().lines.len() == was.last().lines.len() + 1
            &&& now.last().lines.drop_last() == was.last().lines
            &&& shows_line(now.last().lines.last(), l)
        },
        is_of(l, path) && l.origin != 'H' && (!is_text(l) || patch_hunks(lines, path).len() == 0)
            ==> patch_hunks(lines.push(l), path) == patch_hunks(lines, path),
{
    let was = patch_hunks(lines, path);
    let now = patch_hunks(lines.push(l), path);
    assert(lines.push(l).drop_last() =~= lines);
    assert(line_path(l) == path <==> is_of(l, path));
    lemma_cut(bytes_text(l.content@));
    lemma_core(bytes_text(l.content@));
    if is_of(l, path) && l.origin == 'H' {
        assert(now.take(was.len() as int) =~= was);
    } else if is_of(l, path) && is_text(l) && was.len() > 0 {
        assert(now.drop_last() =~= was.drop_last());
        assert(now.last().lines.drop_last() =~= was.last().lines);
    }
}

proof fn lemma_core_start(t: Seq<char>) -> (i: int)
    ensures
        0 <= i <= t.len(),
        crate::text::trim_start(t) == t.skip(i),
        forall|k: int| 0 <= k < i ==> crate::text::is_space(#[trigger] t[k]),
        i < t.len() ==> !crate::text::is_space(t[i]),
    decreases t.len(),
{
    if t.len() > 0 && crate::text::is_space(t[0]) {
        let u = t.drop_first();
        let j = lemma_core_start(u);
        assert(u.skip(j) =~= t.skip(j + 1));
        assert forall|k: int| 0 <= k < j + 1 implies crate::text::is_space(#[trigger] t[k]) by {
            if k > 0 {
                assert(u[k - 1] == t[k]);
            }
        }
        j + 1
    } else {
        assert(t.skip(0) =~= t);
        0
    }
}

proof fn lemma_core_end(t: Seq<char>) -> (n: int)
    ensures
        0 <= n <= t.len(),
        crate::text::trim_end(t) == t.take(n),
        forall|k: int| n <= k < t.len() ==> crate::text::is_space(#[trigger] t[k]),
        n > 0 ==> !crate::text::is_space(t[n - 1]),
    decreases t.len(),
{
    if t.len() > 0 && crate::text::is_space(t.last()) {
        let u = t.drop_last();
        let n = lemma_core_end(u);
        assert(u.take(n) =~= t.take(n));
        assert forall|k: int| n <= k < t.len() implies crate::text::is_space(#[trigger] t[k]) by {
            if k < u.len() {
                assert(u[k] == t[k]);
            }
        }
        n
    } else {
        assert(t.take(t.len() as int) =~= t);
        t.len() as int
    }
}

pub proof fn lemma_core(t: Seq<char>)
    ensures
        is_core_of(trimmed(t), t),
{
    let i = lemma_core_start(t);
    let u = t.skip(i);
    let n = lemma_core_end(u);
    let s = trimmed(t);
    assert(t.subrange(i, i + n) =~= s);
    assert forall|k: int| 0 <= k < t.len() && !(i <= k < i + s.len()) implies crate::text::is_space(
        #[trigger] t[k],
    ) by {
        if k >= i {
            assert(u[k - i] == t[k]);
        }
    }
    if n > 0 {
        assert(s[0] == t[i]);
        assert(s.last() == u[n - 1]);
    }
    assert(is_core_at(s, t, i));
}

/// Where a line of a hunk comes from.
pub open spec fn is_shown_from(m: LineModel, lines: Seq<PatchLine>, path: Seq<char>) -> bool {
    exists|k: int|
        0 <= k < lines.len() && is_of(#[trigger] lines[k], path) && shows_line(m, lines[k])
}

/// Every line of a diff comes from a line of the patch that belongs to the
/// file, and shows that line's mark, its two numbers and its text.
pub proof fn law_diff_lines_show_the_patch(lines: Seq<PatchLine>, path: Seq<char>, h: int, i: int)
    requires
        path.len() > 0,
        0 <= h < patch_hunks(lines, path).len(),
        0 <= i < patch_hunks(lines, path)[h].lines.len(),
    ensures
        is_shown_from(patch_hunks(lines, path)[h].lines[i], lines, path),
    decreases lines.len(),
{
    let rest = lines.drop_last();
    let l = lines.last();
    let was = patch_hunks(rest, path);
    let now = patch_hunks(lines, path);
    let m = now[h].lines[i];
    assert(rest.push(l) =~= lines);
    law_patch_grows_line_by_line(rest, l, path);
    if is_of(l, path) && is_text(l) && was.len() > 0 && h == now.len() - 1 && i
        == now[h].lines.len() - 1 {
        assert(lines[lines.len() - 1] == l);
    } else {
        if is_of(l, path) && l.origin == 'H' {
            assert(now.take(was.len() as int)[h] == now[h]);
        } else if is_of(l, path) && is_text(l) && was.len() > 0 {
            if h < now.len() - 1 {
                assert(now.drop_last()[h] == now[h]);
                assert(was.drop_last()[h] == was[h]);
            } else {
                assert(now.last().lines.drop_last()[i] == m);
            }
        }
        assert(was[h].lines[i] == m);
        law_diff_lines_show_the_patch(rest, path, h, i);
        let k = choose|k: int|
            0 <= k < rest.len() && is_of(#[trigger] rest[k], path) && shows_line(m, rest[k]);
        assert(lines[k] == rest[k]);
    }
}

/// Every line of text that stands behind a header of its file is shown.
pub proof fn law_no_line_of_the_patch_is_lost(lines: Seq<PatchLine>, path: Seq<char>, j: int, k: int)
    -> (at: (int, int))
    requires
        path.len() > 0,
        0 <= j < k < lines.len(),
        is_of(lines[j], path),
        lines[j].origin == 'H',
        is_of(lines[k], path),
        is_text(lines[k]),
    ensures
        0 <= at.0 < patch_hunks(lines, path).len(),
        0 <= at.1 < patch_hunks(lines, path)[at.0].lines.len(),
        shows_line(patch_hunks(lines, path)[at.0].lines[at.1], lines[k]),
    decreases lines.len(),
{
    let rest = lines.drop_last();
    let l = lines.last();
    let was = patch_hunks(rest, path);
    let now = patch_hunks(lines, path);
    assert(rest.push(l) =~= lines);
    law_patch_grows_line_by_line(rest, l, path);
    lemma_header_opens(rest, path, j);
    if k == lines.len() - 1 {
        (now.len() - 1, now.last().lines.len() - 1)
    } else {
        assert(rest[j] == lines[j] && rest[k] == lines[k]);
        let at = law_no_line_of_the_patch_is_lost(rest, path, j, k);
        if is_of(l, path) && l.origin == 'H' {
            assert(now.take(was.len() as int)[at.0] == now[at.0]);
        } else if is_of(l, path) && is_text(l) {
            if at.0 < was.len() - 1 {
                assert(now.drop_last()[at.0] == now[at.0]);
                assert(was.drop_last()[at.0] == was[at.0]);
            } else {
                assert(now.last().lines.drop_last()[at.1] == was.last().lines[at.1]);
            }
        }
        at
    }
}

proof fn lemma_header_opens(lines: Seq<PatchLine>, path: Seq<char>, j: int)
    requires
        path.len() > 0,
        0 <= j < lines.len(),
        is_of(lines[j], path),
        lines[j].origin == 'H',
    ensures
        patch_hunks(lines, path).len() > 0,
    decreases lines.len(),
{
    let rest = lines.drop_last();
    assert(rest.push(lines.last()) =~= lines);
    law_patch_grows_line_by_line(rest, lines.last(), path);
    if j < lines.len() - 1 {
        assert(rest[j] == lines[j]);
        lemma_header_opens(rest, path, j);
    }
}

// ── Names ────────────────────────────────────────────────────────────────

/// A short object id is a start of the long one: seven characters, or all of
/// them where there are fewer.
pub proof fn law_short_id_is_a_prefix(oid: Seq<char>)
    ensures
        short_form(oid).is_prefix_of(oid),
        oid.len() >= 7 ==> short_form(oid).len() == 7,
        oid.len() < 7 ==> short_form(oid).len() == oid.len(),
{
}

/// Two statuses that differ have letters that differ.
pub proof fn law_letters_tell_statuses_apart(a: FileStatus, b: FileStatus)
    requires
        a.letter() == b.letter(),
    ensures
        a == b,
{
}

} // verus!
