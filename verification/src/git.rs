//! Git values and the rules that turn what git reports into them: file
//! status, line counts, patches, references and stashes.
use crate::order::{sort, sorted, Ordered};
use crate::strmap::StrMap;
use crate::text::{
    chars_of, decimal, decimal_string, lemma_lex_total, lemma_lex_transitive, lex_le, lines_of,
    bytes_text, same_str, str_le, string_of, text_lines, text_of_bytes, trim, trim_end_char,
    trimmed, views, without_trailing,
};
use vstd::prelude::*;
use vstd::string::*;

verus! {

#[derive(Debug)]
pub struct StashPushOptions {
    pub message: String,
    pub include_untracked: bool,
    pub keep_index: bool,
    pub staged_only: bool,
    pub paths: Vec<String>,
}

impl Default for StashPushOptions {
    fn default() -> (r: Self)
        ensures
            r.message@.len() == 0,
            !r.include_untracked,
            !r.keep_index,
            !r.staged_only,
            r.paths@.len() == 0,
    {
        StashPushOptions {
            message: String::new(),
            include_untracked: false,
            keep_index: false,
            staged_only: false,
            paths: Vec::new(),
        }
    }
}

#[derive(Debug)]
pub struct StashEntry {
    pub index: usize,
    pub stash_ref: String,
    pub message: String,
    pub created: String,
    pub branch: String,
    pub files_changed: usize,
    pub insertions: u32,
    pub deletions: u32,
    pub includes_untracked: bool,
}

#[derive(Debug)]
pub struct StashDetail {
    pub entry: StashEntry,
    pub files: Vec<FileEntry>,
    pub patch: String,
}

/// One changed file with the lines that its diff adds and removes.
#[derive(Debug)]
pub struct FileEntry {
    pub path: String,
    pub status: FileStatus,
    pub additions: u32,
    pub deletions: u32,
}

impl Clone for FileEntry {
    fn clone(&self) -> (r: Self)
        ensures
            r == *self,
    {
        FileEntry {
            path: self.path.clone(),
            status: self.status,
            additions: self.additions,
            deletions: self.deletions,
        }
    }
}

#[derive(Debug, Clone, Copy, PartialEq, Eq, Structural)]
pub enum FileStatus {
    Modified,
    Added,
    Deleted,
    Renamed,
    Untracked,
}

impl FileStatus {
    /// The letter that stands for the status.
    pub open spec fn letter(self) -> char {
        match self {
            FileStatus::Modified => 'M',
            FileStatus::Added => 'A',
            FileStatus::Deleted => 'D',
            FileStatus::Renamed => 'R',
            FileStatus::Untracked => 'U',
        }
    }

    pub fn label(&self) -> (r: &'static str)
        ensures
            r@ == seq![self.letter()],
    {
        let r = match self {
            FileStatus::Modified => "M",
            FileStatus::Added => "A",
            FileStatus::Deleted => "D",
            FileStatus::Renamed => "R",
            FileStatus::Untracked => "U",
        };
        proof {
            reveal_strlit("M");
            reveal_strlit("A");
            reveal_strlit("D");
            reveal_strlit("R");
            reveal_strlit("U");
            assert(r@ =~= seq![self.letter()]);
        }
        r
    }
}

#[derive(Debug)]
pub struct DiffContent {
    pub file_path: String,
    pub hunks: Vec<DiffHunk>,
}

#[derive(Debug)]
pub struct DiffHunk {
    pub header: String,
    pub lines: Vec<DiffLine>,
}

#[derive(Debug)]
pub struct DiffLine {
    pub tag: LineTag,
    pub content: String,
    pub old_lineno: Option<u32>,
    pub new_lineno: Option<u32>,
}

#[derive(Debug, Clone, Copy, PartialEq, Eq, Structural)]
pub enum LineTag {
    Context,
    Added,
    Removed,
}

#[derive(Debug)]
pub struct CommitInfo {
    pub oid: String,
    pub short_oid: String,
    pub parents: Vec<String>,
    pub author_name: String,
    pub author_email: String,
    pub time: i64,
    pub subject: String,
}

#[derive(Debug)]
pub struct CommitDetail {
    pub info: CommitInfo,
    pub message: String,
    pub committer_name: String,
    pub committer_time: i64,
    pub files: Vec<FileEntry>,
}

#[derive(Debug)]
pub enum RefLabel {
    Head,
    Branch(String),
    RemoteBranch(String),
    Tag(String),
}

/// Entries stand in the byte order of their paths.
impl Ordered for FileEntry {
    open spec fn le(a: Self, b: Self) -> bool {
        lex_le(a.path@, b.path@)
    }

    proof fn total(a: Self, b: Self) {
        lemma_lex_total(a.path@, b.path@);
    }

    proof fn transitive(a: Self, b: Self, c: Self) {
        lemma_lex_transitive(a.path@, b.path@, c.path@);
    }

    fn not_after(&self, other: &Self) -> (r: bool) {
        str_le(self.path.as_str(), other.path.as_str())
    }
}

/// What git says of one path: the index against the head, and the working
/// tree against the index.
#[derive(Debug, Clone, Copy)]
pub struct StatusFlags {
    pub index_new: bool,
    pub index_modified: bool,
    pub index_deleted: bool,
    pub index_renamed: bool,
    pub wt_new: bool,
    pub wt_modified: bool,
    pub wt_deleted: bool,
    pub wt_renamed: bool,
}

/// One row of git's status report. After a rename only the delta of that side
/// knows the new path.
#[derive(Debug)]
pub struct StatusRecord {
    pub flags: StatusFlags,
    pub path: Option<String>,
    pub index_path: Option<String>,
    pub workdir_path: Option<String>,
    /// The contents of an untracked file, where they can be read.
    pub untracked: Option<Vec<u8>>,
}

/// The staged status: a rename wins over the edits that come with it.
pub open spec fn staged_status(f: StatusFlags) -> Option<FileStatus> {
    if f.index_renamed {
        Some(FileStatus::Renamed)
    } else if f.index_new {
        Some(FileStatus::Added)
    } else if f.index_modified {
        Some(FileStatus::Modified)
    } else if f.index_deleted {
        Some(FileStatus::Deleted)
    } else {
        None
    }
}

/// The status in the working tree, by the same order.
pub open spec fn unstaged_status(f: StatusFlags) -> Option<FileStatus> {
    if f.wt_renamed {
        Some(FileStatus::Renamed)
    } else if f.wt_new {
        Some(FileStatus::Untracked)
    } else if f.wt_modified {
        Some(FileStatus::Modified)
    } else if f.wt_deleted {
        Some(FileStatus::Deleted)
    } else {
        None
    }
}

pub open spec fn first_of(a: Option<String>, b: Option<String>) -> Option<String> {
    if a is Some {
        a
    } else {
        b
    }
}

/// The lines that a diff adds and removes, by path.
pub open spec fn counts_for(stats: Map<Seq<char>, (u32, u32)>, path: Seq<char>) -> (u32, u32) {
    if stats.contains_key(path) {
        stats[path]
    } else {
        (0u32, 0u32)
    }
}

/// The staged entry of a record, where it has one.
pub open spec fn staged_entry(r: StatusRecord, stats: Map<Seq<char>, (u32, u32)>) -> Option<
    FileEntry,
> {
    let path = if r.flags.index_renamed {
        first_of(r.index_path, r.path)
    } else {
        r.path
    };
    match (staged_status(r.flags), path) {
        (Some(status), Some(p)) => Some(
            FileEntry {
                path: p,
                status,
                additions: counts_for(stats, p@).0,
                deletions: counts_for(stats, p@).1,
            },
        ),
        _ => None,
    }
}

/// The unstaged entry of a record, where it has one. An untracked file counts
/// its own lines.
pub open spec fn unstaged_entry(r: StatusRecord, stats: Map<Seq<char>, (u32, u32)>) -> Option<
    FileEntry,
> {
    let path = if r.flags.wt_renamed {
        first_of(r.workdir_path, r.path)
    } else {
        r.path
    };
    match (unstaged_status(r.flags), path) {
        (Some(status), Some(p)) => Some(
            FileEntry {
                path: p,
                status,
                additions: if status == FileStatus::Untracked {
                    opt_line_count(r.untracked)
                } else {
                    counts_for(stats, p@).0
                },
                deletions: if status == FileStatus::Untracked {
                    0
                } else {
                    counts_for(stats, p@).1
                },
            },
        ),
        _ => None,
    }
}

pub open spec fn staged_entries(
    records: Seq<StatusRecord>,
    stats: Map<Seq<char>, (u32, u32)>,
) -> Seq<FileEntry>
    decreases records.len(),
{
    if records.len() == 0 {
        Seq::empty()
    } else {
        let rest = staged_entries(records.drop_last(), stats);
        match staged_entry(records.last(), stats) {
            Some(e) => rest.push(e),
            None => rest,
        }
    }
}

pub open spec fn unstaged_entries(
    records: Seq<StatusRecord>,
    stats: Map<Seq<char>, (u32, u32)>,
) -> Seq<FileEntry>
    decreases records.len(),
{
    if records.len() == 0 {
        Seq::empty()
    } else {
        let rest = unstaged_entries(records.drop_last(), stats);
        match unstaged_entry(records.last(), stats) {
            Some(e) => rest.push(e),
            None => rest,
        }
    }
}

/// How many line feeds `b` holds.
pub open spec fn newline_count(b: Seq<u8>) -> nat
    decreases b.len(),
{
    if b.len() == 0 {
        0
    } else {
        newline_count(b.drop_last()) + (if b.last() == 10 {
            1nat
        } else {
            0
        })
    }
}

/// The lines of a file: its line feeds and an unfinished last line. Zero for
/// a file with a NUL byte, which is binary.
pub open spec fn line_count(b: Seq<u8>) -> nat {
    if b.contains(0u8) {
        0
    } else if b.len() > 0 && b.last() != 10 {
        newline_count(b) + 1
    } else {
        newline_count(b)
    }
}

pub open spec fn opt_line_count(content: Option<Vec<u8>>) -> u32 {
    match content {
        Some(b) => if line_count(b@) > u32::MAX {
            u32::MAX
        } else {
            line_count(b@) as u32
        },
        None => 0,
    }
}

/// Lines of an untracked file; zero where there is no content to read.
pub fn count_workdir_lines(content: &Option<Vec<u8>>) -> (r: u32)
    ensures
        r == opt_line_count(*content),
{
    let bytes = match content {
        Some(b) => b,
        None => return 0,
    };
    let mut count: u32 = 0;
    let mut open_line = false;
    let mut i: usize = 0;
    assert(bytes@.take(0) =~= Seq::empty());
    while i < bytes.len()
        invariant
            i <= bytes@.len(),
            *content == Some(*bytes),
            forall|j: int| 0 <= j < i ==> bytes@[j] != 0,
            open_line == (i > 0 && bytes@[i - 1] != 10),
            count == (if newline_count(bytes@.take(i as int)) > u32::MAX {
                u32::MAX as nat
            } else {
                newline_count(bytes@.take(i as int))
            }),
        decreases bytes@.len() - i,
    {
        let b: u8 = bytes[i];
        if b == 0 {
            assert(bytes@.contains(0u8));
            return 0;
        }
        assert(bytes@.take(i + 1).drop_last() =~= bytes@.take(i as int));
        if b == 10 {
            count = count.saturating_add(1);
            open_line = false;
        } else {
            open_line = true;
        }
        i = i + 1;
    }
    assert(bytes@.take(bytes@.len() as int) =~= bytes@);
    assert(!bytes@.contains(0u8));
    if open_line {
        count.saturating_add(1)
    } else {
        count
    }
}

fn lookup_counts(stats: &StrMap<(u32, u32)>, path: &str) -> (r: (u32, u32))
    requires
        stats.wf(),
    ensures
        r == counts_for(stats@, path@),
{
    match stats.get(path) {
        Some(c) => c,
        None => (0, 0),
    }
}

fn staged_of(r: &StatusRecord, stats: &StrMap<(u32, u32)>) -> (e: Option<FileEntry>)
    requires
        stats.wf(),
    ensures
        e == staged_entry(*r, stats@),
{
    let f = r.flags;
    if !(f.index_new || f.index_modified || f.index_deleted || f.index_renamed) {
        return None;
    }
    let (status, path) = if f.index_renamed {
        let p = if r.index_path.is_some() {
            r.index_path.clone()
        } else {
            r.path.clone()
        };
        (FileStatus::Renamed, p)
    } else if f.index_new {
        (FileStatus::Added, r.path.clone())
    } else if f.index_modified {
        (FileStatus::Modified, r.path.clone())
    } else {
        (FileStatus::Deleted, r.path.clone())
    };
    match path {
        Some(path) => {
            let (additions, deletions) = lookup_counts(stats, path.as_str());
            Some(FileEntry { path, status, additions, deletions })
        },
        None => None,
    }
}

fn unstaged_of(r: &StatusRecord, stats: &StrMap<(u32, u32)>) -> (e: Option<FileEntry>)
    requires
        stats.wf(),
    ensures
        e == unstaged_entry(*r, stats@),
{
    let f = r.flags;
    if !(f.wt_modified || f.wt_deleted || f.wt_new || f.wt_renamed) {
        return None;
    }
    let (status, path) = if f.wt_renamed {
        let p = if r.workdir_path.is_some() {
            r.workdir_path.clone()
        } else {
            r.path.clone()
        };
        (FileStatus::Renamed, p)
    } else if f.wt_new {
        (FileStatus::Untracked, r.path.clone())
    } else if f.wt_modified {
        (FileStatus::Modified, r.path.clone())
    } else {
        (FileStatus::Deleted, r.path.clone())
    };
    match path {
        Some(path) => {
            let (additions, deletions) = if status == FileStatus::Untracked {
                (count_workdir_lines(&r.untracked), 0)
            } else {
                lookup_counts(stats, path.as_str())
            };
            Some(FileEntry { path, status, additions, deletions })
        },
        None => None,
    }
}

/// The staged and the unstaged files of a status report, each sorted by path,
/// with the line counts of the two diffs.
pub fn get_status(
    records: &Vec<StatusRecord>,
    staged_lines: &Vec<PatchLine>,
    unstaged_lines: &Vec<PatchLine>,
) -> (r: (Vec<FileEntry>, Vec<FileEntry>))
    requires
        staged_lines@.len() <= u32::MAX,
        unstaged_lines@.len() <= u32::MAX,
    ensures
        r.0@ == sorted(staged_entries(records@, line_counts(staged_lines@))),
        r.1@ == sorted(unstaged_entries(records@, line_counts(unstaged_lines@))),
{
    let staged_stats = collect_diff_line_counts(staged_lines);
    let unstaged_stats = collect_diff_line_counts(unstaged_lines);
    let mut staged: Vec<FileEntry> = Vec::new();
    let mut unstaged: Vec<FileEntry> = Vec::new();
    let mut i: usize = 0;
    assert(records@.take(0) =~= Seq::empty());
    while i < records.len()
        invariant
            i <= records@.len(),
            staged_stats.wf(),
            unstaged_stats.wf(),
            staged@ == staged_entries(records@.take(i as int), staged_stats@),
            unstaged@ == unstaged_entries(records@.take(i as int), unstaged_stats@),
        decreases records@.len() - i,
    {
        assert(records@.take(i + 1).drop_last() =~= records@.take(i as int));
        match staged_of(&records[i], &staged_stats) {
            Some(e) => staged.push(e),
            None => {},
        }
        match unstaged_of(&records[i], &unstaged_stats) {
            Some(e) => unstaged.push(e),
            None => {},
        }
        i = i + 1;
    }
    assert(records@.take(records@.len() as int) =~= records@);
    (sort(staged), sort(unstaged))
}

/// One line of a patch as git prints it, with the paths of its file.
#[derive(Debug)]
pub struct PatchLine {
    pub new_path: Option<String>,
    pub old_path: Option<String>,
    /// `+`, `-`, a space, `H` for a hunk header, or another mark.
    pub origin: char,
    pub content: Vec<u8>,
    pub old_lineno: Option<u32>,
    pub new_lineno: Option<u32>,
}

/// The path that a patch line belongs to: the new one, else the old one, else
/// none, which is the empty path.
pub open spec fn line_path(l: PatchLine) -> Seq<char> {
    match (l.new_path, l.old_path) {
        (Some(p), _) => p@,
        (None, Some(p)) => p@,
        (None, None) => Seq::empty(),
    }
}

fn delta_path(l: &PatchLine) -> (r: String)
    ensures
        r@ == line_path(*l),
{
    match &l.new_path {
        Some(p) => p.clone(),
        None => match &l.old_path {
            Some(p) => p.clone(),
            None => String::new(),
        },
    }
}

/// How many of the lines belong to `path` and carry the mark `origin`.
pub open spec fn marked(lines: Seq<PatchLine>, path: Seq<char>, origin: char) -> nat
    decreases lines.len(),
{
    if lines.len() == 0 {
        0
    } else {
        marked(lines.drop_last(), path, origin) + (if line_path(lines.last()) == path
            && lines.last().origin == origin {
            1nat
        } else {
            0
        })
    }
}

pub open spec fn mentions(lines: Seq<PatchLine>, path: Seq<char>) -> bool {
    exists|i: int| 0 <= i < lines.len() && line_path(#[trigger] lines[i]) == path
}

/// The added and removed lines of every path that the patch names.
pub open spec fn line_counts(lines: Seq<PatchLine>) -> Map<Seq<char>, (u32, u32)> {
    Map::new(
        |p: Seq<char>| p.len() > 0 && mentions(lines, p),
        |p: Seq<char>| (marked(lines, p, '+') as u32, marked(lines, p, '-') as u32),
    )
}

proof fn lemma_marked_bound(lines: Seq<PatchLine>, path: Seq<char>, origin: char)
    ensures
        marked(lines, path, origin) <= lines.len(),
        marked(lines, path, origin) > 0 ==> mentions(lines, path),
    decreases lines.len(),
{
    if lines.len() > 0 {
        let t = lines.drop_last();
        lemma_marked_bound(t, path, origin);
        if marked(t, path, origin) > 0 {
            let i = choose|i: int| 0 <= i < t.len() && line_path(#[trigger] t[i]) == path;
            assert(line_path(lines[i]) == path);
        } else if marked(lines, path, origin) > 0 {
            assert(line_path(lines[lines.len() - 1]) == path);
        }
    }
}

/// Tallies the added and removed lines of a patch by path.
pub fn collect_diff_line_counts(lines: &Vec<PatchLine>) -> (r: StrMap<(u32, u32)>)
    requires
        lines@.len() <= u32::MAX,
    ensures
        r.wf(),
        r@ == line_counts(lines@),
{
    let mut out: StrMap<(u32, u32)> = StrMap::new();
    let mut i: usize = 0;
    assert(out@ =~= line_counts(lines@.take(0)));
    while i < lines.len()
        invariant
            i <= lines@.len() <= u32::MAX,
            out.wf(),
            out@ == line_counts(lines@.take(i as int)),
        decreases lines@.len() - i,
    {
        let l = &lines[i];
        let path = delta_path(l);
        let ghost before = lines@.take(i as int);
        let ghost after = lines@.take(i + 1);
        proof {
            assert(after.drop_last() =~= before);
            assert(after.last() == *l);
            assert forall|p: Seq<char>| mentions(after, p) == (mentions(before, p) || line_path(*l)
                == p) by {
                if mentions(before, p) {
                    let j = choose|j: int| 0 <= j < before.len() && line_path(#[trigger] before[j])
                        == p;
                    assert(line_path(after[j]) == p);
                }
                if mentions(after, p) {
                    let j = choose|j: int| 0 <= j < after.len() && line_path(#[trigger] after[j])
                        == p;
                    assert(j < i ==> line_path(before[j]) == p);
                }
                assert(line_path(after[i as int]) == line_path(*l));
            }
            lemma_marked_bound(before, path@, '+');
            lemma_marked_bound(before, path@, '-');
        }
        if !path.as_str().is_empty() {
            let (a, d) = lookup_counts(&out, path.as_str());
            assert(a == marked(before, path@, '+'));
            assert(d == marked(before, path@, '-'));
            let value: (u32, u32) = if l.origin == '+' {
                (a + 1, d)
            } else if l.origin == '-' {
                (a, d + 1)
            } else {
                (a, d)
            };
            out.insert(path, value);
        }
        i = i + 1;
        assert(out@ =~= line_counts(lines@.take(i as int)));
    }
    assert(lines@.take(lines@.len() as int) =~= lines@);
    out
}

/// A diff line by its contents.
pub struct LineModel {
    pub tag: LineTag,
    pub content: Seq<char>,
    pub old_lineno: Option<u32>,
    pub new_lineno: Option<u32>,
}

pub struct HunkModel {
    pub header: Seq<char>,
    pub lines: Seq<LineModel>,
}

impl DiffLine {
    pub open spec fn view(&self) -> LineModel {
        LineModel {
            tag: self.tag,
            content: self.content@,
            old_lineno: self.old_lineno,
            new_lineno: self.new_lineno,
        }
    }
}

impl DiffHunk {
    pub open spec fn view(&self) -> HunkModel {
        HunkModel {
            header: self.header@,
            lines: self.lines@.map_values(|l: DiffLine| l.view()),
        }
    }
}

pub open spec fn hunk_views(v: Seq<DiffHunk>) -> Seq<HunkModel> {
    v.map_values(|h: DiffHunk| h.view())
}

pub open spec fn origin_tag(origin: char) -> Option<LineTag> {
    if origin == '+' {
        Some(LineTag::Added)
    } else if origin == '-' {
        Some(LineTag::Removed)
    } else if origin == ' ' {
        Some(LineTag::Context)
    } else {
        None
    }
}

pub open spec fn patch_line(l: PatchLine, tag: LineTag) -> LineModel {
    LineModel {
        tag,
        content: without_trailing(bytes_text(l.content@), '\n'),
        old_lineno: l.old_lineno,
        new_lineno: l.new_lineno,
    }
}

/// The hunks of one file's patch: each header opens a hunk, and each line of
/// text joins the hunk that is open.
pub open spec fn patch_hunks(lines: Seq<PatchLine>, path: Seq<char>) -> Seq<HunkModel>
    decreases lines.len(),
{
    if lines.len() == 0 {
        Seq::empty()
    } else {
        let done = patch_hunks(lines.drop_last(), path);
        let l = lines.last();
        if line_path(l) != path {
            done
        } else if l.origin == 'H' {
            done.push(
                HunkModel { header: trimmed(bytes_text(l.content@)), lines: Seq::empty() },
            )
        } else if origin_tag(l.origin) is Some && done.len() > 0 {
            let last = done.last();
            done.update(
                done.len() - 1,
                HunkModel {
                    header: last.header,
                    lines: last.lines.push(patch_line(l, origin_tag(l.origin)->0)),
                },
            )
        } else {
            done
        }
    }
}

/// The diff of one file out of a patch, or none where the patch has no hunk
/// for it.
pub fn parse_git2_diff(lines: &Vec<PatchLine>, path: &str) -> (r: Option<DiffContent>)
    ensures
        r is Some <==> patch_hunks(lines@, path@).len() > 0,
        r matches Some(d) ==> d.file_path@ == path@ && hunk_views(d.hunks@) == patch_hunks(
            lines@,
            path@,
        ),
{
    let mut hunks: Vec<DiffHunk> = Vec::new();
    let mut i: usize = 0;
    assert(hunk_views(hunks@) =~= patch_hunks(lines@.take(0), path@));
    while i < lines.len()
        invariant
            i <= lines@.len(),
            hunk_views(hunks@) == patch_hunks(lines@.take(i as int), path@),
        decreases lines@.len() - i,
    {
        let l = &lines[i];
        let ghost before = hunks@;
        let ghost expected = patch_hunks(lines@.take(i + 1), path@);
        assert(lines@.take(i + 1).drop_last() =~= lines@.take(i as int));
        if same_str(delta_path(l).as_str(), path) {
            let origin: char = l.origin;
            if origin == '+' || origin == '-' || origin == ' ' {
                let tag = if origin == '+' {
                    LineTag::Added
                } else if origin == '-' {
                    LineTag::Removed
                } else {
                    LineTag::Context
                };
                let content = trim_end_char(text_of_bytes(l.content.as_slice()).as_str(), '\n');
                let line = DiffLine {
                    tag,
                    content,
                    old_lineno: l.old_lineno,
                    new_lineno: l.new_lineno,
                };
                let ghost model = line.view();
                let n: usize = hunks.len();
                if n > 0 {
                    let mut last = hunks.pop().unwrap();
                    let ghost old_last = last;
                    last.lines.push(line);
                    let ghost new_last = last;
                    hunks.push(last);
                    proof {
                        assert(new_last.view().lines =~= old_last.view().lines.push(model));
                        assert(hunk_views(before)[n - 1] == old_last.view());
                        assert(hunk_views(hunks@) =~= hunk_views(before).update(
                            n - 1,
                            new_last.view(),
                        ));
                        assert(hunk_views(hunks@) =~= expected);
                    }
                }
            } else if origin == 'H' {
                let header = trim(text_of_bytes(l.content.as_slice()).as_str());
                let h = DiffHunk { header, lines: Vec::new() };
                assert(h.view().lines =~= Seq::empty());
                let ghost model = h.view();
                hunks.push(h);
                assert(hunk_views(hunks@) =~= hunk_views(before).push(model));
            }
        }
        i = i + 1;
        assert(hunk_views(hunks@) =~= expected);
    }
    assert(lines@.take(lines@.len() as int) =~= lines@);
    assert(hunk_views(hunks@).len() == hunks@.len());
    if hunks.len() == 0 {
        None
    } else {
        Some(DiffContent { file_path: path.to_owned(), hunks })
    }
}

/// The hunk header of a file that is new as a whole.
pub open spec fn new_file_header(lines: nat) -> Seq<char> {
    "@@ -0,0 +1,"@ + decimal(lines) + " @@ (new file)"@
}

/// The diff of an untracked file: all its lines, added, numbered from one.
pub fn get_untracked_diff(path: &str, content: &str) -> (r: DiffContent)
    requires
        text_lines(content@).len() <= u32::MAX,
    ensures
        r.file_path@ == path@,
        r.hunks@.len() == 1,
        r.hunks@[0].header@ == new_file_header(text_lines(content@).len()),
        r.hunks@[0].lines@.len() == text_lines(content@).len(),
        forall|i: int|
            0 <= i < text_lines(content@).len() ==> (#[trigger] r.hunks@[0].lines@[i]).view() == (
            LineModel {
                tag: LineTag::Added,
                content: text_lines(content@)[i],
                old_lineno: None,
                new_lineno: Some((i + 1) as u32),
            }),
{
    let text = lines_of(content);
    let ghost all = views(text@);
    let n: usize = text.len();
    assert(all.len() == n);
    let mut lines: Vec<DiffLine> = Vec::new();
    let mut i: usize = 0;
    while i < n
        invariant
            i <= n == text@.len(),
            n <= u32::MAX,
            all == views(text@),
            lines@.len() == i,
            forall|j: int|
                0 <= j < i ==> (#[trigger] lines@[j]).view() == (LineModel {
                    tag: LineTag::Added,
                    content: all[j],
                    old_lineno: None,
                    new_lineno: Some((j + 1) as u32),
                }),
        decreases n - i,
    {
        assert(all[i as int] == text@[i as int]@);
        lines.push(
            DiffLine {
                tag: LineTag::Added,
                content: text[i].clone(),
                old_lineno: None,
                new_lineno: Some(i as u32 + 1),
            },
        );
        i = i + 1;
    }
    let mut header = "@@ -0,0 +1,".to_owned();
    header.append(decimal_string(n as u64).as_str());
    header.append(" @@ (new file)");
    let mut hunks: Vec<DiffHunk> = Vec::new();
    hunks.push(DiffHunk { header, lines });
    DiffContent { file_path: path.to_owned(), hunks }
}

/// Which diff a path gets: the index against the head when staged is asked
/// for; the whole file when it is untracked; else the working tree against
/// the index.
#[derive(Debug, Clone, Copy, PartialEq, Eq, Structural)]
pub enum DiffSource {
    HeadToIndex,
    Untracked,
    IndexToWorkdir,
}

/// The diff to take for `path`, given the status rows of the repository.
pub fn get_diff(path: &str, staged: bool, records: &Vec<StatusRecord>) -> (r: DiffSource)
    ensures
        r == (if staged {
            DiffSource::HeadToIndex
        } else if exists|i: int|
            0 <= i < records@.len() && (#[trigger] records@[i]).flags.wt_new
                && records@[i].path is Some && records@[i].path->0@ == path@ {
            DiffSource::Untracked
        } else {
            DiffSource::IndexToWorkdir
        }),
{
    if staged {
        return DiffSource::HeadToIndex;
    }
    let mut i: usize = 0;
    while i < records.len()
        invariant
            i <= records@.len(),
            !staged,
            forall|j: int|
                0 <= j < i ==> !((#[trigger] records@[j]).flags.wt_new && records@[j].path is Some
                    && records@[j].path->0@ == path@),
        decreases records@.len() - i,
    {
        if records[i].flags.wt_new {
            match &records[i].path {
                Some(p) => {
                    if same_str(p.as_str(), path) {
                        return DiffSource::Untracked;
                    }
                },
                None => {},
            }
        }
        i = i + 1;
    }
    DiffSource::IndexToWorkdir
}

/// What is done to one path of a repository.
#[derive(Debug, Clone, Copy, PartialEq, Eq, Structural)]
pub enum FileStep {
    /// Put the file as it is on disk into the index.
    AddToIndex,
    /// Take the path out of the index.
    RemoveFromIndex,
    /// Put the head's version of the path into the index.
    ResetIndex,
    /// Overwrite the file with the head's version.
    CheckoutFromHead,
    /// Delete the file.
    DeleteFromDisk,
}

impl FileStep {
    pub open spec fn changes_index(self) -> bool {
        self is AddToIndex || self is RemoveFromIndex || self is ResetIndex
    }
}

/// How a change is staged: a file that is gone from disk leaves the index.
pub fn stage_file(on_disk: bool) -> (r: FileStep)
    ensures
        r == (if on_disk {
            FileStep::AddToIndex
        } else {
            FileStep::RemoveFromIndex
        }),
{
    if on_disk {
        FileStep::AddToIndex
    } else {
        FileStep::RemoveFromIndex
    }
}

/// How a change is unstaged: before the first commit there is no version to
/// go back to, and the path leaves the index.
pub fn unstage_file(has_head: bool) -> (r: FileStep)
    ensures
        r == (if has_head {
            FileStep::ResetIndex
        } else {
            FileStep::RemoveFromIndex
        }),
{
    if has_head {
        FileStep::ResetIndex
    } else {
        FileStep::RemoveFromIndex
    }
}

/// How a file of the working tree goes back to the head's version: one that
/// the head does not have is deleted. The index stays as it is.
pub fn restore_file(in_head: bool) -> (r: FileStep)
    ensures
        r == (if in_head {
            FileStep::CheckoutFromHead
        } else {
            FileStep::DeleteFromDisk
        }),
        !r.changes_index(),
{
    if in_head {
        FileStep::CheckoutFromHead
    } else {
        FileStep::DeleteFromDisk
    }
}

/// How a tree-to-tree diff marks one file.
#[derive(Debug, Clone, Copy, PartialEq, Eq, Structural)]
pub enum DeltaKind {
    Added,
    Deleted,
    Renamed,
    Copied,
    Untracked,
    Other,
}

#[derive(Debug)]
pub struct FileDelta {
    pub path: Option<String>,
    pub kind: DeltaKind,
}

pub open spec fn delta_status(k: DeltaKind) -> FileStatus {
    match k {
        DeltaKind::Added => FileStatus::Added,
        DeltaKind::Deleted => FileStatus::Deleted,
        DeltaKind::Renamed => FileStatus::Renamed,
        DeltaKind::Copied => FileStatus::Renamed,
        DeltaKind::Untracked => FileStatus::Untracked,
        DeltaKind::Other => FileStatus::Modified,
    }
}

pub open spec fn delta_entries(deltas: Seq<FileDelta>) -> Seq<FileEntry>
    decreases deltas.len(),
{
    if deltas.len() == 0 {
        Seq::empty()
    } else {
        let rest = delta_entries(deltas.drop_last());
        match deltas.last().path {
            Some(path) => rest.push(
                FileEntry {
                    path,
                    status: delta_status(deltas.last().kind),
                    additions: 0,
                    deletions: 0,
                },
            ),
            None => rest,
        }
    }
}

/// The files of a commit's diff, sorted by path. A delta without a path is
/// left out.
pub fn collect_files_from_diff(deltas: Vec<FileDelta>) -> (r: Vec<FileEntry>)
    ensures
        r@ == sorted(delta_entries(deltas@)),
{
    let ghost all = deltas@;
    let mut files: Vec<FileEntry> = Vec::new();
    assert(all.take(0) =~= Seq::empty());
    for d in it: deltas
        invariant
            it.seq() == all,
            files@ == delta_entries(all.take(it.index() as int)),
    {
        proof {
            let i = it.index() as int;
            assert(all.take(i + 1).drop_last() =~= all.take(i));
            assert(all.take(i + 1).last() == d);
        }
        let status = match d.kind {
            DeltaKind::Added => FileStatus::Added,
            DeltaKind::Deleted => FileStatus::Deleted,
            DeltaKind::Renamed => FileStatus::Renamed,
            DeltaKind::Copied => FileStatus::Renamed,
            DeltaKind::Untracked => FileStatus::Untracked,
            DeltaKind::Other => FileStatus::Modified,
        };
        match d.path {
            Some(path) => files.push(FileEntry { path, status, additions: 0, deletions: 0 }),
            None => {},
        }
    }
    assert(all.take(all.len() as int) =~= all);
    sort(files)
}

/// The abbreviated object id: its first seven characters.
pub open spec fn short_form(oid: Seq<char>) -> Seq<char> {
    if oid.len() <= 7 {
        oid
    } else {
        oid.take(7)
    }
}

/// A commit's summary out of what git records of it; a missing name, address
/// or subject is empty.
pub fn commit_to_info(
    oid: String,
    parents: Vec<String>,
    author_name: Option<String>,
    author_email: Option<String>,
    time: i64,
    summary: Option<String>,
) -> (r: CommitInfo)
    ensures
        r.oid == oid,
        r.short_oid@ == short_form(oid@),
        r.parents == parents,
        r.author_name@ == or_empty(author_name),
        r.author_email@ == or_empty(author_email),
        r.time == time,
        r.subject@ == or_empty(summary),
{
    let v = chars_of(oid.as_str());
    let n: usize = if v.len() < 7 {
        v.len()
    } else {
        7
    };
    let short_oid = string_of(v.as_slice(), 0, n);
    assert(short_oid@ =~= short_form(oid@));
    CommitInfo {
        oid,
        short_oid,
        parents,
        author_name: unwrap_or_empty(author_name),
        author_email: unwrap_or_empty(author_email),
        time,
        subject: unwrap_or_empty(summary),
    }
}

pub open spec fn or_empty(s: Option<String>) -> Seq<char> {
    match s {
        Some(x) => x@,
        None => Seq::empty(),
    }
}

fn unwrap_or_empty(s: Option<String>) -> (r: String)
    ensures
        r@ == or_empty(s),
{
    match s {
        Some(x) => x,
        None => String::new(),
    }
}

} // verus!
