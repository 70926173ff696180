//! Values of the program as messages on the wire, and back.
use crate::backend::{
    ColumnInfo, ContainerInfo, ContainerState, ContentMatchHit, DatabaseInfo, DbPage, DirEntry,
    SqliteValue, StatusSnapshot, TableSummary,
};
use crate::git::{
    CommitDetail, CommitInfo, DiffContent, DiffHunk, DiffLine, FileEntry, FileStatus, LineTag,
    RefLabel, StashDetail, StashEntry,
};
use crate::proto::{
    ColumnInfoDto, CommitDetailDto, CommitInfoDto, ContainerInfoDto, ContainerStateDto,
    DatabaseInfoDto, DbPageDto, DiffContentDto, DiffHunkDto, DiffLineDto, DirEntryDto,
    FileEntryDto, FileStatusDto, LineTagDto, MatchHitDto, RefLabelDto, SqliteValueDto,
    StashDetailDto, StashEntryDto, StatusSnapshotDto, TableSummaryDto,
};
use crate::refs::RefRow;
use crate::text::map_vec;
use vstd::prelude::*;
use vstd::string::*;
use vstd::utf8::*;

verus! {

/// Two lists of the same length whose elements correspond one by one.
pub open spec fn pairwise<A, B>(a: Seq<A>, b: Seq<B>, same: spec_fn(A, B) -> bool) -> bool {
    &&& a.len() == b.len()
    &&& forall|i: int| #![trigger a[i]] #![trigger b[i]] 0 <= i < a.len() ==> same(a[i], b[i])
}

// ── Files ────────────────────────────────────────────────────────────────

pub open spec fn status_dto(s: FileStatus) -> FileStatusDto {
    match s {
        FileStatus::Modified => FileStatusDto::Modified,
        FileStatus::Added => FileStatusDto::Added,
        FileStatus::Deleted => FileStatusDto::Deleted,
        FileStatus::Renamed => FileStatusDto::Renamed,
        FileStatus::Untracked => FileStatusDto::Untracked,
    }
}

pub fn file_status_to_dto(s: FileStatus) -> (r: FileStatusDto)
    ensures
        r == status_dto(s),
{
    match s {
        FileStatus::Modified => FileStatusDto::Modified,
        FileStatus::Added => FileStatusDto::Added,
        FileStatus::Deleted => FileStatusDto::Deleted,
        FileStatus::Renamed => FileStatusDto::Renamed,
        FileStatus::Untracked => FileStatusDto::Untracked,
    }
}

pub fn file_status_from_dto(s: FileStatusDto) -> (r: FileStatus)
    ensures
        status_dto(r) == s,
{
    match s {
        FileStatusDto::Modified => FileStatus::Modified,
        FileStatusDto::Added => FileStatus::Added,
        FileStatusDto::Deleted => FileStatus::Deleted,
        FileStatusDto::Renamed => FileStatus::Renamed,
        FileStatusDto::Untracked => FileStatus::Untracked,
    }
}

pub open spec fn entry_dto(e: FileEntry) -> FileEntryDto {
    FileEntryDto {
        path: e.path,
        status: status_dto(e.status),
        additions: e.additions,
        deletions: e.deletions,
    }
}

pub fn file_entry_to_dto(e: FileEntry) -> (r: FileEntryDto)
    ensures
        r == entry_dto(e),
{
    FileEntryDto {
        path: e.path,
        status: file_status_to_dto(e.status),
        additions: e.additions,
        deletions: e.deletions,
    }
}

pub fn file_entry_from_dto(d: FileEntryDto) -> (r: FileEntry)
    ensures
        entry_dto(r) == d,
{
    FileEntry {
        path: d.path,
        status: file_status_from_dto(d.status),
        additions: d.additions,
        deletions: d.deletions,
    }
}

pub open spec fn same_entries(a: Seq<FileEntry>, b: Seq<FileEntryDto>) -> bool {
    pairwise(a, b, |x: FileEntry, y: FileEntryDto| entry_dto(x) == y)
}

pub fn file_entries_to_dto(v: Vec<FileEntry>) -> (r: Vec<FileEntryDto>)
    ensures
        same_entries(v@, r@),
{
    map_vec(v, file_entry_to_dto)
}

pub fn file_entries_from_dto(v: Vec<FileEntryDto>) -> (r: Vec<FileEntry>)
    ensures
        same_entries(r@, v@),
{
    map_vec(v, file_entry_from_dto)
}

pub open spec fn same_snapshot(s: StatusSnapshot, d: StatusSnapshotDto) -> bool {
    &&& same_entries(s.staged@, d.staged@)
    &&& same_entries(s.unstaged@, d.unstaged@)
    &&& s.branch_name == d.branch_name
    &&& s.ahead_behind == d.ahead_behind
}

pub fn snapshot_to_dto(s: StatusSnapshot) -> (r: StatusSnapshotDto)
    ensures
        same_snapshot(s, r),
{
    StatusSnapshotDto {
        staged: file_entries_to_dto(s.staged),
        unstaged: file_entries_to_dto(s.unstaged),
        branch_name: s.branch_name,
        ahead_behind: s.ahead_behind,
    }
}

pub fn snapshot_from_dto(d: StatusSnapshotDto) -> (r: StatusSnapshot)
    ensures
        same_snapshot(r, d),
{
    StatusSnapshot {
        staged: file_entries_from_dto(d.staged),
        unstaged: file_entries_from_dto(d.unstaged),
        branch_name: d.branch_name,
        ahead_behind: d.ahead_behind,
    }
}

pub open spec fn dir_dto(e: DirEntry) -> DirEntryDto {
    DirEntryDto { name: e.name, is_dir: e.is_dir }
}

pub fn dir_entry_to_dto(e: DirEntry) -> (r: DirEntryDto)
    ensures
        r == dir_dto(e),
{
    DirEntryDto { name: e.name, is_dir: e.is_dir }
}

pub fn dir_entry_from_dto(d: DirEntryDto) -> (r: DirEntry)
    ensures
        dir_dto(r) == d,
{
    DirEntry { name: d.name, is_dir: d.is_dir }
}

// ── Diffs ────────────────────────────────────────────────────────────────

pub open spec fn tag_dto(t: LineTag) -> LineTagDto {
    match t {
        LineTag::Context => LineTagDto::Context,
        LineTag::Added => LineTagDto::Added,
        LineTag::Removed => LineTagDto::Removed,
    }
}

pub fn line_tag_to_dto(t: LineTag) -> (r: LineTagDto)
    ensures
        r == tag_dto(t),
{
    match t {
        LineTag::Context => LineTagDto::Context,
        LineTag::Added => LineTagDto::Added,
        LineTag::Removed => LineTagDto::Removed,
    }
}

pub fn line_tag_from_dto(t: LineTagDto) -> (r: LineTag)
    ensures
        tag_dto(r) == t,
{
    match t {
        LineTagDto::Context => LineTag::Context,
        LineTagDto::Added => LineTag::Added,
        LineTagDto::Removed => LineTag::Removed,
    }
}

pub open spec fn line_dto(l: DiffLine) -> DiffLineDto {
    DiffLineDto {
        tag: tag_dto(l.tag),
        content: l.content,
        old_lineno: l.old_lineno,
        new_lineno: l.new_lineno,
    }
}

pub fn diff_line_to_dto(l: DiffLine) -> (r: DiffLineDto)
    ensures
        r == line_dto(l),
{
    DiffLineDto {
        tag: line_tag_to_dto(l.tag),
        content: l.content,
        old_lineno: l.old_lineno,
        new_lineno: l.new_lineno,
    }
}

pub fn diff_line_from_dto(l: DiffLineDto) -> (r: DiffLine)
    ensures
        line_dto(r) == l,
{
    DiffLine {
        tag: line_tag_from_dto(l.tag),
        content: l.content,
        old_lineno: l.old_lineno,
        new_lineno: l.new_lineno,
    }
}

pub open spec fn same_hunk(h: DiffHunk, d: DiffHunkDto) -> bool {
    &&& h.header == d.header
    &&& pairwise(h.lines@, d.lines@, |x: DiffLine, y: DiffLineDto| line_dto(x) == y)
}

pub fn diff_hunk_to_dto(h: DiffHunk) -> (r: DiffHunkDto)
    ensures
        same_hunk(h, r),
{
    DiffHunkDto { header: h.header, lines: map_vec(h.lines, diff_line_to_dto) }
}

pub fn diff_hunk_from_dto(d: DiffHunkDto) -> (r: DiffHunk)
    ensures
        same_hunk(r, d),
{
    DiffHunk { header: d.header, lines: map_vec(d.lines, diff_line_from_dto) }
}

pub open spec fn same_diff(c: DiffContent, d: DiffContentDto) -> bool {
    &&& c.file_path == d.file_path
    &&& pairwise(c.hunks@, d.hunks@, |x: DiffHunk, y: DiffHunkDto| same_hunk(x, y))
}

pub fn diff_to_dto(c: DiffContent) -> (r: DiffContentDto)
    ensures
        same_diff(c, r),
{
    DiffContentDto { file_path: c.file_path, hunks: map_vec(c.hunks, diff_hunk_to_dto) }
}

pub fn diff_from_dto(d: DiffContentDto) -> (r: DiffContent)
    ensures
        same_diff(r, d),
{
    DiffContent { file_path: d.file_path, hunks: map_vec(d.hunks, diff_hunk_from_dto) }
}

pub open spec fn same_opt_diff(c: Option<DiffContent>, d: Option<DiffContentDto>) -> bool {
    match (c, d) {
        (Some(x), Some(y)) => same_diff(x, y),
        (None, None) => true,
        _ => false,
    }
}

pub fn opt_diff_to_dto(c: Option<DiffContent>) -> (r: Option<DiffContentDto>)
    ensures
        same_opt_diff(c, r),
{
    match c {
        Some(x) => Some(diff_to_dto(x)),
        None => None,
    }
}

pub fn opt_diff_from_dto(d: Option<DiffContentDto>) -> (r: Option<DiffContent>)
    ensures
        same_opt_diff(r, d),
{
    match d {
        Some(x) => Some(diff_from_dto(x)),
        None => None,
    }
}

// ── Commits and references ───────────────────────────────────────────────

pub open spec fn info_dto(c: CommitInfo) -> CommitInfoDto {
    CommitInfoDto {
        oid: c.oid,
        short_oid: c.short_oid,
        parents: c.parents,
        author_name: c.author_name,
        author_email: c.author_email,
        time: c.time,
        subject: c.subject,
    }
}

pub fn commit_info_to_dto(c: CommitInfo) -> (r: CommitInfoDto)
    ensures
        r == info_dto(c),
{
    CommitInfoDto {
        oid: c.oid,
        short_oid: c.short_oid,
        parents: c.parents,
        author_name: c.author_name,
        author_email: c.author_email,
        time: c.time,
        subject: c.subject,
    }
}

pub fn commit_info_from_dto(c: CommitInfoDto) -> (r: CommitInfo)
    ensures
        info_dto(r) == c,
{
    CommitInfo {
        oid: c.oid,
        short_oid: c.short_oid,
        parents: c.parents,
        author_name: c.author_name,
        author_email: c.author_email,
        time: c.time,
        subject: c.subject,
    }
}

pub open spec fn same_commit(c: CommitDetail, d: CommitDetailDto) -> bool {
    &&& info_dto(c.info) == d.info
    &&& c.message == d.message
    &&& c.committer_name == d.committer_name
    &&& c.committer_time == d.committer_time
    &&& same_entries(c.files@, d.files@)
}

pub fn commit_detail_to_dto(c: CommitDetail) -> (r: CommitDetailDto)
    ensures
        same_commit(c, r),
{
    CommitDetailDto {
        info: commit_info_to_dto(c.info),
        message: c.message,
        committer_name: c.committer_name,
        committer_time: c.committer_time,
        files: file_entries_to_dto(c.files),
    }
}

pub fn commit_detail_from_dto(d: CommitDetailDto) -> (r: CommitDetail)
    ensures
        same_commit(r, d),
{
    CommitDetail {
        info: commit_info_from_dto(d.info),
        message: d.message,
        committer_name: d.committer_name,
        committer_time: d.committer_time,
        files: file_entries_from_dto(d.files),
    }
}

pub open spec fn label_dto(l: RefLabel) -> RefLabelDto {
    match l {
        RefLabel::Head => RefLabelDto::Head,
        RefLabel::Branch(s) => RefLabelDto::Branch(s),
        RefLabel::RemoteBranch(s) => RefLabelDto::RemoteBranch(s),
        RefLabel::Tag(s) => RefLabelDto::Tag(s),
    }
}

pub fn ref_label_to_dto(l: RefLabel) -> (r: RefLabelDto)
    ensures
        r == label_dto(l),
{
    match l {
        RefLabel::Head => RefLabelDto::Head,
        RefLabel::Branch(s) => RefLabelDto::Branch(s),
        RefLabel::RemoteBranch(s) => RefLabelDto::RemoteBranch(s),
        RefLabel::Tag(s) => RefLabelDto::Tag(s),
    }
}

pub fn ref_label_from_dto(l: RefLabelDto) -> (r: RefLabel)
    ensures
        label_dto(r) == l,
{
    match l {
        RefLabelDto::Head => RefLabel::Head,
        RefLabelDto::Branch(s) => RefLabel::Branch(s),
        RefLabelDto::RemoteBranch(s) => RefLabel::RemoteBranch(s),
        RefLabelDto::Tag(s) => RefLabel::Tag(s),
    }
}

pub open spec fn same_row(a: RefRow, b: (String, Vec<RefLabelDto>)) -> bool {
    &&& a.oid == b.0
    &&& pairwise(a.labels@, b.1@, |x: RefLabel, y: RefLabelDto| label_dto(x) == y)
}

pub fn ref_row_to_dto(a: RefRow) -> (r: (String, Vec<RefLabelDto>))
    ensures
        same_row(a, r),
{
    (a.oid, map_vec(a.labels, ref_label_to_dto))
}

pub fn ref_row_from_dto(b: (String, Vec<RefLabelDto>)) -> (r: RefRow)
    ensures
        same_row(r, b),
{
    let (oid, labels) = b;
    RefRow { oid, labels: map_vec(labels, ref_label_from_dto) }
}

// ── Stashes ──────────────────────────────────────────────────────────────

pub open spec fn stash_dto(e: StashEntry) -> StashEntryDto {
    StashEntryDto {
        index: e.index,
        stash_ref: e.stash_ref,
        message: e.message,
        created: e.created,
        branch: e.branch,
        files_changed: e.files_changed,
        insertions: e.insertions,
        deletions: e.deletions,
        includes_untracked: e.includes_untracked,
    }
}

pub fn stash_entry_to_dto(e: StashEntry) -> (r: StashEntryDto)
    ensures
        r == stash_dto(e),
{
    StashEntryDto {
        index: e.index,
        stash_ref: e.stash_ref,
        message: e.message,
        created: e.created,
        branch: e.branch,
        files_changed: e.files_changed,
        insertions: e.insertions,
        deletions: e.deletions,
        includes_untracked: e.includes_untracked,
    }
}

pub fn stash_entry_from_dto(d: StashEntryDto) -> (r: StashEntry)
    ensures
        stash_dto(r) == d,
{
    StashEntry {
        index: d.index,
        stash_ref: d.stash_ref,
        message: d.message,
        created: d.created,
        branch: d.branch,
        files_changed: d.files_changed,
        insertions: d.insertions,
        deletions: d.deletions,
        includes_untracked: d.includes_untracked,
    }
}

/// Largest stash patch that is sent, in bytes: half a frame.
pub const MAX_STASH_PATCH_BYTES: usize = 8388608;

/// The last position up to `max` where a character of the text starts or the
/// text ends.
pub open spec fn cut_point(bytes: Seq<u8>, max: int) -> int
    decreases max,
{
    if max <= 0 {
        0
    } else if is_char_boundary(bytes, max) {
        max
    } else {
        cut_point(bytes, max - 1)
    }
}

/// `value` cut to at most `max_bytes` bytes without splitting a character,
/// and whether anything was cut off.
pub fn truncate_string_bytes(value: String, max_bytes: usize) -> (r: (String, bool))
    ensures
        ({
            let bytes = encode_utf8(value@);
            if bytes.len() <= max_bytes {
                r.0 == value && !r.1
            } else {
                &&& r.1
                &&& encode_utf8(r.0@) == bytes.take(cut_point(bytes, max_bytes as int))
                &&& cut_point(bytes, max_bytes as int) <= max_bytes
            }
        }),
{
    let n: usize = value.as_str().as_bytes().len();
    if n <= max_bytes {
        return (value, false);
    }
    let s = value.as_str();
    let mut cut: usize = max_bytes;
    let ghost bytes = encode_utf8(value@);
    proof {
        encode_utf8_valid_utf8(value@);
        is_char_boundary_start_end_of_seq(bytes);
    }
    while !s.is_char_boundary(cut)
        invariant
            s@ == value@,
            bytes == encode_utf8(value@),
            is_char_boundary(bytes, 0),
            cut <= max_bytes < bytes.len(),
            cut_point(bytes, cut as int) == cut_point(bytes, max_bytes as int),
        decreases cut,
    {
        if cut == 0 {
            assert(false);
        }
        cut = cut - 1;
    }
    let kept = s.split_at(cut).0;
    proof {
        assert(cut_point(bytes, cut as int) == cut);
        assert(kept.spec_bytes() =~= bytes.take(cut as int));
    }
    (kept.to_owned(), true)
}

/// What a truncated patch is shown with at its end.
pub open spec fn shown_patch(patch: Seq<char>, truncated: bool) -> Seq<char> {
    if truncated {
        patch + "\n... stash patch truncated ..."@
    } else {
        patch
    }
}

pub fn stash_detail_to_dto(s: StashDetail) -> (r: StashDetailDto)
    ensures
        r.entry == stash_dto(s.entry),
        same_entries(s.files@, r.files@),
        ({
            let bytes = encode_utf8(s.patch@);
            if bytes.len() <= MAX_STASH_PATCH_BYTES {
                r.patch == s.patch && !r.patch_truncated
            } else {
                r.patch_truncated && encode_utf8(r.patch@) == bytes.take(
                    cut_point(bytes, MAX_STASH_PATCH_BYTES as int),
                )
            }
        }),
{
    let (patch, patch_truncated) = truncate_string_bytes(s.patch, MAX_STASH_PATCH_BYTES);
    StashDetailDto {
        entry: stash_entry_to_dto(s.entry),
        files: file_entries_to_dto(s.files),
        patch,
        patch_truncated,
    }
}

pub fn stash_detail_from_dto(d: StashDetailDto) -> (r: StashDetail)
    ensures
        stash_dto(r.entry) == d.entry,
        same_entries(r.files@, d.files@),
        r.patch@ == shown_patch(d.patch@, d.patch_truncated),
{
    let mut patch = d.patch;
    if d.patch_truncated {
        patch.append("\n... stash patch truncated ...");
    }
    StashDetail {
        entry: stash_entry_from_dto(d.entry),
        files: file_entries_from_dto(d.files),
        patch,
    }
}

// ── Containers ───────────────────────────────────────────────────────────

pub open spec fn state_dto(s: ContainerState) -> ContainerStateDto {
    match s {
        ContainerState::Running => ContainerStateDto::Running,
        ContainerState::Exited => ContainerStateDto::Exited,
        ContainerState::Paused => ContainerStateDto::Paused,
        ContainerState::Restarting => ContainerStateDto::Restarting,
        ContainerState::Created => ContainerStateDto::Created,
        ContainerState::Dead => ContainerStateDto::Dead,
        ContainerState::Other => ContainerStateDto::Other,
    }
}

pub fn container_state_to_dto(s: ContainerState) -> (r: ContainerStateDto)
    ensures
        r == state_dto(s),
{
    match s {
        ContainerState::Running => ContainerStateDto::Running,
        ContainerState::Exited => ContainerStateDto::Exited,
        ContainerState::Paused => ContainerStateDto::Paused,
        ContainerState::Restarting => ContainerStateDto::Restarting,
        ContainerState::Created => ContainerStateDto::Created,
        ContainerState::Dead => ContainerStateDto::Dead,
        ContainerState::Other => ContainerStateDto::Other,
    }
}

pub fn container_state_from_dto(s: ContainerStateDto) -> (r: ContainerState)
    ensures
        state_dto(r) == s,
{
    match s {
        ContainerStateDto::Running => ContainerState::Running,
        ContainerStateDto::Exited => ContainerState::Exited,
        ContainerStateDto::Paused => ContainerState::Paused,
        ContainerStateDto::Restarting => ContainerState::Restarting,
        ContainerStateDto::Created => ContainerState::Created,
        ContainerStateDto::Dead => ContainerState::Dead,
        ContainerStateDto::Other => ContainerState::Other,
    }
}

pub open spec fn container_dto(c: ContainerInfo) -> ContainerInfoDto {
    ContainerInfoDto {
        id: c.id,
        image: c.image,
        command: c.command,
        created: c.created,
        status: c.status,
        names: c.names,
        ports: c.ports,
        state: state_dto(c.state),
    }
}

pub fn container_info_to_dto(c: ContainerInfo) -> (r: ContainerInfoDto)
    ensures
        r == container_dto(c),
{
    ContainerInfoDto {
        id: c.id,
        image: c.image,
        command: c.command,
        created: c.created,
        status: c.status,
        names: c.names,
        ports: c.ports,
        state: container_state_to_dto(c.state),
    }
}

pub fn container_info_from_dto(c: ContainerInfoDto) -> (r: ContainerInfo)
    ensures
        container_dto(r) == c,
{
    ContainerInfo {
        id: c.id,
        image: c.image,
        command: c.command,
        created: c.created,
        status: c.status,
        names: c.names,
        ports: c.ports,
        state: container_state_from_dto(c.state),
    }
}

// ── Search hits ──────────────────────────────────────────────────────────

/// The low 32 bits of a position.
pub open spec fn low32(n: usize) -> u32 {
    (n as int % 4294967296) as u32
}

fn to_low32(n: usize) -> (r: u32)
    ensures
        r == low32(n),
{
    (n as u64 % 4294967296) as u32
}

pub open spec fn hit_dto(h: ContentMatchHit) -> MatchHitDto {
    MatchHitDto {
        path: h.path,
        display: h.display,
        line: h.line,
        line_text: h.line_text,
        byte_range_start: low32(h.byte_start),
        byte_range_end: low32(h.byte_end),
    }
}

pub fn match_hit_to_dto(h: ContentMatchHit) -> (r: MatchHitDto)
    ensures
        r == hit_dto(h),
{
    MatchHitDto {
        path: h.path,
        display: h.display,
        line: h.line,
        line_text: h.line_text,
        byte_range_start: to_low32(h.byte_start),
        byte_range_end: to_low32(h.byte_end),
    }
}

pub open spec fn hit_domain(h: MatchHitDto) -> ContentMatchHit {
    ContentMatchHit {
        path: h.path,
        display: h.display,
        line: h.line,
        line_text: h.line_text,
        byte_start: h.byte_range_start as usize,
        byte_end: h.byte_range_end as usize,
    }
}

pub fn match_hit_dto_to_domain(h: MatchHitDto) -> (r: ContentMatchHit)
    ensures
        r == hit_domain(h),
{
    ContentMatchHit {
        path: h.path,
        display: h.display,
        line: h.line,
        line_text: h.line_text,
        byte_start: h.byte_range_start as usize,
        byte_end: h.byte_range_end as usize,
    }
}

// ── Databases ────────────────────────────────────────────────────────────

pub open spec fn column_dto(c: ColumnInfo) -> ColumnInfoDto {
    ColumnInfoDto { name: c.name, decl_type: c.decl_type }
}

pub fn column_info_to_dto(c: ColumnInfo) -> (r: ColumnInfoDto)
    ensures
        r == column_dto(c),
{
    ColumnInfoDto { name: c.name, decl_type: c.decl_type }
}

pub fn column_info_from_dto(c: ColumnInfoDto) -> (r: ColumnInfo)
    ensures
        column_dto(r) == c,
{
    ColumnInfo { name: c.name, decl_type: c.decl_type }
}

pub open spec fn same_table(t: TableSummary, d: TableSummaryDto) -> bool {
    &&& t.name == d.name
    &&& t.row_count == d.row_count
    &&& pairwise(t.columns@, d.columns@, |x: ColumnInfo, y: ColumnInfoDto| column_dto(x) == y)
}

pub fn table_summary_to_dto(t: TableSummary) -> (r: TableSummaryDto)
    ensures
        same_table(t, r),
{
    TableSummaryDto {
        name: t.name,
        columns: map_vec(t.columns, column_info_to_dto),
        row_count: t.row_count,
    }
}

pub fn table_summary_from_dto(d: TableSummaryDto) -> (r: TableSummary)
    ensures
        same_table(r, d),
{
    TableSummary {
        name: d.name,
        columns: map_vec(d.columns, column_info_from_dto),
        row_count: d.row_count,
    }
}

pub open spec fn value_dto(v: SqliteValue) -> SqliteValueDto {
    match v {
        SqliteValue::Null => SqliteValueDto::Null,
        SqliteValue::Integer(value) => SqliteValueDto::Integer { value },
        SqliteValue::Real(bits) => SqliteValueDto::Real { bits },
        SqliteValue::Text { value, truncated } => SqliteValueDto::Text { value, truncated },
        SqliteValue::Blob { len } => SqliteValueDto::Blob { len },
    }
}

pub fn sqlite_value_to_dto(v: SqliteValue) -> (r: SqliteValueDto)
    ensures
        r == value_dto(v),
{
    match v {
        SqliteValue::Null => SqliteValueDto::Null,
        SqliteValue::Integer(value) => SqliteValueDto::Integer { value },
        SqliteValue::Real(bits) => SqliteValueDto::Real { bits },
        SqliteValue::Text { value, truncated } => SqliteValueDto::Text { value, truncated },
        SqliteValue::Blob { len } => SqliteValueDto::Blob { len },
    }
}

pub fn sqlite_value_from_dto(v: SqliteValueDto) -> (r: SqliteValue)
    ensures
        value_dto(r) == v,
{
    match v {
        SqliteValueDto::Null => SqliteValue::Null,
        SqliteValueDto::Integer { value } => SqliteValue::Integer(value),
        SqliteValueDto::Real { bits } => SqliteValue::Real(bits),
        SqliteValueDto::Text { value, truncated } => SqliteValue::Text { value, truncated },
        SqliteValueDto::Blob { len } => SqliteValue::Blob { len },
    }
}

pub open spec fn same_cells(a: Vec<SqliteValue>, b: Vec<SqliteValueDto>) -> bool {
    pairwise(a@, b@, |x: SqliteValue, y: SqliteValueDto| value_dto(x) == y)
}

pub fn cells_to_dto(v: Vec<SqliteValue>) -> (r: Vec<SqliteValueDto>)
    ensures
        same_cells(v, r),
{
    map_vec(v, sqlite_value_to_dto)
}

pub fn cells_from_dto(v: Vec<SqliteValueDto>) -> (r: Vec<SqliteValue>)
    ensures
        same_cells(r, v),
{
    map_vec(v, sqlite_value_from_dto)
}

pub open spec fn same_page(p: DbPage, d: DbPageDto) -> bool {
    pairwise(
        p.rows@,
        d.rows@,
        |x: Vec<SqliteValue>, y: Vec<SqliteValueDto>| same_cells(x, y),
    )
}

pub fn db_page_to_dto(p: DbPage) -> (r: DbPageDto)
    ensures
        same_page(p, r),
{
    DbPageDto { rows: map_vec(p.rows, cells_to_dto) }
}

pub fn db_page_from_dto(d: DbPageDto) -> (r: DbPage)
    ensures
        same_page(r, d),
{
    DbPage { rows: map_vec(d.rows, cells_from_dto) }
}

pub fn database_info_to_dto(d: DatabaseInfo) -> (r: DatabaseInfoDto)
    ensures
        pairwise(
            d.tables@,
            r.tables@,
            |x: TableSummary, y: TableSummaryDto| same_table(x, y),
        ),
        r.selected_table == low32(d.selected_table),
        same_page(d.initial_page, r.initial_page),
        r.bytes_on_disk == d.bytes_on_disk,
{
    DatabaseInfoDto {
        tables: map_vec(d.tables, table_summary_to_dto),
        selected_table: to_low32(d.selected_table),
        initial_page: db_page_to_dto(d.initial_page),
        bytes_on_disk: d.bytes_on_disk,
    }
}

pub fn database_info_from_dto(d: DatabaseInfoDto) -> (r: DatabaseInfo)
    ensures
        pairwise(
            r.tables@,
            d.tables@,
            |x: TableSummary, y: TableSummaryDto| same_table(x, y),
        ),
        r.selected_table == d.selected_table,
        same_page(r.initial_page, d.initial_page),
        r.bytes_on_disk == d.bytes_on_disk,
{
    DatabaseInfo {
        tables: map_vec(d.tables, table_summary_from_dto),
        selected_table: d.selected_table as usize,
        initial_page: db_page_from_dto(d.initial_page),
        bytes_on_disk: d.bytes_on_disk,
    }
}

// ── Laws ─────────────────────────────────────────────────────────────────

/// A file entry is told apart on the wire: no two share a message.
pub proof fn law_file_entries_survive(a: FileEntry, b: FileEntry)
    requires
        entry_dto(a) == entry_dto(b),
    ensures
        a == b,
{
}

/// A list of files comes back from the wire as it went out.
pub proof fn law_file_lists_survive(
    sent: Seq<FileEntry>,
    wire: Seq<FileEntryDto>,
    received: Seq<FileEntry>,
)
    requires
        same_entries(sent, wire),
        same_entries(received, wire),
    ensures
        received == sent,
{
    assert forall|i: int| 0 <= i < sent.len() implies received[i] == sent[i] by {
        assert(entry_dto(sent[i]) == wire[i]);
        assert(entry_dto(received[i]) == wire[i]);
    }
    assert(received =~= sent);
}

/// A status snapshot comes back from the wire with the same files, branch and
/// distance to its upstream.
pub proof fn law_snapshots_survive(
    sent: StatusSnapshot,
    wire: StatusSnapshotDto,
    received: StatusSnapshot,
)
    requires
        same_snapshot(sent, wire),
        same_snapshot(received, wire),
    ensures
        received.staged@ == sent.staged@,
        received.unstaged@ == sent.unstaged@,
        received.branch_name == sent.branch_name,
        received.ahead_behind == sent.ahead_behind,
{
    law_file_lists_survive(sent.staged@, wire.staged@, received.staged@);
    law_file_lists_survive(sent.unstaged@, wire.unstaged@, received.unstaged@);
}

/// A diff comes back from the wire line for line.
pub proof fn law_diffs_survive(sent: DiffContent, wire: DiffContentDto, received: DiffContent)
    requires
        same_diff(sent, wire),
        same_diff(received, wire),
    ensures
        received.file_path == sent.file_path,
        received.hunks@.len() == sent.hunks@.len(),
        forall|i: int|
            0 <= i < sent.hunks@.len() ==> (#[trigger] received.hunks@[i]).header
                == sent.hunks@[i].header && received.hunks@[i].lines@ == sent.hunks@[i].lines@,
{
    assert forall|i: int| 0 <= i < sent.hunks@.len() implies (#[trigger] received.hunks@[i]).header
        == sent.hunks@[i].header && received.hunks@[i].lines@ == sent.hunks@[i].lines@ by {
        let (a, w, b) = (sent.hunks@[i], wire.hunks@[i], received.hunks@[i]);
        assert(same_hunk(a, w));
        assert(same_hunk(b, w));
        assert forall|j: int| 0 <= j < a.lines@.len() implies b.lines@[j] == a.lines@[j] by {
            assert(line_dto(a.lines@[j]) == w.lines@[j]);
            assert(line_dto(b.lines@[j]) == w.lines@[j]);
        }
        assert(b.lines@ =~= a.lines@);
    }
}

/// Commits, stashes, references and containers are told apart on the wire.
pub proof fn law_records_survive(
    c1: CommitInfo,
    c2: CommitInfo,
    s1: StashEntry,
    s2: StashEntry,
    l1: RefLabel,
    l2: RefLabel,
    k1: ContainerInfo,
    k2: ContainerInfo,
)
    ensures
        info_dto(c1) == info_dto(c2) ==> c1 == c2,
        stash_dto(s1) == stash_dto(s2) ==> s1 == s2,
        label_dto(l1) == label_dto(l2) ==> l1 == l2,
        container_dto(k1) == container_dto(k2) ==> k1 == k2,
{
}

/// A search hit comes back from the wire as it was found, as long as its
/// match lies in the first four gigabytes of its line.
pub proof fn law_hits_survive(h: ContentMatchHit)
    requires
        h.byte_start <= u32::MAX,
        h.byte_end <= u32::MAX,
    ensures
        hit_domain(hit_dto(h)) == h,
{
}

/// What is kept of a text cut to `max` bytes is a prefix of it of at most
/// `max` bytes, and no longer prefix of whole characters would fit.
pub proof fn law_truncation_is_longest_prefix(value: Seq<char>, max: int, other: int)
    requires
        0 <= max < encode_utf8(value).len(),
        0 <= other <= max,
        is_char_boundary(encode_utf8(value), other),
    ensures
        other <= cut_point(encode_utf8(value), max) <= max,
        is_char_boundary(encode_utf8(value), cut_point(encode_utf8(value), max)),
    decreases max,
{
    let bytes = encode_utf8(value);
    if max == 0 {
        encode_utf8_valid_utf8(value);
        is_char_boundary_start_end_of_seq(bytes);
    } else if !is_char_boundary(bytes, max) {
        law_truncation_is_longest_prefix(value, max - 1, other);
    }
}

} // verus!
