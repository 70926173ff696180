//! The file tree and the previews of a working directory on another machine,
//! which are put together from several requests.
use crate::backend::{BackendError, TableSummary};
use crate::convert::{database_info_from_dto, pairwise, same_page, same_table};
use crate::file_tree::{build_entries, nesting, rows_view, tree_rows, DirNode, TreeEntry};
use crate::paths::{child_path, clean, cleaned, join};
use crate::preview::{
    is_remote_preview, remote_preview, PreviewBody, PreviewContent, INITIAL_DB_PAGE_ROWS,
};
use crate::proto::{
    DatabaseInfoDto, DirEntryDto, ReadFileResponse, Request, TableSummaryDto,
};
use crate::remote::READ_FILE_MAX_BYTES;
use crate::strmap::{StrMap, StrSet};
use crate::text::{same_str, views};
use vstd::prelude::*;
use vstd::string::*;

verus! {

// ── The tree ─────────────────────────────────────────────────────────────

/// The directories in `entries`, the contents of `dir`, that are open and so
/// are read too.
pub open spec fn open_dirs(
    dir: Seq<char>,
    entries: Seq<DirEntryDto>,
    expanded: Set<Seq<char>>,
) -> Seq<Seq<char>>
    decreases entries.len(),
{
    if entries.len() == 0 {
        Seq::empty()
    } else {
        let e = entries.last();
        let rest = open_dirs(dir, entries.drop_last(), expanded);
        if e.is_dir && e.name@ != ".git"@ && expanded.contains(
            cleaned(child_path(dir, e.name@)),
        ) {
            rest.push(child_path(dir, e.name@))
        } else {
            rest
        }
    }
}

/// What is read next of the tree, once `dir` was.
pub fn dirs_to_read(dir: &str, entries: &Vec<DirEntryDto>, expanded: &StrSet) -> (r: Vec<String>)
    ensures
        views(r@) == open_dirs(dir@, entries@, expanded@),
{
    let mut out: Vec<String> = Vec::new();
    let mut i: usize = 0;
    assert(views(out@) =~= open_dirs(dir@, entries@.take(0), expanded@));
    while i < entries.len()
        invariant
            i <= entries@.len(),
            views(out@) == open_dirs(dir@, entries@.take(i as int), expanded@),
        decreases entries@.len() - i,
    {
        let ghost before = out@;
        if entries[i].is_dir && !same_str(entries[i].name.as_str(), ".git") {
            let path = join(dir, entries[i].name.as_str());
            if expanded.contains(clean(path.as_str()).as_str()) {
                let ghost p = path@;
                out.push(path);
                assert(views(out@) =~= views(before).push(p));
            }
        }
        assert(entries@.take(i + 1).drop_last() =~= entries@.take(i as int));
        i += 1;
    }
    assert(entries@.take(entries@.len() as int) =~= entries@);
    out
}

/// The rows of the tree, once every open directory was read. A directory that
/// could not be read fails the whole of it.
pub fn build_file_tree(
    listing: Result<Vec<DirNode>, String>,
    expanded: &StrSet,
    git_statuses: &StrMap<char>,
) -> (r: Result<Vec<TreeEntry>, String>)
    requires
        git_statuses.wf(),
        listing matches Ok(nodes) ==> nesting(nodes@, nodes@.len() as int) <= usize::MAX,
    ensures
        match listing {
            Ok(nodes) => r matches Ok(rows) && rows_view(rows@) == tree_rows(
                nodes@,
                expanded@,
                git_statuses@,
            ),
            Err(e) => r == Err::<Vec<TreeEntry>, String>(e),
        },
{
    match listing {
        Ok(nodes) => Ok(build_entries(&nodes, expanded, git_statuses)),
        Err(e) => Err(e),
    }
}

// ── Previews ─────────────────────────────────────────────────────────────

/// What came back of the last request for a preview.
#[derive(Debug)]
pub enum PreviewReply {
    Start,
    Database(Result<Option<DatabaseInfoDto>, BackendError>),
    File(Result<ReadFileResponse, BackendError>),
}

#[derive(Debug)]
pub enum PreviewStep {
    Ask(Request),
    Done(Option<PreviewContent>),
}

pub open spec fn asks_file(r: PreviewStep, rel: Seq<char>) -> bool {
    r matches PreviewStep::Ask(Request::ReadFile { path, max_bytes }) && path@ == rel && max_bytes
        == READ_FILE_MAX_BYTES
}

pub open spec fn asks_database(r: PreviewStep, rel: Seq<char>) -> bool {
    r matches PreviewStep::Ask(Request::LoadDbInitial { rel_path, page_size }) && rel_path@ == rel
        && page_size == INITIAL_DB_PAGE_ROWS
}

pub open spec fn is_database(c: PreviewContent, rel: Seq<char>, d: DatabaseInfoDto) -> bool {
    &&& c.file_path@ == rel
    &&& c.body matches PreviewBody::Database(info) && pairwise(
        info.tables@,
        d.tables@,
        |x: TableSummary, y: TableSummaryDto| same_table(x, y),
    ) && info.selected_table == d.selected_table && same_page(info.initial_page, d.initial_page)
        && info.bytes_on_disk == d.bytes_on_disk
}

/// The next step towards the preview of a file. One that is named like a
/// database is opened on the other machine; where that fails, or it is none,
/// its first bytes are read like those of any file.
pub fn load_preview(rel: &str, sqlite_extension: bool, reply: PreviewReply) -> (r: PreviewStep)
    ensures
        match reply {
            PreviewReply::Start => if sqlite_extension {
                asks_database(r, rel@)
            } else {
                asks_file(r, rel@)
            },
            PreviewReply::Database(Ok(Some(d))) => r matches PreviewStep::Done(Some(c))
                && is_database(c, rel@, d),
            PreviewReply::Database(_) => asks_file(r, rel@),
            PreviewReply::File(Ok(resp)) => r matches PreviewStep::Done(c) && is_remote_preview(
                c,
                rel@,
                resp,
            ),
            PreviewReply::File(Err(_)) => r matches PreviewStep::Done(None),
        },
{
    match reply {
        PreviewReply::Start => {
            if sqlite_extension {
                return PreviewStep::Ask(
                    Request::LoadDbInitial {
                        rel_path: rel.to_owned(),
                        page_size: INITIAL_DB_PAGE_ROWS,
                    },
                );
            }
            ask_file(rel)
        },
        PreviewReply::Database(Ok(Some(d))) => PreviewStep::Done(
            Some(
                PreviewContent {
                    file_path: rel.to_owned(),
                    body: PreviewBody::Database(database_info_from_dto(d)),
                },
            ),
        ),
        PreviewReply::Database(_) => ask_file(rel),
        PreviewReply::File(Ok(resp)) => PreviewStep::Done(remote_preview(rel, &resp)),
        PreviewReply::File(Err(_)) => PreviewStep::Done(None),
    }
}

fn ask_file(rel: &str) -> (r: PreviewStep)
    ensures
        asks_file(r, rel@),
{
    PreviewStep::Ask(
        Request::ReadFile { path: rel.to_owned(), max_bytes: READ_FILE_MAX_BYTES },
    )
}

} // verus!
