//! The values that pass between the program and the place where its files
//! and repositories are, local or remote.
use crate::git::FileEntry;
use crate::proto::ErrorCode;
use vstd::prelude::*;

verus! {

#[derive(Debug)]
pub struct StatusSnapshot {
    pub staged: Vec<FileEntry>,
    pub unstaged: Vec<FileEntry>,
    pub branch_name: String,
    pub ahead_behind: Option<(usize, usize)>,
}

#[derive(Debug)]
pub struct WorkspaceRepoMeta {
    pub repo_root_rel: String,
    pub display_name: String,
}

impl Clone for WorkspaceRepoMeta {
    fn clone(&self) -> (r: Self)
        ensures
            r == *self,
    {
        WorkspaceRepoMeta {
            repo_root_rel: self.repo_root_rel.clone(),
            display_name: self.display_name.clone(),
        }
    }
}

#[derive(Debug, Clone, Copy)]
pub struct RepoDiscoverOpts {
    pub max_depth: u64,
    pub include_nested: bool,
    pub max_repos: Option<u64>,
}

#[derive(Debug)]
pub struct RepoDiscoverResponse {
    pub repos: Vec<WorkspaceRepoMeta>,
    pub truncated: bool,
}

#[derive(Debug, Clone, Copy)]
pub struct WalkOpts {
    pub include_hidden: bool,
    pub respect_gitignore: bool,
    pub max_files: Option<u64>,
}

#[derive(Debug)]
pub struct WalkResponse {
    pub paths: Vec<String>,
    pub truncated: bool,
}

#[derive(Debug)]
pub struct ContentSearchRequest {
    pub pattern: String,
    pub fixed_strings: bool,
    pub case_sensitive: Option<bool>,
    pub max_results: u32,
    pub max_line_chars: u32,
}

#[derive(Debug)]
pub struct ContentMatchHit {
    pub path: String,
    pub display: String,
    pub line: u64,
    pub line_text: String,
    pub byte_start: usize,
    pub byte_end: usize,
}

#[derive(Debug, Clone, Copy, PartialEq, Eq, Structural)]
pub enum ContainerAction {
    Start,
    Stop,
    Restart,
}

#[derive(Debug, Clone, Copy, PartialEq, Eq, Structural)]
pub enum ContainerState {
    Running,
    Exited,
    Paused,
    Restarting,
    Created,
    Dead,
    Other,
}

#[derive(Debug)]
pub struct ContainerInfo {
    pub id: String,
    pub image: String,
    pub command: String,
    pub created: String,
    pub status: String,
    pub names: String,
    pub ports: String,
    pub state: ContainerState,
}

#[derive(Debug)]
pub struct DirEntry {
    pub name: String,
    pub is_dir: bool,
}

#[derive(Debug)]
pub struct DatabaseInfo {
    pub tables: Vec<TableSummary>,
    pub selected_table: usize,
    pub initial_page: DbPage,
    pub bytes_on_disk: u64,
}

#[derive(Debug)]
pub struct TableSummary {
    pub name: String,
    pub columns: Vec<ColumnInfo>,
    pub row_count: u64,
}

#[derive(Debug)]
pub struct ColumnInfo {
    pub name: String,
    pub decl_type: String,
}

#[derive(Debug)]
pub struct DbPage {
    pub rows: Vec<Vec<SqliteValue>>,
}

/// One cell of a table. A real number is held as the bits of its double.
#[derive(Debug)]
pub enum SqliteValue {
    Null,
    Integer(i64),
    Real(u64),
    Text { value: String, truncated: bool },
    Blob { len: u64 },
}

/// Why a backend operation failed.
#[derive(Debug)]
pub enum BackendError {
    NotFound,
    Rpc(String),
    Protocol(String),
    PathEscape(String),
    Unimplemented(String),
    Io(String),
    /// An error that the agent reported.
    Wire(ErrorCode, String),
}

} // verus!
