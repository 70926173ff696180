//! The preview column: when a preview is asked for, what a new one changes,
//! and the pages of a database. Times are milliseconds on one clock.
use crate::backend::{DatabaseInfo, DbPage, SqliteValue, TableSummary};
use crate::effects::{Effect, Effects, ToastLevel};
use crate::file_tree::{FileTree, TreeEntry};
use crate::files_pane::{row_at, FilesPane};
use crate::layout::{Screen, Tab};
use crate::loads::AsyncState;
use crate::paths::{same_path, same_paths};
use crate::preview::{ImagePreview, PreviewBody, PreviewContent, INITIAL_DB_PAGE_ROWS};
use crate::search::{center_scroll, centered};
use crate::text::same_str;
use core::ops::Range;
use vstd::prelude::*;
use vstd::string::*;

verus! {

/// How long a request for a preview waits for a later one.
pub const PREVIEW_DEBOUNCE_MS: u64 = 80;

/// How long the neighbours of a preview wait before they are fetched.
pub const PREFETCH_DELAY_MS: u64 = 300;

/// The moves between the pages and tables of a database.
#[derive(Debug, Clone, Copy, PartialEq, Eq, Structural)]
pub enum DbNav {
    PrevPage,
    NextPage,
    PrevTable,
    NextTable,
    FirstPage,
    LastPage,
}

/// The rows of a database that are shown.
#[derive(Debug)]
pub struct DbPreviewState {
    pub path: String,
    pub selected_table: usize,
    pub page: u64,
    pub current_rows: Vec<Vec<SqliteValue>>,
    pub rows_per_page: u32,
}

/// A place in a file that a search hit points at.
#[derive(Debug)]
pub struct PreviewHighlight {
    pub path: String,
    pub row: usize,
    pub byte_range: Range<usize>,
}

#[derive(Debug)]
pub struct PreviewPane {
    pub preview_content: Option<PreviewContent>,
    /// Whether the terminal can show pictures.
    pub has_picker: bool,
    /// Whether a picture is on screen, or being built.
    pub has_picture: bool,
    pub preview_schedule: Option<(String, u64)>,
    pub prefetch_schedule: Option<u64>,
    pub preview_in_flight_path: Option<String>,
    pub preview_scroll: usize,
    pub preview_h_scroll: usize,
    pub db_preview_state: Option<DbPreviewState>,
    pub db_goto_input: Option<String>,
    pub preview_highlight: Option<PreviewHighlight>,
    pub preview_load: AsyncState,
}

// ── Pages ────────────────────────────────────────────────────────────────

/// The last page of a table; a table without rows has one empty page.
pub open spec fn last_page(rows: int, page_size: int) -> int {
    if page_size == 0 || rows == 0 {
        0
    } else {
        (rows - 1) / page_size
    }
}

pub fn max_page_for(table: &TableSummary, page_size: u32) -> (r: u64)
    ensures
        r == last_page(table.row_count as int, page_size as int),
{
    if page_size == 0 || table.row_count == 0 {
        return 0;
    }
    (table.row_count - 1) / (page_size as u64)
}

pub open spec fn at_most(x: int, max: int) -> int {
    if x <= max {
        x
    } else {
        max
    }
}

/// The table that is shown; a stale choice counts as the last table.
pub open spec fn shown_table(info: DatabaseInfo, s: DbPreviewState) -> int {
    at_most(s.selected_table as int, info.tables@.len() - 1)
}

/// The table and page that a move leads to.
pub open spec fn nav_target(info: DatabaseInfo, s: DbPreviewState, action: DbNav) -> (int, int) {
    let t = shown_table(info, s);
    let last = last_page(info.tables@[t].row_count as int, s.rows_per_page as int);
    match action {
        DbNav::PrevPage => (
            t,
            if s.page == 0 {
                0
            } else {
                s.page - 1
            },
        ),
        DbNav::NextPage => (t, at_most(s.page + 1, last)),
        DbNav::PrevTable => (
            if t == 0 {
                0
            } else {
                t - 1
            },
            0,
        ),
        DbNav::NextTable => (at_most(t + 1, info.tables@.len() - 1), 0),
        DbNav::FirstPage => (t, 0),
        DbNav::LastPage => (t, last),
    }
}

/// A page that was asked for.
#[derive(Debug, Clone, Copy, PartialEq, Eq, Structural)]
pub struct DbMove {
    pub table: usize,
    pub page: u64,
    pub table_changed: bool,
}

pub open spec fn times(a: int, b: int) -> int {
    if a * b > u64::MAX {
        u64::MAX as int
    } else {
        a * b
    }
}

fn find_nav_target(info: &DatabaseInfo, s: &DbPreviewState, action: DbNav) -> (r: (usize, u64))
    requires
        info.tables@.len() > 0,
    ensures
        (r.0 as int, r.1 as int) == nav_target(*info, *s, action),
        0 <= r.0 < info.tables@.len(),
{
    let max_table: usize = info.tables.len() - 1;
    let t: usize = if s.selected_table <= max_table {
        s.selected_table
    } else {
        max_table
    };
    let last: u64 = max_page_for(&info.tables[t], s.rows_per_page);
    match action {
        DbNav::PrevPage => (
            t,
            if s.page == 0 {
                0
            } else {
                s.page - 1
            },
        ),
        DbNav::NextPage => (
            t,
            if s.page < last {
                s.page + 1
            } else {
                last
            },
        ),
        DbNav::PrevTable => (
            if t == 0 {
                0
            } else {
                t - 1
            },
            0,
        ),
        DbNav::NextTable => (
            if t < max_table {
                t + 1
            } else {
                max_table
            },
            0,
        ),
        DbNav::FirstPage => (t, 0),
        DbNav::LastPage => (t, last),
    }
}

impl PreviewPane {
    /// The database that is shown, with its state, if it has a table.
    pub open spec fn database(self) -> Option<(DatabaseInfo, DbPreviewState)> {
        match (self.preview_content, self.db_preview_state) {
            (Some(c), Some(s)) => match c.body {
                PreviewBody::Database(info) => if info.tables@.len() > 0 {
                    Some((info, s))
                } else {
                    None
                },
                _ => None,
            },
            _ => None,
        }
    }

    /// The request for a page, and the move it stands for.
    pub open spec fn page_request(
        info: DatabaseInfo,
        s: DbPreviewState,
        table: int,
        page: int,
    ) -> Effect<Seq<char>> {
        Effect::LoadDbPage {
            path: s.path@,
            table: info.tables@[table].name@,
            offset: times(page, s.rows_per_page as int) as u64,
            limit: s.rows_per_page,
        }
    }

    /// What a move through a database asks for.
    pub open spec fn navigated(
        self,
        action: DbNav,
        fx: Seq<Effect<Seq<char>>>,
        fx2: Seq<Effect<Seq<char>>>,
        r: Option<DbMove>,
    ) -> bool {
        match self.database() {
            Some(d) => {
                let (info, s) = d;
                let (table, page) = nav_target(info, s, action);
                if table == shown_table(info, s) && page == s.page {
                    r is None && fx2 == fx
                } else {
                    &&& r == Some(
                        DbMove {
                            table: table as usize,
                            page: page as u64,
                            table_changed: table != shown_table(info, s),
                        },
                    )
                    &&& fx2 == fx.push(Self::page_request(info, s, table, page))
                }
            },
            None => r is None && fx2 == fx,
        }
    }

    /// Moves to a page or a table. Nothing is asked for where the move leads
    /// nowhere.
    pub fn db_navigate(&self, action: DbNav, fx: &mut Effects) -> (r: Option<DbMove>)
        ensures
            self.navigated(
                action,
                old(fx)@,
                final(fx)@,
                r,
            ),
    {
        if let (Some(c), Some(s)) = (&self.preview_content, &self.db_preview_state) {
            if let PreviewBody::Database(info) = &c.body {
                if info.tables.len() > 0 {
                    let max_table: usize = info.tables.len() - 1;
                    let shown: usize = if s.selected_table <= max_table {
                        s.selected_table
                    } else {
                        max_table
                    };
                    let (table, page) = find_nav_target(info, s, action);
                    if table == shown && page == s.page {
                        return None;
                    }
                    ask_page(info, s, table, page, fx);
                    return Some(DbMove { table, page, table_changed: table != shown });
                }
            }
        }
        None
    }

    /// What a move to a page, counted from one, asks for.
    pub open spec fn page_chosen(
        self,
        page_one_based: u64,
        fx: Seq<Effect<Seq<char>>>,
        fx2: Seq<Effect<Seq<char>>>,
        r: Option<DbMove>,
    ) -> bool {
        match self.database() {
            Some(d) => {
                let (info, s) = d;
                let table = shown_table(info, s);
                let last = last_page(
                    info.tables@[table].row_count as int,
                    s.rows_per_page as int,
                );
                let page = at_most(
                    if page_one_based == 0 {
                        0
                    } else {
                        page_one_based - 1
                    },
                    last,
                );
                if page == s.page {
                    r is None && fx2 == fx
                } else {
                    &&& r == Some(
                        DbMove {
                            table: s.selected_table,
                            page: page as u64,
                            table_changed: false,
                        },
                    )
                    &&& fx2 == fx.push(Self::page_request(info, s, table, page))
                }
            },
            None => r is None && fx2 == fx,
        }
    }

    /// Moves to a page of the table by its number, counted from one.
    pub fn db_navigate_to_page(&self, page_one_based: u64, fx: &mut Effects) -> (r: Option<DbMove>)
        ensures
            self.page_chosen(
                page_one_based,
                old(fx)@,
                final(fx)@,
                r,
            ),
    {
        if let (Some(c), Some(s)) = (&self.preview_content, &self.db_preview_state) {
            if let PreviewBody::Database(info) = &c.body {
                if info.tables.len() > 0 {
                    let max_table: usize = info.tables.len() - 1;
                    let table: usize = if s.selected_table <= max_table {
                        s.selected_table
                    } else {
                        max_table
                    };
                    let last: u64 = max_page_for(&info.tables[table], s.rows_per_page);
                    let wanted: u64 = if page_one_based == 0 {
                        0
                    } else {
                        page_one_based - 1
                    };
                    let page: u64 = if wanted <= last {
                        wanted
                    } else {
                        last
                    };
                    if page == s.page {
                        return None;
                    }
                    ask_page(info, s, table, page, fx);
                    return Some(
                        DbMove { table: s.selected_table, page, table_changed: false },
                    );
                }
            }
        }
        None
    }

    /// Whether the pages of the database at `path` are shown.
    pub open spec fn shows_pages_of(self, path: Seq<char>) -> bool {
        self.db_preview_state matches Some(s) && s.path@ == path
    }

    /// A page of the database at `path` arrived, or did not. Nothing follows
    /// where another file is shown by then.
    pub fn db_page_loaded(
        &mut self,
        path: &str,
        to: DbMove,
        result: Result<DbPage, String>,
        fx: &mut Effects,
    )
        ensures
            if !old(self).shows_pages_of(path@) {
                *final(self) == *old(self) && final(fx)@ == old(fx)@
            } else {
                match result {
                    Ok(page) => {
                        &&& *final(self) == (PreviewPane {
                            db_preview_state: Some(
                                DbPreviewState {
                                    selected_table: to.table,
                                    page: to.page,
                                    current_rows: page.rows,
                                    ..old(self).db_preview_state->0
                                },
                            ),
                            preview_scroll: 0,
                            preview_h_scroll: if to.table_changed {
                                0
                            } else {
                                old(self).preview_h_scroll
                            },
                            ..*old(self)
                        })
                        &&& final(fx)@ == old(fx)@
                    },
                    Err(e) => {
                        &&& *final(self) == *old(self)
                        &&& final(fx)@ == old(fx)@.push(
                            Effect::Toast {
                                level: ToastLevel::Warn,
                                text: "sqlite page load failed: "@ + e@,
                            },
                        )
                    },
                }
            },
    {
        let shown = match &self.db_preview_state {
            Some(s) => same_str(s.path.as_str(), path),
            None => false,
        };
        if !shown {
            return;
        }
        match result {
            Ok(page) => {
                match &mut self.db_preview_state {
                    Some(s) => {
                        s.selected_table = to.table;
                        s.page = to.page;
                        s.current_rows = page.rows;
                    },
                    None => {},
                }
                self.preview_scroll = 0;
                if to.table_changed {
                    self.preview_h_scroll = 0;
                }
            },
            Err(e) => {
                let mut text = "sqlite page load failed: ".to_owned();
                text.append(e.as_str());
                fx.emit(Effect::Toast { level: ToastLevel::Warn, text });
            },
        }
    }

    // ── Asking for a preview ─────────────────────────────────────────────
    pub open spec fn later(now: u64, delay: u64) -> u64 {
        if now + delay > u64::MAX {
            u64::MAX
        } else {
            (now + delay) as u64
        }
    }

    /// The request waits for a moment; a highlight in another file goes.
    pub open spec fn scheduled(self, path: String, now: u64) -> Self {
        PreviewPane {
            preview_highlight: match self.preview_highlight {
                Some(hl) => if same_path(hl.path@, path@) {
                    Some(hl)
                } else {
                    None
                },
                None => None,
            },
            preview_schedule: Some((path, Self::later(now, PREVIEW_DEBOUNCE_MS))),
            prefetch_schedule: None,
            ..self
        }
    }

    pub fn load_preview_for_path(&mut self, path: String, now: u64)
        ensures
            *final(self) == old(self).scheduled(path, now),
    {
        let other = match &self.preview_highlight {
            Some(hl) => !same_paths(hl.path.as_str(), path.as_str()),
            None => false,
        };
        if other {
            self.preview_highlight = None;
        }
        self.preview_schedule = Some((path, now.saturating_add(PREVIEW_DEBOUNCE_MS)));
        self.prefetch_schedule = None;
    }

    /// The file to preview: the selected row, if it is no directory.
    pub open spec fn previewable(tree: FileTree) -> Option<String> {
        match row_at(tree, Some(tree.selected)) {
            Some(e) => if e.is_dir {
                None
            } else {
                Some(e.path)
            },
            None => None,
        }
    }

    fn find_previewable(tree: &FileTree) -> (r: Option<String>)
        ensures
            r == Self::previewable(*tree),
    {
        match tree.selected_entry() {
            Some(e) => if e.is_dir {
                None
            } else {
                Some(e.path.clone())
            },
            None => None,
        }
    }

    pub open spec fn selected_scheduled(self, tree: FileTree, now: u64) -> Self {
        match Self::previewable(tree) {
            Some(p) => self.scheduled(p, now),
            None => self,
        }
    }

    pub fn load_preview(&mut self, tree: &FileTree, now: u64)
        ensures
            *final(self) == old(self).selected_scheduled(*tree, now),
    {
        if let Some(p) = Self::find_previewable(tree) {
            self.load_preview_for_path(p, now);
        }
    }

    pub open spec fn asked(self, path: String) -> Self {
        PreviewPane {
            preview_load: self.preview_load.begun(),
            preview_in_flight_path: Some(path),
            ..self
        }
    }

    pub open spec fn request(self, path: Seq<char>) -> Effect<Seq<char>> {
        Effect::LoadPreview {
            generation: self.preview_load.begun().generation,
            path,
            wants_image: self.has_picker,
        }
    }

    pub fn dispatch_preview_load(&mut self, path: String, fx: &mut Effects)
        ensures
            *final(self) == old(self).asked(path),
            final(fx)@ == old(fx)@.push(old(self).request(path@)),
    {
        let generation: u64 = self.preview_load.begin();
        self.preview_in_flight_path = Some(path.clone());
        fx.emit(Effect::LoadPreview { generation, path, wants_image: self.has_picker });
    }

    /// Asks for the selected file at once.
    pub fn reload_preview_now(&mut self, tree: &FileTree, fx: &mut Effects)
        ensures
            match Self::previewable(*tree) {
                Some(p) => {
                    let s = PreviewPane {
                        preview_schedule: None,
                        prefetch_schedule: None,
                        ..*old(self)
                    };
                    *final(self) == s.asked(p) && final(fx)@ == old(fx)@.push(s.request(p@))
                },
                None => *final(self) == *old(self) && final(fx)@ == old(fx)@,
            },
    {
        if let Some(p) = Self::find_previewable(tree) {
            self.preview_schedule = None;
            self.prefetch_schedule = None;
            self.dispatch_preview_load(p, fx);
        }
    }

    /// A preview that is due is asked for.
    pub open spec fn schedule_drained(
        self,
        new: Self,
        now: u64,
        fx: Seq<Effect<Seq<char>>>,
        fx2: Seq<Effect<Seq<char>>>,
    ) -> bool {
        match self.preview_schedule {
            Some(w) => if now < w.1 {
                new == self && fx2 == fx
            } else {
                let s = PreviewPane { preview_schedule: None, ..self };
                new == s.asked(w.0) && fx2 == fx.push(s.request(w.0@))
            },
            None => new == self && fx2 == fx,
        }
    }

    /// Asks for a preview whose wait is over.
    pub fn drain_preview_schedule(
        &mut self,
        now: u64,
        fx: &mut Effects,
    )
        ensures
            old(self).schedule_drained(
                *final(self),
                now,
                old(fx)@,
                final(fx)@,
            ),
    {
        let due = match &self.preview_schedule {
            Some(w) => now >= w.1,
            None => false,
        };
        if !due {
            return;
        }
        if let Some((path, _)) = self.preview_schedule.take() {
            self.dispatch_preview_load(path, fx);
        }
    }

    // ── Neighbours ───────────────────────────────────────────────────────
    /// Nothing is open over the tree.
    pub open spec fn tree_is_calm(files: FilesPane, screen: Screen) -> bool {
        screen.active_tab == Tab::Files && !files.place_mode.active && !files.tree_edit.active
            && !files.tree_context_menu.active && files.tree_delete_confirm is None
    }

    pub open spec fn prefetch_of(self, e: TreeEntry) -> Seq<Effect<Seq<char>>> {
        if e.is_dir {
            Seq::empty()
        } else {
            seq![Effect::PrefetchPreview { path: e.path@, wants_image: self.has_picker }]
        }
    }

    /// The files above and below the selected row.
    pub open spec fn neighbours(self, files: FilesPane, screen: Screen) -> Seq<Effect<Seq<char>>> {
        let tree = files.file_tree;
        let sel = tree.selected;
        let n = tree.entries@.len();
        if Self::tree_is_calm(files, screen) && sel < n {
            (if sel > 0 {
                self.prefetch_of(tree.entries@[sel - 1])
            } else {
                Seq::empty()
            }) + (if sel + 1 < n {
                self.prefetch_of(tree.entries@[sel + 1])
            } else {
                Seq::empty()
            })
        } else {
            Seq::empty()
        }
    }

    fn prefetch(&self, e: &TreeEntry, fx: &mut Effects)
        ensures
            final(fx)@ == old(fx)@ + self.prefetch_of(*e),
    {
        if !e.is_dir {
            fx.emit(Effect::PrefetchPreview { path: e.path.clone(), wants_image: self.has_picker });
        }
        assert(fx@ =~= old(fx)@ + self.prefetch_of(*e));
    }

    pub fn prefetch_preview_neighbors(&self, files: &FilesPane, screen: &Screen, fx: &mut Effects)
        ensures
            final(fx)@ == old(fx)@ + self.neighbours(*files, *screen),
    {
        let calm = screen.active_tab == Tab::Files && !files.place_mode.active
            && !files.tree_edit.active && !files.tree_context_menu.active
            && files.tree_delete_confirm.is_none();
        let sel: usize = files.file_tree.selected;
        let n: usize = files.file_tree.entries.len();
        if calm && sel < n {
            if sel > 0 {
                self.prefetch(&files.file_tree.entries[sel - 1], fx);
            }
            if sel + 1 < n {
                self.prefetch(&files.file_tree.entries[sel + 1], fx);
            }
        }
        assert(fx@ =~= old(fx)@ + self.neighbours(*files, *screen));
    }

    /// Whether a picture that was prepared belongs to the preview that is
    /// shown.
    pub open spec fn accepts(self, generation: u64) -> bool {
        generation == self.preview_load.generation && self.has_picture
    }

    fn accepts_picture(&self, generation: u64) -> (r: bool)
        ensures
            r == self.accepts(generation),
    {
        generation == self.preview_load.generation && self.has_picture
    }

    /// The last of the pictures that were prepared, by the loads they belong
    /// to, that is for the load at hand.
    pub open spec fn build_shown(self, builds: Seq<u64>) -> Option<int>
        decreases builds.len(),
    {
        if builds.len() == 0 {
            None
        } else if self.accepts(builds.last()) {
            Some(builds.len() - 1)
        } else {
            self.build_shown(builds.drop_last())
        }
    }

    /// Which of the pictures that were prepared since the last turn is put on
    /// screen: each one for the load at hand replaces the one before.
    pub fn drain_preview_protocol_builds(&self, builds: &Vec<u64>) -> (r: Option<usize>)
        ensures
            match r {
                Some(i) => self.build_shown(builds@) == Some(i as int),
                None => self.build_shown(builds@) is None,
            },
    {
        let mut n: usize = builds.len();
        assert(builds@.take(n as int) =~= builds@);
        while n > 0
            invariant
                n <= builds@.len(),
                self.build_shown(builds@.take(n as int)) == self.build_shown(builds@),
            decreases n,
        {
            assert(builds@.take(n as int).drop_last() =~= builds@.take(n - 1));
            n = n - 1;
            if self.accepts_picture(builds[n]) {
                return Some(n);
            }
        }
        None
    }

    /// The neighbours are asked for once they are due and no preview waits.
    pub open spec fn prefetch_drained(
        self,
        new: Self,
        now: u64,
        files: FilesPane,
        screen: Screen,
        fx: Seq<Effect<Seq<char>>>,
        fx2: Seq<Effect<Seq<char>>>,
    ) -> bool {
        match self.prefetch_schedule {
            Some(t) => if now < t {
                new == self && fx2 == fx
            } else {
                &&& new == (PreviewPane { prefetch_schedule: None, ..self })
                &&& fx2 == fx + (if self.preview_schedule is Some {
                    Seq::empty()
                } else {
                    self.neighbours(files, screen)
                })
            },
            None => new == self && fx2 == fx,
        }
    }

    /// Fetches the neighbours once their wait is over, unless another preview
    /// waits to be asked for.
    pub fn drain_prefetch_schedule(
        &mut self,
        now: u64,
        files: &FilesPane,
        screen: &Screen,
        fx: &mut Effects,
    )
        ensures
            old(self).prefetch_drained(
                *final(self),
                now,
                *files,
                *screen,
                old(fx)@,
                final(fx)@,
            ),
    {
        let due = match self.prefetch_schedule {
            Some(t) => now >= t,
            None => false,
        };
        if !due {
            return;
        }
        self.prefetch_schedule = None;
        if self.preview_schedule.is_some() {
            assert(fx@ =~= old(fx)@ + Seq::<Effect<Seq<char>>>::empty());
            return;
        }
        self.prefetch_preview_neighbors(files, screen, fx);
    }
}

fn ask_page(info: &DatabaseInfo, s: &DbPreviewState, table: usize, page: u64, fx: &mut Effects)
    requires
        table < info.tables@.len(),
    ensures
        final(fx)@ == old(fx)@.push(
            PreviewPane::page_request(*info, *s, table as int, page as int),
        ),
{
    let offset: u64 = scaled(page, s.rows_per_page);
    fx.emit(
        Effect::LoadDbPage {
            path: s.path.clone(),
            table: info.tables[table].name.clone(),
            offset,
            limit: s.rows_per_page,
        },
    );
}

fn scaled(a: u64, b: u32) -> (r: u64)
    ensures
        r == times(a as int, b as int),
{
    assert(0 <= a * b <= u64::MAX * u32::MAX) by (nonlinear_arith)
        requires
            0 <= a <= u64::MAX,
            0 <= b <= u32::MAX,
    ;
    let p: u128 = a as u128 * b as u128;
    if p > u64::MAX as u128 {
        u64::MAX
    } else {
        p as u64
    }
}

// ── A new preview ────────────────────────────────────────────────────────

pub open spec fn same_file(a: Option<PreviewContent>, b: Option<PreviewContent>) -> bool {
    match (a, b) {
        (Some(x), Some(y)) => x.file_path@ == y.file_path@,
        _ => false,
    }
}

/// Both show the same picture: nothing of it changed on disk.
pub open spec fn same_picture(a: Option<PreviewContent>, b: Option<PreviewContent>) -> bool {
    match (a, b) {
        (Some(x), Some(y)) => match (x.body, y.body) {
            (PreviewBody::Image(p), PreviewBody::Image(q)) => p.bytes_on_disk == q.bytes_on_disk
                && p.width_px == q.width_px && p.height_px == q.height_px && p.format == q.format,
            _ => false,
        },
        _ => false,
    }
}

fn paths_match(a: &Option<PreviewContent>, b: &Option<PreviewContent>) -> (r: bool)
    ensures
        r == same_file(*a, *b),
{
    match (a, b) {
        (Some(x), Some(y)) => same_str(x.file_path.as_str(), y.file_path.as_str()),
        _ => false,
    }
}

fn pictures_match(a: &Option<PreviewContent>, b: &Option<PreviewContent>) -> (r: bool)
    ensures
        r == same_picture(*a, *b),
{
    match (a, b) {
        (Some(x), Some(y)) => match (&x.body, &y.body) {
            (PreviewBody::Image(p), PreviewBody::Image(q)) => p.bytes_on_disk == q.bytes_on_disk
                && p.width_px == q.width_px && p.height_px == q.height_px && p.format == q.format,
            _ => false,
        },
        _ => false,
    }
}

/// The pixels of a preview.
pub open spec fn pixels(c: Option<PreviewContent>) -> Option<image::DynamicImage> {
    match c {
        Some(x) => match x.body {
            PreviewBody::Image(img) => img.image,
            _ => None,
        },
        None => None,
    }
}

pub open spec fn without_pixels(c: Option<PreviewContent>) -> Option<PreviewContent> {
    match c {
        Some(x) => match x.body {
            PreviewBody::Image(img) => Some(
                PreviewContent {
                    body: PreviewBody::Image(ImagePreview { image: None, ..img }),
                    ..x
                },
            ),
            _ => Some(x),
        },
        None => None,
    }
}

fn take_pixels(c: Option<PreviewContent>) -> (r: (Option<PreviewContent>, Option<image::DynamicImage>))
    ensures
        r.0 == without_pixels(c),
        r.1 == pixels(c),
{
    match c {
        Some(x) => {
            let PreviewContent { file_path, body } = x;
            match body {
                PreviewBody::Image(img) => {
                    let rest = ImagePreview {
                        image: None,
                        width_px: img.width_px,
                        height_px: img.height_px,
                        format: img.format,
                        bytes_on_disk: img.bytes_on_disk,
                        animated: img.animated,
                        meta_line: img.meta_line,
                    };
                    (Some(PreviewContent { file_path, body: PreviewBody::Image(rest) }), img.image)
                },
                other => (Some(PreviewContent { file_path, body: other }), None),
            }
        },
        None => (None, None),
    }
}

fn copy_value(v: &SqliteValue) -> (r: SqliteValue)
    ensures
        r == *v,
{
    match v {
        SqliteValue::Null => SqliteValue::Null,
        SqliteValue::Integer(i) => SqliteValue::Integer(*i),
        SqliteValue::Real(b) => SqliteValue::Real(*b),
        SqliteValue::Text { value, truncated } => SqliteValue::Text {
            value: value.clone(),
            truncated: *truncated,
        },
        SqliteValue::Blob { len } => SqliteValue::Blob { len: *len },
    }
}

/// The rows hold the same cells.
pub open spec fn same_rows(a: Seq<Vec<SqliteValue>>, b: Seq<Vec<SqliteValue>>) -> bool {
    a.len() == b.len() && forall|i: int| 0 <= i < a.len() ==> (#[trigger] a[i])@ == b[i]@
}

fn copy_row(v: &Vec<SqliteValue>) -> (r: Vec<SqliteValue>)
    ensures
        r@ == v@,
{
    let mut out: Vec<SqliteValue> = Vec::new();
    let mut i: usize = 0;
    while i < v.len()
        invariant
            i <= v@.len(),
            out@ == v@.take(i as int),
        decreases v@.len() - i,
    {
        out.push(copy_value(&v[i]));
        i = i + 1;
        assert(out@ =~= v@.take(i as int));
    }
    assert(v@.take(v@.len() as int) =~= v@);
    out
}

fn copy_rows(v: &Vec<Vec<SqliteValue>>) -> (r: Vec<Vec<SqliteValue>>)
    ensures
        same_rows(r@, v@),
{
    let mut out: Vec<Vec<SqliteValue>> = Vec::new();
    let mut i: usize = 0;
    while i < v.len()
        invariant
            i <= v@.len(),
            out@.len() == i,
            forall|k: int| 0 <= k < i ==> (#[trigger] out@[k])@ == v@[k]@,
        decreases v@.len() - i,
    {
        out.push(copy_row(&v[i]));
        i = i + 1;
    }
    out
}

impl DbPreviewState {
    /// The state in which a database is first shown.
    pub open spec fn is_initial(self, path: Seq<char>, info: DatabaseInfo) -> bool {
        &&& self.path@ == path
        &&& self.selected_table == info.selected_table
        &&& self.page == 0
        &&& self.rows_per_page == INITIAL_DB_PAGE_ROWS
        &&& same_rows(self.current_rows@, info.initial_page.rows@)
    }

    pub fn from_initial(path: &str, info: &DatabaseInfo) -> (r: Self)
        ensures
            r.is_initial(path@, *info),
    {
        DbPreviewState {
            path: path.to_owned(),
            selected_table: info.selected_table,
            page: 0,
            current_rows: copy_rows(&info.initial_page.rows),
            rows_per_page: INITIAL_DB_PAGE_ROWS,
        }
    }
}

/// The state of the database pages fits the preview: it stays for the same
/// file, starts anew for another, and goes where no database is shown.
pub open spec fn db_fits(
    content: Option<PreviewContent>,
    old: Option<DbPreviewState>,
    new: Option<DbPreviewState>,
) -> bool {
    match content {
        Some(c) => match c.body {
            PreviewBody::Database(info) => if old matches Some(s) && s.path@ == c.file_path@ {
                new == old
            } else {
                new matches Some(s) && s.is_initial(c.file_path@, info)
            },
            _ => new is None,
        },
        None => new is None,
    }
}

impl PreviewPane {
    /// The picture on screen is kept: the same file still shows it.
    pub open spec fn keeps_picture(self, content: Option<PreviewContent>) -> bool {
        same_file(self.preview_content, content) && self.has_picture && same_picture(
            self.preview_content,
            content,
        )
    }

    /// A picture is to be built of the preview.
    pub open spec fn builds_picture(self, content: Option<PreviewContent>) -> bool {
        !self.keeps_picture(content) && self.has_picker && pixels(content) is Some
    }

    /// What is kept of a preview: the pixels go once they are on screen, or
    /// handed on.
    pub open spec fn kept(self, content: Option<PreviewContent>) -> Option<PreviewContent> {
        if self.keeps_picture(content) || self.has_picker {
            without_pixels(content)
        } else {
            content
        }
    }

    /// The highlight points into the preview.
    pub open spec fn highlighted_row(self, content: Option<PreviewContent>) -> Option<usize> {
        match (self.preview_highlight, content) {
            (Some(hl), Some(c)) => if c.file_path@ == hl.path@ {
                Some(hl.row)
            } else {
                None
            },
            _ => None,
        }
    }

    /// The pane after a preview was taken; `db` is then the state of the
    /// database pages.
    pub open spec fn taken(
        self,
        content: Option<PreviewContent>,
        db: Option<DbPreviewState>,
        view_h: u16,
        now: u64,
    ) -> Self {
        let same = same_file(self.preview_content, content);
        PreviewPane {
            preview_content: self.kept(content),
            has_picture: self.keeps_picture(content) || self.builds_picture(content),
            preview_in_flight_path: None,
            preview_scroll: match self.highlighted_row(content) {
                Some(row) => centered(row, view_h as usize),
                None => if same {
                    self.preview_scroll
                } else {
                    0
                },
            },
            preview_h_scroll: if same {
                self.preview_h_scroll
            } else {
                0
            },
            db_preview_state: db,
            db_goto_input: None,
            prefetch_schedule: if self.preview_schedule is None {
                Some(Self::later(now, PREFETCH_DELAY_MS))
            } else {
                self.prefetch_schedule
            },
            ..self
        }
    }

    /// The marked text goes with the file it was marked in.
    pub open spec fn taken_screen(self, content: Option<PreviewContent>, screen: Screen) -> Screen {
        if same_file(self.preview_content, content) {
            screen
        } else {
            Screen { preview_selection: false, preview_click: false, ..screen }
        }
    }

    /// What a preview changes; `r` holds the pixels that are to be shown.
    pub open spec fn preview_applied(
        self,
        new: Self,
        generation: u64,
        result: Result<Option<PreviewContent>, String>,
        screen: Screen,
        screen2: Screen,
        now: u64,
        r: Option<image::DynamicImage>,
    ) -> bool {
        &&& generation != self.preview_load.generation ==> new == self
            && screen2 == screen && r is None
        &&& generation == self.preview_load.generation ==> match result {
            Err(_) => {
                &&& new == (PreviewPane {
                    preview_load: self.preview_load.done(),
                    preview_in_flight_path: None,
                    ..self
                })
                &&& screen2 == screen
                &&& r is None
            },
            Ok(content) => {
                let s = self.load_done();
                &&& new == s.taken(
                    content,
                    new.db_preview_state,
                    screen.last_preview_view_h,
                    now,
                )
                &&& db_fits(
                    s.kept(content),
                    s.db_preview_state,
                    new.db_preview_state,
                )
                &&& screen2 == s.taken_screen(content, screen)
                &&& r == (if s.builds_picture(content) {
                    pixels(content)
                } else {
                    None
                })
            },
        }
    }

    /// Takes a preview if it is the latest one asked for. The pixels of a
    /// picture that is to be built are handed back. A failure leaves what is
    /// shown, and is not tried again.
    pub fn apply_preview(
        &mut self,
        generation: u64,
        result: Result<Option<PreviewContent>, String>,
        screen: &mut Screen,
        now: u64,
    ) -> (r: Option<image::DynamicImage>)
        ensures
            old(self).preview_applied(
                *final(self),
                generation,
                result,
                *old(screen),
                *final(screen),
                now,
                r,
            ),
    {
        match result {
            Err(e) => {
                if self.preview_load.complete_err(generation, e) {
                    self.preview_load.stale = false;
                    self.preview_load.error = None;
                    self.preview_in_flight_path = None;
                }
                None
            },
            Ok(content) => {
                if !self.preview_load.complete_ok(generation) {
                    return None;
                }
                self.take_preview(content, screen, now)
            },
        }
    }

    pub open spec fn load_done(self) -> Self {
        PreviewPane { preview_load: self.preview_load.done(), ..self }
    }

    fn take_preview(
        &mut self,
        content: Option<PreviewContent>,
        screen: &mut Screen,
        now: u64,
    ) -> (r: Option<image::DynamicImage>)
        ensures
            *final(self) == old(self).taken(
                content,
                final(self).db_preview_state,
                old(screen).last_preview_view_h,
                now,
            ),
            db_fits(
                old(self).kept(content),
                old(self).db_preview_state,
                final(self).db_preview_state,
            ),
            *final(screen) == old(self).taken_screen(content, *old(screen)),
            r == (if old(self).builds_picture(content) {
                pixels(content)
            } else {
                None
            }),
    {
        let same = paths_match(&self.preview_content, &content);
        let keeps = same && self.has_picture && pictures_match(&self.preview_content, &content);
        let row = self.find_highlighted_row(&content);
        let (kept, out) = self.split_picture(content, keeps);
        self.has_picture = keeps || out.is_some();
        self.preview_content = kept;
        self.preview_in_flight_path = None;
        self.settle_database();
        self.db_goto_input = None;
        self.settle_scroll(same, row, screen.last_preview_view_h);
        if !same {
            screen.preview_selection = false;
            screen.preview_click = false;
        }
        if self.preview_schedule.is_none() {
            self.prefetch_schedule = Some(now.saturating_add(PREFETCH_DELAY_MS));
        }
        out
    }

    fn find_highlighted_row(&self, content: &Option<PreviewContent>) -> (r: Option<usize>)
        ensures
            r == self.highlighted_row(*content),
    {
        match (&self.preview_highlight, content) {
            (Some(hl), Some(c)) => if same_str(c.file_path.as_str(), hl.path.as_str()) {
                Some(hl.row)
            } else {
                None
            },
            _ => None,
        }
    }

    fn split_picture(&self, content: Option<PreviewContent>, keeps: bool) -> (r: (
        Option<PreviewContent>,
        Option<image::DynamicImage>,
    ))
        requires
            keeps == self.keeps_picture(content),
        ensures
            r.0 == self.kept(content),
            r.1 == (if self.builds_picture(content) {
                pixels(content)
            } else {
                None
            }),
    {
        if keeps {
            let (c, _) = take_pixels(content);
            (c, None)
        } else if self.has_picker {
            take_pixels(content)
        } else {
            (content, None)
        }
    }

    fn settle_database(&mut self)
        ensures
            *final(self) == (PreviewPane {
                db_preview_state: final(self).db_preview_state,
                ..*old(self)
            }),
            db_fits(
                old(self).preview_content,
                old(self).db_preview_state,
                final(self).db_preview_state,
            ),
    {
        match &self.preview_content {
            Some(c) => match &c.body {
                PreviewBody::Database(info) => {
                    let matches_file = match &self.db_preview_state {
                        Some(s) => same_str(s.path.as_str(), c.file_path.as_str()),
                        None => false,
                    };
                    if !matches_file {
                        let s = DbPreviewState::from_initial(c.file_path.as_str(), info);
                        self.db_preview_state = Some(s);
                    }
                },
                _ => {
                    self.db_preview_state = None;
                },
            },
            None => {
                self.db_preview_state = None;
            },
        }
    }

    fn settle_scroll(&mut self, same: bool, row: Option<usize>, view_h: u16)
        ensures
            *final(self) == (PreviewPane {
                preview_scroll: match row {
                    Some(row) => centered(row, view_h as usize),
                    None => if same {
                        old(self).preview_scroll
                    } else {
                        0
                    },
                },
                preview_h_scroll: if same {
                    old(self).preview_h_scroll
                } else {
                    0
                },
                ..*old(self)
            }),
    {
        if !same {
            self.preview_scroll = 0;
            self.preview_h_scroll = 0;
        }
        if let Some(row) = row {
            self.preview_scroll = center_scroll(row, view_h as usize);
        }
    }
}

// ── Laws ─────────────────────────────────────────────────────────────────

/// Only the last of a burst of requests is made: a request that waits is
/// replaced by the next one, and none is made before its wait is over.
pub proof fn law_bursts_coalesce(
    s: PreviewPane,
    first: String,
    second: String,
    t1: u64,
    t2: u64,
    now: u64,
    new: PreviewPane,
    fx: Seq<Effect<Seq<char>>>,
    fx2: Seq<Effect<Seq<char>>>,
)
    requires
        s.scheduled(first, t1).scheduled(second, t2).schedule_drained(new, now, fx, fx2),
    ensures
        s.scheduled(first, t1).scheduled(second, t2).preview_schedule == Some(
            (second, PreviewPane::later(t2, PREVIEW_DEBOUNCE_MS)),
        ),
        now < PreviewPane::later(t2, PREVIEW_DEBOUNCE_MS) ==> new == s.scheduled(
            first,
            t1,
        ).scheduled(second, t2) && fx2 == fx,
        now >= PreviewPane::later(t2, PREVIEW_DEBOUNCE_MS) ==> fx2.len() == fx.len() + 1
            && (fx2.last() matches Effect::LoadPreview { path, .. } && path == second@),
{
}

/// A page that can be moved to is one of the table: the page numbers stay
/// between the first and the last.
pub proof fn law_pages_stay_in_table(info: DatabaseInfo, s: DbPreviewState, action: DbNav)
    requires
        info.tables@.len() > 0,
        0 <= s.page <= last_page(
            info.tables@[shown_table(info, s)].row_count as int,
            s.rows_per_page as int,
        ),
    ensures
        ({
            let (table, page) = nav_target(info, s, action);
            &&& 0 <= table < info.tables@.len()
            &&& 0 <= page <= last_page(
                info.tables@[table].row_count as int,
                s.rows_per_page as int,
            )
        }),
{
    let (table, page) = nav_target(info, s, action);
    lemma_last_page(info.tables@[table].row_count as int, s.rows_per_page as int);
    lemma_last_page(
        info.tables@[shown_table(info, s)].row_count as int,
        s.rows_per_page as int,
    );
}

proof fn lemma_last_page(rows: int, size: int)
    requires
        rows >= 0,
        size >= 0,
    ensures
        last_page(rows, size) >= 0,
{
    if size > 0 && rows > 0 {
        assert((rows - 1) / size >= 0) by (nonlinear_arith)
            requires
                rows >= 1,
                size >= 1,
        ;
    }
}

/// The last page holds at least one row of a table that has any, and no row
/// lies behind it.
pub proof fn law_last_page_covers_the_table(rows: int, size: int)
    requires
        rows > 0,
        size > 0,
    ensures
        last_page(rows, size) * size < rows,
        rows <= (last_page(rows, size) + 1) * size,
{
    let q = (rows - 1) / size;
    assert(q * size <= rows - 1 && rows - 1 < (q + 1) * size) by (nonlinear_arith)
        requires
            size > 0,
            q == (rows - 1) / size,
    ;
}

/// The pages of a database are shown exactly while a database is, and of the
/// same file.
pub proof fn law_pages_belong_to_the_preview(
    content: Option<PreviewContent>,
    old: Option<DbPreviewState>,
    new: Option<DbPreviewState>,
)
    requires
        db_fits(content, old, new),
    ensures
        new is Some <==> (content matches Some(c) && c.body is Database),
        new matches Some(s) ==> content matches Some(c) && s.path@ == c.file_path@,
{
}

/// While the selection moves, or while something else than the tree takes the
/// input, nothing is fetched ahead of time.
pub proof fn law_prefetch_waits_for_calm(
    s: PreviewPane,
    path: String,
    at: u64,
    now: u64,
    files: FilesPane,
    screen: Screen,
    moved: PreviewPane,
    busy: PreviewPane,
    fx: Seq<Effect<Seq<char>>>,
    fx2: Seq<Effect<Seq<char>>>,
    fx3: Seq<Effect<Seq<char>>>,
)
    requires
        s.scheduled(path, at).prefetch_drained(moved, now, files, screen, fx, fx2),
        s.prefetch_drained(busy, now, files, screen, fx, fx3),
    ensures
        fx2 == fx,
        !PreviewPane::tree_is_calm(files, screen) ==> fx3 == fx,
{
}

/// A picture that was prepared for a load that another one replaced is not
/// shown.
pub proof fn law_superseded_pictures_are_dropped(s: PreviewPane, builds: Seq<u64>)
    requires
        forall|i: int| 0 <= i < builds.len() ==> builds[i] != s.preview_load.generation,
    ensures
        s.build_shown(builds) is None,
    decreases builds.len(),
{
    if builds.len() > 0 {
        assert(builds.last() == builds[builds.len() - 1]);
        law_superseded_pictures_are_dropped(s, builds.drop_last());
    }
}

} // verus!
