//! The files tab: editing names in the tree, deleting, cutting, copying and
//! pasting, and what the host is asked to do about it.
use crate::effects::{Effect, Effects, Notice, ToastLevel};
use crate::file_tree::{FileTree, TreeEntry};
use crate::layout::{Screen, Tab};
use crate::loads::AsyncState;
use crate::paths::{
    base_name, file_name, parent, parent_of, push_path, pushed_path, relative, relative_to,
    same_path, same_paths, strip_root, stripped,
};
use crate::text::{copy_strings, opt_view};
use vstd::prelude::*;
use vstd::string::*;
use vstd::utf8::encode_utf8;

verus! {

#[derive(Debug, Clone, Copy, PartialEq, Eq, Structural)]
pub enum TreeEditMode {
    NewFile,
    NewFolder,
    Rename,
}

/// Why a name that was typed is not taken.
#[derive(Debug)]
pub enum TreeEditError {
    /// It is no file name, in the words of the host.
    Invalid(String),
    NameAlreadyExists(String),
}

/// The name that is being typed in the tree.
#[derive(Debug)]
pub struct TreeEdit {
    pub active: bool,
    pub mode: Option<TreeEditMode>,
    pub parent_dir: Option<String>,
    pub rename_target: Option<String>,
    pub buffer: String,
    pub cursor: usize,
    pub anchor_idx: Option<usize>,
    pub error: Option<TreeEditError>,
}

impl TreeEdit {
    /// Nothing is being typed.
    pub open spec fn is_closed(self) -> bool {
        &&& self == (TreeEdit {
            active: false,
            mode: None,
            parent_dir: None,
            rename_target: None,
            buffer: self.buffer,
            cursor: 0,
            anchor_idx: None,
            error: None,
        })
        &&& self.buffer@.len() == 0
    }

    pub fn closed() -> (r: Self)
        ensures
            r.is_closed(),
    {
        TreeEdit {
            active: false,
            mode: None,
            parent_dir: None,
            rename_target: None,
            buffer: String::new(),
            cursor: 0,
            anchor_idx: None,
            error: None,
        }
    }

    pub fn clear(&mut self)
        ensures
            final(self).is_closed(),
    {
        *self = TreeEdit::closed();
    }
}

#[derive(Debug)]
pub struct ContextMenu {
    pub active: bool,
    pub anchor: (u16, u16),
    pub target_entry_idx: Option<usize>,
}

impl ContextMenu {
    pub open spec fn shut(self) -> Self {
        ContextMenu { active: false, target_entry_idx: None, ..self }
    }

    pub fn close(&mut self)
        ensures
            *final(self) == old(self).shut(),
    {
        self.active = false;
        self.target_entry_idx = None;
    }
}

#[derive(Debug)]
pub struct TreeDeletePending {
    pub path: String,
    pub display_name: String,
    pub is_dir: bool,
    pub hard: bool,
}

#[derive(Debug, Clone, Copy, PartialEq, Eq, Structural)]
pub enum ClipMode {
    Cut,
    Copy,
}

#[derive(Debug)]
pub struct FileClipboard {
    pub mode: Option<ClipMode>,
    pub paths: Vec<String>,
}

/// Files dropped on the window that wait for a directory.
#[derive(Debug)]
pub struct PlaceMode {
    pub active: bool,
    pub sources: Vec<String>,
}

#[derive(Debug)]
pub struct FilesPane {
    pub file_tree: FileTree,
    pub tree_scroll: usize,
    pub file_tree_load: AsyncState,
    pub fs_mutation_load: AsyncState,
    pub file_copy_load: AsyncState,
    /// What to select once the operation that runs is done.
    pub fs_mutation_select_on_done: Option<String>,
    pub place_mode: PlaceMode,
    pub tree_edit: TreeEdit,
    pub tree_context_menu: ContextMenu,
    pub tree_delete_confirm: Option<TreeDeletePending>,
    pub file_clipboard: FileClipboard,
    pub file_selection: Vec<String>,
}

/// The row `i` of the tree.
pub open spec fn row_at(tree: FileTree, i: Option<usize>) -> Option<TreeEntry> {
    match i {
        Some(i) => if i < tree.entries@.len() {
            Some(tree.entries@[i as int])
        } else {
            None
        },
        None => None,
    }
}

fn entry_at(tree: &FileTree, i: Option<usize>) -> (r: Option<TreeEntry>)
    ensures
        r == row_at(*tree, i),
{
    match i {
        Some(i) => if i < tree.entries.len() {
            Some(tree.entries[i].clone())
        } else {
            None
        },
        None => None,
    }
}

pub open spec fn parent_or_root(p: Seq<char>, root: Seq<char>) -> Seq<char> {
    match parent_of(p) {
        Some(q) => q,
        None => root,
    }
}

fn parent_or(p: &str, root: &str) -> (r: String)
    ensures
        r@ == parent_or_root(p@, root@),
{
    match parent(p) {
        Some(q) => q,
        None => root.to_owned(),
    }
}

/// The directory that a paste on a row goes to: the row itself where it is a
/// directory, else the one it lies in. No row stands for the top.
pub open spec fn drop_dir(entry: Option<TreeEntry>) -> Seq<char> {
    match entry {
        Some(e) => if e.is_dir {
            e.path@
        } else {
            parent_or_root(e.path@, Seq::empty())
        },
        None => Seq::empty(),
    }
}

fn find_drop_dir(entry: &Option<TreeEntry>) -> (r: String)
    ensures
        r@ == drop_dir(*entry),
{
    proof {
        reveal_strlit("");
        assert(""@ =~= Seq::<char>::empty());
    }
    match entry {
        Some(e) => if e.is_dir {
            e.path.clone()
        } else {
            parent_or(e.path.as_str(), "")
        },
        None => String::new(),
    }
}

/// The path `p` is one of `v`.
pub open spec fn is_among(v: Seq<String>, p: Seq<char>) -> bool {
    exists|i: int| 0 <= i < v.len() && same_path(#[trigger] v[i]@, p)
}

fn among(v: &Vec<String>, p: &str) -> (r: bool)
    ensures
        r == is_among(v@, p@),
{
    let mut i: usize = 0;
    while i < v.len()
        invariant
            i <= v@.len(),
            forall|j: int| 0 <= j < i ==> !same_path((#[trigger] v@[j])@, p@),
        decreases v@.len() - i,
    {
        if same_paths(v[i].as_str(), p) {
            assert(same_path(v@[i as int]@, p@));
            return true;
        }
        i = i + 1;
    }
    false
}

/// An operation that was refused because another one runs.
fn blocked(notice: Notice<String>, fx: &mut Effects)
    ensures
        final(fx)@ == old(fx)@.push(Effect::Say { level: ToastLevel::Warn, notice: notice@ }),
{
    fx.emit(Effect::Say { level: ToastLevel::Warn, notice });
}

impl FilesPane {
    pub open spec fn wf(self) -> bool {
        self.file_tree.wf()
    }

    pub open spec fn selected(self) -> Option<TreeEntry> {
        row_at(self.file_tree, Some(self.file_tree.selected))
    }

    pub open spec fn selected_path(self) -> Option<String> {
        match self.selected() {
            Some(e) => Some(e.path),
            None => None,
        }
    }

    // ── Rebuilding the tree ──────────────────────────────────────────────
    pub open spec fn rebuild_asked(self) -> Self {
        FilesPane { file_tree_load: self.file_tree_load.begun(), ..self }
    }

    pub open spec fn rebuild_request(self, select: Option<Seq<char>>) -> Effect<Seq<char>> {
        Effect::RebuildTree {
            generation: self.file_tree_load.begun().generation,
            select,
            selected_idx: self.file_tree.selected,
        }
    }

    pub fn refresh_file_tree_with_target(&mut self, select: Option<String>, fx: &mut Effects)
        ensures
            *final(self) == old(self).rebuild_asked(),
            final(fx)@ == old(fx)@.push(old(self).rebuild_request(opt_view(select))),
    {
        let generation: u64 = self.file_tree_load.begin();
        fx.emit(
            Effect::RebuildTree { generation, select, selected_idx: self.file_tree.selected },
        );
    }

    /// The selected row stays selected.
    pub fn refresh_file_tree(&mut self, fx: &mut Effects)
        ensures
            *final(self) == old(self).rebuild_asked(),
            final(fx)@ == old(fx)@.push(
                old(self).rebuild_request(opt_view(old(self).selected_path())),
            ),
    {
        let select = self.file_tree.selected_path();
        self.refresh_file_tree_with_target(select, fx);
    }

    /// Every directory is closed, and the first row is selected.
    pub open spec fn all_collapsed(
        self,
        new: Self,
        fx: Seq<Effect<Seq<char>>>,
        fx2: Seq<Effect<Seq<char>>>,
    ) -> bool {
        &&& new.file_tree.expanded@ == Set::<Seq<char>>::empty()
        &&& ({
            let s = FilesPane {
                file_tree: FileTree {
                    expanded: new.file_tree.expanded,
                    selected: 0,
                    ..self.file_tree
                },
                ..self
            };
            &&& new == s.rebuild_asked()
            &&& fx2 == fx.push(s.rebuild_request(opt_view(s.selected_path())))
        })
    }

    pub fn collapse_all_tree_entries(&mut self, fx: &mut Effects)
        requires
            old(self).wf(),
        ensures
            final(self).wf(),
            old(self).all_collapsed(
                *final(self),
                old(fx)@,
                final(fx)@,
            ),
    {
        self.file_tree.collapse_all();
        self.refresh_file_tree(fx);
    }

    /// `new` is `self` with the directory in row `i` opened or closed, and the
    /// tree being rebuilt.
    pub open spec fn row_toggled(self, new: Self, i: usize) -> bool {
        &&& new.wf()
        &&& new.file_tree.expanded@ == crate::file_tree::toggled(
            self.file_tree.expanded@,
            self.file_tree.entries@[i as int].path@,
        )
        &&& new == FilesPane {
            file_tree: FileTree { expanded: new.file_tree.expanded, ..self.file_tree },
            ..self
        }.rebuild_asked()
    }

    pub fn toggle_row(&mut self, i: usize, fx: &mut Effects)
        requires
            old(self).wf(),
            i < old(self).file_tree.entries@.len(),
            old(self).file_tree.entries@[i as int].is_dir,
        ensures
            old(self).row_toggled(*final(self), i),
            final(fx)@ == old(fx)@.push(
                old(self).rebuild_request(opt_view(old(self).selected_path())),
            ),
    {
        self.file_tree.toggle_expand(i);
        self.refresh_file_tree(fx);
    }

    /// A directory that is still closed, where the pointer has rested on it.
    pub open spec fn opens_on_hover(self, i: usize) -> bool {
        row_at(self.file_tree, Some(i)) matches Some(e) && e.is_dir && !e.is_expanded
    }

    /// Opens a directory that the pointer has rested on while files are
    /// dragged.
    pub fn hover_expand(&mut self, i: usize, fx: &mut Effects)
        requires
            old(self).wf(),
        ensures
            final(self).wf(),
            if old(self).opens_on_hover(i) {
                old(self).row_toggled(*final(self), i) && final(fx)@ == old(fx)@.push(
                    old(self).rebuild_request(opt_view(old(self).selected_path())),
                )
            } else {
                *final(self) == *old(self) && final(fx)@ == old(fx)@
            },
    {
        if i < self.file_tree.entries.len() && self.file_tree.entries[i].is_dir
            && !self.file_tree.entries[i].is_expanded {
            self.toggle_row(i, fx);
        }
    }

    // ── The tab ──────────────────────────────────────────────────────────
    /// The screen with the files tab in front.
    pub open spec fn files_in_front(screen: Screen) -> Screen {
        if screen.active_tab == Tab::Files {
            screen
        } else {
            Screen {
                active_tab: Tab::Files,
                preview_selection: false,
                preview_click: false,
                ..screen.without_diff_selection()
            }
        }
    }

    /// Coming back to an empty tree has it built.
    pub open spec fn came_back(self, screen: Screen) -> Self {
        if screen.active_tab != Tab::Files && self.file_tree.entries@.len() == 0 {
            FilesPane { file_tree_load: self.file_tree_load.marked(), ..self }
        } else {
            self
        }
    }

    pub fn show_files_tab(&mut self, screen: &mut Screen)
        ensures
            *final(screen) == Self::files_in_front(*old(screen)),
            *final(self) == old(self).came_back(*old(screen)),
    {
        if screen.active_tab == Tab::Files {
            return;
        }
        screen.active_tab = Tab::Files;
        screen.preview_selection = false;
        screen.preview_click = false;
        screen.clear_diff_selection();
        if self.file_tree.entries.len() == 0 {
            self.file_tree_load.mark_stale();
        }
    }

    // ── Place mode ───────────────────────────────────────────────────────
    pub open spec fn place_left(self, sources: Vec<String>) -> Self {
        FilesPane { place_mode: PlaceMode { active: false, sources }, ..self }
    }

    pub fn exit_place_mode(&mut self)
        ensures
            *final(self) == old(self).place_left(final(self).place_mode.sources),
            final(self).place_mode.sources@.len() == 0,
    {
        self.place_mode = PlaceMode { active: false, sources: Vec::new() };
    }

    /// What asking for a copy changes; one such copy runs at a time.
    pub open spec fn copy_asked(
        self,
        new: Self,
        sources: Vec<String>,
        dest_dir: String,
        fx: Seq<Effect<Seq<char>>>,
        fx2: Seq<Effect<Seq<char>>>,
        r: Option<CopyJob>,
    ) -> bool {
        if self.file_copy_load.loading {
            &&& r is None
            &&& new == self
            &&& fx2 == fx.push(
                Effect::Say { level: ToastLevel::Warn, notice: Notice::CopyInFlight },
            )
        } else {
            &&& r == Some(
                CopyJob {
                    generation: self.file_copy_load.begun().generation,
                    sources,
                    dest_dir,
                },
            )
            &&& new == (FilesPane {
                file_copy_load: self.file_copy_load.begun(),
                ..self
            })
            &&& fx2 == fx
        }
    }

    /// Copies files into a directory; one such copy at a time.
    pub fn request_file_copy(
        &mut self,
        sources: Vec<String>,
        dest_dir: String,
        fx: &mut Effects,
    ) -> (r: Option<CopyJob>)
        ensures
            old(self).copy_asked(
                *final(self),
                sources,
                dest_dir,
                old(fx)@,
                final(fx)@,
                r,
            ),
    {
        if self.file_copy_load.loading {
            blocked(Notice::CopyInFlight, fx);
            return None;
        }
        let generation: u64 = self.file_copy_load.begin();
        Some(CopyJob { generation, sources, dest_dir })
    }

    // ── What an action applies to ────────────────────────────────────────
    /// The paths an action on `anchor` takes: all marked ones where the anchor
    /// is among them, else the anchor alone.
    pub open spec fn paths_from(self, anchor: Option<String>) -> Seq<String> {
        match anchor {
            Some(p) => if is_among(self.file_selection@, p@) {
                self.file_selection@
            } else {
                seq![p]
            },
            None => Seq::empty(),
        }
    }

    fn collect_paths(&self, anchor: Option<String>) -> (r: Vec<String>)
        ensures
            r@ == self.paths_from(anchor),
    {
        let mut out: Vec<String> = Vec::new();
        if let Some(p) = anchor {
            if among(&self.file_selection, p.as_str()) {
                return copy_strings(&self.file_selection);
            }
            out.push(p);
        }
        assert(out@ =~= self.paths_from(anchor));
        out
    }

    pub fn effective_action_paths(&self) -> (r: Vec<String>)
        ensures
            r@ == self.paths_from(self.selected_path()),
    {
        self.collect_paths(self.file_tree.selected_path())
    }

    /// As above, for the row that a menu was opened on.
    pub open spec fn menu_paths(self, target: Option<usize>) -> Seq<String> {
        match row_at(self.file_tree, target) {
            Some(e) => self.paths_from(Some(e.path)),
            None => self.paths_from(self.selected_path()),
        }
    }

    pub fn collect_menu_paths(&self, target: Option<usize>) -> (r: Vec<String>)
        ensures
            r@ == self.menu_paths(target),
    {
        match entry_at(&self.file_tree, target) {
            Some(e) => self.collect_paths(Some(e.path)),
            None => self.effective_action_paths(),
        }
    }

    pub fn paste_target_dir(&self) -> (r: String)
        ensures
            r@ == drop_dir(self.selected()),
    {
        let e = entry_at(&self.file_tree, Some(self.file_tree.selected));
        find_drop_dir(&e)
    }

    /// Whether a path of the tree is a directory, as far as the tree shows it.
    pub open spec fn shown_as_dir(self, rel: Seq<char>) -> Option<bool> {
        match crate::file_tree::first_row(self.file_tree.entries@, rel) {
            Some(i) => Some(self.file_tree.entries@[i].is_dir),
            None => None,
        }
    }

    pub fn entry_is_dir(&self, rel: &str) -> (r: Option<bool>)
        ensures
            r == self.shown_as_dir(rel@),
    {
        match crate::file_tree::row_showing(&self.file_tree.entries, rel) {
            Some(i) => Some(self.file_tree.entries[i].is_dir),
            None => None,
        }
    }

    // ── Clipboard ────────────────────────────────────────────────────────
    pub fn mark_cut(&mut self, paths: Vec<String>)
        ensures
            *final(self) == (FilesPane {
                file_clipboard: FileClipboard { mode: Some(ClipMode::Cut), paths },
                ..*old(self)
            }),
    {
        self.file_clipboard = FileClipboard { mode: Some(ClipMode::Cut), paths };
    }

    pub fn mark_copy(&mut self, paths: Vec<String>)
        ensures
            *final(self) == (FilesPane {
                file_clipboard: FileClipboard { mode: Some(ClipMode::Copy), paths },
                ..*old(self)
            }),
    {
        self.file_clipboard = FileClipboard { mode: Some(ClipMode::Copy), paths };
    }

    pub fn clear_clipboard(&mut self)
        ensures
            final(self).file_clipboard.paths@.len() == 0,
            *final(self) == (FilesPane {
                file_clipboard: FileClipboard {
                    mode: None,
                    paths: final(self).file_clipboard.paths,
                },
                ..*old(self)
            }),
    {
        self.file_clipboard = FileClipboard { mode: None, paths: Vec::new() };
    }

    // ── Editing a name ───────────────────────────────────────────────────
    /// The editor opened in `new` for these parts; it starts with the name
    /// that is to change, the caret behind it.
    pub open spec fn edit_opened(
        e: TreeEdit,
        mode: TreeEditMode,
        parent_dir: String,
        rename_target: Option<String>,
        anchor_idx: Option<usize>,
    ) -> bool {
        &&& e.buffer@ == (match rename_target {
            Some(p) => match base_name(p@) {
                Some(n) => n,
                None => Seq::empty(),
            },
            None => Seq::empty(),
        })
        &&& e == (TreeEdit {
            active: true,
            mode: Some(mode),
            parent_dir: Some(parent_dir),
            rename_target,
            buffer: e.buffer,
            cursor: e.cursor,
            anchor_idx,
            error: None,
        })
        &&& e.cursor == encode_utf8(e.buffer@).len()
    }

    /// The state in which a name is being edited: nothing else is open.
    pub open spec fn editing(self, screen: Screen, sources: Vec<String>, e: TreeEdit) -> Self {
        let s = FilesPane {
            tree_context_menu: self.tree_context_menu.shut(),
            tree_delete_confirm: None,
            ..self.place_left(sources)
        };
        FilesPane { tree_edit: e, ..s.came_back(screen) }
    }

    pub fn begin_tree_edit(
        &mut self,
        mode: TreeEditMode,
        parent_dir: String,
        rename_target: Option<String>,
        anchor_idx: Option<usize>,
        screen: &mut Screen,
        fx: &mut Effects,
    )
        ensures
            if old(self).fs_mutation_load.loading {
                &&& *final(self) == *old(self)
                &&& *final(screen) == *old(screen)
                &&& final(fx)@ == old(fx)@.push(
                    Effect::Say { level: ToastLevel::Warn, notice: Notice::TreeOpInFlight },
                )
            } else {
                &&& *final(screen) == Self::files_in_front(*old(screen))
                &&& final(fx)@ == old(fx)@
                &&& final(self).place_mode.sources@.len() == 0
                &&& Self::edit_opened(
                    final(self).tree_edit,
                    mode,
                    parent_dir,
                    rename_target,
                    anchor_idx,
                )
                &&& *final(self) == old(self).editing(
                    *old(screen),
                    final(self).place_mode.sources,
                    final(self).tree_edit,
                )
            },
    {
        if self.fs_mutation_load.loading {
            blocked(Notice::TreeOpInFlight, fx);
            return;
        }
        self.tree_context_menu.close();
        self.tree_delete_confirm = None;
        self.exit_place_mode();
        self.show_files_tab(screen);
        let buffer = match &rename_target {
            Some(p) => match file_name(p.as_str()) {
                Some(n) => n,
                None => String::new(),
            },
            None => String::new(),
        };
        let cursor: usize = buffer.as_str().as_bytes().len();
        self.tree_edit = TreeEdit {
            active: true,
            mode: Some(mode),
            parent_dir: Some(parent_dir),
            rename_target,
            buffer,
            cursor,
            anchor_idx,
            error: None,
        };
    }

    pub fn cancel_tree_edit(&mut self)
        ensures
            *final(self) == (FilesPane { tree_edit: final(self).tree_edit, ..*old(self) }),
            final(self).tree_edit.is_closed(),
    {
        self.tree_edit.clear();
    }

    /// What becomes of a name that was typed.
    pub open spec fn edit_verdict(self, name: Result<String, TreeEditError>, exists: bool) -> Verdict {
        if self.fs_mutation_load.loading {
            Verdict::Wait
        } else if self.tree_edit.mode is None || self.tree_edit.parent_dir is None {
            Verdict::Close
        } else {
            match name {
                Err(e) => Verdict::Refuse,
                Ok(n) => if self.tree_edit.rename_target matches Some(old) && same_path(
                    old@,
                    self.edit_target(n@),
                ) {
                    Verdict::Close
                } else if exists {
                    Verdict::Refuse
                } else {
                    Verdict::Run
                },
            }
        }
    }

    /// The path that a name stands for.
    pub open spec fn edit_target(self, name: Seq<char>) -> Seq<char> {
        pushed_path(opt_view(self.tree_edit.parent_dir)->0, name)
    }

    /// The operation on the file system for a name that is taken.
    pub open spec fn edit_request(self, name: Seq<char>) -> Seq<Effect<Seq<char>>> {
        let generation = self.fs_mutation_load.begun().generation;
        let root = self.file_tree.root@;
        let path = relative_to(self.edit_target(name), root);
        match self.tree_edit.mode {
            Some(TreeEditMode::NewFile) => seq![Effect::CreateFile { generation, path, name }],
            Some(TreeEditMode::NewFolder) => seq![Effect::CreateFolder { generation, path, name }],
            Some(TreeEditMode::Rename) => match self.tree_edit.rename_target {
                Some(old) => seq![
                    Effect::Rename {
                        generation,
                        old_path: relative_to(old@, root),
                        new_path: path,
                        old_name: match base_name(old@) {
                            Some(n) => n,
                            None => old@,
                        },
                        new_name: name,
                    },
                ],
                None => Seq::empty(),
            },
            None => Seq::empty(),
        }
    }

    /// Takes the name that was typed. `name` is the name, or why it is none,
    /// and `exists` tells whether something is at its path already. While an
    /// operation runs nothing happens; a rename to the same name just closes
    /// the editor. A rename without an old path closes it too.
    pub fn commit_tree_edit(
        &mut self,
        name: Result<String, TreeEditError>,
        exists: bool,
        fx: &mut Effects,
    )
        ensures
            match old(self).edit_verdict(name, exists) {
                Verdict::Wait => *final(self) == *old(self) && final(fx)@ == old(fx)@,
                Verdict::Close => {
                    &&& final(self).tree_edit.is_closed()
                    &&& *final(self) == (FilesPane {
                        tree_edit: final(self).tree_edit,
                        ..*old(self)
                    })
                    &&& final(fx)@ == old(fx)@
                },
                Verdict::Refuse => {
                    &&& *final(self) == (FilesPane {
                        tree_edit: TreeEdit {
                            error: Some(
                                match name {
                                    Err(e) => e,
                                    Ok(n) => TreeEditError::NameAlreadyExists(n),
                                },
                            ),
                            ..old(self).tree_edit
                        },
                        ..*old(self)
                    })
                    &&& final(fx)@ == old(fx)@
                },
                Verdict::Run => old(self).edit_run(*final(self), name->Ok_0@) && final(fx)@ == old(
                    fx,
                )@ + old(self).edit_request(name->Ok_0@),
            },
    {
        if self.fs_mutation_load.loading {
            return;
        }
        let (mode, parent_dir) = match (self.tree_edit.mode, self.tree_edit.parent_dir.clone()) {
            (Some(m), Some(p)) => (m, p),
            _ => {
                self.tree_edit.clear();
                return;
            },
        };
        let name = match name {
            Ok(n) => n,
            Err(e) => {
                self.tree_edit.error = Some(e);
                return;
            },
        };
        let target = push_path(parent_dir.as_str(), name.as_str());
        let same = match &self.tree_edit.rename_target {
            Some(old) => same_paths(old.as_str(), target.as_str()),
            None => false,
        };
        if same {
            self.tree_edit.clear();
            return;
        }
        if exists {
            self.tree_edit.error = Some(TreeEditError::NameAlreadyExists(name));
            return;
        }
        self.run_edit(mode, name, target, fx);
    }

    /// `new` is `self` with the operation for `name` running. The new path is
    /// selected once it is done.
    pub open spec fn edit_run(self, new: Self, name: Seq<char>) -> bool {
        let lost = self.tree_edit.mode == Some(TreeEditMode::Rename)
            && self.tree_edit.rename_target is None;
        &&& opt_view(new.fs_mutation_select_on_done) == (if lost {
            None
        } else {
            stripped(self.edit_target(name), self.file_tree.root@)
        })
        &&& if lost {
            new.tree_edit.is_closed()
        } else {
            new.tree_edit == self.tree_edit
        }
        &&& new == (FilesPane {
            fs_mutation_load: self.fs_mutation_load.begun(),
            fs_mutation_select_on_done: new.fs_mutation_select_on_done,
            tree_edit: new.tree_edit,
            ..self
        })
    }

    fn run_edit(&mut self, mode: TreeEditMode, name: String, target: String, fx: &mut Effects)
        requires
            old(self).tree_edit.mode == Some(mode),
            target@ == old(self).edit_target(name@),
        ensures
            old(self).edit_run(*final(self), name@),
            final(fx)@ == old(fx)@ + old(self).edit_request(name@),
    {
        let ghost shown = name@;
        let generation: u64 = self.fs_mutation_load.begin();
        self.fs_mutation_select_on_done = strip_root(
            target.as_str(),
            self.file_tree.root.as_str(),
        );
        let path = relative(target.as_str(), self.file_tree.root.as_str());
        match mode {
            TreeEditMode::NewFile => fx.emit(Effect::CreateFile { generation, path, name }),
            TreeEditMode::NewFolder => fx.emit(Effect::CreateFolder { generation, path, name }),
            TreeEditMode::Rename => match self.tree_edit.rename_target.clone() {
                Some(old) => {
                    let old_path = relative(old.as_str(), self.file_tree.root.as_str());
                    let old_name = match file_name(old.as_str()) {
                        Some(n) => n,
                        None => old,
                    };
                    fx.emit(
                        Effect::Rename {
                            generation,
                            old_path,
                            new_path: path,
                            old_name,
                            new_name: name,
                        },
                    );
                },
                None => {
                    self.tree_edit.clear();
                    self.fs_mutation_select_on_done = None;
                },
            },
        }
        assert(fx@ =~= old(fx)@ + old(self).edit_request(shown));
    }

    // ── Deleting ─────────────────────────────────────────────────────────
    /// Asks before deleting. `shown` is the name of the file as it may be
    /// printed, where it has one.
    pub fn prompt_tree_delete(&mut self, path: String, is_dir: bool, hard: bool, shown: Option<String>)
        ensures
            *final(self) == (FilesPane {
                tree_context_menu: old(self).tree_context_menu.shut(),
                tree_delete_confirm: Some(
                    TreeDeletePending {
                        path,
                        display_name: match shown {
                            Some(n) => n,
                            None => path,
                        },
                        is_dir,
                        hard,
                    },
                ),
                ..*old(self)
            }),
    {
        let display_name = match shown {
            Some(n) => n,
            None => path.clone(),
        };
        self.tree_context_menu.close();
        self.tree_delete_confirm = Some(TreeDeletePending { path, display_name, is_dir, hard });
    }

    /// The deletion of what was asked about.
    pub open spec fn delete_request(self, d: TreeDeletePending) -> Effect<Seq<char>> {
        let generation = self.fs_mutation_load.begun().generation;
        let path = relative_to(d.path@, self.file_tree.root@);
        if d.hard {
            Effect::HardDelete { generation, path, name: d.display_name@ }
        } else {
            Effect::Trash { generation, path, name: d.display_name@ }
        }
    }

    /// What confirming a deletion does; while an operation runs nothing is
    /// deleted and the question stays open.
    pub open spec fn delete_confirmed(
        self,
        new: Self,
        fx: Seq<Effect<Seq<char>>>,
        fx2: Seq<Effect<Seq<char>>>,
    ) -> bool {
        if self.fs_mutation_load.loading {
            new == self && fx2 == fx.push(
                Effect::Say { level: ToastLevel::Warn, notice: Notice::TreeOpInFlight },
            )
        } else {
            match self.tree_delete_confirm {
                Some(d) => new == (FilesPane {
                    tree_delete_confirm: None,
                    fs_mutation_load: self.fs_mutation_load.begun(),
                    ..self
                }) && fx2 == fx.push(self.delete_request(d)),
                None => new == self && fx2 == fx,
            }
        }
    }

    /// Deletes what was asked about.
    pub fn confirm_tree_delete(&mut self, fx: &mut Effects)
        ensures
            old(self).delete_confirmed(*final(self), old(fx)@, final(fx)@),
    {
        if self.fs_mutation_load.loading {
            blocked(Notice::TreeOpInFlight, fx);
            return;
        }
        if self.tree_delete_confirm.is_none() {
            return;
        }
        if let Some(d) = self.tree_delete_confirm.take() {
            let generation: u64 = self.fs_mutation_load.begin();
            let path = relative(d.path.as_str(), self.file_tree.root.as_str());
            if d.hard {
                fx.emit(Effect::HardDelete { generation, path, name: d.display_name });
            } else {
                fx.emit(Effect::Trash { generation, path, name: d.display_name });
            }
        }
    }

    pub fn cancel_tree_delete(&mut self)
        ensures
            *final(self) == (FilesPane { tree_delete_confirm: None, ..*old(self) }),
    {
        self.tree_delete_confirm = None;
    }

    /// Opens the menu of a row, unless files are being placed or a name is
    /// being typed.
    pub fn open_tree_context_menu(&mut self, target_entry_idx: Option<usize>, anchor: (u16, u16))
        ensures
            *final(self) == (if old(self).place_mode.active || old(self).tree_edit.active {
                *old(self)
            } else {
                FilesPane {
                    tree_context_menu: ContextMenu { active: true, anchor, target_entry_idx },
                    ..*old(self)
                }
            }),
    {
        if self.place_mode.active || self.tree_edit.active {
            return;
        }
        self.tree_context_menu = ContextMenu { active: true, anchor, target_entry_idx };
    }

    // ── Results ──────────────────────────────────────────────────────────
    /// What the end of an operation on the file system changes.
    pub open spec fn fs_mutation_applied(
        self,
        new: Self,
        generation: u64,
        kind: String,
        result: Result<(), String>,
        fx: Seq<Effect<Seq<char>>>,
        fx2: Seq<Effect<Seq<char>>>,
    ) -> bool {
        &&& generation != self.fs_mutation_load.generation ==> new == self
            && fx2 == fx
        &&& generation == self.fs_mutation_load.generation ==> match result {
            Ok(_) => {
                let s = FilesPane {
                    fs_mutation_load: self.fs_mutation_load.done(),
                    fs_mutation_select_on_done: None,
                    tree_edit: new.tree_edit,
                    tree_delete_confirm: None,
                    ..self
                };
                &&& new.tree_edit.is_closed()
                &&& new == s.rebuild_asked()
                &&& fx2 == fx.push(
                    Effect::Say {
                        level: ToastLevel::Info,
                        notice: Notice::FsDone { kind: kind@ },
                    },
                ).push(
                    s.rebuild_request(
                        if self.fs_mutation_select_on_done is Some {
                            opt_view(self.fs_mutation_select_on_done)
                        } else {
                            opt_view(self.selected_path())
                        },
                    ),
                )
            },
            Err(e) => {
                &&& new == (FilesPane {
                    fs_mutation_load: self.fs_mutation_load.done(),
                    fs_mutation_select_on_done: None,
                    tree_delete_confirm: None,
                    ..self
                })
                &&& fx2 == fx.push(
                    Effect::Say {
                        level: ToastLevel::Error,
                        notice: Notice::FsFailed { kind: kind@, why: e@ },
                    },
                )
            },
        }
    }

    /// An operation on the file system came back: its editor and its prompt
    /// are closed, and the tree is rebuilt with the new path selected.
    pub fn apply_fs_mutation(
        &mut self,
        generation: u64,
        kind: String,
        result: Result<(), String>,
        fx: &mut Effects,
    )
        ensures
            old(self).fs_mutation_applied(
                *final(self),
                generation,
                kind,
                result,
                old(fx)@,
                final(fx)@,
            ),
    {
        match result {
            Ok(_) => {
                if self.fs_mutation_load.complete_ok(generation) {
                    fx.emit(
                        Effect::Say { level: ToastLevel::Info, notice: Notice::FsDone { kind } },
                    );
                    self.tree_edit.clear();
                    self.tree_delete_confirm = None;
                    let target = self.fs_mutation_select_on_done.take();
                    if target.is_some() {
                        self.refresh_file_tree_with_target(target, fx);
                    } else {
                        self.refresh_file_tree(fx);
                    }
                }
            },
            Err(e) => {
                if self.fs_mutation_load.complete_err(generation, e.clone()) {
                    fx.emit(
                        Effect::Say {
                            level: ToastLevel::Error,
                            notice: Notice::FsFailed { kind, why: e },
                        },
                    );
                    self.tree_delete_confirm = None;
                    self.fs_mutation_select_on_done = None;
                    self.fs_mutation_load.stale = false;
                    self.fs_mutation_load.error = None;
                }
            },
        }
    }

    /// What the end of a copy changes.
    pub open spec fn file_copy_applied(
        self,
        new: Self,
        generation: u64,
        result: Result<usize, String>,
        fx: Seq<Effect<Seq<char>>>,
        fx2: Seq<Effect<Seq<char>>>,
    ) -> bool {
        &&& generation != self.file_copy_load.generation ==> new == self
            && fx2 == fx
        &&& generation == self.file_copy_load.generation ==> {
            let s = FilesPane {
                file_copy_load: self.file_copy_load.done(),
                ..self.place_left(new.place_mode.sources)
            };
            &&& new.place_mode.sources@.len() == 0
            &&& match result {
                Ok(count) => new == s.rebuild_asked() && fx2 == fx.push(
                    Effect::Say {
                        level: ToastLevel::Info,
                        notice: Notice::FilesCopied { count },
                    },
                ).push(s.rebuild_request(opt_view(self.selected_path()))),
                Err(e) => new == s && fx2 == fx.push(
                    Effect::Say {
                        level: ToastLevel::Error,
                        notice: Notice::CopyFailed { why: e@ },
                    },
                ),
            }
        }
    }

    /// A copy of dropped files came back; place mode ends either way.
    pub fn apply_file_copy(&mut self, generation: u64, result: Result<usize, String>, fx: &mut Effects)
        ensures
            old(self).file_copy_applied(
                *final(self),
                generation,
                result,
                old(fx)@,
                final(fx)@,
            ),
    {
        match result {
            Ok(count) => {
                if self.file_copy_load.complete_ok(generation) {
                    fx.emit(
                        Effect::Say {
                            level: ToastLevel::Info,
                            notice: Notice::FilesCopied { count },
                        },
                    );
                    self.exit_place_mode();
                    self.refresh_file_tree(fx);
                }
            },
            Err(e) => {
                if self.file_copy_load.complete_err(generation, e.clone()) {
                    fx.emit(
                        Effect::Say {
                            level: ToastLevel::Error,
                            notice: Notice::CopyFailed { why: e },
                        },
                    );
                    self.exit_place_mode();
                    self.file_copy_load.stale = false;
                    self.file_copy_load.error = None;
                }
            },
        }
    }
}

/// Files to be copied into a directory.
#[derive(Debug)]
pub struct CopyJob {
    pub generation: u64,
    pub sources: Vec<String>,
    pub dest_dir: String,
}

/// What becomes of a name that was typed.
pub enum Verdict {
    /// An operation still runs.
    Wait,
    Close,
    Refuse,
    Run,
}

// ── Laws ─────────────────────────────────────────────────────────────────

/// While an operation on the file system runs, no second one is started:
/// neither a name, nor a deletion, gets through.
pub proof fn law_one_operation_at_a_time(
    s: FilesPane,
    name: Result<String, TreeEditError>,
    exists: bool,
    new: FilesPane,
    fx: Seq<Effect<Seq<char>>>,
    fx2: Seq<Effect<Seq<char>>>,
)
    requires
        s.fs_mutation_load.loading,
        s.delete_confirmed(new, fx, fx2),
    ensures
        s.edit_verdict(name, exists) is Wait,
        new == s,
        fx2 == fx.push(Effect::Say { level: ToastLevel::Warn, notice: Notice::TreeOpInFlight }),
{
}

/// A file made in a directory of the workspace is what gets selected once it
/// is there.
pub proof fn law_new_file_is_selected(s: FilesPane, new: FilesPane, rel: Seq<char>, name: Seq<char>)
    requires
        s.tree_edit.mode == Some(TreeEditMode::NewFile),
        s.tree_edit.parent_dir matches Some(d) && d@ == pushed_path(s.file_tree.root@, rel),
        rel.len() > 0,
        rel[0] != '/',
        rel.last() != '/',
        name.len() > 0,
        name[0] != '/',
        s.edit_run(new, name),
    ensures
        opt_view(new.fs_mutation_select_on_done) == Some(rel + seq!['/'] + name),
{
    let root = s.file_tree.root@;
    let dir = pushed_path(root, rel);
    assert(dir.last() == rel.last());
    let target = pushed_path(dir, name);
    let below = rel + seq!['/'] + name;
    assert(target =~= pushed_path(root, below));
    crate::paths::law_strip_inverts_push(root, below);
}

} // verus!
