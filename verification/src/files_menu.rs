//! The menu of the file tree, and what a rebuilt tree changes.
use crate::effects::{Effect, Effects, Notice, ToastLevel};
use crate::file_tree::{all_clean, redecorated, toggled, FileTree, TreeEntry};
use crate::files_pane::{
    drop_dir, parent_or_root, row_at, ClipMode, FileClipboard, FilesPane, TreeEdit, TreeEditMode,
};
use crate::files_paste::{copy_paths_to_clipboard, grouped, path_lines, PasteRequest};
use crate::git::FileEntry;
use crate::layout::Screen;
use crate::paths::{
    parent, push_path, pushed_path, same_opt_path, same_opt_paths, same_path,
};
use crate::strmap::StrSet;
use crate::text::{contains_str, occurs_in, opt_view};
use vstd::prelude::*;
use vstd::string::*;

verus! {

#[derive(Debug, Clone, Copy, PartialEq, Eq, Structural)]
pub enum ContextMenuItem {
    Cut,
    Copy,
    Paste,
    Duplicate,
    CopyPath,
    CopyRelativePath,
    NewFile,
    NewFolder,
    Rename,
    Delete,
    RevealInFinder,
}

/// What is left for the host after an item of the menu was chosen, beside its
/// effects.
#[derive(Debug)]
pub enum MenuStep {
    Nothing,
    /// Find the conflicts of a paste.
    Paste(PasteRequest),
    /// The same for each of these, until one runs.
    Duplicate(Vec<PasteRequest>),
    /// Ask before a file is deleted.
    AskDelete { path: String, is_dir: bool },
}

/// The directory that a new file is made in: the row's own, or the one it lies
/// in, below `root`.
pub open spec fn create_dir(entry: Option<TreeEntry>, root: Seq<char>) -> Seq<char> {
    match entry {
        Some(e) => if e.is_dir {
            pushed_path(root, e.path@)
        } else {
            parent_or_root(pushed_path(root, e.path@), root)
        },
        None => root,
    }
}

/// A closed directory that a new file is to be made in.
pub open spec fn opens(tree: FileTree, target: Option<usize>) -> bool {
    row_at(tree, target) matches Some(e) && e.is_dir && !e.is_expanded
}

fn from_root(tree: &FileTree, i: usize) -> (r: String)
    requires
        i < tree.entries@.len(),
    ensures
        r@ == pushed_path(tree.root@, tree.entries@[i as int].path@),
{
    push_path(tree.root.as_str(), tree.entries[i].path.as_str())
}

fn parent_below(p: &str, root: &str) -> (r: String)
    ensures
        r@ == parent_or_root(p@, root@),
{
    match parent(p) {
        Some(q) => q,
        None => root.to_owned(),
    }
}

impl FilesPane {
    /// `self` with the directory of a new file open; `expanded` are then the
    /// open directories.
    pub open spec fn anchored(self, target: Option<usize>, expanded: StrSet) -> Self {
        if opens(self.file_tree, target) {
            FilesPane {
                file_tree: FileTree { expanded, ..self.file_tree },
                ..self
            }.rebuild_asked()
        } else {
            self
        }
    }

    /// `expanded` are the open directories once that of a new file is open.
    pub open spec fn opened_for(self, target: Option<usize>, expanded: StrSet) -> bool {
        if opens(self.file_tree, target) {
            expanded.wf() && all_clean(expanded@) && expanded@ == toggled(
                self.file_tree.expanded@,
                self.file_tree.entries@[target->0 as int].path@,
            )
        } else {
            expanded == self.file_tree.expanded
        }
    }

    pub open spec fn anchor_request(self, target: Option<usize>) -> Seq<Effect<Seq<char>>> {
        if opens(self.file_tree, target) {
            seq![self.rebuild_request(opt_view(self.selected_path()))]
        } else {
            Seq::empty()
        }
    }

    /// Where a new file goes, and the row that its editor stands at. A closed
    /// directory is opened for it.
    pub fn resolve_create_anchor(&mut self, target: Option<usize>, fx: &mut Effects) -> (r: (
        String,
        Option<usize>,
    ))
        requires
            old(self).wf(),
        ensures
            old(self).opened_for(target, final(self).file_tree.expanded),
            *final(self) == old(self).anchored(target, final(self).file_tree.expanded),
            final(fx)@ == old(fx)@ + old(self).anchor_request(target),
            r.0@ == create_dir(row_at(old(self).file_tree, target), old(self).file_tree.root@),
            r.1 == (if row_at(old(self).file_tree, target) is Some {
                target
            } else {
                None
            }),
    {
        let i: usize = match target {
            Some(i) => i,
            None => {
                assert(fx@ =~= old(fx)@ + old(self).anchor_request(target));
                return (self.file_tree.root.clone(), None);
            },
        };
        if i >= self.file_tree.entries.len() {
            assert(fx@ =~= old(fx)@ + old(self).anchor_request(target));
            return (self.file_tree.root.clone(), None);
        }
        let abs = from_root(&self.file_tree, i);
        if self.file_tree.entries[i].is_dir {
            if !self.file_tree.entries[i].is_expanded {
                self.toggle_row(i, fx);
            }
            assert(fx@ =~= old(fx)@ + old(self).anchor_request(target));
            (abs, Some(i))
        } else {
            assert(fx@ =~= old(fx)@ + old(self).anchor_request(target));
            (parent_below(abs.as_str(), self.file_tree.root.as_str()), Some(i))
        }
    }

    /// The editor for a new file or folder is open in `new`, or refused while
    /// an operation runs.
    pub open spec fn creating(
        self,
        new: Self,
        mode: TreeEditMode,
        target: Option<usize>,
        screen: Screen,
        screen2: Screen,
        sent: Seq<Effect<Seq<char>>>,
    ) -> bool {
        let s = self.anchored(target, new.file_tree.expanded);
        let entry = row_at(self.file_tree, target);
        &&& self.opened_for(target, new.file_tree.expanded)
        &&& if self.fs_mutation_load.loading {
            &&& new == s
            &&& screen2 == screen
            &&& sent == self.anchor_request(target).push(
                Effect::Say { level: ToastLevel::Warn, notice: Notice::TreeOpInFlight },
            )
        } else {
            &&& screen2 == Self::files_in_front(screen)
            &&& sent == self.anchor_request(target)
            &&& new.place_mode.sources@.len() == 0
            &&& new.tree_edit.parent_dir matches Some(p) && p@ == create_dir(
                entry,
                self.file_tree.root@,
            ) && Self::edit_opened(
                new.tree_edit,
                mode,
                p,
                None,
                if entry is Some {
                    target
                } else {
                    None
                },
            )
            &&& new == s.editing(screen, new.place_mode.sources, new.tree_edit)
        }
    }

    /// Starts a new file or folder at a row.
    pub fn begin_create(
        &mut self,
        mode: TreeEditMode,
        target: Option<usize>,
        screen: &mut Screen,
        fx: &mut Effects,
    )
        requires
            old(self).wf(),
        ensures
            old(fx)@.is_prefix_of(final(fx)@),
            old(self).creating(
                *final(self),
                mode,
                target,
                *old(screen),
                *final(screen),
                final(fx)@.skip(old(fx)@.len() as int),
            ),
    {
        let (parent_dir, anchor) = self.resolve_create_anchor(target, fx);
        self.begin_tree_edit(mode, parent_dir, None, anchor, screen, fx);
        proof {
            let sent = fx@.skip(old(fx)@.len() as int);
            let asked = old(self).anchor_request(target);
            if old(self).fs_mutation_load.loading {
                assert(sent =~= asked.push(
                    Effect::Say { level: ToastLevel::Warn, notice: Notice::TreeOpInFlight },
                ));
            } else {
                assert(sent =~= asked);
            }
        }
    }

    /// The row that the toolbar makes new files at: the selected one.
    pub fn toolbar_create_target(&self) -> (r: Option<usize>)
        ensures
            r == (if self.selected() is Some {
                Some(self.file_tree.selected)
            } else {
                None
            }),
    {
        if self.file_tree.selected < self.file_tree.entries.len() {
            Some(self.file_tree.selected)
        } else {
            None
        }
    }

    /// The editor for the name of a row is open in `new`.
    pub open spec fn renaming(
        self,
        new: Self,
        target: Option<usize>,
        screen: Screen,
        screen2: Screen,
        sent: Seq<Effect<Seq<char>>>,
    ) -> bool {
        let none = Seq::<Effect<Seq<char>>>::empty();
        match row_at(self.file_tree, target) {
            None => new == self && screen2 == screen && sent == none,
            Some(e) => if self.fs_mutation_load.loading {
                &&& new == self
                &&& screen2 == screen
                &&& sent == none.push(
                    Effect::Say { level: ToastLevel::Warn, notice: Notice::TreeOpInFlight },
                )
            } else {
                let abs = pushed_path(self.file_tree.root@, e.path@);
                &&& screen2 == Self::files_in_front(screen)
                &&& sent == none
                &&& new.place_mode.sources@.len() == 0
                &&& new.tree_edit.parent_dir matches Some(p) && p@ == parent_or_root(
                    abs,
                    self.file_tree.root@,
                ) && opt_view(new.tree_edit.rename_target) == Some(abs) && Self::edit_opened(
                    new.tree_edit,
                    TreeEditMode::Rename,
                    p,
                    new.tree_edit.rename_target,
                    target,
                )
                &&& new == self.editing(screen, new.place_mode.sources, new.tree_edit)
            },
        }
    }

    pub fn begin_rename(&mut self, target: Option<usize>, screen: &mut Screen, fx: &mut Effects)
        ensures
            old(fx)@.is_prefix_of(final(fx)@),
            old(self).renaming(
                *final(self),
                target,
                *old(screen),
                *final(screen),
                final(fx)@.skip(old(fx)@.len() as int),
            ),
    {
        if let Some(i) = target {
            if i < self.file_tree.entries.len() {
                let abs = from_root(&self.file_tree, i);
                let dir = parent_below(abs.as_str(), self.file_tree.root.as_str());
                self.begin_tree_edit(
                    TreeEditMode::Rename,
                    dir,
                    Some(abs),
                    Some(i),
                    screen,
                    fx,
                );
                proof {
                    let sent = fx@.skip(old(fx)@.len() as int);
                    let none = Seq::<Effect<Seq<char>>>::empty();
                    if old(self).fs_mutation_load.loading {
                        assert(sent =~= none.push(
                            Effect::Say { level: ToastLevel::Warn, notice: Notice::TreeOpInFlight },
                        ));
                    } else {
                        assert(sent =~= none);
                    }
                }
                return;
            }
        }
        assert(fx@.skip(old(fx)@.len() as int) =~= Seq::<Effect<Seq<char>>>::empty());
    }

    /// The file that is shown in the file manager: the row, else the root.
    pub open spec fn revealed(self, target: Option<usize>) -> Seq<char> {
        match row_at(self.file_tree, target) {
            Some(e) => pushed_path(self.file_tree.root@, e.path@),
            None => self.file_tree.root@,
        }
    }

    fn request_reveal(&self, target: Option<usize>, remote: bool, fx: &mut Effects)
        ensures
            final(fx)@ == old(fx)@.push(
                if remote {
                    Effect::Toast {
                        level: ToastLevel::Warn,
                        text: "Reveal in Finder is not supported on remote workdirs"@,
                    }
                } else {
                    Effect::RevealInFinder { path: self.revealed(target) }
                },
            ),
    {
        if remote {
            fx.emit(
                Effect::Toast {
                    level: ToastLevel::Warn,
                    text: "Reveal in Finder is not supported on remote workdirs".to_owned(),
                },
            );
            return;
        }
        let path = match target {
            Some(i) => if i < self.file_tree.entries.len() {
                from_root(&self.file_tree, i)
            } else {
                self.file_tree.root.clone()
            },
            None => self.file_tree.root.clone(),
        };
        fx.emit(Effect::RevealInFinder { path });
    }

    pub open spec fn menu_shut(self) -> Self {
        FilesPane { tree_context_menu: self.tree_context_menu.shut(), ..self }
    }

    /// What an item of the menu on `target` does, from the state `self` with
    /// the menu closed.
    pub open spec fn item_taken(
        self,
        new: Self,
        item: ContextMenuItem,
        target: Option<usize>,
        remote: bool,
        screen: Screen,
        screen2: Screen,
        sent: Seq<Effect<Seq<char>>>,
        out: MenuStep,
    ) -> bool {
        let none = Seq::<Effect<Seq<char>>>::empty();
        let paths = self.menu_paths(target);
        match item {
            ContextMenuItem::Cut | ContextMenuItem::Copy => {
                &&& new.file_clipboard.paths@ == paths
                &&& new == (FilesPane {
                    file_clipboard: FileClipboard {
                        mode: Some(
                            if item == ContextMenuItem::Cut {
                                ClipMode::Cut
                            } else {
                                ClipMode::Copy
                            },
                        ),
                        paths: new.file_clipboard.paths,
                    },
                    ..self
                })
                &&& screen2 == screen
                &&& sent == none
                &&& out is Nothing
            },
            ContextMenuItem::Paste => {
                &&& new == self
                &&& screen2 == screen
                &&& self.menu_pasted(target, sent, out)
            },
            ContextMenuItem::Duplicate => {
                &&& new == self
                &&& screen2 == screen
                &&& self.menu_duplicated(target, sent, out)
            },
            ContextMenuItem::CopyPath | ContextMenuItem::CopyRelativePath => {
                &&& new == self
                &&& screen2 == screen
                &&& out is Nothing
                &&& sent == (if paths.len() == 0 {
                    none
                } else {
                    seq![
                        Effect::CopyText {
                            text: path_lines(
                                paths,
                                self.file_tree.root@,
                                item == ContextMenuItem::CopyRelativePath,
                            ),
                            count: paths.len() as usize,
                            relative: item == ContextMenuItem::CopyRelativePath,
                        },
                    ]
                })
            },
            ContextMenuItem::NewFile => self.creating(
                new,
                TreeEditMode::NewFile,
                target,
                screen,
                screen2,
                sent,
            ) && out is Nothing,
            ContextMenuItem::NewFolder => self.creating(
                new,
                TreeEditMode::NewFolder,
                target,
                screen,
                screen2,
                sent,
            ) && out is Nothing,
            ContextMenuItem::Rename => self.renaming(new, target, screen, screen2, sent)
                && out is Nothing,
            ContextMenuItem::Delete => {
                &&& new == self
                &&& screen2 == screen
                &&& sent == none
                &&& match row_at(self.file_tree, target) {
                    Some(e) => out matches MenuStep::AskDelete { path, is_dir } && path@
                        == pushed_path(self.file_tree.root@, e.path@) && is_dir == e.is_dir,
                    None => out is Nothing,
                }
            },
            ContextMenuItem::RevealInFinder => {
                &&& new == self
                &&& screen2 == screen
                &&& out is Nothing
                &&& sent == seq![
                    if remote {
                        Effect::Toast {
                            level: ToastLevel::Warn,
                            text: "Reveal in Finder is not supported on remote workdirs"@,
                        }
                    } else {
                        Effect::RevealInFinder { path: self.revealed(target) }
                    },
                ]
            },
        }
    }

    /// A paste from the menu goes into the row, or beside it. With nothing on
    /// the clipboard it does nothing.
    pub open spec fn menu_pasted(
        self,
        target: Option<usize>,
        sent: Seq<Effect<Seq<char>>>,
        out: MenuStep,
    ) -> bool {
        let none = Seq::<Effect<Seq<char>>>::empty();
        if self.file_clipboard.paths@.len() == 0 {
            out is Nothing && sent == none
        } else if self.fs_mutation_load.loading {
            out is Nothing && sent == none.push(
                Effect::Say { level: ToastLevel::Warn, notice: Notice::TreeOpInFlight },
            )
        } else {
            sent == none && match self.file_clipboard.mode {
                Some(op) => out matches MenuStep::Paste(q) && q.op == op && q.dest@ == drop_dir(
                    row_at(self.file_tree, target),
                ) && q.sources@ == self.file_clipboard.paths@,
                None => out is Nothing,
            }
        }
    }

    fn paste_from_menu(&self, target: Option<usize>, fx: &mut Effects) -> (r: MenuStep)
        ensures
            old(fx)@.is_prefix_of(final(fx)@),
            self.menu_pasted(target, final(fx)@.skip(old(fx)@.len() as int), r),
    {
        let ghost none = Seq::<Effect<Seq<char>>>::empty();
        if self.file_clipboard.paths.len() == 0 {
            assert(fx@.skip(old(fx)@.len() as int) =~= none);
            return MenuStep::Nothing;
        }
        let dest = match target {
            Some(i) => if i < self.file_tree.entries.len() {
                if self.file_tree.entries[i].is_dir {
                    self.file_tree.entries[i].path.clone()
                } else {
                    proof {
                        reveal_strlit("");
                        assert(""@ =~= Seq::<char>::empty());
                    }
                    parent_below(self.file_tree.entries[i].path.as_str(), "")
                }
            } else {
                String::new()
            },
            None => String::new(),
        };
        assert(dest@ == drop_dir(row_at(self.file_tree, target)));
        let q = self.paste_into(dest, fx);
        proof {
            let sent = fx@.skip(old(fx)@.len() as int);
            if self.fs_mutation_load.loading {
                assert(sent =~= none.push(
                    Effect::Say { level: ToastLevel::Warn, notice: Notice::TreeOpInFlight },
                ));
            } else {
                assert(sent =~= none);
            }
        }
        match q {
            Some(q) => MenuStep::Paste(q),
            None => MenuStep::Nothing,
        }
    }

    pub open spec fn menu_duplicated(
        self,
        target: Option<usize>,
        sent: Seq<Effect<Seq<char>>>,
        out: MenuStep,
    ) -> bool {
        let none = Seq::<Effect<Seq<char>>>::empty();
        let paths = self.menu_paths(target);
        &&& out matches MenuStep::Duplicate(v) && (if paths.len() == 0
            || self.fs_mutation_load.loading {
            v@.len() == 0
        } else {
            grouped(paths, v@)
        })
        &&& sent == (if paths.len() > 0 && self.fs_mutation_load.loading {
            none.push(Effect::Say { level: ToastLevel::Warn, notice: Notice::TreeOpInFlight })
        } else {
            none
        })
    }

    fn duplicate_from_menu(&self, target: Option<usize>, fx: &mut Effects) -> (r: MenuStep)
        ensures
            old(fx)@.is_prefix_of(final(fx)@),
            self.menu_duplicated(target, final(fx)@.skip(old(fx)@.len() as int), r),
    {
        let paths = self.collect_menu_paths(target);
        let v = self.duplicate_paths(paths, fx);
        proof {
            let none = Seq::<Effect<Seq<char>>>::empty();
            let sent = fx@.skip(old(fx)@.len() as int);
            if paths@.len() > 0 && self.fs_mutation_load.loading {
                assert(sent =~= none.push(
                    Effect::Say { level: ToastLevel::Warn, notice: Notice::TreeOpInFlight },
                ));
            } else {
                assert(sent =~= none);
            }
        }
        MenuStep::Duplicate(v)
    }

    fn ask_delete(&self, target: Option<usize>) -> (r: MenuStep)
        ensures
            match row_at(self.file_tree, target) {
                Some(e) => r matches MenuStep::AskDelete { path, is_dir } && path@ == pushed_path(
                    self.file_tree.root@,
                    e.path@,
                ) && is_dir == e.is_dir,
                None => r is Nothing,
            },
    {
        match target {
            Some(i) => if i < self.file_tree.entries.len() {
                MenuStep::AskDelete {
                    path: from_root(&self.file_tree, i),
                    is_dir: self.file_tree.entries[i].is_dir,
                }
            } else {
                MenuStep::Nothing
            },
            None => MenuStep::Nothing,
        }
    }

    fn take_item(
        &mut self,
        item: ContextMenuItem,
        target: Option<usize>,
        remote: bool,
        screen: &mut Screen,
        fx: &mut Effects,
    ) -> (r: MenuStep)
        requires
            old(self).wf(),
        ensures
            old(fx)@.is_prefix_of(final(fx)@),
            old(self).item_taken(
                *final(self),
                item,
                target,
                remote,
                *old(screen),
                *final(screen),
                final(fx)@.skip(old(fx)@.len() as int),
                r,
            ),
    {
        let ghost none = Seq::<Effect<Seq<char>>>::empty();
        assert(fx@.skip(fx@.len() as int) =~= none);
        match item {
            ContextMenuItem::Cut => {
                let paths = self.collect_menu_paths(target);
                self.mark_cut(paths);
                MenuStep::Nothing
            },
            ContextMenuItem::Copy => {
                let paths = self.collect_menu_paths(target);
                self.mark_copy(paths);
                MenuStep::Nothing
            },
            ContextMenuItem::Paste => self.paste_from_menu(target, fx),
            ContextMenuItem::Duplicate => self.duplicate_from_menu(target, fx),
            ContextMenuItem::CopyPath | ContextMenuItem::CopyRelativePath => {
                let paths = self.collect_menu_paths(target);
                let relative = item == ContextMenuItem::CopyRelativePath;
                copy_paths_to_clipboard(&paths, self.file_tree.root.as_str(), relative, fx);
                proof {
                    let sent = fx@.skip(old(fx)@.len() as int);
                    if paths@.len() == 0 {
                        assert(sent =~= none);
                    } else {
                        assert(sent =~= seq![fx@.last()]);
                    }
                }
                MenuStep::Nothing
            },
            ContextMenuItem::NewFile => {
                self.begin_create(TreeEditMode::NewFile, target, screen, fx);
                MenuStep::Nothing
            },
            ContextMenuItem::NewFolder => {
                self.begin_create(TreeEditMode::NewFolder, target, screen, fx);
                MenuStep::Nothing
            },
            ContextMenuItem::Rename => {
                self.begin_rename(target, screen, fx);
                MenuStep::Nothing
            },
            ContextMenuItem::Delete => self.ask_delete(target),
            ContextMenuItem::RevealInFinder => {
                self.request_reveal(target, remote, fx);
                assert(fx@.skip(old(fx)@.len() as int) =~= seq![fx@.last()]);
                MenuStep::Nothing
            },
        }
    }

    /// What an item of the menu does; one that is not enabled only closes it.
    pub open spec fn item_dispatched(
        self,
        new: Self,
        item: ContextMenuItem,
        enabled: bool,
        remote: bool,
        screen: Screen,
        screen2: Screen,
        fx: Seq<Effect<Seq<char>>>,
        fx2: Seq<Effect<Seq<char>>>,
        r: MenuStep,
    ) -> bool {
        &&& fx.is_prefix_of(fx2)
        &&& if enabled {
            self.menu_shut().item_taken(
                new,
                item,
                self.tree_context_menu.target_entry_idx,
                remote,
                screen,
                screen2,
                fx2.skip(fx.len() as int),
                r,
            )
        } else {
            &&& new == self.menu_shut()
            &&& screen2 == screen
            &&& fx2 == fx
            &&& r is Nothing
        }
    }

    /// Closes the menu and does what the item says on the row it was opened
    /// on. An item that is not enabled only closes it.
    pub fn dispatch_context_menu_item(
        &mut self,
        item: ContextMenuItem,
        enabled: bool,
        remote: bool,
        screen: &mut Screen,
        fx: &mut Effects,
    ) -> (r: MenuStep)
        requires
            old(self).wf(),
        ensures
            old(self).item_dispatched(
                *final(self),
                item,
                enabled,
                remote,
                *old(screen),
                *final(screen),
                old(fx)@,
                final(fx)@,
                r,
            ),
    {
        let target = self.tree_context_menu.target_entry_idx;
        self.tree_context_menu.close();
        if !enabled {
            return MenuStep::Nothing;
        }
        self.take_item(item, target, remote, screen, fx)
    }

    // ── A rebuilt tree ───────────────────────────────────────────────────
    /// The editor stands at a row that is not there any more: for a rename
    /// the row shows another file, else there is no such row.
    pub open spec fn edit_is_stale(self) -> bool {
        match self.tree_edit.anchor_idx {
            Some(i) => self.tree_edit.active && (if self.tree_edit.mode == Some(
                TreeEditMode::Rename,
            ) {
                !(match (row_at(self.file_tree, Some(i)), self.tree_edit.rename_target) {
                    (Some(e), Some(old)) => same_path(
                        pushed_path(self.file_tree.root@, e.path@),
                        old@,
                    ),
                    (None, None) => true,
                    _ => false,
                })
            } else {
                i >= self.file_tree.entries@.len()
            }),
            None => false,
        }
    }

    fn edit_has_lost_its_row(&self) -> (r: bool)
        ensures
            r == self.edit_is_stale(),
    {
        if !self.tree_edit.active {
            return false;
        }
        let i: usize = match self.tree_edit.anchor_idx {
            Some(i) => i,
            None => {
                return false;
            },
        };
        let n: usize = self.file_tree.entries.len();
        match self.tree_edit.mode {
            Some(TreeEditMode::Rename) => {
                let current = if i < n {
                    Some(from_root(&self.file_tree, i))
                } else {
                    None
                };
                !same_opt_paths(&current, &self.tree_edit.rename_target)
            },
            _ => i >= n,
        }
    }

    /// The editor after the tree changed under it: a rename is given up, a new
    /// file moves to the top.
    pub open spec fn edit_settled(self, new: TreeEdit) -> bool {
        if !self.edit_is_stale() {
            new == self.tree_edit
        } else if self.tree_edit.mode == Some(TreeEditMode::Rename) {
            new.is_closed()
        } else {
            new == (TreeEdit {
                anchor_idx: None,
                parent_dir: Some(self.file_tree.root),
                ..self.tree_edit
            })
        }
    }

    fn settle_edit(&mut self)
        ensures
            old(self).edit_settled(final(self).tree_edit),
            *final(self) == (FilesPane { tree_edit: final(self).tree_edit, ..*old(self) }),
    {
        if self.edit_has_lost_its_row() {
            match self.tree_edit.mode {
                Some(TreeEditMode::Rename) => {
                    self.tree_edit.clear();
                },
                _ => {
                    self.tree_edit.anchor_idx = None;
                    self.tree_edit.parent_dir = Some(self.file_tree.root.clone());
                },
            }
        }
    }

    /// The tree after a rebuild was accepted, before its decorations.
    pub open spec fn rebuilt(self, entries: Vec<TreeEntry>, selected_idx: usize) -> Self {
        FilesPane {
            file_tree_load: self.file_tree_load.done(),
            file_tree: FileTree {
                entries,
                selected: crate::file_tree::clamped(selected_idx, entries@.len()),
                ..self.file_tree
            },
            ..self
        }
    }

    /// What a rebuilt tree changes; `r` says that another path is selected.
    pub open spec fn tree_applied(
        self,
        new: Self,
        generation: u64,
        result: Result<(Vec<TreeEntry>, usize), String>,
        staged: Vec<FileEntry>,
        unstaged: Vec<FileEntry>,
        r: bool,
    ) -> bool {
        &&& generation != self.file_tree_load.generation ==> new == self && !r
        &&& generation == self.file_tree_load.generation ==> match result {
            Err(e) => new == (FilesPane {
                file_tree_load: self.file_tree_load.failed(e),
                ..self
            }) && !r,
            Ok(p) => {
                let s = self.rebuilt(p.0, p.1);
                let t = FilesPane { file_tree: new.file_tree, ..s };
                &&& redecorated(s.file_tree, new.file_tree, staged@, unstaged@)
                &&& t.edit_settled(new.tree_edit)
                &&& new == (FilesPane { tree_edit: new.tree_edit, ..t })
                &&& r == !same_opt_path(self.selected_path(), new.selected_path())
            },
        }
    }

    /// Takes a rebuilt tree, if it is the latest one asked for. Says whether
    /// another path is selected than before.
    pub fn apply_file_tree(
        &mut self,
        generation: u64,
        result: Result<(Vec<TreeEntry>, usize), String>,
        staged: &Vec<FileEntry>,
        unstaged: &Vec<FileEntry>,
    ) -> (r: bool)
        requires
            old(self).wf(),
        ensures
            final(self).wf(),
            old(self).tree_applied(
                *final(self),
                generation,
                result,
                *staged,
                *unstaged,
                r,
            ),
    {
        match result {
            Err(e) => {
                let _ = self.file_tree_load.complete_err(generation, e);
                false
            },
            Ok((entries, selected_idx)) => {
                if !self.file_tree_load.complete_ok(generation) {
                    return false;
                }
                let before = self.file_tree.selected_path();
                self.file_tree.replace_entries(entries, selected_idx);
                self.file_tree.refresh_git_statuses(staged.as_slice(), unstaged.as_slice());
                self.settle_edit();
                let after = self.file_tree.selected_path();
                !same_opt_paths(&before, &after)
            },
        }
    }
}

/// What is said after the file manager could not show a file.
pub fn reveal_failed(msg: String, fx: &mut Effects)
    ensures
        final(fx)@ == old(fx)@.push(
            if occurs_in(msg@, "not supported"@) {
                Effect::Say { level: ToastLevel::Error, notice: Notice::RevealUnsupported }
            } else {
                Effect::Toast { level: ToastLevel::Error, text: msg@ }
            },
        ),
{
    if contains_str(msg.as_str(), "not supported") {
        fx.emit(Effect::Say { level: ToastLevel::Error, notice: Notice::RevealUnsupported });
    } else {
        fx.emit(Effect::Toast { level: ToastLevel::Error, text: msg });
    }
}

// ── Laws ─────────────────────────────────────────────────────────────────

/// Choosing an item always closes the menu, whatever the item does.
pub proof fn law_menu_closes(
    s: FilesPane,
    new: FilesPane,
    item: ContextMenuItem,
    target: Option<usize>,
    remote: bool,
    screen: Screen,
    screen2: Screen,
    sent: Seq<Effect<Seq<char>>>,
    out: MenuStep,
)
    requires
        s.menu_shut().item_taken(new, item, target, remote, screen, screen2, sent, out),
    ensures
        !new.tree_context_menu.active,
        new.tree_context_menu.target_entry_idx is None,
{
}

/// Once a rebuilt tree was taken, an editor that is still open stands at a row
/// that is there, and a rename at the row of its file.
pub proof fn law_editor_stands_at_a_row(s: FilesPane, e: TreeEdit)
    requires
        s.tree_edit.active,
        s.edit_settled(e),
        e.active,
        e.mode is Some,
    ensures
        e.anchor_idx matches Some(i) ==> (e.mode == Some(TreeEditMode::Rename)
            && e.rename_target is None) || i < s.file_tree.entries@.len(),
        e.mode == Some(TreeEditMode::Rename) && e.anchor_idx is Some && e.rename_target is Some
            ==> (row_at(s.file_tree, e.anchor_idx) matches Some(row) && same_path(
            pushed_path(s.file_tree.root@, row.path@),
            e.rename_target->0@,
        )),
{
}

} // verus!
