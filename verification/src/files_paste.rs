//! Pasting, duplicating and dropping in the file tree.
use crate::effects::{Effect, Effects, Notice, ToastLevel};
use crate::files_pane::{parent_or_root, row_at, ClipMode, FilesPane};
use crate::paths::{
    ascending, base_name, clean, cleaned, file_name, insert_path, parent, push_path, pushed_path,
};
use crate::text::{copy_strings, opt_view, same_str, views};
use vstd::prelude::*;
use vstd::string::*;

verus! {

/// What is to be pasted, and where, before its conflicts are known.
#[derive(Debug)]
pub struct PasteRequest {
    pub op: ClipMode,
    pub dest: String,
    pub sources: Vec<String>,
}

/// What to do about a source whose name is taken at the destination.
#[derive(Debug)]
pub enum Resolution {
    Replace,
    Skip,
    KeepBoth(String),
    Cancel,
}

/// A source with its resolution, and whether it is a directory on disk.
#[derive(Debug)]
pub struct Decision {
    pub source: String,
    pub resolution: Resolution,
    pub is_dir_on_disk: bool,
}

#[derive(Debug)]
pub struct PasteItem {
    pub source: String,
    pub is_dir: bool,
    pub resolution: Resolution,
}

/// A paste for the host to carry out.
#[derive(Debug)]
pub struct PasteJob {
    pub generation: u64,
    pub op: ClipMode,
    pub dest: String,
    pub items: Vec<PasteItem>,
}

/// How a paste goes on once its conflicts are known.
#[derive(Debug)]
pub enum PasteStep {
    Nothing,
    Run(PasteJob),
    /// Ask about the conflicts first; these sources need no question.
    Ask { op: ClipMode, dest: String, settled: Vec<Decision> },
}

pub open spec fn is_acted(r: Resolution) -> bool {
    !(r is Skip) && !(r is Cancel)
}

/// The decisions that lead to an action.
pub open spec fn acted(ds: Seq<Decision>) -> Seq<Decision>
    decreases ds.len(),
{
    if ds.len() == 0 {
        Seq::empty()
    } else {
        let rest = acted(ds.drop_last());
        if is_acted(ds.last().resolution) {
            rest.push(ds.last())
        } else {
            rest
        }
    }
}

fn keep_acted(ds: Vec<Decision>) -> (r: Vec<Decision>)
    ensures
        r@ == acted(ds@),
{
    let ghost all = ds@;
    let mut out: Vec<Decision> = Vec::new();
    assert(out@ =~= acted(all.take(0)));
    for d in it: ds
        invariant
            it.seq() == all,
            out@ == acted(all.take(it.index() as int)),
    {
        proof {
            let k = it.index() as int;
            assert(all.take(k + 1).drop_last() =~= all.take(k));
            assert(all.take(k + 1).last() == d);
        }
        let wanted = match &d.resolution {
            Resolution::Skip => false,
            Resolution::Cancel => false,
            _ => true,
        };
        if wanted {
            out.push(d);
        }
    }
    assert(all.take(all.len() as int) =~= all);
    out
}

/// The name under which a source lands.
pub open spec fn landing_name(d: Decision) -> Seq<char> {
    match d.resolution {
        Resolution::KeepBoth(n) => n@,
        _ => match base_name(d.source@) {
            Some(n) => n,
            None => Seq::empty(),
        },
    }
}

fn find_landing_name(d: &Decision) -> (r: String)
    ensures
        r@ == landing_name(*d),
{
    match &d.resolution {
        Resolution::KeepBoth(n) => n.clone(),
        _ => match file_name(d.source.as_str()) {
            Some(n) => n,
            None => String::new(),
        },
    }
}

// ── Grouping by directory ────────────────────────────────────────────────

/// The directory of a source, in its clean spelling; the top is the empty
/// path.
pub open spec fn dir_of(p: Seq<char>) -> Seq<char> {
    parent_or_root(cleaned(p), Seq::empty())
}

pub fn find_dir(p: &str) -> (r: String)
    ensures
        r@ == dir_of(p@),
{
    match parent(clean(p).as_str()) {
        Some(d) => d,
        None => String::new(),
    }
}

/// The sources in one directory, in their order.
pub open spec fn lying_in(sources: Seq<String>, dir: Seq<char>) -> Seq<String>
    decreases sources.len(),
{
    if sources.len() == 0 {
        Seq::empty()
    } else {
        let rest = lying_in(sources.drop_last(), dir);
        if dir_of(sources.last()@) == dir {
            rest.push(sources.last())
        } else {
            rest
        }
    }
}

fn collect_in(sources: &Vec<String>, dir: &str) -> (r: Vec<String>)
    ensures
        r@ == lying_in(sources@, dir@),
{
    let mut out: Vec<String> = Vec::new();
    let mut i: usize = 0;
    assert(out@ =~= lying_in(sources@.take(0), dir@));
    while i < sources.len()
        invariant
            i <= sources@.len(),
            out@ == lying_in(sources@.take(i as int), dir@),
        decreases sources@.len() - i,
    {
        assert(sources@.take(i + 1).drop_last() =~= sources@.take(i as int));
        let d = find_dir(sources[i].as_str());
        if same_str(d.as_str(), dir) {
            out.push(sources[i].clone());
        }
        i = i + 1;
    }
    assert(sources@.take(sources@.len() as int) =~= sources@);
    out
}

/// `dirs` are the directories of the sources.
pub open spec fn are_dirs(dirs: Seq<Seq<char>>, sources: Seq<String>) -> bool {
    &&& forall|k: int|
        0 <= k < sources.len() ==> dirs.contains(dir_of((#[trigger] sources[k])@))
    &&& forall|i: int| 0 <= i < dirs.len() ==> #[trigger] is_dir_of_some(dirs[i], sources)
}

pub open spec fn is_dir_of_some(dir: Seq<char>, sources: Seq<String>) -> bool {
    exists|k: int| 0 <= k < sources.len() && dir_of((#[trigger] sources[k])@) == dir
}

/// The directories of the sources, in the order of paths, each once.
fn directories(sources: &Vec<String>) -> (r: Vec<String>)
    ensures
        ascending(views(r@)),
        are_dirs(views(r@), sources@),
{
    let mut dirs: Vec<String> = Vec::new();
    let mut k: usize = 0;
    while k < sources.len()
        invariant
            k <= sources@.len(),
            ascending(views(dirs@)),
            are_dirs(views(dirs@), sources@.take(k as int)),
        decreases sources@.len() - k,
    {
        let ghost was = views(dirs@);
        let ghost now = sources@.take(k + 1);
        let d = find_dir(sources[k].as_str());
        insert_path(&mut dirs, d);
        proof {
            assert forall|j: int| 0 <= j < now.len() implies views(dirs@).contains(
                dir_of((#[trigger] now[j])@),
            ) by {
                if j < k {
                    assert(sources@.take(k as int)[j] == now[j]);
                }
            }
            assert forall|i: int| 0 <= i < views(dirs@).len() implies #[trigger] is_dir_of_some(
                views(dirs@)[i],
                now,
            ) by {
                let x = views(dirs@)[i];
                assert(views(dirs@).contains(x));
                if x == d@ {
                    assert(dir_of(now[k as int]@) == x);
                } else {
                    assert(was.contains(x));
                    let a = choose|a: int| 0 <= a < was.len() && was[a] == x;
                    let old_part = sources@.take(k as int);
                    assert(is_dir_of_some(was[a], old_part));
                    let j = choose|j: int|
                        0 <= j < old_part.len() && dir_of((#[trigger] old_part[j])@) == was[a];
                    assert(now[j] == old_part[j]);
                }
            }
        }
        k = k + 1;
    }
    assert(sources@.take(sources@.len() as int) =~= sources@);
    dirs
}

pub open spec fn dests(v: Seq<PasteRequest>) -> Seq<Seq<char>> {
    v.map_values(|q: PasteRequest| q.dest@)
}

/// The sources grouped by directory, as copies into it: the directories in
/// the order of paths, each once, and in each the sources that lie in it.
pub open spec fn grouped(sources: Seq<String>, groups: Seq<PasteRequest>) -> bool {
    &&& ascending(dests(groups))
    &&& are_dirs(dests(groups), sources)
    &&& forall|i: int|
        0 <= i < groups.len() ==> (#[trigger] groups[i]).op == ClipMode::Copy && groups[i].sources@
            == lying_in(sources, groups[i].dest@)
}

pub fn group_by_parent(sources: &Vec<String>) -> (r: Vec<PasteRequest>)
    ensures
        grouped(sources@, r@),
{
    let dirs = directories(sources);
    let mut out: Vec<PasteRequest> = Vec::new();
    let mut i: usize = 0;
    while i < dirs.len()
        invariant
            i <= dirs@.len(),
            out@.len() == i,
            forall|k: int|
                0 <= k < i ==> (#[trigger] out@[k]).op == ClipMode::Copy && out@[k].dest
                    == dirs@[k] && out@[k].sources@ == lying_in(sources@, dirs@[k]@),
        decreases dirs@.len() - i,
    {
        let items = collect_in(sources, dirs[i].as_str());
        out.push(PasteRequest { op: ClipMode::Copy, dest: dirs[i].clone(), sources: items });
        i = i + 1;
    }
    assert(dests(out@) =~= views(dirs@));
    out
}

// ── The pane ─────────────────────────────────────────────────────────────

fn warn(notice: Notice<String>, fx: &mut Effects)
    ensures
        final(fx)@ == old(fx)@.push(Effect::Say { level: ToastLevel::Warn, notice: notice@ }),
{
    fx.emit(Effect::Say { level: ToastLevel::Warn, notice });
}

impl FilesPane {
    /// Why nothing can be pasted, if so.
    pub open spec fn paste_refused(self) -> Option<Notice<Seq<char>>> {
        if self.file_clipboard.paths@.len() == 0 {
            Some(Notice::ClipboardEmpty)
        } else if self.fs_mutation_load.loading {
            Some(Notice::TreeOpInFlight)
        } else {
            None
        }
    }

    /// Asks for the clipboard to be pasted into `dest`.
    pub fn paste_into(&self, dest: String, fx: &mut Effects) -> (r: Option<PasteRequest>)
        ensures
            match self.paste_refused() {
                Some(notice) => r is None && final(fx)@ == old(fx)@.push(
                    Effect::Say { level: ToastLevel::Warn, notice },
                ),
                None => final(fx)@ == old(fx)@ && (match self.file_clipboard.mode {
                    Some(op) => r matches Some(q) && q.op == op && q.dest == dest && q.sources@
                        == self.file_clipboard.paths@,
                    None => r is None,
                }),
            },
    {
        if self.file_clipboard.paths.len() == 0 {
            warn(Notice::ClipboardEmpty, fx);
            return None;
        }
        if self.fs_mutation_load.loading {
            warn(Notice::TreeOpInFlight, fx);
            return None;
        }
        match self.file_clipboard.mode {
            Some(op) => Some(
                PasteRequest { op, dest, sources: copy_strings(&self.file_clipboard.paths) },
            ),
            None => None,
        }
    }

    /// Asks for each of the paths to be copied beside itself: one request for
    /// each directory. The host takes them in order and stops once one runs.
    pub fn duplicate_paths(&self, sources: Vec<String>, fx: &mut Effects) -> (r: Vec<PasteRequest>)
        ensures
            if sources@.len() == 0 {
                r@.len() == 0 && final(fx)@ == old(fx)@
            } else if self.fs_mutation_load.loading {
                r@.len() == 0 && final(fx)@ == old(fx)@.push(
                    Effect::Say { level: ToastLevel::Warn, notice: Notice::TreeOpInFlight },
                )
            } else {
                grouped(sources@, r@) && final(fx)@ == old(fx)@
            },
    {
        if sources.len() == 0 {
            return Vec::new();
        }
        if self.fs_mutation_load.loading {
            warn(Notice::TreeOpInFlight, fx);
            return Vec::new();
        }
        group_by_parent(&sources)
    }

    pub fn duplicate_selection(&self, fx: &mut Effects) -> (r: Vec<PasteRequest>)
        ensures
            ({
                let sources = self.paths_from(self.selected_path());
                if sources.len() == 0 {
                    r@.len() == 0 && final(fx)@ == old(fx)@
                } else if self.fs_mutation_load.loading {
                    r@.len() == 0 && final(fx)@ == old(fx)@.push(
                        Effect::Say { level: ToastLevel::Warn, notice: Notice::TreeOpInFlight },
                    )
                } else {
                    grouped(sources, r@) && final(fx)@ == old(fx)@
                }
            }),
    {
        let sources = self.effective_action_paths();
        self.duplicate_paths(sources, fx)
    }

    /// Drops what was dragged on the directory in row `folder`, or on the top
    /// where there is none.
    pub fn commit_tree_drag(
        &self,
        sources: Vec<String>,
        is_copy: bool,
        folder: Option<usize>,
        fx: &mut Effects,
    ) -> (r: Option<PasteRequest>)
        ensures
            if self.fs_mutation_load.loading {
                r is None && final(fx)@ == old(fx)@.push(
                    Effect::Say { level: ToastLevel::Warn, notice: Notice::TreeOpInFlight },
                )
            } else {
                final(fx)@ == old(fx)@ && (r matches Some(q) && q.op == (if is_copy {
                    ClipMode::Copy
                } else {
                    ClipMode::Cut
                }) && q.sources == sources && q.dest@ == (match row_at(self.file_tree, folder) {
                    Some(e) => e.path@,
                    None => Seq::empty(),
                }))
            },
    {
        if self.fs_mutation_load.loading {
            warn(Notice::TreeOpInFlight, fx);
            return None;
        }
        let op = if is_copy {
            ClipMode::Copy
        } else {
            ClipMode::Cut
        };
        let dest = match folder {
            Some(i) => if i < self.file_tree.entries.len() {
                self.file_tree.entries[i].path.clone()
            } else {
                String::new()
            },
            None => String::new(),
        };
        Some(PasteRequest { op, dest, sources })
    }

    // ── Carrying it out ──────────────────────────────────────────────────
    /// Whether a source is a directory: as the tree shows it, else as it is
    /// on disk.
    pub open spec fn source_is_dir(self, d: Decision) -> bool {
        match self.shown_as_dir(d.source@) {
            Some(b) => b,
            None => d.is_dir_on_disk,
        }
    }

    pub open spec fn items_for(self, ds: Seq<Decision>) -> Seq<PasteItem> {
        ds.map_values(
            |d: Decision|
                PasteItem {
                    source: d.source,
                    is_dir: self.source_is_dir(d),
                    resolution: d.resolution,
                },
        )
    }

    fn make_items(&self, ds: Vec<Decision>) -> (r: Vec<PasteItem>)
        ensures
            r@ == self.items_for(ds@),
    {
        let ghost all = ds@;
        let mut out: Vec<PasteItem> = Vec::new();
        for d in it: ds
            invariant
                it.seq() == all,
                out@ == self.items_for(all.take(it.index() as int)),
        {
            let is_dir = match self.entry_is_dir(d.source.as_str()) {
                Some(b) => b,
                None => d.is_dir_on_disk,
            };
            let ghost k = it.index() as int;
            out.push(PasteItem { source: d.source, is_dir, resolution: d.resolution });
            assert(out@ =~= self.items_for(all.take(k + 1)));
        }
        assert(all.take(all.len() as int) =~= all);
        out
    }

    /// The state while a paste runs: where its first source lands is selected
    /// when it is done, nothing is marked, and a cut has used up the
    /// clipboard.
    pub open spec fn pasting(self, new: Self, op: ClipMode, landing: Seq<char>) -> bool {
        &&& opt_view(new.fs_mutation_select_on_done) == Some(landing)
        &&& new.file_selection@.len() == 0
        &&& if op == ClipMode::Cut {
            new.file_clipboard.mode is None && new.file_clipboard.paths@.len() == 0
        } else {
            new.file_clipboard == self.file_clipboard
        }
        &&& new == (FilesPane {
            fs_mutation_load: self.fs_mutation_load.begun(),
            fs_mutation_select_on_done: new.fs_mutation_select_on_done,
            file_selection: new.file_selection,
            file_clipboard: new.file_clipboard,
            ..self
        })
    }

    fn start_paste(&mut self, op: ClipMode, landing: String)
        ensures
            old(self).pasting(*final(self), op, landing@),
    {
        let _ = self.fs_mutation_load.begin();
        self.fs_mutation_select_on_done = Some(landing);
        if op == ClipMode::Cut {
            self.clear_clipboard();
        }
        self.file_selection = Vec::new();
    }

    /// What the start of a paste changes, and the job it hands out.
    pub open spec fn paste_resolved(
        self,
        new: Self,
        op: ClipMode,
        dest: String,
        decisions: Vec<Decision>,
        fx: Seq<Effect<Seq<char>>>,
        fx2: Seq<Effect<Seq<char>>>,
        r: Option<PasteJob>,
    ) -> bool {
        let ds = acted(decisions@);
        if ds.len() == 0 {
            &&& r is None
            &&& new == self
            &&& fx2 == fx.push(
                Effect::Say { level: ToastLevel::Info, notice: Notice::PasteNothingToDo },
            )
        } else {
            &&& r matches Some(job) && job.generation
                == self.fs_mutation_load.begun().generation && job.op == op && job.dest
                == dest && job.items@ == self.items_for(ds)
            &&& self.pasting(
                new,
                op,
                pushed_path(dest@, landing_name(ds[0])),
            )
            &&& fx2 == fx
        }
    }

    /// Hands a paste to the host once every conflict is decided. Sources that
    /// are skipped are left out; with none left there is nothing to do.
    pub fn dispatch_paste_resolved(
        &mut self,
        op: ClipMode,
        dest: String,
        decisions: Vec<Decision>,
        fx: &mut Effects,
    ) -> (r: Option<PasteJob>)
        ensures
            old(self).paste_resolved(
                *final(self),
                op,
                dest,
                decisions,
                old(fx)@,
                final(fx)@,
                r,
            ),
    {
        let actionable = keep_acted(decisions);
        if actionable.len() == 0 {
            fx.emit(Effect::Say { level: ToastLevel::Info, notice: Notice::PasteNothingToDo });
            return None;
        }
        let name = find_landing_name(&actionable[0]);
        let landing = push_path(dest.as_str(), name.as_str());
        let items = self.make_items(actionable);
        self.start_paste(op, landing);
        Some(PasteJob { generation: self.fs_mutation_load.generation, op, dest, items })
    }

    /// Goes on with a paste whose conflicts are known: `settled` are the
    /// sources that need no question, `open_conflicts` how many do, and
    /// `blocked` how many would land in themselves.
    pub fn dispatch_paste_op(
        &mut self,
        op: ClipMode,
        dest: String,
        settled: Vec<Decision>,
        open_conflicts: usize,
        blocked: usize,
        fx: &mut Effects,
    ) -> (r: PasteStep)
        ensures
            ({
                let told = if blocked > 0 {
                    old(fx)@.push(
                        Effect::Say { level: ToastLevel::Warn, notice: Notice::PasteIntoItself },
                    )
                } else {
                    old(fx)@
                };
                let ds = acted(settled@);
                if open_conflicts > 0 {
                    &&& r == (PasteStep::Ask { op, dest, settled })
                    &&& *final(self) == *old(self)
                    &&& final(fx)@ == told
                } else if ds.len() == 0 {
                    &&& r is Nothing
                    &&& *final(self) == *old(self)
                    &&& final(fx)@ == told.push(
                        Effect::Say { level: ToastLevel::Info, notice: Notice::PasteNothingToDo },
                    )
                } else {
                    &&& r matches PasteStep::Run(job) && job.generation
                        == old(self).fs_mutation_load.begun().generation && job.op == op && job.dest
                        == dest && job.items@ == old(self).items_for(ds)
                    &&& old(self).pasting(
                        *final(self),
                        op,
                        pushed_path(dest@, landing_name(ds[0])),
                    )
                    &&& final(fx)@ == told
                }
            }),
    {
        if blocked > 0 {
            warn(Notice::PasteIntoItself, fx);
        }
        if open_conflicts > 0 {
            return PasteStep::Ask { op, dest, settled };
        }
        match self.dispatch_paste_resolved(op, dest, settled, fx) {
            Some(job) => PasteStep::Run(job),
            None => PasteStep::Nothing,
        }
    }
}

/// The questions about a paste were given up.
pub fn cancel_paste_conflict(asking: bool, fx: &mut Effects)
    ensures
        final(fx)@ == (if asking {
            old(fx)@.push(Effect::Say { level: ToastLevel::Info, notice: Notice::PasteCancelled })
        } else {
            old(fx)@
        }),
{
    if asking {
        fx.emit(Effect::Say { level: ToastLevel::Info, notice: Notice::PasteCancelled });
    }
}

// ── Copying paths as text ────────────────────────────────────────────────

/// The paths one below the other, each as it is or from the root.
pub open spec fn path_lines(paths: Seq<String>, root: Seq<char>, relative: bool) -> Seq<char>
    decreases paths.len(),
{
    if paths.len() == 0 {
        Seq::empty()
    } else {
        let rest = path_lines(paths.drop_last(), root, relative);
        let last = if relative {
            paths.last()@
        } else {
            pushed_path(root, paths.last()@)
        };
        if rest.len() == 0 {
            last
        } else {
            rest + seq!['\n'] + last
        }
    }
}

pub fn copy_paths_to_clipboard(paths: &Vec<String>, root: &str, relative: bool, fx: &mut Effects)
    ensures
        final(fx)@ == (if paths@.len() == 0 {
            old(fx)@
        } else {
            old(fx)@.push(
                Effect::CopyText {
                    text: path_lines(paths@, root@, relative),
                    count: paths@.len() as usize,
                    relative,
                },
            )
        }),
{
    if paths.len() == 0 {
        return;
    }
    let mut text = String::new();
    let mut i: usize = 0;
    assert(text@ =~= path_lines(paths@.take(0), root@, relative));
    while i < paths.len()
        invariant
            i <= paths@.len(),
            text@ == path_lines(paths@.take(i as int), root@, relative),
        decreases paths@.len() - i,
    {
        assert(paths@.take(i + 1).drop_last() =~= paths@.take(i as int));
        let shown = if relative {
            paths[i].clone()
        } else {
            push_path(root, paths[i].as_str())
        };
        let ghost before = text@;
        if !text.as_str().is_empty() {
            text.push('\n');
            assert(text@ =~= before + seq!['\n']);
        }
        text.append(shown.as_str());
        assert(before.len() == 0 ==> text@ =~= shown@);
        i = i + 1;
    }
    assert(paths@.take(paths@.len() as int) =~= paths@);
    fx.emit(Effect::CopyText { text, count: paths.len(), relative });
}

/// What is said after the text was put on the clipboard.
pub fn copy_paths_done(
    result: Result<(), String>,
    had_lossy: bool,
    count: usize,
    relative: bool,
    fx: &mut Effects,
)
    ensures
        final(fx)@ == old(fx)@.push(
            match result {
                Ok(_) => if had_lossy {
                    Effect::Say { level: ToastLevel::Warn, notice: Notice::PathsNotUtf8 }
                } else {
                    Effect::Say {
                        level: ToastLevel::Info,
                        notice: Notice::PathsCopied { count, relative },
                    }
                },
                Err(e) => Effect::Toast {
                    level: ToastLevel::Error,
                    text: "Copy path failed: "@ + e@,
                },
            },
        ),
{
    match result {
        Ok(_) => {
            if had_lossy {
                fx.emit(Effect::Say { level: ToastLevel::Warn, notice: Notice::PathsNotUtf8 });
            } else {
                fx.emit(
                    Effect::Say {
                        level: ToastLevel::Info,
                        notice: Notice::PathsCopied { count, relative },
                    },
                );
            }
        },
        Err(e) => {
            let mut text = "Copy path failed: ".to_owned();
            text.append(e.as_str());
            fx.emit(Effect::Toast { level: ToastLevel::Error, text });
        },
    }
}

// ── Laws ─────────────────────────────────────────────────────────────────

/// A cut is pasted once: its paste leaves the clipboard empty, while a copy
/// can be pasted again.
pub proof fn law_cut_is_used_up(s: FilesPane, new: FilesPane, op: ClipMode, landing: Seq<char>)
    requires
        s.pasting(new, op, landing),
    ensures
        op == ClipMode::Cut ==> new.file_clipboard.paths@.len() == 0,
        op == ClipMode::Copy ==> new.file_clipboard == s.file_clipboard,
        new.fs_mutation_load.loading,
{
}

/// No source is lost by grouping: each is in the group of its directory.
pub proof fn law_grouping_keeps_every_source(
    sources: Seq<String>,
    groups: Seq<PasteRequest>,
    k: int,
)
    requires
        grouped(sources, groups),
        0 <= k < sources.len(),
    ensures
        exists|i: int| 0 <= i < groups.len() && (#[trigger] groups[i]).sources@.contains(sources[k]),
{
    let d = dir_of(sources[k]@);
    assert(dests(groups).contains(d));
    let i = choose|i: int| 0 <= i < dests(groups).len() && dests(groups)[i] == d;
    assert(groups[i].dest@ == d);
    lemma_lying_in(sources, d, k);
}

proof fn lemma_lying_in(sources: Seq<String>, dir: Seq<char>, k: int)
    requires
        0 <= k < sources.len(),
        dir_of(sources[k]@) == dir,
    ensures
        lying_in(sources, dir).contains(sources[k]),
    decreases sources.len(),
{
    let rest = lying_in(sources.drop_last(), dir);
    let all = lying_in(sources, dir);
    if k + 1 == sources.len() {
        assert(all[rest.len() as int] == sources[k]);
    } else {
        lemma_lying_in(sources.drop_last(), dir, k);
        let i = choose|i: int| 0 <= i < rest.len() && rest[i] == sources[k];
        assert(all[i] == sources[k]);
    }
}

} // verus!
