//! Files dragged inside the tree, and the questions that a paste can raise.
use crate::effects::{Effect, Effects, Notice, ToastLevel};
use crate::file_tree::TreeEntry;
use crate::files_pane::{ClipMode, FilesPane};
use crate::files_paste::{dir_of, find_dir, Decision, PasteJob};
use crate::paths::{clean, cleaned};
use crate::strmap::StrSet;
use crate::text::{opt_view, same_str};
use vstd::prelude::*;
use vstd::string::*;

verus! {

// ── Dragging ─────────────────────────────────────────────────────────────

/// What a press on the tree turns into once the pointer moves.
#[derive(Debug)]
pub enum DragStep {
    Nothing,
    /// There is nothing to carry.
    Cancel,
    Start { sources: Vec<String> },
}

impl FilesPane {
    /// A drag carries what was marked when it began. It does not begin twice,
    /// and not while dropped files wait for their place.
    pub fn begin_tree_drag(&self, dragging: bool) -> (r: DragStep)
        ensures
            ({
                let sources = self.paths_from(self.selected_path());
                if dragging {
                    r is Nothing
                } else if sources.len() == 0 {
                    r is Cancel
                } else if self.place_mode.active {
                    r is Nothing
                } else {
                    r matches DragStep::Start { sources: s } && s@ == sources
                }
            }),
    {
        if dragging {
            return DragStep::Nothing;
        }
        let sources = self.effective_action_paths();
        if sources.len() == 0 {
            return DragStep::Cancel;
        }
        if self.place_mode.active {
            return DragStep::Nothing;
        }
        DragStep::Start { sources }
    }

    /// A closed directory that a drag has rested on is opened. `due` is the row
    /// it has rested on long enough.
    pub fn tick_tree_drag_auto_expand(&mut self, dragging: bool, due: Option<usize>, fx: &mut Effects)
        requires
            old(self).wf(),
        ensures
            final(self).wf(),
            if dragging && due is Some && old(self).opens_on_hover(due->0) {
                old(self).row_toggled(*final(self), due->0) && final(fx)@ == old(fx)@.push(
                    old(self).rebuild_request(opt_view(old(self).selected_path())),
                )
            } else {
                *final(self) == *old(self) && final(fx)@ == old(fx)@
            },
    {
        if let Some(i) = due {
            if dragging {
                self.hover_expand(i, fx);
            }
        }
    }
}

// ── Conflicts ────────────────────────────────────────────────────────────

/// The names of the rows that lie in a directory.
pub open spec fn names_in(rows: Seq<TreeEntry>, dir: Seq<char>) -> Set<Seq<char>>
    decreases rows.len(),
{
    if rows.len() == 0 {
        Set::empty()
    } else {
        let rest = names_in(rows.drop_last(), dir);
        if dir_of(rows.last().path@) == cleaned(dir) {
            rest.insert(rows.last().name@)
        } else {
            rest
        }
    }
}

/// The strings in a list, as a set.
pub open spec fn set_of_names(names: Seq<String>) -> Set<Seq<char>>
    decreases names.len(),
{
    if names.len() == 0 {
        Set::empty()
    } else {
        set_of_names(names.drop_last()).insert(names.last()@)
    }
}

fn collect_names(names: Vec<String>) -> (r: StrSet)
    ensures
        r.wf(),
        r@ == set_of_names(names@),
{
    let mut out = StrSet::new();
    let mut i: usize = 0;
    assert(out@ =~= set_of_names(names@.take(0)));
    while i < names.len()
        invariant
            i <= names@.len(),
            out.wf(),
            out@ == set_of_names(names@.take(i as int)),
        decreases names@.len() - i,
    {
        out.insert(names[i].clone());
        assert(names@.take(i + 1).drop_last() =~= names@.take(i as int));
        i += 1;
    }
    assert(names@.take(names@.len() as int) =~= names@);
    out
}

impl FilesPane {
    /// The names that a paste into `dir` can collide with: those on disk where
    /// it was listed, else those of the rows that are shown.
    pub fn existing_basenames_in_dir(&self, dir: &str, listed: Option<Vec<String>>) -> (r: StrSet)
        ensures
            r.wf(),
            r@ == (match listed {
                Some(names) => set_of_names(names@),
                None => names_in(self.file_tree.entries@, dir@),
            }),
    {
        if let Some(names) = listed {
            return collect_names(names);
        }
        let rows = &self.file_tree.entries;
        let dir_path = clean(dir);
        let mut out = StrSet::new();
        let mut i: usize = 0;
        assert(out@ =~= names_in(rows@.take(0), dir@));
        while i < rows.len()
            invariant
                i <= rows@.len(),
                out.wf(),
                dir_path@ == cleaned(dir@),
                out@ == names_in(rows@.take(i as int), dir@),
            decreases rows@.len() - i,
        {
            let parent = find_dir(rows[i].path.as_str());
            if same_str(parent.as_str(), dir_path.as_str()) {
                out.insert(rows[i].name.clone());
            }
            assert(rows@.take(i + 1).drop_last() =~= rows@.take(i as int));
            i += 1;
        }
        assert(rows@.take(rows@.len() as int) =~= rows@);
        out
    }

    /// What the answer to the last question leads to: `decisions` are there
    /// once nothing is left to ask.
    pub fn resolve_paste_conflict(
        &mut self,
        op: ClipMode,
        dest: String,
        decisions: Option<Vec<Decision>>,
        cancelled: bool,
        fx: &mut Effects,
    ) -> (r: Option<PasteJob>)
        ensures
            match decisions {
                None => r is None && *final(self) == *old(self) && final(fx)@ == old(fx)@,
                Some(ds) => if cancelled {
                    &&& r is None
                    &&& *final(self) == *old(self)
                    &&& final(fx)@ == old(fx)@.push(
                        Effect::Say { level: ToastLevel::Info, notice: Notice::PasteCancelled },
                    )
                } else {
                    old(self).paste_resolved(
                        *final(self),
                        op,
                        dest,
                        ds,
                        old(fx)@,
                        final(fx)@,
                        r,
                    )
                },
            },
    {
        if let Some(ds) = decisions {
            if cancelled {
                fx.emit(Effect::Say { level: ToastLevel::Info, notice: Notice::PasteCancelled });
                return None;
            }
            return self.dispatch_paste_resolved(op, dest, ds, fx);
        }
        None
    }
}

} // verus!
