//! Files that were dropped on the window, and the place they are to go to.
use crate::app::App;
use crate::effects::{Effect, Effects, Notice, ToastLevel};
use crate::files_pane::{FilesPane, PlaceMode, TreeEdit};
use crate::layout::{Screen, Tab};
use crate::panel_search::exit_cancel;
use crate::text::opt_view;
use vstd::prelude::*;

verus! {

impl App {
    /// The panels once a running search was cancelled.
    pub open spec fn search_left(self) -> Self {
        match self.search.snapshot {
            Some(snap) => if self.search.active {
                self.restored(snap)
            } else {
                self
            },
            None => self,
        }
    }

    pub open spec fn search_left_requests(self) -> Seq<Effect<Seq<char>>> {
        match self.search.snapshot {
            Some(snap) => if self.search.active {
                self.restore_requests(snap)
            } else {
                Seq::empty()
            },
            None => Seq::empty(),
        }
    }

    fn leave_search(&mut self, fx: &mut Effects)
        ensures
            old(self).search.active ==> final(self).search.is_blank(),
            !old(self).search.active ==> final(self).search == old(self).search,
            *final(self) == (App { search: final(self).search, ..old(self).search_left() }),
            final(fx)@ == old(fx)@ + old(self).search_left_requests(),
    {
        if self.search.active {
            exit_cancel(self, fx);
        }
        assert(fx@ =~= old(fx)@ + old(self).search_left_requests());
    }

    /// Nothing stands in front of the panels any more.
    pub open spec fn uncovered(self, edit: TreeEdit) -> Self {
        App {
            quick_open_active: false,
            screen: Screen { show_help: false, ..self.screen },
            files: Self::files_left(self.files, edit),
            ..self
        }
    }

    fn uncover(&mut self)
        ensures
            final(self).files.tree_edit.is_closed(),
            *final(self) == old(self).uncovered(final(self).files.tree_edit),
    {
        self.quick_open_active = false;
        self.screen.hide_help();
        self.leave_files();
    }

    pub open spec fn placing(self, sources: Vec<String>) -> Self {
        App {
            files: FilesPane { place_mode: PlaceMode { active: true, sources }, ..self.files },
            ..self
        }
    }

    fn start_placing(&mut self, sources: Vec<String>)
        ensures
            *final(self) == old(self).placing(sources),
    {
        self.files.place_mode = PlaceMode { active: true, sources };
    }

    /// The files tab is in front with nothing over it, and waits for the place
    /// that `sources` are to go to.
    pub open spec fn place_entered(
        self,
        new: Self,
        sources: Vec<String>,
        fx: Seq<Effect<Seq<char>>>,
        fx2: Seq<Effect<Seq<char>>>,
    ) -> bool {
        let s = App { search: new.search, ..self.search_left() }.uncovered(new.files.tree_edit);
        let t = if self.screen.active_tab == Tab::Files {
            s
        } else {
            s.with_tab(Tab::Files, new.files.tree_edit)
        };
        &&& self.search.active ==> new.search.is_blank()
        &&& !self.search.active ==> new.search == self.search
        &&& new.files.tree_edit.is_closed()
        &&& new == t.placing(sources)
        &&& fx2 == fx + self.search_left_requests()
    }

    /// Starts place mode. It is refused while the mouse is left to the
    /// terminal, since no place could be clicked, and while another copy runs.
    pub fn enter_place_mode(&mut self, sources: Vec<String>, fx: &mut Effects)
        ensures
            if sources@.len() == 0 {
                *final(self) == *old(self) && final(fx)@ == old(fx)@
            } else if old(self).screen.select_mode {
                *final(self) == *old(self) && final(fx)@ == old(fx)@.push(
                    Effect::Say {
                        level: ToastLevel::Warn,
                        notice: Notice::PlaceBlockedBySelectMode,
                    },
                )
            } else if old(self).files.file_copy_load.loading {
                *final(self) == *old(self) && final(fx)@ == old(fx)@.push(
                    Effect::Say { level: ToastLevel::Warn, notice: Notice::CopyInFlight },
                )
            } else {
                old(self).place_entered(*final(self), sources, old(fx)@, final(fx)@)
            },
    {
        if sources.len() == 0 {
            return;
        }
        if self.screen.select_mode {
            fx.emit(
                Effect::Say {
                    level: ToastLevel::Warn,
                    notice: Notice::PlaceBlockedBySelectMode,
                },
            );
            return;
        }
        if self.files.file_copy_load.loading {
            fx.emit(Effect::Say { level: ToastLevel::Warn, notice: Notice::CopyInFlight });
            return;
        }
        self.go_to_place(sources, fx);
    }

    fn go_to_place(&mut self, sources: Vec<String>, fx: &mut Effects)
        ensures
            old(self).place_entered(*final(self), sources, old(fx)@, final(fx)@),
    {
        self.leave_search(fx);
        self.uncover();
        let ghost sent = fx@;
        self.set_active_tab(Tab::Files, fx);
        assert(fx@ =~= sent);
        self.start_placing(sources);
    }

    /// A closed directory that the pointer has rested on is opened, so that
    /// the files can go deeper. `due` is the row it has rested on long enough.
    pub fn tick_place_mode_auto_expand(&mut self, due: Option<usize>, fx: &mut Effects)
        requires
            old(self).wf(),
        ensures
            final(self).wf(),
            *final(self) == (App { files: final(self).files, ..*old(self) }),
            if old(self).expands(due) {
                old(self).files.row_toggled(final(self).files, due->0) && final(fx)@
                    == old(fx)@.push(
                    old(self).files.rebuild_request(opt_view(old(self).files.selected_path())),
                )
            } else {
                final(self).files == old(self).files && final(fx)@ == old(fx)@
            },
    {
        if let Some(i) = due {
            if self.files.place_mode.active && !self.files.file_tree_load.loading {
                self.files.hover_expand(i, fx);
            }
        }
    }

    pub open spec fn expands(self, due: Option<usize>) -> bool {
        &&& self.files.place_mode.active
        &&& !self.files.file_tree_load.loading
        &&& due is Some
        &&& self.files.opens_on_hover(due->0)
    }
}

// ── Laws ─────────────────────────────────────────────────────────────────

/// Place mode is in front of everything: when it was entered, the files tab is
/// shown, and no prompt, menu, question or help page is open.
pub proof fn law_place_mode_stands_alone(
    s: App,
    t: App,
    sources: Vec<String>,
    fx: Seq<Effect<Seq<char>>>,
    fx2: Seq<Effect<Seq<char>>>,
)
    requires
        s.place_entered(t, sources, fx, fx2),
    ensures
        t.files.place_mode.active,
        t.files.place_mode.sources == sources,
        t.screen.active_tab == Tab::Files,
        !t.quick_open_active,
        !t.search.active,
        !t.screen.show_help,
        !t.files.tree_edit.active,
        !t.files.tree_context_menu.active,
        t.files.tree_delete_confirm is None,
{
}

} // verus!
