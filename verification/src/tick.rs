//! One turn of the program: what became due since the last frame.
use crate::app::App;
use crate::effects::{Effect, Effects};
use crate::git_flows::JobEnd;
use crate::git_pane::PushOperation;
use crate::layout::Tab;
use crate::preview_pane::PreviewPane;
use crate::text::opt_view;
use vstd::prelude::*;

verus! {

/// What happened outside since the last turn, at `now`.
#[derive(Debug)]
pub struct Tick {
    pub now: u64,
    /// Whether a file below the working directory changed.
    pub files_dirty: bool,
    /// How long a query has to rest before it is searched for.
    pub search_debounce: u64,
    pub push_end: Option<(PushOperation, JobEnd)>,
    pub pull_end: Option<JobEnd>,
    pub commit_end: Option<JobEnd>,
    /// The row over which files that are being placed have hovered long enough.
    pub place_due: Option<usize>,
    /// Whether rows of the tree are being dragged, and the row they hover over.
    pub dragging: bool,
    pub drag_due: Option<usize>,
}

impl App {
    /// Files that changed make what is shown of them stale.
    #[verifier::opaque]
    pub open spec fn dirt_noticed(
        self,
        new: Self,
        dirty: bool,
        fx: Seq<Effect<Seq<char>>>,
        fx2: Seq<Effect<Seq<char>>>,
    ) -> bool {
        if dirty {
            new == self.dirtied() && fx2 == fx.push(Effect::StaleQuickOpen)
        } else {
            new == self && fx2 == fx
        }
    }

    fn notice_dirt(&mut self, dirty: bool, fx: &mut Effects)
        requires
            old(self).wf(),
        ensures
            final(self).wf(),
            old(self).dirt_noticed(*final(self), dirty, old(fx)@, final(fx)@),
    {
        reveal(App::dirt_noticed);
        if dirty {
            self.files_changed(fx);
        }
    }

    /// A query at rest is searched for.
    #[verifier::opaque]
    pub open spec fn query_kicked(
        self,
        new: Self,
        now: u64,
        debounce: u64,
        fx: Seq<Effect<Seq<char>>>,
        fx2: Seq<Effect<Seq<char>>>,
    ) -> bool {
        &&& self.global_search.search_kicked(
            new.global_search,
            now,
            debounce,
            self.preview.preview_highlight,
            new.preview.preview_highlight,
            fx,
            fx2,
        )
        &&& new == (App {
            global_search: new.global_search,
            preview: PreviewPane {
                preview_highlight: new.preview.preview_highlight,
                ..self.preview
            },
            ..self
        })
    }

    fn kick_query(&mut self, now: u64, debounce: u64, fx: &mut Effects)
        requires
            old(self).wf(),
        ensures
            final(self).wf(),
            old(self).query_kicked(*final(self), now, debounce, old(fx)@, final(fx)@),
    {
        reveal(App::query_kicked);
        self.global_search.maybe_kick_global_search(
            now,
            debounce,
            &mut self.preview.preview_highlight,
            fx,
        );
    }

    /// The hit that is due is shown.
    #[verifier::opaque]
    pub open spec fn hit_shown(
        self,
        new: Self,
        now: u64,
        fx: Seq<Effect<Seq<char>>>,
        fx2: Seq<Effect<Seq<char>>>,
    ) -> bool {
        &&& self.global_search.sync_drained(new.global_search, now, fx, fx2)
        &&& new == (App { global_search: new.global_search, ..self })
    }

    fn show_hit(&mut self, now: u64, fx: &mut Effects)
        requires
            old(self).wf(),
        ensures
            final(self).wf(),
            old(self).hit_shown(*final(self), now, old(fx)@, final(fx)@),
    {
        reveal(App::hit_shown);
        self.global_search.drain_preview_sync_debounce(now, fx);
    }

    /// The preview that is due is asked for.
    #[verifier::opaque]
    pub open spec fn preview_due(
        self,
        new: Self,
        now: u64,
        fx: Seq<Effect<Seq<char>>>,
        fx2: Seq<Effect<Seq<char>>>,
    ) -> bool {
        &&& self.preview.schedule_drained(new.preview, now, fx, fx2)
        &&& new == (App { preview: new.preview, ..self })
    }

    fn ask_preview(&mut self, now: u64, fx: &mut Effects)
        requires
            old(self).wf(),
        ensures
            final(self).wf(),
            old(self).preview_due(*final(self), now, old(fx)@, final(fx)@),
    {
        reveal(App::preview_due);
        self.preview.drain_preview_schedule(now, fx);
    }

    /// The neighbours of the preview are asked for ahead of time.
    #[verifier::opaque]
    pub open spec fn neighbours_due(
        self,
        new: Self,
        now: u64,
        fx: Seq<Effect<Seq<char>>>,
        fx2: Seq<Effect<Seq<char>>>,
    ) -> bool {
        &&& self.preview.prefetch_drained(new.preview, now, self.files, self.screen, fx, fx2)
        &&& new == (App { preview: new.preview, ..self })
    }

    fn ask_neighbours(&mut self, now: u64, fx: &mut Effects)
        requires
            old(self).wf(),
        ensures
            final(self).wf(),
            old(self).neighbours_due(*final(self), now, old(fx)@, final(fx)@),
    {
        reveal(App::neighbours_due);
        self.preview.drain_prefetch_schedule(now, &self.files, &self.screen, fx);
    }

    /// A push that ended, if one did, is reported.
    #[verifier::opaque]
    pub open spec fn push_reported(
        self,
        new: Self,
        end: Option<(PushOperation, JobEnd)>,
        fx: Seq<Effect<Seq<char>>>,
        fx2: Seq<Effect<Seq<char>>>,
    ) -> bool {
        match end {
            Some((op, e)) => {
                &&& self.git.push_ended(new.git, op, e, self.graph, new.graph, fx, fx2)
                &&& new == (App { git: new.git, graph: new.graph, ..self })
            },
            None => new == self && fx2 == fx,
        }
    }

    fn report_push(&mut self, end: Option<(PushOperation, JobEnd)>, fx: &mut Effects)
        requires
            old(self).wf(),
        ensures
            final(self).wf(),
            old(self).push_reported(*final(self), end, old(fx)@, final(fx)@),
    {
        reveal(App::push_reported);
        if let Some((op, e)) = end {
            self.git.push_finished(op, e, &mut self.graph, fx);
        }
    }

    /// A pull that ended, if one did, is reported.
    #[verifier::opaque]
    pub open spec fn pull_reported(
        self,
        new: Self,
        end: Option<JobEnd>,
        fx: Seq<Effect<Seq<char>>>,
        fx2: Seq<Effect<Seq<char>>>,
    ) -> bool {
        match end {
            Some(e) => {
                &&& self.git.pull_ended(new.git, e, self.graph, new.graph, fx, fx2)
                &&& new == (App { git: new.git, graph: new.graph, ..self })
            },
            None => new == self && fx2 == fx,
        }
    }

    fn report_pull(&mut self, end: Option<JobEnd>, fx: &mut Effects)
        requires
            old(self).wf(),
        ensures
            final(self).wf(),
            old(self).pull_reported(*final(self), end, old(fx)@, final(fx)@),
    {
        reveal(App::pull_reported);
        if let Some(e) = end {
            self.git.pull_finished(e, &mut self.graph, fx);
        }
    }

    /// A commit that ended, if one did, is reported.
    #[verifier::opaque]
    pub open spec fn commit_reported(
        self,
        new: Self,
        end: Option<JobEnd>,
        fx: Seq<Effect<Seq<char>>>,
        fx2: Seq<Effect<Seq<char>>>,
    ) -> bool {
        match end {
            Some(e) => {
                &&& self.git.commit_ended(
                    new.git,
                    e,
                    self.graph,
                    new.graph,
                    self.repo(),
                    fx,
                    fx2,
                )
                &&& new == (App { git: new.git, graph: new.graph, ..self })
            },
            None => new == self && fx2 == fx,
        }
    }

    fn report_commit(&mut self, end: Option<JobEnd>, fx: &mut Effects)
        requires
            old(self).wf(),
        ensures
            final(self).wf(),
            old(self).commit_reported(*final(self), end, old(fx)@, final(fx)@),
    {
        reveal(App::commit_reported);
        if let Some(e) = end {
            let repo = self.repo_root();
            self.git.commit_finished(e, &mut self.graph, &repo, fx);
        }
    }

    /// The tab on screen asks for what it lacks.
    #[verifier::opaque]
    pub open spec fn tab_served(
        self,
        new: Self,
        now: u64,
        fx: Seq<Effect<Seq<char>>>,
        fx2: Seq<Effect<Seq<char>>>,
    ) -> bool {
        let s = self.tree_kicked().catalog_kicked();
        let first = self.tree_kick() + self.catalog_kick();
        let sent = fx2.skip(fx.len() as int);
        &&& fx.is_prefix_of(fx2)
        &&& first.is_prefix_of(sent)
        &&& s.tab_kicked(new, now, sent.skip(first.len() as int))
    }

    fn serve_tab(&mut self, now: u64, fx: &mut Effects)
        requires
            old(self).wf(),
        ensures
            final(self).wf(),
            old(self).tab_served(*final(self), now, old(fx)@, final(fx)@),
    {
        reveal(App::tab_served);
        self.kick_active_tab_work(now, fx);
    }

    /// A closed directory opens under files that are being placed.
    #[verifier::opaque]
    pub open spec fn place_opened(
        self,
        new: Self,
        due: Option<usize>,
        fx: Seq<Effect<Seq<char>>>,
        fx2: Seq<Effect<Seq<char>>>,
    ) -> bool {
        &&& new == (App { files: new.files, ..self })
        &&& if self.expands(due) {
            self.files.row_toggled(new.files, due->0) && fx2 == fx.push(
                self.files.rebuild_request(opt_view(self.files.selected_path())),
            )
        } else {
            new.files == self.files && fx2 == fx
        }
    }

    fn open_for_place(&mut self, due: Option<usize>, fx: &mut Effects)
        requires
            old(self).wf(),
        ensures
            final(self).wf(),
            old(self).place_opened(*final(self), due, old(fx)@, final(fx)@),
    {
        reveal(App::place_opened);
        self.tick_place_mode_auto_expand(due, fx);
    }

    /// A closed directory opens under rows that are being dragged.
    #[verifier::opaque]
    pub open spec fn drag_opened(
        self,
        new: Self,
        dragging: bool,
        due: Option<usize>,
        fx: Seq<Effect<Seq<char>>>,
        fx2: Seq<Effect<Seq<char>>>,
    ) -> bool {
        &&& new == (App { files: new.files, ..self })
        &&& if dragging && due is Some && self.files.opens_on_hover(due->0) {
            self.files.row_toggled(new.files, due->0) && fx2 == fx.push(
                self.files.rebuild_request(opt_view(self.files.selected_path())),
            )
        } else {
            new.files == self.files && fx2 == fx
        }
    }

    fn open_for_drag(&mut self, dragging: bool, due: Option<usize>, fx: &mut Effects)
        requires
            old(self).wf(),
        ensures
            final(self).wf(),
            old(self).drag_opened(*final(self), dragging, due, old(fx)@, final(fx)@),
    {
        reveal(App::drag_opened);
        self.files.tick_tree_drag_auto_expand(dragging, due, fx);
    }

    /// Whether `new` and the effects up to `fx2` are what a turn makes of the
    /// state: its steps, one after the other.
    pub open spec fn ticked(
        self,
        new: Self,
        t: Tick,
        fx: Seq<Effect<Seq<char>>>,
        fx2: Seq<Effect<Seq<char>>>,
    ) -> bool {
        exists|a: Seq<App>, e: Seq<Seq<Effect<Seq<char>>>>|
            #[trigger] turn(a, e, t) && a[0] == self && a[11] == new && e[0] == fx && e[11] == fx2
    }

    /// One turn, between two rounds of results from the background. The work
    /// that ended is reported before the tab on screen asks for more, so what
    /// became stale by it is asked for in the same turn.
    pub fn tick(&mut self, t: Tick, fx: &mut Effects)
        requires
            old(self).wf(),
        ensures
            final(self).wf(),
            old(self).ticked(*final(self), t, old(fx)@, final(fx)@),
    {
        let ghost t0 = t;
        let ghost (a0, e0) = (*self, fx@);
        self.notice_dirt(t.files_dirty, fx);
        let ghost (a1, e1) = (*self, fx@);
        self.kick_query(t.now, t.search_debounce, fx);
        let ghost (a2, e2) = (*self, fx@);
        self.show_hit(t.now, fx);
        let ghost (a3, e3) = (*self, fx@);
        self.ask_preview(t.now, fx);
        let ghost (a4, e4) = (*self, fx@);
        self.ask_neighbours(t.now, fx);
        let ghost (a5, e5) = (*self, fx@);
        self.report_push(t.push_end, fx);
        let ghost (a6, e6) = (*self, fx@);
        self.report_pull(t.pull_end, fx);
        let ghost (a7, e7) = (*self, fx@);
        self.report_commit(t.commit_end, fx);
        let ghost (a8, e8) = (*self, fx@);
        self.serve_tab(t.now, fx);
        let ghost (a9, e9) = (*self, fx@);
        self.open_for_place(t.place_due, fx);
        let ghost (a10, e10) = (*self, fx@);
        self.open_for_drag(t.dragging, t.drag_due, fx);
        proof {
            let a = seq![a0, a1, a2, a3, a4, a5, a6, a7, a8, a9, a10, *self];
            let e = seq![e0, e1, e2, e3, e4, e5, e6, e7, e8, e9, e10, fx@];
            assert(turn(a, e, t0));
        }
    }
}

/// The states and the effects along one turn.
pub open spec fn turn(a: Seq<App>, e: Seq<Seq<Effect<Seq<char>>>>, t: Tick) -> bool {
    &&& a.len() == 12
    &&& e.len() == 12
    &&& a[0].dirt_noticed(a[1], t.files_dirty, e[0], e[1])
    &&& a[1].query_kicked(a[2], t.now, t.search_debounce, e[1], e[2])
    &&& a[2].hit_shown(a[3], t.now, e[2], e[3])
    &&& a[3].preview_due(a[4], t.now, e[3], e[4])
    &&& a[4].neighbours_due(a[5], t.now, e[4], e[5])
    &&& a[5].push_reported(a[6], t.push_end, e[5], e[6])
    &&& a[6].pull_reported(a[7], t.pull_end, e[6], e[7])
    &&& a[7].commit_reported(a[8], t.commit_end, e[7], e[8])
    &&& a[8].tab_served(a[9], t.now, e[8], e[9])
    &&& a[9].place_opened(a[10], t.place_due, e[9], e[10])
    &&& a[10].drag_opened(a[11], t.dragging, t.drag_due, e[10], e[11])
}

// ── Laws ─────────────────────────────────────────────────────────────────

/// A turn in which no push, pull or commit ends keeps the key of the commit
/// graph, whatever happened to the files: neither the head nor a branch moved.
pub proof fn law_file_changes_keep_the_graph(
    a: Seq<App>,
    e: Seq<Seq<Effect<Seq<char>>>>,
    t: Tick,
)
    requires
        turn(a, e, t),
        t.push_end is None && t.pull_end is None && t.commit_end is None,
        a[0].repo() is Some,
    ensures
        a[11].graph.git_graph.cache_key == a[0].graph.git_graph.cache_key,
{
    lemma_asking_keeps_the_graph(a, e, t);
    assert(a[8] == a[5]) by {
        reveal(App::push_reported);
        reveal(App::pull_reported);
        reveal(App::commit_reported);
    }
    lemma_served_tab_keeps_the_key(a[8], a[9], t.now, e[8], e[9]);
    lemma_opening_keeps_the_graph(a, e, t);
}

proof fn lemma_asking_keeps_the_graph(a: Seq<App>, e: Seq<Seq<Effect<Seq<char>>>>, t: Tick)
    requires
        turn(a, e, t),
        a[0].repo() is Some,
    ensures
        a[5].graph == a[0].graph,
        a[5].repo() is Some,
{
    assert(a[1].graph == a[0].graph && a[1].repo() is Some) by {
        reveal(App::dirt_noticed);
    }
    assert(a[2].graph == a[1].graph && a[2].repo() is Some) by {
        reveal(App::query_kicked);
    }
    assert(a[3].graph == a[2].graph && a[3].repo() is Some) by {
        reveal(App::hit_shown);
    }
    assert(a[4].graph == a[3].graph && a[4].repo() is Some) by {
        reveal(App::preview_due);
    }
    assert(a[5].graph == a[4].graph && a[5].repo() is Some) by {
        reveal(App::neighbours_due);
    }
}

proof fn lemma_served_tab_keeps_the_key(
    a: App,
    b: App,
    now: u64,
    fx: Seq<Effect<Seq<char>>>,
    fx2: Seq<Effect<Seq<char>>>,
)
    requires
        a.tab_served(b, now, fx, fx2),
        a.repo() is Some,
    ensures
        b.graph.git_graph.cache_key == a.graph.git_graph.cache_key,
{
    let s = a.tree_kicked().catalog_kicked();
    let first = a.tree_kick() + a.catalog_kick();
    let sent = fx2.skip(fx.len() as int).skip(first.len() as int);
    assert(s.tab_kicked(b, now, sent)) by {
        reveal(App::tab_served);
    }
    assert(s.graph == a.graph && s.repo() == a.repo());
    lemma_kicked_tab_keeps_the_key(s, b, now, sent);
}

proof fn lemma_kicked_tab_keeps_the_key(s: App, b: App, now: u64, sent: Seq<Effect<Seq<char>>>)
    requires
        s.tab_kicked(b, now, sent),
        s.repo() is Some,
    ensures
        b.graph.git_graph.cache_key == s.graph.git_graph.cache_key,
{
    match s.screen.active_tab {
        Tab::Files | Tab::Search => {
            assert(s.preview_kicked(now).graph == s.graph);
        },
        Tab::Git => {
            assert(s.git_kicked(now).graph == s.graph);
        },
        Tab::Graph => {
            let polled = s.graph_polled(b.graph.git_graph, now);
            assert(polled.graph.git_graph == s.graph.git_graph);
            assert(polled.detail_kicked().graph.git_graph.cache_key
                == polled.graph.git_graph.cache_key);
        },
    }
}

proof fn lemma_opening_keeps_the_graph(a: Seq<App>, e: Seq<Seq<Effect<Seq<char>>>>, t: Tick)
    requires
        turn(a, e, t),
    ensures
        a[11].graph == a[9].graph,
{
    assert(a[10].graph == a[9].graph) by {
        reveal(App::place_opened);
    }
    assert(a[11].graph == a[10].graph) by {
        reveal(App::drag_opened);
    }
}

} // verus!
