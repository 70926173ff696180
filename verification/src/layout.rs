//! Tabs, panels and column widths, and the settings of the diff views.
use crate::effects::{Effect, Effects, Notice, Pref, ToastLevel};
use crate::text::{opt_str_view, same_str, starts_with, trim_end_char, without_trailing};
use vstd::prelude::*;
use vstd::string::*;

verus! {

/// `Settings` takes the whole screen and hides the tabs; background work goes
/// on behind it.
#[derive(Debug, Clone, Copy, PartialEq, Eq, Structural)]
pub enum ViewMode {
    Main,
    Settings,
}

#[derive(Debug, Clone, Copy, PartialEq, Eq, Structural)]
pub enum Tab {
    Git,
    Files,
    Graph,
    Search,
}

/// The titles of the tabs in the user's language.
#[derive(Debug, Clone, Copy)]
pub struct TabTitles {
    pub files: &'static str,
    pub search: &'static str,
    pub git: &'static str,
    pub graph: &'static str,
}

impl Tab {
    /// The order in which the tab bar shows the tabs and the digit keys count
    /// them.
    pub fn all() -> (r: [Tab; 4])
        ensures
            r@ == seq![Tab::Files, Tab::Search, Tab::Git, Tab::Graph],
    {
        [Tab::Files, Tab::Search, Tab::Git, Tab::Graph]
    }

    pub fn label(self, titles: TabTitles) -> (r: &'static str)
        ensures
            r@ == (match self {
                Tab::Files => titles.files,
                Tab::Search => titles.search,
                Tab::Git => titles.git,
                Tab::Graph => titles.graph,
            })@,
    {
        match self {
            Tab::Files => titles.files,
            Tab::Search => titles.search,
            Tab::Git => titles.git,
            Tab::Graph => titles.graph,
        }
    }
}

/// The columns of the screen. `Commit` is the middle column, which only the
/// graph tab has.
#[derive(Debug, Clone, Copy, PartialEq, Eq, Structural)]
pub enum Panel {
    Files,
    Commit,
    Diff,
}

#[derive(Debug, Clone, Copy, PartialEq, Eq, Structural)]
pub enum DiffLayout {
    Unified,
    SideBySide,
}

impl DiffLayout {
    pub open spec fn name(self) -> Seq<char> {
        match self {
            DiffLayout::Unified => "unified"@,
            DiffLayout::SideBySide => "side_by_side"@,
        }
    }

    pub open spec fn named(s: Seq<char>) -> Self {
        if s == "side_by_side"@ {
            DiffLayout::SideBySide
        } else {
            DiffLayout::Unified
        }
    }

    /// The text under which the layout is kept in the preferences.
    pub fn pref_str(self) -> (r: &'static str)
        ensures
            r@ == self.name(),
    {
        match self {
            DiffLayout::Unified => "unified",
            DiffLayout::SideBySide => "side_by_side",
        }
    }

    pub fn from_pref_str(s: &str) -> (r: Self)
        ensures
            r == Self::named(s@),
    {
        if same_str(s, "side_by_side") {
            DiffLayout::SideBySide
        } else {
            DiffLayout::Unified
        }
    }

    pub open spec fn other(self) -> Self {
        match self {
            DiffLayout::Unified => DiffLayout::SideBySide,
            DiffLayout::SideBySide => DiffLayout::Unified,
        }
    }

    pub fn toggled(self) -> (r: Self)
        ensures
            r == self.other(),
    {
        match self {
            DiffLayout::Unified => DiffLayout::SideBySide,
            DiffLayout::SideBySide => DiffLayout::Unified,
        }
    }
}

#[derive(Debug, Clone, Copy, PartialEq, Eq, Structural)]
pub enum DiffMode {
    Compact,
    FullFile,
}

impl DiffMode {
    pub open spec fn name(self) -> Seq<char> {
        match self {
            DiffMode::Compact => "compact"@,
            DiffMode::FullFile => "full_file"@,
        }
    }

    pub open spec fn named(s: Seq<char>) -> Self {
        if s == "full_file"@ {
            DiffMode::FullFile
        } else {
            DiffMode::Compact
        }
    }

    /// The text under which the mode is kept in the preferences.
    pub fn pref_str(self) -> (r: &'static str)
        ensures
            r@ == self.name(),
    {
        match self {
            DiffMode::Compact => "compact",
            DiffMode::FullFile => "full_file",
        }
    }

    pub fn from_pref_str(s: &str) -> (r: Self)
        ensures
            r == Self::named(s@),
    {
        if same_str(s, "full_file") {
            DiffMode::FullFile
        } else {
            DiffMode::Compact
        }
    }

    pub open spec fn other(self) -> Self {
        match self {
            DiffMode::Compact => DiffMode::FullFile,
            DiffMode::FullFile => DiffMode::Compact,
        }
    }

    pub fn toggled(self) -> (r: Self)
        ensures
            r == self.other(),
    {
        match self {
            DiffMode::Compact => DiffMode::FullFile,
            DiffMode::FullFile => DiffMode::Compact,
        }
    }

    /// The lines of context around a change.
    pub open spec fn lines(self) -> u32 {
        match self {
            DiffMode::Compact => 3,
            DiffMode::FullFile => 9999,
        }
    }

    pub fn context(self) -> (r: u32)
        ensures
            r == self.lines(),
    {
        match self {
            DiffMode::Compact => 3,
            DiffMode::FullFile => 9999,
        }
    }
}

/// The layout and the mode that the preferences hold.
pub fn load_prefs(layout: Option<&str>, mode: Option<&str>) -> (r: (DiffLayout, DiffMode))
    ensures
        r.0 == (match opt_str_view(layout) {
            Some(s) => DiffLayout::named(s),
            None => DiffLayout::Unified,
        }),
        r.1 == (match opt_str_view(mode) {
            Some(s) => DiffMode::named(s),
            None => DiffMode::Compact,
        }),
{
    let l = match layout {
        Some(s) => DiffLayout::from_pref_str(s),
        None => DiffLayout::Unified,
    };
    let m = match mode {
        Some(s) => DiffMode::from_pref_str(s),
        None => DiffMode::Compact,
    };
    (l, m)
}

pub open spec fn saved_prefs(layout: DiffLayout, mode: DiffMode) -> Seq<Effect<Seq<char>>> {
    seq![
        Effect::SetPref { pref: Pref::DiffLayout, value: layout.name() },
        Effect::SetPref { pref: Pref::DiffMode, value: mode.name() },
    ]
}

pub fn save_prefs(layout: DiffLayout, mode: DiffMode, fx: &mut Effects)
    ensures
        final(fx)@ == old(fx)@ + saved_prefs(layout, mode),
{
    fx.emit(Effect::SetPref { pref: Pref::DiffLayout, value: layout.pref_str().to_owned() });
    fx.emit(Effect::SetPref { pref: Pref::DiffMode, value: mode.pref_str().to_owned() });
    assert(fx@ =~= old(fx)@ + saved_prefs(layout, mode));
}

/// What is written for a setting of the diff views is read back as the same
/// setting.
pub proof fn law_diff_prefs_round_trip(layout: DiffLayout, mode: DiffMode)
    ensures
        DiffLayout::named(layout.name()) == layout,
        DiffMode::named(mode.name()) == mode,
{
    reveal_strlit("unified");
    reveal_strlit("side_by_side");
    reveal_strlit("compact");
    reveal_strlit("full_file");
    assert("unified"@.len() != "side_by_side"@.len());
    assert("compact"@.len() != "full_file"@.len());
}

/// `file` is `folder` itself or lies below it.
pub open spec fn lies_in(folder: Seq<char>, file: Seq<char>) -> bool {
    file == folder || (without_trailing(folder, '/') + seq!['/']).is_prefix_of(file)
}

pub fn folder_contains(folder_path: &str, file_path: &str) -> (r: bool)
    ensures
        r == lies_in(folder_path@, file_path@),
{
    if same_str(file_path, folder_path) {
        return true;
    }
    let mut prefix = trim_end_char(folder_path, '/');
    prefix.push('/');
    assert(prefix@ =~= without_trailing(folder_path@, '/') + seq!['/']);
    starts_with(file_path, prefix.as_str())
}

// ── Column widths ────────────────────────────────────────────────────────

/// The least width at which the graph tab shows three columns.
pub const GRAPH_THREE_COL_MIN_WIDTH: u16 = 100;

/// The graph tab shows three columns when it is wide enough and there is a
/// file diff to show, or one on its way.
pub open spec fn three_columns(tab: Tab, total: u16, has_file_diff: bool, in_flight: bool) -> bool {
    tab == Tab::Graph && total >= GRAPH_THREE_COL_MIN_WIDTH && (has_file_diff || in_flight)
}

pub fn compute_uses_three_col(
    active_tab: Tab,
    total_width: u16,
    has_file_diff: bool,
    load_in_flight: bool,
) -> (r: bool)
    ensures
        r == three_columns(active_tab, total_width, has_file_diff, load_in_flight),
{
    active_tab == Tab::Graph && total_width >= GRAPH_THREE_COL_MIN_WIDTH && (has_file_diff
        || load_in_flight)
}

pub open spec fn less_or_zero(a: int, b: int) -> int {
    if a >= b {
        a - b
    } else {
        0
    }
}

/// `percent` of `total`, in sixteen bits.
pub open spec fn share(total: int, percent: int) -> int {
    (total * percent / 100) % 65536
}

/// `x` raised to `low`, then held to `high`.
pub open spec fn fitted(x: int, low: int, high: int) -> int {
    let y = if x < low {
        low
    } else {
        x
    };
    if y > high {
        high
    } else {
        y
    }
}

/// The sidebar takes its share, at least 10 columns, and leaves 20.
pub open spec fn sidebar_width(total: int, percent: int) -> int {
    fitted(share(total, percent), 10, less_or_zero(total, 20))
}

fn share_of(total: u16, percent: u16) -> (r: u16)
    ensures
        r == share(total as int, percent as int),
{
    assert(total * percent <= 65535 * 65535) by (nonlinear_arith)
        requires
            total <= 65535,
            percent <= 65535,
    ;
    let x: u32 = total as u32 * percent as u32 / 100;
    assert(x as u16 == x % 65536) by (bit_vector);
    x as u16
}

fn fit(x: u16, low: u16, high: u16) -> (r: u16)
    ensures
        r == fitted(x as int, low as int, high as int),
{
    let y: u16 = if x < low {
        low
    } else {
        x
    };
    if y > high {
        high
    } else {
        y
    }
}

pub fn compute_sidebar_width(total_width: u16, split_percent: u16) -> (r: u16)
    ensures
        r == sidebar_width(total_width as int, split_percent as int),
{
    fit(share_of(total_width, split_percent), 10, total_width.saturating_sub(20))
}

/// The widths of the sidebar, the commit column and the diff column. The diff
/// takes its share of what the sidebar leaves, at least 20 columns, and leaves
/// 20 to the commit column.
pub open spec fn column_widths(total: int, sidebar: int, percent: int) -> (int, int, int) {
    let rest = less_or_zero(total, sidebar);
    let diff = fitted(share(rest, percent), 20, less_or_zero(rest, 20));
    (sidebar, less_or_zero(rest, diff), diff)
}

pub fn compute_three_col_widths(
    total_width: u16,
    sidebar_w: u16,
    graph_diff_split_percent: u16,
) -> (r: (u16, u16, u16))
    ensures
        (r.0 as int, r.1 as int, r.2 as int) == column_widths(
            total_width as int,
            sidebar_w as int,
            graph_diff_split_percent as int,
        ),
{
    let remainder: u16 = total_width.saturating_sub(sidebar_w);
    let diff_w: u16 = fit(
        share_of(remainder, graph_diff_split_percent),
        20,
        remainder.saturating_sub(20),
    );
    let commit_w: u16 = remainder.saturating_sub(diff_w);
    (sidebar_w, commit_w, diff_w)
}

/// The three columns fill the screen exactly, whatever the split, as long as
/// the sidebar fits on it.
pub proof fn law_columns_fill_the_screen(total: int, sidebar: int, percent: int)
    requires
        0 <= sidebar <= total,
    ensures
        ({
            let (g, c, d) = column_widths(total, sidebar, percent);
            g + c + d == total && g >= 0 && c >= 0 && d >= 0
        }),
{
    let rest = less_or_zero(total, sidebar);
    assert(0 <= share(rest, percent));
}

/// With 40 columns or more beside the sidebar, neither right column is
/// narrower than 20.
pub proof fn law_right_columns_stay_usable(total: int, sidebar: int, percent: int)
    requires
        0 <= sidebar,
        sidebar + 40 <= total,
    ensures
        column_widths(total, sidebar, percent).1 >= 20,
        column_widths(total, sidebar, percent).2 >= 20,
{
}

/// On a screen of 30 columns or more the sidebar has at least 10 and leaves
/// at least 20.
pub proof fn law_sidebar_leaves_room(total: int, percent: int)
    requires
        total >= 30,
    ensures
        10 <= sidebar_width(total, percent) <= total - 20,
{
}

// ── The screen ───────────────────────────────────────────────────────────

/// What the user looks at, and how the columns are split.
#[derive(Debug)]
pub struct Screen {
    pub active_tab: Tab,
    pub active_panel: Panel,
    pub view_mode: ViewMode,
    pub split_percent: u16,
    pub sidebar_visible: bool,
    pub sidebar_hide_hint_shown: bool,
    pub dragging_split: bool,
    pub graph_diff_split_percent: u16,
    pub dragging_graph_diff_split: bool,
    pub last_total_width: u16,
    /// Whether text of the preview, or of the diff, is marked.
    pub preview_selection: bool,
    pub diff_selection: bool,
    /// Whether a click on either waits for the next one.
    pub preview_click: bool,
    pub diff_click: bool,
    pub show_help: bool,
    pub select_mode: bool,
    /// Whether a text field of the settings page is open.
    pub settings_editing: bool,
    pub last_preview_view_h: u16,
    pub last_diff_view_h: u16,
    pub last_commit_detail_view_h: u16,
}

impl Screen {
    pub open spec fn first() -> Self {
        Screen {
            active_tab: Tab::Files,
            active_panel: Panel::Files,
            view_mode: ViewMode::Main,
            split_percent: 30,
            sidebar_visible: true,
            sidebar_hide_hint_shown: false,
            dragging_split: false,
            graph_diff_split_percent: 60,
            dragging_graph_diff_split: false,
            last_total_width: 0,
            preview_selection: false,
            diff_selection: false,
            preview_click: false,
            diff_click: false,
            show_help: false,
            select_mode: false,
            settings_editing: false,
            last_preview_view_h: 0,
            last_diff_view_h: 0,
            last_commit_detail_view_h: 0,
        }
    }

    /// The screen of a new session.
    pub fn new() -> (r: Self)
        ensures
            r == Self::first(),
    {
        Screen {
            active_tab: Tab::Files,
            active_panel: Panel::Files,
            view_mode: ViewMode::Main,
            split_percent: 30,
            sidebar_visible: true,
            sidebar_hide_hint_shown: false,
            dragging_split: false,
            graph_diff_split_percent: 60,
            dragging_graph_diff_split: false,
            last_total_width: 0,
            preview_selection: false,
            diff_selection: false,
            preview_click: false,
            diff_click: false,
            show_help: false,
            select_mode: false,
            settings_editing: false,
            last_preview_view_h: 0,
            last_diff_view_h: 0,
            last_commit_detail_view_h: 0,
        }
    }

    pub open spec fn sidebar(self, total: u16) -> int {
        if self.sidebar_visible {
            sidebar_width(total as int, self.split_percent as int)
        } else {
            0
        }
    }

    pub fn graph_sidebar_width(&self, total_width: u16) -> (r: u16)
        ensures
            r == self.sidebar(total_width),
    {
        if !self.sidebar_visible {
            return 0;
        }
        compute_sidebar_width(total_width, self.split_percent)
    }

    pub fn graph_three_col_widths(&self, total_width: u16) -> (r: (u16, u16, u16))
        ensures
            (r.0 as int, r.1 as int, r.2 as int) == column_widths(
                total_width as int,
                self.sidebar(total_width),
                self.graph_diff_split_percent as int,
            ),
    {
        let sidebar: u16 = self.graph_sidebar_width(total_width);
        compute_three_col_widths(total_width, sidebar, self.graph_diff_split_percent)
    }

    pub open spec fn three_col(self, has_file_diff: bool, in_flight: bool) -> bool {
        three_columns(self.active_tab, self.last_total_width, has_file_diff, in_flight)
    }

    pub fn graph_uses_three_col(&self, has_file_diff: bool, load_in_flight: bool) -> (r: bool)
        ensures
            r == self.three_col(has_file_diff, load_in_flight),
    {
        compute_uses_three_col(
            self.active_tab,
            self.last_total_width,
            has_file_diff,
            load_in_flight,
        )
    }

    pub open spec fn without_diff_selection(self) -> Self {
        Screen { diff_selection: false, diff_click: false, ..self }
    }

    pub fn clear_diff_selection(&mut self)
        ensures
            *final(self) == old(self).without_diff_selection(),
    {
        self.diff_selection = false;
        self.diff_click = false;
    }

    /// The screen with `tab` in front: nothing is marked, and the git tab
    /// starts in its sidebar.
    pub open spec fn turned_to(self, tab: Tab) -> Self {
        Screen {
            active_tab: tab,
            active_panel: if tab == Tab::Git {
                Panel::Files
            } else {
                self.active_panel
            },
            preview_selection: false,
            preview_click: false,
            ..self.without_diff_selection()
        }
    }

    pub fn turn_to(&mut self, tab: Tab)
        ensures
            *final(self) == old(self).turned_to(tab),
    {
        self.active_tab = tab;
        self.preview_selection = false;
        self.preview_click = false;
        self.clear_diff_selection();
        if tab == Tab::Git {
            self.active_panel = Panel::Files;
        }
    }

    /// The page `mode` in front, with no text field of the settings open.
    pub open spec fn with_page(self, mode: ViewMode) -> Self {
        Screen { view_mode: mode, settings_editing: false, ..self }
    }

    pub fn show_page(&mut self, mode: ViewMode)
        ensures
            *final(self) == old(self).with_page(mode),
    {
        self.view_mode = mode;
        self.settings_editing = false;
    }

    pub fn hide_help(&mut self)
        ensures
            *final(self) == (Screen { show_help: false, ..*old(self) }),
    {
        self.show_help = false;
    }

    /// The line between two columns follows the pointer from here on.
    pub open spec fn dragging(self, graph: bool) -> Self {
        if graph {
            Screen { dragging_graph_diff_split: true, ..self }
        } else {
            Screen { dragging_split: true, ..self }
        }
    }

    pub fn start_drag(&mut self, graph: bool)
        ensures
            *final(self) == old(self).dragging(graph),
    {
        if graph {
            self.dragging_graph_diff_split = true;
        } else {
            self.dragging_split = true;
        }
    }

    /// The focus moves off a column that is not on screen, and a selection in
    /// a diff column that is gone is dropped.
    pub open spec fn normalized(self, three: bool) -> Self {
        let panel = if self.active_panel == Panel::Commit && !three {
            Panel::Diff
        } else {
            self.active_panel
        };
        let panel = if !self.sidebar_visible && panel == Panel::Files {
            Panel::Diff
        } else {
            panel
        };
        let s = Screen { active_panel: panel, ..self };
        if self.active_tab == Tab::Graph && self.diff_selection && !three {
            s.without_diff_selection()
        } else {
            s
        }
    }

    pub fn normalize_active_panel(&mut self, has_file_diff: bool, load_in_flight: bool)
        ensures
            *final(self) == old(self).normalized(old(self).three_col(has_file_diff, load_in_flight)),
    {
        let three = self.graph_uses_three_col(has_file_diff, load_in_flight);
        if self.active_panel == Panel::Commit && !three {
            self.active_panel = Panel::Diff;
        }
        if !self.sidebar_visible && self.active_panel == Panel::Files {
            self.active_panel = Panel::Diff;
        }
        if self.active_tab == Tab::Graph && self.diff_selection && !three {
            self.clear_diff_selection();
        }
    }

    pub open spec fn sidebar_toggled(self) -> Self {
        if !self.sidebar_visible {
            Screen { sidebar_visible: true, ..self }
        } else {
            Screen {
                sidebar_visible: false,
                active_panel: if self.active_panel == Panel::Files {
                    Panel::Diff
                } else {
                    self.active_panel
                },
                dragging_split: false,
                dragging_graph_diff_split: false,
                sidebar_hide_hint_shown: true,
                ..self
            }
        }
    }

    /// The hint is given once, the first time the sidebar goes.
    pub open spec fn sidebar_hint(self) -> Seq<Effect<Seq<char>>> {
        if self.sidebar_visible && !self.sidebar_hide_hint_shown {
            seq![Effect::Say { level: ToastLevel::Info, notice: Notice::SidebarHidden }]
        } else {
            Seq::empty()
        }
    }

    pub fn toggle_sidebar(&mut self, fx: &mut Effects)
        ensures
            *final(self) == old(self).sidebar_toggled(),
            final(fx)@ == old(fx)@ + old(self).sidebar_hint(),
    {
        self.sidebar_visible = !self.sidebar_visible;
        if !self.sidebar_visible {
            if self.active_panel == Panel::Files {
                self.active_panel = Panel::Diff;
            }
            self.dragging_split = false;
            self.dragging_graph_diff_split = false;
            if !self.sidebar_hide_hint_shown {
                self.sidebar_hide_hint_shown = true;
                fx.emit(Effect::Say { level: ToastLevel::Info, notice: Notice::SidebarHidden });
            }
        }
        assert(fx@ =~= old(fx)@ + old(self).sidebar_hint());
    }
}

/// The focus is never on a column that is not on screen.
pub proof fn law_focus_is_visible(s: Screen, three: bool)
    ensures
        s.normalized(three).active_panel == Panel::Commit ==> three,
        s.normalized(three).active_panel == Panel::Files ==> s.sidebar_visible,
        s.sidebar_visible ==> s.sidebar_toggled().active_panel != Panel::Files,
{
}

} // verus!
