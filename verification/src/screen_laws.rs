//! Laws of the screen, of the editor that is started, and of the command line.
use crate::cli::{
    cli_from, expanded, launch_of, suffix_of, target_parts, CliModel, LaunchModel,
};
use crate::editor::editor_of;
use crate::effects::{Effect, Pref};
use crate::layout::{
    column_widths, saved_prefs, sidebar_width, three_columns, DiffLayout, DiffMode, Panel, Screen,
    Tab, ViewMode,
};
use crate::paths::pushed_path;
use crate::text::words;
use crate::text_laws::law_character_is_found_first;
use vstd::prelude::*;

verus! {

// ── Columns ──────────────────────────────────────────────────────────────

/// The sidebar takes its share of the screen where that leaves room, and the
/// diff takes its share of the rest.
pub proof fn law_columns_take_their_share(total: int, percent: int, sidebar: int)
    requires
        0 <= total < 65536,
        0 <= percent <= 100,
        0 <= sidebar <= total,
    ensures
        10 <= total * percent / 100 <= total - 20 ==> sidebar_width(total, percent) == total
            * percent / 100,
        20 <= (total - sidebar) * percent / 100 <= total - sidebar - 20 ==> column_widths(
            total,
            sidebar,
            percent,
        ).2 == (total - sidebar) * percent / 100,
        column_widths(total, sidebar, percent).0 == sidebar,
{
    assert(0 <= total * percent / 100 < 65536) by (nonlinear_arith)
        requires
            0 <= total < 65536,
            0 <= percent <= 100,
    ;
    let rest = total - sidebar;
    assert(0 <= rest * percent / 100 < 65536) by (nonlinear_arith)
        requires
            0 <= rest < 65536,
            0 <= percent <= 100,
    ;
}

/// A hidden sidebar takes no room.
pub proof fn law_hidden_sidebar_takes_no_room(s: Screen, total: u16)
    ensures
        !s.sidebar_visible ==> s.sidebar(total) == 0,
        s.sidebar_visible ==> s.sidebar(total) == sidebar_width(
            total as int,
            s.split_percent as int,
        ),
{
}

/// The graph has a column for the diff of a file where there is room, and such
/// a diff is shown or on its way. No other tab has one.
pub proof fn law_third_column_is_for_the_file_diff(tab: Tab, total: u16, shown: bool, coming: bool)
    ensures
        three_columns(tab, total, shown, coming) <==> tab == Tab::Graph && total >= 100 && (shown
            || coming),
{
}

/// Another tab comes to the front with nothing marked; the git tab starts in
/// its sidebar.
pub proof fn law_tab_comes_to_the_front(s: Screen, tab: Tab)
    ensures
        s.turned_to(tab).active_tab == tab,
        tab == Tab::Git ==> s.turned_to(tab).active_panel == Panel::Files,
        tab != Tab::Git ==> s.turned_to(tab).active_panel == s.active_panel,
        !s.turned_to(tab).preview_selection,
        !s.turned_to(tab).diff_selection,
        s.turned_to(tab).sidebar_visible == s.sidebar_visible,
        s.turned_to(tab).split_percent == s.split_percent,
{
}

/// A page comes to the front with no field of the settings open.
pub proof fn law_page_comes_to_the_front(s: Screen, mode: ViewMode)
    ensures
        s.with_page(mode).view_mode == mode,
        !s.with_page(mode).settings_editing,
        s.with_page(mode).active_tab == s.active_tab,
{
}

/// The keys stay on their panel while it is on screen.
pub proof fn law_keys_stay_on_a_visible_panel(s: Screen, three: bool)
    ensures
        (s.active_panel == Panel::Diff || (s.active_panel == Panel::Files && s.sidebar_visible) || (
        s.active_panel == Panel::Commit && three)) ==> s.normalized(three).active_panel
            == s.active_panel,
        s.normalized(three).active_tab == s.active_tab,
        s.active_tab != Tab::Graph || three ==> s.normalized(three).diff_selection
            == s.diff_selection,
        s.active_tab == Tab::Graph && !three ==> !s.normalized(three).diff_selection,
{
}

/// The sidebar is hidden and shown in turn, and how it comes back is told the
/// first time that it goes.
pub proof fn law_sidebar_toggles(s: Screen)
    ensures
        s.sidebar_toggled().sidebar_visible != s.sidebar_visible,
        s.sidebar_toggled().sidebar_toggled().sidebar_visible == s.sidebar_visible,
        s.sidebar_hint().len() > 0 <==> s.sidebar_visible && !s.sidebar_hide_hint_shown,
        s.sidebar_hint().len() > 0 ==> s.sidebar_hint()[0] is Say
            && s.sidebar_hint()[0]->Say_notice is SidebarHidden,
        s.sidebar_visible ==> s.sidebar_toggled().sidebar_toggled().sidebar_hint().len() == 0,
        s.active_panel != Panel::Files ==> s.sidebar_toggled().active_panel == s.active_panel,
{
}

/// The layout and the mode of diffs are each kept under their own name.
pub proof fn law_prefs_are_kept_by_name(layout: DiffLayout, mode: DiffMode)
    ensures
        saved_prefs(layout, mode).len() == 2,
        saved_prefs(layout, mode)[0] == (Effect::<Seq<char>>::SetPref {
            pref: Pref::DiffLayout,
            value: layout.name(),
        }),
        saved_prefs(layout, mode)[1] == (Effect::<Seq<char>>::SetPref {
            pref: Pref::DiffMode,
            value: mode.name(),
        }),
        layout.other() != layout,
        mode.other() != mode,
        DiffMode::Compact.lines() < DiffMode::FullFile.lines(),
{
}

/// Dragging moves the line that was taken hold of.
pub proof fn law_one_line_is_dragged(s: Screen)
    ensures
        s.dragging(true).dragging_graph_diff_split,
        s.dragging(true).dragging_split == s.dragging_split,
        s.dragging(false).dragging_split,
        s.dragging(false).dragging_graph_diff_split == s.dragging_graph_diff_split,
{
}

// ── The editor ───────────────────────────────────────────────────────────

/// A setting that holds a word, and so a command.
pub open spec fn is_set(setting: Option<Seq<char>>) -> bool {
    setting is Some && words(setting->0).len() > 0
}

/// The editor is the first that is set of the preference, the visual editor and
/// the editor; with none it is `vi` on a Unix. It is started with the words
/// behind its name.
pub proof fn law_first_editor_that_is_set(
    pref: Option<Seq<char>>,
    visual: Option<Seq<char>>,
    editor: Option<Seq<char>>,
    unix: bool,
)
    ensures
        ({
            let e = editor_of(pref, visual, editor, unix);
            let from = if is_set(pref) {
                pref
            } else if is_set(visual) {
                visual
            } else {
                editor
            };
            &&& is_set(pref) || is_set(visual) || is_set(editor) ==> e is Some
                && e == Some((words(from->0)[0], words(from->0).drop_first()))
            &&& !is_set(pref) && !is_set(visual) && !is_set(editor) ==> (e is Some <==> unix)
            &&& !is_set(pref) && !is_set(visual) && !is_set(editor) && unix ==> e == Some(
                ("vi"@, Seq::<Seq<char>>::empty()),
            )
        }),
{
    assert(forall|s: Seq<Seq<char>>| s.len() > 0 ==> #[trigger] s.skip(1) =~= s.drop_first());
}

// ── The command line ─────────────────────────────────────────────────────

/// A target is a host and, behind the first colon, a directory; without one, or
/// with an empty one, the directory is the one that the host starts in.
pub proof fn law_target_is_host_and_directory(host: Seq<char>, dir: Seq<char>)
    requires
        !host.contains(':'),
    ensures
        dir.len() > 0 ==> target_parts(host + seq![':'] + dir) == (host, dir),
        target_parts(host + seq![':']) == (host, "."@),
        target_parts(host) == (host, "."@),
{
    let s = host + seq![':'] + dir;
    let t = host + seq![':'];
    let n = host.len() as int;
    assert(s[n] == ':' && t[n] == ':');
    assert(s.contains(':') && t.contains(':'));
    law_character_is_found_first(s, ':');
    law_character_is_found_first(t, ':');
    law_character_is_found_first(host, ':');
    let (i, j) = (crate::text::index_of_char(s, ':'), crate::text::index_of_char(t, ':'));
    if i < n {
        assert(host[i] == s[i]);
    }
    if j < n {
        assert(host[j] == t[j]);
    }
    assert(s.take(n) =~= host);
    assert(t.take(n) =~= host);
    assert(s.skip(n + 1) =~= dir);
}

/// A workspace is opened on another machine where one is named, else through
/// the agent that is given, else in the directory that is given, else here. A
/// target without a host and an agent without a word are refused.
pub proof fn law_workspace_is_the_one_asked_for(
    agent: Option<Seq<char>>,
    ssh: Option<Seq<char>>,
    path: Option<Seq<char>>,
)
    ensures
        ssh matches Some(t) ==> {
            let r = launch_of(agent, ssh, path);
            &&& r is Ssh <==> target_parts(t).0.len() > 0
            &&& r is Fault <==> target_parts(t).0.len() == 0
            &&& r matches LaunchModel::Ssh { host, workdir } ==> (host, workdir) == target_parts(t)
        },
        ssh is None ==> (agent matches Some(a) ==> {
            let r = launch_of(agent, ssh, path);
            &&& words(a).len() > 0 ==> r == (LaunchModel::Agent { argv: words(a) })
            &&& words(a).len() == 0 ==> r is Fault
        }),
        ssh is None && agent is None ==> (path matches Some(p) ==> launch_of(agent, ssh, path) == (
        LaunchModel::Directory { raw: p })),
        ssh is None && agent is None && path is None ==> launch_of(agent, ssh, path)
            is CurrentDirectory,
{
}

/// A tilde in front stands for the home directory; any other path stands for
/// itself.
pub proof fn law_tilde_is_the_home_directory(rest: Seq<char>, raw: Seq<char>, home: Option<Seq<char>>)
    ensures
        expanded("~"@, home) == home,
        home matches Some(h) ==> expanded("~/"@ + rest, home) == Some(pushed_path(h, rest)),
        home is None ==> expanded("~/"@ + rest, home) is None,
        raw.len() == 0 || raw[0] != '~' ==> expanded(raw, home) == Some(raw),
{
    reveal_strlit("~");
    reveal_strlit("~/");
    let p = "~/"@ + rest;
    assert(p.take(2) =~= "~/"@);
    assert(p.skip(2) =~= rest);
    assert(p.len() >= 2);
    if raw.len() == 0 || raw[0] != '~' {
        assert("~"@[0] == '~');
        assert("~/"@[0] == '~');
        assert(!"~/"@.is_prefix_of(raw));
    }
}

/// Each argument does its own: help ends the reading, an agent, a target and a
/// path are each taken as given, an option without its value and one that is
/// not known are refused, and so is a second path.
pub proof fn law_arguments_are_read_one_by_one(
    args: Seq<Seq<char>>,
    i: int,
    a: Option<Seq<char>>,
    s: Option<Seq<char>>,
    p: Option<Seq<char>>,
)
    requires
        0 <= i < args.len(),
    ensures
        args[i] == "--help"@ || args[i] == "-h"@ ==> cli_from(args, i, a, s, p) is ShowUsage,
        args[i] == "--agent-exec"@ && i + 1 < args.len() ==> cli_from(args, i, a, s, p) == cli_from(
            args,
            i + 2,
            Some(args[i + 1]),
            s,
            p,
        ),
        args[i] == "--ssh"@ && i + 1 < args.len() ==> cli_from(args, i, a, s, p) == cli_from(
            args,
            i + 2,
            a,
            Some(args[i + 1]),
            p,
        ),
        (args[i] == "--agent-exec"@ || args[i] == "--ssh"@) && i + 1 == args.len() ==> cli_from(
            args,
            i,
            a,
            s,
            p,
        ) is Fault,
        args[i].len() > 0 && args[i][0] != '-' && p is None ==> cli_from(args, i, a, s, p)
            == cli_from(args, i + 1, a, s, Some(args[i])),
        args[i].len() > 0 && args[i][0] != '-' && p is Some ==> cli_from(args, i, a, s, p)
            is Fault,
        args[i].len() > 0 && args[i][0] == '-' && args[i] != "--help"@ && args[i] != "-h"@
            && args[i] != "--agent-exec"@ && args[i] != "--ssh"@ ==> cli_from(args, i, a, s, p)
            is Fault,
{
    reveal_strlit("--help");
    reveal_strlit("-h");
    reveal_strlit("--agent-exec");
    reveal_strlit("--ssh");
    assert("--help"@[0] == '-' && "-h"@[0] == '-' && "--agent-exec"@[0] == '-' && "--ssh"@[0]
        == '-');
    assert("--help"@.len() == 6 && "-h"@.len() == 2 && "--agent-exec"@.len() == 12
        && "--ssh"@.len() == 5);
}

/// What was read is what is started with.
pub proof fn law_arguments_are_kept(
    args: Seq<Seq<char>>,
    a: Option<Seq<char>>,
    s: Option<Seq<char>>,
    p: Option<Seq<char>>,
)
    ensures
        ({
            let n = (if a is Some {
                1int
            } else {
                0
            }) + (if s is Some {
                1int
            } else {
                0
            }) + (if p is Some {
                1int
            } else {
                0
            });
            let r = cli_from(args, args.len() as int, a, s, p);
            &&& n <= 1 ==> r == (CliModel::Start { agent_exec: a, ssh_target: s, path: p })
            &&& n > 1 ==> r is Fault
        }),
{
}

/// The directory is shown behind its host where it is not the one that the host
/// starts in.
pub proof fn law_remote_directory_is_shown(path: Seq<char>)
    ensures
        path == "."@ ==> suffix_of(path).len() == 0,
        path != "."@ ==> suffix_of(path) == ":"@ + path,
{
}

} // verus!
