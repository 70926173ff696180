//! The models that the contracts speak of show the values as they are: every
//! field stands in its place, and every case under its own name.
use crate::agent::{command_model, AgentCommand, CommandModel};
use crate::backend::SqliteValue;
use crate::cli::{cli_model, launch_model, CliCommand, CliModel, Launch, LaunchModel};
use crate::editor::command_view;
use crate::effects::{Effect, Pref};
use crate::git::{hunk_views, or_empty, DiffHunk, DiffLine, FileEntry, RefLabel};
use crate::git_activate::repository_taken;
use crate::git_pane::GitPane;
use crate::graph::GraphPane;
use crate::preview::{
    reason_model, shows_facts, step_is, value_weight, BinaryReason, ImageFormat, PreviewBody,
    PreviewContent, PreviewStep, ReasonModel, StepModel,
};
use crate::refs::{label_model, LabelModel};
use crate::repo_catalog::RepoCatalogState;
use crate::stash::{file_model, StashLine};
use vstd::prelude::*;
use vstd::string::*;

verus! {

/// A line of a diff is modelled by what it holds: its tag, its text, its
/// number on the old side and its number on the new side.
pub proof fn law_diff_lines_are_modelled_as_they_are(l: DiffLine)
    ensures
        l.view().tag == l.tag,
        l.view().content == l.content@,
        l.view().old_lineno == l.old_lineno,
        l.view().new_lineno == l.new_lineno,
{
}

/// The hunks of a diff are modelled one by one, each with its header and with
/// its lines in their order.
pub proof fn law_hunks_are_modelled_as_they_are(v: Seq<DiffHunk>, i: int, j: int)
    requires
        0 <= i < v.len(),
        0 <= j < v[i].lines@.len(),
    ensures
        hunk_views(v).len() == v.len(),
        hunk_views(v)[i].header == v[i].header@,
        hunk_views(v)[i].lines.len() == v[i].lines@.len(),
        hunk_views(v)[i].lines[j].tag == v[i].lines@[j].tag,
        hunk_views(v)[i].lines[j].content == v[i].lines@[j].content@,
        hunk_views(v)[i].lines[j].old_lineno == v[i].lines@[j].old_lineno,
        hunk_views(v)[i].lines[j].new_lineno == v[i].lines@[j].new_lineno,
{
}

/// A line of the list of stashes and a file of a stash are modelled by what
/// they hold.
pub proof fn law_stashes_are_modelled_as_they_are(s: StashLine, e: FileEntry)
    ensures
        s.view().index == s.index,
        s.view().stash_ref == s.stash_ref@,
        s.view().message == s.message@,
        s.view().created == s.created@,
        file_model(e).path == e.path@,
        file_model(e).status == e.status,
        file_model(e).additions == e.additions,
        file_model(e).deletions == e.deletions,
{
}

/// A label is modelled under its own name.
pub proof fn law_labels_are_modelled_as_they_are(l: RefLabel)
    ensures
        label_model(l) is Head <==> l is Head,
        l matches RefLabel::Branch(n) ==> label_model(l) == LabelModel::Branch(n@),
        l matches RefLabel::RemoteBranch(n) ==> label_model(l) == LabelModel::RemoteBranch(n@),
        l matches RefLabel::Tag(n) ==> label_model(l) == LabelModel::Tag(n@),
{
}

/// The agent's command line is modelled by what it asks for, or by the fault
/// in it.
pub proof fn law_agent_commands_are_modelled_as_they_are(r: Result<AgentCommand, String>)
    ensures
        command_model(r) is Fault <==> r is Err,
        r matches Err(e) ==> command_model(r) == CommandModel::Fault(e@),
        r matches Ok(c) ==> {
            &&& command_model(r) is PrintVersion <==> c is PrintVersion
            &&& command_model(r) is PrintProtocolVersion <==> c is PrintProtocolVersion
            &&& command_model(r) is PrintUsage <==> c is PrintUsage
            &&& c matches AgentCommand::Serve(a) ==> command_model(r) is Serve && command_model(
                r,
            )->stdio == a.stdio && (command_model(r)->workdir is Some <==> a.workdir is Some) && (
            a.workdir is Some ==> command_model(r)->workdir->0 == a.workdir->0@)
        },
{
}

/// The command line is modelled by what it asks for, or by the fault in it:
/// the agent's command, the remote target and the path each in its place.
pub proof fn law_commands_are_modelled_as_they_are(r: Result<CliCommand, String>)
    ensures
        cli_model(r) is Fault <==> r is Err,
        r matches Err(e) ==> cli_model(r) == CliModel::Fault(e@),
        r matches Ok(c) ==> {
            &&& cli_model(r) is ShowUsage <==> c is ShowUsage
            &&& c matches CliCommand::Start(a) ==> {
                &&& cli_model(r) is Start
                &&& cli_model(r)->agent_exec is Some <==> a.agent_exec is Some
                &&& a.agent_exec is Some ==> cli_model(r)->agent_exec->0 == a.agent_exec->0@
                &&& cli_model(r)->ssh_target is Some <==> a.ssh_target is Some
                &&& a.ssh_target is Some ==> cli_model(r)->ssh_target->0 == a.ssh_target->0@
                &&& cli_model(r)->path is Some <==> a.path is Some
                &&& a.path is Some ==> cli_model(r)->path->0 == a.path->0@
            }
        },
{
}

/// A workspace to open is modelled under its own name, a remote one by its
/// host and its directory.
pub proof fn law_launches_are_modelled_as_they_are(r: Result<Launch, String>)
    ensures
        launch_model(r) is Fault <==> r is Err,
        r matches Err(e) ==> launch_model(r) == LaunchModel::Fault(e@),
        r matches Ok(l) ==> {
            &&& launch_model(r) is CurrentDirectory <==> l is CurrentDirectory
            &&& l matches Launch::Directory { raw } ==> launch_model(r) == (
            LaunchModel::Directory { raw: raw@ })
            &&& l matches Launch::Ssh { host, workdir } ==> launch_model(r) is Ssh && launch_model(
                r,
            )->host == host@ && launch_model(r)->workdir == workdir@
            &&& l matches Launch::Agent { argv } ==> launch_model(r) is Agent && launch_model(
                r,
            )->argv.len() == argv@.len() && forall|i: int|
                0 <= i < argv@.len() ==> (#[trigger] launch_model(r)->argv[i]) == argv@[i]@
        },
{
}

/// An editor's command is modelled by its program and its arguments.
pub proof fn law_editor_commands_are_modelled_as_they_are(
    program: String,
    args: Vec<String>,
    i: int,
)
    requires
        0 <= i < args@.len(),
    ensures
        command_view(Some((program, args))) matches Some((p, a)) && (p == program@ && a.len()
            == args@.len() && a[i] == args@[i]@),
        command_view(None) is None,
{
}

/// The reason why a file has no preview is modelled under its own name.
pub proof fn law_reasons_are_modelled_as_they_are(r: BinaryReason)
    ensures
        reason_model(r) is NonImage <==> r is NonImage,
        reason_model(r) is UnsupportedImage <==> r is UnsupportedImage,
        reason_model(r) is TooLarge <==> r is TooLarge,
        reason_model(r) is NullBytes <==> r is NullBytes,
        reason_model(r) is Empty <==> r is Empty,
        r matches BinaryReason::DecodeError(m) ==> reason_model(r) == ReasonModel::DecodeError(m@),
{
}

/// The step towards a preview is the one that was decided, and a card shows
/// the file's path and size and why there is no preview.
pub proof fn law_steps_are_modelled_as_they_are(r: PreviewStep, path: Seq<char>, m: StepModel)
    requires
        step_is(r, path, m),
    ensures
        r is Show <==> m is Card,
        r is ReadDatabase <==> m is ReadDatabase,
        r is ReadImageHeader <==> m is ReadImageHeader,
        r is ReadImage <==> m is ReadImage,
        r is ReadText <==> m is ReadText,
        r matches PreviewStep::ReadImage { mime } ==> mime@ == m->ReadImage_mime,
        r matches PreviewStep::ReadImageHeader { mime } ==> mime@ == m->ReadImageHeader_mime,
        r matches PreviewStep::Show(c) ==> c.file_path@ == path && (
        c.body matches PreviewBody::Binary(b) && (b.bytes_on_disk == m->size && reason_model(
            b.reason,
        ) == m->reason)),
{
}

/// A picture is shown with its width, its height, its format and its size.
pub proof fn law_picture_facts_are_shown(
    c: PreviewContent,
    path: Seq<char>,
    size: u64,
    f: ImageFormat,
    w: u32,
    h: u32,
    animated: bool,
)
    requires
        shows_facts(c, path, size, f, w, h, animated),
    ensures
        c.file_path@ == path,
        c.body matches PreviewBody::Image(i) && (i.width_px == w && i.height_px == h && i.format
            == f && i.bytes_on_disk == size && i.animated == animated),
{
}

/// What a commit does not say is shown as nothing.
pub proof fn law_missing_texts_are_empty(s: Option<String>)
    ensures
        s matches Some(x) ==> or_empty(s) == x@,
        s is None ==> or_empty(s).len() == 0,
{
}

/// The row under the cursor of the open list of repositories is taken: it is
/// kept as the choice, and its status is asked for. A closed list opens, and
/// nothing else changes.
pub proof fn law_repository_is_taken_by_row(
    s: GitPane,
    t: GitPane,
    c: RepoCatalogState,
    c2: RepoCatalogState,
    g: GraphPane,
    g2: GraphPane,
    sent: Seq<Effect<Seq<char>>>,
)
    requires
        repository_taken(s, t, c, c2, g, g2, sent),
    ensures
        ({
            let i = s.git_status.repo_selector_idx as int;
            &&& s.repo_list_open(c) && i < c.repos@.len() ==> {
                &&& c2.selected_git_repo == Some(c.repos@[i].repo_root_rel)
                &&& sent.len() == 2
                &&& sent[0] == (Effect::<Seq<char>>::SetPref {
                    pref: Pref::SelectedRepo,
                    value: c.repos@[i].repo_root_rel@,
                })
                &&& sent[1] is RefreshStatus
                &&& sent[1]->RefreshStatus_repo == c.repos@[i].repo_root_rel@
                &&& sent[1]->RefreshStatus_generation != s.git_status_load.generation
            }
            &&& !s.repo_list_open(c) || i >= c.repos@.len() ==> c2 == c && g2 == g && sent.len()
                == 0
            &&& c2.repos == c.repos
        }),
{
}

/// What a value of a database weighs in the cache: a number eight bytes, a
/// text and a blob what they hold, and nothing else anything.
pub proof fn law_values_weigh_what_they_hold(v: SqliteValue)
    ensures
        v is Null ==> value_weight(v) == 0,
        v is Integer || v is Real ==> value_weight(v) == 8,
        v matches SqliteValue::Blob { len } ==> value_weight(v) == len,
        v matches SqliteValue::Text { value, .. } ==> value_weight(v)
            == vstd::utf8::encode_utf8(value@).len(),
{
}

} // verus!
