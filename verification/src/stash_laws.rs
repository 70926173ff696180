//! Laws of what is said to git and read from it: commands, their outcomes, and
//! the lists of stashes.
use crate::git::{FileStatus, StashEntry, StashPushOptions};
use crate::git_command::{
    base_of, branch_fault, create_fault, outcome_error, push_error, push_words, spaced, unsafe_name,
    CommandOutcome,
};
use crate::git_laws::{is_core_of, lemma_core};
use crate::stash::{
    first_with_ref, lemma_total_remove, named_files, numstat_from, numstat_record, restore_words,
    stash_branch_of, stash_lines, stash_push_words, total_of, FileModel, StashLineModel,
};
use crate::text::{bytes_text, decimal, pieces, trimmed, views};
use crate::text_laws::{
    law_numbers_are_read_as_written, law_pieces_part_at_separators, lemma_pieces_of_one,
};
use vstd::prelude::*;

verus! {

// ── Commands ─────────────────────────────────────────────────────────────

/// A command that ran and succeeded has no error, and any other has one. One
/// that failed is told by its error output, less the blanks around it, where
/// that says anything; else by its output, and else by the fallback.
pub proof fn law_failed_command_tells_why(o: CommandOutcome, missing: Seq<char>, fallback: Seq<char>)
    ensures
        outcome_error(o, missing, fallback) is None <==> (o is Exited && o->success),
        o is NotFound ==> outcome_error(o, missing, fallback) == Some(missing),
        o matches CommandOutcome::Exited { success, stdout, stderr } ==> (!success ==> {
            let e = outcome_error(o, missing, fallback)->0;
            &&& trimmed(bytes_text(stderr@)).len() > 0 ==> is_core_of(e, bytes_text(stderr@))
            &&& trimmed(bytes_text(stderr@)).len() == 0 && trimmed(bytes_text(stdout@)).len() > 0
                ==> is_core_of(e, bytes_text(stdout@))
            &&& trimmed(bytes_text(stderr@)).len() == 0 && trimmed(bytes_text(stdout@)).len() == 0
                ==> e == fallback
        }),
{
    if let CommandOutcome::Exited { success, stdout, stderr } = o {
        lemma_core(bytes_text(stderr@));
        lemma_core(bytes_text(stdout@));
    }
}

/// A push that succeeded has no error, and any other has one: its error output,
/// less the blanks around it, where that says anything.
pub proof fn law_failed_push_tells_why(o: CommandOutcome)
    ensures
        push_error(o) is None <==> (o is Exited && o->success),
        o matches CommandOutcome::Exited { success, stdout, stderr } ==> (!success && trimmed(
            bytes_text(stderr@),
        ).len() > 0 ==> is_core_of(push_error(o)->0, bytes_text(stderr@))),
{
    if let CommandOutcome::Exited { success, stdout, stderr } = o {
        lemma_core(bytes_text(stderr@));
    }
}

/// A push is forced where that is asked for, and then with a lease.
pub proof fn law_push_is_forced_with_a_lease(force: bool)
    ensures
        push_words(force)[0] == "push"@,
        push_words(force).len() == (if force {
            2int
        } else {
            1
        }),
        force ==> push_words(force)[1] == "--force-with-lease"@,
{
}

/// Words are put together with one blank between two of them.
pub proof fn law_words_are_spaced(args: Seq<Seq<char>>, word: Seq<char>)
    ensures
        args.len() == 0 ==> spaced(args.push(word)) == word,
        args.len() > 0 ==> spaced(args.push(word)) == spaced(args) + seq![' '] + word,
        spaced(Seq::empty()).len() == 0,
{
    assert(args.push(word).drop_last() =~= args);
    if args.len() > 0 {
        assert(spaced(args).push(' ') + word =~= spaced(args) + seq![' '] + word);
    }
}

/// A name is refused for a branch where it is blank, where git would take it for
/// an option, and where it holds a control character. No other is.
pub proof fn law_branch_names_are_safe(name: Seq<char>)
    ensures
        branch_fault(name) is None <==> {
            let n = trimmed(name);
            &&& n.len() > 0
            &&& n[0] != '-'
            &&& forall|i: int|
                0 <= i < n.len() ==> (#[trigger] n[i]) as u32 >= 0x20 && n[i] as u32 != 0x7f
        },
        is_core_of(trimmed(name), name),
{
    lemma_core(name);
    let n = trimmed(name);
    if n.len() > 0 && n[0] != '-' && forall|i: int|
        0 <= i < n.len() ==> (#[trigger] n[i]) as u32 >= 0x20 && n[i] as u32 != 0x7f {
        assert(!unsafe_name(n));
    }
    if !unsafe_name(n) {
        assert forall|i: int| 0 <= i < n.len() implies (#[trigger] n[i]) as u32 >= 0x20
            && n[i] as u32 != 0x7f by {
            assert(!crate::git_command::is_control(n[i]));
        }
    }
}

/// A branch can be created where its name is safe and new, git accepts it, and
/// the base that it starts from, if one is given, is safe and there. Otherwise
/// there is a reason.
pub proof fn law_branches_are_created_where_nothing_speaks_against_it(
    branch: Seq<char>,
    taken: bool,
    check: CommandOutcome,
    base: Option<Seq<char>>,
    base_found: bool,
)
    ensures
        create_fault(branch, taken, check, base, base_found) is None <==> {
            &&& branch_fault(branch) is None
            &&& !taken
            &&& check is Exited
            &&& check->success
            &&& base matches Some(b) ==> (trimmed(b).len() > 0 ==> base_found && !unsafe_name(
                trimmed(b),
            ))
        },
{
}

/// The base is the one that was given, less the blanks around it, and none where
/// it is blank.
pub proof fn law_blank_base_is_none(base: Option<Seq<char>>)
    ensures
        base is None ==> base_of(base) is None,
        base matches Some(b) ==> {
            &&& base_of(base) is Some <==> trimmed(b).len() > 0
            &&& base_of(base) matches Some(t) ==> is_core_of(t, b)
        },
{
    if let Some(b) = base {
        lemma_core(b);
    }
}

// ── The words of a stash ─────────────────────────────────────────────────

/// The options of a stash, as its words: untracked files, the index that is
/// kept, what is staged alone, the message where there is one, and the paths
/// behind two dashes.
pub proof fn law_stash_words_hold_the_options(o: StashPushOptions)
    ensures
        ({
            let w = stash_push_words(o);
            let u: int = if o.include_untracked {
                1
            } else {
                0
            };
            let k: int = if o.keep_index {
                1
            } else {
                0
            };
            let s: int = if o.staged_only {
                1
            } else {
                0
            };
            let m: int = if trimmed(o.message@).len() > 0 {
                2
            } else {
                0
            };
            &&& w[0] == "stash"@
            &&& w[1] == "push"@
            &&& o.include_untracked ==> w[2] == "-u"@
            &&& o.keep_index ==> w[2 + u] == "--keep-index"@
            &&& o.staged_only ==> w[2 + u + k] == "--staged"@
            &&& m > 0 ==> w[2 + u + k + s] == "-m"@ && w[3 + u + k + s] == o.message@
            &&& o.paths@.len() > 0 ==> w[2 + u + k + s + m] == "--"@ && w.skip(
                3 + u + k + s + m,
            ) == views(o.paths@)
            &&& o.paths@.len() == 0 ==> w.len() == 2 + u + k + s + m
        }),
{
    let w = stash_push_words(o);
    let u: int = if o.include_untracked {
        1
    } else {
        0
    };
    let k: int = if o.keep_index {
        1
    } else {
        0
    };
    let s: int = if o.staged_only {
        1
    } else {
        0
    };
    let m: int = if trimmed(o.message@).len() > 0 {
        2
    } else {
        0
    };
    if o.paths@.len() > 0 {
        assert(w.skip(3 + u + k + s + m) =~= views(o.paths@));
    }
}

/// A stash is named last, behind what is done with it and, where the index is
/// to be restored too, the word for that.
pub proof fn law_stash_is_named_last(verb: Seq<char>, stash_ref: Seq<char>, index: bool)
    ensures
        restore_words(verb, stash_ref, index)[0] == "stash"@,
        restore_words(verb, stash_ref, index)[1] == verb,
        restore_words(verb, stash_ref, index).last() == stash_ref,
        index ==> restore_words(verb, stash_ref, index).len() == 4 && restore_words(
            verb,
            stash_ref,
            index,
        )[2] == "--index"@,
        !index ==> restore_words(verb, stash_ref, index).len() == 3,
{
}

// ── What git lists ───────────────────────────────────────────────────────

/// The branch of a stash is what its message names before the first colon.
pub proof fn law_stash_is_of_the_branch_it_names(branch: Seq<char>, rest: Seq<char>)
    requires
        !branch.contains(':'),
    ensures
        is_core_of(stash_branch_of("WIP on "@ + (branch + seq![':'] + rest)), branch),
        is_core_of(stash_branch_of("On "@ + (branch + seq![':'] + rest)), branch),
{
    reveal_strlit("WIP on ");
    reveal_strlit("On ");
    let tail = branch + seq![':'] + rest;
    let (a, b) = ("WIP on "@, "On "@);
    assert((a + tail).take(a.len() as int) =~= a);
    assert((b + tail).take(b.len() as int) =~= b);
    assert((a + tail).skip(a.len() as int) =~= tail);
    assert((b + tail).skip(b.len() as int) =~= tail);
    assert((b + tail)[0] == 'O');
    assert(a[0] == 'W');
    assert(!a.is_prefix_of(b + tail));
    law_pieces_part_at_separators(branch, rest, ':');
    lemma_pieces_of_one(branch, ':');
    assert(pieces(tail, ':')[0] == branch);
    lemma_core(branch);
}

/// A line that names a stash: its reference, its message and its time, each
/// ended by a NUL but the last.
pub open spec fn stash_line(r: Seq<char>, message: Seq<char>, created: Seq<char>) -> Seq<char> {
    r + seq!['\0'] + (message + seq!['\0'] + created)
}

/// Every line that names a stash is listed, under the number of its line.
pub proof fn law_named_stashes_are_listed(
    lines: Seq<Seq<char>>,
    n: int,
    j: int,
    r: Seq<char>,
    message: Seq<char>,
    created: Seq<char>,
)
    requires
        0 <= j < n <= lines.len(),
        lines[j] == stash_line(r, message, created),
        r.len() > 0,
        !r.contains('\0'),
        !message.contains('\0'),
        !created.contains('\0'),
    ensures
        stash_lines(lines, n).contains(
            StashLineModel { index: j, stash_ref: r, message, created },
        ),
    decreases n,
{
    let m = StashLineModel { index: j, stash_ref: r, message, created };
    let rest = stash_lines(lines, n - 1);
    if j == n - 1 {
        law_pieces_part_at_separators(r, message + seq!['\0'] + created, '\0');
        law_pieces_part_at_separators(message, created, '\0');
        lemma_pieces_of_one(r, '\0');
        lemma_pieces_of_one(message, '\0');
        lemma_pieces_of_one(created, '\0');
        let p = pieces(lines[j], '\0');
        assert(p =~= seq![r, message, created]);
        assert(stash_lines(lines, n)[rest.len() as int] == m);
    } else {
        law_named_stashes_are_listed(lines, n - 1, j, r, message, created);
        let i = choose|i: int| 0 <= i < rest.len() && rest[i] == m;
        assert(stash_lines(lines, n)[i] == m);
    }
}

/// The stashes are listed in the order of their lines, one to a line.
pub proof fn law_stashes_are_listed_in_order(lines: Seq<Seq<char>>, n: int, i: int)
    requires
        0 <= n <= lines.len(),
        0 <= i < stash_lines(lines, n).len(),
    ensures
        0 <= stash_lines(lines, n)[i].index < n,
        stash_lines(lines, n)[i].stash_ref.len() > 0,
        i > 0 ==> stash_lines(lines, n)[i - 1].index < stash_lines(lines, n)[i].index,
    decreases n,
{
    let rest = stash_lines(lines, n - 1);
    if i < rest.len() {
        law_stashes_are_listed_in_order(lines, n - 1, i);
    } else if i > 0 {
        law_stashes_are_listed_in_order(lines, n - 1, i - 1);
    }
}

/// A stash is found by its reference at its first entry.
pub proof fn law_stash_is_found_by_reference(entries: Seq<StashEntry>, r: Seq<char>)
    ensures
        match first_with_ref(entries, r) {
            Some(i) => 0 <= i < entries.len() && entries[i].stash_ref@ == r && forall|k: int|
                0 <= k < i ==> (#[trigger] entries[k]).stash_ref@ != r,
            None => forall|k: int|
                0 <= k < entries.len() ==> (#[trigger] entries[k]).stash_ref@ != r,
        },
    decreases entries.len(),
{
    if entries.len() > 0 {
        let rest = entries.drop_last();
        law_stash_is_found_by_reference(rest, r);
        assert forall|k: int| 0 <= k < rest.len() implies rest[k] == #[trigger] entries[k] by {}
    }
}

/// A record of line counts is read as it was written: the added lines, the
/// removed ones and the path, parted by tabs.
pub proof fn law_counts_are_read_as_written(
    parts: Seq<Seq<char>>,
    i: int,
    added: u32,
    removed: u32,
    path: Seq<char>,
)
    requires
        0 <= i < parts.len(),
        path.len() > 0,
        !path.contains('\t'),
        parts[i] == decimal(added as nat) + seq!['\t'] + (decimal(removed as nat) + seq!['\t']
            + path),
    ensures
        numstat_record(parts, i) == (path, (added, removed), i + 1),
{
    let (a, r) = (decimal(added as nat), decimal(removed as nat));
    lemma_record(parts[i], added, removed, path);
    law_numbers_are_read_as_written(added);
    law_numbers_are_read_as_written(removed);
}

proof fn lemma_record(s: Seq<char>, added: u32, removed: u32, path: Seq<char>)
    requires
        !path.contains('\t'),
        s == decimal(added as nat) + seq!['\t'] + (decimal(removed as nat) + seq!['\t'] + path),
    ensures
        pieces(s, '\t') == seq![decimal(added as nat), decimal(removed as nat), path],
{
    let (a, r) = (decimal(added as nat), decimal(removed as nat));
    law_numbers_are_read_as_written(added);
    law_numbers_are_read_as_written(removed);
    assert(!a.contains('\t')) by {
        if a.contains('\t') {
            let k = choose|k: int| 0 <= k < a.len() && a[k] == '\t';
            assert('0' <= a[k]);
        }
    }
    assert(!r.contains('\t')) by {
        if r.contains('\t') {
            let k = choose|k: int| 0 <= k < r.len() && r[k] == '\t';
            assert('0' <= r[k]);
        }
    }
    law_pieces_part_at_separators(a, r + seq!['\t'] + path, '\t');
    law_pieces_part_at_separators(r, path, '\t');
    lemma_pieces_of_one(a, '\t');
    lemma_pieces_of_one(r, '\t');
    lemma_pieces_of_one(path, '\t');
    assert(pieces(s, '\t') =~= seq![a, r, path]);
}

/// A record of a rename has no path of its own: its counts go to the new path,
/// which stands two parts on.
pub proof fn law_counts_of_a_rename_go_to_the_new_path(
    parts: Seq<Seq<char>>,
    i: int,
    added: u32,
    removed: u32,
)
    requires
        0 <= i,
        i + 2 < parts.len(),
        parts[i] == decimal(added as nat) + seq!['\t'] + (decimal(removed as nat) + seq!['\t']
            + Seq::empty()),
    ensures
        numstat_record(parts, i) == (parts[i + 2], (added, removed), i + 3),
{
    assert(!Seq::<char>::empty().contains('\t'));
    lemma_record(parts[i], added, removed, Seq::empty());
    law_numbers_are_read_as_written(added);
    law_numbers_are_read_as_written(removed);
}

/// The counts of a record are kept under its path, and those of the records
/// behind it are read after it.
pub proof fn law_counts_are_kept_by_path(
    parts: Seq<Seq<char>>,
    i: int,
    acc: Map<Seq<char>, (u32, u32)>,
    added: u32,
    removed: u32,
    path: Seq<char>,
)
    requires
        0 <= i < parts.len(),
        path.len() > 0,
        !path.contains('\t'),
        parts[i] == decimal(added as nat) + seq!['\t'] + (decimal(removed as nat) + seq!['\t']
            + path),
    ensures
        numstat_from(parts, i, acc) == numstat_from(
            parts,
            i + 1,
            acc.insert(path, (added, removed)),
        ),
{
    law_counts_are_read_as_written(parts, i, added, removed, path);
    assert(parts[i].len() > 0);
}

/// The lines of all files add up: leaving one file out takes its lines away.
pub proof fn law_totals_add_up(m: Map<Seq<char>, (u32, u32)>, k: Seq<char>)
    requires
        m.dom().finite(),
        m.contains_key(k),
    ensures
        total_of(m, false) == total_of(m.remove(k), false) + m[k].0,
        total_of(m, true) == total_of(m.remove(k), true) + m[k].1,
        total_of(Map::<Seq<char>, (u32, u32)>::empty(), false) == 0,
        total_of(Map::<Seq<char>, (u32, u32)>::empty(), true) == 0,
{
    lemma_total_remove(m, k, false);
    lemma_total_remove(m, k, true);
    assert(Map::<Seq<char>, (u32, u32)>::empty().dom() =~= Set::empty());
}

/// A file of a stash is shown with the change that its letter stands for, under
/// its path or, where it was moved or copied, under the new one, and with the
/// lines that are counted for that path.
pub proof fn law_stashed_file_is_shown_by_its_letter(
    parts: Seq<Seq<char>>,
    i: int,
    stats: Map<Seq<char>, (u32, u32)>,
    acc: Seq<FileModel>,
    f: FileModel,
)
    requires
        0 <= i,
        parts[i].len() > 0,
        ({
            let moved = parts[i][0] == 'R' || parts[i][0] == 'C';
            let at = if moved {
                i + 2
            } else {
                i + 1
            };
            &&& at < parts.len()
            &&& f.path == parts[at]
            &&& f.path.len() > 0
        }),
        f.status == FileStatus::Added <==> parts[i][0] == 'A',
        f.status == FileStatus::Deleted <==> parts[i][0] == 'D',
        f.status == FileStatus::Renamed <==> parts[i][0] == 'R',
        f.status != FileStatus::Untracked,
        stats.contains_key(f.path) ==> stats[f.path] == (f.additions, f.deletions),
        !stats.contains_key(f.path) ==> f.additions == 0 && f.deletions == 0,
    ensures
        parts[i][0] == 'R' || parts[i][0] == 'C' ==> named_files(parts, i, stats, acc)
            == named_files(parts, i + 3, stats, acc.push(f)),
        parts[i][0] != 'R' && parts[i][0] != 'C' ==> named_files(parts, i, stats, acc)
            == named_files(parts, i + 2, stats, acc.push(f)),
{
}

} // verus!
