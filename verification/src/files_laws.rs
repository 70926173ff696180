//! Laws of the files tab: what its tree shows, and what its keys and menus do to
//! files.
use crate::effects::{Effect, Notice, ToastLevel};
use crate::file_tree::{
    clamped, decorations, moved, node_le, placed, pos_le, redecorated, rows_of, staged_marks,
    toggled, tree_rows, visible, with_ancestors, with_unstaged, DirNode, FileTree, TreeEntry,
};
use crate::files_drag::names_in;
use crate::files_menu::{create_dir, ContextMenuItem, MenuStep};
use crate::files_pane::{
    drop_dir, is_among, row_at, ClipMode, CopyJob, FilesPane, TreeDeletePending, TreeEdit,
    TreeEditError, TreeEditMode,
};
use crate::files_paste::{
    acted, dir_of, grouped, landing_name, lying_in, path_lines, Decision, PasteJob, PasteRequest,
    Resolution,
};
use crate::git::FileEntry;
use crate::layout::{Screen, Tab};
use crate::paths::{
    base_name, child_path, cleaned, is_ancestor, parent_of, pushed_path, relative_to, same_path,
};
use crate::text::{lemma_lex_total, lemma_lex_transitive, lex_le, lowercase, opt_view};
use vstd::prelude::*;

verus! {

// ── The rows of the tree ─────────────────────────────────────────────────

/// `a` may stand before `b` in the tree: a directory before a file, and two of
/// a kind by their names in lower case.
pub open spec fn stands_before(a: DirNode, b: DirNode) -> bool {
    &&& b.is_dir ==> a.is_dir
    &&& a.is_dir == b.is_dir ==> lex_le(lowercase(a.name@), lowercase(b.name@))
}

/// The positions are each in range, each once, and in the order of the tree.
pub open spec fn is_arranged(children: Seq<DirNode>, s: Seq<int>) -> bool {
    &&& forall|i: int| 0 <= i < s.len() ==> 0 <= #[trigger] s[i] < children.len()
    &&& forall|i: int, j: int| 0 <= i < j < s.len() ==> #[trigger] s[i] != #[trigger] s[j]
    &&& forall|i: int, j: int|
        0 <= i < j < s.len() ==> stands_before(
            children[#[trigger] s[i]],
            children[#[trigger] s[j]],
        )
}

proof fn lemma_before(a: DirNode, b: DirNode, c: DirNode)
    ensures
        node_le(a, b) <==> stands_before(a, b),
        node_le(a, b) || node_le(b, a),
        stands_before(a, b) && stands_before(b, c) ==> stands_before(a, c),
{
    lemma_lex_total(lowercase(a.name@), lowercase(b.name@));
    if stands_before(a, b) && stands_before(b, c) && a.is_dir == b.is_dir && b.is_dir == c.is_dir {
        lemma_lex_transitive(lowercase(a.name@), lowercase(b.name@), lowercase(c.name@));
    }
}

proof fn lemma_placed_arranged(children: Seq<DirNode>, s: Seq<int>, x: int)
    requires
        is_arranged(children, s),
        0 <= x < children.len(),
        !s.contains(x),
    ensures
        is_arranged(children, placed(children, s, x)),
        placed(children, s, x).len() == s.len() + 1,
        forall|y: int|
            #![trigger placed(children, s, x).contains(y)]
            #![trigger s.contains(y)]
            placed(children, s, x).contains(y) <==> s.contains(y) || y == x,
    decreases s.len(),
{
    let r = placed(children, s, x);
    if s.len() == 0 || pos_le(children, s.last(), x) {
        assert(r =~= s.push(x));
        assert forall|y: int|
            #![trigger r.contains(y)]
            #![trigger s.contains(y)]
            r.contains(y) <==> s.contains(y) || y == x by {
            if s.contains(y) {
                let i = choose|i: int| 0 <= i < s.len() && s[i] == y;
                assert(r[i] == y);
            }
            if y == x {
                assert(r[s.len() as int] == y);
            }
            if r.contains(y) {
                let i = choose|i: int| 0 <= i < r.len() && r[i] == y;
                if i < s.len() {
                    assert(s[i] == y);
                }
            }
        }
        assert forall|i: int, j: int| 0 <= i < j < r.len() implies stands_before(
            children[#[trigger] r[i]],
            children[#[trigger] r[j]],
        ) && r[i] != r[j] by {
            if j == s.len() {
                assert(s.contains(s[i]));
                lemma_before(children[s.last()], children[x], children[x]);
                if i < s.len() - 1 {
                    assert(stands_before(children[s[i]], children[s[s.len() - 1]]));
                    lemma_before(children[s[i]], children[s.last()], children[x]);
                }
            }
        }
    } else {
        let t = s.drop_last();
        assert(!t.contains(x)) by {
            if t.contains(x) {
                let i = choose|i: int| 0 <= i < t.len() && t[i] == x;
                assert(s[i] == x);
            }
        }
        assert forall|i: int, j: int| 0 <= i < j < t.len() implies stands_before(
            children[#[trigger] t[i]],
            children[#[trigger] t[j]],
        ) && t[i] != t[j] by {
            assert(t[i] == s[i] && t[j] == s[j]);
        }
        lemma_placed_arranged(children, t, x);
        let u = placed(children, t, x);
        assert(r =~= u.push(s.last()));
        assert(s.contains(s[s.len() - 1]));
        assert forall|y: int|
            #![trigger r.contains(y)]
            #![trigger s.contains(y)]
            r.contains(y) <==> s.contains(y) || y == x by {
            if s.contains(y) {
                let i = choose|i: int| 0 <= i < s.len() && s[i] == y;
                if i < t.len() {
                    assert(t[i] == y);
                    assert(t.contains(y));
                    assert(u.contains(y));
                    let k = choose|k: int| 0 <= k < u.len() && u[k] == y;
                    assert(r[k] == y);
                } else {
                    assert(r[u.len() as int] == y);
                }
            }
            if y == x {
                assert(u.contains(x));
                let k = choose|k: int| 0 <= k < u.len() && u[k] == x;
                assert(r[k] == y);
            }
            if r.contains(y) {
                let i = choose|i: int| 0 <= i < r.len() && r[i] == y;
                if i < u.len() {
                    assert(u.contains(u[i]));
                    if y != x {
                        assert(t.contains(y));
                        let k = choose|k: int| 0 <= k < t.len() && t[k] == y;
                        assert(s[k] == y);
                    }
                } else {
                    assert(s[s.len() - 1] == y);
                }
            }
        }
        assert forall|i: int, j: int| 0 <= i < j < r.len() implies stands_before(
            children[#[trigger] r[i]],
            children[#[trigger] r[j]],
        ) && r[i] != r[j] by {
            if j == u.len() {
                assert(u.contains(u[i]));
                lemma_before(children[s.last()], children[x], children[x]);
                lemma_before(children[x], children[s.last()], children[x]);
                if r[i] != x {
                    assert(t.contains(r[i]));
                    let k = choose|k: int| 0 <= k < t.len() && t[k] == r[i];
                    assert(s[k] == r[i]);
                    assert(stands_before(children[s[k]], children[s[s.len() - 1]]));
                    assert(s[k] != s[s.len() - 1]);
                }
            }
        }
    }
}

proof fn lemma_visible_arranged(children: Seq<DirNode>, n: int)
    requires
        0 <= n <= children.len(),
    ensures
        is_arranged(children, visible(children, n)),
        forall|j: int| #[trigger]
            visible(children, n).contains(j) <==> 0 <= j < n && children[j].name@ != ".git"@,
    decreases n,
{
    if n > 0 {
        lemma_visible_arranged(children, n - 1);
        let was = visible(children, n - 1);
        if children[n - 1].name@ != ".git"@ {
            lemma_placed_arranged(children, was, n - 1);
        }
        assert forall|j: int| #[trigger]
            visible(children, n).contains(j) <==> 0 <= j < n && children[j].name@ != ".git"@ by {
            assert(was.contains(j) <==> 0 <= j < n - 1 && children[j].name@ != ".git"@);
        }
    }
}

/// A directory shows its entries each once, all but the repository's own
/// directory: directories before files, and each kind by name, whatever the
/// case.
pub proof fn law_directory_shows_its_entries(children: Seq<DirNode>)
    ensures
        is_arranged(children, visible(children, children.len() as int)),
        forall|j: int| #[trigger]
            visible(children, children.len() as int).contains(j) <==> 0 <= j < children.len()
                && children[j].name@ != ".git"@,
{
    lemma_visible_arranged(children, children.len() as int);
}

/// Each entry has a row that shows its name, its path below its directory, how
/// deep it lies, and its status. A directory is shown open exactly where it is
/// expanded, and then its own rows follow, one level deeper; else the row of the
/// next entry does.
pub proof fn law_rows_follow_the_entries(
    children: Seq<DirNode>,
    k: int,
    dir: Seq<char>,
    depth: int,
    expanded: Set<Seq<char>>,
    statuses: Map<Seq<char>, char>,
)
    requires
        0 < k <= visible(children, children.len() as int).len(),
    ensures
        ({
            let node = children[visible(children, children.len() as int)[k - 1]];
            let path = if dir.len() == 0 {
                node.name@
            } else {
                dir + seq!['/'] + node.name@
            };
            let before = rows_of(children, k - 1, dir, depth, expanded, statuses);
            let now = rows_of(children, k, dir, depth, expanded, statuses);
            let row = now[before.len() as int];
            let inner = node.children@;
            let open = node.is_dir && expanded.contains(cleaned(path));
            &&& now.len() > before.len()
            &&& now.take(before.len() as int) == before
            &&& row.name == node.name@
            &&& row.path == path
            &&& row.depth == depth
            &&& row.is_dir == node.is_dir
            &&& row.is_expanded == open
            &&& row.git_status is Some <==> statuses.contains_key(path)
            &&& statuses.contains_key(path) ==> row.git_status == Some(statuses[path])
            &&& !open ==> now.len() == before.len() + 1
            &&& open ==> now.skip(before.len() as int + 1) == rows_of(
                inner,
                visible(inner, inner.len() as int).len() as int,
                path,
                depth + 1,
                expanded,
                statuses,
            )
        }),
        rows_of(children, 0, dir, depth, expanded, statuses).len() == 0,
{
    lemma_visible_arranged(children, children.len() as int);
    let v = visible(children, children.len() as int);
    assert(0 <= v[k - 1] < children.len());
    let node = children[v[k - 1]];
    let before = rows_of(children, k - 1, dir, depth, expanded, statuses);
    let now = rows_of(children, k, dir, depth, expanded, statuses);
    let path = child_path(dir, node.name@);
    let inner = node.children@;
    assert(now.take(before.len() as int) =~= before);
    if node.is_dir && expanded.contains(cleaned(path)) {
        assert(now.skip(before.len() as int + 1) =~= rows_of(
            inner,
            visible(inner, inner.len() as int).len() as int,
            path,
            depth + 1,
            expanded,
            statuses,
        ));
    }
}

proof fn lemma_rows_grow(
    children: Seq<DirNode>,
    j: int,
    k: int,
    dir: Seq<char>,
    depth: int,
    expanded: Set<Seq<char>>,
    statuses: Map<Seq<char>, char>,
)
    requires
        0 <= j <= k <= visible(children, children.len() as int).len(),
    ensures
        ({
            let a = rows_of(children, j, dir, depth, expanded, statuses);
            let b = rows_of(children, k, dir, depth, expanded, statuses);
            a.len() <= b.len() && forall|i: int| 0 <= i < a.len() ==> #[trigger] b[i] == a[i]
        }),
    decreases k - j,
{
    if j < k {
        lemma_rows_grow(children, j, k - 1, dir, depth, expanded, statuses);
        law_rows_follow_the_entries(children, k, dir, depth, expanded, statuses);
        let m = rows_of(children, k - 1, dir, depth, expanded, statuses);
        let b = rows_of(children, k, dir, depth, expanded, statuses);
        assert forall|i: int| 0 <= i < m.len() implies #[trigger] b[i] == m[i] by {
            assert(b.take(m.len() as int)[i] == b[i]);
        }
    }
}

/// Everything at the top of the working directory has a row there, but for the
/// repository's own directory.
pub proof fn law_top_of_the_tree_is_shown(
    nodes: Seq<DirNode>,
    expanded: Set<Seq<char>>,
    statuses: Map<Seq<char>, char>,
    j: int,
) -> (at: int)
    requires
        0 <= j < nodes.len(),
        nodes[j].name@ != ".git"@,
    ensures
        0 <= at < tree_rows(nodes, expanded, statuses).len(),
        tree_rows(nodes, expanded, statuses)[at].path == nodes[j].name@,
        tree_rows(nodes, expanded, statuses)[at].name == nodes[j].name@,
        tree_rows(nodes, expanded, statuses)[at].depth == 0,
        tree_rows(nodes, expanded, statuses)[at].is_dir == nodes[j].is_dir,
{
    let v = visible(nodes, nodes.len() as int);
    lemma_visible_arranged(nodes, nodes.len() as int);
    assert(v.contains(j));
    let i = choose|i: int| 0 <= i < v.len() && v[i] == j;
    let dir = Seq::<char>::empty();
    law_rows_follow_the_entries(nodes, i + 1, dir, 0, expanded, statuses);
    lemma_rows_grow(nodes, i + 1, v.len() as int, dir, 0, expanded, statuses);
    rows_of(nodes, i, dir, 0, expanded, statuses).len() as int
}

/// Opening a closed directory and closing an open one changes that directory
/// alone.
pub proof fn law_toggle_changes_one_directory(s: Set<Seq<char>>, p: Seq<char>, q: Seq<char>)
    ensures
        toggled(s, p).contains(cleaned(p)) <==> !s.contains(cleaned(p)),
        q != cleaned(p) ==> (toggled(s, p).contains(q) <==> s.contains(q)),
        with_ancestors(s, p).contains(q) <==> s.contains(q) || is_ancestor(q, cleaned(p)),
{
}

/// A move goes as far as it is asked to, and stops at the first row and at the
/// last. With nothing selected it starts at the end it comes from.
pub proof fn law_tree_moves_by_rows(at: int, delta: int, n: int)
    requires
        n > 0,
        at >= 0,
    ensures
        at < n && 0 <= at + delta < n ==> moved(at, delta, n) == at + delta,
        at < n && at + delta < 0 ==> moved(at, delta, n) == 0,
        at < n && at + delta >= n ==> moved(at, delta, n) == n - 1,
        at >= n && delta > 0 ==> moved(at, delta, n) == 0,
        at >= n && delta <= 0 ==> moved(at, delta, n) == n - 1,
{
}

/// A selection past the end of the rows goes to the last one; another stays.
pub proof fn law_selection_is_clamped(i: usize, n: nat)
    ensures
        i < n ==> clamped(i, n) == i,
        0 < n <= i ==> clamped(i, n) == n - 1,
        n == 0 ==> clamped(i, n) == 0,
{
}

// ── Decorations ──────────────────────────────────────────────────────────

proof fn lemma_staged_from(v: Seq<FileEntry>, p: Seq<char>)
    ensures
        staged_marks(v).contains_key(p) <==> exists|i: int|
            0 <= i < v.len() && (#[trigger] v[i]).path@ == p,
        staged_marks(v).contains_key(p) ==> exists|i: int|
            0 <= i < v.len() && (#[trigger] v[i]).path@ == p && staged_marks(v)[p]
                == v[i].status.letter(),
    decreases v.len(),
{
    if v.len() > 0 {
        let t = v.drop_last();
        lemma_staged_from(t, p);
        if v.last().path@ == p {
            assert(v[v.len() - 1].path@ == p);
        } else {
            if staged_marks(t).contains_key(p) {
                let i = choose|i: int|
                    0 <= i < t.len() && (#[trigger] t[i]).path@ == p && staged_marks(t)[p]
                        == t[i].status.letter();
                assert(v[i] == t[i]);
            }
            if exists|i: int| 0 <= i < v.len() && (#[trigger] v[i]).path@ == p {
                let i = choose|i: int| 0 <= i < v.len() && (#[trigger] v[i]).path@ == p;
                assert(t[i] == v[i]);
            }
        }
    }
}

proof fn lemma_unstaged_from(m: Map<Seq<char>, char>, v: Seq<FileEntry>, p: Seq<char>)
    ensures
        m.contains_key(p) ==> with_unstaged(m, v).contains_key(p) && with_unstaged(m, v)[p] == m[p],
        !m.contains_key(p) ==> (with_unstaged(m, v).contains_key(p) <==> exists|i: int|
            0 <= i < v.len() && (#[trigger] v[i]).path@ == p),
        !m.contains_key(p) && with_unstaged(m, v).contains_key(p) ==> exists|i: int|
            0 <= i < v.len() && (#[trigger] v[i]).path@ == p && with_unstaged(m, v)[p]
                == v[i].status.letter(),
    decreases v.len(),
{
    if v.len() > 0 {
        let t = v.drop_last();
        lemma_unstaged_from(m, t, p);
        if !m.contains_key(p) {
            if with_unstaged(m, t).contains_key(p) {
                let i = choose|i: int|
                    0 <= i < t.len() && (#[trigger] t[i]).path@ == p && with_unstaged(m, t)[p]
                        == t[i].status.letter();
                assert(v[i] == t[i]);
            } else {
                if v.last().path@ == p {
                    assert(v[v.len() - 1].path@ == p);
                }
                if exists|i: int| 0 <= i < v.len() && (#[trigger] v[i]).path@ == p {
                    let i = choose|i: int| 0 <= i < v.len() && (#[trigger] v[i]).path@ == p;
                    if i < t.len() {
                        assert(t[i] == v[i]);
                    }
                }
            }
        }
    }
}

/// `p` is the path of one of the files.
pub open spec fn is_listed(v: Seq<FileEntry>, p: Seq<char>) -> bool {
    exists|i: int| 0 <= i < v.len() && (#[trigger] v[i]).path@ == p
}

/// A path with a change shows the letter of that change: of the staged one
/// where there is one, else of the unstaged one. A path without any shows a dot
/// where it is a directory with a change below it, and otherwise nothing.
pub proof fn law_changes_are_shown(
    staged: Seq<FileEntry>,
    unstaged: Seq<FileEntry>,
    p: Seq<char>,
)
    ensures
        ({
            let d = decorations(staged, unstaged);
            &&& is_listed(staged, p) ==> d.contains_key(p) && exists|i: int|
                0 <= i < staged.len() && (#[trigger] staged[i]).path@ == p && d[p]
                    == staged[i].status.letter()
            &&& !is_listed(staged, p) && is_listed(unstaged, p) ==> d.contains_key(p) && exists|
                i: int,
            |
                0 <= i < unstaged.len() && (#[trigger] unstaged[i]).path@ == p && d[p]
                    == unstaged[i].status.letter()
            &&& !is_listed(staged, p) && !is_listed(unstaged, p) && d.contains_key(p) ==> d[p]
                == '●' && exists|q: Seq<char>|
                (is_listed(staged, q) || is_listed(unstaged, q)) && #[trigger] is_ancestor(p, q)
        }),
{
    let m = with_unstaged(staged_marks(staged), unstaged);
    if decorations(staged, unstaged).contains_key(p) && !m.contains_key(p) {
        assert(crate::file_tree::holds_changes(m, p));
        let q = choose|q: Seq<char>| #[trigger] m.contains_key(q) && is_ancestor(p, q);
        lemma_staged_from(staged, q);
        lemma_unstaged_from(staged_marks(staged), unstaged, q);
        assert(is_listed(staged, q) || is_listed(unstaged, q));
    }
    lemma_staged_from(staged, p);
    lemma_unstaged_from(staged_marks(staged), unstaged, p);
}

/// New decorations change the status of the rows, and nothing else of them.
pub proof fn law_decorations_change_the_status_alone(
    a: FileTree,
    b: FileTree,
    staged: Seq<FileEntry>,
    unstaged: Seq<FileEntry>,
    i: int,
)
    requires
        redecorated(a, b, staged, unstaged),
        0 <= i < a.entries@.len(),
    ensures
        b.entries@.len() == a.entries@.len(),
        b.entries@[i].path == a.entries@[i].path,
        b.entries@[i].name == a.entries@[i].name,
        b.entries@[i].is_dir == a.entries@[i].is_dir,
        b.entries@[i].is_expanded == a.entries@[i].is_expanded,
        b.entries@[i].depth == a.entries@[i].depth,
        b.entries@[i].git_status is Some <==> decorations(staged, unstaged).contains_key(
            a.entries@[i].path@,
        ),
        b.entries@[i].git_status matches Some(c) ==> c == decorations(staged, unstaged)[a.entries@[i].path@],
        b.selected == a.selected,
        b.expanded == a.expanded,
{
}

// ── What an action is about ──────────────────────────────────────────────

/// An action on a row takes all marked files where the row is one of them, and
/// otherwise the row alone.
pub proof fn law_action_takes_the_marked_files(s: FilesPane, anchor: String)
    ensures
        (exists|i: int|
            0 <= i < s.file_selection@.len() && same_path(
                #[trigger] s.file_selection@[i]@,
                anchor@,
            )) ==> s.paths_from(Some(anchor)) == s.file_selection@,
        !(exists|i: int|
            0 <= i < s.file_selection@.len() && same_path(
                #[trigger] s.file_selection@[i]@,
                anchor@,
            )) ==> s.paths_from(Some(anchor)) == seq![anchor],
        s.paths_from(None).len() == 0,
{
    assert(is_among(s.file_selection@, anchor@) <==> exists|i: int|
        0 <= i < s.file_selection@.len() && same_path(#[trigger] s.file_selection@[i]@, anchor@));
}

/// The menu acts on the row it was opened on, and on the selected one where it
/// was opened on none.
pub proof fn law_menu_acts_on_its_row(s: FilesPane, i: usize)
    ensures
        i < s.file_tree.entries@.len() ==> s.menu_paths(Some(i)) == s.paths_from(
            Some(s.file_tree.entries@[i as int].path),
        ),
        s.file_tree.selected < s.file_tree.entries@.len() ==> s.menu_paths(None) == s.paths_from(
            Some(s.file_tree.entries@[s.file_tree.selected as int].path),
        ),
        s.file_tree.selected >= s.file_tree.entries@.len() ==> s.menu_paths(None).len() == 0,
{
}

/// What is dropped on a directory goes into it, on a file into the directory
/// that it lies in, and on neither to the top.
pub proof fn law_drops_go_into_a_directory(e: TreeEntry)
    ensures
        e.is_dir ==> drop_dir(Some(e)) == e.path@,
        !e.is_dir && parent_of(e.path@) is Some ==> drop_dir(Some(e)) == parent_of(e.path@)->0,
        drop_dir(None).len() == 0,
{
}

/// A new file goes into the directory of its row, or beside the file of its
/// row, or to the root.
pub proof fn law_new_files_go_where_the_row_is(e: TreeEntry, root: Seq<char>)
    ensures
        e.is_dir ==> create_dir(Some(e), root) == pushed_path(root, e.path@),
        !e.is_dir && parent_of(pushed_path(root, e.path@)) is Some ==> create_dir(Some(e), root)
            == parent_of(pushed_path(root, e.path@))->0,
        create_dir(None, root) == root,
{
}

/// The names in a directory are those of the rows that lie in it.
pub proof fn law_names_in_a_directory(rows: Seq<TreeEntry>, dir: Seq<char>, n: Seq<char>)
    ensures
        names_in(rows, dir).contains(n) <==> exists|i: int|
            0 <= i < rows.len() && (#[trigger] rows[i]).name@ == n && dir_of(rows[i].path@)
                == cleaned(dir),
    decreases rows.len(),
{
    if rows.len() > 0 {
        let t = rows.drop_last();
        law_names_in_a_directory(t, dir, n);
        if names_in(rows, dir).contains(n) {
            if names_in(t, dir).contains(n) {
                let i = choose|i: int|
                    0 <= i < t.len() && (#[trigger] t[i]).name@ == n && dir_of(t[i].path@)
                        == cleaned(dir);
                assert(rows[i] == t[i]);
            } else {
                assert(rows[rows.len() - 1] == rows.last());
            }
        }
        if exists|i: int|
            0 <= i < rows.len() && (#[trigger] rows[i]).name@ == n && dir_of(rows[i].path@)
                == cleaned(dir) {
            let i = choose|i: int|
                0 <= i < rows.len() && (#[trigger] rows[i]).name@ == n && dir_of(rows[i].path@)
                    == cleaned(dir);
            if i < t.len() {
                assert(t[i] == rows[i]);
            }
        }
    }
}

// ── Names that are typed ─────────────────────────────────────────────────

/// A name that was typed is taken where it is one, nothing runs, and its path
/// is free. The old name of a rename just closes the editor.
pub proof fn law_typed_names_are_judged(s: FilesPane, name: Result<String, TreeEditError>, exists: bool)
    requires
        s.tree_edit.mode is Some,
        s.tree_edit.parent_dir is Some,
        !s.fs_mutation_load.loading,
    ensures
        name is Err ==> s.edit_verdict(name, exists) is Refuse,
        name matches Ok(n) ==> {
            let path = pushed_path(s.tree_edit.parent_dir->0@, n@);
            let unchanged = s.tree_edit.rename_target is Some && same_path(
                s.tree_edit.rename_target->0@,
                path,
            );
            &&& unchanged <==> s.edit_verdict(name, exists) is Close
            &&& !unchanged && exists <==> s.edit_verdict(name, exists) is Refuse
            &&& !unchanged && !exists <==> s.edit_verdict(name, exists) is Run
        },
{
}

/// A name that is taken is made a file, made a folder, or put in place of the
/// old name, below the root, and under the number that is then waited for.
pub proof fn law_typed_names_are_carried_out(s: FilesPane, new: FilesPane, name: Seq<char>)
    requires
        s.tree_edit.parent_dir is Some,
        s.edit_run(new, name),
    ensures
        ({
            let path = relative_to(
                pushed_path(s.tree_edit.parent_dir->0@, name),
                s.file_tree.root@,
            );
            let g = new.fs_mutation_load.generation;
            &&& s.tree_edit.mode == Some(TreeEditMode::NewFile) ==> s.edit_request(name) == seq![
                Effect::<Seq<char>>::CreateFile { generation: g, path, name },
            ]
            &&& s.tree_edit.mode == Some(TreeEditMode::NewFolder) ==> s.edit_request(name) == seq![
                Effect::<Seq<char>>::CreateFolder { generation: g, path, name },
            ]
            &&& s.tree_edit.mode == Some(TreeEditMode::Rename) ==> (
            s.tree_edit.rename_target matches Some(old) ==> {
                let e = s.edit_request(name)[0];
                &&& s.edit_request(name).len() == 1
                &&& e is Rename
                &&& e->Rename_generation == g
                &&& e->old_path == relative_to(old@, s.file_tree.root@)
                &&& e->new_path == path
                &&& e->new_name == name
                &&& base_name(old@) is Some ==> e->old_name == base_name(old@)->0
            })
        }),
        new.fs_mutation_load.loading,
        new.file_tree == s.file_tree,
        new.file_clipboard == s.file_clipboard,
{
}

/// The editor opens on the name that is to change, with the caret behind it, and
/// empty for a new file.
pub proof fn law_editor_opens_on_the_name(
    e: TreeEdit,
    mode: TreeEditMode,
    parent_dir: String,
    target: Option<String>,
    anchor: Option<usize>,
)
    requires
        FilesPane::edit_opened(e, mode, parent_dir, target, anchor),
    ensures
        e.active,
        e.mode == Some(mode),
        e.parent_dir == Some(parent_dir),
        e.rename_target == target,
        e.anchor_idx == anchor,
        e.error is None,
        target is None ==> e.buffer@.len() == 0,
        target matches Some(p) ==> (base_name(p@) is Some ==> e.buffer@ == base_name(p@)->0),
{
}

// ── Deleting ─────────────────────────────────────────────────────────────

/// What is deleted is what was asked about, for good only where that was asked.
pub proof fn law_deletion_is_the_confirmed_one(
    s: FilesPane,
    new: FilesPane,
    d: TreeDeletePending,
    fx: Seq<Effect<Seq<char>>>,
    fx2: Seq<Effect<Seq<char>>>,
)
    requires
        s.delete_confirmed(new, fx, fx2),
        s.tree_delete_confirm == Some(d),
        !s.fs_mutation_load.loading,
    ensures
        fx2.len() == fx.len() + 1,
        fx2.drop_last() == fx,
        d.hard <==> fx2.last() is HardDelete,
        !d.hard <==> fx2.last() is Trash,
        d.hard ==> fx2.last()->HardDelete_path == relative_to(d.path@, s.file_tree.root@)
            && fx2.last()->HardDelete_name == d.display_name@
            && fx2.last()->HardDelete_generation == new.fs_mutation_load.generation,
        !d.hard ==> fx2.last()->Trash_path == relative_to(d.path@, s.file_tree.root@)
            && fx2.last()->Trash_name == d.display_name@ && fx2.last()->Trash_generation
            == new.fs_mutation_load.generation,
        new.tree_delete_confirm is None,
        new.fs_mutation_load.loading,
{
    assert(fx2.drop_last() =~= fx);
}

/// The end of an operation on files is told: what was done, and the tree is
/// read again with the new file selected; or why it failed, and the name that
/// was typed stays.
pub proof fn law_operations_on_files_are_reported(
    s: FilesPane,
    new: FilesPane,
    generation: u64,
    kind: String,
    result: Result<(), String>,
    fx: Seq<Effect<Seq<char>>>,
    fx2: Seq<Effect<Seq<char>>>,
)
    requires
        s.fs_mutation_applied(new, generation, kind, result, fx, fx2),
    ensures
        generation != s.fs_mutation_load.generation ==> new == s && fx2 == fx,
        generation == s.fs_mutation_load.generation ==> !new.fs_mutation_load.loading
            && new.fs_mutation_select_on_done is None && new.tree_delete_confirm is None,
        generation == s.fs_mutation_load.generation && result is Ok ==> {
            &&& fx2.len() == fx.len() + 2
            &&& fx2[fx.len() as int] == (Effect::<Seq<char>>::Say {
                level: ToastLevel::Info,
                notice: Notice::FsDone { kind: kind@ },
            })
            &&& fx2.last() is RebuildTree
            &&& s.fs_mutation_select_on_done matches Some(p) ==> fx2.last()->select == Some(p@)
            &&& fx2.last()->RebuildTree_generation == new.file_tree_load.generation
            &&& new.file_tree_load.loading
            &&& !new.tree_edit.active
        },
        generation == s.fs_mutation_load.generation ==> (result matches Err(e) ==> fx2 == fx.push(
            Effect::<Seq<char>>::Say {
                level: ToastLevel::Error,
                notice: Notice::FsFailed { kind: kind@, why: e@ },
            },
        ) && new.tree_edit == s.tree_edit),
        new.file_clipboard == s.file_clipboard,
{
}

/// The end of a copy is told: how many files were copied, or why it failed.
pub proof fn law_copies_are_reported(
    s: FilesPane,
    new: FilesPane,
    generation: u64,
    result: Result<usize, String>,
    fx: Seq<Effect<Seq<char>>>,
    fx2: Seq<Effect<Seq<char>>>,
)
    requires
        s.file_copy_applied(new, generation, result, fx, fx2),
    ensures
        generation != s.file_copy_load.generation ==> new == s && fx2 == fx,
        generation == s.file_copy_load.generation ==> !new.file_copy_load.loading
            && !new.place_mode.active,
        generation == s.file_copy_load.generation ==> (result matches Ok(n) ==> {
            &&& fx2.len() == fx.len() + 2
            &&& fx2[fx.len() as int] == (Effect::<Seq<char>>::Say {
                level: ToastLevel::Info,
                notice: Notice::FilesCopied { count: n },
            })
            &&& fx2.last() is RebuildTree
            &&& new.file_tree_load.loading
        }),
        generation == s.file_copy_load.generation ==> (result matches Err(e) ==> fx2 == fx.push(
            Effect::<Seq<char>>::Say {
                level: ToastLevel::Error,
                notice: Notice::CopyFailed { why: e@ },
            },
        )),
{
}

/// A copy takes the sources to the directory they were dropped on, one copy at
/// a time.
pub proof fn law_copy_goes_where_it_was_dropped(
    s: FilesPane,
    new: FilesPane,
    sources: Vec<String>,
    dest: String,
    fx: Seq<Effect<Seq<char>>>,
    fx2: Seq<Effect<Seq<char>>>,
    r: Option<CopyJob>,
)
    requires
        s.copy_asked(new, sources, dest, fx, fx2, r),
    ensures
        r is Some <==> !s.file_copy_load.loading,
        r matches Some(job) ==> job.sources == sources && job.dest_dir == dest && job.generation
            == new.file_copy_load.generation && new.file_copy_load.loading && fx2 == fx,
        r is None ==> new == s && fx2.len() == fx.len() + 1,
{
}

// ── Pasting ──────────────────────────────────────────────────────────────

proof fn lemma_acted(ds: Seq<Decision>)
    ensures
        acted(ds) == ds.filter(
            |d: Decision| !(d.resolution is Skip) && !(d.resolution is Cancel),
        ),
    decreases ds.len(),
{
    reveal(Seq::filter);
    if ds.len() > 0 {
        lemma_acted(ds.drop_last());
    }
}

/// A paste does what was decided: it leaves out what is to be skipped, and hands
/// the rest on in its order, each with its source and its resolution, in the
/// mode and to the directory that were asked for.
pub proof fn law_paste_does_what_was_decided(
    s: FilesPane,
    new: FilesPane,
    op: ClipMode,
    dest: String,
    decisions: Vec<Decision>,
    fx: Seq<Effect<Seq<char>>>,
    fx2: Seq<Effect<Seq<char>>>,
    r: Option<PasteJob>,
)
    requires
        s.paste_resolved(new, op, dest, decisions, fx, fx2, r),
    ensures
        ({
            let ds = decisions@.filter(
                |d: Decision| !(d.resolution is Skip) && !(d.resolution is Cancel),
            );
            &&& r is Some <==> ds.len() > 0
            &&& r matches Some(job) ==> {
                &&& job.op == op
                &&& job.dest == dest
                &&& job.generation == new.fs_mutation_load.generation
                &&& job.items@.len() == ds.len()
                &&& forall|i: int|
                    0 <= i < ds.len() ==> (#[trigger] job.items@[i]).source == ds[i].source
                        && job.items@[i].resolution == ds[i].resolution
                &&& opt_view(new.fs_mutation_select_on_done) == Some(
                    pushed_path(dest@, landing_name(ds[0])),
                )
            }
            &&& r is None ==> new == s && fx2.len() == fx.len() + 1
        }),
{
    lemma_acted(decisions@);
}

/// A source lands under the name that was chosen to keep both, and otherwise
/// under its own.
pub proof fn law_source_keeps_its_name(d: Decision)
    ensures
        d.resolution matches Resolution::KeepBoth(n) ==> landing_name(d) == n@,
        !(d.resolution is KeepBoth) && base_name(d.source@) is Some ==> landing_name(d)
            == base_name(d.source@)->0,
{
}

/// Whether a source is a directory is told by its row, and by the disk where no
/// row shows it.
pub proof fn law_rows_tell_directories(s: FilesPane, d: Decision)
    ensures
        s.shown_as_dir(d.source@) is None ==> s.source_is_dir(d) == d.is_dir_on_disk,
        s.shown_as_dir(d.source@) matches Some(b) ==> s.source_is_dir(d) == b,
{
}

/// Nothing is pasted where nothing was cut or copied, or while an operation
/// runs.
pub proof fn law_paste_needs_something_to_paste(s: FilesPane)
    ensures
        s.paste_refused() is None <==> s.file_clipboard.paths@.len() > 0
            && !s.fs_mutation_load.loading,
        s.file_clipboard.paths@.len() == 0 ==> s.paste_refused() == Some(
            Notice::<Seq<char>>::ClipboardEmpty,
        ),
{
}

proof fn lemma_lying_in(sources: Seq<String>, dir: Seq<char>)
    ensures
        lying_in(sources, dir) == sources.filter(|x: String| dir_of(x@) == dir),
    decreases sources.len(),
{
    reveal(Seq::filter);
    if sources.len() > 0 {
        lemma_lying_in(sources.drop_last(), dir);
    }
}

/// A duplicate goes into the directory that its source lies in. Every group
/// holds the sources of one directory, all of them, in their order.
pub proof fn law_duplicates_stay_in_their_directory(
    sources: Seq<String>,
    groups: Seq<PasteRequest>,
    i: int,
)
    requires
        grouped(sources, groups),
        0 <= i < groups.len(),
    ensures
        groups[i].op == ClipMode::Copy,
        groups[i].sources@ == sources.filter(|x: String| dir_of(x@) == groups[i].dest@),
        groups[i].sources@.len() > 0,
        forall|j: int|
            0 <= j < groups.len() && j != i ==> (#[trigger] groups[j]).dest@ != groups[i].dest@,
{
    lemma_lying_in(sources, groups[i].dest@);
    let d = crate::files_paste::dests(groups);
    assert(d[i] == groups[i].dest@);
    assert(crate::files_paste::is_dir_of_some(d[i], sources));
    let k = choose|k: int| 0 <= k < sources.len() && dir_of((#[trigger] sources[k])@) == d[i];
    sources.lemma_filter_contains(|x: String| dir_of(x@) == groups[i].dest@, k);
    assert forall|j: int| 0 <= j < groups.len() && j != i implies (#[trigger] groups[j]).dest@
        != groups[i].dest@ by {
        assert(d[j] == groups[j].dest@);
    }
}

/// Paths are put on the clipboard one to a line, as they are or from the root.
pub proof fn law_paths_are_copied_line_by_line(
    paths: Seq<String>,
    p: String,
    root: Seq<char>,
    relative: bool,
)
    ensures
        ({
            let was = path_lines(paths, root, relative);
            let now = path_lines(paths.push(p), root, relative);
            let line = if relative {
                p@
            } else {
                pushed_path(root, p@)
            };
            &&& was.len() == 0 ==> now == line
            &&& was.len() > 0 ==> now == was + seq!['\n'] + line
        }),
        path_lines(Seq::empty(), root, relative).len() == 0,
{
    assert(paths.push(p).drop_last() =~= paths);
}

// ── The menu ─────────────────────────────────────────────────────────────

/// What the items of the menu do. Cut and copy put the files on the clipboard
/// under that mode; a paste takes what is there to the row; duplicating copies
/// the files beside themselves; the paths are copied as they are or from the
/// root; a deletion is asked about first.
pub proof fn law_menu_items_do_what_they_say(
    s: FilesPane,
    new: FilesPane,
    item: ContextMenuItem,
    target: Option<usize>,
    remote: bool,
    screen: Screen,
    screen2: Screen,
    sent: Seq<Effect<Seq<char>>>,
    out: MenuStep,
)
    requires
        s.item_taken(new, item, target, remote, screen, screen2, sent, out),
    ensures
        item is Cut ==> new.file_clipboard.mode == Some(ClipMode::Cut)
            && new.file_clipboard.paths@ == s.menu_paths(target),
        item is Copy ==> new.file_clipboard.mode == Some(ClipMode::Copy)
            && new.file_clipboard.paths@ == s.menu_paths(target),
        !(item is Cut) && !(item is Copy) ==> new.file_clipboard == s.file_clipboard,
        item is Paste && s.file_clipboard.paths@.len() > 0 && s.file_clipboard.mode is Some
            && !s.fs_mutation_load.loading ==> {
            &&& out is Paste
            &&& out->Paste_0.op == s.file_clipboard.mode->0
            &&& out->Paste_0.sources@ == s.file_clipboard.paths@
            &&& out->Paste_0.dest@ == drop_dir(row_at(s.file_tree, target))
        },
        item is Duplicate && s.menu_paths(target).len() > 0 && !s.fs_mutation_load.loading
            ==> out is Duplicate && grouped(s.menu_paths(target), out->Duplicate_0@),
        item is CopyPath && s.menu_paths(target).len() > 0 ==> sent == seq![
            Effect::<Seq<char>>::CopyText {
                text: path_lines(s.menu_paths(target), s.file_tree.root@, false),
                count: s.menu_paths(target).len() as usize,
                relative: false,
            },
        ],
        item is CopyRelativePath && s.menu_paths(target).len() > 0 ==> sent == seq![
            Effect::<Seq<char>>::CopyText {
                text: path_lines(s.menu_paths(target), s.file_tree.root@, true),
                count: s.menu_paths(target).len() as usize,
                relative: true,
            },
        ],
        item is NewFile && !s.fs_mutation_load.loading ==> new.tree_edit.mode == Some(
            TreeEditMode::NewFile,
        ) && new.tree_edit.parent_dir is Some && new.tree_edit.parent_dir->0@ == create_dir(
            row_at(s.file_tree, target),
            s.file_tree.root@,
        ) && new.tree_edit.buffer@.len() == 0,
        item is NewFolder && !s.fs_mutation_load.loading ==> new.tree_edit.mode == Some(
            TreeEditMode::NewFolder,
        ) && new.tree_edit.parent_dir is Some && new.tree_edit.parent_dir->0@ == create_dir(
            row_at(s.file_tree, target),
            s.file_tree.root@,
        ),
        item is Rename && !s.fs_mutation_load.loading ==> (row_at(s.file_tree, target) matches Some(
            e,
        ) ==> new.tree_edit.mode == Some(TreeEditMode::Rename) && new.tree_edit.rename_target
            is Some && new.tree_edit.rename_target->0@ == pushed_path(s.file_tree.root@, e.path@)),
        item is Delete ==> (row_at(s.file_tree, target) matches Some(e) ==> out is AskDelete
            && out->path@ == pushed_path(s.file_tree.root@, e.path@) && out->is_dir == e.is_dir),
        out is AskDelete ==> item is Delete,
        out is Paste ==> item is Paste,
        item is RevealInFinder && !remote ==> sent == seq![
            Effect::<Seq<char>>::RevealInFinder {
                path: match row_at(s.file_tree, target) {
                    Some(e) => pushed_path(s.file_tree.root@, e.path@),
                    None => s.file_tree.root@,
                },
            },
        ],
        item is RevealInFinder && remote ==> sent.len() == 1 && sent[0] is Toast,
{
}

/// A row is the one at its place.
pub proof fn law_rows_are_counted_from_the_top(t: FileTree, i: usize)
    ensures
        i < t.entries@.len() ==> row_at(t, Some(i)) == Some(t.entries@[i as int]),
        i >= t.entries@.len() ==> row_at(t, Some(i)) is None,
        row_at(t, None) is None,
{
}

/// A click on a directory opens it where it is closed and closes it where it is
/// open, and has the tree read again.
pub proof fn law_directory_rows_toggle(s: FilesPane, new: FilesPane, i: usize)
    requires
        s.row_toggled(new, i),
        i < s.file_tree.entries@.len(),
    ensures
        ({
            let p = cleaned(s.file_tree.entries@[i as int].path@);
            new.file_tree.expanded@.contains(p) <==> !s.file_tree.expanded@.contains(p)
        }),
        new.file_tree_load.loading,
        new.file_tree.entries == s.file_tree.entries,
        new.file_tree.selected == s.file_tree.selected,
{
}

/// A tree that was read is taken where it is the one that was asked for last,
/// with its rows as they were read.
pub proof fn law_awaited_tree_is_shown(
    s: FilesPane,
    new: FilesPane,
    generation: u64,
    result: Result<(Vec<TreeEntry>, usize), String>,
    staged: Vec<FileEntry>,
    unstaged: Vec<FileEntry>,
    r: bool,
    i: int,
)
    requires
        s.tree_applied(new, generation, result, staged, unstaged, r),
    ensures
        generation != s.file_tree_load.generation ==> new == s && !r,
        generation == s.file_tree_load.generation ==> !new.file_tree_load.loading,
        generation == s.file_tree_load.generation ==> (result matches Ok(p) ==> {
            &&& new.file_tree.entries@.len() == p.0@.len()
            &&& 0 <= i < p.0@.len() ==> new.file_tree.entries@[i].path == p.0@[i].path
                && new.file_tree.entries@[i].is_dir == p.0@[i].is_dir
            &&& p.1 < p.0@.len() ==> new.file_tree.selected == p.1
        }),
        generation == s.file_tree_load.generation ==> (result matches Err(e)
            ==> new.file_tree.entries == s.file_tree.entries && new.file_tree_load.error == Some(
            e,
        )),
        new.file_clipboard == s.file_clipboard,
{
}

/// The files tab is in front, and the tab that was there before is not.
pub proof fn law_files_tab_comes_to_the_front(screen: Screen)
    ensures
        FilesPane::files_in_front(screen).active_tab == Tab::Files,
        screen.active_tab == Tab::Files ==> FilesPane::files_in_front(screen) == screen,
{
}

/// Where a request to read the tree again selects is what it was asked to, and
/// its number is waited for.
pub proof fn law_tree_is_asked_for(s: FilesPane, select: Option<Seq<char>>)
    ensures
        s.rebuild_request(select) == (Effect::<Seq<char>>::RebuildTree {
            generation: s.rebuild_asked().file_tree_load.generation,
            select,
            selected_idx: s.file_tree.selected,
        }),
        s.rebuild_asked().file_tree_load.loading,
        s.rebuild_asked().file_tree == s.file_tree,
{
}

/// Closing all directories leaves none open.
pub proof fn law_collapse_closes_everything(
    s: FilesPane,
    new: FilesPane,
    fx: Seq<Effect<Seq<char>>>,
    fx2: Seq<Effect<Seq<char>>>,
    p: Seq<char>,
)
    requires
        s.all_collapsed(new, fx, fx2),
    ensures
        !new.file_tree.expanded@.contains(p),
        new.file_tree.selected == 0,
        fx2.len() == fx.len() + 1,
        fx2.last() is RebuildTree,
        new.file_tree_load.loading,
{
}

} // verus!
