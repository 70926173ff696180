//! The file tree: a flat list of visible rows over a set of expanded
//! directories, decorated with git status.
use crate::git::{FileEntry, FileStatus};
use crate::order::{sort, sorted, Ordered};
use crate::paths::{
    child_path, clean, cleaned, is_ancestor, is_name, is_plain, join, lemma_child_is_plain,
    lemma_cleaned, lemma_name_is_plain, lemma_parent_is_clean, lemma_parent_shorter, parent,
    parent_of, same_path,
};
use crate::strmap::{set_of, StrMap, StrSet};
use crate::text::{
    lemma_lex_total, lemma_lex_transitive, lex_le, lowercase, same_str, str_le, to_lowercase,
};
use vstd::prelude::*;
use vstd::string::*;

verus! {

/// One visible row of the tree.
#[derive(Debug)]
pub struct TreeEntry {
    /// Relative to the working directory.
    pub path: String,
    pub name: String,
    pub depth: usize,
    pub is_dir: bool,
    pub is_expanded: bool,
    pub git_status: Option<char>,
}

impl Clone for TreeEntry {
    fn clone(&self) -> (r: Self)
        ensures
            r == *self,
    {
        TreeEntry {
            path: self.path.clone(),
            name: self.name.clone(),
            depth: self.depth,
            is_dir: self.is_dir,
            is_expanded: self.is_expanded,
            git_status: self.git_status,
        }
    }
}

/// A row by its contents.
pub struct RowModel {
    pub path: Seq<char>,
    pub name: Seq<char>,
    pub depth: int,
    pub is_dir: bool,
    pub is_expanded: bool,
    pub git_status: Option<char>,
}

pub open spec fn row_model(e: TreeEntry) -> RowModel {
    RowModel {
        path: e.path@,
        name: e.name@,
        depth: e.depth as int,
        is_dir: e.is_dir,
        is_expanded: e.is_expanded,
        git_status: e.git_status,
    }
}

pub open spec fn rows_view(v: Seq<TreeEntry>) -> Seq<RowModel> {
    v.map_values(|e: TreeEntry| row_model(e))
}

/// A file or directory as it lies on disk. The children of a directory that
/// is not expanded, or cannot be read, need not be there.
#[derive(Debug)]
pub struct DirNode {
    pub name: String,
    pub is_dir: bool,
    pub children: Vec<DirNode>,
}

/// Directories stand before files, and each kind by its name in lower case.
pub open spec fn node_le(a: DirNode, b: DirNode) -> bool {
    if a.is_dir != b.is_dir {
        a.is_dir
    } else {
        lex_le(lowercase(a.name@), lowercase(b.name@))
    }
}

/// A child with its place among its siblings.
#[derive(Debug)]
pub struct Sibling {
    pub index: usize,
    pub is_dir: bool,
    /// The name in lower case.
    pub key: String,
}

impl Ordered for Sibling {
    open spec fn le(a: Self, b: Self) -> bool {
        if a.is_dir != b.is_dir {
            a.is_dir
        } else {
            lex_le(a.key@, b.key@)
        }
    }

    proof fn total(a: Self, b: Self) {
        lemma_lex_total(a.key@, b.key@);
    }

    proof fn transitive(a: Self, b: Self, c: Self) {
        if a.is_dir == b.is_dir && b.is_dir == c.is_dir {
            lemma_lex_transitive(a.key@, b.key@, c.key@);
        }
    }

    fn not_after(&self, other: &Self) -> (r: bool) {
        if self.is_dir != other.is_dir {
            self.is_dir
        } else {
            str_le(self.key.as_str(), other.key.as_str())
        }
    }
}

/// The position `j` may stand before the position `i` among the children.
pub open spec fn pos_le(children: Seq<DirNode>, j: int, i: int) -> bool {
    node_le(children[j], children[i])
}

/// The positions `s` with `i` put behind every one that may stand before it.
pub open spec fn placed(children: Seq<DirNode>, s: Seq<int>, i: int) -> Seq<int>
    decreases s.len(),
{
    if s.len() == 0 || pos_le(children, s.last(), i) {
        s.push(i)
    } else {
        placed(children, s.drop_last(), i).push(s.last())
    }
}

/// The positions of the visible ones among the first `n` children, in the
/// order in which they are shown. The repository's own directory is hidden.
pub open spec fn visible(children: Seq<DirNode>, n: int) -> Seq<int>
    decreases n,
{
    if n <= 0 {
        Seq::empty()
    } else if children[n - 1].name@ == ".git"@ {
        visible(children, n - 1)
    } else {
        placed(children, visible(children, n - 1), n - 1)
    }
}

proof fn lemma_placed(children: Seq<DirNode>, s: Seq<int>, i: int, n: int)
    requires
        forall|k: int| 0 <= k < s.len() ==> 0 <= #[trigger] s[k] < n,
        0 <= i < n,
    ensures
        forall|k: int|
            0 <= k < placed(children, s, i).len() ==> 0 <= #[trigger] placed(children, s, i)[k] < n,
    decreases s.len(),
{
    if s.len() > 0 {
        assert(0 <= s[s.len() - 1] < n);
        if !pos_le(children, s.last(), i) {
            let t = s.drop_last();
            assert(forall|k: int| 0 <= k < t.len() ==> #[trigger] t[k] == s[k]);
            lemma_placed(children, t, i, n);
            let inner = placed(children, t, i);
            let r = placed(children, s, i);
            assert(r == inner.push(s.last()));
            assert forall|k: int| 0 <= k < r.len() implies 0 <= #[trigger] r[k] < n by {
                if k < inner.len() {
                    assert(r[k] == inner[k]);
                }
            }
        }
    }
}

pub proof fn lemma_visible(children: Seq<DirNode>, n: int)
    requires
        0 <= n <= children.len(),
    ensures
        forall|k: int|
            0 <= k < visible(children, n).len() ==> 0 <= #[trigger] visible(children, n)[k] < n,
    decreases n,
{
    if n > 0 {
        lemma_visible(children, n - 1);
        if children[n - 1].name@ != ".git"@ {
            lemma_placed(children, visible(children, n - 1), n - 1, n);
        }
    }
}

/// The rows of the first `k` visible children of a directory, each expanded
/// directory followed by its own rows, one level deeper. The expanded paths are
/// in their clean spelling.
pub open spec fn rows_of(
    children: Seq<DirNode>,
    k: int,
    dir: Seq<char>,
    depth: int,
    expanded: Set<Seq<char>>,
    statuses: Map<Seq<char>, char>,
) -> Seq<RowModel>
    decreases children, k,
{
    if k <= 0 || k > visible(children, children.len() as int).len() {
        Seq::empty()
    } else {
        let i = visible(children, children.len() as int)[k - 1];
        if 0 <= i < children.len() {
            let node = children[i];
            rows_of(children, k - 1, dir, depth, expanded, statuses).push(
                node_row(node, dir, depth, expanded, statuses),
            ) + (if node.is_dir && expanded.contains(cleaned(child_path(dir, node.name@))) {
                let inner = node.children@;
                rows_of(
                    inner,
                    visible(inner, inner.len() as int).len() as int,
                    child_path(dir, node.name@),
                    depth + 1,
                    expanded,
                    statuses,
                )
            } else {
                Seq::empty()
            })
        } else {
            Seq::empty()
        }
    }
}

/// The row of one child of `dir`.
pub open spec fn node_row(
    node: DirNode,
    dir: Seq<char>,
    depth: int,
    expanded: Set<Seq<char>>,
    statuses: Map<Seq<char>, char>,
) -> RowModel {
    let path = child_path(dir, node.name@);
    RowModel {
        path,
        name: node.name@,
        depth,
        is_dir: node.is_dir,
        is_expanded: node.is_dir && expanded.contains(cleaned(path)),
        git_status: if statuses.contains_key(path) {
            Some(statuses[path])
        } else {
            None
        },
    }
}

/// All rows below the working directory.
pub open spec fn tree_rows(
    nodes: Seq<DirNode>,
    expanded: Set<Seq<char>>,
    statuses: Map<Seq<char>, char>,
) -> Seq<RowModel> {
    rows_of(
        nodes,
        visible(nodes, nodes.len() as int).len() as int,
        Seq::empty(),
        0,
        expanded,
        statuses,
    )
}

/// The deepest level of nested directories.
pub open spec fn nesting(children: Seq<DirNode>, n: int) -> nat
    decreases children, n,
{
    if n <= 0 || n > children.len() {
        0
    } else {
        let c = children[n - 1].children@;
        let here = 1 + nesting(c, c.len() as int);
        let rest = nesting(children, n - 1);
        if here > rest {
            here
        } else {
            rest
        }
    }
}

proof fn lemma_nesting(children: Seq<DirNode>, n: int, i: int)
    requires
        0 <= i < n <= children.len(),
    ensures
        nesting(children, n) > nesting(
            children[i].children@,
            children[i].children@.len() as int,
        ),
    decreases n,
{
    if i < n - 1 {
        lemma_nesting(children, n - 1, i);
    }
}

spec fn sibling_of(s: Sibling, children: Seq<DirNode>, j: int) -> bool {
    s.index == j && s.is_dir == children[j].is_dir && s.key@ == lowercase(children[j].name@)
}

spec fn indices(sibs: Seq<Sibling>) -> Seq<int> {
    sibs.map_values(|s: Sibling| s.index as int)
}

spec fn all_siblings(sibs: Seq<Sibling>, children: Seq<DirNode>) -> bool {
    forall|k: int|
        0 <= k < sibs.len() ==> (#[trigger] sibs[k]).index < children.len() && sibling_of(
            sibs[k],
            children,
            sibs[k].index as int,
        )
}

proof fn lemma_inserted_siblings(s: Seq<Sibling>, x: Sibling, children: Seq<DirNode>)
    requires
        all_siblings(s, children),
        all_siblings(seq![x], children),
    ensures
        all_siblings(crate::order::inserted(s, x), children),
        indices(crate::order::inserted(s, x)) == placed(children, indices(s), x.index as int),
    decreases s.len(),
{
    assert(seq![x][0] == x);
    if s.len() > 0 {
        let l = s.last();
        assert(sibling_of(s[s.len() - 1], children, l.index as int));
        assert(indices(s).last() == l.index as int);
        assert(indices(s).drop_last() =~= indices(s.drop_last()));
    }
    if s.len() == 0 || <Sibling as Ordered>::le(s.last(), x) {
        assert(indices(s.push(x)) =~= indices(s).push(x.index as int));
    } else {
        let t = s.drop_last();
        assert forall|k: int| 0 <= k < t.len() implies (#[trigger] t[k]).index < children.len()
            && sibling_of(t[k], children, t[k].index as int) by {
            assert(t[k] == s[k]);
        }
        lemma_inserted_siblings(t, x, children);
        let r = crate::order::inserted(t, x);
        assert(indices(r.push(s.last())) =~= indices(r).push(s.last().index as int));
    }
}

proof fn lemma_sorted_siblings(s: Seq<Sibling>, children: Seq<DirNode>)
    requires
        all_siblings(s, children),
    ensures
        all_siblings(sorted(s), children),
        indices(sorted(s)) == placed_all(children, indices(s)),
    decreases s.len(),
{
    if s.len() > 0 {
        let t = s.drop_last();
        assert forall|k: int| 0 <= k < t.len() implies (#[trigger] t[k]).index < children.len()
            && sibling_of(t[k], children, t[k].index as int) by {
            assert(t[k] == s[k]);
        }
        lemma_sorted_siblings(t, children);
        assert(all_siblings(seq![s.last()], children)) by {
            assert(s[s.len() - 1] == s.last());
        }
        lemma_inserted_siblings(sorted(t), s.last(), children);
        assert(indices(s).drop_last() =~= indices(t));
        assert(indices(s).last() == s.last().index as int);
    } else {
        assert(indices(s) =~= Seq::empty());
    }
}

spec fn placed_all(children: Seq<DirNode>, s: Seq<int>) -> Seq<int>
    decreases s.len(),
{
    if s.len() == 0 {
        Seq::empty()
    } else {
        placed(children, placed_all(children, s.drop_last()), s.last())
    }
}

spec fn shown(children: Seq<DirNode>, n: int) -> Seq<int>
    decreases n,
{
    if n <= 0 {
        Seq::empty()
    } else if children[n - 1].name@ == ".git"@ {
        shown(children, n - 1)
    } else {
        shown(children, n - 1).push(n - 1)
    }
}

proof fn lemma_visible_is_placed(children: Seq<DirNode>, n: int)
    requires
        0 <= n <= children.len(),
    ensures
        visible(children, n) == placed_all(children, shown(children, n)),
    decreases n,
{
    if n > 0 {
        lemma_visible_is_placed(children, n - 1);
        let s = shown(children, n - 1);
        assert(s.push(n - 1).drop_last() =~= s);
    }
}

/// The positions of the visible children in the order in which they are
/// shown.
fn visible_children(children: &Vec<DirNode>) -> (r: Vec<usize>)
    ensures
        r@.map_values(|i: usize| i as int) == visible(children@, children@.len() as int),
{
    let mut sibs: Vec<Sibling> = Vec::new();
    let mut i: usize = 0;
    assert(indices(sibs@) =~= shown(children@, 0));
    while i < children.len()
        invariant
            i <= children@.len(),
            all_siblings(sibs@, children@),
            indices(sibs@) == shown(children@, i as int),
        decreases children@.len() - i,
    {
        if !same_str(children[i].name.as_str(), ".git") {
            let ghost before = sibs@;
            let s = Sibling {
                index: i,
                is_dir: children[i].is_dir,
                key: to_lowercase(children[i].name.as_str()),
            };
            let ghost added = s;
            sibs.push(s);
            assert(indices(sibs@) =~= indices(before).push(added.index as int));
        }
        i = i + 1;
    }
    proof {
        lemma_sorted_siblings(sibs@, children@);
        lemma_visible_is_placed(children@, children@.len() as int);
    }
    let ordered = sort(sibs);
    let mut out: Vec<usize> = Vec::new();
    let mut k: usize = 0;
    while k < ordered.len()
        invariant
            k <= ordered@.len(),
            out@.len() == k,
            forall|j: int| 0 <= j < k ==> #[trigger] out@[j] == ordered@[j].index,
        decreases ordered@.len() - k,
    {
        out.push(ordered[k].index);
        k = k + 1;
    }
    assert(out@.map_values(|i: usize| i as int) =~= indices(ordered@));
    out
}

/// Appends the rows of a directory.
fn walk_dir(
    children: &Vec<DirNode>,
    dir: &str,
    expanded: &StrSet,
    git_statuses: &StrMap<char>,
    out: &mut Vec<TreeEntry>,
    depth: usize,
)
    requires
        git_statuses.wf(),
        depth + nesting(children@, children@.len() as int) <= usize::MAX,
    ensures
        rows_view(final(out)@) == rows_view(old(out)@) + rows_of(
            children@,
            visible(children@, children@.len() as int).len() as int,
            dir@,
            depth as int,
            expanded@,
            git_statuses@,
        ),
    decreases children,
{
    let order = visible_children(children);
    let ghost vis = visible(children@, children@.len() as int);
    let ghost start = rows_view(out@);
    assert(order@.map_values(|i: usize| i as int).len() == order@.len());
    proof {
        lemma_visible(children@, children@.len() as int);
    }
    let mut k: usize = 0;
    assert(start =~= start + rows_of(
        children@,
        0,
        dir@,
        depth as int,
        expanded@,
        git_statuses@,
    ));
    while k < order.len()
        invariant
            k <= order@.len(),
            git_statuses.wf(),
            depth + nesting(children@, children@.len() as int) <= usize::MAX,
            order@.len() == vis.len(),
            vis == visible(children@, children@.len() as int),
            order@.map_values(|i: usize| i as int) == vis,
            forall|j: int| 0 <= j < vis.len() ==> 0 <= #[trigger] vis[j] < children@.len(),
            rows_view(out@) == start + rows_of(
                children@,
                k as int,
                dir@,
                depth as int,
                expanded@,
                git_statuses@,
            ),
        decreases order@.len() - k,
    {
        let ghost before = rows_view(out@);
        let i: usize = order[k];
        assert(vis[k as int] == order@.map_values(|i: usize| i as int)[k as int]);
        assert(vis[k as int] == i);
        let node = &children[i];
        let path = join(dir, node.name.as_str());
        let is_expanded = node.is_dir && expanded.contains(clean(path.as_str()).as_str());
        let git_status = git_statuses.get(path.as_str());
        let row = TreeEntry {
            path: path.clone(),
            name: node.name.clone(),
            depth,
            is_dir: node.is_dir,
            is_expanded,
            git_status,
        };
        let ghost model = row_model(row);
        let ghost rows = out@;
        out.push(row);
        assert(rows_view(out@) =~= rows_view(rows).push(model));
        proof {
            lemma_nesting(children@, children@.len() as int, i as int);
            assert(decreases_to!(children => children@));
            assert(decreases_to!(children@ => children@[i as int]));
        }
        if is_expanded {
            walk_dir(&node.children, path.as_str(), expanded, git_statuses, out, depth + 1);
        } else {
            assert(rows_view(out@) =~= rows_view(out@) + Seq::<RowModel>::empty());
        }
        k = k + 1;
        proof {
            let done = rows_of(
                children@,
                k - 1,
                dir@,
                depth as int,
                expanded@,
                git_statuses@,
            );
            assert(rows_view(out@) =~= start + rows_of(
                children@,
                k as int,
                dir@,
                depth as int,
                expanded@,
                git_statuses@,
            ));
        }
    }
}

/// The rows below the working directory whose contents are `nodes`.
pub fn build_entries(nodes: &Vec<DirNode>, expanded: &StrSet, git_statuses: &StrMap<char>) -> (r:
    Vec<TreeEntry>)
    requires
        git_statuses.wf(),
        nesting(nodes@, nodes@.len() as int) <= usize::MAX,
    ensures
        rows_view(r@) == tree_rows(nodes@, expanded@, git_statuses@),
{
    let mut out: Vec<TreeEntry> = Vec::new();
    let top = String::new();
    assert(rows_view(out@) =~= Seq::empty());
    assert(top@ =~= Seq::empty());
    walk_dir(nodes, top.as_str(), expanded, git_statuses, &mut out, 0);
    assert(Seq::<RowModel>::empty() + tree_rows(nodes@, expanded@, git_statuses@) =~= tree_rows(
        nodes@,
        expanded@,
        git_statuses@,
    ));
    out
}

// ── Git decorations ──────────────────────────────────────────────────────

/// The status of each staged file; a later entry of a path wins.
pub open spec fn staged_marks(v: Seq<FileEntry>) -> Map<Seq<char>, char>
    decreases v.len(),
{
    if v.len() == 0 {
        Map::empty()
    } else {
        staged_marks(v.drop_last()).insert(v.last().path@, v.last().status.letter())
    }
}

/// `m` with the statuses of the unstaged files that it does not hold yet.
pub open spec fn with_unstaged(m: Map<Seq<char>, char>, v: Seq<FileEntry>) -> Map<Seq<char>, char>
    decreases v.len(),
{
    if v.len() == 0 {
        m
    } else {
        let before = with_unstaged(m, v.drop_last());
        if before.contains_key(v.last().path@) {
            before
        } else {
            before.insert(v.last().path@, v.last().status.letter())
        }
    }
}

/// Some changed path lies below `a`.
pub open spec fn holds_changes(m: Map<Seq<char>, char>, a: Seq<char>) -> bool {
    exists|p: Seq<char>| #[trigger] m.contains_key(p) && is_ancestor(a, p)
}

/// `m` with a dot on every directory that holds a change.
pub open spec fn with_directories(m: Map<Seq<char>, char>) -> Map<Seq<char>, char> {
    Map::new(
        |a: Seq<char>| m.contains_key(a) || holds_changes(m, a),
        |a: Seq<char>|
            if m.contains_key(a) {
                m[a]
            } else {
                '●'
            },
    )
}

/// The decorations for these lists of files.
pub open spec fn decorations(staged: Seq<FileEntry>, unstaged: Seq<FileEntry>) -> Map<
    Seq<char>,
    char,
> {
    with_directories(with_unstaged(staged_marks(staged), unstaged))
}

pub open spec fn decorated(rows: Seq<TreeEntry>, m: Map<Seq<char>, char>) -> Seq<TreeEntry> {
    rows.map_values(
        |e: TreeEntry|
            TreeEntry {
                git_status: if m.contains_key(e.path@) {
                    Some(m[e.path@])
                } else {
                    None
                },
                ..e
            },
    )
}

fn status_letter(s: FileStatus) -> (r: char)
    ensures
        r == s.letter(),
{
    match s {
        FileStatus::Modified => 'M',
        FileStatus::Added => 'A',
        FileStatus::Deleted => 'D',
        FileStatus::Renamed => 'R',
        FileStatus::Untracked => 'U',
    }
}

/// The dots that the ancestors of `p` get in `m`.
pub open spec fn dotted(m: Map<Seq<char>, char>, p: Seq<char>) -> Map<Seq<char>, char> {
    Map::new(
        |a: Seq<char>| m.contains_key(a) || is_ancestor(a, p),
        |a: Seq<char>|
            if m.contains_key(a) {
                m[a]
            } else {
                '●'
            },
    )
}

fn dot_ancestors(m: &mut StrMap<char>, p: &str)
    requires
        old(m).wf(),
    ensures
        final(m).wf(),
        final(m)@ == dotted(old(m)@, p@),
{
    let ghost start = m@;
    let mut at = parent(p);
    let ghost mut below = p@;
    assert(m@ =~= start);
    loop
        invariant
            m.wf(),
            start == old(m)@,
            crate::text::opt_view(at) == parent_of(below),
            dotted(m@, below) =~= dotted(start, p@),
        decreases below.len(),
    {
        match at {
            None => {
                assert(m@ =~= dotted(m@, below));
                return;
            },
            Some(q) => {
                if q.as_str().is_empty() {
                    assert(m@ =~= dotted(m@, below));
                    return;
                }
                let ghost was = m@;
                proof {
                    lemma_parent_shorter(below);
                }
                let next = parent(q.as_str());
                let ghost here = q@;
                m.insert_if_absent(q, '●');
                proof {
                    assert(dotted(m@, here) =~= dotted(was, below)) by {
                        assert forall|a: Seq<char>| dotted(m@, here).contains_key(a) == dotted(
                            was,
                            below,
                        ).contains_key(a) by {
                            assert(is_ancestor(a, below) == (a == here || is_ancestor(a, here)));
                        }
                    }
                    below = here;
                }
                at = next;
            },
        }
    }
}

/// `new` is `old` with the decorations of these files on it, and nothing else
/// changed.
pub open spec fn redecorated(
    old: FileTree,
    new: FileTree,
    staged: Seq<FileEntry>,
    unstaged: Seq<FileEntry>,
) -> bool {
    &&& new.wf()
    &&& new.git_statuses@ == decorations(staged, unstaged)
    &&& new.entries@ == decorated(old.entries@, decorations(staged, unstaged))
    &&& new == (FileTree { git_statuses: new.git_statuses, entries: new.entries, ..old })
}

/// Manages the rows, the selection and the decorations of the tree.
#[derive(Debug)]
pub struct FileTree {
    pub root: String,
    pub entries: Vec<TreeEntry>,
    /// The selected row, or past the last one when nothing is selected.
    pub selected: usize,
    /// The expanded directories, each in its clean spelling.
    pub expanded: StrSet,
    pub git_statuses: StrMap<char>,
}

pub open spec fn clamped(i: usize, n: nat) -> usize {
    if n == 0 {
        0
    } else if i < n {
        i
    } else {
        (n - 1) as usize
    }
}

fn clamp_row(i: usize, n: usize) -> (r: usize)
    ensures
        r == clamped(i, n as nat),
{
    if n == 0 {
        0
    } else if i < n {
        i
    } else {
        n - 1
    }
}

impl FileTree {
    pub open spec fn wf(&self) -> bool {
        &&& self.expanded.wf()
        &&& self.git_statuses.wf()
        &&& all_clean(self.expanded@)
    }

    /// `new` has the rows of `nodes`, over the same expanded directories and
    /// decorations, and the selection in range.
    pub open spec fn rebuilt(self, new: Self, nodes: Seq<DirNode>) -> bool {
        &&& rows_view(new.entries@) == tree_rows(nodes, self.expanded@, self.git_statuses@)
        &&& new.selected == clamped(self.selected, new.entries@.len())
        &&& new == (FileTree { entries: new.entries, selected: new.selected, ..self })
    }

    /// The tree of a working directory with nothing expanded.
    pub fn new(workdir: &str, nodes: &Vec<DirNode>) -> (r: Self)
        requires
            nesting(nodes@, nodes@.len() as int) <= usize::MAX,
        ensures
            r.wf(),
            r.root@ == workdir@,
            r.selected == 0,
            r.expanded@ == Set::<Seq<char>>::empty(),
            r.git_statuses@ == Map::<Seq<char>, char>::empty(),
            rows_view(r.entries@) == tree_rows(nodes@, Set::empty(), Map::empty()),
    {
        let mut tree = FileTree {
            root: workdir.to_owned(),
            entries: Vec::new(),
            selected: 0,
            expanded: StrSet::new(),
            git_statuses: StrMap::new(),
        };
        tree.rebuild(nodes);
        tree
    }

    /// Builds the rows anew from what lies on disk and keeps the selection in
    /// range.
    pub fn rebuild(&mut self, nodes: &Vec<DirNode>)
        requires
            old(self).wf(),
            nesting(nodes@, nodes@.len() as int) <= usize::MAX,
        ensures
            final(self).wf(),
            old(self).rebuilt(*final(self), nodes@),
    {
        self.entries = build_entries(nodes, &self.expanded, &self.git_statuses);
        self.selected = clamp_row(self.selected, self.entries.len());
    }

    /// Whether the directory at `path` is expanded, and so to be read.
    pub fn is_expanded(&self, path: &str) -> (r: bool)
        ensures
            r == self.expanded@.contains(cleaned(path@)),
    {
        self.expanded.contains(clean(path).as_str())
    }

    /// Expands or collapses the directory in a row. The rows change with the
    /// next rebuild.
    pub fn toggle_expand(&mut self, index: usize)
        requires
            old(self).wf(),
        ensures
            final(self).wf(),
            *final(self) == (FileTree { expanded: final(self).expanded, ..*old(self) }),
            final(self).expanded@ == (if index < old(self).entries@.len() && old(
                self,
            ).entries@[index as int].is_dir {
                toggled(old(self).expanded@, old(self).entries@[index as int].path@)
            } else {
                old(self).expanded@
            }),
    {
        if index < self.entries.len() && self.entries[index].is_dir {
            let path = clean(self.entries[index].path.as_str());
            proof {
                lemma_cleaned(self.entries@[index as int].path@);
            }
            if self.expanded.contains(path.as_str()) {
                self.expanded.remove(path.as_str());
            } else {
                self.expanded.insert(path);
            }
        }
    }

    /// Collapses every directory and selects the first row.
    pub fn collapse_all(&mut self)
        requires
            old(self).wf(),
        ensures
            final(self).wf(),
            final(self).expanded@ == Set::<Seq<char>>::empty(),
            final(self).selected == 0,
            *final(self) == (FileTree {
                expanded: final(self).expanded,
                selected: final(self).selected,
                ..*old(self)
            }),
    {
        self.expanded.clear();
        self.selected = 0;
    }

    /// Moves the selection by `delta` rows within the list. From no selection
    /// a move down lands on the first row and any other on the last.
    pub fn navigate(&mut self, delta: i32)
        requires
            old(self).selected < old(self).entries@.len() ==> delta > i32::MIN,
        ensures
            *final(self) == (FileTree { selected: final(self).selected, ..*old(self) }),
            final(self).selected as int == moved(
                old(self).selected as int,
                delta as int,
                old(self).entries@.len() as int,
            ),
    {
        if self.entries.len() == 0 {
            return;
        }
        let last: usize = self.entries.len() - 1;
        if self.selected > last {
            self.selected = if delta > 0 {
                0
            } else {
                last
            };
            return;
        }
        if delta > 0 {
            let to: usize = self.selected.saturating_add(delta as usize);
            self.selected = if to < last {
                to
            } else {
                last
            };
        } else {
            self.selected = self.selected.saturating_sub((-delta) as usize);
        }
    }

    /// Selects nothing.
    pub fn clear_selection(&mut self)
        ensures
            final(self).selected == old(self).entries@.len(),
            *final(self) == (FileTree { selected: final(self).selected, ..*old(self) }),
    {
        self.selected = self.entries.len();
    }

    pub fn selected_cleared(&self) -> (r: bool)
        ensures
            r == (self.selected >= self.entries@.len()),
    {
        self.selected >= self.entries.len()
    }

    pub fn selected_entry(&self) -> (r: Option<&TreeEntry>)
        ensures
            match r {
                Some(e) => self.selected < self.entries@.len() && *e == self.entries@[self.selected as int],
                None => self.selected >= self.entries@.len(),
            },
    {
        if self.selected < self.entries.len() {
            Some(&self.entries[self.selected])
        } else {
            None
        }
    }

    pub fn selected_path(&self) -> (r: Option<String>)
        ensures
            r == (if self.selected < self.entries@.len() {
                Some(self.entries@[self.selected as int].path)
            } else {
                None
            }),
    {
        if self.selected < self.entries.len() {
            Some(self.entries[self.selected].path.clone())
        } else {
            None
        }
    }

    /// The expanded directories, each once.
    pub fn expanded_paths(&self) -> (r: Vec<String>)
        requires
            self.wf(),
        ensures
            set_of(r@) == self.expanded@,
            forall|i: int, j: int|
                0 <= i < j < r@.len() ==> #[trigger] r@[i]@ != #[trigger] r@[j]@,
    {
        self.expanded.items()
    }

    /// A copy of the decorations.
    pub fn git_statuses(&self) -> (r: StrMap<char>)
        requires
            self.wf(),
        ensures
            r.wf(),
            r@ == self.git_statuses@,
    {
        self.git_statuses.duplicate()
    }

    /// Takes rows that were built elsewhere, with the selection in range.
    pub fn replace_entries(&mut self, entries: Vec<TreeEntry>, selected_idx: usize)
        ensures
            *final(self) == (FileTree {
                entries,
                selected: clamped(selected_idx, entries@.len()),
                ..*old(self)
            }),
    {
        self.selected = clamp_row(selected_idx, entries.len());
        self.entries = entries;
    }

    /// `new` has every directory above `rel` expanded. Where the rows of `nodes`
    /// show `rel` it has these rows, with the first that shows it selected; else
    /// its rows and its selection are as before.
    pub open spec fn revealed(self, new: Self, rel: Seq<char>, nodes: Seq<DirNode>) -> bool {
        let rows = tree_rows(nodes, new.expanded@, self.git_statuses@);
        &&& new.expanded@ == with_ancestors(self.expanded@, rel)
        &&& new == (FileTree {
            expanded: new.expanded,
            entries: new.entries,
            selected: new.selected,
            ..self
        })
        &&& if show(rows, rel) {
            rows_view(new.entries@) == rows && first_row(new.entries@, rel) == Some(
                new.selected as int,
            )
        } else {
            new.entries == self.entries && new.selected == self.selected
        }
    }

    /// Shows the file at `rel`: expands every directory above it, takes the
    /// rows of `nodes` and selects its row. Where the file is not there any
    /// more the rows and the selection stay.
    pub fn reveal_path(&mut self, rel: &str, nodes: &Vec<DirNode>)
        requires
            old(self).wf(),
            nesting(nodes@, nodes@.len() as int) <= usize::MAX,
        ensures
            final(self).wf(),
            old(self).revealed(*final(self), rel@, nodes@),
    {
        expand_ancestors(&mut self.expanded, rel);
        let rows = build_entries(nodes, &self.expanded, &self.git_statuses);
        proof {
            lemma_show(rows@, rel@);
        }
        if let Some(i) = row_showing(&rows, rel) {
            self.entries = rows;
            self.selected = i;
        }
    }

    /// The directories to read for the rows that show `rel`: those that are
    /// expanded and those above `rel`.
    pub fn expanded_for(&self, rel: &str) -> (r: StrSet)
        requires
            self.wf(),
        ensures
            r.wf(),
            r@ == with_ancestors(self.expanded@, rel@),
    {
        let mut s = self.expanded.duplicate();
        expand_ancestors(&mut s, rel);
        s
    }

    /// Takes the decorations of these files and puts them on the rows.
    pub fn refresh_git_statuses(&mut self, staged: &[FileEntry], unstaged: &[FileEntry])
        requires
            old(self).wf(),
        ensures
            redecorated(*old(self), *final(self), staged@, unstaged@),
    {
        let mut m: StrMap<char> = StrMap::new();
        let mut i: usize = 0;
        assert(staged@.take(0) =~= Seq::empty());
        while i < staged.len()
            invariant
                i <= staged@.len(),
                m.wf(),
                m@ == staged_marks(staged@.take(i as int)),
            decreases staged@.len() - i,
        {
            assert(staged@.take(i + 1).drop_last() =~= staged@.take(i as int));
            m.insert(staged[i].path.clone(), status_letter(staged[i].status));
            i = i + 1;
        }
        assert(staged@.take(staged@.len() as int) =~= staged@);
        let ghost base0 = m@;
        let mut j: usize = 0;
        assert(unstaged@.take(0) =~= Seq::empty());
        while j < unstaged.len()
            invariant
                j <= unstaged@.len(),
                m.wf(),
                m@ == with_unstaged(base0, unstaged@.take(j as int)),
            decreases unstaged@.len() - j,
        {
            assert(unstaged@.take(j + 1).drop_last() =~= unstaged@.take(j as int));
            m.insert_if_absent(unstaged[j].path.clone(), status_letter(unstaged[j].status));
            j = j + 1;
        }
        assert(unstaged@.take(unstaged@.len() as int) =~= unstaged@);
        let ghost base = m@;
        let keys = m.keys();
        let mut k: usize = 0;
        assert(m@ =~= dots_for(base, keys@, 0));
        while k < keys.len()
            invariant
                k <= keys@.len(),
                m.wf(),
                m@ == dots_for(base, keys@, k as int),
            decreases keys@.len() - k,
        {
            let ghost was = m@;
            dot_ancestors(&mut m, keys[k].as_str());
            k = k + 1;
            proof {
                let now = dots_for(base, keys@, k as int);
                assert forall|a: Seq<char>| m@.contains_key(a) == now.contains_key(a) by {
                    if now.contains_key(a) && !base.contains_key(a) {
                        let x = choose|x: int| 0 <= x < k && is_ancestor(a, #[trigger] keys@[x]@);
                        assert(x < k - 1 ==> was.contains_key(a));
                    }
                    if was.contains_key(a) && !base.contains_key(a) {
                        let x = choose|x: int|
                            0 <= x < k - 1 && is_ancestor(a, #[trigger] keys@[x]@);
                        assert(0 <= x < k && is_ancestor(a, keys@[x]@));
                    }
                    if is_ancestor(a, keys@[k - 1]@) {
                        assert(0 <= k - 1 < k);
                    }
                }
                assert(m@ =~= now);
            }
        }
        proof {
            lemma_dots_all(base, keys@);
        }
        self.git_statuses = m;
        self.apply_git_statuses_to_entries();
    }

    fn apply_git_statuses_to_entries(&mut self)
        requires
            old(self).wf(),
        ensures
            final(self).entries@ == decorated(old(self).entries@, old(self).git_statuses@),
            *final(self) == (FileTree { entries: final(self).entries, ..*old(self) }),
    {
        let n: usize = self.entries.len();
        let ghost all = self.entries@;
        let ghost want = decorated(all, self.git_statuses@);
        let mut i: usize = 0;
        while i < n
            invariant
                i <= n == self.entries@.len(),
                n == all.len(),
                *self == (FileTree { entries: self.entries, ..*old(self) }),
                self.wf(),
                want == decorated(all, self.git_statuses@),
                forall|j: int| 0 <= j < i ==> #[trigger] self.entries@[j] == want[j],
                forall|j: int| i <= j < n ==> #[trigger] self.entries@[j] == all[j],
            decreases n - i,
        {
            let status = self.git_statuses.get(self.entries[i].path.as_str());
            self.entries[i].git_status = status;
            i = i + 1;
        }
        assert(self.entries@ =~= want);
    }
}

spec fn dots_for(m: Map<Seq<char>, char>, keys: Seq<String>, n: int) -> Map<Seq<char>, char> {
    Map::new(
        |a: Seq<char>|
            m.contains_key(a) || exists|x: int| 0 <= x < n && is_ancestor(a, #[trigger] keys[x]@),
        |a: Seq<char>|
            if m.contains_key(a) {
                m[a]
            } else {
                '●'
            },
    )
}

proof fn lemma_dots_all(m: Map<Seq<char>, char>, keys: Seq<String>)
    requires
        forall|k: Seq<char>|
            #[trigger] m.contains_key(k) <==> exists|i: int|
                0 <= i < keys.len() && #[trigger] keys[i]@ == k,
    ensures
        dots_for(m, keys, keys.len() as int) == with_directories(m),
{
    let dots = dots_for(m, keys, keys.len() as int);
    let all = with_directories(m);
    assert forall|a: Seq<char>| #[trigger] dots.contains_key(a) == all.contains_key(a) by {
        if holds_changes(m, a) {
            let p = choose|p: Seq<char>| #[trigger] m.contains_key(p) && is_ancestor(a, p);
            let x = choose|x: int| 0 <= x < keys.len() && #[trigger] keys[x]@ == p;
            assert(is_ancestor(a, keys[x]@));
        }
        if dots.contains_key(a) && !m.contains_key(a) {
            let x = choose|x: int| 0 <= x < keys.len() && is_ancestor(a, #[trigger] keys[x]@);
            assert(m.contains_key(keys[x]@));
        }
    }
    assert(dots =~= all);
}

/// Every path is in its clean spelling.
pub open spec fn all_clean(s: Set<Seq<char>>) -> bool {
    forall|p: Seq<char>| #[trigger] s.contains(p) ==> cleaned(p) == p
}

/// `s` with the path `p` taken out or put in.
pub open spec fn toggled(s: Set<Seq<char>>, p: Seq<char>) -> Set<Seq<char>> {
    let c = cleaned(p);
    if s.contains(c) {
        s.remove(c)
    } else {
        s.insert(c)
    }
}

/// Where a move by `delta` from row `at` of `n` rows ends.
pub open spec fn moved(at: int, delta: int, n: int) -> int {
    if n == 0 {
        at
    } else if at >= n {
        if delta > 0 {
            0
        } else {
            n - 1
        }
    } else if at + delta >= n {
        n - 1
    } else if at + delta < 0 {
        0
    } else {
        at + delta
    }
}

/// The directories above `p`, besides those in `s`.
pub open spec fn with_ancestors(s: Set<Seq<char>>, p: Seq<char>) -> Set<Seq<char>> {
    Set::new(|a: Seq<char>| s.contains(a) || is_ancestor(a, cleaned(p)))
}

spec fn with_above(s: Set<Seq<char>>, c: Seq<char>) -> Set<Seq<char>> {
    Set::new(|a: Seq<char>| s.contains(a) || is_ancestor(a, c))
}

fn expand_ancestors(s: &mut StrSet, p: &str)
    requires
        old(s).wf(),
        all_clean(old(s)@),
    ensures
        final(s).wf(),
        all_clean(final(s)@),
        final(s)@ == with_ancestors(old(s)@, p@),
{
    let ghost start = s@;
    let c = clean(p);
    let mut at = parent(c.as_str());
    let ghost mut below = c@;
    proof {
        lemma_cleaned(p@);
        assert(with_above(start, c@) =~= with_ancestors(start, p@));
    }
    loop
        invariant
            s.wf(),
            all_clean(s@),
            cleaned(below) == below,
            start == old(s)@,
            c@ == cleaned(p@),
            crate::text::opt_view(at) == parent_of(below),
            with_above(s@, below) =~= with_ancestors(start, p@),
        decreases below.len(),
    {
        match at {
            None => {
                assert(s@ =~= with_above(s@, below));
                return;
            },
            Some(q) => {
                if q.as_str().is_empty() {
                    assert(s@ =~= with_above(s@, below));
                    return;
                }
                let ghost was = s@;
                proof {
                    lemma_parent_shorter(below);
                    lemma_parent_is_clean(below);
                }
                let next = parent(q.as_str());
                let ghost here = q@;
                s.insert(q);
                proof {
                    assert forall|a: Seq<char>| with_above(s@, here).contains(a) == with_above(
                        was,
                        below,
                    ).contains(a) by {
                        assert(is_ancestor(a, below) == (a == here || is_ancestor(a, here)));
                    }
                    assert(with_above(s@, here) =~= with_above(was, below));
                    below = here;
                }
                at = next;
            },
        }
    }
}

pub fn row_showing(entries: &Vec<TreeEntry>, path: &str) -> (r: Option<usize>)
    ensures
        match r {
            Some(i) => first_row(entries@, path@) == Some(i as int) && i < entries@.len(),
            None => first_row(entries@, path@) is None,
        },
{
    let wanted = clean(path);
    let mut i: usize = 0;
    while i < entries.len()
        invariant
            i <= entries@.len(),
            wanted@ == cleaned(path@),
            forall|j: int| 0 <= j < i ==> !same_path((#[trigger] entries@[j]).path@, path@),
        decreases entries@.len() - i,
    {
        if same_str(clean(entries[i].path.as_str()).as_str(), wanted.as_str()) {
            proof {
                lemma_first_row(entries@, path@, i as int);
            }
            return Some(i);
        }
        i = i + 1;
    }
    proof {
        lemma_no_row(entries@, path@);
    }
    None
}

/// The first row that shows `path`, however either is spelled.
pub open spec fn first_row(rows: Seq<TreeEntry>, path: Seq<char>) -> Option<int>
    decreases rows.len(),
{
    if rows.len() == 0 {
        None
    } else if same_path(rows[0].path@, path) {
        Some(0)
    } else {
        match first_row(rows.drop_first(), path) {
            Some(i) => Some(i + 1),
            None => None,
        }
    }
}

/// Some row shows `path`, however either is spelled.
pub open spec fn show(rows: Seq<RowModel>, path: Seq<char>) -> bool {
    exists|m: int| 0 <= m < rows.len() && same_path((#[trigger] rows[m]).path, path)
}

proof fn lemma_show(rows: Seq<TreeEntry>, path: Seq<char>)
    ensures
        show(rows_view(rows), path) == (first_row(rows, path) is Some),
{
    let v = rows_view(rows);
    if show(v, path) {
        let m = choose|m: int| 0 <= m < v.len() && same_path((#[trigger] v[m]).path, path);
        lemma_row_found(rows, path, m);
    } else {
        assert forall|j: int| 0 <= j < rows.len() implies !same_path(
            (#[trigger] rows[j]).path@,
            path,
        ) by {
            assert(v[j].path == rows[j].path@);
        }
        lemma_no_row(rows, path);
    }
}

proof fn lemma_first_row(rows: Seq<TreeEntry>, path: Seq<char>, i: int)
    requires
        0 <= i < rows.len(),
        same_path(rows[i].path@, path),
        forall|j: int| 0 <= j < i ==> !same_path((#[trigger] rows[j]).path@, path),
    ensures
        first_row(rows, path) == Some(i),
    decreases i,
{
    if i > 0 {
        let t = rows.drop_first();
        assert(forall|j: int| 0 <= j < t.len() ==> t[j] == rows[j + 1]);
        assert(!same_path(rows[0].path@, path));
        lemma_first_row(t, path, i - 1);
    }
}

proof fn lemma_no_row(rows: Seq<TreeEntry>, path: Seq<char>)
    requires
        forall|j: int| 0 <= j < rows.len() ==> !same_path((#[trigger] rows[j]).path@, path),
    ensures
        first_row(rows, path) is None,
    decreases rows.len(),
{
    if rows.len() > 0 {
        let t = rows.drop_first();
        assert(forall|j: int| 0 <= j < t.len() ==> t[j] == rows[j + 1]);
        assert(!same_path(rows[0].path@, path));
        lemma_no_row(t, path);
    }
}

// ── Laws ─────────────────────────────────────────────────────────────────

/// Toggling a directory twice leaves the open directories as they were.
pub proof fn law_toggle_twice(s: Set<Seq<char>>, p: Seq<char>)
    ensures
        toggled(toggled(s, p), p) == s,
{
    assert(toggled(toggled(s, p), p) =~= s);
}

/// A staged status is never replaced by an unstaged one of the same path.
pub proof fn law_staged_status_wins(staged: Seq<FileEntry>, unstaged: Seq<FileEntry>, i: int)
    requires
        0 <= i < staged.len(),
    ensures
        decorations(staged, unstaged).contains_key(staged[i].path@),
        decorations(staged, unstaged)[staged[i].path@] == staged_marks(staged)[staged[i].path@],
{
    lemma_staged_present(staged, i);
    lemma_unstaged_keeps(staged_marks(staged), unstaged, staged[i].path@);
}

proof fn lemma_staged_present(v: Seq<FileEntry>, i: int)
    requires
        0 <= i < v.len(),
    ensures
        staged_marks(v).contains_key(v[i].path@),
    decreases v.len(),
{
    if i < v.len() - 1 {
        lemma_staged_present(v.drop_last(), i);
    }
}

proof fn lemma_unstaged_keeps(m: Map<Seq<char>, char>, v: Seq<FileEntry>, p: Seq<char>)
    requires
        m.contains_key(p),
    ensures
        with_unstaged(m, v).contains_key(p),
        with_unstaged(m, v)[p] == m[p],
    decreases v.len(),
{
    if v.len() > 0 {
        lemma_unstaged_keeps(m, v.drop_last(), p);
    }
}

proof fn lemma_unstaged_present(m: Map<Seq<char>, char>, v: Seq<FileEntry>, i: int)
    requires
        0 <= i < v.len(),
    ensures
        with_unstaged(m, v).contains_key(v[i].path@),
    decreases v.len(),
{
    if i < v.len() - 1 {
        lemma_unstaged_present(m, v.drop_last(), i);
    }
}

/// Every directory above a changed file carries a decoration.
pub proof fn law_changes_show_in_ancestors(
    staged: Seq<FileEntry>,
    unstaged: Seq<FileEntry>,
    i: int,
    a: Seq<char>,
)
    requires
        0 <= i < staged.len() && is_ancestor(a, staged[i].path@) || 0 <= i < unstaged.len()
            && is_ancestor(a, unstaged[i].path@),
    ensures
        decorations(staged, unstaged).contains_key(a),
{
    let m = with_unstaged(staged_marks(staged), unstaged);
    if 0 <= i < staged.len() && is_ancestor(a, staged[i].path@) {
        lemma_staged_present(staged, i);
        lemma_unstaged_keeps(staged_marks(staged), unstaged, staged[i].path@);
        assert(m.contains_key(staged[i].path@));
    } else {
        lemma_unstaged_present(staged_marks(staged), unstaged, i);
        assert(m.contains_key(unstaged[i].path@));
    }
}

/// A move always ends on a row of the list, where there are any.
pub proof fn law_moves_stay_in_range(at: int, delta: int, n: int)
    requires
        0 < n,
        0 <= at,
    ensures
        0 <= moved(at, delta, n) < n,
{
}

/// Rebuilding the tree over the same listing a second time changes nothing.
pub proof fn law_rebuild_twice(a: FileTree, b: FileTree, c: FileTree, nodes: Seq<DirNode>)
    requires
        a.rebuilt(b, nodes),
        b.rebuilt(c, nodes),
    ensures
        rows_view(c.entries@) == rows_view(b.entries@),
        c.selected == b.selected,
        c == (FileTree { entries: c.entries, ..b }),
{
    assert(rows_view(b.entries@).len() == b.entries@.len());
    assert(rows_view(c.entries@).len() == c.entries@.len());
}

/// The path `p` is among the first `n` children of `dir`, or below one of
/// them. The repository's own directory is hidden.
pub open spec fn lists(children: Seq<DirNode>, n: int, dir: Seq<char>, p: Seq<char>) -> bool
    decreases children, n,
{
    if n <= 0 || n > children.len() {
        false
    } else {
        let node = children[n - 1];
        let here = child_path(dir, node.name@);
        ||| lists(children, n - 1, dir, p)
        ||| node.name@ != ".git"@ && is_name(node.name@) && (here == p || node.is_dir && lists(
            node.children@,
            node.children@.len() as int,
            here,
            p,
        ))
    }
}

/// Revealing a file that is gone changes nothing where the directories above
/// it are expanded already.
pub proof fn law_gone_file_is_not_revealed(
    before: FileTree,
    after: FileTree,
    rel: Seq<char>,
    nodes: Seq<DirNode>,
)
    requires
        before.revealed(after, rel, nodes),
        !show(tree_rows(nodes, after.expanded@, before.git_statuses@), rel),
        forall|a: Seq<char>| #[trigger] is_ancestor(a, cleaned(rel)) ==> before.expanded@.contains(a),
    ensures
        after.expanded@ == before.expanded@,
        after == (FileTree { expanded: after.expanded, ..before }),
{
    assert(with_ancestors(before.expanded@, rel) =~= before.expanded@);
}

/// A file that the listing holds is shown and selected once it is revealed,
/// whatever was expanded before, and however its path is spelled.
pub proof fn law_revealed_file_is_selected(
    before: FileTree,
    after: FileTree,
    rel: Seq<char>,
    nodes: Seq<DirNode>,
)
    requires
        before.revealed(after, rel, nodes),
        lists(nodes, nodes.len() as int, Seq::empty(), cleaned(rel)),
    ensures
        after.selected < after.entries@.len(),
        same_path(after.entries@[after.selected as int].path@, rel),
{
    let p = cleaned(rel);
    lemma_lists_plain(nodes, nodes.len() as int, Seq::empty(), p);
    lemma_listed_is_shown(
        nodes,
        nodes.len() as int,
        Seq::empty(),
        p,
        0,
        after.expanded@,
        before.git_statuses@,
    );
    let rows = tree_rows(nodes, after.expanded@, before.git_statuses@);
    let m = choose|m: int| 0 <= m < rows.len() && (#[trigger] rows[m]).path == p;
    lemma_cleaned(rel);
    assert(same_path(rows[m].path, rel));
    assert(show(rows, rel));
    assert(row_model(after.entries@[m]) == rows[m]);
    lemma_row_found(after.entries@, rel, m);
    assert(after.entries.len() == after.entries@.len());
}

proof fn lemma_row_found(rows: Seq<TreeEntry>, path: Seq<char>, m: int)
    requires
        0 <= m < rows.len(),
        same_path(rows[m].path@, path),
    ensures
        first_row(rows, path) matches Some(i) && 0 <= i < rows.len() && same_path(
            rows[i].path@,
            path,
        ),
    decreases rows.len(),
{
    if !same_path(rows[0].path@, path) {
        let t = rows.drop_first();
        assert(t[m - 1] == rows[m]);
        lemma_row_found(t, path, m - 1);
        let i = first_row(t, path)->0;
        assert(t[i] == rows[i + 1]);
    }
}

proof fn lemma_ancestors_chain(a: Seq<char>, b: Seq<char>, p: Seq<char>)
    requires
        is_ancestor(a, b),
        is_ancestor(b, p),
    ensures
        is_ancestor(a, p),
    decreases p.len(),
{
    let q = parent_of(p)->0;
    lemma_parent_shorter(p);
    if b != q {
        lemma_ancestors_chain(a, b, q);
    }
}

proof fn lemma_lists_plain(children: Seq<DirNode>, n: int, dir: Seq<char>, p: Seq<char>)
    requires
        lists(children, n, dir, p),
        dir.len() == 0 || is_plain(dir),
    ensures
        is_plain(p),
        dir.len() > 0 ==> is_ancestor(dir, p),
    decreases children, n,
{
    if lists(children, n - 1, dir, p) {
        lemma_lists_plain(children, n - 1, dir, p);
    } else {
        let node = children[n - 1];
        let here = child_path(dir, node.name@);
        if dir.len() == 0 {
            lemma_name_is_plain(node.name@);
        } else {
            lemma_child_is_plain(dir, node.name@);
            assert(is_ancestor(dir, here));
        }
        if here != p {
            lemma_lists_plain(node.children@, node.children@.len() as int, here, p);
            if dir.len() > 0 {
                lemma_ancestors_chain(dir, here, p);
            }
        }
    }
}

proof fn lemma_placed_holds(children: Seq<DirNode>, s: Seq<int>, i: int)
    ensures
        placed(children, s, i).contains(i),
        forall|x: int| #[trigger] s.contains(x) ==> placed(children, s, i).contains(x),
    decreases s.len(),
{
    let r = placed(children, s, i);
    if s.len() == 0 || pos_le(children, s.last(), i) {
        assert(r[s.len() as int] == i);
        assert forall|x: int| #[trigger] s.contains(x) implies r.contains(x) by {
            let k = choose|k: int| 0 <= k < s.len() && s[k] == x;
            assert(r[k] == x);
        }
    } else {
        let inner = placed(children, s.drop_last(), i);
        lemma_placed_holds(children, s.drop_last(), i);
        assert(r == inner.push(s.last()));
        assert forall|x: int| #[trigger] inner.contains(x) implies r.contains(x) by {
            let k = choose|k: int| 0 <= k < inner.len() && inner[k] == x;
            assert(r[k] == x);
        }
        assert forall|x: int| #[trigger] s.contains(x) implies r.contains(x) by {
            let k = choose|k: int| 0 <= k < s.len() && s[k] == x;
            if k < s.len() - 1 {
                assert(s.drop_last()[k] == x);
                assert(s.drop_last().contains(x));
                assert(inner.contains(x));
            } else {
                assert(r[inner.len() as int] == x);
            }
        }
    }
}

proof fn lemma_visible_holds(children: Seq<DirNode>, n: int, i: int)
    requires
        0 <= i < n <= children.len(),
        children[i].name@ != ".git"@,
    ensures
        visible(children, n).contains(i),
    decreases n,
{
    if i < n - 1 {
        lemma_visible_holds(children, n - 1, i);
    }
    if children[n - 1].name@ != ".git"@ {
        lemma_placed_holds(children, visible(children, n - 1), n - 1);
    }
}

/// The rows of an expanded child stand among those of its directory.
proof fn lemma_rows_hold(
    children: Seq<DirNode>,
    k: int,
    dir: Seq<char>,
    depth: int,
    expanded: Set<Seq<char>>,
    statuses: Map<Seq<char>, char>,
    j: int,
)
    requires
        0 <= j < k <= visible(children, children.len() as int).len(),
    ensures
        ({
            let node = children[visible(children, children.len() as int)[j]];
            let here = child_path(dir, node.name@);
            let inner = node.children@;
            let rows = rows_of(children, k, dir, depth, expanded, statuses);
            &&& rows.contains(node_row(node, dir, depth, expanded, statuses))
            &&& node.is_dir && expanded.contains(cleaned(here)) ==> forall|r: RowModel|
                #[trigger] rows_of(
                    inner,
                    visible(inner, inner.len() as int).len() as int,
                    here,
                    depth + 1,
                    expanded,
                    statuses,
                ).contains(r) ==> rows.contains(r)
        }),
    decreases k,
{
    lemma_visible(children, children.len() as int);
    let vis = visible(children, children.len() as int);
    let rows = rows_of(children, k, dir, depth, expanded, statuses);
    let front = rows_of(children, k - 1, dir, depth, expanded, statuses);
    let last = children[vis[k - 1]];
    let at = child_path(dir, last.name@);
    let inner = last.children@;
    let below = if last.is_dir && expanded.contains(cleaned(at)) {
        rows_of(
            inner,
            visible(inner, inner.len() as int).len() as int,
            at,
            depth + 1,
            expanded,
            statuses,
        )
    } else {
        Seq::empty()
    };
    let own = node_row(last, dir, depth, expanded, statuses);
    assert(rows == front.push(own) + below);
    assert forall|r: RowModel| #[trigger] front.contains(r) implies rows.contains(r) by {
        let x = choose|x: int| 0 <= x < front.len() && front[x] == r;
        assert(rows[x] == r);
    }
    if j < k - 1 {
        lemma_rows_hold(children, k - 1, dir, depth, expanded, statuses, j);
    } else {
        assert(rows[front.len() as int] == own);
        assert forall|r: RowModel| #[trigger] below.contains(r) implies rows.contains(r) by {
            let x = choose|x: int| 0 <= x < below.len() && below[x] == r;
            assert(rows[front.len() + 1 + x] == r);
        }
    }
}

/// A path that is listed has a row, where every directory above it is
/// expanded.
proof fn lemma_listed_is_shown(
    children: Seq<DirNode>,
    n: int,
    dir: Seq<char>,
    p: Seq<char>,
    depth: int,
    expanded: Set<Seq<char>>,
    statuses: Map<Seq<char>, char>,
)
    requires
        lists(children, n, dir, p),
        dir.len() == 0 || is_plain(dir),
        forall|a: Seq<char>| #[trigger] is_ancestor(a, p) ==> expanded.contains(a),
    ensures
        exists|m: int|
            0 <= m < rows_of(
                children,
                visible(children, children.len() as int).len() as int,
                dir,
                depth,
                expanded,
                statuses,
            ).len() && (#[trigger] rows_of(
                children,
                visible(children, children.len() as int).len() as int,
                dir,
                depth,
                expanded,
                statuses,
            )[m]).path == p,
    decreases children, n,
{
    if lists(children, n - 1, dir, p) {
        lemma_listed_is_shown(children, n - 1, dir, p, depth, expanded, statuses);
    } else {
        let node = children[n - 1];
        let here = child_path(dir, node.name@);
        let vis = visible(children, children.len() as int);
        let rows = rows_of(children, vis.len() as int, dir, depth, expanded, statuses);
        lemma_visible_holds(children, children.len() as int, n - 1);
        let j = choose|j: int| 0 <= j < vis.len() && vis[j] == n - 1;
        lemma_rows_hold(children, vis.len() as int, dir, depth, expanded, statuses, j);
        if here == p {
            let own = node_row(node, dir, depth, expanded, statuses);
            assert(rows.contains(own));
            let m = choose|m: int| 0 <= m < rows.len() && rows[m] == own;
            assert(rows[m].path == p);
        } else {
            let inner = node.children@;
            if dir.len() == 0 {
                lemma_name_is_plain(node.name@);
            } else {
                lemma_child_is_plain(dir, node.name@);
            }
            lemma_lists_plain(inner, inner.len() as int, here, p);
            lemma_listed_is_shown(
                inner,
                inner.len() as int,
                here,
                p,
                depth + 1,
                expanded,
                statuses,
            );
            let below = rows_of(
                inner,
                visible(inner, inner.len() as int).len() as int,
                here,
                depth + 1,
                expanded,
                statuses,
            );
            let x = choose|x: int| 0 <= x < below.len() && (#[trigger] below[x]).path == p;
            assert(below.contains(below[x]));
            assert(rows.contains(below[x]));
            let m = choose|m: int| 0 <= m < rows.len() && rows[m] == below[x];
            assert(rows[m].path == p);
        }
    }
}

} // verus!
