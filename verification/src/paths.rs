//! Relative paths as text, with `/` between their components.
use crate::text::{
    after_prefix, chars_of, lemma_lex_total, lemma_lex_transitive, lex_le, same_str, str_le,
    string_of, strip_prefix, views,
};
use vstd::prelude::*;
use vstd::string::*;

verus! {

/// `p` without the separators, and the `.` components, at its end.
pub open spec fn clean_end(p: Seq<char>) -> Seq<char>
    decreases p.len(),
{
    if p.len() > 1 && p.last() == '/' {
        clean_end(p.drop_last())
    } else if p.len() >= 2 && p.last() == '.' && p[p.len() - 2] == '/' {
        if p.len() == 2 {
            p.drop_last()
        } else {
            clean_end(p.drop_last().drop_last())
        }
    } else {
        p
    }
}

/// The last position of a separator.
pub open spec fn last_separator(p: Seq<char>) -> Option<int>
    decreases p.len(),
{
    if p.len() == 0 {
        None
    } else if p.last() == '/' {
        Some(p.len() - 1)
    } else {
        last_separator(p.drop_last())
    }
}

/// The path that `p` lies in: `p` without its last component. The empty path
/// and the root lie in nothing.
pub open spec fn parent_of(p: Seq<char>) -> Option<Seq<char>> {
    let c = clean_end(p);
    if c.len() == 0 || c == seq!['/'] {
        None
    } else {
        match last_separator(c) {
            None => Some(Seq::empty()),
            Some(k) => if k == 0 {
                Some(seq!['/'])
            } else {
                Some(clean_end(c.take(k)))
            },
        }
    }
}

pub proof fn lemma_clean_len(p: Seq<char>)
    ensures
        clean_end(p).len() <= p.len(),
        p.len() > 0 ==> clean_end(p).len() > 0,
        clean_end(p).len() > 1 ==> clean_end(p).last() != '/',
    decreases p.len(),
{
    if p.len() > 1 && p.last() == '/' {
        lemma_clean_len(p.drop_last());
    } else if p.len() >= 2 && p.last() == '.' && p[p.len() - 2] == '/' {
        if p.len() > 2 {
            lemma_clean_len(p.drop_last().drop_last());
        }
    }
}

pub proof fn lemma_separator(p: Seq<char>)
    ensures
        last_separator(p) matches Some(k) ==> 0 <= k < p.len() && p[k] == '/',
    decreases p.len(),
{
    if p.len() > 0 && p.last() != '/' {
        lemma_separator(p.drop_last());
    }
}

/// A parent is shorter than its child.
pub proof fn lemma_parent_shorter(p: Seq<char>)
    ensures
        parent_of(p) matches Some(q) ==> q.len() < p.len(),
{
    let c = clean_end(p);
    lemma_clean_len(p);
    lemma_separator(c);
    match last_separator(c) {
        Some(k) => {
            lemma_clean_len(c.take(k));
            if k == 0 && c.len() == 1 {
                assert(c =~= seq!['/']);
            }
        },
        None => {},
    }
}

/// `a` is a proper, non-empty ancestor of `p`.
pub open spec fn is_ancestor(a: Seq<char>, p: Seq<char>) -> bool
    decreases p.len(),
{
    match parent_of(p) {
        None => false,
        Some(q) => {
            proof {
                lemma_parent_shorter(p);
            }
            q.len() > 0 && (a == q || is_ancestor(a, q))
        },
    }
}

fn clean_end_chars(v: &[char], n: usize) -> (r: usize)
    requires
        n <= v@.len(),
    ensures
        r <= n,
        v@.take(r as int) == clean_end(v@.take(n as int)),
{
    let mut to: usize = n;
    loop
        invariant
            to <= n <= v@.len(),
            clean_end(v@.take(to as int)) == clean_end(v@.take(n as int)),
        decreases to,
    {
        let ghost p = v@.take(to as int);
        if to > 1 && v[to - 1] == '/' {
            assert(p.drop_last() =~= v@.take(to - 1));
            to = to - 1;
        } else if to >= 2 && v[to - 1] == '.' && v[to - 2] == '/' {
            assert(p.drop_last() =~= v@.take(to - 1));
            if to == 2 {
                return 1;
            }
            assert(p.drop_last().drop_last() =~= v@.take(to - 2));
            to = to - 2;
        } else {
            return to;
        }
    }
}

/// The path that `p` lies in.
pub fn parent(p: &str) -> (r: Option<String>)
    ensures
        crate::text::opt_view(r) == parent_of(p@),
{
    let v = chars_of(p);
    assert(v@.take(v@.len() as int) =~= v@);
    let n: usize = clean_end_chars(v.as_slice(), v.len());
    let ghost c = clean_end(p@);
    assert(v@.take(n as int) == c);
    if n == 0 {
        return None;
    }
    if n == 1 && v[0] == '/' {
        assert(c =~= seq!['/']);
        return None;
    }
    assert(c != seq!['/']) by {
        if c == seq!['/'] {
            assert(c.len() == 1 && c[0] == '/');
            assert(v@[0] == c[0]);
        }
    }
    let mut k: usize = n;
    while k > 0 && v[k - 1] != '/'
        invariant
            k <= n <= v@.len(),
            last_separator(v@.take(k as int)) == last_separator(c),
        decreases k,
    {
        assert(v@.take(k as int).drop_last() =~= v@.take(k - 1));
        k = k - 1;
    }
    if k == 0 {
        assert(v@.take(0).len() == 0);
        let r = String::new();
        return Some(r);
    }
    assert(last_separator(v@.take(k as int)) == Some(k - 1));
    if k == 1 {
        let mut r = String::new();
        r.push('/');
        assert(r@ =~= seq!['/']);
        return Some(r);
    }
    assert(c.take(k - 1) =~= v@.take(k - 1));
    let m: usize = clean_end_chars(v.as_slice(), k - 1);
    let r = string_of(v.as_slice(), 0, m);
    assert(r@ =~= v@.take(m as int));
    Some(r)
}

/// `p` in the one spelling that all paths with its components share: single
/// separators, none at the end, and `.` only at the start.
pub open spec fn cleaned(p: Seq<char>) -> Seq<char>
    decreases p.len(),
{
    let c = clean_end(p);
    match last_separator(c) {
        None => c,
        Some(k) => {
            proof {
                lemma_clean_len(p);
                lemma_separator(c);
            }
            if k == 0 {
                c
            } else {
                pushed_path(cleaned(c.take(k)), c.skip(k + 1))
            }
        },
    }
}

/// The same path, component by component.
pub open spec fn same_path(a: Seq<char>, b: Seq<char>) -> bool {
    cleaned(a) == cleaned(b)
}

/// The clean spelling of a path.
pub fn clean(p: &str) -> (r: String)
    ensures
        r@ == cleaned(p@),
    decreases p@.len(),
{
    let v = chars_of(p);
    assert(v@.take(v@.len() as int) =~= v@);
    let n: usize = clean_end_chars(v.as_slice(), v.len());
    let ghost c = clean_end(p@);
    let mut k: usize = n;
    while k > 0 && v[k - 1] != '/'
        invariant
            k <= n <= v@.len(),
            last_separator(v@.take(k as int)) == last_separator(c),
        decreases k,
    {
        assert(v@.take(k as int).drop_last() =~= v@.take(k - 1));
        k = k - 1;
    }
    if k <= 1 {
        assert(k == 0 ==> v@.take(0).len() == 0);
        let r = string_of(v.as_slice(), 0, n);
        assert(r@ =~= c);
        return r;
    }
    assert(last_separator(c) == Some(k - 1));
    let dir = string_of(v.as_slice(), 0, k - 1);
    let name = string_of(v.as_slice(), k, n);
    assert(dir@ =~= c.take(k - 1));
    assert(name@ =~= c.skip(k as int));
    let base = clean(dir.as_str());
    push_path(base.as_str(), name.as_str())
}

pub fn same_paths(a: &str, b: &str) -> (r: bool)
    ensures
        r == same_path(a@, b@),
{
    same_str(clean(a).as_str(), clean(b).as_str())
}

/// The same path, or none at all.
pub open spec fn same_opt_path(a: Option<String>, b: Option<String>) -> bool {
    match (a, b) {
        (Some(x), Some(y)) => same_path(x@, y@),
        (None, None) => true,
        _ => false,
    }
}

pub fn same_opt_paths(a: &Option<String>, b: &Option<String>) -> (r: bool)
    ensures
        r == same_opt_path(*a, *b),
{
    match (a, b) {
        (Some(x), Some(y)) => same_paths(x.as_str(), y.as_str()),
        (None, None) => true,
        _ => false,
    }
}

/// A name as a directory listing holds it: one component.
pub open spec fn is_name(n: Seq<char>) -> bool {
    &&& n.len() > 0
    &&& n != seq!['.']
    &&& forall|i: int| 0 <= i < n.len() ==> #[trigger] n[i] != '/'
}

/// A path made of names.
pub open spec fn is_plain(p: Seq<char>) -> bool {
    p.len() > 0 && p.last() != '/' && clean_end(p) == p && cleaned(p) == p
}

proof fn lemma_separator_before_name(d: Seq<char>, n: Seq<char>)
    requires
        forall|i: int| 0 <= i < n.len() ==> #[trigger] n[i] != '/',
    ensures
        last_separator(d + n) == last_separator(d),
    decreases n.len(),
{
    if n.len() == 0 {
        assert(d + n =~= d);
    } else {
        assert((d + n).drop_last() =~= d + n.drop_last());
        assert((d + n).last() == n[n.len() - 1]);
        assert(forall|i: int|
            0 <= i < n.drop_last().len() ==> #[trigger] n.drop_last()[i] == n[i]);
        lemma_separator_before_name(d, n.drop_last());
    }
}

/// A name by itself is a plain path at the top.
pub proof fn lemma_name_is_plain(n: Seq<char>)
    requires
        is_name(n),
    ensures
        is_plain(n),
        parent_of(n) == Some(Seq::<char>::empty()),
{
    assert(n.last() == n[n.len() - 1]);
    assert(clean_end(n) == n) by {
        if n.len() >= 2 {
            assert(n[n.len() - 2] != '/');
        }
    }
    lemma_separator_before_name(Seq::empty(), n);
    assert(Seq::<char>::empty() + n =~= n);
    assert(n != seq!['/']) by {
        if n == seq!['/'] {
            assert(n[0] == '/');
        }
    }
}

/// A child of a plain path is plain, and lies in it.
pub proof fn lemma_child_is_plain(d: Seq<char>, n: Seq<char>)
    requires
        is_plain(d),
        is_name(n),
    ensures
        is_plain(child_path(d, n)),
        parent_of(child_path(d, n)) == Some(d),
{
    let c = child_path(d, n);
    let ds = d + seq!['/'];
    assert(c =~= ds + n);
    assert(c.last() == n[n.len() - 1]);
    assert(clean_end(c) == c) by {
        if n.len() >= 2 {
            assert(c[c.len() - 2] == n[n.len() - 2]);
        } else {
            assert(n =~= seq![n[0]]);
            assert(n[0] != '.');
        }
    }
    lemma_separator_before_name(ds, n);
    assert(ds.last() == '/');
    assert(last_separator(c) == Some(d.len() as int));
    assert(c.take(d.len() as int) =~= d);
    assert(c.skip(d.len() as int + 1) =~= n);
    assert(c != seq!['/']) by {
        assert(c.len() > 1);
    }
}

proof fn lemma_clean_end_settled(p: Seq<char>)
    ensures
        clean_end(clean_end(p)) == clean_end(p),
    decreases p.len(),
{
    if p.len() > 1 && p.last() == '/' {
        lemma_clean_end_settled(p.drop_last());
    } else if p.len() >= 2 && p.last() == '.' && p[p.len() - 2] == '/' {
        if p.len() > 2 {
            lemma_clean_end_settled(p.drop_last().drop_last());
        }
    }
}

/// What follows the last separator of a path without an end to clean.
proof fn lemma_last_name(c: Seq<char>, k: int)
    requires
        clean_end(c) == c,
        last_separator(c) == Some(k),
        c.len() > 1,
    ensures
        0 <= k < c.len() - 1,
        is_name(c.skip(k + 1)),
    decreases c.len(),
{
    lemma_separator(c);
    lemma_clean_len(c);
    assert(c.last() == c[c.len() - 1]);
    let n = c.skip(k + 1);
    assert forall|i: int| 0 <= i < n.len() implies #[trigger] n[i] != '/' by {
        lemma_behind_separator(c, k + 1 + i);
    }
    if n == seq!['.'] {
        assert(n.len() == 1 && n[0] == '.');
        assert(c.len() == k + 2);
        assert(c[c.len() - 1] == '.' && c[c.len() - 2] == '/');
        if c.len() == 2 {
            assert(clean_end(c).len() == 1);
        } else {
            lemma_clean_len(c.drop_last().drop_last());
        }
    }
}

proof fn lemma_behind_separator(c: Seq<char>, i: int)
    requires
        last_separator(c) matches Some(k) && k < i < c.len(),
    ensures
        c[i] != '/',
    decreases c.len(),
{
    lemma_separator(c);
    assert(c.last() == c[c.len() - 1]);
    if c.last() != '/' && i < c.len() - 1 {
        lemma_behind_separator(c.drop_last(), i);
        assert(c.drop_last()[i] == c[i]);
    }
}

/// A path in its clean spelling has no end to clean, and ends in a separator
/// only at the root.
pub proof fn lemma_cleaned(p: Seq<char>)
    ensures
        clean_end(cleaned(p)) == cleaned(p),
        cleaned(cleaned(p)) == cleaned(p),
        p.len() > 0 ==> cleaned(p).len() > 0,
        cleaned(p).len() > 0 && cleaned(p).last() == '/' ==> cleaned(p) == seq!['/'],
    decreases p.len(),
{
    let c = clean_end(p);
    lemma_clean_len(p);
    lemma_clean_end_settled(p);
    lemma_separator(c);
    if c.len() == 1 && c.last() == '/' {
        assert(c =~= seq!['/']);
    }
    match last_separator(c) {
        None => {},
        Some(k) => if k > 0 {
            lemma_last_name(c, k);
            lemma_cleaned(c.take(k));
            let b = cleaned(c.take(k));
            let n = c.skip(k + 1);
            if b.last() == '/' {
                lemma_rooted(n);
            } else {
                lemma_child_is_plain(b, n);
                assert(pushed_path(b, n) == child_path(b, n));
            }
        },
    }
}

proof fn lemma_rooted(n: Seq<char>)
    requires
        is_name(n),
    ensures
        clean_end(seq!['/'] + n) == seq!['/'] + n,
        cleaned(seq!['/'] + n) == seq!['/'] + n,
        (seq!['/'] + n).last() != '/',
{
    let c = seq!['/'] + n;
    assert(c.last() == n[n.len() - 1]);
    if n.len() >= 2 {
        assert(c[c.len() - 2] == n[n.len() - 2]);
    } else {
        assert(n =~= seq![n[0]]);
        assert(n[0] != '.');
    }
    lemma_separator_before_name(seq!['/'], n);
    assert(seq!['/'].last() == '/');
}

/// What a path in its clean spelling lies in is in its clean spelling.
pub proof fn lemma_parent_is_clean(p: Seq<char>)
    requires
        cleaned(p) == p,
    ensures
        parent_of(p) matches Some(q) ==> cleaned(q) == q,
{
    lemma_cleaned(p);
    lemma_separator(p);
    assert(cleaned(Seq::<char>::empty()) == Seq::<char>::empty());
    match last_separator(p) {
        None => {},
        Some(k) => if k == 0 {
            lemma_separator(seq!['/']);
            assert(clean_end(seq!['/']) == seq!['/']);
            assert(seq!['/'].last() == '/');
            assert(cleaned(seq!['/']) == seq!['/']);
        } else {
            lemma_last_name(p, k);
            let d = p.take(k);
            let b = cleaned(d);
            let n = p.skip(k + 1);
            lemma_cleaned(d);
            if b.last() == '/' {
                lemma_rooted(n);
                lemma_separator_before_name(seq!['/'], n);
                assert(seq!['/'].last() == '/');
                assert(false);
            } else {
                assert(p == b + seq!['/'] + n);
                assert(p.take(k) =~= b);
            }
        },
    }
}

/// The path of the child `name` of the directory `dir`; the top directory is
/// the empty path.
pub open spec fn child_path(dir: Seq<char>, name: Seq<char>) -> Seq<char> {
    if dir.len() == 0 {
        name
    } else {
        dir + seq!['/'] + name
    }
}

pub fn join(dir: &str, name: &str) -> (r: String)
    ensures
        r@ == child_path(dir@, name@),
{
    if dir.is_empty() {
        return name.to_owned();
    }
    let mut s = dir.to_owned();
    s.push('/');
    assert(s@ =~= dir@ + seq!['/']);
    vstd::string::StringExecFns::append(&mut s, name);
    s
}

/// The path `rest` as seen from `base`: an absolute `rest` stands alone.
pub open spec fn pushed_path(base: Seq<char>, rest: Seq<char>) -> Seq<char> {
    if rest.len() > 0 && rest[0] == '/' {
        rest
    } else if base.len() == 0 || base.last() == '/' {
        base + rest
    } else {
        base + seq!['/'] + rest
    }
}

pub fn push_path(base: &str, rest: &str) -> (r: String)
    ensures
        r@ == pushed_path(base@, rest@),
{
    let b = chars_of(base);
    let e = chars_of(rest);
    if e.len() > 0 && e[0] == '/' {
        return rest.to_owned();
    }
    let mut s = base.to_owned();
    if b.len() > 0 && b[b.len() - 1] != '/' {
        s.push('/');
        assert(s@ =~= base@ + seq!['/']);
    }
    s.append(rest);
    s
}

/// The last component of `p`, where that is a name.
pub open spec fn base_name(p: Seq<char>) -> Option<Seq<char>> {
    let c = clean_end(p);
    let name = match last_separator(c) {
        None => c,
        Some(k) => c.skip(k + 1),
    };
    if name.len() == 0 || name == "."@ || name == ".."@ {
        None
    } else {
        Some(name)
    }
}

pub fn file_name(p: &str) -> (r: Option<String>)
    ensures
        crate::text::opt_view(r) == base_name(p@),
{
    let v = chars_of(p);
    assert(v@.take(v@.len() as int) =~= v@);
    let n: usize = clean_end_chars(v.as_slice(), v.len());
    let ghost c = clean_end(p@);
    let mut k: usize = n;
    while k > 0 && v[k - 1] != '/'
        invariant
            k <= n <= v@.len(),
            last_separator(v@.take(k as int)) == last_separator(c),
        decreases k,
    {
        assert(v@.take(k as int).drop_last() =~= v@.take(k - 1));
        k = k - 1;
    }
    let r = string_of(v.as_slice(), k, n);
    assert(k == 0 ==> last_separator(c) is None && r@ =~= c);
    assert(k > 0 ==> last_separator(c) == Some(k - 1) && r@ =~= c.skip(k as int));
    if k == n || same_str(r.as_str(), ".") || same_str(
        r.as_str(),
        "..",
    ) {
        None
    } else {
        Some(r)
    }
}

/// What leads from the directory `root` to `p`, both written without doubled
/// separators: nothing where `p` lies elsewhere.
pub open spec fn stripped(p: Seq<char>, root: Seq<char>) -> Option<Seq<char>> {
    if p == root {
        Some(Seq::empty())
    } else if root.len() == 0 {
        if p[0] == '/' {
            None
        } else {
            Some(p)
        }
    } else if root.last() == '/' {
        after_prefix(p, root)
    } else {
        after_prefix(p, root + seq!['/'])
    }
}

pub fn strip_root(p: &str, root: &str) -> (r: Option<String>)
    ensures
        crate::text::opt_view(r) == stripped(p@, root@),
{
    if same_str(p, root) {
        return Some(String::new());
    }
    let b = chars_of(root);
    if b.len() == 0 {
        let v = chars_of(p);
        assert(v@.len() > 0) by {
            if v@.len() == 0 {
                assert(p@ =~= root@);
            }
        }
        if v[0] == '/' {
            return None;
        }
        return Some(p.to_owned());
    }
    let mut base = root.to_owned();
    if b[b.len() - 1] != '/' {
        base.push('/');
        assert(base@ =~= root@ + seq!['/']);
    }
    strip_prefix(p, base.as_str())
}

/// `p` as seen from `root`, or `p` itself where it lies elsewhere.
pub open spec fn relative_to(p: Seq<char>, root: Seq<char>) -> Seq<char> {
    match stripped(p, root) {
        Some(r) => r,
        None => p,
    }
}

pub fn relative(p: &str, root: &str) -> (r: String)
    ensures
        r@ == relative_to(p@, root@),
{
    match strip_root(p, root) {
        Some(r) => r,
        None => p.to_owned(),
    }
}

/// The first component of `p`: what stands before its first separator. That of
/// an absolute path, its root, is empty.
pub open spec fn first_part(p: Seq<char>) -> Seq<char>
    decreases p.len(),
{
    if p.len() == 0 || p[0] == '/' {
        Seq::empty()
    } else {
        seq![p[0]] + first_part(p.drop_first())
    }
}

/// The components behind the first one, where there are any.
pub open spec fn later_parts(p: Seq<char>) -> Option<Seq<char>> {
    let n = first_part(p).len();
    if n < p.len() {
        Some(p.skip(n as int + 1))
    } else {
        None
    }
}

/// The kind of a component, by which components are ordered first: the root,
/// the directory itself, the one above it, a name.
pub open spec fn component_rank(c: Seq<char>) -> int {
    if c.len() == 0 {
        0
    } else if c == seq!['.'] {
        1
    } else if c == seq!['.', '.'] {
        2
    } else {
        3
    }
}

/// The component `x` stands before `y` or equals it.
pub open spec fn component_le(x: Seq<char>, y: Seq<char>) -> bool {
    if component_rank(x) == component_rank(y) {
        lex_le(x, y)
    } else {
        component_rank(x) < component_rank(y)
    }
}

/// The order of two paths with at least one component: by the first one in
/// which they differ, and a path that ends where the other goes on first.
pub open spec fn parts_le(a: Seq<char>, b: Seq<char>) -> bool
    decreases a.len(),
{
    if first_part(a) != first_part(b) {
        component_le(first_part(a), first_part(b))
    } else {
        match (later_parts(a), later_parts(b)) {
            (None, _) => true,
            (Some(_), None) => false,
            (Some(x), Some(y)) => parts_le(x, y),
        }
    }
}

/// The order of clean paths, component by component: `a` stands before `b` or
/// equals it. The empty path has no component.
pub open spec fn path_le(a: Seq<char>, b: Seq<char>) -> bool {
    a.len() == 0 || (b.len() > 0 && parts_le(a, b))
}

proof fn lemma_first_part(p: Seq<char>)
    ensures
        first_part(p).len() <= p.len(),
        p.take(first_part(p).len() as int) == first_part(p),
        first_part(p).len() < p.len() ==> p[first_part(p).len() as int] == '/',
        forall|i: int| 0 <= i < first_part(p).len() ==> #[trigger] p[i] != '/',
    decreases p.len(),
{
    if p.len() > 0 && p[0] != '/' {
        let t = p.drop_first();
        let f = first_part(t);
        lemma_first_part(t);
        assert(first_part(p) =~= seq![p[0]] + f);
        assert(p.take(f.len() as int + 1) =~= seq![p[0]] + t.take(f.len() as int));
        assert forall|i: int| 0 <= i < first_part(p).len() implies #[trigger] p[i] != '/' by {
            if i > 0 {
                assert(t[i - 1] == p[i]);
            }
        }
        if f.len() < t.len() {
            assert(t[f.len() as int] == p[f.len() as int + 1]);
        }
    } else {
        assert(p.take(0) =~= Seq::<char>::empty());
    }
}

/// The first component ends at the first separator.
proof fn lemma_first_part_is(p: Seq<char>, n: int)
    requires
        0 <= n <= p.len(),
        forall|i: int| 0 <= i < n ==> #[trigger] p[i] != '/',
        n < p.len() ==> p[n] == '/',
    ensures
        first_part(p) == p.take(n),
{
    lemma_first_part(p);
    let m = first_part(p).len() as int;
    if m < n {
        assert(p[m] == '/');
    } else if n < m {
        assert(p[n] != '/');
    }
}

/// Where the component that starts at `i` ends.
fn part_end(v: &Vec<char>, i: usize) -> (r: usize)
    requires
        i <= v@.len(),
    ensures
        i <= r <= v@.len(),
        v@.subrange(i as int, r as int) == first_part(v@.skip(i as int)),
{
    let ghost p = v@.skip(i as int);
    let mut e: usize = i;
    while e < v.len() && v[e] != '/'
        invariant
            i <= e <= v@.len(),
            p == v@.skip(i as int),
            forall|k: int| 0 <= k < e - i ==> #[trigger] p[k] != '/',
        decreases v@.len() - e,
    {
        assert(p[e - i] == v@[e as int]);
        e = e + 1;
    }
    proof {
        if e < v@.len() {
            assert(p[e - i] == v@[e as int]);
        }
        lemma_first_part_is(p, e - i);
        assert(v@.subrange(i as int, e as int) =~= p.take(e - i));
    }
    e
}

fn rank_of(c: &str) -> (r: u8)
    ensures
        r == component_rank(c@),
{
    proof {
        reveal_strlit(".");
        reveal_strlit("..");
        assert("."@ =~= seq!['.']);
        assert(".."@ =~= seq!['.', '.']);
    }
    if c.is_empty() {
        0
    } else if same_str(c, ".") {
        1
    } else if same_str(c, "..") {
        2
    } else {
        3
    }
}

pub fn path_not_after(a: &str, b: &str) -> (r: bool)
    ensures
        r == path_le(a@, b@),
{
    let x = chars_of(a);
    let y = chars_of(b);
    if x.len() == 0 {
        return true;
    }
    if y.len() == 0 {
        return false;
    }
    let mut i: usize = 0;
    assert(x@.skip(0) =~= x@);
    assert(y@.skip(0) =~= y@);
    loop
        invariant
            i <= x@.len(),
            i <= y@.len(),
            x@ == a@,
            y@ == b@,
            path_le(a@, b@) == parts_le(x@.skip(i as int), y@.skip(i as int)),
        decreases x@.len() - i,
    {
        let ghost p = x@.skip(i as int);
        let ghost q = y@.skip(i as int);
        let to: usize = part_end(&x, i);
        let end: usize = part_end(&y, i);
        let c = string_of(x.as_slice(), i, to);
        let d = string_of(y.as_slice(), i, end);
        proof {
            lemma_first_part(p);
            lemma_first_part(q);
        }
        if !same_str(c.as_str(), d.as_str()) {
            let m: u8 = rank_of(c.as_str());
            let n: u8 = rank_of(d.as_str());
            return if m == n {
                str_le(c.as_str(), d.as_str())
            } else {
                m < n
            };
        }
        assert(to - i == first_part(p).len());
        assert(end == to);
        if to >= x.len() {
            return true;
        }
        if to >= y.len() {
            return false;
        }
        assert(p.skip(to - i + 1) =~= x@.skip(to + 1));
        assert(q.skip(to - i + 1) =~= y@.skip(to + 1));
        i = to + 1;
    }
}

proof fn lemma_component_total(x: Seq<char>, y: Seq<char>)
    ensures
        component_le(x, y) || component_le(y, x),
        component_le(x, y) && component_le(y, x) ==> x == y,
{
    lemma_lex_total(x, y);
    lemma_lex_antisymmetric(x, y);
}

proof fn lemma_lex_antisymmetric(x: Seq<char>, y: Seq<char>)
    ensures
        lex_le(x, y) && lex_le(y, x) ==> x == y,
    decreases x.len(),
{
    if x.len() > 0 && y.len() > 0 {
        lemma_lex_antisymmetric(x.drop_first(), y.drop_first());
        if x[0] == y[0] && x.drop_first() == y.drop_first() {
            assert(x =~= seq![x[0]] + x.drop_first());
            assert(y =~= seq![y[0]] + y.drop_first());
        }
    } else if x.len() == 0 && y.len() == 0 {
        assert(x =~= y);
    }
}

proof fn lemma_component_transitive(x: Seq<char>, y: Seq<char>, z: Seq<char>)
    requires
        component_le(x, y),
        component_le(y, z),
    ensures
        component_le(x, z),
{
    if component_rank(x) == component_rank(y) && component_rank(y) == component_rank(z) {
        lemma_lex_transitive(x, y, z);
    }
}

/// A path is its first component and what follows it.
proof fn lemma_parts_make_path(a: Seq<char>, b: Seq<char>)
    requires
        first_part(a) == first_part(b),
        later_parts(a) == later_parts(b),
    ensures
        a == b,
{
    lemma_first_part(a);
    lemma_first_part(b);
    let n = first_part(a).len() as int;
    if n < a.len() {
        assert(a =~= a.take(n) + seq!['/'] + a.skip(n + 1));
        assert(b =~= b.take(n) + seq!['/'] + b.skip(n + 1));
    } else {
        assert(a =~= a.take(n));
        assert(b =~= b.take(n));
    }
}

proof fn lemma_parts_total(a: Seq<char>, b: Seq<char>)
    ensures
        parts_le(a, b) || parts_le(b, a),
        parts_le(a, b) && parts_le(b, a) ==> a == b,
    decreases a.len(),
{
    lemma_component_total(first_part(a), first_part(b));
    if first_part(a) == first_part(b) {
        match (later_parts(a), later_parts(b)) {
            (Some(x), Some(y)) => {
                lemma_parts_total(x, y);
                if x == y {
                    lemma_parts_make_path(a, b);
                }
            },
            (None, None) => {
                lemma_parts_make_path(a, b);
            },
            _ => {},
        }
    }
}

pub proof fn lemma_path_total(a: Seq<char>, b: Seq<char>)
    ensures
        path_le(a, b) || path_le(b, a),
        path_le(a, b) && path_le(b, a) ==> a == b,
{
    lemma_parts_total(a, b);
    if a.len() == 0 && b.len() == 0 {
        assert(a =~= b);
    }
}

proof fn lemma_parts_transitive(a: Seq<char>, b: Seq<char>, c: Seq<char>)
    requires
        parts_le(a, b),
        parts_le(b, c),
    ensures
        parts_le(a, c),
    decreases a.len(),
{
    let (x, y, z) = (first_part(a), first_part(b), first_part(c));
    if x == y && y == z {
        match (later_parts(a), later_parts(b), later_parts(c)) {
            (Some(p), Some(q), Some(r)) => {
                lemma_parts_transitive(p, q, r);
            },
            _ => {},
        }
    } else if x != y && y != z {
        lemma_component_transitive(x, y, z);
        if x == z {
            lemma_component_total(x, y);
        }
    }
}

pub proof fn lemma_path_transitive(a: Seq<char>, b: Seq<char>, c: Seq<char>)
    requires
        path_le(a, b),
        path_le(b, c),
    ensures
        path_le(a, c),
{
    if a.len() > 0 {
        lemma_parts_transitive(a, b, c);
    }
}

proof fn lemma_lex_prefix(x: Seq<char>, more: Seq<char>)
    ensures
        lex_le(x, x + more),
    decreases x.len(),
{
    if x.len() > 0 {
        lemma_lex_prefix(x.drop_first(), more);
        assert((x + more).drop_first() =~= x.drop_first() + more);
    }
}

/// What lies in a directory stands together, right behind it: before any
/// sibling whose name only starts like the directory's.
pub proof fn law_directories_stay_together(dir: Seq<char>, below: Seq<char>, rest: Seq<char>)
    requires
        rest.len() > 0,
        rest[0] != '/',
    ensures
        path_le(dir, dir + seq!['/'] + below),
        path_le(dir + seq!['/'] + below, dir + rest),
{
    lemma_lies_behind(dir, below, rest);
}

proof fn lemma_lies_behind(dir: Seq<char>, below: Seq<char>, rest: Seq<char>)
    requires
        rest.len() > 0,
        rest[0] != '/',
    ensures
        parts_le(dir, dir + seq!['/'] + below),
        parts_le(dir + seq!['/'] + below, dir + rest),
    decreases dir.len(),
{
    let x = dir + seq!['/'] + below;
    let y = dir + rest;
    let n = first_part(dir).len() as int;
    lemma_first_part(dir);
    assert forall|i: int| 0 <= i < n implies #[trigger] x[i] != '/' && y[i] != '/' by {
        assert(dir[i] != '/');
    }
    if n < dir.len() {
        let inner = dir.skip(n + 1);
        lemma_first_part_is(x, n);
        lemma_first_part_is(y, n);
        assert(x.take(n) =~= dir.take(n));
        assert(y.take(n) =~= dir.take(n));
        assert(x.skip(n + 1) =~= inner + seq!['/'] + below);
        assert(y.skip(n + 1) =~= inner + rest);
        lemma_lies_behind(inner, below, rest);
    } else {
        assert(dir =~= dir.take(n));
        assert(x[n] == '/');
        lemma_first_part_is(x, n);
        assert(x.take(n) =~= dir);
        lemma_first_part(y);
        let g = first_part(y);
        assert(y[n] == rest[0]);
        assert(g.len() > n) by {
            if g.len() <= n {
                if g.len() == n {
                    assert(y[n] == '/');
                } else {
                    assert(y[g.len() as int] == '/');
                }
            }
        }
        let more = g.skip(n);
        assert(g =~= dir + more) by {
            assert(g == y.take(g.len() as int));
            assert(g.take(n) =~= dir);
        }
        lemma_lex_prefix(dir, more);
        assert(component_rank(dir) <= component_rank(g)) by {
            if dir.len() >= 1 && g == seq!['.'] {
                assert(g.len() == 1);
            }
            if g == seq!['.', '.'] && dir.len() == 1 {
                assert(dir[0] == g[0]);
                assert(dir =~= seq!['.']);
            }
        }
    }
}

/// The paths stand in order, each once.
pub open spec fn ascending(v: Seq<Seq<char>>) -> bool {
    forall|i: int, j: int|
        0 <= i < j < v.len() ==> path_le(#[trigger] v[i], #[trigger] v[j]) && v[i] != v[j]
}

/// Puts a path among ordered ones, unless it is there.
pub fn insert_path(paths: &mut Vec<String>, d: String)
    requires
        ascending(views(old(paths)@)),
    ensures
        ascending(views(final(paths)@)),
        forall|x: Seq<char>|
            views(final(paths)@).contains(x) == (x == d@ || views(old(paths)@).contains(x)),
{
    let ghost before = views(paths@);
    let ghost new = d@;
    let mut i: usize = 0;
    while i < paths.len() && !path_not_after(d.as_str(), paths[i].as_str())
        invariant
            i <= paths@.len(),
            before == views(paths@),
            new == d@,
            forall|j: int| 0 <= j < i ==> !path_le(new, #[trigger] before[j]),
        decreases paths@.len() - i,
    {
        assert(before[i as int] == paths@[i as int]@);
        i = i + 1;
    }
    if i < paths.len() {
        assert(before[i as int] == paths@[i as int]@);
        if same_str(paths[i].as_str(), d.as_str()) {
            assert(before[i as int] == new);
            assert(before.contains(new));
            return;
        }
    }
    paths.insert(i, d);
    proof {
        let after = views(paths@);
        assert(after =~= before.insert(i as int, new));
        assert forall|j: int| 0 <= j < i implies path_le(#[trigger] before[j], new) && before[j]
            != new by {
            lemma_path_total(new, before[j]);
        }
        assert forall|j: int| i <= j < before.len() implies path_le(new, #[trigger] before[j])
            && before[j] != new by {
            if j > i {
                assert(path_le(before[i as int], before[j]) && before[i as int] != before[j]);
                lemma_path_transitive(new, before[i as int], before[j]);
                lemma_path_total(before[i as int], before[j]);
            }
        }
        assert forall|a: int, b: int| 0 <= a < b < after.len() implies path_le(
            #[trigger] after[a],
            #[trigger] after[b],
        ) && after[a] != after[b] by {
            let x = if a < i {
                a
            } else {
                a - 1
            };
            let y = if b < i {
                b
            } else {
                b - 1
            };
            if a != i {
                assert(after[a] == before[x]);
            }
            if b != i {
                assert(after[b] == before[y]);
            }
        }
        assert forall|x: Seq<char>| after.contains(x) == (x == new || before.contains(x)) by {
            assert(after[i as int] == new);
            if before.contains(x) {
                let k = choose|k: int| 0 <= k < before.len() && before[k] == x;
                assert(after[if k < i {
                    k
                } else {
                    k + 1
                }] == x);
            }
            if after.contains(x) && x != new {
                let k = choose|k: int| 0 <= k < after.len() && after[k] == x;
                assert(before[if k < i {
                    k
                } else {
                    k - 1
                }] == x);
            }
        }
    }
}

/// A path below `root` comes back when it is joined to `root` and stripped of
/// it again.
pub proof fn law_strip_inverts_push(root: Seq<char>, rel: Seq<char>)
    requires
        rel.len() > 0,
        rel[0] != '/',
    ensures
        stripped(pushed_path(root, rel), root) == Some(rel),
{
    let p = pushed_path(root, rel);
    assert(p.len() > root.len());
    if root.len() == 0 {
        assert(p =~= rel);
    } else if root.last() == '/' {
        assert(p.take(root.len() as int) =~= root);
        assert(p.skip(root.len() as int) =~= rel);
    } else {
        let base = root + seq!['/'];
        assert(p.take(base.len() as int) =~= base);
        assert(p.skip(base.len() as int) =~= rel);
    }
}

/// Cleaning a path once is enough, and leaves the path what it is.
pub proof fn law_cleaning_settles(p: Seq<char>)
    ensures
        cleaned(cleaned(p)) == cleaned(p),
        same_path(cleaned(p), p),
{
    lemma_cleaned(p);
}

} // verus!
