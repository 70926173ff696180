//! Which branches and tags point at which commit.
use crate::git::RefLabel;
use crate::text::{after_prefix, ends_with, same_str, strip_prefix};
use vstd::prelude::*;
use vstd::string::*;

verus! {

/// A reference with the commit that it leads to, where it leads to one.
#[derive(Debug)]
pub struct RefRecord {
    pub name: Option<String>,
    pub oid: Option<String>,
}

/// The labels of one commit.
#[derive(Debug)]
pub struct RefRow {
    pub oid: String,
    pub labels: Vec<RefLabel>,
}

/// A label by its contents.
pub enum LabelModel {
    Head,
    Branch(Seq<char>),
    RemoteBranch(Seq<char>),
    Tag(Seq<char>),
}

pub open spec fn label_model(l: RefLabel) -> LabelModel {
    match l {
        RefLabel::Head => LabelModel::Head,
        RefLabel::Branch(s) => LabelModel::Branch(s@),
        RefLabel::RemoteBranch(s) => LabelModel::RemoteBranch(s@),
        RefLabel::Tag(s) => LabelModel::Tag(s@),
    }
}

pub open spec fn labels_view(v: Seq<RefLabel>) -> Seq<LabelModel> {
    v.map_values(|l: RefLabel| label_model(l))
}

/// The label of a reference by its name. A remote's `HEAD` only repeats one
/// of its branches and has none; nor has a name outside the three families.
pub open spec fn label_of(name: Seq<char>) -> Option<LabelModel> {
    match after_prefix(name, "refs/heads/"@) {
        Some(rest) => Some(LabelModel::Branch(rest)),
        None => match after_prefix(name, "refs/remotes/"@) {
            Some(rest) => if "/HEAD"@.is_suffix_of(rest) {
                None
            } else {
                Some(LabelModel::RemoteBranch(rest))
            },
            None => match after_prefix(name, "refs/tags/"@) {
                Some(rest) => Some(LabelModel::Tag(rest)),
                None => None,
            },
        },
    }
}

pub fn ref_label(name: &str) -> (r: Option<RefLabel>)
    ensures
        match (r, label_of(name@)) {
            (Some(l), Some(m)) => label_model(l) == m,
            (None, None) => true,
            _ => false,
        },
{
    match strip_prefix(name, "refs/heads/") {
        Some(rest) => Some(RefLabel::Branch(rest)),
        None => match strip_prefix(name, "refs/remotes/") {
            Some(rest) => if ends_with(rest.as_str(), "/HEAD") {
                None
            } else {
                Some(RefLabel::RemoteBranch(rest))
            },
            None => match strip_prefix(name, "refs/tags/") {
                Some(rest) => Some(RefLabel::Tag(rest)),
                None => None,
            },
        },
    }
}

/// The label that a record gives to the commit `oid`.
pub open spec fn label_for(r: RefRecord, oid: Seq<char>) -> Option<LabelModel> {
    match (r.oid, r.name) {
        (Some(o), Some(n)) => if o@ == oid {
            label_of(n@)
        } else {
            None
        },
        _ => None,
    }
}

/// The branches and tags on `oid`, in the order of the references.
pub open spec fn labels_on(refs: Seq<RefRecord>, oid: Seq<char>) -> Seq<LabelModel>
    decreases refs.len(),
{
    if refs.len() == 0 {
        Seq::empty()
    } else {
        let rest = labels_on(refs.drop_last(), oid);
        match label_for(refs.last(), oid) {
            Some(l) => rest.push(l),
            None => rest,
        }
    }
}

/// All labels on `oid`, the head first.
pub open spec fn all_labels(refs: Seq<RefRecord>, head: Option<Seq<char>>, oid: Seq<char>) -> Seq<
    LabelModel,
> {
    if head == Some(oid) {
        seq![LabelModel::Head] + labels_on(refs, oid)
    } else {
        labels_on(refs, oid)
    }
}

/// The rows hold exactly the labels that `expected` gives each commit, one
/// row for each commit that has any.
pub open spec fn rows_hold(
    rows: Seq<RefRow>,
    expected: spec_fn(Seq<char>) -> Seq<LabelModel>,
) -> bool {
    &&& forall|i: int, j: int|
        0 <= i < j < rows.len() ==> #[trigger] rows[i].oid@ != #[trigger] rows[j].oid@
    &&& forall|i: int|
        0 <= i < rows.len() ==> labels_view((#[trigger] rows[i]).labels@) == expected(rows[i].oid@)
            && rows[i].labels@.len() > 0
    &&& forall|oid: Seq<char>|
        (#[trigger] expected(oid)).len() > 0 ==> exists|i: int|
            0 <= i < rows.len() && #[trigger] rows[i].oid@ == oid
}

fn row_of(rows: &Vec<RefRow>, oid: &str) -> (r: Option<usize>)
    ensures
        match r {
            Some(i) => i < rows@.len() && rows@[i as int].oid@ == oid@,
            None => forall|i: int| 0 <= i < rows@.len() ==> #[trigger] rows@[i].oid@ != oid@,
        },
{
    let mut i: usize = 0;
    while i < rows.len()
        invariant
            i <= rows@.len(),
            forall|j: int| 0 <= j < i ==> #[trigger] rows@[j].oid@ != oid@,
        decreases rows@.len() - i,
    {
        if same_str(rows[i].oid.as_str(), oid) {
            return Some(i);
        }
        i = i + 1;
    }
    None
}

/// Puts a label on a commit, at the front or at the back.
fn put_label(
    rows: &mut Vec<RefRow>,
    oid: String,
    label: RefLabel,
    front: bool,
    Ghost(before): Ghost<spec_fn(Seq<char>) -> Seq<LabelModel>>,
    Ghost(after): Ghost<spec_fn(Seq<char>) -> Seq<LabelModel>>,
)
    requires
        rows_hold(old(rows)@, before),
        forall|o: Seq<char>| o != oid@ ==> #[trigger] after(o) == before(o),
        after(oid@) == (if front {
            seq![label_model(label)] + before(oid@)
        } else {
            before(oid@).push(label_model(label))
        }),
    ensures
        rows_hold(final(rows)@, after),
{
    let ghost start = rows@;
    match row_of(rows, oid.as_str()) {
        Some(i) => {
            let ghost labels = rows@[i as int].labels@;
            if front {
                rows[i].labels.insert(0, label);
                assert(labels_view(rows@[i as int].labels@) =~= seq![label_model(label)]
                    + labels_view(labels));
            } else {
                rows[i].labels.push(label);
                assert(labels_view(rows@[i as int].labels@) =~= labels_view(labels).push(
                    label_model(label),
                ));
            }
            proof {
                assert(rows@[i as int].oid == start[i as int].oid);
                assert forall|k: int| 0 <= k < rows@.len() && k != i implies #[trigger] rows@[k]
                    == start[k] by {}
                assert forall|a: int, b: int| 0 <= a < b < rows@.len() implies #[trigger] rows@[a].oid@
                    != #[trigger] rows@[b].oid@ by {
                    assert(start[a].oid@ != start[b].oid@);
                }
                assert forall|k: int| 0 <= k < rows@.len() implies labels_view(
                    (#[trigger] rows@[k]).labels@,
                ) == after(rows@[k].oid@) && rows@[k].labels@.len() > 0 by {
                    if k != i {
                        assert(start[k].oid@ != oid@) by {
                            if k < i {
                                assert(start[k].oid@ != start[i as int].oid@);
                            } else {
                                assert(start[i as int].oid@ != start[k].oid@);
                            }
                        }
                    }
                }
                assert forall|o: Seq<char>| (#[trigger] after(o)).len() > 0 implies exists|k: int|
                    0 <= k < rows@.len() && #[trigger] rows@[k].oid@ == o by {
                    if o == oid@ {
                        assert(rows@[i as int].oid@ == o);
                    } else {
                        assert(before(o).len() > 0);
                        let k = choose|k: int| 0 <= k < start.len() && #[trigger] start[k].oid@ == o;
                        assert(rows@[k].oid@ == o);
                    }
                }
            }
        },
        None => {
            let mut labels: Vec<RefLabel> = Vec::new();
            labels.push(label);
            proof {
                assert(before(oid@).len() == 0);
                assert(before(oid@) =~= Seq::empty());
                assert(labels_view(labels@) =~= seq![label_model(label)]);
                assert(after(oid@) =~= seq![label_model(label)]);
            }
            rows.push(RefRow { oid, labels });
            proof {
                assert forall|o: Seq<char>| (#[trigger] after(o)).len() > 0 implies exists|k: int|
                    0 <= k < rows@.len() && #[trigger] rows@[k].oid@ == o by {
                    if o == oid@ {
                        assert(rows@[start.len() as int].oid@ == o);
                    } else {
                        assert(before(o).len() > 0);
                        let k = choose|k: int| 0 <= k < start.len() && #[trigger] start[k].oid@ == o;
                        assert(rows@[k].oid@ == o);
                    }
                }
            }
        },
    }
}

/// The labels of every commit that a reference or the head points at.
pub fn list_refs(refs: Vec<RefRecord>, head_oid: Option<String>) -> (r: Vec<RefRow>)
    ensures
        rows_hold(
            r@,
            |oid: Seq<char>| all_labels(refs@, crate::text::opt_view(head_oid), oid),
        ),
{
    let ghost all = refs@;
    let mut rows: Vec<RefRow> = Vec::new();
    assert(all.take(0) =~= Seq::empty());
    assert(rows_hold(rows@, |oid: Seq<char>| labels_on(all.take(0), oid)));
    for rec in it: refs
        invariant
            it.seq() == all,
            rows_hold(rows@, |oid: Seq<char>| labels_on(all.take(it.index() as int), oid)),
    {
        let ghost i = it.index() as int;
        let ghost before = |oid: Seq<char>| labels_on(all.take(i), oid);
        let ghost after = |oid: Seq<char>| labels_on(all.take(i + 1), oid);
        proof {
            assert(all.take(i + 1).drop_last() =~= all.take(i));
            assert(all.take(i + 1).last() == rec);
        }
        let mut placed = false;
        match rec.oid {
            Some(oid) => match rec.name {
                Some(name) => match ref_label(name.as_str()) {
                    Some(label) => {
                        put_label(&mut rows, oid, label, false, Ghost(before), Ghost(after));
                        placed = true;
                    },
                    None => {},
                },
                None => {},
            },
            None => {},
        }
        proof {
            if !placed {
                assert(after =~= before);
            }
        }
    }
    assert(all.take(all.len() as int) =~= all);
    let ghost branches = |oid: Seq<char>| labels_on(all, oid);
    let ghost result = |oid: Seq<char>| all_labels(all, crate::text::opt_view(head_oid), oid);
    match head_oid {
        Some(oid) => {
            put_label(&mut rows, oid, RefLabel::Head, true, Ghost(branches), Ghost(result));
        },
        None => {
            assert(result =~= branches);
        },
    }
    rows
}

} // verus!
