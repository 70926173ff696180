//! Stashes: the commands that list and change them, and the parsing of what
//! git prints about them.
use crate::git::{FileEntry, FileStatus, StashDetail, StashEntry, StashPushOptions};
use crate::strmap::StrMap;
use crate::text::{
    after_prefix, chars_of, lines_of, parse_u32, parsed_u32, pieces, same_str, split_on,
    strip_prefix, text_lines, trim, trimmed, views,
};
use vstd::prelude::*;
use vstd::string::*;

verus! {

/// The branch that a stash message names: what stands between `WIP on ` or
/// `On ` and the first colon.
pub open spec fn stash_branch_of(message: Seq<char>) -> Seq<char> {
    match after_prefix(message, "WIP on "@) {
        Some(rest) => trimmed(pieces(rest, ':')[0]),
        None => match after_prefix(message, "On "@) {
            Some(rest) => trimmed(pieces(rest, ':')[0]),
            None => Seq::empty(),
        },
    }
}

pub fn parse_stash_branch(message: &str) -> (r: String)
    ensures
        r@ == stash_branch_of(message@),
{
    let rest = match strip_prefix(message, "WIP on ") {
        Some(rest) => rest,
        None => match strip_prefix(message, "On ") {
            Some(rest) => rest,
            None => return String::new(),
        },
    };
    let p = split_on(rest.as_str(), ':');
    assert(views(p@)[0] == p@[0]@);
    trim(p[0].as_str())
}

/// The number in a field, zero where it is none.
pub open spec fn number_or_zero(s: Seq<char>) -> u32 {
    match parsed_u32(s) {
        Some(n) => n,
        None => 0,
    }
}

fn field_number(s: &str) -> (r: u32)
    ensures
        r == number_or_zero(s@),
{
    match parse_u32(s) {
        Some(n) => n,
        None => 0,
    }
}

pub open spec fn part_or_empty(parts: Seq<Seq<char>>, i: int) -> Seq<char> {
    if 0 <= i < parts.len() {
        parts[i]
    } else {
        Seq::empty()
    }
}

fn part_at(parts: &Vec<String>, i: usize) -> (r: String)
    ensures
        r@ == part_or_empty(views(parts@), i as int),
{
    if i < parts.len() {
        assert(views(parts@)[i as int] == parts@[i as int]@);
        parts[i].clone()
    } else {
        String::new()
    }
}

/// One record of NUL-separated `--numstat` output at position `i`: the path
/// it counts, its numbers, and where the next record starts. A rename has an
/// empty path field and its two paths in the next two parts.
pub open spec fn numstat_record(parts: Seq<Seq<char>>, i: int) -> (Seq<char>, (u32, u32), int) {
    let fields = pieces(parts[i], '\t');
    let counts = (
        number_or_zero(fields[0]),
        if fields.len() > 1 {
            number_or_zero(fields[1])
        } else {
            0
        },
    );
    if fields.len() <= 2 {
        (Seq::empty(), counts, i + 1)
    } else if fields[2].len() == 0 {
        (part_or_empty(parts, i + 2), counts, i + 3)
    } else {
        (fields[2], counts, i + 1)
    }
}

/// The counts by path from position `i` on, added to `acc`; a later record of
/// a path replaces an earlier one.
pub open spec fn numstat_from(
    parts: Seq<Seq<char>>,
    i: int,
    acc: Map<Seq<char>, (u32, u32)>,
) -> Map<Seq<char>, (u32, u32)>
    decreases
            (if i < parts.len() {
                parts.len() - i
            } else {
                0
            }),
{
    if i < 0 || i >= parts.len() {
        acc
    } else if parts[i].len() == 0 {
        numstat_from(parts, i + 1, acc)
    } else {
        let (path, counts, next) = numstat_record(parts, i);
        if next <= i {
            acc
        } else if path.len() > 0 {
            numstat_from(parts, next, acc.insert(path, counts))
        } else {
            numstat_from(parts, next, acc)
        }
    }
}

/// The counts of a whole `--numstat -z` output.
pub open spec fn numstat_map(nums: Seq<char>) -> Map<Seq<char>, (u32, u32)> {
    numstat_from(pieces(nums, '\0'), 0, Map::empty())
}

pub fn parse_numstat_z(nums: &str) -> (r: StrMap<(u32, u32)>)
    ensures
        r.wf(),
        r@ == numstat_map(nums@),
{
    let parts = split_on(nums, '\0');
    let ghost all = views(parts@);
    let n: usize = parts.len();
    let mut stats: StrMap<(u32, u32)> = StrMap::new();
    let mut i: usize = 0;
    while i < n
        invariant
            n == parts@.len() == all.len(),
            all == views(parts@),
            stats.wf(),
            numstat_from(all, i as int, stats@) == numstat_from(all, 0, Map::empty()),
        decreases n - i,
    {
        assert(all[i as int] == parts@[i as int]@);
        if parts[i].as_str().is_empty() {
            i = i + 1;
        } else {
            let fields = split_on(parts[i].as_str(), '\t');
            let ghost fv = views(fields@);
            assert(fv[0] == fields@[0]@);
            let additions: u32 = field_number(fields[0].as_str());
            let deletions: u32 = if fields.len() > 1 {
                assert(fv[1] == fields@[1]@);
                field_number(fields[1].as_str())
            } else {
                0
            };
            let ghost at = i as int;
            let path: String;
            if fields.len() <= 2 {
                path = String::new();
                i = i + 1;
            } else {
                assert(fv[2] == fields@[2]@);
                if fields[2].as_str().is_empty() {
                    path = if n - i > 2 {
                        part_at(&parts, i + 2)
                    } else {
                        String::new()
                    };
                    i = if n - i > 3 {
                        i + 3
                    } else {
                        n
                    };
                } else {
                    path = fields[2].clone();
                    i = i + 1;
                }
            }
            let ghost stepped = numstat_record(all, at);
            assert(stepped.0 == path@);
            assert(stepped.1 == (additions, deletions));
            if !path.as_str().is_empty() {
                stats.insert(path, (additions, deletions));
            }
            assert(numstat_from(all, stepped.2, stats@) == numstat_from(all, i as int, stats@));
        }
    }
    stats
}

/// The sum of the additions of all paths.
pub open spec fn total_of(m: Map<Seq<char>, (u32, u32)>, second: bool) -> nat
    decreases m.dom().len(),
    when m.dom().finite()
{
    if m.dom().len() == 0 {
        0
    } else {
        let k = m.dom().choose();
        total_of(m.remove(k), second) + (if second {
            m[k].1 as nat
        } else {
            m[k].0 as nat
        })
    }
}

pub proof fn lemma_total_remove(m: Map<Seq<char>, (u32, u32)>, k: Seq<char>, second: bool)
    requires
        m.dom().finite(),
        m.contains_key(k),
    ensures
        total_of(m, second) == total_of(m.remove(k), second) + (if second {
            m[k].1 as nat
        } else {
            m[k].0 as nat
        }),
    decreases m.dom().len(),
{
    let c = m.dom().choose();
    assert(m.dom().contains(c)) by {
        assert(m.dom().contains(k));
    }
    if c != k {
        lemma_total_remove(m.remove(c), k, second);
        lemma_total_remove(m.remove(k), c, second);
        assert(m.remove(c).remove(k) =~= m.remove(k).remove(c));
    }
}

/// Files, added lines, removed lines, and whether untracked files were
/// stashed, out of a stash's `--numstat -z` output. None where a total does
/// not fit its counter.
pub fn stash_stats_at(numstat: &str, includes_untracked: bool) -> (r: Option<
    (usize, u32, u32, bool),
>)
    ensures
        ({
            let m = numstat_map(numstat@);
            match r {
                Some((files, insertions, deletions, untracked)) => files == m.dom().len()
                    && insertions == total_of(m, false) && deletions == total_of(m, true)
                    && untracked == includes_untracked,
                None => total_of(m, false) > u32::MAX || total_of(m, true) > u32::MAX,
            }
        }),
{
    let stats = parse_numstat_z(numstat);
    let keys = stats.keys();
    let ghost m = stats@;
    let mut insertions: u64 = 0;
    let mut deletions: u64 = 0;
    let mut i: usize = 0;
    let ghost mut rest = m;
    while i < keys.len()
        invariant
            i <= keys@.len(),
            stats.wf(),
            m == stats@,
            m.dom().finite(),
            rest.dom().finite(),
            rest.submap_of(m),
            rest.dom().len() == keys@.len() - i,
            forall|k: Seq<char>| #[trigger] rest.contains_key(k) <==> exists|j: int|
                i <= j < keys@.len() && #[trigger] keys@[j]@ == k,
            forall|a: int, b: int|
                0 <= a < b < keys@.len() ==> #[trigger] keys@[a]@ != #[trigger] keys@[b]@,
            insertions + total_of(rest, false) == total_of(m, false),
            deletions + total_of(rest, true) == total_of(m, true),
            insertions <= u32::MAX,
            deletions <= u32::MAX,
            m == numstat_map(numstat@),
        decreases keys@.len() - i,
    {
        let ghost k = keys@[i as int]@;
        assert(rest.contains_key(k));
        let c = stats.get(keys[i].as_str());
        proof {
            lemma_total_remove(rest, k, false);
            lemma_total_remove(rest, k, true);
            let smaller = rest.remove(k);
            assert forall|q: Seq<char>| #[trigger] smaller.contains_key(q) <==> exists|j: int|
                i + 1 <= j < keys@.len() && #[trigger] keys@[j]@ == q by {
                if smaller.contains_key(q) {
                    assert(rest.contains_key(q));
                    let j = choose|j: int| i <= j < keys@.len() && #[trigger] keys@[j]@ == q;
                    assert(j != i);
                    assert(i + 1 <= j < keys@.len() && keys@[j]@ == q);
                }
                if exists|j: int| i + 1 <= j < keys@.len() && #[trigger] keys@[j]@ == q {
                    let j = choose|j: int| i + 1 <= j < keys@.len() && #[trigger] keys@[j]@ == q;
                    assert(keys@[i as int]@ != keys@[j]@);
                    assert(i <= j < keys@.len() && keys@[j]@ == q);
                    assert(rest.contains_key(q));
                }
            }
            rest = smaller;
        }
        match c {
            Some((a, d)) => {
                insertions = insertions + a as u64;
                deletions = deletions + d as u64;
                if insertions > u32::MAX as u64 || deletions > u32::MAX as u64 {
                    return None;
                }
            },
            None => {},
        }
        i = i + 1;
    }
    assert(rest.dom().len() == 0);
    Some((keys.len(), insertions as u32, deletions as u32, includes_untracked))
}

/// A stash as `git stash list` prints it.
#[derive(Debug)]
pub struct StashLine {
    pub index: usize,
    pub stash_ref: String,
    pub message: String,
    pub created: String,
}

/// A stash line by its contents.
pub struct StashLineModel {
    pub index: int,
    pub stash_ref: Seq<char>,
    pub message: Seq<char>,
    pub created: Seq<char>,
}

impl StashLine {
    pub open spec fn view(&self) -> StashLineModel {
        StashLineModel {
            index: self.index as int,
            stash_ref: self.stash_ref@,
            message: self.message@,
            created: self.created@,
        }
    }
}

/// The stashes in the first `n` lines: one for each line that names one,
/// numbered by its line.
pub open spec fn stash_lines(lines: Seq<Seq<char>>, n: int) -> Seq<StashLineModel>
    decreases n,
{
    if n <= 0 {
        Seq::empty()
    } else {
        let p = pieces(lines[n - 1], '\0');
        let rest = stash_lines(lines, n - 1);
        if p[0].len() == 0 {
            rest
        } else {
            rest.push(
                StashLineModel {
                    index: n - 1,
                    stash_ref: p[0],
                    message: part_or_empty(p, 1),
                    created: part_or_empty(p, 2),
                },
            )
        }
    }
}

/// The arguments of the listing that `list_stashes_at` reads.
pub fn stash_list_args() -> (r: Vec<String>)
    ensures
        views(r@) == seq!["stash"@, "list"@, "--format=%gd%x00%gs%x00%cr"@],
{
    let mut args: Vec<String> = Vec::new();
    args.push("stash".to_owned());
    args.push("list".to_owned());
    args.push("--format=%gd%x00%gs%x00%cr".to_owned());
    assert(views(args@) =~= seq!["stash"@, "list"@, "--format=%gd%x00%gs%x00%cr"@]);
    args
}

/// The stashes of a listing.
pub fn list_stashes_at(output: &str) -> (r: Vec<StashLine>)
    ensures
        r@.map_values(|s: StashLine| s.view()) == stash_lines(
            text_lines(output@),
            text_lines(output@).len() as int,
        ),
{
    let lines = lines_of(output);
    let ghost all = views(lines@);
    let mut out: Vec<StashLine> = Vec::new();
    let mut i: usize = 0;
    let n: usize = lines.len();
    assert(out@.map_values(|s: StashLine| s.view()) =~= stash_lines(all, 0));
    while i < n
        invariant
            i <= n == lines@.len(),
            all == views(lines@),
            out@.map_values(|s: StashLine| s.view()) == stash_lines(all, i as int),
        decreases n - i,
    {
        assert(all[i as int] == lines@[i as int]@);
        let p = split_on(lines[i].as_str(), '\0');
        assert(views(p@)[0] == p@[0]@);
        if !p[0].as_str().is_empty() {
            let line = StashLine {
                index: i,
                stash_ref: p[0].clone(),
                message: part_at(&p, 1),
                created: part_at(&p, 2),
            };
            let ghost before = out@;
            let ghost model = line.view();
            out.push(line);
            assert(out@.map_values(|s: StashLine| s.view()) =~= before.map_values(
                |s: StashLine| s.view(),
            ).push(model));
        }
        i = i + 1;
    }
    assert(all.len() == n);
    out
}

/// The full entry of a listed stash, once its statistics are known.
pub fn stash_entry(line: StashLine, stats: (usize, u32, u32, bool)) -> (r: StashEntry)
    ensures
        r.index == line.index,
        r.stash_ref == line.stash_ref,
        r.message == line.message,
        r.created == line.created,
        r.branch@ == stash_branch_of(line.message@),
        (r.files_changed, r.insertions, r.deletions, r.includes_untracked) == stats,
{
    let branch = parse_stash_branch(line.message.as_str());
    StashEntry {
        index: line.index,
        stash_ref: line.stash_ref,
        branch,
        message: line.message,
        created: line.created,
        files_changed: stats.0,
        insertions: stats.1,
        deletions: stats.2,
        includes_untracked: stats.3,
    }
}

/// A file of a stash by its contents.
pub struct FileModel {
    pub path: Seq<char>,
    pub status: FileStatus,
    pub additions: u32,
    pub deletions: u32,
}

pub open spec fn file_model(e: FileEntry) -> FileModel {
    FileModel { path: e.path@, status: e.status, additions: e.additions, deletions: e.deletions }
}

pub open spec fn status_of_letter(c: char) -> FileStatus {
    if c == 'A' {
        FileStatus::Added
    } else if c == 'D' {
        FileStatus::Deleted
    } else if c == 'R' {
        FileStatus::Renamed
    } else {
        FileStatus::Modified
    }
}

/// The files from position `i` of NUL-separated `--name-status` output on.
/// A rename or copy is followed by the old path and the new one, any other
/// letter by the path.
pub open spec fn named_files(
    parts: Seq<Seq<char>>,
    i: int,
    stats: Map<Seq<char>, (u32, u32)>,
    acc: Seq<FileModel>,
) -> Seq<FileModel>
    decreases
            (if i < parts.len() {
                parts.len() - i
            } else {
                0
            }),
{
    if i < 0 || i >= parts.len() {
        acc
    } else if parts[i].len() == 0 {
        named_files(parts, i + 1, stats, acc)
    } else {
        let letter = parts[i][0];
        let moved = letter == 'R' || letter == 'C';
        let path = part_or_empty(
            parts,
            if moved {
                i + 2
            } else {
                i + 1
            },
        );
        let next = if moved {
            i + 3
        } else {
            i + 2
        };
        let counts = crate::git::counts_for(stats, path);
        if path.len() == 0 {
            named_files(parts, next, stats, acc)
        } else {
            named_files(
                parts,
                next,
                stats,
                acc.push(
                    FileModel {
                        path,
                        status: status_of_letter(letter),
                        additions: counts.0,
                        deletions: counts.1,
                    },
                ),
            )
        }
    }
}

/// The files of a stash, out of its names and its counts.
pub fn stash_files(names: &str, nums: &str) -> (r: Vec<FileEntry>)
    ensures
        r@.map_values(|e: FileEntry| file_model(e)) == named_files(
            pieces(names@, '\0'),
            0,
            numstat_map(nums@),
            Seq::empty(),
        ),
{
    let stats = parse_numstat_z(nums);
    let parts = split_on(names, '\0');
    let ghost all = views(parts@);
    let n: usize = parts.len();
    let mut files: Vec<FileEntry> = Vec::new();
    let mut i: usize = 0;
    assert(files@.map_values(|e: FileEntry| file_model(e)) =~= Seq::empty());
    while i < n
        invariant
            i <= n == parts@.len() == all.len(),
            all == views(parts@),
            stats.wf(),
            named_files(
                all,
                i as int,
                stats@,
                files@.map_values(|e: FileEntry| file_model(e)),
            ) == named_files(all, 0, stats@, Seq::empty()),
        decreases n - i,
    {
        assert(all[i as int] == parts@[i as int]@);
        let letters = chars_of(parts[i].as_str());
        if letters.len() == 0 {
            i = i + 1;
        } else {
            let letter: char = letters[0];
            let moved = letter == 'R' || letter == 'C';
            let skip: usize = if moved {
                2
            } else {
                1
            };
            let path = if n - i > skip {
                part_at(&parts, i + skip)
            } else {
                String::new()
            };
            let ghost at = i as int;
            assert(path@ == part_or_empty(all, at + skip));
            i = if n - i > skip + 1 {
                i + skip + 1
            } else {
                n
            };
            let ghost before = files@;
            if !path.as_str().is_empty() {
                let (additions, deletions) = match stats.get(path.as_str()) {
                    Some(c) => c,
                    None => (0, 0),
                };
                let status = if letter == 'A' {
                    FileStatus::Added
                } else if letter == 'D' {
                    FileStatus::Deleted
                } else if letter == 'R' {
                    FileStatus::Renamed
                } else {
                    FileStatus::Modified
                };
                let e = FileEntry { path, status, additions, deletions };
                let ghost model = file_model(e);
                files.push(e);
                assert(files@.map_values(|e: FileEntry| file_model(e)) =~= before.map_values(
                    |e: FileEntry| file_model(e),
                ).push(model));
            }
            let ghost now = files@.map_values(|e: FileEntry| file_model(e));
            assert(named_files(all, at + skip + 1, stats@, now) == named_files(
                all,
                i as int,
                stats@,
                now,
            ));
        }
    }
    files
}

pub open spec fn first_with_ref(entries: Seq<StashEntry>, stash_ref: Seq<char>) -> Option<int>
    decreases entries.len(),
{
    if entries.len() == 0 {
        None
    } else {
        match first_with_ref(entries.drop_last(), stash_ref) {
            Some(i) => Some(i),
            None => if entries.last().stash_ref@ == stash_ref {
                Some(entries.len() - 1)
            } else {
                None
            },
        }
    }
}

/// The details of one stash, out of the listing and the outputs of the three
/// `git stash show` commands. Missing counts are zero; a missing listing,
/// name list or patch is the error.
pub fn stash_detail_at(
    stash_ref: &str,
    listed: Result<Vec<StashEntry>, String>,
    names: Result<String, String>,
    nums: Result<String, String>,
    patch: Result<String, String>,
) -> (r: Result<StashDetail, String>)
    ensures
        match listed {
            Err(e) => r == Err::<StashDetail, String>(e),
            Ok(entries) => match first_with_ref(entries@, stash_ref@) {
                None => r is Err && (r->Err_0)@ == "stash not found: "@ + stash_ref@,
                Some(i) => match (names, patch) {
                    (Err(e), _) => r == Err::<StashDetail, String>(e),
                    (Ok(_), Err(e)) => r == Err::<StashDetail, String>(e),
                    (Ok(text), Ok(body)) => {
                        &&& r is Ok
                        &&& (r->Ok_0).entry == entries@[i]
                        &&& (r->Ok_0).patch == body
                        &&& (r->Ok_0).files@.map_values(|e: FileEntry| file_model(e))
                            == named_files(
                            pieces(text@, '\0'),
                            0,
                            numstat_map(
                                match nums {
                                    Ok(s) => s@,
                                    Err(_) => Seq::empty(),
                                },
                            ),
                            Seq::empty(),
                        )
                    },
                },
            },
        },
{
    let entries = match listed {
        Ok(v) => v,
        Err(e) => return Err(e),
    };
    let ghost all = entries@;
    let mut found: Option<StashEntry> = None;
    assert(all.take(0) =~= Seq::empty());
    for e in it: entries
        invariant
            it.seq() == all,
            match first_with_ref(all.take(it.index() as int), stash_ref@) {
                Some(i) => found == Some(all[i]) && 0 <= i < it.index(),
                None => found is None,
            },
    {
        proof {
            let i = it.index() as int;
            assert(all.take(i + 1).drop_last() =~= all.take(i));
            assert(all.take(i + 1).last() == e);
        }
        if found.is_none() && same_str(e.stash_ref.as_str(), stash_ref) {
            found = Some(e);
        }
    }
    assert(all.take(all.len() as int) =~= all);
    let entry = match found {
        Some(e) => e,
        None => {
            let mut m = "stash not found: ".to_owned();
            m.append(stash_ref);
            return Err(m);
        },
    };
    let names = match names {
        Ok(s) => s,
        Err(e) => return Err(e),
    };
    let nums = match nums {
        Ok(s) => s,
        Err(_) => String::new(),
    };
    let files = stash_files(names.as_str(), nums.as_str());
    match patch {
        Ok(patch) => Ok(StashDetail { entry, files, patch }),
        Err(e) => Err(e),
    }
}

/// The words of `git stash push` under the given options. A blank message is
/// left to git.
pub open spec fn stash_push_words(o: StashPushOptions) -> Seq<Seq<char>> {
    seq!["stash"@, "push"@] + (if o.include_untracked {
        seq!["-u"@]
    } else {
        Seq::empty()
    }) + (if o.keep_index {
        seq!["--keep-index"@]
    } else {
        Seq::empty()
    }) + (if o.staged_only {
        seq!["--staged"@]
    } else {
        Seq::empty()
    }) + (if trimmed(o.message@).len() > 0 {
        seq!["-m"@, o.message@]
    } else {
        Seq::empty()
    }) + (if o.paths@.len() > 0 {
        seq!["--"@] + views(o.paths@)
    } else {
        Seq::empty()
    })
}

proof fn lemma_views_push(v: Seq<String>, s: String)
    ensures
        views(v.push(s)) == views(v).push(s@),
{
    assert(views(v.push(s)) =~= views(v).push(s@));
}

pub fn stash_push_at(opts: &StashPushOptions) -> (r: Vec<String>)
    ensures
        views(r@) == stash_push_words(*opts),
{
    let mut args: Vec<String> = Vec::new();
    args.push("stash".to_owned());
    args.push("push".to_owned());
    assert(views(args@) =~= seq!["stash"@, "push"@]);
    if opts.include_untracked {
        args.push("-u".to_owned());
    }
    let ghost s1 = seq!["stash"@, "push"@] + (if opts.include_untracked {
        seq!["-u"@]
    } else {
        Seq::empty()
    });
    assert(views(args@) =~= s1);
    if opts.keep_index {
        args.push("--keep-index".to_owned());
    }
    let ghost s2 = s1 + (if opts.keep_index {
        seq!["--keep-index"@]
    } else {
        Seq::empty()
    });
    assert(views(args@) =~= s2);
    if opts.staged_only {
        args.push("--staged".to_owned());
    }
    let ghost s3 = s2 + (if opts.staged_only {
        seq!["--staged"@]
    } else {
        Seq::empty()
    });
    assert(views(args@) =~= s3);
    if !trim(opts.message.as_str()).as_str().is_empty() {
        args.push("-m".to_owned());
        args.push(opts.message.clone());
    }
    let ghost s4 = s3 + (if trimmed(opts.message@).len() > 0 {
        seq!["-m"@, opts.message@]
    } else {
        Seq::empty()
    });
    assert(views(args@) =~= s4);
    if opts.paths.len() > 0 {
        args.push("--".to_owned());
        assert(views(args@) =~= s4 + seq!["--"@]);
        let mut i: usize = 0;
        assert(views(args@) =~= s4 + seq!["--"@] + views(opts.paths@).take(0));
        while i < opts.paths.len()
            invariant
                i <= opts.paths@.len(),
                views(args@) == s4 + seq!["--"@] + views(opts.paths@).take(i as int),
            decreases opts.paths@.len() - i,
        {
            let ghost before = args@;
            args.push(opts.paths[i].clone());
            proof {
                lemma_views_push(before, opts.paths@[i as int]);
                assert(views(opts.paths@)[i as int] == opts.paths@[i as int]@);
                assert(views(opts.paths@).take(i + 1) =~= views(opts.paths@).take(i as int).push(
                    opts.paths@[i as int]@,
                ));
                assert(views(args@) =~= s4 + seq!["--"@] + views(opts.paths@).take(i + 1));
            }
            i = i + 1;
        }
        assert(views(opts.paths@).take(opts.paths@.len() as int) =~= views(opts.paths@));
        assert(s4 + seq!["--"@] + views(opts.paths@) =~= s4 + (seq!["--"@] + views(opts.paths@)));
    } else {
        assert(s4 + Seq::<Seq<char>>::empty() =~= s4);
    }
    args
}

fn stash_restore(verb: &str, stash_ref: &str, reinstate_index: bool) -> (r: Vec<String>)
    ensures
        views(r@) == restore_words(verb@, stash_ref@, reinstate_index),
{
    let mut args: Vec<String> = Vec::new();
    args.push("stash".to_owned());
    args.push(verb.to_owned());
    if reinstate_index {
        args.push("--index".to_owned());
    }
    args.push(stash_ref.to_owned());
    assert(views(args@) =~= restore_words(verb@, stash_ref@, reinstate_index));
    args
}

pub open spec fn restore_words(verb: Seq<char>, stash_ref: Seq<char>, index: bool) -> Seq<
    Seq<char>,
> {
    if index {
        seq!["stash"@, verb, "--index"@, stash_ref]
    } else {
        seq!["stash"@, verb, stash_ref]
    }
}

/// The arguments that apply a stash and keep it.
pub fn stash_apply_at(stash_ref: &str, reinstate_index: bool) -> (r: Vec<String>)
    ensures
        views(r@) == restore_words("apply"@, stash_ref@, reinstate_index),
{
    stash_restore("apply", stash_ref, reinstate_index)
}

/// The arguments that apply a stash and drop it.
pub fn stash_pop_at(stash_ref: &str, reinstate_index: bool) -> (r: Vec<String>)
    ensures
        views(r@) == restore_words("pop"@, stash_ref@, reinstate_index),
{
    stash_restore("pop", stash_ref, reinstate_index)
}

/// The arguments that drop a stash.
pub fn stash_drop_at(stash_ref: &str) -> (r: Vec<String>)
    ensures
        views(r@) == seq!["stash"@, "drop"@, stash_ref@],
{
    let mut args: Vec<String> = Vec::new();
    args.push("stash".to_owned());
    args.push("drop".to_owned());
    args.push(stash_ref.to_owned());
    assert(views(args@) =~= seq!["stash"@, "drop"@, stash_ref@]);
    args
}

/// The arguments that turn a stash into a branch.
pub fn stash_branch_at(stash_ref: &str, branch: &str) -> (r: Vec<String>)
    ensures
        views(r@) == seq!["stash"@, "branch"@, branch@, stash_ref@],
{
    let mut args: Vec<String> = Vec::new();
    args.push("stash".to_owned());
    args.push("branch".to_owned());
    args.push(branch.to_owned());
    args.push(stash_ref.to_owned());
    assert(views(args@) =~= seq!["stash"@, "branch"@, branch@, stash_ref@]);
    args
}

/// The arguments that show a stash in one of git's formats.
pub fn stash_show_args(format: StashFormat, stash_ref: &str) -> (r: Vec<String>)
    ensures
        views(r@) == match format {
            StashFormat::Names => seq![
                "stash"@,
                "show"@,
                "--name-status"@,
                "-z"@,
                "--include-untracked"@,
                stash_ref@,
            ],
            StashFormat::Numbers => seq![
                "stash"@,
                "show"@,
                "--numstat"@,
                "-z"@,
                "--include-untracked"@,
                stash_ref@,
            ],
            StashFormat::Patch => seq![
                "stash"@,
                "show"@,
                "-p"@,
                "--include-untracked"@,
                stash_ref@,
            ],
        },
{
    let mut args: Vec<String> = Vec::new();
    args.push("stash".to_owned());
    args.push("show".to_owned());
    match format {
        StashFormat::Names => {
            args.push("--name-status".to_owned());
            args.push("-z".to_owned());
        },
        StashFormat::Numbers => {
            args.push("--numstat".to_owned());
            args.push("-z".to_owned());
        },
        StashFormat::Patch => {
            args.push("-p".to_owned());
        },
    }
    args.push("--include-untracked".to_owned());
    args.push(stash_ref.to_owned());
    assert(views(args@) =~= match format {
        StashFormat::Names => seq![
            "stash"@,
            "show"@,
            "--name-status"@,
            "-z"@,
            "--include-untracked"@,
            stash_ref@,
        ],
        StashFormat::Numbers => seq![
            "stash"@,
            "show"@,
            "--numstat"@,
            "-z"@,
            "--include-untracked"@,
            stash_ref@,
        ],
        StashFormat::Patch => seq!["stash"@, "show"@, "-p"@, "--include-untracked"@, stash_ref@],
    });
    args
}

#[derive(Debug, Clone, Copy)]
pub enum StashFormat {
    Names,
    Numbers,
    Patch,
}

/// The arguments that ask whether a stash has untracked files: its third
/// parent exists.
pub fn untracked_parent_args(stash_ref: &str) -> (r: Vec<String>)
    ensures
        views(r@) == seq!["rev-parse"@, "--verify"@, stash_ref@ + "^3"@],
{
    let mut parent = stash_ref.to_owned();
    parent.append("^3");
    let mut args: Vec<String> = Vec::new();
    args.push("rev-parse".to_owned());
    args.push("--verify".to_owned());
    args.push(parent);
    assert(views(args@) =~= seq!["rev-parse"@, "--verify"@, stash_ref@ + "^3"@]);
    args
}

} // verus!
