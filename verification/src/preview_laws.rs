//! Laws of the preview: which file is shown, as what, and how a database is
//! paged.
use crate::effects::Effect;
use crate::file_tree::FileTree;
use crate::files_pane::FilesPane;
use crate::layout::{Screen, Tab};
use crate::paths::same_path;
use crate::preview::{
    binary_meta, header_for, is_remote_preview, is_text_of, kept_size, row_bytes, step_for,
    total_bytes, HeaderModel, HighlightToken, ImageFormat, PreviewContent, StepModel,
    DECODE_CAP_BYTES, MAX_TEXT_PROBE_BYTES,
};
use crate::preview_pane::{
    last_page, nav_target, DbMove, DbNav, DbPreviewState, PreviewHighlight, PreviewPane,
};
use crate::backend::DatabaseInfo;
use crate::proto::ReadFileResponse;
use crate::search::centered;
use crate::size::{as_double, double_unit, nearest_even, size_text, tenths_text};
use crate::text::{bytes_text, decimal, text_lines, views};
use vstd::prelude::*;
use vstd::utf8::*;

verus! {

// ── As what a file is shown ──────────────────────────────────────────────

/// How a file is shown is told by its size, its first bytes and its media type.
/// A file is read as text where it is no database, no picture and no other known
/// kind, is not too large and holds no NUL byte near its start; as a picture
/// where its type says so and it is not too large. Any other is shown by a card
/// that says why.
pub proof fn law_files_are_shown_by_kind(
    size: u64,
    probe: Seq<u8>,
    is_sqlite: bool,
    wants_decoded: bool,
    mime: Option<Seq<char>>,
)
    ensures
        ({
            let m = step_for(size, probe, is_sqlite, wants_decoded, mime);
            let picture = mime is Some && "image/"@.is_prefix_of(mime->0);
            let text = mime is None || "text/"@.is_prefix_of(mime->0);
            &&& size == 0 <==> (m matches StepModel::Card { reason, .. } && reason is Empty)
            &&& m is ReadDatabase <==> size > 0 && is_sqlite
            &&& m is ReadImage <==> size > 0 && !is_sqlite && picture && size <= DECODE_CAP_BYTES
                && wants_decoded
            &&& m is ReadImageHeader <==> size > 0 && !is_sqlite && picture && size
                <= DECODE_CAP_BYTES && !wants_decoded
            &&& (m matches StepModel::Card { reason, .. } && reason is TooLarge) <==> size > 0
                && !is_sqlite && picture && size > DECODE_CAP_BYTES
            &&& (m matches StepModel::Card { reason, .. } && reason is NonImage) <==> size > 0
                && !is_sqlite && !picture && !text
            &&& m is ReadText <==> size > 0 && !is_sqlite && !picture && text && size
                <= MAX_TEXT_PROBE_BYTES && !probe.contains(0u8)
            &&& (m matches StepModel::Card { reason, .. } && reason is NullBytes) <==> size > 0
                && !is_sqlite && !picture && text && (size > MAX_TEXT_PROBE_BYTES
                || probe.contains(0u8))
            &&& m matches StepModel::Card { size: shown, .. } ==> shown == size
            &&& m matches StepModel::ReadImage { mime: t } ==> Some(t) == mime
            &&& m matches StepModel::ReadImageHeader { mime: t } ==> Some(t) == mime
        }),
{
}

/// The preview of a text shows its lines in their order, up to the limit.
pub proof fn law_text_is_shown_line_by_line(c: PreviewContent, path: Seq<char>, raw: Seq<u8>, i: int)
    requires
        is_text_of(c, path, raw),
    ensures
        c.file_path@ == path,
        c.body is Text,
        c.body->source_bytes == raw.len(),
        ({
            let all = text_lines(
                if valid_utf8(raw) {
                    decode_utf8(raw)
                } else {
                    bytes_text(raw)
                },
            );
            let shown = c.body->Text_lines@;
            &&& all.len() <= 10000 ==> shown.len() == all.len()
            &&& all.len() > 10000 ==> shown.len() == 10000
            &&& 0 <= i < shown.len() ==> shown[i]@ == all[i]
        }),
{
    let shown = c.body->Text_lines@;
    assert(views(shown).len() == shown.len());
    if 0 <= i < shown.len() {
        assert(views(shown)[i] == shown[i]@);
    }
}

/// A file of another machine is shown as far as its first bytes tell: as text
/// where these hold no NUL byte, and by a card where they do or there are none.
pub proof fn law_remote_files_are_shown(
    r: Option<PreviewContent>,
    rel: Seq<char>,
    resp: ReadFileResponse,
)
    requires
        is_remote_preview(r, rel, resp),
    ensures
        r is Some <==> resp.is_file,
        r matches Some(c) ==> {
            &&& c.file_path@ == rel
            &&& c.body is Text || c.body is Binary
            &&& resp.bytes@.len() == 0 ==> c.body is Binary && c.body->Binary_0.reason is Empty
            &&& 0 < resp.bytes@.len() <= 8192 && resp.bytes@.contains(0u8) ==> c.body is Binary
                && c.body->Binary_0.reason is NullBytes && c.body->Binary_0.bytes_on_disk
                == resp.size
            &&& resp.bytes@.len() > 0 && !resp.bytes@.contains(0u8) ==> c.body is Text
        },
{
    let raw = resp.bytes@;
    if raw.len() > 0 && !raw.contains(0u8) {
        let near = raw.take(crate::preview::PROBE_BYTES as int);
        if raw.len() >= crate::preview::PROBE_BYTES {
            assert(!near.contains(0u8)) by {
                if near.contains(0u8) {
                    let k = choose|k: int| 0 <= k < near.len() && near[k] == 0u8;
                    assert(raw[k] == 0u8);
                }
            }
        }
    }
    if raw.len() == crate::preview::PROBE_BYTES {
        assert(raw.take(crate::preview::PROBE_BYTES as int) =~= raw);
    }
}

/// The facts of a picture are those of its header: its format, width and
/// height. Without a format, or with one that is not supported, there are none;
/// and a header that cannot be read tells why.
pub proof fn law_picture_facts_are_those_of_the_header(
    format: Result<Option<ImageFormat>, Seq<char>>,
    dims: Result<(u32, u32), (bool, Seq<char>)>,
)
    ensures
        header_for(format, dims) is Facts <==> format is Ok && format->Ok_0 is Some && dims is Ok,
        header_for(format, dims) matches HeaderModel::Facts(f, w, h) ==> format == Ok::<
            Option<ImageFormat>,
            Seq<char>,
        >(Some(f)) && dims == Ok::<(u32, u32), (bool, Seq<char>)>((w, h)),
        format matches Err(e) ==> header_for(format, dims) == HeaderModel::Broken(e),
        format matches Ok(None) ==> header_for(format, dims) is Unsupported,
{
}

/// A picture keeps its proportions: its longer side goes to the bound and its
/// shorter one with it, and one that fits is kept as it is.
pub proof fn law_large_pictures_are_scaled(from: (u32, u32), to: (u32, u32))
    requires
        kept_size(from, to),
        from.0 > 0,
        from.1 > 0,
    ensures
        from.0 <= 2048 && from.1 <= 2048 ==> to == from,
        from.0 > 2048 && from.0 >= from.1 ==> to.0 == 2048 && to.1 <= to.0 && to.1 >= 1,
        from.1 > 2048 && from.1 > from.0 ==> to.1 == 2048 && to.0 <= to.1 && to.0 >= 1,
{
}

/// What the card of a file says: its media type where it has one, and its size
/// where there is any of it.
pub proof fn law_card_says_type_and_size(m: Seq<char>, bytes: u64)
    ensures
        bytes == 0 ==> binary_meta(Some(m), bytes) == m && binary_meta(None, bytes).len() == 0,
        bytes > 0 ==> binary_meta(Some(m), bytes) == m + " · "@ + size_text(bytes as nat)
            && binary_meta(None, bytes) == size_text(bytes as nat),
{
}

/// What a preview weighs grows with each line by the bytes of that line.
pub proof fn law_weight_counts_the_bytes(v: Seq<String>, s: String, t: Seq<HighlightToken>, x: HighlightToken)
    ensures
        total_bytes(v.push(s)) == total_bytes(v) + encode_utf8(s@).len(),
        total_bytes(Seq::empty()) == 0,
        row_bytes(t.push(x)) == row_bytes(t) + encode_utf8(x.text@).len(),
        row_bytes(Seq::empty()) == 0,
{
    assert(v.push(s).drop_last() =~= v);
    assert(t.push(x).drop_last() =~= t);
}

// ── Sizes ────────────────────────────────────────────────────────────────

proof fn lemma_small_double(n: nat)
    requires
        n < 9007199254740992,
    ensures
        as_double(n) == n,
{
    assert(double_unit(n, 1) == 1);
    assert(nearest_even(n, 1) == n);
}

/// Sizes are told in the largest unit that they reach, and below a kilobyte in
/// bytes.
pub proof fn law_sizes_are_told_in_their_unit(n: nat)
    ensures
        n < 1024 ==> size_text(n) == decimal(n) + " B"@,
        1024 <= n < 1048576 ==> size_text(n) == tenths_text(n, 1024, " KB"@),
        1048576 <= n < 1073741824 ==> size_text(n) == tenths_text(n, 1048576, " MB"@),
        1073741824 <= n ==> size_text(n) == tenths_text(n, 1073741824, " GB"@),
{
}

/// The number before a unit is the size in that unit, to the nearest tenth: it
/// is no further than half a tenth from it.
pub proof fn law_sizes_are_rounded_to_tenths(n: nat, unit: nat, name: Seq<char>) -> (tenths: nat)
    requires
        n < 900719925474099,
        unit > 0,
    ensures
        tenths_text(n, unit, name) == decimal(tenths / 10) + "."@ + decimal(tenths % 10) + name,
        2 * (tenths * unit) <= 2 * (n * 10) + unit,
        2 * (n * 10) <= 2 * (tenths * unit) + unit,
{
    lemma_small_double(n);
    let x = n * 10;
    let t = nearest_even(x, unit);
    let q = x / unit;
    let r = x % unit;
    assert(x == q * unit + r) by {
        vstd::arithmetic::div_mod::lemma_fundamental_div_mod(x as int, unit as int);
        assert(unit * q == q * unit) by (nonlinear_arith);
    }
    assert(r < unit) by {
        vstd::arithmetic::div_mod::lemma_mod_bound(x as int, unit as int);
    }
    assert((q + 1) * unit == q * unit + unit) by (nonlinear_arith);
    t
}

// ── Which file is shown ──────────────────────────────────────────────────

/// The selected row is previewed where it is a file.
pub proof fn law_selected_file_is_previewed(s: PreviewPane, tree: FileTree, now: u64)
    ensures
        tree.selected < tree.entries@.len() && !tree.entries@[tree.selected as int].is_dir ==> {
            let t = s.selected_scheduled(tree, now);
            &&& t.prefetch_schedule is None
            &&& t.preview_schedule matches Some((path, at)) && path
                == tree.entries@[tree.selected as int].path && (now + 80 <= u64::MAX ==> at == now
                + 80)
        },
        tree.selected >= tree.entries@.len() || tree.entries@[tree.selected as int].is_dir
            ==> s.selected_scheduled(tree, now) == s,
        s.selected_scheduled(tree, now).preview_content == s.preview_content,
{
}

/// A preview is asked for once it is due: of the file that it was scheduled
/// for, with the picture where one can be shown.
pub proof fn law_due_preview_is_asked_for(
    s: PreviewPane,
    new: PreviewPane,
    now: u64,
    path: String,
    at: u64,
    fx: Seq<Effect<Seq<char>>>,
    fx2: Seq<Effect<Seq<char>>>,
)
    requires
        s.schedule_drained(new, now, fx, fx2),
        s.preview_schedule == Some((path, at)),
    ensures
        now < at ==> new == s && fx2 == fx,
        now >= at ==> {
            &&& fx2 == fx.push(
                Effect::<Seq<char>>::LoadPreview {
                    generation: new.preview_load.generation,
                    path: path@,
                    wants_image: s.has_picker,
                },
            )
            &&& new.preview_load.loading
            &&& new.preview_schedule is None
            &&& new.preview_in_flight_path == Some(path)
        },
{
}

/// A highlight stays where the file it is in is asked for, and goes otherwise.
pub proof fn law_highlight_stays_in_its_file(s: PreviewPane, path: String, now: u64, hl: PreviewHighlight)
    requires
        s.preview_highlight == Some(hl),
    ensures
        same_path(hl.path@, path@) ==> s.scheduled(path, now).preview_highlight == Some(hl),
        !same_path(hl.path@, path@) ==> s.scheduled(path, now).preview_highlight is None,
{
}

/// A preview is shown where it is the one that was asked for last, from its
/// start where it is of another file, and at the highlight where there is one in
/// it.
pub proof fn law_awaited_preview_is_shown(
    s: PreviewPane,
    new: PreviewPane,
    generation: u64,
    content: Option<PreviewContent>,
    screen: Screen,
    screen2: Screen,
    now: u64,
    r: Option<image::DynamicImage>,
)
    requires
        s.preview_applied(new, generation, Ok(content), screen, screen2, now, r),
    ensures
        generation != s.preview_load.generation ==> new == s && r is None,
        generation == s.preview_load.generation ==> {
            &&& !new.preview_load.loading
            &&& new.preview_in_flight_path is None
            &&& new.preview_content is Some <==> content is Some
            &&& content matches Some(c) ==> new.preview_content->0.file_path == c.file_path
            &&& content matches Some(c) ==> (!(c.body is Image) ==> new.preview_content == content)
            &&& content matches Some(c) ==> (c.body is Image ==> new.preview_content->0.body
                is Image && new.preview_content->0.body->Image_0.width_px
                == c.body->Image_0.width_px && new.preview_content->0.body->Image_0.height_px
                == c.body->Image_0.height_px)
            &&& (s.preview_content matches Some(p) && content matches Some(c) && p.file_path@
                == c.file_path@) && s.preview_highlight is None ==> new.preview_scroll
                == s.preview_scroll
            &&& !(s.preview_content matches Some(p) && content matches Some(c) && p.file_path@
                == c.file_path@) && s.preview_highlight is None ==> new.preview_scroll == 0
                && new.preview_h_scroll == 0
            &&& s.preview_highlight matches Some(hl) ==> (content matches Some(c) ==> (
            c.file_path@ == hl.path@ ==> new.preview_scroll == centered(
                hl.row,
                screen.last_preview_view_h as usize,
            )))
        },
{
}

/// A preview that could not be read leaves what is shown, and is not asked for
/// again by itself.
pub proof fn law_failed_preview_leaves_what_is_shown(
    s: PreviewPane,
    new: PreviewPane,
    generation: u64,
    e: String,
    screen: Screen,
    screen2: Screen,
    now: u64,
    r: Option<image::DynamicImage>,
)
    requires
        s.preview_applied(new, generation, Err(e), screen, screen2, now, r),
    ensures
        new.preview_content == s.preview_content,
        generation == s.preview_load.generation ==> !new.preview_load.stale
            && !new.preview_load.loading,
        r is None,
        screen2 == screen,
{
}

/// The files right above and below the selected one are fetched ahead, in that
/// order; a directory is not.
pub proof fn law_neighbours_are_fetched_ahead(
    s: PreviewPane,
    files: FilesPane,
    screen: Screen,
    i: int,
)
    requires
        0 <= i < s.neighbours(files, screen).len(),
    ensures
        s.neighbours(files, screen).len() <= 2,
        s.neighbours(files, screen)[i] is PrefetchPreview,
        screen.active_tab == Tab::Files,
        exists|k: int|
            0 <= k < files.file_tree.entries@.len() && !(
            #[trigger] files.file_tree.entries@[k]).is_dir && (k == files.file_tree.selected - 1
                || k == files.file_tree.selected + 1) && s.neighbours(
                files,
                screen,
            )[i]->PrefetchPreview_path == files.file_tree.entries@[k].path@,
{
    let t = files.file_tree;
    let sel = t.selected as int;
    if sel > 0 && !t.entries@[sel - 1].is_dir && i == 0 {
        assert(s.neighbours(files, screen)[0]->PrefetchPreview_path == t.entries@[sel - 1].path@);
    } else {
        assert(s.neighbours(files, screen)[i]->PrefetchPreview_path == t.entries@[sel + 1].path@);
    }
}

// ── Databases ────────────────────────────────────────────────────────────

/// Through a database one goes page by page and table by table: forwards to the
/// last of them, backwards to the first. Another table starts at its first page.
pub proof fn law_database_is_paged(info: DatabaseInfo, s: DbPreviewState)
    requires
        s.selected_table < info.tables@.len(),
        s.rows_per_page > 0,
    ensures
        ({
            let t = s.selected_table as int;
            let rows = info.tables@[t].row_count as int;
            let size = s.rows_per_page as int;
            &&& nav_target(info, s, DbNav::FirstPage) == (t, 0int)
            &&& s.page > 0 ==> nav_target(info, s, DbNav::PrevPage) == (t, s.page - 1)
            &&& s.page == 0 ==> nav_target(info, s, DbNav::PrevPage) == (t, 0int)
            &&& (s.page + 1) * size < rows ==> nav_target(info, s, DbNav::NextPage) == (
                t,
                s.page + 1,
            )
            &&& t + 1 < info.tables@.len() ==> nav_target(info, s, DbNav::NextTable) == (
                t + 1,
                0int,
            )
            &&& t + 1 == info.tables@.len() ==> nav_target(info, s, DbNav::NextTable) == (t, 0int)
            &&& t > 0 ==> nav_target(info, s, DbNav::PrevTable) == (t - 1, 0int)
            &&& t == 0 ==> nav_target(info, s, DbNav::PrevTable) == (0int, 0int)
            &&& nav_target(info, s, DbNav::LastPage) == (t, last_page(rows, size))
        }),
{
    let t = s.selected_table as int;
    let rows = info.tables@[t].row_count as int;
    let size = s.rows_per_page as int;
    if (s.page + 1) * size < rows {
        let p = s.page + 1;
        let q = (rows - 1) / size;
        let r = (rows - 1) % size;
        assert(rows > 0) by (nonlinear_arith)
            requires
                p >= 1,
                size > 0,
                p * size < rows,
        ;
        vstd::arithmetic::div_mod::lemma_fundamental_div_mod(rows - 1, size);
        vstd::arithmetic::div_mod::lemma_mod_bound(rows - 1, size);
        assert(q >= p) by (nonlinear_arith)
            requires
                rows - 1 == size * q + r,
                r < size,
                p * size <= rows - 1,
                size > 0,
        ;
    }
}

/// A page is asked for of the table that is shown, from the row where it starts,
/// with as many rows as a page has.
pub proof fn law_page_starts_at_its_row(info: DatabaseInfo, s: DbPreviewState, table: int, page: int)
    requires
        0 <= table < info.tables@.len(),
        0 <= page,
        page * s.rows_per_page <= u64::MAX,
    ensures
        ({
            let e = PreviewPane::page_request(info, s, table, page);
            &&& e is LoadDbPage
            &&& e->LoadDbPage_path == s.path@
            &&& e->LoadDbPage_table == info.tables@[table].name@
            &&& e->offset == page * s.rows_per_page
            &&& e->LoadDbPage_limit == s.rows_per_page
        }),
{
    assert(0 <= page * s.rows_per_page) by (nonlinear_arith)
        requires
            0 <= page,
            0 <= s.rows_per_page,
    ;
}

/// A page that is asked for by its number, from one on, is that page, and the
/// last one where there are not so many.
pub proof fn law_page_is_chosen_by_number(
    s: PreviewPane,
    info: DatabaseInfo,
    d: DbPreviewState,
    n: u64,
    fx: Seq<Effect<Seq<char>>>,
    fx2: Seq<Effect<Seq<char>>>,
    r: Option<DbMove>,
)
    requires
        s.page_chosen(n, fx, fx2, r),
        s.database() == Some((info, d)),
        d.selected_table < info.tables@.len(),
        n >= 1,
    ensures
        ({
            let last = last_page(
                info.tables@[d.selected_table as int].row_count as int,
                d.rows_per_page as int,
            );
            &&& n - 1 <= last && n - 1 != d.page ==> r is Some && r->0.page == n - 1
            &&& n - 1 > last && last != d.page ==> r is Some && r->0.page as int == last as u64
            &&& r matches Some(m) ==> m.table == d.selected_table && !m.table_changed && fx2.len()
                == fx.len() + 1 && fx2.last() is LoadDbPage && fx2.last()->LoadDbPage_table
                == info.tables@[d.selected_table as int].name@
            &&& r is None ==> fx2 == fx
        }),
{
}

/// A move through a database asks for the page it leads to, and for nothing
/// where it leads nowhere.
pub proof fn law_database_moves_ask_for_pages(
    s: PreviewPane,
    info: DatabaseInfo,
    d: DbPreviewState,
    action: DbNav,
    fx: Seq<Effect<Seq<char>>>,
    fx2: Seq<Effect<Seq<char>>>,
    r: Option<DbMove>,
)
    requires
        s.navigated(action, fx, fx2, r),
        s.database() == Some((info, d)),
        d.selected_table < info.tables@.len(),
    ensures
        r is None ==> fx2 == fx,
        r matches Some(m) ==> {
            let to = nav_target(info, d, action);
            &&& m.table == to.0 as usize
            &&& m.page == to.1 as u64
            &&& m.table_changed <==> to.0 != d.selected_table
            &&& fx2.len() == fx.len() + 1
            &&& fx2.last() is LoadDbPage
            &&& fx2.last()->LoadDbPage_path == d.path@
            &&& fx2.last()->LoadDbPage_table == info.tables@[to.0].name@
        },
{
}

/// A database is shown from the first page of the table that comes selected.
pub proof fn law_database_is_shown_from_its_first_page(d: DbPreviewState, path: Seq<char>, info: DatabaseInfo, i: int)
    requires
        d.is_initial(path, info),
    ensures
        d.path@ == path,
        d.page == 0,
        d.selected_table == info.selected_table,
        d.current_rows@.len() == info.initial_page.rows@.len(),
        0 <= i < d.current_rows@.len() ==> d.current_rows@[i]@ == info.initial_page.rows@[i]@,
{
}

/// The last of the pictures that were built for the preview at hand is shown.
pub proof fn law_latest_picture_is_shown(s: PreviewPane, builds: Seq<u64>)
    ensures
        match s.build_shown(builds) {
            Some(i) => 0 <= i < builds.len() && builds[i] == s.preview_load.generation
                && s.has_picture && forall|k: int|
                i < k < builds.len() ==> #[trigger] builds[k] != s.preview_load.generation,
            None => !s.has_picture || forall|k: int|
                0 <= k < builds.len() ==> #[trigger] builds[k] != s.preview_load.generation,
        },
    decreases builds.len(),
{
    if builds.len() > 0 && !s.accepts(builds.last()) {
        let t = builds.drop_last();
        law_latest_picture_is_shown(s, t);
        assert forall|k: int| 0 <= k < t.len() implies #[trigger] builds[k] == t[k] by {}
    }
}

} // verus!
