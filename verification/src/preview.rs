//! What the preview panel shows of a file: its text, a picture, a database,
//! or a card that says why none of these.
use crate::backend::{DatabaseInfo, DbPage, SqliteValue, TableSummary};
use crate::convert::{cut_point, truncate_string_bytes};
use crate::proto::ReadFileResponse;
use crate::size::{human_bytes, size_text};
use crate::text::{
    contains_str, decimal, decimal_string, lines_of, bytes_text, occurs_in, opt_str_view,
    starts_with, text_lines, text_of_bytes, views,
};
use std::io::Cursor;
use vstd::prelude::*;
use vstd::string::*;
use vstd::utf8::encode_utf8;

verus! {

/// Largest file that is decoded as a picture, 20 MiB.
pub const DECODE_CAP_BYTES: u64 = 20971520;

/// Largest picture that is decoded, in pixels.
pub const MAX_PIXELS: u64 = 50_000_000;

/// Leading bytes that the kind of a file is judged by.
pub const PROBE_BYTES: usize = 8192;

/// Rows of a database's first page.
pub const INITIAL_DB_PAGE_ROWS: u32 = 50;

/// Largest file of unknown kind that is read as text, 10 MiB.
pub const MAX_TEXT_PROBE_BYTES: u64 = 10485760;

/// Leading bytes that hold the header of a picture.
pub const METADATA_HEADER_BYTES: usize = 65536;

/// Bytes of an error message that a card shows.
pub const MAX_DECODE_ERROR_LEN: usize = 100;

/// Lines of a text that the panel holds.
pub const MAX_TEXT_LINES: usize = 10_000;

/// Frames of a GIF that are counted to tell whether it moves.
pub const COUNTED_FRAMES: usize = 2;

/// Largest width or height that is kept of a picture.
pub const MAX_PROTOCOL_DIM: u32 = 2048;

// ── Outside values ───────────────────────────────────────────────────────

/// A decoded picture of the `image` crate, carried through as it is.
#[verifier::external_type_specification]
#[verifier::external_body]
pub struct ExDynamicImage(image::DynamicImage);

/// The media type that `infer::get` recognises in leading bytes.
pub uninterp spec fn sniffed_mime(bytes: Seq<u8>) -> Option<Seq<char>>;

/// `infer::get` and the media type of what it finds: decided by the bytes
/// alone, through a fixed table of signatures.
#[verifier::external_body]
pub(crate) fn sniff_mime(bytes: &[u8]) -> (r: Option<&'static str>)
    ensures
        opt_str_view(r) == sniffed_mime(bytes@),
{
    infer::get(bytes).map(|k| k.mime_type())
}

#[derive(Debug, Clone, Copy, PartialEq, Eq, Structural)]
pub enum ImageFormat {
    Png,
    Jpeg,
    Gif,
    WebP,
    Bmp,
    Tiff,
    Ico,
    /// A format without a name of its own here.
    Other,
}

pub open spec fn opt_format_view(
    r: Result<Option<ImageFormat>, String>,
) -> Result<Option<ImageFormat>, Seq<char>> {
    match r {
        Ok(f) => Ok(f),
        Err(e) => Err(e@),
    }
}

/// The format that `image::ImageReader` guesses from a picture's first bytes.
pub uninterp spec fn guessed_format(bytes: Seq<u8>) -> Result<Option<ImageFormat>, Seq<char>>;

/// `image::ImageReader::with_guessed_format` and `format`: decided by the
/// first bytes alone, since no format hooks are ever registered.
#[verifier::external_body]
pub(crate) fn image_format(bytes: &[u8]) -> (r: Result<Option<ImageFormat>, String>)
    ensures
        opt_format_view(r) == guessed_format(bytes@),
{
    let reader = image::ImageReader::new(Cursor::new(bytes)).with_guessed_format();
    reader.map_err(|e| e.to_string()).map(|r| r.format().map(|f| match f {
        image::ImageFormat::Png => ImageFormat::Png,
        image::ImageFormat::Jpeg => ImageFormat::Jpeg,
        image::ImageFormat::Gif => ImageFormat::Gif,
        image::ImageFormat::WebP => ImageFormat::WebP,
        image::ImageFormat::Bmp => ImageFormat::Bmp,
        image::ImageFormat::Tiff => ImageFormat::Tiff,
        image::ImageFormat::Ico => ImageFormat::Ico,
        _ => ImageFormat::Other,
    }))
}

/// Why the size of a picture cannot be read.
#[derive(Debug)]
pub struct HeaderFault {
    /// The format is known but not supported.
    pub unsupported: bool,
    pub message: String,
}

pub open spec fn dimensions_view(
    r: Result<(u32, u32), HeaderFault>,
) -> Result<(u32, u32), (bool, Seq<char>)> {
    match r {
        Ok(d) => Ok(d),
        Err(e) => Err((e.unsupported, e.message@)),
    }
}

/// The width and height that `image::ImageReader::into_dimensions` reads, or
/// whether it reports the format as unsupported, and its message, where it
/// returns at all: a decoder's panic is not excluded.
pub uninterp spec fn header_dimensions(bytes: Seq<u8>) -> Result<(u32, u32), (bool, Seq<char>)>;

/// `image::ImageReader::into_dimensions` on the guessed format: decided by
/// the bytes alone. That no decoder panics on malformed bytes is not shown: the
/// host catches a panic on the thread that loads the preview.
#[verifier::external_body]
pub(crate) fn image_dimensions(bytes: &[u8]) -> (r: Result<(u32, u32), HeaderFault>)
    ensures
        dimensions_view(r) == header_dimensions(bytes@),
{
    match image::ImageReader::new(Cursor::new(bytes)).with_guessed_format() {
        Ok(reader) => match reader.into_dimensions() {
            Ok(d) => Ok(d),
            Err(image::ImageError::Unsupported(e)) => Err(
                HeaderFault { unsupported: true, message: e.to_string() },
            ),
            Err(e) => Err(HeaderFault { unsupported: false, message: e.to_string() }),
        },
        Err(e) => Err(HeaderFault { unsupported: false, message: e.to_string() }),
    }
}

/// A decoded picture by its width and height.
pub open spec fn decoded_view(r: Result<image::DynamicImage, String>) -> Result<
    (u32, u32),
    Seq<char>,
> {
    match r {
        Ok(i) => Ok((pixel_width(i), pixel_height(i))),
        Err(e) => Err(e@),
    }
}

/// The size of the picture that `image::ImageReader::decode` makes of a file,
/// or its message, where it returns at all: a decoder's panic is not excluded.
pub uninterp spec fn decoded_picture(bytes: Seq<u8>) -> Result<(u32, u32), Seq<char>>;

/// `image::ImageReader::decode` on the guessed format, with the reader's own
/// limits: whether it succeeds, with which message it fails, and how large the
/// picture is, is decided by the bytes alone. The pixels can differ by the
/// machine's instructions and are left open. That no decoder panics on malformed
/// bytes is not shown: the host catches a panic on the thread that loads the
/// preview.
#[verifier::external_body]
pub(crate) fn decode_image(bytes: &[u8]) -> (r: Result<image::DynamicImage, String>)
    ensures
        decoded_view(r) == decoded_picture(bytes@),
{
    image::ImageReader::new(Cursor::new(bytes))
        .with_guessed_format()
        .and_then(|r| r.decode().map_err(std::io::Error::other))
        .map_err(|e| e.to_string())
}

/// The frames that `image`'s GIF decoder yields of a file, counted up to
/// `limit`; none where it is no GIF. A panic of the decoder is not excluded.
pub uninterp spec fn gif_frames(bytes: Seq<u8>, limit: usize) -> Option<usize>;

/// `image::codecs::gif::GifDecoder` and its first `limit` frames, decided by
/// the bytes alone. That the decoder does not panic on malformed bytes is not
/// shown: the host catches a panic on the thread that loads the preview.
#[verifier::external_body]
pub(crate) fn count_gif_frames(bytes: &[u8], limit: usize) -> (r: Option<usize>)
    ensures
        r == gif_frames(bytes@, limit),
        r matches Some(n) ==> n <= limit,
{
    let decoder = image::codecs::gif::GifDecoder::new(Cursor::new(bytes)).ok();
    decoder.map(|d| image::AnimationDecoder::into_frames(d).take(limit).count())
}

/// The width of a picture in pixels.
pub uninterp spec fn pixel_width(img: image::DynamicImage) -> u32;

/// The height of a picture in pixels.
pub uninterp spec fn pixel_height(img: image::DynamicImage) -> u32;

/// The bytes that a picture's pixels take.
pub uninterp spec fn pixel_bytes(img: image::DynamicImage) -> Seq<u8>;

/// `image::DynamicImage::width`.
pub assume_specification[ image::DynamicImage::width ](img: &image::DynamicImage) -> (r: u32)
    ensures
        r == pixel_width(*img),
;

/// `image::DynamicImage::height`.
pub assume_specification[ image::DynamicImage::height ](img: &image::DynamicImage) -> (r: u32)
    ensures
        r == pixel_height(*img),
;

/// `image::DynamicImage::as_bytes`: the pixels as they lie in memory.
pub assume_specification[ image::DynamicImage::as_bytes ](img: &image::DynamicImage) -> (r: &[u8])
    ensures
        r@ == pixel_bytes(*img),
;

/// A picture's shorter side goes to `to` where its longer side, `long`, goes to
/// `bound`: the nearest whole number to the same proportion, and at least 1.
pub open spec fn in_proportion(long: u32, short: u32, bound: u32, to: u32) -> bool {
    &&& 1 <= to <= bound
    &&& to == 1 || 2 * (to * long - short * bound) <= long
    &&& 2 * (short * bound - to * long) <= long
}

/// A picture of `from` pixels scaled to the largest that fits a square of side
/// `bound` has `to` pixels.
pub open spec fn scaled(from: (u32, u32), bound: u32, to: (u32, u32)) -> bool {
    if from.0 >= from.1 {
        to.0 == bound && in_proportion(from.0, from.1, bound, to.1)
    } else {
        to.1 == bound && in_proportion(from.1, from.0, bound, to.0)
    }
}

/// `image::DynamicImage::resize` with the Lanczos filter: the picture scaled,
/// in its proportions, to the largest size that fits the bounds. Within these
/// limits its rounding is exact but for a tie, which may go either way. Which
/// pixels it has depends on the machine's arithmetic and is left open.
#[verifier::external_body]
pub(crate) fn shrink(img: image::DynamicImage, bound: u32) -> (r: image::DynamicImage)
    requires
        0 < bound <= 0xffff,
        pixel_width(img) > 0 || pixel_height(img) > 0,
    ensures
        scaled(
            (pixel_width(img), pixel_height(img)),
            bound,
            (pixel_width(r), pixel_height(r)),
        ),
{
    img.resize(bound, bound, image::imageops::FilterType::Lanczos3)
}

// ── Previews ─────────────────────────────────────────────────────────────

#[derive(Debug)]
pub struct PreviewContent {
    pub file_path: String,
    pub body: PreviewBody,
}

/// A piece of highlighted text with the number of its style.
#[derive(Debug)]
pub struct HighlightToken {
    pub style: u32,
    pub text: String,
}

#[derive(Debug)]
pub enum PreviewBody {
    Text {
        lines: Vec<String>,
        highlighted: Option<Vec<Vec<HighlightToken>>>,
        source_bytes: usize,
    },
    Image(ImagePreview),
    Binary(BinaryInfo),
    Database(DatabaseInfo),
}

/// A picture with the facts that are shown beside it. The pixels are absent
/// where the terminal cannot show them, and once they are handed on.
#[derive(Debug)]
pub struct ImagePreview {
    pub image: Option<image::DynamicImage>,
    pub width_px: u32,
    pub height_px: u32,
    pub format: ImageFormat,
    pub bytes_on_disk: u64,
    pub animated: bool,
    pub meta_line: String,
}

#[derive(Debug)]
pub struct BinaryInfo {
    pub bytes_on_disk: u64,
    pub mime: Option<&'static str>,
    pub reason: BinaryReason,
    pub meta_line: String,
}

#[derive(Debug)]
pub enum BinaryReason {
    /// A known kind that is no picture.
    NonImage,
    /// A picture of a kind that is not supported.
    UnsupportedImage,
    /// Too many bytes or too many pixels.
    TooLarge,
    /// The picture does not decode, with a short message.
    DecodeError(String),
    /// An unknown kind with NUL bytes in it.
    NullBytes,
    Empty,
}

/// A reason by its contents.
pub enum ReasonModel {
    NonImage,
    UnsupportedImage,
    TooLarge,
    DecodeError(Seq<char>),
    NullBytes,
    Empty,
}

pub open spec fn reason_model(r: BinaryReason) -> ReasonModel {
    match r {
        BinaryReason::NonImage => ReasonModel::NonImage,
        BinaryReason::UnsupportedImage => ReasonModel::UnsupportedImage,
        BinaryReason::TooLarge => ReasonModel::TooLarge,
        BinaryReason::DecodeError(m) => ReasonModel::DecodeError(m@),
        BinaryReason::NullBytes => ReasonModel::NullBytes,
        BinaryReason::Empty => ReasonModel::Empty,
    }
}

/// The decode error for a message: whole when it is short, else cut to whole
/// characters within the limit and marked with an ellipsis.
pub open spec fn is_decode_error(r: ReasonModel, msg: Seq<char>) -> bool {
    let bytes = encode_utf8(msg);
    match r {
        ReasonModel::DecodeError(s) => if bytes.len() <= MAX_DECODE_ERROR_LEN {
            s == msg
        } else {
            s.len() > 0 && s.last() == '…' && encode_utf8(s.drop_last()) == bytes.take(
                cut_point(bytes, MAX_DECODE_ERROR_LEN as int),
            )
        },
        _ => false,
    }
}

pub fn decode_error(msg: String) -> (r: BinaryReason)
    ensures
        is_decode_error(reason_model(r), msg@),
{
    let (mut s, cut) = truncate_string_bytes(msg, MAX_DECODE_ERROR_LEN);
    if cut {
        let ghost kept = s@;
        s.push('…');
        assert(s@.drop_last() =~= kept);
    }
    BinaryReason::DecodeError(s)
}

pub open spec fn format_name(f: ImageFormat) -> Seq<char> {
    match f {
        ImageFormat::Png => "PNG"@,
        ImageFormat::Jpeg => "JPEG"@,
        ImageFormat::Gif => "GIF"@,
        ImageFormat::WebP => "WebP"@,
        ImageFormat::Bmp => "BMP"@,
        ImageFormat::Tiff => "TIFF"@,
        ImageFormat::Ico => "ICO"@,
        ImageFormat::Other => "image"@,
    }
}

/// The short name of a format.
pub fn image_format_name(f: ImageFormat) -> (r: &'static str)
    ensures
        r@ == format_name(f),
{
    match f {
        ImageFormat::Png => "PNG",
        ImageFormat::Jpeg => "JPEG",
        ImageFormat::Gif => "GIF",
        ImageFormat::WebP => "WebP",
        ImageFormat::Bmp => "BMP",
        ImageFormat::Tiff => "TIFF",
        ImageFormat::Ico => "ICO",
        ImageFormat::Other => "image",
    }
}

/// "40×40 · PNG · 242 B", with a note on animations.
pub open spec fn image_meta(w: u32, h: u32, f: ImageFormat, bytes: u64, animated: bool) -> Seq<
    char,
> {
    decimal(w as nat) + "×"@ + decimal(h as nat) + " · "@ + format_name(f) + " · "@ + size_text(
        bytes as nat,
    ) + (if animated {
        " · animated (first frame shown)"@
    } else {
        Seq::empty()
    })
}

pub fn image_meta_line(
    width_px: u32,
    height_px: u32,
    format: ImageFormat,
    bytes_on_disk: u64,
    animated: bool,
) -> (r: String)
    ensures
        r@ == image_meta(width_px, height_px, format, bytes_on_disk, animated),
{
    let mut s = decimal_string(width_px as u64);
    s.append("×");
    s.append(decimal_string(height_px as u64).as_str());
    s.append(" · ");
    s.append(image_format_name(format));
    s.append(" · ");
    s.append(human_bytes(bytes_on_disk).as_str());
    if animated {
        s.append(" · animated (first frame shown)");
    } else {
        assert(s@ =~= s@ + Seq::<char>::empty());
    }
    s
}

/// The media type and the size, as far as there are any.
pub open spec fn binary_meta(mime: Option<Seq<char>>, bytes: u64) -> Seq<char> {
    match mime {
        Some(m) => if bytes > 0 {
            m + " · "@ + size_text(bytes as nat)
        } else {
            m
        },
        None => if bytes > 0 {
            size_text(bytes as nat)
        } else {
            Seq::empty()
        },
    }
}

pub fn binary_meta_line(mime: Option<&'static str>, bytes_on_disk: u64) -> (r: String)
    ensures
        r@ == binary_meta(opt_str_view(mime), bytes_on_disk),
{
    match mime {
        Some(m) => {
            let mut s = m.to_owned();
            if bytes_on_disk > 0 {
                s.append(" · ");
                s.append(human_bytes(bytes_on_disk).as_str());
            }
            s
        },
        None => if bytes_on_disk > 0 {
            human_bytes(bytes_on_disk)
        } else {
            String::new()
        },
    }
}

impl BinaryInfo {
    /// The card for the given facts, its line written out.
    pub fn new(bytes_on_disk: u64, mime: Option<&'static str>, reason: BinaryReason) -> (r: Self)
        ensures
            r.bytes_on_disk == bytes_on_disk,
            r.mime == mime,
            r.reason == reason,
            r.meta_line@ == binary_meta(opt_str_view(mime), bytes_on_disk),
    {
        BinaryInfo { bytes_on_disk, mime, reason, meta_line: binary_meta_line(mime, bytes_on_disk) }
    }

    pub open spec fn weight(&self) -> nat {
        encode_utf8(self.meta_line@).len() + (match self.mime {
            Some(m) => encode_utf8(m@).len(),
            None => 0,
        }) + (match self.reason {
            BinaryReason::DecodeError(m) => encode_utf8(m@).len(),
            _ => 0,
        }) + vstd::layout::size_of::<BinaryInfo>()
    }

    /// Bytes that the card takes in memory.
    pub fn memory_weight_bytes(&self) -> (r: usize)
        requires
            self.weight() <= usize::MAX,
        ensures
            r == self.weight(),
    {
        let meta: usize = byte_len(&self.meta_line);
        let mime: usize = match self.mime {
            Some(m) => m.as_bytes().len(),
            None => 0,
        };
        let reason: usize = match &self.reason {
            BinaryReason::DecodeError(m) => byte_len(m),
            _ => 0,
        };
        meta + mime + reason + core::mem::size_of::<BinaryInfo>()
    }
}

fn byte_len(s: &String) -> (r: usize)
    ensures
        r == encode_utf8(s@).len(),
{
    s.as_str().as_bytes().len()
}

impl ImagePreview {
    /// A decoded picture, its line written out.
    pub fn new(
        image: image::DynamicImage,
        width_px: u32,
        height_px: u32,
        format: ImageFormat,
        bytes_on_disk: u64,
        animated: bool,
    ) -> (r: Self)
        ensures
            r.image == Some(image),
            r.facts_are(width_px, height_px, format, bytes_on_disk, animated),
    {
        ImagePreview {
            image: Some(image),
            width_px,
            height_px,
            format,
            bytes_on_disk,
            animated,
            meta_line: image_meta_line(width_px, height_px, format, bytes_on_disk, animated),
        }
    }

    /// The facts without the pixels, for terminals that cannot show them.
    pub fn metadata_only(
        width_px: u32,
        height_px: u32,
        format: ImageFormat,
        bytes_on_disk: u64,
        animated: bool,
    ) -> (r: Self)
        ensures
            r.image is None,
            r.facts_are(width_px, height_px, format, bytes_on_disk, animated),
    {
        ImagePreview {
            image: None,
            width_px,
            height_px,
            format,
            bytes_on_disk,
            animated,
            meta_line: image_meta_line(width_px, height_px, format, bytes_on_disk, animated),
        }
    }

    pub open spec fn facts_are(
        &self,
        w: u32,
        h: u32,
        format: ImageFormat,
        bytes: u64,
        animated: bool,
    ) -> bool {
        &&& self.width_px == w
        &&& self.height_px == h
        &&& self.format == format
        &&& self.bytes_on_disk == bytes
        &&& self.animated == animated
        &&& self.meta_line@ == image_meta(w, h, format, bytes, animated)
    }

    pub open spec fn weight(&self) -> nat {
        (match self.image {
            Some(i) => pixel_bytes(i).len(),
            None => 0,
        }) + encode_utf8(self.meta_line@).len() + vstd::layout::size_of::<ImagePreview>()
    }

    /// Bytes that the picture takes in memory.
    pub fn memory_weight_bytes(&self) -> (r: usize)
        requires
            self.weight() <= usize::MAX,
        ensures
            r == self.weight(),
    {
        let pixels: usize = match &self.image {
            Some(i) => i.as_bytes().len(),
            None => 0,
        };
        pixels + byte_len(&self.meta_line) + core::mem::size_of::<ImagePreview>()
    }
}

// ── Memory weights ───────────────────────────────────────────────────────

/// The bytes of the strings together.
pub open spec fn total_bytes(v: Seq<String>) -> nat
    decreases v.len(),
{
    if v.len() == 0 {
        0
    } else {
        total_bytes(v.drop_last()) + encode_utf8(v.last()@).len()
    }
}

pub open spec fn row_bytes(v: Seq<HighlightToken>) -> nat
    decreases v.len(),
{
    if v.len() == 0 {
        0
    } else {
        row_bytes(v.drop_last()) + encode_utf8(v.last().text@).len()
    }
}

pub open spec fn rows_bytes(v: Seq<Vec<HighlightToken>>) -> nat
    decreases v.len(),
{
    if v.len() == 0 {
        0
    } else {
        rows_bytes(v.drop_last()) + row_bytes(v.last()@)
    }
}

pub open spec fn value_weight(v: SqliteValue) -> nat {
    match v {
        SqliteValue::Null => 0,
        SqliteValue::Integer(_) => 8,
        SqliteValue::Real(_) => 8,
        SqliteValue::Text { value, .. } => encode_utf8(value@).len(),
        SqliteValue::Blob { len } => len as nat,
    }
}

pub open spec fn cells_weight(v: Seq<SqliteValue>) -> nat
    decreases v.len(),
{
    if v.len() == 0 {
        0
    } else {
        cells_weight(v.drop_last()) + value_weight(v.last())
    }
}

pub open spec fn page_rows_weight(v: Seq<Vec<SqliteValue>>) -> nat
    decreases v.len(),
{
    if v.len() == 0 {
        0
    } else {
        page_rows_weight(v.drop_last()) + cells_weight(v.last()@)
    }
}

pub open spec fn page_weight(p: DbPage) -> nat {
    page_rows_weight(p.rows@) + vstd::layout::size_of::<DbPage>()
}

pub open spec fn tables_weight(v: Seq<TableSummary>) -> nat
    decreases v.len(),
{
    if v.len() == 0 {
        0
    } else {
        tables_weight(v.drop_last()) + encode_utf8(v.last().name@).len()
            + vstd::layout::size_of::<TableSummary>()
    }
}

pub open spec fn database_weight(d: DatabaseInfo) -> nat {
    tables_weight(d.tables@) + page_weight(d.initial_page) + vstd::layout::size_of::<DatabaseInfo>()
}

proof fn lemma_total_bytes(v: Seq<String>, i: int)
    requires
        0 <= i <= v.len(),
    ensures
        total_bytes(v.take(i)) <= total_bytes(v),
    decreases v.len() - i,
{
    if i < v.len() {
        lemma_total_bytes(v, i + 1);
        assert(v.take(i + 1).drop_last() =~= v.take(i));
    } else {
        assert(v.take(i) =~= v);
    }
}

fn sum_bytes(v: &Vec<String>) -> (r: usize)
    requires
        total_bytes(v@) <= usize::MAX,
    ensures
        r == total_bytes(v@),
{
    let mut n: usize = 0;
    let mut i: usize = 0;
    assert(v@.take(0) =~= Seq::empty());
    while i < v.len()
        invariant
            i <= v@.len(),
            total_bytes(v@) <= usize::MAX,
            n == total_bytes(v@.take(i as int)),
        decreases v@.len() - i,
    {
        proof {
            lemma_total_bytes(v@, i + 1);
            assert(v@.take(i + 1).drop_last() =~= v@.take(i as int));
        }
        n = n + byte_len(&v[i]);
        i = i + 1;
    }
    assert(v@.take(v@.len() as int) =~= v@);
    n
}

proof fn lemma_row_bytes(v: Seq<HighlightToken>, i: int)
    requires
        0 <= i <= v.len(),
    ensures
        row_bytes(v.take(i)) <= row_bytes(v),
    decreases v.len() - i,
{
    if i < v.len() {
        lemma_row_bytes(v, i + 1);
        assert(v.take(i + 1).drop_last() =~= v.take(i));
    } else {
        assert(v.take(i) =~= v);
    }
}

fn sum_row(v: &Vec<HighlightToken>) -> (r: usize)
    requires
        row_bytes(v@) <= usize::MAX,
    ensures
        r == row_bytes(v@),
{
    let mut n: usize = 0;
    let mut i: usize = 0;
    assert(v@.take(0) =~= Seq::empty());
    while i < v.len()
        invariant
            i <= v@.len(),
            row_bytes(v@) <= usize::MAX,
            n == row_bytes(v@.take(i as int)),
        decreases v@.len() - i,
    {
        proof {
            lemma_row_bytes(v@, i + 1);
            assert(v@.take(i + 1).drop_last() =~= v@.take(i as int));
        }
        n = n + byte_len(&v[i].text);
        i = i + 1;
    }
    assert(v@.take(v@.len() as int) =~= v@);
    n
}

proof fn lemma_rows_bytes(v: Seq<Vec<HighlightToken>>, i: int)
    requires
        0 <= i <= v.len(),
    ensures
        rows_bytes(v.take(i)) <= rows_bytes(v),
    decreases v.len() - i,
{
    if i < v.len() {
        lemma_rows_bytes(v, i + 1);
        assert(v.take(i + 1).drop_last() =~= v.take(i));
    } else {
        assert(v.take(i) =~= v);
    }
}

fn sum_rows(v: &Vec<Vec<HighlightToken>>) -> (r: usize)
    requires
        rows_bytes(v@) <= usize::MAX,
    ensures
        r == rows_bytes(v@),
{
    let mut n: usize = 0;
    let mut i: usize = 0;
    assert(v@.take(0) =~= Seq::empty());
    while i < v.len()
        invariant
            i <= v@.len(),
            rows_bytes(v@) <= usize::MAX,
            n == rows_bytes(v@.take(i as int)),
        decreases v@.len() - i,
    {
        proof {
            lemma_rows_bytes(v@, i + 1);
            assert(v@.take(i + 1).drop_last() =~= v@.take(i as int));
        }
        n = n + sum_row(&v[i]);
        i = i + 1;
    }
    assert(v@.take(v@.len() as int) =~= v@);
    n
}

/// Bytes that a cell stands for.
pub fn sqlite_value_memory_weight_bytes(value: &SqliteValue) -> (r: usize)
    requires
        value_weight(*value) <= usize::MAX,
    ensures
        r == value_weight(*value),
{
    match value {
        SqliteValue::Null => 0,
        SqliteValue::Integer(_) => 8,
        SqliteValue::Real(_) => 8,
        SqliteValue::Text { value, .. } => byte_len(value),
        SqliteValue::Blob { len } => *len as usize,
    }
}

proof fn lemma_cells(v: Seq<SqliteValue>, i: int)
    requires
        0 <= i <= v.len(),
    ensures
        cells_weight(v.take(i)) <= cells_weight(v),
    decreases v.len() - i,
{
    if i < v.len() {
        lemma_cells(v, i + 1);
        assert(v.take(i + 1).drop_last() =~= v.take(i));
    } else {
        assert(v.take(i) =~= v);
    }
}

fn sum_cells(v: &Vec<SqliteValue>) -> (r: usize)
    requires
        cells_weight(v@) <= usize::MAX,
    ensures
        r == cells_weight(v@),
{
    let mut n: usize = 0;
    let mut i: usize = 0;
    assert(v@.take(0) =~= Seq::empty());
    while i < v.len()
        invariant
            i <= v@.len(),
            cells_weight(v@) <= usize::MAX,
            n == cells_weight(v@.take(i as int)),
        decreases v@.len() - i,
    {
        proof {
            lemma_cells(v@, i + 1);
            assert(v@.take(i + 1).drop_last() =~= v@.take(i as int));
        }
        n = n + sqlite_value_memory_weight_bytes(&v[i]);
        i = i + 1;
    }
    assert(v@.take(v@.len() as int) =~= v@);
    n
}

proof fn lemma_page_rows(v: Seq<Vec<SqliteValue>>, i: int)
    requires
        0 <= i <= v.len(),
    ensures
        page_rows_weight(v.take(i)) <= page_rows_weight(v),
    decreases v.len() - i,
{
    if i < v.len() {
        lemma_page_rows(v, i + 1);
        assert(v.take(i + 1).drop_last() =~= v.take(i));
    } else {
        assert(v.take(i) =~= v);
    }
}

/// Bytes that a page of rows stands for.
pub fn db_page_memory_weight_bytes(page: &DbPage) -> (r: usize)
    requires
        page_weight(*page) <= usize::MAX,
    ensures
        r == page_weight(*page),
{
    let v = &page.rows;
    let mut n: usize = 0;
    let mut i: usize = 0;
    assert(v@.take(0) =~= Seq::empty());
    while i < v.len()
        invariant
            i <= v@.len(),
            page_rows_weight(v@) <= usize::MAX,
            n == page_rows_weight(v@.take(i as int)),
        decreases v@.len() - i,
    {
        proof {
            lemma_page_rows(v@, i + 1);
            assert(v@.take(i + 1).drop_last() =~= v@.take(i as int));
        }
        n = n + sum_cells(&v[i]);
        i = i + 1;
    }
    assert(v@.take(v@.len() as int) =~= v@);
    n + core::mem::size_of::<DbPage>()
}

proof fn lemma_tables(v: Seq<TableSummary>, i: int)
    requires
        0 <= i <= v.len(),
    ensures
        tables_weight(v.take(i)) <= tables_weight(v),
    decreases v.len() - i,
{
    if i < v.len() {
        lemma_tables(v, i + 1);
        assert(v.take(i + 1).drop_last() =~= v.take(i));
    } else {
        assert(v.take(i) =~= v);
    }
}

/// Bytes that a database preview stands for.
pub fn database_memory_weight_bytes(info: &DatabaseInfo) -> (r: usize)
    requires
        database_weight(*info) <= usize::MAX,
    ensures
        r == database_weight(*info),
{
    let v = &info.tables;
    let mut n: usize = 0;
    let mut i: usize = 0;
    assert(v@.take(0) =~= Seq::empty());
    while i < v.len()
        invariant
            i <= v@.len(),
            tables_weight(v@) <= usize::MAX,
            n == tables_weight(v@.take(i as int)),
        decreases v@.len() - i,
    {
        proof {
            lemma_tables(v@, i + 1);
            assert(v@.take(i + 1).drop_last() =~= v@.take(i as int));
        }
        n = n + byte_len(&v[i].name) + core::mem::size_of::<TableSummary>();
        i = i + 1;
    }
    assert(v@.take(v@.len() as int) =~= v@);
    n + db_page_memory_weight_bytes(&info.initial_page) + core::mem::size_of::<DatabaseInfo>()
}

impl PreviewBody {
    pub open spec fn weight(&self) -> nat {
        match self {
            PreviewBody::Text { lines, highlighted, .. } => total_bytes(lines@) + (
            match highlighted {
                Some(rows) => rows_bytes(rows@),
                None => 0,
            }),
            PreviewBody::Image(i) => i.weight(),
            PreviewBody::Binary(b) => b.weight(),
            PreviewBody::Database(d) => database_weight(*d),
        }
    }

    pub fn memory_weight_bytes(&self) -> (r: usize)
        requires
            self.weight() <= usize::MAX,
        ensures
            r == self.weight(),
    {
        match self {
            PreviewBody::Text { lines, highlighted, .. } => {
                let text: usize = sum_bytes(lines);
                let tokens: usize = match highlighted {
                    Some(rows) => sum_rows(rows),
                    None => 0,
                };
                text + tokens
            },
            PreviewBody::Image(i) => i.memory_weight_bytes(),
            PreviewBody::Binary(b) => b.memory_weight_bytes(),
            PreviewBody::Database(d) => database_memory_weight_bytes(d),
        }
    }
}

impl PreviewContent {
    pub fn is_text(&self) -> (r: bool)
        ensures
            r == (self.body is Text),
    {
        match self.body {
            PreviewBody::Text { .. } => true,
            _ => false,
        }
    }

    pub fn is_database(&self) -> (r: bool)
        ensures
            r == (self.body is Database),
    {
        match self.body {
            PreviewBody::Database(_) => true,
            _ => false,
        }
    }

    /// Bytes that the preview takes in memory.
    pub fn memory_weight_bytes(&self) -> (r: usize)
        requires
            encode_utf8(self.file_path@).len() + self.body.weight() <= usize::MAX,
        ensures
            r == encode_utf8(self.file_path@).len() + self.body.weight(),
    {
        byte_len(&self.file_path) + self.body.memory_weight_bytes()
    }
}

// ── Choosing a preview ───────────────────────────────────────────────────

/// The preview is the binary card of these facts.
pub open spec fn is_card(
    c: PreviewContent,
    path: Seq<char>,
    size: u64,
    mime: Option<Seq<char>>,
    reason: ReasonModel,
) -> bool {
    &&& c.file_path@ == path
    &&& c.body matches PreviewBody::Binary(b)
    &&& b.bytes_on_disk == size
    &&& opt_str_view(b.mime) == mime
    &&& reason_model(b.reason) == reason
    &&& b.meta_line@ == binary_meta(mime, size)
}

fn card(path: &str, size: u64, mime: Option<&'static str>, reason: BinaryReason) -> (r:
    PreviewContent)
    ensures
        is_card(r, path@, size, opt_str_view(mime), reason_model(reason)),
{
    PreviewContent {
        file_path: path.to_owned(),
        body: PreviewBody::Binary(BinaryInfo::new(size, mime, reason)),
    }
}

/// The card of a picture that is not shown.
pub fn binary_card(rel_str: &str, file_size: u64, mime: &'static str, reason: BinaryReason) -> (r:
    PreviewContent)
    ensures
        is_card(r, rel_str@, file_size, Some(mime@), reason_model(reason)),
{
    card(rel_str, file_size, Some(mime), reason)
}

/// What comes next in a preview: show it, or read more first.
#[derive(Debug)]
pub enum PreviewStep {
    Show(PreviewContent),
    ReadDatabase,
    /// Read the header of a picture, for its facts alone.
    ReadImageHeader { mime: &'static str },
    ReadImage { mime: &'static str },
    ReadText,
}

/// A step by its contents; a card by its size, media type and reason.
#[allow(inconsistent_fields)]
pub enum StepModel {
    Card { size: u64, mime: Option<Seq<char>>, reason: ReasonModel },
    ReadDatabase,
    ReadImageHeader { mime: Seq<char> },
    ReadImage { mime: Seq<char> },
    ReadText,
}

/// The step for a file of this size with these first bytes and media type.
/// Empty files come first, then databases, pictures, and other known kinds;
/// what is left is text unless it is too large or holds a NUL byte.
pub open spec fn step_for(
    size: u64,
    probe: Seq<u8>,
    is_sqlite: bool,
    wants_decoded: bool,
    mime: Option<Seq<char>>,
) -> StepModel {
    if size == 0 {
        StepModel::Card { size: 0, mime: None, reason: ReasonModel::Empty }
    } else if is_sqlite {
        StepModel::ReadDatabase
    } else if mime is Some && "image/"@.is_prefix_of(mime->0) {
        if size > DECODE_CAP_BYTES {
            StepModel::Card { size, mime, reason: ReasonModel::TooLarge }
        } else if wants_decoded {
            StepModel::ReadImage { mime: mime->0 }
        } else {
            StepModel::ReadImageHeader { mime: mime->0 }
        }
    } else if mime is Some && !"text/"@.is_prefix_of(mime->0) {
        StepModel::Card { size, mime, reason: ReasonModel::NonImage }
    } else if size > MAX_TEXT_PROBE_BYTES || probe.contains(0u8) {
        StepModel::Card { size, mime: None, reason: ReasonModel::NullBytes }
    } else {
        StepModel::ReadText
    }
}

pub open spec fn step_is(r: PreviewStep, path: Seq<char>, m: StepModel) -> bool {
    match (r, m) {
        (PreviewStep::Show(c), StepModel::Card { size, mime, reason }) => is_card(
            c,
            path,
            size,
            mime,
            reason,
        ),
        (PreviewStep::ReadDatabase, StepModel::ReadDatabase) => true,
        (PreviewStep::ReadImageHeader { mime: a }, StepModel::ReadImageHeader { mime: b }) => a@
            == b,
        (PreviewStep::ReadImage { mime: a }, StepModel::ReadImage { mime: b }) => a@ == b,
        (PreviewStep::ReadText, StepModel::ReadText) => true,
        _ => false,
    }
}

fn has_nul(bytes: &[u8], n: usize) -> (r: bool)
    requires
        n <= bytes@.len(),
    ensures
        r == bytes@.take(n as int).contains(0u8),
{
    let mut i: usize = 0;
    while i < n
        invariant
            i <= n <= bytes@.len(),
            forall|j: int| 0 <= j < i ==> bytes@[j] != 0,
        decreases n - i,
    {
        if bytes[i] == 0 {
            assert(bytes@.take(n as int)[i as int] == 0u8);
            return true;
        }
        i = i + 1;
    }
    false
}

/// The step for a file whose media type is known.
pub fn preview_step(
    rel_str: &str,
    file_size: u64,
    probe: &[u8],
    is_sqlite: bool,
    wants_decoded_image: bool,
    mime: Option<&'static str>,
) -> (r: PreviewStep)
    ensures
        step_is(
            r,
            rel_str@,
            step_for(file_size, probe@, is_sqlite, wants_decoded_image, opt_str_view(mime)),
        ),
{
    if file_size == 0 {
        return PreviewStep::Show(card(rel_str, 0, None, BinaryReason::Empty));
    }
    if is_sqlite {
        return PreviewStep::ReadDatabase;
    }
    match mime {
        Some(m) => {
            if starts_with(m, "image/") {
                if file_size > DECODE_CAP_BYTES {
                    return PreviewStep::Show(
                        binary_card(rel_str, file_size, m, BinaryReason::TooLarge),
                    );
                }
                if wants_decoded_image {
                    return PreviewStep::ReadImage { mime: m };
                }
                return PreviewStep::ReadImageHeader { mime: m };
            }
            if !starts_with(m, "text/") {
                return PreviewStep::Show(card(rel_str, file_size, Some(m), BinaryReason::NonImage));
            }
        },
        None => {},
    }
    assert(probe@.take(probe@.len() as int) =~= probe@);
    if file_size > MAX_TEXT_PROBE_BYTES || has_nul(probe, probe.len()) {
        return PreviewStep::Show(card(rel_str, file_size, None, BinaryReason::NullBytes));
    }
    PreviewStep::ReadText
}

/// The first step of a preview: nothing for what is no regular file, else by
/// the file's size and its first bytes. `is_sqlite` says that the extension
/// and the first bytes are those of a database.
pub fn load_preview(
    rel_str: &str,
    is_file: bool,
    file_size: u64,
    probe: &[u8],
    is_sqlite: bool,
    wants_decoded_image: bool,
) -> (r: Option<PreviewStep>)
    ensures
        is_file <==> r is Some,
        r matches Some(step) ==> step_is(
            step,
            rel_str@,
            step_for(file_size, probe@, is_sqlite, wants_decoded_image, sniffed_mime(probe@)),
        ),
{
    if !is_file {
        return None;
    }
    let mime = sniff_mime(probe);
    Some(preview_step(rel_str, file_size, probe, is_sqlite, wants_decoded_image, mime))
}

/// The preview shows the text of `raw`, up to the limit of lines.
pub open spec fn is_text_of(c: PreviewContent, path: Seq<char>, raw: Seq<u8>) -> bool {
    let lines = text_lines(bytes_text(raw));
    &&& c.file_path@ == path
    &&& c.body matches PreviewBody::Text { lines: shown, highlighted, source_bytes }
    &&& highlighted is None
    &&& source_bytes == raw.len()
    &&& views(shown@) == (if lines.len() > MAX_TEXT_LINES {
        lines.take(MAX_TEXT_LINES as int)
    } else {
        lines
    })
}

/// The preview of a text file.
pub fn text_preview(rel_str: &str, raw: &[u8]) -> (r: PreviewContent)
    ensures
        is_text_of(r, rel_str@, raw@),
{
    let content = text_of_bytes(raw);
    let mut lines = lines_of(content.as_str());
    let ghost all = lines@;
    if lines.len() > MAX_TEXT_LINES {
        lines.truncate(MAX_TEXT_LINES);
        assert(views(lines@) =~= views(all).take(MAX_TEXT_LINES as int));
    }
    PreviewContent {
        file_path: rel_str.to_owned(),
        body: PreviewBody::Text { lines, highlighted: None, source_bytes: raw.len() },
    }
}

/// Why a database could not be read.
#[derive(Debug)]
pub enum SqliteFault {
    TooLarge,
    Other(String),
}

/// The preview of a database, or the card that says why there is none.
pub fn database_preview(rel_str: &str, file_size: u64, read: Result<DatabaseInfo, SqliteFault>) -> (r:
    PreviewContent)
    ensures
        match read {
            Ok(info) => r.file_path@ == rel_str@ && r.body == PreviewBody::Database(info),
            Err(SqliteFault::TooLarge) => is_card(
                r,
                rel_str@,
                file_size,
                Some("application/vnd.sqlite3"@),
                ReasonModel::TooLarge,
            ),
            Err(SqliteFault::Other(e)) => exists|reason: ReasonModel| #[trigger]
                is_decode_error(reason, "sqlite: "@ + e@) && is_card(
                    r,
                    rel_str@,
                    file_size,
                    Some("application/vnd.sqlite3"@),
                    reason,
                ),
        },
{
    match read {
        Ok(info) => PreviewContent {
            file_path: rel_str.to_owned(),
            body: PreviewBody::Database(info),
        },
        Err(SqliteFault::TooLarge) => card(
            rel_str,
            file_size,
            Some("application/vnd.sqlite3"),
            BinaryReason::TooLarge,
        ),
        Err(SqliteFault::Other(e)) => {
            let mut m = "sqlite: ".to_owned();
            m.append(e.as_str());
            let reason = decode_error(m);
            assert(is_decode_error(reason_model(reason), "sqlite: "@ + e@));
            card(rel_str, file_size, Some("application/vnd.sqlite3"), reason)
        },
    }
}

/// What the header of a picture comes to: its facts, or the reason for a
/// card.
pub enum HeaderModel {
    Facts(ImageFormat, u32, u32),
    Unsupported,
    Broken(Seq<char>),
}

pub open spec fn header_for(
    format: Result<Option<ImageFormat>, Seq<char>>,
    dims: Result<(u32, u32), (bool, Seq<char>)>,
) -> HeaderModel {
    match format {
        Err(e) => HeaderModel::Broken(e),
        Ok(None) => HeaderModel::Unsupported,
        Ok(Some(f)) => match dims {
            Ok((w, h)) => HeaderModel::Facts(f, w, h),
            Err((unsupported, e)) => if unsupported {
                HeaderModel::Unsupported
            } else {
                HeaderModel::Broken(e)
            },
        },
    }
}

/// The preview is the card of a picture with this reason.
pub open spec fn is_broken_card(
    c: PreviewContent,
    path: Seq<char>,
    size: u64,
    mime: Seq<char>,
    msg: Seq<char>,
) -> bool {
    exists|reason: ReasonModel| #[trigger]
        is_decode_error(reason, msg) && is_card(c, path, size, Some(mime), reason)
}

fn broken_card(rel_str: &str, file_size: u64, mime: &'static str, msg: String) -> (r:
    PreviewContent)
    ensures
        is_broken_card(r, rel_str@, file_size, mime@, msg@),
{
    let reason = decode_error(msg);
    assert(is_decode_error(reason_model(reason), msg@));
    binary_card(rel_str, file_size, mime, reason)
}

/// The facts of a picture's header, or the card in their place.
pub fn image_header(
    rel_str: &str,
    file_size: u64,
    mime: &'static str,
    format: Result<Option<ImageFormat>, String>,
    dims: Result<(u32, u32), HeaderFault>,
) -> (r: Result<(ImageFormat, u32, u32), PreviewContent>)
    ensures
        match (header_for(opt_format_view(format), dimensions_view(dims)), r) {
            (HeaderModel::Facts(f, w, h), Ok(facts)) => facts == (f, w, h),
            (HeaderModel::Unsupported, Err(c)) => is_card(
                c,
                rel_str@,
                file_size,
                Some(mime@),
                ReasonModel::UnsupportedImage,
            ),
            (HeaderModel::Broken(e), Err(c)) => is_broken_card(c, rel_str@, file_size, mime@, e),
            _ => false,
        },
{
    let f = match format {
        Err(e) => return Err(broken_card(rel_str, file_size, mime, e)),
        Ok(None) => return Err(
            binary_card(rel_str, file_size, mime, BinaryReason::UnsupportedImage),
        ),
        Ok(Some(f)) => f,
    };
    match dims {
        Ok((w, h)) => Ok((f, w, h)),
        Err(e) => if e.unsupported {
            Err(binary_card(rel_str, file_size, mime, BinaryReason::UnsupportedImage))
        } else {
            Err(broken_card(rel_str, file_size, mime, e.message))
        },
    }
}

/// The preview shows these facts of a picture.
pub open spec fn shows_facts(
    c: PreviewContent,
    path: Seq<char>,
    size: u64,
    f: ImageFormat,
    w: u32,
    h: u32,
    animated: bool,
) -> bool {
    &&& c.file_path@ == path
    &&& c.body matches PreviewBody::Image(i)
    &&& i.facts_are(w, h, f, size, animated)
}

/// The facts of a picture without its pixels, or the card that says why not.
pub fn metadata_only_from_bytes(
    rel_str: &str,
    file_size: u64,
    mime: &'static str,
    header: Result<Vec<u8>, String>,
) -> (r: PreviewContent)
    ensures
        match header {
            Err(e) => is_broken_card(r, rel_str@, file_size, mime@, e@),
            Ok(b) => match header_for(guessed_format(b@), header_dimensions(b@)) {
                HeaderModel::Facts(f, w, h) => shows_facts(r, rel_str@, file_size, f, w, h, false)
                    && r.body->Image_0.image is None,
                HeaderModel::Unsupported => is_card(
                    r,
                    rel_str@,
                    file_size,
                    Some(mime@),
                    ReasonModel::UnsupportedImage,
                ),
                HeaderModel::Broken(e) => is_broken_card(r, rel_str@, file_size, mime@, e),
            },
        },
{
    let bytes = match header {
        Err(e) => return broken_card(rel_str, file_size, mime, e),
        Ok(b) => b,
    };
    let format = image_format(bytes.as_slice());
    let dims = image_dimensions(bytes.as_slice());
    match image_header(rel_str, file_size, mime, format, dims) {
        Err(c) => c,
        Ok((f, w, h)) => PreviewContent {
            file_path: rel_str.to_owned(),
            body: PreviewBody::Image(ImagePreview::metadata_only(w, h, f, file_size, false)),
        },
    }
}

pub open spec fn too_many_pixels(w: u32, h: u32) -> bool {
    w * h > MAX_PIXELS
}

/// Whether a picture of this size is decoded at all.
pub fn exceeds_max_pixels(w: u32, h: u32) -> (r: bool)
    ensures
        r == too_many_pixels(w, h),
{
    assert(w * h <= 0xffff_ffff * 0xffff_ffff) by (nonlinear_arith)
        requires
            w <= 0xffff_ffff,
            h <= 0xffff_ffff,
    ;
    w as u64 * h as u64 > MAX_PIXELS
}

/// What is kept of a picture of `from` pixels has `to` pixels: as many where
/// that fits the bounds, else those of the scaled copy.
pub open spec fn kept_size(from: (u32, u32), to: (u32, u32)) -> bool {
    if from.0 <= MAX_PROTOCOL_DIM && from.1 <= MAX_PROTOCOL_DIM {
        to == from
    } else {
        scaled(from, MAX_PROTOCOL_DIM, to)
    }
}

/// The picture itself where it fits the bounds, else a smaller copy that
/// does.
pub open spec fn downscaled(from: image::DynamicImage, to: image::DynamicImage) -> bool {
    &&& kept_size(
        (pixel_width(from), pixel_height(from)),
        (pixel_width(to), pixel_height(to)),
    )
    &&& pixel_width(from) <= MAX_PROTOCOL_DIM && pixel_height(from) <= MAX_PROTOCOL_DIM ==> to
        == from
}

pub fn downscale_if_oversized(img: image::DynamicImage) -> (r: image::DynamicImage)
    ensures
        downscaled(img, r),
{
    if img.width() <= MAX_PROTOCOL_DIM && img.height() <= MAX_PROTOCOL_DIM {
        return img;
    }
    shrink(img, MAX_PROTOCOL_DIM)
}

/// A decoder's message that means the format is not supported.
pub open spec fn says_unsupported(msg: Seq<char>) -> bool {
    occurs_in(msg, "unsupported"@) || occurs_in(msg, "Unsupported"@)
}

/// The preview of a picture, given what decoding it came to and how many
/// frames it has if it is a GIF.
pub fn decoded_preview(
    rel_str: &str,
    file_size: u64,
    mime: &'static str,
    facts: (ImageFormat, u32, u32),
    decoded: Result<image::DynamicImage, String>,
    frames: Option<usize>,
) -> (r: PreviewContent)
    ensures
        match decoded {
            Err(e) => if says_unsupported(e@) {
                is_card(r, rel_str@, file_size, Some(mime@), ReasonModel::UnsupportedImage)
            } else {
                is_broken_card(r, rel_str@, file_size, mime@, e@)
            },
            Ok(img) => {
                let animated = facts.0 == ImageFormat::Gif && frames is Some && frames->0 > 1;
                &&& shows_facts(r, rel_str@, file_size, facts.0, facts.1, facts.2, animated)
                &&& r.body->Image_0.image matches Some(kept)
                &&& downscaled(img, kept)
            },
        },
{
    match decoded {
        Err(e) => {
            if contains_str(e.as_str(), "unsupported") || contains_str(e.as_str(), "Unsupported") {
                binary_card(rel_str, file_size, mime, BinaryReason::UnsupportedImage)
            } else {
                broken_card(rel_str, file_size, mime, e)
            }
        },
        Ok(img) => {
            let (f, w, h) = facts;
            let animated = f == ImageFormat::Gif && match frames {
                Some(n) => n > 1,
                None => false,
            };
            let kept = downscale_if_oversized(img);
            PreviewContent {
                file_path: rel_str.to_owned(),
                body: PreviewBody::Image(ImagePreview::new(kept, w, h, f, file_size, animated)),
            }
        },
    }
}

/// The preview of a picture with its pixels, or the card that says why not:
/// the file cannot be read, its header is broken or unsupported, it has too
/// many pixels, or it does not decode.
pub fn load_image_preview(
    rel_str: &str,
    file_size: u64,
    mime: &'static str,
    contents: Result<Vec<u8>, String>,
) -> (r: PreviewContent)
    ensures
        match contents {
            Err(e) => is_broken_card(r, rel_str@, file_size, mime@, e@),
            Ok(b) => match header_for(guessed_format(b@), header_dimensions(b@)) {
                HeaderModel::Unsupported => is_card(
                    r,
                    rel_str@,
                    file_size,
                    Some(mime@),
                    ReasonModel::UnsupportedImage,
                ),
                HeaderModel::Broken(e) => is_broken_card(r, rel_str@, file_size, mime@, e),
                HeaderModel::Facts(f, w, h) => if too_many_pixels(w, h) {
                    is_card(r, rel_str@, file_size, Some(mime@), ReasonModel::TooLarge)
                } else {
                    match decoded_picture(b@) {
                        Err(e) => if says_unsupported(e) {
                            is_card(
                                r,
                                rel_str@,
                                file_size,
                                Some(mime@),
                                ReasonModel::UnsupportedImage,
                            )
                        } else {
                            is_broken_card(r, rel_str@, file_size, mime@, e)
                        },
                        Ok(size) => {
                            let frames = gif_frames(b@, COUNTED_FRAMES);
                            let animated = f == ImageFormat::Gif && frames is Some && frames->0 > 1;
                            &&& shows_facts(r, rel_str@, file_size, f, w, h, animated)
                            &&& r.body->Image_0.image matches Some(kept)
                            &&& kept_size(size, (pixel_width(kept), pixel_height(kept)))
                        },
                    }
                },
            },
        },
{
    let bytes = match contents {
        Err(e) => return broken_card(rel_str, file_size, mime, e),
        Ok(b) => b,
    };
    let format = image_format(bytes.as_slice());
    let dims = image_dimensions(bytes.as_slice());
    let (f, w, h) = match image_header(rel_str, file_size, mime, format, dims) {
        Err(c) => return c,
        Ok(facts) => facts,
    };
    if exceeds_max_pixels(w, h) {
        return binary_card(rel_str, file_size, mime, BinaryReason::TooLarge);
    }
    let decoded = decode_image(bytes.as_slice());
    let frames: Option<usize> = if f == ImageFormat::Gif {
        count_gif_frames(bytes.as_slice(), COUNTED_FRAMES)
    } else {
        None
    };
    decoded_preview(rel_str, file_size, mime, (f, w, h), decoded, frames)
}

/// The preview `r` is that of a file on another machine, out of its first
/// bytes: nothing where there is no file, else an empty card, a card for NUL
/// bytes near the start, or the text.
pub open spec fn is_remote_preview(
    r: Option<PreviewContent>,
    rel: Seq<char>,
    resp: ReadFileResponse,
) -> bool {
    let raw = resp.bytes@;
    let near = if raw.len() < PROBE_BYTES {
        raw
    } else {
        raw.take(PROBE_BYTES as int)
    };
    &&& resp.is_file <==> r is Some
    &&& r matches Some(c) ==> if raw.len() == 0 {
        is_card(c, rel, 0, None, ReasonModel::Empty)
    } else if near.contains(0u8) {
        is_card(c, rel, resp.size, None, ReasonModel::NullBytes)
    } else {
        is_text_of(c, rel, raw)
    }
}

pub fn remote_preview(rel_str: &str, resp: &ReadFileResponse) -> (r: Option<PreviewContent>)
    ensures
        is_remote_preview(r, rel_str@, *resp),
{
    if !resp.is_file {
        return None;
    }
    let n: usize = resp.bytes.len();
    if n == 0 {
        return Some(card(rel_str, 0, None, BinaryReason::Empty));
    }
    let near: usize = if n < PROBE_BYTES {
        n
    } else {
        PROBE_BYTES
    };
    assert(resp.bytes@.take(n as int) =~= resp.bytes@);
    if has_nul(resp.bytes.as_slice(), near) {
        return Some(card(rel_str, resp.size, None, BinaryReason::NullBytes));
    }
    Some(text_preview(rel_str, resp.bytes.as_slice()))
}

/// A picture that is kept never exceeds the bounds, whatever was decoded.
pub proof fn law_kept_pictures_fit(from: image::DynamicImage, to: image::DynamicImage)
    requires
        downscaled(from, to),
    ensures
        pixel_width(to) <= MAX_PROTOCOL_DIM,
        pixel_height(to) <= MAX_PROTOCOL_DIM,
{
}

/// A preview is asked to read a picture or a text only within the limits.
pub proof fn law_reads_are_bounded(
    size: u64,
    probe: Seq<u8>,
    is_sqlite: bool,
    wants_decoded: bool,
    mime: Option<Seq<char>>,
)
    ensures
        match step_for(size, probe, is_sqlite, wants_decoded, mime) {
            StepModel::ReadImage { .. } => size <= DECODE_CAP_BYTES,
            StepModel::ReadImageHeader { .. } => size <= DECODE_CAP_BYTES,
            StepModel::ReadText => size <= MAX_TEXT_PROBE_BYTES && !probe.contains(0u8),
            _ => true,
        },
{
}

} // verus!
