//! Locating and decoding the PGF drawing program inside an `.ai` file, which
//! is wrapped in PDF, in (DOS) EPS, or in plain PostScript, and may be
//! compressed with zlib or Zstandard or encoded in ASCII85.
use std::path::PathBuf;
use std::io::Read;

use vstd::prelude::*;
use vstd::utf8::encode_utf8;

use crate::error::{failure, outcome_is, outside_failure, Error, ErrorKind, Failure, Result};
use crate::text::{byte_list, byte_list_text, chars_of, copy_range, decimal_spec, find, find_spec, is_unicode_whitespace, join_spec, lines_spec, lossy_utf8, occurs_at, push_chars, starts_with, string_of, string_of_range, trim_spec, utf8_lossy, bytes_start_with, bytes_contain, bytes_match_at, lemma_find_spec_first, lemma_find_spec_none, lemma_find_spec_some, contains_within, min_int, ends_with, trim_bounds, is_whitespace, push_char, push_decimal, lines, trim, join, views};

verus! {

/// A file system path of the standard library, carried unchanged.
#[verifier::external_type_specification]
#[verifier::external_body]
pub struct ExPathBuf(PathBuf);

/// The most bytes that any one decompression produces; output beyond it is
/// cut off.
pub const MAX_DECOMPRESS_BYTES: usize = 256 * 1024 * 1024;

#[derive(Debug, Clone, Copy, PartialEq, Eq, Structural)]
pub enum AiFormat {
    Pdf,
    Eps,
    PostScript,
}

pub struct AiContainer {
    pub path: PathBuf,
    pub format: AiFormat,
}

// ---------------------------------------------------------------------------
// Decompressors.
// ---------------------------------------------------------------------------
/// What zlib decoding of `data` yields when at most `limit` bytes of output
/// are read: the decompressed bytes, or `None` where the stream is refused.
pub uninterp spec fn zlib_inflate(data: Seq<u8>, limit: nat) -> Option<Seq<u8>>;

/// What Zstandard decoding of `data` yields when at most `limit` bytes of
/// output are read: the decompressed bytes, or `None` where decoding fails.
pub uninterp spec fn zstd_decode(data: Seq<u8>, limit: nat) -> Option<Seq<u8>>;

/// `flate2::read::ZlibDecoder` over `data`, read to the end through
/// `Read::take(limit)`. Its outcome is named [`zlib_inflate`]; `take` bounds
/// the output by `limit`.
#[verifier::external_body]
fn zlib_read(data: &[u8], limit: u64) -> (r: std::result::Result<Vec<u8>, std::io::Error>)
    ensures
        match r {
            Ok(out) => zlib_inflate(data@, limit as nat) == Some(out@) && out@.len() <= limit,
            Err(_) => zlib_inflate(data@, limit as nat) is None,
        },
{
    let mut out = Vec::new();
    flate2::read::ZlibDecoder::new(data).take(limit).read_to_end(&mut out)?;
    Ok(out)
}

/// Why a Zstandard decoding failed: the decoder could not be set up, or the
/// stream could not be read.
pub enum ZstdFailure {
    Init(std::io::Error),
    Read(std::io::Error),
}

/// `zstd::Decoder::new` over `data`, read to the end through
/// `Read::take(limit)`. Its outcome is named [`zstd_decode`]; `take` bounds
/// the output by `limit`.
#[verifier::external_body]
fn zstd_read(data: &[u8], limit: u64) -> (r: std::result::Result<Vec<u8>, ZstdFailure>)
    ensures
        match r {
            Ok(out) => zstd_decode(data@, limit as nat) == Some(out@) && out@.len() <= limit,
            Err(_) => zstd_decode(data@, limit as nat) is None,
        },
{
    let decoder = zstd::Decoder::new(data).map_err(ZstdFailure::Init)?;
    let mut out = Vec::new();
    decoder.take(limit).read_to_end(&mut out).map_err(ZstdFailure::Read)?;
    Ok(out)
}

/// The `Display` text of an I/O error.
#[verifier::external_body]
fn io_error_text(e: &std::io::Error) -> String {
    format!("{e}")
}

/// Decompresses zlib `data`, keeping at most `max_size` bytes of output.
pub fn safe_zlib_decompress(data: &[u8], max_size: usize) -> (r: Result<Vec<u8>>)
    ensures
        match r {
            Ok(out) => zlib_inflate(data@, max_size as nat) == Some(out@),
            Err(e) => zlib_inflate(data@, max_size as nat) is None && e is Io,
        },
{
    match zlib_read(data, max_size as u64) {
        Ok(out) => Ok(out),
        Err(e) => Err(Error::Io(e)),
    }
}

// ---------------------------------------------------------------------------
// Specification of the extraction.
// ---------------------------------------------------------------------------
/// `%PDF-`
pub open spec fn pdf_magic() -> Seq<u8> {
    seq![0x25u8, 0x50, 0x44, 0x46, 0x2d]
}

/// The signature of a DOS EPS binary header.
pub open spec fn eps_magic() -> Seq<u8> {
    seq![0xc5u8, 0xd0, 0xd3, 0xc6]
}

/// `%!PS-Adobe`
pub open spec fn ps_magic() -> Seq<u8> {
    seq![0x25u8, 0x21, 0x50, 0x53, 0x2d, 0x41, 0x64, 0x6f, 0x62, 0x65]
}

/// `%%BoundingBox`
pub open spec fn bounding_box_tag() -> Seq<u8> {
    seq![0x25u8, 0x25, 0x42, 0x6f, 0x75, 0x6e, 0x64, 0x69, 0x6e, 0x67, 0x42, 0x6f, 0x78]
}

/// The smaller of the positions found, if any was found.
pub open spec fn min_found(a: Option<int>, b: Option<int>) -> Option<int> {
    match (a, b) {
        (Some(x), Some(y)) => Some(min_int(x, y)),
        (Some(x), None) => Some(x),
        (None, Some(y)) => Some(y),
        (None, None) => None,
    }
}

/// The kind of container, read from the first bytes of the file: a PDF or
/// DOS EPS signature, or a PostScript header (EPS where a `%%BoundingBox`
/// comment stands within the first 2048 bytes).
pub open spec fn format_spec(raw: Seq<u8>) -> Option<AiFormat> {
    if pdf_magic().is_prefix_of(raw) {
        Some(AiFormat::Pdf)
    } else if eps_magic().is_prefix_of(raw) {
        Some(AiFormat::Eps)
    } else if ps_magic().is_prefix_of(raw) {
        if contains_within(raw, bounding_box_tag(), 2048) {
            Some(AiFormat::Eps)
        } else {
            Some(AiFormat::PostScript)
        }
    } else {
        None
    }
}

/// The message of an unrecognized container.
pub open spec fn unrecognized_message(raw: Seq<u8>) -> Seq<char> {
    "Unrecognized file format. Expected %PDF- or %!PS-Adobe header, got: "@ + byte_list_text(
        raw.take(min_int(raw.len() as int, 16)),
    )
}

/// The script part of a PostScript text: from the first of the setup, layer
/// and script markers that occurs (tried in that order), else from the end
/// of the prolog, else all of it.
pub open spec fn script_section_spec(t: Seq<char>) -> Seq<char> {
    match find_spec(t, "%%EndSetup"@) {
        Some(p) => t.skip(p),
        None => match find_spec(t, "%AI5_BeginLayer"@) {
            Some(p) => t.skip(p),
            None => match find_spec(t, "%%BeginScript"@) {
                Some(p) => t.skip(p),
                None => match find_spec(t, "%%EndProlog"@) {
                    Some(p) => t.skip(p),
                    None => t,
                },
            },
        },
    }
}

/// The first two bytes of a zlib stream as this format writes them.
pub open spec fn zlib_header(b: Seq<u8>) -> bool {
    b.len() >= 2 && b[0] == 0x78 && (b[1] == 0x9c || b[1] == 0x01 || b[1] == 0xda)
}

/// Inline AI12 compression: the text after the compressed-data marker is
/// replaced by its zlib decompression, cut at the end marker; where that
/// decompression fails the text stays as it is.
pub open spec fn expand_ai12_spec(t: Seq<char>) -> Seq<char> {
    match find_spec(t, "%AI12_CompressedData"@) {
        None => t,
        Some(p) => match zlib_inflate(
            encode_utf8(t.skip(p + "%AI12_CompressedData"@.len())),
            MAX_DECOMPRESS_BYTES as nat,
        ) {
            None => t,
            Some(d) => ai12_joined(t.take(p), d),
        },
    }
}

/// Decoding of a PGF text: Zstandard data behind the AI24 marker, a whole
/// zlib stream, or text with inline AI12 compression.
pub open spec fn decode_pgf_spec(t: Seq<char>) -> std::result::Result<Seq<char>, Failure> {
    if "%AI24_ZStandard_Data"@.is_prefix_of(t) {
        match zstd_decode(
            encode_utf8(t.skip("%AI24_ZStandard_Data"@.len() as int)),
            MAX_DECOMPRESS_BYTES as nat,
        ) {
            Some(out) => Ok(lossy_utf8(out)),
            None => Err(outside_failure(ErrorKind::Zstd)),
        }
    } else if zlib_header(encode_utf8(t)) {
        match zlib_inflate(encode_utf8(t), MAX_DECOMPRESS_BYTES as nat) {
            Some(out) => Ok(lossy_utf8(out)),
            None => Err(outside_failure(ErrorKind::Io)),
        }
    } else {
        Ok(expand_ai12_spec(t))
    }
}


// Byte-level extraction: the markers are ASCII, so the sections are cut
// from the raw bytes, and compressed streams are decompressed from them
// before any text is made.
/// The bytes of an ASCII literal.
pub open spec fn ascii_of(s: Seq<char>) -> Seq<u8> {
    s.map_values(|c: char| c as u8)
}

/// The PGF section of the bytes of a PDF file: from the first layer or
/// end-of-setup marker (else the first `%AI5_` comment) up to the first
/// end-of-file or end-of-layer marker after it.
pub open spec fn pdf_section_bytes(raw: Seq<u8>) -> Option<Seq<u8>> {
    let start = match min_found(
        find_spec(raw, ascii_of("%AI5_BeginLayer"@)),
        find_spec(raw, ascii_of("%%EndSetup"@)),
    ) {
        Some(p) => Some(p),
        None => find_spec(raw, ascii_of("%AI5_"@)),
    };
    match start {
        None => None,
        Some(p) => {
            let c = raw.skip(p);
            match min_found(find_spec(c, ascii_of("%%EOF"@)), find_spec(c, ascii_of("%AI5_EndLayer--"@))) {
                Some(q) => Some(c.take(q)),
                None => Some(c),
            }
        },
    }
}

/// The script part of the bytes of a PostScript file: from the first of the
/// setup, layer and script markers that occurs (tried in that order), else
/// from the end of the prolog, else all of it.
pub open spec fn script_section_bytes(b: Seq<u8>) -> Seq<u8> {
    match find_spec(b, ascii_of("%%EndSetup"@)) {
        Some(p) => b.skip(p),
        None => match find_spec(b, ascii_of("%AI5_BeginLayer"@)) {
            Some(p) => b.skip(p),
            None => match find_spec(b, ascii_of("%%BeginScript"@)) {
                Some(p) => b.skip(p),
                None => match find_spec(b, ascii_of("%%EndProlog"@)) {
                    Some(p) => b.skip(p),
                    None => b,
                },
            },
        },
    }
}

/// Inline AI12 compression in PGF bytes: the bytes after the
/// compressed-data marker are replaced by their zlib decompression, cut at
/// the end marker; where that decompression fails, or there is no marker,
/// the bytes are read as text as they are.
pub open spec fn expand_ai12_bytes(b: Seq<u8>) -> Seq<char> {
    match find_spec(b, ascii_of("%AI12_CompressedData"@)) {
        None => lossy_utf8(b),
        Some(p) => match zlib_inflate(b.skip(p + 20), MAX_DECOMPRESS_BYTES as nat) {
            None => lossy_utf8(b),
            Some(d) => ai12_joined(lossy_utf8(b.take(p)), d),
        },
    }
}

/// Decoding of PGF bytes: Zstandard data behind the AI24 marker, a whole
/// zlib stream, or bytes with inline AI12 compression.
pub open spec fn decode_pgf_bytes_spec(b: Seq<u8>) -> std::result::Result<Seq<char>, Failure> {
    if ascii_of("%AI24_ZStandard_Data"@).is_prefix_of(b) {
        match zstd_decode(b.skip(20), MAX_DECOMPRESS_BYTES as nat) {
            Some(out) => Ok(lossy_utf8(out)),
            None => Err(outside_failure(ErrorKind::Zstd)),
        }
    } else if zlib_header(b) {
        match zlib_inflate(b, MAX_DECOMPRESS_BYTES as nat) {
            Some(out) => Ok(lossy_utf8(out)),
            None => Err(outside_failure(ErrorKind::Io)),
        }
    } else {
        Ok(expand_ai12_bytes(b))
    }
}

// ASCII85 -------------------------------------------------------------------
/// `s` without its whitespace characters.
pub open spec fn remove_whitespace(s: Seq<char>) -> Seq<char>
    decreases s.len(),
{
    if s.len() == 0 {
        s
    } else if is_unicode_whitespace(s.last()) {
        remove_whitespace(s.drop_last())
    } else {
        remove_whitespace(s.drop_last()).push(s.last())
    }
}

/// The bytes that ASCII85 decoding reads from `d`: trimmed, without the
/// `<~` and `~>` delimiters, without whitespace, as UTF-8.
pub open spec fn a85_clean(d: Seq<char>) -> Seq<u8> {
    let t = trim_spec(d);
    let t1 = if "<~"@.is_prefix_of(t) {
        t.skip("<~"@.len() as int)
    } else {
        t
    };
    let t2 = if "~>"@.is_suffix_of(t1) {
        t1.take(t1.len() - "~>"@.len())
    } else {
        t1
    };
    encode_utf8(remove_whitespace(t2))
}

pub open spec fn is_a85_digit(b: u8) -> bool {
    33 <= b && b <= 117
}

/// The first byte of `c` that is no ASCII85 digit.
pub open spec fn first_bad(c: Seq<u8>) -> Option<u8>
    decreases c.len(),
{
    if c.len() == 0 {
        None
    } else if !is_a85_digit(c[0]) {
        Some(c[0])
    } else {
        first_bad(c.drop_first())
    }
}

/// The base-85 value of the first `k` digits of `c`.
pub open spec fn a85_acc(c: Seq<u8>, k: int) -> int
    decreases k,
{
    if k <= 0 {
        0
    } else {
        a85_acc(c, k - 1) * 85 + (c[k - 1] - 33)
    }
}

/// `v` followed by `m` padding digits of value 84.
pub open spec fn a85_pad(v: int, m: int) -> int
    decreases m,
{
    if m <= 0 {
        v
    } else {
        a85_pad(v * 85 + 84, m - 1)
    }
}

/// The largest value of `k` digits: `85^k - 1`.
pub open spec fn a85_max(k: int) -> int
    decreases k,
{
    if k <= 0 {
        0
    } else {
        a85_max(k - 1) * 85 + 84
    }
}

/// The value of a group `c` of `n` digits, padded to five.
pub open spec fn a85_value(c: Seq<u8>, n: int) -> int {
    a85_pad(a85_acc(c, n), 5 - n)
}

/// Why ASCII85 decoding fails: a byte that is no digit, or a group whose
/// value does not fit in 32 bits.
#[derive(Clone, Copy)]
pub enum A85Fault {
    Bad(u8),
    Overflow,
}

/// The four big-endian bytes of `v`.
pub open spec fn be_bytes(v: int) -> Seq<u8> {
    seq![
        ((v / 0x100_0000) % 256) as u8,
        ((v / 0x1_0000) % 256) as u8,
        ((v / 0x100) % 256) as u8,
        (v % 256) as u8,
    ]
}

/// The bytes that a valid group `c` of `n` digits decodes to.
pub open spec fn a85_group_out(c: Seq<u8>, n: int) -> Seq<u8> {
    let v = a85_value(c, n);
    if n < 5 {
        be_bytes(v).take(n - 1)
    } else {
        be_bytes(v)
    }
}

/// ASCII85 decoding of `b` from position `i`: `z` stands for four zero
/// bytes, `~` ends the data, every other group of five digits gives four
/// bytes and a final short group of `n` digits gives `n - 1`. The error is
/// the first byte that is no digit, or the first group whose value, padded
/// to five digits, is 2^32 or more.
#[verifier::opaque]
pub open spec fn a85_from(b: Seq<u8>, i: int) -> std::result::Result<Seq<u8>, A85Fault>
    decreases b.len() - i,
{
    if i < 0 || i >= b.len() {
        Ok(seq![])
    } else if b[i] == 0x7a {
        match a85_from(b, i + 1) {
            Ok(r) => Ok(seq![0u8, 0, 0, 0] + r),
            Err(e) => Err(e),
        }
    } else if b[i] == 0x7e {
        Ok(seq![])
    } else {
        let n = min_int(5, b.len() - i);
        let c = b.subrange(i, i + n);
        match first_bad(c) {
            Some(bad) => Err(A85Fault::Bad(bad)),
            None => if a85_value(c, n) >= 0x1_0000_0000 {
                Err(A85Fault::Overflow)
            } else {
                match a85_from(b, i + n) {
                    Ok(r) => Ok(a85_group_out(c, n) + r),
                    Err(e) => Err(e),
                }
            },
        }
    }
}

/// The message for an invalid ASCII85 byte.
pub open spec fn a85_message(b: u8) -> Seq<char> {
    "Invalid ASCII85 character: "@ + decimal_spec(b as nat) + seq![' ', '(', b as char, ')']
}

/// The message for an ASCII85 failure.
pub open spec fn a85_fault_message(f: A85Fault) -> Seq<char> {
    match f {
        A85Fault::Bad(b) => a85_message(b),
        A85Fault::Overflow => "ASCII85 group out of range"@,
    }
}

// EPS -----------------------------------------------------------------------
/// The lines of EPS private data, trimmed, without `%%` comments, each with
/// one leading `%` removed.
pub open spec fn eps_kept(ls: Seq<Seq<char>>, n: int) -> Seq<Seq<char>>
    decreases n,
{
    if n <= 0 {
        seq![]
    } else {
        let prev = eps_kept(ls, n - 1);
        let t = trim_spec(ls[n - 1]);
        if "%%"@.is_prefix_of(t) {
            prev
        } else if t.len() > 0 && t[0] == '%' {
            prev.push(t.skip(1))
        } else {
            prev.push(t)
        }
    }
}

/// A zlib header as EPS private data may carry it.
pub open spec fn eps_zlib_header(d: Seq<u8>) -> bool {
    zlib_header(d) || (d.len() > 2 && d[0] == 0x78 && d[1] == 0x5e)
}

/// Decoding of the private data of an EPS file: uncommented lines, which
/// may spell ASCII85 data, itself possibly zlib-compressed.
pub open spec fn eps_private_spec(data: Seq<char>) -> std::result::Result<Seq<char>, Failure> {
    let ls = lines_spec(data);
    let result = join_spec(eps_kept(ls, ls.len() as int), seq!['\n']);
    let tr = trim_spec(result);
    if "<~"@.is_prefix_of(tr) {
        match a85_from(a85_clean(tr), 0) {
            Err(f) => Err(failure(ErrorKind::Container, a85_fault_message(f))),
            Ok(dec) => if eps_zlib_header(dec) {
                match zlib_inflate(dec, MAX_DECOMPRESS_BYTES as nat) {
                    Some(o) => Ok(lossy_utf8(o)),
                    None => Err(outside_failure(ErrorKind::Io)),
                }
            } else {
                Ok(lossy_utf8(dec))
            },
        }
    } else {
        Ok(result)
    }
}

/// The little-endian 32-bit number at `at`.
pub open spec fn le32(b: Seq<u8>, at: int) -> int {
    b[at] + b[at + 1] * 0x100 + b[at + 2] * 0x1_0000 + b[at + 3] * 0x100_0000
}

/// The PostScript text of an EPS file: behind a DOS EPS header, the section
/// that the header points to; otherwise the whole file.
pub open spec fn eps_text(raw: Seq<u8>) -> std::result::Result<Seq<char>, Failure> {
    if raw.len() >= 4 && raw.take(4) == eps_magic() {
        if raw.len() < 12 {
            Err(failure(ErrorKind::Container, "Truncated DOS EPS header"@))
        } else {
            let off = le32(raw, 4);
            let len = le32(raw, 8);
            if off + len > raw.len() {
                Err(failure(ErrorKind::Container, "EPS offset/length out of bounds"@))
            } else {
                Ok(lossy_utf8(raw.subrange(off, off + len)))
            }
        }
    } else {
        Ok(lossy_utf8(raw))
    }
}

/// The PGF of an EPS file: its private data where it has some, else its
/// script section.
pub open spec fn eps_spec(raw: Seq<u8>) -> std::result::Result<Seq<char>, Failure> {
    match eps_text(raw) {
        Err(k) => Err(k),
        Ok(text) => match find_spec(text, "%AI9_PrivateDataBegin"@) {
            Some(p) => {
                let sect = text.skip(p + "%AI9_PrivateDataBegin"@.len());
                let e = match find_spec(sect, "%AI9_PrivateDataEnd"@) {
                    Some(q) => q,
                    None => sect.len() as int,
                };
                eps_private_spec(sect.take(e))
            },
            None => Ok(script_section_spec(text)),
        },
    }
}

/// The PGF program held by the bytes of an `.ai` file.
pub open spec fn extract_spec(raw: Seq<u8>) -> std::result::Result<Seq<char>, Failure> {
    match format_spec(raw) {
        None => Err(failure(ErrorKind::Container, unrecognized_message(raw))),
        Some(AiFormat::Pdf) => match pdf_section_bytes(raw) {
            None => Err(failure(ErrorKind::Container, "No PGF data found in PDF"@)),
            Some(sec) => decode_pgf_bytes_spec(sec),
        },
        Some(AiFormat::Eps) => eps_spec(raw),
        Some(AiFormat::PostScript) => decode_pgf_bytes_spec(script_section_bytes(raw)),
    }
}

// ---------------------------------------------------------------------------
// Extraction.
// ---------------------------------------------------------------------------
/// The UTF-8 bytes of `v`.
fn utf8_bytes(v: &[char]) -> (r: Vec<u8>)
    ensures
        r@ == encode_utf8(v@),
{
    let s = string_of(v);
    let b = s.as_str().as_bytes();
    vstd::slice::slice_to_vec(b)
}

fn min_usize(a: usize, b: usize) -> (r: usize)
    ensures
        r as int == min_int(a as int, b as int),
{
    if a <= b {
        a
    } else {
        b
    }
}

/// The smaller of two found positions.
fn min_opt(a: Option<usize>, b: Option<usize>) -> (r: Option<usize>)
    ensures
        match r {
            Some(x) => min_found(
                match a { Some(y) => Some(y as int), None => None },
                match b { Some(y) => Some(y as int), None => None },
            ) == Some(x as int),
            None => min_found(
                match a { Some(y) => Some(y as int), None => None },
                match b { Some(y) => Some(y as int), None => None },
            ) is None,
        },
{
    match (a, b) {
        (Some(x), Some(y)) => Some(min_usize(x, y)),
        (Some(x), None) => Some(x),
        (None, Some(y)) => Some(y),
        (None, None) => None,
    }
}

/// The position of literal `pat` in `t`.
fn find_lit(t: &[char], pat: &str) -> (r: Option<usize>)
    ensures
        match r {
            Some(i) => find_spec(t@, pat@) == Some(i as int) && occurs_at(t@, pat@, i as int),
            None => find_spec(t@, pat@) is None,
        },
{
    let p = chars_of(pat);
    find(t, &p)
}

/// Whether `t` begins with literal `pat`.
fn starts_with_lit(t: &[char], pat: &str) -> (r: bool)
    ensures
        r == pat@.is_prefix_of(t@),
{
    let p = chars_of(pat);
    starts_with(t, &p)
}

/// Identifies the container format from the first bytes of a file.
pub fn detect_format(raw: &[u8]) -> (r: Result<AiFormat>)
    ensures
        match r {
            Ok(f) => format_spec(raw@) == Some(f),
            Err(e) => format_spec(raw@) is None && (e matches Error::Container(m) && m@
                == unrecognized_message(raw@)),
        },
{
    let pdf: [u8; 5] = [0x25, 0x50, 0x44, 0x46, 0x2d];
    let eps: [u8; 4] = [0xc5, 0xd0, 0xd3, 0xc6];
    let ps: [u8; 10] = [0x25, 0x21, 0x50, 0x53, 0x2d, 0x41, 0x64, 0x6f, 0x62, 0x65];
    let bb: [u8; 13] = [0x25, 0x25, 0x42, 0x6f, 0x75, 0x6e, 0x64, 0x69, 0x6e, 0x67, 0x42, 0x6f, 0x78];
    assert(pdf@ =~= pdf_magic());
    assert(eps@ =~= eps_magic());
    assert(ps@ =~= ps_magic());
    assert(bb@ =~= bounding_box_tag());
    if bytes_start_with(raw, &pdf) {
        Ok(AiFormat::Pdf)
    } else if bytes_start_with(raw, &eps) {
        Ok(AiFormat::Eps)
    } else if bytes_start_with(raw, &ps) {
        if bytes_contain(raw, &bb, 2048) {
            Ok(AiFormat::Eps)
        } else {
            Ok(AiFormat::PostScript)
        }
    } else {
        let n = min_usize(raw.len(), 16);
        let head = copy_range(raw, 0, n);
        assert(head@ == raw@.take(n as int));
        let list = byte_list(&head);
        let mut msg = "Unrecognized file format. Expected %PDF- or %!PS-Adobe header, got: ".to_owned();
        let list_chars = chars_of(list.as_str());
        push_chars(&mut msg, &list_chars);
        Err(Error::Container(msg))
    }
}

/// The script part of a PostScript text (see [`script_section_spec`]).
pub fn extract_script_section(text: &str) -> (r: String)
    ensures
        r@ == script_section_spec(text@),
{
    let t = chars_of(text);
    if let Some(pos) = find_lit(&t, "%%EndSetup") {
        return string_of_range(&t, pos, t.len());
    }
    if let Some(pos) = find_lit(&t, "%AI5_BeginLayer") {
        return string_of_range(&t, pos, t.len());
    }
    if let Some(pos) = find_lit(&t, "%%BeginScript") {
        return string_of_range(&t, pos, t.len());
    }
    if let Some(pos) = find_lit(&t, "%%EndProlog") {
        return string_of_range(&t, pos, t.len());
    }
    string_of(&t)
}

/// The decompressed AI12 data `d` behind the text `prefix`, cut at the end
/// marker.
pub open spec fn ai12_joined(prefix: Seq<char>, d: Seq<u8>) -> Seq<char> {
    let e = lossy_utf8(d);
    let kept = match find_spec(e, "%AI12_EndCompressedData"@) {
        Some(q) => e.take(q),
        None => e,
    };
    prefix + kept
}

fn ai12_join(prefix: &[char], decompressed: &[u8]) -> (r: String)
    ensures
        r@ == ai12_joined(prefix@, decompressed@),
{
    let expanded = chars_of(utf8_lossy(decompressed).as_str());
    let kept_end = match find_lit(&expanded, "%AI12_EndCompressedData") {
        Some(end_pos) => end_pos,
        None => expanded.len(),
    };
    let mut out = string_of(prefix);
    let kept = copy_range(&expanded, 0, kept_end);
    push_chars(&mut out, &kept);
    proof {
        if kept_end == expanded.len() {
            assert(kept@ =~= expanded@);
        }
    }
    out
}

/// Expands inline AI12 compression (see [`expand_ai12_spec`]); never fails.
pub fn expand_ai12_compressed(text: &str) -> (r: Result<String>)
    ensures
        r matches Ok(s) && s@ == expand_ai12_spec(text@),
{
    let t = chars_of(text);
    let n = t.len();
    let marker = chars_of("%AI12_CompressedData");
    if let Some(pos) = find(&t, &marker) {
        let tail = copy_range(&t, pos + marker.len(), t.len());
        assert(tail@ =~= t@.skip(pos + marker.len()));
        let compressed = utf8_bytes(&tail);
        match safe_zlib_decompress(&compressed, MAX_DECOMPRESS_BYTES) {
            Ok(decompressed) => {
                let prefix = copy_range(&t, 0, pos);
                assert(prefix@ =~= t@.take(pos as int));
                Ok(ai12_join(&prefix, &decompressed))
            },
            Err(_) => Ok(string_of(&t)),
        }
    } else {
        Ok(string_of(&t))
    }
}

/// Decodes Zstandard `data` into text, keeping at most
/// [`MAX_DECOMPRESS_BYTES`] bytes of output.
pub fn decode_zstandard(data: &[u8]) -> (r: Result<String>)
    ensures
        match zstd_decode(data@, MAX_DECOMPRESS_BYTES as nat) {
            Some(out) => r matches Ok(s) && s@ == lossy_utf8(out),
            None => r matches Err(e) && e is Zstd,
        },
{
    match zstd_read(data, MAX_DECOMPRESS_BYTES as u64) {
        Ok(out) => Ok(utf8_lossy(&out)),
        Err(ZstdFailure::Init(e)) => {
            let mut msg = "Failed to create zstd decoder: ".to_owned();
            let detail = io_error_text(&e);
            push_chars(&mut msg, &chars_of(detail.as_str()));
            Err(Error::Zstd(msg))
        },
        Err(ZstdFailure::Read(e)) => {
            let mut msg = "Zstandard decompression failed: ".to_owned();
            let detail = io_error_text(&e);
            push_chars(&mut msg, &chars_of(detail.as_str()));
            Err(Error::Zstd(msg))
        },
    }
}

/// Decodes a PGF text (see [`decode_pgf_spec`]).
pub fn decode_pgf(text: &str) -> (r: Result<String>)
    ensures
        outcome_is(r, decode_pgf_spec(text@)),
{
    let t = chars_of(text);
    if starts_with_lit(&t, "%AI24_ZStandard_Data") {
        let marker = chars_of("%AI24_ZStandard_Data");
        let tail = copy_range(&t, marker.len(), t.len());
        assert(tail@ =~= t@.skip(marker@.len() as int));
        let data = utf8_bytes(&tail);
        return decode_zstandard(&data);
    }
    let raw = utf8_bytes(&t);
    if raw.len() >= 2 && raw[0] == 0x78 && (raw[1] == 0x9c || raw[1] == 0x01 || raw[1] == 0xda) {
        return match safe_zlib_decompress(&raw, MAX_DECOMPRESS_BYTES) {
            Ok(decompressed) => Ok(utf8_lossy(&decompressed)),
            Err(e) => Err(e),
        };
    }
    expand_ai12_compressed(text)
}

/// `p` placed before an ASCII85 outcome.
pub open spec fn prefixed(p: Seq<u8>, r: std::result::Result<Seq<u8>, A85Fault>) -> std::result::Result<Seq<u8>, A85Fault> {
    match r {
        Ok(v) => Ok(p + v),
        Err(e) => Err(e),
    }
}

proof fn lemma_first_bad_prefix(c: Seq<u8>, j: int)
    requires
        0 <= j <= c.len(),
        forall|k: int| 0 <= k < j ==> is_a85_digit(#[trigger] c[k]),
    ensures
        first_bad(c) == first_bad(c.skip(j)),
    decreases j,
{
    if j > 0 {
        assert(is_a85_digit(c[0]));
        assert(c.drop_first().skip(j - 1) =~= c.skip(j));
        assert forall|k: int| 0 <= k < j - 1 implies is_a85_digit(#[trigger] c.drop_first()[k]) by {
            assert(c.drop_first()[k] == c[k + 1]);
        }
        lemma_first_bad_prefix(c.drop_first(), j - 1);
    } else {
        assert(c.skip(0) =~= c);
    }
}

proof fn lemma_first_bad_none(c: Seq<u8>)
    requires
        forall|k: int| 0 <= k < c.len() ==> is_a85_digit(#[trigger] c[k]),
    ensures
        first_bad(c) is None,
{
    lemma_first_bad_prefix(c, c.len() as int);
}

proof fn lemma_a85_end(b: Seq<u8>, i: int)
    requires
        0 <= i,
        i >= b.len() || b[i] == 0x7e,
    ensures
        a85_from(b, i) == std::result::Result::<Seq<u8>, A85Fault>::Ok(seq![]),
{
    reveal(a85_from);
}

proof fn lemma_a85_zero(b: Seq<u8>, i: int)
    requires
        0 <= i < b.len(),
        b[i] == 0x7a,
    ensures
        a85_from(b, i) == prefixed(seq![0u8, 0, 0, 0], a85_from(b, i + 1)),
{
    reveal(a85_from);
}

proof fn lemma_a85_step(b: Seq<u8>, i: int, n: int)
    requires
        0 <= i < b.len(),
        b[i] != 0x7a,
        b[i] != 0x7e,
        n == min_int(5, b.len() - i),
    ensures
        a85_from(b, i) == match first_bad(b.subrange(i, i + n)) {
            Some(bad) => std::result::Result::<Seq<u8>, A85Fault>::Err(A85Fault::Bad(bad)),
            None => if a85_value(b.subrange(i, i + n), n) >= 0x1_0000_0000 {
                std::result::Result::<Seq<u8>, A85Fault>::Err(A85Fault::Overflow)
            } else {
                prefixed(a85_group_out(b.subrange(i, i + n), n), a85_from(b, i + n))
            },
        },
{
    reveal(a85_from);
}

proof fn lemma_prefixed_assoc(p: Seq<u8>, q: Seq<u8>, r: std::result::Result<Seq<u8>, A85Fault>)
    ensures
        prefixed(p, prefixed(q, r)) == prefixed(p + q, r),
{
    match r {
        Ok(v) => assert(p + (q + v) =~= (p + q) + v),
        Err(_) => {},
    }
}

/// The message for an ASCII85 failure.
fn a85_error(f: A85Fault) -> (m: String)
    ensures
        m@ == a85_fault_message(f),
{
    let b = match f {
        A85Fault::Bad(b) => b,
        A85Fault::Overflow => {
            return "ASCII85 group out of range".to_owned();
        },
    };
    let mut m = "Invalid ASCII85 character: ".to_owned();
    push_decimal(&mut m, b as u64);
    push_char(&mut m, ' ');
    push_char(&mut m, '(');
    push_char(&mut m, b as char);
    push_char(&mut m, ')');
    proof {
        assert(m@ =~= a85_message(b));
    }
    m
}

/// Decodes one group of `n` ASCII85 digits starting at `i`.
proof fn lemma_a85_max()
    ensures
        a85_max(5) == 4437053124,
        forall|k: int| 0 <= k <= 4 ==> #[trigger] a85_max(k) <= 52200624,
{
    assert(a85_max(0) == 0);
    assert(a85_max(1) == 84);
    assert(a85_max(2) == 7224);
    assert(a85_max(3) == 614124);
    assert(a85_max(4) == 52200624);
    assert(a85_max(5) == 4437053124);
    assert forall|k: int| 0 <= k <= 4 implies #[trigger] a85_max(k) <= 52200624 by {
        if k == 0 {
        } else if k == 1 {
        } else if k == 2 {
        } else if k == 3 {
        }
    }
}

fn a85_group(b: &[u8], i: usize, n: usize) -> (r: std::result::Result<Vec<u8>, A85Fault>)
    requires
        1 <= n <= 5,
        i + n <= b@.len(),
    ensures
        ({
            let c = b@.subrange(i as int, i + n);
            match first_bad(c) {
                Some(bad) => r == std::result::Result::<Vec<u8>, A85Fault>::Err(A85Fault::Bad(bad)),
                None => if a85_value(c, n as int) >= 0x1_0000_0000 {
                    r == std::result::Result::<Vec<u8>, A85Fault>::Err(A85Fault::Overflow)
                } else {
                    r matches Ok(out) && out@ == a85_group_out(c, n as int)
                },
            }
        }),
{
    let ghost c = b@.subrange(i as int, i + n);
    let blen = b.len();
    proof {
        lemma_a85_max();
    }
    let mut code: u64 = 0;
    let mut j: usize = 0;
    while j < n
        invariant
            j <= n,
            1 <= n <= 5,
            i + n <= b@.len(),
            blen == b@.len(),
            c == b@.subrange(i as int, i + n),
            code as int == a85_acc(c, j as int),
            code as int <= a85_max(j as int),
            a85_max(5) == 4437053124,
            forall|k: int| 0 <= k <= 4 ==> #[trigger] a85_max(k) <= 52200624,
            forall|k: int| 0 <= k < j ==> is_a85_digit(#[trigger] c[k]),
        decreases n - j,
    {
        let byte = b[i + j];
        assert(c[j as int] == byte);
        if !(33 <= byte && byte <= 117) {
            proof {
                lemma_first_bad_prefix(c, j as int);
                assert(c.skip(j as int)[0] == byte);
            }
            return Err(A85Fault::Bad(byte));
        }
        code = code * 85 + (byte - 33) as u64;
        j += 1;
    }
    proof {
        lemma_first_bad_none(c);
    }
    let ghost acc = code as int;
    let mut m: usize = n;
    while m < 5
        invariant
            n <= m <= 5,
            code as int <= a85_max(m as int),
            a85_max(5) == 4437053124,
            forall|k: int| 0 <= k <= 4 ==> #[trigger] a85_max(k) <= 52200624,
            a85_pad(acc, 5 - n) == a85_pad(code as int, 5 - m),
        decreases 5 - m,
    {
        code = code * 85 + 84;
        m += 1;
    }
    if code >= 0x1_0000_0000 {
        return Err(A85Fault::Overflow);
    }
    let v = code;
    let bytes: [u8; 4] = [
        (v / 0x100_0000 % 256) as u8,
        (v / 0x1_0000 % 256) as u8,
        (v / 0x100 % 256) as u8,
        (v % 256) as u8,
    ];
    let count = if n < 5 {
        n - 1
    } else {
        4
    };
    let mut out: Vec<u8> = Vec::new();
    let mut k: usize = 0;
    while k < count
        invariant
            k <= count <= 4,
            out@ =~= bytes@.take(k as int),
        decreases count - k,
    {
        out.push(bytes[k]);
        k += 1;
    }
    proof {
        assert(bytes@ =~= be_bytes(v as int));
        if n == 5 {
            assert(bytes@.take(4) =~= bytes@);
        }
    }
    Ok(out)
}

/// Decodes ASCII85 text (see [`a85_clean`] and [`a85_from`]).
pub fn decode_ascii85(data: &str) -> (r: Result<Vec<u8>>)
    ensures
        match a85_from(a85_clean(data@), 0) {
            Ok(v) => r matches Ok(out) && out@ == v,
            Err(f) => r matches Err(e) && (e matches Error::Container(m) && m@ == a85_fault_message(f)),
        },
{
    let d = chars_of(data);
    let (a, z) = trim_bounds(&d);
    let t0 = copy_range(&d, a, z);
    let open = chars_of("<~");
    let t1 = if starts_with(&t0, &open) {
        let r = copy_range(&t0, open.len(), t0.len());
        assert(r@ =~= t0@.skip(open@.len() as int));
        r
    } else {
        t0
    };
    let close = chars_of("~>");
    let t2 = if ends_with(&t1, &close) {
        let r = copy_range(&t1, 0, t1.len() - close.len());
        assert(r@ =~= t1@.take(t1@.len() - close@.len()));
        r
    } else {
        t1
    };
    let mut clean: Vec<char> = Vec::new();
    let mut k: usize = 0;
    while k < t2.len()
        invariant
            k <= t2@.len(),
            clean@ == remove_whitespace(t2@.take(k as int)),
        decreases t2.len() - k,
    {
        let c = t2[k];
        proof {
            assert(t2@.take(k + 1).drop_last() =~= t2@.take(k as int));
            assert(t2@.take(k + 1).last() == c);
        }
        if !is_whitespace(c) {
            clean.push(c);
        }
        k += 1;
    }
    assert(t2@.take(t2@.len() as int) =~= t2@);
    let bytes = utf8_bytes(&clean);
    assert(bytes@ == a85_clean(data@));
    let mut result: Vec<u8> = Vec::new();
    let mut i: usize = 0;
    let len = bytes.len();
    while i < len
        invariant
            i <= len,
            len == bytes@.len(),
            bytes@ == a85_clean(data@),
            a85_from(bytes@, 0) == prefixed(result@, a85_from(bytes@, i as int)),
        decreases len - i,
    {
        let ghost before = result@;
        if bytes[i] == 0x7a {
            result.push(0);
            result.push(0);
            result.push(0);
            result.push(0);
            proof {
                assert(result@ =~= before + seq![0u8, 0, 0, 0]);
                lemma_a85_zero(bytes@, i as int);
                lemma_prefixed_assoc(before, seq![0u8, 0, 0, 0], a85_from(bytes@, i + 1));
            }
            i += 1;
        } else if bytes[i] == 0x7e {
            proof {
                lemma_a85_end(bytes@, i as int);
                lemma_a85_end(bytes@, len as int);
            }
            i = len;
        } else {
            let n = if len - i < 5 {
                len - i
            } else {
                5
            };
            proof {
                lemma_a85_step(bytes@, i as int, n as int);
            }
            match a85_group(&bytes, i, n) {
                Err(bad) => {
                    return Err(Error::Container(a85_error(bad)));
                },
                Ok(out) => {
                    let mut q: usize = 0;
                    while q < out.len()
                        invariant
                            q <= out@.len(),
                            result@ =~= before + out@.take(q as int),
                        decreases out.len() - q,
                    {
                        result.push(out[q]);
                        q += 1;
                    }
                    proof {
                        assert(out@.take(out@.len() as int) =~= out@);
                        lemma_prefixed_assoc(before, out@, a85_from(bytes@, i + n));
                    }
                    i += n;
                },
            }
        }
    }
    proof {
        lemma_a85_end(bytes@, len as int);
        assert(result@ + Seq::<u8>::empty() =~= result@);
    }
    Ok(result)
}

/// Decodes the private data of an EPS file (see [`eps_private_spec`]).
pub fn decode_eps_private_data(data: &str) -> (r: Result<String>)
    ensures
        outcome_is(r, eps_private_spec(data@)),
{
    let d = chars_of(data);
    let ls = lines(&d);
    let ghost lv = lines_spec(d@);
    let mut kept: Vec<Vec<char>> = Vec::new();
    let mut i: usize = 0;
    while i < ls.len()
        invariant
            i <= ls@.len(),
            ls@.len() == lv.len(),
            lv == lines_spec(d@),
            forall|j: int| 0 <= j < ls@.len() ==> #[trigger] ls@[j]@ == lv[j],
            views(kept@) == eps_kept(lv, i as int),
        decreases ls.len() - i,
    {
        let t = trim(&ls[i]);
        let ghost before = views(kept@);
        if starts_with_lit(&t, "%%") {
        } else if t.len() > 0 && t[0] == '%' {
            let rest = copy_range(&t, 1, t.len());
            assert(rest@ =~= t@.skip(1));
            kept.push(rest);
            assert(views(kept@) =~= before.push(t@.skip(1)));
        } else {
            kept.push(t);
            assert(views(kept@) =~= before.push(t@));
        }
        i += 1;
    }
    let nl = ['\n'];
    assert(nl@ =~= seq!['\n']);
    let result = join(&kept, &nl);
    let tr = trim(&result);
    if starts_with_lit(&tr, "<~") {
        let decoded = decode_ascii85(string_of(&tr).as_str())?;
        if decoded.len() >= 2 && ((decoded[0] == 0x78 && (decoded[1] == 0x9c || decoded[1] == 0x01
            || decoded[1] == 0xda)) || (decoded.len() > 2 && decoded[0] == 0x78 && decoded[1]
            == 0x5e)) {
            let decompressed = safe_zlib_decompress(&decoded, MAX_DECOMPRESS_BYTES)?;
            return Ok(utf8_lossy(&decompressed));
        }
        return Ok(utf8_lossy(&decoded));
    }
    Ok(string_of(&result))
}

/// The bytes of an ASCII literal.
fn ascii_bytes(lit: &str) -> (r: Vec<u8>)
    ensures
        r@ == ascii_of(lit@),
{
    let cs = chars_of(lit);
    let mut r: Vec<u8> = Vec::new();
    let mut i: usize = 0;
    while i < cs.len()
        invariant
            i <= cs@.len(),
            cs@ == lit@,
            r@ =~= ascii_of(cs@.take(i as int)),
        decreases cs.len() - i,
    {
        r.push(cs[i] as u8);
        proof {
            assert(ascii_of(cs@.take(i + 1)) =~= ascii_of(cs@.take(i as int)).push(cs@[i as int] as u8));
        }
        i += 1;
    }
    proof {
        assert(cs@.take(cs@.len() as int) =~= cs@);
    }
    r
}

/// The first position of `pat` in the bytes `s`, as [`find_spec`] states.
fn find_bytes(s: &[u8], pat: &[u8]) -> (r: Option<usize>)
    ensures
        match r {
            Some(i) => find_spec(s@, pat@) == Some(i as int) && occurs_at(s@, pat@, i as int),
            None => find_spec(s@, pat@) is None,
        },
{
    let mut i: usize = 0;
    while i <= s.len()
        invariant
            i <= s.len() + 1,
            forall|j: int| 0 <= j < i ==> !occurs_at(s@, pat@, j),
        decreases s.len() + 1 - i,
    {
        if bytes_match_at(s, pat, i) {
            proof {
                lemma_find_spec_first(s@, pat@, i as int);
            }
            return Some(i);
        }
        if i == s.len() {
            proof {
                assert forall|j: int| !occurs_at(s@, pat@, j) by {
                    if j > s@.len() {
                    }
                }
                lemma_find_spec_none(s@, pat@);
            }
            return None;
        }
        i += 1;
    }
    proof {
        lemma_find_spec_none(s@, pat@);
    }
    None
}

/// The position of the ASCII literal `lit` in the bytes `s`.
fn find_ascii(s: &[u8], lit: &str) -> (r: Option<usize>)
    ensures
        match r {
            Some(i) => find_spec(s@, ascii_of(lit@)) == Some(i as int) && occurs_at(s@, ascii_of(lit@), i as int),
            None => find_spec(s@, ascii_of(lit@)) is None,
        },
{
    let p = ascii_bytes(lit);
    find_bytes(s, &p)
}

/// The PGF section of the bytes of a PDF file (see [`pdf_section_bytes`]).
fn pdf_section_of(raw: &[u8]) -> (r: Option<Vec<u8>>)
    ensures
        match r {
            Some(sec) => pdf_section_bytes(raw@) == Some(sec@),
            None => pdf_section_bytes(raw@) is None,
        },
{
    let start = match min_opt(find_ascii(raw, "%AI5_BeginLayer"), find_ascii(raw, "%%EndSetup")) {
        Some(pos) => pos,
        None => match find_ascii(raw, "%AI5_") {
            Some(pos) => pos,
            None => {
                return None;
            },
        },
    };
    proof {
        lemma_find_spec_some(raw@, ascii_of("%AI5_BeginLayer"@));
        lemma_find_spec_some(raw@, ascii_of("%%EndSetup"@));
        lemma_find_spec_some(raw@, ascii_of("%AI5_"@));
    }
    let content = copy_range(raw, start, raw.len());
    assert(content@ =~= raw@.skip(start as int));
    match min_opt(find_ascii(&content, "%%EOF"), find_ascii(&content, "%AI5_EndLayer--")) {
        Some(end) => {
            proof {
                lemma_find_spec_some(content@, ascii_of("%%EOF"@));
                lemma_find_spec_some(content@, ascii_of("%AI5_EndLayer--"@));
            }
            let r = copy_range(&content, 0, end);
            assert(r@ =~= content@.take(end as int));
            Some(r)
        },
        None => Some(content),
    }
}

/// The script part of the bytes of a PostScript file (see
/// [`script_section_bytes`]).
fn script_section_of(b: &[u8]) -> (r: Vec<u8>)
    ensures
        r@ == script_section_bytes(b@),
{
    proof {
        lemma_find_spec_some(b@, ascii_of("%%EndSetup"@));
        lemma_find_spec_some(b@, ascii_of("%AI5_BeginLayer"@));
        lemma_find_spec_some(b@, ascii_of("%%BeginScript"@));
        lemma_find_spec_some(b@, ascii_of("%%EndProlog"@));
    }
    let pos = match find_ascii(b, "%%EndSetup") {
        Some(p) => p,
        None => match find_ascii(b, "%AI5_BeginLayer") {
            Some(p) => p,
            None => match find_ascii(b, "%%BeginScript") {
                Some(p) => p,
                None => match find_ascii(b, "%%EndProlog") {
                    Some(p) => p,
                    None => 0,
                },
            },
        },
    };
    let r = copy_range(b, pos, b.len());
    assert(r@ =~= b@.skip(pos as int));
    r
}

/// Expands inline AI12 compression in PGF bytes (see [`expand_ai12_bytes`]).
fn expand_ai12_of(b: &[u8]) -> (r: String)
    ensures
        r@ == expand_ai12_bytes(b@),
{
    match find_ascii(b, "%AI12_CompressedData") {
        None => utf8_lossy(b),
        Some(pos) => {
            proof {
                reveal_strlit("%AI12_CompressedData");
                assert(ascii_of("%AI12_CompressedData"@).len() == 20);
            }
            assert(pos + 20 <= b.len());
            let start: usize = pos + 20;
            let tail = copy_range(b, start, b.len());
            assert(tail@ =~= b@.skip(pos + 20));
            match zlib_read(&tail, MAX_DECOMPRESS_BYTES as u64) {
                Ok(d) => {
                    let head = copy_range(b, 0, pos);
                    assert(head@ =~= b@.take(pos as int));
                    let prefix = chars_of(utf8_lossy(&head).as_str());
                    ai12_join(&prefix, &d)
                },
                Err(_) => utf8_lossy(b),
            }
        },
    }
}

/// Decodes PGF bytes (see [`decode_pgf_bytes_spec`]).
pub fn decode_pgf_bytes(b: &[u8]) -> (r: Result<String>)
    ensures
        outcome_is(r, decode_pgf_bytes_spec(b@)),
{
    let marker = ascii_bytes("%AI24_ZStandard_Data");
    proof {
        reveal_strlit("%AI24_ZStandard_Data");
        assert(marker@.len() == 20);
    }
    if bytes_start_with(b, &marker) {
        let tail = copy_range(b, 20, b.len());
        assert(tail@ =~= b@.skip(20));
        return decode_zstandard(&tail);
    }
    if b.len() >= 2 && b[0] == 0x78 && (b[1] == 0x9c || b[1] == 0x01 || b[1] == 0xda) {
        return match safe_zlib_decompress(b, MAX_DECOMPRESS_BYTES) {
            Ok(decompressed) => Ok(utf8_lossy(&decompressed)),
            Err(e) => Err(e),
        };
    }
    Ok(expand_ai12_of(b))
}

/// The PGF of a PDF file (see [`pdf_section_bytes`] and
/// [`decode_pgf_bytes_spec`]).
fn extract_from_pdf(raw: &[u8]) -> (r: Result<String>)
    ensures
        outcome_is(r, match pdf_section_bytes(raw@) {
            None => Err(failure(ErrorKind::Container, "No PGF data found in PDF"@)),
            Some(sec) => decode_pgf_bytes_spec(sec),
        }),
{
    match pdf_section_of(raw) {
        None => Err(Error::Container("No PGF data found in PDF".to_owned())),
        Some(section) => decode_pgf_bytes(&section),
    }
}

fn read_le32(raw: &[u8], at: usize) -> (v: u64)
    requires
        at + 4 <= raw@.len(),
    ensures
        v as int == le32(raw@, at as int),
{
    raw[at] as u64 + raw[at + 1] as u64 * 0x100 + raw[at + 2] as u64 * 0x1_0000 + raw[at + 3] as u64
        * 0x100_0000
}

/// The PGF of an EPS file (see [`eps_spec`]).
fn extract_from_eps(raw: &[u8]) -> (r: Result<String>)
    ensures
        outcome_is(r, eps_spec(raw@)),
{
    let n = raw.len();
    let text_string = if n >= 4 && raw[0] == 0xc5 && raw[1] == 0xd0 && raw[2] == 0xd3 && raw[3]
        == 0xc6 {
        assert(raw@.take(4) =~= eps_magic());
        if n < 12 {
            return Err(Error::Container("Truncated DOS EPS header".to_owned()));
        }
        let ps_offset = read_le32(raw, 4);
        let ps_length = read_le32(raw, 8);
        if ps_offset + ps_length > n as u64 {
            return Err(Error::Container("EPS offset/length out of bounds".to_owned()));
        }
        let section = copy_range(raw, ps_offset as usize, (ps_offset + ps_length) as usize);
        utf8_lossy(&section)
    } else {
        proof {
            if n >= 4 && raw@.take(4) == eps_magic() {
                assert(raw@.take(4)[0] == raw@[0]);
                assert(raw@.take(4)[1] == raw@[1]);
                assert(raw@.take(4)[2] == raw@[2]);
                assert(raw@.take(4)[3] == raw@[3]);
            }
        }
        utf8_lossy(raw)
    };
    let text = chars_of(text_string.as_str());
    let text_len = text.len();
    let marker = chars_of("%AI9_PrivateDataBegin");
    if let Some(marker_pos) = find(&text, &marker) {
        let section = copy_range(&text, marker_pos + marker.len(), text.len());
        assert(section@ =~= text@.skip(marker_pos + marker@.len()));
        let end = match find_lit(&section, "%AI9_PrivateDataEnd") {
            Some(e) => e,
            None => section.len(),
        };
        let private_data = string_of_range(&section, 0, end);
        assert(private_data@ =~= section@.take(end as int));
        return decode_eps_private_data(private_data.as_str());
    }
    Ok(extract_script_section(text_string.as_str()))
}

/// The PGF of a plain PostScript file: its script section, decoded.
fn extract_from_postscript(raw: &[u8]) -> (r: Result<String>)
    ensures
        outcome_is(r, decode_pgf_bytes_spec(script_section_bytes(raw@))),
{
    let section = script_section_of(raw);
    decode_pgf_bytes(&section)
}

/// The PGF program held by the bytes of an `.ai` file (see [`extract_spec`]).
pub fn extract_pgf_from_bytes(raw: &[u8]) -> (r: Result<String>)
    ensures
        outcome_is(r, extract_spec(raw@)),
{
    let format = detect_format(raw)?;
    match format {
        AiFormat::Pdf => extract_from_pdf(raw),
        AiFormat::Eps => extract_from_eps(raw),
        AiFormat::PostScript => extract_from_postscript(raw),
    }
}

impl AiContainer {
    /// A container for the file at `path`, taken to be PostScript until its
    /// bytes are examined.
    pub fn new(path: PathBuf) -> (c: Self)
        ensures
            c.path == path,
            c.format == AiFormat::PostScript,
    {
        AiContainer { path, format: AiFormat::PostScript }
    }

    /// The PGF program of this container, given `raw`, the bytes read from
    /// the file at `self.path`.
    pub fn extract(&self, raw: &[u8]) -> (r: Result<String>)
        ensures
            outcome_is(r, extract_spec(raw@)),
    {
        extract_pgf_from_bytes(raw)
    }
}

} // verus!
