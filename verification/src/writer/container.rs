//! Placing a PGF program into an `.ai` container: chunking it as Illustrator
//! stores private data, and splicing it into the text of an original file.
use vstd::prelude::*;
use vstd::utf8::encode_utf8;

use crate::error::{failure, outcome_is, Error, ErrorKind, Failure, Result};
use crate::parser::container::min_found;
use crate::text::{chars_of, copy_range, decimal_spec, find, find_spec, lemma_find_spec_some, occurs_at, join, join_spec, lossy_utf8, push_char, push_chars, push_decimal, push_str, string_of, utf8_lossy, views};

verus! {

/// The size of the chunks in which PGF data is stored.
pub const DEFAULT_CHUNK_SIZE: usize = 64 * 1024;

/// `b` cut into pieces of `size` bytes, the last one possibly shorter; data
/// of at most `size` bytes stays one piece (an empty one where `b` is empty).
pub open spec fn chunks_spec(b: Seq<u8>, size: nat) -> Seq<Seq<u8>>
    decreases b.len(),
{
    if size == 0 || b.len() <= size {
        seq![b]
    } else {
        seq![b.take(size as int)] + chunks_spec(b.skip(size as int), size)
    }
}

/// The bytes of a list of pieces, one after the other.
pub open spec fn concat_all(cs: Seq<Seq<u8>>) -> Seq<u8>
    decreases cs.len(),
{
    if cs.len() == 0 {
        seq![]
    } else {
        cs[0] + concat_all(cs.drop_first())
    }
}

/// The byte views of a list of byte vectors.
pub open spec fn byte_views(v: Seq<Vec<u8>>) -> Seq<Seq<u8>> {
    Seq::new(v.len(), |i: int| v[i]@)
}

/// Chunking loses nothing and respects the size: the chunks, one after the
/// other, are the data; there is at least one; each holds at most `size`
/// bytes; none but a single chunk of empty data is empty.
pub proof fn chunks_law(b: Seq<u8>, size: nat)
    requires
        size > 0,
    ensures
        concat_all(chunks_spec(b, size)) == b,
        chunks_spec(b, size).len() >= 1,
        forall|i: int|
            0 <= i < chunks_spec(b, size).len() ==> #[trigger] chunks_spec(b, size)[i].len() <= size,
        forall|i: int|
            0 <= i < chunks_spec(b, size).len() - 1 ==> #[trigger] chunks_spec(b, size)[i].len()
                == size,
        b.len() > 0 ==> forall|i: int|
            0 <= i < chunks_spec(b, size).len() ==> #[trigger] chunks_spec(b, size)[i].len() > 0,
    decreases b.len(),
{
    let cs = chunks_spec(b, size);
    if b.len() <= size {
        assert(concat_all(cs.drop_first()) == Seq::<u8>::empty());
        assert(b + Seq::<u8>::empty() =~= b);
    } else {
        let rest = chunks_spec(b.skip(size as int), size);
        chunks_law(b.skip(size as int), size);
        assert(cs.drop_first() =~= rest);
        assert(b.take(size as int) + b.skip(size as int) =~= b);
        assert forall|i: int| 0 <= i < cs.len() implies #[trigger] cs[i].len() <= size by {
            if i > 0 {
                assert(cs[i] == rest[i - 1]);
            }
        }
        assert forall|i: int| 0 <= i < cs.len() - 1 implies #[trigger] cs[i].len() == size by {
            if i > 0 {
                assert(cs[i] == rest[i - 1]);
            }
        }
        assert forall|i: int| 0 <= i < cs.len() implies #[trigger] cs[i].len() > 0 by {
            if i > 0 {
                assert(cs[i] == rest[i - 1]);
            }
        }
    }
}

/// Cuts `data` into chunks of `chunk_size` bytes (see [`chunks_spec`]).
pub fn chunk_pgf_data(data: &[u8], chunk_size: usize) -> (r: Vec<Vec<u8>>)
    requires
        chunk_size > 0 || data@.len() == 0,
    ensures
        byte_views(r@) == chunks_spec(data@, chunk_size as nat),
{
    let total = data.len();
    if total <= chunk_size {
        let whole = copy_range(data, 0, total);
        let mut single: Vec<Vec<u8>> = Vec::new();
        single.push(whole);
        assert(data@.take(total as int) =~= data@);
        assert(byte_views(single@) =~= seq![data@]);
        return single;
    }
    assert(chunk_size > 0);
    let mut chunks: Vec<Vec<u8>> = Vec::new();
    let mut offset: usize = 0;
    assert(data@.skip(0) =~= data@);
    assert(byte_views(chunks@) + chunks_spec(data@, chunk_size as nat) =~= chunks_spec(data@, chunk_size as nat));
    while offset < total
        invariant
            offset <= total,
            total == data@.len(),
            chunk_size > 0,
            offset < total ==> byte_views(chunks@) + chunks_spec(data@.skip(offset as int), chunk_size as nat)
                == chunks_spec(data@, chunk_size as nat),
            offset == total ==> byte_views(chunks@) == chunks_spec(data@, chunk_size as nat),
        decreases total - offset,
    {
        let ghost before = byte_views(chunks@);
        let ghost rest = data@.skip(offset as int);
        let end = if total - offset <= chunk_size {
            total
        } else {
            offset + chunk_size
        };
        let piece = copy_range(data, offset, end);
        chunks.push(piece);
        proof {
            assert(byte_views(chunks@) =~= before.push(piece@));
            if total - offset <= chunk_size {
                assert(piece@ =~= rest);
                assert(chunks_spec(rest, chunk_size as nat) == seq![rest]);
                assert(before + seq![rest] =~= before.push(rest));
            } else {
                assert(piece@ =~= rest.take(chunk_size as int));
                assert(rest.skip(chunk_size as int) =~= data@.skip(end as int));
                assert(chunks_spec(rest, chunk_size as nat) == seq![piece@] + chunks_spec(data@.skip(end as int), chunk_size as nat));
                assert(before + (seq![piece@] + chunks_spec(data@.skip(end as int), chunk_size as nat)) =~= before.push(piece@) + chunks_spec(data@.skip(end as int), chunk_size as nat));
            }
        }
        offset = end;
    }
    chunks
}

/// Bytes read as Latin-1: each byte is the character with that code.
pub open spec fn latin1_spec(data: Seq<u8>) -> Seq<char> {
    Seq::new(data.len(), |i: int| data[i] as char)
}

/// Reads bytes as Latin-1 text; every byte is kept, so the codes of the
/// characters are the bytes again.
pub fn latin1_decode(data: &[u8]) -> (r: String)
    ensures
        r@ == latin1_spec(data@),
        r@.len() == data@.len(),
        forall|i: int| 0 <= i < data@.len() ==> #[trigger] r@[i] as u32 == data@[i] as u32,
{
    let mut s = String::new();
    let mut i: usize = 0;
    while i < data.len()
        invariant
            i <= data@.len(),
            s@ =~= latin1_spec(data@.take(i as int)),
        decreases data.len() - i,
    {
        push_char(&mut s, data[i] as char);
        i += 1;
    }
    assert(data@.take(data@.len() as int) =~= data@);
    s
}

/// The text that replaces the PGF section of an original file: the PGF
/// itself where it fits one chunk, else its chunks, each read as UTF-8 and
/// joined by line breaks.
pub open spec fn chunked_text(pgf: Seq<char>) -> Seq<char> {
    let cs = chunks_spec(encode_utf8(pgf), DEFAULT_CHUNK_SIZE as nat);
    if cs.len() <= 1 {
        pgf
    } else {
        join_spec(Seq::new(cs.len(), |i: int| lossy_utf8(cs[i])), seq!['\n'])
    }
}

/// The text of an original `.ai` file with its PGF section, from the first
/// layer, setup or `%AI5_` marker up to the end-of-file marker after it,
/// replaced by new PGF.
pub open spec fn rebuild_spec(original: Seq<u8>, pgf: Seq<char>) -> std::result::Result<Seq<char>, Failure> {
    let text = latin1_spec(original);
    match min_found(
        min_found(find_spec(text, "%AI5_BeginLayer"@), find_spec(text, "%%EndSetup"@)),
        find_spec(text, "%AI5_"@),
    ) {
        None => Err(failure(ErrorKind::Container, "No PGF content markers found in original file"@)),
        Some(start) => match find_spec(text.skip(start), "%%EOF"@) {
            None => Err(failure(ErrorKind::Container, "No %%EOF found in original file"@)),
            Some(eof) => Ok(text.take(start) + chunked_text(pgf) + text.skip(start + eof)),
        },
    }
}

/// A position reported by [`find_spec`] lies within the text.
proof fn lemma_found_within(s: Seq<char>, pat: Seq<char>)
    ensures
        find_spec(s, pat) matches Some(i) ==> 0 <= i <= s.len(),
{
    lemma_find_spec_some(s, pat);
}

/// Rebuilding keeps the original file outside its PGF section: where it
/// succeeds, the result is that file's text up to some position, then the
/// new PGF (in chunks), then the file's text from a later position
/// on, which begins with the end-of-file marker `%%EOF`.
pub proof fn rebuild_keeps_frame_law(original: Seq<u8>, pgf: Seq<char>)
    ensures
        rebuild_spec(original, pgf) matches Ok(t) ==> exists|start: int, tail: int|
            #![trigger latin1_spec(original).take(start), latin1_spec(original).skip(tail)]
            0 <= start <= tail <= original.len() && t == latin1_spec(original).take(start)
                + chunked_text(pgf) + latin1_spec(original).skip(tail) && "%%EOF"@.is_prefix_of(
                latin1_spec(original).skip(tail),
            ),
{
    let text = latin1_spec(original);
    lemma_found_within(text, "%AI5_BeginLayer"@);
    lemma_found_within(text, "%%EndSetup"@);
    lemma_found_within(text, "%AI5_"@);
    match min_found(
        min_found(find_spec(text, "%AI5_BeginLayer"@), find_spec(text, "%%EndSetup"@)),
        find_spec(text, "%AI5_"@),
    ) {
        None => {},
        Some(start) => {
            let rest = text.skip(start);
            lemma_find_spec_some(rest, "%%EOF"@);
            match find_spec(rest, "%%EOF"@) {
                None => {},
                Some(eof) => {
                    assert(occurs_at(rest, "%%EOF"@, eof));
                    let tail = start + eof;
                    assert(text.skip(tail) =~= rest.skip(eof));
                    assert(rest.skip(eof).subrange(0, "%%EOF"@.len() as int) =~= rest.subrange(
                        eof,
                        eof + "%%EOF"@.len(),
                    ));
                    assert("%%EOF"@.is_prefix_of(text.skip(tail)));
                    assert(text.take(start) == latin1_spec(original).take(start));
                },
            }
        },
    }
}

fn min_pos(a: Option<usize>, b: Option<usize>) -> (r: Option<usize>)
    ensures
        match r {
            Some(x) => min_found(
                match a { Some(y) => Some(y as int), None => None },
                match b { Some(y) => Some(y as int), None => None },
            ) == Some(x as int) && (x == a->0 || x == b->0) && (a is Some || b is Some),
            None => min_found(
                match a { Some(y) => Some(y as int), None => None },
                match b { Some(y) => Some(y as int), None => None },
            ) is None,
        },
{
    match (a, b) {
        (Some(x), Some(y)) => if x <= y {
            Some(x)
        } else {
            Some(y)
        },
        (Some(x), None) => Some(x),
        (None, Some(y)) => Some(y),
        (None, None) => None,
    }
}

/// The text that stands for the new PGF (see [`chunked_text`]).
fn chunked_pgf(pgf_source: &str) -> (r: Vec<char>)
    ensures
        r@ == chunked_text(pgf_source@),
{
    let pgf_chars = chars_of(pgf_source);
    let bytes = pgf_source.as_bytes();
    let chunks = chunk_pgf_data(bytes, DEFAULT_CHUNK_SIZE);
    if chunks.len() <= 1 {
        return pgf_chars;
    }
    let ghost cs = chunks_spec(encode_utf8(pgf_source@), DEFAULT_CHUNK_SIZE as nat);
    let mut parts: Vec<Vec<char>> = Vec::new();
    let mut i: usize = 0;
    while i < chunks.len()
        invariant
            i <= chunks@.len(),
            byte_views(chunks@) == cs,
            views(parts@) =~= Seq::new(i as nat, |k: int| lossy_utf8(cs[k])),
        decreases chunks.len() - i,
    {
        let text = utf8_lossy(&chunks[i]);
        let ghost before = views(parts@);
        parts.push(chars_of(text.as_str()));
        proof {
            assert(chunks@[i as int]@ == cs[i as int]);
            assert(views(parts@) =~= before.push(lossy_utf8(cs[i as int])));
        }
        i += 1;
    }
    let nl = ['\n'];
    assert(nl@ =~= seq!['\n']);
    join(&parts, &nl)
}

/// The text of `original` (the bytes of an `.ai` file) with its PGF section
/// replaced by `pgf_source` (see [`rebuild_spec`]).
pub fn rebuild_with_original(original: &[u8], pgf_source: &str) -> (r: Result<String>)
    ensures
        outcome_is(r, rebuild_spec(original@, pgf_source@)),
{
    let text_string = latin1_decode(original);
    let text = chars_of(text_string.as_str());
    let total = text.len();
    let start = match min_pos(
        min_pos(find(&text, &chars_of("%AI5_BeginLayer")), find(&text, &chars_of("%%EndSetup"))),
        find(&text, &chars_of("%AI5_")),
    ) {
        Some(s) => s,
        None => {
            return Err(Error::Container("No PGF content markers found in original file".to_owned()));
        },
    };
    let after = copy_range(&text, start, total);
    assert(after@ =~= text@.skip(start as int));
    let eof_pos = match find(&after, &chars_of("%%EOF")) {
        Some(p) => p,
        None => {
            return Err(Error::Container("No %%EOF found in original file".to_owned()));
        },
    };
    let chunked = chunked_pgf(pgf_source);
    let head = copy_range(&text, 0, start);
    let tail = copy_range(&after, eof_pos, after.len());
    let mut result = string_of(&head);
    push_chars(&mut result, &chunked);
    push_chars(&mut result, &tail);
    proof {
        assert(head@ =~= text@.take(start as int));
        assert(tail@ =~= text@.skip(start + eof_pos));
    }
    Ok(result)
}

// ---------------------------------------------------------------------------
// A minimal PDF container.
// ---------------------------------------------------------------------------
/// The texts of a list, one after the other.
pub open spec fn concat_text(parts: Seq<Seq<char>>) -> Seq<char>
    decreases parts.len(),
{
    if parts.len() == 0 {
        seq![]
    } else {
        concat_text(parts.drop_last()) + parts.last()
    }
}

/// The number of bytes of the UTF-8 encoding of `s`.
pub open spec fn utf8_len(s: Seq<char>) -> nat {
    encode_utf8(s).len()
}

pub proof fn lemma_encode_utf8_concat(a: Seq<char>, b: Seq<char>)
    ensures
        encode_utf8(a + b) == encode_utf8(a) + encode_utf8(b),
    decreases a.len(),
{
    if a.len() == 0 {
        assert(a + b =~= b);
        assert(encode_utf8(a) + encode_utf8(b) =~= encode_utf8(b));
    } else {
        lemma_encode_utf8_concat(a.drop_first(), b);
        assert((a + b).drop_first() =~= a.drop_first() + b);
        assert((a + b)[0] == a[0]);
        assert(encode_utf8(a + b) =~= encode_utf8(a) + encode_utf8(b));
    }
}

/// `d` padded on the left with zeros to `w` characters.
pub open spec fn zero_pad(d: Seq<char>, w: nat) -> Seq<char> {
    if d.len() >= w {
        d
    } else {
        Seq::new((w - d.len()) as nat, |i: int| '0') + d
    }
}

/// The reference to the `i`-th private data stream (from 1), which is
/// object `i + 3`.
pub open spec fn private_ref(i: nat) -> Seq<char> {
    "/AIPrivateData"@ + decimal_spec(i) + " "@ + decimal_spec(i + 3) + " 0 R"@
}

/// The references to the first `n` private data streams, separated by
/// spaces.
pub open spec fn private_refs(n: nat) -> Seq<char>
    decreases n,
{
    if n == 0 {
        seq![]
    } else if n == 1 {
        private_ref(1)
    } else {
        private_refs((n - 1) as nat) + " "@ + private_ref(n)
    }
}

/// The page object: a page of `w` by `h` points whose Illustrator piece
/// information points at `n` private data streams.
pub open spec fn page_object(w: nat, h: nat, n: nat) -> Seq<char> {
    "3 0 obj\n<< /Type /Page /Parent 2 0 R /MediaBox [0 0 "@ + decimal_spec(w) + " "@ + decimal_spec(h)
        + "] /PieceInfo << /Illustrator << /Private << "@ + private_refs(n) + " >> >> >>\nendobj"@
}

/// The `k`-th private data stream object (from 0), object `k + 4`: the
/// chunk's byte length, then the chunk read as UTF-8.
pub open spec fn stream_object(k: nat, chunk: Seq<u8>) -> Seq<char> {
    decimal_spec(k + 4) + " 0 obj\n<< /Length "@ + decimal_spec(chunk.len()) + " >>\nstream\n"@
        + lossy_utf8(chunk) + "endstream\nendobj\n"@
}

/// The objects of the file in order, each with the text that follows it:
/// catalog, page tree and page, then one stream per chunk.
pub open spec fn pdf_pieces(chunks: Seq<Seq<u8>>, w: nat, h: nat) -> Seq<Seq<char>> {
    seq![
        "1 0 obj\n<< /Type /Catalog /Pages 2 0 R >>\nendobj\n"@,
        "2 0 obj\n<< /Type /Pages /Kids [3 0 R] /Count 1 >>\nendobj\n"@,
        page_object(w, h, chunks.len()) + "\n"@,
    ] + Seq::new(chunks.len(), |k: int| stream_object(k as nat, chunks[k]))
}

/// The cross-reference entries for objects whose texts start at the byte
/// offsets `offs`.
pub open spec fn xref_entries(offs: Seq<nat>) -> Seq<char>
    decreases offs.len(),
{
    if offs.len() == 0 {
        seq![]
    } else {
        xref_entries(offs.drop_last()) + zero_pad(decimal_spec(offs.last()), 10) + " 00000 n "@
    }
}

/// The byte offset of each piece in a file that starts with `head`.
pub open spec fn piece_offsets(head: Seq<char>, pieces: Seq<Seq<char>>) -> Seq<nat> {
    Seq::new(pieces.len(), |k: int| utf8_len(head + concat_text(pieces.take(k))))
}

/// A minimal PDF file holding PGF data of bytes `pgf`: the header, the
/// objects of [`pdf_pieces`] over the chunks of the data, and the
/// cross-reference table with the trailer.
pub open spec fn minimal_pdf_spec(pgf: Seq<u8>, w: nat, h: nat) -> Seq<char> {
    let chunks = chunks_spec(pgf, DEFAULT_CHUNK_SIZE as nat);
    let pieces = pdf_pieces(chunks, w, h);
    let head = "%PDF-1.5\n"@;
    let body = head + concat_text(pieces);
    let n = pieces.len() + 1;
    body + "xref\n0 "@ + decimal_spec(n) + "\n0000000000 65535 f \n"@ + xref_entries(
        piece_offsets(head, pieces),
    ) + "trailer\n<< /Size "@ + decimal_spec(n) + " /Root 1 0 R >>\nstartxref\n"@ + decimal_spec(
        utf8_len(body),
    ) + "\n%%EOF\n"@
}

/// Each chunk but the last is full, so there are at most as many chunks as
/// fit the data, plus one.
proof fn lemma_chunk_count(b: Seq<u8>, size: nat)
    requires
        size > 0,
    ensures
        chunks_spec(b, size).len() * size <= b.len() + size,
    decreases b.len(),
{
    if b.len() > size {
        let rest = b.skip(size as int);
        assert(rest.len() == b.len() - size);
        lemma_chunk_count(rest, size);
        let r = chunks_spec(rest, size).len();
        assert(chunks_spec(b, size).len() == 1 + r);
        assert((1 + r) * size == size + r * size) by (nonlinear_arith);
    } else {
        assert(chunks_spec(b, size).len() == 1);
    }
}

/// Appends `v` in decimal, padded with zeros to ten digits.
fn push_padded(out: &mut String, v: u64)
    ensures
        final(out)@ == old(out)@ + zero_pad(decimal_spec(v as nat), 10),
{
    let mut d = String::new();
    push_decimal(&mut d, v);
    let dc = chars_of(d.as_str());
    assert(dc@ =~= decimal_spec(v as nat));
    if dc.len() < 10 {
        let mut k: usize = dc.len();
        let ghost o = out@;
        while k < 10
            invariant
                dc@.len() <= k <= 10,
                out@ == o + Seq::new((k - dc@.len()) as nat, |i: int| '0'),
            decreases 10 - k,
        {
            push_char(out, '0');
            proof {
                assert(Seq::new((k + 1 - dc@.len()) as nat, |i: int| '0') =~= Seq::new(
                    (k - dc@.len()) as nat,
                    |i: int| '0',
                ).push('0'));
            }
            k += 1;
        }
        push_chars(out, &dc);
        proof {
            assert(out@ =~= o + zero_pad(decimal_spec(v as nat), 10));
        }
    } else {
        push_chars(out, &dc);
    }
}

/// The offsets of a list, as numbers.
pub open spec fn offsets_view(v: Seq<usize>) -> Seq<nat> {
    v.map_values(|o: usize| o as nat)
}

proof fn lemma_offsets_step(offs: Seq<usize>, x: usize, full: Seq<nat>, i: int)
    requires
        offsets_view(offs) == full.take(i),
        0 <= i < full.len(),
        x as nat == full[i],
    ensures
        offsets_view(offs.push(x)) == full.take(i + 1),
{
    assert(offsets_view(offs).len() == i);
    assert forall|j: int| 0 <= j < i + 1 implies offsets_view(offs.push(x))[j] == full.take(i + 1)[j] by {
        if j < i {
            assert(offs.push(x)[j] == offs[j]);
            assert(offsets_view(offs)[j] == full.take(i)[j]);
        }
    }
    assert(offsets_view(offs.push(x)) =~= full.take(i + 1));
}

/// Appends `piece` to the file text `out` and records where it starts.
fn add_piece(out: &mut String, offs: &mut Vec<usize>, piece: &String)
    ensures
        final(out)@ == old(out)@ + piece@,
        final(offs)@ == old(offs)@.push(final(offs)@.last()),
        final(offs)@.last() as nat == utf8_len(old(out)@),
{
    let at = out.as_str().as_bytes().len();
    offs.push(at);
    push_str(out, piece.as_str());
}

/// The references to the first `n` private data streams (see
/// [`private_refs`]).
fn refs_text(n: usize) -> (r: String)
    requires
        n < usize::MAX - 4,
    ensures
        r@ == private_refs(n as nat),
{
    let mut r = String::new();
    let mut k: usize = 0;
    while k < n
        invariant
            k <= n,
            n < usize::MAX - 4,
            r@ == private_refs(k as nat),
        decreases n - k,
    {
        let ghost before = r@;
        proof {
            reveal_strlit("/AIPrivateData");
            reveal_strlit(" ");
            reveal_strlit(" 0 R");
        }
        if k > 0 {
            push_char(&mut r, ' ');
        }
        push_str(&mut r, "/AIPrivateData");
        push_decimal(&mut r, (k + 1) as u64);
        push_char(&mut r, ' ');
        push_decimal(&mut r, (k + 4) as u64);
        push_str(&mut r, " 0 R");
        proof {
            if k == 0 {
                assert(r@ =~= private_ref(1));
            } else {
                assert(r@ =~= private_refs(k as nat) + " "@ + private_ref((k + 1) as nat));
            }
        }
        k += 1;
    }
    r
}

/// A minimal PDF file holding the PGF program `pgf` in private data
/// streams, for a page of `width` by `height` points (see
/// [`minimal_pdf_spec`]).
pub fn minimal_pdf(pgf: &str, width: u64, height: u64) -> (r: String)
    ensures
        r@ == minimal_pdf_spec(encode_utf8(pgf@), width as nat, height as nat),
{
    proof {
        reveal_strlit("%PDF-1.5\n");
        reveal_strlit("1 0 obj\n<< /Type /Catalog /Pages 2 0 R >>\nendobj\n");
        reveal_strlit("2 0 obj\n<< /Type /Pages /Kids [3 0 R] /Count 1 >>\nendobj\n");
        reveal_strlit("3 0 obj\n<< /Type /Page /Parent 2 0 R /MediaBox [0 0 ");
        reveal_strlit(" ");
        reveal_strlit("] /PieceInfo << /Illustrator << /Private << ");
        reveal_strlit(" >> >> >>\nendobj");
        reveal_strlit("\n");
        reveal_strlit(" 0 obj\n<< /Length ");
        reveal_strlit(" >>\nstream\n");
        reveal_strlit("endstream\nendobj\n");
        reveal_strlit("xref\n0 ");
        reveal_strlit("\n0000000000 65535 f \n");
        reveal_strlit("trailer\n<< /Size ");
        reveal_strlit(" /Root 1 0 R >>\nstartxref\n");
        reveal_strlit("\n%%EOF\n");
    }
    let bytes = pgf.as_bytes();
    let blen = bytes.len();
    let chunks = chunk_pgf_data(bytes, DEFAULT_CHUNK_SIZE);
    let ghost cs = chunks_spec(encode_utf8(pgf@), DEFAULT_CHUNK_SIZE as nat);
    let ghost pieces = pdf_pieces(cs, width as nat, height as nat);
    let ghost head = "%PDF-1.5\n"@;
    let n = chunks.len();
    assert(n == cs.len());
    proof {
        lemma_chunk_count(encode_utf8(pgf@), DEFAULT_CHUNK_SIZE as nat);
        assert(bytes@ == encode_utf8(pgf@));
        assert(bytes@.len() == blen);
        assert(n * 65536 <= usize::MAX + 65536);
        assert(n < usize::MAX - 8) by (nonlinear_arith)
            requires
                n * 65536 <= usize::MAX + 65536,
                usize::MAX >= 0xffff_ffff,
        ;
    }
    let mut out = String::new();
    push_str(&mut out, "%PDF-1.5\n");
    let mut offs: Vec<usize> = Vec::new();
    let p0 = "1 0 obj\n<< /Type /Catalog /Pages 2 0 R >>\nendobj\n".to_owned();
    let p1 = "2 0 obj\n<< /Type /Pages /Kids [3 0 R] /Count 1 >>\nendobj\n".to_owned();
    let mut p2 = String::new();
    push_str(&mut p2, "3 0 obj\n<< /Type /Page /Parent 2 0 R /MediaBox [0 0 ");
    push_decimal(&mut p2, width);
    push_str(&mut p2, " ");
    push_decimal(&mut p2, height);
    push_str(&mut p2, "] /PieceInfo << /Illustrator << /Private << ");
    let refs = refs_text(n);
    push_str(&mut p2, refs.as_str());
    push_str(&mut p2, " >> >> >>\nendobj");
    push_str(&mut p2, "\n");
    proof {
        assert(out@ =~= head);
        assert(p0@ == pieces[0]);
        assert(p1@ == pieces[1]);
        assert(p2@ =~= pieces[2]);
        assert(pieces.take(0) =~= Seq::<Seq<char>>::empty());
    }
    proof {
        assert(concat_text(pieces.take(0)) =~= Seq::<char>::empty());
        assert(out@ =~= head + concat_text(pieces.take(0)));
        assert(offsets_view(offs@) =~= piece_offsets(head, pieces).take(0));
    }
    let ghost o0 = offs@;
    add_piece(&mut out, &mut offs, &p0);
    proof {
        lemma_offsets_step(o0, offs@.last(), piece_offsets(head, pieces), 0);
        assert(pieces.take(1).drop_last() =~= pieces.take(0));
        assert(out@ =~= head + concat_text(pieces.take(1)));
    }
    let ghost o1 = offs@;
    add_piece(&mut out, &mut offs, &p1);
    proof {
        lemma_offsets_step(o1, offs@.last(), piece_offsets(head, pieces), 1);
        assert(pieces.take(2).drop_last() =~= pieces.take(1));
        assert(out@ =~= head + concat_text(pieces.take(2)));
    }
    let ghost o2 = offs@;
    add_piece(&mut out, &mut offs, &p2);
    proof {
        lemma_offsets_step(o2, offs@.last(), piece_offsets(head, pieces), 2);
        assert(pieces.take(3).drop_last() =~= pieces.take(2));
        assert(out@ =~= head + concat_text(pieces.take(3)));
    }
    let mut k: usize = 0;
    while k < n
        invariant
            k <= n,
            n == cs.len(),
            n == chunks@.len(),
            byte_views(chunks@) == cs,
            pieces == pdf_pieces(cs, width as nat, height as nat),
            out@ == head + concat_text(pieces.take(k + 3)),
            offsets_view(offs@) == piece_offsets(head, pieces).take(k + 3),
            n < usize::MAX - 8,
        decreases n - k,
    {
        proof {
            reveal_strlit(" 0 obj\n<< /Length ");
            reveal_strlit(" >>\nstream\n");
            reveal_strlit("endstream\nendobj\n");
        }
        let chunk = &chunks[k];
        let mut piece = String::new();
        push_decimal(&mut piece, (k + 4) as u64);
        push_str(&mut piece, " 0 obj\n<< /Length ");
        push_decimal(&mut piece, chunk.len() as u64);
        push_str(&mut piece, " >>\nstream\n");
        let text = utf8_lossy(chunk);
        push_str(&mut piece, text.as_str());
        push_str(&mut piece, "endstream\nendobj\n");
        proof {
            assert(chunk@ == cs[k as int]);
            assert(piece@ =~= stream_object(k as nat, cs[k as int]));
            assert(pieces[k + 3] == stream_object(k as nat, cs[k as int]));
            assert(pieces.take(k + 4).drop_last() =~= pieces.take(k + 3));
        }
        let ghost ok = offs@;
        add_piece(&mut out, &mut offs, &piece);
        proof {
            lemma_offsets_step(ok, offs@.last(), piece_offsets(head, pieces), k + 3);
            assert(out@ =~= head + concat_text(pieces.take(k + 4)));
        }
        k += 1;
    }
    proof {
        assert(pieces.take(n + 3) =~= pieces);
        assert(piece_offsets(head, pieces).take(n + 3) =~= piece_offsets(head, pieces));
    }
    let body_len = out.as_str().as_bytes().len();
    let total = n + 4;
    let ghost body = out@;
    push_str(&mut out, "xref\n0 ");
    push_decimal(&mut out, total as u64);
    push_str(&mut out, "\n0000000000 65535 f \n");
    let ghost offm = piece_offsets(head, pieces);
    let ghost before_entries = out@;
    let mut i: usize = 0;
    proof {
        assert(offm.take(0) =~= Seq::<nat>::empty());
        assert(out@ =~= before_entries + xref_entries(offm.take(0)));
    }
    while i < offs.len()
        invariant
            i <= offs@.len(),
            offsets_view(offs@) == offm,
            out@ == before_entries + xref_entries(offm.take(i as int)),
        decreases offs.len() - i,
    {
        push_padded(&mut out, offs[i] as u64);
        push_str(&mut out, " 00000 n ");
        proof {
            reveal_strlit(" 00000 n ");
            assert(offm.take(i + 1).drop_last() =~= offm.take(i as int));
            assert(offm[i as int] == offs@[i as int] as nat);
            assert(out@ =~= before_entries + xref_entries(offm.take(i + 1)));
        }
        i += 1;
    }
    proof {
        assert(offm.take(offs@.len() as int) =~= offm);
    }
    proof {
        reveal_strlit("trailer\n<< /Size ");
        reveal_strlit(" /Root 1 0 R >>\nstartxref\n");
        reveal_strlit("\n%%EOF\n");
    }
    push_str(&mut out, "trailer\n<< /Size ");
    push_decimal(&mut out, total as u64);
    push_str(&mut out, " /Root 1 0 R >>\nstartxref\n");
    push_decimal(&mut out, body_len as u64);
    push_str(&mut out, "\n%%EOF\n");
    proof {
        assert(out@ =~= minimal_pdf_spec(encode_utf8(pgf@), width as nat, height as nat));
    }
    out
}

} // verus!
