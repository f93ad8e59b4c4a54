//! Encoding and decoding of clipboard image payloads: base64, PNG, and the
//! `data:image/png;base64,` URI form in which image history entries travel.
//!
//! The base64 and PNG transforms themselves are performed by outside code
//! behind trusted wrappers whose results are named; everything around them —
//! URI assembly and parsing, media-type detection — is verified byte logic.

use vstd::prelude::*;
use base64::Engine;

verus! {

/// The longest byte input the base64 wrapper accepts: generously below the
/// length at which computing the encoded size could overflow.
pub const MAX_B64_INPUT_LEN: usize = 0x3FFF_FFFF;

/// The base64 standard-alphabet padded encoding of a byte sequence, as the
/// ASCII bytes of the encoded text.
pub uninterp spec fn b64_encoding_of(bytes: Seq<u8>) -> Seq<u8>;

/// What base64 standard-alphabet decoding yields for the ASCII bytes of an
/// encoded text: the decoded bytes, or `None` where the text is not a valid
/// encoding.
pub uninterp spec fn b64_decoding_of(text: Seq<u8>) -> Option<Seq<u8>>;

/// Relies on `base64::engine::Engine::encode` with the `STANDARD` engine:
/// the output depends on the input bytes alone, a padded encoding is four
/// output characters for every three input bytes, decoding an encoding
/// returns the input bytes, and the output draws on the standard
/// alphabet and the padding sign alone — never a comma. The length bound
/// keeps the encoded size computation from overflowing, on which the
/// engine panics.
#[verifier::external_body]
pub(crate) fn b64_encode(bytes: &Vec<u8>) -> (r: Vec<u8>)
    requires
        bytes@.len() <= MAX_B64_INPUT_LEN,
    ensures
        r@ == b64_encoding_of(bytes@),
        r@.len() == 4 * ((bytes@.len() + 2) / 3),
        b64_decoding_of(r@) == Some(bytes@),
        forall|i: int| 0 <= i < r@.len() ==> r@[i] != (',' as u8),
{
    base64::engine::general_purpose::STANDARD.encode(bytes).into_bytes()
}

/// Relies on `base64::engine::Engine::decode` with the `STANDARD` engine:
/// success and the decoded bytes depend on the input text alone.
#[verifier::external_body]
pub(crate) fn b64_decode(text: &Vec<u8>) -> (r: Option<Vec<u8>>)
    ensures
        r is Some <==> b64_decoding_of(text@) is Some,
        r is Some ==> Some(r->0@) == b64_decoding_of(text@),
{
    base64::engine::general_purpose::STANDARD.decode(text).ok()
}

/// True when `needle` occurs in `hay` starting at offset `i`.
pub open spec fn spec_match_at(hay: Seq<u8>, needle: Seq<u8>, i: int) -> bool {
    0 <= i && i + needle.len() <= hay.len() && hay.subrange(i, i + needle.len()) == needle
}

/// True when `needle` occurs somewhere in `hay`.
pub open spec fn spec_contains_seq(hay: Seq<u8>, needle: Seq<u8>) -> bool {
    exists|i: int| spec_match_at(hay, needle, i)
}

fn matches_at(hay: &[u8], needle: &[u8], i: usize) -> (r: bool)
    requires
        i + needle@.len() <= hay@.len(),
    ensures
        r == spec_match_at(hay@, needle@, i as int),
{
    let n = needle.len();
    let hl = hay.len();
    let mut j: usize = 0;
    while j < n
        invariant
            n == needle@.len(),
            hl == hay@.len(),
            i + n <= hl,
            j <= n,
            forall|k: int| 0 <= k < j ==> hay@[i + k] == needle@[k],
        decreases n - j,
    {
        if hay[i + j] != needle[j] {
            proof {
                assert(hay@.subrange(i as int, i + needle@.len())[j as int] == hay@[i + j]);
            }
            return false;
        }
        j += 1;
    }
    proof {
        assert(hay@.subrange(i as int, i + needle@.len()) =~= needle@);
    }
    true
}

/// Whether `needle` occurs as a contiguous run of bytes anywhere in `hay`.
pub fn contains_bytes(hay: &[u8], needle: &[u8]) -> (r: bool)
    ensures
        r == spec_contains_seq(hay@, needle@),
{
    let n = needle.len();
    let hl = hay.len();
    if n > hl {
        return false;
    }
    if n == 0 {
        proof {
            assert(hay@.subrange(0, 0) =~= needle@);
            assert(spec_match_at(hay@, needle@, 0));
        }
        return true;
    }
    let last = hl - n;
    let mut i: usize = 0;
    while i <= last
        invariant
            n == needle@.len(),
            hl == hay@.len(),
            1 <= n <= hl,
            last == hl - n,
            i <= last + 1,
            forall|j: int| 0 <= j < i ==> !spec_match_at(hay@, needle@, j),
        decreases last + 1 - i,
    {
        if matches_at(hay, needle, i) {
            return true;
        }
        i += 1;
    }
    false
}

/// The leading bytes of a PNG data URI: `data:image/png;base64,`.
pub open spec fn spec_png_data_uri_prefix() -> Seq<u8> {
    seq![
        ('d' as u8), ('a' as u8), ('t' as u8), ('a' as u8), (':' as u8), ('i' as u8), ('m' as u8), ('a' as u8), ('g' as u8), ('e' as u8), ('/' as u8), ('p' as u8), ('n' as u8), ('g' as u8),
        (';' as u8), ('b' as u8), ('a' as u8), ('s' as u8), ('e' as u8), ('6' as u8), ('4' as u8), (',' as u8),
    ]
}

/// The data URI carrying a PNG image: the fixed prefix followed by the
/// base64 encoding of the PNG bytes.
pub open spec fn spec_png_data_uri(png: Seq<u8>) -> Seq<u8> {
    spec_png_data_uri_prefix() + b64_encoding_of(png)
}

/// Builds the fixed `data:image/png;base64,` prefix.
pub fn png_data_uri_prefix() -> (r: Vec<u8>)
    ensures
        r@ == spec_png_data_uri_prefix(),
{
    let mut v: Vec<u8> = Vec::new();
    v.push(('d' as u8));
    v.push(('a' as u8));
    v.push(('t' as u8));
    v.push(('a' as u8));
    v.push((':' as u8));
    v.push(('i' as u8));
    v.push(('m' as u8));
    v.push(('a' as u8));
    v.push(('g' as u8));
    v.push(('e' as u8));
    v.push(('/' as u8));
    v.push(('p' as u8));
    v.push(('n' as u8));
    v.push(('g' as u8));
    v.push((';' as u8));
    v.push(('b' as u8));
    v.push(('a' as u8));
    v.push(('s' as u8));
    v.push(('e' as u8));
    v.push(('6' as u8));
    v.push(('4' as u8));
    v.push((',' as u8));
    proof {
        assert(v@ =~= spec_png_data_uri_prefix());
    }
    v
}

/// Wraps already-encoded PNG bytes in a `data:image/png;base64,` URI. The
/// encoded payload holds no comma, so the URI splits back at the prefix's
/// comma into the PNG metadata and a payload that decodes to the input.
pub fn make_png_data_uri(png: &Vec<u8>) -> (r: Vec<u8>)
    requires
        png@.len() <= MAX_B64_INPUT_LEN,
    ensures
        r@ == spec_png_data_uri(png@),
        forall|i: int|
            0 <= i < b64_encoding_of(png@).len() ==> #[trigger] b64_encoding_of(png@)[i] != (
            ',' as u8),
        b64_decoding_of(b64_encoding_of(png@)) == Some(png@),
{
    let mut v = png_data_uri_prefix();
    let b64 = b64_encode(png);
    v.extend_from_slice(b64.as_slice());
    v
}

/// A PNG data URI splits exactly where it was assembled: the first comma is
/// the prefix's own, so the payload is the full encoded PNG, provided the
/// encoding itself holds no comma.
pub proof fn lemma_split_png_data_uri(b64: Seq<u8>)
    requires
        forall|i: int| 0 <= i < b64.len() ==> b64[i] != (',' as u8),
    ensures
        spec_split_data_uri(spec_png_data_uri_prefix() + b64) == Some(
            (spec_png_data_uri_prefix().subrange(0, 21), b64),
        ),
{
    let uri = spec_png_data_uri_prefix() + b64;
    assert(uri[21] == (',' as u8));
    assert(forall|j: int| 0 <= j < 21 ==> uri[j] != (',' as u8));
    uri.index_of_first_ensures(',' as u8);
    assert(uri.index_of_first(',' as u8) == Some(21int));
    assert(uri.subrange(0, 21) =~= spec_png_data_uri_prefix().subrange(0, 21));
    assert(uri.subrange(22, uri.len() as int) =~= b64);
}

/// Where a data URI splits: at its first comma, into the metadata part
/// (scheme and media type) and the encoded payload. `None` when no comma
/// occurs, in which case the input is not a data URI at all.
pub open spec fn spec_split_data_uri(uri: Seq<u8>) -> Option<(Seq<u8>, Seq<u8>)> {
    match uri.index_of_first(',' as u8) {
        Some(i) => Some((uri.subrange(0, i), uri.subrange(i + 1, uri.len() as int))),
        None => None,
    }
}

/// Splits a data URI at its first comma into the metadata part (scheme and
/// media type) and the encoded payload. `None` when no comma occurs, in
/// which case the input is not a data URI at all.
pub fn split_data_uri(uri: &[u8]) -> (r: Option<(Vec<u8>, Vec<u8>)>)
    ensures
        r is Some <==> spec_split_data_uri(uri@) is Some,
        r is Some ==> spec_split_data_uri(uri@) == Some(((r->0).0@, (r->0).1@)),
        r is Some ==> (uri@ == (r->0).0@ + seq![(',' as u8)] + (r->0).1@ && !(r->0).0@.contains((',' as u8))),
        r is None ==> !uri@.contains((',' as u8)),
{
    let n = uri.len();
    let mut i: usize = 0;
    while i < n
        invariant
            n == uri@.len(),
            i <= n,
            forall|j: int| 0 <= j < i ==> uri@[j] != (',' as u8),
        decreases n - i,
    {
        if uri[i] == (',' as u8) {
            let meta = vstd::slice::slice_to_vec(vstd::slice::slice_subrange(uri, 0, i));
            let payload = vstd::slice::slice_to_vec(vstd::slice::slice_subrange(uri, i + 1, n));
            proof {
                uri@.index_of_first_ensures(',' as u8);
                assert(uri@.index_of_first(',' as u8) == Some(i as int));
                assert(uri@ =~= meta@ + seq![(',' as u8)] + payload@);
                assert(forall|j: int| 0 <= j < meta@.len() ==> meta@[j] != (',' as u8));
            }
            return Some((meta, payload));
        }
        i += 1;
    }
    proof {
        uri@.index_of_first_ensures(',' as u8);
        assert(forall|j: int| 0 <= j < uri@.len() ==> uri@[j] != (',' as u8));
    }
    None
}

/// The bytes of the media type `image/jpeg`.
pub open spec fn spec_jpeg_mime() -> Seq<u8> {
    seq![('i' as u8), ('m' as u8), ('a' as u8), ('g' as u8), ('e' as u8), ('/' as u8), ('j' as u8), ('p' as u8), ('e' as u8), ('g' as u8)]
}

/// The bytes of the media type `image/jpg`, a common nonstandard alias.
pub open spec fn spec_jpg_mime() -> Seq<u8> {
    seq![('i' as u8), ('m' as u8), ('a' as u8), ('g' as u8), ('e' as u8), ('/' as u8), ('j' as u8), ('p' as u8), ('g' as u8)]
}

/// A data URI metadata part announces a JPEG payload when it mentions
/// either spelling of the JPEG media type.
pub open spec fn spec_meta_is_jpeg(meta: Seq<u8>) -> bool {
    spec_contains_seq(meta, spec_jpeg_mime()) || spec_contains_seq(meta, spec_jpg_mime())
}

/// Whether a data URI metadata part announces a JPEG payload.
pub fn meta_is_jpeg(meta: &[u8]) -> (r: bool)
    ensures
        r == spec_meta_is_jpeg(meta@),
{
    let mut jpeg: Vec<u8> = Vec::new();
    jpeg.push(('i' as u8));
    jpeg.push(('m' as u8));
    jpeg.push(('a' as u8));
    jpeg.push(('g' as u8));
    jpeg.push(('e' as u8));
    jpeg.push(('/' as u8));
    jpeg.push(('j' as u8));
    jpeg.push(('p' as u8));
    jpeg.push(('e' as u8));
    jpeg.push(('g' as u8));
    proof {
        assert(jpeg@ =~= spec_jpeg_mime());
    }
    if contains_bytes(meta, jpeg.as_slice()) {
        return true;
    }
    let mut jpg: Vec<u8> = Vec::new();
    jpg.push(('i' as u8));
    jpg.push(('m' as u8));
    jpg.push(('a' as u8));
    jpg.push(('g' as u8));
    jpg.push(('e' as u8));
    jpg.push(('/' as u8));
    jpg.push(('j' as u8));
    jpg.push(('p' as u8));
    jpg.push(('g' as u8));
    proof {
        assert(jpg@ =~= spec_jpg_mime());
    }
    contains_bytes(meta, jpg.as_slice())
}

} // verus!
