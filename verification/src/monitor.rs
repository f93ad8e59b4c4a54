//! Clipboard observation logic: the fingerprint that stands in for image
//! content, the snapshot a detected change produces, and the per-tick
//! decision of whether the clipboard changed and what to emit.
//!
//! The poll loop itself — reading the OS clipboard on a cadence and
//! delivering events — runs outside the library; each tick it hands in what
//! it read and carries out the decision returned.

use vstd::prelude::*;
use crate::codec;
use crate::raster;
use crate::raster::RgbaBuffer;

verus! {

/// Multiplier used to fold each sampled value into the fingerprint.
pub const FP_MULTIPLIER: u64 = 0x100000001b3;

/// Starting value of the fingerprint accumulator.
pub const FP_SEED: u64 = 0xcbf29ce484222325;

/// One fingerprint folding step: multiply the accumulator and add the
/// sample, both modulo two to the sixty-fourth.
pub open spec fn spec_fp_mix(acc: u64, v: u64) -> u64 {
    vstd::wrapping::u64_specs::wrapping_add(
        vstd::wrapping::u64_specs::wrapping_mul(acc, FP_MULTIPLIER),
        v,
    )
}

fn fp_mix(acc: u64, v: u64) -> (r: u64)
    ensures
        r == spec_fp_mix(acc, v),
{
    acc.wrapping_mul(FP_MULTIPLIER).wrapping_add(v)
}

/// The image fingerprint: a cheap derived value, not a full content hash.
/// It folds in the width, the height, the byte length, and — for a
/// non-empty buffer — the first, middle and last byte. Two images that
/// agree on all sampled values collide by design.
pub open spec fn spec_image_fingerprint(width: u64, height: u64, bytes: Seq<u8>) -> u64 {
    let h = spec_fp_mix(spec_fp_mix(spec_fp_mix(FP_SEED, width), height), bytes.len() as u64);
    if bytes.len() == 0 {
        h
    } else {
        spec_fp_mix(
            spec_fp_mix(spec_fp_mix(h, bytes[0] as u64), bytes[bytes.len() as int / 2] as u64),
            bytes[bytes.len() as int - 1] as u64,
        )
    }
}

/// Computes the fingerprint of an RGBA image.
pub fn image_fingerprint(img: &RgbaBuffer) -> (r: u64)
    ensures
        r == spec_image_fingerprint(img.width as u64, img.height as u64, img.bytes@),
{
    let len = img.bytes.len();
    let mut h = fp_mix(FP_SEED, img.width as u64);
    h = fp_mix(h, img.height as u64);
    h = fp_mix(h, len as u64);
    if len > 0 {
        h = fp_mix(h, img.bytes[0] as u64);
        h = fp_mix(h, img.bytes[len / 2] as u64);
        h = fp_mix(h, img.bytes[len - 1] as u64);
    }
    h
}

/// Law: the fingerprint reads only the dimensions, the length, and the
/// three sampled bytes. Two buffers of equal length that agree on the
/// first, middle and last byte get the same fingerprint under the same
/// dimensions, however their interior bytes differ.
pub proof fn lemma_fingerprint_samples_only(width: u64, height: u64, b1: Seq<u8>, b2: Seq<u8>)
    requires
        b1.len() == b2.len(),
        b1.len() > 0 ==> b1[0] == b2[0],
        b1.len() > 0 ==> b1[b1.len() as int / 2] == b2[b2.len() as int / 2],
        b1.len() > 0 ==> b1[b1.len() as int - 1] == b2[b2.len() as int - 1],
    ensures
        spec_image_fingerprint(width, height, b1) == spec_image_fingerprint(width, height, b2),
{
}

/// Turns a raster image into its fingerprint and the PNG data URI that an
/// image history entry carries. `None` — never a panic — when the buffer
/// does not hold four bytes per pixel for its dimensions, when a dimension
/// is zero, or when the encoding is too large to wrap; the caller simply
/// treats such a tick as offering nothing. The URI round-trips: fed back
/// to the image-decoding pipeline, it yields this image again, so a paste
/// or a save of the emitted entry reproduces what was observed.
pub fn image_to_data_url(img: &RgbaBuffer) -> (r: Option<(u64, Vec<u8>)>)
    ensures
        r is Some <==> (img.wf() && 1 <= img.width && 1 <= img.height && raster::png_encoding_of(
            img.width as int,
            img.height as int,
            img.bytes@,
        ).len() <= codec::MAX_B64_INPUT_LEN),
        r is Some ==> (r->0).0 == spec_image_fingerprint(
            img.width as u64,
            img.height as u64,
            img.bytes@,
        ),
        r is Some ==> (r->0).1@ == codec::spec_png_data_uri(
            raster::png_encoding_of(img.width as int, img.height as int, img.bytes@),
        ),
        r is Some ==> raster::spec_decode_image_data_uri((r->0).1@) == Ok::<
            _,
            raster::UriImageError,
        >((img.width as int, img.height as int, img.bytes@)),
{
    let w128 = img.width as u128;
    let h128 = img.height as u128;
    proof {
        assert(4 * w128 * h128 <= 0x4_0000_0000_0000_0000u128) by (nonlinear_arith)
            requires
                w128 <= 0xFFFF_FFFF,
                h128 <= 0xFFFF_FFFF,
        ;
    }
    if 4u128 * w128 * h128 != (img.bytes.len() as u128) {
        return None;
    }
    let fp = image_fingerprint(img);
    let png = match raster::png_encode(img) {
        Some(p) => p,
        None => return None,
    };
    if png.len() > codec::MAX_B64_INPUT_LEN {
        return None;
    }
    let uri = codec::make_png_data_uri(&png);
    proof {
        codec::lemma_split_png_data_uri(codec::b64_encoding_of(png@));
    }
    Some((fp, uri))
}

/// What kind of content a clipboard snapshot holds.
#[derive(Debug, PartialEq, Eq, Structural, Clone, Copy)]
pub enum ClipKind {
    Text,
    Image,
}

/// One observed clipboard state, emitted to the presentation layer when a
/// change is detected and replaced wholesale on the next change. A text
/// snapshot carries the text; an image snapshot carries the fingerprint and
/// the PNG data URI bytes.
pub struct ClipboardSnapshot {
    pub kind: ClipKind,
    pub text_value: Option<String>,
    pub image_fingerprint: Option<u64>,
    pub raw_bytes: Option<Vec<u8>>,
}

impl ClipboardSnapshot {
    /// Exactly one of the text value and the image fingerprint is
    /// populated, matching the kind; only image snapshots carry bytes.
    pub open spec fn wf(self) -> bool {
        match self.kind {
            ClipKind::Text => self.text_value is Some && self.image_fingerprint is None
                && self.raw_bytes is None,
            ClipKind::Image => self.image_fingerprint is Some && self.text_value is None
                && self.raw_bytes is Some,
        }
    }

    /// A text snapshot.
    pub fn text(content: String) -> (s: Self)
        ensures
            s.wf(),
            s.kind == ClipKind::Text,
            s.text_value == Some(content),
    {
        ClipboardSnapshot {
            kind: ClipKind::Text,
            text_value: Some(content),
            image_fingerprint: None,
            raw_bytes: None,
        }
    }

    /// An image snapshot from a fingerprint and the data URI bytes.
    pub fn image(fingerprint: u64, data_uri: Vec<u8>) -> (s: Self)
        ensures
            s.wf(),
            s.kind == ClipKind::Image,
            s.image_fingerprint == Some(fingerprint),
            s.raw_bytes == Some(data_uri),
    {
        ClipboardSnapshot {
            kind: ClipKind::Image,
            text_value: None,
            image_fingerprint: Some(fingerprint),
            raw_bytes: Some(data_uri),
        }
    }
}

/// The monitor's memory between ticks, as mathematical values: the last
/// observed text and the last observed image fingerprint (`0` when none).
pub struct MonitorModel {
    pub last_text: Seq<char>,
    pub last_fp: u64,
}

/// The monitor's memory between ticks: the text it last emitted and the
/// fingerprint of the image it last emitted, with `0` for "no image seen".
pub struct MonitorState {
    pub last_text: String,
    pub last_image_fingerprint: u64,
}

impl View for MonitorState {
    type V = MonitorModel;

    open spec fn view(&self) -> MonitorModel {
        MonitorModel { last_text: self.last_text@, last_fp: self.last_image_fingerprint }
    }
}

/// What one steady-cadence tick does, given the model state, the text the
/// clipboard offered (if any) and the fingerprint of the image it offered
/// (if any; the image is consulted only when no text was offered): the new
/// model state, whether a text snapshot is emitted, and whether an image
/// snapshot is emitted.
pub open spec fn spec_poll_transition(
    m: MonitorModel,
    text: Option<Seq<char>>,
    image_fp: Option<u64>,
) -> (MonitorModel, bool, bool) {
    match text {
        Some(t) => {
            if t.len() > 0 && t != m.last_text {
                (MonitorModel { last_text: t, last_fp: 0 }, true, false)
            } else {
                (m, false, false)
            }
        },
        None => match image_fp {
            Some(fp) => {
                if fp != m.last_fp {
                    (MonitorModel { last_text: Seq::empty(), last_fp: fp }, false, true)
                } else {
                    (m, false, false)
                }
            },
            None => (m, false, false),
        },
    }
}

impl MonitorState {
    /// A fresh monitor that has seen nothing.
    pub fn new() -> (s: Self)
        ensures
            s@.last_text == Seq::<char>::empty(),
            s@.last_fp == 0,
    {
        MonitorState { last_text: String::new(), last_image_fingerprint: 0 }
    }

    /// One steady-cadence tick. `text` is what the clipboard offered as
    /// text this tick (`None` when the read failed); `image` is the
    /// fingerprint and data URI of what it offered as an image, consulted
    /// only when no text was offered. Returns the snapshot to emit, or
    /// `None` when the clipboard is unchanged: new text is emitted only
    /// when non-empty and different from the last observed text (and then
    /// the remembered fingerprint is cleared); a new image only when its
    /// fingerprint differs from the last observed one (and then the
    /// remembered text is cleared).
    pub fn poll_tick(&mut self, text: Option<String>, image: Option<(u64, Vec<u8>)>) -> (r:
        Option<ClipboardSnapshot>)
        ensures
            final(self)@ == spec_poll_transition(
                old(self)@,
                match text {
                    Some(t) => Some(t@),
                    None => None,
                },
                match image {
                    Some(i) => Some(i.0),
                    None => None,
                },
            ).0,
            r is Some <==> (spec_poll_transition(
                old(self)@,
                match text {
                    Some(t) => Some(t@),
                    None => None,
                },
                match image {
                    Some(i) => Some(i.0),
                    None => None,
                },
            ).1 || spec_poll_transition(
                old(self)@,
                match text {
                    Some(t) => Some(t@),
                    None => None,
                },
                match image {
                    Some(i) => Some(i.0),
                    None => None,
                },
            ).2),
            r is Some ==> (r->0).wf(),
            spec_poll_transition(
                old(self)@,
                match text {
                    Some(t) => Some(t@),
                    None => None,
                },
                match image {
                    Some(i) => Some(i.0),
                    None => None,
                },
            ).1 ==> (r is Some && (r->0).kind == ClipKind::Text),
            spec_poll_transition(
                old(self)@,
                match text {
                    Some(t) => Some(t@),
                    None => None,
                },
                match image {
                    Some(i) => Some(i.0),
                    None => None,
                },
            ).2 ==> (r is Some && (r->0).kind == ClipKind::Image),
            r is Some && (r->0).kind == ClipKind::Text ==> (text is Some && (r->0).text_value
                == Some(text->0)),
            r is Some && (r->0).kind == ClipKind::Image ==> (image is Some && (r->0).image_fingerprint
                == Some((image->0).0) && (r->0).raw_bytes == Some((image->0).1)),
    {
        match text {
            Some(t) => {
                if !t.as_str().is_empty() && !string_eq(&t, &self.last_text) {
                    self.last_text = clone_string(&t);
                    self.last_image_fingerprint = 0;
                    Some(ClipboardSnapshot::text(t))
                } else {
                    None
                }
            },
            None => {
                match image {
                    Some((fp, uri)) => {
                        if fp != self.last_image_fingerprint {
                            self.last_image_fingerprint = fp;
                            self.last_text = String::new();
                            Some(ClipboardSnapshot::image(fp, uri))
                        } else {
                            None
                        }
                    },
                    None => None,
                }
            },
        }
    }

    /// The one-off startup pass that seeds the presentation layer: text the
    /// clipboard currently holds is emitted even when empty; otherwise a
    /// current image is emitted unconditionally. The remembered state is
    /// primed so the first steady tick does not re-emit the same content.
    pub fn initial_tick(&mut self, text: Option<String>, image: Option<(u64, Vec<u8>)>) -> (r:
        Option<ClipboardSnapshot>)
        ensures
            text is Some ==> (final(self)@.last_text == text->0@
                && final(self)@.last_fp == old(self)@.last_fp
                && r is Some && (r->0).kind == ClipKind::Text
                && (r->0).text_value == Some(text->0) && (r->0).wf()),
            text is None && image is Some ==> (final(self)@.last_fp == (image->0).0
                && final(self)@.last_text == old(self)@.last_text
                && r is Some && (r->0).kind == ClipKind::Image
                && (r->0).image_fingerprint == Some((image->0).0)
                && (r->0).raw_bytes == Some((image->0).1) && (r->0).wf()),
            text is None && image is None ==> (r is None && final(self)@ == old(self)@),
    {
        match text {
            Some(t) => {
                self.last_text = clone_string(&t);
                Some(ClipboardSnapshot::text(t))
            },
            None => {
                match image {
                    Some((fp, uri)) => {
                        self.last_image_fingerprint = fp;
                        Some(ClipboardSnapshot::image(fp, uri))
                    },
                    None => None,
                }
            },
        }
    }
}

/// Compares two strings by content.
fn string_eq(a: &String, b: &String) -> (r: bool)
    ensures
        r == (a@ == b@),
{
    a.eq(b)
}

/// Clones a string.
fn clone_string(s: &String) -> (r: String)
    ensures
        r@ == s@,
{
    s.clone()
}

/// Law: a freshly written, non-empty text that differs from the last
/// observed text is emitted by exactly one tick. The tick that sees it
/// emits a text snapshot carrying it and clears the remembered fingerprint;
/// the next tick, with the clipboard unchanged, emits nothing and leaves
/// the state untouched — whatever image the clipboard also offers.
pub proof fn lemma_text_emitted_once(
    m: MonitorModel,
    t: Seq<char>,
    img1: Option<u64>,
    img2: Option<u64>,
)
    requires
        t.len() > 0,
        t != m.last_text,
    ensures
        spec_poll_transition(m, Some(t), img1).1,
        !spec_poll_transition(m, Some(t), img1).2,
        spec_poll_transition(m, Some(t), img1).0 == (MonitorModel { last_text: t, last_fp: 0 }),
        !spec_poll_transition(spec_poll_transition(m, Some(t), img1).0, Some(t), img2).1,
        !spec_poll_transition(spec_poll_transition(m, Some(t), img1).0, Some(t), img2).2,
        spec_poll_transition(spec_poll_transition(m, Some(t), img1).0, Some(t), img2).0
            == spec_poll_transition(m, Some(t), img1).0,
{
}

/// Law: two images whose sampled values coincide are one item to the
/// monitor. If the clipboard offers an image whose fingerprint equals the
/// remembered one — in particular a same-size image agreeing on the three
/// sampled bytes, by `lemma_fingerprint_samples_only` — the tick emits
/// nothing and changes nothing.
pub proof fn lemma_matching_fingerprint_not_a_change(m: MonitorModel, fp: u64)
    requires
        fp == m.last_fp,
    ensures
        !spec_poll_transition(m, None, Some(fp)).1,
        !spec_poll_transition(m, None, Some(fp)).2,
        spec_poll_transition(m, None, Some(fp)).0 == m,
{
}

} // verus!
