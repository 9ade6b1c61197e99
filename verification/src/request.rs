//! The normalized description of one transform request, and the
//! deterministic parameter hash that keys the result cache.

use vstd::prelude::*;
use vstd::string::{StrSliceExecFns, StringExecFns};
use crate::hashing::{fnv64, fnv64_bytes};

verus! {

/// One transform request: which source to read, how to encode the output,
/// and the optional resize, blur and crop parameters. Two requests fall on
/// the same cache entry exactly when every field is equal.
#[derive(Debug, Clone)]
pub struct ImageInfo {
    pub(crate) name: String,
    pub(crate) format: String,
    pub(crate) width: Option<u32>,
    pub(crate) height: Option<u32>,
    pub(crate) blur_level: Option<u32>,
    pub(crate) crop_x: Option<u32>,
    pub(crate) crop_y: Option<u32>,
    pub(crate) crop_w: Option<u32>,
    pub(crate) crop_h: Option<u32>,
}

/// The mathematical value of a request: its fields, with the strings as
/// character sequences.
pub struct ImageInfoView {
    pub name: Seq<char>,
    pub format: Seq<char>,
    pub width: Option<u32>,
    pub height: Option<u32>,
    pub blur_level: Option<u32>,
    pub crop_x: Option<u32>,
    pub crop_y: Option<u32>,
    pub crop_w: Option<u32>,
    pub crop_h: Option<u32>,
}

impl View for ImageInfo {
    type V = ImageInfoView;

    closed spec fn view(&self) -> ImageInfoView {
        ImageInfoView {
            name: self.name@,
            format: self.format@,
            width: self.width,
            height: self.height,
            blur_level: self.blur_level,
            crop_x: self.crop_x,
            crop_y: self.crop_y,
            crop_w: self.crop_w,
            crop_h: self.crop_h,
        }
    }
}

/// A 64-bit number as eight little-endian bytes.
pub open spec fn enc_u64(v: u64) -> Seq<u8> {
    seq![
        (v & 0xff) as u8,
        ((v >> 8) & 0xff) as u8,
        ((v >> 16) & 0xff) as u8,
        ((v >> 24) & 0xff) as u8,
        ((v >> 32) & 0xff) as u8,
        ((v >> 40) & 0xff) as u8,
        ((v >> 48) & 0xff) as u8,
        ((v >> 56) & 0xff) as u8,
    ]
}

/// A 32-bit number as four little-endian bytes.
pub open spec fn enc_u32(v: u32) -> Seq<u8> {
    seq![(v & 0xff) as u8, ((v >> 8) & 0xff) as u8, ((v >> 16) & 0xff) as u8, ((v >> 24)
        & 0xff) as u8]
}

/// An optional number: a presence byte, then the value when present.
pub open spec fn enc_opt(v: Option<u32>) -> Seq<u8> {
    match v {
        None => seq![0u8],
        Some(x) => seq![1u8] + enc_u32(x),
    }
}

/// A character string: each character's code point, in order.
pub open spec fn enc_chars(s: Seq<char>) -> Seq<u8>
    decreases s.len(),
{
    if s.len() == 0 {
        Seq::empty()
    } else {
        enc_chars(s.drop_last()) + enc_u32(s.last() as u32)
    }
}

/// The canonical byte encoding of a request's fields: each string length-
/// prefixed, then every optional parameter in the order of the type's
/// fields.
pub open spec fn spec_encode(v: ImageInfoView) -> Seq<u8> {
    enc_u64(v.name.len() as u64) + enc_chars(v.name) + enc_u64(v.format.len() as u64) + enc_chars(
        v.format,
    ) + enc_opt(v.width) + enc_opt(v.height) + enc_opt(v.blur_level) + enc_opt(v.crop_x) + enc_opt(
        v.crop_y,
    ) + enc_opt(v.crop_w) + enc_opt(v.crop_h)
}

/// The parameter hash: the digest of the canonical encoding. It depends on
/// the request's fields alone.
pub open spec fn spec_param_hash(v: ImageInfoView) -> u64 {
    fnv64(spec_encode(v))
}

fn push_u64(out: &mut Vec<u8>, v: u64)
    ensures
        final(out)@ == old(out)@ + enc_u64(v),
{
    out.push((v & 0xff) as u8);
    out.push(((v >> 8) & 0xff) as u8);
    out.push(((v >> 16) & 0xff) as u8);
    out.push(((v >> 24) & 0xff) as u8);
    out.push(((v >> 32) & 0xff) as u8);
    out.push(((v >> 40) & 0xff) as u8);
    out.push(((v >> 48) & 0xff) as u8);
    out.push(((v >> 56) & 0xff) as u8);
    proof {
        assert(out@ =~= old(out)@ + enc_u64(v));
    }
}

fn push_u32(out: &mut Vec<u8>, v: u32)
    ensures
        final(out)@ == old(out)@ + enc_u32(v),
{
    out.push((v & 0xff) as u8);
    out.push(((v >> 8) & 0xff) as u8);
    out.push(((v >> 16) & 0xff) as u8);
    out.push(((v >> 24) & 0xff) as u8);
    proof {
        assert(out@ =~= old(out)@ + enc_u32(v));
    }
}

fn push_opt(out: &mut Vec<u8>, v: Option<u32>)
    ensures
        final(out)@ == old(out)@ + enc_opt(v),
{
    match v {
        None => {
            out.push(0u8);
            proof {
                assert(out@ =~= old(out)@ + enc_opt(v));
            }
        },
        Some(x) => {
            out.push(1u8);
            push_u32(out, x);
            proof {
                assert(out@ =~= old(out)@ + enc_opt(v));
            }
        },
    }
}

fn push_chars(out: &mut Vec<u8>, s: &str)
    ensures
        final(out)@ == old(out)@ + enc_chars(s@),
{
    let n = s.unicode_len();
    let mut i: usize = 0;
    while i < n
        invariant
            n == s@.len(),
            i <= n,
            out@ == old(out)@ + enc_chars(s@.subrange(0, i as int)),
        decreases n - i,
    {
        let c = s.get_char(i);
        push_u32(out, c as u32);
        proof {
            let t = s@.subrange(0, i + 1);
            assert(t.drop_last() =~= s@.subrange(0, i as int));
            assert(t.last() == s@[i as int]);
            assert(out@ =~= old(out)@ + enc_chars(t));
        }
        i += 1;
    }
    proof {
        assert(s@.subrange(0, s@.len() as int) =~= s@);
    }
}

fn encode_info(info: &ImageInfo) -> (r: Vec<u8>)
    ensures
        r@ == spec_encode(info@),
{
    let mut out: Vec<u8> = Vec::new();
    push_u64(&mut out, info.name.as_str().unicode_len() as u64);
    push_chars(&mut out, info.name.as_str());
    push_u64(&mut out, info.format.as_str().unicode_len() as u64);
    push_chars(&mut out, info.format.as_str());
    push_opt(&mut out, info.width);
    push_opt(&mut out, info.height);
    push_opt(&mut out, info.blur_level);
    push_opt(&mut out, info.crop_x);
    push_opt(&mut out, info.crop_y);
    push_opt(&mut out, info.crop_w);
    push_opt(&mut out, info.crop_h);
    proof {
        assert(out@ =~= spec_encode(info@));
    }
    out
}

impl ImageInfo {
    /// A plain resize request: no blur, no crop.
    pub fn new(name: &str, format: &str, width: Option<u32>, height: Option<u32>) -> (r:
        ImageInfo)
        ensures
            r@ == (ImageInfoView {
                name: name@,
                format: format@,
                width,
                height,
                blur_level: None,
                crop_x: None,
                crop_y: None,
                crop_w: None,
                crop_h: None,
            }),
    {
        ImageInfo {
            name: String::from_str(name),
            format: String::from_str(format),
            width,
            height,
            blur_level: None,
            crop_x: None,
            crop_y: None,
            crop_w: None,
            crop_h: None,
        }
    }

    /// The parameter hash of this request: equal for equal fields, so a
    /// repeated request falls on the cache entry of the first one.
    pub fn to_hash(&self) -> (r: u64)
        ensures
            r == spec_param_hash(self@),
    {
        let bytes = encode_info(self);
        fnv64_bytes(bytes.as_slice())
    }

    /// The file name of the source image: `<name>.<format>`.
    pub fn fname(&self) -> (r: String)
        ensures
            r@ == spec_fname(self@),
    {
        let mut s = String::from_str(self.name.as_str());
        s.append(".");
        s.append(self.format.as_str());
        proof {
            reveal_strlit(".");
            assert(s@ =~= spec_fname(self@));
        }
        s
    }

    /// The output encoding, which is also the source file's extension.
    pub fn format(&self) -> (r: &str)
        ensures
            r@ == self@.format,
    {
        self.format.as_str()
    }

    pub fn width(&self) -> (r: Option<u32>)
        ensures
            r == self@.width,
    {
        self.width
    }

    pub fn height(&self) -> (r: Option<u32>)
        ensures
            r == self@.height,
    {
        self.height
    }

    pub fn blur_level(&self) -> (r: Option<u32>)
        ensures
            r == self@.blur_level,
    {
        self.blur_level
    }

    pub fn crop_x(&self) -> (r: Option<u32>)
        ensures
            r == self@.crop_x,
    {
        self.crop_x
    }

    pub fn crop_y(&self) -> (r: Option<u32>)
        ensures
            r == self@.crop_y,
    {
        self.crop_y
    }

    pub fn crop_w(&self) -> (r: Option<u32>)
        ensures
            r == self@.crop_w,
    {
        self.crop_w
    }

    pub fn crop_h(&self) -> (r: Option<u32>)
        ensures
            r == self@.crop_h,
    {
        self.crop_h
    }

    /// Asks for a Gaussian blur of the given level.
    pub fn blur(&mut self, level: u32)
        ensures
            final(self)@ == (ImageInfoView { blur_level: Some(level), ..old(self)@ }),
    {
        self.blur_level = Some(level);
    }

    /// Asks for a crop; an absent offset means the edge, an absent extent
    /// the remainder of the image in that axis.
    pub fn crop(&mut self, x: Option<u32>, y: Option<u32>, w: Option<u32>, h: Option<u32>)
        ensures
            final(self)@ == (ImageInfoView {
                crop_x: x,
                crop_y: y,
                crop_w: w,
                crop_h: h,
                ..old(self)@
            }),
    {
        self.crop_x = x;
        self.crop_y = y;
        self.crop_w = w;
        self.crop_h = h;
    }

    /// Whether any crop parameter was given.
    pub open spec fn spec_has_crop(self) -> bool {
        self@.crop_x is Some || self@.crop_y is Some || self@.crop_w is Some
            || self@.crop_h is Some
    }

    /// Whether the request asks for a crop at all.
    pub fn has_crop(&self) -> (r: bool)
        ensures
            r == self.spec_has_crop(),
    {
        self.crop_x.is_some() || self.crop_y.is_some() || self.crop_w.is_some()
            || self.crop_h.is_some()
    }
}

/// The source file name a request denotes.
pub open spec fn spec_fname(v: ImageInfoView) -> Seq<char> {
    v.name + seq!['.'] + v.format
}

/// The parameter hash is a function of the request's fields alone: two
/// requests whose fields are equal hash to the same cache key.
pub proof fn lemma_param_hash_deterministic(a: ImageInfo, b: ImageInfo)
    requires
        a@ == b@,
    ensures
        spec_param_hash(a@) == spec_param_hash(b@),
{
}

proof fn lemma_enc_u32_injective(x: u32, y: u32)
    requires
        enc_u32(x) == enc_u32(y),
    ensures
        x == y,
{
    assert((x & 0xff) as u8 == (y & 0xff) as u8);
    assert(((x >> 8) & 0xff) as u8 == ((y >> 8) & 0xff) as u8);
    assert(((x >> 16) & 0xff) as u8 == ((y >> 16) & 0xff) as u8);
    assert(((x >> 24) & 0xff) as u8 == ((y >> 24) & 0xff) as u8);
    assert(((x & 0xff) as u8 == (y & 0xff) as u8 && ((x >> 8) & 0xff) as u8 == ((y >> 8)
        & 0xff) as u8 && ((x >> 16) & 0xff) as u8 == ((y >> 16) & 0xff) as u8 && ((x >> 24)
        & 0xff) as u8 == ((y >> 24) & 0xff) as u8) ==> x == y) by (bit_vector);
}

proof fn lemma_enc_u64_injective(x: u64, y: u64)
    requires
        enc_u64(x) == enc_u64(y),
    ensures
        x == y,
{
    assert((x & 0xff) as u8 == (y & 0xff) as u8);
    assert(((x >> 8) & 0xff) as u8 == ((y >> 8) & 0xff) as u8);
    assert(((x >> 16) & 0xff) as u8 == ((y >> 16) & 0xff) as u8);
    assert(((x >> 24) & 0xff) as u8 == ((y >> 24) & 0xff) as u8);
    assert(((x >> 32) & 0xff) as u8 == ((y >> 32) & 0xff) as u8);
    assert(((x >> 40) & 0xff) as u8 == ((y >> 40) & 0xff) as u8);
    assert(((x >> 48) & 0xff) as u8 == ((y >> 48) & 0xff) as u8);
    assert(((x >> 56) & 0xff) as u8 == ((y >> 56) & 0xff) as u8);
    assert(((x & 0xff) as u8 == (y & 0xff) as u8 && ((x >> 8) & 0xff) as u8 == ((y >> 8)
        & 0xff) as u8 && ((x >> 16) & 0xff) as u8 == ((y >> 16) & 0xff) as u8 && ((x >> 24)
        & 0xff) as u8 == ((y >> 24) & 0xff) as u8 && ((x >> 32) & 0xff) as u8 == ((y >> 32)
        & 0xff) as u8 && ((x >> 40) & 0xff) as u8 == ((y >> 40) & 0xff) as u8 && ((x >> 48)
        & 0xff) as u8 == ((y >> 48) & 0xff) as u8 && ((x >> 56) & 0xff) as u8 == ((y >> 56)
        & 0xff) as u8) ==> x == y) by (bit_vector);
}

proof fn lemma_enc_chars_len(s: Seq<char>)
    ensures
        enc_chars(s).len() == 4 * s.len(),
    decreases s.len(),
{
    if s.len() > 0 {
        lemma_enc_chars_len(s.drop_last());
    }
}

/// Two equal concatenations whose left parts have one length split into
/// equal parts.
proof fn lemma_concat_split(x1: Seq<u8>, y1: Seq<u8>, x2: Seq<u8>, y2: Seq<u8>)
    requires
        x1 + y1 == x2 + y2,
        x1.len() == x2.len(),
    ensures
        x1 == x2,
        y1 == y2,
{
    let whole = x1 + y1;
    assert(x1 =~= whole.subrange(0, x1.len() as int));
    assert(x2 =~= (x2 + y2).subrange(0, x2.len() as int));
    assert(y1 =~= whole.subrange(x1.len() as int, whole.len() as int));
    assert(y2 =~= (x2 + y2).subrange(x2.len() as int, (x2 + y2).len() as int));
}

proof fn lemma_char_code_injective(c1: char, c2: char)
    requires
        c1 as u32 == c2 as u32,
    ensures
        c1 == c2,
{
    assert(c1 == ((c1 as u32) as char));
    assert(c2 == ((c2 as u32) as char));
}

proof fn lemma_enc_chars_injective(s: Seq<char>, t: Seq<char>)
    requires
        s.len() == t.len(),
        enc_chars(s) == enc_chars(t),
    ensures
        s == t,
    decreases s.len(),
{
    if s.len() > 0 {
        lemma_enc_chars_len(s.drop_last());
        lemma_enc_chars_len(t.drop_last());
        lemma_concat_split(
            enc_chars(s.drop_last()),
            enc_u32(s.last() as u32),
            enc_chars(t.drop_last()),
            enc_u32(t.last() as u32),
        );
        lemma_enc_chars_injective(s.drop_last(), t.drop_last());
        lemma_enc_u32_injective(s.last() as u32, t.last() as u32);
        lemma_char_code_injective(s.last(), t.last());
        assert(s =~= s.drop_last().push(s.last()));
        assert(t =~= t.drop_last().push(t.last()));
    } else {
        assert(s =~= t);
    }
}

/// Peels one optional field off the front of two equal encodings: the
/// presence byte tells the cases apart, so the fields and the remainders
/// agree.
proof fn lemma_enc_opt_peel(o1: Option<u32>, o2: Option<u32>, r1: Seq<u8>, r2: Seq<u8>)
    requires
        enc_opt(o1) + r1 == enc_opt(o2) + r2,
    ensures
        o1 == o2,
        r1 == r2,
{
    let w1 = enc_opt(o1) + r1;
    let w2 = enc_opt(o2) + r2;
    assert(w1[0] == w2[0]);
    match (o1, o2) {
        (Option::None, Option::None) => {
            lemma_concat_split(enc_opt(o1), r1, enc_opt(o2), r2);
        },
        (Option::Some(x), Option::Some(y)) => {
            lemma_concat_split(enc_opt(o1), r1, enc_opt(o2), r2);
            assert(enc_u32(x) =~= enc_opt(o1).subrange(1, 5));
            assert(enc_u32(y) =~= enc_opt(o2).subrange(1, 5));
            lemma_enc_u32_injective(x, y);
        },
        (Option::None, Option::Some(_)) => {
            assert(w1[0] == 0 && w2[0] == 1);
        },
        (Option::Some(_), Option::None) => {
            assert(w1[0] == 1 && w2[0] == 0);
        },
    }
}

/// The seven optional fields, in the order of the type's fields.
pub open spec fn enc_opts(v: ImageInfoView) -> Seq<u8> {
    enc_opt(v.width) + (enc_opt(v.height) + (enc_opt(v.blur_level) + (enc_opt(v.crop_x) + (
    enc_opt(v.crop_y) + (enc_opt(v.crop_w) + enc_opt(v.crop_h))))))
}

proof fn lemma_enc_opts_injective(a: ImageInfoView, b: ImageInfoView)
    requires
        enc_opts(a) == enc_opts(b),
    ensures
        a.width == b.width,
        a.height == b.height,
        a.blur_level == b.blur_level,
        a.crop_x == b.crop_x,
        a.crop_y == b.crop_y,
        a.crop_w == b.crop_w,
        a.crop_h == b.crop_h,
{
    lemma_enc_opt_peel(
        a.width,
        b.width,
        enc_opt(a.height) + (enc_opt(a.blur_level) + (enc_opt(a.crop_x) + (enc_opt(a.crop_y) + (
        enc_opt(a.crop_w) + enc_opt(a.crop_h))))),
        enc_opt(b.height) + (enc_opt(b.blur_level) + (enc_opt(b.crop_x) + (enc_opt(b.crop_y) + (
        enc_opt(b.crop_w) + enc_opt(b.crop_h))))),
    );
    lemma_enc_opt_peel(
        a.height,
        b.height,
        enc_opt(a.blur_level) + (enc_opt(a.crop_x) + (enc_opt(a.crop_y) + (enc_opt(a.crop_w)
            + enc_opt(a.crop_h)))),
        enc_opt(b.blur_level) + (enc_opt(b.crop_x) + (enc_opt(b.crop_y) + (enc_opt(b.crop_w)
            + enc_opt(b.crop_h)))),
    );
    lemma_enc_opt_peel(
        a.blur_level,
        b.blur_level,
        enc_opt(a.crop_x) + (enc_opt(a.crop_y) + (enc_opt(a.crop_w) + enc_opt(a.crop_h))),
        enc_opt(b.crop_x) + (enc_opt(b.crop_y) + (enc_opt(b.crop_w) + enc_opt(b.crop_h))),
    );
    lemma_enc_opt_peel(
        a.crop_x,
        b.crop_x,
        enc_opt(a.crop_y) + (enc_opt(a.crop_w) + enc_opt(a.crop_h)),
        enc_opt(b.crop_y) + (enc_opt(b.crop_w) + enc_opt(b.crop_h)),
    );
    lemma_enc_opt_peel(
        a.crop_y,
        b.crop_y,
        enc_opt(a.crop_w) + enc_opt(a.crop_h),
        enc_opt(b.crop_w) + enc_opt(b.crop_h),
    );
    lemma_enc_opt_peel(a.crop_w, b.crop_w, enc_opt(a.crop_h), enc_opt(b.crop_h));
    assert(enc_opt(a.crop_h) + Seq::<u8>::empty() =~= enc_opt(a.crop_h));
    assert(enc_opt(b.crop_h) + Seq::<u8>::empty() =~= enc_opt(b.crop_h));
    lemma_enc_opt_peel(a.crop_h, b.crop_h, Seq::<u8>::empty(), Seq::<u8>::empty());
}

proof fn lemma_seq_assoc(x: Seq<u8>, y: Seq<u8>, z: Seq<u8>)
    ensures
        (x + y) + z == x + (y + z),
{
    assert((x + y) + z =~= x + (y + z));
}

/// The encoding regrouped outward from the left, one block at the head.
proof fn lemma_encode_reassoc(v: ImageInfoView)
    ensures
        spec_encode(v) == enc_u64(v.name.len() as u64) + (enc_chars(v.name) + (enc_u64(
            v.format.len() as u64,
        ) + (enc_chars(v.format) + enc_opts(v)))),
{
    let a = enc_u64(v.name.len() as u64);
    let b = enc_chars(v.name);
    let c = enc_u64(v.format.len() as u64);
    let d = enc_chars(v.format);
    let e = enc_opt(v.width);
    let f = enc_opt(v.height);
    let g = enc_opt(v.blur_level);
    let h = enc_opt(v.crop_x);
    let i = enc_opt(v.crop_y);
    let j = enc_opt(v.crop_w);
    let k = enc_opt(v.crop_h);
    lemma_seq_assoc(a + b + c + d + e + f + g + h + i, j, k);
    lemma_seq_assoc(a + b + c + d + e + f + g + h, i, j + k);
    lemma_seq_assoc(a + b + c + d + e + f + g, h, i + (j + k));
    lemma_seq_assoc(a + b + c + d + e + f, g, h + (i + (j + k)));
    lemma_seq_assoc(a + b + c + d + e, f, g + (h + (i + (j + k))));
    lemma_seq_assoc(a + b + c + d, e, f + (g + (h + (i + (j + k)))));
    lemma_seq_assoc(a + b + c, d, e + (f + (g + (h + (i + (j + k))))));
    lemma_seq_assoc(a + b, c, d + (e + (f + (g + (h + (i + (j + k)))))));
    lemma_seq_assoc(a, b, c + (d + (e + (f + (g + (h + (i + (j + k))))))));
}

#[verifier::rlimit(100)]
proof fn lemma_encode_strings_agree(a: ImageInfoView, b: ImageInfoView)
    requires
        spec_encode(a) == spec_encode(b),
        a.name.len() <= u64::MAX,
        b.name.len() <= u64::MAX,
        a.format.len() <= u64::MAX,
        b.format.len() <= u64::MAX,
    ensures
        a.name == b.name,
        a.format == b.format,
        enc_opts(a) == enc_opts(b),
{
    lemma_enc_chars_len(a.name);
    lemma_enc_chars_len(b.name);
    lemma_enc_chars_len(a.format);
    lemma_enc_chars_len(b.format);
    let ra = enc_chars(a.name) + (enc_u64(a.format.len() as u64) + (enc_chars(a.format)
        + enc_opts(a)));
    let rb = enc_chars(b.name) + (enc_u64(b.format.len() as u64) + (enc_chars(b.format)
        + enc_opts(b)));
    lemma_encode_reassoc(a);
    lemma_encode_reassoc(b);
    lemma_concat_split(enc_u64(a.name.len() as u64), ra, enc_u64(b.name.len() as u64), rb);
    lemma_enc_u64_injective(a.name.len() as u64, b.name.len() as u64);
    assert(a.name.len() == b.name.len());
    let ra2 = enc_u64(a.format.len() as u64) + (enc_chars(a.format) + enc_opts(a));
    let rb2 = enc_u64(b.format.len() as u64) + (enc_chars(b.format) + enc_opts(b));
    lemma_concat_split(enc_chars(a.name), ra2, enc_chars(b.name), rb2);
    lemma_enc_chars_injective(a.name, b.name);
    lemma_concat_split(
        enc_u64(a.format.len() as u64),
        enc_chars(a.format) + enc_opts(a),
        enc_u64(b.format.len() as u64),
        enc_chars(b.format) + enc_opts(b),
    );
    lemma_enc_u64_injective(a.format.len() as u64, b.format.len() as u64);
    assert(a.format.len() == b.format.len());
    lemma_concat_split(enc_chars(a.format), enc_opts(a), enc_chars(b.format), enc_opts(b));
    lemma_enc_chars_injective(a.format, b.format);
}

/// No false merging below the digest: the canonical encoding is injective
/// — two requests with equal encodings are field-for-field equal, so two
/// requests that differ anywhere feed distinct byte strings to the hash.
pub proof fn lemma_encode_injective(a: ImageInfoView, b: ImageInfoView)
    requires
        spec_encode(a) == spec_encode(b),
        a.name.len() <= u64::MAX,
        b.name.len() <= u64::MAX,
        a.format.len() <= u64::MAX,
        b.format.len() <= u64::MAX,
    ensures
        a == b,
{
    lemma_encode_strings_agree(a, b);
    lemma_enc_opts_injective(a, b);
}

} // verus!
