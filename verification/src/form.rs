//! Form encoding of caption requests.
//!
//! The caption endpoint takes an `application/x-www-form-urlencoded` body:
//! `key=value` pairs joined by `&`. Keys this library emits are plain
//! ASCII — the box list uses the bracketed convention `boxes[i][field]`,
//! in box order — and are written literally. Values are percent-encoded
//! over their UTF-8 bytes: a space becomes `+`, control bytes, non-ASCII
//! bytes and the querystring-significant bytes `"#<>%+[]=&` become `%XX`
//! with upper-case hex, and every other byte stands for itself. The
//! credentials of the account are merged into the same body at top level.

use vstd::prelude::*;
use vstd::string::StringSliceAdditionalSpecFns;
use vstd::utf8::encode_utf8;

use crate::model::CaptionBox;
use crate::model::CaptionBoxesRequest;
use crate::model::CaptionFont;
use crate::model::ImageCaptionRequest;
use crate::model::TopBottomCaptionRequest;

verus! {

/// `&`, the pair separator.
pub const AMP: u8 = 0x26;

/// `=`, the key/value separator.
pub const EQ: u8 = 0x3D;

/// `]`, closing a bracketed key segment.
pub const RBRACKET: u8 = 0x5D;

/// The upper-case hex digit of a nibble, as its ASCII byte.
pub open spec fn spec_hex_upper(n: u8) -> u8
    recommends
        n < 16,
{
    if n < 10 {
        (0x30 + n) as u8
    } else {
        (0x37 + n) as u8
    }
}

/// The bytes that must be written as a percent escape in a value:
/// controls, non-ASCII bytes, and the querystring-significant bytes.
pub open spec fn spec_byte_escaped(b: u8) -> bool {
    b < 0x20 || b >= 0x7F || b == 0x22 || b == 0x23 || b == 0x3C || b == 0x3E || b == 0x25 || b
        == 0x2B || b == 0x5B || b == 0x5D || b == 0x3D || b == 0x26
}

/// The encoding of one byte of a value: a space as `+`, an escaped byte
/// as `%XX`, any other byte as itself.
pub open spec fn spec_encoded_byte(b: u8) -> Seq<u8> {
    if b == 0x20 {
        seq![0x2Bu8]
    } else if spec_byte_escaped(b) {
        seq![0x25u8, spec_hex_upper(b / 16), spec_hex_upper(b % 16)]
    } else {
        seq![b]
    }
}

/// The encoding of a byte string, byte for byte.
pub open spec fn spec_encoded_bytes(bs: Seq<u8>) -> Seq<u8>
    decreases bs.len(),
{
    if bs.len() == 0 {
        Seq::empty()
    } else {
        spec_encoded_byte(bs[0]) + spec_encoded_bytes(bs.drop_first())
    }
}

/// The encoded form of a string value: its UTF-8 bytes, each encoded.
pub open spec fn spec_encoded_value(s: Seq<char>) -> Seq<u8> {
    spec_encoded_bytes(encode_utf8(s))
}

/// The bytes of an ASCII string, one byte per character.
pub open spec fn spec_ascii_bytes(s: Seq<char>) -> Seq<u8> {
    Seq::new(s.len(), |i: int| s[i] as u8)
}

/// The decimal digits of a number, most significant first.
pub open spec fn spec_dec_bytes(n: nat) -> Seq<u8>
    decreases n,
{
    if n < 10 {
        seq![(0x30 + n) as u8]
    } else {
        spec_dec_bytes(n / 10).push((0x30 + n % 10) as u8)
    }
}

/// The wire name of a font: its lower-case name.
pub open spec fn spec_font_name(f: CaptionFont) -> Seq<char> {
    match f {
        CaptionFont::Impact => "impact"@,
        CaptionFont::Arial => "arial"@,
    }
}

/// The key of field `name` of the box at index `i`: `boxes[i][name]`.
pub open spec fn spec_box_key(i: nat, name: Seq<char>) -> Seq<u8> {
    spec_ascii_bytes("boxes["@) + spec_dec_bytes(i) + spec_ascii_bytes("]["@) + spec_ascii_bytes(
        name,
    ) + seq![RBRACKET]
}

/// `&key=value` for a string-valued pair.
pub open spec fn spec_amp_str_pair(key: Seq<char>, value: Seq<char>) -> Seq<u8> {
    seq![AMP] + spec_ascii_bytes(key) + seq![EQ] + spec_encoded_value(value)
}

/// `&key=n` for a number-valued pair.
pub open spec fn spec_amp_num_pair(key: Seq<char>, n: u32) -> Seq<u8> {
    seq![AMP] + spec_ascii_bytes(key) + seq![EQ] + spec_dec_bytes(n as nat)
}

/// The pair of a set numeric box field — an unset field contributes
/// nothing at all, not an empty value.
pub open spec fn spec_opt_box_num(i: nat, name: Seq<char>, v: Option<u32>) -> Seq<u8> {
    match v {
        Some(n) => seq![AMP] + spec_box_key(i, name) + seq![EQ] + spec_dec_bytes(n as nat),
        None => Seq::empty(),
    }
}

/// The pair of a set string box field — an unset field contributes
/// nothing at all, not an empty value.
pub open spec fn spec_opt_box_str(i: nat, name: Seq<char>, v: Option<String>) -> Seq<u8> {
    match v {
        Some(s) => seq![AMP] + spec_box_key(i, name) + seq![EQ] + spec_encoded_value(s@),
        None => Seq::empty(),
    }
}

/// The group of pairs contributed by the box at index `i`: its text, then
/// each optional field that is set, all under the bracketed keys of `i`.
pub open spec fn spec_box_group(i: nat, b: CaptionBox) -> Seq<u8> {
    seq![AMP] + spec_box_key(i, "text"@) + seq![EQ] + spec_encoded_value(b.text@)
        + spec_opt_box_num(i, "x"@, b.x) + spec_opt_box_num(i, "y"@, b.y) + spec_opt_box_num(
        i,
        "width"@,
        b.width,
    ) + spec_opt_box_num(i, "height"@, b.height) + spec_opt_box_str(i, "color"@, b.color)
        + spec_opt_box_str(i, "outline_color"@, b.outline_color)
}

/// The groups of the first `j` boxes, in order.
pub open spec fn spec_box_groups_upto(boxes: Seq<CaptionBox>, j: int) -> Seq<u8>
    decreases j,
{
    if j <= 0 {
        Seq::empty()
    } else {
        spec_box_groups_upto(boxes, j - 1) + spec_box_group((j - 1) as nat, boxes[j - 1])
    }
}

/// The boxes section of a body: one group per box, in insertion order.
pub open spec fn spec_box_groups(boxes: Seq<CaptionBox>) -> Seq<u8> {
    spec_box_groups_upto(boxes, boxes.len() as int)
}

/// The encoded body of a box-list caption request, with the account's
/// credentials merged in at top level: `template_id`, then `font` and
/// `max_font_size` when set, then the box groups in order, then
/// `username` and `password`.
pub open spec fn spec_caption_boxes_body(
    req: CaptionBoxesRequest,
    username: Seq<char>,
    password: Seq<char>,
) -> Seq<u8> {
    spec_ascii_bytes("template_id"@) + seq![EQ] + spec_encoded_value(req.template_id@) + (
    match req.font {
        Some(f) => seq![AMP] + spec_ascii_bytes("font"@) + seq![EQ] + spec_ascii_bytes(
            spec_font_name(f),
        ),
        None => Seq::empty(),
    }) + (match req.max_font_size {
        Some(n) => spec_amp_num_pair("max_font_size"@, n),
        None => Seq::empty(),
    }) + spec_box_groups(req.boxes@) + spec_amp_str_pair("username"@, username)
        + spec_amp_str_pair("password"@, password)
}

/// The encoded body of the fixed two-caption request, credentials merged
/// the same way: `template_id`, `username`, `password`, `text_top`,
/// `text_bottom`, `font` when set, `max_font_size`.
pub open spec fn spec_top_bottom_body(
    req: TopBottomCaptionRequest,
    username: Seq<char>,
    password: Seq<char>,
) -> Seq<u8> {
    spec_ascii_bytes("template_id"@) + seq![EQ] + spec_encoded_value(req.template_id@)
        + spec_amp_str_pair("username"@, username) + spec_amp_str_pair("password"@, password)
        + spec_amp_str_pair("text_top"@, req.text_top@) + spec_amp_str_pair(
        "text_bottom"@,
        req.text_bottom@,
    ) + (match req.font {
        Some(f) => seq![AMP] + spec_ascii_bytes("font"@) + seq![EQ] + spec_ascii_bytes(
            spec_font_name(f),
        ),
        None => Seq::empty(),
    }) + spec_amp_num_pair("max_font_size"@, req.max_font_size)
}

fn hex_upper(n: u8) -> (r: u8)
    requires
        n < 16,
    ensures
        r == spec_hex_upper(n),
{
    if n < 10 {
        0x30 + n
    } else {
        0x37 + n
    }
}

fn byte_escaped(b: u8) -> (r: bool)
    ensures
        r == spec_byte_escaped(b),
{
    b < 0x20 || b >= 0x7F || b == 0x22 || b == 0x23 || b == 0x3C || b == 0x3E || b == 0x25 || b
        == 0x2B || b == 0x5B || b == 0x5D || b == 0x3D || b == 0x26
}

proof fn lemma_encoded_bytes_push(s: Seq<u8>, b: u8)
    ensures
        spec_encoded_bytes(s.push(b)) == spec_encoded_bytes(s) + spec_encoded_byte(b),
    decreases s.len(),
{
    if s.len() == 0 {
        assert(s.push(b)[0] == b);
        assert(s.push(b).drop_first() =~= Seq::<u8>::empty());
        assert(spec_encoded_bytes(s.push(b).drop_first()) == Seq::<u8>::empty());
        assert(spec_encoded_bytes(s) == Seq::<u8>::empty());
        assert(spec_encoded_bytes(s.push(b)) =~= spec_encoded_bytes(s) + spec_encoded_byte(b));
    } else {
        assert(s.push(b)[0] == s[0]);
        assert(s.push(b).drop_first() =~= s.drop_first().push(b));
        lemma_encoded_bytes_push(s.drop_first(), b);
        assert(spec_encoded_bytes(s.push(b)) =~= spec_encoded_bytes(s) + spec_encoded_byte(b));
    }
}

fn push_encoded_bytes(out: &mut Vec<u8>, bs: &[u8])
    ensures
        final(out)@ == old(out)@ + spec_encoded_bytes(bs@),
{
    let ghost base = out@;
    let mut i: usize = 0;
    proof {
        assert(bs@.take(0) =~= Seq::<u8>::empty());
        assert(out@ =~= base + spec_encoded_bytes(bs@.take(0)));
    }
    while i < bs.len()
        invariant
            i <= bs@.len(),
            out@ == base + spec_encoded_bytes(bs@.take(i as int)),
        decreases bs@.len() - i,
    {
        let b = bs[i];
        if b == 0x20 {
            out.push(0x2B);
        } else if byte_escaped(b) {
            out.push(0x25);
            out.push(hex_upper(b / 16));
            out.push(hex_upper(b % 16));
        } else {
            out.push(b);
        }
        proof {
            lemma_encoded_bytes_push(bs@.take(i as int), b);
            assert(bs@.take(i as int).push(b) =~= bs@.take(i as int + 1));
            assert(out@ =~= base + spec_encoded_bytes(bs@.take(i as int + 1)));
        }
        i = i + 1;
    }
    proof {
        assert(bs@.take(bs@.len() as int) =~= bs@);
    }
}

/// Appends the encoded form of a string value.
fn push_value(out: &mut Vec<u8>, s: &str)
    ensures
        final(out)@ == old(out)@ + spec_encoded_value(s@),
{
    let bs = s.as_bytes();
    push_encoded_bytes(out, bs);
}

/// Appends an ASCII string literally.
fn push_ascii(out: &mut Vec<u8>, s: &str)
    requires
        s.is_ascii(),
    ensures
        final(out)@ == old(out)@ + spec_ascii_bytes(s@),
{
    broadcast use vstd::string::is_ascii_spec_bytes;

    let ghost base = out@;
    let bs = s.as_bytes();
    let mut i: usize = 0;
    while i < bs.len()
        invariant
            i <= bs@.len(),
            bs@ == s.spec_bytes(),
            bs@ =~= spec_ascii_bytes(s@),
            out@ == base + bs@.take(i as int),
        decreases bs@.len() - i,
    {
        out.push(bs[i]);
        proof {
            assert(bs@.take(i as int).push(bs@[i as int]) =~= bs@.take(i as int + 1));
        }
        i = i + 1;
    }
    proof {
        assert(bs@.take(bs@.len() as int) =~= bs@);
    }
}

/// Appends the decimal digits of `n`.
fn push_dec(out: &mut Vec<u8>, n: u64)
    ensures
        final(out)@ == old(out)@ + spec_dec_bytes(n as nat),
    decreases n,
{
    if n < 10 {
        out.push(0x30 + (n as u8));
        proof {
            assert(out@ =~= old(out)@ + spec_dec_bytes(n as nat));
        }
    } else {
        push_dec(out, n / 10);
        out.push(0x30 + ((n % 10) as u8));
        proof {
            assert(out@ =~= old(out)@ + spec_dec_bytes(n as nat));
        }
    }
}

/// The wire name of a font.
pub fn font_name(f: CaptionFont) -> (r: &'static str)
    ensures
        r@ == spec_font_name(f),
        r.is_ascii(),
{
    proof {
        reveal_strlit("impact");
        reveal_strlit("arial");
    }
    match f {
        CaptionFont::Impact => "impact",
        CaptionFont::Arial => "arial",
    }
}

/// Appends `boxes[i][name]`.
fn push_box_key(out: &mut Vec<u8>, i: usize, name: &str)
    requires
        name.is_ascii(),
    ensures
        final(out)@ == old(out)@ + spec_box_key(i as nat, name@),
{
    proof {
        reveal_strlit("boxes[");
        reveal_strlit("][");
    }
    push_ascii(out, "boxes[");
    push_dec(out, i as u64);
    push_ascii(out, "][");
    push_ascii(out, name);
    out.push(RBRACKET);
    proof {
        assert(out@ =~= old(out)@ + spec_box_key(i as nat, name@));
    }
}

/// Appends `&key=value`.
fn push_amp_str_pair(out: &mut Vec<u8>, key: &str, value: &str)
    requires
        key.is_ascii(),
    ensures
        final(out)@ == old(out)@ + spec_amp_str_pair(key@, value@),
{
    out.push(AMP);
    push_ascii(out, key);
    out.push(EQ);
    push_value(out, value);
    proof {
        assert(out@ =~= old(out)@ + spec_amp_str_pair(key@, value@));
    }
}

/// Appends `&key=n`.
fn push_amp_num_pair(out: &mut Vec<u8>, key: &str, n: u32)
    requires
        key.is_ascii(),
    ensures
        final(out)@ == old(out)@ + spec_amp_num_pair(key@, n),
{
    out.push(AMP);
    push_ascii(out, key);
    out.push(EQ);
    push_dec(out, n as u64);
    proof {
        assert(out@ =~= old(out)@ + spec_amp_num_pair(key@, n));
    }
}

/// Appends the pair of a set numeric box field; an unset field appends
/// nothing.
fn push_opt_num_field(out: &mut Vec<u8>, i: usize, name: &str, v: &Option<u32>)
    requires
        name.is_ascii(),
    ensures
        final(out)@ == old(out)@ + spec_opt_box_num(i as nat, name@, *v),
{
    match v {
        Some(n) => {
            out.push(AMP);
            push_box_key(out, i, name);
            out.push(EQ);
            push_dec(out, *n as u64);
            proof {
                assert(out@ =~= old(out)@ + spec_opt_box_num(i as nat, name@, *v));
            }
        },
        None => {},
    }
}

/// Appends the pair of a set string box field; an unset field appends
/// nothing.
fn push_opt_str_field(out: &mut Vec<u8>, i: usize, name: &str, v: &Option<String>)
    requires
        name.is_ascii(),
    ensures
        final(out)@ == old(out)@ + spec_opt_box_str(i as nat, name@, *v),
{
    match v {
        Some(c) => {
            out.push(AMP);
            push_box_key(out, i, name);
            out.push(EQ);
            push_value(out, c.as_str());
            proof {
                assert(out@ =~= old(out)@ + spec_opt_box_str(i as nat, name@, *v));
            }
        },
        None => {},
    }
}

/// Appends the group of pairs of the box at index `i`.
fn push_box_group(out: &mut Vec<u8>, i: usize, b: &CaptionBox)
    ensures
        final(out)@ == old(out)@ + spec_box_group(i as nat, *b),
{
    proof {
        reveal_strlit("text");
        reveal_strlit("x");
        reveal_strlit("y");
        reveal_strlit("width");
        reveal_strlit("height");
        reveal_strlit("color");
        reveal_strlit("outline_color");
    }
    let ghost n = i as nat;
    let ghost p2 = spec_opt_box_num(n, "x"@, b.x);
    let ghost p3 = spec_opt_box_num(n, "y"@, b.y);
    let ghost p4 = spec_opt_box_num(n, "width"@, b.width);
    let ghost p5 = spec_opt_box_num(n, "height"@, b.height);
    let ghost p6 = spec_opt_box_str(n, "color"@, b.color);
    let ghost p7 = spec_opt_box_str(n, "outline_color"@, b.outline_color);
    out.push(AMP);
    push_box_key(out, i, "text");
    out.push(EQ);
    push_value(out, b.text.as_str());
    let ghost mut acc: Seq<u8> = seq![AMP] + spec_box_key(n, "text"@) + seq![EQ]
        + spec_encoded_value(b.text@);
    proof {
        assert(out@ =~= old(out)@ + acc);
    }
    push_opt_num_field(out, i, "x", &b.x);
    proof {
        vstd::seq_lib::lemma_concat_associative(old(out)@, acc, p2);
        acc = acc + p2;
    }
    push_opt_num_field(out, i, "y", &b.y);
    proof {
        vstd::seq_lib::lemma_concat_associative(old(out)@, acc, p3);
        acc = acc + p3;
    }
    push_opt_num_field(out, i, "width", &b.width);
    proof {
        vstd::seq_lib::lemma_concat_associative(old(out)@, acc, p4);
        acc = acc + p4;
    }
    push_opt_num_field(out, i, "height", &b.height);
    proof {
        vstd::seq_lib::lemma_concat_associative(old(out)@, acc, p5);
        acc = acc + p5;
    }
    push_opt_str_field(out, i, "color", &b.color);
    proof {
        vstd::seq_lib::lemma_concat_associative(old(out)@, acc, p6);
        acc = acc + p6;
    }
    push_opt_str_field(out, i, "outline_color", &b.outline_color);
    proof {
        vstd::seq_lib::lemma_concat_associative(old(out)@, acc, p7);
        acc = acc + p7;
        assert(acc == spec_box_group(n, *b));
        assert(out@ == old(out)@ + spec_box_group(n, *b));
    }
}

/// Appends `template_id=...` and, when set, `&font=...` and
/// `&max_font_size=...` — the head shared by both request shapes.
fn push_head(out: &mut Vec<u8>, template_id: &str, font: &Option<CaptionFont>, max_font_size: &Option<u32>)
    ensures
        final(out)@ == old(out)@ + spec_ascii_bytes("template_id"@) + seq![EQ] + spec_encoded_value(
            template_id@,
        ) + (match *font {
            Some(f) => seq![AMP] + spec_ascii_bytes("font"@) + seq![EQ] + spec_ascii_bytes(
                spec_font_name(f),
            ),
            None => Seq::<u8>::empty(),
        }) + (match *max_font_size {
            Some(n) => spec_amp_num_pair("max_font_size"@, n),
            None => Seq::<u8>::empty(),
        }),
{
    proof {
        reveal_strlit("template_id");
        reveal_strlit("font");
        reveal_strlit("max_font_size");
    }
    push_ascii(out, "template_id");
    out.push(EQ);
    push_value(out, template_id);
    let ghost after_tid = out@;
    match font {
        Some(f) => {
            out.push(AMP);
            push_ascii(out, "font");
            out.push(EQ);
            push_ascii(out, font_name(*f));
        },
        None => {},
    }
    proof {
        assert(out@ =~= after_tid + (match *font {
            Some(f) => seq![AMP] + spec_ascii_bytes("font"@) + seq![EQ] + spec_ascii_bytes(
                spec_font_name(f),
            ),
            None => Seq::<u8>::empty(),
        }));
    }
    let ghost after_font = out@;
    match max_font_size {
        Some(n) => {
            push_amp_num_pair(out, "max_font_size", *n);
        },
        None => {},
    }
    proof {
        assert(out@ =~= after_font + (match *max_font_size {
            Some(n) => spec_amp_num_pair("max_font_size"@, n),
            None => Seq::<u8>::empty(),
        }));
        assert(out@ =~= old(out)@ + spec_ascii_bytes("template_id"@) + seq![EQ]
            + spec_encoded_value(template_id@) + (match *font {
            Some(f) => seq![AMP] + spec_ascii_bytes("font"@) + seq![EQ] + spec_ascii_bytes(
                spec_font_name(f),
            ),
            None => Seq::<u8>::empty(),
        }) + (match *max_font_size {
            Some(n) => spec_amp_num_pair("max_font_size"@, n),
            None => Seq::<u8>::empty(),
        }));
    }
}

/// Encodes a box-list caption request, with the credentials merged in at
/// top level, as the request body to send.
pub fn encode_caption_boxes_request(
    req: &CaptionBoxesRequest,
    username: &str,
    password: &str,
) -> (r: Vec<u8>)
    ensures
        r@ == spec_caption_boxes_body(*req, username@, password@),
{
    proof {
        reveal_strlit("username");
        reveal_strlit("password");
    }
    let mut out: Vec<u8> = Vec::new();
    push_head(&mut out, req.template_id.as_str(), &req.font, &req.max_font_size);
    let ghost head = out@;
    let mut i: usize = 0;
    while i < req.boxes.len()
        invariant
            i <= req.boxes@.len(),
            out@ == head + spec_box_groups_upto(req.boxes@, i as int),
        decreases req.boxes@.len() - i,
    {
        push_box_group(&mut out, i, &req.boxes[i]);
        i = i + 1;
    }
    push_amp_str_pair(&mut out, "username", username);
    push_amp_str_pair(&mut out, "password", password);
    proof {
        assert(out@ =~= spec_caption_boxes_body(*req, username@, password@));
    }
    out
}

/// Encodes the fixed two-caption request, with the credentials merged in
/// at top level, as the request body to send.
pub fn encode_top_bottom_request(
    req: &TopBottomCaptionRequest,
    username: &str,
    password: &str,
) -> (r: Vec<u8>)
    ensures
        r@ == spec_top_bottom_body(*req, username@, password@),
{
    proof {
        reveal_strlit("template_id");
        reveal_strlit("username");
        reveal_strlit("password");
        reveal_strlit("text_top");
        reveal_strlit("text_bottom");
        reveal_strlit("font");
        reveal_strlit("max_font_size");
    }
    let mut out: Vec<u8> = Vec::new();
    push_ascii(&mut out, "template_id");
    out.push(EQ);
    push_value(&mut out, req.template_id.as_str());
    push_amp_str_pair(&mut out, "username", username);
    push_amp_str_pair(&mut out, "password", password);
    push_amp_str_pair(&mut out, "text_top", req.text_top.as_str());
    push_amp_str_pair(&mut out, "text_bottom", req.text_bottom.as_str());
    let ghost after_texts = out@;
    match &req.font {
        Some(f) => {
            out.push(AMP);
            push_ascii(&mut out, "font");
            out.push(EQ);
            push_ascii(&mut out, font_name(*f));
        },
        None => {},
    }
    proof {
        assert(out@ =~= after_texts + (match req.font {
            Some(f) => seq![AMP] + spec_ascii_bytes("font"@) + seq![EQ] + spec_ascii_bytes(
                spec_font_name(f),
            ),
            None => Seq::<u8>::empty(),
        }));
    }
    push_amp_num_pair(&mut out, "max_font_size", req.max_font_size);
    proof {
        assert(out@ =~= spec_top_bottom_body(*req, username@, password@));
    }
    out
}

/// Encodes either request shape, with the credentials merged in at top
/// level, as the request body to send.
pub fn encode_image_caption_request(
    req: &ImageCaptionRequest,
    username: &str,
    password: &str,
) -> (r: Vec<u8>)
    ensures
        match *req {
            ImageCaptionRequest::TopBottomCaptionRequest(t) => r@ == spec_top_bottom_body(
                t,
                username@,
                password@,
            ),
            ImageCaptionRequest::CaptionBoxesRequest(b) => r@ == spec_caption_boxes_body(
                b,
                username@,
                password@,
            ),
        },
{
    match req {
        ImageCaptionRequest::TopBottomCaptionRequest(t) => encode_top_bottom_request(
            t,
            username,
            password,
        ),
        ImageCaptionRequest::CaptionBoxesRequest(b) => encode_caption_boxes_request(
            b,
            username,
            password,
        ),
    }
}

/// Law: a request's boxes encode as one bracketed group per box, in
/// insertion order — appending a box appends exactly its group, under the
/// next index, after all earlier groups.
pub proof fn lemma_box_groups_in_order(boxes: Seq<CaptionBox>, b: CaptionBox)
    ensures
        spec_box_groups(boxes.push(b)) == spec_box_groups(boxes) + spec_box_group(
            boxes.len(),
            b,
        ),
{
    lemma_box_groups_upto_push(boxes, b, boxes.len() as int);
    assert(boxes.push(b)[boxes.len() as int] == b);
    assert(spec_box_groups(boxes.push(b)) == spec_box_groups_upto(boxes.push(b), boxes.len() as int)
        + spec_box_group(boxes.len(), b));
}

proof fn lemma_box_groups_upto_push(boxes: Seq<CaptionBox>, b: CaptionBox, j: int)
    requires
        j <= boxes.len(),
    ensures
        spec_box_groups_upto(boxes.push(b), j) == spec_box_groups_upto(boxes, j),
    decreases j,
{
    if j > 0 {
        lemma_box_groups_upto_push(boxes, b, j - 1);
        assert(boxes.push(b)[j - 1] == boxes[j - 1]);
    }
}

/// Law: a box whose optional fields are all unset contributes exactly its
/// text pair — no key of an unset field ever appears, not even with an
/// empty value.
pub proof fn lemma_unset_optionals_absent(i: nat, b: CaptionBox)
    requires
        b.x is None,
        b.y is None,
        b.width is None,
        b.height is None,
        b.color is None,
        b.outline_color is None,
    ensures
        spec_box_group(i, b) == seq![AMP] + spec_box_key(i, "text"@) + seq![EQ]
            + spec_encoded_value(b.text@),
{
    assert(spec_box_group(i, b) =~= seq![AMP] + spec_box_key(i, "text"@) + seq![EQ]
        + spec_encoded_value(b.text@));
}

} // verus!
