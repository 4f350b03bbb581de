//! X11 window tracking logic. The daemon talks to the X server; this module
//! resolves the replies: the `_NET_ACTIVE_WINDOW` value and the two halves
//! of a window's `WM_CLASS` property.

use vstd::prelude::*;
use vstd::utf8::{
    decode_first_scalar, decode_utf8, decode_utf8_first_scalar, encode_scalar,
    is_leading_byte_width_1, leading_byte_width_1, length_of_first_scalar, pop_first_scalar,
    take_first_scalar, valid_first_scalar, valid_utf8,
};
use crate::text::{
    decimal_value, is_white_space, lemma_trim_is_trimmed, opt_chars, parse_u32, trim, trim_str,
};
use super::sway::{node_class, usable, SwayNode};

verus! {

/// What `String::from_utf8_lossy` makes of `bytes`.
pub uninterp spec fn utf8_lossy(bytes: Seq<u8>) -> Seq<char>;

/// `String::from_utf8_lossy`, made owned. Its result is a function of the
/// bytes alone, named [`utf8_lossy`]; for valid UTF-8 the documentation
/// promises the decoded text itself. Invalid sequences become U+FFFD, so
/// U+0000, whose only encoding is the zero byte, appears only where a zero
/// byte was; beyond that, what an invalid sequence becomes is left unsaid.
#[verifier::external_body]
fn decode_lossy(bytes: &[u8]) -> (r: String)
    ensures
        r@ == utf8_lossy(bytes@),
        valid_utf8(bytes@) ==> r@ == decode_utf8(bytes@),
        (forall|i: int| 0 <= i < bytes@.len() ==> bytes@[i] != 0) ==> (forall|k: int|
            0 <= k < r@.len() ==> r@[k] != '\0'),
{
    String::from_utf8_lossy(bytes).into_owned()
}

/// `u32::from_ne_bytes`: the bytes read in the machine's byte order, which
/// is little- or big-endian; which of the two is left to the machine.
#[verifier::external_body]
fn u32_from_ne_bytes(bytes: [u8; 4]) -> (r: u32)
    ensures
        r == bytes@[0] + 256 * bytes@[1] + 65536 * bytes@[2] + 16777216 * bytes@[3] || r
            == bytes@[3] + 256 * bytes@[2] + 65536 * bytes@[1] + 16777216 * bytes@[0],
{
    u32::from_ne_bytes(bytes)
}

/// The index of the first NUL byte in `b`, or its length if it has none.
pub open spec fn first_nul(b: Seq<u8>) -> int
    decreases b.len(),
{
    if b.len() == 0 || b[0] == 0 {
        0
    } else {
        1 + first_nul(b.drop_first())
    }
}

/// The bytes of `b` before its first NUL.
pub open spec fn before_nul(b: Seq<u8>) -> Seq<u8> {
    b.take(first_nul(b))
}

/// A decoded class string, trimmed; none if that leaves nothing.
pub open spec fn class_text(t: Seq<char>) -> Option<Seq<char>> {
    if trim(t).len() == 0 {
        None
    } else {
        Some(trim(t))
    }
}

/// A usable class: not empty, no white space at either end, and no NUL, so
/// that it can match a terminal-list entry.
pub open spec fn clean_class(c: Seq<char>) -> bool {
    &&& c.len() > 0
    &&& !is_white_space(c[0])
    &&& !is_white_space(c.last())
    &&& forall|k: int| 0 <= k < c.len() ==> c[k] != '\0'
}

/// The first of two candidates that is present.
pub open spec fn prefer(first: Option<Seq<char>>, second: Option<Seq<char>>) -> Option<Seq<char>> {
    match first {
        Some(c) => Some(c),
        None => second,
    }
}

/// The text lossy decoding gives: the decoded characters for valid UTF-8,
/// otherwise what [`utf8_lossy`] names.
pub open spec fn decoded(b: Seq<u8>) -> Seq<char> {
    if valid_utf8(b) {
        decode_utf8(b)
    } else {
        utf8_lossy(b)
    }
}

/// The usable class string in one half of a `WM_CLASS` property.
pub open spec fn wm_class_field(b: Seq<u8>) -> Option<Seq<char>> {
    class_text(decoded(before_nul(b)))
}

proof fn lemma_first_nul_step(b: Seq<u8>, i: int)
    requires
        0 <= i < b.len(),
        b[i] != 0,
    ensures
        first_nul(b.subrange(i, b.len() as int)) == 1 + first_nul(b.subrange(i + 1, b.len() as int)),
{
    assert(b.subrange(i, b.len() as int).drop_first() == b.subrange(i + 1, b.len() as int));
}

/// Where the first NUL byte of `class_bytes` is, or its length.
fn nul_position(class_bytes: &[u8]) -> (r: usize)
    ensures
        r == first_nul(class_bytes@),
        r <= class_bytes@.len(),
{
    let n = class_bytes.len();
    let mut i: usize = 0;
    assert(class_bytes@.subrange(0, n as int) == class_bytes@);
    while i < n && class_bytes[i] != 0
        invariant
            i <= n,
            n == class_bytes@.len(),
            first_nul(class_bytes@) == i + first_nul(class_bytes@.subrange(i as int, n as int)),
        decreases n - i,
    {
        proof {
            lemma_first_nul_step(class_bytes@, i as int);
        }
        i = i + 1;
    }
    i
}

/// Trim a decoded class string; `None` if nothing is left.
pub fn class_from_text(text: &str) -> (r: Option<String>)
    ensures
        opt_chars(r) == class_text(text@),
{
    let t = trim_str(text);
    if t.is_empty() {
        None
    } else {
        Some(t.to_owned())
    }
}

/// Resolve one half of a `WM_CLASS` property into a usable class string.
///
/// x11rb hands back everything after the first NUL as the class, so a
/// malformed property with more than two fields still has interior NULs;
/// this cuts at the first one. The property is not guaranteed to be UTF-8,
/// so it is decoded lossily, then trimmed; an empty result is `None`.
pub fn parse_wm_class(class_bytes: &[u8]) -> (r: Option<String>)
    ensures
        opt_chars(r) == wm_class_field(class_bytes@),
        r matches Some(c) ==> clean_class(c@),
{
    let end = nul_position(class_bytes);
    let field = vstd::slice::slice_subrange(class_bytes, 0, end);
    assert(field@ == before_nul(class_bytes@));
    proof {
        lemma_cut_at_first_nul(class_bytes@);
    }
    let decoded = decode_lossy(field);
    proof {
        let t = decoded@;
        lemma_trim_is_trimmed(t);
        if trim(t).len() > 0 {
            let (i, j) = choose|i: int, j: int| 0 <= i <= j <= t.len() && trim(t) == t.subrange(i, j);
            assert forall|k: int| 0 <= k < trim(t).len() implies trim(t)[k] != '\0' by {
                assert(trim(t)[k] == t[i + k]);
            }
        }
    }
    class_from_text(decoded.as_str())
}

/// The class reported for a `WM_CLASS` property: the class (second) half
/// wins, and the instance (first) half is used only when the class half
/// yields nothing. This agrees with the sway backend's XWayland fallback.
pub fn wm_class_name(class: &[u8], instance: &[u8]) -> (r: Option<String>)
    ensures
        opt_chars(r) == prefer(wm_class_field(class@), wm_class_field(instance@)),
        r matches Some(c) ==> clean_class(c@),
{
    let from_class = parse_wm_class(class);
    if from_class.is_some() {
        return from_class;
    }
    parse_wm_class(instance)
}

/// The class of the focused window, from its `WM_CLASS` reply given as
/// `(instance, class)`: `None` stands for every way of getting no reply (the
/// active window could not be found, it has no `WM_CLASS`, or the request
/// failed), and gives no class; a reply gives `wm_class_name` of its halves.
pub fn focused_window_class(wm_class: Option<(&[u8], &[u8])>) -> (r: Option<String>)
    ensures
        wm_class is None ==> r is None,
        wm_class matches Some((instance, class)) ==> opt_chars(r) == prefer(
            wm_class_field(class@),
            wm_class_field(instance@),
        ),
        r matches Some(c) ==> clean_class(c@),
{
    match wm_class {
        Some((instance, class)) => wm_class_name(class, instance),
        None => None,
    }
}

/// Why no active window could be read from `_NET_ACTIVE_WINDOW`.
#[derive(Debug, Clone, Copy, PartialEq, Eq, Structural)]
pub enum ActiveWindowError {
    /// The property holds no value.
    EmptyValue,
    /// The property holds window 0: the root window has focus.
    RootFocused,
}

/// The window id in a `_NET_ACTIVE_WINDOW` property reply holding
/// `value_len` items in the bytes `value` (a 32-bit window id in the
/// machine's byte order): an error if it holds nothing, or if it names
/// window 0.
pub fn active_window_id(value_len: u32, value: &[u8]) -> (r: Result<u32, ActiveWindowError>)
    requires
        value_len == 0 || value@.len() >= 4,
    ensures
        value_len == 0 ==> r == Err::<u32, ActiveWindowError>(ActiveWindowError::EmptyValue),
        value_len != 0 ==> (r == Err::<u32, ActiveWindowError>(ActiveWindowError::RootFocused)
            <==> (value@[0] == 0 && value@[1] == 0 && value@[2] == 0 && value@[3] == 0)),
        r matches Ok(id) ==> id != 0 && (id == value@[0] + 256 * value@[1] + 65536 * value@[2]
            + 16777216 * value@[3] || id == value@[3] + 256 * value@[2] + 65536 * value@[1]
            + 16777216 * value@[0]),
{
    if value_len == 0 {
        return Err(ActiveWindowError::EmptyValue);
    }
    let bytes: [u8; 4] = [value[0], value[1], value[2], value[3]];
    let id = u32_from_ne_bytes(bytes);
    if id == 0 {
        Err(ActiveWindowError::RootFocused)
    } else {
        Ok(id)
    }
}

/// The X11 window id written in `id` (as `get_focused_window` reports it),
/// or none if it is not a `u32`.
pub fn parse_window_id(id: &str) -> (r: Option<u32>)
    ensures
        r is Some <==> (decimal_value(id@) matches Some(v) && 0 <= v <= u32::MAX && !(id@.len() > 0
            && id@[0] == '-')),
        r matches Some(w) ==> decimal_value(id@) == Some(w as int),
{
    parse_u32(id)
}

/// A class that is present is never empty and has no white space at either
/// end; when the bytes before the cut are valid UTF-8 it also holds no NUL,
/// so it can match a terminal-list entry.
pub proof fn lemma_present_class_is_clean(b: Seq<u8>)
    ensures
        wm_class_field(b) matches Some(c) ==> {
            &&& c.len() > 0
            &&& !is_white_space(c[0])
            &&& !is_white_space(c.last())
        },
        valid_utf8(before_nul(b)) ==> (wm_class_field(b) matches Some(c) ==> forall|k: int|
            0 <= k < c.len() ==> c[k] != '\0'),
{
    lemma_trim_is_trimmed(decoded(before_nul(b)));
    lemma_cut_at_first_nul(b);
    if valid_utf8(before_nul(b)) {
        let t = decode_utf8(before_nul(b));
        assert forall|i: int| 0 <= i < before_nul(b).len() implies before_nul(b)[i] != 0 by {
            assert(before_nul(b)[i] == b[i]);
        }
        lemma_decode_has_no_nul(before_nul(b));
        lemma_trim_is_trimmed(t);
        if trim(t).len() > 0 {
            let (i, j) = choose|i: int, j: int| 0 <= i <= j <= t.len() && trim(t) == t.subrange(i, j);
            assert forall|k: int| 0 <= k < trim(t).len() implies trim(t)[k] != '\0' by {
                assert(trim(t)[k] == t[i + k]);
            }
        }
    }
}

/// Valid UTF-8 without a zero byte decodes to text without NUL: U+0000 has
/// no encoding but the zero byte.
proof fn lemma_decode_has_no_nul(b: Seq<u8>)
    requires
        valid_utf8(b),
        forall|i: int| 0 <= i < b.len() ==> b[i] != 0,
    ensures
        forall|k: int| 0 <= k < decode_utf8(b).len() ==> decode_utf8(b)[k] != '\0',
    decreases b.len(),
{
    if b.len() > 0 {
        assert(valid_first_scalar(b));
        let n = length_of_first_scalar(b);
        assert(1 <= n <= b.len());
        let rest = pop_first_scalar(b);
        assert forall|i: int| 0 <= i < rest.len() implies rest[i] != 0 by {
            assert(rest[i] == b[i + n]);
        }
        lemma_decode_has_no_nul(rest);
        let c = decode_first_scalar(b);
        if is_leading_byte_width_1(b[0]) {
            let b0 = b[0];
            assert(b0 != 0 && b0 <= 0x7f ==> (b0 & 0x7f) != 0) by (bit_vector);
        }
        decode_utf8_first_scalar(b);
        if c as char == '\0' {
            let z: u32 = 0;
            assert(('\0' as u32) == z);
            assert((0u32 & 0x7fu32) as u8 == 0u8) by (bit_vector);
            assert(encode_scalar(z) == seq![leading_byte_width_1(z)]);
            assert(take_first_scalar(b)[0] == b[0]);
        }
        let d = decode_utf8(b);
        assert(d == seq![c as char] + decode_utf8(rest));
        assert forall|k: int| 0 <= k < d.len() implies d[k] != '\0' by {
            if k > 0 {
                assert(d[k] == decode_utf8(rest)[k - 1]);
            }
        }
    }
}

/// The sway backend resolves an XWayland view (one without a usable
/// `app_id`) by the rule this backend uses for `WM_CLASS`: each half is
/// trimmed and dropped if empty, and the class half is preferred to the
/// instance half. The same terminal is thus classified alike under both.
pub proof fn lemma_xwayland_agrees_with_x11(n: SwayNode)
    requires
        usable(n.app_id) is None,
    ensures
        node_class(n) == prefer(
            match n.window_properties {
                Some(p) => match p.class {
                    Some(c) => class_text(c@),
                    None => None,
                },
                None => None,
            },
            match n.window_properties {
                Some(p) => match p.instance {
                    Some(i) => class_text(i@),
                    None => None,
                },
                None => None,
            },
        ),
{
}

/// A trailing NUL changes nothing: `b"World"` and `b"World\0"` name the
/// same class. More generally the field is cut at its first NUL, and what
/// is kept holds none.
pub proof fn lemma_trailing_nul_agrees(b: Seq<u8>)
    ensures
        before_nul(b.push(0)) == before_nul(b),
        wm_class_field(b.push(0)) == wm_class_field(b),
{
    lemma_first_nul_push(b);
    lemma_first_nul_bounds(b);
    assert(b.push(0).take(first_nul(b)) == b.take(first_nul(b)));
}

/// The cut is made at the first NUL: every kept byte is non-NUL, and the
/// byte at the cut, if any, is NUL.
pub proof fn lemma_cut_at_first_nul(b: Seq<u8>)
    ensures
        0 <= first_nul(b) <= b.len(),
        forall|k: int| 0 <= k < first_nul(b) ==> b[k] != 0,
        first_nul(b) < b.len() ==> b[first_nul(b)] == 0,
    decreases b.len(),
{
    if b.len() > 0 && b[0] != 0 {
        lemma_cut_at_first_nul(b.drop_first());
        assert forall|k: int| 0 <= k < first_nul(b) implies b[k] != 0 by {
            if k > 0 {
                assert(b[k] == b.drop_first()[k - 1]);
            }
        }
    }
}

proof fn lemma_first_nul_bounds(b: Seq<u8>)
    ensures
        0 <= first_nul(b) <= b.len(),
{
    lemma_cut_at_first_nul(b);
}

proof fn lemma_first_nul_push(b: Seq<u8>)
    ensures
        first_nul(b.push(0)) == first_nul(b),
    decreases b.len(),
{
    if b.len() > 0 && b[0] != 0 {
        assert(b.push(0).drop_first() == b.drop_first().push(0));
        lemma_first_nul_push(b.drop_first());
    }
}

} // verus!
