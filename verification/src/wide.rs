//! Endpoint paths as null-terminated wide-character strings.
//!
//! The platform's "open existing endpoint" call takes the endpoint path as a
//! null-terminated string of 16-bit units (UTF-16). This module states that
//! encoding as a specification and proves an executable encoder against it.

use vstd::prelude::*;

verus! {

broadcast use vstd::utf8::char_is_scalar;

/// The UTF-16 code units of a single character: one unit for a code point
/// below `0x10000`, otherwise a surrogate pair.
pub open spec fn utf16_units(c: char) -> Seq<u16> {
    let cp = c as u32;
    if cp < 0x10000 {
        seq![cp as u16]
    } else {
        seq![
            (0xD800 + ((cp - 0x10000) / 0x400)) as u16,
            (0xDC00 + ((cp - 0x10000) % 0x400)) as u16,
        ]
    }
}

/// The UTF-16 encoding of a character sequence: the units of each character,
/// in order.
pub open spec fn wide_of(s: Seq<char>) -> Seq<u16>
    decreases s.len(),
{
    if s.len() == 0 {
        Seq::empty()
    } else {
        wide_of(s.drop_last()) + utf16_units(s.last())
    }
}

proof fn lemma_wide_of_take_step(s: Seq<char>, i: int)
    requires
        0 <= i < s.len(),
    ensures
        wide_of(s.take(i + 1)) == wide_of(s.take(i)) + utf16_units(s[i]),
{
    assert(s.take(i + 1).drop_last() =~= s.take(i));
    assert(s.take(i + 1).last() == s[i]);
}

/// Encodes an endpoint path for the platform's open call: the UTF-16 code
/// units of the path followed by a single terminating zero unit.
pub fn encode_endpoint(path: &str) -> (r: Vec<u16>)
    ensures
        r@ == wide_of(path@).push(0u16),
{
    let n = path.unicode_len();
    let mut out: Vec<u16> = Vec::new();
    let mut i: usize = 0;
    while i < n
        invariant
            i <= n,
            n == path@.len(),
            out@ == wide_of(path@.take(i as int)),
        decreases n - i,
    {
        let c = path.get_char(i);
        proof {
            lemma_wide_of_take_step(path@, i as int);
        }
        let cp: u32 = c as u32;
        if cp < 0x10000 {
            out.push(cp as u16);
            assert(out@ =~= wide_of(path@.take(i as int)) + utf16_units(c));
        } else {
            let v: u32 = cp - 0x10000;
            assert(v / 0x400 < 0x400) by (nonlinear_arith)
                requires
                    v <= 0xFFFFF,
            ;
            let hi: u16 = 0xD800 + (v / 0x400) as u16;
            let lo: u16 = 0xDC00 + (v % 0x400) as u16;
            out.push(hi);
            out.push(lo);
            assert(out@ =~= wide_of(path@.take(i as int)) + utf16_units(c));
        }
        i = i + 1;
    }
    assert(path@.take(n as int) =~= path@);
    out.push(0u16);
    out
}

/// Law: the encoding ends in the terminator, and for a path without NUL
/// characters the terminator is the only zero unit, so the platform's
/// C-string reading of the buffer sees the whole path.
pub proof fn lemma_terminator_is_unique_zero(s: Seq<char>)
    requires
        forall|i: int| 0 <= i < s.len() ==> s[i] != '\0',
    ensures
        wide_of(s).push(0u16).last() == 0u16,
        forall|j: int| 0 <= j < wide_of(s).len() ==> wide_of(s)[j] != 0u16,
    decreases s.len(),
{
    if s.len() > 0 {
        let t = s.drop_last();
        assert(forall|i: int| 0 <= i < t.len() ==> t[i] != '\0');
        lemma_terminator_is_unique_zero(t);
        let c = s.last();
        let u = utf16_units(c);
        let cp = c as u32;
        if cp == 0 {
            vstd::utf8::char_u32_cast(c, 0u32);
            vstd::utf8::char_u32_cast('\0', 0u32);
            assert(false);
        }
        if cp < 0x10000 {
            assert(u[0] != 0u16);
        } else {
            vstd::utf8::char_is_scalar(c);
            assert(cp <= 0x10FFFF);
            assert((cp - 0x10000) / 0x400 < 0x400) by (nonlinear_arith)
                requires
                    0x10000 <= cp <= 0x10FFFF,
            ;
            assert((cp - 0x10000) / 0x400 >= 0) by (nonlinear_arith)
                requires
                    0x10000 <= cp,
            ;
            assert(u[0] != 0u16);
            assert(u[1] != 0u16);
        }
        assert(wide_of(s) == wide_of(t) + u);
        assert(forall|j: int| 0 <= j < u.len() ==> u[j] != 0u16);
        assert(forall|j: int| 0 <= j < wide_of(s).len() ==> wide_of(s)[j] != 0u16);
    }
}

} // verus!
