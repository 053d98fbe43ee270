//! Null-terminated UTF-16 buffers, the text representation the platform
//! networking API expects for every string it is handed.

use vstd::prelude::*;
use vstd::string::StrSliceExecFns;
use vstd::utf8::char_is_scalar;
use vstd::utf8::char_u32_cast;
use vstd::arithmetic::div_mod::lemma_fundamental_div_mod;

verus! {

/// The UTF-16 code units of a single character: one unit for a character in
/// the basic multilingual plane, a surrogate pair for anything above it.
pub open spec fn utf16_units(c: char) -> Seq<u16> {
    let v = c as u32;
    if v < 0x10000 {
        seq![v as u16]
    } else {
        seq![
            ((v - 0x10000) / 0x400 + 0xD800) as u16,
            ((v - 0x10000) % 0x400 + 0xDC00) as u16,
        ]
    }
}

/// The UTF-16 encoding of a character sequence, without any terminator.
pub open spec fn utf16_encode(s: Seq<char>) -> Seq<u16>
    decreases s.len(),
{
    if s.len() == 0 {
        Seq::empty()
    } else {
        utf16_units(s[0]) + utf16_encode(s.skip(1))
    }
}

/// The inverse reading of a UTF-16 unit sequence: `None` on a lone or
/// misordered surrogate, otherwise the decoded characters.
pub open spec fn utf16_decode(u: Seq<u16>) -> Option<Seq<char>>
    decreases u.len(),
{
    if u.len() == 0 {
        Some(Seq::empty())
    } else {
        let w = u[0] as u32;
        if w < 0xD800 || 0xE000 <= w {
            match utf16_decode(u.skip(1)) {
                Some(tail) => Some(seq![w as char] + tail),
                None => None,
            }
        } else if w < 0xDC00 && u.len() >= 2 && 0xDC00 <= u[1] as u32 && (u[1] as u32) < 0xE000 {
            let v = (0x10000 + (w - 0xD800) * 0x400 + (u[1] as u32 - 0xDC00)) as u32;
            match utf16_decode(u.skip(2)) {
                Some(tail) => Some(seq![v as char] + tail),
                None => None,
            }
        } else {
            None
        }
    }
}

/// Shape of a single character's code units: a basic-plane character yields
/// its own scalar value, anything higher a high and a low surrogate; a zero
/// unit appears exactly for the NUL character.
pub proof fn lemma_utf16_units_facts(c: char)
    ensures
        (c as u32) < 0x10000 ==> utf16_units(c).len() == 1 && utf16_units(c)[0] == c as u32
            && !(0xD800 <= utf16_units(c)[0] < 0xE000),
        (c as u32) >= 0x10000 ==> utf16_units(c).len() == 2
            && 0xD800 <= utf16_units(c)[0] < 0xDC00
            && 0xDC00 <= utf16_units(c)[1] < 0xE000,
        forall|j: int| 0 <= j < utf16_units(c).len() ==> ((utf16_units(c)[j] == 0) <==> c == '\0'),
{
    char_is_scalar(c);
    let v = c as u32;
    if v >= 0x10000 {
        let off = v - 0x10000;
        assert(0 <= off <= 0xFFFFF);
        assert(0 <= off / 0x400 <= 0x3FF) by (nonlinear_arith)
            requires 0 <= off <= 0xFFFFF;
        assert(0 <= off % 0x400 < 0x400);
    } else {
        if v == 0 {
            char_u32_cast(c, v);
            char_u32_cast('\0', 0);
        }
    }
}

/// A null-terminated UTF-16 buffer.
pub struct WideString {
    units: Vec<u16>,
}

impl View for WideString {
    type V = Seq<u16>;

    closed spec fn view(&self) -> Seq<u16> {
        self.units@
    }
}

impl WideString {
    /// Encode a string as UTF-16 and append the terminating zero unit.
    pub fn from(s: &str) -> (w: WideString)
        ensures
            w@ == utf16_encode(s@).push(0u16),
    {
        let n = s.unicode_len();
        let mut units: Vec<u16> = Vec::new();
        let mut i: usize = 0;
        while i < n
            invariant
                i <= n,
                n == s@.len(),
                units@ == utf16_encode(s@.take(i as int)),
            decreases n - i,
        {
            let c = s.get_char(i);
            let v = c as u32;
            if v < 0x10000 {
                units.push(v as u16);
            } else {
                let off = v - 0x10000;
                proof {
                    lemma_utf16_units_facts(c);
                    char_is_scalar(c);
                    assert(off / 0x400 <= 0x3FF) by (nonlinear_arith)
                        requires off <= 0xFFFFF;
                    assert(off % 0x400 < 0x400);
                }
                let hi: u16 = 0xD800 + (off / 0x400) as u16;
                let lo: u16 = 0xDC00 + (off % 0x400) as u16;
                units.push(hi);
                units.push(lo);
            }
            proof {
                lemma_utf16_encode_snoc(s@.take(i as int), s@[i as int]);
                assert(s@.take(i as int + 1) =~= s@.take(i as int).push(s@[i as int]));
                assert(units@ =~= utf16_encode(s@.take(i as int)) + utf16_units(s@[i as int]));
            }
            i += 1;
        }
        proof {
            assert(s@.take(n as int) =~= s@);
        }
        units.push(0u16);
        WideString { units }
    }

    /// The whole buffer, terminator included, ready for the platform call.
    pub fn units(&self) -> (u: &Vec<u16>)
        ensures
            u@ == self@,
    {
        &self.units
    }
}

/// Appending one character appends exactly that character's code units.
pub proof fn lemma_utf16_encode_snoc(s: Seq<char>, c: char)
    ensures
        utf16_encode(s.push(c)) == utf16_encode(s) + utf16_units(c),
    decreases s.len(),
{
    let t = s.push(c);
    assert(t.len() == s.len() + 1);
    if s.len() == 0 {
        assert(t[0] == c);
        assert(t.skip(1) =~= Seq::<char>::empty());
        assert(utf16_encode(t) == utf16_units(c) + utf16_encode(Seq::<char>::empty()));
        assert(utf16_encode(t) =~= utf16_encode(s) + utf16_units(c));
    } else {
        assert(t[0] == s[0]);
        assert(t.skip(1) =~= s.skip(1).push(c));
        lemma_utf16_encode_snoc(s.skip(1), c);
        assert(utf16_encode(t) == utf16_units(s[0]) + utf16_encode(t.skip(1)));
        assert(utf16_encode(t) =~= utf16_encode(s) + utf16_units(c));
    }
}

/// Decoding inverts encoding: the encoded form of any character sequence
/// decodes back to exactly that sequence.
pub proof fn lemma_utf16_round_trip(s: Seq<char>)
    ensures
        utf16_decode(utf16_encode(s)) == Some(s),
    decreases s.len(),
{
    if s.len() == 0 {
        assert(utf16_encode(s) =~= Seq::<u16>::empty());
    } else {
        let c = s[0];
        let v = c as u32;
        let u = utf16_encode(s);
        let head = utf16_units(c);
        let tail = utf16_encode(s.skip(1));
        assert(u == head + tail);
        char_is_scalar(c);
        lemma_utf16_units_facts(c);
        lemma_utf16_round_trip(s.skip(1));
        if v < 0x10000 {
            assert(u[0] == head[0]);
            assert(u[0] as u32 == v);
            assert(u.skip(1) =~= tail);
            char_u32_cast(c, v);
            assert(seq![c] + s.skip(1) =~= s);
        } else {
            let off = v - 0x10000;
            assert(0 <= off <= 0xFFFFF);
            assert(0 <= off / 0x400 <= 0x3FF) by (nonlinear_arith)
                requires 0 <= off <= 0xFFFFF;
            assert(0 <= off % 0x400 < 0x400);
            assert(u[0] == head[0]);
            assert(u[1] == head[1]);
            assert(u.skip(2) =~= tail);
            let w = u[0] as u32;
            assert(w == off / 0x400 + 0xD800);
            assert(u[1] as u32 == off % 0x400 + 0xDC00);
            lemma_fundamental_div_mod(off as int, 0x400);
            assert(0x10000 + (w - 0xD800) * 0x400 + (u[1] as u32 - 0xDC00) == v);
            char_u32_cast(c, v);
            assert(seq![c] + s.skip(1) =~= s);
        }
    }
}

/// A character other than NUL contributes no zero code unit.
pub proof fn lemma_utf16_encode_no_zero_units(s: Seq<char>)
    requires
        forall|i: int| 0 <= i < s.len() ==> s[i] != '\0',
    ensures
        forall|j: int| 0 <= j < utf16_encode(s).len() ==> utf16_encode(s)[j] != 0,
    decreases s.len(),
{
    if s.len() != 0 {
        lemma_utf16_encode_no_zero_units(s.skip(1));
        lemma_utf16_units_facts(s[0]);
        let head = utf16_units(s[0]);
        let tail = utf16_encode(s.skip(1));
        assert(utf16_encode(s) == head + tail);
        assert forall|j: int| 0 <= j < utf16_encode(s).len() implies utf16_encode(s)[j] != 0 by {
            if j < head.len() {
                assert(utf16_encode(s)[j] == head[j]);
                assert(s[0] != '\0');
            } else {
                assert(utf16_encode(s)[j] == tail[j - head.len()]);
            }
        }
    }
}

/// For a NUL-free input the terminated buffer ends with exactly one zero
/// unit: the appended terminator is its only zero.
pub proof fn lemma_single_terminator(s: Seq<char>)
    requires
        forall|i: int| 0 <= i < s.len() ==> s[i] != '\0',
    ensures
        forall|j: int| 0 <= j < utf16_encode(s).push(0u16).len() ==>
            ((utf16_encode(s).push(0u16)[j] == 0) <==> j == utf16_encode(s).len()),
{
    lemma_utf16_encode_no_zero_units(s);
}

} // verus!
