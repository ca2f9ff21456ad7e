//! Conversion of text to the nul-terminated UTF-16 form that native window
//! APIs take.

use vstd::prelude::*;

verus! {

/// The UTF-16 code units of one character: scalars below 0x10000 are one
/// unit, all others a surrogate pair.
pub open spec fn spec_utf16_units(c: char) -> Seq<u16> {
    let v = c as u32;
    if v < 0x10000 {
        seq![v as u16]
    } else {
        seq![
            ((v - 0x10000) / 0x400 + 0xD800) as u16,
            ((v - 0x10000) % 0x400 + 0xDC00) as u16,
        ]
    }
}

/// The UTF-16 encoding of a character sequence.
pub open spec fn spec_utf16(s: Seq<char>) -> Seq<u16>
    decreases s.len(),
{
    if s.len() == 0 {
        Seq::empty()
    } else {
        spec_utf16_units(s[0]) + spec_utf16(s.drop_first())
    }
}

proof fn lemma_utf16_push(s: Seq<char>, c: char)
    ensures
        spec_utf16(s.push(c)) == spec_utf16(s) + spec_utf16_units(c),
    decreases s.len(),
{
    if s.len() == 0 {
        assert(s.push(c)[0] == c);
        assert(s.push(c).drop_first() =~= Seq::<char>::empty());
        assert(spec_utf16(s.push(c)) == spec_utf16_units(c) + spec_utf16(Seq::<char>::empty()));
        assert(spec_utf16(s.push(c)) =~= spec_utf16(s) + spec_utf16_units(c));
    } else {
        assert(s.push(c).drop_first() =~= s.drop_first().push(c));
        lemma_utf16_push(s.drop_first(), c);
        assert(spec_utf16(s.push(c)) =~= spec_utf16(s) + spec_utf16_units(c));
    }
}

/// Convert to a nul-terminated UTF-16 buffer, as native window APIs take it.
pub trait ToUTF16String {
    /// The characters being encoded.
    spec fn text_view(&self) -> Seq<char>;

    fn to_utf16(&self) -> (r: Vec<u16>)
        ensures
            r@ == spec_utf16(self.text_view()).push(0u16),
    ;
}

impl ToUTF16String for String {
    open spec fn text_view(&self) -> Seq<char> {
        self@
    }

    fn to_utf16(&self) -> (r: Vec<u16>) {
        let s = self.as_str();
        let n = s.unicode_len();
        let mut r: Vec<u16> = Vec::new();
        let mut i: usize = 0;
        proof {
            assert(s@.subrange(0, 0) =~= Seq::<char>::empty());
        }
        while i < n
            invariant
                i <= n,
                n == s@.len(),
                s@ == self@,
                r@ == spec_utf16(s@.subrange(0, i as int)),
            decreases n - i,
        {
            let c = s.get_char(i);
            let v = c as u32;
            proof {
                vstd::utf8::char_is_scalar(c);
            }
            if v < 0x10000 {
                r.push(v as u16);
            } else {
                let w = v - 0x10000;
                r.push((w / 0x400 + 0xD800) as u16);
                r.push((w % 0x400 + 0xDC00) as u16);
            }
            proof {
                lemma_utf16_push(s@.subrange(0, i as int), c);
                assert(s@.subrange(0, i as int).push(c) =~= s@.subrange(0, i as int + 1));
                assert(r@ =~= spec_utf16(s@.subrange(0, i as int + 1)));
            }
            i += 1;
        }
        proof {
            assert(s@.subrange(0, n as int) =~= s@);
        }
        r.push(0);
        r
    }
}

} // verus!
