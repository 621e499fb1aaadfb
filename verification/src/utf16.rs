//! UTF-16, the text form of the wide Win32 APIs.

use vstd::prelude::*;

verus! {

/// `char::from_u32` from std: every Unicode scalar value has its character and
/// no other number has one.
pub assume_specification[ char::from_u32 ](n: u32) -> (r: Option<char>)
    ensures
        r is Some <==> (n < 0xD800 || 0xE000 <= n <= 0x10FFFF),
        r matches Some(c) ==> c as u32 == n,
;

/// A character is a Unicode scalar value, and casting its number back gives the
/// character.
pub proof fn lemma_scalar(c: char)
    ensures
        0 <= (c as int) && (c as int) <= 0x10FFFF,
        (c as int) < 0xD800 || 0xE000 <= (c as int),
        (c as int) as char == c,
        c as u32 == c as int,
{
}

/// The code units of one character: the number itself, or a surrogate pair.
pub open spec fn units_of(c: char) -> Seq<u16> {
    let n = c as int;
    if n < 0x10000 {
        seq![n as u16]
    } else {
        seq![
            (0xD800 + (n - 0x10000) / 0x400) as u16,
            (0xDC00 + (n - 0x10000) % 0x400) as u16,
        ]
    }
}

/// The code units of a text.
pub open spec fn encoded(s: Seq<char>) -> Seq<u16>
    decreases s.len(),
{
    if s.len() == 0 {
        Seq::empty()
    } else {
        encoded(s.drop_last()) + units_of(s.last())
    }
}

/// The null-terminated code units of a text.
pub open spec fn wide_form(s: Seq<char>) -> Seq<u16> {
    encoded(s).push(0)
}

/// Whether `u` opens a surrogate pair.
pub open spec fn is_high(u: u16) -> bool {
    0xD800 <= u < 0xDC00
}

/// Whether `u` closes a surrogate pair.
pub open spec fn is_low(u: u16) -> bool {
    0xDC00 <= u < 0xE000
}

/// The character of a surrogate pair.
pub open spec fn paired_char(high: u16, low: u16) -> char {
    (0x10000 + (high - 0xD800) * 0x400 + (low - 0xDC00)) as char
}

/// The text of a run of code units, with the replacement character for every
/// surrogate that has no partner.
pub open spec fn decoded(u: Seq<u16>) -> Seq<char>
    decreases u.len(),
{
    if u.len() == 0 {
        Seq::empty()
    } else if !is_high(u[0]) && !is_low(u[0]) {
        seq![u[0] as char] + decoded(u.skip(1))
    } else if is_high(u[0]) && u.len() >= 2 && is_low(u[1]) {
        seq![paired_char(u[0], u[1])] + decoded(u.skip(2))
    } else {
        seq!['\u{FFFD}'] + decoded(u.skip(1))
    }
}

/// UTF-16, null-terminated: the form the wide Win32 APIs expect.
pub fn wide(s: &str) -> (r: Vec<u16>)
    ensures
        r@ == wide_form(s@),
{
    let mut out: Vec<u16> = Vec::new();
    for c in it: s.chars()
        invariant
            it.seq() == s@,
            out@ == encoded(it.seq().take(it.index())),
    {
        let ghost before = out@;
        let ghost k = it.index();
        proof {
            lemma_scalar(c);
        }
        let n: u32 = c as u32;
        if n < 0x10000 {
            out.push(n as u16);
        } else {
            let m: u32 = n - 0x10000;
            out.push((0xD800 + m / 0x400) as u16);
            out.push((0xDC00 + m % 0x400) as u16);
        }
        assert(out@ =~= before + units_of(c));
        assert(it.seq().take(k + 1).drop_last() =~= it.seq().take(k));
        assert(it.seq().take(k + 1).last() == c);
    }
    assert(s@.take(s@.len() as int) =~= s@);
    out.push(0);
    out
}

/// Decodes UTF-16 and replaces what is not well-formed.
pub fn from_utf16_lossy(u: &Vec<u16>) -> (r: String)
    ensures
        r@ == decoded(u@),
{
    let mut s = String::new();
    let mut i: usize = 0;
    assert(u@.skip(0) =~= u@);
    while i < u.len()
        invariant
            i <= u.len(),
            decoded(u@) == s@ + decoded(u@.skip(i as int)),
        decreases u.len() - i,
    {
        let ghost before = s@;
        let ghost rest = u@.skip(i as int);
        let a: u16 = u[i];
        assert(rest[0] == a);
        assert(rest.skip(1) =~= u@.skip(i + 1));
        if a < 0xD800 || 0xE000 <= a {
            match char::from_u32(a as u32) {
                Some(c) => {
                    proof {
                        lemma_scalar(c);
                    }
                    assert(c == a as char);
                    s.push(c);
                },
                None => {},
            }
            i = i + 1;
            assert(s@ + decoded(u@.skip(i as int)) =~= before + decoded(rest));
        } else if a < 0xDC00 && i + 1 < u.len() && 0xDC00 <= u[i + 1] && u[i + 1] < 0xE000 {
            let b: u16 = u[i + 1];
            assert(rest[1] == b);
            assert(rest.skip(2) =~= u@.skip(i + 2));
            let n: u32 = 0x10000 + (a as u32 - 0xD800) * 0x400 + (b as u32 - 0xDC00);
            match char::from_u32(n) {
                Some(c) => {
                    proof {
                        lemma_scalar(c);
                    }
                    assert(c == paired_char(a, b));
                    s.push(c);
                },
                None => {},
            }
            i = i + 2;
            assert(s@ + decoded(u@.skip(i as int)) =~= before + decoded(rest));
        } else {
            s.push('\u{FFFD}');
            i = i + 1;
            assert(s@ + decoded(u@.skip(i as int)) =~= before + decoded(rest));
        }
    }
    assert(u@.skip(u.len() as int) =~= Seq::<u16>::empty());
    assert(s@ + decoded(Seq::<u16>::empty()) =~= s@);
    s
}

/// Encoding the first character first is the same as encoding the last one
/// last.
proof fn lemma_encode_front(s: Seq<char>)
    requires
        s.len() > 0,
    ensures
        encoded(s) == units_of(s[0]) + encoded(s.skip(1)),
    decreases s.len(),
{
    if s.len() == 1 {
        assert(s.drop_last() =~= Seq::<char>::empty());
        assert(s.skip(1) =~= Seq::<char>::empty());
        assert(encoded(s) =~= units_of(s[0]) + encoded(s.skip(1)));
    } else {
        let t = s.drop_last();
        lemma_encode_front(t);
        assert(t.skip(1) =~= s.skip(1).drop_last());
        assert(s.skip(1).last() == s.last());
        assert(encoded(s) =~= units_of(s[0]) + encoded(s.skip(1)));
    }
}

/// Decoding gives back what was encoded, for every text.
pub proof fn law_utf16_round_trip(s: Seq<char>)
    ensures
        decoded(encoded(s)) == s,
    decreases s.len(),
{
    if s.len() == 0 {
        assert(s =~= Seq::<char>::empty());
    } else {
        let c = s[0];
        let n = c as int;
        let rest = s.skip(1);
        let u = encoded(s);
        lemma_scalar(c);
        lemma_encode_front(s);
        law_utf16_round_trip(rest);
        if n < 0x10000 {
            assert(u[0] == n);
            assert(u.skip(1) =~= encoded(rest));
            assert(u[0] as char == c);
        } else {
            assert(u[0] == units_of(c)[0]);
            assert(u[1] == units_of(c)[1]);
            assert(u.skip(2) =~= encoded(rest));
            assert(is_high(u[0]) && is_low(u[1]));
            assert(paired_char(u[0], u[1]) == c);
        }
        assert(decoded(u) =~= seq![c] + rest);
        assert(s =~= seq![c] + rest);
    }
}

/// The terminator of a text without null characters is the only null in it.
pub proof fn law_wide_is_terminated_once(s: Seq<char>)
    requires
        forall|i: int| 0 <= i < s.len() ==> #[trigger] s[i] as int != 0,
    ensures
        forall|i: int|
            0 <= i < wide_form(s).len() ==> (#[trigger] wide_form(s)[i] == 0 <==> i
                == wide_form(s).len() - 1),
    decreases s.len(),
{
    if s.len() > 0 {
        let t = s.drop_last();
        assert forall|i: int| 0 <= i < t.len() implies #[trigger] t[i] as int != 0 by {
            assert(t[i] == s[i]);
        }
        law_wide_is_terminated_once(t);
        let a = encoded(t);
        let b = units_of(s.last());
        lemma_scalar(s.last());
        assert(s[s.len() - 1] as int != 0);
        assert forall|i: int| 0 <= i < wide_form(s).len() implies (#[trigger] wide_form(s)[i] == 0
            <==> i == wide_form(s).len() - 1) by {
            if i < a.len() {
                assert(wide_form(s)[i] == a[i]);
                assert(wide_form(t)[i] == a[i]);
            } else if i < a.len() + b.len() {
                assert(wide_form(s)[i] == b[i - a.len()]);
            }
        }
    }
}

/// Encoding goes character by character.
proof fn lemma_encode_append(a: Seq<char>, b: Seq<char>)
    ensures
        encoded(a + b) == encoded(a) + encoded(b),
    decreases b.len(),
{
    if b.len() == 0 {
        assert(a + b =~= a);
        assert(encoded(a) + encoded(b) =~= encoded(a));
    } else {
        let c = b.drop_last();
        lemma_encode_append(a, c);
        assert((a + b).drop_last() =~= a + c);
        assert((a + b).last() == b.last());
        assert(encoded(a + b) =~= encoded(a) + encoded(b));
    }
}

/// What UTF-16 is: a text is encoded piece by piece with one terminator at the
/// end; a character below 0x10000 is its own unit, and any other is a high and a
/// low surrogate that carry its number above 0x10000, ten bits each.
pub proof fn law_wide_is_utf16(a: Seq<char>, b: Seq<char>, c: char)
    ensures
        wide_form(a + b) == wide_form(a).drop_last() + wide_form(b),
        wide_form(Seq::<char>::empty()) == seq![0u16],
        (c as int) < 0x10000 ==> wide_form(seq![c]).len() == 2 && wide_form(seq![c])[0] == c as int,
        0x10000 <= (c as int) ==> {
            let w = wide_form(seq![c]);
            &&& w.len() == 3
            &&& 0xD800 <= w[0] && w[0] < 0xDC00
            &&& 0xDC00 <= w[1] && w[1] < 0xE000
            &&& c as int == 0x10000 + (w[0] - 0xD800) * 0x400 + (w[1] - 0xDC00)
        },
        wide_form(seq![c]).last() == 0,
{
    lemma_encode_append(a, b);
    assert(wide_form(a).drop_last() =~= encoded(a));
    assert(wide_form(a + b) =~= wide_form(a).drop_last() + wide_form(b));
    assert(encoded(Seq::<char>::empty()) =~= Seq::<u16>::empty());
    assert(wide_form(Seq::<char>::empty()) =~= seq![0u16]);
    lemma_scalar(c);
    let s = seq![c];
    assert(s.drop_last() =~= Seq::<char>::empty());
    assert(encoded(s) =~= units_of(c));
}

/// What is not well-formed is replaced unit by unit, and nothing around it is
/// lost: a surrogate without a partner becomes the replacement character, and
/// the text in front of and behind it is decoded as if it stood alone.
pub proof fn law_lone_surrogates_are_replaced(text: Seq<char>, lone: u16, rest: Seq<u16>)
    requires
        0xD800 <= lone < 0xE000,
        lone < 0xDC00 ==> rest.len() == 0 || rest[0] < 0xDC00 || 0xE000 <= rest[0],
    ensures
        decoded(encoded(text) + seq![lone] + rest) == text + seq!['\u{FFFD}'] + decoded(rest),
    decreases text.len(),
{
    let tail = seq![lone] + rest;
    let u = encoded(text) + seq![lone] + rest;
    if text.len() == 0 {
        assert(u =~= tail);
        assert(tail[0] == lone);
        if rest.len() > 0 {
            assert(tail[1] == rest[0]);
        }
        assert(tail.skip(1) =~= rest);
        assert(decoded(u) =~= text + seq!['\u{FFFD}'] + decoded(rest));
    } else {
        let c = text[0];
        let more = text.skip(1);
        lemma_scalar(c);
        lemma_encode_front(text);
        law_lone_surrogates_are_replaced(more, lone, rest);
        let v = encoded(more) + seq![lone] + rest;
        let n = c as int;
        if n < 0x10000 {
            assert(u[0] == n);
            assert(u.skip(1) =~= v);
            assert(u[0] as char == c);
        } else {
            assert(u[0] == units_of(c)[0]);
            assert(u[1] == units_of(c)[1]);
            assert(u.skip(2) =~= v);
            assert(is_high(u[0]) && is_low(u[1]));
            assert(paired_char(u[0], u[1]) == c);
        }
        assert(decoded(u) == seq![c] + decoded(v));
        assert(text =~= seq![c] + more);
        assert(decoded(u) =~= text + seq!['\u{FFFD}'] + decoded(rest));
    }
}

} // verus!
