//! Wide strings: text in UTF-16, as Windows takes it.

use vstd::prelude::*;

use crate::text::chars_of;

verus! {

/// The one or two UTF-16 units of a character.
pub open spec fn units(c: char) -> Seq<u16> {
    let v = c as u32 as int;
    if v < 0x1_0000 {
        seq![v as u16]
    } else {
        seq![(0xd800 + (v - 0x1_0000) / 0x400) as u16, (0xdc00 + (v - 0x1_0000) % 0x400) as u16]
    }
}

/// A text in UTF-16.
pub open spec fn utf16(s: Seq<char>) -> Seq<u16>
    decreases s.len(),
{
    if s.len() == 0 {
        Seq::empty()
    } else {
        utf16(s.drop_last()) + units(s.last())
    }
}

fn push_units(v: &mut Vec<u16>, c: char)
    ensures
        final(v)@ == old(v)@ + units(c),
{
    let code: u32 = c as u32;
    if code < 0x1_0000 {
        v.push(code as u16);
    } else {
        v.push((0xd800 + (code - 0x1_0000) / 0x400) as u16);
        v.push((0xdc00 + (code - 0x1_0000) % 0x400) as u16);
    }
    assert(v@ =~= old(v)@ + units(c));
}

fn encode(s: &str) -> (v: Vec<u16>)
    ensures
        v@ == utf16(s@),
{
    let chars = chars_of(s);
    let mut v: Vec<u16> = Vec::new();
    let mut i: usize = 0;
    while i < chars.len()
        invariant
            chars@ == s@,
            i <= chars@.len(),
            v@ == utf16(s@.take(i as int)),
        decreases chars@.len() - i,
    {
        push_units(&mut v, chars[i]);
        assert(s@.take(i + 1).drop_last() =~= s@.take(i as int));
        i = i + 1;
    }
    assert(s@.take(i as int) =~= s@);
    v
}

/// The text in UTF-16 with a zero behind it.
pub fn wide(s: &str) -> (v: Vec<u16>)
    ensures
        v@ == utf16(s@).push(0),
{
    let mut v = encode(s);
    v.push(0);
    v
}

/// The text in a field of 256 units: cut after 255 of them, the rest filled with zeros.
pub fn wide_fixed(text: &str) -> (buffer: [u16; 256])
    ensures
        forall|i: int| #![trigger buffer@[i]]
            0 <= i < 256 ==> buffer@[i] == if i < 255 && i < utf16(text@).len() {
                utf16(text@)[i]
            } else {
                0
            },
{
    let v = encode(text);
    let mut buffer = [0u16; 256];
    let mut i: usize = 0;
    while i < 255 && i < v.len()
        invariant
            v@ == utf16(text@),
            i <= 255,
            i <= v@.len(),
            forall|j: int| #![trigger buffer@[j]]
                0 <= j < 256 ==> buffer@[j] == if j < i {
                    v@[j]
                } else {
                    0
                },
        decreases 255 - i,
    {
        buffer[i] = v[i];
        i = i + 1;
    }
    buffer
}

/// How many units stand before the first zero.
pub fn zero_at(v: &Vec<u16>) -> (end: usize)
    ensures
        end <= v@.len(),
        forall|i: int| 0 <= i < end ==> v@[i] != 0,
        end < v@.len() ==> v@[end as int] == 0,
{
    let mut end: usize = 0;
    while end < v.len() && v[end] != 0
        invariant
            end <= v@.len(),
            forall|i: int| 0 <= i < end ==> v@[i] != 0,
        decreases v@.len() - end,
    {
        end = end + 1;
    }
    end
}

/// The first unit of a pair that is one character.
pub open spec fn leads(u: u16) -> bool {
    0xd800 <= u < 0xdc00
}

/// The second unit of such a pair.
pub open spec fn trails(u: u16) -> bool {
    0xdc00 <= u < 0xe000
}

/// What a row of units says as text: a unit by itself or a pair is a character, and a half of a pair
/// without the other half becomes U+FFFD.
pub open spec fn lossy(units: Seq<u16>) -> Seq<char>
    decreases units.len(),
{
    if units.len() == 0 {
        Seq::empty()
    } else if !leads(units[0]) && !trails(units[0]) {
        seq![units[0] as char] + lossy(units.skip(1))
    } else if leads(units[0]) && units.len() > 1 && trails(units[1]) {
        seq![(0x1_0000 + (units[0] - 0xd800) * 0x400 + (units[1] - 0xdc00)) as char] + lossy(units.skip(2))
    } else {
        seq!['\u{fffd}'] + lossy(units.skip(1))
    }
}

/// `String::from_utf16_lossy`: decodes UTF-16, with U+FFFD for every surrogate that is not paired.
#[verifier::external_body]
fn decode(units: &Vec<u16>) -> (r: String)
    ensures
        r@ == lossy(units@),
{
    String::from_utf16_lossy(units)
}

/// What a row of units says as text. What was encoded comes back.
pub fn text_from(units: &Vec<u16>) -> (r: String)
    ensures
        r@ == lossy(units@),
        forall|s: Seq<char>| units@ == #[trigger] utf16(s) ==> r@ == s,
{
    proof {
        assert forall|s: Seq<char>| units@ == #[trigger] utf16(s) implies lossy(units@) == s by {
            law_encoded_text_comes_back(s);
        }
    }
    decode(units)
}

proof fn lemma_first_units(s: Seq<char>)
    requires
        s.len() > 0,
    ensures
        utf16(s) == units(s[0]) + utf16(s.skip(1)),
    decreases s.len(),
{
    if s.len() == 1 {
        assert(s.drop_last() =~= Seq::empty());
        assert(s.skip(1) =~= Seq::empty());
        assert(utf16(s) =~= units(s[0]) + utf16(s.skip(1)));
    } else {
        let earlier = s.drop_last();
        lemma_first_units(earlier);
        assert(s.skip(1).drop_last() =~= earlier.skip(1));
        assert(utf16(s) =~= units(s[0]) + utf16(s.skip(1)));
    }
}

/// A text that was written in UTF-16 is read again as it was.
pub proof fn law_encoded_text_comes_back(s: Seq<char>)
    ensures
        lossy(utf16(s)) == s,
    decreases s.len(),
{
    if s.len() == 0 {
        assert(s =~= Seq::empty());
    } else {
        let rest = s.skip(1);
        let (c, all) = (s[0], utf16(s));
        lemma_first_units(s);
        law_encoded_text_comes_back(rest);
        lemma_units(c);
        lemma_read_again(c);
        if units(c).len() == 1 {
            assert(all.skip(1) =~= utf16(rest));
            assert(all[0] == units(c)[0]);
        } else {
            assert(all.skip(2) =~= utf16(rest));
            assert(all[0] == units(c)[0] && all[1] == units(c)[1]);
        }
        assert(lossy(all) =~= seq![c] + rest);
        assert(s =~= seq![c] + rest);
    }
}

proof fn lemma_read_again(c: char)
    ensures
        units(c).len() == 1 ==> units(c)[0] as char == c,
        units(c).len() == 2 ==> leads(units(c)[0]) && trails(units(c)[1]) && (0x1_0000 + (units(c)[0] - 0xd800) * 0x400 + (
        units(c)[1] - 0xdc00)) as char == c,
{
    lemma_units(c);
    let v = c as u32 as int;
    assert(v <= 0x10_ffff);
    if v >= 0x1_0000 {
        let w = v - 0x1_0000;
        assert(w / 0x400 < 0x400);
    }
}

proof fn lemma_units(c: char)
    ensures
        c != '\0' ==> forall|i: int| 0 <= i < units(c).len() ==> #[trigger] units(c)[i] != 0,
        units(c).len() == 1 || units(c).len() == 2,
        units(c).len() == 1 ==> units(c)[0] == c as u32 && !(0xd800 <= units(c)[0] < 0xe000),
        units(c).len() == 2 ==> 0xdc00 <= units(c)[1] < 0xe000 && c as u32 == 0x1_0000 + (units(c)[0] - 0xd800) * 0x400
            + (units(c)[1] - 0xdc00),
{
    let v = c as u32 as int;
    assert(v <= 0x10_ffff);
    if v >= 0x1_0000 {
        let w = v - 0x1_0000;
        assert(w == (w / 0x400) * 0x400 + w % 0x400);
        assert(w / 0x400 < 0x400);
    }
}

proof fn lemma_units_tell_apart(c: char, d: char)
    requires
        units(c) == units(d),
    ensures
        c == d,
{
    lemma_units(c);
    lemma_units(d);
    assert(c as u32 == d as u32);
}

/// No character is the zero.
pub open spec fn without_zero(s: Seq<char>) -> bool {
    forall|i: int| 0 <= i < s.len() ==> #[trigger] s[i] != '\0'
}

/// A text without the zero has none in UTF-16 either, so that the zero behind it is the first.
pub proof fn law_zero_ends_the_text(s: Seq<char>)
    requires
        without_zero(s),
    ensures
        forall|i: int| 0 <= i < utf16(s).len() ==> #[trigger] utf16(s)[i] != 0,
    decreases s.len(),
{
    if s.len() > 0 {
        let earlier = s.drop_last();
        assert forall|i: int| 0 <= i < earlier.len() implies #[trigger] earlier[i] != '\0' by {
            assert(earlier[i] == s[i]);
        }
        law_zero_ends_the_text(earlier);
        assert(s[s.len() - 1] != '\0');
        lemma_units(s.last());
        let n = utf16(earlier).len();
        assert forall|i: int| 0 <= i < utf16(s).len() implies #[trigger] utf16(s)[i] != 0 by {
            if i < n {
                assert(utf16(s)[i] == utf16(earlier)[i]);
            } else {
                assert(utf16(s)[i] == units(s.last())[i - n]);
            }
        }
    }
}

/// Two texts that are the same in UTF-16 are the same.
pub proof fn law_utf16_tells_texts_apart(a: Seq<char>, b: Seq<char>)
    requires
        utf16(a) == utf16(b),
    ensures
        a == b,
    decreases a.len(),
{
    if a.len() == 0 {
        if b.len() > 0 {
            lemma_units(b.last());
            assert(utf16(b).len() > 0);
        }
        assert(a =~= b);
    } else if b.len() == 0 {
        lemma_units(a.last());
        assert(utf16(a).len() > 0);
    } else {
        let (u, v) = (units(a.last()), units(b.last()));
        let (x, y) = (utf16(a.drop_last()), utf16(b.drop_last()));
        let whole = utf16(a);
        let n = whole.len() as int;
        lemma_units(a.last());
        lemma_units(b.last());
        assert(whole == x + u && whole == y + v);
        assert(whole[n - 1] == u[u.len() - 1] && whole[n - 1] == v[v.len() - 1]);
        assert(u.len() == v.len());
        assert(x =~= whole.take(n - u.len()));
        assert(y =~= whole.take(n - v.len()));
        assert(u =~= whole.skip(n - u.len()));
        assert(v =~= whole.skip(n - v.len()));
        lemma_units_tell_apart(a.last(), b.last());
        law_utf16_tells_texts_apart(a.drop_last(), b.drop_last());
        assert(a =~= a.drop_last().push(a.last()));
        assert(b =~= b.drop_last().push(b.last()));
    }
}

/// A field of 256 units always ends with a zero, and holds a text of up to 255 units whole.
pub proof fn law_field_ends_with_zero(text: &str, buffer: [u16; 256], whole: Vec<u16>, i: int)
    requires
        call_ensures(wide_fixed, (text,), buffer),
        call_ensures(wide, (text,), whole),
        0 <= i < 256,
    ensures
        buffer@[255] == 0,
        whole@.last() == 0,
        i < 255 && i < whole@.len() ==> buffer@[i] == whole@[i],
        i >= whole@.len() ==> buffer@[i] == 0,
{
}

} // verus!
