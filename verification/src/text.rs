//! Small operations on text that the rest of the library needs: searching, cutting, comparing
//! without regard to ASCII case, and writing numbers.

use vstd::prelude::*;

verus! {

/// `String::push`: the character is added at the end.
pub assume_specification[ String::push ](text: &mut String, c: char)
    ensures
        final(text)@ == old(text)@.push(c),
;

/// The characters of a text.
pub fn chars_of(s: &str) -> (v: Vec<char>)
    ensures
        v@ == s@,
{
    let mut v: Vec<char> = Vec::new();
    for c in it: s.chars()
        invariant
            v@ == it.seq().take(it.index()),
            it.seq() == s@,
    {
        v.push(c);
    }
    v
}

/// The characters from `from` up to `to` as a text.
pub fn text_of(v: &Vec<char>, from: usize, to: usize) -> (s: String)
    requires
        from <= to <= v@.len(),
    ensures
        s@ == v@.subrange(from as int, to as int),
{
    let mut s = String::new();
    let mut i: usize = from;
    while i < to
        invariant
            from <= i <= to <= v@.len(),
            s@ == v@.subrange(from as int, i as int),
        decreases to - i,
    {
        s.push(v[i]);
        i = i + 1;
    }
    s
}

/// `needle` stands in `text` from position `at` on.
pub open spec fn stands_at(text: Seq<char>, needle: Seq<char>, at: int) -> bool {
    0 <= at && at + needle.len() <= text.len() && text.subrange(at, at + needle.len()) == needle
}

/// `needle` stands somewhere in `text`.
pub open spec fn occurs(text: Seq<char>, needle: Seq<char>) -> bool {
    exists|at: int| stands_at(text, needle, at)
}

/// Whether `needle` stands in `text` from position `at` on.
pub fn found_at(text: &Vec<char>, needle: &Vec<char>, at: usize) -> (r: bool)
    ensures
        r == stands_at(text@, needle@, at as int),
{
    if at > text.len() || needle.len() > text.len() - at {
        return false;
    }
    let mut i: usize = 0;
    while i < needle.len()
        invariant
            at + needle@.len() <= text.len(),
            i <= needle@.len(),
            forall|j: int| 0 <= j < i ==> text@[at + j] == needle@[j],
        decreases needle@.len() - i,
    {
        if text[at + i] != needle[i] {
            assert(text@.subrange(at as int, at + needle@.len())[i as int] != needle@[i as int]);
            return false;
        }
        i = i + 1;
    }
    assert(text@.subrange(at as int, at + needle@.len()) =~= needle@);
    true
}

/// Whether `needle` stands somewhere in `text`.
pub fn contains(text: &str, needle: &str) -> (r: bool)
    ensures
        r == occurs(text@, needle@),
{
    let t = chars_of(text);
    let n = chars_of(needle);
    let mut at: usize = 0;
    while at < t.len()
        invariant
            t@ == text@,
            n@ == needle@,
            at <= t@.len(),
            forall|j: int| 0 <= j < at ==> !stands_at(text@, needle@, j),
        decreases t@.len() - at,
    {
        if found_at(&t, &n, at) {
            return true;
        }
        at = at + 1;
    }
    let r = found_at(&t, &n, at);
    if !r {
        assert(forall|j: int| stands_at(text@, needle@, j) ==> j <= t@.len());
    }
    r
}

/// Whether two texts are the same.
pub fn same(a: &str, b: &str) -> (r: bool)
    ensures
        r == (a@ == b@),
{
    let x = chars_of(a);
    let y = chars_of(b);
    let r = x.len() == y.len() && found_at(&x, &y, 0);
    assert(x@.len() == y@.len() ==> x@.subrange(0, y@.len() as int) =~= x@);
    r
}

/// Whether `text` begins with `start`.
pub fn begins_with(text: &str, start: &str) -> (r: bool)
    ensures
        r == stands_at(text@, start@, 0),
{
    found_at(&chars_of(text), &chars_of(start), 0)
}

/// What follows `start`, if `text` begins with it.
pub open spec fn rest_after(text: Seq<char>, start: Seq<char>) -> Option<Seq<char>> {
    if stands_at(text, start, 0) {
        Some(text.subrange(start.len() as int, text.len() as int))
    } else {
        None
    }
}

/// What follows `start`, if `text` begins with it.
pub fn strip_start(text: &str, start: &str) -> (r: Option<String>)
    ensures
        (match r {
            Some(rest) => rest_after(text@, start@) == Some(rest@),
            None => rest_after(text@, start@) is None,
        }),
{
    let t = chars_of(text);
    let s = chars_of(start);
    if found_at(&t, &s, 0) {
        Some(text_of(&t, s.len(), t.len()))
    } else {
        None
    }
}

/// The capital letters A to Z as small ones, everything else unchanged.
pub open spec fn ascii_small(c: char) -> char {
    if 'A' <= c && c <= 'Z' {
        (c as u32 + 32) as char
    } else {
        c
    }
}

fn small(c: char) -> (r: char)
    ensures
        r == ascii_small(c),
{
    if 'A' <= c && c <= 'Z' {
        ((c as u8) + 32) as char
    } else {
        c
    }
}

/// Equal but for the case of the letters A to Z.
pub open spec fn same_but_case(a: Seq<char>, b: Seq<char>) -> bool {
    a.len() == b.len() && forall|i: int| 0 <= i < a.len() ==> ascii_small(#[trigger] a[i]) == ascii_small(b[i])
}

/// Whether two texts are equal but for the case of the letters A to Z.
pub fn same_ignoring_case(a: &str, b: &str) -> (r: bool)
    ensures
        r == same_but_case(a@, b@),
{
    let x = chars_of(a);
    let y = chars_of(b);
    if x.len() != y.len() {
        return false;
    }
    let mut i: usize = 0;
    while i < x.len()
        invariant
            x@ == a@,
            y@ == b@,
            x@.len() == y@.len(),
            i <= x@.len(),
            forall|j: int| 0 <= j < i ==> ascii_small(#[trigger] x@[j]) == ascii_small(y@[j]),
        decreases x@.len() - i,
    {
        if small(x[i]) != small(y[i]) {
            return false;
        }
        i = i + 1;
    }
    true
}

/// The digit `d`, below ten.
pub open spec fn digit(d: nat) -> char {
    ('0' as u32 + d) as char
}

/// `n` in decimal, without leading zeros.
pub open spec fn decimal(n: nat) -> Seq<char>
    decreases n,
{
    if n < 10 {
        seq![digit(n)]
    } else {
        decimal(n / 10).push(digit(n % 10))
    }
}

/// `n` in decimal, with a minus sign where it is negative.
pub open spec fn signed_decimal(n: int) -> Seq<char> {
    if n < 0 {
        seq!['-'] + decimal((-n) as nat)
    } else {
        decimal(n as nat)
    }
}

/// `n` in decimal.
pub fn number(n: u64) -> (s: String)
    ensures
        s@ == decimal(n as nat),
    decreases n,
{
    let mut s = if n < 10 {
        String::new()
    } else {
        number(n / 10)
    };
    s.push((48 + (n % 10) as u8) as char);
    s
}

/// `n` in decimal.
pub fn signed_number(n: i64) -> (s: String)
    ensures
        s@ == signed_decimal(n as int),
{
    if n < 0 {
        let mut s = String::new();
        s.push('-');
        let m: u64 = if n == i64::MIN {
            0x8000_0000_0000_0000
        } else {
            (-n) as u64
        };
        s.append(number(m).as_str());
        s
    } else {
        number(n as u64)
    }
}

/// The texts in a list.
pub open spec fn texts(list: Seq<String>) -> Seq<Seq<char>> {
    list.map_values(|t: String| t@)
}

/// The texts one after another with `separator` between them.
pub open spec fn joined(list: Seq<Seq<char>>, separator: Seq<char>) -> Seq<char>
    decreases list.len(),
{
    if list.len() == 0 {
        Seq::empty()
    } else if list.len() == 1 {
        list[0]
    } else {
        joined(list.drop_last(), separator) + separator + list.last()
    }
}

/// The texts one after another with `separator` between them.
pub fn join(list: &Vec<String>, separator: &str) -> (s: String)
    ensures
        s@ == joined(texts(list@), separator@),
{
    let mut s = String::new();
    let mut i: usize = 0;
    while i < list.len()
        invariant
            i <= list@.len(),
            s@ == joined(texts(list@).take(i as int), separator@),
        decreases list@.len() - i,
    {
        if i > 0 {
            s.append(separator);
        }
        s.append(list[i].as_str());
        proof {
            let next = texts(list@).take(i + 1);
            assert(next.drop_last() =~= texts(list@).take(i as int));
            assert(next.last() == list@[i as int]@);
        }
        i = i + 1;
    }
    assert(texts(list@).take(i as int) =~= texts(list@));
    s
}

/// `n` with at least two digits.
pub open spec fn two_digits(n: nat) -> Seq<char> {
    if n < 10 {
        seq!['0'] + decimal(n)
    } else {
        decimal(n)
    }
}

/// `n` with at least two digits.
pub fn padded(n: u64) -> (s: String)
    ensures
        s@ == two_digits(n as nat),
{
    if n < 10 {
        let mut s = String::new();
        s.push('0');
        s.append(number(n).as_str());
        s
    } else {
        number(n)
    }
}

/// The hexadecimal digit `d`, below sixteen.
pub open spec fn hex_digit(d: nat) -> char {
    if d < 10 {
        ('0' as u32 + d) as char
    } else {
        ('a' as u32 + (d - 10)) as char
    }
}

/// The lowest `width` hexadecimal digits of `n`.
pub open spec fn hex(n: nat, width: nat) -> Seq<char>
    decreases width,
{
    if width == 0 {
        Seq::empty()
    } else {
        hex(n / 16, (width - 1) as nat).push(hex_digit(n % 16))
    }
}

/// The lowest `width` hexadecimal digits of `n`.
pub fn hex_number(n: u32, width: u32) -> (s: String)
    ensures
        s@ == hex(n as nat, width as nat),
    decreases width,
{
    if width == 0 {
        return String::new();
    }
    let mut s = hex_number(n / 16, width - 1);
    let d: u8 = (n % 16) as u8;
    let c: char = if d < 10 {
        (48 + d) as char
    } else {
        (97 + (d - 10)) as char
    };
    s.push(c);
    s
}

/// The text without the `c`s at its end.
pub open spec fn without_trailing(s: Seq<char>, c: char) -> Seq<char>
    decreases s.len(),
{
    if s.len() > 0 && s.last() == c {
        without_trailing(s.drop_last(), c)
    } else {
        s
    }
}

/// The text without the `c`s at its beginning.
pub open spec fn without_leading(s: Seq<char>, c: char) -> Seq<char>
    decreases s.len(),
{
    if s.len() > 0 && s.first() == c {
        without_leading(s.drop_first(), c)
    } else {
        s
    }
}

/// The text without the `c`s at its end.
pub fn trim_trailing(text: &str, c: char) -> (r: String)
    ensures
        r@ == without_trailing(text@, c),
{
    let v = chars_of(text);
    let mut n: usize = v.len();
    assert(v@.take(n as int) =~= v@);
    while n > 0 && v[n - 1] == c
        invariant
            n <= v@.len(),
            v@ == text@,
            without_trailing(v@.take(n as int), c) == without_trailing(text@, c),
        decreases n,
    {
        assert(v@.take(n as int).drop_last() =~= v@.take(n - 1));
        n = n - 1;
    }
    assert(v@.subrange(0, n as int) =~= v@.take(n as int));
    text_of(&v, 0, n)
}

/// The text without the `c`s at its beginning.
pub fn trim_leading(text: &str, c: char) -> (r: String)
    ensures
        r@ == without_leading(text@, c),
{
    let v = chars_of(text);
    let mut n: usize = 0;
    assert(v@.skip(0) =~= v@);
    while n < v.len() && v[n] == c
        invariant
            n <= v@.len(),
            v@ == text@,
            without_leading(v@.skip(n as int), c) == without_leading(text@, c),
        decreases v@.len() - n,
    {
        assert(v@.skip(n as int).drop_first() =~= v@.skip(n + 1));
        n = n + 1;
    }
    assert(v@.subrange(n as int, v@.len() as int) =~= v@.skip(n as int));
    text_of(&v, n, v.len())
}

/// `at` is the last place at which `needle` stands in `text`.
pub open spec fn stands_last_at(text: Seq<char>, needle: Seq<char>, at: int) -> bool {
    stands_at(text, needle, at) && forall|j: int| stands_at(text, needle, j) ==> j <= at
}

/// What follows the last `needle` in `text`.
pub fn after_last(text: &str, needle: &str) -> (r: Option<String>)
    ensures
        r is None <==> !occurs(text@, needle@),
        r matches Some(rest) ==> exists|at: int| #[trigger]
            stands_last_at(text@, needle@, at) && rest@ == text@.subrange(at + needle@.len(), text@.len() as int),
{
    let t = chars_of(text);
    let n = chars_of(needle);
    if n.len() > t.len() {
        return None;
    }
    let mut at: usize = t.len() - n.len();
    while at > 0
        invariant
            t@ == text@,
            n@ == needle@,
            at + n@.len() <= t.len(),
            forall|j: int| stands_at(text@, needle@, j) ==> j <= at,
        decreases at,
    {
        if found_at(&t, &n, at) {
            assert(stands_last_at(text@, needle@, at as int));
            return Some(text_of(&t, at + n.len(), t.len()));
        }
        at = at - 1;
    }
    if found_at(&t, &n, 0) {
        assert(stands_last_at(text@, needle@, 0));
        Some(text_of(&t, n.len(), t.len()))
    } else {
        None
    }
}

/// A text is found exactly where it stands between any two others.
pub proof fn law_text_is_found(text: &str, needle: &str, before: Seq<char>, after: Seq<char>, r: bool)
    requires
        call_ensures(contains, (text, needle), r),
    ensures
        text@ == before + needle@ + after ==> r,
        r ==> exists|a: Seq<char>, b: Seq<char>| text@ == #[trigger] (a + needle@ + b),
{
    if text@ == before + needle@ + after {
        assert(text@.subrange(before.len() as int, before.len() as int + needle@.len()) =~= needle@);
        assert(stands_at(text@, needle@, before.len() as int));
    }
    if r {
        let at = choose|at: int| stands_at(text@, needle@, at);
        let (a, b) = (text@.subrange(0, at), text@.subrange(at + needle@.len(), text@.len() as int));
        assert(text@ =~= a + needle@ + b);
    }
}

/// What was put behind a beginning is what follows it.
pub proof fn law_beginning_is_taken_off(text: &str, start: &str, rest: Seq<char>, r: Option<String>)
    requires
        call_ensures(strip_start, (text, start), r),
    ensures
        text@ == start@ + rest ==> (r matches Some(s) && s@ == rest),
        r matches Some(s) ==> text@ == start@ + s@,
{
    if text@ == start@ + rest {
        assert(text@.subrange(0, start@.len() as int) =~= start@);
        assert(text@.subrange(start@.len() as int, text@.len() as int) =~= rest);
    }
    if let Some(s) = r {
        assert(text@ =~= start@ + s@);
    }
}

/// What decimal digits say.
pub open spec fn value_of(digits: Seq<char>) -> int
    decreases digits.len(),
{
    if digits.len() == 0 {
        0
    } else {
        10 * value_of(digits.drop_last()) + (digits.last() as u32 - 48)
    }
}

/// A number that was written down is read as what it was, and does not begin with a zero but where
/// it is one.
pub proof fn law_number_is_read_again(n: u64, s: String)
    requires
        call_ensures(number, (n,), s),
    ensures
        value_of(s@) == n,
        s@.len() >= 1,
        s@.len() > 1 ==> s@[0] != '0',
{
    lemma_decimal(n as nat);
}

proof fn lemma_digit(d: nat)
    requires
        d < 10,
    ensures
        digit(d) as u32 - 48 == d,
        d > 0 ==> digit(d) != '0',
{
}

proof fn lemma_decimal(n: nat)
    ensures
        value_of(decimal(n)) == n,
        decimal(n).len() >= 1,
        n > 0 ==> decimal(n)[0] != '0',
        n < 10 ==> decimal(n).len() == 1,
    decreases n,
{
    if n < 10 {
        lemma_digit(n);
        let one = seq![digit(n)];
        assert(one.drop_last() =~= Seq::empty());
        assert(value_of(one.drop_last()) == 0);
    } else {
        lemma_digit(n % 10);
        lemma_decimal(n / 10);
        assert(decimal(n).drop_last() =~= decimal(n / 10));
    }
}

/// A number with a sign begins with a minus exactly where it is below zero, and says the same
/// without it.
pub proof fn law_minus_is_written_below_zero(n: i64, s: String)
    requires
        call_ensures(signed_number, (n,), s),
    ensures
        n >= 0 ==> value_of(s@) == n,
        n < 0 ==> s@[0] == '-' && value_of(s@.drop_first()) == -n,
{
    if n >= 0 {
        lemma_decimal(n as nat);
    } else {
        lemma_decimal((-n) as nat);
        assert(s@.drop_first() =~= decimal((-n) as nat));
    }
}

/// Cutting off at the end or at the beginning takes away the one character only, and all of it
/// there.
pub proof fn law_only_the_ends_are_cut_off(text: &str, c: char, end: String, start: String)
    requires
        call_ensures(trim_trailing, (text, c), end),
        call_ensures(trim_leading, (text, c), start),
    ensures
        end@.is_prefix_of(text@),
        end@.len() > 0 ==> end@.last() != c,
        forall|i: int| end@.len() <= i < text@.len() ==> #[trigger] text@[i] == c,
        start@.is_suffix_of(text@),
        start@.len() > 0 ==> start@.first() != c,
        forall|i: int| 0 <= i < text@.len() - start@.len() ==> #[trigger] text@[i] == c,
{
    lemma_trailing(text@, c);
    lemma_leading(text@, c);
}

proof fn lemma_trailing(s: Seq<char>, c: char)
    ensures
        without_trailing(s, c).is_prefix_of(s),
        without_trailing(s, c).len() > 0 ==> without_trailing(s, c).last() != c,
        forall|i: int| without_trailing(s, c).len() <= i < s.len() ==> #[trigger] s[i] == c,
    decreases s.len(),
{
    if s.len() > 0 && s.last() == c {
        let shorter = s.drop_last();
        lemma_trailing(shorter, c);
        let kept = without_trailing(s, c);
        assert(kept =~= s.subrange(0, kept.len() as int)) by {
            assert(kept =~= shorter.subrange(0, kept.len() as int));
        }
        assert forall|i: int| kept.len() <= i < s.len() implies #[trigger] s[i] == c by {
            if i < shorter.len() {
                assert(shorter[i] == s[i]);
            }
        }
    } else {
        assert(s =~= s.subrange(0, s.len() as int));
    }
}

proof fn lemma_leading(s: Seq<char>, c: char)
    ensures
        without_leading(s, c).is_suffix_of(s),
        without_leading(s, c).len() > 0 ==> without_leading(s, c).first() != c,
        forall|i: int| 0 <= i < s.len() - without_leading(s, c).len() ==> #[trigger] s[i] == c,
    decreases s.len(),
{
    if s.len() > 0 && s.first() == c {
        let shorter = s.drop_first();
        lemma_leading(shorter, c);
        let kept = without_leading(s, c);
        assert(kept =~= s.subrange(s.len() - kept.len(), s.len() as int)) by {
            assert(kept =~= shorter.subrange(shorter.len() - kept.len(), shorter.len() as int));
        }
        assert forall|i: int| 0 <= i < s.len() - kept.len() implies #[trigger] s[i] == c by {
            if i > 0 {
                assert(shorter[i - 1] == s[i]);
            }
        }
    } else {
        assert(s =~= s.subrange(0, s.len() as int));
    }
}

/// The case of the letters A to Z does not matter, and everything else does.
pub proof fn law_only_case_does_not_matter(a: &str, b: &str, r: bool, i: int)
    requires
        call_ensures(same_ignoring_case, (a, b), r),
    ensures
        a@ == b@ ==> r,
        a@.len() != b@.len() ==> !r,
        r && 0 <= i < a@.len() && a@[i] != b@[i] ==> (a@[i] as u32 + 32 == b@[i] as u32 && 'A' <= a@[i] <= 'Z') || (
        b@[i] as u32 + 32 == a@[i] as u32 && 'A' <= b@[i] <= 'Z'),
{
    if r && 0 <= i < a@.len() {
        assert(ascii_small(a@[i]) == ascii_small(b@[i]));
        if a@[i] != b@[i] {
            lemma_small(a@[i], b@[i]);
        }
    }
}

proof fn lemma_small(a: char, b: char)
    requires
        ascii_small(a) == ascii_small(b),
        a != b,
    ensures
        (a as u32 + 32 == b as u32 && 'A' <= a <= 'Z') || (b as u32 + 32 == a as u32 && 'A' <= b <= 'Z'),
{
}

/// Texts are joined with the separator between each two of them: one more text adds it and that text.
pub proof fn law_texts_are_joined(list: &Vec<String>, separator: &str, s: String, fewer: &Vec<String>, before: String)
    requires
        call_ensures(join, (list, separator), s),
        call_ensures(join, (fewer, separator), before),
        list@.len() > 0,
        fewer@ == list@.drop_last(),
    ensures
        list@.len() == 1 ==> s@ == list@[0]@,
        list@.len() > 1 ==> s@ == before@ + separator@ + list@.last()@,
{
    assert(texts(list@).len() == list@.len());
    assert(texts(fewer@) =~= texts(list@).drop_last());
}

/// What hexadecimal digits say.
pub open spec fn hex_value_of(digits: Seq<char>) -> int
    decreases digits.len(),
{
    if digits.len() == 0 {
        0
    } else {
        let d = digits.last() as u32;
        16 * hex_value_of(digits.drop_last()) + (if d < 58 {
            d - 48
        } else {
            d - 87
        })
    }
}

/// A byte in two hexadecimal digits, and a word in four, are read as what they were.
pub proof fn law_hex_is_read_again(n: u32, two: String, four: String)
    requires
        call_ensures(hex_number, (n, 2u32), two),
        call_ensures(hex_number, (n, 4u32), four),
    ensures
        two@.len() == 2 && four@.len() == 4,
        n < 0x100 ==> hex_value_of(two@) == n,
        n < 0x1_0000 ==> hex_value_of(four@) == n,
{
    let m = n as nat;
    lemma_hex(m, 1);
    lemma_hex(m, 2);
    lemma_hex(m, 3);
    lemma_hex(m, 4);
    lemma_hex(m / 16, 1);
    lemma_hex(m / 16, 3);
    lemma_hex(m / 16, 2);
    lemma_hex(m / 16 / 16, 1);
    lemma_hex(m / 16 / 16, 2);
    lemma_hex(m / 16 / 16 / 16, 1);
}

proof fn lemma_hex(n: nat, width: nat)
    requires
        width > 0,
    ensures
        hex(n, width).len() == width,
        hex_value_of(hex(n, width)) == 16 * hex_value_of(hex(n / 16, (width - 1) as nat)) + n % 16,
        width == 1 ==> hex_value_of(hex(n, width)) == n % 16,
    decreases width,
{
    let rest = hex(n / 16, (width - 1) as nat);
    assert(hex(n, width).drop_last() =~= rest);
    lemma_hex_digit(n % 16);
    if width > 1 {
        lemma_hex(n / 16, (width - 1) as nat);
    } else {
        assert(rest.len() == 0);
    }
}

proof fn lemma_hex_digit(d: nat)
    requires
        d < 16,
    ensures
        d < 10 ==> hex_digit(d) as u32 == 48 + d,
        d >= 10 ==> hex_digit(d) as u32 == 87 + d,
{
}

/// What follows the last of several marks is what was put behind it.
pub proof fn law_what_follows_the_last_mark(text: &str, needle: &str, r: Option<String>)
    requires
        call_ensures(after_last, (text, needle), r),
    ensures
        r matches Some(rest) ==> exists|before: Seq<char>| text@ == #[trigger] (before + needle@) + rest@,
        r is None ==> forall|before: Seq<char>, after: Seq<char>| text@ != #[trigger] (before + needle@ + after),
{
    if let Some(rest) = r {
        let at = choose|at: int| #[trigger]
            stands_last_at(text@, needle@, at) && rest@ == text@.subrange(at + needle@.len(), text@.len() as int);
        let before = text@.subrange(0, at);
        assert(text@ =~= (before + needle@) + rest@);
    } else {
        assert forall|before: Seq<char>, after: Seq<char>| text@ != #[trigger] (before + needle@ + after) by {
            let all = before + needle@ + after;
            if text@ == all {
                assert(all.subrange(before.len() as int, before.len() as int + needle@.len()) =~= needle@);
                assert(stands_at(text@, needle@, before.len() as int));
            }
        }
    }
}

/// Numbers below a hundred have two digits.
pub proof fn lemma_two_digits(n: nat)
    requires
        n < 100,
    ensures
        two_digits(n).len() == 2,
        value_of(two_digits(n)) == n,
{
    lemma_decimal(n);
    if n < 10 {
        let s = two_digits(n);
        assert(decimal(n) =~= seq![digit(n)]);
        assert(s.drop_last() =~= seq!['0']);
        assert(seq!['0'].drop_last() =~= Seq::empty());
        assert(value_of(seq!['0'].drop_last()) == 0);
        assert(value_of(seq!['0']) == 0);
        lemma_digit(n);
    } else {
        lemma_decimal(n / 10);
    }
}

} // verus!
