//! Text helpers shared by the parsers and the writers.

use vstd::prelude::*;
use vstd::string::*;
use vstd::utf8::*;

verus! {

/// The texts held by a sequence of strings.
pub open spec fn views(v: Seq<String>) -> Seq<Seq<char>> {
    Seq::new(v.len(), |i: int| v[i]@)
}

/// The text held by an optional string.
pub open spec fn opt_view(o: Option<String>) -> Option<Seq<char>> {
    match o {
        Some(s) => Some(s@),
        None => None,
    }
}

/// Whether two strings hold the same text.
pub fn str_eq(a: &str, b: &str) -> (r: bool)
    ensures
        r == (a@ == b@),
{
    let x = a.as_bytes();
    let y = b.as_bytes();
    proof {
        encode_utf8_decode_utf8(a@);
        encode_utf8_decode_utf8(b@);
    }
    if x.len() != y.len() {
        return false;
    }
    let mut i: usize = 0;
    while i < x.len()
        invariant
            i <= x@.len(),
            x@.len() == y@.len(),
            x@ == a.spec_bytes(),
            y@ == b.spec_bytes(),
            forall|j: int| 0 <= j < i ==> x@[j] == y@[j],
        decreases x@.len() - i,
    {
        if x[i] != y[i] {
            return false;
        }
        i += 1;
    }
    assert(x@ =~= y@);
    true
}

/// Whether `k` is one of the texts in `v`.
pub fn contains_text(v: &Vec<String>, k: &str) -> (r: bool)
    ensures
        r == views(v@).contains(k@),
{
    let mut i: usize = 0;
    while i < v.len()
        invariant
            i <= v@.len(),
            forall|j: int| 0 <= j < i ==> views(v@)[j] != k@,
        decreases v@.len() - i,
    {
        if str_eq(v[i].as_str(), k) {
            assert(views(v@)[i as int] == k@);
            return true;
        }
        i += 1;
    }
    false
}

/// The characters of a string, one by one.
pub fn to_chars(s: &str) -> (v: Vec<char>)
    ensures
        v@ == s@,
{
    let mut v: Vec<char> = Vec::new();
    for c in it: s.chars()
        invariant
            it.seq() == s@,
            v@ == it.seq().take(it.index() as int),
    {
        v.push(c);
    }
    v
}

/// The lower-case form of an ASCII letter; any other character as it is.
pub open spec fn lower_char(c: char) -> char {
    if 'A' <= c && c <= 'Z' {
        ((c as u8) + 32) as char
    } else {
        c
    }
}

/// The text with its ASCII letters in lower case.
pub open spec fn lower(s: Seq<char>) -> Seq<char> {
    Seq::new(s.len(), |i: int| lower_char(s[i]))
}

/// The lower-case form of an ASCII letter; any other character as it is.
pub fn to_lower_char(c: char) -> (r: char)
    ensures
        r == lower_char(c),
{
    if 'A' <= c && c <= 'Z' {
        ((c as u8) + 32) as char
    } else {
        c
    }
}

/// The classes of characters that the type grammars tell apart.
#[derive(Clone, Copy, Debug, PartialEq, Eq, Structural)]
pub enum CharClass {
    /// ASCII letters, digits and the underscore.
    Name,
    /// ASCII digits.
    Digit,
    /// The space character.
    Space,
    /// Everything but the space character.
    Word,
}

/// Whether `c` belongs to `class`.
pub open spec fn in_class(c: char, class: CharClass) -> bool {
    match class {
        CharClass::Name => ('a' <= c && c <= 'z') || ('A' <= c && c <= 'Z') || ('0' <= c && c
            <= '9') || c == '_',
        CharClass::Digit => '0' <= c && c <= '9',
        CharClass::Space => c == ' ',
        CharClass::Word => c != ' ',
    }
}

/// Whether `c` belongs to `class`.
pub fn is_in_class(c: char, class: CharClass) -> (r: bool)
    ensures
        r == in_class(c, class),
{
    match class {
        CharClass::Name => ('a' <= c && c <= 'z') || ('A' <= c && c <= 'Z') || ('0' <= c && c
            <= '9') || c == '_',
        CharClass::Digit => '0' <= c && c <= '9',
        CharClass::Space => c == ' ',
        CharClass::Word => c != ' ',
    }
}

/// Whether every character of `s` belongs to `class`.
pub open spec fn all_in_class(s: Seq<char>, class: CharClass) -> bool {
    forall|i: int| 0 <= i < s.len() ==> in_class(#[trigger] s[i], class)
}

/// The end of the longest run of characters of `class` that starts at `i`.
pub open spec fn span_end(t: Seq<char>, i: int, class: CharClass) -> int
    decreases t.len() - i,
{
    if 0 <= i < t.len() && in_class(t[i], class) {
        span_end(t, i + 1, class)
    } else {
        i
    }
}

/// A run ends where the first character outside the class stands.
pub proof fn lemma_span_end(t: Seq<char>, i: int, j: int, class: CharClass)
    requires
        0 <= i <= j <= t.len(),
        forall|k: int| i <= k < j ==> in_class(#[trigger] t[k], class),
        j < t.len() ==> !in_class(t[j], class),
    ensures
        span_end(t, i, class) == j,
    decreases j - i,
{
    if i < j {
        lemma_span_end(t, i + 1, j, class);
    }
}

/// A run ends within the text, behind characters of the class and before
/// one that is not.
pub proof fn lemma_span_end_bounds(t: Seq<char>, i: int, class: CharClass)
    requires
        0 <= i <= t.len(),
    ensures
        i <= span_end(t, i, class) <= t.len(),
        forall|k: int| i <= k < span_end(t, i, class) ==> in_class(#[trigger] t[k], class),
        span_end(t, i, class) < t.len() ==> !in_class(t[span_end(t, i, class)], class),
    decreases t.len() - i,
{
    if i < t.len() && in_class(t[i], class) {
        lemma_span_end_bounds(t, i + 1, class);
    }
}

/// The end of the longest run of characters of `class` that starts at `i`.
pub(crate) fn scan(t: &Vec<char>, i: usize, class: CharClass) -> (j: usize)
    requires
        i <= t@.len(),
    ensures
        j == span_end(t@, i as int, class),
        i <= j <= t@.len(),
{
    let mut j: usize = i;
    while j < t.len() && is_in_class(t[j], class)
        invariant
            i <= j <= t@.len(),
            span_end(t@, i as int, class) == span_end(t@, j as int, class),
        decreases t@.len() - j,
    {
        j += 1;
    }
    j
}

/// Whether the text is `lit`, letter case aside: the characters of `t` from
/// `from` up to `to`, in lower case, are those of `lit`.
pub(crate) fn lower_eq(t: &Vec<char>, from: usize, to: usize, lit: &str) -> (r: bool)
    requires
        from <= to <= t@.len(),
    ensures
        r == (lower(t@.subrange(from as int, to as int)) == lit@),
{
    let n = lit.unicode_len();
    if n != to - from {
        return false;
    }
    let ghost w = lower(t@.subrange(from as int, to as int));
    let mut k: usize = 0;
    while k < n
        invariant
            k <= n,
            n == to - from,
            from <= to <= t@.len(),
            n == lit@.len(),
            w == lower(t@.subrange(from as int, to as int)),
            forall|j: int| 0 <= j < k ==> w[j] == lit@[j],
        decreases n - k,
    {
        if to_lower_char(t[from + k]) != lit.get_char(k) {
            assert(w[k as int] != lit@[k as int]);
            return false;
        }
        k += 1;
    }
    assert(w =~= lit@);
    true
}

/// The value of a decimal digit.
pub open spec fn digit_value(c: char) -> nat {
    (c as u8 - 48) as nat
}

/// The number that a run of decimal digits writes.
pub open spec fn number(s: Seq<char>) -> nat
    decreases s.len(),
{
    if s.len() == 0 {
        0
    } else {
        number(s.drop_last()) * 10 + digit_value(s.last())
    }
}

/// The decimal digit of a value below ten.
pub open spec fn digit_char(d: nat) -> char {
    ((48 + d) as u8) as char
}

/// A number written in decimal digits, without leading zeros.
pub open spec fn digits(n: nat) -> Seq<char>
    decreases n,
{
    if n < 10 {
        seq![digit_char(n)]
    } else {
        digits(n / 10).push(digit_char(n % 10))
    }
}

/// Reading what was written gives the number back; what is written is a
/// non-empty run of digits.
pub proof fn lemma_number_digits(n: nat)
    ensures
        number(digits(n)) == n,
        digits(n).len() > 0,
        all_in_class(digits(n), CharClass::Digit),
    decreases n,
{
    if n < 10 {
        assert(digits(n).drop_last() =~= Seq::<char>::empty());
        assert(number(digits(n).drop_last()) == 0);
    } else {
        lemma_number_digits(n / 10);
        assert(digits(n).drop_last() =~= digits(n / 10));
    }
}

/// A longer run of digits writes no smaller a number.
pub proof fn lemma_number_prefix(s: Seq<char>, k: int)
    requires
        0 <= k <= s.len(),
    ensures
        number(s.take(k)) <= number(s),
    decreases s.len() - k,
{
    if k < s.len() {
        lemma_number_prefix(s, k + 1);
        assert(s.take(k + 1).drop_last() =~= s.take(k));
        assert(number(s.take(k)) <= number(s.take(k + 1)));
    } else {
        assert(s.take(k) =~= s);
    }
}

/// Reads the digits of `t` from `from` up to `to` as a number; `None` when
/// the number does not fit.
pub(crate) fn read_number(t: &Vec<char>, from: usize, to: usize) -> (r: Option<u32>)
    requires
        from <= to <= t@.len(),
        all_in_class(t@.subrange(from as int, to as int), CharClass::Digit),
    ensures
        match r {
            Some(n) => n == number(t@.subrange(from as int, to as int)),
            None => number(t@.subrange(from as int, to as int)) > u32::MAX,
        },
{
    let ghost s = t@.subrange(from as int, to as int);
    let mut acc: u64 = 0;
    let mut k: usize = from;
    assert(s.take(0) =~= Seq::<char>::empty());
    while k < to
        invariant
            from <= k <= to <= t@.len(),
            s == t@.subrange(from as int, to as int),
            all_in_class(s, CharClass::Digit),
            acc == number(s.take(k - from)),
            acc <= u32::MAX,
        decreases to - k,
    {
        let c = t[k];
        assert(c == s[k - from]);
        assert(in_class(s[k - from], CharClass::Digit));
        let d: u64 = (c as u8 - 48) as u64;
        proof {
            assert(s.take(k - from + 1).drop_last() =~= s.take(k - from));
            assert(s.take(k - from + 1).last() == c);
        }
        acc = acc * 10 + d;
        k += 1;
        if acc > 0xffff_ffff {
            proof {
                lemma_number_prefix(s, k - from);
            }
            return None;
        }
    }
    assert(s.take(k - from) =~= s);
    Some(acc as u32)
}

/// The text of a decimal digit.
fn digit_text(d: u32) -> (r: &'static str)
    requires
        d < 10,
    ensures
        r@ == seq![digit_char(d as nat)],
{
    proof {
        reveal_strlit("0");
        reveal_strlit("1");
        reveal_strlit("2");
        reveal_strlit("3");
        reveal_strlit("4");
        reveal_strlit("5");
        reveal_strlit("6");
        reveal_strlit("7");
        reveal_strlit("8");
        reveal_strlit("9");
    }
    let r = match d {
        0 => "0",
        1 => "1",
        2 => "2",
        3 => "3",
        4 => "4",
        5 => "5",
        6 => "6",
        7 => "7",
        8 => "8",
        _ => "9",
    };
    assert(r@ =~= seq![digit_char(d as nat)]);
    r
}

/// Appends a number in decimal digits.
pub fn write_number(out: &mut String, n: u32)
    ensures
        final(out)@ == old(out)@ + digits(n as nat),
    decreases n,
{
    if n < 10 {
        out.append(digit_text(n));
    } else {
        write_number(out, n / 10);
        out.append(digit_text(n % 10));
        assert(out@ =~= old(out)@ + digits(n as nat));
    }
}

/// The argument list of a declaration.
#[derive(Clone, Copy, Debug, PartialEq, Eq, Structural)]
pub enum Args {
    /// No parentheses.
    Absent,
    /// One number in parentheses.
    One(u32),
    /// Two numbers in parentheses, with a comma between them.
    Two(u32, u32),
}

/// The argument list that starts at `i`, and where it ends; `None` when
/// what stands in the parentheses is not one or two numbers that fit.
pub open spec fn parse_args(t: Seq<char>, i: int) -> Option<(Args, int)> {
    if 0 <= i < t.len() && t[i] == '(' {
        let d1 = span_end(t, i + 1, CharClass::Digit);
        let n1 = number(t.subrange(i + 1, d1));
        if d1 == i + 1 || n1 > u32::MAX || d1 >= t.len() {
            None
        } else if t[d1] == ')' {
            Some((Args::One(n1 as u32), d1 + 1))
        } else if t[d1] == ',' {
            let s = span_end(t, d1 + 1, CharClass::Space);
            let d2 = span_end(t, s, CharClass::Digit);
            let n2 = number(t.subrange(s, d2));
            if d2 == s || n2 > u32::MAX || d2 >= t.len() || t[d2] != ')' {
                None
            } else {
                Some((Args::Two(n1 as u32, n2 as u32), d2 + 1))
            }
        } else {
            None
        }
    } else {
        Some((Args::Absent, i))
    }
}

/// A word starts where a run of spaces ends before the end of the text.
pub proof fn lemma_word_not_empty(t: Seq<char>, i: int)
    requires
        0 <= i <= t.len(),
        span_end(t, i, CharClass::Space) < t.len(),
    ensures
        span_end(t, i, CharClass::Space) < span_end(
            t,
            span_end(t, i, CharClass::Space),
            CharClass::Word,
        ) <= t.len(),
{
    let s = span_end(t, i, CharClass::Space);
    lemma_span_end_bounds(t, i, CharClass::Space);
    lemma_span_end_bounds(t, s + 1, CharClass::Word);
    assert(in_class(t[s], CharClass::Word));
}

fn read_digits(t: &Vec<char>, from: usize) -> (r: (usize, Option<u32>))
    requires
        from <= t@.len(),
    ensures
        r.0 == span_end(t@, from as int, CharClass::Digit),
        from <= r.0 <= t@.len(),
        match r.1 {
            Some(n) => n == number(t@.subrange(from as int, r.0 as int)),
            None => number(t@.subrange(from as int, r.0 as int)) > u32::MAX,
        },
{
    let to = scan(t, from, CharClass::Digit);
    proof {
        lemma_span_end_bounds(t@, from as int, CharClass::Digit);
        let s = t@.subrange(from as int, to as int);
        assert forall|k: int| 0 <= k < s.len() implies in_class(
            #[trigger] s[k],
            CharClass::Digit,
        ) by {
            assert(s[k] == t@[from + k]);
        }
    }
    (to, read_number(t, from, to))
}

/// Reads the argument list that starts at `i`.
pub(crate) fn read_args(t: &Vec<char>, i: usize) -> (r: Option<(Args, usize)>)
    requires
        i <= t@.len(),
    ensures
        match r {
            Some((a, j)) => parse_args(t@, i as int) == Some((a, j as int)) && i <= j <= t@.len(),
            None => parse_args(t@, i as int) is None,
        },
{
    if i < t.len() && t[i] == '(' {
        let (d1, n1) = read_digits(t, i + 1);
        if d1 == i + 1 || d1 >= t.len() {
            return None;
        }
        let n1 = match n1 {
            Some(n) => n,
            None => {
                return None;
            },
        };
        if t[d1] == ')' {
            Some((Args::One(n1), d1 + 1))
        } else if t[d1] == ',' {
            let s = scan(t, d1 + 1, CharClass::Space);
            let (d2, n2) = read_digits(t, s);
            if d2 == s || d2 >= t.len() {
                return None;
            }
            let n2 = match n2 {
                Some(n) => n,
                None => {
                    return None;
                },
            };
            if t[d2] != ')' {
                return None;
            }
            Some((Args::Two(n1, n2), d2 + 1))
        } else {
            None
        }
    } else {
        Some((Args::Absent, i))
    }
}


/// The text without the characters `a` and `b`.
pub open spec fn without(s: Seq<char>, a: char, b: char) -> Seq<char>
    decreases s.len(),
{
    if s.len() == 0 {
        s
    } else if s.last() == a || s.last() == b {
        without(s.drop_last(), a, b)
    } else {
        without(s.drop_last(), a, b).push(s.last())
    }
}

/// Appends the characters of `text` from `from` up to `to`, but for the
/// characters `a` and `b`.
pub(crate) fn append_without(out: &mut String, text: &str, t: &Vec<char>, from: usize, to: usize, a: char, b: char)
    requires
        text@ == t@,
        from <= to <= t@.len(),
    ensures
        final(out)@ == old(out)@ + without(t@.subrange(from as int, to as int), a, b),
{
    let mut i: usize = from;
    assert(t@.subrange(from as int, from as int) =~= Seq::<char>::empty());
    assert(out@ =~= old(out)@ + Seq::<char>::empty());
    while i < to
        invariant
            text@ == t@,
            from <= i <= to <= t@.len(),
            out@ == old(out)@ + without(t@.subrange(from as int, i as int), a, b),
        decreases to - i,
    {
        let c = t[i];
        proof {
            let next = t@.subrange(from as int, i + 1);
            assert(next.drop_last() =~= t@.subrange(from as int, i as int));
            assert(next.last() == c);
        }
        if c != a && c != b {
            let piece = text.substring_char(i, i + 1);
            assert(piece@ =~= seq![c]);
            out.append(piece);
            assert(out@ =~= old(out)@ + without(t@.subrange(from as int, i as int), a, b).push(
                c,
            ));
        }
        i += 1;
    }
}

/// The whole number that a text writes: an optional sign and decimal
/// digits, nothing else, within the range of 32 bits.
pub open spec fn int_of_text(s: Seq<char>) -> Option<int> {
    let signed = s.len() > 0 && (s[0] == '-' || s[0] == '+');
    let d = if signed {
        s.subrange(1, s.len() as int)
    } else {
        s
    };
    if d.len() == 0 || !all_in_class(d, CharClass::Digit) {
        None
    } else if s[0] == '-' {
        if number(d) <= 0x8000_0000 {
            Some(-(number(d) as int))
        } else {
            None
        }
    } else {
        if number(d) <= 0x7fff_ffff {
            Some(number(d) as int)
        } else {
            None
        }
    }
}

/// Reads a text as a whole number of 32 bits.
pub fn read_int(t: &Vec<char>) -> (r: Option<i32>)
    ensures
        match r {
            Some(n) => int_of_text(t@) == Some(n as int),
            None => int_of_text(t@) is None,
        },
{
    let n = t.len();
    let negative = n > 0 && t[0] == '-';
    let signed = n > 0 && (t[0] == '-' || t[0] == '+');
    let start: usize = if signed {
        1
    } else {
        0
    };
    let ghost d = t@.subrange(start as int, n as int);
    proof {
        if !signed {
            assert(d =~= t@);
        }
    }
    let e = scan(t, start, CharClass::Digit);
    proof {
        lemma_span_end_bounds(t@, start as int, CharClass::Digit);
        if e == n {
            assert forall|k: int| 0 <= k < d.len() implies in_class(
                #[trigger] d[k],
                CharClass::Digit,
            ) by {
                assert(d[k] == t@[start + k]);
            }
        } else {
            assert(d[e - start] == t@[e as int]);
        }
    }
    if e != n || e == start {
        return None;
    }
    match read_number(t, start, n) {
        None => None,
        Some(m) => {
            if negative {
                if m <= 0x8000_0000 {
                    Some((0 - (m as i64)) as i32)
                } else {
                    None
                }
            } else {
                if m <= 0x7fff_ffff {
                    Some(m as i32)
                } else {
                    None
                }
            }
        },
    }
}

} // verus!
