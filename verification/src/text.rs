//! Text helpers shared by the codec, the handlers and the duration parsers:
//! decimal numerals, searching and splitting over sequences of characters.

use vstd::prelude::*;
use vstd::string::*;
use vstd::utf8::valid_utf8;

verus! {

/// Whether `c` is one of the ten ASCII digits.
pub open spec fn is_digit(c: char) -> bool {
    '0' <= c && c <= '9'
}

/// The value of an ASCII digit.
pub open spec fn digit_value(c: char) -> nat {
    (c as u32 - 48) as nat
}

/// The ASCII digit that stands for `d`, for `d` below ten.
pub open spec fn digit_char(d: nat) -> char {
    ((d + 48) as u8) as char
}

/// Whether every character of `s` is an ASCII digit.
pub open spec fn all_digits(s: Seq<char>) -> bool {
    forall|i: int| 0 <= i < s.len() ==> is_digit(#[trigger] s[i])
}

/// The number that a sequence of ASCII digits denotes in base ten.
pub open spec fn digits_value(s: Seq<char>) -> nat
    decreases s.len(),
{
    if s.len() == 0 {
        0
    } else {
        digits_value(s.drop_last()) * 10 + digit_value(s.last())
    }
}

/// The shortest base-ten numeral of `n`.
pub open spec fn decimal(n: nat) -> Seq<char>
    decreases n,
{
    if n < 10 {
        seq![digit_char(n)]
    } else {
        decimal(n / 10).push(digit_char(n % 10))
    }
}

/// What an unsigned decimal numeral denotes: an optional `+`, then at least
/// one ASCII digit, with a value of at most `max`. Anything else denotes
/// nothing.
pub open spec fn parse_unsigned(s: Seq<char>, max: nat) -> Option<nat> {
    let digits = if s.len() > 0 && s[0] == '+' {
        s.skip(1)
    } else {
        s
    };
    if digits.len() > 0 && all_digits(digits) && digits_value(digits) <= max {
        Some(digits_value(digits))
    } else {
        None
    }
}

/// A numeral's value never shrinks when more digits follow.
pub proof fn lemma_digits_value_prefix(s: Seq<char>, k: int)
    requires
        0 <= k <= s.len(),
    ensures
        digits_value(s.take(k)) <= digits_value(s),
    decreases s.len() - k,
{
    if k == s.len() {
        assert(s.take(k) == s);
    } else {
        lemma_digits_value_prefix(s, k + 1);
        assert(s.take(k + 1).drop_last() == s.take(k));
    }
}

/// The numeral of `n` consists of digits and denotes `n`.
pub proof fn lemma_decimal_digits(n: nat)
    ensures
        decimal(n).len() > 0,
        all_digits(decimal(n)),
        digits_value(decimal(n)) == n,
        decimal(n)[0] != '+',
    decreases n,
{
    if n < 10 {
        assert(decimal(n).drop_last() == Seq::<char>::empty());
        assert(digits_value(Seq::<char>::empty()) == 0);
    } else {
        lemma_decimal_digits(n / 10);
        assert(decimal(n).drop_last() == decimal(n / 10));
    }
}

/// The numeral of a number holds no space and no `;`.
pub proof fn lemma_decimal_plain(n: nat)
    ensures
        !decimal(n).contains(' '),
        !decimal(n).contains(';'),
{
    lemma_decimal_digits(n);
    let d = decimal(n);
    assert forall|i: int| 0 <= i < d.len() implies d[i] != ' ' && d[i] != ';' by {
        assert(is_digit(d[i]));
    }
}

/// Parsing the numeral of a number gives the number back.
pub proof fn lemma_parse_decimal(n: nat, max: nat)
    ensures
        parse_unsigned(decimal(n), max) == if n <= max {
            Some(n)
        } else {
            None
        },
{
    lemma_decimal_digits(n);
}

/// The one-character text of a digit.
fn digit_text(d: u32) -> (r: &'static str)
    requires
        d < 10,
    ensures
        r@ == seq![digit_char(d as nat)],
{
    proof {
        reveal_strlit("0");
        reveal_strlit("1");
        reveal_strlit("2");
        reveal_strlit("3");
        reveal_strlit("4");
        reveal_strlit("5");
        reveal_strlit("6");
        reveal_strlit("7");
        reveal_strlit("8");
        reveal_strlit("9");
    }
    let r = match d {
        0 => "0",
        1 => "1",
        2 => "2",
        3 => "3",
        4 => "4",
        5 => "5",
        6 => "6",
        7 => "7",
        8 => "8",
        _ => "9",
    };
    assert(r@ =~= seq![digit_char(d as nat)]);
    r
}

/// `n` in base ten, in at least two digits.
pub open spec fn two_digits(n: nat) -> Seq<char> {
    if n < 10 {
        seq!['0'] + decimal(n)
    } else {
        decimal(n)
    }
}

/// Writes `n` in base ten, in at least two digits.
pub fn two_digit_string(n: u32) -> (r: String)
    ensures
        r@ == two_digits(n as nat),
{
    if n < 10 {
        proof {
            reveal_strlit("0");
        }
        let r = String::from_str("0").concat(digit_text(n));
        assert(r@ =~= two_digits(n as nat));
        r
    } else {
        decimal_string(n)
    }
}

/// Writes `n` in base ten.
pub fn decimal_string(n: u32) -> (r: String)
    ensures
        r@ == decimal(n as nat),
    decreases n,
{
    if n < 10 {
        String::from_str(digit_text(n))
    } else {
        let head = decimal_string(n / 10);
        let r = head.concat(digit_text(n % 10));
        assert(r@ =~= decimal(n as nat));
        r
    }
}

/// How many characters at the start of `s` satisfy `p` one after the other.
pub open spec fn span(s: Seq<char>, p: spec_fn(char) -> bool) -> nat
    decreases s.len(),
{
    if s.len() > 0 && p(s[0]) {
        1 + span(s.skip(1), p)
    } else {
        0
    }
}

/// A prefix whose characters all satisfy `p`, and which ends the text or
/// is followed by a character that does not, is the span of `p`.
pub proof fn lemma_span(s: Seq<char>, p: spec_fn(char) -> bool, k: int)
    requires
        0 <= k <= s.len(),
        forall|i: int| 0 <= i < k ==> p(#[trigger] s[i]),
        k < s.len() ==> !p(s[k]),
    ensures
        span(s, p) == k,
    decreases k,
{
    if k > 0 {
        let t = s.skip(1);
        assert forall|i: int| 0 <= i < k - 1 implies p(#[trigger] t[i]) by {
            assert(t[i] == s[i + 1]);
        }
        lemma_span(t, p, k - 1);
    }
}

/// The text that is there, or the empty text.
pub open spec fn or_empty(o: Option<Seq<char>>) -> Seq<char> {
    match o {
        Some(s) => s,
        None => Seq::empty(),
    }
}

/// `s` cut at its first `sep`: what stands before it, and what follows it if
/// there is one.
pub open spec fn split_once(s: Seq<char>, sep: char) -> (Seq<char>, Option<Seq<char>>) {
    match s.index_of_first(sep) {
        Some(i) => (s.take(i), Some(s.skip(i + 1))),
        None => (s, None),
    }
}

/// The pieces of `s` between the occurrences of `sep`; two separators in a
/// row, or one at either end, give an empty piece.
pub open spec fn split_all(s: Seq<char>, sep: char) -> Seq<Seq<char>>
    decreases s.len(),
{
    match s.index_of_first(sep) {
        // A first position always lies within `s`; saying so shows that the
        // rest is shorter.
        Some(i) => if 0 <= i < s.len() {
            seq![s.take(i)] + split_all(s.skip(i + 1), sep)
        } else {
            seq![s]
        },
        None => seq![s],
    }
}

/// Reads bytes as text with `core::str::from_utf8`: there is a text exactly
/// when the bytes are valid UTF-8, and the text then encodes to those bytes.
#[verifier::external_body]
pub(crate) fn utf8_text(bytes: &[u8]) -> (r: Option<&str>)
    ensures
        r is Some <==> valid_utf8(bytes@),
        r matches Some(s) ==> s.spec_bytes() == bytes@,
{
    match core::str::from_utf8(bytes) {
        Ok(s) => Some(s),
        Err(_) => None,
    }
}

/// The characters of a text, in order.
pub fn to_chars(s: &str) -> (v: Vec<char>)
    ensures
        v@ == s@,
{
    let mut v: Vec<char> = Vec::new();
    for c in it: s.chars()
        invariant
            v@ == s@.take(it.index() as int),
            it.seq() == s@,
    {
        v.push(c);
    }
    v
}

/// Whether two texts hold the same characters.
pub fn text_eq(a: &str, b: &str) -> (r: bool)
    ensures
        r == (a@ == b@),
{
    let x = to_chars(a);
    let y = to_chars(b);
    if x.len() != y.len() {
        return false;
    }
    let mut i: usize = 0;
    while i < x.len()
        invariant
            i <= x.len(),
            x.len() == y.len(),
            x@ == a@,
            y@ == b@,
            forall|j: int| 0 <= j < i ==> x@[j] == y@[j],
        decreases x.len() - i,
    {
        if x[i] != y[i] {
            assert(a@[i as int] != b@[i as int]);
            return false;
        }
        i += 1;
    }
    assert(x@ =~= y@);
    true
}

/// A position that holds `c` with no `c` before it is the first.
pub proof fn lemma_first_index(s: Seq<char>, c: char, i: int)
    requires
        0 <= i < s.len(),
        s[i] == c,
        forall|j: int| 0 <= j < i ==> s[j] != c,
    ensures
        s.index_of_first(c) == Some(i),
{
    s.index_of_first_ensures(c);
    assert(s.contains(c));
}

/// A position that holds `c` with no `c` after it is the last.
pub proof fn lemma_last_index(s: Seq<char>, c: char, i: int)
    requires
        0 <= i < s.len(),
        s[i] == c,
        forall|j: int| i < j < s.len() ==> s[j] != c,
    ensures
        s.index_of_last(c) == Some(i),
{
    s.index_of_last_ensures(c);
    assert(s.contains(c));
}

/// A sequence without `c` has neither a first nor a last position of it.
pub proof fn lemma_no_index(s: Seq<char>, c: char)
    requires
        forall|j: int| 0 <= j < s.len() ==> s[j] != c,
    ensures
        s.index_of_first(c) is None,
        s.index_of_last(c) is None,
{
    s.index_of_first_ensures(c);
    s.index_of_last_ensures(c);
}

/// Where `c` first stands in `chars[from..to]`, counted from the start of
/// `chars`.
pub fn find(chars: &Vec<char>, c: char, from: usize, to: usize) -> (r: Option<usize>)
    requires
        from <= to <= chars.len(),
    ensures
        match r {
            Some(i) => from <= i < to && chars@.subrange(from as int, to as int).index_of_first(c)
                == Some(i - from),
            None => chars@.subrange(from as int, to as int).index_of_first(c) is None,
        },
{
    let ghost part = chars@.subrange(from as int, to as int);
    let mut i: usize = from;
    while i < to
        invariant
            from <= i <= to <= chars.len(),
            part == chars@.subrange(from as int, to as int),
            forall|j: int| 0 <= j < i - from ==> part[j] != c,
        decreases to - i,
    {
        if chars[i] == c {
            proof {
                lemma_first_index(part, c, i - from);
            }
            return Some(i);
        }
        i += 1;
    }
    proof {
        lemma_no_index(part, c);
    }
    None
}

/// Cuts `chars[from..to]` at its first `sep`. Returns where the head ends
/// and where the tail begins; without a `sep` the head is the whole and the
/// tail is empty.
pub fn cut(chars: &Vec<char>, sep: char, from: usize, to: usize) -> (r: (usize, usize))
    requires
        from <= to <= chars.len(),
    ensures
        from <= r.0 <= r.1 <= to,
        split_once(chars@.subrange(from as int, to as int), sep).0 == chars@.subrange(
            from as int,
            r.0 as int,
        ),
        split_once(chars@.subrange(from as int, to as int), sep).1 is Some <==> r.0 < r.1,
        or_empty(split_once(chars@.subrange(from as int, to as int), sep).1) == chars@.subrange(
            r.1 as int,
            to as int,
        ),
{
    let ghost part = chars@.subrange(from as int, to as int);
    match find(chars, sep, from, to) {
        Some(i) => {
            assert(part.take(i - from) =~= chars@.subrange(from as int, i as int));
            assert(part.skip(i - from + 1) =~= chars@.subrange(i + 1, to as int));
            (i, i + 1)
        },
        None => {
            assert(chars@.subrange(to as int, to as int) =~= Seq::<char>::empty());
            (to, to)
        },
    }
}

/// Where `c` last stands in `chars`.
pub fn rfind(chars: &Vec<char>, c: char) -> (r: Option<usize>)
    ensures
        match r {
            Some(i) => i < chars.len() && chars@.index_of_last(c) == Some(i as int),
            None => chars@.index_of_last(c) is None,
        },
{
    let mut i: usize = chars.len();
    while i > 0
        invariant
            i <= chars.len(),
            forall|j: int| i <= j < chars.len() ==> chars@[j] != c,
        decreases i,
    {
        i -= 1;
        if chars[i] == c {
            proof {
                lemma_last_index(chars@, c, i as int);
            }
            return Some(i);
        }
    }
    proof {
        lemma_no_index(chars@, c);
    }
    None
}

/// The views of a vector of texts.
pub open spec fn views(v: Seq<String>) -> Seq<Seq<char>> {
    Seq::new(v.len(), |i: int| v[i]@)
}

/// Cuts a text at every `sep`.
pub fn split(s: &str, sep: char) -> (pieces: Vec<String>)
    ensures
        views(pieces@) == split_all(s@, sep),
        pieces.len() > 0,
{
    let chars = to_chars(s);
    let n = chars.len();
    let mut pieces: Vec<String> = Vec::new();
    let mut start: usize = 0;
    assert(s@.skip(0) =~= s@);
    assert(views(pieces@) + split_all(s@, sep) =~= split_all(s@, sep));
    loop
        invariant_except_break
            start <= n,
            split_all(s@, sep) == views(pieces@) + split_all(s@.skip(start as int), sep),
        invariant
            n == chars.len(),
            chars@ == s@,
        ensures
            views(pieces@) == split_all(s@, sep),
            pieces.len() > 0,
        decreases n - start,
    {
        let ghost tail = s@.skip(start as int);
        let ghost before = views(pieces@);
        assert(tail =~= chars@.subrange(start as int, n as int));
        match find(&chars, sep, start, n) {
            Some(i) => {
                let piece = String::from_str(s.substring_char(start, i));
                proof {
                    assert(tail.take(i - start) =~= piece@);
                    assert(tail.skip(i - start + 1) =~= s@.skip(i + 1));
                }
                pieces.push(piece);
                assert(views(pieces@) =~= before + seq![piece@]);
                start = i + 1;
            },
            None => {
                let piece = String::from_str(s.substring_char(start, n));
                assert(tail =~= piece@);
                pieces.push(piece);
                assert(views(pieces@) =~= before + seq![piece@]);
                break;
            },
        }
    }
    pieces
}

/// Reads `chars[from..to]` as an unsigned decimal numeral of at most `max`.
pub fn parse_number(chars: &Vec<char>, from: usize, to: usize, max: u32) -> (r: Option<u32>)
    requires
        from <= to <= chars.len(),
    ensures
        match parse_unsigned(chars@.subrange(from as int, to as int), max as nat) {
            Some(v) => r == Some(v as u32),
            None => r is None,
        },
{
    let ghost text = chars@.subrange(from as int, to as int);
    let start: usize = if from < to && chars[from] == '+' {
        from + 1
    } else {
        from
    };
    let ghost digits = chars@.subrange(start as int, to as int);
    assert(digits =~= if text.len() > 0 && text[0] == '+' {
        text.skip(1)
    } else {
        text
    });
    if start == to {
        return None;
    }
    let mut value: u64 = 0;
    let mut i: usize = start;
    while i < to
        invariant
            start <= i <= to <= chars.len(),
            digits == chars@.subrange(start as int, to as int),
            text == chars@.subrange(from as int, to as int),
            digits == if text.len() > 0 && text[0] == '+' {
                text.skip(1)
            } else {
                text
            },
            all_digits(digits.take(i - start)),
            value == digits_value(digits.take(i - start)),
            value <= max,
        decreases to - i,
    {
        let c = chars[i];
        if !(c >= '0' && c <= '9') {
            assert(!is_digit(digits[i - start]));
            return None;
        }
        let ghost seen = digits.take(i - start + 1);
        assert(seen.drop_last() =~= digits.take(i - start));
        assert(seen.last() == c);
        let next: u64 = value * 10 + (c as u64 - 48);
        assert(next == digits_value(seen));
        if next > max as u64 {
            proof {
                lemma_digits_value_prefix(digits, i - start + 1);
            }
            return None;
        }
        value = next;
        i += 1;
    }
    assert(digits.take(to - start) =~= digits);
    Some(value as u32)
}

} // verus!
