//! Decimal literals: the grammar of the numbers a form field may hold, the
//! number each literal denotes, and a reader that decides both.
//!
//! A literal is an optional sign, digits with an optional decimal point (at
//! least one digit on either side of it), and an optional exponent: `e` or
//! `E`, an optional sign and at least one digit. The whole text has to be the
//! literal: no blanks, no separators, no trailing characters.

use vstd::prelude::*;
use vstd::string::StringSliceAdditionalSpecFns;
use vstd::utf8::is_ascii_chars_encode_utf8;

verus! {

/// Sign of the number that a literal denotes.
#[derive(Clone, Copy, Debug, PartialEq, Eq)]
pub enum Sign {
    Negative,
    Zero,
    Positive,
}

/// The sign character written in front of a run of digits, if any.
pub enum SignMark {
    Absent,
    Plus,
    Minus,
}

/// The exponent part of a literal.
pub struct Exponent {
    /// Whether the marker is `E` rather than `e`.
    pub capital: bool,
    pub sign: SignMark,
    pub digits: Seq<char>,
}

/// The parts of a decimal literal.
pub struct Literal {
    pub sign: SignMark,
    /// Digits before the decimal point.
    pub whole: Seq<char>,
    /// Digits after the decimal point, when a point is written.
    pub fraction: Option<Seq<char>>,
    pub exponent: Option<Exponent>,
}

/// The number `numerator * 10^scale`.
pub struct Decimal {
    pub numerator: int,
    pub scale: int,
}

pub open spec fn is_digit(c: char) -> bool {
    '0' <= c <= '9'
}

pub open spec fn is_sign(c: char) -> bool {
    c == '+' || c == '-'
}

pub open spec fn is_exponent_mark(c: char) -> bool {
    c == 'e' || c == 'E'
}

pub open spec fn all_digits(s: Seq<char>) -> bool {
    forall|i: int| 0 <= i < s.len() ==> is_digit(#[trigger] s[i])
}

pub open spec fn digit_value(c: char) -> nat {
    (c as nat - '0' as nat) as nat
}

/// The natural number written by a run of digits; zero for the empty run.
pub open spec fn digits_value(s: Seq<char>) -> nat
    decreases s.len(),
{
    if s.len() == 0 {
        0
    } else {
        digits_value(s.drop_last()) * 10 + digit_value(s.last())
    }
}

impl SignMark {
    pub open spec fn text(self) -> Seq<char> {
        match self {
            SignMark::Absent => seq![],
            SignMark::Plus => seq!['+'],
            SignMark::Minus => seq!['-'],
        }
    }

    /// `-1` for a minus sign, `1` otherwise.
    pub open spec fn factor(self) -> int {
        if self is Minus {
            -1
        } else {
            1
        }
    }
}

impl Exponent {
    pub open spec fn text(self) -> Seq<char> {
        seq![if self.capital { 'E' } else { 'e' }] + self.sign.text() + self.digits
    }

    pub open spec fn wf(self) -> bool {
        self.digits.len() > 0 && all_digits(self.digits)
    }

    pub open spec fn value(self) -> int {
        self.sign.factor() * digits_value(self.digits)
    }
}

impl Literal {
    pub open spec fn fraction_digits(self) -> Seq<char> {
        match self.fraction {
            Some(f) => f,
            None => seq![],
        }
    }

    pub open spec fn fraction_text(self) -> Seq<char> {
        match self.fraction {
            Some(f) => seq!['.'] + f,
            None => seq![],
        }
    }

    pub open spec fn exponent_text(self) -> Seq<char> {
        match self.exponent {
            Some(e) => e.text(),
            None => seq![],
        }
    }

    /// The literal as it is written.
    pub open spec fn text(self) -> Seq<char> {
        self.sign.text() + self.whole + self.fraction_text() + self.exponent_text()
    }

    /// The rules of the grammar that the types do not already enforce.
    pub open spec fn wf(self) -> bool {
        &&& all_digits(self.whole)
        &&& all_digits(self.fraction_digits())
        &&& self.whole.len() + self.fraction_digits().len() > 0
        &&& self.exponent matches Some(e) ==> e.wf()
    }

    /// All digits of the literal before its exponent, the point left out.
    pub open spec fn mantissa(self) -> Seq<char> {
        self.whole + self.fraction_digits()
    }

    /// The number that the literal denotes.
    pub open spec fn value(self) -> Decimal {
        Decimal {
            numerator: self.sign.factor() * digits_value(self.mantissa()),
            scale: (match self.exponent {
                Some(e) => e.value(),
                None => 0,
            }) - self.fraction_digits().len(),
        }
    }
}

impl Decimal {
    /// The sign of `numerator * 10^scale`: a power of ten is positive, so it
    /// is the sign of the numerator.
    pub open spec fn sign(self) -> Sign {
        if self.numerator < 0 {
            Sign::Negative
        } else if self.numerator == 0 {
            Sign::Zero
        } else {
            Sign::Positive
        }
    }
}

/// Whether `s`, taken whole, is a decimal literal.
pub open spec fn is_literal(s: Seq<char>) -> bool {
    exists|l: Literal| l.wf() && #[trigger] l.text() == s
}

/// The parts of the literal `s`; `law_literal_unique` shows there is one way
/// only to take a literal apart.
pub open spec fn literal_of(s: Seq<char>) -> Literal
    recommends
        is_literal(s),
{
    choose|l: Literal| l.wf() && #[trigger] l.text() == s
}

/// The sign of the number that `s` denotes, if `s` is a literal.
pub open spec fn sign_of(s: Seq<char>) -> Option<Sign> {
    if is_literal(s) {
        Some(literal_of(s).value().sign())
    } else {
        None
    }
}

/// Whether `s` is a literal of a number that is zero or more.
pub open spec fn denotes_non_negative(s: Seq<char>) -> bool {
    is_literal(s) && literal_of(s).value().numerator >= 0
}

/// Whether `s` is a literal of a number that is more than zero.
pub open spec fn denotes_positive(s: Seq<char>) -> bool {
    is_literal(s) && literal_of(s).value().numerator > 0
}

/// Whether some character of `s` is not `0`.
pub open spec fn has_nonzero(s: Seq<char>) -> bool {
    exists|i: int| 0 <= i < s.len() && #[trigger] s[i] != '0'
}

/// End of the longest run of digits of `s` that starts at `from`.
spec fn digit_run(s: Seq<char>, from: int) -> int
    decreases s.len() - from,
{
    if 0 <= from < s.len() && is_digit(s[from]) {
        digit_run(s, from + 1)
    } else {
        from
    }
}

spec fn sign_mark_at(s: Seq<char>, i: int) -> SignMark {
    if 0 <= i < s.len() && s[i] == '+' {
        SignMark::Plus
    } else if 0 <= i < s.len() && s[i] == '-' {
        SignMark::Minus
    } else {
        SignMark::Absent
    }
}

/// Reads `s` from left to right, taking each run of digits as far as it goes.
spec fn scan(s: Seq<char>) -> Option<Literal> {
    let sign = sign_mark_at(s, 0);
    let a = sign.text().len() as int;
    let b = digit_run(s, a);
    let point = b < s.len() && s[b] == '.';
    let c0 = if point { b + 1 } else { b };
    let c = digit_run(s, c0);
    let whole = s.subrange(a, b);
    let fraction = if point { Some(s.subrange(c0, c)) } else { None };
    if b == a && c == c0 {
        None
    } else if c == s.len() {
        Some(Literal { sign, whole, fraction, exponent: None })
    } else if is_exponent_mark(s[c]) {
        let mark = sign_mark_at(s, c + 1);
        let d = c + 1 + mark.text().len();
        let e = digit_run(s, d);
        if e > d && e == s.len() {
            Some(
                Literal {
                    sign,
                    whole,
                    fraction,
                    exponent: Some(
                        Exponent { capital: s[c] == 'E', sign: mark, digits: s.subrange(d, e) },
                    ),
                },
            )
        } else {
            None
        }
    } else {
        None
    }
}

proof fn lemma_digit_run_bounds(s: Seq<char>, from: int)
    requires
        0 <= from <= s.len(),
    ensures
        from <= digit_run(s, from) <= s.len(),
        forall|i: int| from <= i < digit_run(s, from) ==> is_digit(#[trigger] s[i]),
        digit_run(s, from) < s.len() ==> !is_digit(s[digit_run(s, from)]),
    decreases s.len() - from,
{
    if from < s.len() && is_digit(s[from]) {
        lemma_digit_run_bounds(s, from + 1);
    }
}

proof fn lemma_digit_run_is(s: Seq<char>, from: int, to: int)
    requires
        0 <= from <= to <= s.len(),
        forall|i: int| from <= i < to ==> is_digit(#[trigger] s[i]),
        to < s.len() ==> !is_digit(s[to]),
    ensures
        digit_run(s, from) == to,
    decreases to - from,
{
    if from < to {
        lemma_digit_run_is(s, from + 1, to);
    }
}

/// The part of `lemma_digit_run_bounds` that speaks of no digit in between.
proof fn lemma_digit_run_end(s: Seq<char>, from: int)
    requires
        0 <= from <= s.len(),
    ensures
        from <= digit_run(s, from) <= s.len(),
        digit_run(s, from) < s.len() ==> !is_digit(s[digit_run(s, from)]),
    decreases s.len() - from,
{
    if from < s.len() && is_digit(s[from]) {
        lemma_digit_run_end(s, from + 1);
    }
}

proof fn lemma_split_three(s: Seq<char>, a: int, b: int)
    requires
        0 <= a <= b <= s.len(),
    ensures
        s.subrange(0, a) + s.subrange(a, b) + s.subrange(b, s.len() as int) == s,
{
    assert(s.subrange(0, a) + s.subrange(a, b) + s.subrange(b, s.len() as int) =~= s);
}

proof fn lemma_split_four(s: Seq<char>, a: int, b: int, c: int)
    requires
        0 <= a <= b <= c <= s.len(),
    ensures
        s.subrange(0, a) + s.subrange(a, b) + s.subrange(b, c) + s.subrange(c, s.len() as int)
            == s,
{
    assert(s.subrange(0, a) + s.subrange(a, b) + s.subrange(b, c) + s.subrange(c, s.len() as int)
        =~= s);
}

proof fn lemma_sign_text(s: Seq<char>, i: int)
    requires
        0 <= i <= s.len(),
    ensures
        i + sign_mark_at(s, i).text().len() <= s.len(),
        sign_mark_at(s, i).text() == s.subrange(i, i + sign_mark_at(s, i).text().len()),
{
    let m = sign_mark_at(s, i).text();
    assert(m =~= s.subrange(i, i + m.len()));
}

proof fn lemma_fraction_text(s: Seq<char>, b: int, c: int, l: Literal)
    requires
        0 <= b <= c <= s.len(),
        match l.fraction {
            Some(f) => b < c && s[b] == '.' && f == s.subrange(b + 1, c),
            None => b == c,
        },
    ensures
        l.fraction_text() == s.subrange(b, c),
{
    assert(l.fraction_text() =~= s.subrange(b, c));
}

proof fn lemma_exponent_text(s: Seq<char>, c: int, d: int, e: Exponent)
    requires
        0 <= c < d < s.len(),
        s[c] == (if e.capital { 'E' } else { 'e' }),
        e.sign.text() == s.subrange(c + 1, d),
        e.digits == s.subrange(d, s.len() as int),
    ensures
        e.text() == s.subrange(c, s.len() as int),
{
    let t = s.subrange(c, s.len() as int);
    lemma_split_three(t, 1, d - c);
    assert(t.subrange(0, 1) =~= seq![s[c]]);
    assert(t.subrange(1, d - c) =~= s.subrange(c + 1, d));
    assert(t.subrange(d - c, t.len() as int) =~= s.subrange(d, s.len() as int));
}

/// What `scan` accepts obeys the rules of the grammar.
proof fn lemma_scan_wf(s: Seq<char>)
    requires
        scan(s) is Some,
    ensures
        scan(s)->0.wf(),
{
    let l = scan(s)->0;
    let n = s.len() as int;
    let a = sign_mark_at(s, 0).text().len() as int;
    lemma_digit_run_bounds(s, a);
    let b = digit_run(s, a);
    let c0 = if b < n && s[b] == '.' { b + 1 } else { b };
    lemma_digit_run_bounds(s, c0);
    let c = digit_run(s, c0);
    assert(all_digits(l.whole)) by {
        assert forall|i: int| 0 <= i < l.whole.len() implies is_digit(#[trigger] l.whole[i]) by {
            assert(l.whole[i] == s[a + i]);
        }
    }
    assert(all_digits(l.fraction_digits())) by {
        let f = l.fraction_digits();
        assert forall|i: int| 0 <= i < f.len() implies is_digit(#[trigger] f[i]) by {
            assert(f[i] == s[c0 + i]);
        }
    }
    if c < n {
        let d = c + 1 + sign_mark_at(s, c + 1).text().len();
        lemma_digit_run_bounds(s, d);
        let g = l.exponent->0.digits;
        assert forall|i: int| 0 <= i < g.len() implies is_digit(#[trigger] g[i]) by {
            assert(g[i] == s[d + i]);
        }
    }
}

/// What `scan` accepts is written as the text that was read.
proof fn lemma_scan_text(s: Seq<char>)
    requires
        scan(s) is Some,
    ensures
        scan(s)->0.text() == s,
{
    let l = scan(s)->0;
    let n = s.len() as int;
    lemma_sign_text(s, 0);
    let a = sign_mark_at(s, 0).text().len() as int;
    lemma_digit_run_end(s, a);
    let b = digit_run(s, a);
    let c0 = if b < n && s[b] == '.' { b + 1 } else { b };
    lemma_digit_run_end(s, c0);
    let c = digit_run(s, c0);
    lemma_fraction_text(s, b, c, l);
    if c < n {
        let e = l.exponent->0;
        lemma_sign_text(s, c + 1);
        let d = c + 1 + e.sign.text().len();
        lemma_digit_run_end(s, d);
        lemma_exponent_text(s, c, d, e);
    } else {
        assert(l.exponent_text() =~= s.subrange(c, n));
    }
    lemma_split_four(s, a, b, c);
}

/// `scan` takes the text of a literal apart into the parts it was written
/// from.
proof fn lemma_scan_complete(l: Literal)
    requires
        l.wf(),
    ensures
        scan(l.text()) == Some(l),
{
    let s = l.text();
    let sign = l.sign.text();
    let frac = l.fraction_text();
    let exp = l.exponent_text();
    let a = sign.len() as int;
    let b = a + l.whole.len();
    let c0 = if l.fraction is Some { b + 1 } else { b };
    let c = b + frac.len();
    assert(s.len() == c + exp.len());
    assert forall|i: int| 0 <= i < s.len() implies #[trigger] s[i] == (if i < a {
        sign[i]
    } else if i < b {
        l.whole[i - a]
    } else if i < c {
        frac[i - b]
    } else {
        exp[i - c]
    }) by {}
    assert(l.fraction is Some ==> frac[0] == '.');
    assert(l.exponent is Some ==> is_exponent_mark(exp[0]));
    assert(sign_mark_at(s, 0) == l.sign) by {
        if a == 0 {
            if l.whole.len() > 0 {
                assert(is_digit(l.whole[0]));
            }
        }
    }
    assert(digit_run(s, a) == b) by {
        assert forall|i: int| a <= i < b implies is_digit(#[trigger] s[i]) by {
            assert(is_digit(l.whole[i - a]));
        }
        lemma_digit_run_is(s, a, b);
    }
    assert(digit_run(s, c0) == c) by {
        assert forall|i: int| c0 <= i < c implies is_digit(#[trigger] s[i]) by {
            assert(is_digit(l.fraction_digits()[i - c0]));
        }
        lemma_digit_run_is(s, c0, c);
    }
    assert(s.subrange(a, b) =~= l.whole);
    if l.fraction is Some {
        assert(s.subrange(c0, c) =~= l.fraction->0);
    }
    match l.exponent {
        Some(e) => {
            let mark = e.sign.text();
            let d = c + 1 + mark.len();
            assert(exp.len() == 1 + mark.len() + e.digits.len());
            assert forall|i: int| 0 <= i < exp.len() implies #[trigger] exp[i] == (if i < 1 {
                if e.capital { 'E' } else { 'e' }
            } else if i < 1 + mark.len() {
                mark[i - 1]
            } else {
                e.digits[i - 1 - mark.len()]
            }) by {}
            assert(sign_mark_at(s, c + 1) == e.sign) by {
                assert(s[c + 1] == exp[1]);
                if mark.len() == 0 {
                    assert(is_digit(e.digits[0]));
                }
            }
            assert(digit_run(s, d) == s.len()) by {
                assert forall|i: int| d <= i < s.len() implies is_digit(#[trigger] s[i]) by {
                    assert(s[i] == exp[i - c]);
                    assert(is_digit(e.digits[i - d]));
                }
                lemma_digit_run_is(s, d, s.len() as int);
            }
            assert(s.subrange(d, s.len() as int) =~= e.digits);
            assert(s[c] == exp[0]);
        },
        None => {},
    }
}

/// A literal can be taken apart in one way only.
pub proof fn law_literal_unique(a: Literal, b: Literal)
    requires
        a.wf(),
        b.wf(),
        a.text() == b.text(),
    ensures
        a == b,
{
    lemma_scan_complete(a);
    lemma_scan_complete(b);
}

/// `scan` decides the grammar, and finds the parts that `literal_of` names.
proof fn lemma_scan_decides(s: Seq<char>)
    ensures
        is_literal(s) == scan(s) is Some,
        is_literal(s) ==> scan(s) == Some(literal_of(s)),
{
    if scan(s) is Some {
        lemma_scan_wf(s);
        lemma_scan_text(s);
    }
    if is_literal(s) {
        lemma_scan_complete(literal_of(s));
    }
}

/// A literal that is written out is read back as it was written.
pub proof fn law_literal_read_back(l: Literal)
    requires
        l.wf(),
    ensures
        is_literal(l.text()),
        literal_of(l.text()) == l,
        sign_of(l.text()) == Some(l.value().sign()),
{
    law_literal_unique(l, literal_of(l.text()));
}

/// Whether `c` can stand in a literal at all.
pub open spec fn is_literal_char(c: char) -> bool {
    is_digit(c) || is_sign(c) || c == '.' || is_exponent_mark(c)
}

spec fn in_alphabet(s: Seq<char>) -> bool {
    forall|i: int| 0 <= i < s.len() ==> is_literal_char(#[trigger] s[i])
}

proof fn lemma_in_alphabet_concat(a: Seq<char>, b: Seq<char>)
    requires
        in_alphabet(a),
        in_alphabet(b),
    ensures
        in_alphabet(a + b),
{
    assert forall|i: int| 0 <= i < (a + b).len() implies is_literal_char(#[trigger] (a + b)[i]) by {
        if i < a.len() {
            assert((a + b)[i] == a[i]);
        } else {
            assert((a + b)[i] == b[i - a.len()]);
        }
    }
}

/// A literal is not empty, and holds nothing but digits, signs, a point and
/// an exponent marker.
pub proof fn law_literal_alphabet(s: Seq<char>)
    requires
        is_literal(s),
    ensures
        s.len() > 0,
        forall|i: int| 0 <= i < s.len() ==> is_literal_char(#[trigger] s[i]),
{
    let l = literal_of(s);
    let sign = l.sign.text();
    let frac = l.fraction_text();
    let exp = l.exponent_text();
    assert(in_alphabet(sign));
    assert(in_alphabet(l.whole)) by {
        assert forall|i: int| 0 <= i < l.whole.len() implies is_literal_char(
            #[trigger] l.whole[i],
        ) by {
            assert(is_digit(l.whole[i]));
        }
    }
    assert(in_alphabet(frac)) by {
        if l.fraction is Some {
            let f = l.fraction->0;
            assert forall|i: int| 0 <= i < f.len() implies is_literal_char(#[trigger] f[i]) by {
                assert(is_digit(l.fraction_digits()[i]));
            }
            lemma_in_alphabet_concat(seq!['.'], f);
        }
    }
    assert(in_alphabet(exp)) by {
        if l.exponent is Some {
            let e = l.exponent->0;
            assert forall|i: int| 0 <= i < e.digits.len() implies is_literal_char(
                #[trigger] e.digits[i],
            ) by {
                assert(is_digit(e.digits[i]));
            }
            lemma_in_alphabet_concat(seq![if e.capital { 'E' } else { 'e' }], e.sign.text());
            lemma_in_alphabet_concat(
                seq![if e.capital { 'E' } else { 'e' }] + e.sign.text(),
                e.digits,
            );
        }
    }
    lemma_in_alphabet_concat(sign, l.whole);
    lemma_in_alphabet_concat(sign + l.whole, frac);
    lemma_in_alphabet_concat(sign + l.whole + frac, exp);
}

/// A run of digits writes a positive number exactly when one of them is not
/// `0`.
proof fn lemma_digits_value_positive(s: Seq<char>)
    requires
        all_digits(s),
    ensures
        digits_value(s) > 0 <==> has_nonzero(s),
    decreases s.len(),
{
    if s.len() > 0 {
        let init = s.drop_last();
        lemma_digits_value_positive(init);
        assert(is_digit(s.last()));
        if has_nonzero(s) {
            let i = choose|i: int| 0 <= i < s.len() && #[trigger] s[i] != '0';
            if i < s.len() - 1 {
                assert(init[i] != '0');
            }
        }
        if has_nonzero(init) {
            let i = choose|i: int| 0 <= i < init.len() && #[trigger] init[i] != '0';
            assert(s[i] != '0');
        }
    }
}


/// The sign of a literal's number follows from its sign mark and from
/// whether one of its digits is not `0`.
pub proof fn law_literal_sign(l: Literal)
    requires
        l.wf(),
    ensures
        l.value().sign() == (if !has_nonzero(l.whole) && !has_nonzero(l.fraction_digits()) {
            Sign::Zero
        } else if l.sign is Minus {
            Sign::Negative
        } else {
            Sign::Positive
        }),
{
    let m = l.mantissa();
    let w = l.whole;
    let f = l.fraction_digits();
    assert(all_digits(m));
    lemma_digits_value_positive(m);
    if has_nonzero(w) {
        let i = choose|i: int| 0 <= i < w.len() && #[trigger] w[i] != '0';
        assert(m[i] != '0');
    }
    if has_nonzero(f) {
        let i = choose|i: int| 0 <= i < f.len() && #[trigger] f[i] != '0';
        assert(m[w.len() + i] != '0');
    }
    if has_nonzero(m) {
        let i = choose|i: int| 0 <= i < m.len() && #[trigger] m[i] != '0';
        if i < w.len() {
            assert(w[i] != '0');
        } else {
            assert(f[i - w.len()] != '0');
        }
    }
}

/// Whether `bytes` holds the characters of `chars`, one byte for each.
spec fn spells(bytes: Seq<u8>, chars: Seq<char>) -> bool {
    &&& bytes.len() == chars.len()
    &&& forall|i: int|
        0 <= i < chars.len() ==> '\0' <= #[trigger] chars[i] <= '\u{7f}' && bytes[i]
            == chars[i] as u8
}

/// Walks over the digits that start at `from`; returns where they end and
/// whether one of them is not `0`.
fn read_digits(bytes: &[u8], from: usize, Ghost(chars): Ghost<Seq<char>>) -> (r: (usize, bool))
    requires
        spells(bytes@, chars),
        from <= bytes.len(),
    ensures
        r.0 == digit_run(chars, from as int),
        from <= r.0 <= bytes.len(),
        r.1 == has_nonzero(chars.subrange(from as int, r.0 as int)),
{
    let mut at: usize = from;
    let mut nonzero = false;
    while at < bytes.len() && '0' as u8 <= bytes[at] && bytes[at] <= '9' as u8
        invariant
            spells(bytes@, chars),
            from <= at <= bytes.len(),
            digit_run(chars, from as int) == digit_run(chars, at as int),
            nonzero == has_nonzero(chars.subrange(from as int, at as int)),
        decreases bytes.len() - at,
    {
        let ghost before = chars.subrange(from as int, at as int);
        let ghost after = chars.subrange(from as int, at + 1);
        assert(is_digit(chars[at as int]));
        if bytes[at] != '0' as u8 {
            nonzero = true;
        }
        proof {
            assert(after[at - from] == chars[at as int]);
            if has_nonzero(before) {
                let i = choose|i: int| 0 <= i < before.len() && #[trigger] before[i] != '0';
                assert(after[i] != '0');
            }
            if has_nonzero(after) {
                let i = choose|i: int| 0 <= i < after.len() && #[trigger] after[i] != '0';
                if i < at - from {
                    assert(before[i] != '0');
                }
            }
        }
        at = at + 1;
    }
    assert(at < bytes.len() ==> !is_digit(chars[at as int]));
    (at, nonzero)
}

/// Reads `text` as a decimal literal and tells the sign of the number it
/// denotes; `None` when `text` is no literal.
pub fn classify(text: &str) -> (sign: Option<Sign>)
    ensures
        sign == sign_of(text@),
{
    if !text.is_ascii() {
        proof {
            if is_literal(text@) {
                law_literal_alphabet(text@);
            }
        }
        return None;
    }
    let bytes = text.as_bytes();
    let n = bytes.len();
    let ghost chars = text@;
    proof {
        is_ascii_chars_encode_utf8(chars);
        lemma_scan_decides(chars);
        if scan(chars) is Some {
            lemma_scan_wf(chars);
            law_literal_sign(scan(chars)->0);
        }
    }
    let mut negative = false;
    let mut a: usize = 0;
    if n > 0 && (bytes[0] == '+' as u8 || bytes[0] == '-' as u8) {
        negative = bytes[0] == '-' as u8;
        a = 1;
    }
    let (b, whole_nonzero) = read_digits(bytes, a, Ghost(chars));
    let point = b < n && bytes[b] == '.' as u8;
    let c0: usize = if point { b + 1 } else { b };
    let (c, fraction_nonzero) = read_digits(bytes, c0, Ghost(chars));
    if b == a && c == c0 {
        return None;
    }
    if c < n {
        if bytes[c] != 'e' as u8 && bytes[c] != 'E' as u8 {
            return None;
        }
        let mut d: usize = c + 1;
        if d < n && (bytes[d] == '+' as u8 || bytes[d] == '-' as u8) {
            d = d + 1;
        }
        let (e, _) = read_digits(bytes, d, Ghost(chars));
        if e == d || e != n {
            return None;
        }
    }
    if !whole_nonzero && !fraction_nonzero {
        Some(Sign::Zero)
    } else if negative {
        Some(Sign::Negative)
    } else {
        Some(Sign::Positive)
    }
}

} // verus!
