//! JSON numbers and the text they are written as.

use vstd::prelude::*;

verus! {

/// The decimal digit for `d`, where `d < 10`.
pub open spec fn digit_char(d: nat) -> char {
    if d == 0 {
        '0'
    } else if d == 1 {
        '1'
    } else if d == 2 {
        '2'
    } else if d == 3 {
        '3'
    } else if d == 4 {
        '4'
    } else if d == 5 {
        '5'
    } else if d == 6 {
        '6'
    } else if d == 7 {
        '7'
    } else if d == 8 {
        '8'
    } else {
        '9'
    }
}

/// `n` in decimal, without sign or leading zeros.
pub open spec fn decimal(n: nat) -> Seq<char>
    decreases n,
{
    if n < 10 {
        seq![digit_char(n)]
    } else {
        decimal(n / 10).push(digit_char(n % 10))
    }
}

fn digit_text(d: u64) -> (s: &'static str)
    requires
        d < 10,
    ensures
        s@ == seq![digit_char(d as nat)],
{
    proof {
        reveal_strlit("0");
        reveal_strlit("1");
        reveal_strlit("2");
        reveal_strlit("3");
        reveal_strlit("4");
        reveal_strlit("5");
        reveal_strlit("6");
        reveal_strlit("7");
        reveal_strlit("8");
        reveal_strlit("9");
    }
    let s = if d == 0 {
        "0"
    } else if d == 1 {
        "1"
    } else if d == 2 {
        "2"
    } else if d == 3 {
        "3"
    } else if d == 4 {
        "4"
    } else if d == 5 {
        "5"
    } else if d == 6 {
        "6"
    } else if d == 7 {
        "7"
    } else if d == 8 {
        "8"
    } else {
        "9"
    };
    assert(s@ =~= seq![digit_char(d as nat)]);
    s
}

/// Writes `n` in decimal.
pub fn decimal_text(n: u64) -> (out: String)
    ensures
        out@ == decimal(n as nat),
    decreases n,
{
    if n < 10 {
        digit_text(n).to_owned()
    } else {
        let mut out = decimal_text(n / 10);
        out.append(digit_text(n % 10));
        assert(out@ =~= decimal(n as nat));
        out
    }
}

/// Whether `c` is a decimal digit.
pub open spec fn is_digit(c: char) -> bool {
    '0' <= c && c <= '9'
}

/// The end of the run of digits that starts at `from`.
pub open spec fn digits_end(s: Seq<char>, from: int) -> int
    decreases s.len() - from,
{
    if 0 <= from < s.len() && is_digit(s[from]) {
        digits_end(s, from + 1)
    } else {
        from
    }
}

/// Where the integer part of a number starts: behind the minus sign, if
/// there is one.
pub open spec fn int_start(s: Seq<char>) -> int {
    if s.len() > 0 && s[0] == '-' {
        1
    } else {
        0
    }
}

/// Whether a fraction starts at `at`.
pub open spec fn has_fraction(s: Seq<char>, at: int) -> bool {
    0 <= at < s.len() && s[at] == '.'
}

/// Whether an exponent starts at `at`.
pub open spec fn has_exponent(s: Seq<char>, at: int) -> bool {
    0 <= at < s.len() && (s[at] == 'e' || s[at] == 'E')
}

/// Where the digits of the exponent that starts at `at` start: behind the
/// letter, and behind the sign if there is one.
pub open spec fn exponent_digits(s: Seq<char>, at: int) -> int {
    if at + 1 < s.len() && (s[at + 1] == '+' || s[at + 1] == '-') {
        at + 2
    } else {
        at + 1
    }
}

/// Whether `s` is a JSON number: an optional minus sign; an integer part,
/// which is a single zero or some digits that do not start with zero; an
/// optional fraction, which is a point and one digit or more; an optional
/// exponent, which is `e` or `E`, an optional sign, and one digit or more.
pub open spec fn is_number_literal(s: Seq<char>) -> bool {
    let int_from = int_start(s);
    let int_to = digits_end(s, int_from);
    let fraction_to = if has_fraction(s, int_to) {
        digits_end(s, int_to + 1)
    } else {
        int_to
    };
    let exponent_to = if has_exponent(s, fraction_to) {
        digits_end(s, exponent_digits(s, fraction_to))
    } else {
        fraction_to
    };
    &&& int_to > int_from
    &&& s[int_from] == '0' ==> int_to == int_from + 1
    &&& has_fraction(s, int_to) ==> fraction_to > int_to + 1
    &&& has_exponent(s, fraction_to) ==> exponent_to > exponent_digits(s, fraction_to)
    &&& exponent_to == s.len()
}

/// Finds the end of the run of digits that starts at `from`.
fn skip_digits(s: &str, len: usize, from: usize) -> (end: usize)
    requires
        len == s@.len(),
        from <= len,
    ensures
        end == digits_end(s@, from as int),
        from <= end <= len,
{
    let mut at = from;
    while at < len && is_digit_char(s.get_char(at))
        invariant
            from <= at <= len,
            len == s@.len(),
            digits_end(s@, from as int) == digits_end(s@, at as int),
        decreases len - at,
    {
        at = at + 1;
    }
    at
}

/// Tells whether `c` is a decimal digit.
fn is_digit_char(c: char) -> (r: bool)
    ensures
        r == is_digit(c),
{
    '0' <= c && c <= '9'
}

/// The decimal text of a number is made of digits, and starts with zero only
/// where the number is zero.
pub proof fn lemma_decimal_is_digits(n: nat)
    ensures
        decimal(n).len() >= 1,
        forall|i: int| 0 <= i < decimal(n).len() ==> is_digit(#[trigger] decimal(n)[i]),
        decimal(n)[0] == '0' <==> n == 0,
    decreases n,
{
    if n >= 10 {
        lemma_decimal_is_digits(n / 10);
        assert(decimal(n)[0] == decimal(n / 10)[0]);
    }
}

/// A run of digits that reaches to the end of the text ends there.
pub proof fn lemma_digits_end_at_len(s: Seq<char>, from: int)
    requires
        0 <= from <= s.len(),
        forall|i: int| from <= i < s.len() ==> is_digit(#[trigger] s[i]),
    ensures
        digits_end(s, from) == s.len(),
    decreases s.len() - from,
{
    if from < s.len() {
        lemma_digits_end_at_len(s, from + 1);
    }
}

/// The decimal text of a number is the text of a JSON number.
pub proof fn lemma_decimal_is_number(n: nat)
    ensures
        is_number_literal(decimal(n)),
{
    lemma_decimal_is_digits(n);
    lemma_digits_end_at_len(decimal(n), 0);
}

/// The decimal text of a number that is not zero, behind a minus sign, is the
/// text of a JSON number.
pub proof fn lemma_negative_is_number(n: nat)
    requires
        n > 0,
    ensures
        is_number_literal(seq!['-'] + decimal(n)),
{
    let s = seq!['-'] + decimal(n);
    lemma_decimal_is_digits(n);
    assert forall|i: int| 1 <= i < s.len() implies is_digit(#[trigger] s[i]) by {
        assert(s[i] == decimal(n)[i - 1]);
    }
    lemma_digits_end_at_len(s, 1);
    assert(s[1] == decimal(n)[0]);
}

/// A JSON number, held as the text it is written as.
#[derive(Debug)]
pub struct Number {
    text: String,
}

impl View for Number {
    type V = Seq<char>;

    closed spec fn view(&self) -> Seq<char> {
        self.text@
    }
}

impl Number {
    #[verifier::type_invariant]
    spec fn is_a_number(self) -> bool {
        is_number_literal(self.text@)
    }

    /// The number `n`.
    pub fn from_u64(n: u64) -> (r: Number)
        ensures
            r@ == decimal(n as nat),
    {
        proof {
            lemma_decimal_is_number(n as nat);
        }
        Number { text: decimal_text(n) }
    }

    /// The number `n`.
    pub fn from_i64(n: i64) -> (r: Number)
        ensures
            r@ == if n < 0 {
                seq!['-'] + decimal((-n) as nat)
            } else {
                decimal(n as nat)
            },
    {
        if n < 0 {
            let magnitude: u64 = ((-(n + 1)) as u64) + 1;
            let mut text = String::new();
            text.append("-");
            let digits = decimal_text(magnitude);
            text.append(digits.as_str());
            proof {
                reveal_strlit("-");
                assert(text@ =~= seq!['-'] + decimal((-n) as nat));
                lemma_negative_is_number((-n) as nat);
            }
            Number { text }
        } else {
            proof {
                lemma_decimal_is_number(n as nat);
            }
            Number { text: decimal_text(n as u64) }
        }
    }

    /// The number that `text` is, if it is the text of a JSON number.
    pub fn parse(text: &str) -> (r: Option<Number>)
        ensures
            r is Some <==> is_number_literal(text@),
            r matches Some(n) ==> n@ == text@,
    {
        let len = text.unicode_len();
        let int_from: usize = if len > 0 && text.get_char(0) == '-' {
            1
        } else {
            0
        };
        let int_to = skip_digits(text, len, int_from);
        if int_to == int_from {
            return None;
        }
        if text.get_char(int_from) == '0' && int_to != int_from + 1 {
            return None;
        }
        let mut at = int_to;
        if at < len && text.get_char(at) == '.' {
            let fraction_to = skip_digits(text, len, at + 1);
            if fraction_to == at + 1 {
                return None;
            }
            at = fraction_to;
        }
        if at < len && (text.get_char(at) == 'e' || text.get_char(at) == 'E') {
            let digits_from: usize = if at + 1 < len && (text.get_char(at + 1) == '+'
                || text.get_char(at + 1) == '-') {
                at + 2
            } else {
                at + 1
            };
            let exponent_to = skip_digits(text, len, digits_from);
            if exponent_to == digits_from {
                return None;
            }
            at = exponent_to;
        }
        if at != len {
            return None;
        }
        Some(Number { text: text.to_owned() })
    }

    /// A second number of the same text.
    pub fn copy(&self) -> (r: Number)
        ensures
            r@ == self@,
    {
        proof {
            use_type_invariant(self);
        }
        Number { text: self.text.clone() }
    }

    /// The text of the number, which is the text of a JSON number.
    pub fn as_str(&self) -> (s: &str)
        ensures
            s@ == self@,
            is_number_literal(self@),
    {
        proof {
            use_type_invariant(self);
        }
        self.text.as_str()
    }
}

} // verus!
