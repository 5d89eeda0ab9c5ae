//! Unsigned numerals in a positional notation: reading them from text and
//! writing them back.

use vstd::prelude::*;

verus! {

/// Why a text is not a numeral that fits.
#[derive(Debug, Clone, Copy, PartialEq, Eq, Structural)]
pub enum NumeralError {
    /// The text has no character at all.
    Empty,
    /// A character is not a digit of the radix, or a sign stands alone.
    InvalidDigit,
    /// The digits read so far already exceed the largest admitted value.
    Overflow,
}

impl NumeralError {
    /// What went wrong, in the words in which the standard library reports
    /// the same failure of its own integer parsing.
    pub open spec fn description(self) -> Seq<char> {
        match self {
            NumeralError::Empty => "cannot parse integer from empty string"@,
            NumeralError::InvalidDigit => "invalid digit found in string"@,
            NumeralError::Overflow => "number too large to fit in target type"@,
        }
    }

    /// What went wrong, in words.
    pub fn describe(self) -> (text: &'static str)
        ensures
            text@ == self.description(),
    {
        match self {
            NumeralError::Empty => "cannot parse integer from empty string",
            NumeralError::InvalidDigit => "invalid digit found in string",
            NumeralError::Overflow => "number too large to fit in target type",
        }
    }
}

/// The value of `c` as a digit of `radix`: `0`-`9`, then letters of either
/// case from ten on.
pub open spec fn digit_value(c: char, radix: nat) -> Option<nat> {
    let v: int = if '0' <= c && c <= '9' {
        c as int - '0' as int
    } else if 'a' <= c && c <= 'z' {
        c as int - 'a' as int + 10
    } else if 'A' <= c && c <= 'Z' {
        c as int - 'A' as int + 10
    } else {
        radix as int
    };
    if v < radix {
        Some(v as nat)
    } else {
        None
    }
}

/// The number that the digits of `s` denote, most significant digit first.
/// A character that is no digit counts as zero.
pub open spec fn numeral_value(s: Seq<char>, radix: nat) -> nat
    decreases s.len(),
{
    if s.len() == 0 {
        0
    } else {
        let d = match digit_value(s.last(), radix) {
            Some(d) => d,
            None => 0,
        };
        numeral_value(s.drop_last(), radix) * radix + d
    }
}

/// How many characters at the start of `s` are digits of `radix`.
pub open spec fn digit_run(s: Seq<char>, radix: nat) -> nat
    decreases s.len(),
{
    if s.len() == 0 || digit_value(s.first(), radix) is None {
        0
    } else {
        1 + digit_run(s.drop_first(), radix)
    }
}

/// What reading `s` as a numeral of `radix` gives when no value above `max`
/// is admitted. One `+` may stand in front. The text is read from the left:
/// the first character that is no digit, or the first digit that takes the
/// value above `max`, decides the error.
pub open spec fn parse_spec(s: Seq<char>, radix: nat, max: nat) -> Result<nat, NumeralError> {
    if s.len() == 0 {
        Err(NumeralError::Empty)
    } else {
        let body = if s[0] == '+' {
            s.skip(1)
        } else {
            s
        };
        let run = digit_run(body, radix) as int;
        if body.len() == 0 {
            Err(NumeralError::InvalidDigit)
        } else if numeral_value(body.take(run), radix) > max {
            Err(NumeralError::Overflow)
        } else if run < body.len() {
            Err(NumeralError::InvalidDigit)
        } else {
            Ok(numeral_value(body, radix))
        }
    }
}

/// The digit `d` as a character, letters in upper case.
pub open spec fn digit_char(d: nat) -> char {
    if d < 10 {
        ('0' as nat + d) as char
    } else {
        ('A' as nat + d - 10) as char
    }
}

/// The numeral of `n` in `radix`, without leading zeros. A radix below two
/// writes no numerals; there the result is of no use.
pub open spec fn numeral(n: nat, radix: nat) -> Seq<char>
    decreases n,
{
    if radix < 2 || n < radix {
        seq![digit_char(n)]
    } else {
        proof {
            assert(n / radix < n) by (nonlinear_arith)
                requires
                    radix >= 2,
                    n >= radix,
            ;
        }
        numeral(n / radix, radix).push(digit_char(n % radix))
    }
}

fn digit_of(c: char, radix: u32) -> (d: Option<u32>)
    requires
        radix <= 36,
    ensures
        match d {
            Some(v) => digit_value(c, radix as nat) == Some(v as nat),
            None => digit_value(c, radix as nat) is None,
        },
{
    let v: u32 = if '0' <= c && c <= '9' {
        c as u32 - '0' as u32
    } else if 'a' <= c && c <= 'z' {
        c as u32 - 'a' as u32 + 10
    } else if 'A' <= c && c <= 'Z' {
        c as u32 - 'A' as u32 + 10
    } else {
        radix
    };
    if v < radix {
        Some(v)
    } else {
        None
    }
}

proof fn lemma_digit_run(s: Seq<char>, radix: nat, k: int)
    requires
        0 <= k <= s.len(),
        forall|j: int| 0 <= j < k ==> digit_value(#[trigger] s[j], radix) is Some,
    ensures
        k <= digit_run(s, radix) <= s.len(),
        k == s.len() || digit_value(s[k], radix) is None ==> digit_run(s, radix) == k,
    decreases s.len(),
{
    if s.len() > 0 && digit_value(s.first(), radix) is Some {
        let rest = s.drop_first();
        assert forall|j: int| 0 <= j < k - 1 implies digit_value(#[trigger] rest[j], radix) is Some by {
            assert(rest[j] == s[j + 1]);
        }
        if k > 0 {
            if k < s.len() {
                assert(rest[k - 1] == s[k]);
            }
            lemma_digit_run(rest, radix, k - 1);
        } else {
            lemma_digit_run(rest, radix, 0);
        }
    }
}

proof fn lemma_prefix_value_grows(s: Seq<char>, radix: nat, a: int, b: int)
    requires
        0 <= a <= b <= s.len(),
        radix >= 1,
    ensures
        numeral_value(s.take(a), radix) <= numeral_value(s.take(b), radix),
    decreases b - a,
{
    if a < b {
        lemma_prefix_value_grows(s, radix, a, b - 1);
        assert(s.take(b).drop_last() =~= s.take(b - 1));
        let v = numeral_value(s.take(b - 1), radix);
        assert(v * radix >= v) by (nonlinear_arith)
            requires
                radix >= 1,
                v >= 0,
        ;
    }
}

/// The text of `s` after its sign, if `plus` says that it has one.
spec fn unsigned_part(s: Seq<char>, plus: bool) -> Seq<char> {
    if plus {
        s.skip(1)
    } else {
        s
    }
}

/// Reads `s` as a numeral of `radix` and admits no value above `max`. It
/// reads what the integer parsing of the standard library reads, and fails
/// where that fails.
pub fn parse_unsigned(s: &str, radix: u32, max: u64) -> (r: Result<u64, NumeralError>)
    requires
        2 <= radix <= 36,
    ensures
        match r {
            Ok(v) => parse_spec(s@, radix as nat, max as nat) == Ok::<nat, NumeralError>(v as nat),
            Err(e) => parse_spec(s@, radix as nat, max as nat) == Err::<nat, NumeralError>(e),
        },
{
    let mut acc: u64 = 0;
    let mut plus = false;
    let mut any = false;
    let mut digits = false;
    for c in it: s.chars()
        invariant
            it.seq() == s@,
            2 <= radix <= 36,
            any == (it.index() > 0),
            plus ==> it.index() >= 1 && s@[0] == '+',
            !plus && it.index() >= 1 ==> s@[0] != '+',
            digits == (it.index() > (if plus { 1int } else { 0int })),
            acc <= max,
            acc as nat == numeral_value(
                unsigned_part(s@, plus).take(it.index() - (if plus { 1int } else { 0int })),
                radix as nat,
            ),
            forall|j: int|
                0 <= j < it.index() - (if plus { 1int } else { 0int }) ==> digit_value(
                    #[trigger] unsigned_part(s@, plus)[j],
                    radix as nat,
                ) is Some,
    {
        if !any && c == '+' {
            plus = true;
            any = true;
            assert(unsigned_part(s@, true).take(0) =~= Seq::<char>::empty());
        } else {
            any = true;
            let ghost body = unsigned_part(s@, plus);
            let ghost k = it.index() - (if plus { 1int } else { 0int });
            assert(body[k] == c);
            match digit_of(c, radix) {
                None => {
                    proof {
                        lemma_digit_run(body, radix as nat, k);
                    }
                    return Err(NumeralError::InvalidDigit);
                },
                Some(d) => {
                    assert(acc * radix <= u64::MAX * 36) by (nonlinear_arith)
                        requires
                            acc <= u64::MAX,
                            radix <= 36,
                    ;
                    let next: u128 = acc as u128 * radix as u128 + d as u128;
                    assert(body.take(k + 1).drop_last() =~= body.take(k));
                    assert(next as nat == numeral_value(body.take(k + 1), radix as nat));
                    if next > max as u128 {
                        proof {
                            lemma_digit_run(body, radix as nat, k + 1);
                            lemma_prefix_value_grows(
                                body,
                                radix as nat,
                                k + 1,
                                digit_run(body, radix as nat) as int,
                            );
                        }
                        return Err(NumeralError::Overflow);
                    }
                    acc = next as u64;
                    digits = true;
                },
            }
        }
    }
    if !any {
        Err(NumeralError::Empty)
    } else if !digits {
        Err(NumeralError::InvalidDigit)
    } else {
        proof {
            let body = unsigned_part(s@, plus);
            lemma_digit_run(body, radix as nat, body.len() as int);
            assert(body.take(body.len() as int) =~= body);
        }
        Ok(acc)
    }
}

/// `s` with zeros in front of it until it has `width` characters.
pub open spec fn zero_padded(s: Seq<char>, width: nat) -> Seq<char> {
    if s.len() >= width {
        s
    } else {
        Seq::new((width - s.len()) as nat, |i: int| '0') + s
    }
}

fn digit_to_char(d: u32) -> (c: char)
    requires
        d < 36,
    ensures
        c == digit_char(d as nat),
{
    if d < 10 {
        (48u8 + d as u8) as char
    } else {
        (55u8 + d as u8) as char
    }
}

/// Writes `n` in `radix`, letters in upper case, with zeros in front where
/// the numeral has fewer than `width` digits.
pub fn to_radix_string(n: u64, radix: u32, width: usize) -> (text: String)
    requires
        2 <= radix <= 36,
    ensures
        text@ == zero_padded(numeral(n as nat, radix as nat), width as nat),
{
    // The digits of `n`, the least significant first.
    let mut digits: Vec<char> = Vec::new();
    let mut m = n;
    while m >= radix as u64
        invariant
            2 <= radix <= 36,
            numeral(n as nat, radix as nat) == numeral(m as nat, radix as nat) + digits@.reverse(),
        decreases m,
    {
        let d = (m % radix as u64) as u32;
        let ghost before = digits@;
        digits.push(digit_to_char(d));
        assert(digits@.reverse() =~= seq![digit_char(d as nat)] + before.reverse());
        m = m / radix as u64;
    }
    let ghost before = digits@;
    digits.push(digit_to_char(m as u32));
    assert(digits@.reverse() =~= seq![digit_char(m as nat)] + before.reverse());
    assert(numeral(n as nat, radix as nat) =~= digits@.reverse());

    let mut text = String::new();
    let mut len = digits.len();
    while len < width
        invariant
            digits.len() <= len,
            len <= width || len == digits.len(),
            text@ == Seq::new((len - digits.len()) as nat, |i: int| '0'),
        decreases width - len,
    {
        text.push('0');
        len = len + 1;
    }
    let ghost zeros = text@;
    let mut i = digits.len();
    while i > 0
        invariant
            i <= digits.len(),
            text@ == zeros + digits@.reverse().take(digits.len() - i),
        decreases i,
    {
        i = i - 1;
        text.push(digits[i]);
    }
    assert(digits@.reverse().take(digits.len() as int) =~= digits@.reverse());
    text
}

proof fn lemma_digit_char_value(d: nat, radix: nat)
    requires
        d < radix <= 36,
    ensures
        digit_value(digit_char(d), radix) == Some(d),
        digit_char(d) != '+',
{
}

proof fn lemma_value_push(s: Seq<char>, d: nat, radix: nat)
    requires
        d < radix <= 36,
    ensures
        numeral_value(s.push(digit_char(d)), radix) == numeral_value(s, radix) * radix + d,
{
    let t = s.push(digit_char(d));
    lemma_digit_char_value(d, radix);
    assert(t.drop_last() =~= s);
    assert(t.last() == digit_char(d));
}

proof fn lemma_numeral_digits(n: nat, radix: nat)
    requires
        2 <= radix <= 36,
    ensures
        numeral(n, radix).len() >= 1,
        numeral(n, radix)[0] != '+',
        forall|i: int|
            0 <= i < numeral(n, radix).len() ==> digit_value(
                #[trigger] numeral(n, radix)[i],
                radix,
            ) is Some,
        numeral_value(numeral(n, radix), radix) == n,
    decreases n,
{
    let s = numeral(n, radix);
    if n < radix {
        let none = Seq::<char>::empty();
        assert(s =~= none.push(digit_char(n)));
        lemma_digit_char_value(n, radix);
        lemma_value_push(none, n, radix);
        assert(numeral_value(none, radix) == 0);
        assert(numeral_value(none, radix) * radix == 0) by (nonlinear_arith)
            requires
                numeral_value(none, radix) == 0,
        ;
    } else {
        let q = n / radix;
        let r = n % radix;
        assert(q < n && r < radix && q * radix + r == n) by (nonlinear_arith)
            requires
                radix >= 2,
                n >= radix,
                q == n / radix,
                r == n % radix,
        ;
        lemma_numeral_digits(q, radix);
        lemma_digit_char_value(r, radix);
        lemma_value_push(numeral(q, radix), r, radix);
        assert(s == numeral(q, radix).push(digit_char(r)));
        assert forall|i: int| 0 <= i < s.len() implies digit_value(#[trigger] s[i], radix) is Some by {
            if i < s.len() - 1 {
                assert(s[i] == numeral(q, radix)[i]);
            }
        }
    }
}

/// A numeral that was written is read back as the number it was written
/// for, whenever that number is admitted.
pub proof fn lemma_numeral_round_trip(n: nat, radix: nat, max: nat)
    requires
        2 <= radix <= 36,
        n <= max,
    ensures
        parse_spec(numeral(n, radix), radix, max) == Ok::<nat, NumeralError>(n),
{
    let s = numeral(n, radix);
    lemma_numeral_digits(n, radix);
    lemma_digit_run(s, radix, s.len() as int);
    assert(s.take(s.len() as int) =~= s);
}

} // verus!
