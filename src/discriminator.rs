use vstd::prelude::*;

verus! {

/// Whether `c` is one of the ASCII digits `0` to `9`.
pub open spec fn is_digit(c: char) -> bool {
    '0' <= c && c <= '9'
}

/// The value of an ASCII digit.
pub open spec fn digit_value(c: char) -> int {
    c as int - '0' as int
}

/// The ASCII digit for a value in `0..10`.
pub open spec fn digit_char(d: int) -> char {
    (d + '0' as int) as char
}

/// Exactly four ASCII digits.
pub open spec fn is_four_digits(s: Seq<char>) -> bool {
    s.len() == 4 && forall|i: int| 0 <= i < 4 ==> is_digit(#[trigger] s[i])
}

/// The number that four decimal digits spell.
pub open spec fn four_digit_value(s: Seq<char>) -> int {
    1000 * digit_value(s[0]) + 100 * digit_value(s[1]) + 10 * digit_value(s[2]) + digit_value(s[3])
}

/// A number of `0..10000` written with four digits, zero-padded.
pub open spec fn four_digit_text(n: int) -> Seq<char> {
    seq![
        digit_char(n / 1000),
        digit_char((n / 100) % 10),
        digit_char((n / 10) % 10),
        digit_char(n % 10),
    ]
}

/// Writing out the value of four digits gives the same four digits back.
pub proof fn lemma_display_parse_round_trip(s: Seq<char>)
    requires
        is_four_digits(s),
    ensures
        0 <= four_digit_value(s) <= 9999,
        four_digit_text(four_digit_value(s)) == s,
{
    let a = digit_value(s[0]);
    let b = digit_value(s[1]);
    let c = digit_value(s[2]);
    let d = digit_value(s[3]);
    assert(is_digit(s[0]) && is_digit(s[1]) && is_digit(s[2]) && is_digit(s[3]));
    let n = four_digit_value(s);
    assert(n / 1000 == a && (n / 100) % 10 == b && (n / 10) % 10 == c && n % 10 == d) by (nonlinear_arith)
        requires
            0 <= a < 10,
            0 <= b < 10,
            0 <= c < 10,
            0 <= d < 10,
            n == 1000 * a + 100 * b + 10 * c + d,
    ;
    assert(four_digit_text(n) =~= s);
}

/// Every value of `0..=9999` is written as four digits that read back as that value.
pub proof fn lemma_parse_display_round_trip(n: int)
    requires
        0 <= n <= 9999,
    ensures
        is_four_digits(four_digit_text(n)),
        four_digit_value(four_digit_text(n)) == n,
{
    assert(0 <= n / 1000 < 10 && 0 <= (n / 100) % 10 < 10 && 0 <= (n / 10) % 10 < 10) by (nonlinear_arith)
        requires
            0 <= n <= 9999,
    ;
    assert(1000 * (n / 1000) + 100 * ((n / 100) % 10) + 10 * ((n / 10) % 10) + n % 10 == n) by (nonlinear_arith)
        requires
            0 <= n <= 9999,
    ;
}

/// A discriminator as it arrives from a provider: a number or a string.
pub enum RawDiscriminator {
    Number(i16),
    Text(String),
}

/// Why a raw discriminator was refused.
#[derive(Debug, Clone, Copy, PartialEq, Eq, Structural)]
pub enum InvalidDiscriminator {
    /// A number outside `0..=9999`.
    Range(i16),
    /// A string that is not exactly four ASCII digits.
    StringPattern,
}

/// A four-digit user tag, `0000` to `9999`.
#[derive(Debug, Clone, Copy, PartialEq, Eq, Structural)]
pub struct Discriminator {
    value: i16,
}

impl View for Discriminator {
    type V = int;

    closed spec fn view(&self) -> int {
        self.value as int
    }
}

/// What parsing a raw discriminator yields: its value, or the error.
pub open spec fn parse_spec(raw: RawDiscriminator) -> Result<int, InvalidDiscriminator> {
    match raw {
        RawDiscriminator::Number(n) => if 0 <= n && n <= 9999 {
            Ok(n as int)
        } else {
            Err(InvalidDiscriminator::Range(n))
        },
        RawDiscriminator::Text(s) => if is_four_digits(s@) {
            Ok(four_digit_value(s@))
        } else {
            Err(InvalidDiscriminator::StringPattern)
        },
    }
}

/// What a Discord discriminator field yields: `0` (number or string) marks an account
/// without a discriminator; anything else parses as a discriminator.
pub open spec fn discord_parse_spec(raw: RawDiscriminator) -> Result<Option<int>, InvalidDiscriminator> {
    if is_discord_zero(raw) {
        Ok(None)
    } else {
        match parse_spec(raw) {
            Ok(n) => Ok(Some(n)),
            Err(e) => Err(e),
        }
    }
}

/// The number `0` or the string `"0"`.
pub open spec fn is_discord_zero(raw: RawDiscriminator) -> bool {
    match raw {
        RawDiscriminator::Number(n) => n == 0,
        RawDiscriminator::Text(s) => s@ == seq!['0'],
    }
}

/// Reads four ASCII digits, or `None` where `s` is anything else.
fn parse_four_digits(s: &str) -> (r: Option<i16>)
    ensures
        r is Some <==> is_four_digits(s@),
        r is Some ==> r.unwrap() as int == four_digit_value(s@),
{
    if s.unicode_len() != 4 {
        return None;
    }
    let c0 = s.get_char(0) as u32;
    let c1 = s.get_char(1) as u32;
    let c2 = s.get_char(2) as u32;
    let c3 = s.get_char(3) as u32;
    if c0 < 48 || c0 > 57 || c1 < 48 || c1 > 57 || c2 < 48 || c2 > 57 || c3 < 48 || c3 > 57 {
        proof {
            assert(!is_digit(s@[0]) || !is_digit(s@[1]) || !is_digit(s@[2]) || !is_digit(s@[3]));
        }
        return None;
    }
    let value = (c0 - 48) * 1000 + (c1 - 48) * 100 + (c2 - 48) * 10 + (c3 - 48);
    Some(value as i16)
}

/// The ASCII digit for `d` as a one-character string.
fn digit_text(d: i16) -> (r: &'static str)
    requires
        0 <= d < 10,
    ensures
        r@ == seq![digit_char(d as int)],
{
    proof {
        reveal_strlit("0");
        reveal_strlit("1");
        reveal_strlit("2");
        reveal_strlit("3");
        reveal_strlit("4");
        reveal_strlit("5");
        reveal_strlit("6");
        reveal_strlit("7");
        reveal_strlit("8");
        reveal_strlit("9");
    }
    if d == 0 {
        "0"
    } else if d == 1 {
        "1"
    } else if d == 2 {
        "2"
    } else if d == 3 {
        "3"
    } else if d == 4 {
        "4"
    } else if d == 5 {
        "5"
    } else if d == 6 {
        "6"
    } else if d == 7 {
        "7"
    } else if d == 8 {
        "8"
    } else {
        "9"
    }
}

impl Discriminator {
    #[verifier::type_invariant]
    spec fn inv(self) -> bool {
        0 <= self.value <= 9999
    }

    /// The number that the discriminator stands for.
    pub fn value(&self) -> (r: i16)
        ensures
            r as int == self@,
            0 <= r <= 9999,
    {
        proof {
            use_type_invariant(self);
        }
        self.value
    }

    /// Parses a raw discriminator: a number in `0..=9999`, or a string of exactly four
    /// ASCII digits.
    pub fn try_from(value: RawDiscriminator) -> (r: Result<Discriminator, InvalidDiscriminator>)
        ensures
            match r {
                Ok(d) => parse_spec(value) == Ok::<int, InvalidDiscriminator>(d@),
                Err(e) => parse_spec(value) == Err::<int, InvalidDiscriminator>(e),
            },
    {
        match value {
            RawDiscriminator::Number(n) => {
                if n < 0 || n > 9999 {
                    Err(InvalidDiscriminator::Range(n))
                } else {
                    Ok(Discriminator { value: n })
                }
            },
            RawDiscriminator::Text(s) => match parse_four_digits(s.as_str()) {
                Some(n) => Ok(Discriminator { value: n }),
                None => Err(InvalidDiscriminator::StringPattern),
            },
        }
    }

    /// The discriminator as four digits, zero-padded.
    pub fn to_display_string(&self) -> (r: String)
        ensures
            r@ == four_digit_text(self@),
    {
        let mut buf = String::new();
        self.push_html(&mut buf);
        buf
    }

    /// Appends the four zero-padded digits to `buf`.
    pub fn push_html(&self, buf: &mut String)
        ensures
            final(buf)@ == old(buf)@ + four_digit_text(self@),
    {
        let v = self.value();
        buf.append(digit_text(v / 1000));
        buf.append(digit_text((v / 100) % 10));
        buf.append(digit_text((v / 10) % 10));
        buf.append(digit_text(v % 10));
        proof {
            assert(final(buf)@ =~= old(buf)@ + four_digit_text(self@));
        }
    }
}

/// Reads Discord's discriminator field: `0` and `"0"` mean that the account has none;
/// any other value is parsed as a discriminator.
pub fn discord_opt_discriminator(raw: RawDiscriminator) -> (r: Result<Option<Discriminator>, InvalidDiscriminator>)
    ensures
        is_discord_zero(raw) ==> r == Ok::<Option<Discriminator>, InvalidDiscriminator>(None),
        match r {
            Ok(Some(d)) => discord_parse_spec(raw) == Ok::<Option<int>, InvalidDiscriminator>(Some(d@)),
            Ok(None) => discord_parse_spec(raw) == Ok::<Option<int>, InvalidDiscriminator>(None),
            Err(e) => discord_parse_spec(raw) == Err::<Option<int>, InvalidDiscriminator>(e),
        },
{
    let zero = match &raw {
        RawDiscriminator::Number(n) => *n == 0,
        RawDiscriminator::Text(s) => {
            let t = s.as_str();
            proof {
                reveal_strlit("0");
            }
            t.unicode_len() == 1 && t.get_char(0) == '0'
        },
    };
    if zero {
        proof {
            if let RawDiscriminator::Text(s) = raw {
                assert(s@ =~= seq!['0']);
            }
        }
        Ok(None)
    } else {
        match Discriminator::try_from(raw) {
            Ok(d) => Ok(Some(d)),
            Err(e) => Err(e),
        }
    }
}

} // verus!
