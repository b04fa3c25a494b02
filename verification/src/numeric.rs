//! Numeric literal parsing: a verified hexadecimal integer parser and the
//! validity check for decimal literals. The scanner captures an over-broad
//! character run and decides validity here, after capture.

use vstd::prelude::*;

verus! {

/// Why an integer parse failed; each case carries its fixed message.
#[derive(Debug, Clone, Copy, PartialEq, Eq, Structural)]
pub enum IntParseError {
    Empty,
    InvalidDigit,
    PosOverflow,
    NegOverflow,
}

impl IntParseError {
    /// The message of the failure, as the diagnostic note shows it.
    pub open spec fn spec_message(self) -> Seq<char> {
        match self {
            IntParseError::Empty => "cannot parse integer from empty string"@,
            IntParseError::InvalidDigit => "invalid digit found in string"@,
            IntParseError::PosOverflow => "number too large to fit in target type"@,
            IntParseError::NegOverflow => "number too small to fit in target type"@,
        }
    }

    /// The message of the failure, as the diagnostic note shows it.
    pub fn message(&self) -> (r: &'static str)
        ensures
            r@ == self.spec_message(),
    {
        match self {
            IntParseError::Empty => "cannot parse integer from empty string",
            IntParseError::InvalidDigit => "invalid digit found in string",
            IntParseError::PosOverflow => "number too large to fit in target type",
            IntParseError::NegOverflow => "number too small to fit in target type",
        }
    }
}

pub open spec fn is_digit_char(c: char) -> bool {
    48 <= c as u32 <= 57
}

pub open spec fn is_hex_digit_char(c: char) -> bool {
    is_digit_char(c) || (97 <= c as u32 <= 102) || (65 <= c as u32 <= 70)
}

/// The value of one hexadecimal digit character.
pub open spec fn hex_digit_val(c: char) -> int {
    if is_digit_char(c) {
        c as u32 - 48
    } else if 97 <= c as u32 <= 102 {
        c as u32 - 87
    } else {
        c as u32 - 55
    }
}

/// Folds the digits into `acc` from the left, sixteen at a time, failing on
/// the first non-digit or on the first step that leaves the 64-bit signed
/// range; a negative parse accumulates downwards.
pub open spec fn hex_step(acc: int, ds: Seq<char>, neg: bool) -> Result<int, IntParseError>
    decreases ds.len(),
{
    if ds.len() == 0 {
        Ok(acc)
    } else if !is_hex_digit_char(ds[0]) {
        Err(IntParseError::InvalidDigit)
    } else {
        let next = if neg {
            acc * 16 - hex_digit_val(ds[0])
        } else {
            acc * 16 + hex_digit_val(ds[0])
        };
        if !neg && next > i64::MAX {
            Err(IntParseError::PosOverflow)
        } else if neg && next < i64::MIN {
            Err(IntParseError::NegOverflow)
        } else {
            hex_step(next, ds.skip(1), neg)
        }
    }
}

/// Parsing a text as a signed 64-bit hexadecimal integer: an optional sign,
/// then at least one hexadecimal digit, the value folded left to right with
/// overflow reported at the step it happens; a bare sign has no digit to
/// read.
pub open spec fn spec_parse_hex(s: Seq<char>) -> Result<i64, IntParseError> {
    if s.len() == 0 {
        Err(IntParseError::Empty)
    } else {
        let neg = s[0] == '-';
        let ds = if s[0] == '-' || s[0] == '+' {
            s.skip(1)
        } else {
            s
        };
        if ds.len() == 0 {
            Err(IntParseError::InvalidDigit)
        } else {
            match hex_step(0, ds, neg) {
                Ok(v) => Ok(v as i64),
                Err(e) => Err(e),
            }
        }
    }
}

/// A folded value stays inside the 64-bit signed range on the side of its
/// sign.
proof fn lemma_hex_step_range(acc: int, ds: Seq<char>, neg: bool)
    requires
        neg ==> i64::MIN <= acc <= 0,
        !neg ==> 0 <= acc <= i64::MAX,
        hex_step(acc, ds, neg) is Ok,
    ensures
        neg ==> i64::MIN <= hex_step(acc, ds, neg)->Ok_0 <= 0,
        !neg ==> 0 <= hex_step(acc, ds, neg)->Ok_0 <= i64::MAX,
    decreases ds.len(),
{
    if ds.len() > 0 && is_hex_digit_char(ds[0]) {
        let next = if neg {
            acc * 16 - hex_digit_val(ds[0])
        } else {
            acc * 16 + hex_digit_val(ds[0])
        };
        if (!neg && next <= i64::MAX) || (neg && next >= i64::MIN) {
            lemma_hex_step_range(next, ds.skip(1), neg);
        }
    }
}

/// Parses `s` as a signed 64-bit hexadecimal integer, exactly per
/// [`spec_parse_hex`].
pub fn parse_hex_i64(s: &str) -> (r: Result<i64, IntParseError>)
    ensures
        r == spec_parse_hex(s@),
{
    let n = s.unicode_len();
    if n == 0 {
        return Err(IntParseError::Empty);
    }
    let c0 = s.get_char(0);
    let neg = c0 == '-';
    let start: usize = if c0 == '-' || c0 == '+' {
        1
    } else {
        0
    };
    if n - start == 0 {
        return Err(IntParseError::InvalidDigit);
    }
    let ghost ds = if c0 == '-' || c0 == '+' {
        s@.skip(1)
    } else {
        s@
    };
    assert(ds.skip(0) =~= ds);
    let mut acc: i64 = 0;
    let mut i: usize = start;
    while i < n
        invariant
            start <= i <= n,
            n == s@.len(),
            s@.len() > 0,
            n - start > 0,
            start == 0 || start == 1,
            start == 1 ==> (s@[0] == '-' || s@[0] == '+'),
            start == 0 ==> !(s@[0] == '-' || s@[0] == '+'),
            neg == (s@[0] == '-'),
            start == 0 ==> ds == s@,
            start == 1 ==> ds == s@.skip(1),
            ds.len() == n - start,
            neg ==> i64::MIN <= acc <= 0,
            !neg ==> 0 <= acc <= i64::MAX,
            hex_step(0, ds, neg) == hex_step(acc as int, ds.skip(i - start), neg),
        decreases n - i,
    {
        let c = s.get_char(i);
        assert(ds.skip(i - start)[0] == c);
        let cv = c as u32;
        if !((48 <= cv && cv <= 57) || (97 <= cv && cv <= 102) || (65 <= cv && cv <= 70)) {
            return Err(IntParseError::InvalidDigit);
        }
        let d: u8 = if cv <= 57 {
            (cv - 48) as u8
        } else if cv >= 97 {
            (cv - 87) as u8
        } else {
            (cv - 55) as u8
        };
        let next: i128 = if neg {
            acc as i128 * 16 - d as i128
        } else {
            acc as i128 * 16 + d as i128
        };
        if !neg && next > i64::MAX as i128 {
            return Err(IntParseError::PosOverflow);
        }
        if neg && next < i64::MIN as i128 {
            return Err(IntParseError::NegOverflow);
        }
        acc = next as i64;
        i = i + 1;
        proof {
            assert(ds.skip(i - 1 - start).skip(1) =~= ds.skip(i - start));
        }
    }
    assert(ds.skip(i - start) =~= Seq::<char>::empty());
    Ok(acc)
}

/// The first position at or after `i` in `s` that holds no decimal digit, or
/// the end of the text.
pub open spec fn digits_end(s: Seq<char>, i: int) -> int
    decreases s.len() - i when 0 <= i <= s.len()
{
    if i >= s.len() {
        i
    } else if is_digit_char(s[i]) {
        digits_end(s, i + 1)
    } else {
        i
    }
}

pub proof fn lemma_digits_end_bounds(s: Seq<char>, i: int)
    requires
        0 <= i <= s.len(),
    ensures
        i <= digits_end(s, i) <= s.len(),
        forall|k: int| i <= k < digits_end(s, i) ==> is_digit_char(s[k]),
        digits_end(s, i) < s.len() ==> !is_digit_char(s[digits_end(s, i)]),
    decreases s.len() - i,
{
    if i < s.len() && is_digit_char(s[i]) {
        lemma_digits_end_bounds(s, i + 1);
    }
}

/// Validity of a decimal literal, after an optional sign: a digit run, an
/// optional dot with a second digit run (at least one digit in the two runs
/// together), then an optional exponent `e`/`E` with an optional sign and at
/// least one digit, and nothing after it.
pub open spec fn float_body_valid(t: Seq<char>) -> bool {
    let i = digits_end(t, 0);
    let has_dot = i < t.len() && t[i] == '.';
    let j = if has_dot {
        digits_end(t, i + 1)
    } else {
        i
    };
    let mant = if has_dot {
        i + (j - i - 1)
    } else {
        i
    };
    &&& mant > 0
    &&& (j == t.len() || {
        &&& (t[j] == 'e' || t[j] == 'E')
        &&& {
            let k = if j + 1 < t.len() && (t[j + 1] == '+' || t[j + 1] == '-') {
                j + 2
            } else {
                j + 1
            };
            let m = digits_end(t, k);
            m > k && m == t.len()
        }
    })
}

/// Validity of a decimal literal: an optional sign, then a valid body. This
/// is the syntax the 64-bit float parser accepts for texts made of digits,
/// signs, dots and exponent marks; a valid text names a float value, an
/// invalid one is reported as a bad numeric literal.
pub open spec fn spec_float_valid(s: Seq<char>) -> bool {
    if s.len() > 0 && (s[0] == '+' || s[0] == '-') {
        float_body_valid(s.skip(1))
    } else {
        float_body_valid(s)
    }
}

/// Scans the digit run of `s` starting at `i`.
fn digits_end_exec(s: &str, i: usize) -> (r: usize)
    requires
        i <= s@.len(),
    ensures
        r == digits_end(s@, i as int),
        i <= r <= s@.len(),
{
    proof {
        lemma_digits_end_bounds(s@, i as int);
    }
    let n = s.unicode_len();
    let mut j = i;
    while j < n
        invariant
            i <= j <= n,
            n == s@.len(),
            digits_end(s@, i as int) == digits_end(s@, j as int),
        decreases n - j,
    {
        let c = s.get_char(j);
        if !(48 <= c as u32 && c as u32 <= 57) {
            return j;
        }
        j = j + 1;
    }
    j
}

/// Tests `s` against the decimal-literal grammar, exactly per
/// [`spec_float_valid`].
pub fn float_text_valid(s: &str) -> (r: bool)
    ensures
        r == spec_float_valid(s@),
{
    let n = s.unicode_len();
    let start: usize = if n > 0 {
        let c0 = s.get_char(0);
        if c0 == '+' || c0 == '-' {
            1
        } else {
            0
        }
    } else {
        0
    };
    proof {
        assert(s@.skip(0) =~= s@);
    }
    // the grammar of the body is position-shifted by the sign; check it in
    // place and carry the shift through the digit runs
    float_body_valid_exec(s, start)
}

/// Tests the body grammar of `s` from `from` on; `from` marks where the
/// optional sign ended.
fn float_body_valid_exec(s: &str, from: usize) -> (r: bool)
    requires
        from <= s@.len(),
    ensures
        r == float_body_valid(s@.skip(from as int)),
{
    proof {
        lemma_digits_end_shift(s@, from as int);
    }
    let ghost t = s@.skip(from as int);
    let n = s.unicode_len();
    let i = digits_end_exec(s, from);
    let has_dot = i < n && s.get_char(i) == '.';
    let j = if has_dot {
        proof {
            lemma_digits_end_shift_at(s@, from as int, i + 1);
        }
        digits_end_exec(s, i + 1)
    } else {
        i
    };
    let mant: usize = if has_dot {
        (i - from) + (j - i - 1)
    } else {
        i - from
    };
    if mant == 0 {
        return false;
    }
    if j == n {
        return true;
    }
    let cj = s.get_char(j);
    if !(cj == 'e' || cj == 'E') {
        return false;
    }
    let k: usize = if j + 1 < n {
        let cs = s.get_char(j + 1);
        if cs == '+' || cs == '-' {
            j + 2
        } else {
            j + 1
        }
    } else {
        j + 1
    };
    proof {
        lemma_digits_end_shift_at(s@, from as int, k as int);
    }
    let m = digits_end_exec(s, k);
    m > k && m == n
}

/// A digit run in the suffix `s[from..]` is the digit run of `s` shifted by
/// `from`.
proof fn lemma_digits_end_shift(s: Seq<char>, from: int)
    requires
        0 <= from <= s.len(),
    ensures
        digits_end(s.skip(from), 0) == digits_end(s, from) - from,
{
    lemma_digits_end_shift_at(s, from, from);
}

proof fn lemma_digits_end_shift_at(s: Seq<char>, from: int, at: int)
    requires
        0 <= from <= at <= s.len(),
    ensures
        digits_end(s.skip(from), at - from) == digits_end(s, at) - from,
    decreases s.len() - at,
{
    if at < s.len() && is_digit_char(s[at]) {
        lemma_digits_end_shift_at(s, from, at + 1);
    }
}

} // verus!
