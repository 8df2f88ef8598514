use vstd::prelude::*;

verus! {

/// The largest rotation, in degrees, either way.
pub const MAX_ROTATION: i16 = 360;

/// Message for a number outside `[-360, 360]`.
pub const OUT_OF_RANGE_MESSAGE: &'static str = "Rotation was greater than 360 degrees.";

/// Message for text that is not a number.
pub const NOT_A_NUMBER_MESSAGE: &'static str = "Rotation was not a valid number.";

pub open spec fn is_digit(c: char) -> bool {
    '0' <= c && c <= '9'
}

pub open spec fn is_sign(c: char) -> bool {
    c == '+' || c == '-'
}

pub open spec fn digit_value(c: char) -> int {
    c as int - '0' as int
}

/// All characters are decimal digits.
pub open spec fn all_digits(s: Seq<char>) -> bool {
    forall|i: int| 0 <= i < s.len() ==> is_digit(#[trigger] s[i])
}

/// The value of a string of decimal digits, most significant first.
pub open spec fn digits_value(s: Seq<char>) -> int
    decreases s.len(),
{
    if s.len() == 0 {
        0
    } else {
        digits_value(s.drop_last()) * 10 + digit_value(s.last())
    }
}

/// The digits that follow an optional leading sign.
pub open spec fn unsigned_part(s: Seq<char>) -> Seq<char> {
    if s.len() > 0 && is_sign(s[0]) {
        s.skip(1)
    } else {
        s
    }
}

/// A decimal integer: an optional `+` or `-`, then one or more digits.
pub open spec fn is_integer_text(s: Seq<char>) -> bool {
    unsigned_part(s).len() > 0 && all_digits(unsigned_part(s))
}

/// The integer that a text denotes, if it is one.
pub open spec fn integer_of(s: Seq<char>) -> Option<int> {
    if !is_integer_text(s) {
        None
    } else if s[0] == '-' {
        Some(-digits_value(unsigned_part(s)))
    } else {
        Some(digits_value(unsigned_part(s)))
    }
}

/// The outcome of reading a rotation command: its degrees, or the message
/// that explains why the text is no rotation.
pub open spec fn rotation_of(s: Seq<char>) -> Result<int, Seq<char>> {
    match integer_of(s) {
        Some(n) => if -MAX_ROTATION <= n <= MAX_ROTATION {
            Ok(n)
        } else {
            Err(OUT_OF_RANGE_MESSAGE@)
        },
        None => Err(NOT_A_NUMBER_MESSAGE@),
    }
}

proof fn lemma_digits_value_nonneg(s: Seq<char>)
    requires
        all_digits(s),
    ensures
        digits_value(s) >= 0,
    decreases s.len(),
{
    if s.len() > 0 {
        lemma_digits_value_nonneg(s.drop_last());
    }
}

/// The digit character of a value in `0..10`.
pub open spec fn digit_char(d: int) -> char {
    seq!['0', '1', '2', '3', '4', '5', '6', '7', '8', '9'][d]
}

/// The decimal digits of a natural number, without leading zeros.
pub open spec fn digits_of(m: nat) -> Seq<char>
    decreases m,
{
    if m < 10 {
        seq![digit_char(m as int)]
    } else {
        digits_of(m / 10).push(digit_char((m % 10) as int))
    }
}

/// The usual decimal text of an integer: a `-` before negative numbers.
pub open spec fn decimal_text(n: int) -> Seq<char> {
    if n < 0 {
        seq!['-'] + digits_of((-n) as nat)
    } else {
        digits_of(n as nat)
    }
}

proof fn lemma_digit_char(d: int)
    requires
        0 <= d < 10,
    ensures
        is_digit(digit_char(d)),
        digit_value(digit_char(d)) == d,
{
    assert(d == 0 || d == 1 || d == 2 || d == 3 || d == 4 || d == 5 || d == 6 || d == 7 || d == 8
        || d == 9);
}

proof fn lemma_digits_of(m: nat)
    ensures
        digits_of(m).len() > 0,
        all_digits(digits_of(m)),
        digits_value(digits_of(m)) == m,
    decreases m,
{
    let s = digits_of(m);
    if m < 10 {
        lemma_digit_char(m as int);
        assert(s.drop_last() =~= Seq::<char>::empty());
        assert(digits_value(s.drop_last()) == 0);
        assert(s.last() == digit_char(m as int));
    } else {
        lemma_digits_of(m / 10);
        lemma_digit_char((m % 10) as int);
        assert(m == (m / 10) * 10 + m % 10);
        assert(s.drop_last() =~= digits_of(m / 10));
        assert(s.last() == digit_char((m % 10) as int));
        assert(digits_value(s) == digits_value(digits_of(m / 10)) * 10 + (m % 10));
    }
}

proof fn lemma_integer_of_decimal_text(n: int)
    ensures
        integer_of(decimal_text(n)) == Some(n),
{
    let s = decimal_text(n);
    if n < 0 {
        lemma_digits_of((-n) as nat);
        assert(unsigned_part(s) =~= digits_of((-n) as nat));
    } else {
        lemma_digits_of(n as nat);
        assert(!is_sign(s[0]));
        assert(unsigned_part(s) =~= digits_of(n as nat));
    }
}

/// Every integer from -360 to 360, written in decimal, is read as a rotation
/// by exactly that many degrees.
pub proof fn lemma_rotation_in_range(n: int)
    requires
        -MAX_ROTATION <= n <= MAX_ROTATION,
    ensures
        rotation_of(decimal_text(n)) == Ok::<int, Seq<char>>(n),
{
    lemma_integer_of_decimal_text(n);
}

/// Every integer beyond 360 either way, written in decimal, is refused as
/// out of range.
pub proof fn lemma_rotation_out_of_range(n: int)
    requires
        n < -MAX_ROTATION || n > MAX_ROTATION,
    ensures
        rotation_of(decimal_text(n)) == Err::<int, Seq<char>>(OUT_OF_RANGE_MESSAGE@),
{
    lemma_integer_of_decimal_text(n);
}

/// Text that is no decimal integer is refused as not a number.
pub proof fn lemma_rotation_not_a_number(s: Seq<char>)
    requires
        !is_integer_text(s),
    ensures
        rotation_of(s) == Err::<int, Seq<char>>(NOT_A_NUMBER_MESSAGE@),
{
}

/// Parses the degrees of a rotation: a decimal integer in `[-360, 360]`.
pub fn parse_rotation(input: &str) -> (r: Result<i16, String>)
    ensures
        match r {
            Ok(d) => rotation_of(input@) == Ok::<int, Seq<char>>(d as int),
            Err(m) => rotation_of(input@) == Err::<int, Seq<char>>(m@),
        },
{
    if !input.is_ascii() {
        proof {
            let k = choose|k: int| 0 <= k < input@.len() && !('\0' <= #[trigger] input@[k] <= '\u{7f}');
            if input@.len() > 0 && is_sign(input@[0]) {
                assert(unsigned_part(input@)[k - 1] == input@[k]);
            } else {
                assert(unsigned_part(input@)[k] == input@[k]);
            }
        }
        return Err(NOT_A_NUMBER_MESSAGE.to_owned());
    }
    let len = input.unicode_len();
    let first: u8 = if len > 0 {
        input.get_ascii(0)
    } else {
        0
    };
    let negative = len > 0 && first == ('-' as u8);
    let start: usize = if len > 0 && (first == ('+' as u8) || first == ('-' as u8)) {
        1
    } else {
        0
    };
    let ghost body = unsigned_part(input@);
    assert(body == input@.subrange(start as int, len as int));
    if start == len {
        return Err(NOT_A_NUMBER_MESSAGE.to_owned());
    }
    // The value of the digits read so far, held at `cap` once it passes it.
    let cap: u32 = MAX_ROTATION as u32 + 1;
    let mut value: u32 = 0;
    let mut i: usize = start;
    while i < len
        invariant
            start <= i <= len,
            len == input@.len(),
            input.is_ascii(),
            cap == MAX_ROTATION + 1,
            negative == (len > 0 && input@[0] == '-'),
            body == input@.subrange(start as int, len as int),
            body == unsigned_part(input@),
            all_digits(input@.subrange(start as int, i as int)),
            value <= cap,
            value < cap ==> value == digits_value(input@.subrange(start as int, i as int)),
            value == cap ==> digits_value(input@.subrange(start as int, i as int)) >= cap,
        decreases len - i,
    {
        let b = input.get_ascii(i);
        let ghost c = input@[i as int];
        if b < ('0' as u8) || b > ('9' as u8) {
            proof {
                assert(body[i - start] == c);
            }
            return Err(NOT_A_NUMBER_MESSAGE.to_owned());
        }
        let ghost prefix = input@.subrange(start as int, i as int);
        let ghost next = input@.subrange(start as int, i + 1);
        proof {
            assert(next.drop_last() == prefix);
            assert(next.last() == c);
            lemma_digits_value_nonneg(prefix);
        }
        let d = (b - ('0' as u8)) as u32;
        if value < cap {
            value = value * 10 + d;
            if value > cap {
                value = cap;
            }
        }
        i = i + 1;
    }
    assert(input@.subrange(start as int, i as int) == body);
    if value >= cap {
        Err(OUT_OF_RANGE_MESSAGE.to_owned())
    } else if negative {
        Ok(-(value as i16))
    } else {
        Ok(value as i16)
    }
}

} // verus!
