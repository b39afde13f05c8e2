use vstd::prelude::*;
use vstd::string::StrSliceExecFns;

verus! {

/// A zero-based (row, column) coordinate on a board.
#[derive(Debug, Clone, Copy, PartialEq, Eq, Hash, Structural)]
pub struct Square {
    pub row: u16,
    pub column: u16,
}

/// Why a square's notation could not be read.
#[derive(Debug, Clone, Copy, PartialEq, Eq, Hash, Structural)]
pub enum ParseError {
    /// The text has fewer than two characters.
    TooShort,
    /// The first character is not a lowercase ASCII letter.
    InvalidColumn,
    /// The text after the letter is not a decimal number that fits in a `u16`.
    InvalidRow,
    /// The row number is zero.
    RowNotPositive,
}

pub open spec fn is_digit(c: char) -> bool {
    '0' <= c && c <= '9'
}

pub open spec fn is_column_letter(c: char) -> bool {
    'a' <= c && c <= 'z'
}

/// A non-empty sequence of decimal digits.
pub open spec fn all_digits(s: Seq<char>) -> bool {
    s.len() > 0 && forall|i: int| 0 <= i < s.len() ==> is_digit(#[trigger] s[i])
}

/// The number that a sequence of decimal digits denotes.
pub open spec fn decimal_value(s: Seq<char>) -> int
    decreases s.len(),
{
    if s.len() == 0 {
        0
    } else {
        10 * decimal_value(s.drop_last()) + (s.last() as int - '0' as int)
    }
}

/// What `Square::parse` gives for the text `s`: a column letter followed by a
/// one-based row number.
pub open spec fn parse_square(s: Seq<char>) -> Result<Square, ParseError> {
    if s.len() < 2 {
        Err(ParseError::TooShort)
    } else if !is_column_letter(s[0]) {
        Err(ParseError::InvalidColumn)
    } else {
        let digits = s.subrange(1, s.len() as int);
        if !(all_digits(digits) && decimal_value(digits) <= u16::MAX) {
            Err(ParseError::InvalidRow)
        } else if decimal_value(digits) < 1 {
            Err(ParseError::RowNotPositive)
        } else {
            Ok(
                Square {
                    row: (decimal_value(digits) - 1) as u16,
                    column: (s[0] as int - 'a' as int) as u16,
                },
            )
        }
    }
}

/// The decimal digit for `d < 10`.
pub open spec fn digit_char(d: nat) -> char {
    ((48 + d) as u32) as char
}

/// The decimal numeral of `n`, without leading zeros.
pub open spec fn decimal_digits(n: nat) -> Seq<char>
    decreases n,
{
    if n < 10 {
        seq![digit_char(n)]
    } else {
        decimal_digits(n / 10).push(digit_char(n % 10))
    }
}

/// The notation of a square: its column letter, then its row counted from 1.
pub open spec fn notation(square: Square) -> Seq<char> {
    seq![((97 + square.column) as u32) as char] + decimal_digits((square.row + 1) as nat)
}

proof fn lemma_decimal_digits(n: nat)
    ensures
        all_digits(decimal_digits(n)),
        decimal_value(decimal_digits(n)) == n,
    decreases n,
{
    if n < 10 {
        let s = decimal_digits(n);
        assert(s.drop_last() =~= Seq::<char>::empty());
        assert(decimal_value(s.drop_last()) == 0);
        assert(decimal_value(s) == 10 * decimal_value(s.drop_last()) + (s.last() as int - '0' as int));
    } else {
        lemma_decimal_digits(n / 10);
        let s = decimal_digits(n);
        assert(s.drop_last() =~= decimal_digits(n / 10));
        assert(decimal_value(s) == 10 * decimal_value(s.drop_last()) + (s.last() as int - '0' as int));
        assert forall|i: int| 0 <= i < s.len() implies is_digit(#[trigger] s[i]) by {
            if i < s.len() - 1 {
                assert(s[i] == decimal_digits(n / 10)[i]);
            }
        }
    }
}

/// Reading the notation of a square gives the square back, for every column
/// that has a letter and every row whose number fits in a `u16`.
pub proof fn lemma_parse_notation(square: Square)
    requires
        square.column < 26,
        square.row < u16::MAX,
    ensures
        parse_square(notation(square)) == Ok::<Square, ParseError>(square),
{
    let s = notation(square);
    let digits = decimal_digits((square.row + 1) as nat);
    lemma_decimal_digits((square.row + 1) as nat);
    assert(s.subrange(1, s.len() as int) =~= digits);
}

proof fn lemma_decimal_value_nonneg(s: Seq<char>)
    requires
        forall|i: int| 0 <= i < s.len() ==> is_digit(#[trigger] s[i]),
    ensures
        decimal_value(s) >= 0,
    decreases s.len(),
{
    if s.len() > 0 {
        lemma_decimal_value_nonneg(s.drop_last());
    }
}

impl Square {
    /// Whether the square lies on a board of the given dimensions.
    pub open spec fn within(self, width: u16, height: u16) -> bool {
        self.row < height && self.column < width
    }

    pub fn new(row: u16, column: u16) -> (r: Self)
        ensures
            r == (Square { row, column }),
    {
        Square { row, column }
    }

    /// Reads a square in algebraic notation: one letter `a`-`z` for the column,
    /// then the row counted from 1. No upper bound is enforced here.
    pub fn parse(s: &str) -> (r: Result<Self, ParseError>)
        ensures
            r == parse_square(s@),
    {
        let n = s.unicode_len();
        if n < 2 {
            return Err(ParseError::TooShort);
        }
        let c = s.get_char(0);
        if !('a' <= c && c <= 'z') {
            return Err(ParseError::InvalidColumn);
        }
        let column: u16 = (c as u32 - 'a' as u32) as u16;
        let ghost digits = s@.subrange(1, n as int);
        // The row number read so far, saturated just above the largest `u16`.
        let mut value: u32 = 0;
        let mut i: usize = 1;
        while i < n
            invariant
                1 <= i <= n,
                n == s@.len(),
                is_column_letter(s@[0]),
                digits == s@.subrange(1, n as int),
                forall|j: int| 1 <= j < i ==> is_digit(#[trigger] s@[j]),
                value as int == if decimal_value(s@.subrange(1, i as int)) < 65536 {
                    decimal_value(s@.subrange(1, i as int))
                } else {
                    65536
                },
            decreases n - i,
        {
            let d = s.get_char(i);
            if !('0' <= d && d <= '9') {
                assert(digits[i - 1] == d);
                assert(!is_digit(digits[i - 1]));
                return Err(ParseError::InvalidRow);
            }
            let ghost prev = s@.subrange(1, i as int);
            let ghost next = s@.subrange(1, i + 1);
            proof {
                assert(next.drop_last() =~= prev);
                assert(next.last() == d);
                lemma_decimal_value_nonneg(prev);
            }
            let step = value * 10 + (d as u32 - '0' as u32);
            value = if step > 65536 { 65536 } else { step };
            i = i + 1;
        }
        assert(s@.subrange(1, i as int) =~= digits);
        if value > 65535 {
            Err(ParseError::InvalidRow)
        } else if value < 1 {
            Err(ParseError::RowNotPositive)
        } else {
            Ok(Square { row: (value - 1) as u16, column })
        }
    }
}

} // verus!
