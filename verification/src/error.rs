//! Errors in the parameters that a caller hands to the library.

use vstd::prelude::*;
use vstd::string::*;

verus! {

/// What went wrong with a parameter.
#[derive(Debug)]
pub enum ParameterErrorKind {
    /// A provided buffer must be have the exact size to hold the image data. Where the buffer can
    /// be allocated by the caller, they must ensure that it has a minimum size as hinted previously.
    /// Even though the size is calculated from image data, this does counts as a parameter error
    /// because they must react to a value produced by this library, which can have been subjected
    /// to limits.
    ImageBufferSize { expected: usize, actual: usize },
    /// A bit like return `None` from an iterator.
    /// We use it to differentiate between failing to seek to the next image in a sequence and the
    /// absence of a next image. This is an error of the caller because they should have checked
    /// the number of images by inspecting the header data returned when opening the image. This
    /// library will perform the checks necessary to ensure that data was accurate or error with a
    /// format error otherwise.
    PolledAfterEndOfImage,
}

/// An error in a parameter that the caller provided.
#[derive(Debug)]
pub struct ParameterError {
    inner: ParameterErrorKind,
}

/// The character of a decimal digit.
pub open spec fn digit_char(d: nat) -> char {
    (48 + d) as char
}

/// The decimal notation of a number, most significant digit first and with no
/// leading zeros.
pub open spec fn decimal(n: nat) -> Seq<char>
    decreases n,
{
    if n < 10 {
        seq![digit_char(n)]
    } else {
        decimal(n / 10).push(digit_char(n % 10))
    }
}

/// The number that a string of decimal digits denotes.
pub open spec fn digits_value(s: Seq<char>) -> int
    decreases s.len(),
{
    if s.len() == 0 {
        0
    } else {
        digits_value(s.drop_last()) * 10 + (s.last() as int - 48)
    }
}

/// A digit's character stands for the digit.
proof fn lemma_digit_char(d: nat)
    requires
        d < 10,
    ensures
        digit_char(d) as int == 48 + d,
        '0' <= digit_char(d) <= '9',
{
    assert((48 + d) as char as int == 48 + d);
}

/// The decimal notation of `n` is a non-empty string of the digits `0`..`9`
/// with no leading zero (unless `n` is zero), and it denotes `n`.
pub proof fn lemma_decimal_denotes(n: nat)
    ensures
        decimal(n).len() >= 1,
        decimal(n).len() == 1 <==> n < 10,
        forall|i: int| 0 <= i < decimal(n).len() ==> '0' <= #[trigger] decimal(n)[i] <= '9',
        decimal(n).len() > 1 ==> decimal(n)[0] != '0',
        digits_value(decimal(n)) == n,
    decreases n,
{
    if n < 10 {
        lemma_digit_char(n);
        let s = decimal(n);
        assert(s.drop_last() =~= Seq::<char>::empty());
        assert(s.last() == digit_char(n));
        assert(digits_value(s) == digits_value(s.drop_last()) * 10 + (s.last() as int - 48));
        assert(digits_value(Seq::<char>::empty()) == 0);
    } else {
        lemma_decimal_denotes(n / 10);
        lemma_digit_char(n % 10);
        let s = decimal(n);
        assert(s.drop_last() == decimal(n / 10));
        assert(s.last() == digit_char(n % 10));
        assert forall|i: int| 0 <= i < s.len() implies '0' <= #[trigger] s[i] <= '9' by {
            if i < s.len() - 1 {
                assert(s[i] == decimal(n / 10)[i]);
            }
        }
        if n / 10 < 10 {
            lemma_digit_char(n / 10);
            assert(decimal(n / 10)[0] == digit_char(n / 10));
        }
        assert(s[0] == decimal(n / 10)[0]);
        assert(digits_value(s) == digits_value(s.drop_last()) * 10 + (s.last() as int - 48));
        assert(n == (n / 10) * 10 + n % 10);
    }
}

/// The message that describes an error of a kind.
pub open spec fn parameter_error_message(k: ParameterErrorKind) -> Seq<char> {
    match k {
        ParameterErrorKind::ImageBufferSize { expected, actual } => "wrong data size, expected "@
            + decimal(expected as nat) + " got "@ + decimal(actual as nat),
        ParameterErrorKind::PolledAfterEndOfImage => "End of image has been reached"@,
    }
}

/// The one-character string of a decimal digit.
fn digit_str(d: usize) -> (r: &'static str)
    requires
        d < 10,
    ensures
        r@ == seq![digit_char(d as nat)],
{
    proof {
        reveal_strlit("0");
        reveal_strlit("1");
        reveal_strlit("2");
        reveal_strlit("3");
        reveal_strlit("4");
        reveal_strlit("5");
        reveal_strlit("6");
        reveal_strlit("7");
        reveal_strlit("8");
        reveal_strlit("9");
    }
    match d {
        0 => "0",
        1 => "1",
        2 => "2",
        3 => "3",
        4 => "4",
        5 => "5",
        6 => "6",
        7 => "7",
        8 => "8",
        _ => "9",
    }
}

/// Writes `n` in decimal.
fn decimal_string(n: usize) -> (r: String)
    ensures
        r@ == decimal(n as nat),
    decreases n,
{
    if n < 10 {
        String::from_str(digit_str(n))
    } else {
        let mut s = decimal_string(n / 10);
        s.append(digit_str(n % 10));
        s
    }
}

impl ParameterError {
    /// The kind of this error.
    pub closed spec fn kind(&self) -> ParameterErrorKind {
        self.inner
    }

    /// The message that describes this error, as it is displayed.
    pub fn to_string(&self) -> (r: String)
        ensures
            r@ == parameter_error_message(self.kind()),
    {
        match self.inner {
            ParameterErrorKind::ImageBufferSize { expected, actual } => {
                let mut s = String::from_str("wrong data size, expected ");
                let e = decimal_string(expected);
                s.append(e.as_str());
                s.append(" got ");
                let a = decimal_string(actual);
                s.append(a.as_str());
                s
            },
            ParameterErrorKind::PolledAfterEndOfImage => String::from_str(
                "End of image has been reached",
            ),
        }
    }
}

impl From<ParameterErrorKind> for ParameterError {
    fn from(inner: ParameterErrorKind) -> (r: Self)
        ensures
            r.kind() == inner,
    {
        ParameterError { inner }
    }
}

impl vstd::std_specs::convert::FromSpecImpl<ParameterErrorKind> for ParameterError {
    open spec fn obeys_from_spec() -> bool {
        true
    }

    closed spec fn from_spec(inner: ParameterErrorKind) -> Self {
        ParameterError { inner }
    }
}

} // verus!
