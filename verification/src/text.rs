//! The texts in which the relay says what went wrong.
use vstd::prelude::*;

verus! {

/// The digit for a number below ten.
pub open spec fn digit(n: nat) -> char {
    ('0' as nat + n) as char
}

/// A number in decimal notation, without leading zeros.
pub open spec fn decimal(n: nat) -> Seq<char>
    decreases n,
{
    if n < 10 {
        seq![digit(n)]
    } else {
        decimal(n / 10).push(digit(n % 10))
    }
}

/// What is said of a first request that is larger than the limit.
pub open spec fn oversize_error_text(size: nat, limit: nat) -> Seq<char> {
    "websocket request frame is "@ + decimal(size) + " bytes; limit is "@ + decimal(limit)
}

/// The digit for a number below ten, as a string.
fn digit_text(n: usize) -> (text: &'static str)
    requires
        n < 10,
    ensures
        text@ == seq![digit(n as nat)],
{
    let digits = "0123456789";
    proof {
        reveal_strlit("0123456789");
    }
    digits.substring_ascii(n, n + 1)
}

/// A number in decimal notation.
pub fn decimal_text(n: usize) -> (text: String)
    ensures
        text@ == decimal(n as nat),
    decreases n,
{
    if n < 10 {
        digit_text(n).to_owned()
    } else {
        let mut text = decimal_text(n / 10);
        text.append(digit_text(n % 10));
        text
    }
}

/// What to say of a first request of `size` bytes where `limit` are allowed.
pub fn oversize_error(size: usize, limit: usize) -> (text: String)
    ensures
        text@ == oversize_error_text(size as nat, limit as nat),
{
    let mut text = "websocket request frame is ".to_owned();
    text.append(decimal_text(size).as_str());
    text.append(" bytes; limit is ");
    text.append(decimal_text(limit).as_str());
    text
}

/// An error, with what was being done put before it.
pub fn with_context(context: &str, error: &str) -> (text: String)
    ensures
        text@ == context@ + error@,
{
    let mut text = context.to_owned();
    text.append(error);
    text
}

/// The number that decimal digits stand for.
pub open spec fn decimal_value(digits: Seq<char>) -> int
    decreases digits.len(),
{
    if digits.len() == 0 {
        0
    } else {
        10 * decimal_value(digits.drop_last()) + (digits.last() as int - '0' as int)
    }
}

/// A number can be read back from its decimal notation.
pub proof fn decimal_reads_back(n: nat)
    ensures
        decimal_value(decimal(n)) == n,
    decreases n,
{
    reveal_with_fuel(decimal_value, 2);
    if n >= 10 {
        decimal_reads_back(n / 10);
        assert(decimal(n).drop_last() == decimal(n / 10));
    }
}

/// Decimal notation consists of digits, at least one, and does not start with a
/// zero unless it is that of zero.
pub proof fn decimal_is_canonical(n: nat)
    ensures
        decimal(n).len() > 0,
        forall|i: int| 0 <= i < decimal(n).len() ==> '0' <= #[trigger] decimal(n)[i] <= '9',
        decimal(n)[0] == '0' ==> n == 0,
        n < 10 ==> decimal(n).len() == 1,
    decreases n,
{
    if n >= 10 {
        decimal_is_canonical(n / 10);
    }
}

/// What is said of an oversized request are its size and then the limit, in
/// these words.
pub proof fn oversize_error_names_size_then_limit(size: nat, limit: nat)
    ensures
        oversize_error_text(size, limit) == "websocket request frame is "@ + decimal(size)
            + " bytes; limit is "@ + decimal(limit),
{
}

/// The decimal notation of a number below ten is its digit, and a further digit
/// is appended to the notation of a larger one.
pub proof fn decimal_appends_digits(n: nat, last: nat)
    requires
        last < 10,
    ensures
        decimal(last) == seq![(48 + last) as char],
        n > 0 ==> decimal(10 * n + last) == decimal(n).push((48 + last) as char),
{
}

} // verus!
