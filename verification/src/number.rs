//! Numbers as they cross the boundary to the user interface: decimal text,
//! and the 32-bit integers of the C calls.
use vstd::prelude::*;

verus! {

/// Whether a byte is an ASCII decimal digit.
pub open spec fn is_digit(b: u8) -> bool {
    48 <= b <= 57
}

/// Whether every byte of a text is an ASCII decimal digit.
pub open spec fn all_digits(text: Seq<u8>) -> bool {
    forall|i: int| 0 <= i < text.len() ==> is_digit(#[trigger] text[i])
}

/// The number that a run of decimal digits denotes.
pub open spec fn digits_value(text: Seq<u8>) -> nat
    decreases text.len(),
{
    if text.len() == 0 {
        0
    } else {
        digits_value(text.drop_last()) * 10 + (text.last() - 48) as nat
    }
}

/// The digits of a decimal text: a leading `+` sign is dropped.
pub open spec fn unsigned_digits(text: Seq<u8>) -> Seq<u8> {
    if text.len() > 0 && text[0] == 43u8 {
        text.drop_first()
    } else {
        text
    }
}

/// The `usize` that a decimal text denotes: an optional `+`, then at least one
/// ASCII digit and nothing else, of a value that fits in `usize`.
/// This is what `str::parse::<usize>` accepts.
pub open spec fn decimal_usize(text: Seq<u8>) -> Option<usize> {
    let d = unsigned_digits(text);
    if d.len() > 0 && all_digits(d) && digits_value(d) <= usize::MAX {
        Some(digits_value(d) as usize)
    } else {
        None
    }
}

/// The shortest decimal notation of a number.
pub open spec fn decimal(n: nat) -> Seq<u8>
    decreases n,
{
    if n < 10 {
        seq![(48 + n) as u8]
    } else {
        decimal(n / 10).push((48 + n % 10) as u8)
    }
}

/// A prefix of a run of digits never denotes more than the whole run.
proof fn lemma_prefix_value(text: Seq<u8>, i: int)
    requires
        0 <= i <= text.len(),
        all_digits(text),
    ensures
        digits_value(text.subrange(0, i)) <= digits_value(text),
    decreases text.len() - i,
{
    if i < text.len() {
        lemma_prefix_value(text, i + 1);
        let p = text.subrange(0, i + 1);
        assert(p.drop_last() == text.subrange(0, i));
        assert(is_digit(text[i]));
    } else {
        assert(text.subrange(0, i) == text);
    }
}

/// The decimal notation of a number is a non-empty run of digits that denotes it.
pub proof fn lemma_decimal_digits(n: nat)
    ensures
        decimal(n).len() > 0,
        all_digits(decimal(n)),
        digits_value(decimal(n)) == n,
    decreases n,
{
    if n >= 10 {
        lemma_decimal_digits(n / 10);
        let d = decimal(n);
        assert(d.drop_last() == decimal(n / 10));
        assert(d.last() == (48 + n % 10) as u8);
        assert(n == (n / 10) * 10 + n % 10);
        assert forall|i: int| 0 <= i < d.len() implies is_digit(#[trigger] d[i]) by {
            if i < d.len() - 1 {
                assert(d[i] == decimal(n / 10)[i]);
            }
        }
    } else {
        let d = decimal(n);
        assert(d.drop_last() =~= Seq::<u8>::empty());
        assert(digits_value(d.drop_last()) == 0);
    }
}

/// Reading the decimal notation of any `usize` gives that number back.
pub proof fn lemma_decimal_round_trip(n: usize)
    ensures
        decimal_usize(decimal(n as nat)) == Some(n),
{
    lemma_decimal_digits(n as nat);
    let d = decimal(n as nat);
    assert(is_digit(d[0]));
    assert(unsigned_digits(d) == d);
}

/// Reads a decimal number, as `str::parse::<usize>` does.
pub fn parse_usize(text: &[u8]) -> (r: Option<usize>)
    ensures
        r == decimal_usize(text@),
{
    let n = text.len();
    let start: usize = if n > 0 && text[0] == 43u8 { 1 } else { 0 };
    let ghost d = unsigned_digits(text@);
    assert(d == text@.subrange(start as int, n as int));
    if start == n {
        assert(d.len() == 0);
        return None;
    }
    let mut acc: usize = 0;
    let mut i: usize = start;
    while i < n
        invariant
            n == text@.len(),
            start <= i <= n,
            d == text@.subrange(start as int, n as int),
            d == unsigned_digits(text@),
            all_digits(d.subrange(0, i - start)),
            acc as nat == digits_value(d.subrange(0, i - start)),
        decreases n - i,
    {
        let b = text[i];
        let ghost k = i - start;
        assert(d[k] == b);
        if b < 48u8 || b > 57u8 {
            assert(!all_digits(d));
            return None;
        }
        let ghost next = d.subrange(0, k + 1);
        assert(next.drop_last() == d.subrange(0, k));
        assert(next.last() == b);
        assert(digits_value(next) == acc as nat * 10 + (b - 48) as nat);
        assert(all_digits(next)) by {
            assert forall|j: int| 0 <= j < next.len() implies is_digit(#[trigger] next[j]) by {
                if j < k {
                    assert(next[j] == d.subrange(0, k)[j]);
                }
            }
        }
        match acc.checked_mul(10) {
            Some(m) => match m.checked_add((b - 48u8) as usize) {
                Some(v) => {
                    acc = v;
                },
                None => {
                    proof {
                        digits_overflow(d, k + 1);
                    }
                    return None;
                },
            },
            None => {
                proof {
                    digits_overflow(d, k + 1);
                }
                return None;
            },
        }
        i = i + 1;
    }
    assert(d.subrange(0, n - start) == d);
    Some(acc)
}

/// Once a prefix of the digits is too large for `usize`, the text denotes no `usize`.
proof fn digits_overflow(d: Seq<u8>, k: int)
    requires
        0 < k <= d.len(),
        all_digits(d.subrange(0, k)),
        digits_value(d.subrange(0, k)) > usize::MAX,
    ensures
        !(all_digits(d) && digits_value(d) <= usize::MAX),
{
    if all_digits(d) {
        lemma_prefix_value(d, k);
    }
}

/// The `usize` that a 32-bit integer of a C call becomes, as Rust's `as usize`
/// makes it: a negative number wraps around.
pub open spec fn index_from_c(n: i32) -> int {
    if n >= 0 {
        n as int
    } else {
        n + usize::MAX + 1
    }
}

/// Converts a 32-bit integer of a C call into an index or a number.
pub fn to_index(n: i32) -> (r: usize)
    ensures
        r == index_from_c(n),
        n >= 0 ==> r == n,
        n < 0 ==> r == n + usize::MAX + 1,
{
    if n >= 0 {
        n as usize
    } else {
        usize::MAX - ((-(n + 1)) as usize)
    }
}

/// Converts an unsigned 32-bit integer of a C call into a number.
pub fn to_count(n: u32) -> (r: usize)
    ensures
        r == n,
{
    n as usize
}

/// The 32-bit length that the user interface receives for a list (Rust's `as i32`).
pub open spec fn length_for_c(len: usize) -> i32 {
    len as i32
}

/// Converts a length into the 32-bit count that travels with a list.
pub fn to_c_length(len: usize) -> (r: i32)
    ensures
        r == length_for_c(len),
        len <= i32::MAX ==> r == len,
{
    len as i32
}

} // verus!
