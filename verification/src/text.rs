//! How numbers and bytes are spelled in event attributes: decimal for
//! integers, lower-case hexadecimal for bytes.
use vstd::prelude::*;
use vstd::string::StrSliceExecFns;

verus! {

/// The character of a decimal digit.
pub open spec fn digit_char(d: nat) -> char {
    if d == 0 {
        '0'
    } else if d == 1 {
        '1'
    } else if d == 2 {
        '2'
    } else if d == 3 {
        '3'
    } else if d == 4 {
        '4'
    } else if d == 5 {
        '5'
    } else if d == 6 {
        '6'
    } else if d == 7 {
        '7'
    } else if d == 8 {
        '8'
    } else {
        '9'
    }
}

/// The character of a hexadecimal digit, lower case.
pub open spec fn hex_digit_char(d: nat) -> char {
    if d < 10 {
        digit_char(d)
    } else if d == 10 {
        'a'
    } else if d == 11 {
        'b'
    } else if d == 12 {
        'c'
    } else if d == 13 {
        'd'
    } else if d == 14 {
        'e'
    } else {
        'f'
    }
}

/// The decimal spelling of `n`, without leading zeros.
pub open spec fn decimal(n: nat) -> Seq<char>
    decreases n,
{
    if n < 10 {
        seq![digit_char(n)]
    } else {
        decimal(n / 10).push(digit_char(n % 10))
    }
}

/// The lower-case hexadecimal spelling of `bytes`, two digits per byte.
pub open spec fn hex_lower(bytes: Seq<u8>) -> Seq<char>
    decreases bytes.len(),
{
    if bytes.len() == 0 {
        Seq::empty()
    } else {
        seq![hex_digit_char((bytes[0] / 16) as nat), hex_digit_char((bytes[0] % 16) as nat)]
            + hex_lower(bytes.drop_first())
    }
}

fn digit_str(d: u64) -> (r: &'static str)
    requires
        d < 10,
    ensures
        r@ == seq![digit_char(d as nat)],
{
    proof {
        reveal_strlit("0");
        reveal_strlit("1");
        reveal_strlit("2");
        reveal_strlit("3");
        reveal_strlit("4");
        reveal_strlit("5");
        reveal_strlit("6");
        reveal_strlit("7");
        reveal_strlit("8");
        reveal_strlit("9");
    }
    if d == 0 {
        "0"
    } else if d == 1 {
        "1"
    } else if d == 2 {
        "2"
    } else if d == 3 {
        "3"
    } else if d == 4 {
        "4"
    } else if d == 5 {
        "5"
    } else if d == 6 {
        "6"
    } else if d == 7 {
        "7"
    } else if d == 8 {
        "8"
    } else {
        "9"
    }
}

/// Appends the decimal spelling of `n` to `out`.
pub fn push_decimal(n: u64, out: &mut String)
    ensures
        final(out)@ == old(out)@ + decimal(n as nat),
    decreases n,
{
    if n >= 10 {
        push_decimal(n / 10, out);
    }
    out.append(digit_str(n % 10));
    proof {
        if n >= 10 {
            assert(decimal(n as nat) == decimal((n / 10) as nat).push(digit_char((n % 10) as nat)));
        }
    }
    assert(final(out)@ =~= old(out)@ + decimal(n as nat));
}

/// The decimal spelling of `n`, as `n.to_string()` gives it.
pub fn u64_to_decimal(n: u64) -> (r: String)
    ensures
        r@ == decimal(n as nat),
{
    let mut s = String::new();
    push_decimal(n, &mut s);
    assert(s@ =~= decimal(n as nat));
    s
}

/// Calls `subtle_encoding::hex::encode` (lower case) and reads the result
/// as a string: two lower-case digits per byte, high nibble first. A slice
/// never holds more than `isize::MAX` bytes, so the doubled length cannot
/// overflow.
#[verifier::external_body]
pub(crate) fn hex_encode(data: &[u8]) -> (r: String)
    ensures
        r@ == hex_lower(data@),
{
    String::from_utf8(subtle_encoding::hex::encode(data))
        .expect("hexadecimal digits are valid UTF-8")
}

/// Whether `c` is a decimal digit.
pub open spec fn is_digit(c: char) -> bool {
    48 <= (c as u32) && (c as u32) <= 57
}

/// The value of the decimal digit `c`.
pub open spec fn digit_value(c: char) -> nat {
    ((c as u32) - 48) as nat
}

/// The value of a string of decimal digits, most significant first.
pub open spec fn digits_value(d: Seq<char>) -> nat
    decreases d.len(),
{
    if d.len() == 0 {
        0
    } else {
        digits_value(d.drop_last()) * 10 + digit_value(d.last())
    }
}

/// `s` without the plus sign that may lead it.
pub open spec fn unsigned_digits(s: Seq<char>) -> Seq<char> {
    if s.len() > 0 && s[0] == '+' {
        s.drop_first()
    } else {
        s
    }
}

/// Whether `s` is text that `u64::from_str` reads: an optional plus sign,
/// then at least one decimal digit, with a value that fits in 64 bits.
pub open spec fn is_u64_text(s: Seq<char>) -> bool {
    let d = unsigned_digits(s);
    &&& d.len() > 0
    &&& forall|i: int| 0 <= i < d.len() ==> #[trigger] is_digit(d[i])
    &&& digits_value(d) <= u64::MAX
}

/// The number that `u64::from_str` reads from `s`.
pub open spec fn u64_text_value(s: Seq<char>) -> nat {
    digits_value(unsigned_digits(s))
}

/// A prefix of a string of digits is worth no more than the whole.
proof fn lemma_digits_prefix(d: Seq<char>, k: int)
    requires
        0 <= k <= d.len(),
    ensures
        digits_value(d.take(k)) <= digits_value(d),
    decreases d.len(),
{
    if k < d.len() {
        lemma_digits_prefix(d.drop_last(), k);
        assert(d.drop_last().take(k) =~= d.take(k));
    } else {
        assert(d.take(k) =~= d);
    }
}

proof fn lemma_digit_char(d: nat)
    requires
        d < 10,
    ensures
        is_digit(digit_char(d)),
        digit_value(digit_char(d)) == d,
        digit_char(d) != '+',
{
}

/// The decimal spelling of `n` reads back as `n`: it is a non-empty string
/// of digits, without a sign, whose value is `n`.
pub proof fn lemma_decimal_reads_back(n: nat)
    ensures
        decimal(n).len() > 0,
        forall|i: int| 0 <= i < decimal(n).len() ==> #[trigger] is_digit(decimal(n)[i]),
        digits_value(decimal(n)) == n,
        decimal(n)[0] != '+',
        unsigned_digits(decimal(n)) == decimal(n),
    decreases n,
{
    lemma_digit_char(n % 10);
    let d = decimal(n);
    if n < 10 {
        assert(d.drop_last() =~= Seq::<char>::empty());
        assert(digits_value(d.drop_last()) == 0);
        assert(d.last() == digit_char(n));
    } else {
        lemma_decimal_reads_back(n / 10);
        assert(d.drop_last() =~= decimal(n / 10));
        assert(d.last() == digit_char(n % 10));
        assert(n == (n / 10) * 10 + n % 10);
        assert forall|i: int| 0 <= i < d.len() implies #[trigger] is_digit(d[i]) by {
            if i < d.len() - 1 {
                assert(d[i] == decimal(n / 10)[i]);
            }
        }
    }
}

/// What `u64::from_str` reads: the decimal spelling of every number that
/// fits in 64 bits, with or without a plus sign or a leading zero, as
/// that number; not the spelling of a larger number, nor an empty string,
/// nor a lone plus sign.
pub proof fn lemma_u64_text_laws(n: nat)
    ensures
        is_u64_text(decimal(n)) <==> n <= u64::MAX,
        n <= u64::MAX ==> u64_text_value(decimal(n)) == n,
        n <= u64::MAX ==> is_u64_text(seq!['+'] + decimal(n)) && u64_text_value(
            seq!['+'] + decimal(n),
        ) == n,
        n <= u64::MAX ==> is_u64_text(seq!['0'] + decimal(n)) && u64_text_value(
            seq!['0'] + decimal(n),
        ) == n,
        !is_u64_text(Seq::empty()),
        !is_u64_text(seq!['+']),
{
    lemma_decimal_reads_back(n);
    let d = decimal(n);
    assert((seq!['+'] + d).drop_first() =~= d);
    let z = seq!['0'] + d;
    assert(z[0] == '0');
    assert forall|i: int| 0 <= i < z.len() implies #[trigger] is_digit(z[i]) by {
        if i > 0 {
            assert(z[i] == d[i - 1]);
        }
    }
    lemma_leading_zero(d);
    assert(seq!['+'].drop_first() =~= Seq::<char>::empty());
}

/// A leading zero does not change the value of a string of digits.
proof fn lemma_leading_zero(d: Seq<char>)
    ensures
        digits_value(seq!['0'] + d) == digits_value(d),
    decreases d.len(),
{
    let z = seq!['0'] + d;
    if d.len() == 0 {
        assert(z.drop_last() =~= Seq::<char>::empty());
        assert(z.last() == '0');
        assert(digits_value(z.drop_last()) == 0);
        assert(digits_value(d) == 0);
        assert(digit_value('0') == 0);
    } else {
        lemma_leading_zero(d.drop_last());
        assert(z.drop_last() =~= seq!['0'] + d.drop_last());
        assert(z.last() == d.last());
    }
}

/// Reads a `u64` as `u64::from_str` does: an optional plus sign, then
/// decimal digits, refusing a value that does not fit.
pub fn parse_u64(s: &str) -> (r: Option<u64>)
    ensures
        r is Some <==> is_u64_text(s@),
        r matches Some(n) ==> n == u64_text_value(s@),
{
    let len = s.unicode_len();
    let mut start: usize = 0;
    if len > 0 && s.get_char(0) == '+' {
        start = 1;
    }
    let ghost d = unsigned_digits(s@);
    assert(d =~= s@.skip(start as int));
    if start == len {
        return None;
    }
    let mut acc: u64 = 0;
    let mut i: usize = start;
    while i < len
        invariant
            start <= i <= len,
            start <= 1,
            len == s@.len(),
            d == s@.skip(start as int),
            d == unsigned_digits(s@),
            forall|j: int| 0 <= j < i - start ==> #[trigger] is_digit(d[j]),
            acc == digits_value(d.take(i - start)),
        decreases len - i,
    {
        let c = s.get_char(i);
        let code = c as u32;
        assert(d[i - start] == c);
        assert(d.take(i - start + 1).drop_last() =~= d.take(i - start));
        if code < 48 || code > 57 {
            assert(!is_digit(d[i - start]));
            return None;
        }
        let v = (code - 48) as u64;
        match acc.checked_mul(10) {
            None => {
                proof {
                    lemma_digits_prefix(d, i - start + 1);
                    assert(digits_value(d.take(i - start + 1)) > u64::MAX);
                }
                return None;
            },
            Some(m) => match m.checked_add(v) {
                None => {
                    proof {
                        lemma_digits_prefix(d, i - start + 1);
                    }
                    return None;
                },
                Some(next) => {
                    acc = next;
                },
            },
        }
        i = i + 1;
    }
    assert(d.take(len - start) =~= d);
    Some(acc)
}

/// Calls `subtle_encoding::hex::decode`, which reads lower-case
/// hexadecimal: it succeeds exactly on an even number of lower-case
/// hexadecimal digits (the string of some bytes under `hex_lower`), and
/// then gives those bytes.
#[verifier::external_body]
pub(crate) fn hex_decode(s: &str) -> (r: Result<Vec<u8>, subtle_encoding::Error>)
    ensures
        r matches Ok(b) ==> hex_lower(b@) == s@,
        (exists|b: Seq<u8>| hex_lower(b) == s@) ==> r is Ok,
{
    subtle_encoding::hex::decode(s)
}

} // verus!
