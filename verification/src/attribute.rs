//! What every event attribute type has: the type it wraps, and how a value
//! is spelled in an ABCI attribute and read back from one.
use vstd::prelude::*;
use crate::handler_events::DecodingError;
use crate::text::{hex_decode, hex_digit_char, hex_encode, hex_lower};

verus! {

/// A type that wraps exactly one value of another type.
pub trait Newtype {
    type Inner;
}

/// A value that an event attribute carries, its spelling as the
/// attribute's value, and how such a spelling is read.
pub trait AttributeValue: Sized {
    /// The spelling of this value in an ABCI attribute.
    spec fn event_value(&self) -> Seq<char>;

    /// Whether `text` is read as a value of this type.
    spec fn accepts(text: Seq<char>) -> bool;

    /// The spelling of the value read from accepted `text`: the text
    /// itself, or a canonical form of it where several spellings give one
    /// value (a plus sign or leading zeros in a number).
    spec fn normal_form(text: Seq<char>) -> Seq<char>;

    /// Whether this value is the one its spelling is read as: every value
    /// but those that share their spelling with another (a time timeout at
    /// the epoch, spelled as no timeout) or have none that is read (a
    /// height of zero).
    spec fn canonical(&self) -> bool;

    /// Whether two values are the same value: equal, or equal in their
    /// views where they hold strings.
    spec fn same_value(&self, other: Self) -> bool;

    /// Two canonical values with the same spelling are the same value.
    proof fn lemma_spelling_injective(a: Self, b: Self)
        requires
            a.canonical(),
            b.canonical(),
            a.event_value() == b.event_value(),
        ensures
            a.same_value(b),
    ;

    /// Spells this value for an ABCI attribute.
    fn to_event_value(&self) -> (r: String)
        ensures
            r@ == self.event_value(),
    ;

    /// Reads a value from the text of an ABCI attribute.
    fn parse_event_value(text: &str) -> (r: Result<Self, DecodingError>)
        ensures
            r is Ok <==> Self::accepts(text@),
            r matches Ok(v) ==> v.event_value() == Self::normal_form(text@),
            r matches Ok(v) ==> v.canonical(),
            r matches Err(e) ==> e is InvalidRawData || e is Identifier,
    ;
}

/// Whether the spelling of `v` is read back as a value with the same
/// spelling.
pub open spec fn reads_back<T: AttributeValue>(v: T) -> bool {
    T::accepts(v.event_value()) && T::normal_form(v.event_value()) == v.event_value()
}

/// The text that `subtle_encoding::hex::decode` reads: lower-case
/// hexadecimal, two digits per byte.
pub open spec fn is_hex_text(text: Seq<char>) -> bool {
    exists|b: Seq<u8>| hex_lower(b) == text
}

/// Reads lower-case hexadecimal into bytes, or fails with `what` named in
/// the error.
pub(crate) fn decode_hex_value(text: &str, what: &str) -> (r: Result<Vec<u8>, DecodingError>)
    ensures
        r is Ok <==> is_hex_text(text@),
        r matches Ok(b) ==> hex_lower(b@) == text@,
        r matches Err(e) ==> e is InvalidRawData,
{
    match hex_decode(text) {
        Ok(b) => Ok(b),
        Err(_) => {
            let mut description = String::from_str(what);
            proof {
                reveal_strlit(": not lower-case hexadecimal");
            }
            description.append(": not lower-case hexadecimal");
            Err(DecodingError::InvalidRawData { description })
        },
    }
}

/// Raw bytes (packet data, client headers) are spelled in lower-case
/// hexadecimal.
impl AttributeValue for Vec<u8> {
    open spec fn event_value(&self) -> Seq<char> {
        hex_lower(self@)
    }

    open spec fn accepts(text: Seq<char>) -> bool {
        is_hex_text(text)
    }

    open spec fn normal_form(text: Seq<char>) -> Seq<char> {
        text
    }

    open spec fn canonical(&self) -> bool {
        true
    }

    open spec fn same_value(&self, other: Self) -> bool {
        self@ == other@
    }

    proof fn lemma_spelling_injective(a: Self, b: Self) {
        lemma_hex_lower_injective(a@, b@);
    }

    fn to_event_value(&self) -> (r: String) {
        hex_encode(self.as_slice())
    }

    fn parse_event_value(text: &str) -> (r: Result<Self, DecodingError>) {
        decode_hex_value(text, "attribute value")
    }
}

/// Different bytes have different hexadecimal spellings.
pub proof fn lemma_hex_lower_injective(a: Seq<u8>, b: Seq<u8>)
    requires
        hex_lower(a) == hex_lower(b),
    ensures
        a == b,
    decreases a.len(),
{
    lemma_hex_lower_len(a);
    lemma_hex_lower_len(b);
    if a.len() > 0 {
        let ha = hex_lower(a);
        assert(ha[0] == hex_digit_char((a[0] / 16) as nat));
        assert(ha[1] == hex_digit_char((a[0] % 16) as nat));
        assert(hex_lower(b)[0] == hex_digit_char((b[0] / 16) as nat));
        assert(hex_lower(b)[1] == hex_digit_char((b[0] % 16) as nat));
        lemma_hex_digit_injective((a[0] / 16) as nat, (b[0] / 16) as nat);
        lemma_hex_digit_injective((a[0] % 16) as nat, (b[0] % 16) as nat);
        assert(a[0] == b[0]);
        assert(hex_lower(a.drop_first()) =~= ha.skip(2));
        assert(hex_lower(b.drop_first()) =~= hex_lower(b).skip(2));
        lemma_hex_lower_injective(a.drop_first(), b.drop_first());
        assert(a =~= seq![a[0]] + a.drop_first());
        assert(b =~= seq![b[0]] + b.drop_first());
    }
}

/// Bytes are spelled with two digits each.
pub proof fn lemma_hex_lower_len(b: Seq<u8>)
    ensures
        hex_lower(b).len() == 2 * b.len(),
    decreases b.len(),
{
    if b.len() > 0 {
        lemma_hex_lower_len(b.drop_first());
    }
}

proof fn lemma_hex_digit_injective(x: nat, y: nat)
    requires
        x < 16,
        y < 16,
        hex_digit_char(x) == hex_digit_char(y),
    ensures
        x == y,
{
}

/// Bytes read back from their hexadecimal spelling.
pub proof fn lemma_bytes_reads_back(v: Vec<u8>)
    ensures
        reads_back(v),
{
    assert(hex_lower(v@) == v.event_value());
}

} // verus!
