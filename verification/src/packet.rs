//! The ordering, timeouts and acknowledgements of channel packets.
use vstd::prelude::*;
use vstd::string::StrSliceExecFns;
use crate::attribute::{decode_hex_value, is_hex_text, reads_back, AttributeValue};
use crate::handler_events::DecodingError;
use crate::identifiers::{
    height_chars, height_text_value, is_height_text, lemma_height_reads_back, lemma_u64_reads_back,
    Height,
};
use crate::text::{decimal, hex_encode, hex_lower, is_u64_text, parse_u64, u64_text_value, u64_to_decimal};

verus! {

/// How a channel orders its packets.
#[derive(Clone, Copy, Debug, PartialEq, Eq)]
pub enum Order {
    /// No ordering was given.
    Unspecified,
    /// Packets may be delivered in any order.
    Unordered,
    /// Packets are delivered in the order they were sent.
    Ordered,
}

/// The height after which a packet times out, if any.
#[derive(Clone, Copy, Debug, PartialEq, Eq)]
pub enum TimeoutHeight {
    /// The packet never times out by height.
    Never,
    /// The packet times out at this height.
    At(Height),
}

/// The time after which a packet times out, if any, in nanoseconds since
/// the Unix epoch.
#[derive(Clone, Copy, Debug, PartialEq, Eq)]
pub enum TimeoutTimestamp {
    /// The packet never times out by time.
    Never,
    /// The packet times out at this many nanoseconds since the Unix epoch.
    At(u64),
}

/// The acknowledgement that a receiving module writes for a packet: a
/// non-empty string of bytes.
#[derive(Clone, Debug, PartialEq, Eq)]
pub struct Acknowledgement(Vec<u8>);

/// The error of `Acknowledgement::new`: an acknowledgement is never empty.
#[derive(Clone, Copy, Debug, PartialEq, Eq)]
pub struct EmptyAcknowledgement;

/// The name of an ordering, as channel events spell it.
pub open spec fn order_chars(o: Order) -> Seq<char> {
    match o {
        Order::Unspecified => "ORDER_NONE_UNSPECIFIED"@,
        Order::Unordered => "ORDER_UNORDERED"@,
        Order::Ordered => "ORDER_ORDERED"@,
    }
}

impl Order {
    /// The name of the ordering.
    pub fn as_str(&self) -> (r: &'static str)
        ensures
            r@ == order_chars(*self),
    {
        match self {
            Order::Unspecified => "ORDER_NONE_UNSPECIFIED",
            Order::Unordered => "ORDER_UNORDERED",
            Order::Ordered => "ORDER_ORDERED",
        }
    }
}

impl TimeoutTimestamp {
    /// Nanoseconds since the Unix epoch; zero where the packet never times
    /// out by time.
    pub open spec fn nanoseconds_spec(self) -> u64 {
        match self {
            TimeoutTimestamp::Never => 0,
            TimeoutTimestamp::At(n) => n,
        }
    }

    /// The timeout at `n` nanoseconds since the Unix epoch; zero is no
    /// timeout, as `From<u64>` gives it.
    pub fn from_nanoseconds(n: u64) -> (r: TimeoutTimestamp)
        ensures
            n == 0 ==> r == TimeoutTimestamp::Never,
            n != 0 ==> r == TimeoutTimestamp::At(n),
    {
        if n == 0 {
            TimeoutTimestamp::Never
        } else {
            TimeoutTimestamp::At(n)
        }
    }

    /// Reads a time timeout: a number as `u64::from_str` reads it, zero
    /// being no timeout.
    pub fn parse(text: &str) -> (r: Option<TimeoutTimestamp>)
        ensures
            r is Some <==> is_u64_text(text@),
            r matches Some(t) ==> (u64_text_value(text@) == 0 ==> t == TimeoutTimestamp::Never),
            r matches Some(t) ==> (u64_text_value(text@) != 0 ==> t == TimeoutTimestamp::At(
                u64_text_value(text@) as u64,
            )),
    {
        match parse_u64(text) {
            Some(n) => Some(TimeoutTimestamp::from_nanoseconds(n)),
            None => None,
        }
    }

    /// Nanoseconds since the Unix epoch; zero where the packet never times
    /// out by time.
    pub fn nanoseconds(&self) -> (r: u64)
        ensures
            r == match *self {
                TimeoutTimestamp::Never => 0,
                TimeoutTimestamp::At(n) => n,
            },
    {
        match self {
            TimeoutTimestamp::Never => 0,
            TimeoutTimestamp::At(n) => *n,
        }
    }
}

impl View for Acknowledgement {
    type V = Seq<u8>;

    closed spec fn view(&self) -> Seq<u8> {
        self.0@
    }
}

impl Acknowledgement {
    /// The acknowledgement holding `bytes`, which must not be empty.
    pub fn new(bytes: Vec<u8>) -> (r: Result<Acknowledgement, EmptyAcknowledgement>)
        ensures
            r is Ok <==> bytes@.len() > 0,
            r matches Ok(a) ==> a@ == bytes@,
    {
        if bytes.len() == 0 {
            Err(EmptyAcknowledgement)
        } else {
            Ok(Acknowledgement(bytes))
        }
    }

    /// The bytes of the acknowledgement.
    pub fn as_bytes(&self) -> (r: &[u8])
        ensures
            r@ == self@,
    {
        self.0.as_slice()
    }
}

/// The code of `c` with ASCII upper-case letters made lower case.
pub open spec fn lower_code(c: char) -> u32 {
    let n = c as u32;
    if 65 <= n && n <= 90 {
        (n + 32) as u32
    } else {
        n
    }
}

/// The codes of `s`, ASCII letters made lower case.
pub open spec fn lowered(s: Seq<char>) -> Seq<u32> {
    s.map_values(|c: char| lower_code(c))
}

/// The codes of `s`.
pub open spec fn codes(s: Seq<char>) -> Seq<u32> {
    s.map_values(|c: char| c as u32)
}

/// `s` without the `order_` prefixes that lead it.
pub open spec fn trim_order(s: Seq<u32>) -> Seq<u32>
    decreases s.len(),
{
    if s.len() >= 6 && s.take(6) == codes("order_"@) {
        trim_order(s.skip(6))
    } else {
        s
    }
}

/// The ordering that `Order::from_str` reads from `s`: the name made lower
/// case and stripped of its `order_` prefixes must be `uninitialized`,
/// `unordered` or `ordered`.
pub open spec fn order_of_text(s: Seq<char>) -> Option<Order> {
    let t = trim_order(lowered(s));
    if t == codes("uninitialized"@) {
        Some(Order::Unspecified)
    } else if t == codes("unordered"@) {
        Some(Order::Unordered)
    } else if t == codes("ordered"@) {
        Some(Order::Ordered)
    } else {
        None
    }
}

/// Whether the characters of `s` from `from` on, made lower case, begin
/// with `target`.
fn lower_matches(s: &str, from: usize, target: &str) -> (r: bool)
    requires
        from <= s@.len(),
    ensures
        r == (from + target@.len() <= s@.len() && lowered(s@).subrange(
            from as int,
            from + target@.len(),
        ) == codes(target@)),
{
    let len = s.unicode_len();
    let n = target.unicode_len();
    if n > len - from {
        return false;
    }
    let mut i: usize = 0;
    while i < n
        invariant
            len == s@.len(),
            n == target@.len(),
            from + n <= len,
            i <= n,
            forall|j: int| 0 <= j < i ==> lower_code(s@[from + j]) == (target@[j] as u32),
        decreases n - i,
    {
        let c = s.get_char(from + i) as u32;
        let lc = if 65 <= c && c <= 90 {
            c + 32
        } else {
            c
        };
        if lc != target.get_char(i) as u32 {
            assert(lowered(s@).subrange(from as int, from + n)[i as int] != codes(target@)[i as int]);
            return false;
        }
        i = i + 1;
    }
    assert(lowered(s@).subrange(from as int, from + n) =~= codes(target@));
    true
}

impl Order {
    /// Reads an ordering, as `Order::from_str` does.
    pub fn parse(text: &str) -> (r: Option<Order>)
        ensures
            r == order_of_text(text@),
    {
        let len = text.unicode_len();
        let mut pos: usize = 0;
        assert(lowered(text@).skip(0) =~= lowered(text@));
        while lower_matches(text, pos, "order_")
            invariant
                pos <= len,
                len == text@.len(),
                trim_order(lowered(text@)) == trim_order(lowered(text@).skip(pos as int)),
            decreases len - pos,
        {
            proof {
                reveal_strlit("order_");
                let t = lowered(text@).skip(pos as int);
                assert(t.take(6) =~= lowered(text@).subrange(pos as int, pos + 6));
                assert(t.skip(6) =~= lowered(text@).skip(pos + 6));
            }
            pos = pos + 6;
        }
        proof {
            reveal_strlit("order_");
            let t = lowered(text@).skip(pos as int);
            if t.len() >= 6 {
                assert(t.take(6) =~= lowered(text@).subrange(pos as int, pos + 6));
            }
        }
        let rest = len - pos;
        let ghost t = lowered(text@).skip(pos as int);
        proof {
            reveal_strlit("uninitialized");
            reveal_strlit("unordered");
            reveal_strlit("ordered");
        }
        if rest == 13 && lower_matches(text, pos, "uninitialized") {
            assert(t =~= lowered(text@).subrange(pos as int, pos + 13));
            Some(Order::Unspecified)
        } else if rest == 9 && lower_matches(text, pos, "unordered") {
            assert(t =~= lowered(text@).subrange(pos as int, pos + 9));
            Some(Order::Unordered)
        } else if rest == 7 && lower_matches(text, pos, "ordered") {
            assert(t =~= lowered(text@).subrange(pos as int, pos + 7));
            Some(Order::Ordered)
        } else {
            proof {
                if rest == 13 {
                    assert(t =~= lowered(text@).subrange(pos as int, pos + 13));
                }
                if rest == 9 {
                    assert(t =~= lowered(text@).subrange(pos as int, pos + 9));
                }
                if rest == 7 {
                    assert(t =~= lowered(text@).subrange(pos as int, pos + 7));
                }
            }
            None
        }
    }
}

/// The spelling of an ordering that was given reads back.
pub proof fn lemma_order_reads_back(o: Order)
    requires
        o != Order::Unspecified,
    ensures
        reads_back(o),
{
    reveal_strlit("ORDER_UNORDERED");
    reveal_strlit("ORDER_ORDERED");
    reveal_strlit("order_");
    reveal_strlit("unordered");
    reveal_strlit("ordered");
    reveal_strlit("uninitialized");
    let s = order_chars(o);
    let l = lowered(s);
    let t = l.skip(6);
    assert(l.take(6) =~= codes("order_"@));
    if o == Order::Unordered {
        assert(t =~= codes("unordered"@));
        assert(t.take(6) != codes("order_"@)) by {
            assert(t.take(6)[2] != codes("order_"@)[2]);
        }
    } else {
        assert(t =~= codes("ordered"@));
        assert(t.take(6) != codes("order_"@)) by {
            assert(t.take(6)[5] != codes("order_"@)[5]);
        }
    }
    assert(trim_order(t) == t);
    assert(trim_order(l) == t);
}

impl AttributeValue for Order {
    open spec fn event_value(&self) -> Seq<char> {
        order_chars(*self)
    }

    open spec fn accepts(text: Seq<char>) -> bool {
        order_of_text(text) is Some
    }

    open spec fn normal_form(text: Seq<char>) -> Seq<char> {
        order_chars(order_of_text(text)->0)
    }

    open spec fn canonical(&self) -> bool {
        true
    }

    open spec fn same_value(&self, other: Self) -> bool {
        *self == other
    }

    proof fn lemma_spelling_injective(a: Self, b: Self) {
        reveal_strlit("ORDER_NONE_UNSPECIFIED");
        reveal_strlit("ORDER_UNORDERED");
        reveal_strlit("ORDER_ORDERED");
        if a != b {
            assert(order_chars(a).len() != order_chars(b).len());
        }
    }

    fn to_event_value(&self) -> (r: String) {
        String::from_str(self.as_str())
    }

    fn parse_event_value(text: &str) -> (r: Result<Self, DecodingError>) {
        match Order::parse(text) {
            Some(o) => Ok(o),
            None => Err(
                DecodingError::InvalidRawData {
                    description: String::from_str("packet channel ordering: unknown ordering"),
                },
            ),
        }
    }
}

/// A height timeout is spelled as its height, or `0-0` for none.
impl AttributeValue for TimeoutHeight {
    open spec fn event_value(&self) -> Seq<char> {
        match *self {
            TimeoutHeight::Never => "0-0"@,
            TimeoutHeight::At(h) => height_chars(h@),
        }
    }

    open spec fn accepts(text: Seq<char>) -> bool {
        text == "0-0"@ || is_height_text(text)
    }

    open spec fn normal_form(text: Seq<char>) -> Seq<char> {
        if text == "0-0"@ {
            text
        } else {
            height_chars(height_text_value(text))
        }
    }

    open spec fn canonical(&self) -> bool {
        match *self {
            TimeoutHeight::Never => true,
            TimeoutHeight::At(h) => h@.1 != 0,
        }
    }

    open spec fn same_value(&self, other: Self) -> bool {
        match (*self, other) {
            (TimeoutHeight::Never, TimeoutHeight::Never) => true,
            (TimeoutHeight::At(a), TimeoutHeight::At(b)) => a@ == b@,
            _ => false,
        }
    }

    proof fn lemma_spelling_injective(a: Self, b: Self) {
        if let TimeoutHeight::At(h) = a {
            crate::identifiers::lemma_height_text(h@);
            lemma_height_is_not_no_timeout(h@);
        }
        if let TimeoutHeight::At(h) = b {
            crate::identifiers::lemma_height_text(h@);
            lemma_height_is_not_no_timeout(h@);
        }
    }

    fn to_event_value(&self) -> (r: String) {
        match self {
            TimeoutHeight::Never => String::from_str("0-0"),
            TimeoutHeight::At(h) => h.to_event_value(),
        }
    }

    fn parse_event_value(text: &str) -> (r: Result<Self, DecodingError>) {
        let owned = String::from_str(text);
        let never = String::from_str("0-0");
        if owned == never {
            Ok(TimeoutHeight::Never)
        } else {
            match Height::parse(text) {
                Ok(h) => Ok(TimeoutHeight::At(h)),
                Err(e) => Err(e),
            }
        }
    }
}

/// A height other than zero within its revision is not spelled `0-0`, the
/// spelling of no height timeout.
pub proof fn lemma_height_is_not_no_timeout(v: (u64, u64))
    requires
        v.1 != 0,
    ensures
        height_chars(v) != "0-0"@,
{
    reveal_strlit("0-0");
    if height_chars(v) == "0-0"@ {
        let a = decimal(v.0 as nat);
        let b = decimal(v.1 as nat);
        crate::text::lemma_decimal_reads_back(v.0 as nat);
        crate::text::lemma_decimal_reads_back(v.1 as nat);
        assert(height_chars(v).len() == a.len() + 1 + b.len());
        assert(b =~= height_chars(v).skip(a.len() + 1 as int));
        assert(b.len() == 1);
        assert(b[0] == '0');
        assert(b.drop_last() =~= Seq::<char>::empty());
        assert(crate::text::digits_value(b.drop_last()) == 0);
    }
}

/// A height timeout reads back, unless it is a height of zero within its
/// revision.
pub proof fn lemma_timeout_height_reads_back(t: TimeoutHeight)
    requires
        t matches TimeoutHeight::At(h) ==> h@.1 != 0,
    ensures
        reads_back(t),
{
    if let TimeoutHeight::At(h) = t {
        lemma_height_reads_back(h);
        reveal_strlit("0-0");
        crate::identifiers::lemma_height_text(h@);
        if height_chars(h@) == "0-0"@ {
            assert(height_chars(h@)[2] == '0');
        }
    }
}

/// A time timeout is spelled as its nanoseconds in decimal; zero is none.
impl AttributeValue for TimeoutTimestamp {
    open spec fn event_value(&self) -> Seq<char> {
        match *self {
            TimeoutTimestamp::Never => decimal(0),
            TimeoutTimestamp::At(n) => decimal(n as nat),
        }
    }

    open spec fn accepts(text: Seq<char>) -> bool {
        is_u64_text(text)
    }

    open spec fn normal_form(text: Seq<char>) -> Seq<char> {
        decimal(u64_text_value(text))
    }

    open spec fn canonical(&self) -> bool {
        *self != TimeoutTimestamp::At(0)
    }

    open spec fn same_value(&self, other: Self) -> bool {
        *self == other
    }

    proof fn lemma_spelling_injective(a: Self, b: Self) {
        crate::text::lemma_decimal_reads_back(a.nanoseconds_spec() as nat);
        crate::text::lemma_decimal_reads_back(b.nanoseconds_spec() as nat);
    }

    fn to_event_value(&self) -> (r: String) {
        u64_to_decimal(self.nanoseconds())
    }

    fn parse_event_value(text: &str) -> (r: Result<Self, DecodingError>) {
        match TimeoutTimestamp::parse(text) {
            Some(t) => Ok(t),
            None => Err(
                DecodingError::InvalidRawData {
                    description: String::from_str("invalid timeout timestamp"),
                },
            ),
        }
    }
}

/// A time timeout reads back.
pub proof fn lemma_timeout_timestamp_reads_back(t: TimeoutTimestamp)
    ensures
        reads_back(t),
{
    match t {
        TimeoutTimestamp::Never => lemma_u64_reads_back(0),
        TimeoutTimestamp::At(n) => lemma_u64_reads_back(n),
    }
}

/// An acknowledgement is spelled as its bytes in lower-case hexadecimal.
impl AttributeValue for Acknowledgement {
    open spec fn event_value(&self) -> Seq<char> {
        hex_lower(self@)
    }

    open spec fn accepts(text: Seq<char>) -> bool {
        is_hex_text(text) && text.len() > 0
    }

    open spec fn normal_form(text: Seq<char>) -> Seq<char> {
        text
    }

    open spec fn canonical(&self) -> bool {
        self@.len() > 0
    }

    open spec fn same_value(&self, other: Self) -> bool {
        self@ == other@
    }

    proof fn lemma_spelling_injective(a: Self, b: Self) {
        crate::attribute::lemma_hex_lower_injective(a@, b@);
    }

    fn to_event_value(&self) -> (r: String) {
        hex_encode(self.as_bytes())
    }

    fn parse_event_value(text: &str) -> (r: Result<Self, DecodingError>) {
        match decode_hex_value(text, "packet acknowledgement attribute value") {
            Err(e) => Err(e),
            Ok(bytes) => {
                proof {
                    lemma_hex_lower_empty(bytes@);
                }
                match Acknowledgement::new(bytes) {
                    Ok(a) => Ok(a),
                    Err(_) => Err(
                        DecodingError::InvalidRawData {
                            description: String::from_str("empty acknowledgement"),
                        },
                    ),
                }
            },
        }
    }
}

/// Bytes are spelled as the empty string exactly when there are none.
proof fn lemma_hex_lower_empty(b: Seq<u8>)
    ensures
        hex_lower(b).len() == 2 * b.len(),
    decreases b.len(),
{
    if b.len() > 0 {
        lemma_hex_lower_empty(b.drop_first());
    }
}

/// An acknowledgement reads back.
pub proof fn lemma_acknowledgement_reads_back(a: Acknowledgement)
    requires
        a@.len() > 0,
    ensures
        reads_back(a),
{
    lemma_hex_lower_empty(a@);
}

} // verus!
