//! The identifiers and counters that IBC events carry.
use vstd::prelude::*;
use vstd::string::StrSliceExecFns;
use crate::attribute::{reads_back, AttributeValue};
use crate::handler_events::DecodingError;
use crate::text::{
    decimal, is_digit, is_u64_text, lemma_decimal_reads_back, parse_u64, push_decimal,
    u64_text_value,
};

verus! {

/// The type of a light client, such as `07-tendermint`.
#[derive(Clone, Debug, PartialEq, Eq)]
pub struct ClientType(String);

/// The identifier of a light client: its type, a dash and a counter.
#[derive(Clone, Debug, PartialEq, Eq)]
pub struct ClientId(String);

/// The identifier of a connection: `connection-` and a counter.
#[derive(Clone, Debug, PartialEq, Eq)]
pub struct ConnectionId(String);

/// The identifier of a channel: `channel-` and a counter.
#[derive(Clone, Debug, PartialEq, Eq)]
pub struct ChannelId(String);

/// The identifier of a port, the name of the module bound to it.
#[derive(Clone, Debug, PartialEq, Eq)]
pub struct PortId(String);

/// The version string negotiated for a channel.
#[derive(Clone, Debug, PartialEq, Eq)]
pub struct Version(String);

/// The sequence number of a packet.
#[derive(Clone, Copy, Debug, PartialEq, Eq)]
pub struct Sequence(u64);

/// A height of a chain: the revision, and the height within it.
#[derive(Clone, Copy, Debug, PartialEq, Eq)]
pub struct Height {
    revision_number: u64,
    revision_height: u64,
}

/// The error of `Height::new`: a height within a revision starts at one.
#[derive(Clone, Copy, Debug, PartialEq, Eq)]
pub struct ZeroHeight;

/// Why a string is not a valid identifier.
#[derive(Clone, Debug, PartialEq, Eq)]
pub enum IdentifierError {
    /// A character is neither an ASCII letter or digit nor one of
    /// `._+-#[]<>`.
    InvalidCharacter { id: String },
    /// The identifier is shorter than `min` or longer than `max`.
    InvalidLength { id: String, min: u64, max: u64 },
    /// The identifier is not its name, a dash and a number.
    FailedToParse { id: String },
}

impl View for ClientType {
    type V = Seq<char>;

    closed spec fn view(&self) -> Seq<char> {
        self.0@
    }
}

impl View for ClientId {
    type V = Seq<char>;

    closed spec fn view(&self) -> Seq<char> {
        self.0@
    }
}

impl View for ConnectionId {
    type V = Seq<char>;

    closed spec fn view(&self) -> Seq<char> {
        self.0@
    }
}

impl View for ChannelId {
    type V = Seq<char>;

    closed spec fn view(&self) -> Seq<char> {
        self.0@
    }
}

impl View for PortId {
    type V = Seq<char>;

    closed spec fn view(&self) -> Seq<char> {
        self.0@
    }
}

impl View for Version {
    type V = Seq<char>;

    closed spec fn view(&self) -> Seq<char> {
        self.0@
    }
}

impl View for Sequence {
    type V = u64;

    closed spec fn view(&self) -> u64 {
        self.0
    }
}

impl View for Height {
    type V = (u64, u64);

    closed spec fn view(&self) -> (u64, u64) {
        (self.revision_number, self.revision_height)
    }
}

/// `prefix` followed by the decimal spelling of `counter`.
pub open spec fn counted(prefix: Seq<char>, counter: u64) -> Seq<char> {
    prefix + decimal(counter as nat)
}

/// The spelling of a height: revision, a dash, height within the revision.
pub open spec fn height_chars(h: (u64, u64)) -> Seq<char> {
    decimal(h.0 as nat) + seq!['-'] + decimal(h.1 as nat)
}

impl ClientType {
    /// The client type with the given name, taken as it is; `parse`
    /// checks it.
    pub fn new(name: &str) -> (r: ClientType)
        ensures
            r@ == name@,
    {
        ClientType(String::from_str(name))
    }

    /// The name of the client type.
    pub fn as_str(&self) -> (r: &str)
        ensures
            r@ == self@,
    {
        self.0.as_str()
    }

    /// The identifier of the client of this type numbered `counter`.
    pub fn build_client_id(&self, counter: u64) -> (r: ClientId)
        ensures
            r@ == counted(self@ + seq!['-'], counter),
    {
        let mut s = self.0.clone();
        proof {
            reveal_strlit("-");
        }
        s.append("-");
        push_decimal(counter, &mut s);
        assert(s@ =~= counted(self@ + seq!['-'], counter));
        ClientId(s)
    }
}

impl ClientId {
    /// The identifier spelled `id`, taken as it is from a value already
    /// checked, such as one in a message of the host; `parse` checks it.
    pub fn from_name(id: &str) -> (r: ClientId)
        ensures
            r@ == id@,
    {
        ClientId(String::from_str(id))
    }

    /// The identifier as a string.
    pub fn as_str(&self) -> (r: &str)
        ensures
            r@ == self@,
    {
        self.0.as_str()
    }
}

impl ConnectionId {
    /// The identifier of the connection numbered `counter`.
    pub fn new(counter: u64) -> (r: ConnectionId)
        ensures
            r@ == counted("connection-"@, counter),
    {
        let mut s = String::from_str("connection-");
        push_decimal(counter, &mut s);
        ConnectionId(s)
    }

    /// The identifier spelled `id`, taken as it is from a value already
    /// checked, such as one in a message of the host; `parse` checks it.
    pub fn from_name(id: &str) -> (r: ConnectionId)
        ensures
            r@ == id@,
    {
        ConnectionId(String::from_str(id))
    }

    /// The identifier of the first connection, `connection-0`.
    pub fn zero() -> (r: ConnectionId)
        ensures
            r@ == counted("connection-"@, 0),
    {
        ConnectionId::new(0)
    }

    /// The identifier as a string.
    pub fn as_str(&self) -> (r: &str)
        ensures
            r@ == self@,
    {
        self.0.as_str()
    }
}

impl ChannelId {
    /// The identifier of the channel numbered `counter`.
    pub fn new(counter: u64) -> (r: ChannelId)
        ensures
            r@ == counted("channel-"@, counter),
    {
        let mut s = String::from_str("channel-");
        push_decimal(counter, &mut s);
        ChannelId(s)
    }

    /// The identifier of the first channel, `channel-0`.
    pub fn zero() -> (r: ChannelId)
        ensures
            r@ == counted("channel-"@, 0),
    {
        ChannelId::new(0)
    }

    /// The identifier as a string.
    pub fn as_str(&self) -> (r: &str)
        ensures
            r@ == self@,
    {
        self.0.as_str()
    }
}

impl PortId {
    /// The port of the fungible token transfer module, `transfer`.
    pub fn transfer() -> (r: PortId)
        ensures
            r@ == "transfer"@,
    {
        PortId(String::from_str("transfer"))
    }

    /// The identifier as a string.
    pub fn as_str(&self) -> (r: &str)
        ensures
            r@ == self@,
    {
        self.0.as_str()
    }
}

impl Version {
    /// The version with the given string.
    pub fn new(v: String) -> (r: Version)
        ensures
            r@ == v@,
    {
        Version(v)
    }

    /// The version as a string.
    pub fn as_str(&self) -> (r: &str)
        ensures
            r@ == self@,
    {
        self.0.as_str()
    }
}

impl Sequence {
    /// The sequence number `n`.
    pub fn new(n: u64) -> (r: Sequence)
        ensures
            r@ == n,
    {
        Sequence(n)
    }

    /// The sequence number as an integer.
    pub fn value(&self) -> (r: u64)
        ensures
            r == self@,
    {
        self.0
    }
}

impl Height {
    /// The height `revision_height` within revision `revision_number`;
    /// a height within a revision starts at one.
    pub fn new(revision_number: u64, revision_height: u64) -> (r: Result<Height, ZeroHeight>)
        ensures
            r is Ok <==> revision_height != 0,
            r matches Ok(h) ==> h@ == (revision_number, revision_height),
    {
        if revision_height == 0 {
            Err(ZeroHeight)
        } else {
            Ok(Height { revision_number, revision_height })
        }
    }

    /// The revision.
    pub fn revision_number(&self) -> (r: u64)
        ensures
            r == self@.0,
    {
        self.revision_number
    }

    /// The height within the revision.
    pub fn revision_height(&self) -> (r: u64)
        ensures
            r == self@.1,
    {
        self.revision_height
    }
}

/// Whether `c` is an ASCII letter or digit.
pub open spec fn is_ascii_alphanumeric(c: char) -> bool {
    let n = c as u32;
    (48 <= n && n <= 57) || (65 <= n && n <= 90) || (97 <= n && n <= 122)
}

/// Whether `c` may stand in an identifier: an ASCII letter or digit, or one
/// of `._+-#[]<>`.
pub open spec fn is_identifier_char(c: char) -> bool {
    is_ascii_alphanumeric(c) || c == '.' || c == '_' || c == '+' || c == '-' || c == '#'
        || c == '[' || c == ']' || c == '<' || c == '>'
}

/// Whether every character of `s` may stand in an identifier.
pub open spec fn identifier_chars(s: Seq<char>) -> bool {
    forall|i: int| 0 <= i < s.len() ==> #[trigger] is_identifier_char(s[i])
}

/// Whether `s` is `name`, a dash, and a number that `u64::from_str` reads.
pub open spec fn named_index(s: Seq<char>, name: Seq<char>) -> bool {
    &&& s.len() > name.len()
    &&& s.take(name.len() as int) == name
    &&& s[name.len() as int] == '-'
    &&& is_u64_text(s.skip(name.len() + 1 as int))
}

/// A valid client type: identifier characters, 7 to 43 of them (so that a
/// dash and any counter still make a client identifier of 9 to 64).
pub open spec fn is_client_type(s: Seq<char>) -> bool {
    identifier_chars(s) && 7 <= s.len() <= 43
}

/// A valid client identifier: identifier characters, 9 to 64 of them.
pub open spec fn is_client_id(s: Seq<char>) -> bool {
    identifier_chars(s) && 9 <= s.len() <= 64
}

/// A valid connection identifier: identifier characters, 10 to 64 of
/// them, spelled `connection-` and a number.
pub open spec fn is_connection_id(s: Seq<char>) -> bool {
    identifier_chars(s) && 10 <= s.len() <= 64 && named_index(s, "connection"@)
}

/// A valid port identifier: identifier characters, 2 to 128 of them.
pub open spec fn is_port_id(s: Seq<char>) -> bool {
    identifier_chars(s) && 2 <= s.len() <= 128
}

/// A valid channel identifier: identifier characters, 8 to 64 of them,
/// spelled `channel-` and a number.
pub open spec fn is_channel_id(s: Seq<char>) -> bool {
    identifier_chars(s) && 8 <= s.len() <= 64 && named_index(s, "channel"@)
}

fn identifier_char(c: char) -> (r: bool)
    ensures
        r == is_identifier_char(c),
{
    let n = c as u32;
    (48 <= n && n <= 57) || (65 <= n && n <= 90) || (97 <= n && n <= 122) || c == '.' || c == '_'
        || c == '+' || c == '-' || c == '#' || c == '[' || c == ']' || c == '<' || c == '>'
}

/// Checks the characters of `id`, then its length.
fn check_identifier(id: &str, min: usize, max: usize) -> (r: Result<(), IdentifierError>)
    ensures
        r is Ok <==> identifier_chars(id@) && min <= id@.len() <= max,
        r matches Err(e) ==> (e is InvalidCharacter <==> !identifier_chars(id@)),
        r matches Err(e) ==> (e is InvalidCharacter || e is InvalidLength),
{
    let len = id.unicode_len();
    let mut i: usize = 0;
    while i < len
        invariant
            i <= len,
            len == id@.len(),
            forall|j: int| 0 <= j < i ==> #[trigger] is_identifier_char(id@[j]),
        decreases len - i,
    {
        let c = id.get_char(i);
        if !identifier_char(c) {
            return Err(IdentifierError::InvalidCharacter { id: String::from_str(id) });
        }
        i = i + 1;
    }
    if len < min || len > max {
        return Err(
            IdentifierError::InvalidLength { id: String::from_str(id), min: min as u64, max: max as u64 },
        );
    }
    Ok(())
}

/// Whether `e` is the error for the first fault of an identifier `id`
/// whose only rules are its characters and its length: a character, else
/// the length.
pub open spec fn identifier_error(e: IdentifierError, id: Seq<char>) -> bool {
    if !identifier_chars(id) {
        e is InvalidCharacter
    } else {
        e is InvalidLength
    }
}

/// Whether `e` is the error for the first fault of a numbered identifier
/// `id`: a character, else the length, else the name and number.
pub open spec fn counted_identifier_error(e: IdentifierError, id: Seq<char>, min: int, max: int) -> bool {
    if !identifier_chars(id) {
        e is InvalidCharacter
    } else if !(min <= id.len() <= max) {
        e is InvalidLength
    } else {
        e is FailedToParse
    }
}

/// Whether `id` is `name`, a dash and a number.
fn check_named_index(id: &str, name: &str) -> (r: bool)
    ensures
        r == named_index(id@, name@),
{
    let n = name.unicode_len();
    let len = id.unicode_len();
    if len <= n {
        return false;
    }
    let mut i: usize = 0;
    while i < n
        invariant
            n == name@.len(),
            len == id@.len(),
            n < len,
            i <= n,
            forall|j: int| 0 <= j < i ==> id@[j] == name@[j],
        decreases n - i,
    {
        if id.get_char(i) != name.get_char(i) {
            assert(id@.take(n as int)[i as int] != name@[i as int]);
            return false;
        }
        i = i + 1;
    }
    assert(id@.take(n as int) =~= name@);
    if id.get_char(n) != '-' {
        return false;
    }
    let rest = id.substring_char(n + 1, len);
    assert(rest@ =~= id@.skip(n + 1));
    parse_u64(rest).is_some()
}

/// The identifier as `id` spells it, or its first fault: a character,
/// then the length, then the name and number.
fn check_counted_identifier(id: &str, min: usize, max: usize, name: &str) -> (r: Result<(), IdentifierError>)
    ensures
        r is Ok <==> identifier_chars(id@) && min <= id@.len() <= max && named_index(id@, name@),
        r matches Err(e) ==> counted_identifier_error(e, id@, min as int, max as int),
{
    match check_identifier(id, min, max) {
        Err(e) => Err(e),
        Ok(()) => {
            if check_named_index(id, name) {
                Ok(())
            } else {
                Err(IdentifierError::FailedToParse { id: String::from_str(id) })
            }
        },
    }
}

impl ClientType {
    /// Reads a client type, as `ClientType::from_str` does.
    pub fn parse(text: &str) -> (r: Result<ClientType, IdentifierError>)
        ensures
            r is Ok <==> is_client_type(text@),
            r matches Ok(t) ==> t@ == text@,
            r matches Err(e) ==> identifier_error(e, text@),
    {
        match check_identifier(text, 7, 43) {
            Ok(()) => Ok(ClientType(String::from_str(text))),
            Err(e) => Err(e),
        }
    }
}

impl ClientId {
    /// Reads a client identifier, as `ClientId::from_str` does.
    pub fn parse(text: &str) -> (r: Result<ClientId, IdentifierError>)
        ensures
            r is Ok <==> is_client_id(text@),
            r matches Ok(t) ==> t@ == text@,
            r matches Err(e) ==> identifier_error(e, text@),
    {
        match check_identifier(text, 9, 64) {
            Ok(()) => Ok(ClientId(String::from_str(text))),
            Err(e) => Err(e),
        }
    }
}

impl ConnectionId {
    /// Reads a connection identifier, as `ConnectionId::from_str` does.
    pub fn parse(text: &str) -> (r: Result<ConnectionId, IdentifierError>)
        ensures
            r is Ok <==> is_connection_id(text@),
            r matches Ok(t) ==> t@ == text@,
            r matches Err(e) ==> counted_identifier_error(e, text@, 10, 64),
    {
        match check_counted_identifier(text, 10, 64, "connection") {
            Ok(()) => Ok(ConnectionId(String::from_str(text))),
            Err(e) => Err(e),
        }
    }
}

impl PortId {
    /// Reads a port identifier, as `PortId::from_str` does.
    pub fn parse(text: &str) -> (r: Result<PortId, IdentifierError>)
        ensures
            r is Ok <==> is_port_id(text@),
            r matches Ok(t) ==> t@ == text@,
            r matches Err(e) ==> identifier_error(e, text@),
    {
        match check_identifier(text, 2, 128) {
            Ok(()) => Ok(PortId(String::from_str(text))),
            Err(e) => Err(e),
        }
    }
}

impl ChannelId {
    /// Reads a channel identifier, as `ChannelId::from_str` does.
    pub fn parse(text: &str) -> (r: Result<ChannelId, IdentifierError>)
        ensures
            r is Ok <==> is_channel_id(text@),
            r matches Ok(t) ==> t@ == text@,
            r matches Err(e) ==> counted_identifier_error(e, text@, 8, 64),
    {
        match check_counted_identifier(text, 8, 64, "channel") {
            Ok(()) => Ok(ChannelId(String::from_str(text))),
            Err(e) => Err(e),
        }
    }
}

/// The numbered identifiers that this crate builds are valid: a name, a
/// dash and a counter, no longer than the identifier allows.
pub proof fn lemma_counted_named_index(name: Seq<char>, counter: u64)
    ensures
        named_index(counted(name + seq!['-'], counter), name),
        identifier_chars(name) ==> identifier_chars(counted(name + seq!['-'], counter)),
        counted(name + seq!['-'], counter).len() <= name.len() + 21,
{
    let s = counted(name + seq!['-'], counter);
    let d = decimal(counter as nat);
    lemma_decimal_reads_back(counter as nat);
    lemma_decimal_length(counter as nat);
    assert(s.take(name.len() as int) =~= name);
    assert(s.skip(name.len() + 1 as int) =~= d);
    assert forall|i: int| 0 <= i < d.len() implies #[trigger] is_identifier_char(d[i]) by {
        assert(is_digit(d[i]));
    }
    if identifier_chars(name) {
        assert forall|i: int| 0 <= i < s.len() implies #[trigger] is_identifier_char(s[i]) by {
            if i < name.len() {
                assert(s[i] == name[i]);
            } else if i > name.len() {
                assert(s[i] == d[i - name.len() - 1]);
            }
        }
    }
}

/// The identifiers that this crate numbers are valid: those of connections
/// and channels, and those of the clients of a valid client type.
pub proof fn lemma_built_identifiers_valid(client_type: Seq<char>, counter: u64)
    ensures
        is_connection_id(counted("connection-"@, counter)),
        is_channel_id(counted("channel-"@, counter)),
        is_client_type(client_type) ==> is_client_id(counted(client_type + seq!['-'], counter)),
{
    reveal_strlit("connection-");
    reveal_strlit("connection");
    reveal_strlit("channel-");
    reveal_strlit("channel");
    assert("connection-"@ =~= "connection"@ + seq!['-']);
    assert("channel-"@ =~= "channel"@ + seq!['-']);
    assert(identifier_chars("connection"@));
    assert(identifier_chars("channel"@));
    lemma_counted_named_index("connection"@, counter);
    lemma_counted_named_index("channel"@, counter);
    lemma_counted_named_index(client_type, counter);
}

/// The number in a numbered identifier is the counter it was built from:
/// what follows the prefix is read by `u64::from_str` as the counter.
pub proof fn lemma_counted_reads_counter(prefix: Seq<char>, counter: u64)
    ensures
        is_u64_text(counted(prefix, counter).skip(prefix.len() as int)),
        u64_text_value(counted(prefix, counter).skip(prefix.len() as int)) == counter,
{
    assert(counted(prefix, counter).skip(prefix.len() as int) =~= decimal(counter as nat));
    lemma_u64_reads_back(counter);
}

/// The rules of ICS-24 for each kind of identifier, spelled out: the
/// characters are ASCII letters and digits and `._+-#[]<>`; a client type
/// has 7 to 43 of them, a client identifier 9 to 64, a port identifier 2
/// to 128; a connection identifier has 10 to 64 and is `connection-`
/// followed by a number, a channel identifier 8 to 64 and is `channel-`
/// followed by a number, each number as `u64::from_str` reads it.
pub proof fn lemma_identifier_rules(s: Seq<char>)
    ensures
        identifier_chars(s) <==> forall|i: int|
            0 <= i < s.len() ==> {
                let n = #[trigger] (s[i] as u32);
                (48 <= n <= 57) || (65 <= n <= 90) || (97 <= n <= 122) || s[i] == '.' || s[i]
                    == '_' || s[i] == '+' || s[i] == '-' || s[i] == '#' || s[i] == '[' || s[i]
                    == ']' || s[i] == '<' || s[i] == '>'
            },
        is_client_type(s) <==> identifier_chars(s) && 7 <= s.len() <= 43,
        is_client_id(s) <==> identifier_chars(s) && 9 <= s.len() <= 64,
        is_port_id(s) <==> identifier_chars(s) && 2 <= s.len() <= 128,
        is_connection_id(s) <==> identifier_chars(s) && 10 <= s.len() <= 64 && s.len() > 10
            && s.take(10) == "connection"@ && s[10] == '-' && is_u64_text(s.skip(11)),
        is_channel_id(s) <==> identifier_chars(s) && 8 <= s.len() <= 64 && s.len() > 7
            && s.take(7) == "channel"@ && s[7] == '-' && is_u64_text(s.skip(8)),
{
    reveal_strlit("connection");
    reveal_strlit("channel");
    assert(identifier_chars(s) <==> forall|i: int|
        0 <= i < s.len() ==> {
            let n = #[trigger] (s[i] as u32);
            (48 <= n <= 57) || (65 <= n <= 90) || (97 <= n <= 122) || s[i] == '.' || s[i] == '_'
                || s[i] == '+' || s[i] == '-' || s[i] == '#' || s[i] == '[' || s[i] == ']' || s[i]
                == '<' || s[i] == '>'
        }) by {
        if identifier_chars(s) {
            assert forall|i: int| 0 <= i < s.len() implies {
                let n = #[trigger] (s[i] as u32);
                (48 <= n <= 57) || (65 <= n <= 90) || (97 <= n <= 122) || s[i] == '.' || s[i]
                    == '_' || s[i] == '+' || s[i] == '-' || s[i] == '#' || s[i] == '[' || s[i]
                    == ']' || s[i] == '<' || s[i] == '>'
            } by {
                assert(is_identifier_char(s[i]));
            }
        }
    }
}

/// Ten to the power `k`.
pub open spec fn pow10(k: nat) -> nat
    decreases k,
{
    if k == 0 {
        1
    } else {
        10 * pow10((k - 1) as nat)
    }
}

/// A number below ten to the power `k` has at most `k` digits.
proof fn lemma_decimal_len_bound(n: nat, k: nat)
    requires
        n < pow10(k),
        k >= 1,
    ensures
        decimal(n).len() <= k,
        decimal(n).len() >= 1,
    decreases n,
{
    if n >= 10 {
        assert(k >= 2) by {
            if k == 1 {
                assert(pow10(1) == 10 * pow10(0));
            }
            if k == 0 {
            }
        }
        assert(n / 10 < pow10((k - 1) as nat));
        lemma_decimal_len_bound(n / 10, (k - 1) as nat);
    }
}

/// The decimal spelling of a 64-bit number has at most twenty digits.
proof fn lemma_decimal_length(n: nat)
    requires
        n <= u64::MAX,
    ensures
        decimal(n).len() <= 20,
{
    assert(pow10(20) == 100000000000000000000) by {
        reveal_with_fuel(pow10, 21);
    }
    lemma_decimal_len_bound(n, 20);
}

impl AttributeValue for ClientType {
    open spec fn event_value(&self) -> Seq<char> {
        self@
    }

    open spec fn accepts(text: Seq<char>) -> bool {
        is_client_type(text)
    }

    open spec fn normal_form(text: Seq<char>) -> Seq<char> {
        text
    }

    open spec fn canonical(&self) -> bool {
        true
    }

    open spec fn same_value(&self, other: Self) -> bool {
        self@ == other@
    }

    proof fn lemma_spelling_injective(a: Self, b: Self) {
    }

    fn to_event_value(&self) -> (r: String) {
        self.0.clone()
    }

    fn parse_event_value(text: &str) -> (r: Result<Self, DecodingError>) {
        match ClientType::parse(text) {
            Ok(v) => Ok(v),
            Err(e) => Err(DecodingError::Identifier(e)),
        }
    }
}

impl AttributeValue for ClientId {
    open spec fn event_value(&self) -> Seq<char> {
        self@
    }

    open spec fn accepts(text: Seq<char>) -> bool {
        is_client_id(text)
    }

    open spec fn normal_form(text: Seq<char>) -> Seq<char> {
        text
    }

    open spec fn canonical(&self) -> bool {
        true
    }

    open spec fn same_value(&self, other: Self) -> bool {
        self@ == other@
    }

    proof fn lemma_spelling_injective(a: Self, b: Self) {
    }

    fn to_event_value(&self) -> (r: String) {
        self.0.clone()
    }

    fn parse_event_value(text: &str) -> (r: Result<Self, DecodingError>) {
        match ClientId::parse(text) {
            Ok(v) => Ok(v),
            Err(e) => Err(DecodingError::Identifier(e)),
        }
    }
}

impl AttributeValue for ConnectionId {
    open spec fn event_value(&self) -> Seq<char> {
        self@
    }

    open spec fn accepts(text: Seq<char>) -> bool {
        is_connection_id(text)
    }

    open spec fn normal_form(text: Seq<char>) -> Seq<char> {
        text
    }

    open spec fn canonical(&self) -> bool {
        true
    }

    open spec fn same_value(&self, other: Self) -> bool {
        self@ == other@
    }

    proof fn lemma_spelling_injective(a: Self, b: Self) {
    }

    fn to_event_value(&self) -> (r: String) {
        self.0.clone()
    }

    fn parse_event_value(text: &str) -> (r: Result<Self, DecodingError>) {
        match ConnectionId::parse(text) {
            Ok(v) => Ok(v),
            Err(e) => Err(DecodingError::Identifier(e)),
        }
    }
}

impl AttributeValue for ChannelId {
    open spec fn event_value(&self) -> Seq<char> {
        self@
    }

    open spec fn accepts(text: Seq<char>) -> bool {
        is_channel_id(text)
    }

    open spec fn normal_form(text: Seq<char>) -> Seq<char> {
        text
    }

    open spec fn canonical(&self) -> bool {
        true
    }

    open spec fn same_value(&self, other: Self) -> bool {
        self@ == other@
    }

    proof fn lemma_spelling_injective(a: Self, b: Self) {
    }

    fn to_event_value(&self) -> (r: String) {
        self.0.clone()
    }

    fn parse_event_value(text: &str) -> (r: Result<Self, DecodingError>) {
        match ChannelId::parse(text) {
            Ok(v) => Ok(v),
            Err(e) => Err(DecodingError::Identifier(e)),
        }
    }
}

/// A counterparty channel that may not be known yet is spelled as the
/// empty string.
impl AttributeValue for Option<ChannelId> {
    open spec fn event_value(&self) -> Seq<char> {
        match self {
            Some(id) => id@,
            None => Seq::empty(),
        }
    }

    open spec fn accepts(text: Seq<char>) -> bool {
        text.len() == 0 || is_channel_id(text)
    }

    open spec fn normal_form(text: Seq<char>) -> Seq<char> {
        text
    }

    open spec fn canonical(&self) -> bool {
        match self {
            Some(id) => id@.len() > 0,
            None => true,
        }
    }

    open spec fn same_value(&self, other: Self) -> bool {
        match (*self, other) {
            (Some(a), Some(b)) => a@ == b@,
            (None, None) => true,
            _ => false,
        }
    }

    proof fn lemma_spelling_injective(a: Self, b: Self) {
    }

    fn to_event_value(&self) -> (r: String) {
        match self {
            Some(id) => id.0.clone(),
            None => String::new(),
        }
    }

    fn parse_event_value(text: &str) -> (r: Result<Self, DecodingError>) {
        if text.unicode_len() == 0 {
            Ok(None)
        } else {
            match ChannelId::parse(text) {
                Ok(v) => Ok(Some(v)),
                Err(e) => Err(DecodingError::Identifier(e)),
            }
        }
    }
}

impl AttributeValue for PortId {
    open spec fn event_value(&self) -> Seq<char> {
        self@
    }

    open spec fn accepts(text: Seq<char>) -> bool {
        is_port_id(text)
    }

    open spec fn normal_form(text: Seq<char>) -> Seq<char> {
        text
    }

    open spec fn canonical(&self) -> bool {
        true
    }

    open spec fn same_value(&self, other: Self) -> bool {
        self@ == other@
    }

    proof fn lemma_spelling_injective(a: Self, b: Self) {
    }

    fn to_event_value(&self) -> (r: String) {
        self.0.clone()
    }

    fn parse_event_value(text: &str) -> (r: Result<Self, DecodingError>) {
        match PortId::parse(text) {
            Ok(v) => Ok(v),
            Err(e) => Err(DecodingError::Identifier(e)),
        }
    }
}

/// Any text is a version.
impl AttributeValue for Version {
    open spec fn event_value(&self) -> Seq<char> {
        self@
    }

    open spec fn accepts(text: Seq<char>) -> bool {
        true
    }

    open spec fn normal_form(text: Seq<char>) -> Seq<char> {
        text
    }

    open spec fn canonical(&self) -> bool {
        true
    }

    open spec fn same_value(&self, other: Self) -> bool {
        self@ == other@
    }

    proof fn lemma_spelling_injective(a: Self, b: Self) {
    }

    fn to_event_value(&self) -> (r: String) {
        self.0.clone()
    }

    fn parse_event_value(text: &str) -> (r: Result<Self, DecodingError>) {
        Ok(Version(String::from_str(text)))
    }
}

/// The error for text that is not a number of the kind `what` names.
fn not_a_number(what: &str) -> (r: DecodingError)
    ensures
        r is InvalidRawData,
{
    let mut description = String::from_str(what);
    proof {
        reveal_strlit(": not a 64-bit unsigned integer");
    }
    description.append(": not a 64-bit unsigned integer");
    DecodingError::InvalidRawData { description }
}

impl AttributeValue for Sequence {
    open spec fn event_value(&self) -> Seq<char> {
        decimal(self@ as nat)
    }

    open spec fn accepts(text: Seq<char>) -> bool {
        is_u64_text(text)
    }

    open spec fn normal_form(text: Seq<char>) -> Seq<char> {
        decimal(u64_text_value(text))
    }

    open spec fn canonical(&self) -> bool {
        true
    }

    open spec fn same_value(&self, other: Self) -> bool {
        self@ == other@
    }

    proof fn lemma_spelling_injective(a: Self, b: Self) {
        lemma_decimal_reads_back(a@ as nat);
        lemma_decimal_reads_back(b@ as nat);
    }

    fn to_event_value(&self) -> (r: String) {
        crate::text::u64_to_decimal(self.0)
    }

    fn parse_event_value(text: &str) -> (r: Result<Self, DecodingError>) {
        match parse_u64(text) {
            Some(n) => Ok(Sequence(n)),
            None => Err(not_a_number("packet sequence")),
        }
    }
}

/// The spelling of a 64-bit number reads back as that number.
pub proof fn lemma_u64_reads_back(n: u64)
    ensures
        is_u64_text(decimal(n as nat)),
        u64_text_value(decimal(n as nat)) == n,
{
    lemma_decimal_reads_back(n as nat);
}

/// The spelling of a sequence number reads back.
pub proof fn lemma_sequence_reads_back(s: Sequence)
    ensures
        reads_back(s),
{
    lemma_u64_reads_back(s@);
}

/// The position of the first `c` in `s`, or -1.
pub open spec fn find_char(s: Seq<char>, c: char) -> int
    decreases s.len(),
{
    if s.len() == 0 {
        -1
    } else {
        let k = find_char(s.drop_last(), c);
        if k >= 0 {
            k
        } else if s.last() == c {
            s.len() - 1
        } else {
            -1
        }
    }
}

/// `find_char` gives the first position of the character, or -1 where it
/// does not occur.
pub proof fn lemma_find_char(s: Seq<char>, c: char)
    ensures
        -1 <= find_char(s, c) < s.len(),
        find_char(s, c) >= 0 ==> s[find_char(s, c)] == c,
        forall|j: int|
            0 <= j < (if find_char(s, c) >= 0 {
                find_char(s, c)
            } else {
                s.len() as int
            }) ==> s[j] != c,
    decreases s.len(),
{
    if s.len() > 0 {
        lemma_find_char(s.drop_last(), c);
        assert forall|j: int|
            0 <= j < (if find_char(s, c) >= 0 {
                find_char(s, c)
            } else {
                s.len() as int
            }) implies s[j] != c by {
            if j < s.len() - 1 {
                assert(s[j] == s.drop_last()[j]);
            }
        }
    }
}

/// Whether `s` is a height as `Height::from_str` reads it: a number, a
/// dash, and a number other than zero, each as `u64::from_str` reads it.
pub open spec fn is_height_text(s: Seq<char>) -> bool {
    let k = find_char(s, '-');
    &&& k >= 0
    &&& is_u64_text(s.take(k))
    &&& is_u64_text(s.skip(k + 1))
    &&& u64_text_value(s.skip(k + 1)) != 0
}

/// The revision and the height within it that height text `s` names.
pub open spec fn height_text_value(s: Seq<char>) -> (u64, u64) {
    let k = find_char(s, '-');
    (u64_text_value(s.take(k)) as u64, u64_text_value(s.skip(k + 1)) as u64)
}

/// The height that height text `s` names.
pub closed spec fn height_from_text(s: Seq<char>) -> Height {
    let v = height_text_value(s);
    Height { revision_number: v.0, revision_height: v.1 }
}

/// The height that `height_from_text` gives has the value the text names.
pub proof fn lemma_height_from_text(s: Seq<char>)
    ensures
        height_from_text(s)@ == height_text_value(s),
{
}

impl Height {
    /// Reads a height, as `Height::from_str` does: a revision, a dash and
    /// a height within the revision other than zero.
    pub fn parse(text: &str) -> (r: Result<Height, DecodingError>)
        ensures
            r is Ok <==> is_height_text(text@),
            r matches Ok(h) ==> h@ == height_text_value(text@),
            r matches Ok(h) ==> h@.1 != 0,
            r matches Err(e) ==> e is InvalidRawData,
    {
        let len = text.unicode_len();
        let mut i: usize = 0;
        while i < len && text.get_char(i) != '-'
            invariant
                i <= len,
                len == text@.len(),
                forall|j: int| 0 <= j < i ==> text@[j] != '-',
            decreases len - i,
        {
            i = i + 1;
        }
        proof {
            lemma_find_char(text@, '-');
        }
        if i == len {
            return Err(
                DecodingError::InvalidRawData { description: String::from_str("height: no dash") },
            );
        }
        assert(find_char(text@, '-') == i);
        let before = text.substring_char(0, i);
        let after = text.substring_char(i + 1, len);
        assert(before@ =~= text@.take(i as int));
        assert(after@ =~= text@.skip(i + 1));
        match (parse_u64(before), parse_u64(after)) {
            (Some(revision_number), Some(revision_height)) => {
                if revision_height == 0 {
                    Err(
                        DecodingError::InvalidRawData {
                            description: String::from_str("height: zero height"),
                        },
                    )
                } else {
                    Ok(Height { revision_number, revision_height })
                }
            },
            _ => Err(not_a_number("height")),
        }
    }
}

/// The spelling of a height other than zero within its revision reads back
/// as that height.
pub proof fn lemma_height_text(v: (u64, u64))
    requires
        v.1 != 0,
    ensures
        is_height_text(height_chars(v)),
        height_text_value(height_chars(v)) == v,
        find_char(height_chars(v), '-') == decimal(v.0 as nat).len(),
{
    let a = decimal(v.0 as nat);
    let b = decimal(v.1 as nat);
    let s = height_chars(v);
    lemma_u64_reads_back(v.0);
    lemma_u64_reads_back(v.1);
    lemma_decimal_reads_back(v.0 as nat);
    lemma_find_char(s, '-');
    let k = find_char(s, '-');
    assert(s[a.len() as int] == '-');
    if k >= 0 && k < a.len() {
        assert(s[k] == a[k]);
        assert(is_digit(a[k]));
    }
    assert(k == a.len());
    assert(s.take(k) =~= a);
    assert(s.skip(k + 1) =~= b);
}

/// A height other than zero within its revision reads back.
pub proof fn lemma_height_reads_back(h: Height)
    requires
        h@.1 != 0,
    ensures
        reads_back(h),
{
    lemma_height_text(h@);
}

impl AttributeValue for Height {
    open spec fn event_value(&self) -> Seq<char> {
        height_chars(self@)
    }

    open spec fn accepts(text: Seq<char>) -> bool {
        is_height_text(text)
    }

    open spec fn normal_form(text: Seq<char>) -> Seq<char> {
        height_chars(height_text_value(text))
    }

    open spec fn canonical(&self) -> bool {
        self@.1 != 0
    }

    open spec fn same_value(&self, other: Self) -> bool {
        self@ == other@
    }

    proof fn lemma_spelling_injective(a: Self, b: Self) {
        lemma_height_text(a@);
        lemma_height_text(b@);
    }

    fn to_event_value(&self) -> (r: String) {
        let mut s = String::new();
        push_decimal(self.revision_number, &mut s);
        proof {
            reveal_strlit("-");
        }
        s.append("-");
        push_decimal(self.revision_height, &mut s);
        assert(s@ =~= height_chars(self@));
        s
    }

    fn parse_event_value(text: &str) -> (r: Result<Self, DecodingError>) {
        Height::parse(text)
    }
}

/// The spelling of a list of heights: each height, separated by commas.
pub open spec fn heights_chars(hs: Seq<Height>) -> Seq<char>
    decreases hs.len(),
{
    if hs.len() == 0 {
        Seq::empty()
    } else if hs.len() == 1 {
        height_chars(hs[0]@)
    } else {
        heights_chars(hs.drop_last()) + seq![','] + height_chars(hs.last()@)
    }
}

/// The position of the last `c` in `s`, or -1.
pub open spec fn last_index(s: Seq<char>, c: char) -> int
    decreases s.len(),
{
    if s.len() == 0 {
        -1
    } else if s.last() == c {
        s.len() - 1
    } else {
        last_index(s.drop_last(), c)
    }
}

/// The pieces of `s` between the occurrences of `c`, as `str::split`
/// gives them: one more piece than there are separators.
pub open spec fn split_on(s: Seq<char>, c: char) -> Seq<Seq<char>>
    decreases s.len(),
{
    let k = last_index(s, c);
    if k < 0 || k >= s.len() {
        seq![s]
    } else {
        split_on(s.take(k), c).push(s.skip(k + 1))
    }
}

proof fn lemma_last_index(s: Seq<char>, c: char)
    ensures
        -1 <= last_index(s, c) < s.len(),
    decreases s.len(),
{
    if s.len() > 0 {
        lemma_last_index(s.drop_last(), c);
    }
}

/// Splitting after one more character: a separator opens a new piece,
/// any other character extends the last one.
proof fn lemma_split_step(t: Seq<char>, x: char, c: char)
    ensures
        split_on(t, c).len() >= 1,
        split_on(t.push(x), c) == (if x == c {
            split_on(t, c).push(Seq::empty())
        } else {
            split_on(t, c).update(
                split_on(t, c).len() - 1,
                split_on(t, c).last().push(x),
            )
        }),
    decreases t.len(),
{
    let u = t.push(x);
    lemma_last_index(t, c);
    lemma_last_index(u, c);
    assert(u.drop_last() =~= t);
    let k = last_index(t, c);
    if x == c {
        assert(u.take(t.len() as int) =~= t);
        assert(u.skip(t.len() + 1 as int) =~= Seq::<char>::empty());
    } else {
        assert(last_index(u, c) == k);
        if k >= 0 {
            assert(u.take(k) =~= t.take(k));
            assert(u.skip(k + 1) =~= t.skip(k + 1).push(x));
            lemma_split_nonempty(t.take(k), c);
        }
    }
    lemma_split_nonempty(t, c);
}

proof fn lemma_split_nonempty(t: Seq<char>, c: char)
    ensures
        split_on(t, c).len() >= 1,
    decreases t.len(),
{
    lemma_last_index(t, c);
    let k = last_index(t, c);
    if k >= 0 && k < t.len() {
        lemma_split_nonempty(t.take(k), c);
    }
}

/// Reading further never changes the pieces already closed by a
/// separator.
proof fn lemma_split_prefix(s: Seq<char>, c: char, m: int, n: int)
    requires
        0 <= m <= n <= s.len(),
    ensures
        split_on(s.take(n), c).len() >= split_on(s.take(m), c).len(),
        forall|j: int|
            0 <= j < split_on(s.take(m), c).len() - 1 ==> split_on(s.take(n), c)[j] == split_on(
                s.take(m),
                c,
            )[j],
    decreases n - m,
{
    if n > m {
        lemma_split_prefix(s, c, m, n - 1);
        assert(s.take(n) =~= s.take(n - 1).push(s[n - 1]));
        lemma_split_step(s.take(n - 1), s[n - 1], c);
    }
}

/// Appending characters other than the separator extends the last piece.
proof fn lemma_split_append_plain(a: Seq<char>, b: Seq<char>, c: char)
    requires
        forall|i: int| 0 <= i < b.len() ==> b[i] != c,
    ensures
        split_on(a, c).len() >= 1,
        split_on(a + b, c) == split_on(a, c).update(
            split_on(a, c).len() - 1,
            split_on(a, c).last() + b,
        ),
    decreases b.len(),
{
    lemma_split_nonempty(a, c);
    if b.len() == 0 {
        assert(a + b =~= a);
        assert(split_on(a, c).last() + b =~= split_on(a, c).last());
        assert(split_on(a, c).update(split_on(a, c).len() - 1, split_on(a, c).last())
            =~= split_on(a, c));
    } else {
        let b0 = b.drop_last();
        lemma_split_append_plain(a, b0, c);
        assert(a + b =~= (a + b0).push(b.last()));
        lemma_split_step(a + b0, b.last(), c);
        assert((split_on(a, c).last() + b0).push(b.last()) =~= split_on(a, c).last() + b);
        assert(split_on(a + b, c) =~= split_on(a, c).update(
            split_on(a, c).len() - 1,
            split_on(a, c).last() + b,
        ));
    }
}

/// Whether every comma-separated piece of `s` is a height.
pub open spec fn is_heights_text(s: Seq<char>) -> bool {
    forall|j: int| 0 <= j < split_on(s, ',').len() ==> #[trigger] is_height_text(split_on(s, ',')[j])
}

/// The heights that the comma-separated pieces of `s` name.
pub open spec fn heights_from_text(s: Seq<char>) -> Seq<Height> {
    split_on(s, ',').map_values(|p: Seq<char>| height_from_text(p))
}

/// Reads a comma-separated list of heights; an empty string is one empty
/// piece, which is no height.
#[verifier::spinoff_prover]
fn parse_heights(text: &str) -> (r: Result<Vec<Height>, DecodingError>)
    ensures
        r is Ok <==> is_heights_text(text@),
        r matches Ok(hs) ==> hs@ == heights_from_text(text@),
        r matches Err(e) ==> e is InvalidRawData,
{
    let len = text.unicode_len();
    let mut hs: Vec<Height> = Vec::new();
    let mut start: usize = 0;
    let mut i: usize = 0;
    proof {
        assert(text@.take(0) =~= Seq::<char>::empty());
        assert(split_on(Seq::<char>::empty(), ',') =~= seq![Seq::<char>::empty()]);
    }
    while i < len
        invariant
            i <= len,
            len == text@.len(),
            start <= i,
            split_on(text@.take(i as int), ',').len() == hs@.len() + 1,
            split_on(text@.take(i as int), ',').last() == text@.subrange(start as int, i as int),
            forall|j: int|
                0 <= j < hs@.len() ==> #[trigger] is_height_text(
                    split_on(text@.take(i as int), ',')[j],
                ) && hs@[j] == height_from_text(split_on(text@.take(i as int), ',')[j]),
        decreases len - i,
    {
        let ghost ps = split_on(text@.take(i as int), ',');
        let c = text.get_char(i);
        assert(text@.take(i + 1) =~= text@.take(i as int).push(c));
        proof {
            lemma_split_step(text@.take(i as int), c, ',');
        }
        let ghost next = split_on(text@.take(i + 1), ',');
        let ghost old_hs = hs@;
        if c == ',' {
            let piece = text.substring_char(start, i);
            assert(piece@ =~= ps.last());
            match Height::parse(piece) {
                Ok(h) => {
                    proof {
                        lemma_height_from_text(piece@);
                    }
                    hs.push(h);
                    assert forall|j: int| 0 <= j < hs@.len() implies #[trigger] is_height_text(
                        next[j],
                    ) && hs@[j] == height_from_text(next[j]) by {
                        if j < old_hs.len() {
                            assert(next[j] == ps[j]);
                            assert(hs@[j] == old_hs[j]);
                            assert(is_height_text(ps[j]));
                        } else {
                            assert(j == old_hs.len());
                            assert(next[j] == piece@);
                            assert(hs@[j] == h);
                            assert(is_height_text(piece@));
                            assert(h@ == height_from_text(piece@)@);
                            assert(h == height_from_text(piece@));
                        }
                    }
                },
                Err(e) => {
                    proof {
                        lemma_split_prefix(text@, ',', i + 1, len as int);
                        assert(text@.take(len as int) =~= text@);
                        assert(next[old_hs.len() as int] == ps.last());
                        assert(split_on(text@, ',')[old_hs.len() as int] == ps.last());
                    }
                    return Err(e);
                },
            }
            start = i + 1;
        } else {
            assert forall|j: int| 0 <= j < hs@.len() implies #[trigger] is_height_text(next[j])
                && hs@[j] == height_from_text(next[j]) by {
                assert(next[j] == ps[j]);
                assert(is_height_text(ps[j]));
            }
        }
        i = i + 1;
        assert(split_on(text@.take(i as int), ',') == next);
        assert(split_on(text@.take(i as int), ',').last() =~= text@.subrange(
            start as int,
            i as int,
        ));
    }
    assert(text@.take(len as int) =~= text@);
    let piece = text.substring_char(start, len);
    match Height::parse(piece) {
        Ok(h) => {
            proof {
                lemma_height_from_text(piece@);
            }
            let ghost ps = split_on(text@, ',');
            assert(piece@ =~= ps.last());
            hs.push(h);
            assert forall|j: int| 0 <= j < hs@.len() implies hs@[j] == heights_from_text(text@)[j] by {
                if j < hs@.len() - 1 {
                    assert(is_height_text(ps[j]));
                }
            }
            assert(hs@ =~= heights_from_text(text@));
            Ok(hs)
        },
        Err(e) => Err(e),
    }
}

/// The pieces of a spelled list of heights are the spellings of its
/// heights.
proof fn lemma_split_heights(hs: Seq<Height>)
    requires
        hs.len() >= 1,
    ensures
        split_on(heights_chars(hs), ',') == hs.map_values(|h: Height| height_chars(h@)),
    decreases hs.len(),
{
    let b = height_chars(hs.last()@);
    assert forall|i: int| 0 <= i < b.len() implies b[i] != ',' by {
        lemma_decimal_reads_back(hs.last()@.0 as nat);
        lemma_decimal_reads_back(hs.last()@.1 as nat);
        let a0 = decimal(hs.last()@.0 as nat);
        let a1 = decimal(hs.last()@.1 as nat);
        if i < a0.len() {
            assert(b[i] == a0[i]);
            assert(is_digit(a0[i]));
        } else if i > a0.len() {
            assert(b[i] == a1[i - a0.len() - 1]);
            assert(is_digit(a1[i - a0.len() - 1]));
        }
    }
    if hs.len() == 1 {
        lemma_split_append_plain(Seq::empty(), b, ',');
        assert(Seq::<char>::empty() + b =~= b);
        assert(split_on(Seq::<char>::empty(), ',') =~= seq![Seq::<char>::empty()]);
        assert(Seq::<char>::empty() + b =~= b);
        assert(split_on(heights_chars(hs), ',') =~= hs.map_values(|h: Height| height_chars(h@)));
    } else {
        let a = heights_chars(hs.drop_last());
        lemma_split_heights(hs.drop_last());
        lemma_split_step(a, ',', ',');
        lemma_split_append_plain(a.push(','), b, ',');
        assert(a + seq![','] =~= a.push(','));
        assert(Seq::<char>::empty() + b =~= b);
        assert(split_on(heights_chars(hs), ',') =~= hs.map_values(|h: Height| height_chars(h@)));
    }
}

/// The spelling of a non-empty list of heights, none zero within its
/// revision, is read as that list: its pieces are heights, and they name
/// the heights of the list.
pub proof fn lemma_heights_text(hs: Seq<Height>)
    requires
        hs.len() >= 1,
        forall|i: int| 0 <= i < hs.len() ==> (#[trigger] hs[i])@.1 != 0,
    ensures
        is_heights_text(heights_chars(hs)),
        heights_from_text(heights_chars(hs)) == hs,
{
    let s = heights_chars(hs);
    lemma_split_heights(hs);
    assert forall|j: int| 0 <= j < split_on(s, ',').len() implies #[trigger] is_height_text(
        split_on(s, ',')[j],
    ) by {
        lemma_height_text(hs[j]@);
    }
    assert forall|j: int| 0 <= j < hs.len() implies heights_from_text(s)[j] == hs[j] by {
        lemma_height_text(hs[j]@);
        lemma_height_from_text(split_on(s, ',')[j]);
    }
    assert(heights_from_text(s) =~= hs);
}

/// A non-empty list of heights, none zero within its revision, reads back.
pub proof fn lemma_heights_reads_back(hs: Vec<Height>)
    requires
        hs@.len() >= 1,
        forall|i: int| 0 <= i < hs@.len() ==> (#[trigger] hs@[i])@.1 != 0,
    ensures
        reads_back(hs),
{
    lemma_heights_text(hs@);
}

/// A list of heights is spelled as its heights separated by commas.
impl AttributeValue for Vec<Height> {
    open spec fn event_value(&self) -> Seq<char> {
        heights_chars(self@)
    }

    open spec fn accepts(text: Seq<char>) -> bool {
        is_heights_text(text)
    }

    open spec fn normal_form(text: Seq<char>) -> Seq<char> {
        heights_chars(heights_from_text(text))
    }

    open spec fn canonical(&self) -> bool {
        self@.len() >= 1 && forall|i: int| 0 <= i < self@.len() ==> (#[trigger] self@[i])@.1 != 0
    }

    open spec fn same_value(&self, other: Self) -> bool {
        self@ == other@
    }

    proof fn lemma_spelling_injective(a: Self, b: Self) {
        lemma_heights_text(a@);
        lemma_heights_text(b@);
    }

    fn to_event_value(&self) -> (r: String) {
        let mut s = String::new();
        let n = self.len();
        let mut i: usize = 0;
        while i < n
            invariant
                n == self@.len(),
                i <= n,
                s@ == heights_chars(self@.take(i as int)),
            decreases n - i,
        {
            let ghost before = s@;
            if i > 0 {
                proof {
                    reveal_strlit(",");
                }
                s.append(",");
            }
            let h = self[i].to_event_value();
            s.append(h.as_str());
            proof {
                let t = self@.take(i + 1);
                assert(t.drop_last() =~= self@.take(i as int));
                assert(t.last() == self@[i as int]);
                if i == 0 {
                    assert(before =~= Seq::<char>::empty());
                }
            }
            assert(s@ =~= heights_chars(self@.take(i + 1)));
            i = i + 1;
        }
        assert(self@.take(n as int) =~= self@);
        s
    }

    fn parse_event_value(text: &str) -> (r: Result<Self, DecodingError>) {
        let r = parse_heights(text);
        proof {
            if r is Ok {
                let hs = r->Ok_0;
                lemma_split_nonempty(text@, ',');
                assert forall|i: int| 0 <= i < hs@.len() implies (#[trigger] hs@[i])@.1 != 0 by {
                    let piece = split_on(text@, ',')[i];
                    assert(is_height_text(piece));
                    lemma_height_from_text(piece);
                }
            }
        }
        r
    }
}

} // verus!
