//! The ABCI events that a chain hands to Tendermint, in the form that
//! Tendermint 0.37 and later give them: a kind and a list of string
//! attributes.
use vstd::prelude::*;

verus! {

/// One attribute of an ABCI event: a key, a value, and whether
/// Tendermint's indexer should index it.
#[derive(Clone, Debug)]
pub struct EventAttribute {
    pub key: String,
    pub value: String,
    pub index: bool,
}

impl View for EventAttribute {
    type V = (Seq<char>, Seq<char>, bool);

    open spec fn view(&self) -> (Seq<char>, Seq<char>, bool) {
        (self.key@, self.value@, self.index)
    }
}

impl EventAttribute {
    /// An attribute with the given key, value and index flag.
    pub fn new(key: &str, value: String, index: bool) -> (r: EventAttribute)
        ensures
            r@ == (key@, value@, index),
    {
        EventAttribute { key: String::from_str(key), value, index }
    }

    /// The key.
    pub fn key_str(&self) -> (r: &str)
        ensures
            r@ == self.key@,
    {
        self.key.as_str()
    }

    /// The value.
    pub fn value_str(&self) -> (r: &str)
        ensures
            r@ == self.value@,
    {
        self.value.as_str()
    }
}

/// An ABCI event: its kind and its attributes, in order.
#[derive(Clone, Debug)]
pub struct Event {
    pub kind: String,
    pub attributes: Vec<EventAttribute>,
}

/// The view of a list of attributes: key, value and index flag of each.
pub open spec fn attributes_view(attributes: Seq<EventAttribute>) -> Seq<(Seq<char>, Seq<char>, bool)> {
    attributes.map_values(|a: EventAttribute| a@)
}

impl View for Event {
    type V = (Seq<char>, Seq<(Seq<char>, Seq<char>, bool)>);

    open spec fn view(&self) -> (Seq<char>, Seq<(Seq<char>, Seq<char>, bool)>) {
        (self.kind@, attributes_view(self.attributes@))
    }
}

/// The view of attributes given as key-value pairs: each key and value,
/// not indexed.
pub open spec fn pairs_view(pairs: Seq<(String, String)>) -> Seq<(Seq<char>, Seq<char>, bool)> {
    pairs.map_values(|p: (String, String)| (p.0@, p.1@, false))
}

impl Event {
    /// The event of kind `kind` whose attributes are the key-value pairs
    /// `pairs`, in order, none indexed.
    pub fn from_pairs(kind: String, pairs: Vec<(String, String)>) -> (r: Event)
        ensures
            r@ == (kind@, pairs_view(pairs@)),
    {
        let mut attributes: Vec<EventAttribute> = Vec::new();
        let n = pairs.len();
        let mut i: usize = 0;
        while i < n
            invariant
                n == pairs@.len(),
                i <= n,
                attributes@.len() == i,
                attributes_view(attributes@) == pairs_view(pairs@.take(i as int)),
            decreases n - i,
        {
            let ghost before = attributes@;
            let key = pairs[i].0.clone();
            let value = pairs[i].1.clone();
            assert(key@ == pairs@[i as int].0@ && value@ == pairs@[i as int].1@);
            attributes.push(EventAttribute { key, value, index: false });
            assert(pairs@.take(i + 1) =~= pairs@.take(i as int).push(pairs@[i as int]));
            assert(attributes@ == before.push(attributes@[i as int]));
            assert(attributes_view(attributes@) =~= attributes_view(before).push(
                attributes@[i as int]@,
            ));
            assert(attributes_view(attributes@) =~= pairs_view(pairs@.take(i + 1)));
            i = i + 1;
        }
        assert(pairs@.take(n as int) =~= pairs@);
        Event { kind, attributes }
    }
}

} // verus!
