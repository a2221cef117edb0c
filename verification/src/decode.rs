//! Reading the attributes of an ABCI event back into typed values: each
//! attribute that an IBC event expects must occur exactly once and hold a
//! value of its type.
use vstd::prelude::*;
use crate::abci::{attributes_view, EventAttribute};
use crate::attribute::AttributeValue;
use crate::handler_events::DecodingError;

verus! {

/// How many attributes in `attrs` have the key `key`.
pub open spec fn key_count(attrs: Seq<(Seq<char>, Seq<char>, bool)>, key: Seq<char>) -> nat
    decreases attrs.len(),
{
    if attrs.len() == 0 {
        0
    } else {
        key_count(attrs.drop_last(), key) + if attrs.last().0 == key {
            1nat
        } else {
            0nat
        }
    }
}

/// The value of the first attribute in `attrs` with the key `key`, or the
/// empty string where there is none.
pub open spec fn first_value(attrs: Seq<(Seq<char>, Seq<char>, bool)>, key: Seq<char>) -> Seq<char>
    decreases attrs.len(),
{
    if attrs.len() == 0 {
        Seq::empty()
    } else if key_count(attrs.drop_last(), key) > 0 {
        first_value(attrs.drop_last(), key)
    } else if attrs.last().0 == key {
        attrs.last().1
    } else {
        Seq::empty()
    }
}

/// Whether `attrs` holds exactly one attribute with the key `key`, and its
/// value is read as a `T`.
pub open spec fn field_readable<T: AttributeValue>(
    attrs: Seq<(Seq<char>, Seq<char>, bool)>,
    key: Seq<char>,
) -> bool {
    key_count(attrs, key) == 1 && T::accepts(first_value(attrs, key))
}

/// Whether the attribute with the key `key` is wrong in `attrs`: it occurs
/// more than once, or once with a value that is not read as a `T`.
pub open spec fn field_wrong<T: AttributeValue>(
    attrs: Seq<(Seq<char>, Seq<char>, bool)>,
    key: Seq<char>,
) -> bool {
    key_count(attrs, key) >= 2 || (key_count(attrs, key) == 1 && !T::accepts(first_value(attrs, key)))
}

/// Reading further never lowers the count of a key, and never changes the
/// first value once the key was seen.
pub proof fn lemma_key_prefix(
    attrs: Seq<(Seq<char>, Seq<char>, bool)>,
    key: Seq<char>,
    m: int,
    n: int,
)
    requires
        0 <= m <= n <= attrs.len(),
    ensures
        key_count(attrs.take(n), key) >= key_count(attrs.take(m), key),
        key_count(attrs.take(m), key) > 0 ==> first_value(attrs.take(n), key) == first_value(
            attrs.take(m),
            key,
        ),
    decreases n - m,
{
    if n > m {
        lemma_key_prefix(attrs, key, m, n - 1);
        assert(attrs.take(n).drop_last() =~= attrs.take(n - 1));
    }
}

/// Whether no attribute in `attrs` has the key `key`.
pub open spec fn key_absent(attrs: Seq<(Seq<char>, Seq<char>, bool)>, key: Seq<char>) -> bool
    decreases attrs.len(),
{
    attrs.len() == 0 || (attrs.last().0 != key && key_absent(attrs.drop_last(), key))
}

/// Whether no two attributes in `attrs` have the same key.
pub open spec fn keys_distinct(attrs: Seq<(Seq<char>, Seq<char>, bool)>) -> bool
    decreases attrs.len(),
{
    attrs.len() == 0 || (key_absent(attrs.drop_last(), attrs.last().0) && keys_distinct(
        attrs.drop_last(),
    ))
}

proof fn lemma_key_absent(attrs: Seq<(Seq<char>, Seq<char>, bool)>, key: Seq<char>)
    requires
        key_absent(attrs, key),
    ensures
        key_count(attrs, key) == 0,
        forall|j: int| 0 <= j < attrs.len() ==> attrs[j].0 != key,
    decreases attrs.len(),
{
    if attrs.len() > 0 {
        lemma_key_absent(attrs.drop_last(), key);
        assert forall|j: int| 0 <= j < attrs.len() implies attrs[j].0 != key by {
            if j < attrs.len() - 1 {
                assert(attrs[j] == attrs.drop_last()[j]);
            }
        }
    }
}

/// In a list whose keys are pairwise distinct, each key occurs once, with
/// its own value.
pub proof fn lemma_distinct_keys(attrs: Seq<(Seq<char>, Seq<char>, bool)>, i: int)
    requires
        0 <= i < attrs.len(),
        keys_distinct(attrs),
    ensures
        key_count(attrs, attrs[i].0) == 1,
        first_value(attrs, attrs[i].0) == attrs[i].1,
    decreases attrs.len(),
{
    let key = attrs[i].0;
    let front = attrs.drop_last();
    lemma_key_absent(front, attrs.last().0);
    if i < attrs.len() - 1 {
        assert(front[i] == attrs[i]);
        lemma_distinct_keys(front, i);
        assert(attrs.last().0 != key);
    }
}

/// What looking for one attribute among the attributes of an event found.
pub enum FieldScan<T> {
    /// The attribute occurs once, and this is its value.
    Found(T),
    /// No attribute has the key.
    Missing,
    /// The attribute at position `at` is a second one with the key, or the
    /// first one with a value that could not be read.
    Failed { at: usize, error: DecodingError },
}

/// The error for an attribute that occurs twice.
fn duplicate_attribute(friendly_name: &str) -> (r: DecodingError)
    ensures
        r is InvalidRawData,
{
    proof {
        reveal_strlit("Duplicate attribute value found for attribute ");
        reveal_strlit("!");
    }
    let mut description = String::from_str("Duplicate attribute value found for attribute ");
    description.append(friendly_name);
    description.append("!");
    DecodingError::InvalidRawData { description }
}

/// The error for an attribute that does not occur.
pub(crate) fn missing_attribute(friendly_name: &str) -> (r: DecodingError)
    ensures
        r is MissingRawData,
{
    proof {
        reveal_strlit("Attribute ");
        reveal_strlit(" is not set!");
    }
    let mut description = String::from_str("Attribute ");
    description.append(friendly_name);
    description.append(" is not set!");
    DecodingError::MissingRawData { description }
}

/// Looks through `attributes`, in order, for the one with the key `key`:
/// it reads the value of the first, and fails at a second.
pub fn scan_field<T: AttributeValue>(
    attributes: &Vec<EventAttribute>,
    key: &str,
    friendly_name: &str,
) -> (r: FieldScan<T>)
    ensures
        r is Missing <==> key_count(attributes_view(attributes@), key@) == 0,
        r is Found <==> field_readable::<T>(attributes_view(attributes@), key@),
        r matches FieldScan::Found(v) ==> v.event_value() == T::normal_form(
            first_value(attributes_view(attributes@), key@),
        ),
        r matches FieldScan::Found(v) ==> v.canonical(),
        r matches FieldScan::Failed { at, error } ==> at < attributes@.len() && (
        error is InvalidRawData || error is Identifier),
        r is Failed <==> field_wrong::<T>(attributes_view(attributes@), key@),
{
    let ghost av = attributes_view(attributes@);
    let n = attributes.len();
    let wanted = String::from_str(key);
    let mut found: Option<T> = None;
    let mut i: usize = 0;
    assert(av.take(0) =~= Seq::<(Seq<char>, Seq<char>, bool)>::empty());
    while i < n
        invariant
            n == attributes@.len(),
            av == attributes_view(attributes@),
            wanted@ == key@,
            i <= n,
            found is None <==> key_count(av.take(i as int), key@) == 0,
            found is Some ==> key_count(av.take(i as int), key@) == 1 && T::accepts(
                first_value(av.take(i as int), key@),
            ),
            found matches Some(v) ==> v.event_value() == T::normal_form(
                first_value(av.take(i as int), key@),
            ),
            found matches Some(v) ==> v.canonical(),
        decreases n - i,
    {
        let attribute = &attributes[i];
        let ghost next = av.take(i + 1);
        assert(next.drop_last() =~= av.take(i as int));
        assert(next.last() == attribute@);
        if attribute.key == wanted {
            if found.is_none() {
                match T::parse_event_value(attribute.value.as_str()) {
                    Ok(v) => {
                        found = Some(v);
                    },
                    Err(error) => {
                        proof {
                            lemma_key_prefix(av, key@, i + 1, n as int);
                            assert(av.take(n as int) =~= av);
                        }
                        return FieldScan::Failed { at: i, error };
                    },
                }
            } else {
                proof {
                    lemma_key_prefix(av, key@, i + 1, n as int);
                    assert(av.take(n as int) =~= av);
                }
                return FieldScan::Failed { at: i, error: duplicate_attribute(friendly_name) };
            }
        }
        i = i + 1;
    }
    assert(av.take(n as int) =~= av);
    match found {
        Some(v) => FieldScan::Found(v),
        None => FieldScan::Missing,
    }
}

/// Of two failures, the one at the earlier attribute: the one that a
/// single pass over the attributes meets first.
pub(crate) fn earlier_failure(
    current: Option<(usize, DecodingError)>,
    at: usize,
    error: DecodingError,
) -> (r: Option<(usize, DecodingError)>)
    ensures
        r is Some,
        r matches Some((_, e)) ==> e == error || (current matches Some((_, c)) && e == c),
{
    match current {
        Some((seen, first)) => {
            if seen < at {
                Some((seen, first))
            } else {
                Some((at, error))
            }
        },
        None => Some((at, error)),
    }
}

} // verus!
