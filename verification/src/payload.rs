//! Payloads: the values that travel in requests and responses. A payload is
//! a record of named text fields; the two interchange formats are defined on
//! such records.

use crate::fields::{as_map, has_name, lookup, Entries, Fields};
use crate::text::join;
use vstd::prelude::*;

verus! {

/// A value that can be written as named text fields and read back from them.
pub trait Payload: Sized {
    /// The named fields that stand for the value, in the order in which they
    /// are written.
    open spec fn fields(&self) -> Entries {
        arbitrary()
    }

    /// What reading a value of this type from `members` gives: the fields of
    /// the value, or the reason why there is none.
    open spec fn read(members: Map<Seq<char>, Seq<char>>) -> Result<Entries, Seq<char>> {
        arbitrary()
    }

    /// Writes the value as named fields.
    fn to_fields(&self) -> (r: Fields)
        ensures
            r.entries() == self.fields(),
    ;

    /// Reads a value from named fields.
    fn from_fields(fields: &Fields) -> (r: Result<Self, String>)
        ensures
            (match r {
                Ok(value) => Ok::<Entries, Seq<char>>(value.fields()),
                Err(reason) => Err::<Entries, Seq<char>>(reason@),
            }) == Self::read(fields@),
    ;
}

/// Whether a value is read back from its own fields.
pub open spec fn reads_back<P: Payload>(value: P) -> bool {
    P::read(as_map(value.fields())) == Ok::<Entries, Seq<char>>(value.fields())
}

/// The reason given where a field that a payload needs is not there.
pub open spec fn missing_field(name: Seq<char>) -> Seq<char> {
    "missing field `"@ + name + "`"@
}

/// The value of the member called `name`, or the reason why it cannot be had.
pub open spec fn member(members: Map<Seq<char>, Seq<char>>, name: Seq<char>) -> Result<
    Seq<char>,
    Seq<char>,
> {
    if members.dom().contains(name) {
        Ok(members[name])
    } else {
        Err(missing_field(name))
    }
}

/// The value of the field called `name`, for a payload that cannot do without
/// it.
pub fn required(fields: &Fields, name: &str) -> (r: Result<String, String>)
    ensures
        crate::codec::text_of(r) == member(fields@, name@),
{
    match fields.get(name) {
        Some(value) => Ok(value.clone()),
        None => {
            let mut reason = join("missing field `", name);
            reason.append("`");
            Err(reason)
        },
    }
}

/// The payload with the one field `name`, holding `value`.
pub open spec fn single(name: Seq<char>, value: Seq<char>) -> Entries {
    seq![(name, value)]
}

/// What reading a payload with the one field `name` from `members` gives.
pub open spec fn read_single(members: Map<Seq<char>, Seq<char>>, name: Seq<char>) -> Result<
    Entries,
    Seq<char>,
> {
    match member(members, name) {
        Ok(value) => Ok(single(name, value)),
        Err(reason) => Err(reason),
    }
}

/// A payload with one field is read back from its own fields.
pub proof fn lemma_single_read_back(name: Seq<char>, value: Seq<char>)
    ensures
        read_single(as_map(single(name, value)), name) == Ok::<Entries, Seq<char>>(
            single(name, value),
        ),
{
    let entries = single(name, value);
    crate::fields::lemma_index_of_is(entries, name, 0);
    assert(has_name(entries, name));
    assert(lookup(entries, name) == Some(value));
}

/// The fields of a payload with the one field `name`.
pub fn single_field(name: &str, value: &str) -> (r: Fields)
    ensures
        r.entries() == single(name@, value@),
{
    let mut fields = Fields::new();
    fields.insert(name, value);
    proof {
        crate::fields::lemma_index_of_is(Entries::empty(), name@, 0);
        assert(fields.entries() =~= single(name@, value@));
    }
    fields
}

} // verus!
