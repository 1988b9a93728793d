//! Who made a change and when: a name, an address and a time with the
//! offset of its time zone.

use std::cmp::Ordering;
use vstd::prelude::*;
use vstd::std_specs::cmp::{PartialEqSpecImpl, PartialOrdSpecImpl};
use vstd::utf8::{decode_utf8, encode_utf8, encode_utf8_decode_utf8};
use crate::buffer::{holds_nul, is_c_string, lemma_c_string_of_terminated, terminated, to_c_str};

verus! {

/// A point in time as the author's clock showed it.
#[derive(Clone, Copy, Debug)]
pub struct Time {
    /// Seconds since the epoch.
    pub time: i64,
    /// Offset of the time zone, in minutes.
    pub offset: i64,
}

/// The name and address of a person, and the time of the action.
#[derive(Clone, Debug)]
pub struct Signature {
    pub name: String,
    pub email: String,
    pub when: Time,
}

/// A signature in the form the engine takes: the texts as bytes that end in
/// one zero byte, the offset as a C `int`.
#[derive(Clone, Debug)]
pub struct RawSignature {
    pub name: Vec<u8>,
    pub email: Vec<u8>,
    pub time: i64,
    pub offset: i32,
}

/// The instant that `t` names: its seconds, moved by its offset.
pub open spec fn instant(t: Time) -> int {
    t.time + t.offset * 60
}

/// `d`, held to the range of `i64`.
pub open spec fn saturated(d: int) -> int {
    if d < i64::MIN {
        i64::MIN as int
    } else if d > i64::MAX {
        i64::MAX as int
    } else {
        d
    }
}

/// The order of two times by their instants.
pub open spec fn time_order(a: Time, b: Time) -> Ordering {
    if instant(a) < instant(b) {
        Ordering::Less
    } else if instant(a) == instant(b) {
        Ordering::Equal
    } else {
        Ordering::Greater
    }
}

/// A signature can be handed to the engine when neither text holds a zero
/// byte and the offset fits a C `int`.
pub open spec fn representable(sig: Signature) -> bool {
    &&& !holds_nul(encode_utf8(sig.name@))
    &&& !holds_nul(encode_utf8(sig.email@))
    &&& i32::MIN <= sig.when.offset <= i32::MAX
}

/// The order of times is the order of their instants: it is total, and
/// times of one instant are equal whatever their offsets.
pub proof fn lemma_time_order_total(a: Time, b: Time, c: Time)
    ensures
        time_order(a, a) == Ordering::Equal,
        time_order(a, b) == Ordering::Equal <==> instant(a) == instant(b),
        time_order(a, b) == Ordering::Less <==> time_order(b, a) == Ordering::Greater,
        time_order(a, b) == Ordering::Less && time_order(b, c) == Ordering::Less ==> time_order(
            a,
            c,
        ) == Ordering::Less,
        time_order(a, b) == Ordering::Equal ==> time_order(a, c) == time_order(b, c),
{
}

/// What `to_c_sig` hands to the engine reads back as it was: the C string
/// in each text of the engine's form is the UTF-8 of the text it was made
/// of, and decodes to that text.
pub proof fn lemma_texts_read_back(sig: Signature)
    requires
        representable(sig),
    ensures
        is_c_string(terminated(encode_utf8(sig.name@)), encode_utf8(sig.name@)),
        is_c_string(terminated(encode_utf8(sig.email@)), encode_utf8(sig.email@)),
        decode_utf8(encode_utf8(sig.name@)) == sig.name@,
        decode_utf8(encode_utf8(sig.email@)) == sig.email@,
{
    lemma_c_string_of_terminated(encode_utf8(sig.name@));
    lemma_c_string_of_terminated(encode_utf8(sig.email@));
    encode_utf8_decode_utf8(sig.name@);
    encode_utf8_decode_utf8(sig.email@);
}

fn seconds_of(t: &Time) -> (r: i128)
    ensures
        r == instant(*t),
{
    t.time as i128 + (t.offset as i128) * 60
}

fn held_to_i64(d: i128) -> (r: i64)
    ensures
        r == saturated(d as int),
{
    if d < i64::MIN as i128 {
        i64::MIN
    } else if d > i64::MAX as i128 {
        i64::MAX
    } else {
        d as i64
    }
}

fn narrowed(offset: i64) -> (r: Option<i32>)
    ensures
        r is Some <==> i32::MIN <= offset <= i32::MAX,
        r matches Some(v) ==> v == offset,
{
    if offset < i32::MIN as i64 || offset > i32::MAX as i64 {
        None
    } else {
        Some(offset as i32)
    }
}

fn widened(offset: i32) -> (r: i64)
    ensures
        r == offset,
{
    offset as i64
}

/// The signature in the engine's form.
///
/// There is none where a text holds a zero byte, which would end it early,
/// or where the offset does not fit a C `int`.
pub fn to_c_sig(sig: &Signature) -> (r: Option<RawSignature>)
    ensures
        r is Some <==> representable(*sig),
        r matches Some(raw) ==> {
            &&& raw.name@ == terminated(encode_utf8(sig.name@))
            &&& raw.email@ == terminated(encode_utf8(sig.email@))
            &&& raw.time == sig.when.time
            &&& raw.offset == sig.when.offset
        },
{
    let name = to_c_str(sig.name.as_str());
    let email = to_c_str(sig.email.as_str());
    let offset = narrowed(sig.when.offset);
    match (name, email, offset) {
        (Some(name), Some(email), Some(offset)) => Some(
            RawSignature { name, email, time: sig.when.time, offset },
        ),
        _ => None,
    }
}

/// The signature that the engine holds as the given texts, seconds and
/// offset.
pub fn from_c_sig(name: String, email: String, time: i64, offset: i32) -> (r: Signature)
    ensures
        r.name == name,
        r.email == email,
        r.when.time == time,
        r.when.offset == offset,
{
    Signature { name, email, when: Time { time, offset: widened(offset) } }
}

/// The seconds by which the instant of `a` is later than that of `b`, held
/// to the range of `i64`: negative, zero or positive as `a` is earlier than,
/// at or later than `b`.
pub fn time_cmp(a: &Time, b: &Time) -> (r: i64)
    ensures
        r == saturated(instant(*a) - instant(*b)),
        r < 0 <==> instant(*a) < instant(*b),
        r == 0 <==> instant(*a) == instant(*b),
{
    held_to_i64(seconds_of(a) - seconds_of(b))
}

impl Time {
    /// The two times name one instant.
    pub fn equals(&self, other: &Time) -> (r: bool)
        ensures
            r <==> instant(*self) == instant(*other),
    {
        time_cmp(self, other) == 0
    }

    /// The order of the instants of `self` and `other`.
    pub fn cmp(&self, other: &Time) -> (r: Ordering)
        ensures
            r == time_order(*self, *other),
    {
        let res = time_cmp(self, other);
        if res < 0 {
            Ordering::Less
        } else if res == 0 {
            Ordering::Equal
        } else {
            Ordering::Greater
        }
    }
}

impl PartialEq for Time {
    fn eq(&self, other: &Time) -> (r: bool) {
        self.equals(other)
    }
}

impl PartialEqSpecImpl for Time {
    open spec fn obeys_eq_spec() -> bool {
        true
    }

    open spec fn eq_spec(&self, other: &Time) -> bool {
        instant(*self) == instant(*other)
    }
}

impl Eq for Time {

}

impl PartialOrd for Time {
    fn partial_cmp(&self, other: &Time) -> (r: Option<Ordering>) {
        Some(self.cmp(other))
    }

    fn lt(&self, other: &Time) -> (r: bool) {
        time_cmp(self, other) < 0
    }
}

impl PartialOrdSpecImpl for Time {
    open spec fn obeys_partial_cmp_spec() -> bool {
        true
    }

    open spec fn partial_cmp_spec(&self, other: &Time) -> Option<Ordering> {
        Some(time_order(*self, *other))
    }
}

impl PartialEq for Signature {
    fn eq(&self, other: &Signature) -> (r: bool) {
        self.name == other.name && self.email == other.email && self.when == other.when
    }
}

impl PartialEqSpecImpl for Signature {
    open spec fn obeys_eq_spec() -> bool {
        true
    }

    open spec fn eq_spec(&self, other: &Signature) -> bool {
        &&& self.name@ == other.name@
        &&& self.email@ == other.email@
        &&& instant(self.when) == instant(other.when)
    }
}

impl Eq for Signature {

}

} // verus!
