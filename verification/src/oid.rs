//! Object identifiers: twenty bytes, written as forty hexadecimal digits and
//! ordered byte by byte.

use std::cmp::Ordering;
use vstd::prelude::*;
use vstd::std_specs::cmp::{PartialEqSpecImpl, PartialOrdSpecImpl};
use vstd::string::StrSliceExecFns;
use vstd::string::StringExecFns;

verus! {

/// A twenty-byte object identifier.
#[derive(Clone, Copy, Debug, Hash, Ord)]
pub struct OID {
    pub id: [u8; 20],
}

/// Why a text is not the text of an identifier.
#[derive(Clone, Copy, Debug, PartialEq, Eq, Structural)]
pub enum ParseError {
    /// The text does not have forty characters.
    WrongLength,
    /// The text has forty characters, one of which is no hexadecimal digit.
    InvalidDigit,
}

impl View for OID {
    type V = Seq<u8>;

    open spec fn view(&self) -> Seq<u8> {
        self.id@
    }
}

/// The value of the hexadecimal digit `c`, in either case; `None` for any
/// other character.
pub open spec fn hex_value(c: char) -> Option<int> {
    if '0' <= c <= '9' {
        Some(c as int - '0' as int)
    } else if 'a' <= c <= 'f' {
        Some(c as int - 'a' as int + 10)
    } else if 'A' <= c <= 'F' {
        Some(c as int - 'A' as int + 10)
    } else {
        None
    }
}

/// The lower-case hexadecimal digit whose value is `v`.
pub open spec fn hex_digit(v: int) -> char
    recommends
        0 <= v < 16,
{
    seq!['0', '1', '2', '3', '4', '5', '6', '7', '8', '9', 'a', 'b', 'c', 'd', 'e', 'f'][v]
}

/// The byte that the digits at `2 * i` and `2 * i + 1` of `text` spell.
pub open spec fn byte_spelled(text: Seq<char>, i: int) -> int {
    16 * hex_value(text[2 * i]).unwrap() + hex_value(text[2 * i + 1]).unwrap()
}

/// The twenty bytes that forty hexadecimal digits spell.
pub open spec fn bytes_spelled(text: Seq<char>) -> Seq<u8> {
    Seq::new(20, |i: int| byte_spelled(text, i) as u8)
}

/// What parsing makes of `text`: the bytes it spells, or the reason why it
/// spells none.
pub open spec fn parsed(text: Seq<char>) -> Result<Seq<u8>, ParseError> {
    if text.len() != 40 {
        Err(ParseError::WrongLength)
    } else if exists|i: int| 0 <= i < 40 && hex_value(#[trigger] text[i]) is None {
        Err(ParseError::InvalidDigit)
    } else {
        Ok(bytes_spelled(text))
    }
}

/// The text of `bytes`: two lower-case digits for each byte, the high
/// nibble first.
pub open spec fn hex_text(bytes: Seq<u8>) -> Seq<char> {
    Seq::new(
        2 * bytes.len(),
        |i: int|
            if i % 2 == 0 {
                hex_digit(bytes[i / 2] as int / 16)
            } else {
                hex_digit(bytes[i / 2] as int % 16)
            },
    )
}

/// `a` and `b` hold the same bytes at every position below `k`.
pub open spec fn agree_below(a: Seq<u8>, b: Seq<u8>, k: int) -> bool {
    forall|j: int| 0 <= j < k ==> a[j] == b[j]
}

/// `k` is the first position at which `a` and `b` differ.
pub open spec fn first_difference(a: Seq<u8>, b: Seq<u8>, k: int) -> bool {
    0 <= k < a.len() && k < b.len() && agree_below(a, b, k) && a[k] != b[k]
}

/// `a` comes before `b`: at the first position where they differ, the byte
/// of `a` is the smaller one, both read as unsigned.
pub open spec fn precedes(a: Seq<u8>, b: Seq<u8>) -> bool {
    exists|k: int| #[trigger] first_difference(a, b, k) && a[k] < b[k]
}

/// The byte of `a` less the byte of `b` at the first position where they
/// differ, and 0 when they are equal.
pub open spec fn gap(a: Seq<u8>, b: Seq<u8>) -> int {
    if exists|k: int| first_difference(a, b, k) {
        let k = choose|k: int| first_difference(a, b, k);
        a[k] - b[k]
    } else {
        0
    }
}

/// The order of two identifiers, as a value of `Ordering`.
pub open spec fn order(a: Seq<u8>, b: Seq<u8>) -> Ordering {
    if precedes(a, b) {
        Ordering::Less
    } else if precedes(b, a) {
        Ordering::Greater
    } else {
        Ordering::Equal
    }
}

/// Two sequences differ at one place at most for the first time.
pub proof fn lemma_first_difference_unique(a: Seq<u8>, b: Seq<u8>, k1: int, k2: int)
    requires
        first_difference(a, b, k1),
        first_difference(a, b, k2),
    ensures
        k1 == k2,
{
}

/// Sequences of one length that differ below `n` differ somewhere for the
/// first time.
pub proof fn lemma_first_difference_exists(a: Seq<u8>, b: Seq<u8>, n: int)
    requires
        0 <= n <= a.len(),
        n <= b.len(),
        !agree_below(a, b, n),
    ensures
        exists|k: int| 0 <= k < n && #[trigger] first_difference(a, b, k),
    decreases n,
{
    if n > 0 {
        if agree_below(a, b, n - 1) {
            assert(first_difference(a, b, n - 1));
        } else {
            lemma_first_difference_exists(a, b, n - 1);
        }
    }
}

/// With its first difference at `k`, the gap of `a` and `b` is the gap of
/// their bytes there.
pub proof fn lemma_gap_at(a: Seq<u8>, b: Seq<u8>, k: int)
    requires
        first_difference(a, b, k),
    ensures
        gap(a, b) == a[k] - b[k],
        a[k] < b[k] <==> precedes(a, b),
        a[k] > b[k] <==> precedes(b, a),
        a != b,
{
    let c = choose|c: int| first_difference(a, b, c);
    lemma_first_difference_unique(a, b, c, k);
    assert(first_difference(b, a, k));
    if precedes(a, b) {
        let p = choose|p: int| #[trigger] first_difference(a, b, p) && a[p] < b[p];
        lemma_first_difference_unique(a, b, p, k);
    }
    if precedes(b, a) {
        let p = choose|p: int| #[trigger] first_difference(b, a, p) && b[p] < a[p];
        lemma_first_difference_unique(b, a, p, k);
    }
}

/// Sequences of one length that agree everywhere are equal, have no gap and
/// neither comes first.
pub proof fn lemma_gap_none(a: Seq<u8>, b: Seq<u8>)
    requires
        a.len() == b.len(),
        agree_below(a, b, a.len() as int),
    ensures
        a == b,
        gap(a, b) == 0,
        !precedes(a, b),
        !precedes(b, a),
{
    assert(a =~= b);
}

/// Parsing undoes formatting: the text of an identifier parses, and spells
/// the bytes it was made of.
pub proof fn lemma_parse_undoes_format(x: OID)
    ensures
        parsed(hex_text(x@)) == Ok::<Seq<u8>, ParseError>(x@),
{
    let text = hex_text(x@);
    assert(text.len() == 40);
    assert forall|i: int| 0 <= i < 40 implies hex_value(#[trigger] text[i]) is Some by {
        lemma_digit_value(x@[i / 2] as int / 16);
        lemma_digit_value(x@[i / 2] as int % 16);
    }
    assert forall|k: int| 0 <= k < 20 implies #[trigger] bytes_spelled(text)[k] == x@[k] by {
        lemma_digit_value(x@[k] as int / 16);
        lemma_digit_value(x@[k] as int % 16);
        assert(text[2 * k] == hex_digit(x@[k] as int / 16));
        assert(text[2 * k + 1] == hex_digit(x@[k] as int % 16));
    }
    assert(bytes_spelled(text) =~= x@);
}

/// The digit of a value below sixteen has that value.
pub proof fn lemma_digit_value(v: int)
    requires
        0 <= v < 16,
    ensures
        hex_value(hex_digit(v)) == Some(v),
{
}

/// A text parses if and only if it has forty characters and each is a
/// hexadecimal digit.
pub proof fn lemma_parse_fails(text: Seq<char>)
    ensures
        text.len() != 40 ==> parsed(text) == Err::<Seq<u8>, ParseError>(ParseError::WrongLength),
        (text.len() == 40 && exists|i: int| 0 <= i < 40 && hex_value(#[trigger] text[i]) is None)
            ==> parsed(text) == Err::<Seq<u8>, ParseError>(ParseError::InvalidDigit),
        parsed(text) is Ok <==> text.len() == 40 && forall|i: int|
            0 <= i < 40 ==> hex_value(#[trigger] text[i]) is Some,
{
}

/// An identifier neither precedes itself nor differs from itself.
pub proof fn lemma_order_reflexive(a: OID)
    ensures
        order(a@, a@) == Ordering::Equal,
        gap(a@, a@) == 0,
        !precedes(a@, a@),
{
    lemma_gap_none(a@, a@);
}

/// Of two identifiers exactly one holds: the first precedes the second, the
/// second precedes the first, or their bytes are equal.
pub proof fn lemma_order_total(a: OID, b: OID)
    ensures
        precedes(a@, b@) || precedes(b@, a@) || a@ == b@,
        !(precedes(a@, b@) && precedes(b@, a@)),
        !(precedes(a@, b@) && a@ == b@),
        !(precedes(b@, a@) && a@ == b@),
        order(a@, b@) == Ordering::Equal <==> a@ == b@,
{
    if agree_below(a@, b@, 20) {
        lemma_gap_none(a@, b@);
    } else {
        lemma_first_difference_exists(a@, b@, 20);
        let k = choose|k: int| 0 <= k < 20 && #[trigger] first_difference(a@, b@, k);
        lemma_gap_at(a@, b@, k);
    }
}

/// Swapping the two identifiers swaps `Less` and `Greater`, and negates the
/// gap.
pub proof fn lemma_order_antisymmetric(a: OID, b: OID)
    ensures
        precedes(a@, b@) ==> !precedes(b@, a@),
        order(a@, b@) == Ordering::Less <==> order(b@, a@) == Ordering::Greater,
        order(a@, b@) == Ordering::Equal <==> order(b@, a@) == Ordering::Equal,
        gap(a@, b@) == -gap(b@, a@),
{
    lemma_order_total(a, b);
    if agree_below(a@, b@, 20) {
        lemma_gap_none(a@, b@);
        lemma_gap_none(b@, a@);
    } else {
        lemma_first_difference_exists(a@, b@, 20);
        let k = choose|k: int| 0 <= k < 20 && #[trigger] first_difference(a@, b@, k);
        lemma_gap_at(a@, b@, k);
        assert(first_difference(b@, a@, k));
        lemma_gap_at(b@, a@, k);
    }
}

/// What precedes an identifier precedes all that it precedes.
pub proof fn lemma_order_transitive(a: OID, b: OID, c: OID)
    ensures
        precedes(a@, b@) && precedes(b@, c@) ==> precedes(a@, c@),
        a@ == b@ && precedes(b@, c@) ==> precedes(a@, c@),
        precedes(a@, b@) && b@ == c@ ==> precedes(a@, c@),
{
    if precedes(a@, b@) && precedes(b@, c@) {
        let k1 = choose|k: int| #[trigger] first_difference(a@, b@, k) && a@[k] < b@[k];
        let k2 = choose|k: int| #[trigger] first_difference(b@, c@, k) && b@[k] < c@[k];
        let k = if k1 <= k2 {
            k1
        } else {
            k2
        };
        assert(first_difference(a@, c@, k));
    }
}

/// The order is that of the bytes: where two identifiers agree below a
/// position, the smaller byte at that position decides.
pub proof fn lemma_order_bytewise(a: OID, b: OID, k: int)
    requires
        0 <= k < 20,
        agree_below(a@, b@, k),
        a@[k] < b@[k],
    ensures
        precedes(a@, b@),
        order(a@, b@) == Ordering::Less,
        gap(a@, b@) < 0,
{
    assert(first_difference(a@, b@, k));
    lemma_gap_at(a@, b@, k);
}

fn digit_of(c: char) -> (r: Option<u8>)
    ensures
        match r {
            Some(v) => hex_value(c) == Some(v as int) && v < 16,
            None => hex_value(c) is None,
        },
{
    let v: u32 = c as u32;
    if 48 <= v && v <= 57 {
        Some((v - 48) as u8)
    } else if 97 <= v && v <= 102 {
        Some((v - 87) as u8)
    } else if 65 <= v && v <= 70 {
        Some((v - 55) as u8)
    } else {
        None
    }
}

fn digit_text(v: u8) -> (r: &'static str)
    requires
        v < 16,
    ensures
        r@ == seq![hex_digit(v as int)],
{
    proof {
        reveal_strlit("0");
        reveal_strlit("1");
        reveal_strlit("2");
        reveal_strlit("3");
        reveal_strlit("4");
        reveal_strlit("5");
        reveal_strlit("6");
        reveal_strlit("7");
        reveal_strlit("8");
        reveal_strlit("9");
        reveal_strlit("a");
        reveal_strlit("b");
        reveal_strlit("c");
        reveal_strlit("d");
        reveal_strlit("e");
        reveal_strlit("f");
    }
    let r = match v {
        0 => "0",
        1 => "1",
        2 => "2",
        3 => "3",
        4 => "4",
        5 => "5",
        6 => "6",
        7 => "7",
        8 => "8",
        9 => "9",
        10 => "a",
        11 => "b",
        12 => "c",
        13 => "d",
        14 => "e",
        _ => "f",
    };
    assert(r@ =~= seq![hex_digit(v as int)]);
    r
}

fn byte_gap(x: u8, y: u8) -> (r: i32)
    ensures
        r == x - y,
{
    x as i32 - y as i32
}

/// Parses the forty hexadecimal digits of an identifier, in either case.
///
/// A text of another length is refused as `WrongLength`, and one of forty
/// characters with a character that is no hexadecimal digit as
/// `InvalidDigit`.
pub fn from_str(s: &str) -> (r: Result<OID, ParseError>)
    ensures
        match r {
            Ok(oid) => parsed(s@) == Ok::<Seq<u8>, ParseError>(oid@),
            Err(e) => parsed(s@) == Err::<Seq<u8>, ParseError>(e),
        },
{
    if s.unicode_len() != 40 {
        return Err(ParseError::WrongLength);
    }
    let mut id: [u8; 20] = [0u8; 20];
    let mut i: usize = 0;
    while i < 20
        invariant
            i <= 20,
            s@.len() == 40,
            forall|j: int| 0 <= j < 2 * i ==> hex_value(#[trigger] s@[j]) is Some,
            forall|k: int| 0 <= k < i ==> #[trigger] id@[k] == byte_spelled(s@, k),
        decreases 20 - i,
    {
        let high = digit_of(s.get_char(2 * i));
        let low = digit_of(s.get_char(2 * i + 1));
        match (high, low) {
            (Some(h), Some(l)) => {
                id[i] = h * 16 + l;
            },
            _ => {
                assert(hex_value(s@[2 * i]) is None || hex_value(s@[2 * i + 1]) is None);
                return Err(ParseError::InvalidDigit);
            },
        }
        i += 1;
    }
    assert(id@ =~= bytes_spelled(s@));
    Ok(OID { id })
}

/// Orders two identifiers byte by byte, the bytes read as unsigned: the
/// result is the difference of the first pair of bytes that differ, and 0
/// when there is none.
pub fn git_oid_cmp(a: &OID, b: &OID) -> (r: i32)
    ensures
        r == gap(a@, b@),
        r == 0 <==> a@ == b@,
        r < 0 <==> precedes(a@, b@),
        r > 0 <==> precedes(b@, a@),
{
    let mut idx: usize = 0;
    while idx < 20
        invariant
            idx <= 20,
            forall|j: int| 0 <= j < idx ==> a@[j] == b@[j],
        decreases 20 - idx,
    {
        if a.id[idx] != b.id[idx] {
            proof {
                lemma_found_difference(*a, *b, idx);
            }
            return byte_gap(a.id[idx], b.id[idx]);
        }
        idx += 1;
    }
    proof {
        lemma_gap_none(a@, b@);
    }
    0
}

proof fn lemma_found_difference(a: OID, b: OID, k: usize)
    requires
        k < 20,
        forall|j: int| 0 <= j < k ==> a@[j] == b@[j],
        a@[k as int] != b@[k as int],
    ensures
        gap(a@, b@) == a@[k as int] - b@[k as int],
        a@[k as int] < b@[k as int] <==> precedes(a@, b@),
        a@[k as int] > b@[k as int] <==> precedes(b@, a@),
        a@ != b@,
{
    assert(first_difference(a@, b@, k as int));
    lemma_gap_at(a@, b@, k as int);
}

impl OID {
    /// The identifier with the given bytes.
    pub fn new(id: [u8; 20]) -> (r: OID)
        ensures
            r@ == id@,
    {
        OID { id }
    }

    /// The text of the identifier: forty lower-case hexadecimal digits.
    pub fn to_str(&self) -> (r: String)
        ensures
            r@ == hex_text(self@),
    {
        let mut text = String::new();
        let mut i: usize = 0;
        while i < 20
            invariant
                i <= 20,
                text@ == hex_text(self@).take(2 * i),
            decreases 20 - i,
        {
            let byte = self.id[i];
            text.append(digit_text(byte / 16));
            text.append(digit_text(byte % 16));
            assert(text@ =~= hex_text(self@).take(2 * (i + 1)));
            i += 1;
        }
        assert(text@ =~= hex_text(self@));
        text
    }

    /// The order of `self` and `other`, byte by byte and unsigned.
    pub fn cmp(&self, other: &OID) -> (r: Ordering)
        ensures
            r == order(self@, other@),
    {
        let d = git_oid_cmp(self, other);
        if d < 0 {
            Ordering::Less
        } else if d == 0 {
            Ordering::Equal
        } else {
            Ordering::Greater
        }
    }
}

impl std::str::FromStr for OID {
    type Err = ParseError;

    /// Parses the forty hexadecimal digits of an identifier, as the
    /// function `from_str` of this module does.
    fn from_str(s: &str) -> (r: Result<OID, ParseError>)
        ensures
            match r {
                Ok(oid) => parsed(s@) == Ok::<Seq<u8>, ParseError>(oid@),
                Err(e) => parsed(s@) == Err::<Seq<u8>, ParseError>(e),
            },
    {
        self::from_str(s)
    }
}

impl PartialEq for OID {
    fn eq(&self, other: &OID) -> (r: bool) {
        git_oid_cmp(self, other) == 0
    }

    fn ne(&self, other: &OID) -> (r: bool) {
        git_oid_cmp(self, other) != 0
    }
}

impl PartialEqSpecImpl for OID {
    open spec fn obeys_eq_spec() -> bool {
        true
    }

    open spec fn eq_spec(&self, other: &OID) -> bool {
        self@ == other@
    }
}

impl Eq for OID {

}

impl PartialOrd for OID {
    fn partial_cmp(&self, other: &OID) -> (r: Option<Ordering>) {
        Some(self.cmp(other))
    }

    fn lt(&self, other: &OID) -> (r: bool) {
        git_oid_cmp(self, other) < 0
    }

    fn le(&self, other: &OID) -> (r: bool) {
        git_oid_cmp(self, other) <= 0
    }

    fn gt(&self, other: &OID) -> (r: bool) {
        git_oid_cmp(self, other) > 0
    }

    fn ge(&self, other: &OID) -> (r: bool) {
        git_oid_cmp(self, other) >= 0
    }
}

impl PartialOrdSpecImpl for OID {
    open spec fn obeys_partial_cmp_spec() -> bool {
        true
    }

    open spec fn partial_cmp_spec(&self, other: &OID) -> Option<Ordering> {
        Some(order(self@, other@))
    }
}

} // verus!
