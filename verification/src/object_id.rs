//! Twelve-byte identifiers of users and projects.
//!
//! The store names every document by a twelve-byte identifier, written as
//! twenty-four hexadecimal digits. The broker compares identifiers and keys
//! its sessions by them; it never looks inside one.

use vstd::prelude::*;

verus! {

/// Number of bytes in an identifier.
pub const OBJECT_ID_BYTES: usize = 12;

/// Value of one hexadecimal digit, upper or lower case.
pub open spec fn hex_digit_value(c: char) -> Option<int> {
    if '0' <= c && c <= '9' {
        Some(c as int - '0' as int)
    } else if 'a' <= c && c <= 'f' {
        Some(c as int - 'a' as int + 10)
    } else if 'A' <= c && c <= 'F' {
        Some(c as int - 'A' as int + 10)
    } else {
        None
    }
}

/// True when `s` is twenty-four hexadecimal digits.
pub open spec fn is_object_id_hex(s: Seq<char>) -> bool {
    &&& s.len() == 24
    &&& forall|i: int| 0 <= i < s.len() ==> (#[trigger] hex_digit_value(s[i])) is Some
}

/// The twelve bytes that twenty-four hexadecimal digits spell, first digit
/// highest.
pub open spec fn hex_bytes(s: Seq<char>) -> Seq<u8> {
    Seq::new(
        12,
        |i: int| (16 * hex_digit_value(s[2 * i]).unwrap() + hex_digit_value(s[2 * i + 1]).unwrap()) as u8,
    )
}

/// The lower-case digit of a value below sixteen.
pub open spec fn lower_hex_digit(v: int) -> char {
    if v < 10 {
        ('0' as int + v) as char
    } else {
        ('a' as int + v - 10) as char
    }
}

/// Lower-case hexadecimal spelling of `bytes`, two digits a byte.
pub open spec fn lower_hex(bytes: Seq<u8>) -> Seq<char> {
    Seq::new(
        2 * bytes.len(),
        |i: int|
            if i % 2 == 0 {
                lower_hex_digit(bytes[i / 2] as int / 16)
            } else {
                lower_hex_digit(bytes[i / 2] as int % 16)
            },
    )
}

/// The number that `bytes` spell in base 256, first byte highest.
pub open spec fn be_value(bytes: Seq<u8>) -> nat
    decreases bytes.len(),
{
    if bytes.len() == 0 {
        0
    } else {
        be_value(bytes.drop_last()) * 256 + bytes.last() as nat
    }
}

/// 256 to the power `n`.
pub open spec fn pow256(n: nat) -> nat
    decreases n,
{
    if n == 0 {
        1
    } else {
        256 * pow256((n - 1) as nat)
    }
}

/// A byte string of length `n` spells a number below 256 to the `n`.
pub proof fn lemma_be_value_bound(bytes: Seq<u8>)
    ensures
        be_value(bytes) < pow256(bytes.len()),
    decreases bytes.len(),
{
    if bytes.len() > 0 {
        lemma_be_value_bound(bytes.drop_last());
        let hi = be_value(bytes.drop_last());
        let p = pow256((bytes.len() - 1) as nat);
        assert(hi + 1 <= p);
        assert((hi + 1) * 256 <= p * 256) by (nonlinear_arith)
            requires
                hi + 1 <= p,
        ;
    }
}

/// Two byte strings of one length that spell the same number are the same
/// string.
pub proof fn lemma_be_value_injective(a: Seq<u8>, b: Seq<u8>)
    requires
        a.len() == b.len(),
        be_value(a) == be_value(b),
    ensures
        a == b,
    decreases a.len(),
{
    if a.len() > 0 {
        let x = be_value(a.drop_last());
        let y = be_value(b.drop_last());
        let p = a.last() as nat;
        let q = b.last() as nat;
        assert(x * 256 + p == y * 256 + q);
        assert(x == y && p == q) by (nonlinear_arith)
            requires
                x * 256 + p == y * 256 + q,
                p < 256,
                q < 256,
        ;
        lemma_be_value_injective(a.drop_last(), b.drop_last());
        assert(a =~= a.drop_last().push(a.last()));
        assert(b =~= b.drop_last().push(b.last()));
    } else {
        assert(a =~= b);
    }
}

/// Identifier of a user or of a project.
#[derive(Debug, Clone, Copy, PartialEq, Eq, Hash)]
pub struct ObjectId {
    bytes: [u8; 12],
}

impl View for ObjectId {
    type V = Seq<u8>;

    closed spec fn view(&self) -> Seq<u8> {
        self.bytes@
    }
}

impl ObjectId {
    /// The integer under which this identifier is filed: its bytes read as
    /// one number.
    pub open spec fn spec_key(self) -> u128 {
        be_value(self@) as u128
    }

    /// An identifier has twelve bytes, and its key is their value.
    pub proof fn lemma_view(self)
        ensures
            self@.len() == 12,
            self.spec_key() as nat == be_value(self@),
            be_value(self@) < pow256(12),
            pow256(12) == 0x1_0000_0000_0000_0000_0000_0000,
    {
        broadcast use vstd::array::group_array_axioms;

        lemma_be_value_bound(self@);
        assert(pow256(12) == 0x1_0000_0000_0000_0000_0000_0000) by {
            reveal_with_fuel(pow256, 13);
        }
    }

    /// Identifiers with the same key are the same identifier.
    pub proof fn lemma_key_injective(self, other: ObjectId)
        requires
            self.spec_key() == other.spec_key(),
        ensures
            self@ == other@,
    {
        self.lemma_view();
        other.lemma_view();
        lemma_be_value_injective(self@, other@);
    }

    /// The identifier made of `bytes`.
    pub fn from_bytes(bytes: [u8; 12]) -> (id: ObjectId)
        ensures
            id@ == bytes@,
    {
        ObjectId { bytes }
    }

    /// The bytes of the identifier.
    pub fn bytes(&self) -> (b: [u8; 12])
        ensures
            b@ == self@,
    {
        self.bytes
    }

    /// The integer under which this identifier is filed.
    pub fn key(&self) -> (k: u128)
        ensures
            k == self.spec_key(),
    {
        broadcast use vstd::array::group_array_axioms;

        let mut acc: u128 = 0;
        let mut i: usize = 0;
        proof {
            assert(self.bytes@.take(0) =~= Seq::<u8>::empty());
        }
        while i < 12
            invariant
                i <= 12,
                self.bytes@.len() == 12,
                acc as nat == be_value(self.bytes@.take(i as int)),
                acc < pow256(i as nat),
            decreases 12 - i,
        {
            let b: u8 = self.bytes[i];
            proof {
                let next = self.bytes@.take(i + 1);
                assert(next.drop_last() =~= self.bytes@.take(i as int));
                assert(next.last() == b);
                lemma_be_value_bound(next);
                assert(pow256((i + 1) as nat) <= pow256(12)) by {
                    reveal_with_fuel(pow256, 13);
                }
                assert(pow256(12) == 0x1_0000_0000_0000_0000_0000_0000) by {
                    reveal_with_fuel(pow256, 13);
                }
            }
            acc = acc * 256 + b as u128;
            i += 1;
        }
        proof {
            assert(self.bytes@.take(12) =~= self.bytes@);
            self.lemma_view();
        }
        acc
    }

    /// True when both identifiers have the same bytes.
    pub fn same(&self, other: &ObjectId) -> (equal: bool)
        ensures
            equal == (self@ == other@),
    {
        let equal = self.key() == other.key();
        proof {
            if equal {
                self.lemma_key_injective(*other);
            }
        }
        equal
    }

    /// Reads an identifier from twenty-four hexadecimal digits; anything else
    /// is refused.
    pub fn parse_str(s: &str) -> (r: Option<ObjectId>)
        ensures
            r is Some <==> is_object_id_hex(s@),
            r matches Some(id) ==> id@ == hex_bytes(s@),
    {
        match decode_object_id_hex(s) {
            Some(bytes) => Some(ObjectId::from_bytes(bytes)),
            None => None,
        }
    }

    /// The identifier as twenty-four lower-case hexadecimal digits.
    pub fn to_hex(&self) -> (s: String)
        ensures
            s@ == lower_hex(self@),
    {
        encode_object_id_hex(self.bytes)
    }
}

/// `bson::oid::ObjectId::parse_str`, followed by `ObjectId::bytes`.
///
/// Trusted: the call succeeds exactly on twenty-four hexadecimal digits of
/// either case, and the identifier it builds holds the bytes those digits
/// spell, two digits a byte, in order.
#[verifier::external_body]
fn decode_object_id_hex(s: &str) -> (r: Option<[u8; 12]>)
    ensures
        r is Some <==> is_object_id_hex(s@),
        r matches Some(b) ==> b@ == hex_bytes(s@),
{
    match mongodb::bson::oid::ObjectId::parse_str(s) {
        Ok(id) => Some(id.bytes()),
        Err(_) => None,
    }
}

/// `bson::oid::ObjectId::to_hex`, on the identifier built by
/// `ObjectId::from_bytes`.
///
/// Trusted: the result spells each byte as two lower-case hexadecimal digits,
/// high digit first, in order.
#[verifier::external_body]
fn encode_object_id_hex(bytes: [u8; 12]) -> (s: String)
    ensures
        s@ == lower_hex(bytes@),
{
    mongodb::bson::oid::ObjectId::from_bytes(bytes).to_hex()
}

} // verus!
