//! 128-bit identifiers as sixteen bytes, and the byte permutation between
//! the host's published notation and the one its files hold.

use vstd::prelude::*;

verus! {

/// A 128-bit identifier, held as its sixteen bytes in file order.
#[derive(Clone, Copy, Debug, PartialEq, Eq, Hash)]
pub struct Guid {
    bytes: [u8; 16],
}

impl View for Guid {
    type V = Seq<u8>;

    closed spec fn view(&self) -> Seq<u8> {
        self.bytes@
    }
}

/// The position whose byte the permutation moves to position `i`.
pub open spec fn partner(i: int) -> int {
    if i == 0 {
        3
    } else if i == 1 {
        2
    } else if i == 2 {
        1
    } else if i == 3 {
        0
    } else if i == 4 {
        5
    } else if i == 5 {
        4
    } else if i == 6 {
        7
    } else if i == 7 {
        6
    } else {
        i
    }
}

/// Sixteen bytes with the pairs at positions 0 and 3, 1 and 2, 4 and 5,
/// 6 and 7 exchanged.
pub open spec fn permuted(bytes: Seq<u8>) -> Seq<u8> {
    Seq::new(16, |i: int| bytes[partner(i)])
}

/// Converting an identifier twice gives it back: the permutation is its
/// own inverse.
pub proof fn lemma_ftd_uuid_to_uuid_involution(id: Guid)
    ensures
        permuted(permuted(id@)) == id@,
{
    id.lemma_view_len();
    assert(permuted(permuted(id@)) =~= id@);
}

impl Guid {
    /// Every identifier has sixteen bytes.
    pub proof fn lemma_view_len(self)
        ensures
            self@.len() == 16,
    {
    }

    /// Two identifiers with the same bytes are one identifier.
    pub proof fn lemma_view_injective(self, other: Guid)
        requires
            self@ == other@,
        ensures
            self == other,
    {
        assert(self.bytes =~= other.bytes);
    }

    /// Whether the identifier bears the marks of a random identifier: the
    /// version nibble 4 and the variant bits `10`.
    pub open spec fn is_version_four(self) -> bool {
        self@[6] & 0xf0 == 0x40 && self@[8] & 0xc0 == 0x80
    }

    pub fn from_bytes(bytes: [u8; 16]) -> (id: Guid)
        ensures
            id@ == bytes@,
    {
        Guid { bytes }
    }

    pub fn into_bytes(self) -> (bytes: [u8; 16])
        ensures
            bytes@ == self@,
    {
        self.bytes
    }

    pub fn as_bytes(&self) -> (bytes: &[u8; 16])
        ensures
            bytes@ == self@,
    {
        &self.bytes
    }

    /// Whether two identifiers hold the same bytes.
    pub fn same(&self, other: &Guid) -> (equal: bool)
        ensures
            equal == (self@ == other@),
            equal == (*self == *other),
    {
        let mut i: usize = 0;
        while i < 16
            invariant
                i <= 16,
                forall|j: int| 0 <= j < i ==> self.bytes@[j] == other.bytes@[j],
            decreases 16 - i,
        {
            if self.bytes[i] != other.bytes[i] {
                assert(self@[i as int] != other@[i as int]);
                return false;
            }
            i += 1;
        }
        assert(self.bytes@ =~= other.bytes@);
        proof {
            self.lemma_view_injective(*other);
        }
        true
    }

    /// A fresh identifier from the operating system's random source.
    ///
    /// Calls `uuid::Uuid::new_v4`. Nothing is claimed of the random bits; the
    /// version nibble and the variant bits are the ones that function sets
    /// on every identifier it returns. That function stops the program if
    /// the operating system gives it no random bytes.
    #[verifier::external_body]
    pub(crate) fn random() -> (id: Guid)
        ensures
            id@[6] & 0xf0 == 0x40,
            id@[8] & 0xc0 == 0x80,
    {
        Guid { bytes: uuid::Uuid::new_v4().into_bytes() }
    }
}

/// Converts an identifier between the host's published notation and the one
/// its files hold, by exchanging the bytes at positions 0 and 3, 1 and 2,
/// 4 and 5, 6 and 7.
pub fn ftd_uuid_to_uuid(uuid: Guid) -> (converted: Guid)
    ensures
        converted@ == permuted(uuid@),
{
    let mut bytes = uuid.into_bytes();
    let ghost before = bytes@;
    let b0: u8 = bytes[0];
    let b1: u8 = bytes[1];
    let b4: u8 = bytes[4];
    let b6: u8 = bytes[6];
    bytes[0] = bytes[3];
    bytes[3] = b0;
    bytes[1] = bytes[2];
    bytes[2] = b1;
    bytes[4] = bytes[5];
    bytes[5] = b4;
    bytes[6] = bytes[7];
    bytes[7] = b6;
    assert(bytes@ =~= permuted(before));
    Guid::from_bytes(bytes)
}

} // verus!
