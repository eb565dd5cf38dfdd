use vstd::prelude::*;

use rand_core::OsRng;

use crate::errors::InvalidLength;
use crate::random::random_bytes;

verus! {

/// Sub-nonce fed to the HChaCha20 key derivation.
pub type HChaCha20Nonce = [u8; 16];

/// Initial running nonce of the chunk cipher.
pub type Nonce = [u8; 8];

/// Header of the secret stream, can be sent as cleartext.
#[derive(Clone, Copy, Debug, Eq)]
pub struct Header(pub [u8; 24]);

impl View for Header {
    type V = Seq<u8>;

    open spec fn view(&self) -> Seq<u8> {
        self.0@
    }
}

/// The first 16 bytes of a header: the sub-nonce.
pub open spec fn sub_nonce_of(bytes: Seq<u8>) -> Seq<u8> {
    bytes.subrange(0, 16)
}

/// The bytes that follow the sub-nonce: the running nonce.
pub open spec fn running_nonce_of(bytes: Seq<u8>) -> Seq<u8> {
    bytes.subrange(16, 24)
}

impl Header {
    /// Number of bytes used by the serialisation.
    pub const BYTES: usize = 24;

    /// Number of bytes of the sub-nonce, taken from the front of the header.
    pub const SUB_NONCE_BYTES: usize = 16;

    /// Number of bytes of the running nonce, taken from the back of the header.
    pub const NONCE_BYTES: usize = 8;

    /// Generate a new random [`Header`]: all 24 bytes are fresh output of the
    /// operating system's cryptographically secure source. Nothing is known of
    /// the bytes themselves; see `random_bytes`.
    pub fn generate(csprng: &mut OsRng) -> (r: Self)
        ensures
            r@.len() == Header::BYTES,
    {
        Header::from(random_bytes(csprng))
    }

    /// Extract the contained nonces: the first 16 bytes become the sub-nonce,
    /// the last 8 bytes the running nonce. The header is consumed, so the
    /// same nonce material cannot be split twice.
    pub fn split(self) -> (r: (HChaCha20Nonce, Nonce))
        ensures
            r.0@ == sub_nonce_of(self@),
            r.1@ == running_nonce_of(self@),
    {
        let mut sub: [u8; 16] = [0u8; 16];
        let mut i: usize = 0;
        while i < Header::SUB_NONCE_BYTES
            invariant
                i <= 16,
                forall|j: int| 0 <= j < i ==> sub@[j] == self@[j],
            decreases 16 - i,
        {
            sub[i] = self.0[i];
            i = i + 1;
        }
        let mut nonce: [u8; 8] = [0u8; 8];
        let mut k: usize = 0;
        while k < Header::NONCE_BYTES
            invariant
                k <= 8,
                forall|j: int| 0 <= j < k ==> nonce@[j] == self@[16 + j],
            decreases 8 - k,
        {
            nonce[k] = self.0[Header::SUB_NONCE_BYTES + k];
            k = k + 1;
        }
        assert(sub@ =~= sub_nonce_of(self@));
        assert(nonce@ =~= running_nonce_of(self@));
        (sub, nonce)
    }
}

impl PartialEq for Header {
    /// Byte-for-byte equality; the header is public, so no constant-time
    /// comparison is needed.
    fn eq(&self, other: &Header) -> (r: bool)
        ensures
            r == (self@ == other@),
    {
        let mut i: usize = 0;
        while i < Header::BYTES
            invariant
                i <= Header::BYTES,
                forall|j: int| 0 <= j < i ==> self@[j] == other@[j],
            decreases Header::BYTES - i,
        {
            if self.0[i] != other.0[i] {
                return false;
            }
            i = i + 1;
        }
        assert(self@ =~= other@);
        true
    }
}

impl vstd::std_specs::cmp::PartialEqSpecImpl for Header {
    open spec fn obeys_eq_spec() -> bool {
        true
    }

    open spec fn eq_spec(&self, other: &Header) -> bool {
        self@ == other@
    }
}

impl From<[u8; 24]> for Header {
    fn from(value: [u8; 24]) -> (r: Self)
        ensures
            r@ == value@,
    {
        Header(value)
    }
}

impl vstd::std_specs::convert::FromSpecImpl<[u8; 24]> for Header {
    open spec fn obeys_from_spec() -> bool {
        true
    }

    open spec fn from_spec(value: [u8; 24]) -> Header {
        Header(value)
    }
}

impl From<&[u8; 24]> for Header {
    fn from(value: &[u8; 24]) -> (r: Self)
        ensures
            r@ == value@,
    {
        Header::from(*value)
    }
}

impl vstd::std_specs::convert::FromSpecImpl<&[u8; 24]> for Header {
    open spec fn obeys_from_spec() -> bool {
        true
    }

    open spec fn from_spec(value: &[u8; 24]) -> Header {
        Header(*value)
    }
}

/// What reconstructing a header from `bytes` gives: the header holding
/// exactly those bytes when there are 24 of them, and otherwise the
/// length error.
pub open spec fn header_from_bytes(bytes: Seq<u8>) -> Result<Header, InvalidLength> {
    if bytes.len() == 24 {
        Ok(choose|h: Header| h@ == bytes)
    } else {
        Err(InvalidLength { expected: 24, actual: bytes.len() as usize })
    }
}

impl<'a> TryFrom<&'a [u8]> for Header {
    type Error = InvalidLength;

    fn try_from(slice: &'a [u8]) -> (r: Result<Self, InvalidLength>)
        ensures
            r == header_from_bytes(slice@),
            r is Ok <==> slice@.len() == 24,
            r matches Ok(h) ==> h@ == slice@,
            r matches Err(e) ==> e.expected == 24 && e.actual == slice@.len(),
    {
        if slice.len() != Header::BYTES {
            return Err(InvalidLength::new(Header::BYTES, slice.len()));
        }
        let mut array: [u8; 24] = [0u8; 24];
        let mut i: usize = 0;
        while i < Header::BYTES
            invariant
                i <= 24,
                slice@.len() == 24,
                forall|j: int| 0 <= j < i ==> array@[j] == slice@[j],
            decreases 24 - i,
        {
            array[i] = slice[i];
            i = i + 1;
        }
        let h = Header::from(array);
        assert(h@ =~= slice@);
        proof {
            let c = choose|c: Header| c@ == slice@;
            assert(c@ == slice@);
            assert(c.0@ =~= h.0@);
            assert(c.0 == h.0);
        }
        Ok(h)
    }
}

impl<'a> vstd::std_specs::convert::TryFromSpecImpl<&'a [u8]> for Header {
    open spec fn obeys_try_from_spec() -> bool {
        true
    }

    open spec fn try_from_spec(slice: &'a [u8]) -> Result<Header, InvalidLength> {
        header_from_bytes(slice@)
    }
}

impl AsRef<[u8; 24]> for Header {
    fn as_ref(&self) -> (r: &[u8; 24])
        ensures
            r@ == self@,
    {
        &self.0
    }
}

impl AsMut<[u8; 24]> for Header {
    fn as_mut(&mut self) -> (r: &mut [u8; 24])
        ensures
            *r == old(self).0,
            final(self).0 == *final(r),
    {
        &mut self.0
    }
}

/// Building a header from 24 bytes and reading its bytes back gives those
/// bytes, and reconstructing from the same bytes as a slice gives the same
/// header.
pub proof fn lemma_bytes_round_trip(bytes: [u8; 24])
    ensures
        Header(bytes)@ == bytes@,
        header_from_bytes(bytes@) == Ok::<Header, InvalidLength>(Header(bytes)),
{
    let c = choose|c: Header| c@ == bytes@;
    assert(Header(bytes)@ == bytes@);
    assert(c.0@ =~= bytes@);
    assert(c.0 == bytes);
}

/// Every header is reconstructed exactly from its own 24 bytes: writing a
/// header out as bytes and reading it back loses nothing.
pub proof fn lemma_reconstruct_from_own_bytes(h: Header)
    ensures
        header_from_bytes(h@) == Ok::<Header, InvalidLength>(h),
{
    lemma_bytes_round_trip(h.0);
}

/// Reconstruction from a byte sequence whose length is not 24 fails, and the
/// error reports 24 as expected and the sequence's length as actual.
pub proof fn lemma_wrong_length_rejected(bytes: Seq<u8>)
    requires
        bytes.len() != 24,
        bytes.len() <= usize::MAX,
    ensures
        header_from_bytes(bytes) matches Err(e) && e.expected == 24 && e.actual == bytes.len(),
{
}

/// Splitting is a positional partition: the sub-nonce is exactly the first 16
/// bytes, the running nonce exactly the last 8, and the two concatenated in
/// that order are the header's 24 bytes.
pub proof fn lemma_split_partition(h: Header)
    ensures
        sub_nonce_of(h@).len() == 16,
        running_nonce_of(h@).len() == 8,
        forall|i: int| 0 <= i < 16 ==> sub_nonce_of(h@)[i] == h@[i],
        forall|i: int| 0 <= i < 8 ==> running_nonce_of(h@)[i] == h@[16 + i],
        sub_nonce_of(h@) + running_nonce_of(h@) == h@,
{
    assert(sub_nonce_of(h@) + running_nonce_of(h@) =~= h@);
}

/// Headers built from different random bytes differ: whatever distinguishes
/// two draws of the source distinguishes the two headers.
pub proof fn lemma_distinct_bytes_distinct_headers(a: [u8; 24], b: [u8; 24])
    requires
        a@ != b@,
    ensures
        !vstd::std_specs::cmp::PartialEqSpec::eq_spec(&Header(a), &Header(b)),
        Header(a) != Header(b),
{
}

} // verus!
