use vstd::prelude::*;

use crate::util::{bytes_eq, copy_bytes};

verus! {

/// All bytes of a sequence are zero.
pub open spec fn all_zero(s: Seq<u8>) -> bool {
    forall|i: int| 0 <= i < s.len() ==> s[i] == 0u8
}

/// A 32-byte content-addressed identifier: a puzzle hash, a coin id, or a
/// block header hash.
#[derive(Debug)]
pub struct Hash32 {
    pub(crate) bytes: Vec<u8>,
}

impl Hash32 {
    pub closed spec fn view(self) -> Seq<u8> {
        self.bytes@
    }

    pub closed spec fn wf(self) -> bool {
        self.bytes@.len() == 32
    }

    /// Wraps exactly 32 bytes; rejects any other length.
    pub fn from_bytes(bytes: Vec<u8>) -> (r: Option<Hash32>)
        ensures
            bytes@.len() == 32 ==> (r matches Some(h) && h@ == bytes@ && h.wf()),
            bytes@.len() != 32 ==> r is None,
    {
        if bytes.len() == 32 {
            Some(Hash32 { bytes })
        } else {
            None
        }
    }

    /// The identifier consisting of 32 zero bytes. A coin whose parent field
    /// holds this value is being freshly created and has no prior history.
    pub fn zeros() -> (r: Hash32)
        ensures
            r.wf(),
            all_zero(r@),
    {
        let mut bytes: Vec<u8> = Vec::new();
        let mut i: usize = 0;
        while i < 32
            invariant
                i <= 32,
                bytes@.len() == i,
                all_zero(bytes@),
            decreases 32 - i,
        {
            bytes.push(0u8);
            i = i + 1;
        }
        Hash32 { bytes }
    }

    /// Whether every byte is zero.
    pub fn is_zero(&self) -> (r: bool)
        ensures
            r == all_zero(self@),
    {
        let mut i: usize = 0;
        while i < self.bytes.len()
            invariant
                i <= self.bytes@.len(),
                forall|j: int| 0 <= j < i ==> self.bytes@[j] == 0u8,
            decreases self.bytes@.len() - i,
        {
            if self.bytes[i] != 0 {
                return false;
            }
            i = i + 1;
        }
        true
    }

    /// Whether the identifier holds exactly 32 bytes.
    pub fn is_well_formed(&self) -> (r: bool)
        ensures
            r == self.wf(),
    {
        self.bytes.len() == 32
    }

    pub fn dup(&self) -> (r: Hash32)
        ensures
            r@ == self@,
            r.wf() == self.wf(),
    {
        Hash32 { bytes: copy_bytes(&self.bytes) }
    }

    /// The underlying bytes, copied out.
    pub fn to_vec(&self) -> (r: Vec<u8>)
        ensures
            r@ == self@,
    {
        copy_bytes(&self.bytes)
    }
}

impl PartialEq for Hash32 {
    fn eq(&self, other: &Hash32) -> (r: bool) {
        bytes_eq(&self.bytes, &other.bytes)
    }
}

impl vstd::std_specs::cmp::PartialEqSpecImpl for Hash32 {
    open spec fn obeys_eq_spec() -> bool {
        true
    }

    open spec fn eq_spec(&self, other: &Hash32) -> bool {
        self@ == other@
    }
}

impl Eq for Hash32 {

}

/// The 48-byte serialized form of a BLS public key.
#[derive(Debug)]
pub struct PublicKeyBytes {
    pub(crate) bytes: Vec<u8>,
}

impl PublicKeyBytes {
    pub closed spec fn view(self) -> Seq<u8> {
        self.bytes@
    }

    pub closed spec fn wf(self) -> bool {
        self.bytes@.len() == 48
    }

    /// Wraps exactly 48 bytes; rejects any other length. The bytes are not
    /// checked to be a valid curve point here; key material accepted from
    /// outside goes through the validating parser instead.
    pub fn from_bytes(bytes: Vec<u8>) -> (r: Option<PublicKeyBytes>)
        ensures
            bytes@.len() == 48 ==> (r matches Some(k) && k@ == bytes@ && k.wf()),
            bytes@.len() != 48 ==> r is None,
    {
        if bytes.len() == 48 {
            Some(PublicKeyBytes { bytes })
        } else {
            None
        }
    }

    pub fn dup(&self) -> (r: PublicKeyBytes)
        ensures
            r@ == self@,
            r.wf() == self.wf(),
    {
        PublicKeyBytes { bytes: copy_bytes(&self.bytes) }
    }

    pub fn to_vec(&self) -> (r: Vec<u8>)
        ensures
            r@ == self@,
    {
        copy_bytes(&self.bytes)
    }
}

impl PartialEq for PublicKeyBytes {
    fn eq(&self, other: &PublicKeyBytes) -> (r: bool) {
        bytes_eq(&self.bytes, &other.bytes)
    }
}

impl vstd::std_specs::cmp::PartialEqSpecImpl for PublicKeyBytes {
    open spec fn obeys_eq_spec() -> bool {
        true
    }

    open spec fn eq_spec(&self, other: &PublicKeyBytes) -> bool {
        self@ == other@
    }
}

impl Eq for PublicKeyBytes {

}

/// The 32-byte serialized form of a BLS secret key.
#[derive(Debug)]
pub struct SecretKeyBytes {
    pub(crate) bytes: Vec<u8>,
}

impl SecretKeyBytes {
    pub closed spec fn view(self) -> Seq<u8> {
        self.bytes@
    }

    pub closed spec fn wf(self) -> bool {
        self.bytes@.len() == 32
    }

    /// Wraps exactly 32 bytes; rejects any other length.
    pub fn from_bytes(bytes: Vec<u8>) -> (r: Option<SecretKeyBytes>)
        ensures
            bytes@.len() == 32 ==> (r matches Some(k) && k@ == bytes@ && k.wf()),
            bytes@.len() != 32 ==> r is None,
    {
        if bytes.len() == 32 {
            Some(SecretKeyBytes { bytes })
        } else {
            None
        }
    }

    pub fn dup(&self) -> (r: SecretKeyBytes)
        ensures
            r@ == self@,
            r.wf() == self.wf(),
    {
        SecretKeyBytes { bytes: copy_bytes(&self.bytes) }
    }

    pub fn to_vec(&self) -> (r: Vec<u8>)
        ensures
            r@ == self@,
    {
        copy_bytes(&self.bytes)
    }
}

/// The 96-byte serialized form of an aggregated BLS signature.
#[derive(Debug)]
pub struct SignatureBytes {
    pub(crate) bytes: Vec<u8>,
}

impl SignatureBytes {
    pub closed spec fn view(self) -> Seq<u8> {
        self.bytes@
    }

    pub closed spec fn wf(self) -> bool {
        self.bytes@.len() == 96
    }

    /// Wraps exactly 96 bytes; rejects any other length.
    pub fn from_bytes(bytes: Vec<u8>) -> (r: Option<SignatureBytes>)
        ensures
            bytes@.len() == 96 ==> (r matches Some(s) && s@ == bytes@ && s.wf()),
            bytes@.len() != 96 ==> r is None,
    {
        if bytes.len() == 96 {
            Some(SignatureBytes { bytes })
        } else {
            None
        }
    }

    pub fn dup(&self) -> (r: SignatureBytes)
        ensures
            r@ == self@,
            r.wf() == self.wf(),
    {
        SignatureBytes { bytes: copy_bytes(&self.bytes) }
    }

    pub fn to_vec(&self) -> (r: Vec<u8>)
        ensures
            r@ == self@,
    {
        copy_bytes(&self.bytes)
    }
}

} // verus!
