//! Account addresses.

use vstd::prelude::*;
use vstd::std_specs::cmp::PartialEqSpecImpl;

verus! {

/// The address of an account on the ledger: an identity (a party that can
/// authorize calls) or a location (a holding of tokens).
#[derive(Clone, Copy, Debug, Eq)]
pub struct Pubkey {
    pub bytes: [u8; 32],
}

impl View for Pubkey {
    type V = Seq<u8>;

    open spec fn view(&self) -> Seq<u8> {
        self.bytes@
    }
}

impl Pubkey {
    /// The address with the given bytes.
    pub fn new_from_array(pubkey_array: [u8; 32]) -> (key: Pubkey)
        ensures
            key.bytes == pubkey_array,
            key@ == pubkey_array@,
    {
        Pubkey { bytes: pubkey_array }
    }

    /// The bytes of the address.
    pub fn to_bytes(&self) -> (bytes: [u8; 32])
        ensures
            bytes == self.bytes,
            bytes@ == self@,
    {
        self.bytes
    }

    /// Reads an address from the 32 bytes of `bytes` that start at `start`.
    pub(crate) fn read_from(bytes: &[u8], start: usize) -> (key: Pubkey)
        requires
            start + 32 <= bytes@.len(),
        ensures
            key@ == bytes@.subrange(start as int, start + 32),
    {
        let len = bytes.len();
        let mut array = [0u8; 32];
        let mut i: usize = 0;
        while i < 32
            invariant
                i <= 32,
                start + 32 <= len == bytes@.len(),
                forall|j: int| 0 <= j < i ==> array@[j] == bytes@[start + j],
            decreases 32 - i,
        {
            array[i] = bytes[start + i];
            i += 1;
        }
        assert(array@ =~= bytes@.subrange(start as int, start + 32));
        Pubkey { bytes: array }
    }

    /// Appends the 32 bytes of the address to `bytes`.
    pub fn write_to(&self, bytes: &mut Vec<u8>)
        ensures
            final(bytes)@ == old(bytes)@ + self@,
    {
        let mut i: usize = 0;
        while i < 32
            invariant
                i <= 32,
                bytes@ == old(bytes)@ + self@.subrange(0, i as int),
            decreases 32 - i,
        {
            bytes.push(self.bytes[i]);
            i += 1;
            assert(bytes@ =~= old(bytes)@ + self@.subrange(0, i as int));
        }
        assert(self@.subrange(0, 32) =~= self@);
    }

    /// The address with the given bytes, where there are 32 of them.
    pub open spec fn of_bytes(bytes: Seq<u8>) -> Pubkey {
        choose|key: Pubkey| key@ == bytes
    }

    /// An array that agrees with `bytes` in its first `n` places.
    spec fn array_of(bytes: Seq<u8>, n: nat) -> [u8; 32]
        decreases n,
    {
        if n == 0 {
            vstd::array::spec_array_fill_for_copy_type::<u8, 32>(0u8)
        } else {
            vstd::array::spec_array_update(Pubkey::array_of(bytes, (n - 1) as nat), n - 1, bytes[n - 1])
        }
    }

    proof fn lemma_array_of(bytes: Seq<u8>, n: nat)
        requires
            n <= 32,
            bytes.len() == 32,
        ensures
            forall|j: int| 0 <= j < n ==> Pubkey::array_of(bytes, n)@[j] == bytes[j],
        decreases n,
    {
        if n > 0 {
            Pubkey::lemma_array_of(bytes, (n - 1) as nat);
            vstd::array::axiom_spec_array_update(
                Pubkey::array_of(bytes, (n - 1) as nat),
                n - 1,
                bytes[n - 1],
            );
        }
    }

    /// Any 32 bytes are the bytes of an address.
    pub proof fn lemma_view_of_bytes(bytes: Seq<u8>)
        requires
            bytes.len() == 32,
        ensures
            Pubkey::of_bytes(bytes)@ == bytes,
    {
        Pubkey::lemma_array_of(bytes, 32);
        let witness = Pubkey { bytes: Pubkey::array_of(bytes, 32) };
        assert(witness@ =~= bytes);
    }

    /// An address is the address of its bytes.
    pub proof fn lemma_of_bytes(key: Pubkey)
        ensures
            Pubkey::of_bytes(key@) == key,
    {
        Pubkey::lemma_eq_by_view(Pubkey::of_bytes(key@), key);
    }

    /// Two addresses are equal exactly when they agree byte for byte.
    pub proof fn lemma_eq_by_view(a: Pubkey, b: Pubkey)
        ensures
            (a == b) <==> (a@ == b@),
    {
        if a@ == b@ {
            assert(a.bytes =~= b.bytes);
        }
    }
}

impl PartialEq for Pubkey {
    fn eq(&self, other: &Pubkey) -> (r: bool) {
        let mut i: usize = 0;
        while i < 32
            invariant
                i <= 32,
                forall|j: int| 0 <= j < i ==> self.bytes[j] == other.bytes[j],
            decreases 32 - i,
        {
            if self.bytes[i] != other.bytes[i] {
                return false;
            }
            i += 1;
        }
        assert(self.bytes =~= other.bytes);
        true
    }
}

impl PartialEqSpecImpl for Pubkey {
    open spec fn obeys_eq_spec() -> bool {
        true
    }

    open spec fn eq_spec(&self, other: &Pubkey) -> bool {
        *self == *other
    }
}

} // verus!
