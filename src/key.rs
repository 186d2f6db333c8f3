use vstd::prelude::*;

verus! {

/// A 32-byte account identity: a party, an asset type, a program or an
/// offer's own storage address.
#[derive(Clone, Copy, Debug)]
pub struct Key {
    pub bytes: [u8; 32],
}

impl View for Key {
    type V = Seq<u8>;

    open spec fn view(&self) -> Seq<u8> {
        self.bytes@
    }
}

/// The reserved all-zero identity that stands for the native currency
/// rather than a fungible asset.
pub open spec fn native_bytes() -> Seq<u8> {
    Seq::new(32, |i: int| 0u8)
}

impl Key {
    pub fn new(bytes: [u8; 32]) -> (r: Key)
        ensures
            r@ == bytes@,
    {
        Key { bytes }
    }

    /// The native-currency sentinel.
    pub fn native() -> (r: Key)
        ensures
            r@ == native_bytes(),
    {
        let r = Key { bytes: [0u8; 32] };
        assert(r@ =~= native_bytes());
        r
    }

    /// Whether this identity is the native-currency sentinel.
    pub fn is_native(&self) -> (r: bool)
        ensures
            r == (self@ == native_bytes()),
    {
        let zero = Key::native();
        self.same(&zero)
    }

    /// Byte-wise equality of two identities.
    pub fn same(&self, other: &Key) -> (r: bool)
        ensures
            r == (self@ == other@),
    {
        let mut i: usize = 0;
        while i < 32
            invariant
                0 <= i <= 32,
                self@.len() == 32,
                other@.len() == 32,
                forall|j: int| 0 <= j < i ==> self@[j] == other@[j],
            decreases 32 - i,
        {
            if self.bytes[i] != other.bytes[i] {
                assert(self@[i as int] != other@[i as int]);
                return false;
            }
            i = i + 1;
        }
        assert(self@ =~= other@);
        true
    }
}

impl PartialEq for Key {
    fn eq(&self, other: &Key) -> (r: bool) {
        self.same(other)
    }
}

impl Eq for Key {
}

impl vstd::std_specs::cmp::PartialEqSpecImpl for Key {
    open spec fn obeys_eq_spec() -> bool {
        true
    }

    open spec fn eq_spec(&self, other: &Key) -> bool {
        self@ == other@
    }
}

} // verus!
