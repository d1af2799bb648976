use vstd::prelude::*;

verus! {

/// A symmetric key, held as its raw bytes.
#[derive(Clone, Debug, PartialEq, Eq)]
pub struct Key {
    bytes: Vec<u8>,
}

impl View for Key {
    type V = Seq<u8>;

    closed spec fn view(&self) -> Seq<u8> {
        self.bytes@
    }
}

impl Key {
    /// Wraps the given bytes as a key.
    pub fn new(bytes: Vec<u8>) -> (k: Key)
        ensures
            k@ == bytes@,
    {
        Key { bytes }
    }

    /// The raw bytes of the key.
    pub fn data(&self) -> (b: &[u8])
        ensures
            b@ == self@,
    {
        self.bytes.as_slice()
    }

    /// A second key with the same bytes.
    pub fn duplicate(&self) -> (k: Key)
        ensures
            k@ == self@,
    {
        let mut bytes: Vec<u8> = Vec::new();
        let n = self.bytes.len();
        for i in 0..n
            invariant
                n == self.bytes@.len(),
                bytes@ == self.bytes@.take(i as int),
        {
            bytes.push(self.bytes[i]);
            assert(bytes@ =~= self.bytes@.take(i + 1));
        }
        assert(bytes@ =~= self.bytes@);
        Key { bytes }
    }

    /// Whether two keys hold the same bytes.
    pub fn same_as(&self, other: &Key) -> (b: bool)
        ensures
            b == (self@ == other@),
    {
        let n = self.bytes.len();
        if n != other.bytes.len() {
            return false;
        }
        for i in 0..n
            invariant
                n == self.bytes@.len(),
                n == other.bytes@.len(),
                forall|j: int| 0 <= j < i ==> self.bytes@[j] == other.bytes@[j],
        {
            if self.bytes[i] != other.bytes[i] {
                return false;
            }
        }
        assert(self.bytes@ =~= other.bytes@);
        true
    }
}

} // verus!
