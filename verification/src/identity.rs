use vstd::prelude::*;

verus! {

/// A public cryptographic identifier naming an account or authorizing party.
///
/// A 32-byte public key, held as four 64-bit words in little-endian order
/// (`w0` covers bytes 0..8 of the key, `w3` bytes 24..32).
#[derive(Clone, Copy, Debug, PartialEq, Eq, Hash, Structural)]
pub struct Identity {
    pub w0: u64,
    pub w1: u64,
    pub w2: u64,
    pub w3: u64,
}

impl Identity {
    /// The zero/default identity. Supplying it as the asset-identity
    /// descriptor selects the native-currency transfer path.
    pub open spec fn zero() -> Identity {
        Identity { w0: 0, w1: 0, w2: 0, w3: 0 }
    }

    pub fn is_zero(&self) -> (r: bool)
        ensures
            r == (*self == Identity::zero()),
    {
        self.w0 == 0 && self.w1 == 0 && self.w2 == 0 && self.w3 == 0
    }
}

impl Default for Identity {
    fn default() -> (r: Self)
        ensures
            r == Identity::zero(),
    {
        Identity { w0: 0, w1: 0, w2: 0, w3: 0 }
    }
}

} // verus!
