use siphasher::sip128::{Hasher128, SipHasher13};
use std::hash::Hash;
use vstd::prelude::*;

verus! {

/// The 128-bit SipHash-1-3 digest of a file identity, the device number
/// hashed first and the inode number second.
pub uninterp spec fn sip13_of_identity(dev: u64, ino: u64) -> u128;

/// Relies on siphasher's `SipHasher13` and `finish128`: the digest depends
/// on the hashed words alone.
#[verifier::external_body]
fn sip13_identity(dev: u64, ino: u64) -> (r: u128)
    ensures
        r == sip13_of_identity(dev, ino),
{
    let mut state = SipHasher13::new();
    dev.hash(&mut state);
    ino.hash(&mut state);
    state.finish128().as_u128()
}

/// A hash that is the same for all paths that reach the same file.
#[derive(PartialEq, Eq, Structural, Clone, Copy, Debug, Hash)]
pub struct PathHash(pub u128);

impl PathHash {
    /// The hash of the file that the operating system identifies by the
    /// device number `dev` and the inode number `ino`.
    pub fn from_file_identity(dev: u64, ino: u64) -> (r: PathHash)
        ensures
            r.0 == sip13_of_identity(dev, ino),
    {
        PathHash(sip13_identity(dev, ino))
    }
}

} // verus!
