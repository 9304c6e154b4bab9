//! The proof, its verifying key and the fixture record built from them.
use vstd::prelude::*;
use vstd::string::*;

use crate::system::{fixture_path_of, fixtures_dir, fixtures_dir_name, ProofSystem};

verus! {

/// SP1 proof with public values: two opaque byte sequences.
#[derive(Debug, Clone)]
pub struct SP1ProofWithPublicValues {
    /// The proof bytes
    pub proof: Vec<u8>,
    /// The public values/inputs
    pub public_values: Vec<u8>,
}

/// SP1 verifying key: one opaque byte sequence.
#[derive(Debug, Clone)]
pub struct SP1VerifyingKey {
    /// The verifying key bytes
    pub vk: Vec<u8>,
}

/// The record that a fixture file holds: the proof, its public values, the
/// verifying key and the proof system, all four always present together.
#[derive(Debug)]
pub struct ProofFixture {
    /// The proof data with public values
    pub proof: Vec<u8>,
    /// The public values
    pub public_values: Vec<u8>,
    /// The verifying key
    pub vk: Vec<u8>,
    /// The proof system used
    pub system: ProofSystem,
}

/// A copy of `b`, byte for byte.
fn copy_bytes(b: &Vec<u8>) -> (r: Vec<u8>)
    ensures
        r@ == b@,
{
    let r = b.clone();
    assert(r@ =~= b@);
    r
}

impl ProofFixture {
    /// The fixture record of `proof` and `vk` under `system`: every byte
    /// sequence is copied unchanged, whatever its length, empty included.
    pub fn new(proof: &SP1ProofWithPublicValues, vk: &SP1VerifyingKey, system: ProofSystem) -> (r:
        ProofFixture)
        ensures
            r.proof@ == proof.proof@,
            r.public_values@ == proof.public_values@,
            r.vk@ == vk.vk@,
            r.system == system,
    {
        ProofFixture {
            proof: copy_bytes(&proof.proof),
            public_values: copy_bytes(&proof.public_values),
            vk: copy_bytes(&vk.vk),
            system,
        }
    }
}

/// Everything that writing one fixture takes: the directory to make (with
/// its parents, if missing), the file to write, replacing what it held, and
/// the record to write there.
#[derive(Debug)]
pub struct FixtureWrite {
    /// The fixtures directory
    pub dir: String,
    /// The fixture file, inside `dir`
    pub path: String,
    /// The record that the file is to hold
    pub fixture: ProofFixture,
}

/// The write that stores the fixture of `proof` and `vk` under `system`: the
/// path depends on `system` alone, and the record holds the inputs unchanged.
pub fn prepare_proof_fixture(
    proof: &SP1ProofWithPublicValues,
    vk: &SP1VerifyingKey,
    system: ProofSystem,
) -> (r: FixtureWrite)
    ensures
        r.dir@ == fixtures_dir_name(),
        r.path@ == fixture_path_of(system),
        r.fixture.proof@ == proof.proof@,
        r.fixture.public_values@ == proof.public_values@,
        r.fixture.vk@ == vk.vk@,
        r.fixture.system == system,
{
    FixtureWrite {
        dir: String::from_str(fixtures_dir()),
        path: system.fixture_path(),
        fixture: ProofFixture::new(proof, vk, system),
    }
}

} // verus!
