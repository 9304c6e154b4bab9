//! Proof fixtures: the data that a zero-knowledge proof fixture holds, the
//! wire name of each proof system, and where each fixture file lives.
use vstd::prelude::*;

mod fixture;
mod system;

verus! {

pub use fixture::{
    prepare_proof_fixture, FixtureWrite, ProofFixture, SP1ProofWithPublicValues, SP1VerifyingKey,
};
pub use system::{
    file_name, fixture_path_of, fixtures_dir, fixtures_dir_name, lemma_file_name_determinism,
    lemma_tag_name_round_trip, tag_name, tag_of_name, ProofSystem,
};

} // verus!
