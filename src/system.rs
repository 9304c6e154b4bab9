//! The proof-system tag, its wire name and the fixture file it selects.
use vstd::prelude::*;
use vstd::string::*;

verus! {

/// Proof system types supported by SP1.
#[derive(Debug, Clone, Copy, PartialEq, Eq, Structural)]
pub enum ProofSystem {
    /// Plonk proof system
    Plonk,
    /// Groth16 proof system
    Groth16,
    /// STARK proof system
    STARK,
}

/// The name under which a proof system is written in a fixture's `system` field.
pub open spec fn tag_name(s: ProofSystem) -> Seq<char> {
    match s {
        ProofSystem::Plonk => "Plonk"@,
        ProofSystem::Groth16 => "Groth16"@,
        ProofSystem::STARK => "STARK"@,
    }
}

/// The proof system whose wire name is `t`, if any.
pub open spec fn tag_of_name(t: Seq<char>) -> Option<ProofSystem> {
    if t == "Plonk"@ {
        Some(ProofSystem::Plonk)
    } else if t == "Groth16"@ {
        Some(ProofSystem::Groth16)
    } else if t == "STARK"@ {
        Some(ProofSystem::STARK)
    } else {
        None
    }
}

/// The file, inside the fixtures directory, that holds the fixture of a proof system.
pub open spec fn file_name(s: ProofSystem) -> Seq<char> {
    match s {
        ProofSystem::Plonk => "proof_fixture_plonk.json"@,
        ProofSystem::Groth16 => "proof_fixture_groth16.json"@,
        ProofSystem::STARK => "proof_fixture_STARK.json"@,
    }
}

/// The directory, relative to the working directory, that holds the fixtures.
pub open spec fn fixtures_dir_name() -> Seq<char> {
    "fixtures"@
}

/// The path, relative to the working directory, of the fixture of a proof system.
pub open spec fn fixture_path_of(s: ProofSystem) -> Seq<char> {
    fixtures_dir_name() + "/"@ + file_name(s)
}

/// Whether `a` and `b` hold the same characters.
fn same_chars(a: &str, b: &str) -> (r: bool)
    ensures
        r == (a@ == b@),
{
    let n = a.unicode_len();
    if n != b.unicode_len() {
        return false;
    }
    let mut i: usize = 0;
    while i < n
        invariant
            n == a@.len(),
            n == b@.len(),
            i <= n,
            forall|j: int| 0 <= j < i ==> a@[j] == b@[j],
        decreases n - i,
    {
        if a.get_char(i) != b.get_char(i) {
            return false;
        }
        i = i + 1;
    }
    assert(a@ =~= b@);
    true
}

/// The name of the directory, relative to the working directory, that holds the fixtures.
pub fn fixtures_dir() -> (r: &'static str)
    ensures
        r@ == fixtures_dir_name(),
{
    "fixtures"
}

impl ProofSystem {
    /// The proof system whose wire name is `t`, with its exact casing; `None`
    /// for any other text.
    pub fn from_name(t: &str) -> (r: Option<ProofSystem>)
        ensures
            r == tag_of_name(t@),
    {
        if same_chars(t, "Plonk") {
            Some(ProofSystem::Plonk)
        } else if same_chars(t, "Groth16") {
            Some(ProofSystem::Groth16)
        } else if same_chars(t, "STARK") {
            Some(ProofSystem::STARK)
        } else {
            None
        }
    }

    /// The wire name of this proof system, with its exact casing.
    pub fn name(self) -> (r: &'static str)
        ensures
            r@ == tag_name(self),
    {
        match self {
            ProofSystem::Plonk => "Plonk",
            ProofSystem::Groth16 => "Groth16",
            ProofSystem::STARK => "STARK",
        }
    }

    /// The name of the file that holds the fixture of this proof system.
    pub fn fixture_file_name(self) -> (r: &'static str)
        ensures
            r@ == file_name(self),
    {
        match self {
            ProofSystem::Plonk => "proof_fixture_plonk.json",
            ProofSystem::Groth16 => "proof_fixture_groth16.json",
            ProofSystem::STARK => "proof_fixture_STARK.json",
        }
    }

    /// The path of this proof system's fixture file: the file name inside the
    /// fixtures directory.
    pub fn fixture_path(self) -> (r: String)
        ensures
            r@ == fixture_path_of(self),
    {
        let dir = String::from_str(fixtures_dir());
        let dir = dir.concat("/");
        dir.concat(self.fixture_file_name())
    }
}

/// The wire name of every proof system reads back as that same proof system.
pub proof fn lemma_tag_name_round_trip(s: ProofSystem)
    ensures
        tag_of_name(tag_name(s)) == Some(s),
{
    reveal_strlit("Plonk");
    reveal_strlit("Groth16");
    reveal_strlit("STARK");
    assert("Plonk"@.len() == 5 && "Groth16"@.len() == 7 && "STARK"@.len() == 5);
    assert("Plonk"@[0] != "STARK"@[0]);
}

/// The fixture file name is one of the three fixed names, and no two proof
/// systems share one; so is the path, and no two proof systems share a file.
pub proof fn lemma_file_name_determinism(s: ProofSystem, u: ProofSystem)
    ensures
        file_name(s) == "proof_fixture_plonk.json"@ || file_name(s) == "proof_fixture_groth16.json"@
            || file_name(s) == "proof_fixture_STARK.json"@,
        s != u ==> file_name(s) != file_name(u),
        s != u ==> fixture_path_of(s) != fixture_path_of(u),
{
    reveal_strlit("proof_fixture_plonk.json");
    reveal_strlit("proof_fixture_groth16.json");
    reveal_strlit("proof_fixture_STARK.json");
    reveal_strlit("fixtures");
    reveal_strlit("/");
    if s != u {
        let k: int = fixtures_dir_name().len() as int + 1;
        assert(fixture_path_of(s).subrange(k, fixture_path_of(s).len() as int) =~= file_name(s));
        assert(fixture_path_of(u).subrange(k, fixture_path_of(u).len() as int) =~= file_name(u));
        if file_name(s).len() == file_name(u).len() {
            assert(file_name(s)[14] != file_name(u)[14]);
        }
    }
}

} // verus!
