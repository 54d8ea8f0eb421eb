//! The registry of proving-system identifiers.
//!
//! Each identifier has a stable, canonical display name and derives its
//! output file path from that name: `output_dir() + "/" + display_name`.

use vstd::prelude::*;
use vstd::string::*;

verus! {

/// The closed set of proving systems the harness can benchmark.
#[derive(Debug, Clone, Copy, PartialEq, Eq, PartialOrd, Ord, Structural)]
pub enum System {
    HyperPlonk,
    UniHyperPlonk,
    Halo2,
    EspressoHyperPlonk,
}

/// The directory that holds one output file per proving system.
pub open spec fn spec_output_dir() -> Seq<char> {
    "../chiquito/target"@
}

/// The canonical display name of a proving system.
pub open spec fn spec_display_name(s: System) -> Seq<char> {
    match s {
        System::HyperPlonk => "hyperplonk"@,
        System::UniHyperPlonk => "unihyperplonk"@,
        System::Halo2 => "halo2"@,
        System::EspressoHyperPlonk => "espresso_hyperplonk"@,
    }
}

/// The output file path of a proving system: directory, separator, name.
pub open spec fn spec_output_path(s: System) -> Seq<char> {
    spec_output_dir() + "/"@ + spec_display_name(s)
}

/// The directory that holds one output file per proving system.
pub fn output_dir() -> (r: &'static str)
    ensures
        r@ == spec_output_dir(),
{
    "../chiquito/target"
}

impl System {
    /// The canonical display name, stable across runs.
    pub fn display_name(&self) -> (r: &'static str)
        ensures
            r@ == spec_display_name(*self),
    {
        match self {
            System::HyperPlonk => "hyperplonk",
            System::UniHyperPlonk => "unihyperplonk",
            System::Halo2 => "halo2",
            System::EspressoHyperPlonk => "espresso_hyperplonk",
        }
    }

    /// The path of this system's output file.
    pub fn output_path(&self) -> (r: String)
        ensures
            r@ == spec_output_path(*self),
    {
        let mut path = String::from_str(output_dir());
        path.append("/");
        path.append(self.display_name());
        path
    }
}

/// The display-name mapping is injective: no two registered systems share
/// a display name, so no two systems share an output file.
pub proof fn lemma_display_names_distinct(a: System, b: System)
    ensures
        a != b ==> spec_display_name(a) != spec_display_name(b),
{
    reveal_strlit("hyperplonk");
    reveal_strlit("unihyperplonk");
    reveal_strlit("halo2");
    reveal_strlit("espresso_hyperplonk");
    assert(spec_display_name(System::HyperPlonk).len() == 10);
    assert(spec_display_name(System::UniHyperPlonk).len() == 13);
    assert(spec_display_name(System::Halo2).len() == 5);
    assert(spec_display_name(System::EspressoHyperPlonk).len() == 19);
}

/// Output paths extend the display-name mapping, so they are pairwise
/// distinct as well: paths share the common directory prefix and differ
/// in their name suffix.
pub proof fn lemma_output_paths_distinct(a: System, b: System)
    ensures
        a != b ==> spec_output_path(a) != spec_output_path(b),
{
    lemma_display_names_distinct(a, b);
    if a != b {
        let pre = spec_output_dir() + "/"@;
        assert(spec_output_path(a).len() == pre.len() + spec_display_name(a).len());
        assert(spec_output_path(b).len() == pre.len() + spec_display_name(b).len());
        reveal_strlit("hyperplonk");
        reveal_strlit("unihyperplonk");
        reveal_strlit("halo2");
        reveal_strlit("espresso_hyperplonk");
        assert(spec_display_name(a).len() != spec_display_name(b).len());
    }
}

} // verus!

