//! Registry documents: the per-platform manifest index and the layer list of
//! one image manifest.
use vstd::prelude::*;
use crate::failure::Failure;

verus! {

/// One platform variant of an image: its manifest digest and CPU architecture.
pub struct ManifestEntry {
    pub digest: String,
    pub architecture: String,
}

/// One filesystem layer, named by the digest of its compressed blob.
pub struct Layer {
    pub digest: String,
}

/// `i` is the first position of `entries` whose architecture is `arch`.
pub open spec fn is_first_match(entries: Seq<ManifestEntry>, arch: Seq<char>, i: int) -> bool {
    &&& 0 <= i < entries.len()
    &&& entries[i].architecture@ == arch
    &&& forall|j: int| 0 <= j < i ==> entries[j].architecture@ != arch
}

/// Some entry of `entries` has the architecture `arch`.
pub open spec fn has_match(entries: Seq<ManifestEntry>, arch: Seq<char>) -> bool {
    exists|i: int| 0 <= i < entries.len() && entries[i].architecture@ == arch
}

/// Picks the digest of the first entry whose architecture equals `arch`
/// exactly; fails when none does, rather than falling back to another entry.
pub fn select_manifest(entries: &Vec<ManifestEntry>, arch: &String) -> (r: Result<String, Failure>)
    ensures
        r is Err <==> !has_match(entries@, arch@),
        r matches Err(e) ==> e == Failure::NoManifestForArchitecture,
        r matches Ok(d) ==> exists|i: int|
            is_first_match(entries@, arch@, i) && d@ == #[trigger] entries@[i].digest@,
{
    let mut i: usize = 0;
    while i < entries.len()
        invariant
            i <= entries.len(),
            forall|j: int| 0 <= j < i ==> entries@[j].architecture@ != arch@,
        decreases entries.len() - i,
    {
        if entries[i].architecture == *arch {
            let d = entries[i].digest.clone();
            assert(is_first_match(entries@, arch@, i as int));
            assert(d@ == entries@[i as int].digest@);
            return Ok(d);
        }
        i = i + 1;
    }
    Err(Failure::NoManifestForArchitecture)
}

} // verus!
