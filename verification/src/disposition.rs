//! Classification of a repository's local mirror state.

use vstd::prelude::*;

verus! {

/// The state of a repository's local mirror path, relative to the remote
/// inventory. Exactly one disposition holds per repository.
#[derive(Clone, Copy, Debug, PartialEq, Eq, Structural)]
pub enum Disposition {
    /// The mirror path does not exist yet: a fresh clone is due.
    New,
    /// The path exists, is a directory and opens as a valid repository
    /// store: an incremental fetch is due.
    Healthy,
    /// The path exists and is a directory, but does not open as a valid
    /// repository store: cleanup may remove it before a fresh clone.
    Broken,
    /// The path exists but is not a directory. Never auto-remediated,
    /// since the tool did not create it.
    Invalid,
}

/// What a single run observes about a mirror path on disk. Observed anew
/// every run; never stored.
#[derive(Clone, Copy, Debug, PartialEq, Eq, Structural)]
pub struct LocalObservation {
    /// The mirror path exists.
    pub exists: bool,
    /// The mirror path is a directory.
    pub is_dir: bool,
    /// The mirror path opens as a valid bare repository store.
    pub opens_as_store: bool,
}

/// The disposition that a given observation maps to: absent paths are `New`,
/// non-directories are `Invalid`, valid stores are `Healthy`, the rest are
/// `Broken`.
pub open spec fn spec_classify(o: LocalObservation) -> Disposition {
    if !o.exists {
        Disposition::New
    } else if !o.is_dir {
        Disposition::Invalid
    } else if o.opens_as_store {
        Disposition::Healthy
    } else {
        Disposition::Broken
    }
}

/// Computes the disposition of one repository from what this run observed
/// about its mirror path.
pub fn classify(o: &LocalObservation) -> (d: Disposition)
    ensures
        d == spec_classify(*o),
{
    if !o.exists {
        Disposition::New
    } else if !o.is_dir {
        Disposition::Invalid
    } else if o.opens_as_store {
        Disposition::Healthy
    } else {
        Disposition::Broken
    }
}

/// Disposition is total and exclusive: every observation maps to exactly one
/// of the four dispositions, and each disposition characterises exactly the
/// observations shown here.
pub proof fn lemma_disposition_total_and_exclusive(o: LocalObservation)
    ensures
        ({
            let d = spec_classify(o);
            &&& d is New || d is Healthy || d is Broken || d is Invalid
            &&& (d is New <==> !o.exists)
            &&& (d is Invalid <==> o.exists && !o.is_dir)
            &&& (d is Healthy <==> o.exists && o.is_dir && o.opens_as_store)
            &&& (d is Broken <==> o.exists && o.is_dir && !o.opens_as_store)
        }),
{
}

} // verus!
