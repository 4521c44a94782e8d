use vstd::prelude::*;

verus! {

/// The fingerprint of an installed boot payload: the package that owns the
/// installer, its version, and its build time in seconds since the epoch.
#[derive(Debug)]
pub struct ContentMetadata {
    pub package: String,
    pub version: String,
    pub timestamp: i64,
}

/// Field-wise equality of two metadata records.
pub open spec fn same_content(a: ContentMetadata, b: ContentMetadata) -> bool {
    &&& a.package@ == b.package@
    &&& a.version@ == b.version@
    &&& a.timestamp == b.timestamp
}

impl Clone for ContentMetadata {
    fn clone(&self) -> (r: Self)
        ensures
            r == *self,
    {
        ContentMetadata {
            package: self.package.clone(),
            version: self.version.clone(),
            timestamp: self.timestamp,
        }
    }
}

impl PartialEq for ContentMetadata {
    fn eq(&self, other: &ContentMetadata) -> (r: bool) {
        self.same_as(other)
    }
}

impl vstd::std_specs::cmp::PartialEqSpecImpl for ContentMetadata {
    open spec fn obeys_eq_spec() -> bool {
        true
    }

    open spec fn eq_spec(&self, other: &ContentMetadata) -> bool {
        same_content(*self, *other)
    }
}

impl ContentMetadata {
    /// Whether `self` and `other` record the same content, field by field.
    pub fn same_as(&self, other: &ContentMetadata) -> (r: bool)
        ensures
            r == same_content(*self, *other),
    {
        self.package == other.package && self.version == other.version && self.timestamp
            == other.timestamp
    }
}

/// An update is due exactly when the record derived from the live system
/// differs, in some field, from the one that is persisted as installed.
pub fn update_available(persisted: &ContentMetadata, live: &ContentMetadata) -> (r: bool)
    ensures
        r == !same_content(*persisted, *live),
{
    !persisted.same_as(live)
}

/// What an install, update or adoption leaves on the machine.
#[derive(Debug)]
pub struct InstalledContent {
    pub meta: ContentMetadata,
    /// A reference to the installed file tree; the BIOS component has none.
    pub filetree: Option<String>,
    /// The prior version, where the content was taken over from an unmanaged
    /// installation.
    pub adopted_from: Option<String>,
}

impl Clone for InstalledContent {
    fn clone(&self) -> (r: Self)
        ensures
            r == *self,
    {
        InstalledContent {
            meta: self.meta.clone(),
            filetree: match &self.filetree {
                Some(t) => Some(t.clone()),
                None => None,
            },
            adopted_from: match &self.adopted_from {
                Some(v) => Some(v.clone()),
                None => None,
            },
        }
    }
}

/// A detected unmanaged installation that is safe to take over.
#[derive(Debug)]
pub struct Adoptable {
    pub version: String,
    pub confident: bool,
}

/// The verdict of validating an installed component.
#[derive(PartialEq, Eq, Structural, Debug, Clone, Copy)]
pub enum ValidationResult {
    Valid,
    Skip,
    Errors,
}

} // verus!
