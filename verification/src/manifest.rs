//! The firmware catalog: a manifest mapping version strings to binary
//! descriptors, with named "latest" and "stable" pointers, and the
//! deterministic resolution of a selector to exactly one descriptor.
//!
//! Version strings are compared for exact equality only; there is no
//! fuzzy or range matching. Resolving a name against a missing key is
//! a reported failure, never a panic.

use crate::strutil::str_eq;
use vstd::prelude::*;

verus! {

/// The schema field alone, for a cheap format-version probe of a
/// manifest document before the full catalog is read.
#[derive(Debug)]
pub struct ManifestSchema {
    pub schema: String,
}

/// Metadata for a firmware release binary.
///
/// Each binary names the minimum firmware version required to upgrade
/// to it, so devices can step up without breaking changes, and may
/// carry an integrity digest.
#[derive(Debug)]
pub struct FirmwareBinary {
    /// File link.
    pub file: String,
    /// Minimum supported version.
    pub min: String,
    /// Integrity digest (if included).
    pub sha256: Option<String>,
}

impl FirmwareBinary {
    /// Builds a descriptor from its fields.
    pub fn new(file: String, min: String, sha256: Option<String>) -> (r: FirmwareBinary)
        ensures
            r == (FirmwareBinary { file, min, sha256 }),
    {
        FirmwareBinary { file, min, sha256 }
    }

    /// Firmware binary file URL.
    pub fn file(&self) -> (r: &str)
        ensures
            r@ == self.file@,
    {
        self.file.as_str()
    }

    /// Minimum version required to upgrade to this binary.
    pub fn minimum_supported_version(&self) -> (r: &str)
        ensures
            r@ == self.min@,
    {
        self.min.as_str()
    }

    /// SHA256 checksum (if included).
    pub fn sha256(&self) -> (r: Option<&str>)
        ensures
            match r {
                Some(d) => self.sha256 is Some && d@ == self.sha256->0@,
                None => self.sha256 is None,
            },
    {
        match &self.sha256 {
            Some(d) => Some(d.as_str()),
            None => None,
        }
    }
}

/// The descriptor stored under a key: the first entry whose key equals
/// it, or nothing when no entry's key does.
pub open spec fn spec_get(entries: Seq<(String, FirmwareBinary)>, key: Seq<char>) -> Option<
    FirmwareBinary,
>
    decreases entries.len(),
{
    if entries.len() == 0 {
        None
    } else if entries[0].0@ == key {
        Some(entries[0].1)
    } else {
        spec_get(entries.drop_first(), key)
    }
}

/// Looking past a prefix of entries whose keys all differ from the key
/// leaves the lookup result unchanged.
proof fn lemma_get_skip(entries: Seq<(String, FirmwareBinary)>, key: Seq<char>, i: int)
    requires
        0 <= i <= entries.len(),
        forall|j: int| 0 <= j < i ==> entries[j].0@ != key,
    ensures
        spec_get(entries, key) == spec_get(entries.skip(i), key),
    decreases i,
{
    if i > 0 {
        lemma_get_skip(entries, key, i - 1);
        assert(entries.skip(i - 1).drop_first() =~= entries.skip(i));
        assert(entries.skip(i - 1)[0] == entries[i - 1]);
    } else {
        assert(entries.skip(0) =~= entries);
    }
}

/// Manifest file format.
///
/// A catalog keyed by version string, together with the schema version
/// of the document itself and the two named pointers.
#[derive(Debug)]
pub struct Manifest {
    /// Schema version.
    pub schema: String,
    /// Latest firmware version.
    pub latest: String,
    /// Stable firmware version.
    pub stable: String,
    /// List of available binaries.
    pub binaries: Vec<(String, FirmwareBinary)>,
}

/// The selector a caller hands to resolution: one of the two named
/// pointers, or an explicit version string.
#[derive(Debug)]
pub enum Selector {
    Latest,
    Stable,
    Version(String),
}

/// Resolution failure: the named key is absent from the catalog.
#[derive(Debug)]
pub enum ResolveError {
    NotFound(String),
}

/// The catalog key a selector asks for: the latest pointer, the stable
/// pointer, or the explicit version itself.
pub open spec fn spec_selector_key(m: Manifest, sel: Selector) -> Seq<char> {
    match sel {
        Selector::Latest => m.latest@,
        Selector::Stable => m.stable@,
        Selector::Version(v) => v@,
    }
}

impl Manifest {
    /// Builds a manifest from its fields. Entries are looked up first
    /// match first, so a catalog built from a map behaves as the map
    /// did.
    pub fn new(
        schema: String,
        latest: String,
        stable: String,
        binaries: Vec<(String, FirmwareBinary)>,
    ) -> (r: Manifest)
        ensures
            r == (Manifest { schema, latest, stable, binaries }),
    {
        Manifest { schema, latest, stable, binaries }
    }

    /// The entries of the catalog.
    pub open spec fn entries(&self) -> Seq<(String, FirmwareBinary)> {
        self.binaries@
    }

    /// The index of the first entry stored under the key, if any.
    fn find(&self, key: &str) -> (r: Option<usize>)
        ensures
            match r {
                Some(i) => i < self.entries().len() && self.entries()[i as int].0@ == key@
                    && spec_get(self.entries(), key@) == Some(self.entries()[i as int].1),
                None => spec_get(self.entries(), key@) is None,
            },
    {
        let n = self.binaries.len();
        let mut i: usize = 0;
        while i < n
            invariant
                i <= n,
                n == self.entries().len(),
                forall|j: int| 0 <= j < i ==> self.entries()[j].0@ != key@,
            decreases n - i,
        {
            if str_eq(self.binaries[i].0.as_str(), key) {
                proof {
                    lemma_get_skip(self.entries(), key@, i as int);
                    assert(self.entries().skip(i as int)[0] == self.entries()[i as int]);
                }
                return Some(i);
            }
            i += 1;
        }
        proof {
            lemma_get_skip(self.entries(), key@, n as int);
            assert(self.entries().skip(n as int) =~= Seq::<(String, FirmwareBinary)>::empty());
        }
        None
    }

    /// Return the metadata for the latest firmware binary.
    ///
    /// Note this will return `None` if the version specified as latest
    /// is not in the map of binaries.
    pub fn latest(&self) -> (r: Option<&FirmwareBinary>)
        ensures
            match r {
                Some(b) => spec_get(self.entries(), self.latest@) == Some(*b),
                None => spec_get(self.entries(), self.latest@) is None,
            },
    {
        match self.find(self.latest.as_str()) {
            Some(i) => Some(&self.binaries[i].1),
            None => None,
        }
    }

    /// Return the metadata for the stable firmware binary.
    ///
    /// Note this will return `None` if the version specified as stable
    /// is not in the map of binaries.
    pub fn stable(&self) -> (r: Option<&FirmwareBinary>)
        ensures
            match r {
                Some(b) => spec_get(self.entries(), self.stable@) == Some(*b),
                None => spec_get(self.entries(), self.stable@) is None,
            },
    {
        match self.find(self.stable.as_str()) {
            Some(i) => Some(&self.binaries[i].1),
            None => None,
        }
    }

    /// The metadata for a specific firmware binary version.
    ///
    /// Note this will return `None` if the version specified is not in
    /// the map of binaries.
    pub fn version(&self, ver: &str) -> (r: Option<&FirmwareBinary>)
        ensures
            match r {
                Some(b) => spec_get(self.entries(), ver@) == Some(*b),
                None => spec_get(self.entries(), ver@) is None,
            },
    {
        match self.find(ver) {
            Some(i) => Some(&self.binaries[i].1),
            None => None,
        }
    }

    /// Returns the catalog of firmware binaries.
    ///
    /// Each entry is a version identifier with the metadata of the
    /// binary released under it.
    pub fn binaries(&self) -> (r: &Vec<(String, FirmwareBinary)>)
        ensures
            r == &self.binaries,
    {
        &self.binaries
    }

    /// Resolves a selector to the key and descriptor of exactly one
    /// binary: the entry stored under the key the selector asks for,
    /// or a failure naming that key when the catalog lacks it. The
    /// named pointers thus have two independent failure points, the
    /// pointer naming a missing key and the caller naming one, and the
    /// reported key tells them apart.
    pub fn resolve(&self, sel: &Selector) -> (r: Result<(&String, &FirmwareBinary), ResolveError>)
        ensures
            match r {
                Ok((key, b)) => key@ == spec_selector_key(*self, *sel) && spec_get(
                    self.entries(),
                    key@,
                ) == Some(*b),
                Err(e) => e matches ResolveError::NotFound(k) && k@ == spec_selector_key(
                    *self,
                    *sel,
                ) && spec_get(self.entries(), k@) is None,
            },
    {
        let key: &String = match sel {
            Selector::Latest => &self.latest,
            Selector::Stable => &self.stable,
            Selector::Version(v) => v,
        };
        match self.find(key.as_str()) {
            Some(i) => Ok((&self.binaries[i].0, &self.binaries[i].1)),
            None => Err(ResolveError::NotFound(key.clone())),
        }
    }
}

} // verus!
