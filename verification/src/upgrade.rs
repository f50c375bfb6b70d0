//! Projection of a refreshed package index into per-package upgrade records.
//!
//! The backend enumerates the upgradable packages (pre-filtered and sorted by
//! name); this module only projects each enumerated package into a plain
//! record.  A package reaches it as a point-in-time snapshot of the fields
//! the projection reads, so the records stay valid after the index is gone.

use vstd::prelude::*;
use crate::strings::{spec_join, join};

verus! {

/// A candidate version of a package: its identifier and architecture.
pub struct CandidateSnapshot {
    pub version: String,
    pub arch: String,
}

/// One enumerated version of a package: the resolved origin-archive label of
/// each package file backing it, with nothing for a label the backend could
/// not resolve.
pub struct VersionSnapshot {
    pub files: Vec<Option<String>>,
}

/// Point-in-time view of one upgradable package, holding exactly the fields
/// the projection reads: the name, the installed and candidate version
/// identifiers where present, and the backing files of every enumerated
/// version in the backend's enumeration order.
pub struct PackageSnapshot {
    pub name: String,
    pub installed: Option<String>,
    pub candidate: Option<CandidateSnapshot>,
    pub versions: Vec<VersionSnapshot>,
}

/// One upgrade record of the report: name, installed and candidate version
/// identifiers, the comma-joined origin archives, and the architecture.
pub struct Upgradeable {
    pub name: String,
    pub installed: Option<String>,
    pub candidate: Option<String>,
    pub archive: String,
    pub arch: String,
}

/// The text of an optional version identifier.
pub open spec fn opt_text(o: Option<String>) -> Option<Seq<char>> {
    match o {
        Some(s) => Some(s@),
        None => None,
    }
}

/// An unresolvable origin-archive label falls back to the literal `unknown`.
pub open spec fn spec_label(f: Option<String>) -> Seq<char> {
    match f {
        Some(l) => l@,
        None => "unknown"@,
    }
}

/// The comma-joined origin-archive labels of a version's backing files, kept
/// in order and with duplicates preserved.
pub open spec fn spec_archive(files: Seq<Option<String>>) -> Seq<char> {
    spec_join(files.map_values(|f: Option<String>| spec_label(f)), ","@)
}

/// Joins the origin-archive labels of one version's backing files.
pub fn archive_label(files: &Vec<Option<String>>) -> (r: String)
    ensures
        r@ == spec_archive(files@),
{
    let ghost labels = files@.map_values(|f: Option<String>| spec_label(f));
    let mut resolved: Vec<String> = Vec::new();
    for i in 0..files.len()
        invariant
            labels == files@.map_values(|f: Option<String>| spec_label(f)),
            resolved@.map_values(|l: String| l@) == labels.take(i as int),
    {
        let label = match &files[i] {
            Some(l) => l.clone(),
            None => String::from_str("unknown"),
        };
        let ghost lv = label@;
        let ghost pre = resolved@;
        proof {
            assert(lv == spec_label(files@[i as int]));
        }
        resolved.push(label);
        proof {
            let lhs = resolved@.map_values(|l: String| l@);
            let rhs = labels.take(i + 1);
            assert(pre.map_values(|l: String| l@).len() == i as int);
            assert forall|j: int| 0 <= j < lhs.len() implies lhs[j] == rhs[j] by {
                if j < i {
                    assert(lhs[j] == pre.map_values(|l: String| l@)[j]);
                } else {
                    assert(lhs[j] == lv);
                }
            };
            assert(lhs =~= rhs);
        }
    }
    proof {
        assert(labels.take(files@.len() as int) =~= labels);
    }
    join(&resolved, ",")
}

/// How an upgrade record corresponds to the package snapshot it was
/// projected from: the name and the installed identifier carry over, the
/// candidate identifier and architecture come from the candidate version
/// (the architecture empty without one), and the archive labels come from
/// the backing files of the first enumerated version.
pub open spec fn record_of(r: Upgradeable, p: PackageSnapshot) -> bool {
    &&& r.name@ == p.name@
    &&& opt_text(r.installed) == opt_text(p.installed)
    &&& (match p.candidate {
        Some(c) => opt_text(r.candidate) == Some(c.version@) && r.arch@ == c.arch@,
        None => r.candidate is None && r.arch@ == Seq::<char>::empty(),
    })
    &&& r.archive@ == spec_archive(p.versions[0].files@)
}

impl Upgradeable {
    /// Projects one enumerated package into its upgrade record.  The backend
    /// always backs a package it enumerates with at least one version; the
    /// archive labels are read from the first of them, whichever it is.
    pub fn from(package: &PackageSnapshot) -> (r: Upgradeable)
        requires
            package.versions@.len() > 0,
        ensures
            record_of(r, *package),
    {
        let archive = archive_label(&package.versions[0].files);
        let (candidate, arch) = match &package.candidate {
            Some(c) => (Some(c.version.clone()), c.arch.clone()),
            None => (None, String::new()),
        };
        let installed = match &package.installed {
            Some(v) => Some(v.clone()),
            None => None,
        };
        Upgradeable { name: package.name.clone(), installed, candidate, archive, arch }
    }
}

/// Projects the backend's enumeration of upgradable packages, in order, one
/// record per package; an empty enumeration yields an empty sequence.
pub fn extract_upgradeable(packages: &Vec<PackageSnapshot>) -> (r: Vec<Upgradeable>)
    requires
        forall|i: int| 0 <= i < packages@.len() ==> (#[trigger] packages@[i]).versions@.len() > 0,
    ensures
        r@.len() == packages@.len(),
        forall|i: int| 0 <= i < r@.len() ==> record_of(#[trigger] r@[i], packages@[i]),
{
    let mut records: Vec<Upgradeable> = Vec::new();
    for i in 0..packages.len()
        invariant
            forall|j: int|
                0 <= j < packages@.len() ==> (#[trigger] packages@[j]).versions@.len() > 0,
            records@.len() == i,
            forall|j: int| 0 <= j < i ==> record_of(#[trigger] records@[j], packages@[j]),
    {
        records.push(Upgradeable::from(&packages[i]));
    }
    records
}

} // verus!
