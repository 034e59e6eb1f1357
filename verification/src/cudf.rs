//! The report that dose3 writes about build dependencies it cannot satisfy, in the
//! form of its CUDF output.
use vstd::prelude::*;
use crate::text::{parse_u8, split_char_once, unsigned_value};

verus! {

/// The status of a package in a dose3 report.
#[derive(Clone, Debug, PartialEq, Eq, Structural)]
pub enum Status {
    /// The package cannot be installed.
    Broken,
}

/// A package named in a reason of a dose3 report.
#[derive(Debug)]
pub struct Pkg {
    /// The name of the package.
    pub package: String,
    /// The version of the package.
    pub version: String,
    /// The architecture of the package.
    pub architecture: String,
    /// The dependency that cannot be satisfied, if any.
    pub unsat_dependency: Option<String>,
    /// The conflict that cannot be resolved, if any.
    pub unsat_conflict: Option<String>,
}

/// A dependency that is missing.
#[derive(Debug)]
pub struct Missing {
    /// The package whose dependency is missing.
    pub pkg: Pkg,
}

/// Two packages that conflict.
#[derive(Debug)]
pub struct Conflict {
    /// The first package.
    pub pkg1: Pkg,
    /// The second package.
    pub pkg2: Pkg,
}

/// Why a package is broken: a missing dependency, a conflict, or both.
#[derive(Debug)]
pub struct Reason {
    /// The missing dependency, if any.
    pub missing: Option<Missing>,
    /// The conflict, if any.
    pub conflict: Option<Conflict>,
}

/// The report on one package.
#[derive(Debug)]
pub struct Report {
    /// The name of the package.
    pub package: String,
    /// The version of the package.
    pub version: String,
    /// The architecture of the package.
    pub architecture: String,
    /// The status of the package.
    pub status: Status,
    /// Why the package is broken.
    pub reasons: Vec<Reason>,
}

/// The CUDF output of dose3.
#[derive(Debug)]
pub struct Cudf {
    /// The version of the output format, major and minor.
    pub output_version: (u8, u8),
    /// The architecture of the build.
    pub native_architecture: String,
    /// The reports on the packages.
    pub report: Vec<Report>,
}

/// The version that an `output-version` value such as `2.0` gives: the numbers before
/// and after the first `.`, each of which must be a `u8`.
pub open spec fn output_version_spec(s: Seq<char>) -> Option<(u8, u8)> {
    if !s.contains('.') {
        None
    } else {
        let i = crate::text::first_char_index(s, '.');
        let major = unsigned_value(s.take(i));
        let minor = unsigned_value(s.skip(i + 1));
        match (major, minor) {
            (Some(a), Some(b)) => if a <= u8::MAX && b <= u8::MAX {
                Some((a as u8, b as u8))
            } else {
                None
            },
            _ => None,
        }
    }
}

/// Parses an `output-version` value such as `2.0` into its major and minor numbers;
/// an error when there is no `.` or either part is not a `u8`.
pub fn parse_output_version(s: &str) -> (r: Result<(u8, u8), String>)
    ensures
        match output_version_spec(s@) {
            Some(v) => r == Ok::<(u8, u8), String>(v),
            None => r is Err,
        },
{
    let (major, minor) = match split_char_once(s, '.') {
        Some(pair) => pair,
        None => {
            return Err("invalid version string".to_string());
        },
    };
    let major = match parse_u8(major) {
        Some(v) => v,
        None => {
            return Err("invalid major version".to_string());
        },
    };
    let minor = match parse_u8(minor) {
        Some(v) => v,
        None => {
            return Err("invalid minor version".to_string());
        },
    };
    Ok((major, minor))
}

} // verus!
