//! The version of the Linux kernel, from the two places that tell it: the
//! version code of the kernel headers, and the release name of the running
//! kernel.
//!
//! The caller reads the code from `<linux/version.h>` and the release from
//! `uname(2)`.

use vstd::prelude::*;

verus! {

/// One part of a pre-release tag or of build metadata, as a view.
pub enum Tag {
    /// A part of digits only.
    Numeric(u64),
    /// A part with letters, digits or hyphens.
    AlphaNumeric(Seq<char>),
}

/// A version, as a view.
pub struct VersionView {
    pub major: u64,
    pub minor: u64,
    pub patch: u64,
    pub pre: Seq<Tag>,
    pub build: Seq<Tag>,
}

/// An identifier in the pre-release or build metadata.
#[derive(Clone, Debug, PartialEq, Eq)]
pub enum Identifier {
    /// An identifier that's solely numbers.
    Numeric(u64),
    /// An identifier with letters and numbers.
    AlphaNumeric(String),
}

/// A version number conforming to the semantic versioning scheme.
#[derive(Clone, Debug, PartialEq, Eq)]
pub struct Version {
    /// The major version.
    pub major: u64,
    /// The minor version.
    pub minor: u64,
    /// The patch version.
    pub patch: u64,
    /// The pre-release version identifier, if one exists.
    pub pre: Vec<Identifier>,
    /// The build metadata.
    pub build: Vec<Identifier>,
}

/// Why a text is no version.
#[derive(Clone, Debug, PartialEq, Eq)]
pub enum SemVerError {
    /// An error occurred while parsing; the text says which.
    ParseError(String),
}

impl View for Identifier {
    type V = Tag;

    open spec fn view(&self) -> Tag {
        match self {
            Identifier::Numeric(n) => Tag::Numeric(*n),
            Identifier::AlphaNumeric(s) => Tag::AlphaNumeric(s@),
        }
    }
}

impl View for Version {
    type V = VersionView;

    open spec fn view(&self) -> VersionView {
        VersionView {
            major: self.major,
            minor: self.minor,
            patch: self.patch,
            pre: self.pre@.map_values(|i: Identifier| i@),
            build: self.build@.map_values(|i: Identifier| i@),
        }
    }
}

/// A parse result, as a view: the version, or the text of the error.
pub open spec fn parsed_view(r: Result<Version, SemVerError>) -> Result<VersionView, Seq<char>> {
    match r {
        Ok(v) => Ok(v@),
        Err(SemVerError::ParseError(text)) => Err(text@),
    }
}

/// What `semver` reads a text as: the version that the text spells, or the
/// text of the parse error.
pub uninterp spec fn semver_parsed(version: Seq<char>) -> Result<VersionView, Seq<char>>;

/// The version with its pre-release tag taken as build metadata instead, and
/// the build metadata it had dropped.
pub open spec fn tag_as_build(v: VersionView) -> VersionView {
    VersionView { pre: Seq::empty(), build: v.pre, ..v }
}

/// Calls `semver::Version::parse` and hands the result over field by field.
///
/// Not proved: that the result is the one named `semver_parsed` of the text,
/// which says only that the same text is always read the same way.
#[verifier::external_body]
fn semver_parse(version: &str) -> (r: Result<Version, SemVerError>)
    ensures
        parsed_view(r) == semver_parsed(version@),
{
    let tag = |i: semver::Identifier| match i {
        semver::Identifier::Numeric(n) => Identifier::Numeric(n),
        semver::Identifier::AlphaNumeric(s) => Identifier::AlphaNumeric(s),
    };
    match semver::Version::parse(version) {
        Ok(v) => Ok(Version {
            major: v.major,
            minor: v.minor,
            patch: v.patch,
            pre: v.pre.into_iter().map(tag).collect(),
            build: v.build.into_iter().map(tag).collect(),
        }),
        Err(semver::SemVerError::ParseError(text)) => Err(SemVerError::ParseError(text)),
    }
}

/// Get the version that a version code of `<linux/version.h>` stands for: the
/// patch level in the lowest byte, the minor version in the next, the major
/// version above.
pub fn linux_headers_version(code: u64) -> (v: Version)
    ensures
        v@ == (VersionView {
            major: code / 0x1_0000,
            minor: code / 0x100 % 0x100,
            patch: code % 0x100,
            pre: Seq::empty(),
            build: Seq::empty(),
        }),
{
    let major = code >> 16;
    let minor = code >> 8 & 0xFF;
    let patch = code & 0xFF;
    assert(code >> 16 == code / 0x1_0000 && (code >> 8) & 0xFF == code / 0x100 % 0x100 && code
        & 0xFF == code % 0x100) by (bit_vector);
    let v = Version { major, minor, patch, pre: Vec::new(), build: Vec::new() };
    assert(v@.pre =~= Seq::empty());
    assert(v@.build =~= Seq::empty());
    v
}

/// Treats everything after the `major.minor.patch` triple of a parsed release
/// name as build metadata.
pub fn release_version(parsed: Version) -> (v: Version)
    ensures
        v@ == tag_as_build(parsed@),
{
    let v = Version {
        major: parsed.major,
        minor: parsed.minor,
        patch: parsed.patch,
        pre: Vec::new(),
        build: parsed.pre,
    };
    assert(v@.pre =~= Seq::empty());
    v
}

/// Get the version that a release name of `uname -r` stands for.
///
/// This treats everything after the `major.minor.patch` triple as build
/// metadata.
pub fn linux_kernel_version(release: &str) -> (r: Result<Version, SemVerError>)
    ensures
        parsed_view(r) == match semver_parsed(release@) {
            Ok(v) => Ok::<VersionView, Seq<char>>(tag_as_build(v)),
            Err(text) => Err::<VersionView, Seq<char>>(text),
        },
{
    match semver_parse(release) {
        Ok(parsed) => Ok(release_version(parsed)),
        Err(e) => Err(e),
    }
}

} // verus!
