//! Schema version markers and semantic versions.

use vstd::prelude::*;
use crate::text::same_text;

verus! {

/// The text that marks a record written under schema 0.2.0.
pub open spec fn literal_0_2_0() -> Seq<char> {
    seq!['0', '.', '2', '.', '0']
}

/// The text that marks a record written under schema 0.2.1.
pub open spec fn literal_0_2_1() -> Seq<char> {
    seq!['0', '.', '2', '.', '1']
}

/// The text that marks a record written under schema 0.2.2.
pub open spec fn literal_0_2_2() -> Seq<char> {
    seq!['0', '.', '2', '.', '2']
}

/// The marker of schema 0.2.0. It stands for exactly one text.
#[derive(Debug, Clone, Copy, PartialEq, Eq, Structural)]
pub struct Version0_2_0;

/// The marker of schema 0.2.1. It stands for exactly one text.
#[derive(Debug, Clone, Copy, PartialEq, Eq, Structural)]
pub struct Version0_2_1;

/// The marker of schema 0.2.2. It stands for exactly one text.
#[derive(Debug, Clone, Copy, PartialEq, Eq, Structural)]
pub struct Version0_2_2;

/// The marker of the schema that records are written under.
pub type VersionLatest = Version0_2_2;

impl Version0_2_0 {
    /// The text of the marker.
    pub fn as_str(&self) -> (text: &'static str)
        ensures
            text@ == literal_0_2_0(),
    {
        proof {
            reveal_strlit("0.2.0");
        }
        assert("0.2.0"@ =~= literal_0_2_0());
        "0.2.0"
    }

    /// The marker, where `text` is its text.
    pub fn parse(text: &str) -> (marker: Option<Version0_2_0>)
        ensures
            marker is Some <==> text@ == literal_0_2_0(),
    {
        if same_text(text, Version0_2_0.as_str()) {
            Some(Version0_2_0)
        } else {
            None
        }
    }
}

impl Version0_2_1 {
    /// The text of the marker.
    pub fn as_str(&self) -> (text: &'static str)
        ensures
            text@ == literal_0_2_1(),
    {
        proof {
            reveal_strlit("0.2.1");
        }
        assert("0.2.1"@ =~= literal_0_2_1());
        "0.2.1"
    }

    /// The marker, where `text` is its text.
    pub fn parse(text: &str) -> (marker: Option<Version0_2_1>)
        ensures
            marker is Some <==> text@ == literal_0_2_1(),
    {
        if same_text(text, Version0_2_1.as_str()) {
            Some(Version0_2_1)
        } else {
            None
        }
    }
}

impl Version0_2_2 {
    /// The text of the marker.
    pub fn as_str(&self) -> (text: &'static str)
        ensures
            text@ == literal_0_2_2(),
    {
        proof {
            reveal_strlit("0.2.2");
        }
        assert("0.2.2"@ =~= literal_0_2_2());
        "0.2.2"
    }

    /// The marker, where `text` is its text.
    pub fn parse(text: &str) -> (marker: Option<Version0_2_2>)
        ensures
            marker is Some <==> text@ == literal_0_2_2(),
    {
        if same_text(text, Version0_2_2.as_str()) {
            Some(Version0_2_2)
        } else {
            None
        }
    }
}

/// What a semantic version is, mathematically.
pub struct SemVerModel {
    pub major: nat,
    pub minor: nat,
    pub patch: nat,
    /// The pre-release identifiers, empty where there are none.
    pub pre: Seq<char>,
    /// The build metadata, empty where there is none.
    pub build: Seq<char>,
}

/// A semantic version, such as `0.1.0` or `1.2.3-rc.1+linux`.
#[derive(Debug)]
pub struct SemVer {
    pub major: u64,
    pub minor: u64,
    pub patch: u64,
    /// The pre-release identifiers, empty where there are none.
    pub pre: String,
    /// The build metadata, empty where there is none.
    pub build: String,
}

impl DeepView for SemVer {
    type V = SemVerModel;

    open spec fn deep_view(&self) -> SemVerModel {
        SemVerModel {
            major: self.major as nat,
            minor: self.minor as nat,
            patch: self.patch as nat,
            pre: self.pre@,
            build: self.build@,
        }
    }
}

/// The version that a text is, by the grammar of semantic versions.
pub uninterp spec fn semver_parsed(text: Seq<char>) -> Option<SemVerModel>;

/// The text of a version; none where its pre-release or build part is not
/// made of identifiers.
pub uninterp spec fn semver_text(version: SemVerModel) -> Option<Seq<char>>;

/// Parses with `semver::Version::parse` and moves the fields of the
/// result over. The outcome is named: the same text gives the same one.
#[verifier::external_body]
fn parse_semver(text: &str) -> (parsed: Option<SemVer>)
    ensures
        parsed.deep_view() == semver_parsed(text@),
{
    semver::Version::parse(text).ok().map(
        |version|
            SemVer {
                major: version.major,
                minor: version.minor,
                patch: version.patch,
                pre: version.pre.as_str().to_owned(),
                build: version.build.as_str().to_owned(),
            },
    )
}

/// Builds a `semver::Version` of the fields and writes it by its
/// `Display`. The text is named. There is none where `Prerelease::new` or
/// `BuildMetadata::new` refuses its part.
#[verifier::external_body]
fn render_semver(version: &SemVer) -> (text: Option<String>)
    ensures
        text.deep_view() == semver_text(version.deep_view()),
{
    let pre = semver::Prerelease::new(&version.pre).ok()?;
    let build = semver::BuildMetadata::new(&version.build).ok()?;
    let built = semver::Version {
        major: version.major,
        minor: version.minor,
        patch: version.patch,
        pre,
        build,
    };
    Some(built.to_string())
}

/// The version `major.minor.patch`, without further parts.
pub open spec fn plain_version(major: nat, minor: nat, patch: nat) -> SemVerModel {
    SemVerModel { major, minor, patch, pre: Seq::empty(), build: Seq::empty() }
}

impl SemVer {
    /// The version `major.minor.patch`, without further parts.
    pub fn new(major: u64, minor: u64, patch: u64) -> (version: SemVer)
        ensures
            version.deep_view() == plain_version(major as nat, minor as nat, patch as nat),
    {
        SemVer { major, minor, patch, pre: String::new(), build: String::new() }
    }

    /// Reads a version from its text.
    pub fn parse(text: &str) -> (parsed: Option<SemVer>)
        ensures
            parsed.deep_view() == semver_parsed(text@),
    {
        parse_semver(text)
    }

    /// The version as text.
    pub fn to_string(&self) -> (text: Option<String>)
        ensures
            text.deep_view() == semver_text(self.deep_view()),
    {
        render_semver(self)
    }
}

impl Clone for SemVer {
    fn clone(&self) -> (copy: SemVer)
        ensures
            copy == *self,
    {
        SemVer {
            major: self.major,
            minor: self.minor,
            patch: self.patch,
            pre: self.pre.clone(),
            build: self.build.clone(),
        }
    }
}

impl PartialEq for SemVer {
    fn eq(&self, other: &SemVer) -> (same: bool) {
        self.major == other.major && self.minor == other.minor && self.patch == other.patch
            && same_text(self.pre.as_str(), other.pre.as_str()) && same_text(
            self.build.as_str(),
            other.build.as_str(),
        )
    }
}

impl vstd::std_specs::cmp::PartialEqSpecImpl for SemVer {
    open spec fn obeys_eq_spec() -> bool {
        true
    }

    open spec fn eq_spec(&self, other: &SemVer) -> bool {
        self.deep_view() == other.deep_view()
    }
}

impl Eq for SemVer {

}

} // verus!
