use vstd::prelude::*;

verus! {

/// A semantic version as its parts: the three numbers, the pre-release tag
/// and the build metadata (each empty when there is none). A value is only
/// made by `parse`, so its parts are always ones that semver accepts.
#[derive(Debug, PartialEq)]
pub struct Version {
    major: u64,
    minor: u64,
    patch: u64,
    pre: String,
    build: String,
}

/// The parts of a semantic version, as plain values.
pub type VersionParts = (u64, u64, u64, Seq<char>, Seq<char>);

/// What semver reads from a text: the parts of the version, or nothing when
/// the text is not a semantic version.
pub uninterp spec fn parsed_version(text: Seq<char>) -> Option<(u64, u64, u64, Seq<char>, Seq<char>)>;

impl View for Version {
    type V = VersionParts;

    closed spec fn view(&self) -> VersionParts {
        (self.major, self.minor, self.patch, self.pre@, self.build@)
    }
}

/// The parts are those of some text that semver accepts.
pub open spec fn is_semver(v: VersionParts) -> bool {
    exists|t: Seq<char>| parsed_version(t) == Some(v)
}

/// Relies on `semver::Version::parse`: the parts it reads from `text`, or
/// an error when `text` is not a semantic version.
#[verifier::external_body]
fn semver_parse(text: &str) -> (r: Option<(u64, u64, u64, String, String)>)
    ensures
        match r {
            Some(p) => parsed_version(text@) == Some((p.0, p.1, p.2, p.3@, p.4@)),
            None => parsed_version(text@) is None,
        },
{
    match semver::Version::parse(text) {
        Ok(v) => Some((v.major, v.minor, v.patch, v.pre.as_str().to_string(), v.build.as_str().to_string())),
        Err(_) => None,
    }
}

/// Relies on the `Display` of `semver::Version` (with `Prerelease::new` and
/// `BuildMetadata::new` to rebuild it from its parts): the text it writes
/// for a version that semver accepted is read back by `parse` as the same
/// version.
#[verifier::external_body]
fn semver_render(v: &Version) -> (r: String)
    requires
        is_semver(v@),
    ensures
        parsed_version(r@) == Some(v@),
{
    semver::Version {
        major: v.major,
        minor: v.minor,
        patch: v.patch,
        pre: semver::Prerelease::new(&v.pre).unwrap(),
        build: semver::BuildMetadata::new(&v.build).unwrap(),
    }.to_string()
}

impl Clone for Version {
    fn clone(&self) -> (r: Version)
        ensures
            r@ == self@,
    {
        proof {
            use_type_invariant(self);
        }
        Version {
            major: self.major,
            minor: self.minor,
            patch: self.patch,
            pre: self.pre.clone(),
            build: self.build.clone(),
        }
    }
}

impl Version {
    /// The parts of every version are ones that semver accepts.
    #[verifier::type_invariant]
    spec fn accepted(self) -> bool {
        is_semver(self@)
    }

    /// Reads a semantic version from its text; `None` when semver refuses it.
    pub fn parse(text: &str) -> (r: Option<Version>)
        ensures
            match r {
                Some(v) => parsed_version(text@) == Some(v@),
                None => parsed_version(text@) is None,
            },
    {
        match semver_parse(text) {
            Some((major, minor, patch, pre, build)) => {
                let v = Version { major, minor, patch, pre, build };
                assert(parsed_version(text@) == Some(v@));
                Some(v)
            },
            None => None,
        }
    }

    /// The text of the version, which `parse` reads back as the same version.
    pub fn render(&self) -> (r: String)
        ensures
            parsed_version(r@) == Some(self@),
    {
        proof {
            use_type_invariant(self);
        }
        semver_render(self)
    }

    pub fn major(&self) -> (r: u64)
        ensures
            r == self@.0,
    {
        self.major
    }

    pub fn minor(&self) -> (r: u64)
        ensures
            r == self@.1,
    {
        self.minor
    }

    pub fn patch(&self) -> (r: u64)
        ensures
            r == self@.2,
    {
        self.patch
    }

    /// The pre-release tag; empty when there is none.
    pub fn pre(&self) -> (r: &str)
        ensures
            r@ == self@.3,
    {
        self.pre.as_str()
    }

    /// The build metadata; empty when there is none.
    pub fn build(&self) -> (r: &str)
        ensures
            r@ == self@.4,
    {
        self.build.as_str()
    }
}

} // verus!
