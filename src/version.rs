//! Protocol version negotiation between a client and a server.
//!
//! Versions are SemVer versions. Their text is parsed, and two versions are
//! ordered, by the `semver` crate; the negotiation itself is this module's.

use crate::error::{validation_error, FleetNetError};
use vstd::prelude::*;

verus! {

/// The parts of a SemVer version: major, minor, patch, pre-release text and
/// build metadata text.
pub type VersionParts = (u64, u64, u64, Seq<char>, Seq<char>);

/// The parts of the SemVer version text `text`, or `None` when it is not a
/// SemVer version.
pub uninterp spec fn semver_parts(text: Seq<char>) -> Option<VersionParts>;

/// Whether the version with parts `a` has lower SemVer precedence than the one
/// with parts `b`, in the order of `semver::Version`.
pub uninterp spec fn semver_lt(a: VersionParts, b: VersionParts) -> bool;

/// Relies on semver's `Version::parse`: the numeric parts, the pre-release text
/// and the build metadata text of a valid SemVer version, or its refusal.
#[verifier::external_body]
fn parse_semver(text: &str) -> (r: Option<(u64, u64, u64, String, String)>)
    ensures
        match semver_parts(text@) {
            None => r is None,
            Some(p) => r is Some && r->Some_0.0 == p.0 && r->Some_0.1 == p.1 && r->Some_0.2 == p.2
                && r->Some_0.3@ == p.3 && r->Some_0.4@ == p.4,
        },
{
    semver::Version::parse(text).ok().map(
        |v| (v.major, v.minor, v.patch, v.pre.as_str().to_string(), v.build.as_str().to_string()),
    )
}

/// A SemVer version. Its pre-release and build texts are empty or come from
/// a parsed version, so `semver` accepts them again.
#[derive(Debug, PartialEq, Eq, Hash)]
pub struct ProtocolVersion {
    major: u64,
    minor: u64,
    patch: u64,
    pre: String,
    build: String,
}

impl View for ProtocolVersion {
    type V = VersionParts;

    closed spec fn view(&self) -> VersionParts {
        (self.major, self.minor, self.patch, self.pre@, self.build@)
    }
}

/// Relies on semver: `Prerelease::new` and `BuildMetadata::new` accept the
/// empty text and every text that `Version::parse` produced, and the `Ord` of
/// `Version` then gives SemVer precedence (build metadata breaking ties).
#[verifier::external_body]
fn semver_precedes(a: &ProtocolVersion, b: &ProtocolVersion) -> (r: bool)
    requires
        a.semver_texts(),
        b.semver_texts(),
    ensures
        r == semver_lt(a@, b@),
{
    let to_semver = |v: &ProtocolVersion| semver::Version {
        major: v.major,
        minor: v.minor,
        patch: v.patch,
        pre: semver::Prerelease::new(&v.pre).expect("pre-release text from a parsed version"),
        build: semver::BuildMetadata::new(&v.build).expect("build text from a parsed version"),
    };
    to_semver(a) < to_semver(b)
}

impl ProtocolVersion {
    #[verifier::type_invariant]
    spec fn semver_texts(self) -> bool {
        (self.pre@.len() == 0 && self.build@.len() == 0) || exists|t: Seq<char>| semver_parts(t) == Some(self@)
    }

    /// The release version `major.minor.patch`, without pre-release or build.
    pub fn new(major: u64, minor: u64, patch: u64) -> (r: Self)
        ensures
            r@ == (major, minor, patch, Seq::<char>::empty(), Seq::<char>::empty()),
    {
        ProtocolVersion { major, minor, patch, pre: String::new(), build: String::new() }
    }

    /// The version written as SemVer text (`"1.2.3"`, `"1.0.0-rc.1+build.5"`);
    /// a validation error when the text is not a SemVer version.
    pub fn parse(text: &str) -> (r: Result<ProtocolVersion, FleetNetError>)
        ensures
            match semver_parts(text@) {
                Some(p) => r is Ok && r->Ok_0@ == p,
                None => r is Err && r->Err_0 is ValidationError,
            },
    {
        match parse_semver(text) {
            None => Err(validation_error("Invalid version")),
            Some((major, minor, patch, pre, build)) => Ok(ProtocolVersion { major, minor, patch, pre, build }),
        }
    }

    pub fn major(&self) -> (r: u64)
        ensures
            r == self@.0,
    {
        self.major
    }

    pub fn minor(&self) -> (r: u64)
        ensures
            r == self@.1,
    {
        self.minor
    }

    pub fn patch(&self) -> (r: u64)
        ensures
            r == self@.2,
    {
        self.patch
    }

    /// The pre-release text, empty for a release.
    pub fn pre(&self) -> (r: &str)
        ensures
            r@ == self@.3,
    {
        self.pre.as_str()
    }

    /// The build metadata text, often empty.
    pub fn build(&self) -> (r: &str)
        ensures
            r@ == self@.4,
    {
        self.build.as_str()
    }

    /// Whether the two versions are the same: equal numbers and texts.
    pub fn same_as(&self, other: &ProtocolVersion) -> (r: bool)
        ensures
            r == (self@ == other@),
    {
        self.major == other.major && self.minor == other.minor && self.patch == other.patch && self.pre
            == other.pre && self.build == other.build
    }

    /// Whether `self` has lower SemVer precedence than `other`.
    pub fn precedes(&self, other: &ProtocolVersion) -> (r: bool)
        ensures
            r == semver_lt(self@, other@),
    {
        proof {
            use_type_invariant(self);
            use_type_invariant(other);
        }
        semver_precedes(self, other)
    }

    /// Another value of the same version.
    fn duplicate(&self) -> (r: ProtocolVersion)
        ensures
            r@ == self@,
    {
        proof {
            use_type_invariant(self);
        }
        ProtocolVersion {
            major: self.major,
            minor: self.minor,
            patch: self.patch,
            pre: self.pre.clone(),
            build: self.build.clone(),
        }
    }
}

impl Clone for ProtocolVersion {
    fn clone(&self) -> (r: Self)
        ensures
            r@ == self@,
    {
        self.duplicate()
    }
}

/// The parts of each version of `v`.
pub open spec fn parts_of(v: Seq<ProtocolVersion>) -> Seq<VersionParts> {
    v.map_values(|x: ProtocolVersion| x@)
}

/// The version agreed on when the client offers `client`, in order, and the
/// server supports `supported`: the maximum, by SemVer precedence, of the
/// offered versions that are supported; of equal ones the later offered.
/// `None` when no offered version is supported.
pub open spec fn negotiated(client: Seq<VersionParts>, supported: Seq<VersionParts>) -> Option<VersionParts>
    decreases client.len(),
{
    if client.len() == 0 {
        None
    } else {
        let earlier = negotiated(client.drop_last(), supported);
        let v = client.last();
        if supported.contains(v) {
            match earlier {
                Some(b) => if semver_lt(v, b) {
                    Some(b)
                } else {
                    Some(v)
                },
                None => Some(v),
            }
        } else {
            earlier
        }
    }
}

/// The versions a server supports and the one last agreed on.
#[derive(Debug, Clone)]
pub struct Version {
    current: Option<ProtocolVersion>,
    supported_versions: Vec<ProtocolVersion>,
}

/// Whether a version with the parts of `x` occurs in `v`.
fn contains_version(v: &Vec<ProtocolVersion>, x: &ProtocolVersion) -> (r: bool)
    ensures
        r == parts_of(v@).contains(x@),
{
    let mut i: usize = 0;
    while i < v.len()
        invariant
            0 <= i <= v@.len(),
            forall|j: int| 0 <= j < i ==> v@[j]@ != x@,
        decreases v@.len() - i,
    {
        if v[i].same_as(x) {
            assert(parts_of(v@)[i as int] == x@);
            return true;
        }
        i = i + 1;
    }
    proof {
        if parts_of(v@).contains(x@) {
            let k = choose|k: int| 0 <= k < parts_of(v@).len() && parts_of(v@)[k] == x@;
            assert(v@[k]@ == x@);
        }
    }
    false
}

impl Version {
    /// Supports exactly `supported`, with nothing agreed yet.
    pub fn new(supported: &[ProtocolVersion]) -> (r: Self)
        ensures
            r.agreed() is None,
            r.supported() == parts_of(supported@),
    {
        let mut supported_versions: Vec<ProtocolVersion> = Vec::new();
        let mut i: usize = 0;
        while i < supported.len()
            invariant
                0 <= i <= supported@.len(),
                supported_versions@.len() == i,
                forall|j: int| 0 <= j < i ==> #[trigger] supported_versions@[j]@ == supported@[j]@,
            decreases supported@.len() - i,
        {
            supported_versions.push(supported[i].duplicate());
            i = i + 1;
        }
        assert(parts_of(supported_versions@) =~= parts_of(supported@));
        Version { current: None, supported_versions }
    }

    /// The parts of the version last agreed on.
    pub closed spec fn agreed(&self) -> Option<VersionParts> {
        match self.current {
            Some(v) => Some(v@),
            None => None,
        }
    }

    /// The parts of the supported versions.
    pub closed spec fn supported(&self) -> Seq<VersionParts> {
        parts_of(self.supported_versions@)
    }

    /// The version last agreed on, if any.
    pub fn current(&self) -> (r: Option<ProtocolVersion>)
        ensures
            match r {
                Some(v) => self.agreed() == Some(v@),
                None => self.agreed() is None,
            },
    {
        match &self.current {
            Some(v) => Some(v.duplicate()),
            None => None,
        }
    }

    /// Agrees on the highest version, by SemVer precedence, that the client
    /// offers and the server supports, and records it. A network error when
    /// the client offers nothing, when the server supports nothing, or when
    /// they share no version; the record is then unchanged.
    pub fn negotiate(&mut self, client_versions: &Vec<ProtocolVersion>) -> (r: Result<ProtocolVersion, FleetNetError>)
        ensures
            final(self).supported() == old(self).supported(),
            client_versions@.len() == 0 ==> r is Err,
            old(self).supported().len() == 0 ==> r is Err,
            match negotiated(parts_of(client_versions@), old(self).supported()) {
                None => r is Err && r->Err_0 is NetworkError && final(self).agreed() == old(self).agreed(),
                Some(b) => r is Ok && r->Ok_0@ == b && final(self).agreed() == Some(b),
            },
    {
        if client_versions.len() == 0 {
            assert(parts_of(client_versions@).len() == 0);
            return Err(FleetNetError::NetworkError("No client versions provided for negotiation".to_owned()));
        }
        if self.supported_versions.len() == 0 {
            proof {
                lemma_nothing_supported(parts_of(client_versions@), self.supported());
            }
            return Err(FleetNetError::NetworkError("No supported versions available for negotiation".to_owned()));
        }
        let ghost offered = parts_of(client_versions@);
        let mut best: Option<ProtocolVersion> = None;
        let mut i: usize = 0;
        while i < client_versions.len()
            invariant
                0 <= i <= client_versions@.len(),
                *self == *old(self),
                offered == parts_of(client_versions@),
                match best {
                    Some(b) => negotiated(offered.take(i as int), self.supported()) == Some(b@),
                    None => negotiated(offered.take(i as int), self.supported()) is None,
                },
            decreases client_versions@.len() - i,
        {
            assert(offered.take(i + 1).drop_last() =~= offered.take(i as int));
            assert(offered.take(i + 1).last() == client_versions@[i as int]@);
            let v = &client_versions[i];
            if contains_version(&self.supported_versions, v) {
                let replace = match &best {
                    None => true,
                    Some(b) => !v.precedes(b),
                };
                if replace {
                    best = Some(v.duplicate());
                }
            }
            i = i + 1;
        }
        assert(offered.take(i as int) =~= offered);
        match best {
            Some(b) => {
                self.current = Some(b.duplicate());
                Ok(b)
            },
            None => Err(FleetNetError::NetworkError("No compatible versions".to_owned())),
        }
    }
}

proof fn lemma_nothing_supported(client: Seq<VersionParts>, supported: Seq<VersionParts>)
    requires
        supported.len() == 0,
    ensures
        negotiated(client, supported) is None,
    decreases client.len(),
{
    if client.len() > 0 {
        lemma_nothing_supported(client.drop_last(), supported);
    }
}

} // verus!
