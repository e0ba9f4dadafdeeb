//! Toolchain versions: a name such as `18.1.0`, normalized from release tag
//! names by stripping the release prefix and product suffix.
use vstd::prelude::*;

use crate::strutil::str_strip_prefix;
use crate::strutil::str_strip_suffix;
use crate::strutil::strip_prefix_spec;
use crate::strutil::strip_suffix_spec;

verus! {

/// The prefix of every release tag of the upstream repository.
pub open spec fn release_prefix_spec() -> Seq<char> {
    "release-"@
}

/// The product suffix that marks a tag as an embedded-toolchain release.
pub open spec fn release_suffix_spec() -> Seq<char> {
    "-ATfE"@
}

pub fn release_prefix() -> (r: &'static str)
    ensures
        r@ == release_prefix_spec(),
{
    "release-"
}

pub fn release_suffix() -> (r: &'static str)
    ensures
        r@ == release_suffix_spec(),
{
    "-ATfE"
}

/// A toolchain version, identified by its name alone.
#[derive(Debug)]
pub struct ToolchainVersion {
    pub name: String,
}

impl Clone for ToolchainVersion {
    fn clone(&self) -> (r: ToolchainVersion)
        ensures
            r == *self,
    {
        let r = ToolchainVersion { name: self.name.clone() };
        proof {
            assert(r.name == self.name);
        }
        r
    }
}

impl PartialEq for ToolchainVersion {
    fn eq(&self, other: &ToolchainVersion) -> (r: bool) {
        self.name == other.name
    }
}

impl vstd::std_specs::cmp::PartialEqSpecImpl for ToolchainVersion {
    open spec fn obeys_eq_spec() -> bool {
        true
    }

    open spec fn eq_spec(&self, other: &ToolchainVersion) -> bool {
        self.name@ == other.name@
    }
}

/// A version name derived from a tag name: the tag with the release prefix
/// and product suffix stripped, each when present.
pub open spec fn tag_to_name_spec(tag: Seq<char>) -> Seq<char> {
    strip_suffix_spec(strip_prefix_spec(tag, release_prefix_spec()), release_suffix_spec())
}

impl ToolchainVersion {
    pub fn named(name: String) -> (r: ToolchainVersion)
        ensures
            r.name == name,
    {
        ToolchainVersion { name }
    }

    pub fn from_tag_name(tag_name: &str) -> (r: ToolchainVersion)
        ensures
            r.name@ == tag_to_name_spec(tag_name@),
    {
        let stripped = str_strip_prefix(tag_name, release_prefix());
        let name = str_strip_suffix(stripped.as_str(), release_suffix());
        ToolchainVersion { name }
    }

    /// The version name with a leading `v` removed, as users write versions
    /// on a command line.
    pub fn from_version_str(version: &str) -> (r: ToolchainVersion)
        ensures
            r.name@ == strip_prefix_spec(version@, "v"@),
    {
        let name = str_strip_prefix(version, "v");
        ToolchainVersion { name }
    }

    /// The release tag that carries this version.
    pub fn to_tag_name(&self) -> (r: String)
        ensures
            r@ == release_prefix_spec() + self.name@ + release_suffix_spec(),
    {
        let mut tag = String::new();
        tag.append(release_prefix());
        tag.append(self.name.as_str());
        tag.append(release_suffix());
        proof {
            assert(tag@ =~= release_prefix_spec() + self.name@ + release_suffix_spec());
        }
        tag
    }

    /// The version name as displayed: a leading `v` followed by the name.
    pub fn display_string(&self) -> (r: String)
        ensures
            r@ == "v"@ + self.name@,
    {
        let mut s = String::new();
        s.append("v");
        s.append(self.name.as_str());
        proof {
            assert(s@ =~= "v"@ + self.name@);
        }
        s
    }
}

/// Normalization round-trip: turning a version into its release tag and
/// reading the tag back yields the same version name.
pub proof fn lemma_tag_name_round_trip(name: Seq<char>)
    ensures
        tag_to_name_spec(release_prefix_spec() + name + release_suffix_spec()) == name,
{
    let p = release_prefix_spec();
    let s = release_suffix_spec();
    let tag = p + name + s;
    assert(tag.take(p.len() as int) =~= p);
    let rest = tag.skip(p.len() as int);
    assert(rest =~= name + s);
    assert(rest.skip(rest.len() - s.len()) =~= s);
    assert(rest.take(rest.len() - s.len()) =~= name);
}

} // verus!
