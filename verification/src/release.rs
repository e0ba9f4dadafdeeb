//! A fetched release: its tag, its normalized version, and its downloadable
//! assets, with the selection of the one asset that fits the host.
use vstd::prelude::*;

use crate::errors::ToolchainError;
use crate::host::HostArch;
use crate::host::HostOS;
use crate::strutil::ends_with_spec;
use crate::strutil::find_char;
use crate::strutil::find_char_from;
use crate::strutil::split_spec;
use crate::strutil::split_str;
use crate::strutil::str_eq;
use crate::strutil::str_ends_with;
use crate::version::release_suffix;
use crate::version::release_suffix_spec;
use crate::version::tag_to_name_spec;
use crate::version::ToolchainVersion;

verus! {

/// One downloadable file attached to a release.
#[derive(Debug)]
pub struct Asset {
    pub name: String,
    pub size: u64,
    pub url: String,
}

impl Clone for Asset {
    fn clone(&self) -> (r: Asset)
        ensures
            r.name@ == self.name@,
            r.size == self.size,
            r.url@ == self.url@,
    {
        Asset { name: self.name.clone(), size: self.size, url: self.url.clone() }
    }
}

/// The archive extensions an asset may carry.
pub open spec fn allowed_extension(ext: Seq<char>) -> bool {
    ext == "dmg"@ || ext == "tar.xz"@ || ext == "zip"@
}

/// Whether an asset name fits the host: the name is split on `-`, the
/// extension after the first `.` is cut off the last component, and the
/// components must then contain the OS token and one allowed architecture
/// token, with an allowed extension. A name whose last component has no
/// extension fits nothing.
pub open spec fn asset_name_matches(name: Seq<char>, os: HostOS, arches: Seq<HostArch>) -> bool {
    let comps = split_spec(name, '-');
    let last = comps.last();
    let d = find_char_from(last, '.', 0);
    if d == last.len() {
        false
    } else {
        let stem = last.take(d);
        let ext = last.skip(d + 1);
        let toks = comps.update(comps.len() - 1, stem);
        &&& toks.contains(os.token_spec())
        &&& exists|k: int| 0 <= k < arches.len() && toks.contains(arches[k].token_spec())
        &&& allowed_extension(ext)
    }
}

/// Whether any of the name's components (with the last one's extension cut)
/// equals the token.
fn tokens_contain(comps: &Vec<String>, stem: &str, tok: &str) -> (r: bool)
    requires
        comps@.len() >= 1,
    ensures
        r == comps@.map_values(|t: String| t@).update(comps@.len() - 1, stem@).contains(tok@),
{
    let ghost toks = comps@.map_values(|t: String| t@).update(comps@.len() - 1, stem@);
    let n = comps.len();
    let mut j: usize = 0;
    while j < n - 1
        invariant
            j <= n - 1,
            n == comps@.len(),
            n >= 1,
            toks == comps@.map_values(|t: String| t@).update(comps@.len() - 1, stem@),
            forall|k: int| 0 <= k < j ==> toks[k] != tok@,
        decreases n - j,
    {
        if str_eq(comps[j].as_str(), tok) {
            assert(toks[j as int] == tok@);
            return true;
        }
        j += 1;
    }
    if str_eq(stem, tok) {
        assert(toks[n - 1] == tok@);
        return true;
    }
    proof {
        assert forall|k: int| 0 <= k < toks.len() implies toks[k] != tok@ by {}
    }
    false
}

/// Decides whether one asset name fits the given OS and architectures.
pub fn asset_name_fits(name: &str, os: HostOS, arches: &Vec<HostArch>) -> (r: bool)
    ensures
        r == asset_name_matches(name@, os, arches@),
{
    let comps = split_str(name, '-');
    let n = comps.len();
    let last: &String = &comps[n - 1];
    proof {
        assert(comps@.map_values(|t: String| t@).last() == last@);
    }
    let d = find_char(last.as_str(), '.');
    let last_len = last.as_str().unicode_len();
    if d == last_len {
        return false;
    }
    let stem = last.as_str().substring_char(0, d);
    let ext = last.as_str().substring_char(d + 1, last_len);
    proof {
        assert(stem@ =~= last@.take(d as int));
        assert(ext@ =~= last@.skip(d + 1));
    }
    let correct_os = tokens_contain(&comps, stem, os.token());
    let mut correct_arch = false;
    let mut k: usize = 0;
    let an = arches.len();
    while k < an
        invariant
            k <= an,
            an == arches@.len(),
            comps@.len() >= 1,
            stem@ == comps@.map_values(|t: String| t@).last().take(d as int),
            correct_arch == exists|m: int|
                0 <= m < k && comps@.map_values(|t: String| t@).update(
                    comps@.len() - 1,
                    stem@,
                ).contains(arches@[m].token_spec()),
        decreases an - k,
    {
        if tokens_contain(&comps, stem, arches[k].token()) {
            correct_arch = true;
        }
        k += 1;
    }
    let correct_ext = str_eq(ext, "dmg") || str_eq(ext, "tar.xz") || str_eq(ext, "zip");
    correct_os && correct_arch && correct_ext
}

/// An immutable handle to one fetched release: its tag name, the version
/// derived from it, and its downloadable assets.
#[derive(Debug)]
pub struct ToolchainRelease {
    pub tag_name: String,
    pub version: ToolchainVersion,
    pub assets: Vec<Asset>,
}

impl ToolchainRelease {
    /// The stored version is the one the tag name normalizes to.
    pub open spec fn wf(self) -> bool {
        self.version.name@ == tag_to_name_spec(self.tag_name@)
    }

    pub fn new(tag_name: String, assets: Vec<Asset>) -> (r: ToolchainRelease)
        ensures
            r.tag_name == tag_name,
            r.assets == assets,
            r.wf(),
    {
        let version = ToolchainVersion::from_tag_name(tag_name.as_str());
        ToolchainRelease { tag_name, version, assets }
    }

    pub fn version(&self) -> (r: &ToolchainVersion)
        ensures
            r == &self.version,
    {
        &self.version
    }

    /// Selects the first asset whose name fits the host, or fails with the
    /// full candidate list.
    pub fn asset_for(&self, os: HostOS, allowed_arches: &Vec<HostArch>) -> (r: Result<
        Asset,
        ToolchainError,
    >)
        ensures
            match r {
                Ok(a) => exists|i: int|
                    {
                        &&& 0 <= i < self.assets@.len()
                        &&& #[trigger] asset_name_matches(self.assets@[i].name@, os, allowed_arches@)
                        &&& forall|j: int|
                            0 <= j < i ==> !asset_name_matches(
                                self.assets@[j].name@,
                                os,
                                allowed_arches@,
                            )
                        &&& a.name@ == self.assets@[i].name@
                        &&& a.size == self.assets@[i].size
                        &&& a.url@ == self.assets@[i].url@
                    },
                Err(e) => {
                    &&& forall|j: int|
                        0 <= j < self.assets@.len() ==> !asset_name_matches(
                            #[trigger] self.assets@[j].name@,
                            os,
                            allowed_arches@,
                        )
                    &&& e matches ToolchainError::ReleaseAssetMissing {
                        allowed_os,
                        allowed_arches: aa,
                        candidates,
                    } && allowed_os == os && aa@ == allowed_arches@ && candidates@.map_values(
                        |t: String| t@,
                    ) == self.assets@.map_values(|a: Asset| a.name@)
                },
            },
    {
        let n = self.assets.len();
        let mut i: usize = 0;
        while i < n
            invariant
                i <= n,
                n == self.assets@.len(),
                forall|j: int|
                    0 <= j < i ==> !asset_name_matches(
                        #[trigger] self.assets@[j].name@,
                        os,
                        allowed_arches@,
                    ),
            decreases n - i,
        {
            let a: &Asset = &self.assets[i];
            if asset_name_fits(a.name.as_str(), os, allowed_arches) {
                return Ok(a.clone());
            }
            i += 1;
        }
        let mut candidates: Vec<String> = Vec::new();
        let mut j: usize = 0;
        while j < n
            invariant
                j <= n,
                n == self.assets@.len(),
                candidates@.map_values(|t: String| t@) == self.assets@.map_values(
                    |a: Asset| a.name@,
                ).take(j as int),
            decreases n - j,
        {
            let ghost pre = candidates@;
            candidates.push(self.assets[j].name.clone());
            proof {
                assert(candidates@.map_values(|t: String| t@) =~= pre.map_values(|t: String| t@)
                    + seq![self.assets@[j as int].name@]);
                assert(self.assets@.map_values(|a: Asset| a.name@).take(j + 1) =~= self.assets@
                    .map_values(|a: Asset| a.name@).take(j as int) + seq![
                    self.assets@[j as int].name@,
                ]);
            }
            j += 1;
        }
        proof {
            assert(self.assets@.map_values(|a: Asset| a.name@).take(n as int) =~= self.assets@
                .map_values(|a: Asset| a.name@));
        }
        Err(
            ToolchainError::ReleaseAssetMissing {
                allowed_os: os,
                allowed_arches: allowed_arches.clone(),
                candidates,
            },
        )
    }
}

/// A selected asset is always extractable: any name that fits the host
/// carries one of the allowed extensions, and the extraction dispatch
/// recognizes every allowed extension. An unsupported suffix is therefore
/// unreachable after selection.
pub proof fn lemma_match_implies_supported(name: Seq<char>, os: HostOS, arches: Seq<HostArch>)
    requires
        asset_name_matches(name, os, arches),
    ensures
        crate::extract::archive_kind_of(name) is Some,
{
    let comps = split_spec(name, '-');
    crate::strutil::lemma_split_from_len(name, '-', 0);
    let last = comps.last();
    crate::strutil::lemma_split_last_is_suffix(name, '-', 0);
    let d = find_char_from(last, '.', 0);
    crate::strutil::lemma_find_char_props(last, '.', 0);
    let ext = last.skip(d + 1);
    let dotted = seq!['.'] + ext;
    assert(last.skip(d) =~= dotted);
    assert(ends_with_spec(last, dotted)) by {
        assert(last.skip(last.len() - dotted.len()) =~= last.skip(d));
    }
    crate::strutil::lemma_suffix_transitive(name, last, dotted);
    if ext == "zip"@ {
        assert(".zip"@ =~= dotted) by {
            reveal_strlit(".zip");
            reveal_strlit("zip");
        }
    } else if ext == "dmg"@ {
        assert(".dmg"@ =~= dotted) by {
            reveal_strlit(".dmg");
            reveal_strlit("dmg");
        }
    } else {
        assert(".tar.xz"@ =~= dotted) by {
            reveal_strlit(".tar.xz");
            reveal_strlit("tar.xz");
        }
    }
}

/// Selects the first release whose tag carries the product suffix, or fails
/// with all candidate tags attached.
pub fn pick_latest_release(releases: Vec<ToolchainRelease>) -> (r: Result<
    ToolchainRelease,
    ToolchainError,
>)
    ensures
        match r {
            Ok(rel) => exists|i: int|
                {
                    &&& 0 <= i < releases@.len()
                    &&& #[trigger] ends_with_spec(releases@[i].tag_name@, release_suffix_spec())
                    &&& forall|j: int|
                        0 <= j < i ==> !ends_with_spec(
                            #[trigger] releases@[j].tag_name@,
                            release_suffix_spec(),
                        )
                    &&& rel == releases@[i]
                },
            Err(e) => {
                &&& forall|j: int|
                    0 <= j < releases@.len() ==> !ends_with_spec(
                        #[trigger] releases@[j].tag_name@,
                        release_suffix_spec(),
                    )
                &&& e matches ToolchainError::LatestReleaseMissing { candidates }
                    && candidates@.map_values(|t: String| t@) == releases@.map_values(
                    |r: ToolchainRelease| r.tag_name@,
                )
            },
        },
{
    let n = releases.len();
    let mut i: usize = 0;
    let mut rels = releases;
    let ghost orig = rels@;
    while i < n
        invariant
            i <= n,
            n == rels@.len(),
            rels@ == orig,
            orig == releases@,
            forall|j: int|
                0 <= j < i ==> !ends_with_spec(#[trigger] rels@[j].tag_name@, release_suffix_spec()),
        decreases n - i,
    {
        if str_ends_with(rels[i].tag_name.as_str(), release_suffix()) {
            let rel = rels.remove(i);
            proof {
                assert(ends_with_spec(releases@[i as int].tag_name@, release_suffix_spec()));
            }
            return Ok(rel);
        }
        i += 1;
    }
    let mut candidates: Vec<String> = Vec::new();
    let mut j: usize = 0;
    while j < n
        invariant
            j <= n,
            n == rels@.len(),
            rels@ == orig,
            orig == releases@,
            candidates@.map_values(|t: String| t@) == rels@.map_values(
                |r: ToolchainRelease| r.tag_name@,
            ).take(j as int),
        decreases n - j,
    {
        let ghost pre = candidates@;
        candidates.push(rels[j].tag_name.clone());
        proof {
            assert(candidates@.map_values(|t: String| t@) =~= pre.map_values(|t: String| t@)
                + seq![rels@[j as int].tag_name@]);
            assert(rels@.map_values(|r: ToolchainRelease| r.tag_name@).take(j + 1) =~= rels@
                .map_values(|r: ToolchainRelease| r.tag_name@).take(j as int) + seq![
                rels@[j as int].tag_name@,
            ]);
        }
        j += 1;
    }
    proof {
        assert(rels@.map_values(|r: ToolchainRelease| r.tag_name@).take(n as int) =~= rels@
            .map_values(|r: ToolchainRelease| r.tag_name@));
    }
    Err(ToolchainError::LatestReleaseMissing { candidates })
}

} // verus!
