//! Archive extraction, planned as data: the archive bytes are parsed by the
//! format crates, and the library decides which entries land where under the
//! destination, applying the root-unwrap policy.
use vstd::prelude::*;

use std::io::Read;

use crate::errors::ExtractError;
use crate::errors::ToolchainError;
use crate::strutil::ends_with_spec;
use crate::strutil::find_char;
use crate::strutil::find_char_from;
use crate::strutil::starts_with_spec;
use crate::strutil::str_starts_with;
use crate::strutil::str_strip_suffix;
use crate::strutil::strip_suffix_spec;

verus! {

/// How one archive entry materializes on disk.
#[derive(Debug, Clone, Copy, PartialEq, Eq, Structural)]
pub enum EntryKind {
    File,
    Dir,
    Symlink,
}

/// One entry of an archive: its path inside the archive (`/`-separated),
/// what it is, the symlink target when it is a link, and its contents when
/// it is a regular file.
#[derive(Debug)]
pub struct ArchiveEntry {
    pub name: String,
    pub kind: EntryKind,
    pub link_target: String,
    pub data: Vec<u8>,
}

/// The mathematical image of an archive entry.
pub struct EntryModel {
    pub name: Seq<char>,
    pub kind: EntryKind,
    pub link_target: Seq<char>,
    pub data: Seq<u8>,
}

impl View for ArchiveEntry {
    type V = EntryModel;

    open spec fn view(&self) -> EntryModel {
        EntryModel {
            name: self.name@,
            kind: self.kind,
            link_target: self.link_target@,
            data: self.data@,
        }
    }
}

/// The entry list a zip archive parses to, or nothing when the bytes are not
/// a well-formed zip archive.
pub uninterp spec fn zip_entries_of(bytes: Seq<u8>) -> Option<Seq<EntryModel>>;

/// The stream that xz-compressed bytes decompress to, or nothing when they
/// are not a well-formed xz stream.
pub uninterp spec fn xz_decoded_of(bytes: Seq<u8>) -> Option<Seq<u8>>;

/// The entry list a tar archive parses to, or nothing when the bytes are
/// not a well-formed tar archive.
pub uninterp spec fn tar_entries_of(bytes: Seq<u8>) -> Option<Seq<EntryModel>>;

/// Relies on zip::ZipArchive reading from an in-memory cursor: the entry
/// list, each entry's name, kind, and decompressed contents are functions
/// of the archive bytes alone.
#[verifier::external_body]
fn read_zip_entries(bytes: &Vec<u8>) -> (r: Result<Vec<ArchiveEntry>, String>)
    ensures
        match r {
            Ok(v) => zip_entries_of(bytes@) == Some(v@.map_values(|e: ArchiveEntry| e@)),
            Err(_) => zip_entries_of(bytes@) is None,
        },
{
    let cursor = std::io::Cursor::new(bytes.as_slice());
    let mut archive = zip::ZipArchive::new(cursor).map_err(|e| e.to_string())?;
    let mut out = Vec::new();
    for i in 0..archive.len() {
        let mut f = archive.by_index(i).map_err(|e| e.to_string())?;
        let mut data = Vec::new();
        f.read_to_end(&mut data).map_err(|e| e.to_string())?;
        let kind = if f.is_dir() { EntryKind::Dir } else { EntryKind::File };
        let name = f.name().to_string();
        out.push(ArchiveEntry { name, kind, link_target: String::new(), data });
    }
    Ok(out)
}

/// Relies on liblzma's XzDecoder reading from an in-memory slice: the
/// decompressed stream is a function of the compressed bytes alone.
#[verifier::external_body]
fn xz_decompress(bytes: &Vec<u8>) -> (r: Result<Vec<u8>, String>)
    ensures
        match r {
            Ok(v) => xz_decoded_of(bytes@) == Some(v@),
            Err(_) => xz_decoded_of(bytes@) is None,
        },
{
    let mut decoder = liblzma::read::XzDecoder::new(bytes.as_slice());
    let mut out = Vec::new();
    decoder.read_to_end(&mut out).map_err(|e| e.to_string())?;
    Ok(out)
}

#[verifier::external_type_specification]
#[verifier::external_body]
pub struct ExIoError(std::io::Error);

/// Relies on std's Display for io::Error: renders the error's message.
#[verifier::external_body]
fn io_error_message(e: &std::io::Error) -> String {
    e.to_string()
}

/// Relies on tar::Archive reading from an in-memory slice: entry paths,
/// kinds, link targets, and contents are functions of the archive bytes
/// alone.
#[verifier::external_body]
fn read_tar_entries(bytes: &Vec<u8>) -> (r: Result<Vec<ArchiveEntry>, std::io::Error>)
    ensures
        match r {
            Ok(v) => tar_entries_of(bytes@) == Some(v@.map_values(|e: ArchiveEntry| e@)),
            Err(_) => tar_entries_of(bytes@) is None,
        },
{
    let mut archive = tar::Archive::new(bytes.as_slice());
    let mut out = Vec::new();
    for entry in archive.entries()? {
        let mut entry = entry?;
        let name = entry.path()?.to_string_lossy().into_owned();
        let ty = entry.header().entry_type();
        let link = entry.link_name().ok().flatten();
        let link_target = link.map(|p| p.to_string_lossy().into_owned()).unwrap_or_default();
        let kind = if ty.is_dir() { EntryKind::Dir } else if ty.is_symlink() { EntryKind::Symlink } else { EntryKind::File };
        let mut data = Vec::new();
        entry.read_to_end(&mut data)?;
        out.push(ArchiveEntry { name, kind, link_target, data });
    }
    Ok(out)
}

/// The strategies an archive can be extracted with, selected by file-name
/// suffix.
#[derive(Debug, Clone, Copy, PartialEq, Eq, Structural)]
pub enum ArchiveKind {
    Dmg,
    Zip,
    TarXz,
}

/// The extraction strategy a file name selects, or nothing for an
/// unsupported suffix.
pub open spec fn archive_kind_of(name: Seq<char>) -> Option<ArchiveKind> {
    if ends_with_spec(name, ".dmg"@) {
        Some(ArchiveKind::Dmg)
    } else if ends_with_spec(name, ".zip"@) {
        Some(ArchiveKind::Zip)
    } else if ends_with_spec(name, ".tar.xz"@) {
        Some(ArchiveKind::TarXz)
    } else {
        None
    }
}

/// Selects the extraction strategy by the file name's suffix.
pub fn archive_kind(file_name: &str) -> (r: Option<ArchiveKind>)
    ensures
        r == archive_kind_of(file_name@),
{
    if crate::strutil::str_ends_with(file_name, ".dmg") {
        Some(ArchiveKind::Dmg)
    } else if crate::strutil::str_ends_with(file_name, ".zip") {
        Some(ArchiveKind::Zip)
    } else if crate::strutil::str_ends_with(file_name, ".tar.xz") {
        Some(ArchiveKind::TarXz)
    } else {
        None
    }
}

/// The leading path component of `name`: everything before the first `/`.
pub open spec fn top_component(name: Seq<char>) -> Seq<char> {
    name.take(find_char_from(name, '/', 0))
}

/// Whether the archive's entries all sit under one wrapping top-level
/// directory: there is at least one entry, the first entry's leading
/// component is nonempty, and every entry path continues below it.
pub open spec fn has_wrapping_root(names: Seq<Seq<char>>) -> bool {
    &&& names.len() > 0
    &&& top_component(names[0]).len() > 0
    &&& forall|i: int|
        0 <= i < names.len() ==> starts_with_spec(#[trigger] names[i], top_component(names[0]) + "/"@)
}

/// An entry renamed for extraction under a stripped prefix: the prefix is
/// dropped from its path, as is a trailing slash.
pub open spec fn renamed_entry(e: EntryModel, prefix: Seq<char>) -> EntryModel {
    EntryModel {
        name: strip_suffix_spec(e.name.skip(prefix.len() as int), "/"@),
        kind: e.kind,
        link_target: e.link_target,
        data: e.data,
    }
}

/// The extraction plan for the entries from `i` on: those under `prefix`,
/// renamed with the prefix dropped; entries elsewhere, and the prefix
/// directory itself (whose stripped name is empty), do not appear.
pub open spec fn strip_under(entries: Seq<EntryModel>, prefix: Seq<char>, i: int) -> Seq<
    EntryModel,
>
    decreases entries.len() - i,
{
    if i < 0 || i >= entries.len() {
        Seq::empty()
    } else {
        let rest = strip_under(entries, prefix, i + 1);
        let e = entries[i];
        if starts_with_spec(e.name, prefix) && renamed_entry(e, prefix).name.len() > 0 {
            seq![renamed_entry(e, prefix)] + rest
        } else {
            rest
        }
    }
}

/// The root-unwrap plan of a zip archive: with a wrapping root, its
/// contents are promoted to the destination's direct contents; without one,
/// entries land as they are.
pub open spec fn unwrap_plan(entries: Seq<EntryModel>) -> Seq<EntryModel> {
    let names = entries.map_values(|e: EntryModel| e.name);
    if has_wrapping_root(names) {
        strip_under(entries, top_component(names[0]) + "/"@, 0)
    } else {
        strip_under(entries, Seq::empty(), 0)
    }
}

/// Every planned entry comes from an archive entry under the prefix, with
/// exactly the prefix (and any trailing slash) removed; the stripped
/// directory itself is never planned.
pub proof fn lemma_strip_under_names(entries: Seq<EntryModel>, prefix: Seq<char>, i: int)
    ensures
        forall|k: int|
            #![trigger strip_under(entries, prefix, i)[k]]
            0 <= k < strip_under(entries, prefix, i).len() ==> exists|j: int|
                {
                    &&& i <= j < entries.len()
                    &&& starts_with_spec(#[trigger] entries[j].name, prefix)
                    &&& strip_under(entries, prefix, i)[k] == renamed_entry(entries[j], prefix)
                },
        forall|k: int|
            0 <= k < strip_under(entries, prefix, i).len() ==> #[trigger] strip_under(
                entries,
                prefix,
                i,
            )[k].name.len() > 0,
    decreases entries.len() - i,
{
    if i < 0 || i >= entries.len() {
    } else {
        lemma_strip_under_names(entries, prefix, i + 1);
        let rest = strip_under(entries, prefix, i + 1);
        let e = entries[i];
        if starts_with_spec(e.name, prefix) && renamed_entry(e, prefix).name.len() > 0 {
            assert forall|k: int|
                #![trigger strip_under(entries, prefix, i)[k]]
                0 <= k < strip_under(entries, prefix, i).len() implies exists|j: int|
                {
                    &&& i <= j < entries.len()
                    &&& starts_with_spec(#[trigger] entries[j].name, prefix)
                    &&& strip_under(entries, prefix, i)[k] == renamed_entry(entries[j], prefix)
                } by {
                if k == 0 {
                    assert(starts_with_spec(entries[i].name, prefix) && strip_under(
                        entries,
                        prefix,
                        i,
                    )[0] == renamed_entry(entries[i], prefix));
                } else {
                    assert(strip_under(entries, prefix, i)[k] == rest[k - 1]);
                }
            }
        }
    }
}

/// Root-stripping policy: a wrapping root is dropped from every extracted
/// path and is itself never extracted; without a wrapping root, paths are
/// kept as they stand.
pub proof fn lemma_root_unwrap(entries: Seq<EntryModel>)
    ensures
        ({
            let names = entries.map_values(|e: EntryModel| e.name);
            let plan = unwrap_plan(entries);
            &&& forall|k: int| 0 <= k < plan.len() ==> #[trigger] plan[k].name.len() > 0
            &&& has_wrapping_root(names) ==> plan == strip_under(
                entries,
                top_component(names[0]) + "/"@,
                0,
            )
            &&& !has_wrapping_root(names) ==> plan == strip_under(entries, Seq::empty(), 0)
            &&& forall|k: int|
                #![trigger plan[k]]
                0 <= k < plan.len() ==> exists|j: int|
                    {
                        let prefix = if has_wrapping_root(names) {
                            top_component(names[0]) + "/"@
                        } else {
                            Seq::empty()
                        };
                        &&& 0 <= j < entries.len()
                        &&& starts_with_spec(#[trigger] entries[j].name, prefix)
                        &&& plan[k] == renamed_entry(entries[j], prefix)
                    }
        }),
{
    let names = entries.map_values(|e: EntryModel| e.name);
    let prefix = if has_wrapping_root(names) {
        top_component(names[0]) + "/"@
    } else {
        Seq::<char>::empty()
    };
    lemma_strip_under_names(entries, prefix, 0);
}

/// Computes the wrapping root of the entries, when they have one.
fn find_wrapping_root(entries: &Vec<ArchiveEntry>) -> (r: Option<String>)
    ensures
        ({
            let names = entries@.map_values(|e: ArchiveEntry| e@).map_values(
                |e: EntryModel| e.name,
            );
            match r {
                Some(root) => has_wrapping_root(names) && root@ == top_component(names[0]),
                None => !has_wrapping_root(names),
            }
        }),
{
    let ghost names = entries@.map_values(|e: ArchiveEntry| e@).map_values(|e: EntryModel| e.name);
    if entries.len() == 0 {
        return None;
    }
    let first: &ArchiveEntry = &entries[0];
    let d = find_char(first.name.as_str(), '/');
    let root = first.name.as_str().substring_char(0, d);
    proof {
        assert(names[0] == entries@[0]@.name);
        assert(root@ =~= top_component(names[0]));
    }
    if root.unicode_len() == 0 {
        return None;
    }
    let mut prefix = root.to_owned();
    prefix.append("/");
    let ghost prefix_spec = top_component(names[0]) + "/"@;
    proof {
        assert(prefix@ =~= prefix_spec);
    }
    let n = entries.len();
    let mut i: usize = 0;
    while i < n
        invariant
            i <= n,
            n == entries@.len(),
            names == entries@.map_values(|e: ArchiveEntry| e@).map_values(|e: EntryModel| e.name),
            prefix@ == prefix_spec,
            prefix_spec == top_component(names[0]) + "/"@,
            forall|j: int| 0 <= j < i ==> starts_with_spec(#[trigger] names[j], prefix_spec),
        decreases n - i,
    {
        if !str_starts_with(entries[i].name.as_str(), prefix.as_str()) {
            assert(names[i as int] == entries@[i as int]@.name);
            return None;
        }
        proof {
            assert(names[i as int] == entries@[i as int]@.name);
        }
        i += 1;
    }
    let root_owned = root.to_owned();
    proof {
        assert(top_component(names[0]).len() > 0);
        assert(has_wrapping_root(names));
    }
    Some(root_owned)
}

/// Renames the entries under `prefix` for extraction, dropping the others.
fn strip_entries(entries: Vec<ArchiveEntry>, prefix: &str) -> (out: Vec<ArchiveEntry>)
    ensures
        out@.map_values(|e: ArchiveEntry| e@) == strip_under(
            entries@.map_values(|e: ArchiveEntry| e@),
            prefix@,
            0,
        ),
{
    let ghost models = entries@.map_values(|e: ArchiveEntry| e@);
    let mut rest = entries;
    let mut out: Vec<ArchiveEntry> = Vec::new();
    let ghost total = models.len();
    while rest.len() > 0
        invariant
            rest@.len() <= total,
            total == models.len(),
            rest@ =~= entries@.skip(total - rest@.len()),
            models == entries@.map_values(|e: ArchiveEntry| e@),
            out@.map_values(|e: ArchiveEntry| e@) + strip_under(
                models,
                prefix@,
                total - rest@.len(),
            ) == strip_under(models, prefix@, 0),
        decreases rest@.len(),
    {
        let ghost done = total - rest@.len();
        let ghost pre_out = out@;
        let e = rest.remove(0);
        proof {
            assert(entries@[done as int]@ == models[done as int]);
            assert(e@ == models[done as int]);
            assert(rest@ =~= entries@.skip(total - rest@.len()));
        }
        let keep = str_starts_with(e.name.as_str(), prefix);
        if keep {
            let skipped = e.name.as_str().substring_char(
                prefix.unicode_len(),
                e.name.as_str().unicode_len(),
            );
            proof {
                assert(skipped@ =~= e.name@.skip(prefix@.len() as int));
            }
            let new_name = str_strip_suffix(skipped, "/");
            proof {
                assert(new_name@ == renamed_entry(models[done as int], prefix@).name);
            }
            if new_name.as_str().unicode_len() > 0 {
                let new_entry = ArchiveEntry {
                    name: new_name,
                    kind: e.kind,
                    link_target: e.link_target,
                    data: e.data,
                };
                proof {
                    assert(new_entry@ == renamed_entry(models[done as int], prefix@));
                }
                out.push(new_entry);
                proof {
                    assert(out@.map_values(|x: ArchiveEntry| x@) =~= pre_out.map_values(
                        |x: ArchiveEntry| x@,
                    ) + seq![renamed_entry(models[done as int], prefix@)]);
                    assert(strip_under(models, prefix@, done as int) == seq![
                        renamed_entry(models[done as int], prefix@),
                    ] + strip_under(models, prefix@, done + 1));
                    assert(out@.map_values(|x: ArchiveEntry| x@) + strip_under(
                        models,
                        prefix@,
                        done + 1,
                    ) =~= strip_under(models, prefix@, 0));
                }
            } else {
                proof {
                    assert(strip_under(models, prefix@, done as int) == strip_under(
                        models,
                        prefix@,
                        done + 1,
                    ));
                }
            }
        } else {
            proof {
                assert(strip_under(models, prefix@, done as int) == strip_under(
                    models,
                    prefix@,
                    done + 1,
                ));
            }
        }
    }
    proof {
        assert(strip_under(models, prefix@, total as int) == Seq::<EntryModel>::empty());
        assert(out@.map_values(|e: ArchiveEntry| e@) + Seq::<EntryModel>::empty() =~= out@
            .map_values(|e: ArchiveEntry| e@));
    }
    out
}

/// Extracts a zip archive held in memory into its extraction plan: the
/// parsed entries with a single wrapping root directory stripped when the
/// archive has one.
pub fn extract_zip(archive_bytes: &Vec<u8>) -> (r: Result<Vec<ArchiveEntry>, ToolchainError>)
    ensures
        match r {
            Ok(out) => {
                &&& zip_entries_of(archive_bytes@) is Some
                &&& out@.map_values(|e: ArchiveEntry| e@) == unwrap_plan(
                    zip_entries_of(archive_bytes@).unwrap(),
                )
            },
            Err(e) => {
                &&& zip_entries_of(archive_bytes@) is None
                &&& e matches ToolchainError::Extract(ExtractError::Zip(_))
            },
        },
{
    let entries = match read_zip_entries(archive_bytes) {
        Ok(v) => v,
        Err(msg) => {
            return Err(ToolchainError::Extract(ExtractError::Zip(msg)));
        },
    };
    let ghost models = entries@.map_values(|e: ArchiveEntry| e@);
    proof {
        assert(models.map_values(|e: EntryModel| e.name) == entries@.map_values(
            |e: ArchiveEntry| e@,
        ).map_values(|e: EntryModel| e.name));
    }
    match find_wrapping_root(&entries) {
        Some(root) => {
            let mut prefix = root;
            prefix.append("/");
            proof {
                assert(prefix@ =~= top_component(models.map_values(|e: EntryModel| e.name)[0])
                    + "/"@);
            }
            Ok(strip_entries(entries, prefix.as_str()))
        },
        None => {
            proof {
                reveal_strlit("");
                assert(""@ =~= Seq::<char>::empty());
            }
            Ok(strip_entries(entries, ""))
        },
    }
}

/// Whether an entry is a directory standing directly at the top of the
/// archive: its name, without a trailing slash, is nonempty and has no
/// further separator.
pub open spec fn is_top_level_dir(e: EntryModel) -> bool {
    &&& e.kind is Dir
    &&& {
        let n = strip_suffix_spec(e.name, "/"@);
        n.len() > 0 && find_char_from(n, '/', 0) == n.len()
    }
}

/// Decides whether one entry is a top-level directory.
fn entry_is_top_level_dir(e: &ArchiveEntry) -> (r: bool)
    ensures
        r == is_top_level_dir(e@),
{
    if !matches!(e.kind, EntryKind::Dir) {
        return false;
    }
    let n = str_strip_suffix(e.name.as_str(), "/");
    let len = n.as_str().unicode_len();
    if len == 0 {
        return false;
    }
    let d = find_char(n.as_str(), '/');
    d == len
}

/// Extracts a tar.xz archive held in memory into its extraction plan: the
/// decompressed tar's entries under its first top-level directory, that
/// root stripped. The archive's internal root folder name is unpredictable,
/// so it is discovered, not assumed; an archive without such a directory
/// has no recognizable contents.
pub fn extract_tar_xz(archive_bytes: &Vec<u8>) -> (r: Result<Vec<ArchiveEntry>, ToolchainError>)
    ensures
        match r {
            Ok(out) => {
                &&& xz_decoded_of(archive_bytes@) is Some
                &&& tar_entries_of(xz_decoded_of(archive_bytes@).unwrap()) is Some
                &&& {
                    let entries = tar_entries_of(xz_decoded_of(archive_bytes@).unwrap()).unwrap();
                    exists|i: int|
                        {
                            &&& 0 <= i < entries.len()
                            &&& #[trigger] is_top_level_dir(entries[i])
                            &&& forall|j: int| 0 <= j < i ==> !is_top_level_dir(#[trigger] entries[j])
                            &&& out@.map_values(|e: ArchiveEntry| e@) == strip_under(
                                entries,
                                strip_suffix_spec(entries[i].name, "/"@) + "/"@,
                                0,
                            )
                        }
                }
            },
            Err(e) => match e {
                ToolchainError::Io(_) => xz_decoded_of(archive_bytes@) is None || tar_entries_of(
                    xz_decoded_of(archive_bytes@).unwrap(),
                ) is None,
                ToolchainError::Extract(ex) => {
                    &&& ex == ExtractError::ContentsNotFound
                    &&& xz_decoded_of(archive_bytes@) is Some
                    &&& tar_entries_of(xz_decoded_of(archive_bytes@).unwrap()) is Some
                    &&& forall|j: int|
                        0 <= j < tar_entries_of(xz_decoded_of(archive_bytes@).unwrap()).unwrap().len()
                            ==> !is_top_level_dir(
                            #[trigger] tar_entries_of(
                                xz_decoded_of(archive_bytes@).unwrap(),
                            ).unwrap()[j],
                        )
                },
                _ => false,
            },
        },
{
    let tar_bytes = match xz_decompress(archive_bytes) {
        Ok(v) => v,
        Err(msg) => {
            return Err(ToolchainError::Io(msg));
        },
    };
    let entries = match read_tar_entries(&tar_bytes) {
        Ok(v) => v,
        Err(e) => {
            return Err(ToolchainError::Io(io_error_message(&e)));
        },
    };
    let ghost models = entries@.map_values(|e: ArchiveEntry| e@);
    let n = entries.len();
    let mut i: usize = 0;
    while i < n
        invariant
            i <= n,
            n == entries@.len(),
            models == entries@.map_values(|e: ArchiveEntry| e@),
            xz_decoded_of(archive_bytes@) is Some,
            tar_entries_of(xz_decoded_of(archive_bytes@).unwrap()) == Some(models),
            forall|j: int| 0 <= j < i ==> !is_top_level_dir(#[trigger] models[j]),
        decreases n - i,
    {
        if entry_is_top_level_dir(&entries[i]) {
            proof {
                assert(models[i as int] == entries@[i as int]@);
            }
            let root = str_strip_suffix(entries[i].name.as_str(), "/");
            let mut prefix = root;
            prefix.append("/");
            proof {
                assert(prefix@ =~= strip_suffix_spec(models[i as int].name, "/"@) + "/"@);
            }
            let stripped = strip_entries(entries, prefix.as_str());
            proof {
                let decoded = xz_decoded_of(archive_bytes@).unwrap();
                let es = tar_entries_of(decoded).unwrap();
                assert(es == models);
                assert(is_top_level_dir(es[i as int]));
                assert(stripped@.map_values(|e: ArchiveEntry| e@) == strip_under(
                    es,
                    strip_suffix_spec(es[i as int].name, "/"@) + "/"@,
                    0,
                ));
            }
            return Ok(stripped);
        }
        proof {
            assert(models[i as int] == entries@[i as int]@);
        }
        i += 1;
    }
    Err(ToolchainError::Extract(ExtractError::ContentsNotFound))
}

} // verus!
