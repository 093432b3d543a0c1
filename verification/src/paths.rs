//! Where vault files live and which paths may be touched.
//!
//! The file system is not consulted here. A caller looks a path up and
//! hands over what it found: whether the path exists and the components of
//! its canonical form. The decisions are made here, on those plain values.

use vstd::prelude::*;

use crate::errors::ErrorClass;
use crate::errors::VaultError;
use crate::model::text_option_view;
use crate::text::blank;
use crate::text::is_blank;
use crate::text::to_chars;
use crate::vault::decode_envelope;
use crate::vault::decoded_envelope;

verus! {

/// The components of a path, in order from the root.
pub open spec fn components_view(components: Seq<String>) -> Seq<Seq<char>> {
    components.map_values(|c: String| c@)
}

/// The name of the directory that holds the vault files.
pub open spec fn vaults_directory_name() -> Seq<char> {
    "vaults"@
}

/// The vault directory: `vaults` under the application's data directory
/// where the operating system has one for it, else `vaults` under the
/// current directory, and none where neither is known.
pub open spec fn vault_directory(
    data_directory: Option<Seq<Seq<char>>>,
    current_directory: Option<Seq<Seq<char>>>,
) -> Result<Seq<Seq<char>>, VaultError> {
    match data_directory {
        Some(base) => Ok(base.push(vaults_directory_name())),
        None => match current_directory {
            Some(base) => Ok(base.push(vaults_directory_name())),
            None => Err(VaultError::NoVaultDirectory),
        },
    }
}

/// The view of an optional path.
pub open spec fn path_option_view(path: Option<Vec<String>>) -> Option<Seq<Seq<char>>> {
    match path {
        Some(components) => Some(components_view(components@)),
        None => None,
    }
}

/// The view of a path or the error in its place.
pub open spec fn path_result_view(path: Result<Vec<String>, VaultError>) -> Result<
    Seq<Seq<char>>,
    VaultError,
> {
    match path {
        Ok(components) => Ok(components_view(components@)),
        Err(e) => Err(e),
    }
}

/// Resolves the directory that holds the vault files from the directories
/// that the operating system reports.
pub fn resolve_vault_directory(
    data_directory: Option<Vec<String>>,
    current_directory: Option<Vec<String>>,
) -> (r: Result<Vec<String>, VaultError>)
    ensures
        path_result_view(r) == vault_directory(
            path_option_view(data_directory),
            path_option_view(current_directory),
        ),
{
    let base = match data_directory {
        Some(base) => base,
        None => match current_directory {
            Some(base) => base,
            None => {
                return Err(VaultError::NoVaultDirectory);
            },
        },
    };
    let mut directory = base;
    directory.push("vaults".to_owned());
    assert(components_view(directory@) =~= components_view(base@).push(vaults_directory_name()));
    Ok(directory)
}

/// Whether a file name is that of a vault file: a name that is not empty,
/// followed by `.peka`.
pub open spec fn vault_file_name(name: Seq<char>) -> bool {
    name.len() > 5 && name.subrange(name.len() - 5, name.len() as int) == ".peka"@
}

/// Whether a file name ends in the extension of vault files.
pub fn is_vault_file_name(name: &str) -> (r: bool)
    ensures
        r == vault_file_name(name@),
{
    let chars = to_chars(name);
    let n: usize = chars.len();
    if n <= 5 {
        return false;
    }
    proof {
        reveal_strlit(".peka");
    }
    let r = chars[n - 5] == '.' && chars[n - 4] == 'p' && chars[n - 3] == 'e' && chars[n - 2] == 'k'
        && chars[n - 1] == 'a';
    proof {
        let tail = name@.subrange(n - 5, n as int);
        if r {
            assert(tail =~= ".peka"@);
        } else {
            assert(tail[0] == chars@[n - 5] && tail[1] == chars@[n - 4] && tail[2] == chars@[n - 3]
                && tail[3] == chars@[n - 2] && tail[4] == chars@[n - 1]);
        }
    }
    r
}

/// Whether a path lies below a directory: it has all the directory's
/// components, in order, and at least one more.
pub open spec fn below(directory: Seq<Seq<char>>, path: Seq<Seq<char>>) -> bool {
    directory.len() < path.len() && path.subrange(0, directory.len() as int) == directory
}

/// Whether a path lies below a directory.
pub fn is_below(directory: &Vec<String>, path: &Vec<String>) -> (r: bool)
    ensures
        r == below(components_view(directory@), components_view(path@)),
{
    if directory.len() >= path.len() {
        return false;
    }
    let ghost d = components_view(directory@);
    let ghost p = components_view(path@);
    let mut i: usize = 0;
    while i < directory.len()
        invariant
            i <= directory.len() < path.len(),
            d == components_view(directory@),
            p == components_view(path@),
            forall|j: int| 0 <= j < i ==> d[j] == p[j],
        decreases directory.len() - i,
    {
        if !(directory[i] == path[i]) {
            assert(p.subrange(0, d.len() as int)[i as int] != d[i as int]);
            return false;
        }
        i = i + 1;
    }
    assert(p.subrange(0, d.len() as int) =~= d);
    true
}

/// What the file system says of a path.
#[derive(Debug, PartialEq, Eq)]
pub struct PathProbe {
    /// Whether anything exists at the path.
    pub exists: bool,
    /// The components of the path's canonical form, free of symbolic links,
    /// or `None` where it could not be resolved.
    pub canonical: Option<Vec<String>>,
}

/// Whether a vault file may be touched: the path exists, resolves, lies
/// below the vault directory and names a vault file. The errors come in
/// this order.
pub open spec fn target_verdict(
    exists: bool,
    canonical: Option<Seq<Seq<char>>>,
    directory: Option<Seq<Seq<char>>>,
) -> Result<(), VaultError> {
    if !exists {
        Err(VaultError::VaultFileNotFound)
    } else if canonical is None {
        Err(VaultError::UnresolvablePath)
    } else if directory is None {
        Err(VaultError::NoVaultDirectory)
    } else if !below(directory->0, canonical->0) {
        Err(VaultError::OutsideVaultDirectory)
    } else if !vault_file_name(canonical->0.last()) {
        Err(VaultError::NotAVaultFile)
    } else {
        Ok(())
    }
}

/// Whether a vault file may be deleted.
pub open spec fn deletion_verdict(
    path: Seq<char>,
    exists: bool,
    canonical: Option<Seq<Seq<char>>>,
    directory: Option<Seq<Seq<char>>>,
) -> Result<(), VaultError> {
    if blank(path) {
        Err(VaultError::VaultPathRequired)
    } else {
        target_verdict(exists, canonical, directory)
    }
}

/// Whether a vault file may be copied to a destination.
pub open spec fn export_verdict(
    source_path: Seq<char>,
    destination_path: Seq<char>,
    exists: bool,
    canonical: Option<Seq<Seq<char>>>,
    directory: Option<Seq<Seq<char>>>,
) -> Result<(), VaultError> {
    if blank(source_path) {
        Err(VaultError::SourcePathRequired)
    } else if blank(destination_path) {
        Err(VaultError::DestinationPathRequired)
    } else {
        match target_verdict(exists, canonical, directory) {
            Err(VaultError::UnresolvablePath) => Err(VaultError::UnresolvableSourcePath),
            verdict => verdict,
        }
    }
}

/// The view of an optional borrowed path.
pub open spec fn directory_view(directory: Option<&Vec<String>>) -> Option<Seq<Seq<char>>> {
    match directory {
        Some(components) => Some(components_view(components@)),
        None => None,
    }
}

/// Decides whether the file at a probed path may be touched.
pub fn check_target(target: &PathProbe, vault_directory: Option<&Vec<String>>) -> (r: Result<
    (),
    VaultError,
>)
    ensures
        r == target_verdict(
            target.exists,
            path_option_view(target.canonical),
            directory_view(vault_directory),
        ),
{
    if !target.exists {
        return Err(VaultError::VaultFileNotFound);
    }
    let canonical = match &target.canonical {
        Some(components) => components,
        None => {
            return Err(VaultError::UnresolvablePath);
        },
    };
    let directory = match vault_directory {
        Some(components) => components,
        None => {
            return Err(VaultError::NoVaultDirectory);
        },
    };
    if !is_below(directory, canonical) {
        return Err(VaultError::OutsideVaultDirectory);
    }
    let name = &canonical[canonical.len() - 1];
    if !is_vault_file_name(name.as_str()) {
        return Err(VaultError::NotAVaultFile);
    }
    Ok(())
}

/// Decides whether a vault file may be deleted.
///
/// `Ok` is returned, and the file may be removed, only where the path is
/// not empty, exists, resolves to a place below the vault directory and
/// names a vault file. In every other case an error is returned and nothing
/// is to be touched.
pub fn delete_vault_inner(path: &str, target: &PathProbe, vault_directory: Option<&Vec<String>>) -> (r:
    Result<(), VaultError>)
    ensures
        r == deletion_verdict(
            path@,
            target.exists,
            path_option_view(target.canonical),
            directory_view(vault_directory),
        ),
{
    if is_blank(path) {
        return Err(VaultError::VaultPathRequired);
    }
    check_target(target, vault_directory)
}

/// Decides whether a vault file may be copied out of the vault directory.
///
/// `Ok` is returned, and the file may be copied, only where neither path
/// is empty and the source exists, resolves to a place below the vault
/// directory and names a vault file. In every other case an error is
/// returned and nothing is to be touched.
pub fn export_vault_file_inner(
    source_path: &str,
    destination_path: &str,
    source: &PathProbe,
    vault_directory: Option<&Vec<String>>,
) -> (r: Result<(), VaultError>)
    ensures
        r == export_verdict(
            source_path@,
            destination_path@,
            source.exists,
            path_option_view(source.canonical),
            directory_view(vault_directory),
        ),
{
    if is_blank(source_path) {
        return Err(VaultError::SourcePathRequired);
    }
    if is_blank(destination_path) {
        return Err(VaultError::DestinationPathRequired);
    }
    match check_target(source, vault_directory) {
        Err(VaultError::UnresolvablePath) => Err(VaultError::UnresolvableSourcePath),
        verdict => verdict,
    }
}

/// A file may be touched only where it lies below the vault directory and
/// is named as a vault file.
pub proof fn lemma_touched_files_are_vault_files(
    exists: bool,
    canonical: Option<Seq<Seq<char>>>,
    directory: Option<Seq<Seq<char>>>,
)
    requires
        target_verdict(exists, canonical, directory) is Ok,
    ensures
        exists,
        canonical is Some,
        directory is Some,
        below(directory->0, canonical->0),
        vault_file_name(canonical->0.last()),
{
}

/// A path that exists and resolves to a place that is not below the vault
/// directory is refused, for deletion and for export, with an error of the
/// class `PathSafety`; so is one that is not named as a vault file.
pub proof fn lemma_outside_paths_are_refused(
    path: Seq<char>,
    destination_path: Seq<char>,
    canonical: Seq<Seq<char>>,
    directory: Seq<Seq<char>>,
)
    requires
        !blank(path),
        !blank(destination_path),
        !below(directory, canonical) || !vault_file_name(canonical.last()),
    ensures
        deletion_verdict(path, true, Some(canonical), Some(directory)) is Err,
        deletion_verdict(path, true, Some(canonical), Some(directory))->Err_0.class_spec()
            == ErrorClass::PathSafety,
        export_verdict(path, destination_path, true, Some(canonical), Some(directory))
            == deletion_verdict(path, true, Some(canonical), Some(directory)),
{
}

/// One entry of the vault directory, as the file system shows it.
#[derive(Debug, PartialEq, Eq)]
pub struct DirectoryEntry {
    /// The path of the entry.
    pub path: String,
    /// The last component of the path.
    pub file_name: String,
    /// Whether the entry is a regular file.
    pub is_file: bool,
    /// The text of the file, or `None` where it could not be read.
    pub content: Option<String>,
}

pub struct DirectoryEntryView {
    pub path: Seq<char>,
    pub file_name: Seq<char>,
    pub is_file: bool,
    pub content: Option<Seq<char>>,
}

impl View for DirectoryEntry {
    type V = DirectoryEntryView;

    open spec fn view(&self) -> DirectoryEntryView {
        DirectoryEntryView {
            path: self.path@,
            file_name: self.file_name@,
            is_file: self.is_file,
            content: text_option_view(self.content),
        }
    }
}

/// One line of the list of vaults.
#[derive(Debug, PartialEq, Eq)]
pub struct VaultSummary {
    pub path: String,
    pub vault_name: String,
}

pub struct VaultSummaryView {
    pub path: Seq<char>,
    pub vault_name: Seq<char>,
}

impl View for VaultSummary {
    type V = VaultSummaryView;

    open spec fn view(&self) -> VaultSummaryView {
        VaultSummaryView { path: self.path@, vault_name: self.vault_name@ }
    }
}

/// Whether an entry is listed: a regular file, named as a vault file,
/// whose text could be read and is an envelope. Nothing is decrypted.
pub open spec fn listed(entry: DirectoryEntryView) -> bool {
    &&& entry.is_file
    &&& vault_file_name(entry.file_name)
    &&& entry.content is Some
    &&& decoded_envelope(entry.content->0) is Ok
}

/// The line of a listed entry: its path and the vault name of its envelope.
pub open spec fn summary_of(entry: DirectoryEntryView) -> VaultSummaryView {
    VaultSummaryView {
        path: entry.path,
        vault_name: decoded_envelope(entry.content->0)->Ok_0.vault_name,
    }
}

/// The list of vaults of a directory: the lines of its listed entries, in
/// the order of the entries.
pub open spec fn listing(entries: Seq<DirectoryEntryView>) -> Seq<VaultSummaryView>
    decreases entries.len(),
{
    if entries.len() == 0 {
        Seq::empty()
    } else if listed(entries.last()) {
        listing(entries.drop_last()).push(summary_of(entries.last()))
    } else {
        listing(entries.drop_last())
    }
}

/// Lists the vaults among the entries of the vault directory.
///
/// Entries that are not regular files, are not named as vault files, could
/// not be read or do not hold an envelope are passed over in silence: a
/// damaged or foreign file never makes the listing fail.
pub fn list_vaults_inner(entries: &Vec<DirectoryEntry>) -> (r: Vec<VaultSummary>)
    ensures
        r@.map_values(|s: VaultSummary| s@) == listing(entries@.map_values(|e: DirectoryEntry| e@)),
{
    let ghost views = entries@.map_values(|e: DirectoryEntry| e@);
    let mut summaries: Vec<VaultSummary> = Vec::new();
    let mut i: usize = 0;
    while i < entries.len()
        invariant
            i <= entries.len(),
            views == entries@.map_values(|e: DirectoryEntry| e@),
            summaries@.map_values(|s: VaultSummary| s@) == listing(views.take(i as int)),
        decreases entries.len() - i,
    {
        let entry = &entries[i];
        proof {
            assert(views.take(i + 1).drop_last() =~= views.take(i as int));
        }
        if entry.is_file && is_vault_file_name(entry.file_name.as_str()) {
            match &entry.content {
                Some(text) => {
                    match decode_envelope(text.as_str()) {
                        Ok(file) => {
                            let summary = VaultSummary {
                                path: entry.path.clone(),
                                vault_name: file.vault_name,
                            };
                            summaries.push(summary);
                        },
                        Err(_) => {},
                    }
                },
                None => {},
            }
        }
        i = i + 1;
    }
    assert(views.take(entries@.len() as int) =~= views);
    summaries
}

/// An entry that is not listed leaves the list as it is: a file with the
/// right extension and text that is no envelope adds no line and no error.
pub proof fn lemma_unlisted_entry_is_skipped(
    entries: Seq<DirectoryEntryView>,
    entry: DirectoryEntryView,
)
    requires
        !listed(entry),
    ensures
        listing(entries.push(entry)) == listing(entries),
{
    assert(entries.push(entry).drop_last() =~= entries);
}

/// A listed entry adds exactly its line at the end of the list.
pub proof fn lemma_listed_entry_is_appended(
    entries: Seq<DirectoryEntryView>,
    entry: DirectoryEntryView,
)
    requires
        listed(entry),
    ensures
        listing(entries.push(entry)) == listing(entries).push(summary_of(entry)),
{
    assert(entries.push(entry).drop_last() =~= entries);
}

} // verus!
