//! Package archives are gzip-compressed tar files. The registry reads the
//! package description (`package.toml`) out of them.

use flate2::read::GzDecoder;
use std::io::Read;
use tar::Archive;
use vstd::prelude::*;
use vstd::utf8::{decode_utf8, valid_utf8};

verus! {

/// One member of a tar archive: its path and its contents.
pub struct ArchiveEntry {
    pub path: String,
    pub contents: Vec<u8>,
}

/// The members of a tar archive in archive order. `complete` is false when
/// reading stopped at a damaged member; `entries` then holds the members read
/// before it.
pub struct ArchiveListing {
    pub entries: Vec<ArchiveEntry>,
    pub complete: bool,
}

impl ArchiveListing {
    /// The members as (path, contents), and whether the listing is complete.
    pub open spec fn contents(&self) -> (Seq<(Seq<char>, Seq<u8>)>, bool) {
        (self.entries@.map_values(|e: ArchiveEntry| (e.path@, e.contents@)), self.complete)
    }
}

/// What listing a gzip-compressed tar archive gives: the members read in
/// order, and whether the archive was read to its end without an error.
pub uninterp spec fn tar_gz_listing(data: Seq<u8>) -> (Seq<(Seq<char>, Seq<u8>)>, bool);

/// Decompresses `data` with `flate2::read::GzDecoder` and walks the result
/// with `tar::Archive::entries`, reading each member's path (`Entry::path`,
/// turned into text with `to_string_lossy`) and contents.
///
/// Trusted: the result is the named listing of `data`; the walk stops at the
/// first member that cannot be read.
#[verifier::external_body]
fn read_tar_gz(data: &[u8]) -> (r: ArchiveListing)
    ensures
        r.contents() == tar_gz_listing(data@),
{
    let mut archive = Archive::new(GzDecoder::new(data));
    let mut entries = Vec::new();
    let walk = match archive.entries() { Ok(w) => w, Err(_) => return ArchiveListing { entries, complete: false } };
    for entry in walk {
        let mut contents = Vec::new();
        let path = match entry {
            Ok(mut e) => match (e.read_to_end(&mut contents), e.path()) {
                (Ok(_), Ok(p)) => p.to_string_lossy().into_owned(),
                _ => return ArchiveListing { entries, complete: false },
            },
            Err(_) => return ArchiveListing { entries, complete: false },
        };
        entries.push(ArchiveEntry { path, contents });
    }
    ArchiveListing { entries, complete: true }
}

/// Whether `std::path::Path::new(path).ends_with(child)` holds: `child` is a
/// suffix of `path`, compared by whole path components.
pub uninterp spec fn path_ends_with(path: Seq<char>, child: Seq<char>) -> bool;

/// `std::path::Path::ends_with`.
///
/// Trusted: the result is the named value for the two texts.
#[verifier::external_body]
fn std_path_ends_with(path: &str, child: &str) -> (r: bool)
    ensures
        r == path_ends_with(path@, child@),
{
    std::path::Path::new(path).ends_with(child)
}

/// `String::from_utf8`: as its documentation says, it fails exactly when the
/// bytes are not valid UTF-8, and otherwise gives the text they encode.
#[verifier::external_body]
pub(crate) fn utf8_to_string(bytes: Vec<u8>) -> (r: Option<String>)
    ensures
        r is Some <==> valid_utf8(bytes@),
        r matches Some(s) ==> s@ == decode_utf8(bytes@),
{
    String::from_utf8(bytes).ok()
}

/// The file name the package description has inside an archive.
pub open spec fn config_file_name() -> Seq<char> {
    "package.toml"@
}

/// Whether the member at `path` is a package description.
pub open spec fn is_config_path(path: Seq<char>) -> bool {
    path_ends_with(path, config_file_name())
}

/// No member before `k` is a package description.
pub open spec fn no_config_before(entries: Seq<(Seq<char>, Seq<u8>)>, k: int) -> bool {
    forall|j: int| 0 <= j < k ==> !is_config_path(#[trigger] entries[j].0)
}

/// The index of the first package description among the members.
pub open spec fn first_config_index(entries: Seq<(Seq<char>, Seq<u8>)>) -> Option<int> {
    if exists|i: int| 0 <= i < entries.len() && is_config_path(entries[i].0) && no_config_before(entries, i) {
        Some(choose|i: int| 0 <= i < entries.len() && is_config_path(entries[i].0) && no_config_before(entries, i))
    } else {
        None
    }
}

/// What looking for the package description in an archive finds.
pub enum ConfigSearch {
    /// The text of the first member whose path ends in `package.toml`.
    Found(String),
    /// The archive was read to its end and no member is a package description.
    Missing,
    /// The first package description is not valid UTF-8.
    NotText,
    /// The archive could not be read up to a package description.
    Unreadable,
}

/// What the search gives for the archive bytes `data`.
pub open spec fn config_search_result(data: Seq<u8>, r: ConfigSearch) -> bool {
    let (entries, complete) = tar_gz_listing(data);
    match first_config_index(entries) {
        Some(i) => if valid_utf8(entries[i].1) {
            r matches ConfigSearch::Found(s) && s@ == decode_utf8(entries[i].1)
        } else {
            r is NotText
        },
        None => if complete { r is Missing } else { r is Unreadable },
    }
}

/// Finds the package description in a gzip-compressed tar archive: the
/// first member, in archive order, whose path ends with the component
/// `package.toml`.
pub fn find_package_config(data: &[u8]) -> (r: ConfigSearch)
    ensures
        config_search_result(data@, r),
{
    let listing = read_tar_gz(data);
    let ghost entries = listing.contents().0;
    let ArchiveListing { entries: mut members, complete } = listing;
    let n = members.len();
    let mut i: usize = 0;
    while i < n
        invariant
            n == members@.len(),
            i <= n,
            entries == members@.map_values(|e: ArchiveEntry| (e.path@, e.contents@)),
            no_config_before(entries, i as int),
            tar_gz_listing(data@) == (entries, complete),
        decreases n - i,
    {
        let is_config = std_path_ends_with(members[i].path.as_str(), "package.toml");
        assert(entries[i as int].0 == members@[i as int].path@);
        if is_config {
            proof {
                assert(exists|k: int| 0 <= k < entries.len() && is_config_path(entries[k].0) && no_config_before(entries, k)) by {
                    assert(is_config_path(entries[i as int].0) && no_config_before(entries, i as int));
                }
                let k = choose|k: int| 0 <= k < entries.len() && is_config_path(entries[k].0) && no_config_before(entries, k);
                if k < i {
                    assert(!is_config_path(entries[k].0));
                }
                if k > i {
                    assert(!is_config_path(entries[i as int].0));
                }
                assert(k == i);
            }
            let ghost wanted = members@[i as int];
            assert(entries[i as int].1 == wanted.contents@);
            assert(first_config_index(entries) == Some(i as int));
            let member = members.swap_remove(i);
            assert(member == wanted);
            let text = utf8_to_string(member.contents);
            let r = match text {
                Some(s) => ConfigSearch::Found(s),
                None => ConfigSearch::NotText,
            };
            return r;
        }
        i = i + 1;
    }
    proof {
        if exists|k: int| 0 <= k < entries.len() && is_config_path(entries[k].0) && no_config_before(entries, k) {
            let k = choose|k: int| 0 <= k < entries.len() && is_config_path(entries[k].0) && no_config_before(entries, k);
            assert(!is_config_path(entries[k].0));
        }
    }
    if complete {
        ConfigSearch::Missing
    } else {
        ConfigSearch::Unreadable
    }
}

} // verus!
