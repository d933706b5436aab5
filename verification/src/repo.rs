//! The data model of the release-artifact downloader: the repository list
//! and the URL forms of release assets. Fetching is the host program's
//! work; the URLs are computed here, character for character.

use vstd::prelude::*;
use vstd::string::StringExecFns;

use crate::text::{lemma_split_len, spec_split, split_str};

verus! {

/// The repositories modules can be fetched from.
#[derive(Debug)]
pub struct RepoList {
    pub repo: Vec<String>,
}

/// The URL of one released asset:
/// `<repo_url>/releases/download/<version>/<filename>`.
pub fn get_asset_url(repo_url: &str, version: &str, filename: &str) -> (r: String)
    ensures
        r@ == repo_url@ + "/releases/download/"@ + version@ + "/"@ + filename@,
{
    let mut s = String::from_str(repo_url);
    s.append("/releases/download/");
    s.append(version);
    s.append("/");
    s.append(filename);
    proof {
        assert(s@ =~= repo_url@ + "/releases/download/"@ + version@ + "/"@ + filename@);
    }
    s
}

/// The version a release redirect points at: the last segment of the
/// location's path. A location without a slash is its own last segment.
pub fn version_from_location(location: &str) -> (r: String)
    ensures
        r@ == spec_split(location@, '/').last(),
{
    let segments = split_str(location, '/');
    proof {
        lemma_split_len(location@, '/');
        assert(segments.deep_view().len() == segments@.len());
        assert(segments.deep_view().last() == spec_split(location@, '/').last());
    }
    segments[segments.len() - 1].clone()
}

/// The URL of one released archive: the asset named
/// `<filename>_<arch>.tar.gz`.
pub fn get_archive_url(repo_url: &str, version: &str, filename: &str, arch: &str) -> (r: String)
    ensures
        r@ == repo_url@ + "/releases/download/"@ + version@ + "/"@ + filename@ + "_"@ + arch@
            + ".tar.gz"@,
{
    let mut archive_filename = String::from_str(filename);
    archive_filename.append("_");
    archive_filename.append(arch);
    archive_filename.append(".tar.gz");
    proof {
        assert(archive_filename@ =~= filename@ + "_"@ + arch@ + ".tar.gz"@);
    }
    let r = get_asset_url(repo_url, version, archive_filename.as_str());
    proof {
        assert(r@ =~= repo_url@ + "/releases/download/"@ + version@ + "/"@ + filename@ + "_"@
            + arch@ + ".tar.gz"@);
    }
    r
}

} // verus!
