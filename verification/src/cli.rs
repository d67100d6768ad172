//! Command-line options and the settings derived from them.

use vstd::prelude::*;

verus! {

/// How the release year enters an album's directory name.
#[derive(Clone, Copy, Debug, PartialEq, Eq)]
pub enum AlbumYear {
    /// `<album> (year)`
    Append,
    /// `(year) <album>`
    Prepend,
}

/// The program's command-line options.
#[derive(Clone, Debug)]
pub struct Cli {
    /// URLs to download.
    pub urls: Vec<String>,
    /// Files to read URLs from.
    pub file: Vec<String>,
    /// Custom path to download to.
    pub output: Option<String>,
    /// Overwrite already downloaded files.
    pub force: bool,
    /// Place all of an artist's singles in a "Singles" directory.
    pub group_singles: bool,
    /// Use "<album> (year)" or "(year) <album>" directory names.
    pub album_year: Option<AlbumYear>,
    /// Use "<artist> - <album>" in place of nested directories.
    pub flatten_directories: bool,
    /// Country to use accounts from.
    pub country: String,
    /// Disable metadata embedding by lucida.
    pub no_metadata: bool,
    /// Hide tracks from recent downloads on lucida.
    pub private: bool,
    /// Albums to download simultaneously.
    pub album_workers: usize,
    /// Tracks to download simultaneously for each album.
    pub track_workers: usize,
    /// Skip downloading the album's tracks.
    pub skip_tracks: bool,
    /// Skip downloading the album cover.
    pub skip_cover: bool,
    /// The cf_clearance cookie to send.
    pub cf_clearance: Option<String>,
    /// The User-Agent header to use.
    pub user_agent: Option<String>,
    /// Show the current configuration.
    pub config: bool,
    /// Run the interactive first-time setup.
    pub setup: bool,
    /// Store a new default output directory.
    pub set_output: Option<String>,
    /// Store a new User-Agent.
    pub set_user_agent: Option<String>,
    /// Store a new cf_clearance cookie.
    pub update_cf: Option<String>,
    /// Fetch a cf_clearance cookie through browser automation.
    pub fetch_cf: bool,
    /// Invalidate the stored cookie, then fetch a new one.
    pub refresh_cf: bool,
}

/// Options handed to the album downloads.
#[derive(Clone, Debug, PartialEq, Eq)]
pub struct DownloadConfig {
    pub country: String,
    pub metadata: bool,
    pub private: bool,
}

/// Which parts of an album to leave out.
#[derive(Clone, Copy, Debug, PartialEq, Eq)]
pub struct SkipConfig {
    pub tracks: bool,
    pub cover: bool,
}

/// `a` where it is present, else `b` (`Option::or`).
pub open spec fn either<T>(a: Option<T>, b: Option<T>) -> Option<T> {
    if a is Some {
        a
    } else {
        b
    }
}

/// A copy of `o`.
pub fn copy_opt_string(o: &Option<String>) -> (r: Option<String>)
    ensures
        r == *o,
{
    match o {
        Some(s) => Some(s.clone()),
        None => None,
    }
}

/// A copy of `a` where it is present, else of `b`.
pub fn first_present(a: &Option<String>, b: &Option<String>) -> (r: Option<String>)
    ensures
        r == either(*a, *b),
{
    if a.is_some() {
        copy_opt_string(a)
    } else {
        copy_opt_string(b)
    }
}

} // verus!
