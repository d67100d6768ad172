//! Settling the output directory and the settings of a download started from
//! the menus.

use vstd::prelude::*;

use crate::cli::{copy_opt_string, DownloadConfig, SkipConfig};
use crate::config::Config;
use crate::session::album_worker_count;

verus! {

/// How often the output directory is checked after mounting its share.
pub const MOUNT_POLL_LIMIT: u32 = 10;

/// The wait before each of those checks, in milliseconds.
pub const MOUNT_POLL_MILLIS: u64 = 500;

/// What to do about the output directory before a download.
#[derive(Clone, Debug, PartialEq, Eq)]
pub enum OutputCheck {
    /// The directory is there; `appeared` where it came up after mounting.
    Ready { appeared: bool },
    /// Mount the network share at this URL, then report whether that worked.
    Mount(String),
    /// Wait, check the directory again and report; `polls_done` checks so far.
    Wait { polls_done: u32 },
    /// Check once more, without waiting, whether the directory is there.
    FinalCheck,
    /// The directory cannot be reached: the download does not start.
    Unavailable,
}

/// The first decision: go ahead where the directory exists, else mount the
/// configured share, else check once more.
pub fn output_check_start(exists: bool, config: &Config) -> (r: OutputCheck)
    ensures
        exists ==> r == (OutputCheck::Ready { appeared: false }),
        !exists ==> r == match config.download.mount_url {
            Some(url) => OutputCheck::Mount(url),
            None => OutputCheck::FinalCheck,
        },
{
    if exists {
        OutputCheck::Ready { appeared: false }
    } else {
        match &config.download.mount_url {
            Some(url) => OutputCheck::Mount(url.clone()),
            None => OutputCheck::FinalCheck,
        }
    }
}

/// After mounting: wait for the directory where the mount worked, else check
/// once more.
pub fn output_check_after_mount(mounted: bool) -> (r: OutputCheck)
    ensures
        r == (if mounted {
            OutputCheck::Wait { polls_done: 0 }
        } else {
            OutputCheck::FinalCheck
        }),
{
    if mounted {
        OutputCheck::Wait { polls_done: 0 }
    } else {
        OutputCheck::FinalCheck
    }
}

/// The decision after a wait and a check, `polls_done` checks having been
/// made before.
pub open spec fn after_poll(polls_done: u32, exists: bool) -> OutputCheck {
    if exists {
        OutputCheck::Ready { appeared: true }
    } else if polls_done + 1 < MOUNT_POLL_LIMIT {
        OutputCheck::Wait { polls_done: (polls_done + 1) as u32 }
    } else {
        OutputCheck::FinalCheck
    }
}

/// After a wait and a check (the `polls_done + 1`-th): go ahead where the
/// directory appeared, wait again while fewer than `MOUNT_POLL_LIMIT` checks
/// were made, else check once more.
pub fn output_check_after_poll(polls_done: u32, exists: bool) -> (r: OutputCheck)
    requires
        polls_done < MOUNT_POLL_LIMIT,
    ensures
        r == after_poll(polls_done, exists),
{
    if exists {
        OutputCheck::Ready { appeared: true }
    } else if polls_done + 1 < MOUNT_POLL_LIMIT {
        OutputCheck::Wait { polls_done: polls_done + 1 }
    } else {
        OutputCheck::FinalCheck
    }
}

/// The last check: go ahead where the directory is there now, else give up.
pub fn output_check_final(exists: bool) -> (r: OutputCheck)
    ensures
        r == (if exists {
            OutputCheck::Ready { appeared: false }
        } else {
            OutputCheck::Unavailable
        }),
{
    if exists {
        OutputCheck::Ready { appeared: false }
    } else {
        OutputCheck::Unavailable
    }
}

/// The settings of a download started from the menus.
#[derive(Clone, Debug)]
pub struct MenuDownload {
    /// The cf_clearance cookie to send.
    pub cf_clearance: Option<String>,
    /// The User-Agent to send.
    pub user_agent: Option<String>,
    /// The options handed to the album downloads.
    pub download: DownloadConfig,
    /// What to leave out of each album.
    pub skip: SkipConfig,
    /// Albums downloaded at once.
    pub album_workers: usize,
    /// Tracks downloaded at once per album.
    pub track_workers: usize,
}

/// The settings of a download of `albums` albums started from the menus: the
/// stored cookie and User-Agent only while the cookie is valid, accounts from
/// any country, metadata embedded, nothing private or skipped, one album
/// worker (none without albums) and four track workers.
pub fn menu_download(config: &Config, albums: usize) -> (r: MenuDownload)
    ensures
        config.cloudflare.cf_clearance_valid == Some(true) ==> r.cf_clearance
            == config.cloudflare.cf_clearance && r.user_agent == config.cloudflare.user_agent,
        config.cloudflare.cf_clearance_valid != Some(true) ==> r.cf_clearance is None
            && r.user_agent is None,
        r.download.country@ == "auto"@,
        r.download.metadata,
        !r.download.private,
        !r.skip.tracks && !r.skip.cover,
        r.album_workers == (if albums < 1 {
            albums
        } else {
            1
        }),
        r.track_workers == 4,
{
    let valid = match config.cloudflare.cf_clearance_valid {
        Some(b) => b,
        None => false,
    };
    let (cf_clearance, user_agent) = if valid {
        (
            copy_opt_string(&config.cloudflare.cf_clearance),
            copy_opt_string(&config.cloudflare.user_agent),
        )
    } else {
        (None, None)
    };
    MenuDownload {
        cf_clearance,
        user_agent,
        download: DownloadConfig { country: "auto".to_string(), metadata: true, private: false },
        skip: SkipConfig { tracks: false, cover: false },
        album_workers: album_worker_count(1, albums),
        track_workers: 4,
    }
}

} // verus!

verus! {

/// After mounting a share, the directory is checked ten times, half a second
/// apart (five seconds in all): the first check where it is there makes it
/// ready, and after ten checks without it only the final check is left.
pub proof fn mounted_directories_are_awaited_five_seconds()
    ensures
        MOUNT_POLL_LIMIT == 10,
        MOUNT_POLL_LIMIT * MOUNT_POLL_MILLIS == 5000,
        forall|p: u32|
            p < 9 ==> #[trigger] after_poll(p, false) == (OutputCheck::Wait {
                polls_done: (p + 1) as u32,
            }),
        after_poll(9, false) == OutputCheck::FinalCheck,
        forall|p: u32|
            p < 10 ==> #[trigger] after_poll(p, true) == (OutputCheck::Ready { appeared: true }),
{
}

} // verus!
