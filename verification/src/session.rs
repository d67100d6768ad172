//! What a run of the program does, decided from its options and configuration.

use vstd::prelude::*;

use crate::cli::{copy_opt_string, either, Cli};
use crate::config::{fetch_user_agent, browser_user_agent, get_cloudflare_headers, opt_chars, Config, ConfigModel};

verus! {

/// The first thing a run does.
#[derive(Clone, Copy, Debug, PartialEq, Eq)]
pub enum StartupAction {
    /// Print the configuration and stop.
    ShowConfig,
    /// Run the interactive setup and stop.
    Setup,
    /// Store the settings given on the command line and stop.
    UpdateConfig,
    /// Download, after fetching a cf_clearance cookie where asked to;
    /// `invalidate_first` marks the stored cookie invalid before the fetch.
    Download { fetch_cookie: bool, invalidate_first: bool },
}

/// The first thing a run does: showing the configuration comes before the
/// setup, the setup before storing settings, and those before downloading.
pub open spec fn startup_plan(cli: Cli) -> StartupAction {
    if cli.config {
        StartupAction::ShowConfig
    } else if cli.setup {
        StartupAction::Setup
    } else if cli.set_output is Some || cli.set_user_agent is Some || cli.update_cf is Some {
        StartupAction::UpdateConfig
    } else {
        StartupAction::Download {
            fetch_cookie: cli.fetch_cf || cli.refresh_cf,
            invalidate_first: cli.refresh_cf,
        }
    }
}

/// The first thing a run with the options `cli` does.
pub fn startup_action(cli: &Cli) -> (r: StartupAction)
    ensures
        r == startup_plan(*cli),
{
    if cli.config {
        StartupAction::ShowConfig
    } else if cli.setup {
        StartupAction::Setup
    } else if cli.set_output.is_some() || cli.set_user_agent.is_some() || cli.update_cf.is_some() {
        StartupAction::UpdateConfig
    } else {
        StartupAction::Download {
            fetch_cookie: cli.fetch_cf || cli.refresh_cf,
            invalidate_first: cli.refresh_cf,
        }
    }
}

/// Stores the output directory, User-Agent and cf_clearance cookie given on
/// the command line; the rest of the configuration stays as it is.
pub fn apply_cli_updates(cli: &Cli, config: &mut Config)
    ensures
        final(config)@ == (ConfigModel {
            default_output: either(opt_chars(cli.set_output), old(config)@.default_output),
            user_agent: either(opt_chars(cli.set_user_agent), old(config)@.user_agent),
            cf_clearance: either(opt_chars(cli.update_cf), old(config)@.cf_clearance),
            ..old(config)@
        }),
{
    if cli.set_output.is_some() {
        config.download.default_output = copy_opt_string(&cli.set_output);
    }
    if cli.set_user_agent.is_some() {
        config.cloudflare.user_agent = copy_opt_string(&cli.set_user_agent);
    }
    if cli.update_cf.is_some() {
        config.cloudflare.cf_clearance = copy_opt_string(&cli.update_cf);
    }
}

/// The URLs to download, in the order the workers take them (from the back):
/// those of the command line, then those read from files, all reversed.
pub fn collect_urls(cli_urls: &Vec<String>, file_lines: &Vec<String>) -> (r: Vec<String>)
    ensures
        r@ == (cli_urls@ + file_lines@).reverse(),
{
    let ghost all = cli_urls@ + file_lines@;
    let mut r: Vec<String> = Vec::new();
    let mut i: usize = file_lines.len();
    while i > 0
        invariant
            i <= file_lines.len(),
            all == cli_urls@ + file_lines@,
            r@ == all.reverse().take((file_lines.len() - i) as int),
        decreases i,
    {
        i = i - 1;
        r.push(file_lines[i].clone());
        assert(r@ =~= all.reverse().take((file_lines.len() - i) as int));
    }
    let mut j: usize = cli_urls.len();
    while j > 0
        invariant
            j <= cli_urls.len(),
            all == cli_urls@ + file_lines@,
            r@ == all.reverse().take((file_lines.len() + cli_urls.len() - j) as int),
        decreases j,
    {
        j = j - 1;
        r.push(cli_urls[j].clone());
        assert(r@ =~= all.reverse().take((file_lines.len() + cli_urls.len() - j) as int));
    }
    assert(all.reverse().take(all.len() as int) =~= all.reverse());
    r
}

/// The cf_clearance cookie and User-Agent a download run sends: the stored
/// ones right after a fetch or while the stored cookie is valid, else those
/// of the command line, falling back to the stored ones.
pub fn session_headers(cli: &Cli, config: &Config, fetched: bool) -> (r: (
    Option<String>,
    Option<String>,
))
    ensures
        fetched || config.cloudflare.cf_clearance_valid == Some(true) ==> r == (
            config.cloudflare.cf_clearance,
            config.cloudflare.user_agent,
        ),
        !(fetched || config.cloudflare.cf_clearance_valid == Some(true)) ==> r == (
            either(cli.cf_clearance, config.cloudflare.cf_clearance),
            either(cli.user_agent, config.cloudflare.user_agent),
        ),
{
    let valid = match config.cloudflare.cf_clearance_valid {
        Some(b) => b,
        None => false,
    };
    if fetched || valid {
        (
            copy_opt_string(&config.cloudflare.cf_clearance),
            copy_opt_string(&config.cloudflare.user_agent),
        )
    } else {
        get_cloudflare_headers(cli, config)
    }
}

/// The number of album workers: as many as asked for, but no more than there
/// are albums.
pub fn album_worker_count(requested: usize, albums: usize) -> (r: usize)
    ensures
        r == (if requested < albums {
            requested
        } else {
            albums
        }),
{
    if requested < albums {
        requested
    } else {
        albums
    }
}

/// The User-Agent the setup proposes: the stored one, else the browser's.
pub fn setup_default_user_agent(config: &Config) -> (r: String)
    ensures
        r@ == (match config@.user_agent {
            Some(ua) => ua,
            None => fetch_user_agent(),
        }),
{
    match &config.cloudflare.user_agent {
        Some(ua) => ua.clone(),
        None => browser_user_agent(),
    }
}

/// Stores the setup's answers: the output directory, the User-Agent and the
/// two display switches.
pub fn apply_setup_answers(
    config: &mut Config,
    output: String,
    user_agent: String,
    show_progress: bool,
    colored_output: bool,
)
    ensures
        final(config)@ == (ConfigModel {
            default_output: Some(output@),
            user_agent: Some(user_agent@),
            show_progress: show_progress,
            colored_output: colored_output,
            ..old(config)@
        }),
{
    config.download.default_output = Some(output);
    config.cloudflare.user_agent = Some(user_agent);
    config.ui.show_progress = show_progress;
    config.ui.colored_output = colored_output;
}

} // verus!

verus! {

/// The value of the `Cookie` header that carries the cf_clearance cookie.
pub fn cookie_header_value(cf_clearance: &str) -> (r: String)
    ensures
        r@ == "cf_clearance="@ + cf_clearance@,
{
    let mut v = crate::text::chars_of("cf_clearance=");
    crate::text::push_str_chars(&mut v, cf_clearance);
    crate::text::string_from_chars(&v)
}

} // verus!

verus! {

/// Without `--config` or `--setup`, a run given a new output directory, a new
/// User-Agent or a new cf_clearance cookie on the command line stores them and
/// stops: each of the three alone is enough, and such a run never downloads.
pub proof fn settings_on_the_command_line_stop_the_run(cli: Cli)
    requires
        !cli.config,
        !cli.setup,
        cli.set_output is Some || cli.set_user_agent is Some || cli.update_cf is Some,
    ensures
        startup_plan(cli) == StartupAction::UpdateConfig,
        !(startup_plan(cli) is Download),
{
}

/// A run downloads only when none of `--config`, `--setup`, `--set-output`,
/// `--set-user-agent` and `--update-cf` is given; it then fetches a cookie
/// exactly when `--fetch-cf` or `--refresh-cf` is given, and marks the stored
/// one invalid first exactly when `--refresh-cf` is.
pub proof fn only_plain_runs_download(cli: Cli)
    ensures
        startup_plan(cli) is Download <==> (!cli.config && !cli.setup && cli.set_output is None
            && cli.set_user_agent is None && cli.update_cf is None),
        startup_plan(cli) matches StartupAction::Download { fetch_cookie, invalidate_first } ==> (
        fetch_cookie == (cli.fetch_cf || cli.refresh_cf) && invalidate_first == cli.refresh_cf),
        cli.config ==> startup_plan(cli) == StartupAction::ShowConfig,
        !cli.config && cli.setup ==> startup_plan(cli) == StartupAction::Setup,
{
}

} // verus!
