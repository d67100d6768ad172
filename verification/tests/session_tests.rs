use lucida_downloader::cli::{Cli, DownloadConfig, SkipConfig};
use lucida_downloader::config::Config;
use lucida_downloader::download::{
    menu_download, output_check_after_mount, output_check_after_poll, output_check_final,
    output_check_start,
    OutputCheck,
};
use lucida_downloader::session::{
    album_worker_count, apply_cli_updates, apply_setup_answers, collect_urls, session_headers,
    setup_default_user_agent, startup_action, StartupAction,
};

fn cli() -> Cli {
    Cli {
        urls: vec![],
        file: vec![],
        output: None,
        force: false,
        group_singles: false,
        album_year: None,
        flatten_directories: false,
        country: "auto".to_string(),
        no_metadata: false,
        private: false,
        album_workers: 1,
        track_workers: 4,
        skip_tracks: false,
        skip_cover: false,
        cf_clearance: None,
        user_agent: None,
        config: false,
        setup: false,
        set_output: None,
        set_user_agent: None,
        update_cf: None,
        fetch_cf: false,
        refresh_cf: false,
    }
}

#[test]
fn startup_order() {
    let mut l = cli();
    assert_eq!(startup_action(&l), StartupAction::Download { fetch_cookie: false, invalidate_first: false });
    l.refresh_cf = true;
    assert_eq!(startup_action(&l), StartupAction::Download { fetch_cookie: true, invalidate_first: true });
    l.refresh_cf = false;
    l.fetch_cf = true;
    assert_eq!(startup_action(&l), StartupAction::Download { fetch_cookie: true, invalidate_first: false });
    l.update_cf = Some("c".to_string());
    assert_eq!(startup_action(&l), StartupAction::UpdateConfig);
    l.setup = true;
    assert_eq!(startup_action(&l), StartupAction::Setup);
    l.config = true;
    assert_eq!(startup_action(&l), StartupAction::ShowConfig);
}

#[test]
fn cli_updates_store_given_values() {
    let mut c = Config::default();
    c.cloudflare.cf_clearance_valid = Some(false);
    let mut l = cli();
    l.set_output = Some("/out".to_string());
    l.update_cf = Some("cookie".to_string());
    apply_cli_updates(&l, &mut c);
    assert_eq!(c.download.default_output.as_deref(), Some("/out"));
    assert_eq!(c.cloudflare.cf_clearance.as_deref(), Some("cookie"));
    assert_eq!(c.cloudflare.user_agent, None);
    assert_eq!(c.cloudflare.cf_clearance_valid, Some(false));
}

#[test]
fn urls_are_reversed_after_files() {
    let a = vec!["u1".to_string(), "u2".to_string()];
    let b = vec!["f1".to_string(), "f2".to_string(), "f3".to_string()];
    assert_eq!(collect_urls(&a, &b), vec!["f3", "f2", "f1", "u2", "u1"]);
    assert!(collect_urls(&vec![], &vec![]).is_empty());
}

#[test]
fn headers_follow_cookie_validity() {
    let mut c = Config::default();
    c.cloudflare.cf_clearance = Some("stored".to_string());
    let mut l = cli();
    l.user_agent = Some("cli-ua".to_string());
    assert_eq!(session_headers(&l, &c, false), (Some("stored".to_string()), Some("cli-ua".to_string())));
    assert_eq!(session_headers(&l, &c, true), (Some("stored".to_string()), None));
    c.cloudflare.cf_clearance_valid = Some(true);
    assert_eq!(session_headers(&l, &c, false), (Some("stored".to_string()), None));
}

#[test]
fn worker_counts() {
    assert_eq!(album_worker_count(1, 10), 1);
    assert_eq!(album_worker_count(4, 2), 2);
    assert_eq!(album_worker_count(3, 0), 0);
}

#[test]
fn setup_defaults_and_answers() {
    let mut c = Config::default();
    assert!(setup_default_user_agent(&c).starts_with("Mozilla/5.0 (Macintosh"));
    c.cloudflare.user_agent = Some("mine".to_string());
    assert_eq!(setup_default_user_agent(&c), "mine");
    apply_setup_answers(&mut c, "/o".to_string(), "ua".to_string(), false, true);
    assert_eq!(c.download.default_output.as_deref(), Some("/o"));
    assert_eq!(c.cloudflare.user_agent.as_deref(), Some("ua"));
    assert!(!c.ui.show_progress);
    assert!(c.ui.colored_output);
}

#[test]
fn output_checks() {
    let mut c = Config::default();
    assert_eq!(output_check_start(true, &c), OutputCheck::Ready { appeared: false });
    assert_eq!(output_check_start(false, &c), OutputCheck::FinalCheck);
    c.download.mount_url = Some("smb://h/s".to_string());
    assert_eq!(output_check_start(false, &c), OutputCheck::Mount("smb://h/s".to_string()));
    assert_eq!(output_check_after_mount(false), OutputCheck::FinalCheck);
    assert_eq!(output_check_after_mount(true), OutputCheck::Wait { polls_done: 0 });
    assert_eq!(output_check_after_poll(0, true), OutputCheck::Ready { appeared: true });
    assert_eq!(output_check_after_poll(0, false), OutputCheck::Wait { polls_done: 1 });
    assert_eq!(output_check_after_poll(9, false), OutputCheck::FinalCheck);
    assert_eq!(output_check_final(true), OutputCheck::Ready { appeared: false });
    assert_eq!(output_check_final(false), OutputCheck::Unavailable);
}

#[test]
fn output_waits_ten_times_at_most() {
    let mut check = output_check_after_mount(true);
    let mut waits = 0;
    while let OutputCheck::Wait { polls_done } = check {
        waits += 1;
        check = output_check_after_poll(polls_done, false);
    }
    assert_eq!(waits, 10);
    assert_eq!(check, OutputCheck::FinalCheck);
}

#[test]
fn menu_download_settings() {
    let mut c = Config::default();
    c.cloudflare.cf_clearance = Some("tok".to_string());
    c.cloudflare.user_agent = Some("ua".to_string());
    let d = menu_download(&c, 3);
    assert_eq!(d.cf_clearance, None);
    assert_eq!(d.user_agent, None);
    assert_eq!(d.download, DownloadConfig { country: "auto".to_string(), metadata: true, private: false });
    assert_eq!(d.skip, SkipConfig { tracks: false, cover: false });
    assert_eq!(d.album_workers, 1);
    assert_eq!(d.track_workers, 4);
    c.cloudflare.cf_clearance_valid = Some(true);
    let d = menu_download(&c, 0);
    assert_eq!(d.cf_clearance.as_deref(), Some("tok"));
    assert_eq!(d.user_agent.as_deref(), Some("ua"));
    assert_eq!(d.album_workers, 0);
}

#[test]
fn cookie_header() {
    assert_eq!(lucida_downloader::session::cookie_header_value("abc"), "cf_clearance=abc");
    assert_eq!(lucida_downloader::session::cookie_header_value(""), "cf_clearance=");
}
