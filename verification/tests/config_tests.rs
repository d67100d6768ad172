use lucida_downloader::cli::{Cli, DownloadConfig};
use lucida_downloader::config::{
    apply_config_setting, config_dir_from, config_file_in, display_config_lines,
    get_cloudflare_headers, get_config_dir, get_config_file, invalidate_existing_cookies,
    merge_cli_with_config, record_fetched_cookie, store_entered_cookie, store_fetched_cookie, update_config_value, Config,
};

fn cli() -> Cli {
    Cli {
        urls: vec![],
        file: vec![],
        output: None,
        force: false,
        group_singles: false,
        album_year: None,
        flatten_directories: false,
        country: "auto".to_string(),
        no_metadata: false,
        private: false,
        album_workers: 1,
        track_workers: 4,
        skip_tracks: false,
        skip_cover: false,
        cf_clearance: None,
        user_agent: None,
        config: false,
        setup: false,
        set_output: None,
        set_user_agent: None,
        update_cf: None,
        fetch_cf: false,
        refresh_cf: false,
    }
}

const UNKNOWN_SUFFIX: &str =
    "'. Supported keys: output, mount, user_agent, cf_clearance, show_progress, colored_output";

#[test]
fn default_config_has_nothing_set_and_display_on() {
    let c = Config::default();
    assert_eq!(c.download.default_output, None);
    assert_eq!(c.download.mount_url, None);
    assert_eq!(c.cloudflare.cf_clearance, None);
    assert_eq!(c.cloudflare.user_agent, None);
    assert_eq!(c.cloudflare.cf_clearance_timestamp, None);
    assert_eq!(c.cloudflare.cf_clearance_valid, None);
    assert!(c.ui.show_progress);
    assert!(c.ui.colored_output);
}

#[test]
fn set_output_trims_key_and_value() {
    let mut c = Config::default();
    assert_eq!(update_config_value(&mut c, "  output =  /music/library  "), Ok(()));
    assert_eq!(c.download.default_output.as_deref(), Some("/music/library"));
}

#[test]
fn set_key_is_lower_cased() {
    let mut c = Config::default();
    assert_eq!(update_config_value(&mut c, "Default_Output=/x"), Ok(()));
    assert_eq!(c.download.default_output.as_deref(), Some("/x"));
    assert_eq!(update_config_value(&mut c, "MOUNT=smb://host/share"), Ok(()));
    assert_eq!(c.download.mount_url.as_deref(), Some("smb://host/share"));
}

#[test]
fn set_value_keeps_later_equals_signs() {
    let mut c = Config::default();
    assert_eq!(update_config_value(&mut c, "ua=a=b=c"), Ok(()));
    assert_eq!(c.cloudflare.user_agent.as_deref(), Some("a=b=c"));
}

#[test]
fn set_all_aliases() {
    let mut c = Config::default();
    for (k, v) in [
        ("default-output", "/a"),
        ("mount_url", "smb://a/b"),
        ("mount-url", "smb://c/d"),
        ("user-agent", "UA1"),
        ("user_agent", "UA2"),
    ] {
        assert_eq!(update_config_value(&mut c, &format!("{k}={v}")), Ok(()));
    }
    assert_eq!(c.download.default_output.as_deref(), Some("/a"));
    assert_eq!(c.download.mount_url.as_deref(), Some("smb://c/d"));
    assert_eq!(c.cloudflare.user_agent.as_deref(), Some("UA2"));
}

#[test]
fn set_cookie_marks_it_valid_and_stamps_it() {
    let mut c = Config::default();
    assert_eq!(update_config_value(&mut c, "cf=abc123"), Ok(()));
    assert_eq!(c.cloudflare.cf_clearance.as_deref(), Some("abc123"));
    assert_eq!(c.cloudflare.cf_clearance_valid, Some(true));
    assert!(c.cloudflare.cf_clearance_timestamp.unwrap() > 1_600_000_000);
}

#[test]
fn set_flags() {
    let mut c = Config::default();
    assert_eq!(update_config_value(&mut c, "progress=false"), Ok(()));
    assert!(!c.ui.show_progress);
    assert_eq!(update_config_value(&mut c, "colored-output = false"), Ok(()));
    assert!(!c.ui.colored_output);
    assert_eq!(update_config_value(&mut c, "color=true"), Ok(()));
    assert!(c.ui.colored_output);
}

#[test]
fn set_flag_rejects_non_bool_and_changes_nothing() {
    let mut c = Config::default();
    assert_eq!(
        update_config_value(&mut c, "show_progress=yes"),
        Err("Value must be true or false".to_string())
    );
    assert_eq!(
        update_config_value(&mut c, "colored_output=TRUE"),
        Err("Value must be true or false".to_string())
    );
    assert!(c.ui.show_progress);
    assert!(c.ui.colored_output);
}

#[test]
fn set_without_equals_is_invalid_format() {
    let mut c = Config::default();
    assert_eq!(
        update_config_value(&mut c, "output"),
        Err("Invalid format. Use KEY=VALUE".to_string())
    );
    assert_eq!(c.download.default_output, None);
}

#[test]
fn set_unknown_key_lists_supported_keys() {
    let mut c = Config::default();
    assert_eq!(
        update_config_value(&mut c, " Theme =dark"),
        Err(format!("Unknown configuration key: 'theme{UNKNOWN_SUFFIX}"))
    );
    assert_eq!(
        update_config_value(&mut c, "=x"),
        Err(format!("Unknown configuration key: '{UNKNOWN_SUFFIX}"))
    );
}

#[test]
fn apply_setting_uses_given_time() {
    let mut c = Config::default();
    assert_eq!(apply_config_setting(&mut c, "cf-clearance", "tok", 77), Ok(()));
    assert_eq!(c.cloudflare.cf_clearance_timestamp, Some(77));
    assert_eq!(c.cloudflare.cf_clearance_valid, Some(true));
    assert_eq!(apply_config_setting(&mut c, "Output", "/x", 0), Err(format!("Unknown configuration key: 'Output{UNKNOWN_SUFFIX}")));
}

#[test]
fn supported_settings_are_stored_example() {
    let mut c = Config::default();
    assert_eq!(apply_config_setting(&mut c, "output", "/o", 1), Ok(()));
    assert_eq!(apply_config_setting(&mut c, "mount", "smb://m", 1), Ok(()));
    assert_eq!(apply_config_setting(&mut c, "user_agent", "U", 1), Ok(()));
    assert_eq!(apply_config_setting(&mut c, "cf_clearance", "C", 9), Ok(()));
    assert_eq!(apply_config_setting(&mut c, "show_progress", "false", 1), Ok(()));
    assert_eq!(apply_config_setting(&mut c, "colored_output", "false", 1), Ok(()));
    assert_eq!(c.download.default_output.as_deref(), Some("/o"));
    assert_eq!(c.download.mount_url.as_deref(), Some("smb://m"));
    assert_eq!(c.cloudflare.user_agent.as_deref(), Some("U"));
    assert_eq!(c.cloudflare.cf_clearance.as_deref(), Some("C"));
    assert_eq!(c.cloudflare.cf_clearance_timestamp, Some(9));
    assert!(!c.ui.show_progress && !c.ui.colored_output);
}

#[test]
fn cloudflare_headers_prefer_command_line() {
    let mut c = Config::default();
    c.cloudflare.cf_clearance = Some("stored".to_string());
    c.cloudflare.user_agent = Some("stored-ua".to_string());
    let mut l = cli();
    assert_eq!(
        get_cloudflare_headers(&l, &c),
        (Some("stored".to_string()), Some("stored-ua".to_string()))
    );
    l.cf_clearance = Some("cli".to_string());
    assert_eq!(
        get_cloudflare_headers(&l, &c),
        (Some("cli".to_string()), Some("stored-ua".to_string()))
    );
    l.user_agent = Some("cli-ua".to_string());
    assert_eq!(
        get_cloudflare_headers(&l, &c),
        (Some("cli".to_string()), Some("cli-ua".to_string()))
    );
}

#[test]
fn merge_prefers_command_line_output() {
    let mut c = Config::default();
    let mut l = cli();
    l.no_metadata = true;
    l.private = true;
    l.country = "US".to_string();
    let (d, out) = merge_cli_with_config(&l, &c);
    assert_eq!(d, DownloadConfig { country: "US".to_string(), metadata: false, private: true });
    assert_eq!(out, None);
    c.download.default_output = Some("/cfg".to_string());
    assert_eq!(merge_cli_with_config(&l, &c).1.as_deref(), Some("/cfg"));
    l.output = Some("/cli".to_string());
    assert_eq!(merge_cli_with_config(&l, &c).1.as_deref(), Some("/cli"));
}

#[test]
fn invalidating_keeps_cookie_text() {
    let mut c = Config::default();
    c.cloudflare.cf_clearance = Some("x".to_string());
    c.cloudflare.cf_clearance_valid = Some(true);
    c.cloudflare.cf_clearance_timestamp = Some(5);
    invalidate_existing_cookies(&mut c);
    assert_eq!(c.cloudflare.cf_clearance.as_deref(), Some("x"));
    assert_eq!(c.cloudflare.cf_clearance_valid, Some(false));
    assert_eq!(c.cloudflare.cf_clearance_timestamp, None);
}

#[test]
fn fetched_cookie_brings_browser_user_agent() {
    let mut c = Config::default();
    store_fetched_cookie(&mut c, "fresh".to_string(), 1234);
    assert_eq!(c.cloudflare.cf_clearance.as_deref(), Some("fresh"));
    assert_eq!(c.cloudflare.cf_clearance_valid, Some(true));
    assert_eq!(c.cloudflare.cf_clearance_timestamp, Some(1234));
    assert_eq!(
        c.cloudflare.user_agent.as_deref(),
        Some("Mozilla/5.0 (Macintosh; Intel Mac OS X 10_15_7) AppleWebKit/537.36 (KHTML, like Gecko) Chrome/120.0.0.0 Safari/537.36")
    );
}

#[test]
fn display_of_default_config() {
    let lines = display_config_lines(&Config::default());
    assert_eq!(
        lines,
        vec![
            "Current Lucida Configuration:",
            "===========================",
            "Default Output: (not set - uses current directory)",
            "Network Share Mount URL: (not set)",
            "Cloudflare Clearance: (not set)",
            "User Agent: (not set)",
            "Show Progress: true",
            "Colored Output: true",
        ]
    );
}

#[test]
fn display_of_full_config() {
    let mut c = Config::default();
    c.download.default_output = Some("/Volumes/Belmont/Music".to_string());
    c.download.mount_url = Some("smb://10.10.27.10/Belmont".to_string());
    c.cloudflare.cf_clearance = Some("tok".to_string());
    c.cloudflare.cf_clearance_valid = Some(true);
    c.cloudflare.cf_clearance_timestamp = Some(1700000000);
    c.cloudflare.user_agent = Some("UA".to_string());
    c.ui.colored_output = false;
    let lines = display_config_lines(&c);
    assert_eq!(lines[2], "Default Output: /Volumes/Belmont/Music");
    assert_eq!(lines[3], "Network Share Mount URL: smb://10.10.27.10/Belmont");
    assert_eq!(lines[4], "Cloudflare Clearance: tok");
    assert_eq!(lines[5], "  Status: Valid (timestamp: 1700000000)");
    assert_eq!(lines[6], "User Agent: UA");
    assert_eq!(lines[7], "Show Progress: true");
    assert_eq!(lines[8], "Colored Output: false");
    c.cloudflare.cf_clearance_timestamp = None;
    assert_eq!(display_config_lines(&c)[5], "  Status: Valid");
    c.cloudflare.cf_clearance_valid = Some(false);
    assert_eq!(display_config_lines(&c)[5], "  Status: Invalid");
    c.cloudflare.cf_clearance_valid = None;
    assert_eq!(display_config_lines(&c)[5], "  Status: Invalid");
    c.cloudflare.cf_clearance_timestamp = Some(0);
    c.cloudflare.cf_clearance_valid = Some(true);
    assert_eq!(display_config_lines(&c)[5], "  Status: Valid (timestamp: 0)");
}

#[test]
fn config_dir_joins_lucida() {
    assert_eq!(config_dir_from(Some(b"/home/a/.config".to_vec())), b"/home/a/.config/lucida".to_vec());
    assert_eq!(config_dir_from(Some(b"/home/a/.config/".to_vec())), b"/home/a/.config/lucida".to_vec());
    assert_eq!(config_dir_from(Some(Vec::new())), b"lucida".to_vec());
    assert_eq!(config_dir_from(None), b"./lucida".to_vec());
    assert_eq!(config_file_in(&b"./lucida".to_vec()), b"./lucida/config.toml".to_vec());
}

#[test]
fn config_dir_keeps_non_utf8_bytes() {
    let base = vec![b'/', b'h', 0xff, 0xfe, b'/', b'c'];
    let mut want = base.clone();
    want.extend_from_slice(b"/lucida");
    assert_eq!(config_dir_from(Some(base)), want);
}

#[test]
fn config_file_is_inside_config_dir() {
    let dir = get_config_dir();
    assert!(dir.ends_with(b"/lucida"));
    let mut want = dir.clone();
    want.extend_from_slice(b"/config.toml");
    assert_eq!(get_config_file(), want);
}

#[test]
fn recorded_cookie_with_and_without_clock() {
    let mut c = Config::default();
    c.cloudflare.user_agent = Some("mine".to_string());
    assert!(!record_fetched_cookie(&mut c, "a".to_string(), None));
    assert_eq!(c.cloudflare.cf_clearance.as_deref(), Some("a"));
    assert_eq!(c.cloudflare.cf_clearance_valid, Some(true));
    assert_eq!(c.cloudflare.cf_clearance_timestamp, None);
    assert_eq!(c.cloudflare.user_agent.as_deref(), Some("mine"));
    assert!(record_fetched_cookie(&mut c, "b".to_string(), Some(42)));
    assert_eq!(c.cloudflare.cf_clearance.as_deref(), Some("b"));
    assert_eq!(c.cloudflare.cf_clearance_timestamp, Some(42));
    assert!(c.cloudflare.user_agent.as_deref().unwrap().starts_with("Mozilla/5.0"));
}

#[test]
fn entered_cookie_is_stamped_with_given_time() {
    let mut c = Config::default();
    c.cloudflare.user_agent = Some("mine".to_string());
    store_entered_cookie(&mut c, "pasted".to_string(), 1_700_000_123);
    assert_eq!(c.cloudflare.cf_clearance.as_deref(), Some("pasted"));
    assert_eq!(c.cloudflare.cf_clearance_valid, Some(true));
    assert_eq!(c.cloudflare.cf_clearance_timestamp, Some(1_700_000_123));
    assert_eq!(c.cloudflare.user_agent.as_deref(), Some("mine"));
}
