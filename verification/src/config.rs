//! The stored configuration and the rules that change it.

use vstd::prelude::*;

use crate::cli::{either, first_present, Cli, DownloadConfig};
use crate::text::{
    chars_of, decimal, decimal_chars, first_match, find_exec, lemma_first_match, matches_at, push_all, push_bool_text,
    push_str_chars, slice_chars, spells, string_from_chars, trim, trim_exec, bool_text,
};

verus! {

/// The `[download]` section.
#[derive(Clone, Debug)]
pub struct DownloadConfigSection {
    pub default_output: Option<String>,
    pub mount_url: Option<String>,
}

/// The `[cloudflare]` section.
#[derive(Clone, Debug)]
pub struct CloudflareConfig {
    pub cf_clearance: Option<String>,
    pub user_agent: Option<String>,
    pub cf_clearance_timestamp: Option<u64>,
    pub cf_clearance_valid: Option<bool>,
}

/// The `[ui]` section.
#[derive(Clone, Debug)]
pub struct UiConfig {
    pub show_progress: bool,
    pub colored_output: bool,
}

/// The whole stored configuration.
#[derive(Clone, Debug)]
pub struct Config {
    pub download: DownloadConfigSection,
    pub cloudflare: CloudflareConfig,
    pub ui: UiConfig,
}

/// What a configuration holds, with each text as its characters.
pub ghost struct ConfigModel {
    pub default_output: Option<Seq<char>>,
    pub mount_url: Option<Seq<char>>,
    pub cf_clearance: Option<Seq<char>>,
    pub user_agent: Option<Seq<char>>,
    pub cf_clearance_timestamp: Option<u64>,
    pub cf_clearance_valid: Option<bool>,
    pub show_progress: bool,
    pub colored_output: bool,
}

/// The characters of an optional text.
pub open spec fn opt_chars(o: Option<String>) -> Option<Seq<char>> {
    match o {
        Some(s) => Some(s@),
        None => None,
    }
}

impl View for Config {
    type V = ConfigModel;

    open spec fn view(&self) -> ConfigModel {
        ConfigModel {
            default_output: opt_chars(self.download.default_output),
            mount_url: opt_chars(self.download.mount_url),
            cf_clearance: opt_chars(self.cloudflare.cf_clearance),
            user_agent: opt_chars(self.cloudflare.user_agent),
            cf_clearance_timestamp: self.cloudflare.cf_clearance_timestamp,
            cf_clearance_valid: self.cloudflare.cf_clearance_valid,
            show_progress: self.ui.show_progress,
            colored_output: self.ui.colored_output,
        }
    }
}

/// The configuration used where none is stored: nothing set, progress bars
/// and colors on.
pub open spec fn default_model() -> ConfigModel {
    ConfigModel {
        default_output: None,
        mount_url: None,
        cf_clearance: None,
        user_agent: None,
        cf_clearance_timestamp: None,
        cf_clearance_valid: None,
        show_progress: true,
        colored_output: true,
    }
}

impl Default for Config {
    fn default() -> (c: Self)
        ensures
            c@ == default_model(),
    {
        Config {
            download: DownloadConfigSection { default_output: None, mount_url: None },
            cloudflare: CloudflareConfig {
                cf_clearance: None,
                user_agent: None,
                cf_clearance_timestamp: None,
                cf_clearance_valid: None,
            },
            ui: UiConfig { show_progress: true, colored_output: true },
        }
    }
}

/// A result whose error text is taken by its characters.
pub open spec fn result_chars(r: Result<(), String>) -> Result<(), Seq<char>> {
    match r {
        Ok(()) => Ok(()),
        Err(e) => Err(e@),
    }
}

/// `"true"` and `"false"` and nothing else parse as a `bool` (`bool`'s `FromStr`).
pub open spec fn parse_bool(v: Seq<char>) -> Option<bool> {
    if v == "true"@ {
        Some(true)
    } else if v == "false"@ {
        Some(false)
    } else {
        None
    }
}

/// The names of the output directory: `output`, `default_output`, `default-output`.
pub open spec fn is_output_key(k: Seq<char>) -> bool {
    k == "output"@ || k == "default_output"@ || k == "default-output"@
}

/// The names of the mount URL: `mount`, `mount_url`, `mount-url`.
pub open spec fn is_mount_key(k: Seq<char>) -> bool {
    k == "mount"@ || k == "mount_url"@ || k == "mount-url"@
}

/// The names of the User-Agent: `user_agent`, `user-agent`, `ua`.
pub open spec fn is_user_agent_key(k: Seq<char>) -> bool {
    k == "user_agent"@ || k == "user-agent"@ || k == "ua"@
}

/// The names of the cf_clearance cookie: `cf_clearance`, `cf-clearance`, `cf`.
pub open spec fn is_cf_key(k: Seq<char>) -> bool {
    k == "cf_clearance"@ || k == "cf-clearance"@ || k == "cf"@
}

/// The names of the progress-bar switch: `show_progress`, `show-progress`, `progress`.
pub open spec fn is_progress_key(k: Seq<char>) -> bool {
    k == "show_progress"@ || k == "show-progress"@ || k == "progress"@
}

/// The names of the color switch: `colored_output`, `colored-output`, `color`.
pub open spec fn is_color_key(k: Seq<char>) -> bool {
    k == "colored_output"@ || k == "colored-output"@ || k == "color"@
}

/// The error for an expression without `=`.
pub open spec fn invalid_format_error() -> Seq<char> {
    "Invalid format. Use KEY=VALUE"@
}

/// The error for a switch set to something other than `true` or `false`.
pub open spec fn bool_value_error() -> Seq<char> {
    "Value must be true or false"@
}

/// The error for a key that names no setting.
pub open spec fn unknown_key_error(key: Seq<char>) -> Seq<char> {
    "Unknown configuration key: '"@ + key
        + "'. Supported keys: output, mount, user_agent, cf_clearance, show_progress, colored_output"@
}

/// The configuration and the result after setting `key` (already lower case)
/// to `value` at time `now` (seconds since the Unix epoch).
pub open spec fn setting_outcome(m: ConfigModel, key: Seq<char>, value: Seq<char>, now: u64) -> (
    ConfigModel,
    Result<(), Seq<char>>,
) {
    if is_output_key(key) {
        (ConfigModel { default_output: Some(value), ..m }, Ok(()))
    } else if is_mount_key(key) {
        (ConfigModel { mount_url: Some(value), ..m }, Ok(()))
    } else if is_user_agent_key(key) {
        (ConfigModel { user_agent: Some(value), ..m }, Ok(()))
    } else if is_cf_key(key) {
        (
            ConfigModel {
                cf_clearance: Some(value),
                cf_clearance_valid: Some(true),
                cf_clearance_timestamp: Some(now),
                ..m
            },
            Ok(()),
        )
    } else if is_progress_key(key) {
        match parse_bool(value) {
            Some(b) => (ConfigModel { show_progress: b, ..m }, Ok(())),
            None => (m, Err(bool_value_error())),
        }
    } else if is_color_key(key) {
        match parse_bool(value) {
            Some(b) => (ConfigModel { colored_output: b, ..m }, Ok(())),
            None => (m, Err(bool_value_error())),
        }
    } else {
        (m, Err(unknown_key_error(key)))
    }
}

/// The value of `v` as a `bool`, if it is `"true"` or `"false"`.
fn parse_bool_exec(v: &Vec<char>) -> (r: Option<bool>)
    ensures
        r == parse_bool(v@),
{
    if spells(v, "true") {
        Some(true)
    } else if spells(v, "false") {
        Some(false)
    } else {
        None
    }
}

/// Sets the configuration entry named `key`, which is already in lower case,
/// to `value`; `now` is the time to stamp a new cf_clearance cookie with.
pub fn apply_config_setting(config: &mut Config, key: &str, value: &str, now: u64) -> (r: Result<
    (),
    String,
>)
    ensures
        final(config)@ == setting_outcome(old(config)@, key@, value@, now).0,
        result_chars(r) == setting_outcome(old(config)@, key@, value@, now).1,
{
    let k = chars_of(key);
    if spells(&k, "output") || spells(&k, "default_output") || spells(&k, "default-output") {
        config.download.default_output = Some(value.to_string());
        Ok(())
    } else if spells(&k, "mount") || spells(&k, "mount_url") || spells(&k, "mount-url") {
        config.download.mount_url = Some(value.to_string());
        Ok(())
    } else if spells(&k, "user_agent") || spells(&k, "user-agent") || spells(&k, "ua") {
        config.cloudflare.user_agent = Some(value.to_string());
        Ok(())
    } else if spells(&k, "cf_clearance") || spells(&k, "cf-clearance") || spells(&k, "cf") {
        config.cloudflare.cf_clearance = Some(value.to_string());
        config.cloudflare.cf_clearance_valid = Some(true);
        config.cloudflare.cf_clearance_timestamp = Some(now);
        Ok(())
    } else if spells(&k, "show_progress") || spells(&k, "show-progress") || spells(&k, "progress") {
        match parse_bool_exec(&chars_of(value)) {
            Some(b) => {
                config.ui.show_progress = b;
                Ok(())
            },
            None => Err("Value must be true or false".to_string()),
        }
    } else if spells(&k, "colored_output") || spells(&k, "colored-output") || spells(&k, "color") {
        match parse_bool_exec(&chars_of(value)) {
            Some(b) => {
                config.ui.colored_output = b;
                Ok(())
            },
            None => Err("Value must be true or false".to_string()),
        }
    } else {
        let mut msg: Vec<char> = Vec::new();
        push_str_chars(&mut msg, "Unknown configuration key: '");
        push_str_chars(&mut msg, key);
        push_str_chars(
            &mut msg,
            "'. Supported keys: output, mount, user_agent, cf_clearance, show_progress, colored_output",
        );
        Err(string_from_chars(&msg))
    }
}

} // verus!

verus! {

/// What `str::to_lowercase` gives for `s`: each character replaced by its
/// Unicode lower-case mapping.
pub uninterp spec fn lowercase(s: Seq<char>) -> Seq<char>;

/// Whether every character of `s` is ASCII.
pub open spec fn is_ascii_text(s: Seq<char>) -> bool {
    forall|i: int| 0 <= i < s.len() ==> (#[trigger] s[i] as u32) < 128
}

/// The ASCII lower-case of `c`: `A`–`Z` become `a`–`z`, every other
/// character is kept.
pub open spec fn ascii_lower(c: char) -> char {
    if 'A' <= c && c <= 'Z' {
        ((c as u32) + 32) as char
    } else {
        c
    }
}

/// Lower-cases `s` with std's `str::to_lowercase`.
///
/// The contract names the result (`lowercase`), a function of `s`, and
/// states the ASCII part of the Unicode lower-case mapping that std uses: in
/// an all-ASCII text `A`–`Z` become `a`–`z` and every other character is
/// kept. The mapping of other characters is not stated.
#[verifier::external_body]
fn to_lower_case(s: &str) -> (r: String)
    ensures
        r@ == lowercase(s@),
        is_ascii_text(s@) ==> r@ == s@.map_values(|c: char| ascii_lower(c)),
{
    s.to_lowercase()
}

/// The current time in whole seconds since the Unix epoch, read with
/// `std::time::SystemTime::now` and `duration_since(UNIX_EPOCH)`; `None` where
/// the clock reads before the epoch.
///
/// Nothing is stated of the value: it depends on the machine's clock.
#[verifier::external_body]
pub(crate) fn seconds_since_epoch() -> Option<u64> {
    match std::time::SystemTime::now().duration_since(std::time::UNIX_EPOCH) {
        Ok(d) => Some(d.as_secs()),
        Err(_) => None,
    }
}

/// `KEY=VALUE` split at its first `=`, or `None` where there is no `=`.
pub open spec fn split_setting(s: Seq<char>) -> Option<(Seq<char>, Seq<char>)> {
    let k = first_match(s, seq!['=']);
    if k < s.len() {
        Some((s.take(k), s.skip(k + 1)))
    } else {
        None
    }
}

/// The time a configuration's cookie was stamped with, or 0.
pub open spec fn stamp_of(m: ConfigModel) -> u64 {
    match m.cf_clearance_timestamp {
        Some(t) => t,
        None => 0,
    }
}

/// Updates one configuration entry from an expression `KEY=VALUE`.
///
/// The key is trimmed and lower-cased (for an ASCII key, `A`–`Z` become
/// `a`–`z`) and the value trimmed; the entries and
/// their names are those of `setting_outcome`. A new cf_clearance cookie is
/// stamped with the current time (0 where the clock reads before the epoch).
pub fn update_config_value(config: &mut Config, set_expr: &str) -> (r: Result<(), String>)
    ensures
        match split_setting(set_expr@) {
            None => final(config)@ == old(config)@ && result_chars(r) == Err::<(), Seq<char>>(
                invalid_format_error(),
            ),
            Some(parts) => {
                let key = lowercase(trim(parts.0));
                let value = trim(parts.1);
                let outcome = setting_outcome(old(config)@, key, value, stamp_of(final(config)@));
                &&& is_ascii_text(trim(parts.0)) ==> key == trim(parts.0).map_values(
                    |c: char| ascii_lower(c),
                )
                &&& final(config)@ == outcome.0
                &&& result_chars(r) == outcome.1
            },
        },
{
    let expr = chars_of(set_expr);
    let mut eq: Vec<char> = Vec::new();
    eq.push('=');
    let k = find_exec(&expr, &eq);
    if k >= expr.len() {
        return Err("Invalid format. Use KEY=VALUE".to_string());
    }
    let key_part = slice_chars(&expr, 0, k);
    let value_part = slice_chars(&expr, k + 1, expr.len());
    assert(key_part@ == expr@.take(k as int));
    assert(value_part@ == expr@.skip(k + 1));
    let key_text = string_from_chars(&trim_exec(&key_part));
    let key = to_lower_case(key_text.as_str());
    let value = string_from_chars(&trim_exec(&value_part));
    let now = match seconds_since_epoch() {
        Some(t) => t,
        None => 0,
    };
    apply_config_setting(config, key.as_str(), value.as_str(), now)
}

/// The cf_clearance cookie and User-Agent to send: each from the command
/// line where given there, else from the configuration.
pub fn get_cloudflare_headers(cli: &Cli, config: &Config) -> (r: (Option<String>, Option<String>))
    ensures
        r.0 == either(cli.cf_clearance, config.cloudflare.cf_clearance),
        r.1 == either(cli.user_agent, config.cloudflare.user_agent),
{
    let cf_clearance = first_present(&cli.cf_clearance, &config.cloudflare.cf_clearance);
    let user_agent = first_present(&cli.user_agent, &config.cloudflare.user_agent);
    (cf_clearance, user_agent)
}

/// The download options of the command line, and the output directory: the
/// command line's where given, else the configured default.
pub fn merge_cli_with_config(cli: &Cli, config: &Config) -> (r: (DownloadConfig, Option<String>))
    ensures
        r.0.country == cli.country,
        r.0.metadata == !cli.no_metadata,
        r.0.private == cli.private,
        r.1 == either(cli.output, config.download.default_output),
{
    let download_config = DownloadConfig {
        country: cli.country.clone(),
        metadata: !cli.no_metadata,
        private: cli.private,
    };
    let output = first_present(&cli.output, &config.download.default_output);
    (download_config, output)
}

/// Marks the stored cf_clearance cookie invalid and drops its time stamp.
pub fn invalidate_existing_cookies(config: &mut Config)
    ensures
        final(config)@ == (ConfigModel {
            cf_clearance_valid: Some(false),
            cf_clearance_timestamp: None,
            ..old(config)@
        }),
{
    config.cloudflare.cf_clearance_valid = Some(false);
    config.cloudflare.cf_clearance_timestamp = None;
}

/// The User-Agent of the browser that fetches cf_clearance cookies.
pub open spec fn fetch_user_agent() -> Seq<char> {
    "Mozilla/5.0 (Macintosh; Intel Mac OS X 10_15_7) AppleWebKit/537.36 (KHTML, like Gecko) Chrome/120.0.0.0 Safari/537.36"@
}

/// The User-Agent of the browser that fetches cf_clearance cookies.
pub fn browser_user_agent() -> (s: String)
    ensures
        s@ == fetch_user_agent(),
{
    "Mozilla/5.0 (Macintosh; Intel Mac OS X 10_15_7) AppleWebKit/537.36 (KHTML, like Gecko) Chrome/120.0.0.0 Safari/537.36".to_string()
}

/// Stores a freshly fetched cf_clearance cookie as valid, stamped with `now`,
/// together with the User-Agent of the browser that fetched it.
pub fn store_fetched_cookie(config: &mut Config, cookie: String, now: u64)
    ensures
        final(config)@ == (ConfigModel {
            cf_clearance: Some(cookie@),
            cf_clearance_valid: Some(true),
            cf_clearance_timestamp: Some(now),
            user_agent: Some(fetch_user_agent()),
            ..old(config)@
        }),
{
    config.cloudflare.cf_clearance = Some(cookie);
    config.cloudflare.cf_clearance_valid = Some(true);
    config.cloudflare.cf_clearance_timestamp = Some(now);
    config.cloudflare.user_agent = Some(browser_user_agent());
}

} // verus!

verus! {

/// A line that shows an optional entry after `label`, or `unset` where the
/// entry is absent.
pub open spec fn entry_line(label: Seq<char>, v: Option<Seq<char>>, unset: Seq<char>) -> Seq<char> {
    match v {
        Some(s) => label + s,
        None => label + unset,
    }
}

/// The line on whether the stored cookie may be used.
pub open spec fn cookie_status_line(m: ConfigModel) -> Seq<char> {
    if m.cf_clearance_valid == Some(true) {
        match m.cf_clearance_timestamp {
            Some(t) => "  Status: Valid (timestamp: "@ + decimal(t as nat) + ")"@,
            None => "  Status: Valid"@,
        }
    } else {
        "  Status: Invalid"@
    }
}

/// The lines on the cf_clearance cookie.
pub open spec fn cookie_lines(m: ConfigModel) -> Seq<Seq<char>> {
    match m.cf_clearance {
        Some(c) => seq!["Cloudflare Clearance: "@ + c, cookie_status_line(m)],
        None => seq!["Cloudflare Clearance: (not set)"@],
    }
}

/// The report that shows a configuration, line by line.
pub open spec fn config_report(m: ConfigModel) -> Seq<Seq<char>> {
    seq![
        "Current Lucida Configuration:"@,
        "==========================="@,
        entry_line("Default Output: "@, m.default_output, "(not set - uses current directory)"@),
        entry_line("Network Share Mount URL: "@, m.mount_url, "(not set)"@),
    ] + cookie_lines(m) + seq![
        entry_line("User Agent: "@, m.user_agent, "(not set)"@),
        "Show Progress: "@ + bool_text(m.show_progress),
        "Colored Output: "@ + bool_text(m.colored_output),
    ]
}

/// The characters of each text.
pub open spec fn texts(v: Seq<String>) -> Seq<Seq<char>> {
    v.map_values(|s: String| s@)
}

/// The text `label` followed by the entry `v`, or by `unset` where it is absent.
fn entry_text(label: &str, v: &Option<String>, unset: &str) -> (r: String)
    ensures
        r@ == entry_line(label@, opt_chars(*v), unset@),
{
    let mut line = chars_of(label);
    match v {
        Some(s) => push_str_chars(&mut line, s.as_str()),
        None => push_str_chars(&mut line, unset),
    }
    string_from_chars(&line)
}

/// The text `label` followed by `true` or `false`.
fn flag_text(label: &str, b: bool) -> (r: String)
    ensures
        r@ == label@ + bool_text(b),
{
    let mut line = chars_of(label);
    push_bool_text(&mut line, b);
    string_from_chars(&line)
}

/// The line on whether the stored cookie may be used.
fn cookie_status_text(config: &Config) -> (r: String)
    ensures
        r@ == cookie_status_line(config@),
{
    let valid = match config.cloudflare.cf_clearance_valid {
        Some(b) => b,
        None => false,
    };
    if valid {
        match config.cloudflare.cf_clearance_timestamp {
            Some(t) => {
                let mut line = chars_of("  Status: Valid (timestamp: ");
                let digits = decimal_chars(t);
                push_all(&mut line, &digits);
                push_str_chars(&mut line, ")");
                string_from_chars(&line)
            },
            None => "  Status: Valid".to_string(),
        }
    } else {
        "  Status: Invalid".to_string()
    }
}

/// The report that shows `config`, line by line (what `display_config`
/// prints).
pub fn display_config_lines(config: &Config) -> (r: Vec<String>)
    ensures
        texts(r@) == config_report(config@),
{
    let mut lines: Vec<String> = Vec::new();
    lines.push("Current Lucida Configuration:".to_string());
    lines.push("===========================".to_string());
    lines.push(
        entry_text(
            "Default Output: ",
            &config.download.default_output,
            "(not set - uses current directory)",
        ),
    );
    lines.push(entry_text("Network Share Mount URL: ", &config.download.mount_url, "(not set)"));
    match &config.cloudflare.cf_clearance {
        Some(c) => {
            let mut line = chars_of("Cloudflare Clearance: ");
            push_str_chars(&mut line, c.as_str());
            lines.push(string_from_chars(&line));
            lines.push(cookie_status_text(config));
        },
        None => {
            lines.push("Cloudflare Clearance: (not set)".to_string());
        },
    }
    lines.push(entry_text("User Agent: ", &config.cloudflare.user_agent, "(not set)"));
    lines.push(flag_text("Show Progress: ", config.ui.show_progress));
    lines.push(flag_text("Colored Output: ", config.ui.colored_output));
    assert(texts(lines@) =~= config_report(config@));
    lines
}

} // verus!

verus! {

/// The bytes of a text whose characters are ASCII (each character as its
/// code, truncated to a byte).
pub open spec fn ascii_bytes(s: Seq<char>) -> Seq<u8> {
    s.map_values(|c: char| c as u8)
}

/// The bytes of `s`, each character as its code truncated to a byte (exact
/// for ASCII text).
fn ascii_bytes_of(s: &str) -> (r: Vec<u8>)
    ensures
        r@ == ascii_bytes(s@),
{
    let v = chars_of(s);
    let mut r: Vec<u8> = Vec::new();
    let mut i: usize = 0;
    while i < v.len()
        invariant
            i <= v.len(),
            v@ == s@,
            r@ == ascii_bytes(v@.take(i as int)),
        decreases v.len() - i,
    {
        r.push(v[i] as u8);
        assert(ascii_bytes(v@.take(i + 1)) =~= ascii_bytes(v@.take(i as int)).push(v@[i as int] as u8));
        i = i + 1;
    }
    assert(v@.take(v.len() as int) =~= v@);
    r
}

/// The path `base` (its bytes) extended by the relative path `part`, as
/// `Path::join` does it on Unix: a `/` goes between them unless `base` is
/// empty or already ends in one.
pub open spec fn path_join(base: Seq<u8>, part: Seq<u8>) -> Seq<u8> {
    if base.len() == 0 || base.last() == ('/' as u8) {
        base + part
    } else {
        base + seq!['/' as u8] + part
    }
}

/// The path `base` extended by the relative path `part`.
fn join_path(base: &Vec<u8>, part: &Vec<u8>) -> (r: Vec<u8>)
    ensures
        r@ == path_join(base@, part@),
{
    let mut r: Vec<u8> = Vec::new();
    let mut i: usize = 0;
    while i < base.len()
        invariant
            i <= base.len(),
            r@ == base@.take(i as int),
        decreases base.len() - i,
    {
        r.push(base[i]);
        assert(base@.take(i + 1) =~= base@.take(i as int).push(base@[i as int]));
        i = i + 1;
    }
    assert(base@.take(base.len() as int) =~= base@);
    if base.len() > 0 && base[base.len() - 1] != ('/' as u8) {
        r.push('/' as u8);
    }
    let ghost start = r@;
    let mut j: usize = 0;
    while j < part.len()
        invariant
            j <= part.len(),
            r@ == start + part@.take(j as int),
        decreases part.len() - j,
    {
        r.push(part[j]);
        assert(part@.take(j + 1) =~= part@.take(j as int).push(part@[j as int]));
        j = j + 1;
    }
    assert(part@.take(part.len() as int) =~= part@);
    r
}

/// The user's configuration directory from `dirs::config_dir`, as the bytes
/// of its path (`OsString::into_encoded_bytes`; on Unix the path's own bytes,
/// whether or not they are UTF-8).
///
/// Nothing is stated of the result: it depends on the environment
/// (`XDG_CONFIG_HOME`, `HOME`) and the operating system.
#[verifier::external_body]
fn user_config_dir() -> Option<Vec<u8>> {
    match dirs::config_dir() {
        Some(p) => Some(p.into_os_string().into_encoded_bytes()),
        None => None,
    }
}

/// The application's configuration directory: `lucida` under the user's
/// configuration directory `base`, or under `.` where there is none.
pub open spec fn config_dir_under(base: Option<Seq<u8>>) -> Seq<u8> {
    match base {
        Some(b) => path_join(b, ascii_bytes("lucida"@)),
        None => path_join(ascii_bytes("."@), ascii_bytes("lucida"@)),
    }
}

/// The configuration file: `config.toml` in the application's directory.
pub open spec fn config_file_under(base: Option<Seq<u8>>) -> Seq<u8> {
    path_join(config_dir_under(base), ascii_bytes("config.toml"@))
}

/// The bytes of an optional byte list.
pub open spec fn opt_bytes(o: Option<Vec<u8>>) -> Option<Seq<u8>> {
    match o {
        Some(v) => Some(v@),
        None => None,
    }
}

/// The application's configuration directory (the bytes of its path) under
/// the user's configuration directory `base`.
pub fn config_dir_from(base: Option<Vec<u8>>) -> (r: Vec<u8>)
    ensures
        r@ == config_dir_under(opt_bytes(base)),
{
    let lucida = ascii_bytes_of("lucida");
    match base {
        Some(b) => join_path(&b, &lucida),
        None => join_path(&ascii_bytes_of("."), &lucida),
    }
}

/// The configuration file inside the application's directory `dir` (the
/// bytes of its path).
pub fn config_file_in(dir: &Vec<u8>) -> (r: Vec<u8>)
    ensures
        r@ == path_join(dir@, ascii_bytes("config.toml"@)),
{
    join_path(dir, &ascii_bytes_of("config.toml"))
}

/// The application's configuration directory, as the bytes of its path.
pub fn get_config_dir() -> (r: Vec<u8>)
    ensures
        exists|base: Option<Seq<u8>>| r@ == #[trigger] config_dir_under(base),
{
    let base = user_config_dir();
    let ghost b = opt_bytes(base);
    let r = config_dir_from(base);
    assert(r@ == config_dir_under(b));
    r
}

/// The configuration file, as the bytes of its path.
pub fn get_config_file() -> (r: Vec<u8>)
    ensures
        exists|base: Option<Seq<u8>>| r@ == #[trigger] config_file_under(base),
{
    let dir = get_config_dir();
    let r = config_file_in(&dir);
    proof {
        let b = choose|b: Option<Seq<u8>>| dir@ == #[trigger] config_dir_under(b);
        assert(r@ == config_file_under(b));
    }
    r
}

} // verus!

verus! {

/// Each supported key stores its value: `output`, `mount`, `user_agent` and
/// `cf_clearance` take any value (the cookie becomes valid, stamped with the
/// time), `show_progress` and `colored_output` take `true` or `false`.
pub proof fn supported_settings_are_stored(m: ConfigModel, value: Seq<char>, now: u64)
    ensures
        setting_outcome(m, "output"@, value, now) == (ConfigModel {
            default_output: Some(value),
            ..m
        }, Ok::<(), Seq<char>>(())),
        setting_outcome(m, "mount"@, value, now) == (ConfigModel {
            mount_url: Some(value),
            ..m
        }, Ok::<(), Seq<char>>(())),
        setting_outcome(m, "user_agent"@, value, now) == (ConfigModel {
            user_agent: Some(value),
            ..m
        }, Ok::<(), Seq<char>>(())),
        setting_outcome(m, "cf_clearance"@, value, now) == (ConfigModel {
            cf_clearance: Some(value),
            cf_clearance_valid: Some(true),
            cf_clearance_timestamp: Some(now),
            ..m
        }, Ok::<(), Seq<char>>(())),
        parse_bool(value) matches Some(b) ==> setting_outcome(m, "show_progress"@, value, now) == (
        ConfigModel { show_progress: b, ..m }, Ok::<(), Seq<char>>(())),
        parse_bool(value) matches Some(b) ==> setting_outcome(m, "colored_output"@, value, now) == (
        ConfigModel { colored_output: b, ..m }, Ok::<(), Seq<char>>(())),
{
    reveal_strlit("output");
    reveal_strlit("default_output");
    reveal_strlit("default-output");
    reveal_strlit("mount");
    reveal_strlit("mount_url");
    reveal_strlit("mount-url");
    reveal_strlit("user_agent");
    reveal_strlit("user-agent");
    reveal_strlit("ua");
    reveal_strlit("cf_clearance");
    reveal_strlit("cf-clearance");
    reveal_strlit("cf");
    reveal_strlit("show_progress");
    reveal_strlit("show-progress");
    reveal_strlit("progress");
    reveal_strlit("colored_output");
    reveal_strlit("colored-output");
    reveal_strlit("color");
    lemma_colored_output_key();
}

/// `colored_output` names only the color setting.
proof fn lemma_colored_output_key()
    ensures
        !is_output_key("colored_output"@),
        !is_mount_key("colored_output"@),
        !is_user_agent_key("colored_output"@),
        !is_cf_key("colored_output"@),
        !is_progress_key("colored_output"@),
        is_color_key("colored_output"@),
{
    reveal_strlit("colored_output");
    reveal_strlit("output");
    reveal_strlit("default_output");
    reveal_strlit("default-output");
    reveal_strlit("mount");
    reveal_strlit("mount_url");
    reveal_strlit("mount-url");
    reveal_strlit("user_agent");
    reveal_strlit("user-agent");
    reveal_strlit("ua");
    reveal_strlit("cf_clearance");
    reveal_strlit("cf-clearance");
    reveal_strlit("cf");
    reveal_strlit("show_progress");
    reveal_strlit("show-progress");
    reveal_strlit("progress");
    assert("colored_output"@[0] != "default_output"@[0]);
    assert("colored_output"@[0] != "default-output"@[0]);
    assert("colored_output"@[0] != "cf_clearance"@[0] || "colored_output"@[1] != "cf_clearance"@[1]);
}

/// A rejected setting leaves the configuration as it was.
pub proof fn rejected_settings_change_nothing(
    m: ConfigModel,
    key: Seq<char>,
    value: Seq<char>,
    now: u64,
)
    ensures
        setting_outcome(m, key, value, now).1 is Err ==> setting_outcome(m, key, value, now).0 == m,
{
}

/// A key outside the supported names is rejected with the message that lists
/// the supported keys.
pub proof fn unknown_keys_are_rejected(m: ConfigModel, key: Seq<char>, value: Seq<char>, now: u64)
    requires
        !is_output_key(key),
        !is_mount_key(key),
        !is_user_agent_key(key),
        !is_cf_key(key),
        !is_progress_key(key),
        !is_color_key(key),
    ensures
        setting_outcome(m, key, value, now) == (m, Err::<(), Seq<char>>(unknown_key_error(key))),
{
}

} // verus!

verus! {

/// The configuration after a fetched cookie arrives when the clock reads
/// `now`: stored with its stamp and the browser's User-Agent, or, where the
/// clock could not be read, stored as valid without either.
pub open spec fn fetched_cookie_model(m: ConfigModel, cookie: Seq<char>, now: Option<u64>) -> ConfigModel {
    match now {
        Some(t) => ConfigModel {
            cf_clearance: Some(cookie),
            cf_clearance_valid: Some(true),
            cf_clearance_timestamp: Some(t),
            user_agent: Some(fetch_user_agent()),
            ..m
        },
        None => ConfigModel { cf_clearance: Some(cookie), cf_clearance_valid: Some(true), ..m },
    }
}

/// Records a fetched cookie with the time `now`, if the clock could be read;
/// tells whether it was stamped (and so is ready to be saved).
pub fn record_fetched_cookie(config: &mut Config, cookie: String, now: Option<u64>) -> (stamped: bool)
    ensures
        stamped == now is Some,
        final(config)@ == fetched_cookie_model(old(config)@, cookie@, now),
{
    match now {
        Some(t) => {
            store_fetched_cookie(config, cookie, t);
            true
        },
        None => {
            config.cloudflare.cf_clearance = Some(cookie);
            config.cloudflare.cf_clearance_valid = Some(true);
            false
        },
    }
}

} // verus!

verus! {

/// The configuration after the user pastes a cookie at time `now`: stored as
/// valid and stamped with `now`; the User-Agent is left as it is.
pub open spec fn entered_cookie_model(m: ConfigModel, cookie: Seq<char>, now: u64) -> ConfigModel {
    ConfigModel {
        cf_clearance: Some(cookie),
        cf_clearance_valid: Some(true),
        cf_clearance_timestamp: Some(now),
        ..m
    }
}

/// Stores a cookie the user pasted as valid, stamped with `now` (seconds
/// since the Unix epoch).
pub fn store_entered_cookie(config: &mut Config, cookie: String, now: u64)
    ensures
        final(config)@ == entered_cookie_model(old(config)@, cookie@, now),
{
    config.cloudflare.cf_clearance = Some(cookie);
    config.cloudflare.cf_clearance_valid = Some(true);
    config.cloudflare.cf_clearance_timestamp = Some(now);
}

} // verus!

verus! {

/// Which setting a key names: 0 output, 1 mount, 2 User-Agent, 3 cookie,
/// 4 progress, 5 color, 6 none.
pub open spec fn key_class(k: Seq<char>) -> nat {
    if is_output_key(k) {
        0
    } else if is_mount_key(k) {
        1
    } else if is_user_agent_key(k) {
        2
    } else if is_cf_key(k) {
        3
    } else if is_progress_key(k) {
        4
    } else if is_color_key(k) {
        5
    } else {
        6
    }
}

/// The length and first letter of each setting name; no two names of
/// different settings share both.
proof fn lemma_key_names()
    ensures
        "output"@.len() == 6 && "output"@[0] == 'o',
        "default_output"@.len() == 14 && "default_output"@[0] == 'd',
        "default-output"@.len() == 14 && "default-output"@[0] == 'd',
        "mount"@.len() == 5 && "mount"@[0] == 'm',
        "mount_url"@.len() == 9 && "mount_url"@[0] == 'm',
        "mount-url"@.len() == 9 && "mount-url"@[0] == 'm',
        "user_agent"@.len() == 10 && "user_agent"@[0] == 'u',
        "user-agent"@.len() == 10 && "user-agent"@[0] == 'u',
        "ua"@.len() == 2 && "ua"@[0] == 'u',
        "cf_clearance"@.len() == 12 && "cf_clearance"@[0] == 'c',
        "cf-clearance"@.len() == 12 && "cf-clearance"@[0] == 'c',
        "cf"@.len() == 2 && "cf"@[0] == 'c',
        "show_progress"@.len() == 13 && "show_progress"@[0] == 's',
        "show-progress"@.len() == 13 && "show-progress"@[0] == 's',
        "progress"@.len() == 8 && "progress"@[0] == 'p',
        "colored_output"@.len() == 14 && "colored_output"@[0] == 'c',
        "colored-output"@.len() == 14 && "colored-output"@[0] == 'c',
        "color"@.len() == 5 && "color"@[0] == 'c',
{
    reveal_strlit("output");
    reveal_strlit("default_output");
    reveal_strlit("default-output");
    reveal_strlit("mount");
    reveal_strlit("mount_url");
    reveal_strlit("mount-url");
    reveal_strlit("user_agent");
    reveal_strlit("user-agent");
    reveal_strlit("ua");
    reveal_strlit("cf_clearance");
    reveal_strlit("cf-clearance");
    reveal_strlit("cf");
    reveal_strlit("show_progress");
    reveal_strlit("show-progress");
    reveal_strlit("progress");
    reveal_strlit("colored_output");
    reveal_strlit("colored-output");
    reveal_strlit("color");
}

/// Two keys in the same class give the same outcome.
proof fn lemma_same_class(a: Seq<char>, b: Seq<char>, m: ConfigModel, value: Seq<char>, now: u64)
    requires
        key_class(a) == key_class(b),
        key_class(a) < 6,
    ensures
        setting_outcome(m, a, value, now) == setting_outcome(m, b, value, now),
{
}

proof fn lemma_output_keys()
    ensures
        key_class("output"@) == 0,
        key_class("default_output"@) == 0,
        key_class("default-output"@) == 0,
{
    lemma_key_names();
}

proof fn lemma_mount_keys()
    ensures
        key_class("mount"@) == 1,
        key_class("mount_url"@) == 1,
        key_class("mount-url"@) == 1,
{
    lemma_key_names();
}

proof fn lemma_user_agent_keys()
    ensures
        key_class("user_agent"@) == 2,
        key_class("user-agent"@) == 2,
        key_class("ua"@) == 2,
{
    lemma_key_names();
}

proof fn lemma_cf_keys()
    ensures
        key_class("cf_clearance"@) == 3,
        key_class("cf-clearance"@) == 3,
        key_class("cf"@) == 3,
{
    lemma_key_names();
}

proof fn lemma_progress_keys()
    ensures
        key_class("show_progress"@) == 4,
        key_class("show-progress"@) == 4,
        key_class("progress"@) == 4,
{
    lemma_key_names();
}

proof fn lemma_color_keys()
    ensures
        key_class("colored_output"@) == 5,
        key_class("colored-output"@) == 5,
        key_class("color"@) == 5,
{
    lemma_key_names();
}

/// Every alias of a key sets the same entry in the same way as its main name:
/// `default_output`/`default-output` as `output`, `mount_url`/`mount-url` as
/// `mount`, `user-agent`/`ua` as `user_agent`, `cf-clearance`/`cf` as
/// `cf_clearance`, `show-progress`/`progress` as `show_progress`, and
/// `colored-output`/`color` as `colored_output`.
pub proof fn setting_aliases_agree(m: ConfigModel, value: Seq<char>, now: u64)
    ensures
        setting_outcome(m, "default_output"@, value, now) == setting_outcome(m, "output"@, value, now),
        setting_outcome(m, "default-output"@, value, now) == setting_outcome(m, "output"@, value, now),
        setting_outcome(m, "mount_url"@, value, now) == setting_outcome(m, "mount"@, value, now),
        setting_outcome(m, "mount-url"@, value, now) == setting_outcome(m, "mount"@, value, now),
        setting_outcome(m, "user-agent"@, value, now) == setting_outcome(m, "user_agent"@, value, now),
        setting_outcome(m, "ua"@, value, now) == setting_outcome(m, "user_agent"@, value, now),
        setting_outcome(m, "cf-clearance"@, value, now) == setting_outcome(
            m,
            "cf_clearance"@,
            value,
            now,
        ),
        setting_outcome(m, "cf"@, value, now) == setting_outcome(m, "cf_clearance"@, value, now),
        setting_outcome(m, "show-progress"@, value, now) == setting_outcome(
            m,
            "show_progress"@,
            value,
            now,
        ),
        setting_outcome(m, "progress"@, value, now) == setting_outcome(
            m,
            "show_progress"@,
            value,
            now,
        ),
        setting_outcome(m, "colored-output"@, value, now) == setting_outcome(
            m,
            "colored_output"@,
            value,
            now,
        ),
        setting_outcome(m, "color"@, value, now) == setting_outcome(
            m,
            "colored_output"@,
            value,
            now,
        ),
{
    lemma_output_keys();
    lemma_mount_keys();
    lemma_user_agent_keys();
    lemma_cf_keys();
    lemma_progress_keys();
    lemma_color_keys();
    lemma_same_class("default_output"@, "output"@, m, value, now);
    lemma_same_class("default-output"@, "output"@, m, value, now);
    lemma_same_class("mount_url"@, "mount"@, m, value, now);
    lemma_same_class("mount-url"@, "mount"@, m, value, now);
    lemma_same_class("user-agent"@, "user_agent"@, m, value, now);
    lemma_same_class("ua"@, "user_agent"@, m, value, now);
    lemma_same_class("cf-clearance"@, "cf_clearance"@, m, value, now);
    lemma_same_class("cf"@, "cf_clearance"@, m, value, now);
    lemma_same_class("show-progress"@, "show_progress"@, m, value, now);
    lemma_same_class("progress"@, "show_progress"@, m, value, now);
    lemma_same_class("colored-output"@, "colored_output"@, m, value, now);
    lemma_same_class("color"@, "colored_output"@, m, value, now);
}

} // verus!

verus! {

/// `KEY=VALUE` with no `=` in the key splits into that key and that value,
/// whatever the value holds (an `=` in it included).
pub proof fn settings_split_at_the_first_equals_sign(k: Seq<char>, v: Seq<char>)
    requires
        !k.contains('='),
    ensures
        split_setting(k + seq!['='] + v) == Some((k, v)),
{
    let h = k + seq!['='] + v;
    let n = seq!['='];
    lemma_first_match(h, n);
    let f = first_match(h, n);
    assert(h[k.len() as int] == '=');
    assert(matches_at(h, n, k.len() as int)) by {
        assert(h.subrange(k.len() as int, k.len() + 1int) =~= n);
    }
    assert(f <= k.len());
    if f < k.len() {
        assert(matches_at(h, n, f));
        assert(h.subrange(f, f + 1)[0] == h[f]);
        assert(h[f] == k[f]);
        assert(k.contains(k[f]));
    }
    assert(f == k.len());
    assert(h.take(f) =~= k);
    assert(h.skip(f + 1) =~= v);
}

/// The switches take `true` and `false` and nothing else: any other value is
/// refused with "Value must be true or false" and changes nothing.
pub proof fn switches_take_true_or_false(m: ConfigModel, value: Seq<char>, now: u64)
    ensures
        setting_outcome(m, "show_progress"@, "true"@, now) == (ConfigModel {
            show_progress: true,
            ..m
        }, Ok::<(), Seq<char>>(())),
        setting_outcome(m, "show_progress"@, "false"@, now) == (ConfigModel {
            show_progress: false,
            ..m
        }, Ok::<(), Seq<char>>(())),
        setting_outcome(m, "colored_output"@, "true"@, now) == (ConfigModel {
            colored_output: true,
            ..m
        }, Ok::<(), Seq<char>>(())),
        setting_outcome(m, "colored_output"@, "false"@, now) == (ConfigModel {
            colored_output: false,
            ..m
        }, Ok::<(), Seq<char>>(())),
        value != "true"@ && value != "false"@ ==> setting_outcome(m, "show_progress"@, value, now)
            == (m, Err::<(), Seq<char>>("Value must be true or false"@)),
        value != "true"@ && value != "false"@ ==> setting_outcome(m, "colored_output"@, value, now)
            == (m, Err::<(), Seq<char>>("Value must be true or false"@)),
{
    lemma_key_names();
    lemma_colored_output_key();
    lemma_progress_keys();
    lemma_color_keys();
    reveal_strlit("true");
    reveal_strlit("false");
    assert("true"@.len() == 4 && "false"@.len() == 5);
}

} // verus!
