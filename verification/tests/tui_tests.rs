use lucida_downloader::config::Config;
use lucida_downloader::tui::{
    parse_url_input, tui_accepts_event, tui_start, tui_step, Notice, TuiAction, TuiEvent, TuiState,
};

fn step(state: TuiState, config: &mut Config, event: TuiEvent) -> (TuiState, Vec<TuiAction>) {
    assert!(tui_accepts_event(&state, &event));
    tui_step(state, config, event)
}

fn sel(i: usize) -> TuiEvent {
    TuiEvent::Selected(i)
}

fn text(s: &str) -> TuiEvent {
    TuiEvent::Entered(s.to_string())
}

#[test]
fn urls_are_split_and_unwrapped() {
    assert_eq!(
        parse_url_input("  \"https://a/1\"  ['https://b/2']\thttps://c/3 "),
        vec!["https://a/1", "https://b/2", "https://c/3"]
    );
}

#[test]
fn wrapper_only_words_are_dropped() {
    assert_eq!(parse_url_input("\"\" [] ' x"), vec!["x"]);
    assert!(parse_url_input("").is_empty());
    assert!(parse_url_input(" \n\t ").is_empty());
}

#[test]
fn inner_quotes_are_kept() {
    assert_eq!(parse_url_input("[a\"b]"), vec!["a\"b"]);
}

#[test]
fn pasted_urls_are_clean_example() {
    for u in parse_url_input("'[ \"https://x/y\" ]' \u{2003} ]]z[[") {
        assert!(!u.is_empty());
        assert!(!u.chars().any(char::is_whitespace));
        for c in [u.chars().next().unwrap(), u.chars().last().unwrap()] {
            assert!(!matches!(c, '"' | '\'' | '[' | ']'));
        }
    }
}

#[test]
fn start_shows_main_menu() {
    let (s, a) = tui_start();
    assert!(matches!(s, TuiState::MainMenu));
    assert!(matches!(a.as_slice(), [TuiAction::ShowMainMenu]));
}

#[test]
fn main_menu_entries() {
    let mut c = Config::default();
    assert!(matches!(step(TuiState::MainMenu, &mut c, sel(0)).0, TuiState::EnteringUrls));
    assert!(matches!(step(TuiState::MainMenu, &mut c, sel(1)).0, TuiState::LocationMenu));
    assert!(matches!(step(TuiState::MainMenu, &mut c, sel(2)).0, TuiState::CloudflareMenu));
    assert!(matches!(step(TuiState::MainMenu, &mut c, sel(3)).0, TuiState::UiMenu));
    let (s, a) = step(TuiState::MainMenu, &mut c, sel(4));
    assert!(matches!(s, TuiState::Exited));
    assert!(matches!(a.as_slice(), [TuiAction::Say(Notice::Goodbye), TuiAction::Exit]));
}

#[test]
fn out_of_range_choices_are_refused() {
    assert!(!tui_accepts_event(&TuiState::MainMenu, &sel(5)));
    assert!(!tui_accepts_event(&TuiState::LocationMenu, &sel(4)));
    assert!(!tui_accepts_event(&TuiState::CloudflareMenu, &sel(4)));
    assert!(!tui_accepts_event(&TuiState::UiMenu, &sel(3)));
    assert!(!tui_accepts_event(&TuiState::MainMenu, &text("x")));
    assert!(!tui_accepts_event(&TuiState::Exited, &sel(0)));
    assert!(!tui_accepts_event(&TuiState::EnteringLocalPath, &text("\"")));
}

#[test]
fn entered_urls_start_a_download() {
    let mut c = Config::default();
    let (s, a) = step(TuiState::EnteringUrls, &mut c, text("https://a https://b"));
    assert!(matches!(s, TuiState::MainMenu));
    match a.as_slice() {
        [TuiAction::Download(urls), TuiAction::ShowMainMenu] => assert_eq!(urls, &vec!["https://a", "https://b"]),
        other => panic!("unexpected {other:?}"),
    }
    let (_, a) = step(TuiState::EnteringUrls, &mut c, text("  "));
    assert!(matches!(a.as_slice(), [TuiAction::Say(Notice::NoUrls), TuiAction::ShowMainMenu]));
}

#[test]
fn local_directory_clears_mount() {
    let mut c = Config::default();
    c.download.mount_url = Some("smb://old".to_string());
    let (s, a) = step(TuiState::EnteringLocalPath, &mut c, text(" '/Users/me/My\\ Music' "));
    assert!(matches!(s, TuiState::LocationMenu));
    assert_eq!(c.download.default_output.as_deref(), Some("/Users/me/My Music"));
    assert_eq!(c.download.mount_url, None);
    match a.as_slice() {
        [TuiAction::SaveConfig, TuiAction::Say(Notice::LocalDirectorySet(p)), TuiAction::ShowLocationMenu] => {
            assert_eq!(p, "/Users/me/My Music")
        }
        other => panic!("unexpected {other:?}"),
    }
}

#[test]
fn network_share_flow_with_discovery() {
    let mut c = Config::default();
    let (s, a) = step(TuiState::EnteringSharePath, &mut c, text("/Volumes/Belmont/Music"));
    assert_eq!(c.download.default_output.as_deref(), Some("/Volumes/Belmont/Music"));
    assert!(matches!(a.as_slice(), [TuiAction::DiscoverShare { picked: false, .. }]));
    let (s, a) = step(s, &mut c, TuiEvent::ShareFound(Some("smb://h/Belmont".to_string())));
    assert!(matches!(a.as_slice(), [TuiAction::AskAutoMount { picked: false, .. }]));
    assert_eq!(c.download.mount_url, None);
    let (s, a) = step(s, &mut c, TuiEvent::Confirmed(true));
    assert!(matches!(s, TuiState::LocationMenu));
    assert_eq!(c.download.mount_url.as_deref(), Some("smb://h/Belmont"));
    match a.as_slice() {
        [TuiAction::SaveConfig, TuiAction::Say(Notice::DirectorySet { path, picked: false }), TuiAction::ShowLocationMenu] => {
            assert_eq!(path, "/Volumes/Belmont/Music")
        }
        other => panic!("unexpected {other:?}"),
    }
}

#[test]
fn network_share_declined_has_no_mount() {
    let mut c = Config::default();
    c.download.mount_url = Some("smb://old".to_string());
    let st = TuiState::ConfirmingAutoMount { url: "smb://h/s".to_string(), path: "/p".to_string(), picked: false };
    let (_, _) = step(st, &mut c, TuiEvent::Confirmed(false));
    assert_eq!(c.download.mount_url, None);
}

#[test]
fn network_share_manual_url() {
    let mut c = Config::default();
    let (s, _) = step(TuiState::EnteringSharePath, &mut c, text("/Volumes/X"));
    let (s, a) = step(s, &mut c, TuiEvent::ShareFound(None));
    assert!(matches!(a.as_slice(), [TuiAction::AskManualMount]));
    let (s, a) = step(s, &mut c, TuiEvent::Confirmed(true));
    assert!(matches!(a.as_slice(), [TuiAction::AskMountUrl]));
    let (s, _) = step(s, &mut c, text("smb://10.10.27.10/Belmont"));
    assert!(matches!(s, TuiState::LocationMenu));
    assert_eq!(c.download.mount_url.as_deref(), Some("smb://10.10.27.10/Belmont"));
    let (s, _) = step(TuiState::EnteringSharePath, &mut c, text("/Volumes/Y"));
    let (s, _) = step(s, &mut c, TuiEvent::ShareFound(None));
    let (_, _) = step(s, &mut c, TuiEvent::Confirmed(false));
    assert_eq!(c.download.mount_url, None);
    assert_eq!(c.download.default_output.as_deref(), Some("/Volumes/Y"));
}

#[test]
fn finder_pick_flows() {
    let mut c = Config::default();
    c.download.mount_url = Some("smb://old".to_string());
    let (s, a) = step(TuiState::LocationMenu, &mut c, sel(2));
    assert!(matches!(a.as_slice(), [TuiAction::PickFolder]));
    let (s, a) = step(s, &mut c, TuiEvent::FolderPicked(Some("/Users/me/Music/".to_string())));
    assert!(matches!(a.as_slice(), [TuiAction::DiscoverShare { picked: true, .. }]));
    assert_eq!(c.download.default_output.as_deref(), Some("/Users/me/Music/"));
    let (s, a) = step(s, &mut c, TuiEvent::ShareFound(None));
    assert!(matches!(s, TuiState::LocationMenu));
    assert_eq!(c.download.mount_url, None);
    assert!(matches!(a.as_slice(), [TuiAction::SaveConfig, TuiAction::Say(Notice::DirectorySet { picked: true, .. }), TuiAction::ShowLocationMenu]));
    let (_, a) = step(TuiState::PickingFolder, &mut c, TuiEvent::FolderPicked(None));
    assert!(matches!(a.as_slice(), [TuiAction::Say(Notice::PickCancelled), TuiAction::ShowLocationMenu]));
}

#[test]
fn going_back_returns_to_main_menu_example() {
    let mut c = Config::default();
    for (state, choice) in [(TuiState::LocationMenu, 3), (TuiState::CloudflareMenu, 3), (TuiState::UiMenu, 2)] {
        let (s, a) = step(state, &mut c, sel(choice));
        assert!(matches!(s, TuiState::MainMenu));
        assert!(matches!(a.as_slice(), [TuiAction::ShowMainMenu]));
    }
    assert!(c.ui.show_progress && c.ui.colored_output);
}

#[test]
fn ui_toggles_undo_themselves_example() {
    let mut c = Config::default();
    let (s, a) = step(TuiState::UiMenu, &mut c, sel(0));
    assert!(!c.ui.show_progress);
    assert!(matches!(a.as_slice(), [TuiAction::SaveConfig, TuiAction::Say(Notice::ProgressSet(false)), TuiAction::ShowUiMenu]));
    let (s, _) = step(s, &mut c, sel(0));
    assert!(c.ui.show_progress);
    let (s, a) = step(s, &mut c, sel(1));
    assert!(!c.ui.colored_output);
    assert!(matches!(a.as_slice(), [TuiAction::SaveConfig, TuiAction::Say(Notice::ColorSet(false)), TuiAction::ShowUiMenu]));
    let (_, _) = step(s, &mut c, sel(1));
    assert!(c.ui.colored_output);
}

#[test]
fn cookie_fetch_flow() {
    let mut c = Config::default();
    c.cloudflare.cf_clearance = Some("old".to_string());
    c.cloudflare.cf_clearance_valid = Some(true);
    c.cloudflare.cf_clearance_timestamp = Some(3);
    let (s, a) = step(TuiState::CloudflareMenu, &mut c, sel(0));
    assert!(matches!(s, TuiState::FetchingCookie));
    assert!(matches!(a.as_slice(), [TuiAction::Say(Notice::FetchStarting), TuiAction::Say(Notice::CookiesInvalidated), TuiAction::FetchCookie]));
    assert_eq!(c.cloudflare.cf_clearance_valid, Some(false));
    assert_eq!(c.cloudflare.cf_clearance_timestamp, None);
    let (s, a) = step(s, &mut c, TuiEvent::CookieFetched(Some("new".to_string())));
    assert!(matches!(s, TuiState::CloudflareMenu));
    assert!(matches!(a.as_slice(), [TuiAction::SaveFetchedCookie, TuiAction::ShowCloudflareMenu]));
    assert_eq!(c.cloudflare.cf_clearance.as_deref(), Some("new"));
    assert_eq!(c.cloudflare.cf_clearance_valid, Some(true));
    assert!(c.cloudflare.cf_clearance_timestamp.is_some());
    assert!(c.cloudflare.user_agent.as_deref().unwrap().starts_with("Mozilla/5.0"));
}

#[test]
fn cookie_fetch_failure_changes_nothing_more() {
    let mut c = Config::default();
    let (_, a) = step(TuiState::FetchingCookie, &mut c, TuiEvent::CookieFetched(None));
    assert!(matches!(a.as_slice(), [TuiAction::ShowCloudflareMenu]));
    assert_eq!(c.cloudflare.cf_clearance, None);
}

#[test]
fn manual_cookie_and_clearing() {
    let mut c = Config::default();
    let (s, a) = step(TuiState::CloudflareMenu, &mut c, sel(1));
    assert!(matches!(a.as_slice(), [TuiAction::AskCookie]));
    let (s, a) = step(s, &mut c, text("pasted"));
    assert!(matches!(a.as_slice(), [TuiAction::SaveConfig, TuiAction::Say(Notice::ManualCookieSaved), TuiAction::ShowCloudflareMenu]));
    assert_eq!(c.cloudflare.cf_clearance.as_deref(), Some("pasted"));
    assert_eq!(c.cloudflare.cf_clearance_valid, Some(true));
    assert!(c.cloudflare.cf_clearance_timestamp.unwrap() > 1_600_000_000);
    let (_, a) = step(s, &mut c, sel(2));
    assert!(matches!(a.as_slice(), [TuiAction::SaveConfig, TuiAction::Say(Notice::CookiesCleared), TuiAction::ShowCloudflareMenu]));
    assert_eq!(c.cloudflare.cf_clearance, None);
    assert_eq!(c.cloudflare.cf_clearance_valid, Some(false));
    assert_eq!(c.cloudflare.cf_clearance_timestamp, None);
}

#[test]
fn settled_changes_are_saved_example() {
    let mut c = Config::default();
    for (state, ev) in [
        (TuiState::UiMenu, sel(0)),
        (TuiState::CloudflareMenu, sel(2)),
        (TuiState::EnteringLocalPath, text("/a")),
        (TuiState::EnteringCookie, text("c")),
        (TuiState::EnteringMountUrl { path: "/p".to_string() }, text("smb://x")),
    ] {
        let (_, a) = step(state, &mut c, ev);
        assert!(a.iter().any(|x| matches!(x, TuiAction::SaveConfig)));
    }
}

#[test]
fn ui_toggle_parity_example() {
    let mut c = Config::default();
    c.download.default_output = Some("/o".to_string());
    let mut state = TuiState::UiMenu;
    for choice in [0, 1, 0, 0, 1, 1, 1, 0, 0] {
        let (s, a) = step(state, &mut c, sel(choice));
        assert!(matches!(s, TuiState::UiMenu));
        assert!(matches!(a.first(), Some(TuiAction::SaveConfig)));
        state = s;
    }
    // five progress toggles, four color toggles
    assert!(!c.ui.show_progress);
    assert!(c.ui.colored_output);
    let (s, _) = step(state, &mut c, sel(2));
    assert!(matches!(s, TuiState::MainMenu));
    assert_eq!(c.download.default_output.as_deref(), Some("/o"));
    assert_eq!(c.cloudflare.cf_clearance, None);
}
