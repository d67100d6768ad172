//! The interactive menus: reading pasted URLs, and the menu machine that
//! decides what each answer does.

use vstd::prelude::*;

use crate::config::{
    entered_cookie_model, fetch_user_agent, fetched_cookie_model, invalidate_existing_cookies, store_entered_cookie, opt_chars, record_fetched_cookie,
    seconds_since_epoch, texts, Config, ConfigModel,
};
use crate::paths::{can_normalize_path, normalize_path, normalize_path_defined, normalized_path};
use crate::text::{chars_of, is_space, is_space_char, string_from_chars};

verus! {

/// The words of `s` after the pending characters `cur`: maximal runs of
/// characters without white space (`str::split_whitespace`).
pub open spec fn words_after(s: Seq<char>, cur: Seq<char>) -> Seq<Seq<char>>
    decreases s.len(),
{
    if s.len() == 0 {
        if cur.len() > 0 {
            seq![cur]
        } else {
            seq![]
        }
    } else if is_space(s[0]) {
        (if cur.len() > 0 {
            seq![cur]
        } else {
            seq![]
        }) + words_after(s.drop_first(), seq![])
    } else {
        words_after(s.drop_first(), cur.push(s[0]))
    }
}

/// The words of `s`, split at white space.
pub open spec fn words(s: Seq<char>) -> Seq<Seq<char>> {
    words_after(s, seq![])
}

/// A character that pasted URLs may be wrapped in: `"`, `'`, `[` or `]`.
pub open spec fn is_wrapper(c: char) -> bool {
    c == '"' || c == '\'' || c == '[' || c == ']'
}

/// `s` without leading wrapper characters.
pub open spec fn unwrap_start(s: Seq<char>) -> Seq<char>
    decreases s.len(),
{
    if s.len() > 0 && is_wrapper(s[0]) {
        unwrap_start(s.drop_first())
    } else {
        s
    }
}

/// `s` without trailing wrapper characters.
pub open spec fn unwrap_end(s: Seq<char>) -> Seq<char>
    decreases s.len(),
{
    if s.len() > 0 && is_wrapper(s.last()) {
        unwrap_end(s.drop_last())
    } else {
        s
    }
}

/// A pasted word without the quotes and brackets around it
/// (`str::trim_matches`).
pub open spec fn unwrap_url(s: Seq<char>) -> Seq<char> {
    unwrap_end(unwrap_start(s))
}

/// The URLs among `ws`: each unwrapped, the empty ones left out.
pub open spec fn urls_among(ws: Seq<Seq<char>>) -> Seq<Seq<char>>
    decreases ws.len(),
{
    if ws.len() == 0 {
        seq![]
    } else {
        let u = unwrap_url(ws[0]);
        (if u.len() > 0 {
            seq![u]
        } else {
            seq![]
        }) + urls_among(ws.drop_first())
    }
}

/// The URLs in a pasted line: its words, without the quotes and brackets
/// around them, the empty ones left out.
pub open spec fn pasted_urls(s: Seq<char>) -> Seq<Seq<char>> {
    urls_among(words(s))
}

/// The characters of each list.
pub open spec fn char_lists(v: Seq<Vec<char>>) -> Seq<Seq<char>> {
    v.map_values(|w: Vec<char>| w@)
}

/// The words of `v`, split at white space.
fn words_exec(v: &Vec<char>) -> (r: Vec<Vec<char>>)
    ensures
        char_lists(r@) == words(v@),
{
    let mut out: Vec<Vec<char>> = Vec::new();
    let mut cur: Vec<char> = Vec::new();
    let mut i: usize = 0;
    assert(v@.skip(0) =~= v@);
    assert(char_lists(out@) =~= Seq::<Seq<char>>::empty());
    while i < v.len()
        invariant
            i <= v.len(),
            words(v@) == char_lists(out@) + words_after(v@.skip(i as int), cur@),
        decreases v.len() - i,
    {
        let ghost t = v@.skip(i as int);
        assert(t.drop_first() =~= v@.skip(i + 1));
        let c = v[i];
        if is_space_char(c) {
            if cur.len() > 0 {
                let ghost before = char_lists(out@);
                out.push(cur);
                assert(char_lists(out@) =~= before + seq![cur@]);
                cur = Vec::new();
                assert(words(v@) == char_lists(out@) + words_after(v@.skip(i + 1), cur@)) by {
                    assert(cur@ =~= Seq::<char>::empty());
                }
            } else {
                assert(cur@ =~= Seq::<char>::empty());
                assert(words_after(t, cur@) == Seq::<Seq<char>>::empty() + words_after(
                    t.drop_first(),
                    seq![],
                ));
                assert(Seq::<Seq<char>>::empty() + words_after(t.drop_first(), seq![])
                    =~= words_after(t.drop_first(), seq![]));
            }
        } else {
            cur.push(c);
        }
        i = i + 1;
    }
    assert(v@.skip(i as int) =~= Seq::<char>::empty());
    if cur.len() > 0 {
        let ghost before = char_lists(out@);
        out.push(cur);
        assert(char_lists(out@) =~= before + seq![cur@]);
    } else {
        assert(char_lists(out@) + Seq::<Seq<char>>::empty() =~= char_lists(out@));
    }
    out
}

} // verus!

verus! {

/// Whether `c` is one of the characters pasted URLs may be wrapped in.
fn is_wrapper_char(c: char) -> (r: bool)
    ensures
        r == is_wrapper(c),
{
    c == '"' || c == '\'' || c == '[' || c == ']'
}

/// `v` without the quotes and brackets around it.
fn unwrap_url_exec(v: &Vec<char>) -> (r: Vec<char>)
    ensures
        r@ == unwrap_url(v@),
{
    let n = v.len();
    let mut i: usize = 0;
    assert(v@.skip(0) =~= v@);
    while i < n && is_wrapper_char(v[i])
        invariant
            n == v.len(),
            i <= n,
            unwrap_start(v@) == unwrap_start(v@.skip(i as int)),
        decreases n - i,
    {
        assert(v@.skip(i as int).drop_first() =~= v@.skip(i + 1));
        i = i + 1;
    }
    assert(v@.skip(i as int) =~= v@.subrange(i as int, n as int));
    let mut j: usize = n;
    while j > i && is_wrapper_char(v[j - 1])
        invariant
            n == v.len(),
            i <= j <= n,
            unwrap_url(v@) == unwrap_end(v@.subrange(i as int, j as int)),
        decreases j,
    {
        assert(v@.subrange(i as int, j as int).drop_last() =~= v@.subrange(i as int, j - 1));
        j = j - 1;
    }
    crate::text::slice_chars(v, i, j)
}

/// The URLs in a pasted line: its space-separated words, without the quotes
/// and brackets around them, the empty ones left out.
pub fn parse_url_input(input: &str) -> (r: Vec<String>)
    ensures
        crate::config::texts(r@) == pasted_urls(input@),
{
    let ws = words_exec(&chars_of(input));
    let mut out: Vec<String> = Vec::new();
    let mut i: usize = 0;
    assert(char_lists(ws@).skip(0) =~= char_lists(ws@));
    assert(crate::config::texts(out@) =~= Seq::<Seq<char>>::empty());
    while i < ws.len()
        invariant
            i <= ws.len(),
            pasted_urls(input@) == crate::config::texts(out@) + urls_among(
                char_lists(ws@).skip(i as int),
            ),
        decreases ws.len() - i,
    {
        let ghost rest = char_lists(ws@).skip(i as int);
        assert(rest[0] == ws@[i as int]@);
        assert(rest.drop_first() =~= char_lists(ws@).skip(i + 1));
        let u = unwrap_url_exec(&ws[i]);
        if u.len() > 0 {
            let ghost before = crate::config::texts(out@);
            out.push(string_from_chars(&u));
            assert(crate::config::texts(out@) =~= before + seq![u@]);
        } else {
            assert(Seq::<Seq<char>>::empty() + urls_among(rest.drop_first()) =~= urls_among(
                rest.drop_first(),
            ));
        }
        i = i + 1;
    }
    assert(char_lists(ws@).skip(i as int) =~= Seq::<Seq<char>>::empty());
    assert(crate::config::texts(out@) + Seq::<Seq<char>>::empty() =~= crate::config::texts(
        out@,
    ));
    out
}

} // verus!

verus! {

/// Where the menus stand: which menu is shown, or which answer is awaited.
#[derive(Debug)]
pub enum TuiState {
    /// The main menu.
    MainMenu,
    /// Waiting for pasted album URLs.
    EnteringUrls,
    /// The download-location menu.
    LocationMenu,
    /// Waiting for a local directory path.
    EnteringLocalPath,
    /// Waiting for a network-share directory path.
    EnteringSharePath,
    /// Waiting for the network share behind `path` to be looked up;
    /// `picked` where the path came from the Finder picker.
    DiscoveringShare { path: String, picked: bool },
    /// Waiting for the user to accept auto-mounting of the share `url`.
    ConfirmingAutoMount { url: String, path: String, picked: bool },
    /// Waiting for the user to decide whether to enter a mount URL.
    ConfirmingManualMount { path: String },
    /// Waiting for a mount URL.
    EnteringMountUrl { path: String },
    /// Waiting for the Finder picker.
    PickingFolder,
    /// The Cloudflare cookie menu.
    CloudflareMenu,
    /// Waiting for the browser automation to fetch a cookie.
    FetchingCookie,
    /// Waiting for a pasted cookie.
    EnteringCookie,
    /// The UI settings menu.
    UiMenu,
    /// The menus have been left.
    Exited,
}

/// What happened: an answer of the user or a result of outside work.
#[derive(Debug)]
pub enum TuiEvent {
    /// The index of the menu entry chosen.
    Selected(usize),
    /// A line of text entered.
    Entered(String),
    /// A yes or no.
    Confirmed(bool),
    /// The network-share URL found for a path, if any.
    ShareFound(Option<String>),
    /// The folder chosen in the Finder picker, if any.
    FolderPicked(Option<String>),
    /// The cookie fetched by browser automation, if any.
    CookieFetched(Option<String>),
}

/// A message for the user.
#[derive(Debug)]
pub enum Notice {
    /// No URLs were entered.
    NoUrls,
    /// The menus are left.
    Goodbye,
    /// A local download directory was set.
    LocalDirectorySet(String),
    /// A share or picked directory was set.
    DirectorySet { path: String, picked: bool },
    /// The Finder picker was cancelled.
    PickCancelled,
    /// Browser automation is about to fetch a cookie.
    FetchStarting,
    /// The stored cookie was marked invalid.
    CookiesInvalidated,
    /// The fetched cookie could not be stamped with the time and was not saved.
    CookieNotSaved,
    /// A pasted cookie was stored.
    ManualCookieSaved,
    /// The stored cookie was removed.
    CookiesCleared,
    /// Progress bars were switched.
    ProgressSet(bool),
    /// Colors were switched.
    ColorSet(bool),
}

/// What the program is to do next, in order.
#[derive(Debug)]
pub enum TuiAction {
    /// Show the main menu and report the choice.
    ShowMainMenu,
    /// Ask for album URLs.
    AskUrls,
    /// Download these albums.
    Download(Vec<String>),
    /// Show the location menu and report the choice.
    ShowLocationMenu,
    /// Ask for a local directory path.
    AskLocalPath,
    /// Ask for a network-share directory path.
    AskSharePath,
    /// Look up the network share behind `path` and report it.
    DiscoverShare { path: String, picked: bool },
    /// Offer auto-mounting of the share `url` and report the answer.
    AskAutoMount { url: String, picked: bool },
    /// Ask whether to enter a mount URL by hand.
    AskManualMount,
    /// Ask for a mount URL.
    AskMountUrl,
    /// Open the Finder picker and report the folder chosen.
    PickFolder,
    /// Show the Cloudflare menu and report the choice.
    ShowCloudflareMenu,
    /// Fetch a cookie through browser automation and report it.
    FetchCookie,
    /// Ask for a cookie.
    AskCookie,
    /// Show the UI menu and report the choice.
    ShowUiMenu,
    /// Save the configuration.
    SaveConfig,
    /// Save the configuration and report whether the fetched cookie was saved.
    SaveFetchedCookie,
    /// Tell the user.
    Say(Notice),
    /// Leave the menus.
    Exit,
}

/// A menu state with each text as its characters.
pub ghost enum TuiStateModel {
    MainMenu,
    EnteringUrls,
    LocationMenu,
    EnteringLocalPath,
    EnteringSharePath,
    DiscoveringShare { path: Seq<char>, picked: bool },
    ConfirmingAutoMount { url: Seq<char>, path: Seq<char>, picked: bool },
    ConfirmingManualMount { path: Seq<char> },
    EnteringMountUrl { path: Seq<char> },
    PickingFolder,
    CloudflareMenu,
    FetchingCookie,
    EnteringCookie,
    UiMenu,
    Exited,
}

/// An event with each text as its characters.
pub ghost enum TuiEventModel {
    Selected(nat),
    Entered(Seq<char>),
    Confirmed(bool),
    ShareFound(Option<Seq<char>>),
    FolderPicked(Option<Seq<char>>),
    CookieFetched(Option<Seq<char>>),
}

/// A message with each text as its characters.
pub ghost enum NoticeModel {
    NoUrls,
    Goodbye,
    LocalDirectorySet(Seq<char>),
    DirectorySet { path: Seq<char>, picked: bool },
    PickCancelled,
    FetchStarting,
    CookiesInvalidated,
    CookieNotSaved,
    ManualCookieSaved,
    CookiesCleared,
    ProgressSet(bool),
    ColorSet(bool),
}

/// An action with each text as its characters.
pub ghost enum TuiActionModel {
    ShowMainMenu,
    AskUrls,
    Download(Seq<Seq<char>>),
    ShowLocationMenu,
    AskLocalPath,
    AskSharePath,
    DiscoverShare { path: Seq<char>, picked: bool },
    AskAutoMount { url: Seq<char>, picked: bool },
    AskManualMount,
    AskMountUrl,
    PickFolder,
    ShowCloudflareMenu,
    FetchCookie,
    AskCookie,
    ShowUiMenu,
    SaveConfig,
    SaveFetchedCookie,
    Say(NoticeModel),
    Exit,
}

impl View for TuiState {
    type V = TuiStateModel;

    open spec fn view(&self) -> TuiStateModel {
        match self {
            TuiState::MainMenu => TuiStateModel::MainMenu,
            TuiState::EnteringUrls => TuiStateModel::EnteringUrls,
            TuiState::LocationMenu => TuiStateModel::LocationMenu,
            TuiState::EnteringLocalPath => TuiStateModel::EnteringLocalPath,
            TuiState::EnteringSharePath => TuiStateModel::EnteringSharePath,
            TuiState::DiscoveringShare { path, picked } => TuiStateModel::DiscoveringShare {
                path: path@,
                picked: *picked,
            },
            TuiState::ConfirmingAutoMount { url, path, picked } =>
                TuiStateModel::ConfirmingAutoMount { url: url@, path: path@, picked: *picked },
            TuiState::ConfirmingManualMount { path } => TuiStateModel::ConfirmingManualMount {
                path: path@,
            },
            TuiState::EnteringMountUrl { path } => TuiStateModel::EnteringMountUrl { path: path@ },
            TuiState::PickingFolder => TuiStateModel::PickingFolder,
            TuiState::CloudflareMenu => TuiStateModel::CloudflareMenu,
            TuiState::FetchingCookie => TuiStateModel::FetchingCookie,
            TuiState::EnteringCookie => TuiStateModel::EnteringCookie,
            TuiState::UiMenu => TuiStateModel::UiMenu,
            TuiState::Exited => TuiStateModel::Exited,
        }
    }
}

impl View for TuiEvent {
    type V = TuiEventModel;

    open spec fn view(&self) -> TuiEventModel {
        match self {
            TuiEvent::Selected(i) => TuiEventModel::Selected(*i as nat),
            TuiEvent::Entered(s) => TuiEventModel::Entered(s@),
            TuiEvent::Confirmed(b) => TuiEventModel::Confirmed(*b),
            TuiEvent::ShareFound(o) => TuiEventModel::ShareFound(crate::config::opt_chars(*o)),
            TuiEvent::FolderPicked(o) => TuiEventModel::FolderPicked(crate::config::opt_chars(*o)),
            TuiEvent::CookieFetched(o) => TuiEventModel::CookieFetched(
                crate::config::opt_chars(*o),
            ),
        }
    }
}

impl View for Notice {
    type V = NoticeModel;

    open spec fn view(&self) -> NoticeModel {
        match self {
            Notice::NoUrls => NoticeModel::NoUrls,
            Notice::Goodbye => NoticeModel::Goodbye,
            Notice::LocalDirectorySet(p) => NoticeModel::LocalDirectorySet(p@),
            Notice::DirectorySet { path, picked } => NoticeModel::DirectorySet {
                path: path@,
                picked: *picked,
            },
            Notice::PickCancelled => NoticeModel::PickCancelled,
            Notice::FetchStarting => NoticeModel::FetchStarting,
            Notice::CookiesInvalidated => NoticeModel::CookiesInvalidated,
            Notice::CookieNotSaved => NoticeModel::CookieNotSaved,
            Notice::ManualCookieSaved => NoticeModel::ManualCookieSaved,
            Notice::CookiesCleared => NoticeModel::CookiesCleared,
            Notice::ProgressSet(b) => NoticeModel::ProgressSet(*b),
            Notice::ColorSet(b) => NoticeModel::ColorSet(*b),
        }
    }
}

impl View for TuiAction {
    type V = TuiActionModel;

    open spec fn view(&self) -> TuiActionModel {
        match self {
            TuiAction::ShowMainMenu => TuiActionModel::ShowMainMenu,
            TuiAction::AskUrls => TuiActionModel::AskUrls,
            TuiAction::Download(urls) => TuiActionModel::Download(crate::config::texts(urls@)),
            TuiAction::ShowLocationMenu => TuiActionModel::ShowLocationMenu,
            TuiAction::AskLocalPath => TuiActionModel::AskLocalPath,
            TuiAction::AskSharePath => TuiActionModel::AskSharePath,
            TuiAction::DiscoverShare { path, picked } => TuiActionModel::DiscoverShare {
                path: path@,
                picked: *picked,
            },
            TuiAction::AskAutoMount { url, picked } => TuiActionModel::AskAutoMount {
                url: url@,
                picked: *picked,
            },
            TuiAction::AskManualMount => TuiActionModel::AskManualMount,
            TuiAction::AskMountUrl => TuiActionModel::AskMountUrl,
            TuiAction::PickFolder => TuiActionModel::PickFolder,
            TuiAction::ShowCloudflareMenu => TuiActionModel::ShowCloudflareMenu,
            TuiAction::FetchCookie => TuiActionModel::FetchCookie,
            TuiAction::AskCookie => TuiActionModel::AskCookie,
            TuiAction::ShowUiMenu => TuiActionModel::ShowUiMenu,
            TuiAction::SaveConfig => TuiActionModel::SaveConfig,
            TuiAction::SaveFetchedCookie => TuiActionModel::SaveFetchedCookie,
            TuiAction::Say(n) => TuiActionModel::Say(n@),
            TuiAction::Exit => TuiActionModel::Exit,
        }
    }
}

/// Each action by its model.
pub open spec fn action_models(v: Seq<TuiAction>) -> Seq<TuiActionModel> {
    v.map_values(|a: TuiAction| a@)
}

} // verus!

verus! {

/// The menus' next state, the configuration after a step, and the actions
/// the step asks for, in order.
#[verifier::ext_equal]
pub ghost struct TuiOutcome {
    pub state: TuiStateModel,
    pub config: ConfigModel,
    pub actions: Seq<TuiActionModel>,
}

/// The outcome that a step returning `state` and `actions` with the
/// configuration `config` amounts to.
pub open spec fn outcome_of(state: TuiState, config: ConfigModel, actions: Seq<TuiAction>) -> TuiOutcome {
    TuiOutcome { state: state@, config, actions: action_models(actions) }
}

/// The outcome with the given parts.
pub open spec fn outcome(state: TuiStateModel, config: ConfigModel, actions: Seq<TuiActionModel>) -> TuiOutcome {
    TuiOutcome { state, config, actions }
}

/// Whether the menus in state `s` can take the event `e`: the event answers
/// what the state waits for, a menu choice is one of the menu's entries, and a
/// pasted directory path can be cleaned.
pub open spec fn tui_accepts(s: TuiStateModel, e: TuiEventModel) -> bool {
    match s {
        TuiStateModel::MainMenu => e matches TuiEventModel::Selected(i) && i < 5,
        TuiStateModel::EnteringUrls => e is Entered,
        TuiStateModel::LocationMenu => e matches TuiEventModel::Selected(i) && i < 4,
        TuiStateModel::EnteringLocalPath => e matches TuiEventModel::Entered(raw)
            && normalize_path_defined(raw),
        TuiStateModel::EnteringSharePath => e matches TuiEventModel::Entered(raw)
            && normalize_path_defined(raw),
        TuiStateModel::DiscoveringShare { .. } => e is ShareFound,
        TuiStateModel::ConfirmingAutoMount { .. } => e is Confirmed,
        TuiStateModel::ConfirmingManualMount { .. } => e is Confirmed,
        TuiStateModel::EnteringMountUrl { .. } => e is Entered,
        TuiStateModel::PickingFolder => e is FolderPicked,
        TuiStateModel::CloudflareMenu => e matches TuiEventModel::Selected(i) && i < 4,
        TuiStateModel::FetchingCookie => e is CookieFetched,
        TuiStateModel::EnteringCookie => e is Entered,
        TuiStateModel::UiMenu => e matches TuiEventModel::Selected(i) && i < 3,
        TuiStateModel::Exited => false,
    }
}

/// Main menu: download, location, Cloudflare, UI settings, exit.
pub open spec fn main_menu_step(m: ConfigModel, choice: nat) -> TuiOutcome {
    if choice == 0 {
        outcome(TuiStateModel::EnteringUrls, m, seq![TuiActionModel::AskUrls])
    } else if choice == 1 {
        outcome(TuiStateModel::LocationMenu, m, seq![TuiActionModel::ShowLocationMenu])
    } else if choice == 2 {
        outcome(TuiStateModel::CloudflareMenu, m, seq![TuiActionModel::ShowCloudflareMenu])
    } else if choice == 3 {
        outcome(TuiStateModel::UiMenu, m, seq![TuiActionModel::ShowUiMenu])
    } else {
        outcome(
            TuiStateModel::Exited,
            m,
            seq![TuiActionModel::Say(NoticeModel::Goodbye), TuiActionModel::Exit],
        )
    }
}

/// Pasted URLs are downloaded; where there are none the user is told so.
pub open spec fn urls_step(m: ConfigModel, text: Seq<char>) -> TuiOutcome {
    let urls = pasted_urls(text);
    if urls.len() == 0 {
        outcome(
            TuiStateModel::MainMenu,
            m,
            seq![TuiActionModel::Say(NoticeModel::NoUrls), TuiActionModel::ShowMainMenu],
        )
    } else {
        outcome(
            TuiStateModel::MainMenu,
            m,
            seq![TuiActionModel::Download(urls), TuiActionModel::ShowMainMenu],
        )
    }
}

/// Location menu: local directory, network share, Finder picker, back.
pub open spec fn location_menu_step(m: ConfigModel, choice: nat) -> TuiOutcome {
    if choice == 0 {
        outcome(TuiStateModel::EnteringLocalPath, m, seq![TuiActionModel::AskLocalPath])
    } else if choice == 1 {
        outcome(TuiStateModel::EnteringSharePath, m, seq![TuiActionModel::AskSharePath])
    } else if choice == 2 {
        outcome(TuiStateModel::PickingFolder, m, seq![TuiActionModel::PickFolder])
    } else {
        outcome(TuiStateModel::MainMenu, m, seq![TuiActionModel::ShowMainMenu])
    }
}

/// A local directory becomes the output directory, cleaned, with no mount URL.
pub open spec fn local_path_step(m: ConfigModel, raw: Seq<char>) -> TuiOutcome {
    let p = normalized_path(raw);
    outcome(
        TuiStateModel::LocationMenu,
        ConfigModel { default_output: Some(p), mount_url: None, ..m },
        seq![
            TuiActionModel::SaveConfig,
            TuiActionModel::Say(NoticeModel::LocalDirectorySet(p)),
            TuiActionModel::ShowLocationMenu,
        ],
    )
}

/// A network-share directory becomes the output directory, cleaned, and its
/// share is looked up.
pub open spec fn share_path_step(m: ConfigModel, raw: Seq<char>) -> TuiOutcome {
    let p = normalized_path(raw);
    outcome(
        TuiStateModel::DiscoveringShare { path: p, picked: false },
        ConfigModel { default_output: Some(p), ..m },
        seq![TuiActionModel::DiscoverShare { path: p, picked: false }],
    )
}

/// The location is settled: it is saved and the location menu shown again.
pub open spec fn location_done(m: ConfigModel, path: Seq<char>, picked: bool) -> TuiOutcome {
    outcome(
        TuiStateModel::LocationMenu,
        m,
        seq![
            TuiActionModel::SaveConfig,
            TuiActionModel::Say(NoticeModel::DirectorySet { path, picked }),
            TuiActionModel::ShowLocationMenu,
        ],
    )
}

/// A share found for the directory is offered for auto-mounting; where none
/// is found, a typed directory asks for a URL by hand and a picked one gets
/// no mount URL.
pub open spec fn share_found_step(
    m: ConfigModel,
    path: Seq<char>,
    picked: bool,
    found: Option<Seq<char>>,
) -> TuiOutcome {
    match found {
        Some(url) => outcome(
            TuiStateModel::ConfirmingAutoMount { url, path, picked },
            m,
            seq![TuiActionModel::AskAutoMount { url, picked }],
        ),
        None => if picked {
            location_done(ConfigModel { mount_url: None, ..m }, path, picked)
        } else {
            outcome(
                TuiStateModel::ConfirmingManualMount { path },
                m,
                seq![TuiActionModel::AskManualMount],
            )
        },
    }
}

/// The found share becomes the mount URL where the user accepts it, else
/// there is none.
pub open spec fn auto_mount_step(
    m: ConfigModel,
    url: Seq<char>,
    path: Seq<char>,
    picked: bool,
    yes: bool,
) -> TuiOutcome {
    location_done(
        ConfigModel {
            mount_url: if yes {
                Some(url)
            } else {
                None
            },
            ..m
        },
        path,
        picked,
    )
}

/// The user is asked for a mount URL where they want to give one, else there
/// is none.
pub open spec fn manual_mount_step(m: ConfigModel, path: Seq<char>, yes: bool) -> TuiOutcome {
    if yes {
        outcome(TuiStateModel::EnteringMountUrl { path }, m, seq![TuiActionModel::AskMountUrl])
    } else {
        location_done(ConfigModel { mount_url: None, ..m }, path, false)
    }
}

/// A typed mount URL is stored.
pub open spec fn mount_url_step(m: ConfigModel, path: Seq<char>, url: Seq<char>) -> TuiOutcome {
    location_done(ConfigModel { mount_url: Some(url), ..m }, path, false)
}

/// A picked folder becomes the output directory and its share is looked up.
pub open spec fn folder_step(m: ConfigModel, picked: Option<Seq<char>>) -> TuiOutcome {
    match picked {
        Some(p) => outcome(
            TuiStateModel::DiscoveringShare { path: p, picked: true },
            ConfigModel { default_output: Some(p), ..m },
            seq![TuiActionModel::DiscoverShare { path: p, picked: true }],
        ),
        None => outcome(
            TuiStateModel::LocationMenu,
            m,
            seq![
                TuiActionModel::Say(NoticeModel::PickCancelled),
                TuiActionModel::ShowLocationMenu,
            ],
        ),
    }
}

/// Cloudflare menu: fetch a cookie (the stored one is invalidated first),
/// enter one, clear the stored one, back.
pub open spec fn cloudflare_menu_step(m: ConfigModel, choice: nat) -> TuiOutcome {
    if choice == 0 {
        outcome(
            TuiStateModel::FetchingCookie,
            ConfigModel { cf_clearance_valid: Some(false), cf_clearance_timestamp: None, ..m },
            seq![
                TuiActionModel::Say(NoticeModel::FetchStarting),
                TuiActionModel::Say(NoticeModel::CookiesInvalidated),
                TuiActionModel::FetchCookie,
            ],
        )
    } else if choice == 1 {
        outcome(TuiStateModel::EnteringCookie, m, seq![TuiActionModel::AskCookie])
    } else if choice == 2 {
        outcome(
            TuiStateModel::CloudflareMenu,
            ConfigModel {
                cf_clearance: None,
                cf_clearance_valid: Some(false),
                cf_clearance_timestamp: None,
                ..m
            },
            seq![
                TuiActionModel::SaveConfig,
                TuiActionModel::Say(NoticeModel::CookiesCleared),
                TuiActionModel::ShowCloudflareMenu,
            ],
        )
    } else {
        outcome(TuiStateModel::MainMenu, m, seq![TuiActionModel::ShowMainMenu])
    }
}

/// A fetched cookie is stored as valid with the current time `now` and the
/// browser's User-Agent, and saved; where the clock cannot be read it is
/// stored as valid but neither stamped nor saved.
pub open spec fn cookie_fetched_step(
    m: ConfigModel,
    fetched: Option<Seq<char>>,
    now: Option<u64>,
) -> TuiOutcome {
    match fetched {
        Some(c) => outcome(
            TuiStateModel::CloudflareMenu,
            fetched_cookie_model(m, c, now),
            if now is Some {
                seq![TuiActionModel::SaveFetchedCookie, TuiActionModel::ShowCloudflareMenu]
            } else {
                seq![
                    TuiActionModel::Say(NoticeModel::CookieNotSaved),
                    TuiActionModel::ShowCloudflareMenu,
                ]
            },
        ),
        None => outcome(TuiStateModel::CloudflareMenu, m, seq![TuiActionModel::ShowCloudflareMenu]),
    }
}

/// A pasted cookie is stored as valid, stamped with the current time (0
/// where the clock cannot be read), and saved.
pub open spec fn cookie_entered_step(m: ConfigModel, cookie: Seq<char>, now: Option<u64>) -> TuiOutcome {
    outcome(
        TuiStateModel::CloudflareMenu,
        entered_cookie_model(
            m,
            cookie,
            match now {
                Some(t) => t,
                None => 0,
            },
        ),
        seq![
            TuiActionModel::SaveConfig,
            TuiActionModel::Say(NoticeModel::ManualCookieSaved),
            TuiActionModel::ShowCloudflareMenu,
        ],
    )
}

/// UI menu: toggle progress bars, toggle colors, back.
pub open spec fn ui_menu_step(m: ConfigModel, choice: nat) -> TuiOutcome {
    if choice == 0 {
        outcome(
            TuiStateModel::UiMenu,
            ConfigModel { show_progress: !m.show_progress, ..m },
            seq![
                TuiActionModel::SaveConfig,
                TuiActionModel::Say(NoticeModel::ProgressSet(!m.show_progress)),
                TuiActionModel::ShowUiMenu,
            ],
        )
    } else if choice == 1 {
        outcome(
            TuiStateModel::UiMenu,
            ConfigModel { colored_output: !m.colored_output, ..m },
            seq![
                TuiActionModel::SaveConfig,
                TuiActionModel::Say(NoticeModel::ColorSet(!m.colored_output)),
                TuiActionModel::ShowUiMenu,
            ],
        )
    } else {
        outcome(TuiStateModel::MainMenu, m, seq![TuiActionModel::ShowMainMenu])
    }
}

/// One step of the menus from state `s` with configuration `m` on event `e`,
/// where the clock reads `now`.
pub open spec fn tui_transition(
    s: TuiStateModel,
    m: ConfigModel,
    e: TuiEventModel,
    now: Option<u64>,
) -> TuiOutcome {
    match (s, e) {
        (TuiStateModel::MainMenu, TuiEventModel::Selected(i)) => main_menu_step(m, i),
        (TuiStateModel::EnteringUrls, TuiEventModel::Entered(t)) => urls_step(m, t),
        (TuiStateModel::LocationMenu, TuiEventModel::Selected(i)) => location_menu_step(m, i),
        (TuiStateModel::EnteringLocalPath, TuiEventModel::Entered(raw)) => local_path_step(m, raw),
        (TuiStateModel::EnteringSharePath, TuiEventModel::Entered(raw)) => share_path_step(m, raw),
        (
            TuiStateModel::DiscoveringShare { path, picked },
            TuiEventModel::ShareFound(found),
        ) => share_found_step(m, path, picked, found),
        (
            TuiStateModel::ConfirmingAutoMount { url, path, picked },
            TuiEventModel::Confirmed(yes),
        ) => auto_mount_step(m, url, path, picked, yes),
        (TuiStateModel::ConfirmingManualMount { path }, TuiEventModel::Confirmed(yes)) =>
            manual_mount_step(m, path, yes),
        (TuiStateModel::EnteringMountUrl { path }, TuiEventModel::Entered(url)) => mount_url_step(
            m,
            path,
            url,
        ),
        (TuiStateModel::PickingFolder, TuiEventModel::FolderPicked(p)) => folder_step(m, p),
        (TuiStateModel::CloudflareMenu, TuiEventModel::Selected(i)) => cloudflare_menu_step(m, i),
        (TuiStateModel::FetchingCookie, TuiEventModel::CookieFetched(c)) => cookie_fetched_step(
            m,
            c,
            now,
        ),
        (TuiStateModel::EnteringCookie, TuiEventModel::Entered(c)) => cookie_entered_step(m, c, now),
        (TuiStateModel::UiMenu, TuiEventModel::Selected(i)) => ui_menu_step(m, i),
        _ => outcome(s, m, seq![]),
    }
}

} // verus!

verus! {

/// The actions `[a]`.
fn one(a: TuiAction) -> (r: Vec<TuiAction>)
    ensures
        r@ == seq![a],
{
    let mut r: Vec<TuiAction> = Vec::new();
    r.push(a);
    assert(r@ =~= seq![a]);
    r
}

/// The actions `[a, b]`.
fn two(a: TuiAction, b: TuiAction) -> (r: Vec<TuiAction>)
    ensures
        r@ == seq![a, b],
{
    let mut r: Vec<TuiAction> = Vec::new();
    r.push(a);
    r.push(b);
    assert(r@ =~= seq![a, b]);
    r
}

/// The actions `[a, b, c]`.
fn three(a: TuiAction, b: TuiAction, c: TuiAction) -> (r: Vec<TuiAction>)
    ensures
        r@ == seq![a, b, c],
{
    let mut r: Vec<TuiAction> = Vec::new();
    r.push(a);
    r.push(b);
    r.push(c);
    assert(r@ =~= seq![a, b, c]);
    r
}

/// The menus at the start: the main menu, shown.
pub fn tui_start() -> (r: (TuiState, Vec<TuiAction>))
    ensures
        r.0@ == TuiStateModel::MainMenu,
        action_models(r.1@) == seq![TuiActionModel::ShowMainMenu],
{
    let actions = one(TuiAction::ShowMainMenu);
    assert(action_models(actions@) =~= seq![TuiActionModel::ShowMainMenu]);
    (TuiState::MainMenu, actions)
}

/// Whether the menus in `state` can take `event`.
pub fn tui_accepts_event(state: &TuiState, event: &TuiEvent) -> (r: bool)
    ensures
        r == tui_accepts(state@, event@),
{
    match state {
        TuiState::MainMenu => match event {
            TuiEvent::Selected(i) => *i < 5,
            _ => false,
        },
        TuiState::EnteringUrls => match event {
            TuiEvent::Entered(_) => true,
            _ => false,
        },
        TuiState::LocationMenu => match event {
            TuiEvent::Selected(i) => *i < 4,
            _ => false,
        },
        TuiState::EnteringLocalPath | TuiState::EnteringSharePath => match event {
            TuiEvent::Entered(raw) => can_normalize_path(raw.as_str()),
            _ => false,
        },
        TuiState::DiscoveringShare { .. } => match event {
            TuiEvent::ShareFound(_) => true,
            _ => false,
        },
        TuiState::ConfirmingAutoMount { .. } | TuiState::ConfirmingManualMount { .. } =>
            match event {
            TuiEvent::Confirmed(_) => true,
            _ => false,
        },
        TuiState::EnteringMountUrl { .. } | TuiState::EnteringCookie => match event {
            TuiEvent::Entered(_) => true,
            _ => false,
        },
        TuiState::PickingFolder => match event {
            TuiEvent::FolderPicked(_) => true,
            _ => false,
        },
        TuiState::CloudflareMenu => match event {
            TuiEvent::Selected(i) => *i < 4,
            _ => false,
        },
        TuiState::FetchingCookie => match event {
            TuiEvent::CookieFetched(_) => true,
            _ => false,
        },
        TuiState::UiMenu => match event {
            TuiEvent::Selected(i) => *i < 3,
            _ => false,
        },
        TuiState::Exited => false,
    }
}

fn main_menu_exec(config: &Config, choice: usize) -> (r: (TuiState, Vec<TuiAction>))
    ensures
        outcome_of(r.0, config@, r.1@) == main_menu_step(config@, choice as nat),
{
    let r = if choice == 0 {
        (TuiState::EnteringUrls, one(TuiAction::AskUrls))
    } else if choice == 1 {
        (TuiState::LocationMenu, one(TuiAction::ShowLocationMenu))
    } else if choice == 2 {
        (TuiState::CloudflareMenu, one(TuiAction::ShowCloudflareMenu))
    } else if choice == 3 {
        (TuiState::UiMenu, one(TuiAction::ShowUiMenu))
    } else {
        (TuiState::Exited, two(TuiAction::Say(Notice::Goodbye), TuiAction::Exit))
    };
    assert(outcome_of(r.0, config@, r.1@) =~~= main_menu_step(config@, choice as nat));
    r
}

fn urls_exec(config: &Config, text: &str) -> (r: (TuiState, Vec<TuiAction>))
    ensures
        outcome_of(r.0, config@, r.1@) == urls_step(config@, text@),
{
    let urls = parse_url_input(text);
    if urls.len() == 0 {
        let r = (TuiState::MainMenu, two(TuiAction::Say(Notice::NoUrls), TuiAction::ShowMainMenu));
        assert(outcome_of(r.0, config@, r.1@) =~~= urls_step(config@, text@));
        r
    } else {
        let r = (TuiState::MainMenu, two(TuiAction::Download(urls), TuiAction::ShowMainMenu));
        assert(outcome_of(r.0, config@, r.1@) =~~= urls_step(config@, text@));
        r
    }
}

fn location_menu_exec(config: &Config, choice: usize) -> (r: (TuiState, Vec<TuiAction>))
    ensures
        outcome_of(r.0, config@, r.1@) == location_menu_step(config@, choice as nat),
{
    let r = if choice == 0 {
        (TuiState::EnteringLocalPath, one(TuiAction::AskLocalPath))
    } else if choice == 1 {
        (TuiState::EnteringSharePath, one(TuiAction::AskSharePath))
    } else if choice == 2 {
        (TuiState::PickingFolder, one(TuiAction::PickFolder))
    } else {
        (TuiState::MainMenu, one(TuiAction::ShowMainMenu))
    };
    assert(outcome_of(r.0, config@, r.1@) =~~= location_menu_step(config@, choice as nat));
    r
}

fn local_path_exec(config: &mut Config, raw: &str) -> (r: (TuiState, Vec<TuiAction>))
    requires
        normalize_path_defined(raw@),
    ensures
        outcome_of(r.0, final(config)@, r.1@) == local_path_step(old(config)@, raw@),
{
    let p = normalize_path(raw);
    config.download.default_output = Some(p.clone());
    config.download.mount_url = None;
    let r = (
        TuiState::LocationMenu,
        three(
            TuiAction::SaveConfig,
            TuiAction::Say(Notice::LocalDirectorySet(p)),
            TuiAction::ShowLocationMenu,
        ),
    );
    assert(outcome_of(r.0, config@, r.1@) =~~= local_path_step(old(config)@, raw@));
    r
}

fn share_path_exec(config: &mut Config, raw: &str) -> (r: (TuiState, Vec<TuiAction>))
    requires
        normalize_path_defined(raw@),
    ensures
        outcome_of(r.0, final(config)@, r.1@) == share_path_step(old(config)@, raw@),
{
    let p = normalize_path(raw);
    config.download.default_output = Some(p.clone());
    let r = (
        TuiState::DiscoveringShare { path: p.clone(), picked: false },
        one(TuiAction::DiscoverShare { path: p, picked: false }),
    );
    assert(outcome_of(r.0, config@, r.1@) =~~= share_path_step(old(config)@, raw@));
    r
}

fn location_done_exec(config: &Config, path: String, picked: bool) -> (r: (TuiState, Vec<TuiAction>))
    ensures
        outcome_of(r.0, config@, r.1@) == location_done(config@, path@, picked),
{
    let r = (
        TuiState::LocationMenu,
        three(
            TuiAction::SaveConfig,
            TuiAction::Say(Notice::DirectorySet { path, picked }),
            TuiAction::ShowLocationMenu,
        ),
    );
    assert(outcome_of(r.0, config@, r.1@) =~~= location_done(config@, path@, picked));
    r
}

fn share_found_exec(config: &mut Config, path: String, picked: bool, found: Option<String>) -> (r: (
    TuiState,
    Vec<TuiAction>,
))
    ensures
        outcome_of(r.0, final(config)@, r.1@) == share_found_step(
            old(config)@,
            path@,
            picked,
            opt_chars(found),
        ),
{
    match found {
        Some(url) => {
            let r = (
                TuiState::ConfirmingAutoMount { url: url.clone(), path, picked },
                one(TuiAction::AskAutoMount { url, picked }),
            );
            assert(outcome_of(r.0, config@, r.1@) =~~= share_found_step(
                old(config)@,
                path@,
                picked,
                opt_chars(found),
            ));
            r
        },
        None => {
            if picked {
                config.download.mount_url = None;
                location_done_exec(config, path, picked)
            } else {
                let r = (TuiState::ConfirmingManualMount { path }, one(TuiAction::AskManualMount));
                assert(outcome_of(r.0, config@, r.1@) =~~= share_found_step(
                    old(config)@,
                    path@,
                    picked,
                    opt_chars(found),
                ));
                r
            }
        },
    }
}

fn auto_mount_exec(config: &mut Config, url: String, path: String, picked: bool, yes: bool) -> (r: (
    TuiState,
    Vec<TuiAction>,
))
    ensures
        outcome_of(r.0, final(config)@, r.1@) == auto_mount_step(
            old(config)@,
            url@,
            path@,
            picked,
            yes,
        ),
{
    config.download.mount_url = if yes {
        Some(url)
    } else {
        None
    };
    location_done_exec(config, path, picked)
}

fn manual_mount_exec(config: &mut Config, path: String, yes: bool) -> (r: (TuiState, Vec<TuiAction>))
    ensures
        outcome_of(r.0, final(config)@, r.1@) == manual_mount_step(old(config)@, path@, yes),
{
    if yes {
        let r = (TuiState::EnteringMountUrl { path }, one(TuiAction::AskMountUrl));
        assert(outcome_of(r.0, config@, r.1@) =~~= manual_mount_step(old(config)@, path@, yes));
        r
    } else {
        config.download.mount_url = None;
        location_done_exec(config, path, false)
    }
}

fn folder_exec(config: &mut Config, picked: Option<String>) -> (r: (TuiState, Vec<TuiAction>))
    ensures
        outcome_of(r.0, final(config)@, r.1@) == folder_step(old(config)@, opt_chars(picked)),
{
    match picked {
        Some(p) => {
            config.download.default_output = Some(p.clone());
            let r = (
                TuiState::DiscoveringShare { path: p.clone(), picked: true },
                one(TuiAction::DiscoverShare { path: p, picked: true }),
            );
            assert(outcome_of(r.0, config@, r.1@) =~~= folder_step(
                old(config)@,
                opt_chars(picked),
            ));
            r
        },
        None => {
            let r = (
                TuiState::LocationMenu,
                two(TuiAction::Say(Notice::PickCancelled), TuiAction::ShowLocationMenu),
            );
            assert(outcome_of(r.0, config@, r.1@) =~~= folder_step(
                old(config)@,
                opt_chars(picked),
            ));
            r
        },
    }
}

fn cloudflare_menu_exec(config: &mut Config, choice: usize) -> (r: (TuiState, Vec<TuiAction>))
    ensures
        outcome_of(r.0, final(config)@, r.1@) == cloudflare_menu_step(
            old(config)@,
            choice as nat,
        ),
{
    let r = if choice == 0 {
        invalidate_existing_cookies(config);
        (
            TuiState::FetchingCookie,
            three(
                TuiAction::Say(Notice::FetchStarting),
                TuiAction::Say(Notice::CookiesInvalidated),
                TuiAction::FetchCookie,
            ),
        )
    } else if choice == 1 {
        (TuiState::EnteringCookie, one(TuiAction::AskCookie))
    } else if choice == 2 {
        config.cloudflare.cf_clearance = None;
        config.cloudflare.cf_clearance_valid = Some(false);
        config.cloudflare.cf_clearance_timestamp = None;
        (
            TuiState::CloudflareMenu,
            three(
                TuiAction::SaveConfig,
                TuiAction::Say(Notice::CookiesCleared),
                TuiAction::ShowCloudflareMenu,
            ),
        )
    } else {
        (TuiState::MainMenu, one(TuiAction::ShowMainMenu))
    };
    assert(outcome_of(r.0, config@, r.1@) =~~= cloudflare_menu_step(old(config)@, choice as nat));
    r
}

fn cookie_fetched_exec(config: &mut Config, fetched: Option<String>) -> (r: (
    TuiState,
    Vec<TuiAction>,
))
    ensures
        exists|now: Option<u64>|
            outcome_of(r.0, final(config)@, r.1@) == #[trigger] cookie_fetched_step(
                old(config)@,
                opt_chars(fetched),
                now,
            ),
{
    let now = seconds_since_epoch();
    let r = match fetched {
        Some(c) => {
            if record_fetched_cookie(config, c, now) {
                (
                    TuiState::CloudflareMenu,
                    two(TuiAction::SaveFetchedCookie, TuiAction::ShowCloudflareMenu),
                )
            } else {
                (
                    TuiState::CloudflareMenu,
                    two(TuiAction::Say(Notice::CookieNotSaved), TuiAction::ShowCloudflareMenu),
                )
            }
        },
        None => (TuiState::CloudflareMenu, one(TuiAction::ShowCloudflareMenu)),
    };
    assert(outcome_of(r.0, config@, r.1@) =~~= cookie_fetched_step(
        old(config)@,
        opt_chars(fetched),
        now,
    ));
    r
}

fn cookie_entered_exec(config: &mut Config, cookie: String) -> (r: (TuiState, Vec<TuiAction>))
    ensures
        exists|now: Option<u64>|
            outcome_of(r.0, final(config)@, r.1@) == #[trigger] cookie_entered_step(
                old(config)@,
                cookie@,
                now,
            ),
{
    let now = seconds_since_epoch();
    let stamp = match now {
        Some(t) => t,
        None => 0,
    };
    store_entered_cookie(config, cookie, stamp);
    let r = (
        TuiState::CloudflareMenu,
        three(
            TuiAction::SaveConfig,
            TuiAction::Say(Notice::ManualCookieSaved),
            TuiAction::ShowCloudflareMenu,
        ),
    );
    assert(outcome_of(r.0, config@, r.1@) =~~= cookie_entered_step(old(config)@, cookie@, now));
    r
}

fn ui_menu_exec(config: &mut Config, choice: usize) -> (r: (TuiState, Vec<TuiAction>))
    ensures
        outcome_of(r.0, final(config)@, r.1@) == ui_menu_step(old(config)@, choice as nat),
{
    let r = if choice == 0 {
        config.ui.show_progress = !config.ui.show_progress;
        (
            TuiState::UiMenu,
            three(
                TuiAction::SaveConfig,
                TuiAction::Say(Notice::ProgressSet(config.ui.show_progress)),
                TuiAction::ShowUiMenu,
            ),
        )
    } else if choice == 1 {
        config.ui.colored_output = !config.ui.colored_output;
        (
            TuiState::UiMenu,
            three(
                TuiAction::SaveConfig,
                TuiAction::Say(Notice::ColorSet(config.ui.colored_output)),
                TuiAction::ShowUiMenu,
            ),
        )
    } else {
        (TuiState::MainMenu, one(TuiAction::ShowMainMenu))
    };
    assert(outcome_of(r.0, config@, r.1@) =~~= ui_menu_step(old(config)@, choice as nat));
    r
}

} // verus!

verus! {

/// One step of the menus: from `state`, on `event`, the next state and the
/// actions to perform in order, with the configuration updated. The clock is
/// read where a cookie is stored (`now` in `tui_transition`).
pub fn tui_step(state: TuiState, config: &mut Config, event: TuiEvent) -> (r: (
    TuiState,
    Vec<TuiAction>,
))
    requires
        tui_accepts(state@, event@),
    ensures
        exists|now: Option<u64>|
            outcome_of(r.0, final(config)@, r.1@) == #[trigger] tui_transition(
                state@,
                old(config)@,
                event@,
                now,
            ),
{
    match state {
        TuiState::MainMenu => match event {
            TuiEvent::Selected(i) => {
                let r = main_menu_exec(config, i);
                assert(tui_transition(state@, old(config)@, event@, None) == main_menu_step(
                    old(config)@,
                    i as nat,
                ));
                r
            },
            _ => {
                assert(false);
                (TuiState::MainMenu, Vec::new())
            },
        },
        TuiState::EnteringUrls => match event {
            TuiEvent::Entered(t) => {
                let r = urls_exec(config, t.as_str());
                assert(tui_transition(state@, old(config)@, event@, None) == urls_step(
                    old(config)@,
                    t@,
                ));
                r
            },
            _ => {
                assert(false);
                (TuiState::MainMenu, Vec::new())
            },
        },
        TuiState::LocationMenu => match event {
            TuiEvent::Selected(i) => {
                let r = location_menu_exec(config, i);
                assert(tui_transition(state@, old(config)@, event@, None) == location_menu_step(
                    old(config)@,
                    i as nat,
                ));
                r
            },
            _ => {
                assert(false);
                (TuiState::MainMenu, Vec::new())
            },
        },
        TuiState::EnteringLocalPath => match event {
            TuiEvent::Entered(raw) => {
                let r = local_path_exec(config, raw.as_str());
                assert(tui_transition(state@, old(config)@, event@, None) == local_path_step(
                    old(config)@,
                    raw@,
                ));
                r
            },
            _ => {
                assert(false);
                (TuiState::MainMenu, Vec::new())
            },
        },
        TuiState::EnteringSharePath => match event {
            TuiEvent::Entered(raw) => {
                let r = share_path_exec(config, raw.as_str());
                assert(tui_transition(state@, old(config)@, event@, None) == share_path_step(
                    old(config)@,
                    raw@,
                ));
                r
            },
            _ => {
                assert(false);
                (TuiState::MainMenu, Vec::new())
            },
        },
        TuiState::DiscoveringShare { path, picked } => match event {
            TuiEvent::ShareFound(found) => {
                let ghost f = opt_chars(found);
                let ghost p = path@;
                let r = share_found_exec(config, path, picked, found);
                assert(tui_transition(state@, old(config)@, event@, None) == share_found_step(
                    old(config)@,
                    p,
                    picked,
                    f,
                ));
                r
            },
            _ => {
                assert(false);
                (TuiState::MainMenu, Vec::new())
            },
        },
        TuiState::ConfirmingAutoMount { url, path, picked } => match event {
            TuiEvent::Confirmed(yes) => {
                let ghost u = url@;
                let ghost p = path@;
                let r = auto_mount_exec(config, url, path, picked, yes);
                assert(tui_transition(state@, old(config)@, event@, None) == auto_mount_step(
                    old(config)@,
                    u,
                    p,
                    picked,
                    yes,
                ));
                r
            },
            _ => {
                assert(false);
                (TuiState::MainMenu, Vec::new())
            },
        },
        TuiState::ConfirmingManualMount { path } => match event {
            TuiEvent::Confirmed(yes) => {
                let ghost p = path@;
                let r = manual_mount_exec(config, path, yes);
                assert(tui_transition(state@, old(config)@, event@, None) == manual_mount_step(
                    old(config)@,
                    p,
                    yes,
                ));
                r
            },
            _ => {
                assert(false);
                (TuiState::MainMenu, Vec::new())
            },
        },
        TuiState::EnteringMountUrl { path } => match event {
            TuiEvent::Entered(url) => {
                config.download.mount_url = Some(url);
                let ghost p = path@;
                let r = location_done_exec(config, path, false);
                assert(tui_transition(state@, old(config)@, event@, None) == mount_url_step(
                    old(config)@,
                    p,
                    url@,
                ));
                r
            },
            _ => {
                assert(false);
                (TuiState::MainMenu, Vec::new())
            },
        },
        TuiState::PickingFolder => match event {
            TuiEvent::FolderPicked(p) => {
                let ghost f = opt_chars(p);
                let r = folder_exec(config, p);
                assert(tui_transition(state@, old(config)@, event@, None) == folder_step(
                    old(config)@,
                    f,
                ));
                r
            },
            _ => {
                assert(false);
                (TuiState::MainMenu, Vec::new())
            },
        },
        TuiState::CloudflareMenu => match event {
            TuiEvent::Selected(i) => {
                let r = cloudflare_menu_exec(config, i);
                assert(tui_transition(state@, old(config)@, event@, None) == cloudflare_menu_step(
                    old(config)@,
                    i as nat,
                ));
                r
            },
            _ => {
                assert(false);
                (TuiState::MainMenu, Vec::new())
            },
        },
        TuiState::FetchingCookie => match event {
            TuiEvent::CookieFetched(c) => {
                let ghost f = opt_chars(c);
                let r = cookie_fetched_exec(config, c);
                proof {
                    let now = choose|now: Option<u64>|
                        outcome_of(r.0, final(config)@, r.1@) == #[trigger] cookie_fetched_step(
                            old(config)@,
                            f,
                            now,
                        );
                    assert(tui_transition(state@, old(config)@, event@, now)
                        == cookie_fetched_step(old(config)@, f, now));
                }
                r
            },
            _ => {
                assert(false);
                (TuiState::MainMenu, Vec::new())
            },
        },
        TuiState::EnteringCookie => match event {
            TuiEvent::Entered(c) => {
                let ghost cv = c@;
                let r = cookie_entered_exec(config, c);
                proof {
                    let now = choose|now: Option<u64>|
                        outcome_of(r.0, final(config)@, r.1@) == #[trigger] cookie_entered_step(
                            old(config)@,
                            cv,
                            now,
                        );
                    assert(tui_transition(state@, old(config)@, event@, now)
                        == cookie_entered_step(old(config)@, cv, now));
                }
                r
            },
            _ => {
                assert(false);
                (TuiState::MainMenu, Vec::new())
            },
        },
        TuiState::UiMenu => match event {
            TuiEvent::Selected(i) => {
                let r = ui_menu_exec(config, i);
                assert(tui_transition(state@, old(config)@, event@, None) == ui_menu_step(
                    old(config)@,
                    i as nat,
                ));
                r
            },
            _ => {
                assert(false);
                (TuiState::MainMenu, Vec::new())
            },
        },
        TuiState::Exited => {
            assert(false);
            (TuiState::Exited, Vec::new())
        },
    }
}

} // verus!

verus! {

/// Whether `s` shows one of the four menus.
pub open spec fn is_menu(s: TuiStateModel) -> bool {
    s is MainMenu || s is LocationMenu || s is CloudflareMenu || s is UiMenu
}

/// Whether `actions` save the configuration.
pub open spec fn saves(actions: Seq<TuiActionModel>) -> bool {
    actions.contains(TuiActionModel::SaveConfig) || actions.contains(
        TuiActionModel::SaveFetchedCookie,
    )
}

/// Going back from the location, Cloudflare or UI menu shows the main menu
/// and changes nothing.
pub proof fn going_back_returns_to_main_menu(m: ConfigModel, now: Option<u64>)
    ensures
        tui_transition(TuiStateModel::LocationMenu, m, TuiEventModel::Selected(3), now) == outcome(
            TuiStateModel::MainMenu,
            m,
            seq![TuiActionModel::ShowMainMenu],
        ),
        tui_transition(TuiStateModel::CloudflareMenu, m, TuiEventModel::Selected(3), now)
            == outcome(TuiStateModel::MainMenu, m, seq![TuiActionModel::ShowMainMenu]),
        tui_transition(TuiStateModel::UiMenu, m, TuiEventModel::Selected(2), now) == outcome(
            TuiStateModel::MainMenu,
            m,
            seq![TuiActionModel::ShowMainMenu],
        ),
{
}

/// Choosing the same toggle of the UI menu twice restores the configuration.
pub proof fn ui_toggles_undo_themselves(
    m: ConfigModel,
    choice: nat,
    now1: Option<u64>,
    now2: Option<u64>,
)
    requires
        choice < 2,
    ensures
        ({
            let once = tui_transition(TuiStateModel::UiMenu, m, TuiEventModel::Selected(choice), now1);
            let twice = tui_transition(
                once.state,
                once.config,
                TuiEventModel::Selected(choice),
                now2,
            );
            once.state == TuiStateModel::UiMenu && twice.config == m
        }),
{
}

/// The menus are left only by choosing "Exit" in the main menu.
pub proof fn menus_exit_only_from_main_menu(
    s: TuiStateModel,
    m: ConfigModel,
    e: TuiEventModel,
    now: Option<u64>,
)
    requires
        tui_accepts(s, e),
    ensures
        tui_transition(s, m, e, now).state is Exited <==> (s is MainMenu && e
            == TuiEventModel::Selected(4)),
{
}

/// A step that comes back to a menu with a changed configuration saves it,
/// unless it stored a fetched cookie that could not be stamped with the time,
/// which it reports.
pub proof fn settled_changes_are_saved(
    s: TuiStateModel,
    m: ConfigModel,
    e: TuiEventModel,
    now: Option<u64>,
)
    requires
        tui_accepts(s, e),
    ensures
        ({
            let o = tui_transition(s, m, e, now);
            is_menu(o.state) && o.config != m ==> saves(o.actions) || o.actions.contains(
                TuiActionModel::Say(NoticeModel::CookieNotSaved),
            )
        }),
{
    let o = tui_transition(s, m, e, now);
    if o.actions.len() > 0 {
        assert(o.actions.contains(o.actions[0]));
    }
    if o.actions.len() > 1 {
        assert(o.actions.contains(o.actions[1]));
    }
}

} // verus!

verus! {

/// `s` holds no white space.
pub open spec fn no_space(s: Seq<char>) -> bool {
    forall|i: int| 0 <= i < s.len() ==> !is_space(#[trigger] s[i])
}

/// A clean URL: not empty, without white space, and neither beginning nor
/// ending with a quote or bracket.
pub open spec fn clean_url(u: Seq<char>) -> bool {
    u.len() > 0 && no_space(u) && !is_wrapper(u[0]) && !is_wrapper(u.last())
}

proof fn lemma_words_after(s: Seq<char>, cur: Seq<char>)
    requires
        no_space(cur),
    ensures
        forall|i: int|
            0 <= i < words_after(s, cur).len() ==> #[trigger] words_after(s, cur)[i].len() > 0
                && no_space(words_after(s, cur)[i]),
    decreases s.len(),
{
    if s.len() == 0 {
        if cur.len() > 0 {
            assert(words_after(s, cur) == seq![cur]);
            assert(seq![cur][0] == cur);
        } else {
            assert(words_after(s, cur) == Seq::<Seq<char>>::empty());
        }
    } else if is_space(s[0]) {
        let rest = s.drop_first();
        lemma_words_after(rest, seq![]);
        let head: Seq<Seq<char>> = if cur.len() > 0 {
            seq![cur]
        } else {
            seq![]
        };
        assert(no_space(Seq::<char>::empty()));
        assert forall|i: int| 0 <= i < words_after(s, cur).len() implies #[trigger] words_after(
            s,
            cur,
        )[i].len() > 0 && no_space(words_after(s, cur)[i]) by {
            if i < head.len() {
                assert(words_after(s, cur)[i] == cur);
            } else {
                assert(words_after(s, cur)[i] == words_after(rest, seq![])[i - head.len()]);
            }
        }
    } else {
        assert(no_space(cur.push(s[0]))) by {
            assert forall|i: int| 0 <= i < cur.push(s[0]).len() implies !is_space(
                #[trigger] cur.push(s[0])[i],
            ) by {
                if i < cur.len() {
                    assert(cur.push(s[0])[i] == cur[i]);
                }
            }
        }
        lemma_words_after(s.drop_first(), cur.push(s[0]));
        assert(words_after(s, cur) == words_after(s.drop_first(), cur.push(s[0])));
    }
}

proof fn lemma_unwrap_start(s: Seq<char>)
    ensures
        exists|k: int| 0 <= k <= s.len() && unwrap_start(s) == s.skip(k),
        unwrap_start(s).len() > 0 ==> !is_wrapper(unwrap_start(s)[0]),
    decreases s.len(),
{
    if s.len() > 0 && is_wrapper(s[0]) {
        lemma_unwrap_start(s.drop_first());
        let k = choose|k: int|
            0 <= k <= s.drop_first().len() && unwrap_start(s.drop_first()) == s.drop_first().skip(k);
        assert(s.drop_first().skip(k) =~= s.skip(k + 1));
    } else {
        assert(s.skip(0) =~= s);
    }
}

proof fn lemma_unwrap_end(s: Seq<char>)
    ensures
        exists|k: int| 0 <= k <= s.len() && unwrap_end(s) == s.take(k),
        unwrap_end(s).len() > 0 ==> !is_wrapper(unwrap_end(s).last()),
    decreases s.len(),
{
    if s.len() > 0 && is_wrapper(s.last()) {
        lemma_unwrap_end(s.drop_last());
        let k = choose|k: int|
            0 <= k <= s.drop_last().len() && unwrap_end(s.drop_last()) == s.drop_last().take(k);
        assert(s.drop_last().take(k) =~= s.take(k));
    } else {
        assert(s.take(s.len() as int) =~= s);
    }
}

proof fn lemma_unwrap_url(w: Seq<char>)
    requires
        no_space(w),
    ensures
        unwrap_url(w).len() > 0 ==> clean_url(unwrap_url(w)),
{
    lemma_unwrap_start(w);
    let a = unwrap_start(w);
    lemma_unwrap_end(a);
    let k1 = choose|k: int| 0 <= k <= w.len() && unwrap_start(w) == w.skip(k);
    let k2 = choose|k: int| 0 <= k <= a.len() && unwrap_end(a) == a.take(k);
    let u = unwrap_url(w);
    if u.len() > 0 {
        assert(u[0] == a[0]);
        assert forall|i: int| 0 <= i < u.len() implies !is_space(#[trigger] u[i]) by {
            assert(u[i] == w[i + k1]);
        }
    }
}

proof fn lemma_urls_among(ws: Seq<Seq<char>>)
    requires
        forall|i: int| 0 <= i < ws.len() ==> no_space(#[trigger] ws[i]),
    ensures
        forall|i: int| 0 <= i < urls_among(ws).len() ==> clean_url(#[trigger] urls_among(ws)[i]),
    decreases ws.len(),
{
    if ws.len() > 0 {
        lemma_unwrap_url(ws[0]);
        let rest = ws.drop_first();
        assert forall|i: int| 0 <= i < rest.len() implies no_space(#[trigger] rest[i]) by {
            assert(rest[i] == ws[i + 1]);
        }
        lemma_urls_among(rest);
        let u = unwrap_url(ws[0]);
        let head: Seq<Seq<char>> = if u.len() > 0 {
            seq![u]
        } else {
            seq![]
        };
        assert forall|i: int| 0 <= i < urls_among(ws).len() implies clean_url(
            #[trigger] urls_among(ws)[i],
        ) by {
            if i < head.len() {
                assert(urls_among(ws)[i] == u);
            } else {
                assert(urls_among(ws)[i] == urls_among(rest)[i - head.len()]);
            }
        }
    }
}

/// Every URL read from a pasted line is clean: not empty, without white
/// space, and without a quote or bracket at either end.
pub proof fn pasted_urls_are_clean(s: Seq<char>)
    ensures
        forall|i: int| 0 <= i < pasted_urls(s).len() ==> clean_url(#[trigger] pasted_urls(s)[i]),
{
    lemma_words_after(s, seq![]);
    lemma_urls_among(words(s));
}

} // verus!

verus! {

/// How many of `choices` are `c`.
pub open spec fn count_choice(choices: Seq<nat>, c: nat) -> nat
    decreases choices.len(),
{
    if choices.len() == 0 {
        0
    } else {
        (if choices[0] == c {
            1nat
        } else {
            0nat
        }) + count_choice(choices.drop_first(), c)
    }
}

/// The configuration after choosing each of `choices` in turn in the UI
/// menu, starting from `m`.
pub open spec fn ui_session(m: ConfigModel, choices: Seq<nat>, now: Option<u64>) -> ConfigModel
    decreases choices.len(),
{
    if choices.len() == 0 {
        m
    } else {
        ui_session(
            tui_transition(TuiStateModel::UiMenu, m, TuiEventModel::Selected(choices[0]), now).config,
            choices.drop_first(),
            now,
        )
    }
}

/// Toggling in the UI menu, any number of times and in any order: each toggle
/// keeps the UI menu shown and saves; afterwards each switch is flipped
/// exactly when it was chosen an odd number of times, and nothing else in the
/// configuration has changed; going back then shows the main menu with that
/// configuration.
pub proof fn ui_toggle_parity(m: ConfigModel, choices: Seq<nat>, now: Option<u64>)
    requires
        forall|i: int| 0 <= i < choices.len() ==> #[trigger] choices[i] < 2,
    ensures
        forall|m2: ConfigModel, c: nat|
            c < 2 ==> #[trigger] tui_transition(
                TuiStateModel::UiMenu,
                m2,
                TuiEventModel::Selected(c),
                now,
            ).state == TuiStateModel::UiMenu && tui_transition(
                TuiStateModel::UiMenu,
                m2,
                TuiEventModel::Selected(c),
                now,
            ).actions.contains(TuiActionModel::SaveConfig),
        ui_session(m, choices, now).show_progress == (m.show_progress != (count_choice(choices, 0)
            % 2 == 1)),
        ui_session(m, choices, now).colored_output == (m.colored_output != (count_choice(
            choices,
            1,
        ) % 2 == 1)),
        (ConfigModel {
            show_progress: m.show_progress,
            colored_output: m.colored_output,
            ..ui_session(m, choices, now)
        }) == m,
        tui_transition(
            TuiStateModel::UiMenu,
            ui_session(m, choices, now),
            TuiEventModel::Selected(2),
            now,
        ) == outcome(
            TuiStateModel::MainMenu,
            ui_session(m, choices, now),
            seq![TuiActionModel::ShowMainMenu],
        ),
    decreases choices.len(),
{
    assert forall|m2: ConfigModel, c: nat| c < 2 implies #[trigger] tui_transition(
        TuiStateModel::UiMenu,
        m2,
        TuiEventModel::Selected(c),
        now,
    ).state == TuiStateModel::UiMenu && tui_transition(
        TuiStateModel::UiMenu,
        m2,
        TuiEventModel::Selected(c),
        now,
    ).actions.contains(TuiActionModel::SaveConfig) by {
        let o = tui_transition(TuiStateModel::UiMenu, m2, TuiEventModel::Selected(c), now);
        assert(o.actions[0] == TuiActionModel::SaveConfig);
    }
    if choices.len() > 0 {
        let rest = choices.drop_first();
        let m1 = tui_transition(
            TuiStateModel::UiMenu,
            m,
            TuiEventModel::Selected(choices[0]),
            now,
        ).config;
        assert(choices[0] < 2);
        assert forall|i: int| 0 <= i < rest.len() implies #[trigger] rest[i] < 2 by {
            assert(rest[i] == choices[i + 1]);
        }
        ui_toggle_parity(m1, rest, now);
    }
}

} // verus!

verus! {

/// The entries of the main menu: "Download" asks for URLs, "Location",
/// "Cloudflare" and "UI settings" open their menus, "Exit" says goodbye and
/// leaves; none of them changes the configuration.
pub proof fn main_menu_entries(m: ConfigModel, now: Option<u64>)
    ensures
        tui_transition(TuiStateModel::MainMenu, m, TuiEventModel::Selected(0), now) == outcome(
            TuiStateModel::EnteringUrls,
            m,
            seq![TuiActionModel::AskUrls],
        ),
        tui_transition(TuiStateModel::MainMenu, m, TuiEventModel::Selected(1), now) == outcome(
            TuiStateModel::LocationMenu,
            m,
            seq![TuiActionModel::ShowLocationMenu],
        ),
        tui_transition(TuiStateModel::MainMenu, m, TuiEventModel::Selected(2), now) == outcome(
            TuiStateModel::CloudflareMenu,
            m,
            seq![TuiActionModel::ShowCloudflareMenu],
        ),
        tui_transition(TuiStateModel::MainMenu, m, TuiEventModel::Selected(3), now) == outcome(
            TuiStateModel::UiMenu,
            m,
            seq![TuiActionModel::ShowUiMenu],
        ),
        tui_transition(TuiStateModel::MainMenu, m, TuiEventModel::Selected(4), now) == outcome(
            TuiStateModel::Exited,
            m,
            seq![TuiActionModel::Say(NoticeModel::Goodbye), TuiActionModel::Exit],
        ),
{
}

/// The entries of the location menu: "Set Local Directory" asks for a local
/// path, "Set Network Share Directory" asks for a share path, "Pick Folder"
/// opens the Finder picker; none of them changes the configuration.
pub proof fn location_menu_entries(m: ConfigModel, now: Option<u64>)
    ensures
        tui_transition(TuiStateModel::LocationMenu, m, TuiEventModel::Selected(0), now) == outcome(
            TuiStateModel::EnteringLocalPath,
            m,
            seq![TuiActionModel::AskLocalPath],
        ),
        tui_transition(TuiStateModel::LocationMenu, m, TuiEventModel::Selected(1), now) == outcome(
            TuiStateModel::EnteringSharePath,
            m,
            seq![TuiActionModel::AskSharePath],
        ),
        tui_transition(TuiStateModel::LocationMenu, m, TuiEventModel::Selected(2), now) == outcome(
            TuiStateModel::PickingFolder,
            m,
            seq![TuiActionModel::PickFolder],
        ),
{
}

/// A typed local directory becomes the output directory, cleaned, with no
/// mount URL; it is saved, reported, and the location menu shown again.
pub proof fn local_directory_clears_mount_url(m: ConfigModel, raw: Seq<char>, now: Option<u64>)
    requires
        normalize_path_defined(raw),
    ensures
        tui_transition(TuiStateModel::EnteringLocalPath, m, TuiEventModel::Entered(raw), now)
            == outcome(
            TuiStateModel::LocationMenu,
            ConfigModel { default_output: Some(normalized_path(raw)), mount_url: None, ..m },
            seq![
                TuiActionModel::SaveConfig,
                TuiActionModel::Say(NoticeModel::LocalDirectorySet(normalized_path(raw))),
                TuiActionModel::ShowLocationMenu,
            ],
        ),
{
}

/// A typed network-share directory becomes the output directory, cleaned, the
/// mount URL stays until the share is settled, and the share behind the
/// directory is looked up.
pub proof fn share_directory_is_looked_up(m: ConfigModel, raw: Seq<char>, now: Option<u64>)
    requires
        normalize_path_defined(raw),
    ensures
        tui_transition(TuiStateModel::EnteringSharePath, m, TuiEventModel::Entered(raw), now)
            == outcome(
            TuiStateModel::DiscoveringShare { path: normalized_path(raw), picked: false },
            ConfigModel { default_output: Some(normalized_path(raw)), ..m },
            seq![TuiActionModel::DiscoverShare { path: normalized_path(raw), picked: false }],
        ),
{
}

/// A folder chosen in the Finder picker becomes the output directory and its
/// share is looked up; a cancelled picker changes nothing and is reported.
pub proof fn picked_folder_is_looked_up(m: ConfigModel, p: Seq<char>, now: Option<u64>)
    ensures
        tui_transition(TuiStateModel::PickingFolder, m, TuiEventModel::FolderPicked(Some(p)), now)
            == outcome(
            TuiStateModel::DiscoveringShare { path: p, picked: true },
            ConfigModel { default_output: Some(p), ..m },
            seq![TuiActionModel::DiscoverShare { path: p, picked: true }],
        ),
        tui_transition(TuiStateModel::PickingFolder, m, TuiEventModel::FolderPicked(None), now)
            == outcome(
            TuiStateModel::LocationMenu,
            m,
            seq![
                TuiActionModel::Say(NoticeModel::PickCancelled),
                TuiActionModel::ShowLocationMenu,
            ],
        ),
{
}

/// A share found for a directory is offered for auto-mounting, with the
/// configuration unchanged; where none is found, a typed directory leads to
/// the question of a mount URL by hand, and a picked one is settled without a
/// mount URL and saved.
pub proof fn found_shares_are_offered(
    m: ConfigModel,
    path: Seq<char>,
    picked: bool,
    url: Seq<char>,
    now: Option<u64>,
)
    ensures
        tui_transition(
            TuiStateModel::DiscoveringShare { path, picked },
            m,
            TuiEventModel::ShareFound(Some(url)),
            now,
        ) == outcome(
            TuiStateModel::ConfirmingAutoMount { url, path, picked },
            m,
            seq![TuiActionModel::AskAutoMount { url, picked }],
        ),
        tui_transition(
            TuiStateModel::DiscoveringShare { path, picked: false },
            m,
            TuiEventModel::ShareFound(None),
            now,
        ) == outcome(
            TuiStateModel::ConfirmingManualMount { path },
            m,
            seq![TuiActionModel::AskManualMount],
        ),
        tui_transition(
            TuiStateModel::DiscoveringShare { path, picked: true },
            m,
            TuiEventModel::ShareFound(None),
            now,
        ) == outcome(
            TuiStateModel::LocationMenu,
            ConfigModel { mount_url: None, ..m },
            seq![
                TuiActionModel::SaveConfig,
                TuiActionModel::Say(NoticeModel::DirectorySet { path, picked: true }),
                TuiActionModel::ShowLocationMenu,
            ],
        ),
{
}

/// Accepting auto-mounting stores the found share as the mount URL, and
/// declining leaves no mount URL, whether the directory was typed or picked;
/// either way nothing else changes, the directory is saved and reported, and
/// the location menu is shown again.
pub proof fn accepted_shares_are_mounted(
    m: ConfigModel,
    url: Seq<char>,
    path: Seq<char>,
    picked: bool,
    yes: bool,
    now: Option<u64>,
)
    ensures
        tui_transition(
            TuiStateModel::ConfirmingAutoMount { url, path, picked },
            m,
            TuiEventModel::Confirmed(yes),
            now,
        ) == outcome(
            TuiStateModel::LocationMenu,
            ConfigModel {
                mount_url: if yes {
                    Some(url)
                } else {
                    None
                },
                ..m
            },
            seq![
                TuiActionModel::SaveConfig,
                TuiActionModel::Say(NoticeModel::DirectorySet { path, picked }),
                TuiActionModel::ShowLocationMenu,
            ],
        ),
        tui_transition(
            TuiStateModel::ConfirmingAutoMount { url, path, picked },
            m,
            TuiEventModel::Confirmed(true),
            now,
        ).config.mount_url == Some(url),
        tui_transition(
            TuiStateModel::ConfirmingAutoMount { url, path, picked },
            m,
            TuiEventModel::Confirmed(false),
            now,
        ).config.mount_url == None::<Seq<char>>,
{
}

/// Where no share was found for a typed directory: wanting to give a mount URL
/// asks for it and a typed URL is stored and saved; not wanting one leaves no
/// mount URL and saves.
pub proof fn manual_mount_urls_are_stored(
    m: ConfigModel,
    path: Seq<char>,
    url: Seq<char>,
    now: Option<u64>,
)
    ensures
        tui_transition(
            TuiStateModel::ConfirmingManualMount { path },
            m,
            TuiEventModel::Confirmed(true),
            now,
        ) == outcome(TuiStateModel::EnteringMountUrl { path }, m, seq![TuiActionModel::AskMountUrl]),
        tui_transition(
            TuiStateModel::ConfirmingManualMount { path },
            m,
            TuiEventModel::Confirmed(false),
            now,
        ) == outcome(
            TuiStateModel::LocationMenu,
            ConfigModel { mount_url: None, ..m },
            seq![
                TuiActionModel::SaveConfig,
                TuiActionModel::Say(NoticeModel::DirectorySet { path, picked: false }),
                TuiActionModel::ShowLocationMenu,
            ],
        ),
        tui_transition(
            TuiStateModel::EnteringMountUrl { path },
            m,
            TuiEventModel::Entered(url),
            now,
        ) == outcome(
            TuiStateModel::LocationMenu,
            ConfigModel { mount_url: Some(url), ..m },
            seq![
                TuiActionModel::SaveConfig,
                TuiActionModel::Say(NoticeModel::DirectorySet { path, picked: false }),
                TuiActionModel::ShowLocationMenu,
            ],
        ),
{
}

/// The entries of the Cloudflare menu. "Auto-Fetch" only invalidates the
/// stored cookie (its text stays, it is marked invalid and unstamped, and
/// nothing else changes) before the fetch; "Enter manually" asks for a cookie
/// and changes nothing; "Clear" removes the cookie, marks it invalid and
/// unstamped, and saves.
pub proof fn cloudflare_menu_entries(m: ConfigModel, now: Option<u64>)
    ensures
        tui_transition(TuiStateModel::CloudflareMenu, m, TuiEventModel::Selected(0), now) == outcome(
            TuiStateModel::FetchingCookie,
            ConfigModel { cf_clearance_valid: Some(false), cf_clearance_timestamp: None, ..m },
            seq![
                TuiActionModel::Say(NoticeModel::FetchStarting),
                TuiActionModel::Say(NoticeModel::CookiesInvalidated),
                TuiActionModel::FetchCookie,
            ],
        ),
        tui_transition(
            TuiStateModel::CloudflareMenu,
            m,
            TuiEventModel::Selected(0),
            now,
        ).config.cf_clearance == m.cf_clearance,
        tui_transition(TuiStateModel::CloudflareMenu, m, TuiEventModel::Selected(1), now) == outcome(
            TuiStateModel::EnteringCookie,
            m,
            seq![TuiActionModel::AskCookie],
        ),
        tui_transition(TuiStateModel::CloudflareMenu, m, TuiEventModel::Selected(2), now) == outcome(
            TuiStateModel::CloudflareMenu,
            ConfigModel {
                cf_clearance: None,
                cf_clearance_valid: Some(false),
                cf_clearance_timestamp: None,
                ..m
            },
            seq![
                TuiActionModel::SaveConfig,
                TuiActionModel::Say(NoticeModel::CookiesCleared),
                TuiActionModel::ShowCloudflareMenu,
            ],
        ),
{
}

/// A fetched cookie read at time `t` is stored as valid, stamped with `t`,
/// together with the browser's User-Agent, and saved; a failed fetch changes
/// nothing. A pasted cookie is stored as valid, stamped, and saved.
pub proof fn cookies_are_stored(m: ConfigModel, c: Seq<char>, t: u64)
    ensures
        tui_transition(
            TuiStateModel::FetchingCookie,
            m,
            TuiEventModel::CookieFetched(Some(c)),
            Some(t),
        ) == outcome(
            TuiStateModel::CloudflareMenu,
            ConfigModel {
                cf_clearance: Some(c),
                cf_clearance_valid: Some(true),
                cf_clearance_timestamp: Some(t),
                user_agent: Some(fetch_user_agent()),
                ..m
            },
            seq![TuiActionModel::SaveFetchedCookie, TuiActionModel::ShowCloudflareMenu],
        ),
        tui_transition(
            TuiStateModel::FetchingCookie,
            m,
            TuiEventModel::CookieFetched(None),
            Some(t),
        ) == outcome(TuiStateModel::CloudflareMenu, m, seq![TuiActionModel::ShowCloudflareMenu]),
        tui_transition(TuiStateModel::EnteringCookie, m, TuiEventModel::Entered(c), Some(t))
            == outcome(
            TuiStateModel::CloudflareMenu,
            ConfigModel {
                cf_clearance: Some(c),
                cf_clearance_valid: Some(true),
                cf_clearance_timestamp: Some(t),
                ..m
            },
            seq![
                TuiActionModel::SaveConfig,
                TuiActionModel::Say(NoticeModel::ManualCookieSaved),
                TuiActionModel::ShowCloudflareMenu,
            ],
        ),
{
}

/// Pasted text is downloaded as the URLs found in it, and the main menu shown
/// again; text without URLs is reported and nothing is downloaded; the
/// configuration does not change.
pub proof fn pasted_urls_are_downloaded(m: ConfigModel, text: Seq<char>, now: Option<u64>)
    ensures
        pasted_urls(text).len() > 0 ==> tui_transition(
            TuiStateModel::EnteringUrls,
            m,
            TuiEventModel::Entered(text),
            now,
        ) == outcome(
            TuiStateModel::MainMenu,
            m,
            seq![TuiActionModel::Download(pasted_urls(text)), TuiActionModel::ShowMainMenu],
        ),
        pasted_urls(text).len() == 0 ==> tui_transition(
            TuiStateModel::EnteringUrls,
            m,
            TuiEventModel::Entered(text),
            now,
        ) == outcome(
            TuiStateModel::MainMenu,
            m,
            seq![TuiActionModel::Say(NoticeModel::NoUrls), TuiActionModel::ShowMainMenu],
        ),
{
}

/// The entries of the UI menu: each toggle flips its switch, saves, reports
/// the new setting and shows the UI menu again; nothing else changes.
pub proof fn ui_menu_entries(m: ConfigModel, now: Option<u64>)
    ensures
        tui_transition(TuiStateModel::UiMenu, m, TuiEventModel::Selected(0), now) == outcome(
            TuiStateModel::UiMenu,
            ConfigModel { show_progress: !m.show_progress, ..m },
            seq![
                TuiActionModel::SaveConfig,
                TuiActionModel::Say(NoticeModel::ProgressSet(!m.show_progress)),
                TuiActionModel::ShowUiMenu,
            ],
        ),
        tui_transition(TuiStateModel::UiMenu, m, TuiEventModel::Selected(1), now) == outcome(
            TuiStateModel::UiMenu,
            ConfigModel { colored_output: !m.colored_output, ..m },
            seq![
                TuiActionModel::SaveConfig,
                TuiActionModel::Say(NoticeModel::ColorSet(!m.colored_output)),
                TuiActionModel::ShowUiMenu,
            ],
        ),
{
}

} // verus!
