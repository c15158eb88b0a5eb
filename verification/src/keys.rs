//! Keyboard and paste handling: what a key press does to the state on each
//! screen, and which background work the UI loop must then start.

use vstd::prelude::*;
use crate::text;
use crate::state::{App, Screen, FOCUS_NAME, FOCUS_COLOR, FOCUS_LOGO, FOCUS_PUBLISH, FOCUS_COUNT};
use crate::state;
use crate::naming;

verus! {

/// A key press, as far as the screens tell keys apart.
#[derive(Clone, Copy, PartialEq, Eq, Debug, Structural)]
pub enum Key {
    Char(char),
    Enter,
    Esc,
    Backspace,
    Tab,
    Up,
    Down,
    Left,
    Right,
    Other,
}

/// Background work the UI loop starts after a key press.
#[derive(Debug)]
pub enum KeyAction {
    Nothing,
    /// Open the browser-based sign-in.
    StartOAuth,
    /// Validate this pasted key and load the apps panel.
    SubmitKey { key: String },
    /// Destroy this VM, then reload the panel.
    Destroy { id: String },
    /// Open this URL in the browser.
    OpenBrowser { url: String },
    /// Reload the apps panel in the background.
    ReloadApps,
    /// Start the deploy with this customization.
    Launch { app_name: String, accent: String, logo: String },
    /// Publish this repository (a static site goes to the CDN, an app on to
    /// consent).
    Create { repo: String },
}

pub open spec fn quit<C>(a: App<C>) -> App<C> {
    App::<C> { should_quit: true, ..a }
}

pub open spec fn nothing(act: KeyAction) -> bool {
    act is Nothing
}

/// The answer "yes" to a destroy confirmation.
pub open spec fn is_yes(k: Key) -> bool {
    k == Key::Char('s') || k == Key::Char('S') || k == Key::Char('y') || k == Key::Char('Y')
}

/// Submitting the pasted key (Enter, or right after a paste).
pub open spec fn key_submitted<C>(a: App<C>, b: App<C>, act: KeyAction) -> bool {
    let key = text::trim(a.key_input@);
    if key.len() == 0 || a.auth_busy {
        b == a && nothing(act)
    } else {
        &&& b == App::<C> { error: None, auth_busy: true, auth_status: b.auth_status, ..a }
        &&& b.auth_status@ == "validando…"@
        &&& act matches KeyAction::SubmitKey { key: k } && k@ == key
    }
}

/// The connection screen.
pub open spec fn key_entry_key<C>(a: App<C>, k: Key, b: App<C>, act: KeyAction) -> bool {
    if a.auth_busy {
        nothing(act) && b == if k == Key::Esc {
            quit(a)
        } else {
            a
        }
    } else if a.paste_mode {
        match k {
            Key::Esc => b == quit(a) && nothing(act),
            Key::Enter => key_submitted(a, b, act),
            Key::Backspace => {
                &&& b == App::<C> { key_input: b.key_input, ..a }
                &&& b.key_input@ == text::popped(a.key_input@)
                &&& nothing(act)
            },
            Key::Char(c) => {
                &&& nothing(act)
                &&& if !text::is_ws(c) {
                    b == App::<C> { key_input: b.key_input, ..a } && b.key_input@ == a.key_input@.push(c)
                } else {
                    b == a
                }
            },
            _ => b == a && nothing(act),
        }
    } else {
        if k == Key::Enter {
            &&& b == App::<C> { error: None, auth_busy: true, auth_status: b.auth_status, ..a }
            &&& b.auth_status@ == "abriendo el navegador…"@
            &&& act is StartOAuth
        } else if k == Key::Char('k') || k == Key::Char('K') {
            b == App::<C> { error: None, paste_mode: true, ..a } && nothing(act)
        } else if k == Key::Esc {
            b == quit(a) && nothing(act)
        } else {
            b == a && nothing(act)
        }
    }
}

/// Starting a new app from the panel: a fresh customization, then consent.
pub open spec fn create_started<C>(a: App<C>, b: App<C>) -> bool {
    &&& b == App::<C> {
        key_input: b.key_input,
        logo_input: b.logo_input,
        accent_idx: 0,
        custom_hex: b.custom_hex,
        focus: 0,
        screen: Screen::Consent,
        ..a
    }
    &&& b.key_input@ == Seq::<char>::empty()
    &&& b.logo_input@ == Seq::<char>::empty()
    &&& b.custom_hex@ == seq!['#']
}

/// The apps panel.
pub open spec fn apps_key<C>(a: App<C>, k: Key, b: App<C>, act: KeyAction) -> bool {
    let n = a.apps@.len();
    let cur = a.apps_cursor as int;
    if a.confirm_destroy {
        if is_yes(k) && n > 0 && a.client is Some {
            &&& b == App::<C> { confirm_destroy: false, busy: b.busy, ..a }
            &&& b.busy matches Some(t) && t@ == "borrando…"@
            &&& act matches KeyAction::Destroy { id } && id == a.apps@[cur].id
        } else {
            b == App::<C> { confirm_destroy: false, ..a } && nothing(act)
        }
    } else if k == Key::Char('c') || k == Key::Char('C') || (k == Key::Enter && n == 0) {
        create_started(a, b) && nothing(act)
    } else if k == Key::Char('q') || k == Key::Esc {
        b == quit(a) && nothing(act)
    } else if k == Key::Up && n > 0 {
        b == App::<C> { apps_cursor: ((cur + n - 1) % (n as int)) as usize, ..a } && nothing(act)
    } else if k == Key::Down && n > 0 {
        b == App::<C> { apps_cursor: ((cur + 1) % (n as int)) as usize, ..a } && nothing(act)
    } else if k == Key::Enter && n > 0 {
        &&& b == App::<C> {
            url: Some(a.apps@[cur].url),
            sandbox_id: Some(a.apps@[cur].id),
            live_at: None,
            screen: Screen::Live,
            ..a
        }
        &&& nothing(act)
    } else if k == Key::Char('o') && n > 0 {
        b == a && (act matches KeyAction::OpenBrowser { url } && url == a.apps@[cur].url)
    } else if k == Key::Char('d') && n > 0 {
        b == App::<C> { confirm_destroy: true, ..a } && nothing(act)
    } else {
        b == a && nothing(act)
    }
}

/// The consent screen (a VM will be created).
pub open spec fn consent_key<C>(a: App<C>, k: Key, b: App<C>, act: KeyAction) -> bool {
    &&& nothing(act)
    &&& if k == Key::Char('y') || k == Key::Char('Y') {
        &&& b == App::<C> { key_input: b.key_input, screen: Screen::Customize, ..a }
        &&& b.key_input@ == Seq::<char>::empty()
    } else if k == Key::Char('n') || k == Key::Char('N') || k == Key::Esc {
        b == App::<C> { screen: Screen::Apps, ..a }
    } else {
        b == a
    }
}

/// The number of accent choices: the presets and the custom one.
pub open spec fn accent_choices() -> int {
    naming::CUSTOM_ACCENT as int + 1
}

/// The color row of the Customize screen.
pub open spec fn color_key<C>(a: App<C>, k: Key, b: App<C>) -> bool {
    let custom = a.accent_idx == naming::CUSTOM_ACCENT;
    match k {
        Key::Left => b == App::<C> {
            accent_idx: ((a.accent_idx + accent_choices() - 1) % accent_choices()) as usize,
            ..a
        },
        Key::Right => b == App::<C> {
            accent_idx: ((a.accent_idx + 1) % accent_choices()) as usize,
            ..a
        },
        Key::Backspace => if custom {
            b == App::<C> { custom_hex: b.custom_hex, ..a } && b.custom_hex@ == text::popped(
                a.custom_hex@,
            )
        } else {
            b == a
        },
        Key::Char(c) => if custom && (c == '#' || text::is_ascii_hex(c)) && a.custom_hex@.len() < 7 {
            b == App::<C> { custom_hex: b.custom_hex, ..a } && b.custom_hex@ == a.custom_hex@.push(c)
        } else {
            b == a
        },
        _ => b == a,
    }
}

/// The Customize screen: name, color, logo, then Publish.
pub open spec fn customize_key<C>(a: App<C>, k: Key, b: App<C>, act: KeyAction) -> bool {
    if k == Key::Esc {
        b == App::<C> { screen: Screen::Apps, ..a } && nothing(act)
    } else if k == Key::Tab || k == Key::Down {
        b == App::<C> { focus: ((a.focus + 1) % (FOCUS_COUNT as int)) as u8, ..a } && nothing(act)
    } else if k == Key::Up {
        &&& b == App::<C> {
            focus: ((a.focus + FOCUS_COUNT - 1) % (FOCUS_COUNT as int)) as u8,
            ..a
        }
        &&& nothing(act)
    } else if k == Key::Enter && a.focus != FOCUS_PUBLISH {
        b == App::<C> { focus: (a.focus + 1) as u8, ..a } && nothing(act)
    } else if k == Key::Enter {
        if a.client is Some {
            let named = App::<C> { app_name: a.key_input, ..a };
            &&& state::launch_started(named, b)
            &&& act matches KeyAction::Launch { app_name, accent, logo } && app_name
                == a.key_input && accent@ == state::chosen_accent_of(a.accent_idx, a.custom_hex@)
                && logo == a.logo_input
        } else {
            b == a && nothing(act)
        }
    } else if a.focus == FOCUS_COLOR {
        color_key(a, k, b) && nothing(act)
    } else if a.focus == FOCUS_LOGO {
        &&& nothing(act)
        &&& match k {
            Key::Backspace => b == App::<C> { logo_input: b.logo_input, ..a } && b.logo_input@
                == text::popped(a.logo_input@),
            Key::Char(c) => b == App::<C> { logo_input: b.logo_input, ..a } && b.logo_input@
                == a.logo_input@.push(c),
            _ => b == a,
        }
    } else {
        &&& nothing(act)
        &&& match k {
            Key::Backspace => b == App::<C> { key_input: b.key_input, ..a } && b.key_input@
                == text::popped(a.key_input@),
            Key::Char(c) => if a.key_input@.len() < 40 {
                b == App::<C> { key_input: b.key_input, ..a } && b.key_input@ == a.key_input@.push(
                    c,
                )
            } else {
                b == a
            },
            _ => b == a,
        }
    }
}

/// The screen of a live app.
pub open spec fn live_key<C>(a: App<C>, k: Key, b: App<C>, act: KeyAction) -> bool {
    if a.confirm_destroy {
        if is_yes(k) && a.client is Some && a.sandbox_id is Some {
            &&& b == App::<C> { confirm_destroy: false, busy: b.busy, screen: Screen::Apps, ..a }
            &&& b.busy matches Some(t) && t@ == "borrando…"@
            &&& act matches KeyAction::Destroy { id } && a.sandbox_id == Some(id)
        } else {
            b == App::<C> { confirm_destroy: false, ..a } && nothing(act)
        }
    } else if k == Key::Char('q') {
        b == quit(a) && nothing(act)
    } else if k == Key::Char('o') {
        b == a && match a.url {
            Some(u) => (act matches KeyAction::OpenBrowser { url } && url == u),
            None => nothing(act),
        }
    } else if k == Key::Char('b') || k == Key::Esc {
        if a.client is Some {
            &&& b == App::<C> { screen: Screen::Apps, busy: b.busy, ..a }
            &&& b.busy matches Some(t) && t@ == "actualizando…"@
            &&& act is ReloadApps
        } else {
            b == App::<C> { screen: Screen::Apps, ..a } && nothing(act)
        }
    } else if k == Key::Char('d') {
        b == App::<C> { confirm_destroy: true, ..a } && nothing(act)
    } else {
        b == a && nothing(act)
    }
}

/// The repository screen: typing edits the repository, Enter publishes it
/// (when it is not blank), Esc goes back to the panel.
pub open spec fn create_key<C>(a: App<C>, k: Key, b: App<C>, act: KeyAction) -> bool {
    match k {
        Key::Char(c) => {
            &&& b == App::<C> { repo_input: b.repo_input, ..a }
            &&& b.repo_input@ == a.repo_input@.push(c)
            &&& nothing(act)
        },
        Key::Backspace => {
            &&& b == App::<C> { repo_input: b.repo_input, ..a }
            &&& b.repo_input@ == text::popped(a.repo_input@)
            &&& nothing(act)
        },
        Key::Enter => b == a && if text::trim(a.repo_input@).len() > 0 {
            act matches KeyAction::Create { repo } && repo@ == text::trim(a.repo_input@)
        } else {
            nothing(act)
        },
        Key::Esc => b == App::<C> { screen: Screen::Apps, ..a } && nothing(act),
        _ => b == a && nothing(act),
    }
}

/// The agent's screen: Esc always cancels the agent and returns to the panel.
pub open spec fn agent_key<C>(a: App<C>, k: Key, b: App<C>, act: KeyAction) -> bool {
    if k == Key::Esc {
        &&& nothing(act)
        &&& b.screen == Screen::Apps
        &&& state::agent_cancelled(a, App::<C> { screen: a.screen, ..b })
    } else {
        b == a && nothing(act)
    }
}

/// What a key press does on the current screen. The deploy progress and
/// error screens only quit with Esc; the env and log screens ignore keys.
pub open spec fn key_handled<C>(a: App<C>, k: Key, b: App<C>, act: KeyAction) -> bool {
    match a.screen {
        Screen::KeyEntry => key_entry_key(a, k, b, act),
        Screen::Apps => apps_key(a, k, b, act),
        Screen::Consent => consent_key(a, k, b, act),
        Screen::Customize => customize_key(a, k, b, act),
        Screen::Launching | Screen::Error => nothing(act) && b == if k == Key::Esc {
            quit(a)
        } else {
            a
        },
        Screen::Live => live_key(a, k, b, act),
        Screen::Create => create_key(a, k, b, act),
        Screen::Agent => agent_key(a, k, b, act),
        _ => b == a && nothing(act),
    }
}

fn str_of(s: &str) -> (r: String)
    ensures
        r@ == s@,
{
    let mut r = String::new();
    text::push_str(&mut r, s);
    r
}

/// Validates the pasted key and loads the panel (the same path as sign-in).
pub fn submit_key<C>(app: &mut App<C>) -> (act: KeyAction)
    ensures
        key_submitted(*old(app), *final(app), act),
{
    let key = text::trim_str(app.key_input.as_str());
    if key.as_str().unicode_len() == 0 || app.auth_busy {
        return KeyAction::Nothing;
    }
    app.error = None;
    app.auth_busy = true;
    app.auth_status = str_of("validando…");
    KeyAction::SubmitKey { key }
}

fn key_entry<C>(app: &mut App<C>, k: Key) -> (act: KeyAction)
    requires
        old(app).screen == Screen::KeyEntry,
    ensures
        key_entry_key(*old(app), k, *final(app), act),
{
    if app.auth_busy {
        if k == Key::Esc {
            app.should_quit = true;
        }
        return KeyAction::Nothing;
    }
    if app.paste_mode {
        match k {
            Key::Esc => {
                app.should_quit = true;
                KeyAction::Nothing
            },
            Key::Enter => submit_key(app),
            Key::Backspace => {
                text::pop_char(&mut app.key_input);
                KeyAction::Nothing
            },
            Key::Char(c) => {
                if !text::is_whitespace(c) {
                    text::push_char(&mut app.key_input, c);
                }
                KeyAction::Nothing
            },
            _ => KeyAction::Nothing,
        }
    } else {
        match k {
            Key::Enter => {
                app.error = None;
                app.auth_busy = true;
                app.auth_status = str_of("abriendo el navegador…");
                KeyAction::StartOAuth
            },
            Key::Char('k') | Key::Char('K') => {
                app.error = None;
                app.paste_mode = true;
                KeyAction::Nothing
            },
            Key::Esc => {
                app.should_quit = true;
                KeyAction::Nothing
            },
            _ => KeyAction::Nothing,
        }
    }
}

/// Stepping a cursor `c` of a ring of `n` places backwards and forwards.
proof fn lemma_ring_step(c: int, n: int)
    requires
        0 <= c < n,
    ensures
        (c + n - 1) % n == (if c == 0 {
            n - 1
        } else {
            c - 1
        }),
        (c + 1) % n == (if c + 1 == n {
            0
        } else {
            c + 1
        }),
{
    if c == 0 {
        vstd::arithmetic::div_mod::lemma_small_mod((n - 1) as nat, n as nat);
    } else {
        vstd::arithmetic::div_mod::lemma_mod_add_multiples_vanish(c - 1, n);
        vstd::arithmetic::div_mod::lemma_small_mod((c - 1) as nat, n as nat);
    }
    if c + 1 == n {
        vstd::arithmetic::div_mod::lemma_mod_self_0(n);
    } else {
        vstd::arithmetic::div_mod::lemma_small_mod((c + 1) as nat, n as nat);
    }
}

fn yes_key(k: Key) -> (r: bool)
    ensures
        r == is_yes(k),
{
    match k {
        Key::Char('s') | Key::Char('S') | Key::Char('y') | Key::Char('Y') => true,
        _ => false,
    }
}

fn apps_panel<C>(app: &mut App<C>, k: Key) -> (act: KeyAction)
    requires
        old(app).screen == Screen::Apps,
        state::well_formed(*old(app)),
    ensures
        apps_key(*old(app), k, *final(app), act),
{
    let n = app.apps.len();
    if app.confirm_destroy {
        app.confirm_destroy = false;
        if yes_key(k) && n > 0 && app.client.is_some() {
            let id = app.apps[app.apps_cursor].id.clone();
            app.busy = Some(str_of("borrando…"));
            return KeyAction::Destroy { id };
        }
        return KeyAction::Nothing;
    }
    if k == Key::Char('c') || k == Key::Char('C') || (k == Key::Enter && n == 0) {
        app.key_input = String::new();
        app.logo_input = String::new();
        app.accent_idx = 0;
        let mut hash = String::new();
        text::push_char(&mut hash, '#');
        app.custom_hex = hash;
        app.focus = 0;
        app.screen = Screen::Consent;
        return KeyAction::Nothing;
    }
    if k == Key::Char('q') || k == Key::Esc {
        app.should_quit = true;
        KeyAction::Nothing
    } else if k == Key::Up && n > 0 {
        let c = app.apps_cursor;
        app.apps_cursor = if c == 0 {
            n - 1
        } else {
            c - 1
        };
        proof {
            lemma_ring_step(c as int, n as int);
        }
        KeyAction::Nothing
    } else if k == Key::Down && n > 0 {
        let c = app.apps_cursor;
        app.apps_cursor = if c + 1 == n {
            0
        } else {
            c + 1
        };
        proof {
            lemma_ring_step(c as int, n as int);
        }
        KeyAction::Nothing
    } else if k == Key::Enter && n > 0 {
        let url = app.apps[app.apps_cursor].url.clone();
        let id = app.apps[app.apps_cursor].id.clone();
        app.url = Some(url);
        app.sandbox_id = Some(id);
        app.live_at = None;
        app.screen = Screen::Live;
        KeyAction::Nothing
    } else if k == Key::Char('o') && n > 0 {
        KeyAction::OpenBrowser { url: app.apps[app.apps_cursor].url.clone() }
    } else if k == Key::Char('d') && n > 0 {
        app.confirm_destroy = true;
        KeyAction::Nothing
    } else {
        KeyAction::Nothing
    }
}

fn consent<C>(app: &mut App<C>, k: Key) -> (act: KeyAction)
    requires
        old(app).screen == Screen::Consent,
    ensures
        consent_key(*old(app), k, *final(app), act),
{
    match k {
        Key::Char('y') | Key::Char('Y') => {
            app.key_input = String::new();
            app.screen = Screen::Customize;
        },
        Key::Char('n') | Key::Char('N') | Key::Esc => {
            app.screen = Screen::Apps;
        },
        _ => {},
    }
    KeyAction::Nothing
}

fn color_row<C>(app: &mut App<C>, k: Key)
    requires
        state::well_formed(*old(app)),
    ensures
        color_key(*old(app), k, *final(app)),
{
    let custom = app.accent_idx == naming::CUSTOM_ACCENT;
    proof {
        lemma_ring_step(app.accent_idx as int, accent_choices());
    }
    match k {
        Key::Left => {
            app.accent_idx = if app.accent_idx == 0 {
                naming::CUSTOM_ACCENT
            } else {
                app.accent_idx - 1
            };
        },
        Key::Right => {
            app.accent_idx = if custom {
                0
            } else {
                app.accent_idx + 1
            };
        },
        Key::Backspace => {
            if custom {
                text::pop_char(&mut app.custom_hex);
            }
        },
        Key::Char(c) => {
            if custom && (c == '#' || text::is_hex_digit(c)) && app.custom_hex.as_str().unicode_len()
                < 7 {
                text::push_char(&mut app.custom_hex, c);
            }
        },
        _ => {},
    }
}

fn customize<C>(app: &mut App<C>, k: Key) -> (act: KeyAction)
    requires
        old(app).screen == Screen::Customize,
        state::well_formed(*old(app)),
    ensures
        customize_key(*old(app), k, *final(app), act),
{
    proof {
        lemma_ring_step(app.focus as int, FOCUS_COUNT as int);
    }
    if k == Key::Esc {
        app.screen = Screen::Apps;
        KeyAction::Nothing
    } else if k == Key::Tab || k == Key::Down {
        app.focus = if app.focus + 1 == FOCUS_COUNT {
            0
        } else {
            app.focus + 1
        };
        KeyAction::Nothing
    } else if k == Key::Up {
        app.focus = if app.focus == 0 {
            FOCUS_COUNT - 1
        } else {
            app.focus - 1
        };
        KeyAction::Nothing
    } else if k == Key::Enter && app.focus != FOCUS_PUBLISH {
        app.focus = app.focus + 1;
        KeyAction::Nothing
    } else if k == Key::Enter {
        if app.client.is_some() {
            app.app_name = app.key_input.clone();
            let accent = state::chosen_accent(app);
            let logo = app.logo_input.clone();
            let app_name = app.app_name.clone();
            app.start_launch();
            KeyAction::Launch { app_name, accent, logo }
        } else {
            KeyAction::Nothing
        }
    } else if app.focus == FOCUS_COLOR {
        color_row(app, k);
        KeyAction::Nothing
    } else if app.focus == FOCUS_LOGO {
        match k {
            Key::Backspace => text::pop_char(&mut app.logo_input),
            Key::Char(c) => text::push_char(&mut app.logo_input, c),
            _ => {},
        }
        KeyAction::Nothing
    } else {
        match k {
            Key::Backspace => text::pop_char(&mut app.key_input),
            Key::Char(c) => {
                if app.key_input.as_str().unicode_len() < 40 {
                    text::push_char(&mut app.key_input, c);
                }
            },
            _ => {},
        }
        KeyAction::Nothing
    }
}

fn live<C>(app: &mut App<C>, k: Key) -> (act: KeyAction)
    requires
        old(app).screen == Screen::Live,
    ensures
        live_key(*old(app), k, *final(app), act),
{
    if app.confirm_destroy {
        app.confirm_destroy = false;
        if yes_key(k) && app.client.is_some() {
            match app.sandbox_id.clone() {
                Some(id) => {
                    app.busy = Some(str_of("borrando…"));
                    app.screen = Screen::Apps;
                    return KeyAction::Destroy { id };
                },
                None => {},
            }
        }
        return KeyAction::Nothing;
    }
    if k == Key::Char('q') {
        app.should_quit = true;
        KeyAction::Nothing
    } else if k == Key::Char('o') {
        match app.url.clone() {
            Some(url) => KeyAction::OpenBrowser { url },
            None => KeyAction::Nothing,
        }
    } else if k == Key::Char('b') || k == Key::Esc {
        app.screen = Screen::Apps;
        if app.client.is_some() {
            app.busy = Some(str_of("actualizando…"));
            KeyAction::ReloadApps
        } else {
            KeyAction::Nothing
        }
    } else if k == Key::Char('d') {
        app.confirm_destroy = true;
        KeyAction::Nothing
    } else {
        KeyAction::Nothing
    }
}

fn create<C>(app: &mut App<C>, k: Key) -> (act: KeyAction)
    requires
        old(app).screen == Screen::Create,
    ensures
        create_key(*old(app), k, *final(app), act),
{
    match k {
        Key::Char(c) => {
            text::push_char(&mut app.repo_input, c);
            KeyAction::Nothing
        },
        Key::Backspace => {
            text::pop_char(&mut app.repo_input);
            KeyAction::Nothing
        },
        Key::Enter => {
            let repo = text::trim_str(app.repo_input.as_str());
            if repo.as_str().unicode_len() > 0 {
                KeyAction::Create { repo }
            } else {
                KeyAction::Nothing
            }
        },
        Key::Esc => {
            app.screen = Screen::Apps;
            KeyAction::Nothing
        },
        _ => KeyAction::Nothing,
    }
}

fn agent<C>(app: &mut App<C>, k: Key) -> (act: KeyAction)
    requires
        old(app).screen == Screen::Agent,
    ensures
        agent_key(*old(app), k, *final(app), act),
{
    if k == Key::Esc {
        app.cancel_agent();
        app.screen = Screen::Apps;
    }
    KeyAction::Nothing
}

/// Handles a key press on the current screen; the returned action is the
/// background work the UI loop must start (it holds the API client).
pub fn handle_key<C>(app: &mut App<C>, k: Key) -> (act: KeyAction)
    requires
        state::well_formed(*old(app)),
    ensures
        key_handled(*old(app), k, *final(app), act),
        state::well_formed(*final(app)),
{
    match app.screen {
        Screen::KeyEntry => key_entry(app, k),
        Screen::Apps => apps_panel(app, k),
        Screen::Consent => consent(app, k),
        Screen::Customize => customize(app, k),
        Screen::Launching | Screen::Error => {
            if k == Key::Esc {
                app.should_quit = true;
            }
            KeyAction::Nothing
        },
        Screen::Live => live(app, k),
        Screen::Create => create(app, k),
        Screen::Agent => agent(app, k),
        _ => KeyAction::Nothing,
    }
}

/// The effect of pasted text: on the key screen the key (without white
/// space) is appended and submitted; on Customize the text (without line
/// breaks) goes to the logo field, or trimmed to the name field; on the
/// repository screen it (without line breaks) is appended to the repository.
pub open spec fn pasted<C>(a: App<C>, t: Seq<char>, b: App<C>, act: KeyAction) -> bool {
    if a.screen == Screen::KeyEntry && a.paste_mode {
        &&& b.key_input@ == a.key_input@ + t.filter(|c: char| !text::is_ws(c))
        &&& key_submitted(App::<C> { key_input: b.key_input, ..a }, b, act)
    } else if a.screen == Screen::Customize {
        let clean = t.filter(|c: char| c != '\n' && c != '\r');
        &&& nothing(act)
        &&& if a.focus == FOCUS_LOGO {
            b == App::<C> { logo_input: b.logo_input, ..a } && b.logo_input@ == a.logo_input@ + clean
        } else if a.focus == FOCUS_NAME {
            b == App::<C> { key_input: b.key_input, ..a } && b.key_input@ == a.key_input@
                + text::trim(clean)
        } else {
            b == a
        }
    } else if a.screen == Screen::Create {
        &&& nothing(act)
        &&& b == App::<C> { repo_input: b.repo_input, ..a }
        &&& b.repo_input@ == a.repo_input@ + t.filter(|c: char| c != '\n' && c != '\r')
    } else {
        b == a && nothing(act)
    }
}

/// Appends the characters of `t` that satisfy `keep_line` (or, with
/// `drop_ws`, those that are not white space).
fn filtered(t: &str, drop_ws: bool) -> (r: String)
    ensures
        drop_ws ==> r@ == t@.filter(|c: char| !text::is_ws(c)),
        !drop_ws ==> r@ == t@.filter(|c: char| c != '\n' && c != '\r'),
{
    let v = text::chars_of(t);
    let mut r = String::new();
    let mut i: usize = 0;
    while i < v.len()
        invariant
            v@ == t@,
            i <= v@.len(),
            drop_ws ==> r@ == v@.take(i as int).filter(|c: char| !text::is_ws(c)),
            !drop_ws ==> r@ == v@.take(i as int).filter(|c: char| c != '\n' && c != '\r'),
        decreases v@.len() - i,
    {
        let c = v[i];
        let keep = if drop_ws {
            !text::is_whitespace(c)
        } else {
            c != '\n' && c != '\r'
        };
        if keep {
            text::push_char(&mut r, c);
        }
        proof {
            let s = v@.take(i + 1);
            assert(s.drop_last() =~= v@.take(i as int));
            assert(s.last() == c);
            assert(s.filter(|c: char| !text::is_ws(c)) == s.drop_last().filter(|c: char| !text::is_ws(c)) + if !text::is_ws(c) { seq![c] } else { Seq::<char>::empty() }) by {
                reveal(Seq::filter);
            }
            assert(s.filter(|c: char| c != '\n' && c != '\r') == s.drop_last().filter(|c: char| c != '\n' && c != '\r') + if c != '\n' && c != '\r' { seq![c] } else { Seq::<char>::empty() }) by {
                reveal(Seq::filter);
            }
        }
        i = i + 1;
    }
    assert(v@.take(v@.len() as int) =~= v@);
    r
}

/// Handles pasted text (the terminal sends a paste as one event).
pub fn paste<C>(app: &mut App<C>, t: &str) -> (act: KeyAction)
    ensures
        pasted(*old(app), t@, *final(app), act),
{
    if app.screen == Screen::KeyEntry && app.paste_mode {
        let keep = filtered(t, true);
        text::push_str(&mut app.key_input, keep.as_str());
        submit_key(app)
    } else if app.screen == Screen::Customize {
        let clean = filtered(t, false);
        if app.focus == FOCUS_LOGO {
            text::push_str(&mut app.logo_input, clean.as_str());
        } else if app.focus == FOCUS_NAME {
            text::push_trimmed(&mut app.key_input, clean.as_str());
        }
        KeyAction::Nothing
    } else if app.screen == Screen::Create {
        let clean = filtered(t, false);
        text::push_str(&mut app.repo_input, clean.as_str());
        KeyAction::Nothing
    } else {
        KeyAction::Nothing
    }
}

} // verus!
