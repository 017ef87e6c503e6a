//! User settings of the desktop launcher: which package runner fetches DSH,
//! which dist-tag of DSH is installed, and what closing the main window does.
//!
//! The defaults are pnpm, latest, and hiding to the tray on close. Every
//! value is validated on update; an invalid value falls back to pnpm, latest
//! or quit respectively. The settings are kept in an in-memory cache that is refreshed on
//! every save, so that a read after a save returns what was saved.
use vstd::prelude::*;
use crate::text::{owned, str_eq};

verus! {

/// Package runner: pnpm (the default).
pub const LAUNCHER_PNPM: &'static str = "pnpm";

/// Package runner: npx.
pub const LAUNCHER_NPX: &'static str = "npx";

/// Version channel (dist-tag): latest (the default).
pub const CHANNEL_LATEST: &'static str = "latest";

/// Version channel (dist-tag): next.
pub const CHANNEL_NEXT: &'static str = "next";

/// Version channel (dist-tag): alpha.
pub const CHANNEL_ALPHA: &'static str = "alpha";

/// Closing the main window quits (the fallback for an invalid value).
pub const CLOSE_QUIT: &'static str = "quit";

/// Closing the main window hides it to the tray (the default).
pub const CLOSE_TRAY: &'static str = "tray";

/// The persisted settings.
#[derive(Debug, Clone)]
pub struct Settings {
    /// `"pnpm"` or `"npx"`.
    pub launcher: String,
    /// `"latest"`, `"next"` or `"alpha"`.
    pub version_channel: String,
    /// `"tray"` (the default: closing hides to the tray) or `"quit"`.
    pub close_behavior: String,
}

/// The settings as character sequences.
pub struct SettingsView {
    pub launcher: Seq<char>,
    pub version_channel: Seq<char>,
    pub close_behavior: Seq<char>,
}

impl View for Settings {
    type V = SettingsView;

    open spec fn view(&self) -> SettingsView {
        SettingsView {
            launcher: self.launcher@,
            version_channel: self.version_channel@,
            close_behavior: self.close_behavior@,
        }
    }
}

impl PartialEq for Settings {
    fn eq(&self, other: &Self) -> (r: bool) {
        str_eq(self.launcher.as_str(), other.launcher.as_str()) && str_eq(
            self.version_channel.as_str(),
            other.version_channel.as_str(),
        ) && str_eq(self.close_behavior.as_str(), other.close_behavior.as_str())
    }
}

impl vstd::std_specs::cmp::PartialEqSpecImpl for Settings {
    open spec fn obeys_eq_spec() -> bool {
        true
    }

    open spec fn eq_spec(&self, other: &Self) -> bool {
        self@ == other@
    }
}

impl Eq for Settings {

}

/// The defaults: pnpm, latest, and hiding to the tray on close.
pub open spec fn default_view() -> SettingsView {
    SettingsView { launcher: "pnpm"@, version_channel: "latest"@, close_behavior: "tray"@ }
}

/// A launcher value after validation: `npx` and `pnpm` stay, anything else
/// becomes `pnpm`.
pub open spec fn normalized_launcher(v: Seq<char>) -> Seq<char> {
    if v == "npx"@ || v == "pnpm"@ {
        v
    } else {
        "pnpm"@
    }
}

/// A version channel after validation: `next` and `alpha` stay, anything
/// else becomes `latest`.
pub open spec fn normalized_channel(v: Seq<char>) -> Seq<char> {
    if v == "next"@ || v == "alpha"@ {
        v
    } else {
        "latest"@
    }
}

/// A close behaviour after validation: `tray` stays, anything else becomes
/// `quit`.
pub open spec fn normalized_close_behavior(v: Seq<char>) -> Seq<char> {
    if v == "tray"@ {
        v
    } else {
        "quit"@
    }
}

/// An optional new value replaces the old one after validation.
pub open spec fn updated(old: Seq<char>, new: Option<String>, norm: spec_fn(Seq<char>) -> Seq<char>) -> Seq<char> {
    match new {
        Some(v) => norm(v@),
        None => old,
    }
}

/// The settings after an update that gives some of the values.
pub open spec fn updated_view(
    current: SettingsView,
    launcher: Option<String>,
    version_channel: Option<String>,
    close_behavior: Option<String>,
) -> SettingsView {
    SettingsView {
        launcher: updated(current.launcher, launcher, |v: Seq<char>| normalized_launcher(v)),
        version_channel: updated(
            current.version_channel,
            version_channel,
            |v: Seq<char>| normalized_channel(v),
        ),
        close_behavior: updated(
            current.close_behavior,
            close_behavior,
            |v: Seq<char>| normalized_close_behavior(v),
        ),
    }
}

/// The settings used until the settings file has been read.
pub fn default_settings() -> (s: Settings)
    ensures
        s@ == default_view(),
{
    Settings {
        launcher: owned(LAUNCHER_PNPM),
        version_channel: owned(CHANNEL_LATEST),
        close_behavior: owned(CLOSE_TRAY),
    }
}

/// The close behaviour of a settings file that does not name one: hide to
/// the tray.
pub fn default_close_behavior() -> (s: String)
    ensures
        s@ == "tray"@,
{
    owned(CLOSE_TRAY)
}

impl Settings {
    /// Whether the runner is npx (any other value means pnpm).
    pub fn uses_npx(&self) -> (b: bool)
        ensures
            b == (self.launcher@ == "npx"@),
    {
        str_eq(self.launcher.as_str(), LAUNCHER_NPX)
    }

    /// Whether closing the main window hides it to the tray instead of quitting.
    pub fn close_to_tray(&self) -> (b: bool)
        ensures
            b == (self.close_behavior@ == "tray"@),
    {
        str_eq(self.close_behavior.as_str(), CLOSE_TRAY)
    }

    /// A copy of these settings.
    pub fn duplicate(&self) -> (s: Settings)
        ensures
            s@ == self@,
    {
        Settings {
            launcher: self.launcher.clone(),
            version_channel: self.version_channel.clone(),
            close_behavior: self.close_behavior.clone(),
        }
    }
}

/// Validates a launcher value; falls back to pnpm on invalid input.
pub fn normalize_launcher(v: &str) -> (r: String)
    ensures
        r@ == normalized_launcher(v@),
{
    if str_eq(v, LAUNCHER_NPX) || str_eq(v, LAUNCHER_PNPM) {
        owned(v)
    } else {
        owned(LAUNCHER_PNPM)
    }
}

/// Validates a version channel; falls back to latest on invalid input.
pub fn normalize_channel(v: &str) -> (r: String)
    ensures
        r@ == normalized_channel(v@),
{
    if str_eq(v, CHANNEL_NEXT) || str_eq(v, CHANNEL_ALPHA) {
        owned(v)
    } else {
        owned(CHANNEL_LATEST)
    }
}

/// Validates a close behaviour; falls back to quit on invalid input.
pub fn normalize_close_behavior(v: &str) -> (r: String)
    ensures
        r@ == normalized_close_behavior(v@),
{
    if str_eq(v, CLOSE_TRAY) {
        owned(v)
    } else {
        owned(CLOSE_QUIT)
    }
}

/// Applies an update that gives some of the values: each given value is
/// validated (an invalid one falls back: pnpm, latest, quit), the others are
/// kept.
pub fn update_settings(
    current: Settings,
    launcher: Option<String>,
    version_channel: Option<String>,
    close_behavior: Option<String>,
) -> (s: Settings)
    ensures
        s@ == updated_view(current@, launcher, version_channel, close_behavior),
        s@.launcher == (match launcher {
            Some(v) => if v@ == "npx"@ || v@ == "pnpm"@ { v@ } else { "pnpm"@ },
            None => current@.launcher,
        }),
        s@.version_channel == (match version_channel {
            Some(v) => if v@ == "next"@ || v@ == "alpha"@ { v@ } else { "latest"@ },
            None => current@.version_channel,
        }),
        s@.close_behavior == (match close_behavior {
            Some(v) => if v@ == "tray"@ { "tray"@ } else { "quit"@ },
            None => current@.close_behavior,
        }),
{
    proof {
        lemma_given_values_replace_old(current@, launcher, version_channel, close_behavior);
    }
    let mut s = current;
    match &launcher {
        Some(l) => s.launcher = normalize_launcher(l.as_str()),
        None => {},
    }
    match &version_channel {
        Some(c) => s.version_channel = normalize_channel(c.as_str()),
        None => {},
    }
    match &close_behavior {
        Some(cb) => s.close_behavior = normalize_close_behavior(cb.as_str()),
        None => {},
    }
    s
}

/// The in-memory copy of the settings file, so that reads never touch the
/// disk more than needed.
pub struct SettingsCache {
    cached: Option<Settings>,
}

/// The view of an optional settings value.
pub open spec fn opt_view(s: Option<Settings>) -> Option<SettingsView> {
    match s {
        Some(v) => Some(v@),
        None => None,
    }
}

impl View for SettingsCache {
    type V = Option<SettingsView>;

    closed spec fn view(&self) -> Option<SettingsView> {
        opt_view(self.cached)
    }
}

impl SettingsCache {
    /// A cache that holds nothing yet.
    pub fn new() -> (c: SettingsCache)
        ensures
            c@ is None,
    {
        SettingsCache { cached: None }
    }

    /// The cached settings, if the file has been read or written already.
    pub fn cached(&self) -> (s: Option<Settings>)
        ensures
            opt_view(s) == self@,
    {
        match &self.cached {
            Some(s) => Some(s.duplicate()),
            None => None,
        }
    }

    /// Fills the cache from what reading the settings file gave (`None` when
    /// the file could not be read or parsed: the defaults are used) and
    /// returns the settings now in effect.
    pub fn fill(&mut self, read: Option<Settings>) -> (s: Settings)
        ensures
            s@ == (match read {
                Some(r) => r@,
                None => default_view(),
            }),
            final(self)@ == Some(s@),
    {
        let s = match read {
            Some(r) => r,
            None => default_settings(),
        };
        self.cached = Some(s.duplicate());
        s
    }

    /// Records settings that were just written to the file.
    pub fn remember(&mut self, saved: &Settings)
        ensures
            final(self)@ == Some(saved@),
    {
        self.cached = Some(saved.duplicate());
    }
}

// ---- laws ----

/// Validation is idempotent, and its results are always valid values.
pub proof fn lemma_normalize_idempotent(v: Seq<char>)
    ensures
        normalized_launcher(normalized_launcher(v)) == normalized_launcher(v),
        normalized_channel(normalized_channel(v)) == normalized_channel(v),
        normalized_close_behavior(normalized_close_behavior(v)) == normalized_close_behavior(v),
        normalized_launcher(v) == "npx"@ || normalized_launcher(v) == "pnpm"@,
        normalized_channel(v) == "latest"@ || normalized_channel(v) == "next"@
            || normalized_channel(v) == "alpha"@,
        normalized_close_behavior(v) == "quit"@ || normalized_close_behavior(v) == "tray"@,
{
}

/// An update that gives no value changes nothing; an update only changes the
/// values it gives; applying the same update twice is the same as once.
pub proof fn lemma_update_laws(
    current: SettingsView,
    launcher: Option<String>,
    version_channel: Option<String>,
    close_behavior: Option<String>,
)
    ensures
        updated_view(current, None, None, None) == current,
        launcher is None ==> updated_view(current, launcher, version_channel, close_behavior).launcher
            == current.launcher,
        version_channel is None ==> updated_view(
            current,
            launcher,
            version_channel,
            close_behavior,
        ).version_channel == current.version_channel,
        close_behavior is None ==> updated_view(
            current,
            launcher,
            version_channel,
            close_behavior,
        ).close_behavior == current.close_behavior,
        updated_view(
            updated_view(current, launcher, version_channel, close_behavior),
            launcher,
            version_channel,
            close_behavior,
        ) == updated_view(current, launcher, version_channel, close_behavior),
{
    lemma_normalize_idempotent(current.launcher);
    match launcher {
        Some(l) => lemma_normalize_idempotent(l@),
        None => {},
    }
    match version_channel {
        Some(c) => lemma_normalize_idempotent(c@),
        None => {},
    }
    match close_behavior {
        Some(c) => lemma_normalize_idempotent(c@),
        None => {},
    }
}

/// Each value that an update gives replaces the old one, validated: a valid
/// value is taken as given (so choosing `quit`, `npx` or `next` takes
/// effect), an invalid one becomes the fallback; a value not given stays.
pub proof fn lemma_given_values_replace_old(
    current: SettingsView,
    launcher: Option<String>,
    version_channel: Option<String>,
    close_behavior: Option<String>,
)
    ensures
        updated_view(current, launcher, version_channel, close_behavior).launcher == (match launcher {
            Some(v) => if v@ == "npx"@ || v@ == "pnpm"@ { v@ } else { "pnpm"@ },
            None => current.launcher,
        }),
        updated_view(current, launcher, version_channel, close_behavior).version_channel == (
        match version_channel {
            Some(v) => if v@ == "next"@ || v@ == "alpha"@ { v@ } else { "latest"@ },
            None => current.version_channel,
        }),
        updated_view(current, launcher, version_channel, close_behavior).close_behavior == (
        match close_behavior {
            Some(v) => if v@ == "tray"@ { "tray"@ } else { "quit"@ },
            None => current.close_behavior,
        }),
{
}

} // verus!
