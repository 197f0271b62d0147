//! The desktop application's settings: the stored preferences, what the
//! settings screen shows, and how a save normalizes what was entered.
use vstd::prelude::*;
use crate::command::PyanpmService;
use crate::config::{GitRefKind, GitSourceOptions};
use crate::error::PyanpmError;
use crate::text::{clone_opt, opt_view, trim, trim_spec};

verus! {

/// A text field as entered: absent, or blank after trimming, means no value;
/// otherwise the trimmed text.
pub open spec fn normalized_text(o: Option<Seq<char>>) -> Option<Seq<char>> {
    match o {
        Some(s) => if trim_spec(s).len() == 0 {
            None
        } else {
            Some(trim_spec(s))
        },
        None => None,
    }
}

/// Normalizes an optional text field: trimmed, and `None` when blank.
pub fn normalize_optional_string(value: Option<String>) -> (r: Option<String>)
    ensures
        opt_view(r) == normalized_text(opt_view(value)),
{
    match value {
        Some(entry) => {
            let trimmed = trim(entry.as_str());
            if trimmed.unicode_len() == 0 {
                None
            } else {
                Some(String::from_str(trimmed))
            }
        },
        None => None,
    }
}

/// Normalizing twice is normalizing once.
pub proof fn lemma_normalize_optional_idempotent(o: Option<Seq<char>>)
    ensures
        normalized_text(normalized_text(o)) == normalized_text(o),
{
    if let Some(s) = o {
        if trim_spec(s).len() != 0 {
            crate::text::lemma_trim_is_trimmed(s);
            crate::text::lemma_trim_of_trimmed(trim_spec(s));
        }
    }
}

/// Notifications are on unless turned off.
pub fn default_notifications_enabled() -> (r: bool)
    ensures
        r,
{
    true
}

/// The plugins directory found on this machine, when it could be found.
pub fn detected_plugins_dir(resolved: Result<String, PyanpmError>) -> (r: Option<String>)
    ensures
        resolved matches Ok(d) ==> r == Some(d),
        resolved is Err ==> r is None,
{
    match resolved {
        Ok(d) => Some(d),
        Err(_) => None,
    }
}

/// The desktop application's stored preferences.
#[derive(Debug, Clone)]
pub struct DesktopPreferences {
    pub state_dir_override: Option<String>,
    pub plugins_dir_override: Option<String>,
    pub last_route: String,
    pub notifications_enabled: bool,
}

/// The preferences after loading: a missing route is `/`, a blank state
/// directory override is dropped, and a missing or blank plugins directory
/// override becomes the detected plugins directory.
pub open spec fn loaded_preferences(p: DesktopPreferences, detected: Option<String>) -> DesktopPreferences {
    DesktopPreferences {
        state_dir_override: match p.state_dir_override {
            Some(s) => if trim_spec(s@).len() == 0 { None } else { Some(s) },
            None => None,
        },
        plugins_dir_override: match p.plugins_dir_override {
            Some(s) => if trim_spec(s@).len() == 0 { detected } else { Some(s) },
            None => detected,
        },
        last_route: p.last_route,
        notifications_enabled: p.notifications_enabled,
    }
}

impl DesktopPreferences {
    /// The preferences of a first start: no state directory override, the
    /// detected plugins directory, the route `/` and notifications on.
    pub fn default_from_env(detected: Option<String>) -> (r: Self)
        ensures
            r.state_dir_override is None,
            r.plugins_dir_override == detected,
            r.last_route@ == "/"@,
            r.notifications_enabled,
    {
        DesktopPreferences {
            state_dir_override: None,
            plugins_dir_override: detected,
            last_route: String::from_str("/"),
            notifications_enabled: default_notifications_enabled(),
        }
    }

    /// The preferences to use from what was read of the preferences file
    /// (`None` when it could not be read or parsed).
    pub fn load(stored: Option<DesktopPreferences>, detected: Option<String>) -> (r: Self)
        ensures
            stored is None ==> (r.state_dir_override is None && r.plugins_dir_override == detected && r.last_route@ == "/"@ && r.notifications_enabled),
            stored matches Some(p) ==> {
                let q = loaded_preferences(p, detected);
                &&& r.state_dir_override == q.state_dir_override
                &&& r.plugins_dir_override == q.plugins_dir_override
                &&& r.last_route@ == if p.last_route@.len() == 0 { "/"@ } else { p.last_route@ }
                &&& r.notifications_enabled == p.notifications_enabled
            },
    {
        match stored {
            None => DesktopPreferences::default_from_env(detected),
            Some(p) => {
                let DesktopPreferences { state_dir_override, plugins_dir_override, last_route, notifications_enabled } = p;
                let last_route = if last_route.unicode_len() == 0 { String::from_str("/") } else { last_route };
                let state_dir_override = match state_dir_override {
                    Some(s) => if trim(s.as_str()).unicode_len() == 0 { None } else { Some(s) },
                    None => None,
                };
                let plugins_dir_override = match plugins_dir_override {
                    Some(s) => if trim(s.as_str()).unicode_len() == 0 { detected } else { Some(s) },
                    None => detected,
                };
                DesktopPreferences { state_dir_override, plugins_dir_override, last_route, notifications_enabled }
            },
        }
    }
}

/// What the settings screen shows.
#[derive(Debug, Clone)]
pub struct DesktopSettingsPayload {
    pub state_dir: String,
    pub default_state_dir: Option<String>,
    pub plugins_dir_override: Option<String>,
    pub detected_plugins_dir: Option<String>,
    pub last_route: String,
    pub notifications_enabled: bool,
}

/// The settings shown for `prefs`, given the detected plugins directory and
/// the default state directory.
pub open spec fn payload_spec(prefs: DesktopPreferences, detected: Option<String>, default_state_dir: Option<String>) -> (Seq<char>, Option<Seq<char>>, Option<Seq<char>>, Option<Seq<char>>, Seq<char>, bool) {
    (
        match prefs.state_dir_override {
            Some(s) => s@,
            None => match default_state_dir {
                Some(d) => d@,
                None => "Unavailable"@,
            },
        },
        opt_view(default_state_dir),
        match prefs.plugins_dir_override {
            Some(p) => Some(p@),
            None => opt_view(detected),
        },
        opt_view(detected),
        prefs.last_route@,
        prefs.notifications_enabled,
    )
}

/// The view of a payload, field by field.
pub open spec fn payload_view(p: DesktopSettingsPayload) -> (Seq<char>, Option<Seq<char>>, Option<Seq<char>>, Option<Seq<char>>, Seq<char>, bool) {
    (p.state_dir@, opt_view(p.default_state_dir), opt_view(p.plugins_dir_override), opt_view(p.detected_plugins_dir), p.last_route@, p.notifications_enabled)
}

/// The preferences a save stores, when the state directory can be resolved.
pub open spec fn saved_preferences(state_dir_override: Option<Seq<char>>, plugins_dir_override: Option<Seq<char>>, last_route: Seq<char>, notifications_enabled: bool, detected: Option<Seq<char>>) -> (Option<Seq<char>>, Option<Seq<char>>, Seq<char>, bool) {
    (
        normalized_text(state_dir_override),
        match normalized_text(plugins_dir_override) {
            Some(p) => Some(p),
            None => detected,
        },
        last_route,
        notifications_enabled,
    )
}

/// The view of stored preferences, field by field.
pub open spec fn prefs_view(p: DesktopPreferences) -> (Option<Seq<char>>, Option<Seq<char>>, Seq<char>, bool) {
    (opt_view(p.state_dir_override), opt_view(p.plugins_dir_override), p.last_route@, p.notifications_enabled)
}

/// The message of a save that cannot resolve the state directory.
pub open spec fn unresolved_state_dir_message() -> Seq<char> {
    "Failed to resolve the Global Config path."@
}

/// The desktop application's state: its preferences.
#[derive(Debug)]
pub struct AppState {
    pub preferences: DesktopPreferences,
}

impl AppState {
    /// The state over loaded preferences.
    pub fn new(preferences: DesktopPreferences) -> (r: Self)
        ensures
            r.preferences == preferences,
    {
        AppState { preferences }
    }

    /// The settings shown: the state directory override or else the default
    /// one (`Unavailable` when neither is known), the plugins directory
    /// override or else the detected one, the route and the notification
    /// switch.
    pub fn settings_payload(&self, detected: Option<String>, default_state_dir: Option<String>) -> (r: DesktopSettingsPayload)
        ensures
            payload_view(r) == payload_spec(self.preferences, detected, default_state_dir),
    {
        let state_dir = match &self.preferences.state_dir_override {
            Some(s) => s.clone(),
            None => match &default_state_dir {
                Some(d) => d.clone(),
                None => String::from_str("Unavailable"),
            },
        };
        let plugins_dir_override = match &self.preferences.plugins_dir_override {
            Some(p) => Some(p.clone()),
            None => clone_opt(&detected),
        };
        DesktopSettingsPayload {
            state_dir,
            default_state_dir,
            plugins_dir_override,
            detected_plugins_dir: detected,
            last_route: self.preferences.last_route.clone(),
            notifications_enabled: self.preferences.notifications_enabled,
        }
    }

    /// Saves new settings: the overrides are normalized, a missing plugins
    /// directory override falls back to the detected one, and the state
    /// directory must be known (from the override or the default) or nothing
    /// changes and the save fails.  The caller writes the preferences file
    /// after a success.
    pub fn update_preferences(&mut self, state_dir_override: Option<String>, plugins_dir_override: Option<String>, last_route: String, notifications_enabled: bool, detected: Option<String>, default_state_dir: Option<String>) -> (r: Result<DesktopSettingsPayload, String>)
        ensures
            (normalized_text(opt_view(state_dir_override)) is None && default_state_dir is None) <==> r is Err,
            r matches Err(m) ==> m@ == unresolved_state_dir_message() && final(self).preferences == old(self).preferences,
            r matches Ok(p) ==> {
                let saved = saved_preferences(opt_view(state_dir_override), opt_view(plugins_dir_override), last_route@, notifications_enabled, opt_view(detected));
                &&& prefs_view(final(self).preferences) == saved
                &&& p.state_dir@ == match saved.0 {
                    Some(s) => s,
                    None => default_state_dir->0@,
                }
                &&& opt_view(p.default_state_dir) == opt_view(default_state_dir)
                &&& opt_view(p.plugins_dir_override) == saved.1
                &&& opt_view(p.detected_plugins_dir) == opt_view(detected)
                &&& p.last_route@ == last_route@
                &&& p.notifications_enabled == notifications_enabled
            },
    {
        let normalized_state_dir_override = normalize_optional_string(state_dir_override);
        let normalized_plugins_dir_override = match normalize_optional_string(plugins_dir_override) {
            Some(p) => Some(p),
            None => clone_opt(&detected),
        };
        let state_dir = match &normalized_state_dir_override {
            Some(s) => s.clone(),
            None => match &default_state_dir {
                Some(d) => d.clone(),
                None => {
                    return Err(String::from_str("Failed to resolve the Global Config path."));
                },
            },
        };
        let payload = DesktopSettingsPayload {
            state_dir,
            default_state_dir,
            plugins_dir_override: clone_opt(&normalized_plugins_dir_override),
            detected_plugins_dir: detected,
            last_route: last_route.clone(),
            notifications_enabled,
        };
        self.preferences = DesktopPreferences {
            state_dir_override: normalized_state_dir_override,
            plugins_dir_override: normalized_plugins_dir_override,
            last_route,
            notifications_enabled,
        };
        Ok(payload)
    }

    /// The service over the state directory override, or else the default
    /// state directory, with the plugins directory override.
    pub fn service(&self, default_state_dir: Option<String>) -> (r: PyanpmService)
        requires
            self.preferences.state_dir_override is Some || default_state_dir is Some,
        ensures
            r.state_dir_view() == match self.preferences.state_dir_override {
                Some(s) => s@,
                None => default_state_dir->0@,
            },
            r.plugins_dir_override_view() == self.preferences.plugins_dir_override,
    {
        let state_dir = match &self.preferences.state_dir_override {
            Some(s) => s.clone(),
            None => match default_state_dir {
                Some(d) => d,
                None => String::new(),
            },
        };
        PyanpmService::new(state_dir, clone_opt(&self.preferences.plugins_dir_override))
    }
}

/// What the settings screen sends on save.
#[derive(Debug)]
pub struct SaveSettingsInput {
    pub state_dir_override: Option<String>,
    pub plugins_dir_override: Option<String>,
    pub last_route: String,
    pub notifications_enabled: bool,
}

/// Saves the settings of the settings screen (normalizing the overrides it
/// entered) and answers with the settings now shown.
pub fn save_settings(state: &mut AppState, input: SaveSettingsInput, detected: Option<String>, default_state_dir: Option<String>) -> (r: Result<DesktopSettingsPayload, String>)
    ensures
        (normalized_text(opt_view(input.state_dir_override)) is None && default_state_dir is None) <==> r is Err,
        r matches Err(m) ==> m@ == unresolved_state_dir_message() && final(state).preferences == old(state).preferences,
        r matches Ok(p) ==> {
            let saved = saved_preferences(opt_view(input.state_dir_override), opt_view(input.plugins_dir_override), input.last_route@, input.notifications_enabled, opt_view(detected));
            &&& prefs_view(final(state).preferences) == saved
            &&& opt_view(p.plugins_dir_override) == saved.1
            &&& p.last_route@ == input.last_route@
            &&& p.notifications_enabled == input.notifications_enabled
        },
{
    let ghost gs = opt_view(input.state_dir_override);
    let ghost gp = opt_view(input.plugins_dir_override);
    let SaveSettingsInput { state_dir_override, plugins_dir_override, last_route, notifications_enabled } = input;
    let s = normalize_optional_string(state_dir_override);
    let p = normalize_optional_string(plugins_dir_override);
    proof {
        lemma_normalize_optional_idempotent(gs);
        lemma_normalize_optional_idempotent(gp);
    }
    state.update_preferences(s, p, last_route, notifications_enabled, detected, default_state_dir)
}

/// After a successful save, the settings shown are exactly those the save
/// answered with.
pub proof fn lemma_saved_settings_read_back(state_dir_override: Option<Seq<char>>, plugins_dir_override: Option<Seq<char>>, last_route: Seq<char>, notifications_enabled: bool, detected: Option<String>, default_state_dir: Option<String>, prefs: DesktopPreferences, p: DesktopSettingsPayload)
    requires
        !(normalized_text(state_dir_override) is None && default_state_dir is None),
        prefs_view(prefs) == saved_preferences(state_dir_override, plugins_dir_override, last_route, notifications_enabled, opt_view(detected)),
        ({
            let saved = saved_preferences(state_dir_override, plugins_dir_override, last_route, notifications_enabled, opt_view(detected));
            &&& p.state_dir@ == match saved.0 {
                Some(s) => s,
                None => default_state_dir->0@,
            }
            &&& opt_view(p.default_state_dir) == opt_view(default_state_dir)
            &&& opt_view(p.plugins_dir_override) == saved.1
            &&& opt_view(p.detected_plugins_dir) == opt_view(detected)
            &&& p.last_route@ == last_route
            &&& p.notifications_enabled == notifications_enabled
        }),
    ensures
        payload_spec(prefs, detected, default_state_dir) == payload_view(p),
{
}

/// The input of the add-plugin form.
#[derive(Debug)]
pub struct AddPluginInput {
    pub plugin_ref: String,
    pub version: Option<String>,
    pub git_ref_kind: Option<GitRefKind>,
    pub git_ref: Option<String>,
    pub git_subdir: Option<String>,
}

/// The input of the source validation form.
#[derive(Debug)]
pub struct ValidateSourceInput {
    pub source_ref: String,
    pub git_ref_kind: Option<GitRefKind>,
    pub git_ref: Option<String>,
    pub git_subdir: Option<String>,
}

impl AddPluginInput {
    /// The git options entered.
    pub fn git_options(&self) -> (r: GitSourceOptions)
        ensures
            r.git_ref_kind == self.git_ref_kind,
            r.git_ref == self.git_ref,
            r.git_subdir == self.git_subdir,
    {
        GitSourceOptions { git_ref_kind: self.git_ref_kind, git_ref: clone_opt(&self.git_ref), git_subdir: clone_opt(&self.git_subdir) }
    }
}

impl ValidateSourceInput {
    /// The git options entered.
    pub fn git_options(&self) -> (r: GitSourceOptions)
        ensures
            r.git_ref_kind == self.git_ref_kind,
            r.git_ref == self.git_ref,
            r.git_subdir == self.git_subdir,
    {
        GitSourceOptions { git_ref_kind: self.git_ref_kind, git_ref: clone_opt(&self.git_ref), git_subdir: clone_opt(&self.git_subdir) }
    }
}

} // verus!
