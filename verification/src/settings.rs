//! The user's settings: how they are kept consistent and how each change is made.
use vstd::prelude::*;
use crate::dto::{ColorMode, LaunchBehavior, SettingsSnapshotDto, ThemeId, ThemeKind};
use crate::text::{char_is_hex, chars_of, is_hex_digit, owned};

verus! {

/// The settings held by the running application.
pub struct SettingsState {
    settings: SettingsSnapshotDto,
}

impl View for SettingsState {
    type V = SettingsSnapshotDto;

    closed spec fn view(&self) -> SettingsSnapshotDto {
        self.settings
    }
}

impl SettingsState {
    /// A store holding `settings`.
    pub fn new(settings: SettingsSnapshotDto) -> (r: Self)
        ensures
            r@ == settings,
    {
        SettingsState { settings }
    }

    /// A copy of the settings held.
    pub fn get(&self) -> (r: SettingsSnapshotDto)
        ensures
            r == self@,
    {
        self.settings.copy()
    }

    /// Replaces the settings held by `next`.
    pub fn set(&mut self, next: SettingsSnapshotDto)
        ensures
            final(self)@ == next,
    {
        self.settings = next;
    }
}

/// `#RRGGBB`: a `#` followed by six hexadecimal digits.
pub open spec fn hex_color(v: Seq<char>) -> bool {
    v.len() == 7 && v[0] == '#' && forall|i: int| 1 <= i < 7 ==> is_hex_digit(#[trigger] v[i])
}

/// Whether `value` is a `#RRGGBB` colour. (Six hexadecimal digits are ASCII,
/// so the count of characters and of bytes agree.)
pub fn is_valid_hex_color(value: &str) -> (r: bool)
    ensures
        r == hex_color(value@),
{
    let v = chars_of(value);
    if v.len() != 7 || v[0] != '#' {
        return false;
    }
    let mut i: usize = 1;
    while i < 7
        invariant
            v@ == value@,
            v@.len() == 7,
            1 <= i <= 7,
            forall|k: int| 1 <= k < i ==> is_hex_digit(#[trigger] v@[k]),
        decreases 7 - i,
    {
        if !char_is_hex(v[i]) {
            assert(!is_hex_digit(v@[i as int]));
            return false;
        }
        i = i + 1;
    }
    true
}

/// Settings that agree with themselves: the HeroUI family has only its
/// default theme, and only the HeroUI family takes an accent colour.
pub open spec fn settings_consistent(s: SettingsSnapshotDto) -> bool {
    &&& s.theme_kind == ThemeKind::Heroui ==> s.theme_id == ThemeId::Default
    &&& s.theme_kind != ThemeKind::Heroui ==> s.accent_color is None
}

/// Settings as loaded are repaired: a HeroUI family with a non-default theme
/// is read as Catppuccin; the HeroUI family gets its default theme, and any
/// other family loses its accent colour.
pub open spec fn normalized_settings(s: SettingsSnapshotDto) -> SettingsSnapshotDto {
    let kind = if s.theme_kind == ThemeKind::Heroui && s.theme_id != ThemeId::Default {
        ThemeKind::Catppuccin
    } else {
        s.theme_kind
    };
    if kind == ThemeKind::Heroui {
        SettingsSnapshotDto { theme_kind: kind, theme_id: ThemeId::Default, ..s }
    } else {
        SettingsSnapshotDto { theme_kind: kind, accent_color: None, ..s }
    }
}

/// Repairs settings as loaded.
pub fn normalize_settings(settings: SettingsSnapshotDto) -> (r: SettingsSnapshotDto)
    ensures
        r == normalized_settings(settings),
{
    let mut settings = settings;
    if settings.theme_kind == ThemeKind::Heroui && settings.theme_id != ThemeId::Default {
        settings.theme_kind = ThemeKind::Catppuccin;
    }
    if settings.theme_kind == ThemeKind::Heroui {
        settings.theme_id = ThemeId::Default;
    } else {
        settings.accent_color = None;
    }
    settings
}

/// Repaired settings are consistent, and repairing them again changes nothing;
/// consistent settings are left as they are.
pub proof fn lemma_normalize_settings(s: SettingsSnapshotDto)
    ensures
        settings_consistent(normalized_settings(s)),
        normalized_settings(normalized_settings(s)) == normalized_settings(s),
        settings_consistent(s) ==> normalized_settings(s) == s,
{
}

/// Why a theme change was refused.
#[derive(Clone, Copy, PartialEq, Eq, Structural)]
pub enum SettingsError {
    /// The accent colour is not written `#RRGGBB`.
    InvalidAccentColor,
    /// The Catppuccin family was chosen without one of its flavours.
    CatppuccinNeedsFlavor,
}

impl SettingsError {
    /// The message that reports this refusal.
    pub fn message(&self) -> (r: String)
        ensures
            r@ == match *self {
                SettingsError::InvalidAccentColor =>
                    "settings: accentColor must be a #RRGGBB hex color"@,
                SettingsError::CatppuccinNeedsFlavor =>
                    "settings: catppuccin theme requires latte, frappe, macchiato, or mocha"@,
            },
    {
        match self {
            SettingsError::InvalidAccentColor => owned(
                "settings: accentColor must be a #RRGGBB hex color",
            ),
            SettingsError::CatppuccinNeedsFlavor => owned(
                "settings: catppuccin theme requires latte, frappe, macchiato, or mocha",
            ),
        }
    }
}

/// The settings after choosing a theme: refused when the accent colour is not
/// `#RRGGBB` (checked first) or when Catppuccin comes without a flavour;
/// otherwise the family and colour mode as chosen, the HeroUI family with its
/// default theme and the accent colour, any other family with the chosen
/// theme and no accent colour.
pub open spec fn themed_settings(
    current: SettingsSnapshotDto,
    theme_kind: ThemeKind,
    theme_id: ThemeId,
    accent_color: Option<Seq<char>>,
    accent: Option<String>,
    color_mode: ColorMode,
) -> Result<SettingsSnapshotDto, SettingsError> {
    if accent_color matches Some(c) && !hex_color(c) {
        Err(SettingsError::InvalidAccentColor)
    } else if theme_kind == ThemeKind::Catppuccin && theme_id == ThemeId::Default {
        Err(SettingsError::CatppuccinNeedsFlavor)
    } else {
        Ok(
            SettingsSnapshotDto {
                theme_kind,
                theme_id: if theme_kind == ThemeKind::Heroui {
                    ThemeId::Default
                } else {
                    theme_id
                },
                accent_color: if theme_kind == ThemeKind::Heroui {
                    accent
                } else {
                    None
                },
                color_mode,
                ..current
            },
        )
    }
}

/// The settings after choosing a theme, or why the choice is refused.
pub fn set_theme(
    current: &SettingsSnapshotDto,
    theme_kind: ThemeKind,
    theme_id: ThemeId,
    accent_color: Option<String>,
    color_mode: ColorMode,
) -> (r: Result<SettingsSnapshotDto, SettingsError>)
    ensures
        r == themed_settings(
            *current,
            theme_kind,
            theme_id,
            crate::bus::opt_view(accent_color),
            accent_color,
            color_mode,
        ),
{
    match &accent_color {
        Some(c) => {
            if !is_valid_hex_color(c.as_str()) {
                return Err(SettingsError::InvalidAccentColor);
            }
        },
        None => {},
    }
    if theme_kind == ThemeKind::Catppuccin && theme_id == ThemeId::Default {
        return Err(SettingsError::CatppuccinNeedsFlavor);
    }
    let mut settings = current.copy();
    settings.theme_kind = theme_kind;
    settings.theme_id = if theme_kind == ThemeKind::Heroui {
        ThemeId::Default
    } else {
        theme_id
    };
    settings.accent_color = if theme_kind == ThemeKind::Heroui {
        accent_color
    } else {
        None
    };
    settings.color_mode = color_mode;
    Ok(settings)
}

/// A theme change that is accepted leaves the settings consistent, whatever
/// they were before.
pub proof fn lemma_theme_change_consistent(
    current: SettingsSnapshotDto,
    theme_kind: ThemeKind,
    theme_id: ThemeId,
    accent: Option<String>,
    color_mode: ColorMode,
)
    ensures
        themed_settings(
            current,
            theme_kind,
            theme_id,
            crate::bus::opt_view(accent),
            accent,
            color_mode,
        ) matches Ok(s) ==> settings_consistent(s) && normalized_settings(s) == s,
{
}

/// The settings after choosing whether to start on boot; nothing else changes.
pub fn set_autostart_enabled(current: &SettingsSnapshotDto, enabled: bool) -> (r:
    SettingsSnapshotDto)
    ensures
        r == (SettingsSnapshotDto { autostart_enabled: enabled, ..*current }),
{
    let mut settings = current.copy();
    settings.autostart_enabled = enabled;
    settings
}

/// The settings after choosing how to launch; nothing else changes.
pub fn set_launch_behavior(current: &SettingsSnapshotDto, launch_behavior: LaunchBehavior) -> (r:
    SettingsSnapshotDto)
    ensures
        r == (SettingsSnapshotDto { launch_behavior, ..*current }),
{
    let mut settings = current.copy();
    settings.launch_behavior = launch_behavior;
    settings
}

/// Whether the start-on-boot registration must change to reach `enabled`,
/// given whether it is registered now.
pub fn autostart_change_needed(enabled: bool, currently_enabled: bool) -> (r: bool)
    ensures
        r == (enabled != currently_enabled),
{
    enabled != currently_enabled
}

/// Choosing whether to start on boot, or how to launch, keeps consistent
/// settings consistent.
pub proof fn lemma_start_choices_keep_consistency(
    s: SettingsSnapshotDto,
    enabled: bool,
    launch_behavior: LaunchBehavior,
)
    requires
        settings_consistent(s),
    ensures
        settings_consistent(SettingsSnapshotDto { autostart_enabled: enabled, ..s }),
        settings_consistent(SettingsSnapshotDto { launch_behavior, ..s }),
{
}

} // verus!
