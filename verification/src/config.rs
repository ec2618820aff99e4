//! The settings while the application runs, and how its controls change them.
use vstd::prelude::*;

use crate::storage::{AppSettings, LyricsSource, SettingsModel, DEFAULT_OPACITY};
use crate::text::trim_text;

verus! {

/// The settings in use. The opacity is held by the bits of a 64-bit float.
#[derive(Debug)]
pub struct AppConfig {
    pub topmost: bool,
    pub auto_line_count: bool,
    pub max_lines: i32,
    pub background_opacity: u64,
    pub timing_offset_ms: i32,
    pub char_follow: bool,
    pub lyrics_source: LyricsSource,
    pub sp_dc: String,
    pub window_width: i32,
    pub window_height: i32,
    pub window_x: i32,
    pub window_y: i32,
}

impl View for AppConfig {
    type V = SettingsModel;

    open spec fn view(&self) -> SettingsModel {
        SettingsModel {
            topmost: self.topmost,
            auto_line_count: self.auto_line_count,
            max_lines: self.max_lines,
            background_opacity: self.background_opacity,
            timing_offset_ms: self.timing_offset_ms,
            char_follow: self.char_follow,
            lyrics_source: self.lyrics_source,
            sp_dc: self.sp_dc@,
            window_width: self.window_width,
            window_height: self.window_height,
            window_x: self.window_x,
            window_y: self.window_y,
        }
    }
}

impl vstd::std_specs::convert::FromSpecImpl<AppSettings> for AppConfig {
    open spec fn obeys_from_spec() -> bool {
        true
    }

    open spec fn from_spec(value: AppSettings) -> Self {
        AppConfig {
            topmost: value.topmost,
            auto_line_count: value.auto_line_count,
            max_lines: value.max_lines,
            background_opacity: value.background_opacity,
            timing_offset_ms: value.timing_offset_ms,
            char_follow: value.char_follow,
            lyrics_source: value.lyrics_source,
            sp_dc: value.sp_dc,
            window_width: value.window_width,
            window_height: value.window_height,
            window_x: value.window_x,
            window_y: value.window_y,
        }
    }
}

impl From<AppSettings> for AppConfig {
    fn from(value: AppSettings) -> (r: Self) {
        AppConfig {
            topmost: value.topmost,
            auto_line_count: value.auto_line_count,
            max_lines: value.max_lines,
            background_opacity: value.background_opacity,
            timing_offset_ms: value.timing_offset_ms,
            char_follow: value.char_follow,
            lyrics_source: value.lyrics_source,
            sp_dc: value.sp_dc,
            window_width: value.window_width,
            window_height: value.window_height,
            window_x: value.window_x,
            window_y: value.window_y,
        }
    }
}

impl vstd::std_specs::convert::FromSpecImpl<AppConfig> for AppSettings {
    open spec fn obeys_from_spec() -> bool {
        true
    }

    open spec fn from_spec(value: AppConfig) -> Self {
        AppSettings {
            topmost: value.topmost,
            auto_line_count: value.auto_line_count,
            max_lines: value.max_lines,
            background_opacity: value.background_opacity,
            timing_offset_ms: value.timing_offset_ms,
            char_follow: value.char_follow,
            lyrics_source: value.lyrics_source,
            sp_dc: value.sp_dc,
            window_width: value.window_width,
            window_height: value.window_height,
            window_x: value.window_x,
            window_y: value.window_y,
        }
    }
}

impl From<AppConfig> for AppSettings {
    fn from(value: AppConfig) -> (r: Self) {
        AppSettings {
            topmost: value.topmost,
            auto_line_count: value.auto_line_count,
            max_lines: value.max_lines,
            background_opacity: value.background_opacity,
            timing_offset_ms: value.timing_offset_ms,
            char_follow: value.char_follow,
            lyrics_source: value.lyrics_source,
            sp_dc: value.sp_dc,
            window_width: value.window_width,
            window_height: value.window_height,
            window_x: value.window_x,
            window_y: value.window_y,
        }
    }
}

/// Settings in use and saved settings are the same settings.
pub proof fn law_config_is_settings(settings: AppSettings, config: AppConfig)
    ensures
        <AppConfig as vstd::std_specs::convert::FromSpec<AppSettings>>::from_spec(settings)@
            == settings@,
        <AppSettings as vstd::std_specs::convert::FromSpec<AppConfig>>::from_spec(config)@
            == config@,
        <AppSettings as vstd::std_specs::convert::FromSpec<AppConfig>>::from_spec(
            <AppConfig as vstd::std_specs::convert::FromSpec<AppSettings>>::from_spec(settings),
        ) == settings,
        <AppConfig as vstd::std_specs::convert::FromSpec<AppSettings>>::from_spec(
            <AppSettings as vstd::std_specs::convert::FromSpec<AppConfig>>::from_spec(config),
        ) == config,
{
}

impl Default for AppConfig {
    fn default() -> (r: Self)
        ensures
            r@ == crate::storage::default_settings(),
    {
        AppConfig {
            topmost: true,
            auto_line_count: true,
            max_lines: 18,
            background_opacity: DEFAULT_OPACITY,
            timing_offset_ms: 0,
            char_follow: false,
            lyrics_source: LyricsSource::Lrclib,
            sp_dc: String::new(),
            window_width: 720,
            window_height: 560,
            window_x: 80,
            window_y: 80,
        }
    }
}

impl Clone for AppConfig {
    fn clone(&self) -> (r: Self)
        ensures
            r@ == self@,
    {
        AppConfig {
            topmost: self.topmost,
            auto_line_count: self.auto_line_count,
            max_lines: self.max_lines,
            background_opacity: self.background_opacity,
            timing_offset_ms: self.timing_offset_ms,
            char_follow: self.char_follow,
            lyrics_source: self.lyrics_source,
            sp_dc: self.sp_dc.clone(),
            window_width: self.window_width,
            window_height: self.window_height,
            window_x: self.window_x,
            window_y: self.window_y,
        }
    }
}

/// The settings with what their controls need: whether the controls are being
/// set by the program, so that their changes do not count, and whether the
/// lyrics have to be looked up afresh when the settings are closed.
#[derive(Debug)]
pub struct SettingsPanel {
    pub config: AppConfig,
    pub suppressed: bool,
    pub dirty: bool,
}

/// What a `SettingsPanel` stands for.
#[verifier::ext_equal]
pub struct PanelModel {
    pub config: SettingsModel,
    pub suppressed: bool,
    pub dirty: bool,
}

impl View for SettingsPanel {
    type V = PanelModel;

    open spec fn view(&self) -> PanelModel {
        PanelModel { config: self.config@, suppressed: self.suppressed, dirty: self.dirty }
    }
}

/// The panel after the lyrics source was picked by its name.
pub open spec fn with_source(p: PanelModel, id: Option<Seq<char>>) -> PanelModel {
    match id {
        Some(name) if !p.suppressed => PanelModel {
            config: SettingsModel {
                lyrics_source: crate::storage::source_named(name),
                ..p.config
            },
            dirty: true,
            ..p
        },
        _ => p,
    }
}

/// The panel after the cookie was typed.
pub open spec fn with_sp_dc(p: PanelModel, text: Seq<char>) -> PanelModel {
    if p.suppressed {
        p
    } else {
        PanelModel {
            config: SettingsModel { sp_dc: crate::text::trim(text), ..p.config },
            dirty: p.dirty || p.config.lyrics_source == LyricsSource::SpotifyOfficial,
            ..p
        }
    }
}

/// The panel after it was said whether the window is to stay on top.
pub open spec fn with_topmost(p: PanelModel, active: bool) -> PanelModel {
    if p.suppressed {
        p
    } else {
        PanelModel { config: SettingsModel { topmost: active, ..p.config }, ..p }
    }
}

/// The panel after the opacity was set, by the bits of a 64-bit float.
pub open spec fn with_opacity(p: PanelModel, bits: u64) -> PanelModel {
    if p.suppressed {
        p
    } else {
        PanelModel { config: SettingsModel { background_opacity: bits, ..p.config }, ..p }
    }
}

/// The panel after the offset of the lyrics was set.
pub open spec fn with_offset(p: PanelModel, offset_ms: i32) -> PanelModel {
    if p.suppressed {
        p
    } else {
        PanelModel { config: SettingsModel { timing_offset_ms: offset_ms, ..p.config }, ..p }
    }
}

/// The panel after it was said whether characters are followed.
pub open spec fn with_char_follow(p: PanelModel, active: bool) -> PanelModel {
    if p.suppressed {
        p
    } else {
        PanelModel { config: SettingsModel { char_follow: active, ..p.config }, ..p }
    }
}

/// The panel after the settings were closed, and whether the lyrics have to be
/// looked up afresh.
pub open spec fn after_close(p: PanelModel) -> (PanelModel, bool) {
    (PanelModel { dirty: false, ..p }, p.dirty)
}

/// The smallest width and height of the window.
pub const MIN_WIDTH: i32 = 320;

pub const MIN_HEIGHT: i32 = 240;

/// The settings with the place and size of the window, no smaller than it can
/// be.
pub open spec fn with_geometry(
    s: SettingsModel,
    x: i32,
    y: i32,
    width: i32,
    height: i32,
) -> SettingsModel {
    SettingsModel {
        window_x: x,
        window_y: y,
        window_width: if width > MIN_WIDTH {
            width
        } else {
            MIN_WIDTH
        },
        window_height: if height > MIN_HEIGHT {
            height
        } else {
            MIN_HEIGHT
        },
        ..s
    }
}

/// A setting that decides where lyrics come from makes them be looked up
/// afresh.
pub proof fn law_source_settings_reload(p: PanelModel, id: Seq<char>, text: Seq<char>)
    requires
        !p.suppressed,
    ensures
        with_source(p, Some(id)).dirty,
        p.config.lyrics_source == LyricsSource::SpotifyOfficial ==> with_sp_dc(p, text).dirty,
        p.config.lyrics_source == LyricsSource::Lrclib ==> with_sp_dc(p, text).dirty == p.dirty,
{
}

/// Controls that the program sets change no setting.
pub proof fn law_suppressed_changes_nothing(p: PanelModel, id: Option<Seq<char>>, text: Seq<char>)
    requires
        p.suppressed,
    ensures
        with_source(p, id) == p,
        with_sp_dc(p, text) == p,
{
}

impl SettingsPanel {
    /// The panel for settings.
    pub fn new(config: AppConfig) -> (r: Self)
        ensures
            r@ == (PanelModel { config: config@, suppressed: false, dirty: false }),
    {
        SettingsPanel { config, suppressed: false, dirty: false }
    }

    /// Says whether the window is to stay on top; gives whether that counts.
    pub fn set_topmost(&mut self, active: bool) -> (r: bool)
        ensures
            r == !old(self)@.suppressed,
            final(self)@ == with_topmost(old(self)@, active),
            final(self)@ == if r {
                PanelModel {
                    config: SettingsModel { topmost: active, ..old(self)@.config },
                    ..old(self)@
                }
            } else {
                old(self)@
            },
    {
        if self.suppressed {
            return false;
        }
        self.config.topmost = active;
        true
    }

    /// Sets the opacity by the bits of a 64-bit float; gives whether that
    /// counts.
    pub fn set_background_opacity(&mut self, bits: u64) -> (r: bool)
        ensures
            r == !old(self)@.suppressed,
            final(self)@ == with_opacity(old(self)@, bits),
            final(self)@ == if r {
                PanelModel {
                    config: SettingsModel { background_opacity: bits, ..old(self)@.config },
                    ..old(self)@
                }
            } else {
                old(self)@
            },
    {
        if self.suppressed {
            return false;
        }
        self.config.background_opacity = bits;
        true
    }

    /// Sets the offset of the lyrics; gives whether that counts.
    pub fn set_timing_offset(&mut self, offset_ms: i32) -> (r: bool)
        ensures
            r == !old(self)@.suppressed,
            final(self)@ == with_offset(old(self)@, offset_ms),
            final(self)@ == if r {
                PanelModel {
                    config: SettingsModel { timing_offset_ms: offset_ms, ..old(self)@.config },
                    ..old(self)@
                }
            } else {
                old(self)@
            },
    {
        if self.suppressed {
            return false;
        }
        self.config.timing_offset_ms = offset_ms;
        true
    }

    /// Says whether characters are followed; gives whether that counts.
    pub fn set_char_follow(&mut self, active: bool) -> (r: bool)
        ensures
            r == !old(self)@.suppressed,
            final(self)@ == with_char_follow(old(self)@, active),
            final(self)@ == if r {
                PanelModel {
                    config: SettingsModel { char_follow: active, ..old(self)@.config },
                    ..old(self)@
                }
            } else {
                old(self)@
            },
    {
        if self.suppressed {
            return false;
        }
        self.config.char_follow = active;
        true
    }

    /// Picks the lyrics source by its name; gives whether that counts.
    pub fn set_lyrics_source(&mut self, active_id: Option<&str>) -> (r: bool)
        ensures
            r == (!old(self)@.suppressed && active_id is Some),
            final(self)@ == with_source(old(self)@, active_id.deep_view()),
    {
        if self.suppressed {
            return false;
        }
        match active_id {
            Some(id) => {
                self.config.lyrics_source = LyricsSource::from_db(id);
                self.dirty = true;
                true
            },
            None => false,
        }
    }

    /// Sets the Spotify cookie; gives whether that counts.
    pub fn set_sp_dc(&mut self, text: &str) -> (r: bool)
        ensures
            r == !old(self)@.suppressed,
            final(self)@ == with_sp_dc(old(self)@, text@),
    {
        if self.suppressed {
            return false;
        }
        self.config.sp_dc = trim_text(text);
        if self.config.lyrics_source == LyricsSource::SpotifyOfficial {
            self.dirty = true;
        }
        true
    }

    /// Notes where the window is.
    pub fn set_geometry(&mut self, x: i32, y: i32, width: i32, height: i32)
        ensures
            final(self)@ == (PanelModel {
                config: with_geometry(old(self)@.config, x, y, width, height),
                ..old(self)@
            }),
    {
        self.config.window_x = x;
        self.config.window_y = y;
        self.config.window_width = if width > MIN_WIDTH {
            width
        } else {
            MIN_WIDTH
        };
        self.config.window_height = if height > MIN_HEIGHT {
            height
        } else {
            MIN_HEIGHT
        };
    }

    /// Closes the settings: gives whether the lyrics have to be looked up
    /// afresh, once.
    pub fn close(&mut self) -> (r: bool)
        ensures
            (final(self)@, r) == after_close(old(self)@),
            r == old(self)@.dirty,
            final(self)@ == (PanelModel { dirty: false, ..old(self)@ }),
    {
        let dirty: bool = self.dirty;
        self.dirty = false;
        dirty
    }
}

} // verus!
