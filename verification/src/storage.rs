//! What is kept between runs: settings and lyrics.
use vstd::prelude::*;

use crate::lyrics::LyricsCandidate;
use crate::spotify::TrackInfo;
use crate::text::same_text;

verus! {

/// Where lyrics come from.
#[derive(Debug, Clone, Copy, PartialEq, Eq, Structural)]
pub enum LyricsSource {
    Lrclib,
    SpotifyOfficial,
}

/// The name under which a source is kept.
pub open spec fn source_name(source: LyricsSource) -> Seq<char> {
    match source {
        LyricsSource::Lrclib => "lrclib"@,
        LyricsSource::SpotifyOfficial => "spotify_official"@,
    }
}

/// The source that a name stands for; a name that stands for none is taken as
/// LRCLIB.
pub open spec fn source_named(name: Seq<char>) -> LyricsSource {
    if name == "spotify_official"@ {
        LyricsSource::SpotifyOfficial
    } else {
        LyricsSource::Lrclib
    }
}

impl Default for LyricsSource {
    fn default() -> (r: Self)
        ensures
            r == LyricsSource::Lrclib,
    {
        LyricsSource::Lrclib
    }
}

impl LyricsSource {
    /// The name under which the source is kept.
    pub fn as_str(self) -> (r: &'static str)
        ensures
            r@ == source_name(self),
    {
        match self {
            LyricsSource::Lrclib => "lrclib",
            LyricsSource::SpotifyOfficial => "spotify_official",
        }
    }

    /// The source that a kept name stands for.
    pub fn from_db(value: &str) -> (r: Self)
        ensures
            r == source_named(value@),
    {
        if same_text(value, "spotify_official") {
            LyricsSource::SpotifyOfficial
        } else {
            LyricsSource::Lrclib
        }
    }
}

/// A source that is kept by its name is read back as that source.
pub proof fn law_source_reads_back(source: LyricsSource)
    ensures
        source_named(source_name(source)) == source,
{
    reveal_strlit("lrclib");
    reveal_strlit("spotify_official");
    assert("lrclib"@.len() != "spotify_official"@.len());
}

/// The lyrics that are kept for a track.
#[derive(Debug)]
pub struct CachedLyrics {
    pub track_key: String,
    pub selected_candidate_id: Option<i64>,
    pub candidates: Vec<LyricsCandidate>,
}

/// What `CachedLyrics` stand for.
#[verifier::ext_equal]
pub struct CachedModel {
    pub track_key: Seq<char>,
    pub selected_candidate_id: Option<i64>,
    pub candidates: Seq<crate::lyrics::CandidateModel>,
}

impl View for CachedLyrics {
    type V = CachedModel;

    open spec fn view(&self) -> CachedModel {
        CachedModel {
            track_key: self.track_key@,
            selected_candidate_id: self.selected_candidate_id,
            candidates: self.candidates.deep_view(),
        }
    }
}

impl DeepView for CachedLyrics {
    type V = CachedModel;

    open spec fn deep_view(&self) -> CachedModel {
        self@
    }
}

impl Clone for CachedLyrics {
    fn clone(&self) -> (r: Self)
        ensures
            r@ == self@,
    {
        let candidates: Vec<LyricsCandidate> = self.candidates.clone();
        assert(candidates.deep_view() =~= self.candidates.deep_view());
        CachedLyrics {
            track_key: self.track_key.clone(),
            selected_candidate_id: self.selected_candidate_id,
            candidates,
        }
    }
}

/// The columns under which the lyrics of a track are kept, but for the
/// candidates.
#[derive(Debug)]
pub struct CacheRow {
    pub track_key: String,
    pub artist: String,
    pub title: String,
    pub album: String,
    pub duration_ms: i64,
    pub selected_candidate_id: Option<i64>,
}

/// A number of 64 bits, read as one with a sign.
pub open spec fn as_signed(n: u64) -> int {
    if n <= i64::MAX {
        n as int
    } else {
        n - 0x1_0000_0000_0000_0000
    }
}

/// Reads a number of 64 bits as one with a sign.
pub fn to_signed(n: u64) -> (r: i64)
    ensures
        r == as_signed(n),
{
    if n <= i64::MAX as u64 {
        n as i64
    } else {
        (n as i128 - 0x1_0000_0000_0000_0000) as i64
    }
}

/// The columns for a track's lyrics.
pub fn cache_row(track_key: &str, track: &TrackInfo, selected_candidate_id: Option<i64>) -> (r:
    CacheRow)
    ensures
        r.track_key@ == track_key@,
        r.artist@ == track@.artist,
        r.title@ == track@.title,
        r.album@ == track@.album,
        r.duration_ms == as_signed(track@.duration_ms),
        r.selected_candidate_id == selected_candidate_id,
{
    CacheRow {
        track_key: track_key.to_owned(),
        artist: track.artist.clone(),
        title: track.title.clone(),
        album: track.album.clone(),
        duration_ms: to_signed(track.duration_ms),
        selected_candidate_id,
    }
}

/// The bits of the opacity 0.94.
pub const DEFAULT_OPACITY: u64 = 0x3fee_147a_e147_ae14;

/// The settings of the application. The opacity is held by the bits of a
/// 64-bit float.
#[derive(Debug)]
pub struct AppSettings {
    pub topmost: bool,
    pub auto_line_count: bool,
    pub max_lines: i32,
    pub background_opacity: u64,
    pub timing_offset_ms: i32,
    pub char_follow: bool,
    pub lyrics_source: LyricsSource,
    pub sp_dc: String,
    pub window_width: i32,
    pub window_height: i32,
    pub window_x: i32,
    pub window_y: i32,
}

/// What `AppSettings` stand for.
#[verifier::ext_equal]
pub struct SettingsModel {
    pub topmost: bool,
    pub auto_line_count: bool,
    pub max_lines: i32,
    pub background_opacity: u64,
    pub timing_offset_ms: i32,
    pub char_follow: bool,
    pub lyrics_source: LyricsSource,
    pub sp_dc: Seq<char>,
    pub window_width: i32,
    pub window_height: i32,
    pub window_x: i32,
    pub window_y: i32,
}

impl View for AppSettings {
    type V = SettingsModel;

    open spec fn view(&self) -> SettingsModel {
        SettingsModel {
            topmost: self.topmost,
            auto_line_count: self.auto_line_count,
            max_lines: self.max_lines,
            background_opacity: self.background_opacity,
            timing_offset_ms: self.timing_offset_ms,
            char_follow: self.char_follow,
            lyrics_source: self.lyrics_source,
            sp_dc: self.sp_dc@,
            window_width: self.window_width,
            window_height: self.window_height,
            window_x: self.window_x,
            window_y: self.window_y,
        }
    }
}

/// The settings before any were saved.
pub open spec fn default_settings() -> SettingsModel {
    SettingsModel {
        topmost: true,
        auto_line_count: true,
        max_lines: 18,
        background_opacity: DEFAULT_OPACITY,
        timing_offset_ms: 0,
        char_follow: false,
        lyrics_source: LyricsSource::Lrclib,
        sp_dc: Seq::empty(),
        window_width: 720,
        window_height: 560,
        window_x: 80,
        window_y: 80,
    }
}

impl Default for AppSettings {
    fn default() -> (r: Self)
        ensures
            r@ == default_settings(),
    {
        AppSettings {
            topmost: true,
            auto_line_count: true,
            max_lines: 18,
            background_opacity: DEFAULT_OPACITY,
            timing_offset_ms: 0,
            char_follow: false,
            lyrics_source: LyricsSource::Lrclib,
            sp_dc: String::new(),
            window_width: 720,
            window_height: 560,
            window_x: 80,
            window_y: 80,
        }
    }
}

impl Clone for AppSettings {
    fn clone(&self) -> (r: Self)
        ensures
            r@ == self@,
    {
        AppSettings {
            topmost: self.topmost,
            auto_line_count: self.auto_line_count,
            max_lines: self.max_lines,
            background_opacity: self.background_opacity,
            timing_offset_ms: self.timing_offset_ms,
            char_follow: self.char_follow,
            lyrics_source: self.lyrics_source,
            sp_dc: self.sp_dc.clone(),
            window_width: self.window_width,
            window_height: self.window_height,
            window_x: self.window_x,
            window_y: self.window_y,
        }
    }
}

/// The columns of the saved settings. The opacity is held by the bits of a
/// 64-bit float.
#[derive(Debug)]
pub struct SettingsRow {
    pub topmost: i64,
    pub auto_line_count: i64,
    pub max_lines: i64,
    pub background_opacity: u64,
    pub timing_offset_ms: i64,
    pub char_follow: i64,
    pub lyrics_source: String,
    pub sp_dc: String,
    pub window_width: i64,
    pub window_height: i64,
    pub window_x: i64,
    pub window_y: i64,
}

/// What a `SettingsRow` stands for.
#[verifier::ext_equal]
pub struct RowModel {
    pub topmost: i64,
    pub auto_line_count: i64,
    pub max_lines: i64,
    pub background_opacity: u64,
    pub timing_offset_ms: i64,
    pub char_follow: i64,
    pub lyrics_source: Seq<char>,
    pub sp_dc: Seq<char>,
    pub window_width: i64,
    pub window_height: i64,
    pub window_x: i64,
    pub window_y: i64,
}

impl View for SettingsRow {
    type V = RowModel;

    open spec fn view(&self) -> RowModel {
        RowModel {
            topmost: self.topmost,
            auto_line_count: self.auto_line_count,
            max_lines: self.max_lines,
            background_opacity: self.background_opacity,
            timing_offset_ms: self.timing_offset_ms,
            char_follow: self.char_follow,
            lyrics_source: self.lyrics_source@,
            sp_dc: self.sp_dc@,
            window_width: self.window_width,
            window_height: self.window_height,
            window_x: self.window_x,
            window_y: self.window_y,
        }
    }
}

impl DeepView for SettingsRow {
    type V = RowModel;

    open spec fn deep_view(&self) -> RowModel {
        self@
    }
}

/// The low 32 bits of a number, read with their sign.
pub open spec fn low_bits(n: i64) -> int {
    let low = n as int % 0x1_0000_0000;
    if low < 0x8000_0000 {
        low
    } else {
        low - 0x1_0000_0000
    }
}

/// The settings that a saved row stands for.
pub open spec fn settings_in(row: RowModel) -> SettingsModel {
    SettingsModel {
        topmost: row.topmost != 0,
        auto_line_count: row.auto_line_count != 0,
        max_lines: low_bits(row.max_lines) as i32,
        background_opacity: row.background_opacity,
        timing_offset_ms: low_bits(row.timing_offset_ms) as i32,
        char_follow: row.char_follow != 0,
        lyrics_source: source_named(row.lyrics_source),
        sp_dc: row.sp_dc,
        window_width: low_bits(row.window_width) as i32,
        window_height: low_bits(row.window_height) as i32,
        window_x: low_bits(row.window_x) as i32,
        window_y: low_bits(row.window_y) as i32,
    }
}

/// A truth value as a column.
pub open spec fn flag(b: bool) -> i64 {
    if b {
        1
    } else {
        0
    }
}

/// The row under which settings are saved.
pub open spec fn row_of(s: SettingsModel) -> RowModel {
    RowModel {
        topmost: flag(s.topmost),
        auto_line_count: flag(s.auto_line_count),
        max_lines: s.max_lines as i64,
        background_opacity: s.background_opacity,
        timing_offset_ms: s.timing_offset_ms as i64,
        char_follow: flag(s.char_follow),
        lyrics_source: source_name(s.lyrics_source),
        sp_dc: s.sp_dc,
        window_width: s.window_width as i64,
        window_height: s.window_height as i64,
        window_x: s.window_x as i64,
        window_y: s.window_y as i64,
    }
}

/// Saved settings are read back as they were.
pub proof fn law_settings_read_back(s: SettingsModel)
    ensures
        settings_in(row_of(s)) == s,
{
    law_source_reads_back(s.lyrics_source);
}

/// The low 32 bits of a number, read with their sign.
fn to_low_bits(n: i64) -> (r: i32)
    ensures
        r == low_bits(n),
{
    let wide: i128 = n as i128;
    let mut low: i128 = wide % 0x1_0000_0000;
    if low < 0 {
        low = low + 0x1_0000_0000;
    }
    assert(low == n as int % 0x1_0000_0000);
    if low < 0x8000_0000 {
        low as i32
    } else {
        (low - 0x1_0000_0000) as i32
    }
}

/// The settings that were saved; the default ones where none were.
pub fn settings_from_row(row: Option<SettingsRow>) -> (r: AppSettings)
    ensures
        r@ == match row.deep_view() {
            Some(saved) => settings_in(saved),
            None => default_settings(),
        },
{
    match row {
        Some(row) => AppSettings {
            topmost: row.topmost != 0,
            auto_line_count: row.auto_line_count != 0,
            max_lines: to_low_bits(row.max_lines),
            background_opacity: row.background_opacity,
            timing_offset_ms: to_low_bits(row.timing_offset_ms),
            char_follow: row.char_follow != 0,
            lyrics_source: LyricsSource::from_db(row.lyrics_source.as_str()),
            sp_dc: row.sp_dc,
            window_width: to_low_bits(row.window_width),
            window_height: to_low_bits(row.window_height),
            window_x: to_low_bits(row.window_x),
            window_y: to_low_bits(row.window_y),
        },
        None => AppSettings::default(),
    }
}

fn to_flag(b: bool) -> (r: i64)
    ensures
        r == flag(b),
{
    if b {
        1
    } else {
        0
    }
}

/// The row under which settings are saved.
pub fn settings_to_row(settings: &AppSettings) -> (r: SettingsRow)
    ensures
        r@ == row_of(settings@),
{
    SettingsRow {
        topmost: to_flag(settings.topmost),
        auto_line_count: to_flag(settings.auto_line_count),
        max_lines: settings.max_lines as i64,
        background_opacity: settings.background_opacity,
        timing_offset_ms: settings.timing_offset_ms as i64,
        char_follow: to_flag(settings.char_follow),
        lyrics_source: settings.lyrics_source.as_str().to_owned(),
        sp_dc: settings.sp_dc.clone(),
        window_width: settings.window_width as i64,
        window_height: settings.window_height as i64,
        window_x: settings.window_x as i64,
        window_y: settings.window_y as i64,
    }
}

/// The columns that the table of settings has gained over time, each with the
/// statement that adds it.
pub open spec fn gained_columns() -> Seq<(Seq<char>, Seq<char>)> {
    seq![
        (
            "auto_line_count"@,
            "ALTER TABLE app_settings ADD COLUMN auto_line_count INTEGER NOT NULL DEFAULT 1"@,
        ),
        (
            "max_lines"@,
            "ALTER TABLE app_settings ADD COLUMN max_lines INTEGER NOT NULL DEFAULT 18"@,
        ),
        (
            "lyrics_source"@,
            "ALTER TABLE app_settings ADD COLUMN lyrics_source TEXT NOT NULL DEFAULT 'lrclib'"@,
        ),
        ("sp_dc"@, "ALTER TABLE app_settings ADD COLUMN sp_dc TEXT NOT NULL DEFAULT ''"@),
        (
            "window_width"@,
            "ALTER TABLE app_settings ADD COLUMN window_width INTEGER NOT NULL DEFAULT 720"@,
        ),
        (
            "window_height"@,
            "ALTER TABLE app_settings ADD COLUMN window_height INTEGER NOT NULL DEFAULT 560"@,
        ),
        (
            "window_x"@,
            "ALTER TABLE app_settings ADD COLUMN window_x INTEGER NOT NULL DEFAULT 80"@,
        ),
        (
            "window_y"@,
            "ALTER TABLE app_settings ADD COLUMN window_y INTEGER NOT NULL DEFAULT 80"@,
        ),
    ]
}

/// The statements among `wanted` for the columns that a table lacks.
pub open spec fn lacking(
    wanted: Seq<(Seq<char>, Seq<char>)>,
    columns: Seq<Seq<char>>,
) -> Seq<Seq<char>>
    decreases wanted.len(),
{
    if wanted.len() == 0 {
        Seq::empty()
    } else {
        let before = lacking(wanted.drop_last(), columns);
        if columns.contains(wanted.last().0) {
            before
        } else {
            before.push(wanted.last().1)
        }
    }
}

/// The statements that bring a table of settings with the given columns up to
/// date; a table without columns is not there and needs none.
pub open spec fn migration_of(columns: Seq<Seq<char>>) -> Seq<Seq<char>> {
    if columns.len() == 0 {
        Seq::empty()
    } else {
        lacking(gained_columns(), columns)
    }
}

proof fn lemma_lacking(
    wanted: Seq<(Seq<char>, Seq<char>)>,
    columns: Seq<Seq<char>>,
    statement: Seq<char>,
)
    ensures
        lacking(wanted, columns).contains(statement) <==> exists|i: int|
            0 <= i < wanted.len() && (#[trigger] wanted[i]).1 == statement && !columns.contains(
                wanted[i].0,
            ),
    decreases wanted.len(),
{
    if wanted.len() > 0 {
        let rest = wanted.drop_last();
        lemma_lacking(rest, columns, statement);
        let before = lacking(rest, columns);
        let after = lacking(wanted, columns);
        if after.contains(statement) {
            let k = choose|k: int| 0 <= k < after.len() && after[k] == statement;
            if k < before.len() {
                assert(before[k] == statement);
                let i = choose|i: int|
                    0 <= i < rest.len() && (#[trigger] rest[i]).1 == statement
                        && !columns.contains(rest[i].0);
                assert(wanted[i].1 == statement && !columns.contains(wanted[i].0));
            } else {
                let i = wanted.len() - 1;
                assert(wanted[i].1 == statement && !columns.contains(wanted[i].0));
            }
        }
        if exists|i: int|
            0 <= i < wanted.len() && (#[trigger] wanted[i]).1 == statement && !columns.contains(
                wanted[i].0,
            ) {
            let i = choose|i: int|
                0 <= i < wanted.len() && (#[trigger] wanted[i]).1 == statement
                    && !columns.contains(wanted[i].0);
            if i < rest.len() {
                assert(rest[i].1 == statement && !columns.contains(rest[i].0));
                let k = choose|k: int| 0 <= k < before.len() && before[k] == statement;
                assert(after[k] == statement);
            } else {
                assert(after[after.len() - 1] == statement);
            }
        }
    }
}

/// A table gets the statement for every column that it lacks, and no other
/// statement.
pub proof fn law_migration_adds_what_lacks(columns: Seq<Seq<char>>, statement: Seq<char>)
    requires
        columns.len() > 0,
    ensures
        migration_of(columns).contains(statement) <==> exists|i: int|
            0 <= i < gained_columns().len() && (#[trigger] gained_columns()[i]).1 == statement
                && !columns.contains(gained_columns()[i].0),
{
    lemma_lacking(gained_columns(), columns, statement);
}

/// A table that has every column is left as it is.
pub proof fn law_complete_table_stays(columns: Seq<Seq<char>>)
    requires
        forall|i: int|
            0 <= i < gained_columns().len() ==> columns.contains(
                (#[trigger] gained_columns()[i]).0,
            ),
    ensures
        migration_of(columns).len() == 0,
{
    let s = migration_of(columns);
    if s.len() > 0 {
        assert(s.contains(s[0]));
        lemma_lacking(gained_columns(), columns, s[0]);
    }
}

proof fn lemma_lacking_step(n: int, columns: Seq<Seq<char>>)
    requires
        0 <= n < gained_columns().len(),
    ensures
        lacking(gained_columns().take(n + 1), columns) == if columns.contains(
            gained_columns()[n].0,
        ) {
            lacking(gained_columns().take(n), columns)
        } else {
            lacking(gained_columns().take(n), columns).push(gained_columns()[n].1)
        },
{
    assert(gained_columns().take(n + 1).drop_last() =~= gained_columns().take(n));
}

/// Whether `name` is among the names of columns.
fn has_column(columns: &Vec<String>, name: &str) -> (r: bool)
    ensures
        r == columns.deep_view().contains(name@),
{
    let ghost all = columns.deep_view();
    let mut i: usize = 0;
    while i < columns.len()
        invariant
            i <= columns.len(),
            all == columns.deep_view(),
            forall|j: int| 0 <= j < i ==> #[trigger] all[j] != name@,
        decreases columns.len() - i,
    {
        assert(all[i as int] == columns@[i as int]@);
        if same_text(columns[i].as_str(), name) {
            return true;
        }
        i = i + 1;
    }
    false
}

fn add_if_lacking(
    columns: &Vec<String>,
    name: &str,
    statement: &'static str,
    out: &mut Vec<&'static str>,
)
    ensures
        final(out).deep_view() == if columns.deep_view().contains(name@) {
            old(out).deep_view()
        } else {
            old(out).deep_view().push(statement@)
        },
{
    let ghost before = out.deep_view();
    if !has_column(columns, name) {
        out.push(statement);
        assert(out.deep_view() =~= before.push(statement@));
    }
}

/// The statements that bring a table of settings with the given columns up to
/// date.
pub fn migrate_settings_schema(columns: &Vec<String>) -> (r: Vec<&'static str>)
    ensures
        r.deep_view() == migration_of(columns.deep_view()),
{
    let mut out: Vec<&'static str> = Vec::new();
    let ghost all = columns.deep_view();
    assert(out.deep_view() =~= Seq::<Seq<char>>::empty());
    assert(all.len() == columns@.len());
    if columns.len() == 0 {
        return out;
    }
    assert(lacking(gained_columns().take(0), all) =~= Seq::<Seq<char>>::empty());
    add_if_lacking(
        columns,
        "auto_line_count",
        "ALTER TABLE app_settings ADD COLUMN auto_line_count INTEGER NOT NULL DEFAULT 1",
        &mut out,
    );
    proof {
        lemma_lacking_step(0, all);
    }
    add_if_lacking(
        columns,
        "max_lines",
        "ALTER TABLE app_settings ADD COLUMN max_lines INTEGER NOT NULL DEFAULT 18",
        &mut out,
    );
    proof {
        lemma_lacking_step(1, all);
    }
    add_if_lacking(
        columns,
        "lyrics_source",
        "ALTER TABLE app_settings ADD COLUMN lyrics_source TEXT NOT NULL DEFAULT 'lrclib'",
        &mut out,
    );
    proof {
        lemma_lacking_step(2, all);
    }
    add_if_lacking(
        columns,
        "sp_dc",
        "ALTER TABLE app_settings ADD COLUMN sp_dc TEXT NOT NULL DEFAULT ''",
        &mut out,
    );
    proof {
        lemma_lacking_step(3, all);
    }
    add_if_lacking(
        columns,
        "window_width",
        "ALTER TABLE app_settings ADD COLUMN window_width INTEGER NOT NULL DEFAULT 720",
        &mut out,
    );
    proof {
        lemma_lacking_step(4, all);
    }
    add_if_lacking(
        columns,
        "window_height",
        "ALTER TABLE app_settings ADD COLUMN window_height INTEGER NOT NULL DEFAULT 560",
        &mut out,
    );
    proof {
        lemma_lacking_step(5, all);
    }
    add_if_lacking(
        columns,
        "window_x",
        "ALTER TABLE app_settings ADD COLUMN window_x INTEGER NOT NULL DEFAULT 80",
        &mut out,
    );
    proof {
        lemma_lacking_step(6, all);
    }
    add_if_lacking(
        columns,
        "window_y",
        "ALTER TABLE app_settings ADD COLUMN window_y INTEGER NOT NULL DEFAULT 80",
        &mut out,
    );
    proof {
        lemma_lacking_step(7, all);
    }
    assert(gained_columns().take(8) =~= gained_columns());
    out
}

} // verus!
