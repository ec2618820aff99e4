//! What holds of the settings and of the place of the window.
use vstd::prelude::*;

use crate::config::PanelModel;
use crate::storage::{LyricsSource, RowModel, SettingsModel};
use crate::window::{Attempt, AttemptStep, Geometry, GeometryRestore};

verus! {

/// A number that fits 63 bits is the same with a sign; every other one is less by
/// the 65th bit, which keeps it within 64 bits.
pub proof fn law_number_stays_while_it_fits(n: u64)
    ensures
        n <= i64::MAX ==> crate::storage::as_signed(n) == n,
        n > i64::MAX ==> crate::storage::as_signed(n) == n - 0x1_0000_0000_0000_0000,
        i64::MIN <= crate::storage::as_signed(n) <= i64::MAX,
{
}

/// A number that fits 32 bits is its own low bits; of every other one the low
/// bits are the number but for a multiple of the 33rd bit.
pub proof fn law_small_numbers_are_their_low_bits(n: i64)
    ensures
        i32::MIN <= n <= i32::MAX ==> crate::storage::low_bits(n) == n,
        i32::MIN <= crate::storage::low_bits(n) <= i32::MAX,
        (n - crate::storage::low_bits(n)) % 0x1_0000_0000 == 0,
{
}

/// Only its own name stands for Spotify's own lyrics.
pub proof fn law_only_its_name_is_official(name: Seq<char>)
    ensures
        crate::storage::source_named(name) == LyricsSource::SpotifyOfficial <==> name
            == "spotify_official"@,
        crate::storage::source_named(name) == LyricsSource::Lrclib <==> name
            != "spotify_official"@,
{
}

/// Every column of a saved row gives its own setting, whatever the others hold:
/// a truth value is any number but zero, a number is itself where it fits.
pub proof fn law_every_column_gives_its_setting(row: RowModel)
    ensures
        ({
            let s = crate::storage::settings_in(row);
            &&& s.topmost <==> row.topmost != 0
            &&& s.auto_line_count <==> row.auto_line_count != 0
            &&& s.char_follow <==> row.char_follow != 0
            &&& s.background_opacity == row.background_opacity
            &&& s.sp_dc == row.sp_dc
            &&& s.lyrics_source == LyricsSource::SpotifyOfficial <==> row.lyrics_source
                == "spotify_official"@
            &&& i32::MIN <= row.max_lines <= i32::MAX ==> s.max_lines == row.max_lines
            &&& i32::MIN <= row.timing_offset_ms <= i32::MAX ==> s.timing_offset_ms
                == row.timing_offset_ms
            &&& i32::MIN <= row.window_width <= i32::MAX ==> s.window_width == row.window_width
            &&& i32::MIN <= row.window_height <= i32::MAX ==> s.window_height
                == row.window_height
            &&& i32::MIN <= row.window_x <= i32::MAX ==> s.window_x == row.window_x
            &&& i32::MIN <= row.window_y <= i32::MAX ==> s.window_y == row.window_y
        }),
{
}

/// Every setting is saved in its own column.
pub proof fn law_every_setting_has_its_column(s: SettingsModel)
    ensures
        ({
            let r = crate::storage::row_of(s);
            &&& r.topmost == 1 || r.topmost == 0
            &&& r.topmost == 1 <==> s.topmost
            &&& r.auto_line_count == 1 || r.auto_line_count == 0
            &&& r.auto_line_count == 1 <==> s.auto_line_count
            &&& r.char_follow == 1 || r.char_follow == 0
            &&& r.char_follow == 1 <==> s.char_follow
            &&& r.max_lines == s.max_lines
            &&& r.background_opacity == s.background_opacity
            &&& r.timing_offset_ms == s.timing_offset_ms
            &&& r.lyrics_source == "lrclib"@ || r.lyrics_source == "spotify_official"@
            &&& r.sp_dc == s.sp_dc
            &&& r.window_width == s.window_width
            &&& r.window_height == s.window_height
            &&& r.window_x == s.window_x
            &&& r.window_y == s.window_y
        }),
{
}

/// The statements for the columns that a table lacks come in the order of the
/// columns, one for each.
pub proof fn law_lacking_columns_in_order(
    wanted: Seq<(Seq<char>, Seq<char>)>,
    columns: Seq<Seq<char>>,
)
    ensures
        crate::storage::lacking(wanted, columns) == wanted.filter(
            |w: (Seq<char>, Seq<char>)| !columns.contains(w.0),
        ).map_values(|w: (Seq<char>, Seq<char>)| w.1),
    decreases wanted.len(),
{
    reveal(Seq::filter);
    let f = |w: (Seq<char>, Seq<char>)| !columns.contains(w.0);
    let g = |w: (Seq<char>, Seq<char>)| w.1;
    if wanted.len() > 0 {
        let rest = wanted.drop_last();
        law_lacking_columns_in_order(rest, columns);
        if f(wanted.last()) {
            assert(wanted.filter(f) =~= rest.filter(f).push(wanted.last()));
            assert(wanted.filter(f).map_values(g) =~= rest.filter(f).map_values(g).push(
                wanted.last().1,
            ));
        } else {
            assert(wanted.filter(f) =~= rest.filter(f));
        }
    } else {
        assert(wanted.filter(f).map_values(g) =~= Seq::<Seq<char>>::empty());
    }
}

/// A table that is there, and lacks every column, gets all statements; one that
/// is not there gets none.
pub proof fn law_bare_table_gets_every_column(columns: Seq<Seq<char>>)
    requires
        forall|i: int|
            0 <= i < crate::storage::gained_columns().len() ==> !columns.contains(
                (#[trigger] crate::storage::gained_columns()[i]).0,
            ),
    ensures
        columns.len() == 0 ==> crate::storage::migration_of(columns).len() == 0,
        columns.len() > 0 ==> crate::storage::migration_of(columns)
            == crate::storage::gained_columns().map_values(|w: (Seq<char>, Seq<char>)| w.1),
{
    lemma_all_lacking(crate::storage::gained_columns(), columns);
}

proof fn lemma_all_lacking(wanted: Seq<(Seq<char>, Seq<char>)>, columns: Seq<Seq<char>>)
    requires
        forall|i: int| 0 <= i < wanted.len() ==> !columns.contains((#[trigger] wanted[i]).0),
    ensures
        crate::storage::lacking(wanted, columns) == wanted.map_values(
            |w: (Seq<char>, Seq<char>)| w.1,
        ),
    decreases wanted.len(),
{
    let g = |w: (Seq<char>, Seq<char>)| w.1;
    if wanted.len() > 0 {
        let rest = wanted.drop_last();
        assert forall|i: int| 0 <= i < rest.len() implies !columns.contains(
            (#[trigger] rest[i]).0,
        ) by {
            assert(!columns.contains(wanted[i].0));
        }
        lemma_all_lacking(rest, columns);
        assert(!columns.contains(wanted[wanted.len() - 1].0));
        assert(wanted.map_values(g) =~= rest.map_values(g).push(wanted.last().1));
    } else {
        assert(wanted.map_values(g) =~= Seq::<Seq<char>>::empty());
    }
}

/// Picking a source changes the source and that the lyrics have to be looked up
/// afresh, nothing else; picking nothing changes nothing.
pub proof fn law_picking_a_source_sets_the_source(p: PanelModel, id: Seq<char>)
    requires
        !p.suppressed,
    ensures
        ({
            let r = crate::config::with_source(p, Some(id));
            &&& r.dirty
            &&& r.config.lyrics_source == LyricsSource::SpotifyOfficial <==> id
                == "spotify_official"@
            &&& p == (PanelModel {
                config: SettingsModel { lyrics_source: p.config.lyrics_source, ..r.config },
                dirty: p.dirty,
                ..r
            })
        }),
        crate::config::with_source(p, None) == p,
{
}

/// Typing the cookie changes the cookie, to what was typed without the blanks
/// around it, and nothing else but whether the lyrics have to be looked up
/// afresh.
pub proof fn law_typed_cookie_is_trimmed(
    p: PanelModel,
    before: Seq<char>,
    core: Seq<char>,
    after: Seq<char>,
)
    requires
        !p.suppressed,
        crate::text_laws::is_blank(before),
        crate::text_laws::is_trimmed(core),
        crate::text_laws::is_blank(after),
    ensures
        ({
            let r = crate::config::with_sp_dc(p, before + core + after);
            &&& r.config.sp_dc == core
            &&& r.dirty <==> p.dirty || p.config.lyrics_source == LyricsSource::SpotifyOfficial
            &&& p == (PanelModel {
                config: SettingsModel { sp_dc: p.config.sp_dc, ..r.config },
                dirty: p.dirty,
                ..r
            })
        }),
{
    crate::text_laws::law_trim_takes_outer_space(before, core, after);
}

/// The place of the window is noted as it is, its size as it is but no smaller
/// than the window can be, and no other setting changes.
pub proof fn law_place_is_noted(s: SettingsModel, x: i32, y: i32, width: i32, height: i32)
    ensures
        ({
            let r = crate::config::with_geometry(s, x, y, width, height);
            &&& r.window_x == x
            &&& r.window_y == y
            &&& width >= 320 ==> r.window_width == width
            &&& width < 320 ==> r.window_width == 320
            &&& height >= 240 ==> r.window_height == height
            &&& height < 240 ==> r.window_height == 240
            &&& s == (SettingsModel {
                window_x: s.window_x,
                window_y: s.window_y,
                window_width: s.window_width,
                window_height: s.window_height,
                ..r
            })
        }),
{
}

/// The window counts as placed where its corner is at most eight and its size at
/// most sixteen off, to either side.
pub proof fn law_window_is_placed_within_its_frame(actual: Geometry, target: Geometry)
    ensures
        crate::window::is_near(actual, target) <==> {
            &&& -8 <= actual.x - target.x <= 8
            &&& -8 <= actual.y - target.y <= 8
            &&& -16 <= actual.width - target.width <= 16
            &&& -16 <= actual.height - target.height <= 16
        },
        crate::window::is_near(actual, target) == crate::window::is_near(target, actual),
        crate::window::is_near(target, target),
{
}

/// Places and sizes of any real screen can be compared.
pub proof fn law_real_places_can_be_compared(a: Geometry, b: Geometry)
    requires
        -0x3fff_ffff <= a.x <= 0x3fff_ffff,
        -0x3fff_ffff <= a.y <= 0x3fff_ffff,
        0 <= a.width,
        0 <= a.height,
        -0x3fff_ffff <= b.x <= 0x3fff_ffff,
        -0x3fff_ffff <= b.y <= 0x3fff_ffff,
        0 <= b.width,
        0 <= b.height,
    ensures
        crate::window::differences_fit(a, b),
{
}

/// An attempt that failed leads to another one, five times; one that was skipped
/// to none; and what is known of the window's place is left as it is.
pub proof fn law_failed_attempts_are_repeated(s: GeometryRestore, target: Geometry)
    requires
        !s.applied,
    ensures
        s.attempts < 5 ==> crate::window::attempted(s, target, Attempt::Failed) == (
            GeometryRestore { applied: false, attempts: (s.attempts + 1) as u8, last: s.last },
            AttemptStep::Retry,
        ),
        s.attempts >= 5 ==> crate::window::attempted(s, target, Attempt::Failed) == (
            s,
            AttemptStep::GiveUp,
        ),
        crate::window::attempted(s, target, Attempt::Skipped) == (s, AttemptStep::GiveUp),
{
}

/// The place that an attempt found is remembered; where it is the one wanted the
/// work is done, and else the attempt counts like one that failed.
pub proof fn law_found_place_is_remembered(s: GeometryRestore, target: Geometry, actual: Geometry)
    requires
        !s.applied,
    ensures
        ({
            let (after, step) = crate::window::attempted(s, target, Attempt::Placed(actual));
            &&& after.last == Some(actual)
            &&& actual == target ==> step == AttemptStep::Done && after.applied
            &&& step == AttemptStep::Done <==> after.applied
            &&& step == AttemptStep::Done ==> after.attempts == s.attempts
            &&& step != AttemptStep::Done ==> {
                let (failed, failed_step) = crate::window::attempted(s, target, Attempt::Failed);
                &&& step == failed_step
                &&& after.attempts == failed.attempts
            }
        }),
{
}

/// A size without a sign is the size itself, and of a negative one the same bits.
pub proof fn law_size_keeps_its_bits(n: i32)
    ensures
        n >= 0 ==> crate::window::as_unsigned(n) == n,
        0 <= crate::window::as_unsigned(n) <= u32::MAX,
        (crate::window::as_unsigned(n) - n) % 0x1_0000_0000 == 0,
{
}

/// A control sets its own setting to what it is given, and nothing else; what the
/// program sets does not count.
pub proof fn law_control_sets_its_setting(p: PanelModel, active: bool, bits: u64, offset_ms: i32)
    ensures
        p.suppressed ==> {
            &&& crate::config::with_topmost(p, active) == p
            &&& crate::config::with_opacity(p, bits) == p
            &&& crate::config::with_offset(p, offset_ms) == p
            &&& crate::config::with_char_follow(p, active) == p
        },
        !p.suppressed ==> {
            let (a, b, c, d) = (
                crate::config::with_topmost(p, active),
                crate::config::with_opacity(p, bits),
                crate::config::with_offset(p, offset_ms),
                crate::config::with_char_follow(p, active),
            );
            &&& a.config.topmost == active
            &&& b.config.background_opacity == bits
            &&& c.config.timing_offset_ms == offset_ms
            &&& d.config.char_follow == active
            &&& p == (PanelModel {
                config: SettingsModel { topmost: p.config.topmost, ..a.config },
                ..a
            })
            &&& p == (PanelModel {
                config: SettingsModel {
                    background_opacity: p.config.background_opacity,
                    ..b.config
                },
                ..b
            })
            &&& p == (PanelModel {
                config: SettingsModel { timing_offset_ms: p.config.timing_offset_ms, ..c.config },
                ..c
            })
            &&& p == (PanelModel {
                config: SettingsModel { char_follow: p.config.char_follow, ..d.config },
                ..d
            })
        },
{
}

/// Closing the settings asks for the lyrics once, after a change of where they
/// come from, and changes no setting.
pub proof fn law_closing_asks_once(p: PanelModel, id: Seq<char>)
    ensures
        ({
            let (after, asks) = crate::config::after_close(p);
            &&& asks == p.dirty
            &&& after.config == p.config
            &&& after.suppressed == p.suppressed
            &&& crate::config::after_close(after) == (after, false)
        }),
        !p.suppressed ==> crate::config::after_close(
            crate::config::with_source(p, Some(id)),
        ).1,
{
}

/// Beginning to put the window in its place allows five retries again, unless it
/// is there; what is known of its place stays.
pub proof fn law_schedule_allows_retries(s: GeometryRestore, target: Geometry)
    ensures
        s.applied ==> crate::window::scheduled(s) == (s, false),
        !s.applied ==> {
            let (after, pending) = crate::window::scheduled(s);
            &&& pending
            &&& !after.applied
            &&& after.last == s.last
            &&& after.attempts == 0
            &&& crate::window::attempted(after, target, Attempt::Failed).1 == AttemptStep::Retry
        },
{
}

/// The place that is saved is the one read now, and else the one that the last
/// attempt found.
pub proof fn law_last_place_is_saved(
    s: GeometryRestore,
    target: Geometry,
    found: Geometry,
    now: Geometry,
)
    requires
        !s.applied,
    ensures
        ({
            let after = crate::window::attempted(s, target, Attempt::Placed(found)).0;
            &&& crate::window::place_kept(after, Some(now)) == Some(now)
            &&& crate::window::place_kept(after, None) == Some(found)
        }),
{
}

} // verus!
