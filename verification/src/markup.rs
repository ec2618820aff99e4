//! What the lyrics look like: which line is highlighted, and how.
use vstd::prelude::*;

use crate::spotify::TrackInfo;
use crate::state::{effective_position_ms, RuntimeState, StateModel};
use crate::text::{chars_of, text_of};

verus! {

/// What the area for lyrics shows.
#[derive(Debug, Clone, Copy, PartialEq, Eq, Structural)]
pub enum LyricsView {
    /// No lyrics were looked up.
    NotLoaded,
    /// The lyrics have no lines.
    NoContent,
    /// The lines without times.
    Plain,
    /// The lines with times.
    Synced,
}

/// What the area for lyrics shows in a state.
pub open spec fn view_of(m: StateModel) -> LyricsView {
    match m.selected_lyrics {
        None => LyricsView::NotLoaded,
        Some(l) => if l.lines.len() > 0 {
            LyricsView::Synced
        } else if l.plain_lines.len() > 0 {
            LyricsView::Plain
        } else {
            LyricsView::NoContent
        },
    }
}

/// The text that stands in for lyrics.
pub open spec fn placeholder_of(view: LyricsView) -> Option<Seq<char>> {
    match view {
        LyricsView::NotLoaded => Some("No lyrics loaded yet."@),
        LyricsView::NoContent => Some("No lyrics content"@),
        _ => None,
    }
}

/// The text that stands in for lyrics.
pub fn placeholder(view: LyricsView) -> (r: Option<&'static str>)
    ensures
        r.deep_view() == placeholder_of(view),
{
    match view {
        LyricsView::NotLoaded => Some("No lyrics loaded yet."),
        LyricsView::NoContent => Some("No lyrics content"),
        _ => None,
    }
}

/// How much of the current line has been sung.
#[derive(Debug, Clone, Copy, PartialEq, Eq, Structural)]
pub enum Progress {
    /// All of it.
    Full,
    /// `elapsed` out of `span` milliseconds; it can be more than all of them.
    Part { elapsed: u64, span: u64 },
}

/// How a line looks.
#[derive(Debug, Clone, Copy, PartialEq, Eq, Structural)]
pub enum LineStyle {
    /// Like every line that is not current.
    Dim,
    /// Highlighted.
    Current,
    /// Highlighted as far as it has been sung.
    Follow(Progress),
}

/// How much of a line has been sung at a position, where the next line begins
/// at `next_time`.
pub open spec fn progress_at(position: int, line_time: u64, next_time: u64) -> Progress {
    if next_time <= line_time {
        Progress::Full
    } else {
        Progress::Part {
            elapsed: if position > line_time {
                (position - line_time) as u64
            } else {
                0
            },
            span: (next_time - line_time) as u64,
        }
    }
}

/// When the line behind line `i` begins: the last line lasts a second and a
/// half.
pub open spec fn next_time_of(lines: Seq<crate::lrc::LineModel>, i: int) -> u64 {
    if i + 1 < lines.len() {
        lines[i + 1].time_ms
    } else if lines[i].time_ms <= u64::MAX - 1500 {
        (lines[i].time_ms + 1500) as u64
    } else {
        u64::MAX
    }
}

/// The line that is highlighted among `n` lines.
pub open spec fn highlighted(m: StateModel, n: nat) -> int {
    if m.current_line_index < n {
        m.current_line_index
    } else {
        n - 1
    }
}

/// The position in the current track.
pub open spec fn current_position(m: StateModel, offset_ms: i32) -> int {
    match m.current_track {
        Some(track) => crate::state::effective_position(track.position_ms, offset_ms),
        None => 0,
    }
}

/// How the line `i` of lyrics with times looks.
pub open spec fn style_of(
    m: StateModel,
    lines: Seq<crate::lrc::LineModel>,
    i: int,
    char_follow: bool,
    offset_ms: i32,
) -> LineStyle {
    if i != highlighted(m, lines.len()) {
        LineStyle::Dim
    } else if char_follow {
        LineStyle::Follow(
            progress_at(
                current_position(m, offset_ms),
                lines[i].time_ms,
                next_time_of(lines, i),
            ),
        )
    } else {
        LineStyle::Current
    }
}

/// How the lines look that `widgets` labels show; nothing where the labels are
/// not those of the lyrics.
pub open spec fn styles_of(
    m: StateModel,
    widgets: nat,
    char_follow: bool,
    offset_ms: i32,
) -> Option<Seq<LineStyle>> {
    match m.selected_lyrics {
        None => None,
        Some(l) => if l.lines.len() == 0 {
            if widgets == l.plain_lines.len() {
                Some(Seq::new(widgets, |i: int| LineStyle::Dim))
            } else {
                None
            }
        } else if widgets == l.lines.len() {
            Some(Seq::new(widgets, |i: int| style_of(m, l.lines, i, char_follow, offset_ms)))
        } else {
            None
        },
    }
}

/// Of lyrics with times exactly one line is highlighted.
pub proof fn law_one_line_is_highlighted(
    m: StateModel,
    lines: Seq<crate::lrc::LineModel>,
    char_follow: bool,
    offset_ms: i32,
)
    requires
        m.current_line_index >= 0,
        lines.len() > 0,
    ensures
        0 <= highlighted(m, lines.len()) < lines.len(),
        forall|i: int|
            0 <= i < lines.len() ==> ((#[trigger] style_of(m, lines, i, char_follow, offset_ms)
                == LineStyle::Dim) <==> i != highlighted(m, lines.len())),
{
}

/// How much of a line has been sung at a position.
pub fn line_progress(position: u64, line_time: u64, next_time: u64) -> (r: Progress)
    ensures
        r == progress_at(position as int, line_time, next_time),
{
    if next_time <= line_time {
        return Progress::Full;
    }
    let elapsed: u64 = if position > line_time {
        position - line_time
    } else {
        0
    };
    Progress::Part { elapsed, span: next_time - line_time }
}

/// What happens to the scrolled area.
#[derive(Debug, Clone, Copy, PartialEq, Eq, Structural)]
pub enum ScrollStep {
    /// Nothing.
    Nothing,
    /// The button that resumes following is shown.
    ShowSync,
    /// The button that resumes following is hidden.
    HideSync,
    /// The line is brought to the middle, and the button is hidden.
    ScrollTo(usize),
}

/// What happens to the scrolled area in a state.
pub open spec fn scroll_of(m: StateModel) -> ScrollStep {
    if m.user_scrolled {
        ScrollStep::ShowSync
    } else {
        match m.selected_lyrics {
            None => ScrollStep::Nothing,
            Some(l) => if l.lines.len() == 0 {
                ScrollStep::HideSync
            } else {
                ScrollStep::ScrollTo(highlighted(m, l.lines.len()) as usize)
            },
        }
    }
}

/// As long as the user has scrolled away, the lyrics do not scroll.
pub proof fn law_manual_scroll_stays(m: StateModel)
    ensures
        !(scroll_of(StateModel { user_scrolled: true, ..m }) is ScrollTo),
{
}

impl RuntimeState {
    /// What the area for lyrics shows.
    pub fn lyrics_view(&self) -> (r: LyricsView)
        ensures
            r == view_of(self@),
    {
        match &self.selected_lyrics {
            None => LyricsView::NotLoaded,
            Some(lyrics) => {
                assert(lyrics@.lines.len() == lyrics.lines@.len());
                assert(lyrics@.plain_lines.len() == lyrics.plain_lines@.len());
                if lyrics.lines.len() > 0 {
                    LyricsView::Synced
                } else if lyrics.plain_lines.len() > 0 {
                    LyricsView::Plain
                } else {
                    LyricsView::NoContent
                }
            },
        }
    }

    /// How the lines look that `widgets` labels show.
    pub fn line_styles(&self, widgets: usize, char_follow: bool, timing_offset_ms: i32) -> (r:
        Option<Vec<LineStyle>>)
        requires
            styles_of(self@, widgets as nat, char_follow, timing_offset_ms) is Some && view_of(
                self@,
            ) == LyricsView::Synced ==> (self@.current_track matches Some(track)
                ==> crate::state::position_fits(track.position_ms, timing_offset_ms)),
        ensures
            match r {
                Some(styles) => styles_of(
                    self@,
                    widgets as nat,
                    char_follow,
                    timing_offset_ms,
                ) == Some(styles@),
                None => styles_of(self@, widgets as nat, char_follow, timing_offset_ms) is None,
            },
    {
        let lyrics = match &self.selected_lyrics {
            Some(lyrics) => lyrics,
            None => return None,
        };
        let ghost ls = lyrics@.lines;
        let ghost m = self@;
        assert(ls.len() == lyrics.lines@.len());
        assert(lyrics@.plain_lines.len() == lyrics.plain_lines@.len());
        let mut styles: Vec<LineStyle> = Vec::new();
        let mut i: usize = 0;
        if lyrics.lines.len() == 0 {
            if widgets != lyrics.plain_lines.len() {
                return None;
            }
            while i < widgets
                invariant
                    i <= widgets,
                    styles@ == Seq::new(i as nat, |k: int| LineStyle::Dim),
                decreases widgets - i,
            {
                styles.push(LineStyle::Dim);
                i = i + 1;
                assert(styles@ =~= Seq::new(i as nat, |k: int| LineStyle::Dim));
            }
            return Some(styles);
        }
        if widgets != lyrics.lines.len() {
            return None;
        }
        let current: usize = if self.current_line_index < lyrics.lines.len() {
            self.current_line_index
        } else {
            lyrics.lines.len() - 1
        };
        let position: u64 = match &self.current_track {
            Some(track) => effective_position_ms(track.position_ms, timing_offset_ms),
            None => 0,
        };
        while i < widgets
            invariant
                i <= widgets,
                widgets == lyrics.lines@.len(),
                widgets == ls.len(),
                ls == lyrics@.lines,
                m == self@,
                current == highlighted(m, ls.len()),
                position == current_position(m, timing_offset_ms),
                styles@ == Seq::new(
                    i as nat,
                    |k: int| style_of(m, ls, k, char_follow, timing_offset_ms),
                ),
            decreases widgets - i,
        {
            assert(ls[i as int] == lyrics.lines@[i as int]@);
            let style: LineStyle = if i != current {
                LineStyle::Dim
            } else if char_follow {
                let time: u64 = lyrics.lines[i].time_ms;
                let next: u64 = if i + 1 < lyrics.lines.len() {
                    assert(ls[i + 1] == lyrics.lines@[i + 1]@);
                    lyrics.lines[i + 1].time_ms
                } else if time <= u64::MAX - 1500 {
                    time + 1500
                } else {
                    u64::MAX
                };
                LineStyle::Follow(line_progress(position, time, next))
            } else {
                LineStyle::Current
            };
            styles.push(style);
            i = i + 1;
            assert(styles@ =~= Seq::new(
                i as nat,
                |k: int| style_of(m, ls, k, char_follow, timing_offset_ms),
            ));
        }
        Some(styles)
    }

    /// What happens to the scrolled area.
    pub fn scroll_step(&self) -> (r: ScrollStep)
        ensures
            r == scroll_of(self@),
    {
        if self.user_scrolled {
            return ScrollStep::ShowSync;
        }
        match &self.selected_lyrics {
            None => ScrollStep::Nothing,
            Some(lyrics) => {
                assert(lyrics@.lines.len() == lyrics.lines@.len());
                if lyrics.lines.len() == 0 {
                    ScrollStep::HideSync
                } else if self.current_line_index < lyrics.lines.len() {
                    ScrollStep::ScrollTo(self.current_line_index)
                } else {
                    ScrollStep::ScrollTo(lyrics.lines.len() - 1)
                }
            },
        }
    }
}

/// A text put between two others.
fn enclose(before: &str, text: &str, after: &str) -> (r: String)
    ensures
        r@ == before@ + text@ + after@,
{
    let mut out = before.to_owned();
    out.append(text);
    out.append(after);
    out
}

/// The markup of a line that is not current; the text is escaped.
pub fn dim_markup(escaped: &str) -> (r: String)
    ensures
        r@ == "<span foreground=\"#c8c8c8\">"@ + escaped@ + "</span>"@,
{
    enclose("<span foreground=\"#c8c8c8\">", escaped, "</span>")
}

/// The markup of the current line; the text is escaped.
pub fn current_markup(escaped: &str) -> (r: String)
    ensures
        r@ == "<span size=\"x-large\" weight=\"bold\" foreground=\"#ffd36b\">"@ + escaped@
            + "</span>"@,
{
    enclose(
        "<span size=\"x-large\" weight=\"bold\" foreground=\"#ffd36b\">",
        escaped,
        "</span>",
    )
}

/// The first `split` characters of a text, all of them where there are fewer,
/// and the rest.
pub fn split_text(text: &str, split: usize) -> (r: (String, String))
    ensures
        split <= text@.len() ==> r.0@ == text@.take(split as int) && r.1@ == text@.skip(
            split as int,
        ),
        split > text@.len() ==> r.0@ == text@ && r.1@ == Seq::<char>::empty(),
        r.0@ + r.1@ == text@,
{
    let cs: Vec<char> = chars_of(text);
    let n: usize = if split < cs.len() {
        split
    } else {
        cs.len()
    };
    let first: String = text_of(vstd::slice::slice_subrange(cs.as_slice(), 0, n));
    let rest: String = text_of(vstd::slice::slice_subrange(cs.as_slice(), n, cs.len()));
    proof {
        assert(cs@.subrange(0, n as int) =~= cs@.take(n as int));
        assert(cs@.subrange(n as int, cs@.len() as int) =~= cs@.skip(n as int));
        if n == cs@.len() {
            assert(cs@.take(n as int) =~= cs@);
            assert(cs@.skip(n as int) =~= Seq::<char>::empty());
        }
        assert(cs@.take(n as int) + cs@.skip(n as int) =~= cs@);
    }
    (first, rest)
}

/// The markup of the current line `text`, of which `active` has been sung and
/// `rest` has not; the two are escaped.
pub fn char_follow_markup(text: &str, active: &str, rest: &str) -> (r: String)
    ensures
        r@ == if text@.len() == 0 {
            "<span foreground=\"#ffd36b\"></span>"@
        } else {
            "<span size=\"x-large\" weight=\"bold\"><span foreground=\"#ffd36b\">"@ + active@
                + "</span><span foreground=\"#c8c8c8\">"@ + rest@ + "</span></span>"@
        },
{
    if text.is_empty() {
        return "<span foreground=\"#ffd36b\"></span>".to_owned();
    }
    let mut out = enclose(
        "<span size=\"x-large\" weight=\"bold\"><span foreground=\"#ffd36b\">",
        active,
        "</span><span foreground=\"#c8c8c8\">",
    );
    out.append(rest);
    out.append("</span></span>");
    out
}

/// The name of a track.
pub fn header_text(track: &TrackInfo) -> (r: String)
    ensures
        r@ == track@.artist + " - "@ + track@.title,
{
    enclose(track.artist.as_str(), " - ", track.title.as_str())
}

/// The markup of the header; the text is escaped.
pub fn header_markup(escaped: &str) -> (r: String)
    ensures
        r@ == "<b>"@ + escaped@ + "</b>"@,
{
    enclose("<b>", escaped, "</b>")
}

} // verus!
