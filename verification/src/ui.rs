//! What the screens show, as far as it can be said without drawing: the
//! areas, the window of the log, and the texts and tones of the marks.

use crate::app::{AppScreen, LogLevel, ScreenView};
use crate::download::{spec_mark_active, spec_mark_done, spec_mark_failed};
use crate::text::{concat3, decimal, str_eq, u64_to_decimal};
use vstd::prelude::*;

verus! {

// ---------------------------------------------------------------------------
// Areas
// ---------------------------------------------------------------------------

/// A rectangle of cells of the terminal.
#[derive(Debug, Clone, Copy, PartialEq, Eq, Structural)]
pub struct Rect {
    pub x: u16,
    pub y: u16,
    pub width: u16,
    pub height: u16,
}

/// The area inside a border of one cell on each side. An area too small
/// for its border has an empty inside.
pub fn inner_area(area: Rect) -> (inner: Rect)
    requires
        area.x < u16::MAX,
        area.y < u16::MAX,
    ensures
        inner.x == area.x + 1,
        inner.y == area.y + 1,
        inner.width == if area.width >= 2 {
            area.width - 2
        } else {
            0
        },
        inner.height == if area.height >= 2 {
            area.height - 2
        } else {
            0
        },
{
    Rect {
        x: area.x + 1,
        y: area.y + 1,
        width: if area.width >= 2 {
            area.width - 2
        } else {
            0
        },
        height: if area.height >= 2 {
            area.height - 2
        } else {
            0
        },
    }
}

/// The share, in percent, that is left free on each side of a centred
/// part that takes `percent` percent of its area.
pub fn centered_margin(percent: u16) -> (margin: u16)
    requires
        percent <= 100,
    ensures
        margin == (100 - percent) / 2,
        margin + percent + margin <= 100,
{
    (100 - percent) / 2
}

/// Position of the first line of the log that is shown in a bordered area
/// of the given height: the last lines are shown, as many as fit.
pub open spec fn spec_log_window_start(log_len: usize, area_height: u16) -> int {
    let room: int = if area_height >= 2 {
        area_height - 2
    } else {
        0
    };
    if log_len >= room {
        log_len - room
    } else {
        0
    }
}

/// Position of the first line of the log that is shown in a bordered area
/// of the given height.
pub fn log_window_start(log_len: usize, area_height: u16) -> (start: usize)
    ensures
        start == spec_log_window_start(log_len, area_height),
        start <= log_len,
{
    let room: usize = if area_height >= 2 {
        (area_height - 2) as usize
    } else {
        0
    };
    if log_len >= room {
        log_len - room
    } else {
        0
    }
}

// ---------------------------------------------------------------------------
// Tones and texts
// ---------------------------------------------------------------------------

/// The tone in which something is shown.
#[derive(Debug, Clone, Copy, PartialEq, Eq, Structural)]
pub enum Tone {
    Highlight,
    Success,
    Error,
    Muted,
    Info,
}

/// Mark of something that was skipped.
pub open spec fn spec_mark_skipped() -> Seq<char> {
    "─"@
}

/// The tone of the mark of a game in the list: done in the tone of
/// success, in progress highlighted, failed in the tone of errors, skipped
/// muted, and anything else plain.
pub open spec fn spec_icon_tone(icon: Seq<char>) -> Tone {
    if icon == spec_mark_done() {
        Tone::Success
    } else if icon == spec_mark_active() {
        Tone::Highlight
    } else if icon == spec_mark_failed() {
        Tone::Error
    } else if icon == spec_mark_skipped() {
        Tone::Muted
    } else {
        Tone::Info
    }
}

/// The tone of the mark of a game in the list.
pub fn icon_tone(icon: &str) -> (tone: Tone)
    ensures
        tone == spec_icon_tone(icon@),
{
    if str_eq(icon, "✓") {
        Tone::Success
    } else if str_eq(icon, "↓") {
        Tone::Highlight
    } else if str_eq(icon, "✗") {
        Tone::Error
    } else if str_eq(icon, "─") {
        Tone::Muted
    } else {
        Tone::Info
    }
}

/// The tag in front of a line of the log.
pub open spec fn spec_log_tag(level: LogLevel) -> Seq<char> {
    match level {
        LogLevel::Info => "[INFO]"@,
        LogLevel::Success => "[ OK ]"@,
        LogLevel::Warn => "[WARN]"@,
        LogLevel::Error => "[ ERR]"@,
    }
}

/// The tone of a line of the log.
pub open spec fn spec_log_tone(level: LogLevel) -> Tone {
    match level {
        LogLevel::Info => Tone::Info,
        LogLevel::Success => Tone::Success,
        LogLevel::Warn => Tone::Highlight,
        LogLevel::Error => Tone::Error,
    }
}

/// The tag in front of a line of the log, and the tone of the tag.
pub fn log_tag(level: LogLevel) -> (tag: (&'static str, Tone))
    ensures
        tag.0@ == spec_log_tag(level),
        tag.1 == spec_log_tone(level),
{
    match level {
        LogLevel::Info => ("[INFO]", Tone::Info),
        LogLevel::Success => ("[ OK ]", Tone::Success),
        LogLevel::Warn => ("[WARN]", Tone::Highlight),
        LogLevel::Error => ("[ ERR]", Tone::Error),
    }
}

/// The box in front of a category: crossed if the category is selected.
pub fn checkbox(checked: bool) -> (mark: &'static str)
    ensures
        mark@ == if checked {
            "[x]"@
        } else {
            "[ ]"@
        },
{
    if checked {
        "[x]"
    } else {
        "[ ]"
    }
}

/// The keys named at the foot of the main view.
pub open spec fn spec_footer_text(screen: ScreenView) -> Seq<char> {
    match screen {
        ScreenView::GameList => " q:Quit  Enter:Start All  ↑↓:Navigate  ?:Help"@,
        ScreenView::Downloading { .. } => " q:Quit  ?:Help  (downloading...)"@,
        _ => " q:Quit  ?:Help"@,
    }
}

/// The keys named at the foot of the main view.
pub fn footer_text(screen: &AppScreen) -> (text: &'static str)
    ensures
        text@ == spec_footer_text(screen@),
{
    match screen {
        AppScreen::GameList => " q:Quit  Enter:Start All  ↑↓:Navigate  ?:Help",
        AppScreen::Downloading { .. } => " q:Quit  ?:Help  (downloading...)",
        _ => " q:Quit  ?:Help",
    }
}

/// What the field of the credential shows: the credential with a block for
/// the cursor after it, or that the credential is being probed.
pub open spec fn spec_api_key_display(input: Seq<char>, validating: bool) -> Seq<char> {
    if validating {
        " Validating..."@
    } else {
        " "@ + input + "█"@
    }
}

/// What the field of the credential shows.
pub fn api_key_display(input: &str, validating: bool) -> (shown: String)
    ensures
        shown@ == spec_api_key_display(input@, validating),
{
    if validating {
        " Validating...".to_owned()
    } else {
        concat3(" ", input, "█")
    }
}

/// The title of the list of games.
pub open spec fn spec_game_list_title(count: nat) -> Seq<char> {
    " Games ("@ + decimal(count) + " installed) "@
}

/// The title of the list of games.
pub fn game_list_title(count: usize) -> (title: String)
    ensures
        title@ == spec_game_list_title(count as nat),
{
    let number = u64_to_decimal(count as u64);
    concat3(" Games (", number.as_str(), " installed) ")
}

} // verus!
