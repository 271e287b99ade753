//! Pop-up messages, text truncation and the placement of centred dialogs.
use crate::presentation::resources::TRUNCATION_MARKER;
use crate::text::{push_text, string_of};
use vstd::prelude::*;
use vstd::string::*;

verus! {

/// A message shown over the screen until the next key press.
#[derive(Debug, Clone)]
pub enum PopupMessage {
    Error(String),
    Info(String),
}

impl PopupMessage {
    /// The text of the message.
    pub open spec fn text(&self) -> Seq<char> {
        match self {
            PopupMessage::Error(m) => m@,
            PopupMessage::Info(m) => m@,
        }
    }

    pub fn as_str(&self) -> (r: &str)
        ensures
            r@ == self.text(),
    {
        match self {
            PopupMessage::Error(msg) => msg.as_str(),
            PopupMessage::Info(msg) => msg.as_str(),
        }
    }
}

/// A text cut to at most `max_chars` characters: unchanged when it fits;
/// otherwise its beginning followed by `...`, the whole cut text being
/// exactly `max_chars` long (only the first `max_chars` dots of `...` when
/// `max_chars` is three or less).
pub open spec fn truncated(text: Seq<char>, max_chars: nat) -> Seq<char> {
    if max_chars <= 3 {
        "..."@.subrange(0, max_chars as int)
    } else if text.len() <= max_chars {
        text
    } else {
        text.subrange(0, max_chars - 3) + "..."@
    }
}

pub fn truncate_text(text: &str, max_chars: usize) -> (r: String)
    ensures
        r@ == truncated(text@, max_chars as nat),
{
    proof {
        reveal_strlit("...");
    }
    let marker = TRUNCATION_MARKER;
    if max_chars <= 3 {
        return string_of(marker.substring_char(0, max_chars));
    }
    let n = text.unicode_len();
    if n <= max_chars {
        return string_of(text);
    }
    let mut out = string_of(text.substring_char(0, max_chars - 3));
    push_text(&mut out, marker);
    out
}

/// A truncated text is never longer than asked.
pub proof fn law_truncated_fits(text: Seq<char>, max_chars: nat)
    ensures
        truncated(text, max_chars).len() <= max_chars,
        max_chars >= 3 && text.len() > max_chars ==> truncated(text, max_chars).len() == max_chars,
{
    reveal_strlit("...");
}

/// A rectangle of terminal cells.
#[derive(Debug, Clone, Copy, PartialEq, Eq, Structural)]
pub struct Rect {
    pub x: u16,
    pub y: u16,
    pub width: u16,
    pub height: u16,
}

/// A rectangle of the given share of `r` (in percent of its width and
/// height, rounded down), centred in it (offsets rounded down).
pub open spec fn centered(percent_x: u16, percent_y: u16, r: Rect) -> Rect {
    let w = (r.width * percent_x / 100) as u16;
    let h = (r.height * percent_y / 100) as u16;
    Rect {
        x: (r.x + (r.width - w) / 2) as u16,
        y: (r.y + (r.height - h) / 2) as u16,
        width: w,
        height: h,
    }
}

/// Whether the centring arithmetic stays within 16-bit numbers (the
/// computation overflows otherwise).
pub open spec fn centering_fits(percent_x: u16, percent_y: u16, r: Rect) -> bool {
    let w = r.width * percent_x / 100;
    let h = r.height * percent_y / 100;
    &&& r.width * percent_x <= u16::MAX
    &&& r.height * percent_y <= u16::MAX
    &&& w <= r.width
    &&& h <= r.height
    &&& r.x + (r.width - w) / 2 <= u16::MAX
    &&& r.y + (r.height - h) / 2 <= u16::MAX
}

pub fn centered_rect(percent_x: u16, percent_y: u16, r: Rect) -> (c: Rect)
    requires
        centering_fits(percent_x, percent_y, r),
    ensures
        c == centered(percent_x, percent_y, r),
{
    let popup_width = r.width * percent_x / 100;
    let popup_height = r.height * percent_y / 100;
    let popup_x = (r.width - popup_width) / 2;
    let popup_y = (r.height - popup_height) / 2;
    Rect { x: r.x + popup_x, y: r.y + popup_y, width: popup_width, height: popup_height }
}

} // verus!
