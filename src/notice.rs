use vstd::prelude::*;

use crate::decimal::{dec_chars, decimal_string};

verus! {

/// The identifier every notification is sent with, so that a notification
/// server replaces the previous popup instead of stacking a new one.
pub const NOTIFICATION_ID: u32 = 1;

/// The three brightness ranges that each have their own icon.
#[derive(Clone, Copy, Debug, PartialEq, Eq, Structural)]
pub enum Band {
    Low,
    Medium,
    High,
}

/// The band of a brightness level: below 33, below 66, or above.
pub open spec fn band_of(brightness: int) -> Band {
    if brightness < 33 {
        Band::Low
    } else if brightness < 66 {
        Band::Medium
    } else {
        Band::High
    }
}

/// The freedesktop icon name shown for a band.
pub open spec fn icon_name(band: Band) -> Seq<char> {
    match band {
        Band::Low => "display-brightness-low"@,
        Band::Medium => "display-brightness-medium"@,
        Band::High => "display-brightness-high"@,
    }
}

/// The body of the notification for a brightness level: `<N>% Brightness`.
pub open spec fn body_text(brightness: nat) -> Seq<char> {
    dec_chars(brightness) + "% Brightness"@
}

/// The line reported on standard output after a notification was shown:
/// `Current brightness: <N>%`.
pub open spec fn status_text(brightness: nat) -> Seq<char> {
    "Current brightness: "@ + dec_chars(brightness) + "%"@
}

/// The summary line every notification carries.
pub open spec fn summary_text() -> Seq<char> {
    "Brightness"@
}

impl Band {
    /// The band that `brightness` falls in.
    pub fn of(brightness: u8) -> (r: Band)
        ensures
            r == band_of(brightness as int),
    {
        if brightness < 33 {
            Band::Low
        } else if brightness < 66 {
            Band::Medium
        } else {
            Band::High
        }
    }
}

/// The icon name for a brightness level.
pub fn notification_icon(brightness: u8) -> (r: &'static str)
    ensures
        r@ == icon_name(band_of(brightness as int)),
{
    match Band::of(brightness) {
        Band::Low => "display-brightness-low",
        Band::Medium => "display-brightness-medium",
        Band::High => "display-brightness-high",
    }
}

/// The body text for a brightness level.
pub fn notification_body(brightness: u8) -> (r: String)
    ensures
        r@ == body_text(brightness as nat),
{
    let mut s = decimal_string(brightness as u64);
    s.append("% Brightness");
    s
}

/// The status line for a brightness level.
pub fn status_line(brightness: u8) -> (r: String)
    ensures
        r@ == status_text(brightness as nat),
{
    let mut s = String::from_str("Current brightness: ");
    let digits = decimal_string(brightness as u64);
    s.append(digits.as_str());
    s.append("%");
    s
}

/// Everything a desktop notification about the brightness level holds.
#[derive(Debug)]
pub struct Notice {
    pub summary: String,
    pub body: String,
    pub icon: String,
    /// Milliseconds; zero or less leaves the duration to the server.
    pub timeout_ms: i32,
    pub id: u32,
}

impl Notice {
    /// The notification that reports `brightness`, shown for `timeout_ms`.
    pub fn for_brightness(brightness: u8, timeout_ms: i32) -> (r: Notice)
        ensures
            r.describes(brightness as nat, timeout_ms),
    {
        Notice {
            summary: String::from_str("Brightness"),
            body: notification_body(brightness),
            icon: String::from_str(notification_icon(brightness)),
            timeout_ms,
            id: NOTIFICATION_ID,
        }
    }

    /// This notice reports `brightness` with timeout `timeout_ms`.
    pub open spec fn describes(&self, brightness: nat, timeout_ms: i32) -> bool {
        &&& self.summary@ == summary_text()
        &&& self.body@ == body_text(brightness)
        &&& self.icon@ == icon_name(band_of(brightness as int))
        &&& self.timeout_ms == timeout_ms
        &&& self.id == NOTIFICATION_ID
    }
}

} // verus!
