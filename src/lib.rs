//! Brightness adjustment with desktop notification feedback.
//!
//! The library holds the decision logic: reading the command line into a
//! request, building the argument lists of the brightness program, choosing
//! what a notification says, and sequencing one run as a state machine whose
//! actions (running the program, showing a notification) the caller performs.
mod cli;
mod controller;
mod decimal;
mod diagnostic;
mod laws;
mod notice;
mod number;
mod request;
mod session;

pub use cli::{classify_token, parse_args, ArgError, Flag, OptionValues};
pub use controller::{
    level_from_rounded, read_args, AdjustKind, Adjustment, BRIGHTNESS_PROGRAM,
};
pub use decimal::decimal_string;
pub use notice::{notification_body, notification_icon, status_line, Band, Notice, NOTIFICATION_ID};
pub use number::read_number;
pub use request::{
    FadeParameters, Invocation, Request, DEFAULT_FADE_MS, DEFAULT_STEP, DEFAULT_STEPS,
    DEFAULT_TIMEOUT_MS,
};
pub use session::{Action, Event, Phase, Report, Session};
