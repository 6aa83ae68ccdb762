use vstd::prelude::*;

use crate::controller::{AdjustKind, Adjustment};
use crate::decimal::{dec_chars, decimal_string};
use crate::notice::{status_line, status_text, Notice};
use crate::request::{Invocation, Request};

verus! {

/// Where a run stands.
#[derive(Clone, Copy, Debug, PartialEq, Eq, Structural)]
pub enum Phase {
    /// Waiting for the brightness program to apply a change.
    Adjusting,
    /// Waiting for the brightness program to report the level.
    Reading,
    /// Waiting for the notification reporting this level to be shown.
    Notifying(u8),
    /// Finished.
    Done,
}

/// What the outside world reports back after an action.
#[derive(Debug)]
pub enum Event {
    /// The change was applied (`true`) or the program failed.
    Adjusted(bool),
    /// The level that was read, or `None` where reading failed.
    LevelRead(Option<u8>),
    /// The notification was shown, or failed with this description.
    Shown(Result<(), String>),
}

/// How a run ends: its success, and the lines for standard output and
/// standard error.
#[derive(Debug)]
pub struct Report {
    pub success: bool,
    pub stdout: Option<String>,
    pub stderr: Option<String>,
}

/// What the outside world is asked to do next.
#[derive(Debug)]
pub enum Action {
    /// Run the brightness program to make this change.
    Adjust(Adjustment),
    /// Run the brightness program to read the level.
    ReadLevel,
    /// Show this notification.
    Show(Notice),
    /// Write the report and exit, with status zero exactly on success.
    Finish(Report),
}

/// The model of an action: a shown notification by the level it reports.
pub enum Step {
    Adjust(Adjustment),
    ReadLevel,
    Show(u8),
    Finish { success: bool, stdout: Option<Seq<char>>, stderr: Option<Seq<char>> },
}

/// The characters of an optional string.
pub open spec fn text_of(s: Option<String>) -> Option<Seq<char>> {
    match s {
        Some(t) => Some(t@),
        None => None,
    }
}

/// Action `a`, taken in a run of `inv`, is the step `s`.
pub open spec fn action_is(a: Action, s: Step, inv: Invocation) -> bool {
    match (a, s) {
        (Action::Adjust(x), Step::Adjust(y)) => x == y,
        (Action::ReadLevel, Step::ReadLevel) => true,
        (Action::Show(n), Step::Show(b)) => n.describes(b as nat, inv.timeout_ms),
        (Action::Finish(r), Step::Finish { success, stdout, stderr }) => {
            &&& r.success == success
            &&& text_of(r.stdout) == stdout
            &&& text_of(r.stderr) == stderr
        },
        _ => false,
    }
}

/// The change of brightness that a request asks for, if any.
pub open spec fn adjustment_of(inv: Invocation) -> Option<Adjustment> {
    match inv.request {
        Request::Increase(n) => Some(
            Adjustment { kind: AdjustKind::Increase, percent: n, fade: inv.fade },
        ),
        Request::Decrease(n) => Some(
            Adjustment { kind: AdjustKind::Decrease, percent: n, fade: inv.fade },
        ),
        Request::SetLevel(n) => Some(
            Adjustment { kind: AdjustKind::SetLevel, percent: n, fade: inv.fade },
        ),
        Request::Get | Request::NoChange => None,
    }
}

/// The diagnostic when the brightness program fails to apply a change.
pub open spec fn adjust_failure_text(req: Request) -> Seq<char> {
    match req {
        Request::SetLevel(n) => "Error: failed to set brightness to "@ + dec_chars(n as nat) + "."@,
        _ => "Error: failed to adjust the brightness level."@,
    }
}

/// The diagnostic when the level cannot be read.
pub open spec fn read_failure_text() -> Seq<char> {
    "Error: failed to read the brightness level."@
}

/// The diagnostic when the notification fails, with the failure's description.
pub open spec fn notify_failure_text(detail: Seq<char>) -> Seq<char> {
    "Error: failed to display notification: "@ + detail + "."@
}

/// The first phase and action of a run.
pub open spec fn first_step(inv: Invocation) -> (Phase, Step) {
    match adjustment_of(inv) {
        Some(a) => (Phase::Adjusting, Step::Adjust(a)),
        None => (Phase::Reading, Step::ReadLevel),
    }
}

/// `ev` answers the action taken on entering `phase`.
pub open spec fn awaits(phase: Phase, ev: Event) -> bool {
    match (phase, ev) {
        (Phase::Adjusting, Event::Adjusted(_)) => true,
        (Phase::Reading, Event::LevelRead(_)) => true,
        (Phase::Notifying(_), Event::Shown(_)) => true,
        _ => false,
    }
}

/// The phase and action that follow `ev` in `phase`.
pub open spec fn next_step(inv: Invocation, phase: Phase, ev: Event) -> (Phase, Step) {
    let fail = |text: Seq<char>| Step::Finish { success: false, stdout: None, stderr: Some(text) };
    match (phase, ev) {
        (Phase::Adjusting, Event::Adjusted(true)) => (Phase::Reading, Step::ReadLevel),
        (Phase::Adjusting, Event::Adjusted(false)) => (
            Phase::Done,
            fail(adjust_failure_text(inv.request)),
        ),
        (Phase::Reading, Event::LevelRead(Some(b))) => (Phase::Notifying(b), Step::Show(b)),
        (Phase::Reading, Event::LevelRead(None)) => (Phase::Done, fail(read_failure_text())),
        (Phase::Notifying(b), Event::Shown(Ok(()))) => (
            Phase::Done,
            Step::Finish { success: true, stdout: Some(status_text(b as nat)), stderr: None },
        ),
        (Phase::Notifying(_), Event::Shown(Err(d))) => (
            Phase::Done,
            fail(notify_failure_text(d@)),
        ),
        // An event that answers nothing asked is ruled out by `awaits`.
        _ => (phase, fail(Seq::empty())),
    }
}

/// The actions taken after `phase` while `events` answer them, one by one,
/// until the run finishes or an event answers nothing asked.
pub open spec fn trace_from(inv: Invocation, phase: Phase, events: Seq<Event>) -> Seq<Step>
    decreases events.len(),
{
    if events.len() == 0 || phase == Phase::Done || !awaits(phase, events[0]) {
        Seq::empty()
    } else {
        let (p, s) = next_step(inv, phase, events[0]);
        seq![s] + trace_from(inv, p, events.drop_first())
    }
}

/// All actions of a run of `inv` whose actions are answered by `events`.
pub open spec fn run_trace(inv: Invocation, events: Seq<Event>) -> Seq<Step> {
    seq![first_step(inv).1] + trace_from(inv, first_step(inv).0, events)
}

/// One run of the utility: the validated invocation and where it stands.
pub struct Session {
    pub invocation: Invocation,
    pub phase: Phase,
}

fn failure(text: String) -> (r: Action)
    ensures
        r matches Action::Finish(rep) && !rep.success && rep.stdout is None && rep.stderr == Some(
            text,
        ),
{
    Action::Finish(Report { success: false, stdout: None, stderr: Some(text) })
}

impl Session {
    /// Begins a run of `invocation`, with its first action.
    pub fn start(invocation: Invocation) -> (r: (Session, Action))
        ensures
            r.0.invocation == invocation,
            r.0.phase == first_step(invocation).0,
            action_is(r.1, first_step(invocation).1, invocation),
    {
        let kind = match invocation.request {
            Request::Increase(_) => AdjustKind::Increase,
            Request::Decrease(_) => AdjustKind::Decrease,
            Request::SetLevel(_) => AdjustKind::SetLevel,
            Request::Get | Request::NoChange => {
                return (Session { invocation, phase: Phase::Reading }, Action::ReadLevel);
            },
        };
        let percent = match invocation.request {
            Request::Increase(n) | Request::Decrease(n) | Request::SetLevel(n) => n,
            Request::Get | Request::NoChange => 0,
        };
        (
            Session { invocation, phase: Phase::Adjusting },
            Action::Adjust(Adjustment { kind, percent, fade: invocation.fade }),
        )
    }

    /// Whether `event` answers the action this session last asked for.
    pub fn awaits(&self, event: &Event) -> (r: bool)
        ensures
            r == awaits(self.phase, *event),
    {
        match (self.phase, event) {
            (Phase::Adjusting, Event::Adjusted(_)) => true,
            (Phase::Reading, Event::LevelRead(_)) => true,
            (Phase::Notifying(_), Event::Shown(_)) => true,
            _ => false,
        }
    }

    /// Whether the run has finished.
    pub fn is_done(&self) -> (r: bool)
        ensures
            r == (self.phase == Phase::Done),
    {
        self.phase == Phase::Done
    }

    /// Takes the answer to the last action and says what to do next.
    pub fn advance(&mut self, event: Event) -> (r: Action)
        requires
            awaits(old(self).phase, event),
        ensures
            final(self).invocation == old(self).invocation,
            final(self).phase == next_step(old(self).invocation, old(self).phase, event).0,
            action_is(r, next_step(old(self).invocation, old(self).phase, event).1, old(self).invocation),
    {
        let inv = self.invocation;
        match event {
            Event::Adjusted(true) => {
                self.phase = Phase::Reading;
                Action::ReadLevel
            },
            Event::Adjusted(false) => {
                self.phase = Phase::Done;
                let text = match inv.request {
                    Request::SetLevel(n) => {
                        let mut t = String::from_str("Error: failed to set brightness to ");
                        let digits = decimal_string(n as u64);
                        t.append(digits.as_str());
                        t.append(".");
                        t
                    },
                    _ => String::from_str("Error: failed to adjust the brightness level."),
                };
                failure(text)
            },
            Event::LevelRead(Some(b)) => {
                self.phase = Phase::Notifying(b);
                Action::Show(Notice::for_brightness(b, inv.timeout_ms))
            },
            Event::LevelRead(None) => {
                self.phase = Phase::Done;
                failure(String::from_str("Error: failed to read the brightness level."))
            },
            Event::Shown(shown) => {
                let b = match self.phase {
                    Phase::Notifying(b) => b,
                    _ => 0,
                };
                self.phase = Phase::Done;
                match shown {
                    Ok(()) => Action::Finish(
                        Report { success: true, stdout: Some(status_line(b)), stderr: None },
                    ),
                    Err(detail) => {
                        let mut t = String::from_str("Error: failed to display notification: ");
                        t.append(detail.as_str());
                        t.append(".");
                        failure(t)
                    },
                }
            },
        }
    }
}

} // verus!
