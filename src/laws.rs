use vstd::prelude::*;

use crate::cli::{
    classify, no_values, parse_tokens, read_value, scan, seen, takes_next, with_value, Flag,
    OptionValues,
};
use crate::controller::{AdjustKind, Adjustment};
use crate::decimal::dec_chars;
use crate::notice::{status_text, NOTIFICATION_ID};
use crate::number::number_of;
use crate::request::{
    Invocation, Request, DEFAULT_FADE_MS, DEFAULT_STEP, DEFAULT_STEPS, DEFAULT_TIMEOUT_MS,
};
use crate::session::{
    action_is, adjust_failure_text, next_step, run_trace, trace_from, Action, Event, Phase, Step,
};

verus! {

/// Token `t` names option `f`.
pub open spec fn names_flag(t: Seq<char>, f: Flag) -> bool {
    classify(t) matches Some((g, _)) && g == f
}

/// `f` is one of the four actions.
pub open spec fn is_action(f: Flag) -> bool {
    f == Flag::Increase || f == Flag::Decrease || f == Flag::SetLevel || f == Flag::Get
}

/// The recorded values lie in their options' ranges.
pub open spec fn values_in_range(st: OptionValues) -> bool {
    &&& (st.set_level matches Some(n) ==> 1 <= n <= 100)
    &&& (st.fade matches Some(n) ==> n <= 60000)
    &&& (st.steps matches Some(n) ==> 1 <= n <= 200)
}

/// A token that names an option is never read as a number.
proof fn lemma_option_is_no_number(t: Seq<char>, f: Flag, index: int)
    requires
        classify(t) is Some,
    ensures
        read_value(f, t, 0, index) is Err,
{
    assert(t.subrange(0, t.len() as int) =~= t);
    let signed = f == Flag::Timeout;
    let neg = signed && t.len() > 0 && t[0] == '-';
    let has_sign = t.len() > 0 && (t[0] == '+' || neg);
    let digits = if has_sign { t.drop_first() } else { t };
    assert(digits.len() > 0 ==> digits[0] == t[1] || digits[0] == t[0]);
    assert(number_of(t, signed) is None);
}

/// Reading the rest of the tokens keeps every option met so far, meets
/// every option that a later token names, and keeps values in range.
proof fn lemma_scan_meets(toks: Seq<Seq<char>>, i: int, st: OptionValues)
    requires
        0 <= i,
        scan(toks, i, st) is Ok,
    ensures
        forall|f: Flag| seen(st, f) ==> seen(scan(toks, i, st)->Ok_0, f),
        forall|j: int, f: Flag|
            i <= j < toks.len() && names_flag(toks[j], f) ==> seen(scan(toks, i, st)->Ok_0, f),
        values_in_range(st) ==> values_in_range(scan(toks, i, st)->Ok_0),
    decreases toks.len() - i,
{
    if i < toks.len() {
        let t = toks[i];
        let (f, attached) = classify(t)->Some_0;
        let fin = scan(toks, i, st)->Ok_0;
        let (next, rest) = if f == Flag::Get {
            (i + 1, with_value(st, f, 0))
        } else {
            match attached {
                Some(from) => (i + 1, with_value(st, f, read_value(f, t, from, i)->Ok_0)),
                None => if i + 1 < toks.len() && takes_next(f, toks[i + 1]) {
                    if classify(toks[i + 1]) is Some {
                        lemma_option_is_no_number(toks[i + 1], f, i + 1);
                    }
                    (i + 2, with_value(st, f, read_value(f, toks[i + 1], 0, i + 1)->Ok_0))
                } else {
                    (i + 1, with_value(st, f, DEFAULT_STEP as int))
                },
            }
        };
        assert(scan(toks, next, rest) == scan(toks, i, st));
        lemma_scan_meets(toks, next, rest);
        assert forall|g: Flag| seen(st, g) implies seen(fin, g) by {
            assert(seen(rest, g));
        }
        assert forall|j: int, g: Flag|
            i <= j < toks.len() && names_flag(toks[j], g) implies seen(fin, g) by {
            if j == i {
                assert(g == f);
                assert(seen(rest, f));
            } else if j == i + 1 && next == i + 2 {
                assert(classify(toks[i + 1]) is None);
            }
        }
    }
}

/// An option that no later token names stays as it was.
proof fn lemma_scan_leaves(toks: Seq<Seq<char>>, i: int, st: OptionValues, f: Flag)
    requires
        0 <= i,
        scan(toks, i, st) is Ok,
        forall|j: int| i <= j < toks.len() ==> !names_flag(#[trigger] toks[j], f),
    ensures
        seen(scan(toks, i, st)->Ok_0, f) == seen(st, f),
    decreases toks.len() - i,
{
    if i < toks.len() {
        let t = toks[i];
        assert(!names_flag(toks[i], f));
        let (g, attached) = classify(t)->Some_0;
        if g == Flag::Get {
            lemma_scan_leaves(toks, i + 1, with_value(st, g, 0), f);
        } else {
            match attached {
                Some(from) => {
                    let n = read_value(g, t, from, i)->Ok_0;
                    lemma_scan_leaves(toks, i + 1, with_value(st, g, n), f);
                },
                None => {
                    if i + 1 < toks.len() && takes_next(g, toks[i + 1]) {
                        let n = read_value(g, toks[i + 1], 0, i + 1)->Ok_0;
                        lemma_scan_leaves(toks, i + 2, with_value(st, g, n), f);
                    } else {
                        lemma_scan_leaves(toks, i + 1, with_value(st, g, DEFAULT_STEP as int), f);
                    }
                },
            }
        }
    }
}

/// Two different actions on one command line are rejected, whatever else
/// it holds and in whichever form or order they are written.
pub proof fn law_actions_exclude_each_other(toks: Seq<Seq<char>>, j: int, k: int, a: Flag, b: Flag)
    requires
        0 <= j < toks.len(),
        0 <= k < toks.len(),
        names_flag(toks[j], a),
        names_flag(toks[k], b),
        is_action(a),
        is_action(b),
        a != b,
    ensures
        parse_tokens(toks) is Err,
{
    if scan(toks, 0, no_values()) is Ok {
        lemma_scan_meets(toks, 0, no_values());
    }
}

/// A setting that no token names takes its default: 100 ms of fade,
/// 25 steps, a timeout of 2000 ms.
pub proof fn law_absent_settings_default(toks: Seq<Seq<char>>)
    requires
        parse_tokens(toks) is Ok,
    ensures
        (forall|j: int| 0 <= j < toks.len() ==> !names_flag(#[trigger] toks[j], Flag::Fade))
            ==> parse_tokens(toks)->Ok_0.fade.fade_time_ms == DEFAULT_FADE_MS,
        (forall|j: int| 0 <= j < toks.len() ==> !names_flag(#[trigger] toks[j], Flag::Steps))
            ==> parse_tokens(toks)->Ok_0.fade.steps == DEFAULT_STEPS,
        (forall|j: int| 0 <= j < toks.len() ==> !names_flag(#[trigger] toks[j], Flag::Timeout))
            ==> parse_tokens(toks)->Ok_0.timeout_ms == DEFAULT_TIMEOUT_MS,
{
    if forall|j: int| 0 <= j < toks.len() ==> !names_flag(#[trigger] toks[j], Flag::Fade) {
        lemma_scan_leaves(toks, 0, no_values(), Flag::Fade);
    }
    if forall|j: int| 0 <= j < toks.len() ==> !names_flag(#[trigger] toks[j], Flag::Steps) {
        lemma_scan_leaves(toks, 0, no_values(), Flag::Steps);
    }
    if forall|j: int| 0 <= j < toks.len() ==> !names_flag(#[trigger] toks[j], Flag::Timeout) {
        lemma_scan_leaves(toks, 0, no_values(), Flag::Timeout);
    }
}

/// Every accepted command line has its fade, steps and set target in range.
pub proof fn law_accepted_in_range(toks: Seq<Seq<char>>)
    requires
        parse_tokens(toks) is Ok,
    ensures
        parse_tokens(toks)->Ok_0.wf(),
{
    lemma_scan_meets(toks, 0, no_values());
}

/// With a set request, a run whose change, read and notification succeed
/// takes exactly these actions in this order: one change to the target, one
/// read, one notification of the level read, then success.
pub proof fn law_set_then_read_then_notify(inv: Invocation, n: u8, level: u8)
    requires
        inv.request == Request::SetLevel(n),
    ensures
        run_trace(inv, seq![Event::Adjusted(true), Event::LevelRead(Some(level)), Event::Shown(Ok(()))])
            == seq![
            Step::Adjust(Adjustment { kind: AdjustKind::SetLevel, percent: n, fade: inv.fade }),
            Step::ReadLevel,
            Step::Show(level),
            Step::Finish { success: true, stdout: Some(status_text(level as nat)), stderr: None },
        ],
{
    let events = seq![Event::Adjusted(true), Event::LevelRead(Some(level)), Event::Shown(Ok(()))];
    let e1 = events.drop_first();
    let e2 = e1.drop_first();
    let e3 = e2.drop_first();
    assert(e1 =~= seq![Event::LevelRead(Some(level)), Event::Shown(Ok(()))]);
    assert(e2 =~= seq![Event::Shown(Ok(()))]);
    assert(e3 =~= Seq::<Event>::empty());
    let done = Step::Finish { success: true, stdout: Some(status_text(level as nat)), stderr: None };
    assert(trace_from(inv, Phase::Done, e3) == Seq::<Step>::empty());
    assert(trace_from(inv, Phase::Notifying(level), e2) =~= seq![done]);
    assert(trace_from(inv, Phase::Reading, e1) =~= seq![Step::Show(level), done]);
    assert(trace_from(inv, Phase::Adjusting, events) =~= seq![Step::ReadLevel, Step::Show(level), done]);
    assert(run_trace(inv, events) =~= seq![
        Step::Adjust(Adjustment { kind: AdjustKind::SetLevel, percent: n, fade: inv.fade }),
        Step::ReadLevel,
        Step::Show(level),
        done,
    ]);
}

/// With `--get`, a run changes nothing: it reads once, notifies once when
/// the read succeeded, and succeeds exactly when both did.
pub proof fn law_get_only(inv: Invocation, read: Option<u8>, shown: Result<(), String>)
    requires
        inv.request == Request::Get,
    ensures
        ({
            let tr = run_trace(inv, seq![Event::LevelRead(read), Event::Shown(shown)]);
            &&& forall|k: int| 0 <= k < tr.len() ==> !(tr[k] is Adjust)
            &&& tr[0] == Step::ReadLevel
            &&& tr.len() == if read is Some { 3int } else { 2int }
            &&& read matches Some(b) ==> tr[1] == Step::Show(b)
            &&& tr.last() matches Step::Finish { success, .. } && success == (read is Some
                && shown is Ok)
        }),
{
    let events = seq![Event::LevelRead(read), Event::Shown(shown)];
    let e1 = events.drop_first();
    let e2 = e1.drop_first();
    assert(e1 =~= seq![Event::Shown(shown)]);
    assert(e2 =~= Seq::<Event>::empty());
    assert(trace_from(inv, Phase::Done, e1) == Seq::<Step>::empty());
    assert(trace_from(inv, Phase::Done, e2) == Seq::<Step>::empty());
    if let Some(b) = read {
        let last = next_step(inv, Phase::Notifying(b), Event::Shown(shown)).1;
        assert(trace_from(inv, Phase::Notifying(b), e1) =~= seq![last]);
        assert(trace_from(inv, Phase::Reading, events) =~= seq![Step::Show(b), last]);
        assert(run_trace(inv, events) =~= seq![Step::ReadLevel, Step::Show(b), last]);
    } else {
        let last = next_step(inv, Phase::Reading, Event::LevelRead(read)).1;
        assert(trace_from(inv, Phase::Reading, events) =~= seq![last]);
        assert(run_trace(inv, events) =~= seq![Step::ReadLevel, last]);
    }
}

/// When setting the level fails, the run ends at once, without a read or a
/// notification and whatever else is reported, in failure with a diagnostic
/// that names the target.
pub proof fn law_failed_set_stops(inv: Invocation, n: u8, rest: Seq<Event>)
    requires
        inv.request == Request::SetLevel(n),
    ensures
        run_trace(inv, seq![Event::Adjusted(false)] + rest) == seq![
            Step::Adjust(Adjustment { kind: AdjustKind::SetLevel, percent: n, fade: inv.fade }),
            Step::Finish {
                success: false,
                stdout: None,
                stderr: Some(adjust_failure_text(inv.request)),
            },
        ],
        adjust_failure_text(inv.request).subrange(35, 35 + dec_chars(n as nat).len() as int)
            == dec_chars(n as nat),
{
    let events = seq![Event::Adjusted(false)] + rest;
    assert(events[0] == Event::Adjusted(false));
    assert(trace_from(inv, Phase::Done, events.drop_first()) == Seq::<Step>::empty());
    assert(run_trace(inv, events) =~= seq![
        Step::Adjust(Adjustment { kind: AdjustKind::SetLevel, percent: n, fade: inv.fade }),
        Step::Finish {
            success: false,
            stdout: None,
            stderr: Some(adjust_failure_text(inv.request)),
        },
    ]);
    reveal_strlit("Error: failed to set brightness to ");
    assert(adjust_failure_text(inv.request).subrange(35, 35 + dec_chars(n as nat).len() as int)
        =~= dec_chars(n as nat));
}

/// Every notification a run shows carries the same identifier, so each one
/// replaces the one before.
pub proof fn law_one_notification_id(
    inv1: Invocation,
    a1: Action,
    b1: u8,
    inv2: Invocation,
    a2: Action,
    b2: u8,
)
    requires
        action_is(a1, Step::Show(b1), inv1),
        action_is(a2, Step::Show(b2), inv2),
    ensures
        a1->Show_0.id == a2->Show_0.id,
        a1->Show_0.id == NOTIFICATION_ID,
{
}

} // verus!
