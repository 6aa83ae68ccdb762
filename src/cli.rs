use vstd::prelude::*;

use crate::laws::law_accepted_in_range;
use crate::number::{number_of, read_number};
use crate::request::{
    FadeParameters, Invocation, Request, DEFAULT_FADE_MS, DEFAULT_STEP, DEFAULT_STEPS,
    DEFAULT_TIMEOUT_MS,
};

verus! {

/// The options of the command line.
#[derive(Clone, Copy, Debug, PartialEq, Eq, Structural)]
pub enum Flag {
    Increase,
    Decrease,
    SetLevel,
    Get,
    Timeout,
    Fade,
    Steps,
}

/// Why a command line was rejected. Each `index` points into the argument
/// list (the program name not counted) at the token concerned.
#[derive(Clone, Copy, Debug, PartialEq, Eq, Structural)]
pub enum ArgError {
    /// The token names no option.
    UnknownArgument { index: usize },
    /// The option needs a value and the line ended.
    MissingValue { flag: Flag, index: usize },
    /// The value is not an integer.
    InvalidNumber { flag: Flag, index: usize },
    /// The value is an integer outside the option's range.
    OutOfRange { flag: Flag, index: usize },
    /// A value was attached to an option that takes none.
    UnexpectedValue { flag: Flag, index: usize },
    /// The option was given twice.
    Repeated { flag: Flag, index: usize },
    /// Two actions that exclude each other were both given.
    Conflict { first: Flag, second: Flag },
}

/// The character of an option's short form.
pub open spec fn short_form(c: char) -> Option<Flag> {
    if c == 'i' {
        Some(Flag::Increase)
    } else if c == 'd' {
        Some(Flag::Decrease)
    } else if c == 's' {
        Some(Flag::SetLevel)
    } else if c == 'g' {
        Some(Flag::Get)
    } else if c == 't' {
        Some(Flag::Timeout)
    } else if c == 'f' {
        Some(Flag::Fade)
    } else if c == 'p' {
        Some(Flag::Steps)
    } else {
        None
    }
}

/// The name of an option's long form, after the two dashes.
pub open spec fn long_form(name: Seq<char>) -> Option<Flag> {
    if name == "increase"@ {
        Some(Flag::Increase)
    } else if name == "decrease"@ {
        Some(Flag::Decrease)
    } else if name == "set"@ {
        Some(Flag::SetLevel)
    } else if name == "get"@ {
        Some(Flag::Get)
    } else if name == "timeout"@ {
        Some(Flag::Timeout)
    } else if name == "fade"@ {
        Some(Flag::Fade)
    } else if name == "steps"@ {
        Some(Flag::Steps)
    } else {
        None
    }
}

/// The first position at or after `from` where `t` holds `c`.
pub open spec fn find_char(t: Seq<char>, c: char, from: int) -> Option<int>
    decreases t.len() - from,
{
    if from < 0 || from >= t.len() {
        None
    } else if t[from] == c {
        Some(from)
    } else {
        find_char(t, c, from + 1)
    }
}

/// The option a token names, and where a value attached to it begins.
/// Accepted forms: `-x`, `-xVALUE`, `-x=VALUE`, `--name` and `--name=VALUE`.
pub open spec fn classify(t: Seq<char>) -> Option<(Flag, Option<int>)> {
    if t.len() >= 2 && t[0] == '-' && t[1] == '-' {
        match find_char(t, '=', 2) {
            Some(e) => match long_form(t.subrange(2, e)) {
                Some(f) => Some((f, Some(e + 1))),
                None => None,
            },
            None => match long_form(t.subrange(2, t.len() as int)) {
                Some(f) => Some((f, None)),
                None => None,
            },
        }
    } else if t.len() >= 2 && t[0] == '-' {
        match short_form(t[1]) {
            Some(f) => if t.len() == 2 {
                Some((f, None))
            } else if t[2] == '=' {
                Some((f, Some(3)))
            } else {
                Some((f, Some(2)))
            },
            None => None,
        }
    } else {
        None
    }
}

/// The values an option accepts.
pub open spec fn in_range(f: Flag, n: int) -> bool {
    match f {
        Flag::Increase | Flag::Decrease => 0 <= n <= 255,
        Flag::SetLevel => 1 <= n <= 100,
        Flag::Get => false,
        Flag::Timeout => i32::MIN <= n <= i32::MAX,
        Flag::Fade => 0 <= n <= 60000,
        Flag::Steps => 1 <= n <= 200,
    }
}

/// The value of option `f` written in `t` from character `from` on, the
/// token standing at `index`.
pub open spec fn read_value(f: Flag, t: Seq<char>, from: int, index: int) -> Result<int, ArgError> {
    match number_of(t.subrange(from, t.len() as int), f == Flag::Timeout) {
        None => Err(ArgError::InvalidNumber { flag: f, index: index as usize }),
        Some(n) => if in_range(f, n) {
            Ok(n)
        } else {
            Err(ArgError::OutOfRange { flag: f, index: index as usize })
        },
    }
}

/// The options met so far while reading a command line, with their values.
#[derive(Clone, Copy, Debug, PartialEq, Eq, Structural)]
pub struct OptionValues {
    pub increase: Option<u8>,
    pub decrease: Option<u8>,
    pub set_level: Option<u8>,
    pub get: bool,
    pub timeout: Option<i32>,
    pub fade: Option<u32>,
    pub steps: Option<u32>,
}

/// No option met yet.
pub open spec fn no_values() -> OptionValues {
    OptionValues {
        increase: None,
        decrease: None,
        set_level: None,
        get: false,
        timeout: None,
        fade: None,
        steps: None,
    }
}

/// Option `f` was met already.
pub open spec fn seen(st: OptionValues, f: Flag) -> bool {
    match f {
        Flag::Increase => st.increase is Some,
        Flag::Decrease => st.decrease is Some,
        Flag::SetLevel => st.set_level is Some,
        Flag::Get => st.get,
        Flag::Timeout => st.timeout is Some,
        Flag::Fade => st.fade is Some,
        Flag::Steps => st.steps is Some,
    }
}

/// `st` with option `f` recorded with value `n` (`--get` takes none).
pub open spec fn with_value(st: OptionValues, f: Flag, n: int) -> OptionValues {
    match f {
        Flag::Increase => OptionValues { increase: Some(n as u8), ..st },
        Flag::Decrease => OptionValues { decrease: Some(n as u8), ..st },
        Flag::SetLevel => OptionValues { set_level: Some(n as u8), ..st },
        Flag::Get => OptionValues { get: true, ..st },
        Flag::Timeout => OptionValues { timeout: Some(n as i32), ..st },
        Flag::Fade => OptionValues { fade: Some(n as u32), ..st },
        Flag::Steps => OptionValues { steps: Some(n as u32), ..st },
    }
}

/// `--increase` and `--decrease` may stand without a value.
pub open spec fn value_optional(f: Flag) -> bool {
    f == Flag::Increase || f == Flag::Decrease
}

/// Option `f`, written without an attached value, takes `next` as its value:
/// always where a value is required, and where it is optional only when
/// `next` does not begin with a dash.
pub open spec fn takes_next(f: Flag, next: Seq<char>) -> bool {
    !value_optional(f) || !(next.len() > 0 && next[0] == '-')
}

/// Reads the tokens from position `i` on, with the options met before in `st`.
pub open spec fn scan(toks: Seq<Seq<char>>, i: int, st: OptionValues) -> Result<OptionValues, ArgError>
    decreases toks.len() - i,
{
    if i < 0 || i >= toks.len() {
        Ok(st)
    } else {
        let t = toks[i];
        match classify(t) {
            None => Err(ArgError::UnknownArgument { index: i as usize }),
            Some((f, attached)) => if seen(st, f) {
                Err(ArgError::Repeated { flag: f, index: i as usize })
            } else if f == Flag::Get {
                if attached is Some {
                    Err(ArgError::UnexpectedValue { flag: f, index: i as usize })
                } else {
                    scan(toks, i + 1, with_value(st, f, 0))
                }
            } else {
                match attached {
                    Some(from) => match read_value(f, t, from, i) {
                        Ok(n) => scan(toks, i + 1, with_value(st, f, n)),
                        Err(e) => Err(e),
                    },
                    None => if i + 1 < toks.len() && takes_next(f, toks[i + 1]) {
                        match read_value(f, toks[i + 1], 0, i + 1) {
                            Ok(n) => scan(toks, i + 2, with_value(st, f, n)),
                            Err(e) => Err(e),
                        }
                    } else if value_optional(f) {
                        scan(toks, i + 1, with_value(st, f, DEFAULT_STEP as int))
                    } else {
                        Err(ArgError::MissingValue { flag: f, index: i as usize })
                    },
                }
            },
        }
    }
}

/// The actions given, in the order increase, decrease, set, get.
pub open spec fn actions_given(st: OptionValues) -> Seq<Flag> {
    (if st.increase is Some { seq![Flag::Increase] } else { seq![] })
        + (if st.decrease is Some { seq![Flag::Decrease] } else { seq![] })
        + (if st.set_level is Some { seq![Flag::SetLevel] } else { seq![] })
        + (if st.get { seq![Flag::Get] } else { seq![] })
}

/// The request that the options met ask for.
pub open spec fn request_of(st: OptionValues) -> Request {
    if let Some(n) = st.increase {
        Request::Increase(n)
    } else if let Some(n) = st.decrease {
        Request::Decrease(n)
    } else if let Some(n) = st.set_level {
        Request::SetLevel(n)
    } else if st.get {
        Request::Get
    } else {
        Request::NoChange
    }
}

/// The invocation that the options met make: two actions conflict, and
/// absent settings take their defaults.
pub open spec fn settle(st: OptionValues) -> Result<Invocation, ArgError> {
    let a = actions_given(st);
    if a.len() >= 2 {
        Err(ArgError::Conflict { first: a[0], second: a[1] })
    } else {
        Ok(
            Invocation {
                request: request_of(st),
                fade: FadeParameters {
                    fade_time_ms: match st.fade {
                        Some(v) => v,
                        None => DEFAULT_FADE_MS,
                    },
                    steps: match st.steps {
                        Some(v) => v,
                        None => DEFAULT_STEPS,
                    },
                },
                timeout_ms: match st.timeout {
                    Some(v) => v,
                    None => DEFAULT_TIMEOUT_MS,
                },
            },
        )
    }
}

/// What a command line (the program name not counted) means.
pub open spec fn parse_tokens(toks: Seq<Seq<char>>) -> Result<Invocation, ArgError> {
    match scan(toks, 0, no_values()) {
        Ok(st) => settle(st),
        Err(e) => Err(e),
    }
}

/// The characters of each argument.
pub open spec fn token_view(args: Seq<String>) -> Seq<Seq<char>> {
    args.map_values(|s: String| s@)
}

fn short_flag(c: char) -> (r: Option<Flag>)
    ensures
        r == short_form(c),
{
    if c == 'i' {
        Some(Flag::Increase)
    } else if c == 'd' {
        Some(Flag::Decrease)
    } else if c == 's' {
        Some(Flag::SetLevel)
    } else if c == 'g' {
        Some(Flag::Get)
    } else if c == 't' {
        Some(Flag::Timeout)
    } else if c == 'f' {
        Some(Flag::Fade)
    } else if c == 'p' {
        Some(Flag::Steps)
    } else {
        None
    }
}

/// Whether characters `from` to `to` of `t` spell `word`.
fn span_is(t: &str, from: usize, to: usize, word: &str) -> (r: bool)
    requires
        from <= to <= t@.len(),
    ensures
        r == (t@.subrange(from as int, to as int) == word@),
{
    let n = word.unicode_len();
    if to - from != n {
        return false;
    }
    let mut k: usize = 0;
    while k < n
        invariant
            n == word@.len(),
            to - from == n,
            from <= to <= t@.len(),
            k <= n,
            forall|j: int| 0 <= j < k ==> t@[from + j] == word@[j],
        decreases n - k,
    {
        if t.get_char(from + k) != word.get_char(k) {
            assert(t@.subrange(from as int, to as int)[k as int] != word@[k as int]);
            return false;
        }
        k = k + 1;
    }
    assert(t@.subrange(from as int, to as int) =~= word@);
    true
}

fn long_flag(t: &str, from: usize, to: usize) -> (r: Option<Flag>)
    requires
        from <= to <= t@.len(),
    ensures
        r == long_form(t@.subrange(from as int, to as int)),
{
    if span_is(t, from, to, "increase") {
        Some(Flag::Increase)
    } else if span_is(t, from, to, "decrease") {
        Some(Flag::Decrease)
    } else if span_is(t, from, to, "set") {
        Some(Flag::SetLevel)
    } else if span_is(t, from, to, "get") {
        Some(Flag::Get)
    } else if span_is(t, from, to, "timeout") {
        Some(Flag::Timeout)
    } else if span_is(t, from, to, "fade") {
        Some(Flag::Fade)
    } else if span_is(t, from, to, "steps") {
        Some(Flag::Steps)
    } else {
        None
    }
}

fn find_in(t: &str, c: char, from: usize) -> (r: Option<usize>)
    requires
        from <= t@.len(),
    ensures
        match r {
            Some(e) => find_char(t@, c, from as int) == Some(e as int) && from <= e < t@.len(),
            None => find_char(t@, c, from as int) is None,
        },
{
    let len = t.unicode_len();
    let mut k: usize = from;
    while k < len
        invariant
            from <= k <= len,
            len == t@.len(),
            find_char(t@, c, k as int) == find_char(t@, c, from as int),
        decreases len - k,
    {
        if t.get_char(k) == c {
            return Some(k);
        }
        k = k + 1;
    }
    None
}

/// The option that the token `t` names, and where an attached value begins.
pub fn classify_token(t: &str) -> (r: Option<(Flag, Option<usize>)>)
    ensures
        match r {
            None => classify(t@) is None,
            Some((f, None)) => classify(t@) == Some((f, None::<int>)),
            Some((f, Some(k))) => classify(t@) == Some((f, Some(k as int))) && k <= t@.len(),
        },
{
    let len = t.unicode_len();
    if len < 2 || t.get_char(0) != '-' {
        return None;
    }
    if t.get_char(1) == '-' {
        match find_in(t, '=', 2) {
            Some(e) => match long_flag(t, 2, e) {
                Some(f) => Some((f, Some(e + 1))),
                None => None,
            },
            None => match long_flag(t, 2, len) {
                Some(f) => Some((f, None)),
                None => None,
            },
        }
    } else {
        match short_flag(t.get_char(1)) {
            Some(f) => if len == 2 {
                Some((f, None))
            } else if t.get_char(2) == '=' {
                Some((f, Some(3)))
            } else {
                Some((f, Some(2)))
            },
            None => None,
        }
    }
}

fn range_holds(f: Flag, n: i64) -> (r: bool)
    ensures
        r == in_range(f, n as int),
{
    match f {
        Flag::Increase | Flag::Decrease => 0 <= n && n <= 255,
        Flag::SetLevel => 1 <= n && n <= 100,
        Flag::Get => false,
        Flag::Timeout => i32::MIN as i64 <= n && n <= i32::MAX as i64,
        Flag::Fade => 0 <= n && n <= 60000,
        Flag::Steps => 1 <= n && n <= 200,
    }
}

fn value_of(f: Flag, t: &str, from: usize, index: usize) -> (r: Result<i64, ArgError>)
    requires
        from <= t@.len(),
    ensures
        match r {
            Ok(n) => read_value(f, t@, from as int, index as int) == Ok::<int, ArgError>(n as int),
            Err(e) => read_value(f, t@, from as int, index as int) == Err::<int, ArgError>(e),
        },
{
    match read_number(t, from, f == Flag::Timeout) {
        None => Err(ArgError::InvalidNumber { flag: f, index }),
        Some(n) => {
            if range_holds(f, n) {
                Ok(n)
            } else {
                Err(ArgError::OutOfRange { flag: f, index })
            }
        },
    }
}

impl OptionValues {
    fn record(self, f: Flag, n: i64) -> (r: OptionValues)
        requires
            f == Flag::Get || in_range(f, n as int),
        ensures
            r == with_value(self, f, n as int),
    {
        match f {
            Flag::Increase => OptionValues { increase: Some(n as u8), ..self },
            Flag::Decrease => OptionValues { decrease: Some(n as u8), ..self },
            Flag::SetLevel => OptionValues { set_level: Some(n as u8), ..self },
            Flag::Get => OptionValues { get: true, ..self },
            Flag::Timeout => OptionValues { timeout: Some(n as i32), ..self },
            Flag::Fade => OptionValues { fade: Some(n as u32), ..self },
            Flag::Steps => OptionValues { steps: Some(n as u32), ..self },
        }
    }

    fn has(&self, f: Flag) -> (r: bool)
        ensures
            r == seen(*self, f),
    {
        match f {
            Flag::Increase => self.increase.is_some(),
            Flag::Decrease => self.decrease.is_some(),
            Flag::SetLevel => self.set_level.is_some(),
            Flag::Get => self.get,
            Flag::Timeout => self.timeout.is_some(),
            Flag::Fade => self.fade.is_some(),
            Flag::Steps => self.steps.is_some(),
        }
    }

    fn finish(self) -> (r: Result<Invocation, ArgError>)
        ensures
            r == settle(self),
    {
        let mut given: Vec<Flag> = Vec::new();
        if self.increase.is_some() {
            given.push(Flag::Increase);
        }
        if self.decrease.is_some() {
            given.push(Flag::Decrease);
        }
        if self.set_level.is_some() {
            given.push(Flag::SetLevel);
        }
        if self.get {
            given.push(Flag::Get);
        }
        assert(given@ =~= actions_given(self));
        if given.len() >= 2 {
            return Err(ArgError::Conflict { first: given[0], second: given[1] });
        }
        let request = if let Some(n) = self.increase {
            Request::Increase(n)
        } else if let Some(n) = self.decrease {
            Request::Decrease(n)
        } else if let Some(n) = self.set_level {
            Request::SetLevel(n)
        } else if self.get {
            Request::Get
        } else {
            Request::NoChange
        };
        let fade_time_ms = match self.fade {
            Some(v) => v,
            None => DEFAULT_FADE_MS,
        };
        let steps = match self.steps {
            Some(v) => v,
            None => DEFAULT_STEPS,
        };
        let timeout_ms = match self.timeout {
            Some(v) => v,
            None => DEFAULT_TIMEOUT_MS,
        };
        Ok(Invocation { request, fade: FadeParameters { fade_time_ms, steps }, timeout_ms })
    }
}

/// Reads a command line (the program name not counted) into an invocation,
/// or says why it is rejected.
pub fn parse_args(args: &Vec<String>) -> (r: Result<Invocation, ArgError>)
    ensures
        r == parse_tokens(token_view(args@)),
        r matches Ok(inv) ==> inv.wf(),
{
    let ghost toks = token_view(args@);
    proof {
        if parse_tokens(toks) is Ok {
            law_accepted_in_range(toks);
        }
    }
    let n = args.len();
    let mut st = OptionValues {
        increase: None,
        decrease: None,
        set_level: None,
        get: false,
        timeout: None,
        fade: None,
        steps: None,
    };
    let mut i: usize = 0;
    while i < n
        invariant
            n == args@.len(),
            toks == token_view(args@),
            toks.len() == n,
            i <= n,
            scan(toks, i as int, st) == scan(toks, 0, no_values()),
        decreases n - i,
    {
        let t = args[i].as_str();
        assert(toks[i as int] == t@);
        match classify_token(t) {
            None => return Err(ArgError::UnknownArgument { index: i }),
            Some((f, attached)) => {
                if st.has(f) {
                    return Err(ArgError::Repeated { flag: f, index: i });
                }
                if f == Flag::Get {
                    if attached.is_some() {
                        return Err(ArgError::UnexpectedValue { flag: f, index: i });
                    }
                    st = st.record(f, 0);
                    i = i + 1;
                } else {
                    match attached {
                        Some(from) => {
                            match value_of(f, t, from, i) {
                                Ok(v) => {
                                    st = st.record(f, v);
                                    i = i + 1;
                                },
                                Err(e) => return Err(e),
                            }
                        },
                        None => {
                            let optional = f == Flag::Increase || f == Flag::Decrease;
                            let mut takes = false;
                            if i + 1 < n {
                                let next = args[i + 1].as_str();
                                assert(toks[i + 1] == next@);
                                takes = !optional || !(next.unicode_len() > 0 && next.get_char(0)
                                    == '-');
                            }
                            if takes {
                                let next = args[i + 1].as_str();
                                assert(toks[i + 1] == next@);
                                match value_of(f, next, 0, i + 1) {
                                    Ok(v) => {
                                        assert(next@.subrange(0, next@.len() as int) =~= next@);
                                        st = st.record(f, v);
                                        i = i + 2;
                                    },
                                    Err(e) => {
                                        assert(next@.subrange(0, next@.len() as int) =~= next@);
                                        return Err(e);
                                    },
                                }
                            } else if optional {
                                st = st.record(f, DEFAULT_STEP as i64);
                                i = i + 1;
                            } else {
                                return Err(ArgError::MissingValue { flag: f, index: i });
                            }
                        },
                    }
                }
            },
        }
    }
    st.finish()
}

} // verus!
