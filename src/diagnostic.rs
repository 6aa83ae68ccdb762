use vstd::prelude::*;

use crate::cli::{token_view, ArgError, Flag};

verus! {

/// How an option is written in diagnostics: its long form.
pub open spec fn flag_text(f: Flag) -> Seq<char> {
    match f {
        Flag::Increase => "--increase"@,
        Flag::Decrease => "--decrease"@,
        Flag::SetLevel => "--set"@,
        Flag::Get => "--get"@,
        Flag::Timeout => "--timeout"@,
        Flag::Fade => "--fade"@,
        Flag::Steps => "--steps"@,
    }
}

/// The argument at `index`, or nothing past the end.
pub open spec fn token_at(toks: Seq<Seq<char>>, index: int) -> Seq<char> {
    if 0 <= index < toks.len() {
        toks[index]
    } else {
        Seq::empty()
    }
}

/// The one-line diagnostic for a rejected command line `toks`.
pub open spec fn error_text(err: ArgError, toks: Seq<Seq<char>>) -> Seq<char> {
    "error: "@ + match err {
        ArgError::UnknownArgument { index } => "unexpected argument '"@ + token_at(
            toks,
            index as int,
        ) + "'"@,
        ArgError::MissingValue { flag, .. } => "a value is required for '"@ + flag_text(flag)
            + "'"@,
        ArgError::InvalidNumber { flag, index } => "invalid value '"@ + token_at(
            toks,
            index as int,
        ) + "' for '"@ + flag_text(flag) + "'"@,
        ArgError::OutOfRange { flag, index } => "value '"@ + token_at(toks, index as int)
            + "' for '"@ + flag_text(flag) + "' is out of range"@,
        ArgError::UnexpectedValue { flag, .. } => "'"@ + flag_text(flag) + "' takes no value"@,
        ArgError::Repeated { flag, .. } => "'"@ + flag_text(flag)
            + "' cannot be used multiple times"@,
        ArgError::Conflict { first, second } => "'"@ + flag_text(first) + "' cannot be used with '"@
            + flag_text(second) + "'"@,
    }
}

fn flag_str(f: Flag) -> (r: &'static str)
    ensures
        r@ == flag_text(f),
{
    match f {
        Flag::Increase => "--increase",
        Flag::Decrease => "--decrease",
        Flag::SetLevel => "--set",
        Flag::Get => "--get",
        Flag::Timeout => "--timeout",
        Flag::Fade => "--fade",
        Flag::Steps => "--steps",
    }
}

fn append_token(s: &mut String, args: &Vec<String>, index: usize)
    ensures
        final(s)@ == old(s)@ + token_at(token_view(args@), index as int),
{
    if index < args.len() {
        s.append(args[index].as_str());
    } else {
        assert(old(s)@ + Seq::<char>::empty() =~= old(s)@);
    }
}

impl ArgError {
    /// The diagnostic for this rejection of the command line `args`.
    pub fn message(&self, args: &Vec<String>) -> (r: String)
        ensures
            r@ == error_text(*self, token_view(args@)),
    {
        let mut s = String::from_str("error: ");
        match *self {
            ArgError::UnknownArgument { index } => {
                s.append("unexpected argument '");
                append_token(&mut s, args, index);
                s.append("'");
            },
            ArgError::MissingValue { flag, .. } => {
                s.append("a value is required for '");
                s.append(flag_str(flag));
                s.append("'");
            },
            ArgError::InvalidNumber { flag, index } => {
                s.append("invalid value '");
                append_token(&mut s, args, index);
                s.append("' for '");
                s.append(flag_str(flag));
                s.append("'");
            },
            ArgError::OutOfRange { flag, index } => {
                s.append("value '");
                append_token(&mut s, args, index);
                s.append("' for '");
                s.append(flag_str(flag));
                s.append("' is out of range");
            },
            ArgError::UnexpectedValue { flag, .. } => {
                s.append("'");
                s.append(flag_str(flag));
                s.append("' takes no value");
            },
            ArgError::Repeated { flag, .. } => {
                s.append("'");
                s.append(flag_str(flag));
                s.append("' cannot be used multiple times");
            },
            ArgError::Conflict { first, second } => {
                s.append("'");
                s.append(flag_str(first));
                s.append("' cannot be used with '");
                s.append(flag_str(second));
                s.append("'");
            },
        }
        assert(s@ =~= error_text(*self, token_view(args@)));
        s
    }
}

} // verus!
