use brightness_notify::{
    classify_token, parse_args, read_number, ArgError, FadeParameters, Flag, Invocation, Request,
};

fn parse(a: &[&str]) -> Result<Invocation, ArgError> {
    let v: Vec<String> = a.iter().map(|s| s.to_string()).collect();
    parse_args(&v)
}

fn action_forms(f: Flag) -> Vec<Vec<&'static str>> {
    match f {
        Flag::Increase => vec![vec!["-i"], vec!["--increase", "10"]],
        Flag::Decrease => vec![vec!["-d"], vec!["--decrease=3"]],
        Flag::SetLevel => vec![vec!["-s", "50"], vec!["--set", "1"]],
        Flag::Get => vec![vec!["-g"], vec!["--get"]],
        _ => vec![],
    }
}

#[test]
fn every_pair_of_actions_is_rejected() {
    let actions = [Flag::Increase, Flag::Decrease, Flag::SetLevel, Flag::Get];
    for a in actions {
        for b in actions {
            if a == b {
                continue;
            }
            for fa in action_forms(a) {
                for fb in action_forms(b) {
                    let mut line = fa.clone();
                    line.extend(fb.iter());
                    let r = parse(&line);
                    assert!(r.is_err(), "{:?} accepted", line);
                }
            }
        }
    }
    assert_eq!(
        parse(&["-i", "-d"]),
        Err(ArgError::Conflict { first: Flag::Increase, second: Flag::Decrease })
    );
    assert_eq!(
        parse(&["-g", "-s", "5"]),
        Err(ArgError::Conflict { first: Flag::SetLevel, second: Flag::Get })
    );
}

#[test]
fn bare_flags_take_defaults() {
    let defaults = FadeParameters { fade_time_ms: 100, steps: 25 };
    assert_eq!(
        parse(&["-i"]),
        Ok(Invocation { request: Request::Increase(5), fade: defaults, timeout_ms: 2000 })
    );
    assert_eq!(
        parse(&["-d"]),
        Ok(Invocation { request: Request::Decrease(5), fade: defaults, timeout_ms: 2000 })
    );
    assert_eq!(
        parse(&[]),
        Ok(Invocation { request: Request::NoChange, fade: defaults, timeout_ms: 2000 })
    );
    assert_eq!(parse(&["-g"]).unwrap().request, Request::Get);
    assert_eq!(parse(&["-i", "0"]).unwrap().request, Request::Increase(0));
    assert_eq!(parse(&["-d", "255"]).unwrap().request, Request::Decrease(255));
}

#[test]
fn out_of_range_values_rejected() {
    assert_eq!(parse(&["-s", "0"]), Err(ArgError::OutOfRange { flag: Flag::SetLevel, index: 1 }));
    assert_eq!(parse(&["-s", "101"]), Err(ArgError::OutOfRange { flag: Flag::SetLevel, index: 1 }));
    assert_eq!(parse(&["-f", "60001"]), Err(ArgError::OutOfRange { flag: Flag::Fade, index: 1 }));
    assert_eq!(parse(&["-p", "0"]), Err(ArgError::OutOfRange { flag: Flag::Steps, index: 1 }));
    assert_eq!(parse(&["-p", "201"]), Err(ArgError::OutOfRange { flag: Flag::Steps, index: 1 }));
    assert_eq!(parse(&["-i", "256"]), Err(ArgError::OutOfRange { flag: Flag::Increase, index: 1 }));
    assert_eq!(
        parse(&["-t", "2147483648"]),
        Err(ArgError::OutOfRange { flag: Flag::Timeout, index: 1 })
    );
    assert_eq!(
        parse(&["-t", "99999999999999999999999"]),
        Err(ArgError::OutOfRange { flag: Flag::Timeout, index: 1 })
    );
    assert_eq!(parse(&["-s", "100"]).unwrap().request, Request::SetLevel(100));
    assert_eq!(parse(&["-s", "1"]).unwrap().request, Request::SetLevel(1));
    assert_eq!(parse(&["-t", "-2147483648"]).unwrap().timeout_ms, i32::MIN);
}

#[test]
fn each_error_kind() {
    assert_eq!(parse(&["-x"]), Err(ArgError::UnknownArgument { index: 0 }));
    assert_eq!(parse(&["-g", "extra"]), Err(ArgError::UnknownArgument { index: 1 }));
    assert_eq!(parse(&["--"]), Err(ArgError::UnknownArgument { index: 0 }));
    assert_eq!(parse(&["-s"]), Err(ArgError::MissingValue { flag: Flag::SetLevel, index: 0 }));
    assert_eq!(parse(&["-f", "ten"]), Err(ArgError::InvalidNumber { flag: Flag::Fade, index: 1 }));
    assert_eq!(parse(&["-f", "-1"]), Err(ArgError::InvalidNumber { flag: Flag::Fade, index: 1 }));
    assert_eq!(parse(&["-i", "x"]), Err(ArgError::InvalidNumber { flag: Flag::Increase, index: 1 }));
    assert_eq!(parse(&["--get=1"]), Err(ArgError::UnexpectedValue { flag: Flag::Get, index: 0 }));
    assert_eq!(parse(&["-t", "1", "-t", "2"]), Err(ArgError::Repeated { flag: Flag::Timeout, index: 2 }));
    assert_eq!(parse(&["-i", "-i"]), Err(ArgError::Repeated { flag: Flag::Increase, index: 1 }));
}

#[test]
fn attached_and_long_forms() {
    assert_eq!(parse(&["-s50"]).unwrap().request, Request::SetLevel(50));
    assert_eq!(parse(&["-s=50"]).unwrap().request, Request::SetLevel(50));
    assert_eq!(parse(&["--set=+50"]).unwrap().request, Request::SetLevel(50));
    assert_eq!(parse(&["--steps", "007"]).unwrap().fade.steps, 7);
    assert_eq!(parse(&["-t", "+15"]).unwrap().timeout_ms, 15);
    assert_eq!(classify_token("--fade=20"), Some((Flag::Fade, Some(7))));
    assert_eq!(classify_token("-p"), Some((Flag::Steps, None)));
    assert_eq!(classify_token("--stepsx"), None);
    assert_eq!(classify_token("plain"), None);
}

#[test]
fn numbers_read_with_sign_and_cap() {
    assert_eq!(read_number("42", 0, false), Some(42));
    assert_eq!(read_number("x=-42", 2, true), Some(-42));
    assert_eq!(read_number("-42", 0, false), None);
    assert_eq!(read_number("+", 0, true), None);
    assert_eq!(read_number("", 0, true), None);
    assert_eq!(read_number("4a", 0, true), None);
    assert_eq!(read_number("123456789012345678901234", 0, false), Some(1_099_511_627_776));
    assert_eq!(read_number("-123456789012345678901234", 0, true), Some(-1_099_511_627_776));
}

#[test]
fn diagnostics_name_the_fault() {
    let args: Vec<String> = ["-s", "101"].iter().map(|s| s.to_string()).collect();
    let err = parse_args(&args).unwrap_err();
    assert_eq!(err.message(&args), "error: value '101' for '--set' is out of range");
    let args: Vec<String> = ["-i", "-g"].iter().map(|s| s.to_string()).collect();
    let err = parse_args(&args).unwrap_err();
    assert_eq!(err.message(&args), "error: '--increase' cannot be used with '--get'");
    let args: Vec<String> = ["--bogus"].iter().map(|s| s.to_string()).collect();
    let err = parse_args(&args).unwrap_err();
    assert_eq!(err.message(&args), "error: unexpected argument '--bogus'");
    let err = ArgError::MissingValue { flag: Flag::Fade, index: 0 };
    assert_eq!(err.message(&args), "error: a value is required for '--fade'");
    let err = ArgError::InvalidNumber { flag: Flag::Steps, index: 9 };
    assert_eq!(err.message(&args), "error: invalid value '' for '--steps'");
}
