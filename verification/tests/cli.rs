use ma5_native::{ArgsError, Command, parse_args};

fn args(list: &[&str]) -> Vec<String> {
    list.iter().map(|s| s.to_string()).collect()
}

fn message(r: Result<Command, ArgsError>) -> String {
    match r {
        Err(e) => e.message(),
        Ok(_) => panic!("expected a refusal"),
    }
}

#[test]
fn defaults_apply() {
    let r = parse_args(&args(&["--mmf", "a.mmf", "--dll-dir", "dlls", "--output", "out.pcm"]));
    match r {
        Ok(Command::Render(a)) => {
            assert_eq!(a.mmf, "a.mmf");
            assert_eq!(a.dll_dir, "dlls");
            assert_eq!(a.output, "out.pcm");
            assert_eq!(a.sample_rate, 48_000);
            assert_eq!(a.frames, 610_556);
            assert_eq!(a.chunk_frames, 960);
        }
        _ => panic!("expected settings"),
    }
}

#[test]
fn numbers_and_alias() {
    let r = parse_args(&args(&[
        "--pcm-out", "x.pcm", "--frames", "120000", "--sample-rate", "+44100", "--chunk-frames", "007",
        "--mmf", "m", "--dll-dir", "d",
    ]));
    match r {
        Ok(Command::Render(a)) => {
            assert_eq!(a.output, "x.pcm");
            assert_eq!(a.frames, 120_000);
            assert_eq!(a.sample_rate, 44_100);
            assert_eq!(a.chunk_frames, 7);
        }
        _ => panic!("expected settings"),
    }
}

#[test]
fn later_option_wins() {
    let r = parse_args(&args(&["--mmf", "a", "--mmf", "b", "--dll-dir", "d", "--output", "o"]));
    assert!(matches!(r, Ok(Command::Render(a)) if a.mmf == "b"));
}

#[test]
fn help_stops_reading() {
    assert!(matches!(parse_args(&args(&["-h", "--bogus"])), Ok(Command::Help)));
    assert!(matches!(parse_args(&args(&["--mmf", "a", "--help"])), Ok(Command::Help)));
}

#[test]
fn refusals() {
    assert_eq!(message(parse_args(&args(&["--mmf"]))), "--mmf requires a value");
    assert_eq!(message(parse_args(&args(&["--pcm-out"]))), "--output requires a value");
    assert_eq!(message(parse_args(&args(&["--wat"]))), "unknown argument: --wat");
    assert_eq!(
        message(parse_args(&args(&["--chunk-frames", "0"]))),
        "--chunk-frames must be greater than zero"
    );
    assert_eq!(message(parse_args(&args(&[]))), "--mmf is required");
    assert_eq!(message(parse_args(&args(&["--mmf", "m"]))), "--dll-dir is required");
    assert_eq!(message(parse_args(&args(&["--mmf", "m", "--dll-dir", "d"]))), "--output is required");
}

#[test]
fn bad_numbers() {
    let r = parse_args(&args(&["--frames", "12x"]));
    assert!(matches!(r, Err(ArgsError::InvalidNumber(_))));
    assert_eq!(message(r), "12x".parse::<u64>().unwrap_err().to_string());
    assert!(matches!(parse_args(&args(&["--sample-rate", "4294967296"])), Err(ArgsError::InvalidNumber(_))));
    assert!(matches!(parse_args(&args(&["--sample-rate", "-1"])), Err(ArgsError::InvalidNumber(_))));
    assert!(matches!(parse_args(&args(&["--frames", ""])), Err(ArgsError::InvalidNumber(_))));
    assert!(matches!(parse_args(&args(&["--frames", "+"])), Err(ArgsError::InvalidNumber(_))));
}

#[test]
fn value_may_look_like_an_option() {
    let r = parse_args(&args(&["--mmf", "--dll-dir", "--dll-dir", "d", "--output", "o"]));
    assert!(matches!(r, Ok(Command::Render(a)) if a.mmf == "--dll-dir"));
}

#[test]
fn appended_options_override_earlier_ones() {
    let base = args(&["--mmf", "a.mmf", "--frames", "9", "--dll-dir", "d", "--pcm-out", "o"]);
    let mut longer = base.clone();
    longer.extend(args(&["--frames", "5", "--mmf", "b.mmf"]));
    match (parse_args(&base), parse_args(&longer)) {
        (Ok(Command::Render(a)), Ok(Command::Render(b))) => {
            assert_eq!(a.frames, 9);
            assert_eq!(b.frames, 5);
            assert_eq!(b.mmf, "b.mmf");
            assert_eq!(b.dll_dir, a.dll_dir);
            assert_eq!(b.output, a.output);
            assert_eq!(b.sample_rate, a.sample_rate);
            assert_eq!(b.chunk_frames, a.chunk_frames);
        }
        _ => panic!("expected settings"),
    }
}

#[test]
fn pcm_out_spelled_as_output_parses_alike() {
    let a = parse_args(&args(&["--pcm-out", "x", "--mmf", "m", "--dll-dir", "d"]));
    let b = parse_args(&args(&["--output", "x", "--mmf", "m", "--dll-dir", "d"]));
    match (a, b) {
        (Ok(Command::Render(a)), Ok(Command::Render(b))) => assert_eq!(a.output, b.output),
        _ => panic!("expected settings"),
    }
    assert_eq!(
        message(parse_args(&args(&["--mmf", "m", "--pcm-out"]))),
        message(parse_args(&args(&["--mmf", "m", "--output"])))
    );
}

#[test]
fn refused_number_messages_follow_std() {
    let empty = parse_args(&args(&["--chunk-frames", ""]));
    assert_eq!(message(empty), "".parse::<usize>().unwrap_err().to_string());
    let big = parse_args(&args(&["--sample-rate", "99999999999"]));
    assert_eq!(message(big), "99999999999".parse::<u32>().unwrap_err().to_string());
    assert_eq!(
        message(parse_args(&args(&["--pcm-out", "o", "--frames", "x"]))),
        message(parse_args(&args(&["--output", "o", "--frames", "x"])))
    );
}
