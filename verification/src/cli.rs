use vstd::prelude::*;
use vstd::string::*;
use std::num::ParseIntError;
use crate::text::text;

verus! {

/// `std::num::ParseIntError`, carried as it is to report a bad number.
#[verifier::external_type_specification]
#[verifier::external_body]
pub struct ExParseIntError(ParseIntError);

/// Whether a character is an ASCII decimal digit.
pub open spec fn is_digit(c: char) -> bool {
    '0' <= c <= '9'
}

/// The value of a sequence of decimal digits.
pub open spec fn digits_value(s: Seq<char>) -> nat
    decreases s.len(),
{
    if s.len() == 0 {
        0
    } else {
        digits_value(s.drop_last()) * 10 + (s.last() as nat - '0' as nat) as nat
    }
}

/// What std's integer parsing accepts for an unsigned type whose largest value
/// is `max`: an optional `+` followed by one or more decimal digits, nothing
/// else, with a value no larger than `max`.
pub open spec fn unsigned_value(s: Seq<char>, max: nat) -> Option<nat> {
    let digits = if s.len() > 0 && s[0] == '+' { s.drop_first() } else { s };
    if digits.len() > 0 && (forall|i: int| 0 <= i < digits.len() ==> is_digit(#[trigger] digits[i]))
        && digits_value(digits) <= max {
        Some(digits_value(digits))
    } else {
        None
    }
}

/// The error that `str::parse::<u32>` gives for a refused text.
pub uninterp spec fn u32_parse_error(s: Seq<char>) -> ParseIntError;

/// The error that `str::parse::<u64>` gives for a refused text.
pub uninterp spec fn u64_parse_error(s: Seq<char>) -> ParseIntError;

/// The error that `str::parse::<usize>` gives for a refused text.
pub uninterp spec fn usize_parse_error(s: Seq<char>) -> ParseIntError;

/// The text that std's `Display` gives for a `ParseIntError`.
pub uninterp spec fn int_error_display(e: ParseIntError) -> Seq<char>;

/// `str::parse::<u32>`. std documents the accepted text as an optional `+`
/// followed by decimal digits only, and an error for a value out of range;
/// the contract states exactly that.
#[verifier::external_body]
fn parse_u32(s: &str) -> (r: Result<u32, ParseIntError>)
    ensures
        r is Ok <==> unsigned_value(s@, u32::MAX as nat) is Some,
        r matches Ok(v) ==> unsigned_value(s@, u32::MAX as nat) == Some(v as nat),
        r matches Err(e) ==> e == u32_parse_error(s@),
{
    s.parse::<u32>()
}

/// `str::parse::<u64>`, with the same documented grammar as `parse_u32`.
#[verifier::external_body]
fn parse_u64(s: &str) -> (r: Result<u64, ParseIntError>)
    ensures
        r is Ok <==> unsigned_value(s@, u64::MAX as nat) is Some,
        r matches Ok(v) ==> unsigned_value(s@, u64::MAX as nat) == Some(v as nat),
        r matches Err(e) ==> e == u64_parse_error(s@),
{
    s.parse::<u64>()
}

/// `str::parse::<usize>`, with the same documented grammar as `parse_u32`.
#[verifier::external_body]
fn parse_usize(s: &str) -> (r: Result<usize, ParseIntError>)
    ensures
        r is Ok <==> unsigned_value(s@, usize::MAX as nat) is Some,
        r matches Ok(v) ==> unsigned_value(s@, usize::MAX as nat) == Some(v as nat),
        r matches Err(e) ==> e == usize_parse_error(s@),
{
    s.parse::<usize>()
}

/// The renderer's settings.
pub struct Args {
    pub mmf: String,
    pub dll_dir: String,
    pub output: String,
    pub sample_rate: u32,
    pub frames: u64,
    pub chunk_frames: usize,
}

/// What the command line asks for.
pub enum Command {
    Render(Args),
    Help,
}

/// Why a command line was refused.
pub enum ArgsError {
    /// The option, named as given here, came last without its value.
    MissingValue(&'static str),
    /// A numeric option's value is not a number of its type.
    InvalidNumber(ParseIntError),
    UnknownArgument(String),
    ZeroChunkFrames,
    /// A required option was not given.
    MissingRequired(&'static str),
}

/// The text that std gives for a refused number
/// (`<ParseIntError as Display>::fmt`, through `to_string`).
#[verifier::external_body]
fn parse_error_text(error: &ParseIntError) -> (text: String)
    ensures
        text@ == int_error_display(*error),
{
    error.to_string()
}

impl ArgsError {
    /// The message that describes the refusal to a person.
    pub fn message(&self) -> (m: String)
        ensures
            self matches ArgsError::MissingValue(name) ==> m@ == name@ + " requires a value"@,
            self matches ArgsError::InvalidNumber(e) ==> m@ == int_error_display(*e),
            self matches ArgsError::UnknownArgument(a) ==> m@ == "unknown argument: "@ + a@,
            self is ZeroChunkFrames ==> m@ == "--chunk-frames must be greater than zero"@,
            self matches ArgsError::MissingRequired(name) ==> m@ == name@ + " is required"@,
    {
        match self {
            ArgsError::MissingValue(name) => {
                let mut m = text(name);
                m.append(" requires a value");
                m
            },
            ArgsError::InvalidNumber(e) => parse_error_text(e),
            ArgsError::UnknownArgument(a) => {
                let mut m = text("unknown argument: ");
                m.append(a.as_str());
                m
            },
            ArgsError::ZeroChunkFrames => text("--chunk-frames must be greater than zero"),
            ArgsError::MissingRequired(name) => {
                let mut m = text(name);
                m.append(" is required");
                m
            },
        }
    }
}

/// The settings gathered while reading a command line.
pub struct Options {
    pub mmf: Option<Seq<char>>,
    pub dll_dir: Option<Seq<char>>,
    pub output: Option<Seq<char>>,
    pub sample_rate: u32,
    pub frames: u64,
    pub chunk_frames: usize,
}

/// What reading a command line comes to.
pub enum Parsed {
    Render(Options),
    Help,
    MissingValue(&'static str),
    InvalidNumber(ParseIntError),
    UnknownArgument(Seq<char>),
    ZeroChunkFrames,
    MissingRequired(&'static str),
}

/// The settings before any option is read: 48 kHz, 610 556 frames, chunks of 960.
pub open spec fn default_options() -> Options {
    Options { mmf: None, dll_dir: None, output: None, sample_rate: 48_000, frames: 610_556, chunk_frames: 960 }
}

/// The end of the command line: the chunk size must not be 0, then the image,
/// the DLL directory and the output must all have been given.
pub open spec fn conclude(o: Options) -> Parsed {
    if o.chunk_frames == 0 {
        Parsed::ZeroChunkFrames
    } else if o.mmf is None {
        Parsed::MissingRequired("--mmf")
    } else if o.dll_dir is None {
        Parsed::MissingRequired("--dll-dir")
    } else if o.output is None {
        Parsed::MissingRequired("--output")
    } else {
        Parsed::Render(o)
    }
}

/// Reading `args` from position `i` on with the settings `o` gathered so far.
/// Each option takes the next argument as its value, whatever it is; `-h`
/// and `--help` ask for help at once; anything else is refused.
pub open spec fn parse_from(args: Seq<Seq<char>>, i: int, o: Options) -> Parsed
    decreases args.len() - i,
{
    if i < 0 || i >= args.len() {
        conclude(o)
    } else {
        let a = args[i];
        let has_value = i + 1 < args.len();
        let v = args[i + 1];
        if a == "--mmf"@ {
            if !has_value { Parsed::MissingValue("--mmf") } else { parse_from(args, i + 2, Options { mmf: Some(v), ..o }) }
        } else if a == "--dll-dir"@ {
            if !has_value { Parsed::MissingValue("--dll-dir") } else { parse_from(args, i + 2, Options { dll_dir: Some(v), ..o }) }
        } else if a == "--output"@ || a == "--pcm-out"@ {
            if !has_value { Parsed::MissingValue("--output") } else { parse_from(args, i + 2, Options { output: Some(v), ..o }) }
        } else if a == "--sample-rate"@ {
            if !has_value {
                Parsed::MissingValue("--sample-rate")
            } else {
                match unsigned_value(v, u32::MAX as nat) {
                    Some(n) => parse_from(args, i + 2, Options { sample_rate: n as u32, ..o }),
                    None => Parsed::InvalidNumber(u32_parse_error(v)),
                }
            }
        } else if a == "--frames"@ {
            if !has_value {
                Parsed::MissingValue("--frames")
            } else {
                match unsigned_value(v, u64::MAX as nat) {
                    Some(n) => parse_from(args, i + 2, Options { frames: n as u64, ..o }),
                    None => Parsed::InvalidNumber(u64_parse_error(v)),
                }
            }
        } else if a == "--chunk-frames"@ {
            if !has_value {
                Parsed::MissingValue("--chunk-frames")
            } else {
                match unsigned_value(v, usize::MAX as nat) {
                    Some(n) => parse_from(args, i + 2, Options { chunk_frames: n as usize, ..o }),
                    None => Parsed::InvalidNumber(usize_parse_error(v)),
                }
            }
        } else if a == "-h"@ || a == "--help"@ {
            Parsed::Help
        } else {
            Parsed::UnknownArgument(a)
        }
    }
}

/// What the command line `args` (without the program name) comes to.
pub open spec fn parse_spec(args: Seq<Seq<char>>) -> Parsed {
    parse_from(args, 0, default_options())
}

/// Whether a parse result is the outcome `p`.
pub open spec fn outcome_is(r: Result<Command, ArgsError>, p: Parsed) -> bool {
    match p {
        Parsed::Render(o) => r matches Ok(Command::Render(a)) && {
            &&& o.mmf == Some(a.mmf@)
            &&& o.dll_dir == Some(a.dll_dir@)
            &&& o.output == Some(a.output@)
            &&& a.sample_rate == o.sample_rate
            &&& a.frames == o.frames
            &&& a.chunk_frames == o.chunk_frames
        },
        Parsed::Help => r matches Ok(Command::Help),
        Parsed::MissingValue(name) => r matches Err(ArgsError::MissingValue(n)) && n == name,
        Parsed::InvalidNumber(error) => r matches Err(ArgsError::InvalidNumber(e)) && e == error,
        Parsed::UnknownArgument(s) => r matches Err(ArgsError::UnknownArgument(a)) && a@ == s,
        Parsed::ZeroChunkFrames => r matches Err(ArgsError::ZeroChunkFrames),
        Parsed::MissingRequired(name) => r matches Err(ArgsError::MissingRequired(n)) && n == name,
    }
}

/// The views of a list of strings.
pub open spec fn views(args: Seq<String>) -> Seq<Seq<char>> {
    args.map_values(|s: String| s@)
}

fn is_arg(a: &String, flag: &str) -> (b: bool)
    ensures
        b == (a@ == flag@),
{
    let f = text(flag);
    a.eq(&f)
}

/// The gathered settings in exec form.
struct Gathered {
    mmf: Option<String>,
    dll_dir: Option<String>,
    output: Option<String>,
    sample_rate: u32,
    frames: u64,
    chunk_frames: usize,
}

spec fn view_opt(s: Option<String>) -> Option<Seq<char>> {
    match s {
        Some(x) => Some(x@),
        None => None,
    }
}

spec fn gathered_view(g: Gathered) -> Options {
    Options {
        mmf: view_opt(g.mmf),
        dll_dir: view_opt(g.dll_dir),
        output: view_opt(g.output),
        sample_rate: g.sample_rate,
        frames: g.frames,
        chunk_frames: g.chunk_frames,
    }
}

/// Reads the renderer's command line, without the program name.
pub fn parse_args(args: &Vec<String>) -> (r: Result<Command, ArgsError>)
    ensures
        outcome_is(r, parse_spec(views(args@))),
{
    let ghost all = views(args@);
    let n = args.len();
    let mut g = Gathered {
        mmf: None,
        dll_dir: None,
        output: None,
        sample_rate: 48_000,
        frames: 610_556,
        chunk_frames: 960,
    };
    let mut i: usize = 0;
    assert(gathered_view(g) == default_options());
    while i < n
        invariant
            n == args@.len(),
            all == views(args@),
            i <= n,
            parse_spec(all) == parse_from(all, i as int, gathered_view(g)),
        decreases n - i,
    {
        let a = &args[i];
        assert(all[i as int] == a@);
        let has_value = i + 1 < n;
        if has_value {
            assert(all[i + 1] == args@[i + 1]@);
        }
        if is_arg(a, "--mmf") {
            if !has_value {
                return Err(ArgsError::MissingValue("--mmf"));
            }
            g.mmf = Some(args[i + 1].clone());
        } else if is_arg(a, "--dll-dir") {
            if !has_value {
                return Err(ArgsError::MissingValue("--dll-dir"));
            }
            g.dll_dir = Some(args[i + 1].clone());
        } else if is_arg(a, "--output") || is_arg(a, "--pcm-out") {
            if !has_value {
                return Err(ArgsError::MissingValue("--output"));
            }
            g.output = Some(args[i + 1].clone());
        } else if is_arg(a, "--sample-rate") {
            if !has_value {
                return Err(ArgsError::MissingValue("--sample-rate"));
            }
            match parse_u32(args[i + 1].as_str()) {
                Ok(v) => g.sample_rate = v,
                Err(e) => return Err(ArgsError::InvalidNumber(e)),
            }
        } else if is_arg(a, "--frames") {
            if !has_value {
                return Err(ArgsError::MissingValue("--frames"));
            }
            match parse_u64(args[i + 1].as_str()) {
                Ok(v) => g.frames = v,
                Err(e) => return Err(ArgsError::InvalidNumber(e)),
            }
        } else if is_arg(a, "--chunk-frames") {
            if !has_value {
                return Err(ArgsError::MissingValue("--chunk-frames"));
            }
            match parse_usize(args[i + 1].as_str()) {
                Ok(v) => g.chunk_frames = v,
                Err(e) => return Err(ArgsError::InvalidNumber(e)),
            }
        } else if is_arg(a, "-h") || is_arg(a, "--help") {
            return Ok(Command::Help);
        } else {
            return Err(ArgsError::UnknownArgument(a.clone()));
        }
        i = i + 2;
    }
    if g.chunk_frames == 0 {
        return Err(ArgsError::ZeroChunkFrames);
    }
    let mmf = match g.mmf {
        Some(m) => m,
        None => return Err(ArgsError::MissingRequired("--mmf")),
    };
    let dll_dir = match g.dll_dir {
        Some(d) => d,
        None => return Err(ArgsError::MissingRequired("--dll-dir")),
    };
    let output = match g.output {
        Some(o) => o,
        None => return Err(ArgsError::MissingRequired("--output")),
    };
    Ok(
        Command::Render(
            Args { mmf, dll_dir, output, sample_rate: g.sample_rate, frames: g.frames, chunk_frames: g.chunk_frames },
        ),
    )
}

// ----------------------------------------------------------------------------
// Laws of the command line
// ----------------------------------------------------------------------------

/// Whether `a` is an option that takes the next argument as its value.
pub open spec fn takes_value(a: Seq<char>) -> bool {
    a == "--mmf"@ || a == "--dll-dir"@ || a == "--output"@ || a == "--pcm-out"@ || a == "--sample-rate"@
        || a == "--frames"@ || a == "--chunk-frames"@
}

/// `args` with every `--pcm-out` that stands in option position, from
/// position `i` on, written as `--output`.
pub open spec fn spell_output(args: Seq<Seq<char>>, i: int) -> Seq<Seq<char>>
    decreases args.len() + 2 - i,
{
    if i < 0 || i >= args.len() || !takes_value(args[i]) {
        args
    } else {
        let a = if args[i] == "--pcm-out"@ { "--output"@ } else { args[i] };
        spell_output(args.update(i, a), i + 2)
    }
}

proof fn lemma_spell_output_frame(args: Seq<Seq<char>>, i: int)
    requires
        0 <= i,
    ensures
        spell_output(args, i).len() == args.len(),
        forall|j: int| 0 <= j < i && j < args.len() ==> spell_output(args, i)[j] == args[j],
    decreases args.len() + 2 - i,
{
    if i < args.len() && takes_value(args[i]) {
        let a = if args[i] == "--pcm-out"@ { "--output"@ } else { args[i] };
        let moved = args.update(i, a);
        lemma_spell_output_frame(moved, i + 2);
        assert forall|j: int| 0 <= j < i && j < args.len() implies spell_output(args, i)[j] == args[j] by {
            assert(spell_output(moved, i + 2)[j] == moved[j]);
        }
    }
}

/// Reading from position `i` on looks only at the arguments from `i` on.
proof fn lemma_parse_reads_from(a: Seq<Seq<char>>, b: Seq<Seq<char>>, i: int, o: Options)
    requires
        0 <= i,
        a.len() == b.len(),
        forall|j: int| i <= j < a.len() ==> a[j] == b[j],
    ensures
        parse_from(a, i, o) == parse_from(b, i, o),
    decreases a.len() - i,
{
    if i + 1 < a.len() {
        assert(a[i] == b[i]);
        assert(a[i + 1] == b[i + 1]);
        let v = a[i + 1];
        lemma_parse_reads_from(a, b, i + 2, Options { mmf: Some(v), ..o });
        lemma_parse_reads_from(a, b, i + 2, Options { dll_dir: Some(v), ..o });
        lemma_parse_reads_from(a, b, i + 2, Options { output: Some(v), ..o });
        if let Some(n) = unsigned_value(v, u32::MAX as nat) {
            lemma_parse_reads_from(a, b, i + 2, Options { sample_rate: n as u32, ..o });
        }
        if let Some(n) = unsigned_value(v, u64::MAX as nat) {
            lemma_parse_reads_from(a, b, i + 2, Options { frames: n as u64, ..o });
        }
        if let Some(n) = unsigned_value(v, usize::MAX as nat) {
            lemma_parse_reads_from(a, b, i + 2, Options { chunk_frames: n as usize, ..o });
        }
    }
}

/// The option names differ from one another.
proof fn lemma_option_names_differ()
    ensures
        "--pcm-out"@ != "--mmf"@,
        "--pcm-out"@ != "--dll-dir"@,
        "--output"@ != "--mmf"@,
        "--output"@ != "--dll-dir"@,
        "--frames"@ != "--mmf"@,
        "--frames"@ != "--dll-dir"@,
        "--frames"@ != "--output"@,
        "--frames"@ != "--pcm-out"@,
        "--frames"@ != "--sample-rate"@,
{
    reveal_strlit("--pcm-out");
    reveal_strlit("--mmf");
    reveal_strlit("--dll-dir");
    reveal_strlit("--output");
    reveal_strlit("--frames");
    reveal_strlit("--sample-rate");
    assert("--pcm-out"@[2] != "--dll-dir"@[2]);
    assert("--frames"@[2] != "--output"@[2]);
}

proof fn lemma_spell_output_from(args: Seq<Seq<char>>, i: int, o: Options)
    requires
        0 <= i,
    ensures
        parse_from(args, i, o) == parse_from(spell_output(args, i), i, o),
    decreases args.len() - i,
{
    if i < args.len() && takes_value(args[i]) {
        lemma_option_names_differ();
        let a = if args[i] == "--pcm-out"@ { "--output"@ } else { args[i] };
        let moved = args.update(i, a);
        let alias = spell_output(moved, i + 2);
        lemma_spell_output_frame(moved, i + 2);
        assert(moved[i] == a);
        assert(alias[i] == moved[i]);
        assert(alias[i] == a);
        assert forall|j: int| i + 2 <= j < args.len() implies moved[j] == args[j] by {}
        if i + 1 < args.len() {
            assert(alias[i + 1] == moved[i + 1]);
            assert(alias[i + 1] == args[i + 1]);
            let v = args[i + 1];
            lemma_spell_output_from(moved, i + 2, Options { mmf: Some(v), ..o });
            lemma_parse_reads_from(moved, args, i + 2, Options { mmf: Some(v), ..o });
            lemma_spell_output_from(moved, i + 2, Options { dll_dir: Some(v), ..o });
            lemma_parse_reads_from(moved, args, i + 2, Options { dll_dir: Some(v), ..o });
            lemma_spell_output_from(moved, i + 2, Options { output: Some(v), ..o });
            lemma_parse_reads_from(moved, args, i + 2, Options { output: Some(v), ..o });
            if let Some(n) = unsigned_value(v, u32::MAX as nat) {
                lemma_spell_output_from(moved, i + 2, Options { sample_rate: n as u32, ..o });
                lemma_parse_reads_from(moved, args, i + 2, Options { sample_rate: n as u32, ..o });
            }
            if let Some(n) = unsigned_value(v, u64::MAX as nat) {
                lemma_spell_output_from(moved, i + 2, Options { frames: n as u64, ..o });
                lemma_parse_reads_from(moved, args, i + 2, Options { frames: n as u64, ..o });
            }
            if let Some(n) = unsigned_value(v, usize::MAX as nat) {
                lemma_spell_output_from(moved, i + 2, Options { chunk_frames: n as usize, ..o });
                lemma_parse_reads_from(moved, args, i + 2, Options { chunk_frames: n as usize, ..o });
            }
        }
    }
}

/// `--pcm-out` is another spelling of `--output`: writing every `--pcm-out`
/// that stands in option position as `--output` changes nothing: not the
/// settings, not the option named when its value is missing, and not the
/// error carried when a number is refused.
pub proof fn lemma_pcm_out_is_output(args: Seq<Seq<char>>)
    ensures
        parse_spec(args) == parse_spec(spell_output(args, 0)),
{
    lemma_spell_output_from(args, 0, default_options());
}

/// Reading is left to right: when `v` read from position `i` comes to the
/// settings `f`, reading `v + w` from `i` comes to reading `w` with `f`.
proof fn lemma_parse_continues(v: Seq<Seq<char>>, w: Seq<Seq<char>>, i: int, o: Options)
    requires
        0 <= i <= v.len(),
        parse_from(v, i, o) is Render,
    ensures
        conclude(parse_from(v, i, o)->Render_0) == parse_from(v, i, o),
        parse_from(v + w, i, o) == parse_from(v + w, v.len() as int, parse_from(v, i, o)->Render_0),
    decreases v.len() - i,
{
    if i < v.len() {
        let vw = v + w;
        assert(vw[i] == v[i]);
        if i + 1 < v.len() {
            assert(vw[i + 1] == v[i + 1]);
        }
        if i + 1 < v.len() {
            let a = v[i];
            let x = v[i + 1];
            if a == "--mmf"@ {
                lemma_parse_continues(v, w, i + 2, Options { mmf: Some(x), ..o });
            } else if a == "--dll-dir"@ {
                lemma_parse_continues(v, w, i + 2, Options { dll_dir: Some(x), ..o });
            } else if a == "--output"@ || a == "--pcm-out"@ {
                lemma_parse_continues(v, w, i + 2, Options { output: Some(x), ..o });
            } else if a == "--sample-rate"@ {
                if let Some(n) = unsigned_value(x, u32::MAX as nat) {
                    lemma_parse_continues(v, w, i + 2, Options { sample_rate: n as u32, ..o });
                }
            } else if a == "--frames"@ {
                if let Some(n) = unsigned_value(x, u64::MAX as nat) {
                    lemma_parse_continues(v, w, i + 2, Options { frames: n as u64, ..o });
                }
            } else if a == "--chunk-frames"@ {
                if let Some(n) = unsigned_value(x, usize::MAX as nat) {
                    lemma_parse_continues(v, w, i + 2, Options { chunk_frames: n as usize, ..o });
                }
            }
        }
    }
}

/// A later option overrides an earlier one: after a command line that comes
/// to the settings `o`, `--frames t --mmf p` gives the same settings with the
/// frames that `t` says and the image `p`.
pub proof fn lemma_later_options_override(v: Seq<Seq<char>>, t: Seq<char>, p: Seq<char>, o: Options, n: nat)
    requires
        parse_spec(v) == Parsed::Render(o),
        unsigned_value(t, u64::MAX as nat) == Some(n),
    ensures
        parse_spec(v + seq!["--frames"@, t, "--mmf"@, p]) == Parsed::Render(
            Options { frames: n as u64, mmf: Some(p), ..o },
        ),
{
    let w = seq!["--frames"@, t, "--mmf"@, p];
    let vw = v + w;
    let len = v.len() as int;
    lemma_parse_continues(v, w, 0, default_options());
    lemma_option_names_differ();
    assert(vw[len] == "--frames"@);
    assert(vw[len + 1] == t);
    assert(vw[len + 2] == "--mmf"@);
    assert(vw[len + 3] == p);
    let o1 = Options { frames: n as u64, ..o };
    let o2 = Options { mmf: Some(p), ..o1 };
    assert(parse_from(vw, len + 4, o2) == conclude(o2));
    assert(parse_from(vw, len + 2, o1) == parse_from(vw, len + 4, o2));
    assert(parse_from(vw, len, o) == parse_from(vw, len + 2, o1));
    assert(o2 == Options { frames: n as u64, mmf: Some(p), ..o });
}

/// All option names differ from one another.
proof fn lemma_all_option_names_differ()
    ensures
        "--mmf"@ != "--dll-dir"@,
        "--mmf"@ != "--output"@,
        "--mmf"@ != "--pcm-out"@,
        "--mmf"@ != "--sample-rate"@,
        "--mmf"@ != "--frames"@,
        "--mmf"@ != "--chunk-frames"@,
        "--dll-dir"@ != "--output"@,
        "--dll-dir"@ != "--pcm-out"@,
        "--dll-dir"@ != "--sample-rate"@,
        "--dll-dir"@ != "--frames"@,
        "--dll-dir"@ != "--chunk-frames"@,
        "--output"@ != "--sample-rate"@,
        "--output"@ != "--frames"@,
        "--output"@ != "--chunk-frames"@,
        "--pcm-out"@ != "--sample-rate"@,
        "--pcm-out"@ != "--frames"@,
        "--pcm-out"@ != "--chunk-frames"@,
        "--sample-rate"@ != "--frames"@,
        "--sample-rate"@ != "--chunk-frames"@,
        "--frames"@ != "--chunk-frames"@,
        "--output"@ != "--pcm-out"@,
{
    reveal_strlit("--mmf");
    reveal_strlit("--dll-dir");
    reveal_strlit("--output");
    reveal_strlit("--pcm-out");
    reveal_strlit("--sample-rate");
    reveal_strlit("--frames");
    reveal_strlit("--chunk-frames");
    assert("--mmf"@.len() != "--dll-dir"@.len());
    assert("--mmf"@.len() != "--output"@.len());
    assert("--mmf"@.len() != "--pcm-out"@.len());
    assert("--mmf"@.len() != "--sample-rate"@.len());
    assert("--mmf"@.len() != "--frames"@.len());
    assert("--mmf"@.len() != "--chunk-frames"@.len());
    assert("--dll-dir"@.len() != "--output"@.len());
    assert("--dll-dir"@[2] != "--pcm-out"@[2]);
    assert("--dll-dir"@.len() != "--sample-rate"@.len());
    assert("--dll-dir"@.len() != "--frames"@.len());
    assert("--dll-dir"@.len() != "--chunk-frames"@.len());
    assert("--output"@.len() != "--pcm-out"@.len());
    assert("--output"@.len() != "--sample-rate"@.len());
    assert("--output"@[2] != "--frames"@[2]);
    assert("--output"@.len() != "--chunk-frames"@.len());
    assert("--pcm-out"@.len() != "--sample-rate"@.len());
    assert("--pcm-out"@.len() != "--frames"@.len());
    assert("--pcm-out"@.len() != "--chunk-frames"@.len());
    assert("--sample-rate"@.len() != "--frames"@.len());
    assert("--sample-rate"@.len() != "--chunk-frames"@.len());
    assert("--frames"@.len() != "--chunk-frames"@.len());
}

/// A later option overrides an earlier one, for every option that takes a
/// value: after a command line that comes to the settings `o`, one more
/// option `a` with value `x` gives the same settings with that one setting
/// replaced by `x` (a number that does not parse is refused; a chunk size of
/// 0 is refused).
pub proof fn lemma_last_option_wins(v: Seq<Seq<char>>, o: Options, a: Seq<char>, x: Seq<char>)
    requires
        parse_spec(v) == Parsed::Render(o),
    ensures
        ({
            let p = parse_spec(v + seq![a, x]);
            &&& a == "--mmf"@ ==> p == Parsed::Render(Options { mmf: Some(x), ..o })
            &&& a == "--dll-dir"@ ==> p == Parsed::Render(Options { dll_dir: Some(x), ..o })
            &&& (a == "--output"@ || a == "--pcm-out"@) ==> p == Parsed::Render(Options { output: Some(x), ..o })
            &&& a == "--sample-rate"@ ==> (match unsigned_value(x, u32::MAX as nat) {
                Some(n) => p == Parsed::Render(Options { sample_rate: n as u32, ..o }),
                None => p is InvalidNumber,
            })
            &&& a == "--frames"@ ==> (match unsigned_value(x, u64::MAX as nat) {
                Some(n) => p == Parsed::Render(Options { frames: n as u64, ..o }),
                None => p is InvalidNumber,
            })
            &&& a == "--chunk-frames"@ ==> (match unsigned_value(x, usize::MAX as nat) {
                Some(n) => if n == 0 {
                    p is ZeroChunkFrames
                } else {
                    p == Parsed::Render(Options { chunk_frames: n as usize, ..o })
                },
                None => p is InvalidNumber,
            })
        }),
{
    let w = seq![a, x];
    let vw = v + w;
    let len = v.len() as int;
    lemma_parse_continues(v, w, 0, default_options());
    lemma_all_option_names_differ();
    assert(vw[len] == a);
    assert(vw[len + 1] == x);
    assert(vw.len() == len + 2);
    assert(conclude(o) == Parsed::Render(o));
    assert(parse_from(vw, 0, default_options()) == parse_from(vw, len, o));
    if a == "--mmf"@ {
        let o2 = Options { mmf: Some(x), ..o };
        assert(parse_from(vw, len + 2, o2) == conclude(o2));
        assert(parse_from(vw, len, o) == parse_from(vw, len + 2, o2));
    } else if a == "--dll-dir"@ {
        let o2 = Options { dll_dir: Some(x), ..o };
        assert(parse_from(vw, len + 2, o2) == conclude(o2));
        assert(parse_from(vw, len, o) == parse_from(vw, len + 2, o2));
    } else if a == "--output"@ || a == "--pcm-out"@ {
        let o2 = Options { output: Some(x), ..o };
        assert(parse_from(vw, len + 2, o2) == conclude(o2));
        assert(parse_from(vw, len, o) == parse_from(vw, len + 2, o2));
    } else if a == "--sample-rate"@ {
        if let Some(n) = unsigned_value(x, u32::MAX as nat) {
            let o2 = Options { sample_rate: n as u32, ..o };
            assert(parse_from(vw, len + 2, o2) == conclude(o2));
            assert(parse_from(vw, len, o) == parse_from(vw, len + 2, o2));
        }
    } else if a == "--frames"@ {
        if let Some(n) = unsigned_value(x, u64::MAX as nat) {
            let o2 = Options { frames: n as u64, ..o };
            assert(parse_from(vw, len + 2, o2) == conclude(o2));
            assert(parse_from(vw, len, o) == parse_from(vw, len + 2, o2));
        }
    } else if a == "--chunk-frames"@ {
        if let Some(n) = unsigned_value(x, usize::MAX as nat) {
            let o2 = Options { chunk_frames: n as usize, ..o };
            assert(parse_from(vw, len + 2, o2) == conclude(o2));
            assert(parse_from(vw, len, o) == parse_from(vw, len + 2, o2));
        }
    }
}

} // verus!
