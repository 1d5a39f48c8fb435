//! The command line: which options it sets, which paths it names, and what is
//! wrong with it where something is.
//!
//! ```text
//! mdr [-w|--watch] [-s|--serve|-P|--public] [--port <port>] [--host <host>]
//!     [-n|--no-clobber] <input.md> [output.html]
//! ```
//!
//! Arguments are taken from left to right. The first that cannot be accepted
//! ends the parse with its error; `-h` ends it with a request for help.

use vstd::prelude::*;
use crate::paths::{path_with_extension, with_extension};
use crate::text::{chars_of, same_chars, texts};

verus! {

/// The exit status for a command line that cannot be used.
pub const USAGE_ERROR: i32 = 64;

/// The extension of an output path that is derived from the input path.
pub const OUTPUT_EXTENSION: &'static str = "html";

/// The port that the preview server listens on unless told otherwise.
pub const DEFAULT_PORT: u16 = 8080;

/// Whether a character is an ASCII decimal digit.
pub open spec fn is_digit(c: char) -> bool {
    '0' <= c <= '9'
}

/// The number that a run of decimal digits writes.
pub open spec fn decimal_value(digits: Seq<char>) -> int
    decreases digits.len(),
{
    if digits.len() == 0 {
        0
    } else {
        decimal_value(digits.drop_last()) * 10 + (digits.last() as int - '0' as int)
    }
}

/// Whether a text is made of decimal digits, at least one.
pub open spec fn is_number(digits: Seq<char>) -> bool {
    digits.len() > 0 && forall|k: int| 0 <= k < digits.len() ==> is_digit(#[trigger] digits[k])
}

/// The digits of a port: the text, without the `+` it may begin with.
pub open spec fn unsigned_part(text: Seq<char>) -> Seq<char> {
    if text.len() > 0 && text[0] == '+' {
        text.drop_first()
    } else {
        text
    }
}

/// The port that a text writes: an optional `+`, then decimal digits only,
/// whose number fits in 16 bits. Any other text writes none.
pub open spec fn port_of(text: Seq<char>) -> Option<u16> {
    let digits = unsigned_part(text);
    if is_number(digits) && decimal_value(digits) <= u16::MAX {
        Some(decimal_value(digits) as u16)
    } else {
        None
    }
}

/// A run of digits writes at least what any of its beginnings writes.
pub proof fn lemma_decimal_value_grows(digits: Seq<char>, n: int)
    requires
        forall|k: int| 0 <= k < digits.len() ==> is_digit(#[trigger] digits[k]),
        0 <= n <= digits.len(),
    ensures
        0 <= decimal_value(digits.take(n)) <= decimal_value(digits),
    decreases digits.len() - n,
{
    if n == digits.len() {
        assert(digits.take(n) =~= digits);
        lemma_decimal_value_is_natural(digits);
    } else {
        let longer = digits.take(n + 1);
        assert(longer.drop_last() =~= digits.take(n));
        assert(is_digit(digits[n]));
        assert(longer.last() == digits[n]);
        lemma_decimal_value_is_natural(digits.take(n));
        lemma_decimal_value_grows(digits, n + 1);
    }
}

/// A run of digits writes a natural number.
pub proof fn lemma_decimal_value_is_natural(digits: Seq<char>)
    requires
        forall|k: int| 0 <= k < digits.len() ==> is_digit(#[trigger] digits[k]),
    ensures
        0 <= decimal_value(digits),
    decreases digits.len(),
{
    if digits.len() > 0 {
        assert(is_digit(digits[digits.len() - 1]));
        lemma_decimal_value_is_natural(digits.drop_last());
    }
}

/// Reads a port number.
pub fn parse_port(text: &str) -> (port: Option<u16>)
    ensures
        port == port_of(text@),
{
    let chars = chars_of(text);
    let first: usize = if chars.len() > 0 && chars[0] == '+' {
        1
    } else {
        0
    };
    let ghost digits = unsigned_part(text@);
    assert(digits =~= chars@.subrange(first as int, chars@.len() as int));
    if first == chars.len() {
        return None;
    }
    let mut value: u32 = 0;
    let mut i: usize = first;
    while i < chars.len()
        invariant
            first <= i <= chars.len(),
            digits == unsigned_part(text@),
            digits == chars@.subrange(first as int, chars@.len() as int),
            forall|k: int| 0 <= k < i - first ==> is_digit(#[trigger] digits[k]),
            value == decimal_value(digits.take(i - first)),
            value <= u16::MAX,
        decreases chars.len() - i,
    {
        let c = chars[i];
        if !('0' <= c && c <= '9') {
            assert(!is_digit(digits[i - first]));
            return None;
        }
        let ghost longer = digits.take(i - first + 1);
        assert(longer.drop_last() =~= digits.take(i - first));
        assert(longer.last() == c);
        let next: u32 = value * 10 + (c as u32 - '0' as u32);
        assert(next == decimal_value(longer));
        if next > 65535 {
            proof {
                if is_number(digits) {
                    lemma_decimal_value_grows(digits, i - first + 1);
                }
            }
            return None;
        }
        value = next;
        i += 1;
    }
    assert(digits.take(i - first) =~= digits);
    Some(value as u16)
}

/// What the command line asks for.
#[derive(Debug, PartialEq, Eq)]
pub struct Config {
    /// The name the program was called by, for its messages.
    pub bin: String,
    /// Whether to go on watching the input after the first build.
    pub watch: bool,
    /// Whether to serve the preview over HTTP. Serving implies watching.
    pub serve: bool,
    /// The port to serve on.
    pub port: u16,
    /// The address to serve on.
    pub host: String,
    /// Whether to ask before an existing output is overwritten.
    pub no_clobber: bool,
    /// The Markdown source.
    pub input_path: String,
    /// Where the rendered page goes.
    pub output_path: String,
}

/// The mathematical content of a [`Config`].
pub struct ConfigView {
    pub bin: Seq<char>,
    pub watch: bool,
    pub serve: bool,
    pub port: u16,
    pub host: Seq<char>,
    pub no_clobber: bool,
    pub input_path: Seq<char>,
    pub output_path: Seq<char>,
}

impl View for Config {
    type V = ConfigView;

    open spec fn view(&self) -> ConfigView {
        ConfigView {
            bin: self.bin@,
            watch: self.watch,
            serve: self.serve,
            port: self.port,
            host: self.host@,
            no_clobber: self.no_clobber,
            input_path: self.input_path@,
            output_path: self.output_path@,
        }
    }
}

/// What is wrong with a command line.
#[derive(Debug, PartialEq, Eq)]
pub enum ArgsError {
    /// `--port` was the last argument.
    PortWithoutValue,
    /// The value given to `--port` writes no port.
    InvalidPort(String),
    /// `--host` was the last argument.
    HostWithoutValue,
    /// An argument begins with `-` and is no known option.
    UnknownOption(String),
    /// There is no input path, or there are more than two paths.
    WrongPathCount,
    /// The output path is empty.
    NoOutputPath,
}

/// The mathematical content of an [`ArgsError`].
pub enum ArgsErrorView {
    PortWithoutValue,
    InvalidPort(Seq<char>),
    HostWithoutValue,
    UnknownOption(Seq<char>),
    WrongPathCount,
    NoOutputPath,
}

impl View for ArgsError {
    type V = ArgsErrorView;

    open spec fn view(&self) -> ArgsErrorView {
        match self {
            ArgsError::PortWithoutValue => ArgsErrorView::PortWithoutValue,
            ArgsError::InvalidPort(value) => ArgsErrorView::InvalidPort(value@),
            ArgsError::HostWithoutValue => ArgsErrorView::HostWithoutValue,
            ArgsError::UnknownOption(option) => ArgsErrorView::UnknownOption(option@),
            ArgsError::WrongPathCount => ArgsErrorView::WrongPathCount,
            ArgsError::NoOutputPath => ArgsErrorView::NoOutputPath,
        }
    }
}

/// The result of reading a command line.
#[derive(Debug, PartialEq, Eq)]
pub enum Parsed {
    /// Go to work with this configuration.
    Run(Config),
    /// Print the usage line and leave with success.
    Help,
    /// Say what is wrong and leave with [`USAGE_ERROR`].
    Rejected(ArgsError),
}

/// The mathematical content of a [`Parsed`].
pub enum ParsedView {
    Run(ConfigView),
    Help,
    Rejected(ArgsErrorView),
}

impl View for Parsed {
    type V = ParsedView;

    open spec fn view(&self) -> ParsedView {
        match self {
            Parsed::Run(config) => ParsedView::Run(config@),
            Parsed::Help => ParsedView::Help,
            Parsed::Rejected(error) => ParsedView::Rejected(error@),
        }
    }
}

/// The options as they stand at some point of the scan.
pub struct Options {
    pub watch: bool,
    pub serve: bool,
    pub port: u16,
    pub host: Seq<char>,
    pub no_clobber: bool,
    /// The arguments that are no options, in the order they came.
    pub paths: Seq<Seq<char>>,
}

/// How a scan of the arguments ends.
pub enum Scan {
    /// Every argument was taken.
    Complete(Options),
    /// `-h` or `--help` was met.
    Help,
    /// An argument could not be accepted.
    Rejected(ArgsErrorView),
}

/// The options before any argument is read.
pub open spec fn default_options() -> Options {
    Options {
        watch: false,
        serve: false,
        port: DEFAULT_PORT,
        host: "127.0.0.1"@,
        no_clobber: false,
        paths: Seq::empty(),
    }
}

/// The scan of the arguments from position `at` on, with the options as they
/// stand there.
pub open spec fn scan(args: Seq<Seq<char>>, at: int, so_far: Options) -> Scan
    decreases args.len() - at,
{
    if at < 0 || at >= args.len() {
        Scan::Complete(so_far)
    } else {
        let arg = args[at];
        if arg == "-w"@ || arg == "--watch"@ {
            scan(args, at + 1, Options { watch: true, ..so_far })
        } else if arg == "-s"@ || arg == "--serve"@ {
            scan(args, at + 1, Options { serve: true, ..so_far })
        } else if arg == "-P"@ || arg == "--public"@ {
            scan(args, at + 1, Options { serve: true, host: "0.0.0.0"@, ..so_far })
        } else if arg == "-h"@ || arg == "--help"@ {
            Scan::Help
        } else if arg == "--port"@ || arg == "-p"@ {
            if at + 1 >= args.len() {
                Scan::Rejected(ArgsErrorView::PortWithoutValue)
            } else {
                match port_of(args[at + 1]) {
                    Some(port) => scan(args, at + 2, Options { port, ..so_far }),
                    None => Scan::Rejected(ArgsErrorView::InvalidPort(args[at + 1])),
                }
            }
        } else if arg == "--host"@ {
            if at + 1 >= args.len() {
                Scan::Rejected(ArgsErrorView::HostWithoutValue)
            } else {
                scan(args, at + 2, Options { host: args[at + 1], ..so_far })
            }
        } else if arg == "-n"@ || arg == "--no-clobber"@ {
            scan(args, at + 1, Options { no_clobber: true, ..so_far })
        } else if arg.len() > 0 && arg[0] == '-' {
            Scan::Rejected(ArgsErrorView::UnknownOption(arg))
        } else {
            scan(args, at + 1, Options { paths: so_far.paths.push(arg), ..so_far })
        }
    }
}

/// The output path that is derived from an input path: the input path with
/// its extension replaced by [`OUTPUT_EXTENSION`].
pub open spec fn derived_output_of(input_path: Seq<char>) -> Seq<char> {
    path_with_extension(input_path, OUTPUT_EXTENSION@)
}

/// The output path: the second path where there is one, else the one derived
/// from the input path.
pub open spec fn output_for(paths: Seq<Seq<char>>) -> Seq<char> {
    if paths.len() >= 2 {
        paths[1]
    } else {
        derived_output_of(paths[0])
    }
}

/// What a complete scan amounts to: one or two paths are wanted, the output
/// path must not be empty, and serving implies watching.
pub open spec fn conclude(bin: Seq<char>, options: Options) -> ParsedView {
    if options.paths.len() == 0 || options.paths.len() > 2 {
        ParsedView::Rejected(ArgsErrorView::WrongPathCount)
    } else if output_for(options.paths).len() == 0 {
        ParsedView::Rejected(ArgsErrorView::NoOutputPath)
    } else {
        ParsedView::Run(
            ConfigView {
                bin,
                watch: options.watch || options.serve,
                serve: options.serve,
                port: options.port,
                host: options.host,
                no_clobber: options.no_clobber,
                input_path: options.paths[0],
                output_path: output_for(options.paths),
            },
        )
    }
}

/// The name the program goes by: its first argument, or `mdr` where there is
/// none.
pub open spec fn program_name_of(args: Seq<Seq<char>>) -> Seq<char> {
    if args.len() > 0 {
        args[0]
    } else {
        "mdr"@
    }
}

/// What a command line means. `args[0]` is the program's name, the rest its
/// arguments.
pub open spec fn parse(args: Seq<Seq<char>>) -> ParsedView {
    match scan(args, 1, default_options()) {
        Scan::Complete(options) => conclude(program_name_of(args), options),
        Scan::Help => ParsedView::Help,
        Scan::Rejected(error) => ParsedView::Rejected(error),
    }
}

/// The output path for an input that comes without one: the input path with
/// its extension replaced by `html`.
pub fn derived_output(input_path: &str) -> (output_path: String)
    ensures
        output_path@ == derived_output_of(input_path@),
        output_path@ == path_with_extension(input_path@, "html"@),
{
    proof {
        reveal_strlit("html");
    }
    with_extension(input_path, OUTPUT_EXTENSION)
}

/// The name the program goes by.
pub fn program_name(args: &Vec<String>) -> (name: String)
    ensures
        name@ == program_name_of(texts(args@)),
{
    if args.len() > 0 {
        args[0].clone()
    } else {
        "mdr".to_owned()
    }
}

/// Whether `arg` is the option that `name` writes.
fn is_option(arg: &[char], name: &str) -> (same: bool)
    ensures
        same == (arg@ == name@),
{
    let wanted = chars_of(name);
    same_chars(arg, wanted.as_slice())
}

/// Reads a command line. `args[0]` is the program's name, the rest its
/// arguments.
pub fn parse_args(args: &Vec<String>) -> (parsed: Parsed)
    ensures
        parsed@ == parse(texts(args@)),
        parsed@ matches ParsedView::Run(config) ==> (config.serve ==> config.watch),
        parsed@ matches ParsedView::Run(config) ==> config.output_path.len() > 0,
        parsed@ matches ParsedView::Run(config) ==> config.bin == program_name_of(texts(args@)),
{
    let ghost all = texts(args@);
    let mut watch = false;
    let mut serve = false;
    let mut port: u16 = DEFAULT_PORT;
    let mut host: String = "127.0.0.1".to_owned();
    let mut no_clobber = false;
    let mut paths: Vec<String> = Vec::new();
    assert(texts(paths@) =~= Seq::<Seq<char>>::empty());

    let mut at: usize = 1;
    while at < args.len()
        invariant
            1 <= at,
            all == texts(args@),
            scan(
                all,
                at as int,
                Options { watch, serve, port, host: host@, no_clobber, paths: texts(paths@) },
            ) == scan(all, 1, default_options()),
        decreases args.len() - at,
    {
        let arg = chars_of(args[at].as_str());
        assert(arg@ == all[at as int]);
        let ghost so_far = Options {
            watch,
            serve,
            port,
            host: host@,
            no_clobber,
            paths: texts(paths@),
        };
        if is_option(arg.as_slice(), "-w") || is_option(arg.as_slice(), "--watch") {
            watch = true;
            at += 1;
        } else if is_option(arg.as_slice(), "-s") || is_option(arg.as_slice(), "--serve") {
            serve = true;
            at += 1;
        } else if is_option(arg.as_slice(), "-P") || is_option(arg.as_slice(), "--public") {
            serve = true;
            host = "0.0.0.0".to_owned();
            at += 1;
        } else if is_option(arg.as_slice(), "-h") || is_option(arg.as_slice(), "--help") {
            return Parsed::Help;
        } else if is_option(arg.as_slice(), "--port") || is_option(arg.as_slice(), "-p") {
            if at + 1 >= args.len() {
                return Parsed::Rejected(ArgsError::PortWithoutValue);
            }
            assert(args@[at + 1]@ == all[at + 1]);
            match parse_port(args[at + 1].as_str()) {
                Some(value) => {
                    port = value;
                },
                None => {
                    return Parsed::Rejected(ArgsError::InvalidPort(args[at + 1].clone()));
                },
            }
            at += 2;
        } else if is_option(arg.as_slice(), "--host") {
            if at + 1 >= args.len() {
                return Parsed::Rejected(ArgsError::HostWithoutValue);
            }
            assert(args@[at + 1]@ == all[at + 1]);
            host = args[at + 1].clone();
            at += 2;
        } else if is_option(arg.as_slice(), "-n") || is_option(arg.as_slice(), "--no-clobber") {
            no_clobber = true;
            at += 1;
        } else if arg.len() > 0 && arg[0] == '-' {
            return Parsed::Rejected(ArgsError::UnknownOption(args[at].clone()));
        } else {
            let ghost before = texts(paths@);
            paths.push(args[at].clone());
            assert(texts(paths@) =~= before.push(all[at as int]));
            at += 1;
        }
    }

    let bin = program_name(args);
    if paths.len() == 0 || paths.len() > 2 {
        return Parsed::Rejected(ArgsError::WrongPathCount);
    }
    assert(texts(paths@)[0] == paths@[0]@);
    let input_path = paths[0].clone();
    let output_path = if paths.len() == 2 {
        assert(texts(paths@)[1] == paths@[1]@);
        paths[1].clone()
    } else {
        derived_output(input_path.as_str())
    };
    if output_path.as_str().is_empty() {
        return Parsed::Rejected(ArgsError::NoOutputPath);
    }
    Parsed::Run(
        Config {
            bin,
            watch: watch || serve,
            serve,
            port,
            host,
            no_clobber,
            input_path,
            output_path,
        },
    )
}

} // verus!
