//! The command line: which options there are, what their values must look
//! like, and what a run is configured with when they are left out.

use crate::options::{
    fail_message,
    is_plain,
    opt_present,
    opt_str,
    optflag,
    option_help,
    option_table,
    optopt,
    options_new,
    parse,
    parse_outcome,
    table_names,
    usage,
    usage_text,
    well_named,
};
use vstd::prelude::*;
use vstd::string::*;

verus! {

/// The grid's size where the command line gives none.
pub const DEFAULT_MAP_SIZE: (u32, u32) = (500, 500);

/// The window's size where the command line gives none.
pub const DEFAULT_WINDOW_SIZE: (u32, u32) = (800, 600);

/// The time between two frames where the command line gives none.
pub const DEFAULT_REFRESH_INTERVAL: u64 = 40;

/// The time between two steps where the command line gives none.
pub const DEFAULT_CYCLE_INTERVAL: u64 = 5;

/// Whether a character is one of the ten decimal digits.
pub open spec fn is_digit(c: char) -> bool {
    48 <= c as u32 <= 57
}

/// The number that a decimal digit stands for.
pub open spec fn digit_value(c: char) -> nat {
    (c as u32 - 48) as nat
}

/// Whether every character is a decimal digit.
pub open spec fn is_digits(s: Seq<char>) -> bool {
    forall|i: int| 0 <= i < s.len() ==> is_digit(#[trigger] s[i])
}

/// Whether a text is a decimal number: one digit or more, and nothing else.
pub open spec fn is_number(s: Seq<char>) -> bool {
    s.len() > 0 && is_digits(s)
}

/// The number that a text of decimal digits stands for.
pub open spec fn number_value(s: Seq<char>) -> nat
    decreases s.len(),
{
    if s.len() == 0 {
        0
    } else {
        number_value(s.drop_last()) * 10 + digit_value(s.last())
    }
}

/// The number a text stands for, if it is a decimal number of at most
/// `limit`.
pub open spec fn parsed_number(s: Seq<char>, limit: int) -> Option<nat> {
    if is_number(s) && number_value(s) <= limit {
        Some(number_value(s))
    } else {
        None
    }
}

/// The place of the first `x` in a text, or the text's length if it has none.
pub open spec fn first_x(s: Seq<char>) -> int
    decreases s.len(),
{
    if s.len() == 0 {
        0
    } else if s[0] == 'x' {
        0
    } else {
        1 + first_x(s.drop_first())
    }
}

/// The size that a text of the form `WIDTHxHEIGHT` stands for: a decimal
/// number, an `x`, and a decimal number, neither above what 32 bits hold.
/// Any other text stands for no size.
pub open spec fn parsed_size(s: Seq<char>) -> Option<(nat, nat)> {
    let i = first_x(s);
    if i < s.len() {
        match (
            parsed_number(s.subrange(0, i), u32::MAX as int),
            parsed_number(s.subrange(i + 1, s.len() as int), u32::MAX as int),
        ) {
            (Some(w), Some(h)) => Some((w, h)),
            _ => None,
        }
    } else {
        None
    }
}

/// The first `x` of a text is an `x`, and no character before it is one.
pub proof fn lemma_first_x(s: Seq<char>)
    ensures
        0 <= first_x(s) <= s.len(),
        first_x(s) < s.len() ==> s[first_x(s)] == 'x',
        forall|i: int| 0 <= i < first_x(s) ==> s[i] != 'x',
    decreases s.len(),
{
    if s.len() > 0 && s[0] != 'x' {
        let t = s.drop_first();
        lemma_first_x(t);
        assert forall|i: int| 0 <= i < first_x(s) implies s[i] != 'x' by {
            if i > 0 {
                assert(s[i] == t[i - 1]);
            }
        }
    }
}

/// A text without an `x` before place `i` and with an `x` at place `i` has
/// its first `x` there.
pub proof fn lemma_first_x_is(s: Seq<char>, i: int)
    requires
        0 <= i <= s.len(),
        forall|k: int| 0 <= k < i ==> s[k] != 'x',
        i < s.len() ==> s[i] == 'x',
    ensures
        first_x(s) == i,
{
    lemma_first_x(s);
}

/// A text made of a decimal number, an `x` and a decimal number stands for
/// the size with these two numbers if neither is above what 32 bits hold,
/// and for no size if one is.
pub proof fn lemma_size_syntax(s: Seq<char>, width: Seq<char>, height: Seq<char>)
    requires
        is_number(width),
        is_number(height),
        s == width + seq!['x'] + height,
    ensures
        number_value(width) <= u32::MAX && number_value(height) <= u32::MAX ==> parsed_size(s)
            == Some((number_value(width), number_value(height))),
        number_value(width) > u32::MAX || number_value(height) > u32::MAX ==> parsed_size(s)
            is None,
{
    let i = width.len() as int;
    assert forall|k: int| 0 <= k < i implies s[k] != 'x' by {
        assert(is_digit(width[k]));
    }
    lemma_first_x_is(s, i);
    assert(s.subrange(0, i) =~= width);
    assert(s.subrange(i + 1, s.len() as int) =~= height);
}

/// A size that a text stands for comes from a text made of a decimal
/// number, an `x` and a decimal number.
pub proof fn lemma_size_syntax_only(s: Seq<char>)
    requires
        parsed_size(s) is Some,
    ensures
        exists|width: Seq<char>, height: Seq<char>|
            is_number(width) && is_number(height) && s == #[trigger] (width + seq!['x'] + height),
{
    lemma_first_x(s);
    let i = first_x(s);
    let width = s.subrange(0, i);
    let height = s.subrange(i + 1, s.len() as int);
    assert(s =~= width + seq!['x'] + height);
}

/// Among texts of digits, a text stands for at least the number that any
/// of its beginnings stands for.
proof fn lemma_prefix_value(s: Seq<char>, k: int)
    requires
        is_digits(s),
        0 <= k <= s.len(),
    ensures
        number_value(s.subrange(0, k)) <= number_value(s),
    decreases s.len() - k,
{
    if k == s.len() {
        assert(s.subrange(0, k) =~= s);
    } else {
        lemma_prefix_value(s, k + 1);
        let longer = s.subrange(0, k + 1);
        assert(longer.drop_last() =~= s.subrange(0, k));
    }
}

/// Reads the characters from `from` up to `to` as a decimal number.
fn parse_decimal(s: &str, from: usize, to: usize) -> (r: Option<u64>)
    requires
        from <= to <= s@.len(),
    ensures
        match r {
            Some(v) => parsed_number(s@.subrange(from as int, to as int), u64::MAX as int) == Some(
                v as nat,
            ),
            None => parsed_number(s@.subrange(from as int, to as int), u64::MAX as int) is None,
        },
{
    let ghost text = s@.subrange(from as int, to as int);
    if from == to {
        return None;
    }
    let mut acc: u64 = 0;
    let mut i: usize = from;
    while i < to
        invariant
            from <= i <= to <= s@.len(),
            text == s@.subrange(from as int, to as int),
            is_digits(text.subrange(0, i - from)),
            acc == number_value(text.subrange(0, i - from)),
        decreases to - i,
    {
        let c: char = s.get_char(i);
        let code: u32 = c as u32;
        if code < 48 || code > 57 {
            proof {
                assert(!is_digit(text[i - from]));
            }
            return None;
        }
        let d: u64 = (code - 48) as u64;
        let ghost longer = text.subrange(0, i - from + 1);
        proof {
            assert(longer.drop_last() =~= text.subrange(0, i - from));
            assert(is_digits(longer)) by {
                assert forall|k: int| 0 <= k < longer.len() implies is_digit(
                    #[trigger] longer[k],
                ) by {
                    if k < i - from {
                        assert(longer[k] == text.subrange(0, i - from)[k]);
                    }
                }
            }
        }
        if acc > (u64::MAX - d) / 10 {
            proof {
                if is_digits(text) {
                    lemma_prefix_value(text, i - from + 1);
                }
            }
            return None;
        }
        acc = acc * 10 + d;
        i = i + 1;
    }
    proof {
        assert(text.subrange(0, to - from) =~= text);
    }
    Some(acc)
}

/// Reads a text as an interval in milliseconds: a decimal number that
/// 64 bits hold.
pub fn parse_interval(s: &str) -> (r: Option<u64>)
    ensures
        match r {
            Some(v) => parsed_number(s@, u64::MAX as int) == Some(v as nat),
            None => parsed_number(s@, u64::MAX as int) is None,
        },
{
    let n = s.unicode_len();
    proof {
        assert(s@.subrange(0, n as int) =~= s@);
    }
    parse_decimal(s, 0, n)
}

/// Reads a text of the form `WIDTHxHEIGHT` as a size.
pub fn parse_size(s: &str) -> (r: Option<(u32, u32)>)
    ensures
        match r {
            Some(size) => parsed_size(s@) == Some((size.0 as nat, size.1 as nat)),
            None => parsed_size(s@) is None,
        },
{
    let n = s.unicode_len();
    let mut i: usize = 0;
    while i < n && s.get_char(i) != 'x'
        invariant
            i <= n == s@.len(),
            forall|k: int| 0 <= k < i ==> s@[k] != 'x',
        decreases n - i,
    {
        i = i + 1;
    }
    proof {
        lemma_first_x_is(s@, i as int);
    }
    if i >= n {
        return None;
    }
    let width = match parse_decimal(s, 0, i) {
        Some(w) => w,
        None => {
            return None;
        },
    };
    let height = match parse_decimal(s, i + 1, n) {
        Some(h) => h,
        None => {
            return None;
        },
    };
    if width > u32::MAX as u64 || height > u32::MAX as u64 {
        return None;
    }
    Some((width as u32, height as u32))
}

/// What a run is configured with.
#[derive(Clone, Copy, Debug, PartialEq, Eq, Structural)]
pub struct Arguments {
    pub map_width: u32,
    pub map_height: u32,
    pub window_width: u32,
    pub window_height: u32,
    pub refresh_interval: u64,
    pub cycle_interval: u64,
}

/// Why a command line gives no run.
#[derive(Debug)]
pub enum ArgumentsError {
    /// The command line does not fit the option table; the text says why.
    Options(String),
    /// Help was asked for.
    Help,
    /// The value of the map size is no size.
    MapSize,
    /// The value of the window size is no size.
    WindowSize,
    /// The value of the refresh interval is no number.
    Refresh,
    /// The value of the cycle interval is no number.
    Cycle,
}

/// The text of an optional value.
pub open spec fn text(value: Option<String>) -> Option<Seq<char>> {
    match value {
        Some(s) => Some(s@),
        None => None,
    }
}

/// The size that an optional value stands for: the default where there is
/// no value, and no size where the value is not of the form `WIDTHxHEIGHT`.
pub open spec fn size_or(value: Option<Seq<char>>, default: (u32, u32)) -> Option<(nat, nat)> {
    match value {
        Some(s) => parsed_size(s),
        None => Some((default.0 as nat, default.1 as nat)),
    }
}

/// The interval that an optional value stands for: the default where there
/// is no value, and no interval where the value is not a number.
pub open spec fn interval_or(value: Option<Seq<char>>, default: u64) -> Option<nat> {
    match value {
        Some(s) => parsed_number(s, u64::MAX as int),
        None => Some(default as nat),
    }
}

/// What the options found on a command line configure. Help stops
/// everything; then the first value that cannot be read, in the order map
/// size, window size, refresh interval, cycle interval, is the error;
/// otherwise each value is what was given, or its default.
pub open spec fn arguments_of(
    help: bool,
    map_size: Option<Seq<char>>,
    window_size: Option<Seq<char>>,
    refresh: Option<Seq<char>>,
    cycle: Option<Seq<char>>,
) -> Result<Arguments, ArgumentsError> {
    let map = size_or(map_size, DEFAULT_MAP_SIZE);
    let window = size_or(window_size, DEFAULT_WINDOW_SIZE);
    let refresh_interval = interval_or(refresh, DEFAULT_REFRESH_INTERVAL);
    let cycle_interval = interval_or(cycle, DEFAULT_CYCLE_INTERVAL);
    if help {
        Err(ArgumentsError::Help)
    } else if map is None {
        Err(ArgumentsError::MapSize)
    } else if window is None {
        Err(ArgumentsError::WindowSize)
    } else if refresh_interval is None {
        Err(ArgumentsError::Refresh)
    } else if cycle_interval is None {
        Err(ArgumentsError::Cycle)
    } else {
        let (map_width, map_height) = map->0;
        let (window_width, window_height) = window->0;
        Ok(
            Arguments {
                map_width: map_width as u32,
                map_height: map_height as u32,
                window_width: window_width as u32,
                window_height: window_height as u32,
                refresh_interval: refresh_interval->0 as u64,
                cycle_interval: cycle_interval->0 as u64,
            },
        )
    }
}

/// The options of the command line: for each its short name, its long name
/// and whether it takes a value.
pub open spec fn option_list() -> Seq<(Seq<char>, Seq<char>, bool)> {
    seq![
        ("m"@, "map-size"@, true),
        ("w"@, "window-size"@, true),
        ("r"@, "refresh"@, true),
        ("c"@, "cycle"@, true),
        ("h"@, "help"@, false),
    ]
}

/// What the options tell the user: for each its description and the hint
/// that stands for its value.
pub open spec fn option_help_list() -> Seq<(Seq<char>, Seq<char>)> {
    seq![
        ("the map size"@, "WIDTHxHEIGHT"@),
        ("the window resolution"@, "WIDTHxHEIGHT"@),
        ("interval between each refresh (ms)"@, "TIME"@),
        ("interval between each cycle (ms)"@, "TIME"@),
        ("display this help"@, Seq::<char>::empty()),
    ]
}

/// The help text: a line that says how the program is called, then what the
/// parser lays out for the option table under a line that says what the
/// program is.
pub open spec fn usage_of() -> Seq<char> {
    "Usage: ./main [options]\n"@ + usage_text(
        option_list(),
        option_help_list(),
        "Langton's Ant rust implementation."@,
    )
}

/// The value of an option's first occurrence, if it occurred with one.
pub open spec fn first_value(occurrences: Seq<Option<Seq<char>>>) -> Option<Seq<char>> {
    if occurrences.len() > 0 {
        occurrences[0]
    } else {
        None
    }
}

/// What a parsed command line configures: help was asked for if `-h`
/// occurred, and each value is that of the first occurrence of its option.
pub open spec fn found_arguments(found: Map<Seq<char>, Seq<Option<Seq<char>>>>) -> Result<
    Arguments,
    ArgumentsError,
> {
    arguments_of(
        found["h"@].len() > 0,
        first_value(found["m"@]),
        first_value(found["w"@]),
        first_value(found["r"@]),
        first_value(found["c"@]),
    )
}

/// Reads an optional size.
fn size_option(value: &Option<String>, default: (u32, u32)) -> (r: Option<(u32, u32)>)
    ensures
        match r {
            Some(size) => size_or(text(*value), default) == Some((size.0 as nat, size.1 as nat)),
            None => size_or(text(*value), default) is None,
        },
{
    match value {
        Some(s) => parse_size(s.as_str()),
        None => Some(default),
    }
}

/// Reads an optional interval.
fn interval_option(value: &Option<String>, default: u64) -> (r: Option<u64>)
    ensures
        match r {
            Some(v) => interval_or(text(*value), default) == Some(v as nat),
            None => interval_or(text(*value), default) is None,
        },
{
    match value {
        Some(s) => parse_interval(s.as_str()),
        None => Some(default),
    }
}

/// The option table of the command line: map size, window size, refresh
/// interval, cycle interval and help.
fn option_definitions() -> (options: getopts::Options)
    ensures
        is_plain(options),
        option_table(options) == option_list(),
        option_help(options) == option_help_list(),
        well_named(option_list()),
        table_names(option_list()).contains("m"@),
        table_names(option_list()).contains("w"@),
        table_names(option_list()).contains("r"@),
        table_names(option_list()).contains("c"@),
        table_names(option_list()).contains("h"@),
{
    proof {
        reveal_strlit("m");
        reveal_strlit("map-size");
        reveal_strlit("w");
        reveal_strlit("window-size");
        reveal_strlit("r");
        reveal_strlit("refresh");
        reveal_strlit("c");
        reveal_strlit("cycle");
        reveal_strlit("h");
        reveal_strlit("help");
    }
    let mut options = options_new();
    optopt(&mut options, "m", "map-size", "the map size", "WIDTHxHEIGHT");
    optopt(&mut options, "w", "window-size", "the window resolution", "WIDTHxHEIGHT");
    optopt(&mut options, "r", "refresh", "interval between each refresh (ms)", "TIME");
    optopt(&mut options, "c", "cycle", "interval between each cycle (ms)", "TIME");
    optflag(&mut options, "h", "help", "display this help");
    proof {
        let table = option_list();
        assert(option_table(options) =~= table);
        assert(option_help(options) =~= option_help_list());
        assert(table[0].0 == "m"@);
        assert(table[1].0 == "w"@);
        assert(table[2].0 == "r"@);
        assert(table[3].0 == "c"@);
        assert(table[4].0 == "h"@);
    }
    options
}

impl Arguments {
    /// What the options found on a command line configure: see
    /// [`arguments_of`].
    pub fn from_options(
        help: bool,
        map_size: &Option<String>,
        window_size: &Option<String>,
        refresh: &Option<String>,
        cycle: &Option<String>,
    ) -> (r: Result<Arguments, ArgumentsError>)
        ensures
            r == arguments_of(
                help,
                text(*map_size),
                text(*window_size),
                text(*refresh),
                text(*cycle),
            ),
    {
        if help {
            return Err(ArgumentsError::Help);
        }
        let map = match size_option(map_size, DEFAULT_MAP_SIZE) {
            Some(size) => size,
            None => {
                return Err(ArgumentsError::MapSize);
            },
        };
        let window = match size_option(window_size, DEFAULT_WINDOW_SIZE) {
            Some(size) => size,
            None => {
                return Err(ArgumentsError::WindowSize);
            },
        };
        let refresh_interval = match interval_option(refresh, DEFAULT_REFRESH_INTERVAL) {
            Some(v) => v,
            None => {
                return Err(ArgumentsError::Refresh);
            },
        };
        let cycle_interval = match interval_option(cycle, DEFAULT_CYCLE_INTERVAL) {
            Some(v) => v,
            None => {
                return Err(ArgumentsError::Cycle);
            },
        };
        Ok(
            Arguments {
                map_width: map.0,
                map_height: map.1,
                window_width: window.0,
                window_height: window.1,
                refresh_interval,
                cycle_interval,
            },
        )
    }

    /// Reads the arguments of a command line, the program's name left out.
    ///
    /// The parser decides which options occur and with what values, or that
    /// the command line does not fit the table. Where it fails, the error
    /// carries its wording; where it succeeds, the result is what
    /// [`found_arguments`] makes of what it found.
    pub fn new(args: &Vec<String>) -> (r: Result<Arguments, ArgumentsError>)
        ensures
            match parse_outcome(option_list(), args.deep_view()) {
                Ok(found) => r == found_arguments(found),
                Err(why) => r matches Err(ArgumentsError::Options(text)) && text@ == why,
            },
    {
        let options = option_definitions();
        let matches = match parse(&options, args) {
            Ok(m) => m,
            Err(fail) => {
                return Err(ArgumentsError::Options(fail_message(&fail)));
            },
        };
        let help = opt_present(&matches, "h");
        let map_size = opt_str(&matches, "m");
        let window_size = opt_str(&matches, "w");
        let refresh = opt_str(&matches, "r");
        let cycle = opt_str(&matches, "c");
        Arguments::from_options(help, &map_size, &window_size, &refresh, &cycle)
    }

    /// The help text: a line that says how the program is called, and the
    /// option table as the parser lays it out.
    pub fn usage() -> (help: String)
        ensures
            help@ == usage_of(),
    {
        let options = option_definitions();
        let table = usage(&options, "Langton's Ant rust implementation.");
        let help = String::from_str("Usage: ./main [options]\n").concat(table.as_str());
        help
    }
}

impl ArgumentsError {
    /// What to tell the user.
    pub fn message(&self) -> (m: String)
        ensures
            match self {
                ArgumentsError::Options(why) => m@ == why@
                    + "\nTry -h or --help to see usage."@,
                ArgumentsError::Help => m@ == usage_of(),
                ArgumentsError::MapSize => m@
                    == "invalid map size syntax: expected in the format WIDTHxHEIGHT"@,
                ArgumentsError::WindowSize => m@
                    == "invalid window resolution syntax: expected in the format WIDTHxHEIGHT"@,
                ArgumentsError::Refresh => m@ == "error: bad value type for '-r': uint expected"@,
                ArgumentsError::Cycle => m@ == "error: bad value type for '-c': uint expected"@,
            },
    {
        match self {
            ArgumentsError::Options(why) => why.clone().concat("\nTry -h or --help to see usage."),
            ArgumentsError::Help => Arguments::usage(),
            ArgumentsError::MapSize => String::from_str(
                "invalid map size syntax: expected in the format WIDTHxHEIGHT",
            ),
            ArgumentsError::WindowSize => String::from_str(
                "invalid window resolution syntax: expected in the format WIDTHxHEIGHT",
            ),
            ArgumentsError::Refresh => String::from_str(
                "error: bad value type for '-r': uint expected",
            ),
            ArgumentsError::Cycle => String::from_str(
                "error: bad value type for '-c': uint expected",
            ),
        }
    }
}

} // verus!
