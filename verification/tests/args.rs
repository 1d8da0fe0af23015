use langton_ant::args::{
    parse_interval, parse_size, Arguments, ArgumentsError, DEFAULT_CYCLE_INTERVAL,
    DEFAULT_MAP_SIZE, DEFAULT_REFRESH_INTERVAL, DEFAULT_WINDOW_SIZE,
};

fn args(words: &[&str]) -> Vec<String> {
    words.iter().map(|w| w.to_string()).collect()
}

fn some(s: &str) -> Option<String> {
    Some(s.to_string())
}

const DEFAULTS: Arguments = Arguments {
    map_width: 500,
    map_height: 500,
    window_width: 800,
    window_height: 600,
    refresh_interval: 40,
    cycle_interval: 5,
};

#[test]
fn defaults_are_as_documented() {
    assert_eq!(DEFAULT_MAP_SIZE, (500, 500));
    assert_eq!(DEFAULT_WINDOW_SIZE, (800, 600));
    assert_eq!(DEFAULT_REFRESH_INTERVAL, 40);
    assert_eq!(DEFAULT_CYCLE_INTERVAL, 5);
}

#[test]
fn parse_size_reads_two_numbers_around_an_x() {
    assert_eq!(parse_size("500x500"), Some((500, 500)));
    assert_eq!(parse_size("800x600"), Some((800, 600)));
    assert_eq!(parse_size("1x2"), Some((1, 2)));
    assert_eq!(parse_size("0x0"), Some((0, 0)));
    assert_eq!(parse_size("007x010"), Some((7, 10)));
    assert_eq!(parse_size("4294967295x4294967295"), Some((u32::MAX, u32::MAX)));
}

#[test]
fn parse_size_refuses_everything_else() {
    for text in [
        "", "x", "12", "12x", "x12", "12x12x12", "12xx12", "12X12", "12 x 12", " 12x12", "12x12 ",
        "-1x5", "+1x5", "1.5x2", "axb", "12x1a", "1a2x5", "12\u{d7}12", "\u{663}x\u{664}",
        "4294967296x1", "1x4294967296", "99999999999999999999999x1", "18446744073709551616x1",
    ] {
        assert_eq!(parse_size(text), None, "{:?}", text);
    }
}

#[test]
fn parse_interval_reads_a_decimal_number() {
    assert_eq!(parse_interval("0"), Some(0));
    assert_eq!(parse_interval("5"), Some(5));
    assert_eq!(parse_interval("40"), Some(40));
    assert_eq!(parse_interval("0040"), Some(40));
    assert_eq!(parse_interval("1234567890"), Some(1234567890));
    assert_eq!(parse_interval("18446744073709551615"), Some(u64::MAX));
    assert_eq!(parse_interval("000018446744073709551615"), Some(u64::MAX));
}

#[test]
fn parse_interval_refuses_everything_else() {
    for text in [
        "", " ", "a", "4a", "a4", "-4", "+4", "4.0", "4 ", " 4", "1e3", "0x10", "\u{664}",
        "18446744073709551616", "18446744073709551620", "99999999999999999999",
        "184467440737095516150",
    ] {
        assert_eq!(parse_interval(text), None, "{:?}", text);
    }
}

#[test]
fn from_options_takes_defaults_for_what_is_left_out() {
    assert_eq!(Arguments::from_options(false, &None, &None, &None, &None).unwrap(), DEFAULTS);
    assert_eq!(
        Arguments::from_options(false, &some("30x20"), &None, &some("7"), &None).unwrap(),
        Arguments { map_width: 30, map_height: 20, refresh_interval: 7, ..DEFAULTS }
    );
    assert_eq!(
        Arguments::from_options(false, &None, &some("1024x768"), &None, &some("0")).unwrap(),
        Arguments { window_width: 1024, window_height: 768, cycle_interval: 0, ..DEFAULTS }
    );
}

#[test]
fn from_options_reports_the_first_value_it_cannot_read() {
    let bad = some("bad");
    let good_size = some("3x4");
    let good = some("9");
    assert!(matches!(
        Arguments::from_options(true, &bad, &bad, &bad, &bad),
        Err(ArgumentsError::Help)
    ));
    assert!(matches!(
        Arguments::from_options(true, &None, &None, &None, &None),
        Err(ArgumentsError::Help)
    ));
    assert!(matches!(
        Arguments::from_options(false, &bad, &bad, &bad, &bad),
        Err(ArgumentsError::MapSize)
    ));
    assert!(matches!(
        Arguments::from_options(false, &good_size, &bad, &bad, &bad),
        Err(ArgumentsError::WindowSize)
    ));
    assert!(matches!(
        Arguments::from_options(false, &good_size, &None, &bad, &bad),
        Err(ArgumentsError::Refresh)
    ));
    assert!(matches!(
        Arguments::from_options(false, &None, &good_size, &good, &bad),
        Err(ArgumentsError::Cycle)
    ));
    assert!(matches!(
        Arguments::from_options(false, &some("7"), &None, &None, &None),
        Err(ArgumentsError::MapSize)
    ));
    assert!(matches!(
        Arguments::from_options(false, &None, &None, &some("3x4"), &None),
        Err(ArgumentsError::Refresh)
    ));
}

#[test]
fn an_empty_command_line_gives_the_defaults() {
    assert_eq!(Arguments::new(&args(&[])).unwrap(), DEFAULTS);
}

#[test]
fn short_options_are_read() {
    let a = Arguments::new(&args(&["-m", "10x20", "-w", "300x200", "-r", "7", "-c", "9"])).unwrap();
    assert_eq!(
        a,
        Arguments {
            map_width: 10,
            map_height: 20,
            window_width: 300,
            window_height: 200,
            refresh_interval: 7,
            cycle_interval: 9,
        }
    );
    let a = Arguments::new(&args(&["-m10x20", "-c9"])).unwrap();
    assert_eq!(a, Arguments { map_width: 10, map_height: 20, cycle_interval: 9, ..DEFAULTS });
}

#[test]
fn long_options_are_read() {
    let a = Arguments::new(&args(&[
        "--map-size",
        "10x20",
        "--window-size=300x200",
        "--refresh",
        "7",
        "--cycle=9",
    ]))
    .unwrap();
    assert_eq!(
        a,
        Arguments {
            map_width: 10,
            map_height: 20,
            window_width: 300,
            window_height: 200,
            refresh_interval: 7,
            cycle_interval: 9,
        }
    );
}

#[test]
fn free_arguments_are_ignored() {
    let a = Arguments::new(&args(&["one", "-r", "1", "two"])).unwrap();
    assert_eq!(a, Arguments { refresh_interval: 1, ..DEFAULTS });
}

#[test]
fn help_stops_before_any_value_is_read() {
    for line in [vec!["-h"], vec!["--help"], vec!["-m", "bad", "-h"], vec!["-h", "-c", "x"]] {
        assert!(matches!(Arguments::new(&args(&line)), Err(ArgumentsError::Help)), "{:?}", line);
    }
}

#[test]
fn values_that_cannot_be_read_are_reported() {
    assert!(matches!(Arguments::new(&args(&["-m", "10"])), Err(ArgumentsError::MapSize)));
    assert!(matches!(Arguments::new(&args(&["-m", "10x"])), Err(ArgumentsError::MapSize)));
    assert!(matches!(Arguments::new(&args(&["--map-size=ax1"])), Err(ArgumentsError::MapSize)));
    assert!(matches!(Arguments::new(&args(&["-w", "800*600"])), Err(ArgumentsError::WindowSize)));
    assert!(matches!(Arguments::new(&args(&["-r", "fast"])), Err(ArgumentsError::Refresh)));
    assert!(matches!(Arguments::new(&args(&["-r", "-1"])), Err(ArgumentsError::Refresh)));
    assert!(matches!(Arguments::new(&args(&["-c", "1.5"])), Err(ArgumentsError::Cycle)));
    assert!(matches!(Arguments::new(&args(&["--cycle="])), Err(ArgumentsError::Cycle)));
    assert!(matches!(
        Arguments::new(&args(&["-c", "x", "-r", "x", "-w", "x", "-m", "x"])),
        Err(ArgumentsError::MapSize)
    ));
    assert!(matches!(
        Arguments::new(&args(&["-c", "x", "-r", "x", "-w", "x"])),
        Err(ArgumentsError::WindowSize)
    ));
    assert!(matches!(
        Arguments::new(&args(&["-c", "x", "-r", "x"])),
        Err(ArgumentsError::Refresh)
    ));
}

#[test]
fn a_map_without_area_is_read_as_given() {
    let a = Arguments::new(&args(&["-m", "0x7"])).unwrap();
    assert_eq!((a.map_width, a.map_height), (0, 7));
    assert!(langton_ant::world::World::new(
        a.map_width,
        a.map_height,
        a.window_width,
        a.window_height,
        a.refresh_interval,
        a.cycle_interval
    )
    .is_none());
}

fn options_error(line: &[&str]) -> String {
    match Arguments::new(&args(line)) {
        Err(ArgumentsError::Options(why)) => why,
        other => panic!("{:?} gave {:?}", line, other),
    }
}

#[test]
fn a_command_line_that_does_not_fit_the_table_is_reported() {
    assert_eq!(options_error(&["-z"]), "Unrecognized option: 'z'");
    assert_eq!(options_error(&["--zoom", "3"]), "Unrecognized option: 'zoom'");
    assert_eq!(options_error(&["-m"]), "Argument to option 'm' missing");
    assert_eq!(options_error(&["--cycle"]), "Argument to option 'cycle' missing");
    assert_eq!(options_error(&["-r", "1", "-r", "2"]), "Option 'refresh' given more than once");
    assert_eq!(options_error(&["--help=yes"]), "Option 'help' does not take an argument");
}

#[test]
fn every_error_has_its_message() {
    assert_eq!(
        ArgumentsError::Options("Unrecognized option: 'z'".to_string()).message(),
        "Unrecognized option: 'z'\nTry -h or --help to see usage."
    );
    assert_eq!(
        ArgumentsError::MapSize.message(),
        "invalid map size syntax: expected in the format WIDTHxHEIGHT"
    );
    assert_eq!(
        ArgumentsError::WindowSize.message(),
        "invalid window resolution syntax: expected in the format WIDTHxHEIGHT"
    );
    assert_eq!(ArgumentsError::Refresh.message(), "error: bad value type for '-r': uint expected");
    assert_eq!(ArgumentsError::Cycle.message(), "error: bad value type for '-c': uint expected");
    assert_eq!(ArgumentsError::Help.message(), Arguments::usage());
}

#[test]
fn the_usage_names_every_option() {
    let usage = Arguments::usage();
    assert!(usage.starts_with("Usage: ./main [options]\nLangton's Ant rust implementation.\n"));
    for part in [
        "-m, --map-size WIDTHxHEIGHT",
        "the map size",
        "-w, --window-size WIDTHxHEIGHT",
        "the window resolution",
        "-r, --refresh TIME",
        "interval between each refresh (ms)",
        "-c, --cycle TIME",
        "interval between each cycle (ms)",
        "-h, --help",
        "display this help",
    ] {
        assert!(usage.contains(part), "{:?} is missing in {:?}", part, usage);
    }
}

#[test]
fn the_usage_is_what_the_parser_lays_out() {
    let mut table = getopts::Options::new();
    table.optopt("m", "map-size", "the map size", "WIDTHxHEIGHT");
    table.optopt("w", "window-size", "the window resolution", "WIDTHxHEIGHT");
    table.optopt("r", "refresh", "interval between each refresh (ms)", "TIME");
    table.optopt("c", "cycle", "interval between each cycle (ms)", "TIME");
    table.optflag("h", "help", "display this help");
    let laid_out = table.usage("Langton's Ant rust implementation.");
    assert_eq!(Arguments::usage(), format!("Usage: ./main [options]\n{}", laid_out));
    assert_eq!(ArgumentsError::Help.message(), format!("Usage: ./main [options]\n{}", laid_out));
    assert!(Arguments::usage().len() > "Usage: ./main [options]\n".len() + 200);
}
