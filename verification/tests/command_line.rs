use saxrumfex::app::{AppArgs, ArgName, ArgsError, Invocation, HELP};
use saxrumfex::cli::OptionFault;
use saxrumfex::decimal::parse_u32;

fn line(args: &[&str]) -> Vec<String> {
    args.iter().map(|arg| arg.to_string()).collect()
}

fn run(window_size: u32, cell_number: u32, color_number: u32) -> Result<Invocation, ArgsError> {
    Ok(Invocation::Run(AppArgs { window_size, cell_number, color_number }))
}

fn fault(option: ArgName, fault: OptionFault) -> Result<Invocation, ArgsError> {
    Err(ArgsError { option, fault })
}

#[test]
fn empty_line_gives_the_defaults() {
    assert_eq!(AppArgs::parse(Vec::new()), run(900, 1000, 3));
    assert_eq!(
        AppArgs::default(),
        AppArgs { window_size: 900, cell_number: 1000, color_number: 3 }
    );
}

#[test]
fn options_are_read_in_any_order() {
    assert_eq!(
        AppArgs::parse(line(&["--window_size", "100", "--cell_number", "50", "--color_number", "5"])),
        run(100, 50, 5)
    );
    assert_eq!(
        AppArgs::parse(line(&["--color_number", "5", "--window_size", "100", "--cell_number", "50"])),
        run(100, 50, 5)
    );
    assert_eq!(AppArgs::parse(line(&["--cell_number", "100"])), run(900, 100, 3));
    assert_eq!(AppArgs::parse(line(&["--color_number", "0"])), run(900, 1000, 0));
}

#[test]
fn other_arguments_are_left_alone() {
    assert_eq!(
        AppArgs::parse(line(&["first", "--window_size", "64", "last", "-x"])),
        run(64, 1000, 3)
    );
    assert_eq!(AppArgs::parse(line(&["--window_size=64"])), run(900, 1000, 3));
}

#[test]
fn first_occurrence_of_an_option_counts() {
    assert_eq!(
        AppArgs::parse(line(&["--color_number", "4", "--color_number", "9"])),
        run(900, 1000, 4)
    );
}

#[test]
fn help_comes_before_everything_else() {
    assert_eq!(AppArgs::parse(line(&["-h"])), Ok(Invocation::Help));
    assert_eq!(AppArgs::parse(line(&["--help"])), Ok(Invocation::Help));
    assert_eq!(
        AppArgs::parse(line(&["--window_size", "none", "--help"])),
        Ok(Invocation::Help)
    );
    assert_eq!(AppArgs::parse(line(&["--cell_number", "-h"])), Ok(Invocation::Help));
    assert_eq!(AppArgs::parse(line(&["-help"])), run(900, 1000, 3));
    assert!(HELP.contains("--window_size"));
    assert!(HELP.contains("--cell_number"));
    assert!(HELP.contains("--color_number"));
}

#[test]
fn option_without_value_is_an_error() {
    assert_eq!(
        AppArgs::parse(line(&["--window_size"])),
        fault(ArgName::WindowSize, OptionFault::MissingValue)
    );
    assert_eq!(
        AppArgs::parse(line(&["--window_size", "1", "--cell_number"])),
        fault(ArgName::CellNumber, OptionFault::MissingValue)
    );
    assert_eq!(
        AppArgs::parse(line(&["--cell_number", "2", "--color_number"])),
        fault(ArgName::ColorNumber, OptionFault::MissingValue)
    );
}

#[test]
fn value_that_is_no_number_is_an_error() {
    assert_eq!(
        AppArgs::parse(line(&["--window_size", "wide"])),
        fault(ArgName::WindowSize, OptionFault::InvalidNumber)
    );
    assert_eq!(
        AppArgs::parse(line(&["--cell_number", "-5"])),
        fault(ArgName::CellNumber, OptionFault::InvalidNumber)
    );
    assert_eq!(
        AppArgs::parse(line(&["--color_number", "4294967296"])),
        fault(ArgName::ColorNumber, OptionFault::InvalidNumber)
    );
    assert_eq!(
        AppArgs::parse(line(&["--color_number", ""])),
        fault(ArgName::ColorNumber, OptionFault::InvalidNumber)
    );
}

#[test]
fn first_option_at_fault_decides_the_error() {
    assert_eq!(
        AppArgs::parse(line(&["--color_number", "x", "--cell_number", "y", "--window_size", "z"])),
        fault(ArgName::WindowSize, OptionFault::InvalidNumber)
    );
    assert_eq!(
        AppArgs::parse(line(&["--color_number", "x", "--cell_number", "y"])),
        fault(ArgName::CellNumber, OptionFault::InvalidNumber)
    );
}

#[test]
fn an_option_is_read_in_what_the_earlier_ones_left() {
    // The window size takes "7" with it, so that "8" follows the cell number.
    assert_eq!(
        AppArgs::parse(line(&["--cell_number", "--window_size", "7", "8"])),
        run(7, 8, 3)
    );
    // Without the "8" the cell number is left as the last argument.
    assert_eq!(
        AppArgs::parse(line(&["--cell_number", "--window_size", "7"])),
        fault(ArgName::CellNumber, OptionFault::MissingValue)
    );
    // The value of an option may look like another option.
    assert_eq!(
        AppArgs::parse(line(&["--window_size", "--cell_number", "5"])),
        fault(ArgName::WindowSize, OptionFault::InvalidNumber)
    );
}

#[test]
fn numbers_are_plain_decimal() {
    assert_eq!(parse_u32("0"), Some(0));
    assert_eq!(parse_u32("7"), Some(7));
    assert_eq!(parse_u32("+7"), Some(7));
    assert_eq!(parse_u32("007"), Some(7));
    assert_eq!(parse_u32("900"), Some(900));
    assert_eq!(parse_u32("4294967295"), Some(u32::MAX));
    assert_eq!(parse_u32("+4294967295"), Some(u32::MAX));
    assert_eq!(parse_u32("4294967296"), None);
    assert_eq!(parse_u32("99999999999999999999999999"), None);
    assert_eq!(parse_u32(""), None);
    assert_eq!(parse_u32("+"), None);
    assert_eq!(parse_u32("-"), None);
    assert_eq!(parse_u32("-1"), None);
    assert_eq!(parse_u32("-0"), None);
    assert_eq!(parse_u32("++1"), None);
    assert_eq!(parse_u32("1+"), None);
    assert_eq!(parse_u32(" 1"), None);
    assert_eq!(parse_u32("1 "), None);
    assert_eq!(parse_u32("1_000"), None);
    assert_eq!(parse_u32("0x10"), None);
    assert_eq!(parse_u32("1.0"), None);
    assert_eq!(parse_u32("١٢"), None);
    assert_eq!(parse_u32("12é"), None);
}

#[test]
fn numbers_are_read_as_the_standard_library_reads_them() {
    let samples = [
        "", "+", "-", "0", "+0", "-0", "1", "42", "+42", "-42", "0042", "4294967295",
        "4294967296", "42949672950", " 42", "42 ", "4 2", "4_2", "4e2", "४२", "++42",
        "+-42", "42+", "abc", "0x2a", "18446744073709551616",
    ];
    for sample in samples {
        assert_eq!(parse_u32(sample), sample.parse::<u32>().ok(), "for {:?}", sample);
    }
}
