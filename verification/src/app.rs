//! Start-up configuration and the grid that is derived from it.

use vstd::prelude::*;
use crate::arith::{ceil_sqrt, ceil_sqrt_u64, lemma_ceil_sqrt, lemma_ceil_sqrt_least};
use crate::cli::{
    arguments_of,
    flag_position,
    number_option,
    take_flag,
    take_number,
    texts,
    without_option,
    OptionFault,
};

verus! {

/// Side of the window, in pixels, when none is given.
pub const DEFAULT_WINDOW_SIZE: u32 = 900;

/// Number of cells asked for when none is given.
pub const DEFAULT_CELL_NUMBER: u32 = 1000;

/// Number of colors when none is given.
pub const DEFAULT_COLOR_NUMBER: u32 = 3;

/// What the program prints when it is asked for help.
pub const HELP: &'static str = "\
SAXRUMFEX

USAGE:
  saxrumfex --window_size NUMBER --cell_number NUMBER --color_number NUMBER

FLAGS:
  -h, --help            Prints help information

OPTIONS:
  --window_size  NUMBER - Sets window's width and height [default: 900px]
  --cell_number  NUMBER - Sets the number of cells in the simulation [default: 1000]
  --color_number NUMBER - Sets the number of distincs colors that a cell can takes [default: 3; random colors]
";

/// The options of the command line.
#[derive(Debug, Clone, Copy, PartialEq, Eq, Structural)]
pub enum ArgName {
    /// `--window_size`
    WindowSize,
    /// `--cell_number`
    CellNumber,
    /// `--color_number`
    ColorNumber,
}

/// A command line that cannot be read.
#[derive(Debug, Clone, Copy, PartialEq, Eq, Structural)]
pub struct ArgsError {
    /// The option that is at fault.
    pub option: ArgName,
    /// What is wrong with it.
    pub fault: OptionFault,
}

/// What a command line asks for.
#[derive(Debug, Clone, Copy, PartialEq, Eq, Structural)]
pub enum Invocation {
    /// To print the help text and leave.
    Help,
    /// To run with these settings.
    Run(AppArgs),
}

/// A configuration that cannot be run. Each one is fatal at start-up.
#[derive(Debug, Clone, Copy, PartialEq, Eq, Structural)]
pub enum ConfigError {
    /// No cell was asked for.
    ZeroCellNumber,
    /// More cells were asked for than the canvas has pixels.
    CanvasTooSmall,
    /// The grid that fits the canvas has more cells than were asked for.
    GridExceedsRequest,
    /// The adapter cannot run compute shaders.
    ComputeUnsupported,
    /// The grid has more cells than the device can run invocations.
    TooManyInvocations,
    /// One cell buffer is larger than the device lets a buffer be.
    CellBufferTooLarge,
}

/// What the user asked for.
#[derive(Debug, Clone, Copy, PartialEq, Eq, Structural)]
pub struct AppArgs {
    /// Width and height of the window, in pixels.
    pub window_size: u32,
    /// Number of cells wanted. The grid never has more.
    pub cell_number: u32,
    /// Number of distinct colors a cell can take.
    pub color_number: u32,
}

/// The grid laid over the canvas. Computed once, never changed.
#[derive(Debug, Clone, Copy, PartialEq, Eq, Structural)]
pub struct AppState {
    /// Canvas width, in pixels.
    pub width: u32,
    /// Canvas height, in pixels.
    pub height: u32,
    /// Side of one square cell, in pixels.
    pub cell_dimension: u32,
    /// Number of cells along x.
    pub cell_number_x: u32,
    /// Number of cells along y.
    pub cell_number_y: u32,
    /// Number of cells of the grid; at most the number asked for.
    pub total_cell_number: u32,
    /// Number of distinct colors a cell can take.
    pub color_number: u32,
}

impl ArgsError {
    /// The diagnostic for this error.
    pub open spec fn diagnostic(self) -> Seq<char> {
        match (self.option, self.fault) {
            (ArgName::WindowSize, OptionFault::InvalidNumber) =>
                "'Window size' should be a valid number"@,
            (ArgName::CellNumber, OptionFault::InvalidNumber) =>
                "'Cell number' should be a valid number"@,
            (ArgName::ColorNumber, OptionFault::InvalidNumber) =>
                "'Color number' should be a valid number"@,
            (ArgName::WindowSize, OptionFault::MissingValue) =>
                "the '--window_size' option doesn't have an associated value"@,
            (ArgName::CellNumber, OptionFault::MissingValue) =>
                "the '--cell_number' option doesn't have an associated value"@,
            (ArgName::ColorNumber, OptionFault::MissingValue) =>
                "the '--color_number' option doesn't have an associated value"@,
        }
    }

    /// What to tell the user before the program ends.
    pub fn message(&self) -> (text: &'static str)
        ensures
            text@ == self.diagnostic(),
    {
        match (self.option, self.fault) {
            (ArgName::WindowSize, OptionFault::InvalidNumber) =>
                "'Window size' should be a valid number",
            (ArgName::CellNumber, OptionFault::InvalidNumber) =>
                "'Cell number' should be a valid number",
            (ArgName::ColorNumber, OptionFault::InvalidNumber) =>
                "'Color number' should be a valid number",
            (ArgName::WindowSize, OptionFault::MissingValue) =>
                "the '--window_size' option doesn't have an associated value",
            (ArgName::CellNumber, OptionFault::MissingValue) =>
                "the '--cell_number' option doesn't have an associated value",
            (ArgName::ColorNumber, OptionFault::MissingValue) =>
                "the '--color_number' option doesn't have an associated value",
        }
    }
}

impl ConfigError {
    /// The diagnostic for this error.
    pub open spec fn diagnostic(self) -> Seq<char> {
        match self {
            ConfigError::ZeroCellNumber => "The number of cells must not be zero"@,
            ConfigError::CanvasTooSmall => "The window has fewer pixels than cells were asked for"@,
            ConfigError::GridExceedsRequest =>
                "The grid that fits the window has more cells than were asked for"@,
            ConfigError::ComputeUnsupported =>
                "Adapter does not support the downlevel capabilities required to run a compute shader"@,
            ConfigError::TooManyInvocations =>
                "The grid has more cells than the device can run in one dispatch"@,
            ConfigError::CellBufferTooLarge =>
                "The cells take more memory than the device allows for one buffer"@,
        }
    }

    /// What to tell the user before the program ends.
    pub fn message(&self) -> (text: &'static str)
        ensures
            text@ == self.diagnostic(),
    {
        match self {
            ConfigError::ZeroCellNumber => "The number of cells must not be zero",
            ConfigError::CanvasTooSmall => "The window has fewer pixels than cells were asked for",
            ConfigError::GridExceedsRequest =>
                "The grid that fits the window has more cells than were asked for",
            ConfigError::ComputeUnsupported =>
                "Adapter does not support the downlevel capabilities required to run a compute shader",
            ConfigError::TooManyInvocations =>
                "The grid has more cells than the device can run in one dispatch",
            ConfigError::CellBufferTooLarge =>
                "The cells take more memory than the device allows for one buffer",
        }
    }
}

/// The list of arguments asks for help.
pub open spec fn asks_help(args: Seq<Seq<char>>) -> bool {
    flag_position(args, "-h"@, "--help"@) < args.len()
}

/// What a list of arguments asks for. Help comes before everything else.
/// The three options are then read in the order window size, cell number,
/// color number, each one in what the ones before it have left of the list;
/// the first that is at fault decides the error.
pub open spec fn invocation_of(args: Seq<Seq<char>>) -> Result<Invocation, ArgsError> {
    let after_window = without_option(args, "--window_size"@);
    let after_cells = without_option(after_window, "--cell_number"@);
    let window_size = number_option(args, "--window_size"@, DEFAULT_WINDOW_SIZE);
    let cell_number = number_option(after_window, "--cell_number"@, DEFAULT_CELL_NUMBER);
    let color_number = number_option(after_cells, "--color_number"@, DEFAULT_COLOR_NUMBER);
    if asks_help(args) {
        Ok(Invocation::Help)
    } else if window_size is Err {
        Err(ArgsError { option: ArgName::WindowSize, fault: window_size->Err_0 })
    } else if cell_number is Err {
        Err(ArgsError { option: ArgName::CellNumber, fault: cell_number->Err_0 })
    } else if color_number is Err {
        Err(ArgsError { option: ArgName::ColorNumber, fault: color_number->Err_0 })
    } else {
        Ok(
            Invocation::Run(
                AppArgs {
                    window_size: window_size->Ok_0,
                    cell_number: cell_number->Ok_0,
                    color_number: color_number->Ok_0,
                },
            ),
        )
    }
}

impl Default for AppArgs {
    /// The settings of a command line without options.
    fn default() -> (args: AppArgs)
        ensures
            args == (AppArgs {
                window_size: DEFAULT_WINDOW_SIZE,
                cell_number: DEFAULT_CELL_NUMBER,
                color_number: DEFAULT_COLOR_NUMBER,
            }),
    {
        AppArgs {
            window_size: DEFAULT_WINDOW_SIZE,
            cell_number: DEFAULT_CELL_NUMBER,
            color_number: DEFAULT_COLOR_NUMBER,
        }
    }
}

impl AppArgs {
    /// Reads the command line, given without the name of the program.
    pub fn parse(args: Vec<String>) -> (result: Result<Invocation, ArgsError>)
        ensures
            result == invocation_of(texts(args@)),
    {
        proof {
            reveal_strlit("-h");
            reveal_strlit("--help");
            reveal_strlit("--window_size");
            reveal_strlit("--cell_number");
            reveal_strlit("--color_number");
        }
        let mut arguments = arguments_of(args);
        if take_flag(&mut arguments, "-h", "--help") {
            return Ok(Invocation::Help);
        }
        let window_size = match take_number(&mut arguments, "--window_size", DEFAULT_WINDOW_SIZE) {
            Ok(value) => value,
            Err(fault) => {
                return Err(ArgsError { option: ArgName::WindowSize, fault });
            },
        };
        let cell_number = match take_number(&mut arguments, "--cell_number", DEFAULT_CELL_NUMBER) {
            Ok(value) => value,
            Err(fault) => {
                return Err(ArgsError { option: ArgName::CellNumber, fault });
            },
        };
        let color_number = match take_number(
            &mut arguments,
            "--color_number",
            DEFAULT_COLOR_NUMBER,
        ) {
            Ok(value) => value,
            Err(fault) => {
                return Err(ArgsError { option: ArgName::ColorNumber, fault });
            },
        };
        Ok(Invocation::Run(AppArgs { window_size, cell_number, color_number }))
    }
}

/// Pixels each cell would cover if exactly `cell_number` cells tiled the canvas.
pub open spec fn cell_area(width: nat, height: nat, cell_number: nat) -> nat {
    (width * height) / cell_number
}

/// Side of a cell: the square root of its ideal area, rounded up.
pub open spec fn cell_side(width: nat, height: nat, cell_number: nat) -> nat {
    ceil_sqrt(cell_area(width, height, cell_number))
}

impl AppState {
    /// The fields agree with each other: both cell counts come from whole
    /// division by the cell's side, and the total is their product.
    pub open spec fn wf(&self) -> bool {
        &&& self.cell_dimension > 0
        &&& self.cell_number_x == self.width / self.cell_dimension
        &&& self.cell_number_y == self.height / self.cell_dimension
        &&& self.total_cell_number == self.cell_number_x * self.cell_number_y
    }

    /// Why no grid can be made for this request, if that is so.
    pub open spec fn fault(width: u32, height: u32, cell_number: u32) -> Option<ConfigError> {
        let side = cell_side(width as nat, height as nat, cell_number as nat);
        if cell_number == 0 {
            Some(ConfigError::ZeroCellNumber)
        } else if width * height < cell_number {
            Some(ConfigError::CanvasTooSmall)
        } else if (width as nat / side) * (height as nat / side) > cell_number {
            Some(ConfigError::GridExceedsRequest)
        } else {
            None
        }
    }

    /// The grid for a request that has no fault.
    pub open spec fn grid(
        width: u32,
        height: u32,
        cell_number: u32,
        color_number: u32,
    ) -> AppState {
        let side = cell_side(width as nat, height as nat, cell_number as nat);
        AppState {
            width,
            height,
            cell_dimension: side as u32,
            cell_number_x: (width as nat / side) as u32,
            cell_number_y: (height as nat / side) as u32,
            total_cell_number: ((width as nat / side) * (height as nat / side)) as u32,
            color_number,
        }
    }

    /// What sizing gives for a request: its grid, or the reason there is none.
    pub open spec fn outcome(
        width: u32,
        height: u32,
        cell_number: u32,
        color_number: u32,
    ) -> Result<AppState, ConfigError> {
        match Self::fault(width, height, cell_number) {
            Some(error) => Err(error),
            None => Ok(Self::grid(width, height, cell_number, color_number)),
        }
    }

    /// A request without fault has a side that fits in 32 bits and is not
    /// zero, and its grid is well formed and within the request.
    pub proof fn lemma_grid_within_request(
        width: u32,
        height: u32,
        cell_number: u32,
        color_number: u32,
    )
        requires
            Self::fault(width, height, cell_number) is None,
        ensures
            0 < cell_side(width as nat, height as nat, cell_number as nat) <= u32::MAX,
            Self::grid(width, height, cell_number, color_number).wf(),
            Self::grid(width, height, cell_number, color_number).total_cell_number <= cell_number,
            Self::grid(width, height, cell_number, color_number).cell_number_x
                * Self::grid(width, height, cell_number, color_number).cell_number_y
                <= cell_number,
    {
        let w = width as nat;
        let h = height as nat;
        let n = cell_number as nat;
        let area = cell_area(w, h, n);
        let side = cell_side(w, h, n);
        assert(area >= 1 && area <= w * h) by (nonlinear_arith)
            requires
                area == (w * h) / n,
                n >= 1,
                w * h >= n,
        ;
        assert(w * h <= 0xffff_ffff * 0xffff_ffff) by (nonlinear_arith)
            requires
                w <= 0xffff_ffff,
                h <= 0xffff_ffff,
        ;
        lemma_ceil_sqrt(area);
        lemma_ceil_sqrt_least(area, 0xffff_ffff);
        assert(w / side <= w && h / side <= h) by (nonlinear_arith)
            requires
                side >= 1,
        ;
    }

    /// Sizing is a function of the request: the same request gets the same
    /// grid, or the same refusal, every time.
    pub proof fn lemma_sizing_repeats(first: AppArgs, second: AppArgs)
        requires
            first == second,
        ensures
            Self::outcome(
                first.window_size,
                first.window_size,
                first.cell_number,
                first.color_number,
            ) == Self::outcome(
                second.window_size,
                second.window_size,
                second.cell_number,
                second.color_number,
            ),
    {
    }

    /// Lays a grid of square cells over a canvas of `width` by `height`
    /// pixels, with as close to `cell_number` cells as the rounding allows
    /// and never more.
    pub fn with_canvas(width: u32, height: u32, cell_number: u32, color_number: u32) -> (result:
        Result<AppState, ConfigError>)
        ensures
            result == Self::outcome(width, height, cell_number, color_number),
            result matches Ok(state) ==> state.wf() && state.total_cell_number <= cell_number,
    {
        if cell_number == 0 {
            return Err(ConfigError::ZeroCellNumber);
        }
        assert(width * height <= 0xffff_ffff * 0xffff_ffff) by (nonlinear_arith)
            requires
                width <= 0xffff_ffff,
                height <= 0xffff_ffff,
        ;
        let canvas: u64 = width as u64 * height as u64;
        let area: u64 = canvas / cell_number as u64;
        assert(area == 0 <==> canvas < cell_number) by (nonlinear_arith)
            requires
                area == canvas / (cell_number as u64),
                cell_number > 0,
        ;
        if area == 0 {
            return Err(ConfigError::CanvasTooSmall);
        }
        let side: u64 = ceil_sqrt_u64(area);
        proof {
            lemma_ceil_sqrt(area as nat);
            lemma_ceil_sqrt_least(area as nat, 0xffff_ffff);
            assert(area <= canvas) by (nonlinear_arith)
                requires
                    area == canvas / (cell_number as u64),
                    cell_number > 0,
            ;
        }
        let cells_x: u64 = width as u64 / side;
        let cells_y: u64 = height as u64 / side;
        assert(cells_x <= width && cells_y <= height) by (nonlinear_arith)
            requires
                cells_x == width as u64 / side,
                cells_y == height as u64 / side,
                side >= 1,
        ;
        assert(cells_x * cells_y <= width * height) by (nonlinear_arith)
            requires
                cells_x <= width,
                cells_y <= height,
        ;
        let total: u64 = cells_x * cells_y;
        if total > cell_number as u64 {
            return Err(ConfigError::GridExceedsRequest);
        }
        Ok(
            AppState {
                width,
                height,
                cell_dimension: side as u32,
                cell_number_x: cells_x as u32,
                cell_number_y: cells_y as u32,
                total_cell_number: total as u32,
                color_number,
            },
        )
    }

    /// The grid for a square window, or the reason there is none.
    pub fn try_new(args: AppArgs) -> (result: Result<AppState, ConfigError>)
        ensures
            result == Self::outcome(
                args.window_size,
                args.window_size,
                args.cell_number,
                args.color_number,
            ),
            result matches Ok(state) ==> state.wf() && state.total_cell_number
                <= args.cell_number,
    {
        Self::with_canvas(args.window_size, args.window_size, args.cell_number, args.color_number)
    }

    /// The grid for a square window.
    pub fn new(args: AppArgs) -> (state: AppState)
        requires
            Self::fault(args.window_size, args.window_size, args.cell_number) is None,
        ensures
            state == Self::grid(
                args.window_size,
                args.window_size,
                args.cell_number,
                args.color_number,
            ),
            state.wf(),
            state.total_cell_number <= args.cell_number,
            state.cell_number_x == state.cell_number_y,
    {
        Self::with_canvas(
            args.window_size,
            args.window_size,
            args.cell_number,
            args.color_number,
        ).unwrap()
    }
}

} // verus!
