//! The generated unit: the whole initialization code of a board, built in
//! one run from its configuration, or no code at all.

use vstd::prelude::*;
use vstd::string::*;
use crate::bus::{build, spec_build, BusConfig, BusConfigView};
use crate::direct::{
    emit_direct_matrix, grid_names_view, grid_view, parse_grid, spec_direct_matrix,
    spec_parse_grid,
};
use crate::error::{ConfigError, ConfigErrorView};
use crate::fragment::{code_text, diagnostic, diagnostic_of, CodeFragment, CodeFragmentView};
use crate::matrix::{
    as_code, contains_marker, emit_matrix, emitted_view, has_marker, names_view, parse_pins,
    spec_matrix, spec_parse_pins, tokens_view,
};
use crate::pin::{ChipFamily, PinToken, PinTokenView};

verus! {

/// The key matrix of a board, as pin strings. Exactly one of the two forms
/// is in use.
#[derive(Clone, Debug, PartialEq, Eq)]
pub enum MatrixConfig {
    /// Rows and columns: the rows are read, the columns are driven.
    RowCol { rows: Vec<String>, cols: Vec<String> },
    /// One pin, or none, for every key.
    Direct { pins: Vec<Vec<String>> },
}

/// Mathematical form of a [`MatrixConfig`].
pub enum MatrixConfigView {
    RowCol { rows: Seq<Seq<char>>, cols: Seq<Seq<char>> },
    Direct { pins: Seq<Seq<Seq<char>>> },
}

impl View for MatrixConfig {
    type V = MatrixConfigView;

    open spec fn view(&self) -> MatrixConfigView {
        match self {
            MatrixConfig::RowCol { rows, cols } => MatrixConfigView::RowCol {
                rows: names_view(rows@),
                cols: names_view(cols@),
            },
            MatrixConfig::Direct { pins } => MatrixConfigView::Direct {
                pins: grid_names_view(pins@),
            },
        }
    }
}

/// The configuration of a board.
#[derive(Clone, Debug, PartialEq, Eq)]
pub struct BoardConfig {
    /// The family of the board's microcontroller.
    pub chip: ChipFamily,
    /// The pins of the key matrix.
    pub matrix: MatrixConfig,
    /// Whether the inputs of the matrix must be able to wake the chip.
    pub interrupt_capable: bool,
    /// Whether the pins of a direct pin matrix idle high.
    pub active_low: bool,
    /// The I2C bus.
    pub bus: BusConfig,
}

/// Mathematical form of a [`BoardConfig`].
pub struct BoardConfigView {
    pub chip: ChipFamily,
    pub matrix: MatrixConfigView,
    pub interrupt_capable: bool,
    pub active_low: bool,
    pub bus: BusConfigView,
}

impl View for BoardConfig {
    type V = BoardConfigView;

    open spec fn view(&self) -> BoardConfigView {
        BoardConfigView {
            chip: self.chip,
            matrix: self.matrix@,
            interrupt_capable: self.interrupt_capable,
            active_low: self.active_low,
            bus: self.bus@,
        }
    }
}

/// The initialization code of a board: the bus fragment and the code of
/// the key matrix. A unit is built by [`generate`] and not changed after.
#[derive(Clone, Debug, PartialEq, Eq)]
pub struct GeneratedUnit {
    bus: CodeFragment,
    pins: CodeFragment,
}

/// Mathematical form of a [`GeneratedUnit`].
pub struct GeneratedUnitView {
    pub bus: CodeFragmentView,
    pub pins: CodeFragmentView,
}

impl View for GeneratedUnit {
    type V = GeneratedUnitView;

    closed spec fn view(&self) -> GeneratedUnitView {
        GeneratedUnitView { bus: self.bus@, pins: self.pins@ }
    }
}

/// The key matrix of a board, as parsed pins.
#[derive(Clone, Debug, PartialEq, Eq)]
pub enum MatrixSpec {
    /// The input pins of the rows and the output pins of the columns.
    RowCol { rows: Vec<PinToken>, cols: Vec<PinToken> },
    /// The grid of a direct pin matrix; an empty slot has no entry.
    Direct { grid: Vec<Vec<Option<PinToken>>> },
}

/// Mathematical form of a [`MatrixSpec`].
pub enum MatrixSpecView {
    RowCol { rows: Seq<PinTokenView>, cols: Seq<PinTokenView> },
    Direct { grid: Seq<Seq<PinTokenView>> },
}

impl View for MatrixSpec {
    type V = MatrixSpecView;

    open spec fn view(&self) -> MatrixSpecView {
        match self {
            MatrixSpec::RowCol { rows, cols } => MatrixSpecView::RowCol {
                rows: tokens_view(rows@),
                cols: tokens_view(cols@),
            },
            MatrixSpec::Direct { grid } => MatrixSpecView::Direct { grid: grid_view(grid@) },
        }
    }
}

/// The parsed form of a key matrix: every pin string parsed, rows before
/// columns and row by row; or the first parse error. In a row/column
/// matrix the absent marker, among the rows or the columns, is a
/// placement error that comes before any other.
pub open spec fn spec_parse_matrix(chip: ChipFamily, matrix: MatrixConfigView) -> Result<
    MatrixSpecView,
    ConfigErrorView,
> {
    match matrix {
        MatrixConfigView::RowCol { rows, cols } => if contains_marker(rows) || contains_marker(
            cols,
        ) {
            Err(ConfigErrorView::InvalidPlacement)
        } else {
            match spec_parse_pins(chip, rows) {
                Err(e) => Err(e),
                Ok(row_tokens) => match spec_parse_pins(chip, cols) {
                    Err(e) => Err(e),
                    Ok(col_tokens) => Ok(
                        MatrixSpecView::RowCol { rows: row_tokens, cols: col_tokens },
                    ),
                },
            }
        },
        MatrixConfigView::Direct { pins } => match spec_parse_grid(chip, pins) {
            Err(e) => Err(e),
            Ok(grid) => Ok(MatrixSpecView::Direct { grid }),
        },
    }
}

/// The code of a parsed key matrix. A row/column matrix idles low, and
/// the idle level of the configuration holds for a direct pin matrix.
pub open spec fn spec_emit_matrix_spec(
    chip: ChipFamily,
    matrix: MatrixSpecView,
    interrupt_capable: bool,
    active_low: bool,
) -> Result<CodeFragmentView, ConfigErrorView> {
    match matrix {
        MatrixSpecView::RowCol { rows, cols } => as_code(
            spec_matrix(chip, rows, cols, interrupt_capable),
        ),
        MatrixSpecView::Direct { grid } => as_code(
            spec_direct_matrix(chip, grid, interrupt_capable, active_low),
        ),
    }
}

/// The code of the key matrix of a configuration. All pin strings are
/// parsed before any code is emitted.
pub open spec fn spec_matrix_code(config: BoardConfigView) -> Result<
    CodeFragmentView,
    ConfigErrorView,
> {
    match spec_parse_matrix(config.chip, config.matrix) {
        Err(e) => Err(e),
        Ok(matrix) => spec_emit_matrix_spec(
            config.chip,
            matrix,
            config.interrupt_capable,
            config.active_low,
        ),
    }
}

/// Mathematical form of the result of [`parse_matrix`].
pub open spec fn parsed_matrix_view(r: Result<MatrixSpec, ConfigError>) -> Result<
    MatrixSpecView,
    ConfigErrorView,
> {
    match r {
        Ok(matrix) => Ok(matrix@),
        Err(e) => Err(e@),
    }
}

/// Parses the pin strings of a key matrix for the given family.
pub fn parse_matrix(chip: ChipFamily, matrix: &MatrixConfig) -> (r: Result<
    MatrixSpec,
    ConfigError,
>)
    ensures
        parsed_matrix_view(r) == spec_parse_matrix(chip, matrix@),
{
    match matrix {
        MatrixConfig::RowCol { rows, cols } => {
            if has_marker(rows) || has_marker(cols) {
                return Err(ConfigError::InvalidPlacement);
            }
            let row_tokens = match parse_pins(chip, rows) {
                Ok(tokens) => tokens,
                Err(e) => { return Err(e); },
            };
            match parse_pins(chip, cols) {
                Ok(col_tokens) => Ok(MatrixSpec::RowCol { rows: row_tokens, cols: col_tokens }),
                Err(e) => Err(e),
            }
        },
        MatrixConfig::Direct { pins } => match parse_grid(chip, pins) {
            Ok(grid) => Ok(MatrixSpec::Direct { grid }),
            Err(e) => Err(e),
        },
    }
}

/// Emits the code of a parsed key matrix, in the form that is in use.
pub fn emit_matrix_spec(
    chip: ChipFamily,
    matrix: &MatrixSpec,
    interrupt_capable: bool,
    active_low: bool,
) -> (r: Result<CodeFragment, ConfigError>)
    ensures
        emitted_view(r) == spec_emit_matrix_spec(chip, matrix@, interrupt_capable, active_low),
{
    match matrix {
        MatrixSpec::RowCol { rows, cols } => emit_matrix(chip, rows, cols, interrupt_capable),
        MatrixSpec::Direct { grid } => emit_direct_matrix(
            chip,
            grid,
            interrupt_capable,
            active_low,
        ),
    }
}

/// The unit generated from a configuration, or the error that ends the
/// run: an error of the key matrix comes before one of the bus.
pub open spec fn spec_generate(config: BoardConfigView) -> Result<
    GeneratedUnitView,
    ConfigErrorView,
> {
    match spec_matrix_code(config) {
        Err(e) => Err(e),
        Ok(pins) => match spec_build(config.chip, config.bus) {
            Err(e) => Err(e),
            Ok(bus) => Ok(GeneratedUnitView { bus, pins }),
        },
    }
}

/// The text of a unit: the bus comes first, since the pins behind the
/// expander are reached through it.
pub open spec fn unit_text(unit: GeneratedUnitView) -> Seq<char> {
    code_text(unit.bus) + code_text(unit.pins)
}

/// What a build of the firmware gets for a configuration: the text of the
/// unit, or the diagnostic of the error and nothing else.
pub open spec fn spec_compile(config: BoardConfigView) -> CodeFragmentView {
    match spec_generate(config) {
        Ok(unit) => CodeFragmentView::Code(unit_text(unit)),
        Err(e) => diagnostic_of(e),
    }
}

/// Mathematical form of the result of [`generate`].
pub open spec fn generated_view(r: Result<GeneratedUnit, ConfigError>) -> Result<
    GeneratedUnitView,
    ConfigErrorView,
> {
    match r {
        Ok(unit) => Ok(unit@),
        Err(e) => Err(e@),
    }
}

fn matrix_code(config: &BoardConfig) -> (r: Result<CodeFragment, ConfigError>)
    ensures
        emitted_view(r) == spec_matrix_code(config@),
{
    match parse_matrix(config.chip, &config.matrix) {
        Ok(matrix) => emit_matrix_spec(
            config.chip,
            &matrix,
            config.interrupt_capable,
            config.active_low,
        ),
        Err(e) => Err(e),
    }
}

/// Generates the initialization code of a board. The run either yields
/// the whole unit or fails with its first error; the result depends on
/// the configuration alone.
pub fn generate(config: &BoardConfig) -> (r: Result<GeneratedUnit, ConfigError>)
    ensures
        generated_view(r) == spec_generate(config@),
{
    let pins = match matrix_code(config) {
        Ok(f) => f,
        Err(e) => { return Err(e); },
    };
    match build(config.chip, &config.bus) {
        Ok(bus) => Ok(GeneratedUnit { bus, pins }),
        Err(e) => Err(e),
    }
}

fn push_code(out: &mut String, f: &CodeFragment)
    ensures
        final(out)@ == old(out)@ + code_text(f@),
{
    match f {
        CodeFragment::Code(text) => out.append(text.as_str()),
        _ => {
            proof {
                assert(out@ =~= old(out)@ + code_text(f@));
            }
        },
    }
}

impl GeneratedUnit {
    /// The bus handle and the expander handle; empty where the bus is
    /// disabled, "unsupported" where the family has none.
    pub fn bus(&self) -> (f: &CodeFragment)
        ensures
            f@ == self@.bus,
    {
        &self.bus
    }

    /// The pin bindings and the arrays `input_pins` and `output_pins`, or
    /// `direct_pins`.
    pub fn pins(&self) -> (f: &CodeFragment)
        ensures
            f@ == self@.pins,
    {
        &self.pins
    }

    /// The code of the unit, as the firmware's initialization routine
    /// takes it in.
    pub fn text(&self) -> (text: String)
        ensures
            text@ == unit_text(self@),
    {
        let mut text = String::new();
        push_code(&mut text, &self.bus);
        push_code(&mut text, &self.pins);
        proof {
            assert(text@ =~= unit_text(self@));
        }
        text
    }
}

/// Generates the code of a board for the firmware's build: the text of
/// the unit, or in its place the diagnostic that halts the build.
pub fn compile(config: &BoardConfig) -> (f: CodeFragment)
    ensures
        f@ == spec_compile(config@),
{
    match generate(config) {
        Ok(unit) => CodeFragment::Code(unit.text()),
        Err(e) => diagnostic(&e),
    }
}

} // verus!
