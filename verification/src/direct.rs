//! Direct pin matrices: a grid in which every key has a pin of its own, or
//! none. Every slot of the grid keeps its place in the emitted code.

use vstd::prelude::*;
use vstd::string::*;
use crate::emit::{
    capability_error, initializer_view, input_role, pin_initializer, pin_text, role_of_input,
};
use crate::error::{ConfigError, ConfigErrorView};
use crate::fragment::{CodeFragment, CodeFragmentView};
use crate::matrix::{
    array_statement, as_code, binding_name, binding_name_of, emitted_view, let_statement,
    names_view, parse_error, parsed_token, push_array, push_let, spec_parse_pins, tokens_error,
};
use crate::pin::{parse, ChipFamily, PinRole, PinToken, PinTokenView};
use crate::text::{decimal, joined, push_decimal, push_joined};

verus! {

/// Mathematical form of a slot of the grid: no entry is the absent marker.
pub open spec fn slot_view(entry: Option<PinToken>) -> PinTokenView {
    match entry {
        Some(token) => token@,
        None => PinTokenView::Absent,
    }
}

/// Mathematical form of a row of the grid.
pub open spec fn row_view(row: Seq<Option<PinToken>>) -> Seq<PinTokenView> {
    Seq::new(row.len(), |c: int| slot_view(row[c]))
}

/// Mathematical form of the grid.
pub open spec fn grid_view(grid: Seq<Vec<Option<PinToken>>>) -> Seq<Seq<PinTokenView>> {
    Seq::new(grid.len(), |r: int| row_view(grid[r]@))
}

/// The name under which the slot at row `r` and column `c` is bound. It
/// depends on the pin and on the slot's coordinates alone.
pub open spec fn slot_name(token: PinTokenView, r: nat, c: nat) -> Seq<char> {
    binding_name(token) + "_"@ + decimal(r) + "_"@ + decimal(c)
}

/// The value bound for a slot: `None` for an empty slot, else the pin's
/// initializer inside `Some`.
pub open spec fn slot_value(
    chip: ChipFamily,
    token: PinTokenView,
    role: PinRole,
    active_low: bool,
) -> Seq<char> {
    if token is Absent {
        "None"@
    } else {
        "Some("@ + pin_text(chip, token, role, active_low) + ")"@
    }
}

/// The binding of the slot at row `r` and column `c`.
pub open spec fn slot_statement(
    chip: ChipFamily,
    token: PinTokenView,
    r: nat,
    c: nat,
    role: PinRole,
    active_low: bool,
) -> Seq<char> {
    let_statement(slot_name(token, r, c), slot_value(chip, token, role, active_low))
}

/// One binding per slot of a row, in column order.
pub open spec fn row_bindings(
    chip: ChipFamily,
    row: Seq<PinTokenView>,
    r: nat,
    role: PinRole,
    active_low: bool,
) -> Seq<char>
    decreases row.len(),
{
    if row.len() == 0 {
        Seq::empty()
    } else {
        row_bindings(chip, row.drop_last(), r, role, active_low) + slot_statement(
            chip,
            row.last(),
            r,
            (row.len() - 1) as nat,
            role,
            active_low,
        )
    }
}

/// The names of the slots of a row, in column order.
pub open spec fn row_names(row: Seq<PinTokenView>, r: nat) -> Seq<Seq<char>> {
    Seq::new(row.len(), |c: int| slot_name(row[c], r, c as nat))
}

/// The name of the array that holds row `r`.
pub open spec fn row_array_name(r: nat) -> Seq<char> {
    "direct_pins_row_"@ + decimal(r)
}

/// The bindings of a row's slots, then the array of the row.
pub open spec fn row_text(
    chip: ChipFamily,
    row: Seq<PinTokenView>,
    r: nat,
    role: PinRole,
    active_low: bool,
) -> Seq<char> {
    row_bindings(chip, row, r, role, active_low) + array_statement(
        row_array_name(r),
        row_names(row, r),
    )
}

/// The code of one row, or the first error in it.
pub open spec fn spec_direct_row(
    chip: ChipFamily,
    row: Seq<PinTokenView>,
    r: nat,
    role: PinRole,
    active_low: bool,
) -> Result<Seq<char>, ConfigErrorView> {
    match tokens_error(chip, row, role) {
        Some(e) => Err(e),
        None => Ok(row_text(chip, row, r, role, active_low)),
    }
}

/// The first error of the grid, in row-major order.
pub open spec fn grid_error(chip: ChipFamily, grid: Seq<Seq<PinTokenView>>, role: PinRole) -> Option<
    ConfigErrorView,
>
    decreases grid.len(),
{
    if grid.len() == 0 {
        None
    } else {
        match tokens_error(chip, grid[0], role) {
            Some(e) => Some(e),
            None => grid_error(chip, grid.skip(1), role),
        }
    }
}

/// The code of the rows, in row order.
pub open spec fn grid_rows_text(
    chip: ChipFamily,
    grid: Seq<Seq<PinTokenView>>,
    role: PinRole,
    active_low: bool,
) -> Seq<char>
    decreases grid.len(),
{
    if grid.len() == 0 {
        Seq::empty()
    } else {
        grid_rows_text(chip, grid.drop_last(), role, active_low) + row_text(
            chip,
            grid.last(),
            (grid.len() - 1) as nat,
            role,
            active_low,
        )
    }
}

/// The names of the arrays of the first `n` rows.
pub open spec fn grid_row_names(n: nat) -> Seq<Seq<char>> {
    Seq::new(n, |r: int| row_array_name(r as nat))
}

/// The code of a direct pin matrix: row after row, then the array
/// `direct_pins` of the rows.
pub open spec fn direct_text(
    chip: ChipFamily,
    grid: Seq<Seq<PinTokenView>>,
    role: PinRole,
    active_low: bool,
) -> Seq<char> {
    grid_rows_text(chip, grid, role, active_low) + array_statement(
        "direct_pins"@,
        grid_row_names(grid.len()),
    )
}

/// The code of a direct pin matrix, or its first error in row-major order.
pub open spec fn spec_direct_matrix(
    chip: ChipFamily,
    grid: Seq<Seq<PinTokenView>>,
    interrupt_capable: bool,
    active_low: bool,
) -> Result<Seq<char>, ConfigErrorView> {
    match grid_error(chip, grid, input_role(interrupt_capable)) {
        Some(e) => Err(e),
        None => Ok(direct_text(chip, grid, input_role(interrupt_capable), active_low)),
    }
}

fn slot_name_of(entry: &Option<PinToken>, r: usize, c: usize) -> (name: String)
    ensures
        name@ == slot_name(slot_view(*entry), r as nat, c as nat),
{
    let mut name = match entry {
        Some(token) => binding_name_of(token),
        None => binding_name_of(&PinToken::Absent),
    };
    name.append("_");
    push_decimal(&mut name, r as u64);
    name.append("_");
    push_decimal(&mut name, c as u64);
    name
}

fn slot_value_of(chip: ChipFamily, entry: &Option<PinToken>, role: PinRole, active_low: bool) -> (r:
    Result<String, ConfigError>)
    ensures
        initializer_view(r) == match capability_error(chip, slot_view(*entry), role) {
            Some(e) => Err::<Seq<char>, ConfigErrorView>(e),
            None => Ok(slot_value(chip, slot_view(*entry), role, active_low)),
        },
{
    match entry {
        None => Ok(String::from_str("None")),
        Some(PinToken::Absent) => Ok(String::from_str("None")),
        Some(token) => match pin_initializer(chip, token, role, active_low) {
            Ok(text) => {
                let mut value = String::from_str("Some(");
                value.append(text.as_str());
                value.append(")");
                Ok(value)
            },
            Err(e) => Err(e),
        },
    }
}

/// Emits row `r` of a direct pin matrix: one binding per slot and the
/// array of the row.
pub fn emit_direct_row(
    chip: ChipFamily,
    row: &Vec<Option<PinToken>>,
    r: usize,
    role: PinRole,
    active_low: bool,
) -> (res: Result<String, ConfigError>)
    ensures
        initializer_view(res) == spec_direct_row(chip, row_view(row@), r as nat, role, active_low),
{
    let ghost tokens = row_view(row@);
    let mut out = String::new();
    let mut names = String::new();
    let mut c: usize = 0;
    proof {
        assert(tokens.skip(0) =~= tokens);
        assert(row_names(tokens.take(0), r as nat) =~= Seq::<Seq<char>>::empty());
    }
    while c < row.len()
        invariant
            c <= row@.len(),
            tokens == row_view(row@),
            tokens_error(chip, tokens, role) == tokens_error(chip, tokens.skip(c as int), role),
            out@ == row_bindings(chip, tokens.take(c as int), r as nat, role, active_low),
            names@ == joined(row_names(tokens.take(c as int), r as nat)),
        decreases row@.len() - c,
    {
        proof {
            assert(tokens.skip(c as int)[0] == tokens[c as int]);
            assert(tokens.skip(c as int).skip(1) =~= tokens.skip(c + 1));
            assert(tokens.take(c + 1).drop_last() =~= tokens.take(c as int));
            assert(tokens.take(c + 1).last() == tokens[c as int]);
            assert(row_names(tokens.take(c + 1), r as nat) =~= row_names(
                tokens.take(c as int),
                r as nat,
            ).push(slot_name(tokens[c as int], r as nat, c as nat)));
        }
        match slot_value_of(chip, &row[c], role, active_low) {
            Err(e) => {
                return Err(e);
            },
            Ok(value) => {
                let name = slot_name_of(&row[c], r, c);
                push_let(&mut out, name.as_str(), value.as_str());
                push_joined(
                    &mut names,
                    c,
                    name.as_str(),
                    Ghost(row_names(tokens.take(c as int), r as nat)),
                );
            },
        }
        c = c + 1;
    }
    proof {
        assert(tokens.take(c as int) =~= tokens);
    }
    let mut array_name = String::from_str("direct_pins_row_");
    push_decimal(&mut array_name, r as u64);
    push_array(&mut out, array_name.as_str(), names.as_str(), Ghost(row_names(tokens, r as nat)));
    Ok(out)
}

/// Emits a direct pin matrix. The outer array follows the rows as they
/// are declared, each inner array the columns of its row; an empty slot
/// (no entry, or the absent marker) is bound to `None` at its own place.
pub fn emit_direct_matrix(
    chip: ChipFamily,
    grid: &Vec<Vec<Option<PinToken>>>,
    interrupt_capable: bool,
    active_low: bool,
) -> (res: Result<CodeFragment, ConfigError>)
    ensures
        emitted_view(res) == as_code(
            spec_direct_matrix(chip, grid_view(grid@), interrupt_capable, active_low),
        ),
{
    let ghost rows = grid_view(grid@);
    let role = role_of_input(interrupt_capable);
    let mut out = String::new();
    let mut names = String::new();
    let mut r: usize = 0;
    proof {
        assert(rows.skip(0) =~= rows);
        assert(grid_row_names(0) =~= Seq::<Seq<char>>::empty());
        assert(rows.take(0).len() == 0);
    }
    while r < grid.len()
        invariant
            r <= grid@.len(),
            rows == grid_view(grid@),
            role == input_role(interrupt_capable),
            grid_error(chip, rows, role) == grid_error(chip, rows.skip(r as int), role),
            out@ == grid_rows_text(chip, rows.take(r as int), role, active_low),
            names@ == joined(grid_row_names(r as nat)),
        decreases grid@.len() - r,
    {
        proof {
            assert(rows.skip(r as int)[0] == rows[r as int]);
            assert(rows.skip(r as int).skip(1) =~= rows.skip(r + 1));
            assert(rows.take(r + 1).drop_last() =~= rows.take(r as int));
            assert(rows.take(r + 1).last() == rows[r as int]);
            assert(grid_row_names((r + 1) as nat) =~= grid_row_names(r as nat).push(
                row_array_name(r as nat),
            ));
        }
        match emit_direct_row(chip, &grid[r], r, role, active_low) {
            Err(e) => {
                return Err(e);
            },
            Ok(text) => {
                out.append(text.as_str());
                let mut array_name = String::from_str("direct_pins_row_");
                push_decimal(&mut array_name, r as u64);
                push_joined(&mut names, r, array_name.as_str(), Ghost(grid_row_names(r as nat)));
            },
        }
        r = r + 1;
    }
    proof {
        assert(rows.take(r as int) =~= rows);
    }
    push_array(&mut out, "direct_pins", names.as_str(), Ghost(grid_row_names(rows.len())));
    Ok(CodeFragment::Code(out))
}

/// Mathematical form of a grid of pin strings.
pub open spec fn grid_names_view(pins: Seq<Vec<String>>) -> Seq<Seq<Seq<char>>> {
    Seq::new(pins.len(), |r: int| names_view(pins[r]@))
}

/// The error of the first pin string of the grid, in row-major order,
/// that does not parse.
pub open spec fn grid_parse_error(chip: ChipFamily, raws: Seq<Seq<Seq<char>>>) -> Option<
    ConfigErrorView,
>
    decreases raws.len(),
{
    if raws.len() == 0 {
        None
    } else {
        match spec_parse_pins(chip, raws[0]) {
            Err(e) => Some(e),
            Ok(_) => grid_parse_error(chip, raws.skip(1)),
        }
    }
}

/// The tokens of a row of pin strings that parse.
pub open spec fn parsed_row(chip: ChipFamily, raws: Seq<Seq<char>>) -> Seq<PinTokenView> {
    match spec_parse_pins(chip, raws) {
        Ok(tokens) => tokens,
        Err(_) => Seq::empty(),
    }
}

/// The tokens of a grid of pin strings, or the first parse error.
pub open spec fn spec_parse_grid(chip: ChipFamily, raws: Seq<Seq<Seq<char>>>) -> Result<
    Seq<Seq<PinTokenView>>,
    ConfigErrorView,
> {
    match grid_parse_error(chip, raws) {
        Some(e) => Err(e),
        None => Ok(Seq::new(raws.len(), |r: int| parsed_row(chip, raws[r]))),
    }
}

/// Mathematical form of the result of [`parse_grid`].
pub open spec fn parsed_grid_view(r: Result<Vec<Vec<Option<PinToken>>>, ConfigError>) -> Result<
    Seq<Seq<PinTokenView>>,
    ConfigErrorView,
> {
    match r {
        Ok(grid) => Ok(grid_view(grid@)),
        Err(e) => Err(e@),
    }
}

/// The slot that a parsed token fills: the absent marker leaves the slot
/// without an entry, every other token is the slot's entry.
pub open spec fn slot_for(token: PinToken) -> Option<PinToken> {
    if token is Absent {
        None
    } else {
        Some(token)
    }
}

/// No slot of the row holds the absent marker as its entry: a slot
/// without a pin has no entry at all.
pub open spec fn empty_slots_bare(row: Seq<Option<PinToken>>) -> bool {
    forall|c: int| 0 <= c < row.len() ==> #[trigger] row[c] != Some(PinToken::Absent)
}

/// No slot of the grid holds the absent marker as its entry.
pub open spec fn empty_grid_slots_bare(grid: Seq<Vec<Option<PinToken>>>) -> bool {
    forall|r: int| 0 <= r < grid.len() ==> empty_slots_bare((#[trigger] grid[r])@)
}

fn slot_of(token: PinToken) -> (slot: Option<PinToken>)
    ensures
        slot == slot_for(token),
        slot_view(slot) == token@,
{
    match token {
        PinToken::Absent => None,
        other => Some(other),
    }
}

/// Parses one row of a grid of pin strings, up to the first that fails.
/// The absent marker gives a slot without an entry.
pub fn parse_row(chip: ChipFamily, pins: &Vec<String>) -> (r: Result<
    Vec<Option<PinToken>>,
    ConfigError,
>)
    ensures
        r is Ok ==> empty_slots_bare(r->Ok_0@),
        match r {
            Ok(row) => spec_parse_pins(chip, names_view(pins@)) == Ok::<
                Seq<PinTokenView>,
                ConfigErrorView,
            >(row_view(row@)),
            Err(e) => spec_parse_pins(chip, names_view(pins@)) == Err::<
                Seq<PinTokenView>,
                ConfigErrorView,
            >(e@),
        },
{
    let ghost raws = names_view(pins@);
    let mut row: Vec<Option<PinToken>> = Vec::new();
    let mut i: usize = 0;
    proof {
        assert(raws.skip(0) =~= raws);
    }
    while i < pins.len()
        invariant
            i <= pins@.len(),
            raws == names_view(pins@),
            parse_error(chip, raws) == parse_error(chip, raws.skip(i as int)),
            row@.len() == i,
            empty_slots_bare(row@),
            forall|j: int|
                0 <= j < i ==> slot_view(#[trigger] row@[j]) == parsed_token(chip, raws[j]),
        decreases pins@.len() - i,
    {
        proof {
            assert(raws.skip(i as int)[0] == raws[i as int]);
            assert(raws.skip(i as int).skip(1) =~= raws.skip(i + 1));
        }
        match parse(chip, pins[i].as_str()) {
            Err(e) => {
                return Err(e);
            },
            Ok(token) => {
                row.push(slot_of(token));
            },
        }
        i = i + 1;
    }
    proof {
        assert(row_view(row@) =~= Seq::new(raws.len(), |i: int| parsed_token(chip, raws[i])));
    }
    Ok(row)
}

/// Parses a grid of pin strings row by row, up to the first that fails.
/// The absent marker gives a slot without an entry.
pub fn parse_grid(chip: ChipFamily, pins: &Vec<Vec<String>>) -> (r: Result<
    Vec<Vec<Option<PinToken>>>,
    ConfigError,
>)
    ensures
        parsed_grid_view(r) == spec_parse_grid(chip, grid_names_view(pins@)),
        r is Ok ==> empty_grid_slots_bare(r->Ok_0@),
{
    let ghost raws = grid_names_view(pins@);
    let mut grid: Vec<Vec<Option<PinToken>>> = Vec::new();
    let mut i: usize = 0;
    proof {
        assert(raws.skip(0) =~= raws);
    }
    while i < pins.len()
        invariant
            i <= pins@.len(),
            raws == grid_names_view(pins@),
            grid_parse_error(chip, raws) == grid_parse_error(chip, raws.skip(i as int)),
            grid@.len() == i,
            empty_grid_slots_bare(grid@),
            forall|j: int|
                0 <= j < i ==> row_view((#[trigger] grid@[j])@) == parsed_row(chip, raws[j]),
        decreases pins@.len() - i,
    {
        proof {
            assert(raws.skip(i as int)[0] == raws[i as int]);
            assert(raws.skip(i as int).skip(1) =~= raws.skip(i + 1));
        }
        match parse_row(chip, &pins[i]) {
            Err(e) => {
                return Err(e);
            },
            Ok(row) => {
                grid.push(row);
            },
        }
        i = i + 1;
    }
    proof {
        assert(grid_view(grid@) =~= Seq::new(raws.len(), |r: int| parsed_row(chip, raws[r])));
    }
    Ok(grid)
}

/// The code of a direct pin matrix given as strings.
pub open spec fn spec_convert_direct_pins(
    chip: ChipFamily,
    raws: Seq<Seq<Seq<char>>>,
    async_matrix: bool,
    low_active: bool,
) -> Result<CodeFragmentView, ConfigErrorView> {
    match spec_parse_grid(chip, raws) {
        Err(e) => Err(e),
        Ok(grid) => as_code(spec_direct_matrix(chip, grid, async_matrix, low_active)),
    }
}

/// Parses a grid of pin strings and emits the direct pin matrix. All
/// strings are parsed before any code is emitted.
pub fn convert_direct_pins_to_initializers(
    chip: ChipFamily,
    pins: &Vec<Vec<String>>,
    async_matrix: bool,
    low_active: bool,
) -> (r: Result<CodeFragment, ConfigError>)
    ensures
        emitted_view(r) == spec_convert_direct_pins(
            chip,
            grid_names_view(pins@),
            async_matrix,
            low_active,
        ),
{
    match parse_grid(chip, pins) {
        Ok(grid) => emit_direct_matrix(chip, &grid, async_matrix, low_active),
        Err(e) => Err(e),
    }
}

} // verus!
