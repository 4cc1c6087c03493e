//! What holds of the library as a whole, proved from the definitions that
//! the contracts of its functions use.

use vstd::prelude::*;
use crate::bus::{
    bus_text, frequency_accepted, spec_build, spec_build_i2c_config, spec_i2c_gpio_expander,
    supports_bus, BusConfigView,
};
use crate::direct::{
    direct_text, grid_row_names, grid_rows_text, row_array_name, row_bindings, row_names,
    row_text, slot_name, slot_statement,
};
use crate::emit::{
    capability_error, gpio_str_fragment, has_wake_sources, input_head, mcu_input_text,
    mcu_output_text, output_head, pin_fragment, pin_text, wake_source,
};
use crate::error::{message_text, ConfigErrorView};
use crate::expander::{
    has_expander_prefix, index_part, is_expander_pin, resolved_pin, spec_resolve,
};
use crate::fragment::{code_text, CodeFragmentView};
use crate::matrix::{
    array_statement, binding_name, contains_absent, contains_marker, let_statement, parse_error,
    spec_convert_input_pins, spec_convert_output_pins, spec_input_pins, spec_matrix,
    spec_output_pins, tokens_error,
};
use crate::pin::{
    absent_marker, is_mcu_pin_name, spec_parse, Bank, ChipFamily, Pin, PinRole, PinTokenView,
};
use crate::text::{
    all_digits, decimal, decimal_value, is_digit, lemma_decimal_digits, lemma_decimal_round_trip,
    lowercase,
};
use crate::unit::{
    spec_compile, spec_generate, BoardConfig, BoardConfigView, GeneratedUnitView,
    MatrixConfigView,
};

verus! {

/// Where the pin's name stands in the code of a pin of the
/// microcontroller.
pub open spec fn name_offset(chip: ChipFamily, role: PinRole) -> nat {
    match role {
        PinRole::Output => output_head(chip).len(),
        PinRole::Input => input_head(chip).len(),
        PinRole::InterruptInput => if has_wake_sources(chip) {
            "::embassy_stm32::exti::ExtiInput::new("@.len() + input_head(chip).len()
        } else {
            input_head(chip).len()
        },
    }
}

/// A pin name of the family parses to the pin of that name, and the code
/// emitted for it, in any role, holds the name unchanged at a place that
/// depends on family and role alone.
pub proof fn lemma_pin_identity_kept(
    chip: ChipFamily,
    raw: Seq<char>,
    role: PinRole,
    active_low: bool,
)
    requires
        is_mcu_pin_name(chip, raw),
    ensures
        spec_parse(chip, raw) == Ok::<PinTokenView, ConfigErrorView>(PinTokenView::McuPin(raw)),
        gpio_str_fragment(chip, raw, role, active_low) is Code,
        name_offset(chip, role) + raw.len() <= code_text(
            gpio_str_fragment(chip, raw, role, active_low),
        ).len(),
        code_text(gpio_str_fragment(chip, raw, role, active_low)).subrange(
            name_offset(chip, role) as int,
            (name_offset(chip, role) + raw.len()) as int,
        ) == raw,
{
    assert(raw != absent_marker()) by {
        assert(absent_marker().len() == 1);
    }
    let text = code_text(gpio_str_fragment(chip, raw, role, active_low));
    let at = name_offset(chip, role) as int;
    assert(text.subrange(at, at + raw.len()) =~= raw);
}

/// Two pin names of the family for which the same code is emitted are the
/// same name: no pin is renamed into another.
pub proof fn lemma_distinct_pins_distinct_code(
    chip: ChipFamily,
    a: Seq<char>,
    b: Seq<char>,
    role: PinRole,
    active_low: bool,
)
    requires
        is_mcu_pin_name(chip, a),
        is_mcu_pin_name(chip, b),
        gpio_str_fragment(chip, a, role, active_low) == gpio_str_fragment(
            chip,
            b,
            role,
            active_low,
        ),
    ensures
        a == b,
{
    lemma_pin_identity_kept(chip, a, role, active_low);
    lemma_pin_identity_kept(chip, b, role, active_low);
}

/// The code for a pin behind the expander is the same for every family,
/// role and idle level, however the pin was written.
pub proof fn lemma_expander_code_shared(
    pin: Pin,
    raw_a: Seq<char>,
    raw_b: Seq<char>,
    chip_a: ChipFamily,
    role_a: PinRole,
    active_low_a: bool,
    chip_b: ChipFamily,
    role_b: PinRole,
    active_low_b: bool,
)
    ensures
        pin_fragment(
            chip_a,
            PinTokenView::ExpanderPin { raw: raw_a, pin },
            role_a,
            active_low_a,
        ) == pin_fragment(
            chip_b,
            PinTokenView::ExpanderPin { raw: raw_b, pin },
            role_b,
            active_low_b,
        ),
        pin_fragment(
            chip_a,
            PinTokenView::ExpanderPin { raw: raw_a, pin },
            role_a,
            active_low_a,
        ) is Code,
{
}

/// On a family without wake sources an interrupt-capable input is the
/// family's plain input.
pub proof fn lemma_interrupt_input_without_wake_sources(
    chip: ChipFamily,
    token: PinTokenView,
    active_low: bool,
)
    requires
        !has_wake_sources(chip),
    ensures
        pin_fragment(chip, token, PinRole::InterruptInput, active_low) == pin_fragment(
            chip,
            token,
            PinRole::Input,
            active_low,
        ),
{
}

/// On a family with wake sources, an interrupt-capable input on a pin
/// without one gives the diagnostic that names the pin, never code.
pub proof fn lemma_missing_wake_source_diagnosed(
    chip: ChipFamily,
    name: Seq<char>,
    active_low: bool,
)
    requires
        has_wake_sources(chip),
        wake_source(name) is None,
    ensures
        pin_fragment(chip, PinTokenView::McuPin(name), PinRole::InterruptInput, active_low)
            == CodeFragmentView::Diagnostic(
            message_text(ConfigErrorView::UnsupportedCapability(name)),
        ),
{
}

/// The number of a pin within its expander is the offset of its bank plus
/// its index; it lies in the bank's own range of eight, so that no pin of
/// bank B has the number of a pin of bank A, and two pins of one expander
/// with the same number are the same pin.
pub proof fn lemma_banks_disjoint(a: Pin, b: Pin)
    requires
        a.in_range(),
        b.in_range(),
    ensures
        a.number() == 8 * (if a.bank == Bank::B {
            1int
        } else {
            0int
        }) + a.pin,
        a.bank == Bank::A ==> 0 <= a.number() <= 7,
        a.bank == Bank::B ==> 8 <= a.number() <= 15,
        a.bank != b.bank ==> a.number() != b.number(),
        a.number() == b.number() ==> a.bank == b.bank && a.pin == b.pin,
{
}

/// An expander pin string with an index from 0 to 7 resolves to the pin
/// whose number is eight times the bank, A being 0 and B being 1, plus
/// the index.
pub proof fn lemma_resolved_number(raw: Seq<char>)
    requires
        is_expander_pin(raw),
        decimal_value(index_part(raw)) <= 7,
    ensures
        spec_resolve(raw) == Ok::<Pin, ConfigErrorView>(resolved_pin(raw)),
        resolved_pin(raw).in_range(),
        resolved_pin(raw).number() == 8 * (if raw[5] == 'B' {
            1int
        } else {
            0int
        }) + decimal_value(index_part(raw)),
{
}

/// The absent marker anywhere in a row/column matrix is a placement
/// error, whatever else the matrix holds.
pub proof fn lemma_absent_in_matrix_refused(
    chip: ChipFamily,
    rows: Seq<PinTokenView>,
    cols: Seq<PinTokenView>,
    interrupt_capable: bool,
)
    requires
        contains_absent(rows) || contains_absent(cols),
    ensures
        spec_matrix(chip, rows, cols, interrupt_capable) == Err::<Seq<char>, ConfigErrorView>(
            ConfigErrorView::InvalidPlacement,
        ),
        contains_absent(rows) ==> spec_input_pins(chip, rows, interrupt_capable) == Err::<
            Seq<char>,
            ConfigErrorView,
        >(ConfigErrorView::InvalidPlacement),
        contains_absent(cols) ==> spec_output_pins(chip, cols) == Err::<
            Seq<char>,
            ConfigErrorView,
        >(ConfigErrorView::InvalidPlacement),
{
}

/// The bindings of the first slots of a row open the bindings of the row.
proof fn lemma_row_bindings_prefix(
    chip: ChipFamily,
    row: Seq<PinTokenView>,
    r: nat,
    role: PinRole,
    active_low: bool,
    k: int,
)
    requires
        0 <= k <= row.len(),
    ensures
        row_bindings(chip, row.take(k), r, role, active_low).is_prefix_of(
            row_bindings(chip, row, r, role, active_low),
        ),
    decreases row.len() - k,
{
    if k == row.len() {
        assert(row.take(k) =~= row);
    } else {
        assert(row.drop_last().take(k) =~= row.take(k));
        lemma_row_bindings_prefix(chip, row.drop_last(), r, role, active_low, k);
    }
}

/// The code of the first rows of a grid opens the code of its rows.
proof fn lemma_grid_rows_prefix(
    chip: ChipFamily,
    grid: Seq<Seq<PinTokenView>>,
    role: PinRole,
    active_low: bool,
    k: int,
)
    requires
        0 <= k <= grid.len(),
    ensures
        grid_rows_text(chip, grid.take(k), role, active_low).is_prefix_of(
            grid_rows_text(chip, grid, role, active_low),
        ),
    decreases grid.len() - k,
{
    if k == grid.len() {
        assert(grid.take(k) =~= grid);
    } else {
        assert(grid.drop_last().take(k) =~= grid.take(k));
        lemma_grid_rows_prefix(chip, grid.drop_last(), role, active_low, k);
    }
}

/// Where the binding of the slot at row `r` and column `c` begins in the
/// code of a direct pin matrix: after the code of the rows before it and
/// the bindings of the slots before it in its row.
pub open spec fn slot_offset(
    chip: ChipFamily,
    grid: Seq<Seq<PinTokenView>>,
    r: int,
    c: int,
    role: PinRole,
    active_low: bool,
) -> int {
    (grid_rows_text(chip, grid.take(r), role, active_low).len() + row_bindings(
        chip,
        grid[r].take(c),
        r as nat,
        role,
        active_low,
    ).len()) as int
}

/// The bindings of a row up to and with the slot at column `c` are those
/// before the slot, then the binding of the slot.
proof fn lemma_row_bindings_step(
    chip: ChipFamily,
    row: Seq<PinTokenView>,
    r: nat,
    role: PinRole,
    active_low: bool,
    c: int,
)
    requires
        0 <= c < row.len(),
    ensures
        row_bindings(chip, row.take(c + 1), r, role, active_low) == row_bindings(
            chip,
            row.take(c),
            r,
            role,
            active_low,
        ) + slot_statement(chip, row[c], r, c as nat, role, active_low),
{
    assert(row.take(c + 1).drop_last() =~= row.take(c));
    assert(row.take(c + 1).last() == row[c]);
}

/// The code of the rows up to and with row `r` is that of the rows
/// before it, then the code of the row.
proof fn lemma_grid_rows_step(
    chip: ChipFamily,
    grid: Seq<Seq<PinTokenView>>,
    role: PinRole,
    active_low: bool,
    r: int,
)
    requires
        0 <= r < grid.len(),
    ensures
        grid_rows_text(chip, grid.take(r + 1), role, active_low) == grid_rows_text(
            chip,
            grid.take(r),
            role,
            active_low,
        ) + row_text(chip, grid[r], r as nat, role, active_low),
{
    assert(grid.take(r + 1).drop_last() =~= grid.take(r));
    assert(grid.take(r + 1).last() == grid[r]);
}

/// A piece that stands in the opening of a part stands at the same
/// distance from the part's beginning in every text that holds the part.
proof fn lemma_piece_of_part(
    before: Seq<char>,
    start: Seq<char>,
    piece: Seq<char>,
    part: Seq<char>,
    rest: Seq<char>,
    whole: Seq<char>,
    tail: Seq<char>,
)
    requires
        (start + piece).is_prefix_of(part),
        (before + (part + rest)).is_prefix_of(whole),
    ensures
        before.len() + start.len() + piece.len() <= (whole + tail).len(),
        (whole + tail).subrange(
            (before.len() + start.len()) as int,
            (before.len() + start.len() + piece.len()) as int,
        ) == piece,
{
    lemma_opens(part, rest);
    lemma_prefix_chain(start + piece, part, part + rest);
    lemma_prefix_after(before, start + piece, part + rest);
    lemma_prefix_chain(before + (start + piece), before + (part + rest), whole);
    lemma_opens(whole, tail);
    lemma_prefix_chain(before + (start + piece), whole, whole + tail);
    assert(before + (start + piece) =~= (before + start) + piece);
    lemma_piece_in_place(whole + tail, before + start, piece);
}

/// Every slot of a direct pin matrix keeps its place in the code: the
/// binding of the slot at row `r` and column `c` stands at the slot's own
/// offset, after the code of the rows before it and the bindings of the
/// slots before it in its row, and the binding of the next slot of the
/// row follows it directly.
pub proof fn lemma_slot_keeps_its_place(
    chip: ChipFamily,
    grid: Seq<Seq<PinTokenView>>,
    r: int,
    c: int,
    role: PinRole,
    active_low: bool,
)
    requires
        0 <= r < grid.len(),
        0 <= c < grid[r].len(),
    ensures
        ({
            let text = direct_text(chip, grid, role, active_low);
            let statement = slot_statement(chip, grid[r][c], r as nat, c as nat, role, active_low);
            let at = slot_offset(chip, grid, r, c, role, active_low);
            &&& 0 <= at
            &&& at + statement.len() <= text.len()
            &&& text.subrange(at, at + statement.len()) == statement
            &&& c + 1 < grid[r].len() ==> slot_offset(chip, grid, r, c + 1, role, active_low) == at
                + statement.len()
        }),
{
    let row = grid[r];
    lemma_row_bindings_step(chip, row, r as nat, role, active_low, c);
    lemma_row_bindings_prefix(chip, row, r as nat, role, active_low, c + 1);
    lemma_grid_rows_step(chip, grid, role, active_low, r);
    lemma_grid_rows_prefix(chip, grid, role, active_low, r + 1);
    lemma_piece_of_part(
        grid_rows_text(chip, grid.take(r), role, active_low),
        row_bindings(chip, row.take(c), r as nat, role, active_low),
        slot_statement(chip, row[c], r as nat, c as nat, role, active_low),
        row_bindings(chip, row, r as nat, role, active_low),
        array_statement(row_array_name(r as nat), row_names(row, r as nat)),
        grid_rows_text(chip, grid, role, active_low),
        array_statement("direct_pins"@, grid_row_names(grid.len())),
    );
}

/// An empty slot of a direct pin matrix is bound to `None` under the name
/// of its coordinates, and the array of every row lists one name per slot
/// of the row, that of the slot at column `c` at index `c`: no slot is
/// left out and none moves.
pub proof fn lemma_slot_is_listed(
    chip: ChipFamily,
    grid: Seq<Seq<PinTokenView>>,
    r: int,
    c: int,
    role: PinRole,
    active_low: bool,
)
    requires
        0 <= r < grid.len(),
        0 <= c < grid[r].len(),
    ensures
        grid[r][c] is Absent ==> slot_statement(
            chip,
            grid[r][c],
            r as nat,
            c as nat,
            role,
            active_low,
        ) == let_statement(slot_name(PinTokenView::Absent, r as nat, c as nat), "None"@),
        !(grid[r][c] is Absent) ==> slot_statement(
            chip,
            grid[r][c],
            r as nat,
            c as nat,
            role,
            active_low,
        ) == let_statement(
            slot_name(grid[r][c], r as nat, c as nat),
            "Some("@ + pin_text(chip, grid[r][c], role, active_low) + ")"@,
        ),
        row_names(grid[r], r as nat).len() == grid[r].len(),
        row_names(grid[r], r as nat)[c] == slot_name(grid[r][c], r as nat, c as nat),
        grid_row_names(grid.len()).len() == grid.len(),
        grid_row_names(grid.len())[r] == row_array_name(r as nat),
{
}

/// What opens a text opens every text that the text opens.
proof fn lemma_prefix_chain(a: Seq<char>, b: Seq<char>, c: Seq<char>)
    requires
        a.is_prefix_of(b),
        b.is_prefix_of(c),
    ensures
        a.is_prefix_of(c),
{
    assert(a =~= c.subrange(0, a.len() as int));
}

/// A text opens every text made by adding to its end.
proof fn lemma_opens(a: Seq<char>, b: Seq<char>)
    ensures
        a.is_prefix_of(a + b),
{
    assert(a =~= (a + b).subrange(0, a.len() as int));
}

/// After the same beginning, what opens a text still opens it.
proof fn lemma_prefix_after(before: Seq<char>, a: Seq<char>, b: Seq<char>)
    requires
        a.is_prefix_of(b),
    ensures
        (before + a).is_prefix_of(before + b),
{
    assert(before + a =~= (before + b).subrange(0, (before + a).len() as int));
}

/// A piece that follows a beginning of a text stands where the beginning
/// ends.
proof fn lemma_piece_in_place(text: Seq<char>, before: Seq<char>, piece: Seq<char>)
    requires
        (before + piece).is_prefix_of(text),
    ensures
        before.len() + piece.len() <= text.len(),
        text.subrange(before.len() as int, (before.len() + piece.len()) as int) == piece,
{
    let whole = before + piece;
    assert(whole =~= text.subrange(0, whole.len() as int));
    assert forall|i: int| 0 <= i < piece.len() implies text[before.len() + i] == piece[i] by {
        assert(whole[before.len() + i] == piece[i]);
        assert(text.subrange(0, whole.len() as int)[before.len() + i] == text[before.len() + i]);
    }
    assert(text.subrange(before.len() as int, (before.len() + piece.len()) as int) =~= piece);
}

/// A text that ends in an underscore and a run of digits ends so in one
/// way only.
proof fn lemma_numbered_suffix(a: Seq<char>, m: Seq<char>, b: Seq<char>, n: Seq<char>)
    requires
        all_digits(m),
        all_digits(n),
        a.push('_') + m == b.push('_') + n,
    ensures
        a == b,
        m == n,
{
    let text = a.push('_') + m;
    let other = b.push('_') + n;
    assert(text.len() == a.len() + 1 + m.len());
    assert(other.len() == b.len() + 1 + n.len());
    if m.len() < n.len() {
        assert(text[a.len() as int] == '_');
        assert(other[a.len() as int] == n[a.len() - b.len() - 1]);
        assert(is_digit(n[a.len() - b.len() - 1]));
    } else if n.len() < m.len() {
        assert(other[b.len() as int] == '_');
        assert(text[b.len() as int] == m[b.len() - a.len() - 1]);
        assert(is_digit(m[b.len() - a.len() - 1]));
    } else {
        assert forall|i: int| 0 <= i < a.len() implies a[i] == b[i] by {
            assert(text[i] == a[i]);
            assert(other[i] == b[i]);
        }
        assert(a =~= b);
        assert forall|i: int| 0 <= i < m.len() implies m[i] == n[i] by {
            assert(text[a.len() + 1 + i] == m[i]);
            assert(other[b.len() + 1 + i] == n[i]);
        }
        assert(m =~= n);
    }
}

/// The slots of a direct pin matrix are bound under names that differ
/// wherever the coordinates differ, whatever pins the slots hold.
pub proof fn lemma_slot_names_distinct(
    a: PinTokenView,
    row_a: nat,
    col_a: nat,
    b: PinTokenView,
    row_b: nat,
    col_b: nat,
)
    requires
        slot_name(a, row_a, col_a) == slot_name(b, row_b, col_b),
    ensures
        row_a == row_b,
        col_a == col_b,
        binding_name(a) == binding_name(b),
{
    reveal_strlit("_");
    lemma_decimal_digits(row_a);
    lemma_decimal_digits(col_a);
    lemma_decimal_digits(row_b);
    lemma_decimal_digits(col_b);
    let head_a = binding_name(a) + "_"@ + decimal(row_a);
    let head_b = binding_name(b) + "_"@ + decimal(row_b);
    assert("_"@ =~= seq!['_']);
    assert(head_a + "_"@ =~= head_a.push('_'));
    assert(head_b + "_"@ =~= head_b.push('_'));
    lemma_numbered_suffix(head_a, decimal(col_a), head_b, decimal(col_b));
    assert(binding_name(a) + "_"@ =~= binding_name(a).push('_'));
    assert(binding_name(b) + "_"@ =~= binding_name(b).push('_'));
    lemma_numbered_suffix(binding_name(a), decimal(row_a), binding_name(b), decimal(row_b));
    lemma_decimal_round_trip(row_a);
    lemma_decimal_round_trip(row_b);
    lemma_decimal_round_trip(col_a);
    lemma_decimal_round_trip(col_b);
}

/// The capability error of a list is that of the first pin that has one:
/// there is none where no pin has one, and otherwise it is the error of a
/// pin before which no pin has one.
pub proof fn lemma_first_capability_error(
    chip: ChipFamily,
    tokens: Seq<PinTokenView>,
    role: PinRole,
)
    ensures
        tokens_error(chip, tokens, role) is None <==> forall|i: int|
            0 <= i < tokens.len() ==> capability_error(chip, #[trigger] tokens[i], role) is None,
        tokens_error(chip, tokens, role) is Some ==> exists|i: int|
            0 <= i < tokens.len() && capability_error(chip, #[trigger] tokens[i], role)
                == tokens_error(chip, tokens, role) && forall|j: int|
                0 <= j < i ==> capability_error(chip, #[trigger] tokens[j], role) is None,
    decreases tokens.len(),
{
    if tokens.len() > 0 {
        let rest = tokens.skip(1);
        lemma_first_capability_error(chip, rest, role);
        assert forall|i: int| 0 <= i < rest.len() implies rest[i] == tokens[i + 1] by {}
        if capability_error(chip, tokens[0], role) is None {
            if tokens_error(chip, rest, role) is Some {
                let i = choose|i: int|
                    0 <= i < rest.len() && capability_error(chip, #[trigger] rest[i], role)
                        == tokens_error(chip, rest, role) && forall|j: int|
                        0 <= j < i ==> capability_error(chip, #[trigger] rest[j], role) is None;
                assert(tokens[i + 1] == rest[i]);
                assert forall|j: int| 0 <= j < i + 1 implies capability_error(
                    chip,
                    #[trigger] tokens[j],
                    role,
                ) is None by {
                    if j > 0 {
                        assert(tokens[j] == rest[j - 1]);
                    }
                }
            } else {
                assert forall|i: int| 0 <= i < tokens.len() implies capability_error(
                    chip,
                    #[trigger] tokens[i],
                    role,
                ) is None by {
                    if i > 0 {
                        assert(tokens[i] == rest[i - 1]);
                    }
                }
            }
        } else {
            assert(capability_error(chip, tokens[0], role) == tokens_error(chip, tokens, role));
        }
    }
}

/// The parse error of a list of pin strings is that of the first string
/// that does not parse: there is none where every string parses, and
/// otherwise it is the error of a string before which every string
/// parses.
pub proof fn lemma_first_parse_error(chip: ChipFamily, raws: Seq<Seq<char>>)
    ensures
        parse_error(chip, raws) is None <==> forall|i: int|
            0 <= i < raws.len() ==> spec_parse(chip, #[trigger] raws[i]) is Ok,
        parse_error(chip, raws) is Some ==> exists|i: int|
            0 <= i < raws.len() && spec_parse(chip, #[trigger] raws[i]) == Err::<
                PinTokenView,
                ConfigErrorView,
            >(parse_error(chip, raws)->0) && forall|j: int|
                0 <= j < i ==> spec_parse(chip, #[trigger] raws[j]) is Ok,
    decreases raws.len(),
{
    if raws.len() > 0 {
        let rest = raws.skip(1);
        lemma_first_parse_error(chip, rest);
        assert forall|i: int| 0 <= i < rest.len() implies rest[i] == raws[i + 1] by {}
        if spec_parse(chip, raws[0]) is Ok {
            if parse_error(chip, rest) is Some {
                let i = choose|i: int|
                    0 <= i < rest.len() && spec_parse(chip, #[trigger] rest[i]) == Err::<
                        PinTokenView,
                        ConfigErrorView,
                    >(parse_error(chip, rest)->0) && forall|j: int|
                        0 <= j < i ==> spec_parse(chip, #[trigger] rest[j]) is Ok;
                assert(raws[i + 1] == rest[i]);
                assert forall|j: int| 0 <= j < i + 1 implies spec_parse(
                    chip,
                    #[trigger] raws[j],
                ) is Ok by {
                    if j > 0 {
                        assert(raws[j] == rest[j - 1]);
                    }
                }
            } else {
                assert forall|i: int| 0 <= i < raws.len() implies spec_parse(
                    chip,
                    #[trigger] raws[i],
                ) is Ok by {
                    if i > 0 {
                        assert(raws[i] == rest[i - 1]);
                    }
                }
            }
        } else {
            assert(spec_parse(chip, raws[0]) == Err::<PinTokenView, ConfigErrorView>(
                parse_error(chip, raws)->0,
            ));
        }
    }
}

/// A frequency that the family does not accept is refused with the value
/// as it was given, whatever the bus pins are; one that it accepts is
/// used as it was given.
pub proof fn lemma_frequency_never_adjusted(chip: ChipFamily, config: BusConfigView, khz: u32)
    requires
        config.enabled,
        supports_bus(chip),
        config.freq_khz == Some(khz),
    ensures
        !frequency_accepted(chip, khz) ==> spec_build(chip, config) == Err::<
            CodeFragmentView,
            ConfigErrorView,
        >(ConfigErrorView::InvalidFrequency(khz)),
        frequency_accepted(chip, khz) && is_mcu_pin_name(chip, config.sda) && is_mcu_pin_name(
            chip,
            config.scl,
        ) ==> spec_build(chip, config) == Ok::<CodeFragmentView, ConfigErrorView>(
            CodeFragmentView::Code(
                bus_text(chip, config.sda, config.scl, khz) + spec_i2c_gpio_expander(config),
            ),
        ),
{
}

/// The bus is refused for its frequency exactly where it is enabled on a
/// family that has the bus and the frequency given is not one that the
/// family accepts.
pub proof fn lemma_frequency_refused_iff(chip: ChipFamily, config: BusConfigView, khz: u32)
    ensures
        spec_build(chip, config) == Err::<CodeFragmentView, ConfigErrorView>(
            ConfigErrorView::InvalidFrequency(khz),
        ) <==> config.enabled && supports_bus(chip) && config.freq_khz == Some(khz)
            && !frequency_accepted(chip, khz),
        spec_build_i2c_config(chip, config) == Err::<CodeFragmentView, ConfigErrorView>(
            ConfigErrorView::InvalidFrequency(khz),
        ) <==> config.enabled && supports_bus(chip) && config.freq_khz == Some(khz)
            && !frequency_accepted(chip, khz),
{
}

/// The idle level reaches the code of every family: the code of an
/// output on a pin is one for active-low wiring and another otherwise,
/// and so is the code of an input.
pub proof fn lemma_idle_level_tells(chip: ChipFamily, name: Seq<char>)
    ensures
        mcu_output_text(chip, name, true) != mcu_output_text(chip, name, false),
        mcu_input_text(chip, name, true) != mcu_input_text(chip, name, false),
{
    reveal_strlit("High");
    reveal_strlit("Low");
    reveal_strlit("Up");
    reveal_strlit("Down");
    assert(mcu_output_text(chip, name, true).len() == mcu_output_text(chip, name, false).len() + 1);
    assert(mcu_input_text(chip, name, true).len() + 2 == mcu_input_text(chip, name, false).len());
}

/// A pin is bound under the string it was written as, in lower case.
pub proof fn lemma_binding_name_as_written(chip: ChipFamily, raw: Seq<char>)
    requires
        spec_parse(chip, raw) is Ok,
    ensures
        binding_name(spec_parse(chip, raw)->Ok_0) == lowercase(raw),
{
}

/// The input that an error is about, as its message shows it.
pub open spec fn offending_input(e: ConfigErrorView) -> Seq<char> {
    match e {
        ConfigErrorView::UnknownPin(raw) => raw,
        ConfigErrorView::InvalidPlacement => absent_marker(),
        ConfigErrorView::InvalidExpanderPin(raw) => raw,
        ConfigErrorView::InvalidFrequency(khz) => decimal(khz as nat),
        ConfigErrorView::UnsupportedCapability(raw) => raw,
    }
}

/// Every message ends with the offending input: the pin string, the
/// absent-pin marker, or the frequency in decimal.
pub proof fn lemma_message_names_input(e: ConfigErrorView)
    ensures
        offending_input(e).is_suffix_of(message_text(e)),
{
    reveal_strlit("_");
    assert("_"@ =~= absent_marker());
    let input = offending_input(e);
    let message = message_text(e);
    assert(message.len() >= input.len());
    assert(input =~= message.subrange(message.len() - input.len(), message.len() as int));
}

/// On a family with wake sources, an interrupt-capable input asked for on
/// a string that is no expander pin and has no wake source gives the
/// diagnostic that names the string, never code.
pub proof fn lemma_no_wake_source_no_code(chip: ChipFamily, raw: Seq<char>, active_low: bool)
    requires
        has_wake_sources(chip),
        !has_expander_prefix(raw),
        wake_source(raw) is None,
    ensures
        gpio_str_fragment(chip, raw, PinRole::InterruptInput, active_low)
            == CodeFragmentView::Diagnostic("Invalid pin definition: "@ + raw),
{
    reveal_strlit("_");
    assert("_"@ =~= absent_marker());
}

/// The absent marker among the pin strings of a row/column matrix is a
/// placement error, whatever else the strings are and whatever the bus
/// is: no array of pins is produced.
pub proof fn lemma_marker_in_matrix_refused(
    chip: ChipFamily,
    raws: Seq<Seq<char>>,
    others: Seq<Seq<char>>,
    interrupt_capable: bool,
    active_low: bool,
    bus: BusConfigView,
)
    requires
        contains_marker(raws),
    ensures
        spec_convert_output_pins(chip, raws) == Err::<CodeFragmentView, ConfigErrorView>(
            ConfigErrorView::InvalidPlacement,
        ),
        spec_convert_input_pins(chip, raws, interrupt_capable) == Err::<
            CodeFragmentView,
            ConfigErrorView,
        >(ConfigErrorView::InvalidPlacement),
        spec_generate(
            BoardConfigView {
                chip,
                matrix: MatrixConfigView::RowCol { rows: raws, cols: others },
                interrupt_capable,
                active_low,
                bus,
            },
        ) == Err::<GeneratedUnitView, ConfigErrorView>(ConfigErrorView::InvalidPlacement),
        spec_generate(
            BoardConfigView {
                chip,
                matrix: MatrixConfigView::RowCol { rows: others, cols: raws },
                interrupt_capable,
                active_low,
                bus,
            },
        ) == Err::<GeneratedUnitView, ConfigErrorView>(ConfigErrorView::InvalidPlacement),
{
}

/// Generation depends on the configuration alone: two configurations
/// with the same content give the same unit, or the same error, and the
/// same text.
pub proof fn lemma_generate_deterministic(a: BoardConfig, b: BoardConfig)
    requires
        a@ == b@,
    ensures
        spec_generate(a@) == spec_generate(b@),
        spec_compile(a@) == spec_compile(b@),
{
}

} // verus!
