//! Row/column matrices: the bindings of the input and output pins and the
//! arrays `input_pins` and `output_pins` that hold them; and the parsing
//! of lists of pin strings.

use vstd::prelude::*;
use vstd::string::*;
use crate::emit::{
    capability_error, initializer_view, input_role, pin_initializer, pin_text, role_of_input,
};
use crate::error::{ConfigError, ConfigErrorView};
use crate::fragment::{CodeFragment, CodeFragmentView};
use crate::pin::{
    absent_marker, parse, spec_parse, token_text, ChipFamily, PinRole, PinToken, PinTokenView,
};
use crate::text::{joined, lowercase, push_joined, push_lowercase};

verus! {

/// The name under which a pin is bound: the pin's string as it was
/// written, in lower case. It depends on nothing but that string.
pub open spec fn binding_name(token: PinTokenView) -> Seq<char> {
    lowercase(token_text(token))
}

/// The statement that binds a value to a name.
pub open spec fn let_statement(name: Seq<char>, value: Seq<char>) -> Seq<char> {
    "let "@ + name + " = "@ + value + ";\n"@
}

/// The statement that binds an array of the listed items to a name.
pub open spec fn array_statement(name: Seq<char>, items: Seq<Seq<char>>) -> Seq<char> {
    "let "@ + name + " = ["@ + joined(items) + "];\n"@
}

/// Mathematical form of a list of tokens.
pub open spec fn tokens_view(pins: Seq<PinToken>) -> Seq<PinTokenView> {
    Seq::new(pins.len(), |i: int| pins[i]@)
}

/// Whether the absent marker occurs in a list.
pub open spec fn contains_absent(tokens: Seq<PinTokenView>) -> bool {
    exists|i: int| 0 <= i < tokens.len() && #[trigger] tokens[i] is Absent
}

/// The capability error of the first token that has one.
pub open spec fn tokens_error(chip: ChipFamily, tokens: Seq<PinTokenView>, role: PinRole) -> Option<
    ConfigErrorView,
>
    decreases tokens.len(),
{
    if tokens.len() == 0 {
        None
    } else {
        match capability_error(chip, tokens[0], role) {
            Some(e) => Some(e),
            None => tokens_error(chip, tokens.skip(1), role),
        }
    }
}

/// One binding per pin, in the order of the list.
pub open spec fn list_bindings(
    chip: ChipFamily,
    tokens: Seq<PinTokenView>,
    role: PinRole,
    active_low: bool,
) -> Seq<char>
    decreases tokens.len(),
{
    if tokens.len() == 0 {
        Seq::empty()
    } else {
        list_bindings(chip, tokens.drop_last(), role, active_low) + let_statement(
            binding_name(tokens.last()),
            pin_text(chip, tokens.last(), role, active_low),
        )
    }
}

/// The names of the bindings, in the order of the list.
pub open spec fn list_names(tokens: Seq<PinTokenView>) -> Seq<Seq<char>> {
    Seq::new(tokens.len(), |i: int| binding_name(tokens[i]))
}

/// The bindings of a list of pins, followed by the array of their names.
pub open spec fn pin_list_text(
    chip: ChipFamily,
    tokens: Seq<PinTokenView>,
    role: PinRole,
    active_low: bool,
    array_name: Seq<char>,
) -> Seq<char> {
    list_bindings(chip, tokens, role, active_low) + array_statement(array_name, list_names(tokens))
}

/// The code for a list of pins in one role. The absent marker anywhere
/// in the list is a placement error; it is looked for first. After it
/// comes the first capability error in the list.
pub open spec fn spec_pin_list(
    chip: ChipFamily,
    tokens: Seq<PinTokenView>,
    role: PinRole,
    active_low: bool,
    array_name: Seq<char>,
) -> Result<Seq<char>, ConfigErrorView> {
    if contains_absent(tokens) {
        Err(ConfigErrorView::InvalidPlacement)
    } else {
        match tokens_error(chip, tokens, role) {
            Some(e) => Err(e),
            None => Ok(pin_list_text(chip, tokens, role, active_low, array_name)),
        }
    }
}

/// The code of the output pins of a matrix. They idle low.
pub open spec fn spec_output_pins(chip: ChipFamily, tokens: Seq<PinTokenView>) -> Result<
    Seq<char>,
    ConfigErrorView,
> {
    spec_pin_list(chip, tokens, PinRole::Output, false, "output_pins"@)
}

/// The code of the input pins of a matrix. They are pulled down.
pub open spec fn spec_input_pins(
    chip: ChipFamily,
    tokens: Seq<PinTokenView>,
    interrupt_capable: bool,
) -> Result<Seq<char>, ConfigErrorView> {
    spec_pin_list(chip, tokens, input_role(interrupt_capable), false, "input_pins"@)
}

/// The code of a row/column matrix: the input pins of the rows, then the
/// output pins of the columns. The absent marker in either list is a
/// placement error, whatever else is wrong; after it comes the first
/// capability error, rows first.
pub open spec fn spec_matrix(
    chip: ChipFamily,
    rows: Seq<PinTokenView>,
    cols: Seq<PinTokenView>,
    interrupt_capable: bool,
) -> Result<Seq<char>, ConfigErrorView> {
    if contains_absent(rows) || contains_absent(cols) {
        Err(ConfigErrorView::InvalidPlacement)
    } else {
        match spec_input_pins(chip, rows, interrupt_capable) {
            Err(e) => Err(e),
            Ok(inputs) => match spec_output_pins(chip, cols) {
                Err(e) => Err(e),
                Ok(outputs) => Ok(inputs + outputs),
            },
        }
    }
}

/// Mathematical form of the result of an emitter that may fail.
pub open spec fn emitted_view(r: Result<CodeFragment, ConfigError>) -> Result<
    CodeFragmentView,
    ConfigErrorView,
> {
    match r {
        Ok(f) => Ok(f@),
        Err(e) => Err(e@),
    }
}

/// The fragment that holds the code, where there is code.
pub open spec fn as_code(r: Result<Seq<char>, ConfigErrorView>) -> Result<
    CodeFragmentView,
    ConfigErrorView,
> {
    match r {
        Ok(text) => Ok(CodeFragmentView::Code(text)),
        Err(e) => Err(e),
    }
}

/// The name under which a pin is bound.
pub fn binding_name_of(pin: &PinToken) -> (name: String)
    ensures
        name@ == binding_name(pin@),
{
    let mut name = String::new();
    match pin {
        PinToken::McuPin(pin_name) => push_lowercase(&mut name, pin_name.as_str()),
        PinToken::ExpanderPin { raw, pin } => push_lowercase(&mut name, raw.as_str()),
        PinToken::Absent => {
            proof {
                reveal_strlit("_");
                assert("_"@ =~= absent_marker());
            }
            push_lowercase(&mut name, "_")
        },
    }
    proof {
        assert(name@ =~= lowercase(token_text(pin@)));
    }
    name
}

pub(crate) fn push_let(out: &mut String, name: &str, value: &str)
    ensures
        final(out)@ == old(out)@ + let_statement(name@, value@),
{
    out.append("let ");
    out.append(name);
    out.append(" = ");
    out.append(value);
    out.append(";\n");
    proof {
        assert(out@ =~= old(out)@ + let_statement(name@, value@));
    }
}

pub(crate) fn push_array(
    out: &mut String,
    name: &str,
    items: &str,
    Ghost(item_list): Ghost<Seq<Seq<char>>>,
)
    requires
        items@ == joined(item_list),
    ensures
        final(out)@ == old(out)@ + array_statement(name@, item_list),
{
    out.append("let ");
    out.append(name);
    out.append(" = [");
    out.append(items);
    out.append("];\n");
    proof {
        assert(out@ =~= old(out)@ + array_statement(name@, item_list));
    }
}

/// Whether the absent marker occurs in a list.
pub fn has_absent(pins: &Vec<PinToken>) -> (b: bool)
    ensures
        b == contains_absent(tokens_view(pins@)),
{
    let ghost tokens = tokens_view(pins@);
    let mut i: usize = 0;
    while i < pins.len()
        invariant
            i <= pins@.len(),
            tokens == tokens_view(pins@),
            forall|j: int| 0 <= j < i ==> !(#[trigger] tokens[j] is Absent),
        decreases pins@.len() - i,
    {
        match &pins[i] {
            PinToken::Absent => {
                proof {
                    assert(tokens[i as int] is Absent);
                }
                return true;
            },
            _ => {},
        }
        i = i + 1;
    }
    false
}

fn emit_present_pins(
    chip: ChipFamily,
    pins: &Vec<PinToken>,
    role: PinRole,
    active_low: bool,
    array_name: &str,
) -> (r: Result<String, ConfigError>)
    requires
        !contains_absent(tokens_view(pins@)),
    ensures
        initializer_view(r) == spec_pin_list(
            chip,
            tokens_view(pins@),
            role,
            active_low,
            array_name@,
        ),
{
    let ghost tokens = tokens_view(pins@);
    let mut out = String::new();
    let mut names = String::new();
    let mut i: usize = 0;
    proof {
        assert(tokens.skip(0) =~= tokens);
        assert(list_names(tokens.take(0)) =~= Seq::<Seq<char>>::empty());
    }
    while i < pins.len()
        invariant
            i <= pins@.len(),
            tokens == tokens_view(pins@),
            !contains_absent(tokens),
            tokens_error(chip, tokens, role) == tokens_error(chip, tokens.skip(i as int), role),
            out@ == list_bindings(chip, tokens.take(i as int), role, active_low),
            names@ == joined(list_names(tokens.take(i as int))),
        decreases pins@.len() - i,
    {
        proof {
            assert(tokens.skip(i as int)[0] == tokens[i as int]);
            assert(!(tokens[i as int] is Absent));
            assert(tokens.skip(i as int).skip(1) =~= tokens.skip(i + 1));
            assert(tokens.take(i + 1).drop_last() =~= tokens.take(i as int));
            assert(tokens.take(i + 1).last() == tokens[i as int]);
            assert(list_names(tokens.take(i + 1)) =~= list_names(tokens.take(i as int)).push(
                binding_name(tokens[i as int]),
            ));
        }
        match pin_initializer(chip, &pins[i], role, active_low) {
            Err(e) => {
                return Err(e);
            },
            Ok(value) => {
                let name = binding_name_of(&pins[i]);
                push_let(&mut out, name.as_str(), value.as_str());
                push_joined(
                    &mut names,
                    i,
                    name.as_str(),
                    Ghost(list_names(tokens.take(i as int))),
                );
            },
        }
        i = i + 1;
    }
    proof {
        assert(tokens.take(i as int) =~= tokens);
    }
    push_array(&mut out, array_name, names.as_str(), Ghost(list_names(tokens)));
    Ok(out)
}

/// Emits the bindings of a list of pins in one role and the array, named
/// `array_name`, of the bound names.
pub fn emit_pin_list(
    chip: ChipFamily,
    pins: &Vec<PinToken>,
    role: PinRole,
    active_low: bool,
    array_name: &str,
) -> (r: Result<String, ConfigError>)
    ensures
        initializer_view(r) == spec_pin_list(
            chip,
            tokens_view(pins@),
            role,
            active_low,
            array_name@,
        ),
{
    if has_absent(pins) {
        Err(ConfigError::InvalidPlacement)
    } else {
        emit_present_pins(chip, pins, role, active_low, array_name)
    }
}

fn code_of(r: Result<String, ConfigError>) -> (f: Result<CodeFragment, ConfigError>)
    ensures
        emitted_view(f) == as_code(initializer_view(r)),
{
    match r {
        Ok(text) => Ok(CodeFragment::Code(text)),
        Err(e) => Err(e),
    }
}

/// Emits the output pins of a matrix and the array `output_pins`.
pub fn emit_output_pins(chip: ChipFamily, pins: &Vec<PinToken>) -> (r: Result<
    CodeFragment,
    ConfigError,
>)
    ensures
        emitted_view(r) == as_code(spec_output_pins(chip, tokens_view(pins@))),
{
    code_of(emit_pin_list(chip, pins, PinRole::Output, false, "output_pins"))
}

/// Emits the input pins of a matrix and the array `input_pins`.
pub fn emit_input_pins(chip: ChipFamily, pins: &Vec<PinToken>, interrupt_capable: bool) -> (r:
    Result<CodeFragment, ConfigError>)
    ensures
        emitted_view(r) == as_code(spec_input_pins(chip, tokens_view(pins@), interrupt_capable)),
{
    code_of(emit_pin_list(chip, pins, role_of_input(interrupt_capable), false, "input_pins"))
}

/// Emits a row/column matrix: the rows are its inputs, the columns its
/// outputs. The absent marker has no place in it.
pub fn emit_matrix(
    chip: ChipFamily,
    rows: &Vec<PinToken>,
    cols: &Vec<PinToken>,
    interrupt_capable: bool,
) -> (r: Result<CodeFragment, ConfigError>)
    ensures
        emitted_view(r) == as_code(
            spec_matrix(chip, tokens_view(rows@), tokens_view(cols@), interrupt_capable),
        ),
{
    if has_absent(rows) || has_absent(cols) {
        return Err(ConfigError::InvalidPlacement);
    }
    let mut text = match emit_present_pins(
        chip,
        rows,
        role_of_input(interrupt_capable),
        false,
        "input_pins",
    ) {
        Ok(inputs) => inputs,
        Err(e) => { return Err(e); },
    };
    match emit_present_pins(chip, cols, PinRole::Output, false, "output_pins") {
        Ok(outputs) => {
            text.append(outputs.as_str());
            Ok(CodeFragment::Code(text))
        },
        Err(e) => Err(e),
    }
}

/// Mathematical form of a list of pin strings.
pub open spec fn names_view(raws: Seq<String>) -> Seq<Seq<char>> {
    Seq::new(raws.len(), |i: int| raws[i]@)
}

/// The error of the first pin string that does not parse.
pub open spec fn parse_error(chip: ChipFamily, raws: Seq<Seq<char>>) -> Option<ConfigErrorView>
    decreases raws.len(),
{
    if raws.len() == 0 {
        None
    } else {
        match spec_parse(chip, raws[0]) {
            Err(e) => Some(e),
            Ok(_) => parse_error(chip, raws.skip(1)),
        }
    }
}

/// The token of a pin string that parses.
pub open spec fn parsed_token(chip: ChipFamily, raw: Seq<char>) -> PinTokenView {
    match spec_parse(chip, raw) {
        Ok(token) => token,
        Err(_) => PinTokenView::Absent,
    }
}

/// The tokens of a list of pin strings, or the first parse error.
pub open spec fn spec_parse_pins(chip: ChipFamily, raws: Seq<Seq<char>>) -> Result<
    Seq<PinTokenView>,
    ConfigErrorView,
> {
    match parse_error(chip, raws) {
        Some(e) => Err(e),
        None => Ok(Seq::new(raws.len(), |i: int| parsed_token(chip, raws[i]))),
    }
}

/// Mathematical form of the result of [`parse_pins`].
pub open spec fn parsed_pins_view(r: Result<Vec<PinToken>, ConfigError>) -> Result<
    Seq<PinTokenView>,
    ConfigErrorView,
> {
    match r {
        Ok(tokens) => Ok(tokens_view(tokens@)),
        Err(e) => Err(e@),
    }
}

/// Parses a list of pin strings, in order, up to the first that fails.
pub fn parse_pins(chip: ChipFamily, pins: &Vec<String>) -> (r: Result<Vec<PinToken>, ConfigError>)
    ensures
        parsed_pins_view(r) == spec_parse_pins(chip, names_view(pins@)),
{
    let ghost raws = names_view(pins@);
    let mut tokens: Vec<PinToken> = Vec::new();
    let mut i: usize = 0;
    proof {
        assert(raws.skip(0) =~= raws);
    }
    while i < pins.len()
        invariant
            i <= pins@.len(),
            raws == names_view(pins@),
            parse_error(chip, raws) == parse_error(chip, raws.skip(i as int)),
            tokens@.len() == i,
            forall|j: int| 0 <= j < i ==> (#[trigger] tokens@[j])@ == parsed_token(chip, raws[j]),
        decreases pins@.len() - i,
    {
        proof {
            assert(raws.skip(i as int)[0] == raws[i as int]);
            assert(raws.skip(i as int).skip(1) =~= raws.skip(i + 1));
        }
        match parse(chip, pins[i].as_str()) {
            Err(e) => {
                return Err(e);
            },
            Ok(token) => {
                tokens.push(token);
            },
        }
        i = i + 1;
    }
    proof {
        assert(tokens_view(tokens@) =~= Seq::new(
            raws.len(),
            |i: int| parsed_token(chip, raws[i]),
        ));
    }
    Ok(tokens)
}

/// Whether the absent marker is among the pin strings.
pub open spec fn contains_marker(raws: Seq<Seq<char>>) -> bool {
    exists|i: int| 0 <= i < raws.len() && #[trigger] raws[i] == absent_marker()
}

/// The tokens of a list of pins of a row/column matrix. The absent marker
/// anywhere in the list is a placement error, whatever else the list
/// holds; after it comes the first parse error.
pub open spec fn spec_parse_matrix_pins(chip: ChipFamily, raws: Seq<Seq<char>>) -> Result<
    Seq<PinTokenView>,
    ConfigErrorView,
> {
    if contains_marker(raws) {
        Err(ConfigErrorView::InvalidPlacement)
    } else {
        spec_parse_pins(chip, raws)
    }
}

/// Whether the absent marker is among the pin strings.
pub fn has_marker(pins: &Vec<String>) -> (b: bool)
    ensures
        b == contains_marker(names_view(pins@)),
{
    let ghost raws = names_view(pins@);
    let mut i: usize = 0;
    while i < pins.len()
        invariant
            i <= pins@.len(),
            raws == names_view(pins@),
            forall|j: int| 0 <= j < i ==> #[trigger] raws[j] != absent_marker(),
        decreases pins@.len() - i,
    {
        let raw = pins[i].as_str();
        if raw.unicode_len() == 1 && raw.get_char(0) == '_' {
            proof {
                assert(raws[i as int] =~= absent_marker());
            }
            return true;
        }
        proof {
            assert(raws[i as int] == raw@);
            assert(absent_marker().len() == 1 && absent_marker()[0] == '_');
        }
        i = i + 1;
    }
    false
}

/// Parses the pins of a row/column matrix: the absent marker has no place
/// among them.
pub fn parse_matrix_pins(chip: ChipFamily, pins: &Vec<String>) -> (r: Result<
    Vec<PinToken>,
    ConfigError,
>)
    ensures
        parsed_pins_view(r) == spec_parse_matrix_pins(chip, names_view(pins@)),
{
    if has_marker(pins) {
        Err(ConfigError::InvalidPlacement)
    } else {
        parse_pins(chip, pins)
    }
}

/// The code of the output pins given as strings.
pub open spec fn spec_convert_output_pins(chip: ChipFamily, raws: Seq<Seq<char>>) -> Result<
    CodeFragmentView,
    ConfigErrorView,
> {
    match spec_parse_matrix_pins(chip, raws) {
        Err(e) => Err(e),
        Ok(tokens) => as_code(spec_output_pins(chip, tokens)),
    }
}

/// The code of the input pins given as strings.
pub open spec fn spec_convert_input_pins(
    chip: ChipFamily,
    raws: Seq<Seq<char>>,
    async_matrix: bool,
) -> Result<CodeFragmentView, ConfigErrorView> {
    match spec_parse_matrix_pins(chip, raws) {
        Err(e) => Err(e),
        Ok(tokens) => as_code(spec_input_pins(chip, tokens, async_matrix)),
    }
}

/// Parses the output pins of a matrix and emits their bindings and the
/// array `output_pins`. The absent marker among the strings is a
/// placement error; all strings are parsed before any code is emitted.
pub fn convert_output_pins_to_initializers(chip: ChipFamily, pins: &Vec<String>) -> (r: Result<
    CodeFragment,
    ConfigError,
>)
    ensures
        emitted_view(r) == spec_convert_output_pins(chip, names_view(pins@)),
{
    match parse_matrix_pins(chip, pins) {
        Ok(tokens) => emit_output_pins(chip, &tokens),
        Err(e) => Err(e),
    }
}

/// Parses the input pins of a matrix and emits their bindings and the
/// array `input_pins`; with `async_matrix` each input gets a wake source
/// where the family has them. The absent marker among the strings is a
/// placement error.
pub fn convert_input_pins_to_initializers(
    chip: ChipFamily,
    pins: &Vec<String>,
    async_matrix: bool,
) -> (r: Result<CodeFragment, ConfigError>)
    ensures
        emitted_view(r) == spec_convert_input_pins(chip, names_view(pins@), async_matrix),
{
    match parse_matrix_pins(chip, pins) {
        Ok(tokens) => emit_input_pins(chip, &tokens, async_matrix),
        Err(e) => Err(e),
    }
}

} // verus!
