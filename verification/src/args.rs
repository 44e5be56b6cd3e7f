//! The parameter resolver: from the raw command line to the smudge
//! parameters and the two paths.
//!
//! The first word of a command line is the program's name. The second is
//! the input path and the third the output directory. Every word after
//! that is a flag followed by its value. A value that cannot be read is not
//! fatal: the flag falls back to its default and a warning is recorded.

use crate::text::{decimal_u8, literal_bool, parse_bool, parse_u8};
use vstd::prelude::*;

verus! {

/// Weight that a smudge has unless the command line says otherwise, and
/// that an unreadable weight falls back to.
pub const DEFAULT_WEIGHT: u8 = 1;

/// Shade that a smudge has unless the command line says otherwise, and
/// that an unreadable shade falls back to: lightening.
pub const DEFAULT_SHADE: bool = false;

/// Position of the first flag on a command line.
pub const FIRST_FLAG: usize = 3;

/// How an image is to be smudged.
#[derive(Clone, Copy, Debug, PartialEq, Eq, Structural)]
pub struct SmudgeParameters {
    /// Size of the perturbation.
    pub weight: u8,
    /// Direction of the perturbation: `true` darkens, `false` lightens.
    pub shade: bool,
}

/// Record of a flag value that could not be read and was replaced by the
/// flag's default.
#[derive(Clone, Debug, PartialEq, Eq)]
pub struct ParseWarning {
    /// The value as it stood on the command line.
    pub value: String,
}

/// Why a command line was turned down.
#[derive(Clone, Debug, PartialEq, Eq)]
pub enum ArgumentError {
    /// The last word stands where a flag is due, with no value behind it.
    MissingValue,
    /// A word stands where a flag is due and is none; it is carried along.
    Unrecognized(String),
}

/// A resolved command line.
#[derive(Clone, Debug, PartialEq, Eq)]
pub struct Arguments {
    /// Weight and shade of the smudge.
    pub parameters: SmudgeParameters,
    /// The input path as given, empty where none was.
    pub input_path: String,
    /// The output directory as given, empty where none was.
    pub output_path: String,
}

/// Mathematical model of `ArgumentError`.
pub enum ArgumentErrorView {
    MissingValue,
    Unrecognized(Seq<char>),
}

/// Mathematical model of `Arguments`.
pub struct ArgumentsView {
    pub parameters: SmudgeParameters,
    pub input_path: Seq<char>,
    pub output_path: Seq<char>,
}

/// What resolving a command line comes to: the arguments or the error, and
/// the warnings that were given on the way. A warning is modelled by the
/// value that it records.
pub struct Resolution {
    pub outcome: Result<ArgumentsView, ArgumentErrorView>,
    pub warnings: Seq<Seq<char>>,
}

impl View for ParseWarning {
    type V = Seq<char>;

    open spec fn view(&self) -> Seq<char> {
        self.value@
    }
}

impl View for ArgumentError {
    type V = ArgumentErrorView;

    open spec fn view(&self) -> ArgumentErrorView {
        match self {
            ArgumentError::MissingValue => ArgumentErrorView::MissingValue,
            ArgumentError::Unrecognized(token) => ArgumentErrorView::Unrecognized(token@),
        }
    }
}

impl View for Arguments {
    type V = ArgumentsView;

    open spec fn view(&self) -> ArgumentsView {
        ArgumentsView {
            parameters: self.parameters,
            input_path: self.input_path@,
            output_path: self.output_path@,
        }
    }
}

/// The values that a list of warnings records.
pub open spec fn warning_values(warnings: Seq<ParseWarning>) -> Seq<Seq<char>> {
    Seq::new(warnings.len(), |i: int| warnings[i]@)
}

/// The words of a command line as texts.
pub open spec fn words(args: Seq<String>) -> Seq<Seq<char>> {
    Seq::new(args.len(), |i: int| args[i]@)
}

/// Whether a word is one of the two spellings of the weight flag.
pub open spec fn is_weight_flag(word: Seq<char>) -> bool {
    word == "--smudge-weight"@ || word == "-w"@
}

/// Whether a word is one of the two spellings of the shade flag.
pub open spec fn is_shade_flag(word: Seq<char>) -> bool {
    word == "--smudge-shade"@ || word == "-s"@
}

/// The weight that a value gives: the number it denotes, or else the
/// default.
pub open spec fn weight_or(value: Seq<char>, default: u8) -> u8 {
    match decimal_u8(value) {
        Some(weight) => weight,
        None => default,
    }
}

/// The shade that a value gives: the boolean it spells, or else the
/// default.
pub open spec fn shade_or(value: Seq<char>, default: bool) -> bool {
    match literal_bool(value) {
        Some(shade) => shade,
        None => default,
    }
}

/// The warnings after a value was read: one more where the value could not
/// be read.
pub open spec fn warned(warnings: Seq<Seq<char>>, readable: bool, value: Seq<char>) -> Seq<
    Seq<char>,
> {
    if readable {
        warnings
    } else {
        warnings.push(value)
    }
}

/// A command line's state after a weight flag with the given value.
pub open spec fn with_weight(state: ArgumentsView, value: Seq<char>) -> ArgumentsView {
    ArgumentsView {
        parameters: SmudgeParameters {
            weight: weight_or(value, DEFAULT_WEIGHT),
            shade: state.parameters.shade,
        },
        ..state
    }
}

/// A command line's state after a shade flag with the given value.
pub open spec fn with_shade(state: ArgumentsView, value: Seq<char>) -> ArgumentsView {
    ArgumentsView {
        parameters: SmudgeParameters {
            weight: state.parameters.weight,
            shade: shade_or(value, DEFAULT_SHADE),
        },
        ..state
    }
}

/// The state before any flag is read: the defaults, and the two paths as
/// far as the command line holds them.
pub open spec fn initial(line: Seq<Seq<char>>) -> ArgumentsView {
    ArgumentsView {
        parameters: SmudgeParameters { weight: DEFAULT_WEIGHT, shade: DEFAULT_SHADE },
        input_path: if line.len() > 1 {
            line[1]
        } else {
            Seq::empty()
        },
        output_path: if line.len() > 2 {
            line[2]
        } else {
            Seq::empty()
        },
    }
}

/// What reading the flags from position `at` on makes of a state and of
/// the warnings given so far. A word with nothing behind it is turned down
/// before it is looked at, so a trailing word is a missing value whether or
/// not it is a flag. An error ends the reading; the warnings given before
/// it stand.
pub open spec fn resolve_flags(
    line: Seq<Seq<char>>,
    at: int,
    state: ArgumentsView,
    warnings: Seq<Seq<char>>,
) -> Resolution
    decreases line.len() - at,
{
    if at < 0 || at >= line.len() {
        Resolution { outcome: Ok(state), warnings }
    } else if at + 1 >= line.len() {
        Resolution { outcome: Err(ArgumentErrorView::MissingValue), warnings }
    } else if is_weight_flag(line[at]) {
        resolve_flags(
            line,
            at + 2,
            with_weight(state, line[at + 1]),
            warned(warnings, decimal_u8(line[at + 1]) is Some, line[at + 1]),
        )
    } else if is_shade_flag(line[at]) {
        resolve_flags(
            line,
            at + 2,
            with_shade(state, line[at + 1]),
            warned(warnings, literal_bool(line[at + 1]) is Some, line[at + 1]),
        )
    } else {
        Resolution { outcome: Err(ArgumentErrorView::Unrecognized(line[at])), warnings }
    }
}

/// What a command line resolves to, with the warnings that it gives added
/// to those given `earlier`.
pub open spec fn resolve(line: Seq<Seq<char>>, earlier: Seq<Seq<char>>) -> Resolution {
    resolve_flags(line, FIRST_FLAG as int, initial(line), earlier)
}

/// The model of a resolver's answer.
pub open spec fn outcome_view(outcome: Result<Arguments, ArgumentError>) -> Result<
    ArgumentsView,
    ArgumentErrorView,
> {
    match outcome {
        Ok(arguments) => Ok(arguments@),
        Err(error) => Err(error@),
    }
}

/// Settles the value of a flag once its text has been read: what was read
/// where the text could be read, and else the default, with a warning that
/// records the text added to the list.
pub fn parse_arg<T>(
    arg: &String,
    parsed: Option<T>,
    default: T,
    warnings: &mut Vec<ParseWarning>,
) -> (value: T)
    ensures
        value == match parsed {
            Some(read) => read,
            None => default,
        },
        warning_values(final(warnings)@) == warned(
            warning_values(old(warnings)@),
            parsed is Some,
            arg@,
        ),
{
    match parsed {
        Some(read) => read,
        None => {
            let ghost before = warnings@;
            warnings.push(ParseWarning { value: arg.clone() });
            assert(warning_values(warnings@) =~= warning_values(before).push(arg@));
            default
        },
    }
}

/// Reads the value of a weight flag. A value that is no weight gives the
/// default and adds a warning to the list.
pub fn parse_weight(value: &String, default: u8, warnings: &mut Vec<ParseWarning>) -> (weight: u8)
    ensures
        weight == weight_or(value@, default),
        warning_values(final(warnings)@) == warned(
            warning_values(old(warnings)@),
            decimal_u8(value@) is Some,
            value@,
        ),
{
    parse_arg(value, parse_u8(value.as_str()), default, warnings)
}

/// Reads the value of a shade flag. A value that is no boolean gives the
/// default and adds a warning to the list.
pub fn parse_shade(value: &String, default: bool, warnings: &mut Vec<ParseWarning>) -> (shade:
    bool)
    ensures
        shade == shade_or(value@, default),
        warning_values(final(warnings)@) == warned(
            warning_values(old(warnings)@),
            literal_bool(value@) is Some,
            value@,
        ),
{
    parse_arg(value, parse_bool(value.as_str()), default, warnings)
}

/// Tells whether a word is one of the two spellings of the weight flag.
pub fn names_weight(word: &String) -> (named: bool)
    ensures
        named == is_weight_flag(word@),
{
    *word == String::from_str("--smudge-weight") || *word == String::from_str("-w")
}

/// Tells whether a word is one of the two spellings of the shade flag.
pub fn names_shade(word: &String) -> (named: bool)
    ensures
        named == is_shade_flag(word@),
{
    *word == String::from_str("--smudge-shade") || *word == String::from_str("-s")
}

/// Resolves a command line, given as the list of its words with the
/// program's name first. Each value that cannot be read adds a warning to
/// the list, also where the line is turned down further on.
pub fn read_args(args: &Vec<String>, warnings: &mut Vec<ParseWarning>) -> (outcome: Result<
    Arguments,
    ArgumentError,
>)
    ensures
        (Resolution {
            outcome: outcome_view(outcome),
            warnings: warning_values(final(warnings)@),
        }) == resolve(words(args@), warning_values(old(warnings)@)),
{
    let ghost line = words(args@);
    let ghost earlier = warning_values(warnings@);
    let end: usize = args.len();
    let input_path: String = if end > 1 {
        args[1].clone()
    } else {
        String::new()
    };
    let output_path: String = if end > 2 {
        args[2].clone()
    } else {
        String::new()
    };
    let mut weight: u8 = DEFAULT_WEIGHT;
    let mut shade: bool = DEFAULT_SHADE;
    let mut at: usize = FIRST_FLAG;
    while at < end
        invariant
            end == args.len(),
            line == words(args@),
            earlier == warning_values(old(warnings)@),
            FIRST_FLAG <= at,
            input_path@ == initial(line).input_path,
            output_path@ == initial(line).output_path,
            resolve_flags(
                line,
                at as int,
                (ArgumentsView {
                    parameters: SmudgeParameters { weight, shade },
                    input_path: input_path@,
                    output_path: output_path@,
                }),
                warning_values(warnings@),
            ) == resolve(line, earlier),
        decreases end - at,
    {
        if at + 1 >= end {
            return Err(ArgumentError::MissingValue);
        }
        let word: &String = &args[at];
        let value: &String = &args[at + 1];
        if names_weight(word) {
            weight = parse_weight(value, DEFAULT_WEIGHT, warnings);
        } else if names_shade(word) {
            shade = parse_shade(value, DEFAULT_SHADE, warnings);
        } else {
            return Err(ArgumentError::Unrecognized(word.clone()));
        }
        at += 2;
    }
    Ok(Arguments { parameters: SmudgeParameters { weight, shade }, input_path, output_path })
}

/// Whether a word is a flag that the resolver knows.
pub open spec fn is_flag(word: Seq<char>) -> bool {
    is_weight_flag(word) || is_shade_flag(word)
}

/// Whether position `at` of a command line is one where a flag is due:
/// the flags start behind the two paths and each takes two words.
pub open spec fn is_flag_position(line: Seq<Seq<char>>, at: int) -> bool {
    FIRST_FLAG <= at < line.len() && (at - FIRST_FLAG) % 2 == 0
}

/// Whether every flag position before `end` holds a known flag.
pub open spec fn flags_known_before(line: Seq<Seq<char>>, end: int) -> bool {
    forall|at: int| #[trigger] is_flag_position(line, at) && at < end ==> is_flag(line[at])
}

/// Whether a command line is one that the resolver accepts: behind the
/// paths the words come in pairs, and the first of each pair is a known
/// flag.
pub open spec fn is_accepted(line: Seq<Seq<char>>) -> bool {
    forall|at: int| #[trigger]
        is_flag_position(line, at) ==> at + 1 < line.len() && is_flag(line[at])
}

/// What the text of an error says.
pub open spec fn error_text(error: ArgumentErrorView) -> Seq<char> {
    match error {
        ArgumentErrorView::MissingValue => "All arguments must correspond with a value."@,
        ArgumentErrorView::Unrecognized(word) => "Invalid argument \""@ + word
            + "\" specified!"@,
    }
}

/// What the text of a warning about a value says.
pub open spec fn warning_text(value: Seq<char>) -> Seq<char> {
    "WARNING: Invalid value \""@ + value + "\" specified; using default value instead."@
}

impl ArgumentError {
    /// The error in words.
    pub fn message(&self) -> (text: String)
        ensures
            text@ == error_text(self@),
    {
        match self {
            ArgumentError::MissingValue => String::from_str(
                "All arguments must correspond with a value.",
            ),
            ArgumentError::Unrecognized(word) => {
                let mut text: String = String::from_str("Invalid argument \"");
                text.append(word.as_str());
                text.append("\" specified!");
                text
            },
        }
    }
}

impl ParseWarning {
    /// The warning in words.
    pub fn message(&self) -> (text: String)
        ensures
            text@ == warning_text(self@),
    {
        let mut text: String = String::from_str("WARNING: Invalid value \"");
        text.append(self.value.as_str());
        text.append("\" specified; using default value instead.");
        text
    }
}

/// Reading flags from a flag position on succeeds exactly when the rest of
/// the line is made of pairs that start with a known flag.
proof fn lemma_resolve_flags_succeeds_iff(
    line: Seq<Seq<char>>,
    at: int,
    state: ArgumentsView,
    warnings: Seq<Seq<char>>,
)
    requires
        FIRST_FLAG <= at,
        (at - FIRST_FLAG) % 2 == 0,
    ensures
        resolve_flags(line, at, state, warnings).outcome is Ok <==> forall|k: int| #[trigger]
            is_flag_position(line, k) && at <= k ==> k + 1 < line.len() && is_flag(line[k]),
    decreases line.len() - at,
{
    if at >= line.len() {
    } else if at + 1 >= line.len() {
        assert(is_flag_position(line, at));
    } else if is_weight_flag(line[at]) {
        lemma_resolve_flags_succeeds_iff(
            line,
            at + 2,
            with_weight(state, line[at + 1]),
            warned(warnings, decimal_u8(line[at + 1]) is Some, line[at + 1]),
        );
        assert forall|k: int| #[trigger] is_flag_position(line, k) && at <= k && k < at + 2
            implies k == at by {}
    } else if is_shade_flag(line[at]) {
        lemma_resolve_flags_succeeds_iff(
            line,
            at + 2,
            with_shade(state, line[at + 1]),
            warned(warnings, literal_bool(line[at + 1]) is Some, line[at + 1]),
        );
        assert forall|k: int| #[trigger] is_flag_position(line, k) && at <= k && k < at + 2
            implies k == at by {}
    } else {
        assert(is_flag_position(line, at));
    }
}

/// Reading flags from a flag position on, with known flags up to a later
/// flag position, arrives at that position.
proof fn lemma_resolve_flags_reaches(
    line: Seq<Seq<char>>,
    at: int,
    fault: int,
    state: ArgumentsView,
    warnings: Seq<Seq<char>>,
)
    requires
        FIRST_FLAG <= at <= fault,
        (at - FIRST_FLAG) % 2 == 0,
        is_flag_position(line, fault),
        flags_known_before(line, fault),
    ensures
        exists|later: ArgumentsView, given: Seq<Seq<char>>|
            resolve_flags(line, at, state, warnings) == #[trigger] resolve_flags(
                line,
                fault,
                later,
                given,
            ),
    decreases fault - at,
{
    if at == fault {
    } else {
        assert(is_flag_position(line, at));
        assert(is_flag(line[at]));
        assert(at + 2 <= fault);
        if is_weight_flag(line[at]) {
            lemma_resolve_flags_reaches(
                line,
                at + 2,
                fault,
                with_weight(state, line[at + 1]),
                warned(warnings, decimal_u8(line[at + 1]) is Some, line[at + 1]),
            );
        } else {
            lemma_resolve_flags_reaches(
                line,
                at + 2,
                fault,
                with_shade(state, line[at + 1]),
                warned(warnings, literal_bool(line[at + 1]) is Some, line[at + 1]),
            );
        }
    }
}

/// Reading flags only ever adds to the warnings.
proof fn lemma_resolve_flags_keeps_warnings(
    line: Seq<Seq<char>>,
    at: int,
    state: ArgumentsView,
    warnings: Seq<Seq<char>>,
)
    ensures
        warnings.is_prefix_of(resolve_flags(line, at, state, warnings).warnings),
    decreases line.len() - at,
{
    if at < 0 || at >= line.len() {
    } else if at + 1 >= line.len() {
    } else if is_weight_flag(line[at]) {
        lemma_resolve_flags_keeps_warnings(
            line,
            at + 2,
            with_weight(state, line[at + 1]),
            warned(warnings, decimal_u8(line[at + 1]) is Some, line[at + 1]),
        );
    } else if is_shade_flag(line[at]) {
        lemma_resolve_flags_keeps_warnings(
            line,
            at + 2,
            with_shade(state, line[at + 1]),
            warned(warnings, literal_bool(line[at + 1]) is Some, line[at + 1]),
        );
    } else {
    }
}

/// A command line resolves exactly when it is an accepted one: success is
/// owed to every line whose words behind the paths are pairs of a known
/// flag and a value, whatever the values are. Warnings do not decide, and
/// none that was given earlier is lost.
pub proof fn lemma_resolve_succeeds_iff_accepted(line: Seq<Seq<char>>, earlier: Seq<Seq<char>>)
    ensures
        resolve(line, earlier).outcome is Ok <==> is_accepted(line),
        earlier.is_prefix_of(resolve(line, earlier).warnings),
{
    lemma_resolve_flags_succeeds_iff(line, FIRST_FLAG as int, initial(line), earlier);
    lemma_resolve_flags_keeps_warnings(line, FIRST_FLAG as int, initial(line), earlier);
}

/// The first word that stands where a flag is due and is no known flag is
/// turned down by name, provided that a word follows it; a last word that
/// stands where a flag is due is turned down as lacking its value, known
/// flag or not. The two errors are different ones.
pub proof fn lemma_first_fault_decides(
    line: Seq<Seq<char>>,
    earlier: Seq<Seq<char>>,
    fault: int,
)
    requires
        is_flag_position(line, fault),
        flags_known_before(line, fault),
    ensures
        fault + 1 >= line.len() ==> resolve(line, earlier).outcome == Err::<
            ArgumentsView,
            ArgumentErrorView,
        >(ArgumentErrorView::MissingValue),
        fault + 1 < line.len() && !is_flag(line[fault]) ==> resolve(line, earlier).outcome
            == Err::<ArgumentsView, ArgumentErrorView>(
            ArgumentErrorView::Unrecognized(line[fault]),
        ),
        ArgumentErrorView::MissingValue != ArgumentErrorView::Unrecognized(line[fault]),
{
    lemma_resolve_flags_reaches(line, FIRST_FLAG as int, fault, initial(line), earlier);
}

/// A value that cannot be read never fails the line: a weight flag with
/// such a value behind it sets the weight to its default, a shade flag the
/// shade, each adds the value to the warnings, and the reading goes on
/// with the next pair.
pub proof fn lemma_unreadable_value_falls_back(
    line: Seq<Seq<char>>,
    at: int,
    state: ArgumentsView,
    warnings: Seq<Seq<char>>,
)
    requires
        0 <= at,
        at + 1 < line.len(),
    ensures
        is_weight_flag(line[at]) && decimal_u8(line[at + 1]) is None ==> resolve_flags(
            line,
            at,
            state,
            warnings,
        ) == resolve_flags(
            line,
            at + 2,
            (ArgumentsView {
                parameters: SmudgeParameters {
                    weight: DEFAULT_WEIGHT,
                    shade: state.parameters.shade,
                },
                ..state
            }),
            warnings.push(line[at + 1]),
        ),
        !is_weight_flag(line[at]) && is_shade_flag(line[at]) && literal_bool(line[at + 1])
            is None ==> resolve_flags(line, at, state, warnings) == resolve_flags(
            line,
            at + 2,
            (ArgumentsView {
                parameters: SmudgeParameters {
                    weight: state.parameters.weight,
                    shade: DEFAULT_SHADE,
                },
                ..state
            }),
            warnings.push(line[at + 1]),
        ),
{
}

} // verus!
