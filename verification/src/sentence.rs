//! What a device answers to a request, and what of it is worth a line in the log.

use crate::text::{latin1, latin1_text, same_text};
use vstd::prelude::*;
use vstd::string::StringExecFns;

verus! {

/// One answer to a request for rows.
pub enum SentenceResult<E> {
    /// A row.
    Row { value: E, warnings: Vec<String> },
    /// A row that could not be read.
    Error { errors: Vec<String>, warnings: Vec<String> },
    /// The device refused the request.
    Trap { category: Option<TrapCategory>, message: Vec<u8> },
}

/// Why a device refused a request.
pub enum TrapCategory {
    MissingItemOrCommand,
    /// Any other reason, by its name.
    Other(String),
}

/// How much a line in the log matters.
#[derive(Debug, Copy, Clone, PartialEq, Eq, Structural)]
pub enum Level {
    Debug,
    Warn,
    Error,
}

/// A line for the log.
#[derive(Debug)]
pub struct LogLine {
    pub level: Level,
    pub text: String,
}

/// What a [`LogLine`] says.
pub ghost struct LogView {
    pub level: Level,
    pub text: Seq<char>,
}

impl View for LogLine {
    type V = LogView;

    open spec fn view(&self) -> LogView {
        LogView { level: self.level, text: self.text@ }
    }
}

/// What the lines say, one by one.
pub open spec fn lines_view(lines: Seq<LogLine>) -> Seq<LogView> {
    lines.map_values(|l: LogLine| l@)
}

/// The line for a warning that came with a row.
pub open spec fn warning_line(warning: Seq<char>) -> LogView {
    LogView { level: Level::Warn, text: "Warning: "@ + warning }
}

/// The line for an error in a row that was read in the given step.
pub open spec fn error_line(identity: Seq<char>, step: Seq<char>, error: Seq<char>) -> LogView {
    LogView { level: Level::Error, text: identity + " "@ + step + " Error: "@ + error }
}

/// A device that lacks a feature refuses the requests that belong to it. That is no error.
pub open spec fn trap_level(category: Option<TrapCategory>, message: Seq<char>) -> Level {
    match category {
        None => if message == "no such command prefix"@ {
            Level::Debug
        } else {
            Level::Error
        },
        Some(TrapCategory::MissingItemOrCommand) => Level::Debug,
        Some(TrapCategory::Other(_)) => Level::Error,
    }
}

/// How a category is printed.
pub open spec fn category_text(category: Option<TrapCategory>) -> Seq<char> {
    match category {
        None => "None"@,
        Some(TrapCategory::MissingItemOrCommand) => "Some(MissingItemOrCommand)"@,
        Some(TrapCategory::Other(name)) => "Some("@ + name@ + ")"@,
    }
}

/// The line for a refused request.
pub open spec fn trap_line(
    identity: Seq<char>,
    step: Seq<char>,
    category: Option<TrapCategory>,
    message: Seq<char>,
) -> LogView {
    LogView {
        level: trap_level(category, message),
        text: identity + " "@ + step + " Trap: "@ + category_text(category) + ": "@ + message,
    }
}

/// The lines for an answer to the request made in the given step.
pub open spec fn problem_lines<E>(
    identity: Seq<char>,
    step: Seq<char>,
    entry: SentenceResult<E>,
) -> Seq<LogView> {
    match entry {
        SentenceResult::Row { value, warnings } => warnings@.map_values(
            |w: String| warning_line(w@),
        ),
        SentenceResult::Error { errors, warnings } => warnings@.map_values(
            |w: String| warning_line(w@),
        ) + errors@.map_values(|e: String| error_line(identity, step, e@)),
        SentenceResult::Trap { category, message } => seq![
            trap_line(identity, step, category, latin1(message@)),
        ],
    }
}

/// The row in an answer.
pub open spec fn row_of<E>(entry: SentenceResult<E>) -> Option<E> {
    match entry {
        SentenceResult::Row { value, .. } => Some(value),
        _ => None,
    }
}

fn warning_lines(warnings: &Vec<String>) -> (lines: Vec<LogLine>)
    ensures
        lines_view(lines@) == warnings@.map_values(|w: String| warning_line(w@)),
        lines@.len() == warnings@.len(),
        forall|i: int|
            0 <= i < warnings@.len() ==> (#[trigger] lines@[i]).level == Level::Warn
                && lines@[i].text@ == "Warning: "@ + warnings@[i]@,
{
    let mut lines: Vec<LogLine> = Vec::new();
    let mut i: usize = 0;
    while i < warnings.len()
        invariant
            i <= warnings@.len(),
            lines@.len() == i,
            forall|j: int| 0 <= j < i ==> (#[trigger] lines@[j])@ == warning_line(warnings@[j]@),
        decreases warnings@.len() - i,
    {
        let text = "Warning: ".to_string().concat(warnings[i].as_str());
        lines.push(LogLine { level: Level::Warn, text });
        i = i + 1;
    }
    assert(lines_view(lines@) =~= warnings@.map_values(|w: String| warning_line(w@)));
    lines
}

fn print_category(category: &Option<TrapCategory>) -> (text: String)
    ensures
        text@ == category_text(*category),
{
    match category {
        None => "None".to_string(),
        Some(TrapCategory::MissingItemOrCommand) => "Some(MissingItemOrCommand)".to_string(),
        Some(TrapCategory::Other(name)) => "Some(".to_string().concat(name.as_str()).concat(")"),
    }
}

/// The row in an answer, if there is one, and the lines that the answer is worth in the log.
pub fn log_problems<E>(identity: &str, step: &str, entry: SentenceResult<E>) -> (outcome: (
    Option<E>,
    Vec<LogLine>,
))
    ensures
        outcome.0 == row_of(entry),
        lines_view(outcome.1@) == problem_lines(identity@, step@, entry),
        match entry {
            SentenceResult::Row { value, warnings } => {
                &&& outcome.0 == Some(value)
                &&& outcome.1@.len() == warnings@.len()
                &&& forall|i: int|
                    0 <= i < warnings@.len() ==> (#[trigger] outcome.1@[i]).level == Level::Warn
                        && outcome.1@[i].text@ == "Warning: "@ + warnings@[i]@
            },
            SentenceResult::Error { errors, warnings } => {
                &&& outcome.0 is None
                &&& outcome.1@.len() == warnings@.len() + errors@.len()
                &&& forall|i: int|
                    0 <= i < warnings@.len() ==> (#[trigger] outcome.1@[i]).level == Level::Warn
                        && outcome.1@[i].text@ == "Warning: "@ + warnings@[i]@
                &&& forall|i: int|
                    warnings@.len() <= i < outcome.1@.len() ==> (#[trigger] outcome.1@[i]).level
                        == Level::Error && outcome.1@[i].text@ == identity@ + " "@ + step@
                        + " Error: "@ + errors@[i - warnings@.len()]@
            },
            SentenceResult::Trap { category, message } => {
                &&& outcome.0 is None
                &&& outcome.1@.len() == 1
                &&& outcome.1@[0].level == Level::Debug <==> (category is None && latin1(message@)
                    == "no such command prefix"@) || category
                    == Some(TrapCategory::MissingItemOrCommand)
                &&& outcome.1@[0].level == Level::Debug || outcome.1@[0].level == Level::Error
                &&& outcome.1@[0].text@ == identity@ + " "@ + step@ + " Trap: "@ + (match category {
                    None => "None"@,
                    Some(TrapCategory::MissingItemOrCommand) => "Some(MissingItemOrCommand)"@,
                    Some(TrapCategory::Other(name)) => "Some("@ + name@ + ")"@,
                }) + ": "@ + latin1(message@)
            },
        },
{
    match entry {
        SentenceResult::Row { value, warnings } => (Some(value), warning_lines(&warnings)),
        SentenceResult::Error { errors, warnings } => {
            let mut lines = warning_lines(&warnings);
            let ghost warned = lines@;
            let mut i: usize = 0;
            while i < errors.len()
                invariant
                    i <= errors@.len(),
                    lines@.len() == warned.len() + i,
                    forall|j: int| 0 <= j < warned.len() ==> #[trigger] lines@[j] == warned[j],
                    forall|j: int|
                        warned.len() <= j < lines@.len() ==> (#[trigger] lines@[j])@ == error_line(
                            identity@,
                            step@,
                            errors@[j - warned.len()]@,
                        ),
                decreases errors@.len() - i,
            {
                let text = identity.to_string().concat(" ").concat(step).concat(
                    " Error: ",
                ).concat(errors[i].as_str());
                lines.push(LogLine { level: Level::Error, text });
                i = i + 1;
            }
            assert(lines_view(lines@) =~= lines_view(warned) + errors@.map_values(
                |e: String| error_line(identity@, step@, e@),
            ));
            (None, lines)
        },
        SentenceResult::Trap { category, message } => {
            let message = latin1_text(message.as_slice());
            let level = match &category {
                None => if same_text(&message, "no such command prefix") {
                    Level::Debug
                } else {
                    Level::Error
                },
                Some(TrapCategory::MissingItemOrCommand) => Level::Debug,
                Some(TrapCategory::Other(_)) => Level::Error,
            };
            let text = identity.to_string().concat(" ").concat(step).concat(" Trap: ").concat(
                print_category(&category).as_str(),
            ).concat(": ").concat(message.as_str());
            let lines = vec![LogLine { level, text }];
            assert(lines_view(lines@) =~= problem_lines(identity@, step@, entry));
            (None, lines)
        },
    }
}

/// A row is passed on whatever warnings came with it, and nothing else ever is.
pub proof fn every_row_is_passed_on<E>(entry: SentenceResult<E>)
    ensures
        entry matches SentenceResult::Row { value, .. } ==> row_of(entry) == Some(value),
        !(entry is Row) ==> row_of(entry) is None,
{
}

/// A row is worth a line for each of its warnings and no other. A row without warnings is worth
/// none.
pub proof fn rows_are_logged_for_their_warnings<E>(
    identity: Seq<char>,
    step: Seq<char>,
    value: E,
    warnings: Vec<String>,
)
    ensures
        ({
            let lines = problem_lines(
                identity,
                step,
                (SentenceResult::Row { value, warnings }),
            );
            &&& lines.len() == warnings@.len()
            &&& forall|i: int|
                0 <= i < lines.len() ==> (#[trigger] lines[i]).level == Level::Warn
                    && lines[i].text == "Warning: "@ + warnings@[i]@
        }),
{
}

/// A broken row is worth a line for each warning, and behind them one for each error, which tells
/// the device and the step.
pub proof fn broken_rows_are_logged_in_full<E>(
    identity: Seq<char>,
    step: Seq<char>,
    errors: Vec<String>,
    warnings: Vec<String>,
)
    ensures
        ({
            let lines = problem_lines::<E>(
                identity,
                step,
                (SentenceResult::Error { errors, warnings }),
            );
            &&& lines.len() == warnings@.len() + errors@.len()
            &&& forall|i: int|
                0 <= i < warnings@.len() ==> (#[trigger] lines[i]).level == Level::Warn
                    && lines[i].text == "Warning: "@ + warnings@[i]@
            &&& forall|i: int|
                warnings@.len() <= i < lines.len() ==> (#[trigger] lines[i]).level == Level::Error
                    && lines[i].text == identity + " "@ + step + " Error: "@ + errors@[i
                    - warnings@.len()]@
        }),
{
}

/// A refusal is worth one line, at the level of an error unless the device lacks the command or
/// the item that it was asked for.
pub proof fn refusals_are_errors_unless_a_feature_is_missing<E>(
    identity: Seq<char>,
    step: Seq<char>,
    category: Option<TrapCategory>,
    message: Vec<u8>,
)
    ensures
        ({
            let lines = problem_lines::<E>(
                identity,
                step,
                (SentenceResult::Trap { category, message }),
            );
            let missing = category == Some(TrapCategory::MissingItemOrCommand) || (category is None
                && latin1(message@) == "no such command prefix"@);
            &&& lines.len() == 1
            &&& missing ==> lines[0].level == Level::Debug
            &&& !missing ==> lines[0].level == Level::Error
            &&& (identity + " "@ + step + " Trap: "@).is_prefix_of(lines[0].text)
            &&& latin1(message@).is_suffix_of(lines[0].text)
        }),
{
}

} // verus!
