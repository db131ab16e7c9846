//! What the interactive wizard decides from what was typed: which entry of
//! a list was chosen, whether a question was answered with yes or no, and
//! whether the terminal is large enough.

use vstd::prelude::*;
use vstd::string::*;
use crate::error::{ErrorCode, RecpartError, RecpartErrorModel};
use crate::number::{parse_unsigned, parsed};
use crate::preflight::{QueryOutcome, QueryOutcomeModel};
use crate::exec::CONFIRM_TOKEN;
use crate::text::{
    ascii_lowered, decimal, decimal_text, lower_text, same_text, split_text_words, split_words,
    text, trim_text, trimmed,
};
use crate::types::InstallMode;

verus! {

/// The least number of columns that the wizard needs.
pub const MIN_TERMINAL_COLS: u16 = 80;

/// The least number of rows that the wizard needs.
pub const MIN_TERMINAL_ROWS: u16 = 24;

/// The message for an answer that is no number.
pub open spec fn not_a_number_message() -> Seq<char> {
    "Enter a number from the displayed list."@
}

/// The message for a number that is no entry of the list.
pub open spec fn out_of_range_message(max: usize) -> Seq<char> {
    "Selection must be between 1 and "@ + decimal(max as nat) + "."@
}

/// The entry that an answer chooses from a list of `max` entries: the
/// default for an answer that is blank, the number that the answer holds
/// where it is one of the list, and a message otherwise.
pub open spec fn selection(input: Seq<char>, max: usize, default: usize) -> Result<
    usize,
    Seq<char>,
> {
    let answer = trimmed(input);
    if answer.len() == 0 {
        Ok(default)
    } else {
        match parsed(answer, usize::MAX as int) {
            Err(_) => Err(not_a_number_message()),
            Ok(v) => {
                if v == 0 || v > max {
                    Err(out_of_range_message(max))
                } else {
                    Ok(v as usize)
                }
            },
        }
    }
}

/// Reads the answer to the question which entry of a list is meant.
pub fn parse_selection_input(input: &str, max: usize, default: usize) -> (r: Result<usize, String>)
    ensures
        match r {
            Ok(v) => selection(input@, max, default) == Ok::<usize, Seq<char>>(v),
            Err(message) => selection(input@, max, default) == Err::<usize, Seq<char>>(message@),
        },
{
    let answer = trim_text(input);
    if answer.as_str().unicode_len() == 0 {
        return Ok(default);
    }
    let number: u64 = match parse_unsigned(answer.as_str(), usize::MAX as u64) {
        Err(_) => {
            return Err(text("Enter a number from the displayed list."));
        },
        Ok(v) => v,
    };
    if number == 0 || number > max as u64 {
        let mut message = text("Selection must be between 1 and ");
        message.append(decimal_text(max as u64).as_str());
        message.append(".");
        return Err(message);
    }
    Ok(number as usize)
}

/// What an answer to a yes-or-no question says: the default for a blank
/// answer, yes for `y` and `yes`, no for `n` and `no` in any case of
/// letters, and nothing for any other answer.
pub open spec fn yes_no(input: Seq<char>, default_yes: bool) -> Option<bool> {
    let answer = ascii_lowered(trimmed(input));
    if answer.len() == 0 {
        Some(default_yes)
    } else if answer == "y"@ || answer == "yes"@ {
        Some(true)
    } else if answer == "n"@ || answer == "no"@ {
        Some(false)
    } else {
        None
    }
}

/// Reads the answer to a yes-or-no question; nothing where the question has
/// to be asked again.
pub fn parse_yes_no(input: &str, default_yes: bool) -> (r: Option<bool>)
    ensures
        r == yes_no(input@, default_yes),
{
    let answer = lower_text(trim_text(input).as_str());
    if answer.as_str().unicode_len() == 0 {
        return Some(default_yes);
    }
    if same_text(answer.as_str(), "y") || same_text(answer.as_str(), "yes") {
        return Some(true);
    }
    if same_text(answer.as_str(), "n") || same_text(answer.as_str(), "no") {
        return Some(false);
    }
    None
}

/// The failure of a terminal that is too small.
pub open spec fn terminal_error(cols: u16, rows: u16) -> RecpartErrorModel {
    RecpartErrorModel {
        code: ErrorCode::Internal,
        component: "tui"@,
        expectation: "terminal is at least "@ + decimal(MIN_TERMINAL_COLS as nat) + "x"@ + decimal(
            MIN_TERMINAL_ROWS as nat,
        ),
        observed: "detected terminal size "@ + decimal(cols as nat) + "x"@ + decimal(rows as nat),
        remediation: "Resize terminal to at least "@ + decimal(MIN_TERMINAL_COLS as nat)
            + " columns and "@ + decimal(MIN_TERMINAL_ROWS as nat) + " rows and retry."@,
    }
}

/// Why the terminal does not do, if it does not: its size is known and
/// under 80 columns or under 24 rows.
pub open spec fn terminal_fault(size: Option<(u16, u16)>) -> Option<RecpartErrorModel> {
    match size {
        None => None,
        Some((cols, rows)) => {
            if cols >= MIN_TERMINAL_COLS && rows >= MIN_TERMINAL_ROWS {
                None
            } else {
                Some(terminal_error(cols, rows))
            }
        },
    }
}

/// Checks the terminal's size, given as columns and rows where it is known.
pub fn enforce_terminal_minimum(size: Option<(u16, u16)>) -> (r: Result<(), RecpartError>)
    ensures
        crate::preflight::verdict_is(r, terminal_fault(size)),
{
    let (cols, rows) = match size {
        None => {
            return Ok(());
        },
        Some(pair) => pair,
    };
    if cols >= MIN_TERMINAL_COLS && rows >= MIN_TERMINAL_ROWS {
        return Ok(());
    }
    let min_cols = decimal_text(MIN_TERMINAL_COLS as u64);
    let min_rows = decimal_text(MIN_TERMINAL_ROWS as u64);
    let mut expectation = text("terminal is at least ");
    expectation.append(min_cols.as_str());
    expectation.append("x");
    expectation.append(min_rows.as_str());
    let mut observed = text("detected terminal size ");
    observed.append(decimal_text(cols as u64).as_str());
    observed.append("x");
    observed.append(decimal_text(rows as u64).as_str());
    let mut remediation = text("Resize terminal to at least ");
    remediation.append(min_cols.as_str());
    remediation.append(" columns and ");
    remediation.append(min_rows.as_str());
    remediation.append(" rows and retry.");
    Err(
        RecpartError::new(
            ErrorCode::Internal,
            "tui",
            expectation.as_str(),
            observed.as_str(),
            remediation.as_str(),
        ),
    )
}

/// The number of columns or rows that a text holds, if it holds one.
pub open spec fn dimension(s: Seq<char>) -> Option<u16> {
    match parsed(s, u16::MAX as int) {
        Ok(v) => Some(v as u16),
        Err(_) => None,
    }
}

/// The terminal's size as the environment gives it: the columns and the
/// rows, where both variables are set and hold a number, white space
/// around it aside.
pub open spec fn size_from_env(columns: Option<Seq<char>>, lines: Option<Seq<char>>) -> Option<
    (u16, u16),
> {
    match (columns, lines) {
        (Some(c), Some(l)) => match (dimension(trimmed(c)), dimension(trimmed(l))) {
            (Some(cols), Some(rows)) => Some((cols, rows)),
            _ => None,
        },
        _ => None,
    }
}

/// The terminal's size as `stty size` printed it: the rows and then the
/// columns are the first two words, where the command succeeded.
pub open spec fn size_from_stty(q: QueryOutcomeModel) -> Option<(u16, u16)> {
    match q {
        QueryOutcomeModel::NotRun { .. } => None,
        QueryOutcomeModel::Finished { success, stdout, .. } => {
            let words = split_words(stdout);
            if success && words.len() >= 2 {
                match (dimension(words[0]), dimension(words[1])) {
                    (Some(rows), Some(cols)) => Some((cols, rows)),
                    _ => None,
                }
            } else {
                None
            }
        },
    }
}

fn read_dimension(s: &str) -> (r: Option<u16>)
    ensures
        r == dimension(s@),
{
    match parse_unsigned(s, u16::MAX as u64) {
        Ok(v) => Some(v as u16),
        Err(_) => None,
    }
}

/// The terminal's size from the values of `COLUMNS` and `LINES`.
pub fn terminal_size_from_env(columns: &Option<String>, lines: &Option<String>) -> (r: Option<
    (u16, u16),
>)
    ensures
        r == size_from_env(columns.deep_view(), lines.deep_view()),
{
    let shown_columns = match columns {
        None => {
            return None;
        },
        Some(c) => trim_text(c.as_str()),
    };
    let cols = match read_dimension(shown_columns.as_str()) {
        None => {
            return None;
        },
        Some(v) => v,
    };
    let shown_lines = match lines {
        None => {
            return None;
        },
        Some(l) => trim_text(l.as_str()),
    };
    match read_dimension(shown_lines.as_str()) {
        None => None,
        Some(rows) => Some((cols, rows)),
    }
}

/// The terminal's size from what `stty size` printed.
pub fn terminal_size_from_stty(query: &QueryOutcome) -> (r: Option<(u16, u16)>)
    ensures
        r == size_from_stty(query@),
{
    match query {
        QueryOutcome::NotRun { .. } => None,
        QueryOutcome::Finished { success, stdout, .. } => {
            if !*success {
                return None;
            }
            let words = split_text_words(stdout.as_str());
            assert(words.deep_view().len() == words.len());
            if words.len() < 2 {
                return None;
            }
            assert(words.deep_view()[0] == words@[0]@);
            assert(words.deep_view()[1] == words@[1]@);
            let rows = match read_dimension(words[0].as_str()) {
                None => {
                    return None;
                },
                Some(v) => v,
            };
            match read_dimension(words[1].as_str()) {
                None => None,
                Some(cols) => Some((cols, rows)),
            }
        },
    }
}

/// The failure of a wizard that finds no disk to install on.
pub open spec fn no_disk_error() -> RecpartErrorModel {
    RecpartErrorModel {
        code: ErrorCode::InvalidTargetDisk,
        component: "tui"@,
        expectation: "at least one candidate disk is available"@,
        observed: "no disk or loop devices found"@,
        remediation: "Attach a target disk and rerun recpart tui."@,
    }
}

/// Checks that there is a disk to choose.
pub fn ensure_disk_available(count: usize) -> (r: Result<(), RecpartError>)
    ensures
        crate::preflight::verdict_is(
            r,
            if count == 0 {
                Some(no_disk_error())
            } else {
                None
            },
        ),
{
    if count > 0 {
        return Ok(());
    }
    Err(
        RecpartError::new(
            ErrorCode::InvalidTargetDisk,
            "tui",
            "at least one candidate disk is available",
            "no disk or loop devices found",
            "Attach a target disk and rerun recpart tui.",
        ),
    )
}

/// The mode that the entry of the mode list stands for: the second is the
/// single-root mode, any other the two-slot mode.
pub fn selected_mode(selection: usize) -> (r: InstallMode)
    ensures
        r == if selection == 2 {
            InstallMode::Mutable
        } else {
            InstallMode::Ab
        },
{
    if selection == 2 {
        InstallMode::Mutable
    } else {
        InstallMode::Ab
    }
}

/// The mount root that an answer names: the answer without the white space
/// around it, or `/mnt` for a blank answer.
pub open spec fn chosen_mount_root(input: Seq<char>) -> Seq<char> {
    if trimmed(input).len() == 0 {
        "/mnt"@
    } else {
        trimmed(input)
    }
}

/// Reads the answer to the question for the mount root.
pub fn mount_root_or_default(input: &str) -> (r: String)
    ensures
        r@ == chosen_mount_root(input@),
{
    let answer = trim_text(input);
    if answer.as_str().unicode_len() == 0 {
        text("/mnt")
    } else {
        answer
    }
}

/// The refusal of a destructive apply whose confirming word was mistyped.
pub open spec fn mistyped_token_error(answer: Seq<char>) -> RecpartErrorModel {
    RecpartErrorModel {
        code: ErrorCode::MissingConfirmation,
        component: "tui"@,
        expectation: "confirmation token '"@ + CONFIRM_TOKEN@ + "' matches exactly"@,
        observed: "received token '"@ + answer + "'"@,
        remediation: "Re-run and type '"@ + CONFIRM_TOKEN@ + "' exactly to proceed."@,
    }
}

/// Checks what was typed as the confirming word: it must be the word,
/// white space around it aside.
pub fn ensure_typed_confirmation(input: &str) -> (r: Result<(), RecpartError>)
    ensures
        crate::preflight::verdict_is(
            r,
            if trimmed(input@) == CONFIRM_TOKEN@ {
                None
            } else {
                Some(mistyped_token_error(trimmed(input@)))
            },
        ),
{
    let answer = trim_text(input);
    if same_text(answer.as_str(), CONFIRM_TOKEN) {
        return Ok(());
    }
    let mut expectation = text("confirmation token '");
    expectation.append(CONFIRM_TOKEN);
    expectation.append("' matches exactly");
    let mut observed = text("received token '");
    observed.append(answer.as_str());
    observed.append("'");
    let mut remediation = text("Re-run and type '");
    remediation.append(CONFIRM_TOKEN);
    remediation.append("' exactly to proceed.");
    Err(
        RecpartError::new(
            ErrorCode::MissingConfirmation,
            "tui",
            expectation.as_str(),
            observed.as_str(),
            remediation.as_str(),
        ),
    )
}

/// The number of steps that progress is counted against: the steps of the
/// dry run, and one where their number is not known or zero.
pub fn progress_total(steps: Option<usize>) -> (r: usize)
    ensures
        r == match steps {
            Some(n) => if n == 0 {
                1usize
            } else {
                n
            },
            None => 1usize,
        },
{
    match steps {
        Some(n) => {
            if n == 0 {
                1
            } else {
                n
            }
        },
        None => 1,
    }
}

/// The failure of a terminal that cannot be written to or read from.
pub fn terminal_failure(expectation: &str, reason: &str, remediation: &str) -> (r: RecpartError)
    ensures
        r@ == (RecpartErrorModel {
            code: ErrorCode::Internal,
            component: "tui"@,
            expectation: expectation@,
            observed: reason@,
            remediation: remediation@,
        }),
{
    RecpartError::new(ErrorCode::Internal, "tui", expectation, reason, remediation)
}

} // verus!
