//! Classification of one diagnostic line by its structural role.
use crate::level::Normalization;
use crate::text::{
    equals,
    chars_of, digit_end, digit_end_exec, slice, space_end, space_end_exec, starts_with,
    starts_with_exec,
};
use vstd::prelude::*;

verus! {

#[derive(Clone, Copy, Debug, PartialEq, Eq, Structural)]
pub enum IndentedLineKind {
    /// `error...` or `warning...` followed by `:` or `[`.
    Heading,
    /// A gutter line; holds how many spaces can be cut based on this line.
    Code(usize),
    /// `note:`, `...`, and at later levels `help:` and note continuations.
    Note,
    /// Anything else; holds the number of leading spaces.
    Other(usize),
}

pub open spec fn is_heading(line: Seq<char>) -> bool {
    (starts_with(line, "error"@) && line.len() > 5 && (line[5] == ':' || line[5] == '['))
        || (starts_with(line, "warning"@) && line.len() > 7 && (line[7] == ':' || line[7]
        == '['))
}

pub open spec fn is_note(line: Seq<char>, previous_line_was_note: bool, level: Normalization) -> bool {
    starts_with(line, "note:"@) || line == "..."@ || (level.includes(
        Normalization::UnindentAfterHelp,
    ) && starts_with(line, "help:"@)) || (level.includes(Normalization::UnindentMultilineNote)
        && previous_line_was_note && starts_with(line, "      "@))
}

/// The gutter form after `digits` leading digits and `spaces` spaces.
pub open spec fn is_gutter(rest: Seq<char>, digits: int) -> bool {
    rest == "|"@ || starts_with(rest, "| "@) || (digits == 0 && (starts_with(rest, "--> "@)
        || starts_with(rest, "::: "@) || starts_with(rest, "= "@)))
}

/// The kind of `line`, and whether the next line follows a note.
pub open spec fn line_kind(line: Seq<char>, previous_line_was_note: bool, level: Normalization) -> (
    IndentedLineKind,
    bool,
) {
    if is_heading(line) {
        (IndentedLineKind::Heading, false)
    } else if is_note(line, previous_line_was_note, level) {
        (IndentedLineKind::Note, true)
    } else if starts_with(line, "... "@) {
        (IndentedLineKind::Code((space_end(line, 4) - 4) as usize), false)
    } else {
        let digits = digit_end(line, 0);
        let spaces = space_end(line, digits) - digits;
        let rest = line.subrange(digits + spaces, line.len() as int);
        if spaces > 0 && is_gutter(rest, digits) {
            (IndentedLineKind::Code((spaces - 1) as usize), false)
        } else {
            (IndentedLineKind::Other(if digits == 0 { spaces as usize } else { 0 }), false)
        }
    }
}

fn is_heading_exec(line: &Vec<char>) -> (r: bool)
    ensures
        r == is_heading(line@),
{
    let error = chars_of("error");
    let warning = chars_of("warning");
    (starts_with_exec(line, &error) && line.len() > 5 && (line[5] == ':' || line[5] == '['))
        || (starts_with_exec(line, &warning) && line.len() > 7 && (line[7] == ':' || line[7]
        == '['))
}

fn is_note_exec(line: &Vec<char>, previous_line_was_note: bool, level: Normalization) -> (r: bool)
    ensures
        r == is_note(line@, previous_line_was_note, level),
{
    starts_with_exec(line, &chars_of("note:")) || equals(line, &chars_of("..."))
        || (level.at_least(Normalization::UnindentAfterHelp) && starts_with_exec(
        line,
        &chars_of("help:"),
    )) || (level.at_least(Normalization::UnindentMultilineNote) && previous_line_was_note
        && starts_with_exec(line, &chars_of("      ")))
}

fn is_gutter_exec(rest: &Vec<char>, digits: usize) -> (r: bool)
    ensures
        r == is_gutter(rest@, digits as int),
{
    equals(rest, &chars_of("|")) || starts_with_exec(rest, &chars_of("| ")) || (digits == 0 && (
    starts_with_exec(rest, &chars_of("--> ")) || starts_with_exec(rest, &chars_of("::: "))
        || starts_with_exec(rest, &chars_of("= "))))
}

/// Classifies `line`; `previous_line_is_note` carries whether the line before
/// was a note, and is updated for the next line.
pub fn indented_line_kind(
    line: &Vec<char>,
    previous_line_is_note: &mut bool,
    level: Normalization,
) -> (r: IndentedLineKind)
    ensures
        (r, *final(previous_line_is_note)) == line_kind(line@, *old(previous_line_is_note), level),
{
    let previous_line_was_note = *previous_line_is_note;
    *previous_line_is_note = false;
    if is_heading_exec(line) {
        return IndentedLineKind::Heading;
    }
    if is_note_exec(line, previous_line_was_note, level) {
        *previous_line_is_note = true;
        return IndentedLineKind::Note;
    }
    if starts_with_exec(line, &chars_of("... ")) {
        proof {
            reveal_strlit("... ");
        }
        let end = space_end_exec(line, 4);
        return IndentedLineKind::Code(end - 4);
    }
    let digits = digit_end_exec(line, 0);
    let end = space_end_exec(line, digits);
    let spaces = end - digits;
    let rest = slice(line, end, line.len());
    if spaces > 0 && is_gutter_exec(&rest, digits) {
        IndentedLineKind::Code(spaces - 1)
    } else {
        IndentedLineKind::Other(if digits == 0 { spaces } else { 0 })
    }
}

} // verus!
