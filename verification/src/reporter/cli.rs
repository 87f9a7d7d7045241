//! The text that the console report prints for a mutant.
use vstd::prelude::*;

use crate::addressresolver::CodeLocation;
use crate::instruction::{int_text, u64_text};

verus! {

/// `n` spaces.
pub open spec fn spaces(n: nat) -> Seq<char> {
    Seq::new(n, |_i: int| ' ')
}

/// Where a mutant lies, as `file:line:column`, with as much of it as the
/// location knows; nothing without a file.
pub open spec fn position_text(file: Seq<char>, location: CodeLocation) -> Seq<char> {
    if location.file is Some {
        match location.line {
            Some(line) => file + ":"@ + int_text(line as int) + match location.column {
                Some(column) => ":"@ + int_text(column as int),
                None => Seq::empty(),
            },
            None => file,
        }
    } else {
        Seq::empty()
    }
}

/// A caret under the column of the mutant, where the location knows file,
/// line and column; nothing otherwise.
pub open spec fn column_indicator_text(location: CodeLocation) -> Seq<char> {
    match (location.file, location.line, location.column) {
        (Some(_), Some(_), Some(column)) => spaces(column as nat) + "^"@,
        _ => Seq::empty(),
    }
}

/// The position of a mutant in `file` (the reported form of its path) and
/// the caret line that marks its column.
pub fn mutant_position(file: &str, location: &CodeLocation) -> (r: (String, String))
    requires
        location.column matches Some(c) ==> c < usize::MAX,
    ensures
        r.0@ == position_text(file@, *location),
        r.1@ == column_indicator_text(*location),
{
    let mut file_line_col = String::new();
    let mut column_indicator = String::new();
    if location.file.is_some() {
        file_line_col = String::from_str(file);
        if let Some(line_nr) = location.line {
            file_line_col = file_line_col.concat(":").concat(u64_text(line_nr).as_str());
            if let Some(column) = location.column {
                file_line_col = file_line_col.concat(":").concat(u64_text(column).as_str());
                let n = column as usize;
                let mut i: usize = 0;
                while i < n
                    invariant
                        i <= n,
                        column_indicator@ == spaces(i as nat),
                    decreases n - i,
                {
                    column_indicator.append(" ");
                    proof {
                        reveal_strlit(" ");
                    }
                    i = i + 1;
                    assert(column_indicator@ =~= spaces(i as nat));
                }
                column_indicator = column_indicator.concat("^");
            }
        }
    }
    (file_line_col, column_indicator)
}

} // verus!
