//! Separator options: one character that must fit in one byte.
use vstd::prelude::*;
use crate::error::Errors;

verus! {

/// The byte that a separator option stands for: its first character, when
/// that character's code fits in a byte. Later characters are ignored.
pub open spec fn separator_byte(s: Seq<char>) -> Option<u8> {
    if s.len() > 0 && (s[0] as u32) <= 255 {
        Some(s[0] as u32 as u8)
    } else {
        None
    }
}

/// Reads a separator option as one byte.
pub fn separator_to_byte(s: &str) -> (r: Result<u8, Errors>)
    ensures
        separator_byte(s@) is Some ==> r == Ok::<u8, Errors>(separator_byte(s@)->0),
        separator_byte(s@) is None ==> r is Err && r->Err_0 is InvalidSeparator,
{
    broadcast use vstd::string::axiom_spec_iter, vstd::string::next_postcondition;
    let mut chars = s.chars();
    let c = match chars.next() {
        Some(c) => c,
        None => return Err(Errors::InvalidSeparator),
    };
    let code = c as u32;
    if code <= 255 {
        Ok(code as u8)
    } else {
        Err(Errors::InvalidSeparator)
    }
}

} // verus!
