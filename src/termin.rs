use vstd::prelude::*;

verus! {

/// Runs free-form command lines through the shell.
pub struct Termin {}

impl Termin {
    pub fn new() -> (r: Termin) {
        Termin {  }
    }

    /// The line handed to `sh -c` for `input`: the input itself, unchanged.
    /// Nothing is run for an empty input.
    pub fn command_line(&self, input: &str) -> (r: Option<String>)
        ensures
            input@.len() == 0 ==> r is None,
            input@.len() > 0 ==> (r matches Some(s) && s@ == input@),
    {
        if input.unicode_len() == 0 {
            None
        } else {
            Some(input.to_owned())
        }
    }
}

} // verus!
