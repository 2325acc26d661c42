use vstd::prelude::*;

verus! {

/// The invocation tokens of a run. Token 0 is conventionally the path of the
/// executable; token 1, when present, is the combined size-and-unit string.
/// Capturing the tokens from the process environment is the caller's business:
/// this type only reads an already materialized list.
pub struct CommandLine {
    pub args: Vec<String>,
}

impl CommandLine {
    /// The token at `index`, copied out.
    pub fn get_arg(&self, index: usize) -> (r: String)
        requires
            index < self.args@.len(),
        ensures
            r@ == self.args@[index as int]@,
    {
        self.args[index].clone()
    }

    /// Returns the path of the executable.
    pub fn get_executable_path(&self) -> (r: String)
        requires
            self.args@.len() >= 1,
        ensures
            r@ == self.args@[0]@,
    {
        self.get_arg(0)
    }

    /// The size-and-unit string: token 1 when it exists, absent otherwise.
    pub fn get_size_and_unit(&self) -> (r: Option<String>)
        ensures
            self.args@.len() <= 1 ==> r is None,
            self.args@.len() >= 2 ==> (r matches Some(s) && s@ == self.args@[1]@),
    {
        if self.args.len() <= 1 {
            return None;
        }

        Some(self.get_arg(1))
    }
}

} // verus!
