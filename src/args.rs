//! The command line's input and output paths, and which input path wins.

use vstd::prelude::*;

verus! {

/// Paths given on the command line: a positional input path, an `--input`
/// path and an `--output` path, each optional.
#[derive(Debug)]
pub struct IoArgs {
    pub filepath: Option<String>,
    pub input: Option<String>,
    pub output: Option<String>,
}

/// The view of an optional path.
pub open spec fn path_view(p: Option<String>) -> Option<Seq<char>> {
    match p {
        Some(s) => Some(s@),
        None => None,
    }
}

fn clone_path(p: &Option<String>) -> (r: Option<String>)
    ensures
        path_view(r) == path_view(*p),
{
    match p {
        Some(s) => Some(s.clone()),
        None => None,
    }
}

impl IoArgs {
    /// The path to read from: `--input` where it is given, else the positional
    /// path, else none (the input then comes from standard input).
    pub fn file_override(&self) -> (r: Option<String>)
        ensures
            path_view(r) == (if self.input is Some {
                path_view(self.input)
            } else {
                path_view(self.filepath)
            }),
    {
        if self.input.is_some() {
            clone_path(&self.input)
        } else if self.filepath.is_some() {
            clone_path(&self.filepath)
        } else {
            None
        }
    }
}

} // verus!
