use vstd::prelude::*;

verus! {

/// Carried through unchanged: the failure of the interactive input stream.
#[verifier::external_type_specification]
#[verifier::external_body]
pub struct ExIoError(std::io::Error);

/// The closed set of failures of the evaluation engine.
#[derive(Debug)]
pub enum BasicError {
    /// The interactive input stream failed to deliver a line.
    IOError(std::io::Error),
    /// A syntax-tree node has a shape the executor does not expect where it stands.
    ParsingError,
    /// A number literal, or a line typed at a prompt, does not parse.
    SyntaxError,
}

} // verus!
