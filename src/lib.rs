// An evaluation engine for a small calculator BASIC: 26 numeric variables,
// expressions over four precedence levels, assignment, conditionals, loops,
// display and prompted input.
//
// The engine is a step machine over a parsed syntax tree. Numbers are binary64
// values carried as their bit patterns; the arithmetic, comparison, literal
// parsing and console work they need is asked of the caller, one request per
// move, and handed back as a reply.

pub mod error;
pub mod machine;
pub mod store;
pub mod syntax;
pub mod value;
