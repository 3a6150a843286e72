use vstd::prelude::*;

verus! {

// Numbers are binary64 values, held as their bit patterns.

/// Bit pattern of `0.0`.
pub const ZERO: u64 = 0;

/// Bit pattern of `-0.0`.
pub const NEG_ZERO: u64 = 0x8000_0000_0000_0000;

/// Bit pattern of `1.0`.
pub const ONE: u64 = 0x3FF0_0000_0000_0000;

/// A value counts as true when it differs from zero (`NaN` included).
pub open spec fn is_true(bits: u64) -> bool {
    bits != ZERO && bits != NEG_ZERO
}

pub fn truth(bits: u64) -> (r: bool)
    ensures
        r == is_true(bits),
{
    bits != ZERO && bits != NEG_ZERO
}

/// A comparison gives `1.0` when it holds and `0.0` when it does not.
pub open spec fn bool_value(b: bool) -> u64 {
    if b {
        ONE
    } else {
        ZERO
    }
}

/// How two binary64 values stand to each other; `Unordered` when one is `NaN`.
#[derive(Clone, Copy, Debug, PartialEq, Eq, Structural)]
pub enum Order {
    Less,
    Equal,
    Greater,
    Unordered,
}

/// The comparison operators: `=`, `≠`, `<`, `>`, `≤`, `≥`.
#[derive(Clone, Copy, Debug, PartialEq, Eq, Structural)]
pub enum CmpOp {
    Eq,
    Ne,
    Lt,
    Gt,
    Le,
    Ge,
}

pub open spec fn cmp_holds(op: CmpOp, o: Order) -> bool {
    match op {
        CmpOp::Eq => o == Order::Equal,
        CmpOp::Ne => o != Order::Equal,
        CmpOp::Lt => o == Order::Less,
        CmpOp::Gt => o == Order::Greater,
        CmpOp::Le => o == Order::Less || o == Order::Equal,
        CmpOp::Ge => o == Order::Greater || o == Order::Equal,
    }
}

/// The value of `lhs op rhs`, where `o` is how `lhs` stands to `rhs`.
pub fn compare(op: CmpOp, o: Order) -> (r: u64)
    ensures
        r == bool_value(cmp_holds(op, o)),
{
    let holds = match op {
        CmpOp::Eq => o == Order::Equal,
        CmpOp::Ne => o != Order::Equal,
        CmpOp::Lt => o == Order::Less,
        CmpOp::Gt => o == Order::Greater,
        CmpOp::Le => o == Order::Less || o == Order::Equal,
        CmpOp::Ge => o == Order::Greater || o == Order::Equal,
    };
    if holds {
        ONE
    } else {
        ZERO
    }
}

/// The text of a quoted string literal: its first and last characters dropped.
pub open spec fn unquoted(lit: Seq<char>) -> Seq<char> {
    if lit.len() >= 2 {
        lit.subrange(1, lit.len() - 1)
    } else {
        Seq::empty()
    }
}

pub fn unquote(lit: &Vec<char>) -> (r: Vec<char>)
    ensures
        r@ == unquoted(lit@),
{
    let mut r: Vec<char> = Vec::new();
    if lit.len() >= 2 {
        let end = lit.len() - 1;
        let mut k: usize = 1;
        while k < end
            invariant
                1 <= k <= end,
                end == lit@.len() - 1,
                r@ == lit@.subrange(1, k as int),
            decreases end - k,
        {
            r.push(lit[k]);
            k = k + 1;
        }
    }
    r
}

/// The view of a prompt node's optional text.
pub open spec fn lit_view(lit: Option<Vec<char>>) -> Option<Seq<char>> {
    match lit {
        Some(l) => Some(l@),
        None => None,
    }
}

/// What a prompt shows: the prompt's text, if any, then `? `.
pub open spec fn prompt_line(lit: Option<Seq<char>>) -> Seq<char> {
    match lit {
        Some(l) => unquoted(l) + seq!['?', ' '],
        None => seq!['?', ' '],
    }
}

pub fn prompt_text(lit: &Option<Vec<char>>) -> (r: Vec<char>)
    ensures
        r@ == prompt_line(lit_view(*lit)),
{
    let mut r = match lit {
        Some(l) => unquote(l),
        None => Vec::new(),
    };
    r.push('?');
    r.push(' ');
    r
}

} // verus!
