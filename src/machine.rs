use vstd::prelude::*;

use crate::error::BasicError;
use crate::store::{letter_cell, letter_index, Environment};
use crate::syntax::{ArithOp, Fragment, Node, Op, Program};
use crate::value::{
    bool_value, cmp_holds, compare, is_true, lit_view, prompt_line, prompt_text, truth, unquote, unquoted, Order,
};

verus! {

/// Where a node sits: `part` 0 is the program, each later part an expression
/// that was typed at a prompt.
#[derive(Clone, Copy, Debug, PartialEq, Eq, Structural)]
pub struct Loc {
    pub part: usize,
    pub id: usize,
}

/// Which statement list of a node runs.
#[derive(Clone, Copy, Debug, PartialEq, Eq, Structural)]
pub enum Branch {
    Then,
    Else,
    Body,
}

/// What remains to be done once the work above it is finished.
#[derive(Clone, Copy, Debug, PartialEq, Eq, Structural)]
pub enum Frame {
    /// The program; `idx` is its next top-level statement.
    Program { idx: usize },
    /// A statement list; `idx` is its next statement.
    Block { at: Loc, branch: Branch, idx: usize },
    /// A loop whose body is running; its condition is tested again next.
    Repeat { at: Loc },
    /// A fold waiting for its first operand.
    FoldStart { at: Loc },
    /// A fold waiting for operand `idx` of its rest, with the value so far.
    FoldOperand { at: Loc, idx: usize, acc: u64 },
    /// A fold waiting for the result of operator `idx` of its rest.
    FoldApply { at: Loc, idx: usize },
    /// A number literal waiting for its parsed value.
    Literal,
    /// A prompt waiting for the expression that was typed.
    Prompt,
    /// An assignment waiting for the value of its expression.
    Assign { letter: char },
    /// A single guarded statement waiting for its condition.
    If { at: Loc },
    /// A guarded list waiting for its condition.
    IfElse { at: Loc },
    /// A loop waiting for its condition.
    WhileTest { at: Loc },
    /// A display waiting for the value to show.
    Display,
}

/// What the machine does next.
#[derive(Clone, Copy, Debug, PartialEq, Eq, Structural)]
pub enum Mode {
    /// Evaluate an expression node.
    Eval(Loc),
    /// Execute a statement node.
    Exec(Loc),
    /// Hand a value to the top frame.
    Value(u64),
    /// A statement has finished: the top frame picks the next one.
    Resume,
    /// Wait for the answer to the last request.
    Awaiting,
    /// The program has run to its end.
    Halted,
}

/// Work the machine asks of its caller.
#[derive(Debug)]
pub enum Request {
    /// Compute `lhs op rhs` in binary64 and answer `Reply::Value`.
    Arith { op: ArithOp, lhs: u64, rhs: u64 },
    /// Compare `lhs` with `rhs` in binary64 and answer `Reply::Order`.
    Compare { lhs: u64, rhs: u64 },
    /// Parse a number literal as binary64 and answer `Reply::Number`.
    Number(String),
    /// Print a value on a line of its own.
    Show(u64),
    /// Print a text on a line of its own.
    Print(Vec<char>),
    /// Print this text, flush, read a line, parse it as an expression and answer
    /// `Reply::Input`.
    Prompt(Vec<char>),
    /// Report a failed top-level statement; the program goes on with the next one.
    Report(BasicError),
    /// Nothing to do but step again.
    Continue,
    /// The program has finished.
    Done,
}

/// The caller's answer to the last request.
#[derive(Debug)]
pub enum Reply {
    Nothing,
    Value(u64),
    Order(Order),
    Number(Option<u64>),
    Input(Result<Fragment, BasicError>),
}

/// The run of one program unit against a variable store.
pub struct Execution {
    pub parts: Vec<Vec<Node>>,
    pub top: Vec<usize>,
    pub frames: Vec<Frame>,
    pub mode: Mode,
}

pub open spec fn node_at(parts: Seq<Vec<Node>>, at: Loc) -> Option<Node> {
    if at.part < parts.len() && at.id < parts[at.part as int]@.len() {
        Some(parts[at.part as int]@[at.id as int])
    } else {
        None
    }
}

/// Operand `idx` of a fold's rest with its operator; `Some(None)` just past the end.
pub open spec fn operand_of(n: Option<Node>, idx: int) -> Option<Option<(Op, usize)>> {
    match n {
        Some(Node::Fold { first, rest }) => if 0 <= idx < rest@.len() {
            Some(Some(rest@[idx]))
        } else if idx == rest@.len() {
            Some(None)
        } else {
            None
        },
        _ => None,
    }
}

/// The statement list that `b` selects in a node, if the node has it.
pub open spec fn branch_of(n: Option<Node>, b: Branch) -> Option<Seq<usize>> {
    match (n, b) {
        (Some(Node::IfElse { then_branch, .. }), Branch::Then) => Some(then_branch@),
        (Some(Node::IfElse { else_branch: Some(l), .. }), Branch::Else) => Some(l@),
        (Some(Node::While { body, .. }), Branch::Body) => Some(body@),
        _ => None,
    }
}


/// Starting on an expression node.
pub open spec fn on_eval(pre: Execution, post: Execution, env: Environment, at: Loc, r: Request) -> bool {
    match pre.node(at) {
        Some(Node::Number(t)) => {
            &&& r == Request::Number(t)
            &&& post.frames@ == pre.frames@.push(Frame::Literal)
            &&& post.mode == Mode::Awaiting
        },
        Some(Node::Variable(c)) => match letter_cell(c) {
            Some(i) => post.mode == Mode::Value(env.value(i)) && post.frames == pre.frames && r
                is Continue,
            None => r == Request::Report(BasicError::ParsingError),
        },
        Some(Node::Prompt(lit)) => {
            &&& r matches Request::Prompt(t) && t@ == prompt_line(lit_view(lit))
            &&& post.frames@ == pre.frames@.push(Frame::Prompt)
            &&& post.mode == Mode::Awaiting
        },
        Some(Node::Fold { first, .. }) => {
            &&& post.frames@ == pre.frames@.push(Frame::FoldStart { at })
            &&& post.mode == Mode::Eval(Loc { part: at.part, id: first })
            &&& r is Continue
        },
        _ => r == Request::Report(BasicError::ParsingError),
    }
}

/// Starting on a statement node.
pub open spec fn on_exec(pre: Execution, post: Execution, at: Loc, r: Request) -> bool {
    match pre.node(at) {
        Some(Node::Assign { expr, letter }) => if letter_cell(letter) is Some {
            &&& post.frames@ == pre.frames@.push(Frame::Assign { letter })
            &&& post.mode == Mode::Eval(Loc { part: at.part, id: expr })
            &&& r is Continue
        } else {
            r == Request::Report(BasicError::ParsingError)
        },
        Some(Node::If { cond, .. }) => {
            &&& post.frames@ == pre.frames@.push(Frame::If { at })
            &&& post.mode == Mode::Eval(Loc { part: at.part, id: cond })
            &&& r is Continue
        },
        Some(Node::IfElse { cond, .. }) => {
            &&& post.frames@ == pre.frames@.push(Frame::IfElse { at })
            &&& post.mode == Mode::Eval(Loc { part: at.part, id: cond })
            &&& r is Continue
        },
        Some(Node::While { cond, .. }) => {
            &&& post.frames@ == pre.frames@.push(Frame::WhileTest { at })
            &&& post.mode == Mode::Eval(Loc { part: at.part, id: cond })
            &&& r is Continue
        },
        Some(Node::Display { arg }) => match pre.node(Loc { part: at.part, id: arg }) {
            Some(Node::Text(lit)) => {
                &&& r matches Request::Print(t) && t@ == unquoted(lit@)
                &&& post.frames == pre.frames
                &&& post.mode == Mode::Resume
            },
            _ => {
                &&& post.frames@ == pre.frames@.push(Frame::Display)
                &&& post.mode == Mode::Eval(Loc { part: at.part, id: arg })
                &&& r is Continue
            },
        },
        _ => r == Request::Report(BasicError::ParsingError),
    }
}

/// Where a fold goes once operand `idx` has been combined into `w`.
pub open spec fn fold_goes_on(pre: Execution, post: Execution, at: Loc, idx: int, w: u64) -> bool {
    match operand_of(pre.node(at), idx + 1) {
        Some(None) => post.frames@ == pre.frames@.drop_last() && post.mode == Mode::Value(w),
        Some(Some((_, id))) => {
            &&& post.frames@ == pre.frames@.drop_last().push(
                Frame::FoldOperand { at, idx: (idx + 1) as usize, acc: w },
            )
            &&& post.mode == Mode::Eval(Loc { part: at.part, id })
        },
        None => false,
    }
}

/// Handing the value `v` to the top frame.
pub open spec fn on_value(
    pre: Execution,
    post: Execution,
    env0: Environment,
    env1: Environment,
    v: u64,
    r: Request,
) -> bool {
    &&& match pre.top_frame() {
        Frame::Assign { letter } => letter_cell(letter) is Some ==> {
            &&& env1.cells@ == env0.cells@.update(letter_cell(letter)->0, v)
            &&& post.frames@ == pre.frames@.drop_last()
            &&& post.mode == Mode::Resume
            &&& r is Continue
        },
        _ => env1 == env0,
    }
    &&& match pre.top_frame() {
        Frame::FoldStart { at } => match operand_of(pre.node(at), 0) {
            Some(None) => post.frames@ == pre.frames@.drop_last() && post.mode == Mode::Value(v)
                && r is Continue,
            Some(Some((_, id))) => {
                &&& post.frames@ == pre.frames@.drop_last().push(
                    Frame::FoldOperand { at, idx: 0, acc: v },
                )
                &&& post.mode == Mode::Eval(Loc { part: at.part, id })
                &&& r is Continue
            },
            None => r == Request::Report(BasicError::ParsingError),
        },
        Frame::FoldOperand { at, idx, acc } => match operand_of(pre.node(at), idx as int) {
            Some(Some((Op::Arith(op), _))) => {
                &&& r == Request::Arith { op, lhs: acc, rhs: v }
                &&& post.frames@ == pre.frames@.drop_last().push(Frame::FoldApply { at, idx })
                &&& post.mode == Mode::Awaiting
            },
            Some(Some((Op::Cmp(_), _))) => {
                &&& r == Request::Compare { lhs: acc, rhs: v }
                &&& post.frames@ == pre.frames@.drop_last().push(Frame::FoldApply { at, idx })
                &&& post.mode == Mode::Awaiting
            },
            _ => r == Request::Report(BasicError::ParsingError),
        },
        Frame::If { at } => match pre.node(at) {
            Some(Node::If { stmt, .. }) => {
                &&& post.frames@ == pre.frames@.drop_last()
                &&& post.mode == if is_true(v) {
                    Mode::Exec(Loc { part: at.part, id: stmt })
                } else {
                    Mode::Resume
                }
                &&& r is Continue
            },
            _ => r == Request::Report(BasicError::ParsingError),
        },
        Frame::IfElse { at } => {
            &&& post.mode == Mode::Resume
            &&& r is Continue
            &&& is_true(v) ==> post.frames@ == pre.frames@.drop_last().push(
                Frame::Block { at, branch: Branch::Then, idx: 0 },
            )
            &&& !is_true(v) && branch_of(pre.node(at), Branch::Else) is Some
                ==> post.frames@ == pre.frames@.drop_last().push(
                Frame::Block { at, branch: Branch::Else, idx: 0 },
            )
            &&& !is_true(v) && branch_of(pre.node(at), Branch::Else) is None
                ==> post.frames@ == pre.frames@.drop_last()
        },
        Frame::WhileTest { at } => {
            &&& post.mode == Mode::Resume
            &&& r is Continue
            &&& is_true(v) ==> post.frames@ == pre.frames@.drop_last().push(
                Frame::Repeat { at },
            ).push(Frame::Block { at, branch: Branch::Body, idx: 0 })
            &&& !is_true(v) ==> post.frames@ == pre.frames@.drop_last()
        },
        Frame::Display => {
            &&& r == Request::Show(v)
            &&& post.frames@ == pre.frames@.drop_last()
            &&& post.mode == Mode::Resume
        },
        Frame::Assign { letter } => letter_cell(letter) is None ==> r == Request::Report(
            BasicError::ParsingError,
        ),
        _ => r == Request::Report(BasicError::ParsingError),
    }
}

/// A statement has finished: the top frame picks what runs next.
pub open spec fn on_resume(pre: Execution, post: Execution, r: Request) -> bool {
    match pre.top_frame() {
        Frame::Program { idx } => if idx < pre.top@.len() {
            &&& post.frames@ == pre.frames@.drop_last().push(Frame::Program { idx: (idx + 1) as usize })
            &&& post.mode == Mode::Exec(Loc { part: 0, id: pre.top@[idx as int] })
            &&& r is Continue
        } else {
            post.mode == Mode::Halted && r is Done
        },
        Frame::Block { at, branch, idx } => match branch_of(pre.node(at), branch) {
            Some(l) => if idx < l.len() {
                &&& post.frames@ == pre.frames@.drop_last().push(
                    Frame::Block { at, branch, idx: (idx + 1) as usize },
                )
                &&& post.mode == Mode::Exec(Loc { part: at.part, id: l[idx as int] })
                &&& r is Continue
            } else {
                post.frames@ == pre.frames@.drop_last() && post.mode == Mode::Resume && r is Continue
            },
            None => r == Request::Report(BasicError::ParsingError),
        },
        Frame::Repeat { at } => post.frames@ == pre.frames@.drop_last() && post.mode == Mode::Exec(
            at,
        ) && r is Continue,
        _ => r == Request::Report(BasicError::ParsingError),
    }
}

/// The caller has answered the last request.
pub open spec fn on_reply(pre: Execution, post: Execution, reply: Reply, r: Request) -> bool {
    match (pre.top_frame(), reply) {
        (Frame::Literal, Reply::Number(Some(x))) => post.frames@ == pre.frames@.drop_last()
            && post.mode == Mode::Value(x) && r is Continue,
        (Frame::Literal, Reply::Number(None)) => r == Request::Report(BasicError::SyntaxError),
        (Frame::Prompt, Reply::Input(Ok(f))) => {
            &&& post.parts@ == pre.parts@.push(f.nodes)
            &&& post.frames@ == pre.frames@.drop_last()
            &&& post.mode == Mode::Eval(Loc { part: pre.parts@.len() as usize, id: f.root })
            &&& r is Continue
        },
        (Frame::Prompt, Reply::Input(Err(e))) => r == Request::Report(e),
        (Frame::FoldApply { at, idx }, Reply::Value(x)) => match operand_of(
            pre.node(at),
            idx as int,
        ) {
            Some(Some((Op::Arith(_), _))) => fold_goes_on(pre, post, at, idx as int, x) && r is Continue,
            _ => r == Request::Report(BasicError::ParsingError),
        },
        (Frame::FoldApply { at, idx }, Reply::Order(o)) => match operand_of(
            pre.node(at),
            idx as int,
        ) {
            Some(Some((Op::Cmp(c), _))) => fold_goes_on(
                pre,
                post,
                at,
                idx as int,
                bool_value(cmp_holds(c, o)),
            ) && r is Continue,
            _ => r == Request::Report(BasicError::ParsingError),
        },
        _ => r == Request::Report(BasicError::ParsingError),
    }
}

impl Execution {
    pub open spec fn wf(&self) -> bool {
        &&& self.frames@.len() >= 1
        &&& self.frames@[0] is Program
    }

    pub open spec fn node(&self, at: Loc) -> Option<Node> {
        node_at(self.parts@, at)
    }

    pub open spec fn top_frame(&self) -> Frame {
        self.frames@.last()
    }

    /// Starts a program at its first top-level statement.
    pub fn start(program: Program) -> (r: Execution)
        ensures
            r.wf(),
            r.frames@ == seq![Frame::Program { idx: 0 }],
            r.mode == Mode::Resume,
            r.parts@.len() == 1,
            r.parts@[0]@ == program.nodes@,
            r.top@ == program.top@,
    {
        let mut parts: Vec<Vec<Node>> = Vec::new();
        parts.push(program.nodes);
        let mut frames: Vec<Frame> = Vec::new();
        frames.push(Frame::Program { idx: 0 });
        Execution { parts, top: program.top, frames, mode: Mode::Resume }
    }

    fn locate(&self, at: Loc) -> (r: bool)
        ensures
            r == (self.node(at) is Some),
    {
        at.part < self.parts.len() && at.id < self.parts[at.part].len()
    }

    fn operand(&self, at: Loc, idx: usize) -> (r: Option<Option<(Op, usize)>>)
        ensures
            r == operand_of(self.node(at), idx as int),
            r matches Some(Some(_)) ==> idx < usize::MAX,
    {
        if !self.locate(at) {
            return None;
        }
        match &self.parts[at.part][at.id] {
            Node::Fold { rest, .. } => {
                if idx < rest.len() {
                    Some(Some(rest[idx]))
                } else if idx == rest.len() {
                    Some(None)
                } else {
                    None
                }
            },
            _ => None,
        }
    }

    fn entry(&self, at: Loc, b: Branch, idx: usize) -> (r: Option<Option<usize>>)
        ensures
            r == match branch_of(self.node(at), b) {
                Some(l) => if idx < l.len() {
                    Some(Some(l[idx as int]))
                } else {
                    Some(None)
                },
                None => None,
            },
            r matches Some(Some(_)) ==> idx < usize::MAX,
    {
        if !self.locate(at) {
            return None;
        }
        let list: Option<&Vec<usize>> = match (&self.parts[at.part][at.id], b) {
            (Node::IfElse { then_branch, .. }, Branch::Then) => Some(then_branch),
            (Node::IfElse { else_branch: Some(l), .. }, Branch::Else) => Some(l),
            (Node::While { body, .. }, Branch::Body) => Some(body),
            _ => None,
        };
        match list {
            Some(l) => if idx < l.len() {
                Some(Some(l[idx]))
            } else {
                Some(None)
            },
            None => None,
        }
    }

    /// Abandons the top-level statement under way: every frame above the
    /// program's goes, the store keeps what was written before.
    fn fail(&mut self, e: BasicError) -> (r: Request)
        requires
            old(self).wf(),
        ensures
            final(self).wf(),
            final(self).frames@ == seq![old(self).frames@[0]],
            final(self).mode == Mode::Resume,
            final(self).parts == old(self).parts,
            final(self).top == old(self).top,
            r == Request::Report(e),
    {
        self.frames.truncate(1);
        assert(self.frames@ =~= seq![old(self).frames@[0]]);
        self.mode = Mode::Resume;
        Request::Report(e)
    }
}


impl Execution {
    fn eval_node(&mut self, env: &Environment, at: Loc) -> (r: Request)
        requires
            old(self).wf(),
            env.wf(),
        ensures
            final(self).wf(),
            final(self).parts == old(self).parts,
            final(self).top == old(self).top,
            on_eval(*old(self), *final(self), *env, at, r),
            r is Report ==> final(self).frames@ == seq![old(self).frames@[0]]
                && final(self).mode == Mode::Resume,
    {
        if !self.locate(at) {
            return self.fail(BasicError::ParsingError);
        }
        let p = at.part;
        match &self.parts[p][at.id] {
            Node::Number(text) => {
                let t = text.clone();
                self.frames.push(Frame::Literal);
                self.mode = Mode::Awaiting;
                Request::Number(t)
            },
            Node::Variable(c) => match letter_index(*c) {
                Some(i) => {
                    self.mode = Mode::Value(env.cells[i]);
                    Request::Continue
                },
                None => self.fail(BasicError::ParsingError),
            },
            Node::Prompt(lit) => {
                let t = prompt_text(lit);
                self.frames.push(Frame::Prompt);
                self.mode = Mode::Awaiting;
                Request::Prompt(t)
            },
            Node::Fold { first, .. } => {
                let f = *first;
                self.frames.push(Frame::FoldStart { at });
                self.mode = Mode::Eval(Loc { part: p, id: f });
                Request::Continue
            },
            _ => self.fail(BasicError::ParsingError),
        }
    }
}


impl Execution {
    fn exec_node(&mut self, at: Loc) -> (r: Request)
        requires
            old(self).wf(),
        ensures
            final(self).wf(),
            final(self).parts == old(self).parts,
            final(self).top == old(self).top,
            on_exec(*old(self), *final(self), at, r),
            r is Report ==> final(self).frames@ == seq![old(self).frames@[0]]
                && final(self).mode == Mode::Resume,
    {
        if !self.locate(at) {
            return self.fail(BasicError::ParsingError);
        }
        let p = at.part;
        match &self.parts[p][at.id] {
            Node::Assign { expr, letter } => {
                let (e, l) = (*expr, *letter);
                if letter_index(l).is_none() {
                    return self.fail(BasicError::ParsingError);
                }
                self.frames.push(Frame::Assign { letter: l });
                self.mode = Mode::Eval(Loc { part: p, id: e });
                Request::Continue
            },
            Node::If { cond, .. } => {
                let c = *cond;
                self.frames.push(Frame::If { at });
                self.mode = Mode::Eval(Loc { part: p, id: c });
                Request::Continue
            },
            Node::IfElse { cond, .. } => {
                let c = *cond;
                self.frames.push(Frame::IfElse { at });
                self.mode = Mode::Eval(Loc { part: p, id: c });
                Request::Continue
            },
            Node::While { cond, .. } => {
                let c = *cond;
                self.frames.push(Frame::WhileTest { at });
                self.mode = Mode::Eval(Loc { part: p, id: c });
                Request::Continue
            },
            Node::Display { arg } => {
                let a = Loc { part: p, id: *arg };
                if a.id < self.parts[p].len() {
                    if let Node::Text(lit) = &self.parts[p][a.id] {
                        let t = unquote(lit);
                        self.mode = Mode::Resume;
                        return Request::Print(t);
                    }
                }
                self.frames.push(Frame::Display);
                self.mode = Mode::Eval(a);
                Request::Continue
            },
            _ => self.fail(BasicError::ParsingError),
        }
    }

    fn resume(&mut self) -> (r: Request)
        requires
            old(self).wf(),
        ensures
            final(self).wf(),
            final(self).parts == old(self).parts,
            final(self).top == old(self).top,
            on_resume(*old(self), *final(self), r),
            r is Report ==> final(self).frames@ == seq![old(self).frames@[0]]
                && final(self).mode == Mode::Resume,
    {
        let n = self.frames.len();
        match self.frames[n - 1] {
            Frame::Program { idx } => {
                if idx < self.top.len() {
                    let s = self.top[idx];
                    self.frames.set(n - 1, Frame::Program { idx: idx + 1 });
                    assert(self.frames@ =~= old(self).frames@.drop_last().push(
                        Frame::Program { idx: (idx + 1) as usize },
                    ));
                    self.mode = Mode::Exec(Loc { part: 0, id: s });
                    Request::Continue
                } else {
                    self.mode = Mode::Halted;
                    Request::Done
                }
            },
            Frame::Block { at, branch, idx } => match self.entry(at, branch, idx) {
                Some(Some(s)) => {
                    self.frames.set(n - 1, Frame::Block { at, branch, idx: idx + 1 });
                    assert(self.frames@ =~= old(self).frames@.drop_last().push(
                        Frame::Block { at, branch, idx: (idx + 1) as usize },
                    ));
                    self.mode = Mode::Exec(Loc { part: at.part, id: s });
                    Request::Continue
                },
                Some(None) => {
                    self.frames.pop();
                    self.mode = Mode::Resume;
                    Request::Continue
                },
                None => self.fail(BasicError::ParsingError),
            },
            Frame::Repeat { at } => {
                self.frames.pop();
                self.mode = Mode::Exec(at);
                Request::Continue
            },
            _ => self.fail(BasicError::ParsingError),
        }
    }
}


impl Execution {
    fn has_else(&self, at: Loc) -> (r: bool)
        ensures
            r == (branch_of(self.node(at), Branch::Else) is Some),
    {
        if !self.locate(at) {
            return false;
        }
        match &self.parts[at.part][at.id] {
            Node::IfElse { else_branch: Some(_), .. } => true,
            _ => false,
        }
    }

    fn deliver(&mut self, env: &mut Environment, v: u64) -> (r: Request)
        requires
            old(self).wf(),
            old(env).wf(),
        ensures
            final(self).wf(),
            final(env).wf(),
            final(self).parts == old(self).parts,
            final(self).top == old(self).top,
            on_value(*old(self), *final(self), *old(env), *final(env), v, r),
            r is Report ==> final(self).frames@ == seq![old(self).frames@[0]]
                && final(self).mode == Mode::Resume && *final(env) == *old(env),
    {
        let n = self.frames.len();
        match self.frames[n - 1] {
            Frame::FoldStart { at } => match self.operand(at, 0) {
                Some(None) => {
                    self.frames.pop();
                    self.mode = Mode::Value(v);
                    Request::Continue
                },
                Some(Some((_, id))) => {
                    self.frames.set(n - 1, Frame::FoldOperand { at, idx: 0, acc: v });
                    assert(self.frames@ =~= old(self).frames@.drop_last().push(
                        Frame::FoldOperand { at, idx: 0, acc: v },
                    ));
                    self.mode = Mode::Eval(Loc { part: at.part, id });
                    Request::Continue
                },
                None => self.fail(BasicError::ParsingError),
            },
            Frame::FoldOperand { at, idx, acc } => match self.operand(at, idx) {
                Some(Some((op, _))) => {
                    self.frames.set(n - 1, Frame::FoldApply { at, idx });
                    assert(self.frames@ =~= old(self).frames@.drop_last().push(
                        Frame::FoldApply { at, idx },
                    ));
                    self.mode = Mode::Awaiting;
                    match op {
                        Op::Arith(a) => Request::Arith { op: a, lhs: acc, rhs: v },
                        Op::Cmp(_) => Request::Compare { lhs: acc, rhs: v },
                    }
                },
                _ => self.fail(BasicError::ParsingError),
            },
            Frame::Assign { letter } => {
                if letter_index(letter).is_none() {
                    return self.fail(BasicError::ParsingError);
                }
                env.set_var(letter, v);
                self.frames.pop();
                self.mode = Mode::Resume;
                Request::Continue
            },
            Frame::If { at } => {
                if !self.locate(at) {
                    return self.fail(BasicError::ParsingError);
                }
                let stmt = match &self.parts[at.part][at.id] {
                    Node::If { stmt, .. } => *stmt,
                    _ => {
                        return self.fail(BasicError::ParsingError);
                    },
                };
                self.frames.pop();
                self.mode = if truth(v) {
                    Mode::Exec(Loc { part: at.part, id: stmt })
                } else {
                    Mode::Resume
                };
                Request::Continue
            },
            Frame::IfElse { at } => {
                self.frames.pop();
                if truth(v) {
                    self.frames.push(Frame::Block { at, branch: Branch::Then, idx: 0 });
                } else if self.has_else(at) {
                    self.frames.push(Frame::Block { at, branch: Branch::Else, idx: 0 });
                }
                self.mode = Mode::Resume;
                Request::Continue
            },
            Frame::WhileTest { at } => {
                self.frames.pop();
                if truth(v) {
                    self.frames.push(Frame::Repeat { at });
                    self.frames.push(Frame::Block { at, branch: Branch::Body, idx: 0 });
                }
                self.mode = Mode::Resume;
                Request::Continue
            },
            Frame::Display => {
                self.frames.pop();
                self.mode = Mode::Resume;
                Request::Show(v)
            },
            _ => self.fail(BasicError::ParsingError),
        }
    }

    /// Carries a fold on once operand `idx` has been combined into `w`.
    fn fold_on(&mut self, at: Loc, idx: usize, w: u64) -> (r: Request)
        requires
            old(self).wf(),
            old(self).frames@.len() >= 2,
            idx < usize::MAX,
            operand_of(old(self).node(at), idx as int) is Some,
            operand_of(old(self).node(at), idx as int)->0 is Some,
        ensures
            final(self).wf(),
            final(self).parts == old(self).parts,
            final(self).top == old(self).top,
            fold_goes_on(*old(self), *final(self), at, idx as int, w),
            r is Continue,
    {
        let n = self.frames.len();
        match self.operand(at, idx + 1) {
            Some(Some((_, id))) => {
                self.frames.set(n - 1, Frame::FoldOperand { at, idx: idx + 1, acc: w });
                assert(self.frames@ =~= old(self).frames@.drop_last().push(
                    Frame::FoldOperand { at, idx: (idx + 1) as usize, acc: w },
                ));
                self.mode = Mode::Eval(Loc { part: at.part, id });
            },
            _ => {
                self.frames.pop();
                self.mode = Mode::Value(w);
            },
        }
        Request::Continue
    }

    fn answer(&mut self, reply: Reply) -> (r: Request)
        requires
            old(self).wf(),
        ensures
            final(self).wf(),
            final(self).top == old(self).top,
            on_reply(*old(self), *final(self), reply, r),
            !(old(self).top_frame() is Prompt) ==> final(self).parts == old(self).parts,
            r is Report ==> final(self).frames@ == seq![old(self).frames@[0]]
                && final(self).mode == Mode::Resume && final(self).parts == old(self).parts,
    {
        let n = self.frames.len();
        match (self.frames[n - 1], reply) {
            (Frame::Literal, Reply::Number(Some(x))) => {
                self.frames.pop();
                self.mode = Mode::Value(x);
                Request::Continue
            },
            (Frame::Literal, Reply::Number(None)) => self.fail(BasicError::SyntaxError),
            (Frame::Prompt, Reply::Input(Ok(f))) => {
                let part = self.parts.len();
                self.parts.push(f.nodes);
                self.frames.pop();
                self.mode = Mode::Eval(Loc { part, id: f.root });
                Request::Continue
            },
            (Frame::Prompt, Reply::Input(Err(e))) => self.fail(e),
            (Frame::FoldApply { at, idx }, Reply::Value(x)) => match self.operand(at, idx) {
                Some(Some((Op::Arith(_), _))) => self.fold_on(at, idx, x),
                _ => self.fail(BasicError::ParsingError),
            },
            (Frame::FoldApply { at, idx }, Reply::Order(o)) => match self.operand(at, idx) {
                Some(Some((Op::Cmp(c), _))) => {
                    let w = compare(c, o);
                    self.fold_on(at, idx, w)
                },
                _ => self.fail(BasicError::ParsingError),
            },
            _ => self.fail(BasicError::ParsingError),
        }
    }
}


impl Execution {
    /// Makes one move of the machine. `reply` answers the last request; it is
    /// read only while the machine awaits an answer. A failed statement comes
    /// back as `Request::Report`: the program then goes on with the next
    /// top-level statement, and the store keeps every write made before.
    pub fn step(&mut self, env: &mut Environment, reply: Reply) -> (r: Request)
        requires
            old(self).wf(),
            old(env).wf(),
        ensures
            final(self).wf(),
            final(env).wf(),
            final(self).top == old(self).top,
            match old(self).mode {
                Mode::Eval(at) => on_eval(*old(self), *final(self), *old(env), at, r),
                Mode::Exec(at) => on_exec(*old(self), *final(self), at, r),
                Mode::Value(v) => on_value(*old(self), *final(self), *old(env), *final(env), v, r),
                Mode::Resume => on_resume(*old(self), *final(self), r),
                Mode::Awaiting => on_reply(*old(self), *final(self), reply, r),
                Mode::Halted => r is Done && *final(self) == *old(self),
            },
            !(old(self).mode is Value) ==> *final(env) == *old(env),
            !(old(self).mode is Awaiting) ==> final(self).parts == old(self).parts,
            !(old(self).top_frame() is Prompt) ==> final(self).parts == old(self).parts,
            r is Report ==> {
                &&& final(self).frames@ == seq![old(self).frames@[0]]
                &&& final(self).mode == Mode::Resume
                &&& final(self).parts == old(self).parts
                &&& *final(env) == *old(env)
            },
    {
        match self.mode {
            Mode::Eval(at) => self.eval_node(env, at),
            Mode::Exec(at) => self.exec_node(at),
            Mode::Value(v) => self.deliver(env, v),
            Mode::Resume => self.resume(),
            Mode::Awaiting => self.answer(reply),
            Mode::Halted => Request::Done,
        }
    }
}

/// A failed statement does not end the program: once `step` has reported it,
/// the next move starts the next top-level statement, or ends the program
/// when none is left.
pub proof fn failure_resumes_at_next_statement(
    pre: Execution,
    failed: Execution,
    next: Execution,
    r: Request,
)
    requires
        pre.wf(),
        failed.frames@ == seq![pre.frames@[0]],
        failed.mode == Mode::Resume,
        failed.top == pre.top,
        on_resume(failed, next, r),
    ensures
        match pre.frames@[0] {
            Frame::Program { idx } => if idx < pre.top@.len() {
                &&& next.mode == Mode::Exec(Loc { part: 0, id: pre.top@[idx as int] })
                &&& next.frames@ == seq![Frame::Program { idx: (idx + 1) as usize }]
                &&& r is Continue
            } else {
                next.mode == Mode::Halted && r is Done
            },
            _ => false,
        },
{
    assert(failed.top_frame() == pre.frames@[0]);
    assert(failed.frames@.drop_last() =~= Seq::<Frame>::empty());
}

/// An assignment writes only once its whole expression has been evaluated:
/// a value handed to any frame but an assignment's leaves the store as it
/// was (and `step` changes the store in no other mode).
pub proof fn store_written_only_by_finished_assignment(
    pre: Execution,
    post: Execution,
    env0: Environment,
    env1: Environment,
    v: u64,
    r: Request,
)
    requires
        on_value(pre, post, env0, env1, v, r),
        !(pre.top_frame() is Assign),
    ensures
        env1 == env0,
{
}

} // verus!
