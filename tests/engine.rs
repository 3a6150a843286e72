use casio_basic::error::BasicError;
use casio_basic::machine::{Execution, Reply, Request};
use casio_basic::store::{letter_index, Environment};
use casio_basic::syntax::{ArithOp, Fragment, Node, Op, Program};
use casio_basic::value::{compare, prompt_text, truth, unquote, CmpOp, Order, NEG_ZERO, ONE, ZERO};

/// Builds a node vector, handing back each node's position.
struct Tree {
    nodes: Vec<Node>,
}

impl Tree {
    fn new() -> Tree {
        Tree { nodes: Vec::new() }
    }

    fn add(&mut self, n: Node) -> usize {
        self.nodes.push(n);
        self.nodes.len() - 1
    }

    fn num(&mut self, s: &str) -> usize {
        self.add(Node::Number(s.to_string()))
    }

    fn var(&mut self, c: char) -> usize {
        self.add(Node::Variable(c))
    }

    fn fold(&mut self, first: usize, rest: Vec<(Op, usize)>) -> usize {
        self.add(Node::Fold { first, rest })
    }

    fn assign(&mut self, expr: usize, letter: char) -> usize {
        self.add(Node::Assign { expr, letter })
    }

    fn display(&mut self, arg: usize) -> usize {
        self.add(Node::Display { arg })
    }

    fn text(&mut self, s: &str) -> usize {
        self.add(Node::Text(s.chars().collect()))
    }

    fn program(self, top: Vec<usize>) -> Program {
        Program { nodes: self.nodes, top }
    }
}

fn add(a: usize) -> (Op, usize) {
    (Op::Arith(ArithOp::Add), a)
}

fn sub(a: usize) -> (Op, usize) {
    (Op::Arith(ArithOp::Sub), a)
}

fn cmp(op: CmpOp, a: usize) -> (Op, usize) {
    (Op::Cmp(op), a)
}

fn order(a: f64, b: f64) -> Order {
    match a.partial_cmp(&b) {
        Some(std::cmp::Ordering::Less) => Order::Less,
        Some(std::cmp::Ordering::Equal) => Order::Equal,
        Some(std::cmp::Ordering::Greater) => Order::Greater,
        None => Order::Unordered,
    }
}

/// What a run printed and reported.
struct Outcome {
    lines: Vec<String>,
    prompts: Vec<String>,
    errors: Vec<BasicError>,
}

/// Runs a program to its end, answering prompts from `typed` in order and
/// giving up after `limit` moves.
fn run_with(env: &mut Environment, program: Program, mut typed: Vec<Result<Fragment, BasicError>>, limit: usize) -> Outcome {
    typed.reverse();
    let mut exec = Execution::start(program);
    let mut out = Outcome { lines: Vec::new(), prompts: Vec::new(), errors: Vec::new() };
    let mut reply = Reply::Nothing;
    for _ in 0..limit {
        let request = exec.step(env, reply);
        reply = Reply::Nothing;
        match request {
            Request::Arith { op, lhs, rhs } => {
                let (a, b) = (f64::from_bits(lhs), f64::from_bits(rhs));
                let r = match op {
                    ArithOp::Add => a + b,
                    ArithOp::Sub => a - b,
                    ArithOp::Mul => a * b,
                    ArithOp::Div => a / b,
                };
                reply = Reply::Value(r.to_bits());
            }
            Request::Compare { lhs, rhs } => {
                reply = Reply::Order(order(f64::from_bits(lhs), f64::from_bits(rhs)));
            }
            Request::Number(s) => reply = Reply::Number(s.parse::<f64>().ok().map(|x| x.to_bits())),
            Request::Show(v) => out.lines.push(format!("{}", f64::from_bits(v))),
            Request::Print(t) => out.lines.push(t.into_iter().collect()),
            Request::Prompt(t) => {
                out.prompts.push(t.into_iter().collect());
                reply = Reply::Input(typed.pop().expect("no line left to type"));
            }
            Request::Report(e) => out.errors.push(e),
            Request::Continue => {}
            Request::Done => return out,
        }
    }
    panic!("program did not finish within {} moves", limit);
}

fn run(env: &mut Environment, program: Program) -> Outcome {
    run_with(env, program, Vec::new(), 100_000)
}

fn read(env: &Environment, c: char) -> f64 {
    f64::from_bits(env.get_var(c))
}

#[test]
fn unwritten_letters_read_zero() {
    let env = Environment::new();
    for c in 'A'..='Z' {
        assert_eq!(read(&env, c), 0.0);
    }
}

#[test]
fn write_then_read_each_letter() {
    let mut env = Environment::new();
    env.set_var('Q', 2.5f64.to_bits());
    assert_eq!(read(&env, 'Q'), 2.5);
    assert_eq!(read(&env, 'P'), 0.0);
    assert_eq!(read(&env, 'R'), 0.0);
    env.set_var('Z', (-7.0f64).to_bits());
    env.set_var('A', 1.0f64.to_bits());
    assert_eq!(read(&env, 'Z'), -7.0);
    assert_eq!(read(&env, 'A'), 1.0);
    assert_eq!(read(&env, 'Q'), 2.5);
}

#[test]
fn letters_map_to_cells() {
    assert_eq!(letter_index('A'), Some(0));
    assert_eq!(letter_index('Z'), Some(25));
    assert_eq!(letter_index('a'), None);
    assert_eq!(letter_index('['), None);
    assert_eq!(letter_index('@'), None);
}

#[test]
fn truth_of_values() {
    assert!(!truth(ZERO));
    assert!(!truth(NEG_ZERO));
    assert!(truth(ONE));
    assert!(truth(f64::NAN.to_bits()));
    assert!(truth((-0.5f64).to_bits()));
    assert_eq!(ONE, 1.0f64.to_bits());
    assert_eq!(NEG_ZERO, (-0.0f64).to_bits());
}

#[test]
fn comparisons_give_one_or_zero() {
    assert_eq!(compare(CmpOp::Lt, Order::Less), ONE);
    assert_eq!(compare(CmpOp::Lt, Order::Equal), ZERO);
    assert_eq!(compare(CmpOp::Le, Order::Equal), ONE);
    assert_eq!(compare(CmpOp::Ge, Order::Less), ZERO);
    assert_eq!(compare(CmpOp::Gt, Order::Greater), ONE);
    assert_eq!(compare(CmpOp::Eq, Order::Equal), ONE);
    assert_eq!(compare(CmpOp::Eq, Order::Unordered), ZERO);
    assert_eq!(compare(CmpOp::Ne, Order::Unordered), ONE);
    assert_eq!(compare(CmpOp::Ne, Order::Equal), ZERO);
}

#[test]
fn quotes_are_stripped() {
    let lit: Vec<char> = "\"HELLO\"".chars().collect();
    assert_eq!(unquote(&lit).into_iter().collect::<String>(), "HELLO");
    assert_eq!(unquote(&"\"\"".chars().collect()).len(), 0);
    assert_eq!(prompt_text(&None).into_iter().collect::<String>(), "? ");
    let p: Vec<char> = "\"N\"".chars().collect();
    assert_eq!(prompt_text(&Some(p)).into_iter().collect::<String>(), "N? ");
}

#[test]
fn assignment_reads_before_it_writes() {
    let mut env = Environment::new();
    let mut t = Tree::new();
    let five = t.num("5");
    let s1 = t.assign(five, 'A');
    let a = t.var('A');
    let one = t.num("1");
    let sum = t.fold(a, vec![add(one)]);
    let s2 = t.assign(sum, 'A');
    let out = run(&mut env, t.program(vec![s1, s2]));
    assert!(out.errors.is_empty());
    assert_eq!(read(&env, 'A'), 6.0);
}

#[test]
fn chained_comparison_folds_from_the_left() {
    let mut env = Environment::new();
    let mut t = Tree::new();
    let one = t.num("1");
    let two = t.num("2");
    let zero = t.num("0");
    let e = t.fold(one, vec![cmp(CmpOp::Lt, two), cmp(CmpOp::Lt, zero)]);
    let d = t.display(e);
    let out = run(&mut env, t.program(vec![d]));
    assert_eq!(out.lines, vec!["0".to_string()]);
}

#[test]
fn while_loop_counts_down() {
    let mut env = Environment::new();
    let mut t = Tree::new();
    let three = t.num("3");
    let init = t.assign(three, 'A');
    let a = t.var('A');
    let zero = t.num("0");
    let cond = t.fold(a, vec![cmp(CmpOp::Ne, zero)]);
    let b = t.var('B');
    let one = t.num("1");
    let inc = t.fold(b, vec![add(one)]);
    let s_inc = t.assign(inc, 'B');
    let a2 = t.var('A');
    let one2 = t.num("1");
    let dec = t.fold(a2, vec![sub(one2)]);
    let s_dec = t.assign(dec, 'A');
    let w = t.add(Node::While { cond, body: vec![s_inc, s_dec] });
    let out = run(&mut env, t.program(vec![init, w]));
    assert!(out.errors.is_empty());
    assert_eq!(read(&env, 'A'), 0.0);
    assert_eq!(read(&env, 'B'), 3.0);
}

#[test]
fn endless_loop_keeps_running() {
    let mut env = Environment::new();
    let mut t = Tree::new();
    let one = t.num("1");
    let b = t.var('B');
    let one2 = t.num("1");
    let inc = t.fold(b, vec![add(one2)]);
    let s_inc = t.assign(inc, 'B');
    let w = t.add(Node::While { cond: one, body: vec![s_inc] });
    let program = t.program(vec![w]);
    let mut exec = Execution::start(program);
    let mut reply = Reply::Nothing;
    for _ in 0..10_000 {
        let request = exec.step(&mut env, reply);
        reply = match request {
            Request::Number(s) => Reply::Number(s.parse::<f64>().ok().map(|x| x.to_bits())),
            Request::Arith { lhs, rhs, .. } => Reply::Value((f64::from_bits(lhs) + f64::from_bits(rhs)).to_bits()),
            Request::Done => panic!("the loop ended"),
            _ => Reply::Nothing,
        };
    }
    assert!(read(&env, 'B') > 100.0);
}

#[test]
fn display_shows_value_and_text() {
    let mut env = Environment::new();
    let mut t = Tree::new();
    let two = t.num("2");
    let three = t.num("3");
    let prod = t.fold(two, vec![(Op::Arith(ArithOp::Mul), three)]);
    let one = t.num("1");
    let sum = t.fold(prod, vec![add(one)]);
    let d1 = t.display(sum);
    let hello = t.text("\"HELLO\"");
    let d2 = t.display(hello);
    let out = run(&mut env, t.program(vec![d1, d2]));
    assert_eq!(out.lines, vec!["7".to_string(), "HELLO".to_string()]);
}

#[test]
fn error_in_branch_aborts_only_its_statement() {
    let mut env = Environment::new();
    let mut t = Tree::new();
    let one = t.num("1");
    let two = t.num("2");
    let s_a2 = t.assign(two, 'A');
    let odd = t.text("\"X\"");
    let inner_if = t.add(Node::If { cond: odd, stmt: s_a2 });
    let bad = t.display(inner_if);
    let three = t.num("3");
    let s_a3 = t.assign(three, 'A');
    let block = t.add(Node::IfElse { cond: one, then_branch: vec![s_a2, bad, s_a3], else_branch: None });
    let four = t.num("4");
    let s_b4 = t.assign(four, 'B');
    let out = run(&mut env, t.program(vec![block, s_b4]));
    assert_eq!(out.errors.len(), 1);
    assert!(matches!(out.errors[0], BasicError::ParsingError));
    assert_eq!(read(&env, 'A'), 2.0);
    assert_eq!(read(&env, 'B'), 4.0);
}

#[test]
fn else_branch_runs_when_condition_is_zero() {
    let mut env = Environment::new();
    let mut t = Tree::new();
    let zero = t.num("0");
    let one = t.num("1");
    let s_then = t.assign(one, 'T');
    let two = t.num("2");
    let s_else = t.assign(two, 'E');
    let block = t.add(Node::IfElse { cond: zero, then_branch: vec![s_then], else_branch: Some(vec![s_else]) });
    let zero2 = t.num("0");
    let nine = t.num("9");
    let s_skip = t.assign(nine, 'S');
    let single = t.add(Node::If { cond: zero2, stmt: s_skip });
    let out = run(&mut env, t.program(vec![block, single]));
    assert!(out.errors.is_empty());
    assert_eq!(read(&env, 'T'), 0.0);
    assert_eq!(read(&env, 'E'), 2.0);
    assert_eq!(read(&env, 'S'), 0.0);
}

#[test]
fn division_by_zero_is_not_an_error() {
    let mut env = Environment::new();
    let mut t = Tree::new();
    let one = t.num("1");
    let zero = t.num("0");
    let q = t.fold(one, vec![(Op::Arith(ArithOp::Div), zero)]);
    let s = t.assign(q, 'D');
    let out = run(&mut env, t.program(vec![s]));
    assert!(out.errors.is_empty());
    assert!(!read(&env, 'D').is_finite());
}

#[test]
fn number_literals_parse_or_fail() {
    let mut env = Environment::new();
    let mut t = Tree::new();
    let good = t.num("2.5e1");
    let s1 = t.assign(good, 'G');
    let bad = t.num("1.2.3");
    let s2 = t.assign(bad, 'H');
    let seven = t.num("7");
    let s3 = t.assign(seven, 'K');
    let out = run(&mut env, t.program(vec![s1, s2, s3]));
    assert_eq!(out.errors.len(), 1);
    assert!(matches!(out.errors[0], BasicError::SyntaxError));
    assert_eq!(read(&env, 'G'), 25.0);
    assert_eq!(read(&env, 'H'), 0.0);
    assert_eq!(read(&env, 'K'), 7.0);
}

#[test]
fn prompt_evaluates_the_typed_expression() {
    let mut env = Environment::new();
    env.set_var('C', 10.0f64.to_bits());
    let mut t = Tree::new();
    let q = t.add(Node::Prompt(Some("\"N\"".chars().collect())));
    let s = t.assign(q, 'N');
    let q2 = t.add(Node::Prompt(None));
    let s2 = t.assign(q2, 'M');
    let mut typed = Tree::new();
    let c = typed.var('C');
    let one = typed.num("1");
    let root = typed.fold(c, vec![add(one)]);
    let frag = Fragment { nodes: typed.nodes, root };
    let frag2 = Fragment { nodes: vec![Node::Number("4".to_string())], root: 0 };
    let out = run_with(&mut env, t.program(vec![s, s2]), vec![Ok(frag), Ok(frag2)], 1000);
    assert!(out.errors.is_empty());
    assert_eq!(out.prompts, vec!["N? ".to_string(), "? ".to_string()]);
    assert_eq!(read(&env, 'N'), 11.0);
    assert_eq!(read(&env, 'M'), 4.0);
}

#[test]
fn prompt_failures_are_reported() {
    let mut env = Environment::new();
    let mut t = Tree::new();
    let q = t.add(Node::Prompt(None));
    let s = t.assign(q, 'N');
    let q2 = t.add(Node::Prompt(None));
    let s2 = t.assign(q2, 'M');
    let io = std::io::Error::new(std::io::ErrorKind::UnexpectedEof, "closed");
    let out = run_with(&mut env, t.program(vec![s, s2]), vec![Err(BasicError::SyntaxError), Err(BasicError::IOError(io))], 1000);
    assert_eq!(out.errors.len(), 2);
    assert!(matches!(out.errors[0], BasicError::SyntaxError));
    assert!(matches!(out.errors[1], BasicError::IOError(_)));
}

#[test]
fn unknown_shapes_are_parsing_errors() {
    let mut env = Environment::new();
    let mut t = Tree::new();
    let five = t.num("5");
    let bad_stmt = t.add(Node::Variable('A'));
    let s = t.assign(five, 'a');
    let out = run(&mut env, t.program(vec![bad_stmt, s, 99]));
    assert_eq!(out.errors.len(), 3);
    assert!(out.errors.iter().all(|e| matches!(e, BasicError::ParsingError)));
}

#[test]
fn finished_program_stays_done() {
    let mut env = Environment::new();
    let mut exec = Execution::start(Program { nodes: Vec::new(), top: Vec::new() });
    assert!(matches!(exec.step(&mut env, Reply::Nothing), Request::Done));
    assert!(matches!(exec.step(&mut env, Reply::Nothing), Request::Done));
}
