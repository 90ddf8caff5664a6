//! The debugger's command and expression values, and the evaluator for
//! expressions over the machine's registers and memory.
//!
//! The command grammar itself is an external collaborator; this module
//! only defines the values it produces and what they mean.
use vstd::prelude::*;

use crate::abstract_machine::{MMIODevice, MemModel, Readable, RegInfo};
use crate::mem_model::{read64, RegionModel};

verus! {

use vstd::wrapping::u64_specs;

/// A debugger command.
#[derive(Debug, PartialEq, Eq)]
pub enum SDB {
    H,
    C,
    Q,
    Si(usize),
    Info(SUBCMD),
    X(usize, Expr),
    W(Expr),
    D(usize),
}

/// The object of an `info` command.
#[derive(Debug, Clone, Copy, PartialEq, Eq, Structural)]
pub enum SUBCMD {
    Reg,
    Mem,
    Csr,
}

/// A debugger expression: register and memory reads, comparisons, and
/// 64-bit arithmetic.
#[derive(Debug, PartialEq, Eq)]
pub enum Expr {
    Reg(String),
    Num(u64),
    Deref(Box<Expr>),
    And(Box<Expr>, Box<Expr>),
    Or(Box<Expr>, Box<Expr>),
    Leq(Box<Expr>, Box<Expr>),
    Lt(Box<Expr>, Box<Expr>),
    Geq(Box<Expr>, Box<Expr>),
    Gt(Box<Expr>, Box<Expr>),
    Eq(Box<Expr>, Box<Expr>),
    Ne(Box<Expr>, Box<Expr>),
    Add(Box<Expr>, Box<Expr>),
    Sub(Box<Expr>, Box<Expr>),
    Mul(Box<Expr>, Box<Expr>),
    Div(Box<Expr>, Box<Expr>),
    Mod(Box<Expr>, Box<Expr>),
    Pow(Box<Expr>, Box<Expr>),
}

/// Exponentiation that wraps like repeated 64-bit multiplication.
pub open spec fn spec_wpow(base: u64, exp: u32) -> u64
    decreases exp,
{
    if exp == 0 {
        1u64
    } else {
        u64_specs::wrapping_mul(spec_wpow(base, (exp - 1) as u32), base)
    }
}

/// What an expression evaluates to over a machine and a memory fabric.
/// A failed register lookup, a failed memory read, or a division or
/// remainder by zero yields nothing; arithmetic wraps.
pub open spec fn eval_spec<R: RegInfo>(e: Expr, machine: &R, mem: Seq<RegionModel>) -> Option<u64>
    decreases e,
{
    match e {
        Expr::Reg(r) => machine.spec_reg_value(r@),
        Expr::Num(n) => Some(n),
        Expr::Deref(a) => match eval_spec(*a, machine, mem) {
            Some(v) => read64(mem, v as usize),
            None => None,
        },
        Expr::And(a, b) => eval_bin(eval_spec(*a, machine, mem), eval_spec(*b, machine, mem), BinOp::And),
        Expr::Or(a, b) => eval_bin(eval_spec(*a, machine, mem), eval_spec(*b, machine, mem), BinOp::Or),
        Expr::Leq(a, b) => eval_bin(eval_spec(*a, machine, mem), eval_spec(*b, machine, mem), BinOp::Leq),
        Expr::Lt(a, b) => eval_bin(eval_spec(*a, machine, mem), eval_spec(*b, machine, mem), BinOp::Lt),
        Expr::Geq(a, b) => eval_bin(eval_spec(*a, machine, mem), eval_spec(*b, machine, mem), BinOp::Geq),
        Expr::Gt(a, b) => eval_bin(eval_spec(*a, machine, mem), eval_spec(*b, machine, mem), BinOp::Gt),
        Expr::Eq(a, b) => eval_bin(eval_spec(*a, machine, mem), eval_spec(*b, machine, mem), BinOp::Eq),
        Expr::Ne(a, b) => eval_bin(eval_spec(*a, machine, mem), eval_spec(*b, machine, mem), BinOp::Ne),
        Expr::Add(a, b) => eval_bin(eval_spec(*a, machine, mem), eval_spec(*b, machine, mem), BinOp::Add),
        Expr::Sub(a, b) => eval_bin(eval_spec(*a, machine, mem), eval_spec(*b, machine, mem), BinOp::Sub),
        Expr::Mul(a, b) => eval_bin(eval_spec(*a, machine, mem), eval_spec(*b, machine, mem), BinOp::Mul),
        Expr::Div(a, b) => eval_bin(eval_spec(*a, machine, mem), eval_spec(*b, machine, mem), BinOp::Div),
        Expr::Mod(a, b) => eval_bin(eval_spec(*a, machine, mem), eval_spec(*b, machine, mem), BinOp::Mod),
        Expr::Pow(a, b) => eval_bin(eval_spec(*a, machine, mem), eval_spec(*b, machine, mem), BinOp::Pow),
    }
}

/// The binary operators of the expression language.
#[derive(Debug, Clone, Copy, PartialEq, Eq, Structural)]
pub enum BinOp {
    And,
    Or,
    Leq,
    Lt,
    Geq,
    Gt,
    Eq,
    Ne,
    Add,
    Sub,
    Mul,
    Div,
    Mod,
    Pow,
}

/// A binary operator applied to two evaluated operands.
pub open spec fn eval_bin(a: Option<u64>, b: Option<u64>, op: BinOp) -> Option<u64> {
    match (a, b) {
        (Some(x), Some(y)) => match op {
            BinOp::And => Some(x & y),
            BinOp::Or => Some(x | y),
            BinOp::Leq => Some(if x <= y { 1u64 } else { 0u64 }),
            BinOp::Lt => Some(if x < y { 1u64 } else { 0u64 }),
            BinOp::Geq => Some(if x >= y { 1u64 } else { 0u64 }),
            BinOp::Gt => Some(if x > y { 1u64 } else { 0u64 }),
            BinOp::Eq => Some(if x == y { 1u64 } else { 0u64 }),
            BinOp::Ne => Some(if x != y { 1u64 } else { 0u64 }),
            BinOp::Add => Some(u64_specs::wrapping_add(x, y)),
            BinOp::Sub => Some(u64_specs::wrapping_sub(x, y)),
            BinOp::Mul => Some(u64_specs::wrapping_mul(x, y)),
            BinOp::Div => if y == 0 {
                None
            } else {
                Some(x / y)
            },
            BinOp::Mod => if y == 0 {
                None
            } else {
                Some(x % y)
            },
            BinOp::Pow => Some(spec_wpow(x, y as u32)),
        },
        _ => None,
    }
}

/// Exponentiation by repeated wrapping multiplication.
fn wpow(base: u64, exp: u32) -> (r: u64)
    ensures
        r == spec_wpow(base, exp),
{
    let mut acc: u64 = 1;
    let mut i: u32 = 0;
    while i < exp
        invariant
            i <= exp,
            acc == spec_wpow(base, i),
        decreases exp - i,
    {
        acc = acc.wrapping_mul(base);
        i = i + 1;
    }
    acc
}

impl Expr {
    /// Evaluate the expression against a machine's registers and a
    /// memory fabric, per [`eval_spec`].
    pub fn eval<R: RegInfo, M: MMIODevice>(&self, machine: &R, memory: &M) -> (r: Option<u64>)
        requires
            machine.reg_inv(),
        ensures
            r == eval_spec(*self, machine, memory.regions()),
        decreases *self,
    {
        match self {
            Expr::Reg(name) => machine.get_reg_value(name.as_str()),
            Expr::Num(n) => Some(*n),
            Expr::Deref(a) => {
                match a.eval(machine, memory) {
                    Some(v) => memory.read_u64(v as usize),
                    None => None,
                }
            },
            Expr::And(a, b) => Self::bin(a.eval(machine, memory), b.eval(machine, memory), BinOp::And),
            Expr::Or(a, b) => Self::bin(a.eval(machine, memory), b.eval(machine, memory), BinOp::Or),
            Expr::Leq(a, b) => Self::bin(a.eval(machine, memory), b.eval(machine, memory), BinOp::Leq),
            Expr::Lt(a, b) => Self::bin(a.eval(machine, memory), b.eval(machine, memory), BinOp::Lt),
            Expr::Geq(a, b) => Self::bin(a.eval(machine, memory), b.eval(machine, memory), BinOp::Geq),
            Expr::Gt(a, b) => Self::bin(a.eval(machine, memory), b.eval(machine, memory), BinOp::Gt),
            Expr::Eq(a, b) => Self::bin(a.eval(machine, memory), b.eval(machine, memory), BinOp::Eq),
            Expr::Ne(a, b) => Self::bin(a.eval(machine, memory), b.eval(machine, memory), BinOp::Ne),
            Expr::Add(a, b) => Self::bin(a.eval(machine, memory), b.eval(machine, memory), BinOp::Add),
            Expr::Sub(a, b) => Self::bin(a.eval(machine, memory), b.eval(machine, memory), BinOp::Sub),
            Expr::Mul(a, b) => Self::bin(a.eval(machine, memory), b.eval(machine, memory), BinOp::Mul),
            Expr::Div(a, b) => Self::bin(a.eval(machine, memory), b.eval(machine, memory), BinOp::Div),
            Expr::Mod(a, b) => Self::bin(a.eval(machine, memory), b.eval(machine, memory), BinOp::Mod),
            Expr::Pow(a, b) => Self::bin(a.eval(machine, memory), b.eval(machine, memory), BinOp::Pow),
        }
    }

    /// Apply a binary operator to two evaluated operands, per
    /// [`eval_bin`].
    fn bin(a: Option<u64>, b: Option<u64>, op: BinOp) -> (r: Option<u64>)
        ensures
            r == eval_bin(a, b, op),
    {
        let x = match a {
            Some(x) => x,
            None => {
                return None;
            },
        };
        let y = match b {
            Some(y) => y,
            None => {
                return None;
            },
        };
        match op {
            BinOp::And => Some(x & y),
            BinOp::Or => Some(x | y),
            BinOp::Leq => Some(if x <= y { 1u64 } else { 0u64 }),
            BinOp::Lt => Some(if x < y { 1u64 } else { 0u64 }),
            BinOp::Geq => Some(if x >= y { 1u64 } else { 0u64 }),
            BinOp::Gt => Some(if x > y { 1u64 } else { 0u64 }),
            BinOp::Eq => Some(if x == y { 1u64 } else { 0u64 }),
            BinOp::Ne => Some(if x != y { 1u64 } else { 0u64 }),
            BinOp::Add => Some(x.wrapping_add(y)),
            BinOp::Sub => Some(x.wrapping_sub(y)),
            BinOp::Mul => Some(x.wrapping_mul(y)),
            BinOp::Div => if y == 0 {
                None
            } else {
                Some(x / y)
            },
            BinOp::Mod => if y == 0 {
                None
            } else {
                Some(x % y)
            },
            BinOp::Pow => Some(wpow(x, y as u32)),
        }
    }
}

} // verus!
