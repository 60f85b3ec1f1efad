//! Run a compiled function and check the boolean it returns.
//!
//! The runner accepts functions shaped `() -> b1`, compiles them through a
//! fresh context, emits them, and executes the compiled form through the
//! reference executor of this target's instruction set (the byte encoding
//! is one-to-one with the compiled instructions).  A `true` result maps
//! to `Ok`, a `false` result to an error, as a test harness expects.
//!
//! What execution computes is itself specified: [`exec_outcome`] is the
//! mathematical meaning of running a compiled function, and `run`'s
//! contract ties its result to the outcome of the compiled view of the
//! accepted function.

use crate::binemit::{RelocSink, StackmapSink, TrapSink};
use crate::context::{compile_ok, compiled_view, Context};
use crate::dominator_tree::DomTreeView;
use crate::errors::CodegenError;
use crate::flowgraph::CfgView;
use crate::ir::{CallConv, FuncView, Function, Inst};
use crate::isa::{Flags, TargetIsa};
use vstd::prelude::*;

verus! {

/// Why a run failed.
#[derive(Debug)]
pub enum RunError {
    /// The function's signature is not `() -> b1`.
    BadSignature,
    /// The function requests a calling convention the host does not run.
    BadCallConv,
    /// Compilation failed with the contained error.
    Compile(CodegenError),
    /// The compiled code used a feature the reference executor lacks, or
    /// trapped, or never returned.
    Execution,
    /// The function ran to completion and returned `false`.
    ReturnedFalse,
}

/// Whether `f` has the one signature the runner accepts: no parameters
/// and a single boolean return.
pub open spec fn runnable_signature(f: FuncView) -> bool {
    &&& f.params.len() == 0
    &&& f.returns.len() == 1
    &&& f.returns[0] is B1
}

/// Whether `f` requests a calling convention the runner can execute.
pub open spec fn runnable_call_conv(f: FuncView, isa: TargetIsa) -> bool {
    f.call_conv == isa.call_conv || f.call_conv == CallConv::Fast
}

/// The latest definition of value `v` in the store, newest first.
pub open spec fn lookup_spec(vals: Seq<(u32, u64)>, v: u32) -> Option<u64>
    decreases vals.len(),
{
    if vals.len() == 0 {
        None
    } else if vals.last().0 == v {
        Some(vals.last().1)
    } else {
        lookup_spec(vals.drop_last(), v)
    }
}

/// One execution of the compiled instruction set, from instruction `i` of
/// block `b` with value store `vals`; `fuel` bounds the number of jumps
/// taken.  `Some(x)` means a return delivered `x`; `None` means the walk
/// failed: a missing block or terminator, a call or trap, an undefined
/// return value, or fuel exhausted.
pub open spec fn run_insts(
    blocks: Seq<Seq<Inst>>,
    b: int,
    i: int,
    vals: Seq<(u32, u64)>,
    fuel: nat,
) -> Option<bool>
    decreases fuel, (if 0 <= b < blocks.len() && 0 <= i <= blocks[b].len() {
        blocks[b].len() - i
    } else {
        0
    }),
{
    if !(0 <= b < blocks.len()) {
        None
    } else if !(0 <= i < blocks[b].len()) {
        None
    } else {
        match blocks[b][i] {
            Inst::IConst { result, value } => run_insts(
                blocks,
                b,
                i + 1,
                vals.push((result, value)),
                fuel,
            ),
            Inst::SConst { result, value } => run_insts(
                blocks,
                b,
                i + 1,
                vals.push((result, value as u64)),
                fuel,
            ),
            Inst::BConst { result, value } => run_insts(
                blocks,
                b,
                i + 1,
                vals.push(
                    (
                        result,
                        if value {
                            1u64
                        } else {
                            0u64
                        },
                    ),
                ),
                fuel,
            ),
            Inst::Nop => run_insts(blocks, b, i + 1, vals, fuel),
            Inst::Prologue => run_insts(blocks, b, i + 1, vals, fuel),
            Inst::Epilogue => run_insts(blocks, b, i + 1, vals, fuel),
            Inst::Safepoint { .. } => run_insts(blocks, b, i + 1, vals, fuel),
            Inst::Call { .. } => None,
            Inst::Trap { .. } => None,
            Inst::Jump { target } => if fuel == 0 {
                None
            } else {
                run_insts(blocks, target as int, 0, vals, (fuel - 1) as nat)
            },
            Inst::Ret { value } => match lookup_spec(vals, value) {
                Some(x) => Some(x != 0),
                None => None,
            },
        }
    }
}

/// What executing the compiled function `f` from its entry computes.
pub open spec fn exec_outcome(f: FuncView) -> Option<bool> {
    run_insts(f.blocks, 0, 0, Seq::empty(), f.blocks.len())
}

/// Look up the latest definition of value `v`.
fn lookup(vals: &Vec<(u32, u64)>, v: u32) -> (r: Option<u64>)
    ensures
        r == lookup_spec(vals@, v),
{
    proof {
        assert(vals@.take(vals@.len() as int) =~= vals@);
    }
    let mut i: usize = vals.len();
    while i > 0
        invariant
            i <= vals@.len(),
            lookup_spec(vals@, v) == lookup_spec(vals@.take(i as int), v),
        decreases i,
    {
        i = i - 1;
        proof {
            assert(vals@.take(i + 1).drop_last() =~= vals@.take(i as int));
            assert(vals@.take(i + 1).last() == vals@[i as int]);
        }
        if vals[i].0 == v {
            return Some(vals[i].1);
        }
    }
    None
}

/// Execute the compiled form of `func` from its entry block; the result
/// is exactly what [`exec_outcome`] assigns to it.
fn execute(func: &Function) -> (r: Result<bool, RunError>)
    ensures
        exec_outcome(func@) matches Some(x) ==> r == Ok::<bool, RunError>(x),
        exec_outcome(func@) is None ==> r == Err::<bool, RunError>(RunError::Execution),
{
    let mut vals: Vec<(u32, u64)> = Vec::new();
    let mut b: usize = 0;
    let mut i: usize = 0;
    let mut fuel: usize = func.blocks.len();
    loop
        invariant
            exec_outcome(func@) == run_insts(func@.blocks, b as int, i as int, vals@, fuel as nat),
        decreases fuel, (if (b as int) < func.blocks@.len() && i <= func.blocks@[b as int].insts@.len() {
            func.blocks@[b as int].insts@.len() - i
        } else {
            0
        }),
    {
        if b >= func.blocks.len() {
            return Err(RunError::Execution);
        }
        let blen = func.blocks[b].insts.len();
        if i >= blen {
            return Err(RunError::Execution);
        }
        match func.blocks[b].insts[i] {
            Inst::IConst { result, value } => {
                vals.push((result, value));
                i = i + 1;
            },
            Inst::SConst { result, value } => {
                vals.push((result, value as u64));
                i = i + 1;
            },
            Inst::BConst { result, value } => {
                vals.push(
                    (
                        result,
                        if value {
                            1
                        } else {
                            0
                        },
                    ),
                );
                i = i + 1;
            },
            Inst::Nop => {
                i = i + 1;
            },
            Inst::Prologue => {
                i = i + 1;
            },
            Inst::Epilogue => {
                i = i + 1;
            },
            Inst::Safepoint { .. } => {
                i = i + 1;
            },
            Inst::Call { .. } => {
                return Err(RunError::Execution);
            },
            Inst::Trap { .. } => {
                return Err(RunError::Execution);
            },
            Inst::Jump { target } => {
                if fuel == 0 {
                    return Err(RunError::Execution);
                }
                fuel = fuel - 1;
                b = target as usize;
                i = 0;
            },
            Inst::Ret { value } => {
                return match lookup(&vals, value) {
                    Some(x) => Ok(x != 0),
                    None => Err(RunError::Execution),
                };
            },
        }
    }
}

/// Run a function on a host-like target.
pub struct FunctionRunner {
    /// The function to compile and execute.
    pub function: Function,
    /// The target to compile for.
    pub isa: TargetIsa,
}

impl FunctionRunner {
    /// Build a runner from a function and the target to run on.
    pub fn new(function: Function, isa: TargetIsa) -> (r: FunctionRunner)
        ensures
            r.function == function,
            r.isa == isa,
    {
        FunctionRunner { function, isa }
    }

    /// Build a runner using the host target under the passed settings.
    pub fn with_host_isa(function: Function, flags: Flags) -> (r: FunctionRunner)
        ensures
            r.function == function,
            r.isa == crate::isa::host_isa(flags),
    {
        let isa = TargetIsa::new(flags);
        FunctionRunner::new(function, isa)
    }

    /// Build a runner using the host target under its default settings.
    pub fn with_default_host_isa(function: Function) -> (r: FunctionRunner)
        ensures
            r.function == function,
            r.isa == crate::isa::host_isa(crate::isa::default_flags()),
    {
        let flags = Flags::new();
        FunctionRunner::with_host_isa(function, flags)
    }

    /// Compile and execute the function, expecting a boolean result:
    /// `true` maps to `Ok`, `false` to an error.
    ///
    /// Functions must look like `() -> b1` and use the host's default
    /// calling convention (or the internal fast convention).  On an
    /// accepted function the result is `Ok` exactly when compilation
    /// succeeds and the compiled form executes to `true`; a `false`
    /// execution, a failed execution and a failed compilation are each
    /// reported as their own error.
    pub fn run(&self) -> (r: Result<(), RunError>)
        ensures
            !runnable_signature(self.function@) ==> r == Err::<(), RunError>(
                RunError::BadSignature,
            ),
            runnable_signature(self.function@) && !runnable_call_conv(self.function@, self.isa)
                ==> r == Err::<(), RunError>(RunError::BadCallConv),
            runnable_signature(self.function@) && runnable_call_conv(self.function@, self.isa)
                ==> {
                let co = compile_ok(
                    self.function@,
                    CfgView { valid: false, succs: Seq::empty() },
                    DomTreeView { valid: false, idom: Seq::empty() },
                    self.isa,
                );
                let out = exec_outcome(compiled_view(self.function@, self.isa));
                &&& (r is Ok <==> co && out == Some(true))
                &&& (co && out == Some(false) ==> r == Err::<(), RunError>(
                    RunError::ReturnedFalse,
                ))
                &&& (co && out is None ==> r == Err::<(), RunError>(RunError::Execution))
                &&& (!co ==> (r matches Err(e) && e is Compile))
            },
    {
        let func = self.function.duplicate();
        if !(func.signature.params.len() == 0 && func.signature.returns.len() == 1
            && func.signature.returns[0].is_bool()) {
            return Err(RunError::BadSignature);
        }
        let cc_ok = {
            let cc = func.signature.call_conv;
            cc == self.isa.default_call_conv() || matches!(cc, CallConv::Fast)
        };
        if !cc_ok {
            return Err(RunError::BadCallConv);
        }
        let mut context = Context::for_function(func);
        let mut mem: Vec<u8> = Vec::new();
        let mut relocs = RelocSink::new();
        let mut traps = TrapSink::new();
        let mut stackmaps = StackmapSink::new();
        match context.compile_and_emit(&self.isa, &mut mem, &mut relocs, &mut traps, &mut stackmaps)
        {
            Ok(_) => {},
            Err(e) => {
                return Err(RunError::Compile(e));
            },
        }
        match execute(&context.func) {
            Ok(true) => Ok(()),
            Ok(false) => Err(RunError::ReturnedFalse),
            Err(e) => Err(e),
        }
    }
}

} // verus!
