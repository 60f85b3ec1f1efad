//! Checks of the function runner: compiling, emitting and executing a
//! boolean function, and the signature gate in front of it.

use codegen_context::ir::{Block, CallConv, Function, Inst, Signature, TypeTag};
use codegen_context::isa::{Flags, OptLevel, TargetIsa};
use codegen_context::runner::{FunctionRunner, RunError};

fn bool_func(call_conv: CallConv) -> Function {
    Function {
        signature: Signature { params: vec![], returns: vec![TypeTag::B1], call_conv },
        blocks: vec![Block {
            insts: vec![
                Inst::Nop,
                Inst::BConst { result: 1, value: true },
                Inst::Ret { value: 1 },
            ],
        }],
        num_values: 2,
        locations: vec![],
    }
}

#[test]
fn nop() {
    // function %test() -> b8 system_v {
    // ebb0:
    //     nop
    //     v1 = bconst.b8 true
    //     return v1
    // }
    let function = bool_func(CallConv::SystemV);
    let runner = FunctionRunner::with_default_host_isa(function);
    runner.run().unwrap() // will panic if execution fails
}

#[test]
fn scenario_returns_true_at_fastest() {
    // A function with no parameters, one boolean return and a constant
    // `true`, compiled at the fastest tier, emits non-empty code that
    // executes to `true`.
    let function = Function {
        signature: Signature {
            params: vec![],
            returns: vec![TypeTag::B1],
            call_conv: CallConv::SystemV,
        },
        blocks: vec![Block {
            insts: vec![Inst::BConst { result: 0, value: true }, Inst::Ret { value: 0 }],
        }],
        num_values: 1,
        locations: vec![],
    };
    let isa = TargetIsa::new(Flags {
        opt_level: OptLevel::Fastest,
        enable_verifier: true,
        enable_nan_canonicalization: false,
    });
    let mut ctx = codegen_context::Context::for_function(function.duplicate());
    let info = ctx.compile(&isa).unwrap();
    assert!(info.total_size > 0);
    let runner = FunctionRunner::new(function, isa);
    assert!(runner.run().is_ok());
}

#[test]
fn returning_false_is_reported() {
    let mut function = bool_func(CallConv::SystemV);
    function.blocks[0].insts[1] = Inst::BConst { result: 1, value: false };
    let runner = FunctionRunner::with_default_host_isa(function);
    assert!(matches!(runner.run(), Err(RunError::ReturnedFalse)));
}

#[test]
fn rejects_bad_signature() {
    let mut function = bool_func(CallConv::SystemV);
    function.signature.returns = vec![TypeTag::I64];
    let runner = FunctionRunner::with_default_host_isa(function);
    assert!(matches!(runner.run(), Err(RunError::BadSignature)));
}

#[test]
fn accepts_fast_call_conv() {
    let function = bool_func(CallConv::Fast);
    let runner = FunctionRunner::with_default_host_isa(function);
    assert!(runner.run().is_ok());
}

#[test]
fn rejects_foreign_call_conv() {
    // A target whose default convention is the internal fast one refuses
    // a function that asks for the host convention.
    let function = bool_func(CallConv::SystemV);
    let isa = TargetIsa {
        flags: Flags {
            opt_level: OptLevel::Standard,
            enable_verifier: false,
            enable_nan_canonicalization: false,
        },
        num_regs: 32,
        call_conv: CallConv::Fast,
    };
    let runner = FunctionRunner::new(function, isa);
    assert!(matches!(runner.run(), Err(RunError::BadCallConv)));
}

#[test]
fn reports_execution_failure_on_calls() {
    // The reference executor does not follow calls into other functions.
    let mut function = bool_func(CallConv::SystemV);
    function.blocks[0].insts.insert(0, Inst::Call { callee: 3 });
    let runner = FunctionRunner::with_default_host_isa(function);
    assert!(matches!(runner.run(), Err(RunError::Execution)));
}

#[test]
fn forwards_compile_errors() {
    let mut function = bool_func(CallConv::SystemV);
    function.num_values = 100; // exceeds the register file
    let runner = FunctionRunner::with_default_host_isa(function);
    assert!(matches!(
        runner.run(),
        Err(RunError::Compile(codegen_context::errors::CodegenError::Regalloc))
    ));
}
