//! End-to-end checks of the compilation pipeline: tier gating, verifier
//! gating, determinism, reuse, emission and the sink callbacks.

use codegen_context::binemit::{RelocSink, StackmapSink, TrapSink};
use codegen_context::context::{Context, Pass};
use codegen_context::errors::CodegenError;
use codegen_context::checker::ViolationKind;
use codegen_context::ir::{Block, CallConv, Function, Inst, Signature, TrapCode, TypeTag};
use codegen_context::isa::{Flags, OptLevel, TargetIsa};

fn isa_with(opt_level: OptLevel, enable_verifier: bool) -> TargetIsa {
    TargetIsa::new(Flags {
        opt_level,
        enable_verifier,
        enable_nan_canonicalization: false,
    })
}

/// A function shaped `() -> b1` returning the constant `true`.
fn bool_func() -> Function {
    Function {
        signature: Signature {
            params: vec![],
            returns: vec![TypeTag::B1],
            call_conv: CallConv::SystemV,
        },
        blocks: vec![Block {
            insts: vec![Inst::BConst { result: 0, value: true }, Inst::Ret { value: 0 }],
        }],
        num_values: 1,
        locations: vec![],
    }
}

/// A block whose last instruction is not a terminator.
fn malformed_func() -> Function {
    Function {
        signature: Signature {
            params: vec![],
            returns: vec![TypeTag::B1],
            call_conv: CallConv::SystemV,
        },
        blocks: vec![Block { insts: vec![Inst::Nop] }],
        num_values: 0,
        locations: vec![],
    }
}

fn compile_bytes(func: Function, isa: &TargetIsa) -> (Vec<u8>, codegen_context::binemit::CodeInfo) {
    let mut ctx = Context::for_function(func);
    let mut mem: Vec<u8> = Vec::new();
    let mut relocs = RelocSink::new();
    let mut traps = TrapSink::new();
    let mut stackmaps = StackmapSink::new();
    let info = ctx
        .compile_and_emit(isa, &mut mem, &mut relocs, &mut traps, &mut stackmaps)
        .unwrap();
    (mem, info)
}

#[test]
fn determinism_identical_bytes() {
    let isa = isa_with(OptLevel::Standard, true);
    let (bytes1, info1) = compile_bytes(bool_func(), &isa);
    let (bytes2, info2) = compile_bytes(bool_func(), &isa);
    assert_eq!(bytes1, bytes2);
    assert_eq!(info1, info2);
}

#[test]
fn round_trip_code_info() {
    let isa = isa_with(OptLevel::Standard, true);
    let mut ctx = Context::for_function(bool_func());
    let info = ctx.compile(&isa).unwrap();
    let mut mem = vec![0u8; info.total_size as usize];
    let mut relocs = RelocSink::new();
    let mut traps = TrapSink::new();
    let mut stackmaps = StackmapSink::new();
    let emitted = ctx.emit_to_memory(&isa, &mut mem, 0, &mut relocs, &mut traps, &mut stackmaps);
    assert_eq!(info, emitted);
    assert_eq!(info.total_size, info.code_size + info.jumptables_size + info.rodata_size);
}

#[test]
fn reuse_isolation_clear() {
    let isa = isa_with(OptLevel::Standard, true);
    // Compile something first, then reuse the same context for `g`.
    let mut reused = Context::for_function(bool_func());
    let mut sink_mem: Vec<u8> = Vec::new();
    let mut relocs = RelocSink::new();
    let mut traps = TrapSink::new();
    let mut stackmaps = StackmapSink::new();
    reused
        .compile_and_emit(&isa, &mut sink_mem, &mut relocs, &mut traps, &mut stackmaps)
        .unwrap();
    reused.clear();
    let g = Function {
        signature: Signature {
            params: vec![],
            returns: vec![TypeTag::B1],
            call_conv: CallConv::SystemV,
        },
        blocks: vec![Block {
            insts: vec![
                Inst::Nop,
                Inst::IConst { result: 3, value: 77 },
                Inst::Ret { value: 3 },
            ],
        }],
        num_values: 4,
        locations: vec![],
    };
    reused.func = g;
    let mut mem_reused: Vec<u8> = Vec::new();
    let info_reused = reused
        .compile_and_emit(&isa, &mut mem_reused, &mut relocs, &mut traps, &mut stackmaps)
        .unwrap();

    let g_again = Function {
        signature: Signature {
            params: vec![],
            returns: vec![TypeTag::B1],
            call_conv: CallConv::SystemV,
        },
        blocks: vec![Block {
            insts: vec![
                Inst::Nop,
                Inst::IConst { result: 3, value: 77 },
                Inst::Ret { value: 3 },
            ],
        }],
        num_values: 4,
        locations: vec![],
    };
    let (mem_fresh, info_fresh) = compile_bytes(g_again, &isa);
    assert_eq!(mem_reused, mem_fresh);
    assert_eq!(info_reused, info_fresh);
}

#[test]
fn fastest_tier_skips_optional_passes() {
    let isa = isa_with(OptLevel::Fastest, false);
    let mut ctx = Context::for_function(bool_func());
    ctx.compile(&isa).unwrap();
    let log = &ctx.pass_log;
    assert!(!log.contains(&Pass::Preopt));
    assert!(!log.contains(&Pass::Postopt));
    assert!(!log.contains(&Pass::Dce));
    assert!(!log.contains(&Pass::Licm));
    assert!(!log.contains(&Pass::Gvn));
    assert!(!log.contains(&Pass::Shrink));
    assert!(log.contains(&Pass::Legalize));
    assert!(log.contains(&Pass::Regalloc));
    assert!(log.contains(&Pass::PrologueEpilogue));
    assert!(log.contains(&Pass::RelaxBranches));
}

#[test]
fn best_tier_recomputes_analyses() {
    let isa = isa_with(OptLevel::Best, false);
    let mut ctx = Context::for_function(bool_func());
    ctx.compile(&isa).unwrap();
    let domtrees = ctx.pass_log.iter().filter(|p| **p == Pass::ComputeDomtree).count();
    let loops = ctx.pass_log.iter().filter(|p| **p == Pass::ComputeLoopAnalysis).count();
    assert!(domtrees >= 2);
    assert!(loops >= 2);
    assert!(ctx.pass_log.contains(&Pass::Shrink));
    assert!(ctx.pass_log.contains(&Pass::Licm));
    assert!(ctx.pass_log.contains(&Pass::Gvn));
}

#[test]
fn verifier_enabled_rejects_malformed() {
    let isa = isa_with(OptLevel::Standard, true);
    let mut ctx = Context::for_function(malformed_func());
    match ctx.compile(&isa) {
        Err(CodegenError::Verifier(v)) => {
            assert!(!v.errors.is_empty());
            assert!(v.errors.iter().any(|e| e.kind == ViolationKind::MissingTerminator));
            // Fail-fast: the rejection happened before any pass ran.
            assert!(ctx.pass_log.is_empty());
        }
        other => panic!("expected a verifier rejection, got {:?}", other),
    }
}

#[test]
fn verifier_disabled_accepts_malformed() {
    // With verification off, orchestration itself rejects nothing; this
    // corruption is benign to every pass, so compilation succeeds.
    let isa = isa_with(OptLevel::Standard, false);
    let mut ctx = Context::for_function(malformed_func());
    let info = ctx.compile(&isa).unwrap();
    assert!(info.total_size > 0);
}

#[test]
fn buffer_growth_never_underallocates() {
    let isa = isa_with(OptLevel::Standard, false);
    let mut ctx = Context::for_function(bool_func());
    let mut mem: Vec<u8> = vec![0xaa, 0xbb, 0xcc];
    let mut relocs = RelocSink::new();
    let mut traps = TrapSink::new();
    let mut stackmaps = StackmapSink::new();
    let info = ctx
        .compile_and_emit(&isa, &mut mem, &mut relocs, &mut traps, &mut stackmaps)
        .unwrap();
    assert_eq!(mem.len(), 3 + info.total_size as usize);
    assert!(mem.len() >= info.total_size as usize);
    assert_eq!(&mem[0..3], &[0xaa, 0xbb, 0xcc]);
}

#[test]
fn emit_exact_bytes() {
    // At the fastest tier the boolean constant is legalized to an integer
    // constant, registers are assigned, and prologue/epilogue inserted:
    //   prologue; iconst v0, 1; epilogue; return v0
    let isa = isa_with(OptLevel::Fastest, true);
    let (bytes, info) = compile_bytes(bool_func(), &isa);
    let expected = vec![
        0x09, // prologue
        0x01, 0, 0, 0, 0, 1, 0, 0, 0, 0, 0, 0, 0, // iconst v0, 1
        0x0a, // epilogue
        0x05, 0, 0, 0, 0, // return v0
    ];
    assert_eq!(bytes, expected);
    assert_eq!(info.code_size, 20);
    assert_eq!(info.total_size, 20);
    assert_eq!(info.jumptables_size, 0);
    assert_eq!(info.rodata_size, 0);
}

#[test]
fn shrink_small_constants_at_best() {
    let standard = isa_with(OptLevel::Standard, true);
    let best = isa_with(OptLevel::Best, true);
    let (std_bytes, _) = compile_bytes(bool_func(), &standard);
    let (best_bytes, _) = compile_bytes(bool_func(), &best);
    // The 13-byte integer-constant encoding shrinks to the 6-byte form.
    assert_eq!(std_bytes.len(), 20);
    assert_eq!(best_bytes.len(), 13);
    assert_eq!(best_bytes[1], 0x02);
}

#[test]
fn sink_records() {
    let isa = isa_with(OptLevel::Fastest, true);
    let func = Function {
        signature: Signature {
            params: vec![],
            returns: vec![],
            call_conv: CallConv::SystemV,
        },
        blocks: vec![Block {
            insts: vec![
                Inst::Call { callee: 7 },
                Inst::Safepoint { slots: 5 },
                Inst::Trap { code: TrapCode::User, srcloc: 42 },
            ],
        }],
        num_values: 0,
        locations: vec![],
    };
    let mut ctx = Context::for_function(func);
    let mut mem: Vec<u8> = Vec::new();
    let mut relocs = RelocSink::new();
    let mut traps = TrapSink::new();
    let mut stackmaps = StackmapSink::new();
    ctx.compile_and_emit(&isa, &mut mem, &mut relocs, &mut traps, &mut stackmaps)
        .unwrap();
    // Layout: prologue@0 (1 byte), call@1 (5 bytes), safepoint@6, trap@7.
    assert_eq!(relocs.relocs.len(), 1);
    assert_eq!(relocs.relocs[0].offset, 2); // the call's operand field
    assert_eq!(relocs.relocs[0].name, 7);
    assert_eq!(relocs.relocs[0].addend, 0);
    assert_eq!(traps.traps.len(), 1);
    assert_eq!(traps.traps[0].offset, 7);
    assert_eq!(traps.traps[0].srcloc, 42);
    assert_eq!(traps.traps[0].code, TrapCode::User);
    assert_eq!(stackmaps.stackmaps.len(), 1);
    assert_eq!(stackmaps.stackmaps[0].offset, 6);
    assert_eq!(stackmaps.stackmaps[0].slots, 5);
}

#[test]
fn regalloc_failure() {
    let isa = isa_with(OptLevel::Fastest, false);
    let mut func = bool_func();
    func.num_values = 40; // exceeds the 32-register file
    let mut ctx = Context::for_function(func);
    assert!(matches!(ctx.compile(&isa), Err(CodegenError::Regalloc)));
    // Fail-fast: the log stops at the allocator; nothing after it ran.
    assert_eq!(
        ctx.pass_log,
        vec![
            Pass::ComputeCfg,
            Pass::Legalize,
            Pass::ComputeCfg,
            Pass::ComputeDomtree,
            Pass::Uce,
            Pass::Regalloc,
        ]
    );
}

#[test]
fn verify_locations_missing_before_regalloc() {
    let isa = isa_with(OptLevel::Standard, true);
    let ctx = Context::for_function(bool_func());
    match ctx.verify_locations(&isa) {
        Err(v) => {
            assert!(v.errors.iter().any(|e| e.kind == ViolationKind::MissingLocation));
        }
        Ok(()) => panic!("locations cannot be complete before register allocation"),
    }
}

#[test]
fn stale_flowgraph_detected() {
    let isa = isa_with(OptLevel::Standard, true);
    let func = Function {
        signature: Signature {
            params: vec![],
            returns: vec![],
            call_conv: CallConv::SystemV,
        },
        blocks: vec![Block { insts: vec![Inst::Jump { target: 0 }] }],
        num_values: 0,
        locations: vec![],
    };
    let mut ctx = Context::for_function(func);
    ctx.compute_cfg();
    assert!(ctx.verify(&isa).is_ok());
    // Change the terminator without recomputing the flow graph.
    ctx.func.blocks[0].insts = vec![Inst::Trap { code: TrapCode::User, srcloc: 0 }];
    match ctx.verify(&isa) {
        Err(v) => {
            assert!(v.errors.iter().any(|e| e.kind == ViolationKind::StaleFlowGraph));
        }
        Ok(()) => panic!("the stored flow graph no longer matches the function"),
    }
}

#[test]
fn clear_resets_context() {
    let isa = isa_with(OptLevel::Best, true);
    let mut ctx = Context::for_function(bool_func());
    ctx.compile(&isa).unwrap();
    assert!(!ctx.pass_log.is_empty());
    ctx.clear();
    assert!(ctx.func.blocks.is_empty());
    assert_eq!(ctx.func.num_values, 0);
    assert!(ctx.pass_log.is_empty());
    assert!(!ctx.cfg.valid);
    assert!(!ctx.domtree.valid);
    assert!(!ctx.loop_analysis.valid);
}

#[test]
fn value_labels_ranges_after_regalloc() {
    let isa = isa_with(OptLevel::Standard, false);
    let mut ctx = Context::for_function(bool_func());
    ctx.compile(&isa).unwrap();
    let ranges = ctx.build_value_labels_ranges(&isa).unwrap();
    assert_eq!(ranges.len(), 1);
    assert_eq!(ranges[0].value, 0);
    assert_eq!(ranges[0].loc, 0);
}

#[test]
fn nan_canonicalization_is_flag_gated() {
    let with_nan = TargetIsa::new(Flags {
        opt_level: OptLevel::Fastest,
        enable_verifier: false,
        enable_nan_canonicalization: true,
    });
    let without_nan = isa_with(OptLevel::Fastest, false);
    let mut ctx = Context::for_function(bool_func());
    ctx.compile(&with_nan).unwrap();
    assert!(ctx.pass_log.contains(&Pass::CanonicalizeNans));
    let mut ctx2 = Context::for_function(bool_func());
    ctx2.compile(&without_nan).unwrap();
    assert!(!ctx2.pass_log.contains(&Pass::CanonicalizeNans));
}

#[test]
fn verify_if_skips_when_disabled() {
    let isa = isa_with(OptLevel::Standard, false);
    let ctx = Context::for_function(malformed_func());
    assert!(ctx.verify_if(&isa).is_ok());
    assert!(ctx.verify(&isa).is_err());
}

#[test]
fn flowgraph_computes_both_analyses() {
    let func = Function {
        signature: Signature {
            params: vec![],
            returns: vec![],
            call_conv: CallConv::SystemV,
        },
        blocks: vec![
            Block { insts: vec![Inst::Jump { target: 1 }] },
            Block { insts: vec![Inst::Jump { target: 1 }] },
        ],
        num_values: 0,
        locations: vec![],
    };
    let mut ctx = Context::for_function(func);
    ctx.flowgraph();
    assert!(ctx.cfg.valid);
    assert_eq!(ctx.cfg.succs, vec![Some(1), Some(1)]);
    assert!(ctx.domtree.valid);
    // Block 1 is first reached over the edge from block 0.
    assert_eq!(ctx.domtree.idom, vec![None, Some(0)]);
    ctx.compute_loop_analysis();
    // The self-edge on block 1 makes it a loop header.
    assert_eq!(ctx.loop_analysis.headers, vec![false, true]);
}

#[test]
fn dce_removes_unused_definitions() {
    let func = Function {
        signature: Signature {
            params: vec![],
            returns: vec![TypeTag::B1],
            call_conv: CallConv::SystemV,
        },
        blocks: vec![Block {
            insts: vec![
                Inst::IConst { result: 0, value: 5 },
                Inst::IConst { result: 1, value: 6 },
                Inst::Ret { value: 1 },
            ],
        }],
        num_values: 2,
        locations: vec![],
    };
    // At the fastest tier dead code is kept; at the default tier the
    // unused definition of v0 is removed, shortening the code.
    let (fast_bytes, _) = compile_bytes(func.duplicate(), &isa_with(OptLevel::Fastest, true));
    let (std_bytes, _) = compile_bytes(func, &isa_with(OptLevel::Standard, true));
    assert_eq!(fast_bytes.len(), std_bytes.len() + 13);
}

#[test]
fn legalize_invalidates_derived_analyses() {
    // The invalidation discipline: legalization may restructure control
    // flow, so the dominator tree and loop analysis are unconditionally
    // cleared before it runs, and the flow graph is recomputed.
    let isa = isa_with(OptLevel::Standard, true);
    let mut ctx = Context::for_function(bool_func());
    ctx.flowgraph();
    ctx.compute_loop_analysis();
    assert!(ctx.cfg.valid && ctx.domtree.valid && ctx.loop_analysis.valid);
    ctx.legalize(&isa).unwrap();
    assert!(!ctx.domtree.valid);
    assert!(!ctx.loop_analysis.valid);
    assert!(ctx.cfg.valid);
    // Legalization lowered the boolean constant to an integer constant.
    assert!(matches!(
        ctx.func.blocks[0].insts[0],
        Inst::IConst { result: 0, value: 1 }
    ));
}

#[test]
fn preopt_strips_nops() {
    let isa = isa_with(OptLevel::Standard, true);
    let mut func = bool_func();
    func.blocks[0].insts.insert(0, Inst::Nop);
    func.blocks[0].insts.insert(2, Inst::Nop);
    let mut ctx = Context::for_function(func);
    ctx.compute_cfg();
    ctx.preopt(&isa).unwrap();
    assert_eq!(
        ctx.func.blocks[0].insts,
        vec![Inst::BConst { result: 0, value: true }, Inst::Ret { value: 0 }]
    );
}
