//! The compilation context: persistent data structures and the pipeline.
//!
//! A `Context` owns the function under compilation and every derived
//! analysis, and is meant to be reused across many functions to avoid
//! repeated allocation.  It does not own a `TargetIsa`: the target
//! descriptor is immutable and shared across concurrently compiling
//! contexts, so it is passed to every operation instead.
//!
//! `compile` threads the function through a fixed, tier-gated pass
//! sequence; its contract pins the exact sequence (via the pass log), the
//! resulting function, the returned sizes, and when each failure occurs.

use crate::binemit::{
    code_info_of, code_size_of, encode_seq, flat, flatten, maps_seq, measure_code, relocs_seq,
    traps_seq, CodeInfo, RelocSink, StackmapSink, TrapSink,
};
use crate::checker::{
    check_context, check_locations, context_viols, context_wf, lemma_context_viols_empty,
    lemma_loc_viols_empty, loc_viols, locations_wf, VerifierErrors, VerifierResult,
};
use crate::dominator_tree::{domtree_matches, idoms_of, DominatorTree, DomTreeView};
use crate::errors::{CodegenError, CodegenResult};
use crate::flowgraph::{cfg_matches, cfg_of, CfgView, ControlFlowGraph};
use crate::ir::{empty_func, FuncView, Function};
use crate::isa::{OptLevel, TargetIsa};
use crate::loop_analysis::{headers_from, LoopAnalysis};
use crate::passes::{
    dce_rewrite, dce_view, insert_proepi, legalize_rewrite, legalize_view,
    lemma_dce_preserves, lemma_legalize_preserves, lemma_proepi_preserves,
    lemma_shrink_preserves, lemma_strip_nops_preserves, proepi_view, regalloc_view,
    shrink_rewrite, shrink_view, strip_nops, strip_nops_view,
};
use crate::regalloc;
use vstd::prelude::*;

verus! {

/// One entry of the instrumentation log: a pass or analysis computation
/// the pipeline performed, in order.
#[derive(Clone, Copy, PartialEq, Eq, Structural, Debug)]
pub enum Pass {
    /// The control flow graph was computed.
    ComputeCfg,
    /// The pre-legalization rewrite pass ran.
    Preopt,
    /// The NaN-canonicalization pass ran.
    CanonicalizeNans,
    /// The legalizer ran.
    Legalize,
    /// The post-legalization rewrite pass ran.
    Postopt,
    /// The dominator tree was computed.
    ComputeDomtree,
    /// The loop analysis was computed.
    ComputeLoopAnalysis,
    /// Loop-invariant code motion ran.
    Licm,
    /// Global value numbering ran.
    Gvn,
    /// Unreachable-code elimination ran.
    Uce,
    /// Dead-code elimination ran.
    Dce,
    /// The register allocator ran.
    Regalloc,
    /// Prologue/epilogue insertion ran.
    PrologueEpilogue,
    /// Instruction shrinking ran.
    Shrink,
    /// Branch relaxation ran.
    RelaxBranches,
}

/// One range record produced for value-label debugging: where a value
/// lives once locations are assigned.
#[derive(Clone, Copy, PartialEq, Eq, Structural, Debug)]
pub struct ValueLocRange {
    /// The value id.
    pub value: u32,
    /// The register holding it.
    pub loc: u32,
}

/// The ranges and locations of all labelled values.
pub type ValueLabelsRanges = Vec<ValueLocRange>;

/// The location records derived from the current assignment.
pub open spec fn labels_of(f: FuncView) -> Seq<ValueLocRange> {
    Seq::new(f.locations.len(), |i: int| ValueLocRange { value: i as u32, loc: f.locations[i] })
}

/// The function after the passes that precede register allocation, per
/// tier: nop removal (the pre-legalization rewrite), legalization, and
/// dead-code elimination of definitions no return reads.  NaN
/// canonicalization, the post-legalization rewrite, LICM, GVN and
/// unreachable-code elimination rewrite nothing in this instruction set.
pub open spec fn tier_pre_view(f: FuncView, isa: TargetIsa) -> FuncView {
    let f1 = if isa.flags.opt_level != OptLevel::Fastest {
        strip_nops_view(f)
    } else {
        f
    };
    let f2 = legalize_view(f1);
    if isa.flags.opt_level != OptLevel::Fastest {
        dce_view(f2)
    } else {
        f2
    }
}

/// The fully compiled function: registers assigned, prologue and epilogues
/// inserted, and (at the best tier) encodings shrunk.
pub open spec fn compiled_view(f: FuncView, isa: TargetIsa) -> FuncView {
    let f4 = proepi_view(regalloc_view(tier_pre_view(f, isa)));
    if isa.flags.opt_level == OptLevel::Best {
        shrink_view(f4)
    } else {
        f4
    }
}

/// The exact sequence of log entries `compile` appends on success.
pub open spec fn compile_schedule(opt: OptLevel, nan: bool) -> Seq<Pass> {
    seq![Pass::ComputeCfg] + (if opt != OptLevel::Fastest {
        seq![Pass::Preopt]
    } else {
        Seq::empty()
    }) + (if nan {
        seq![Pass::CanonicalizeNans]
    } else {
        Seq::empty()
    }) + seq![Pass::Legalize, Pass::ComputeCfg] + (if opt != OptLevel::Fastest {
        seq![Pass::Postopt]
    } else {
        Seq::empty()
    }) + (if opt == OptLevel::Best {
        seq![
            Pass::ComputeDomtree,
            Pass::ComputeLoopAnalysis,
            Pass::Licm,
            Pass::ComputeLoopAnalysis,
            Pass::Gvn,
        ]
    } else {
        Seq::empty()
    }) + seq![Pass::ComputeDomtree, Pass::Uce] + (if opt != OptLevel::Fastest {
        seq![Pass::Dce]
    } else {
        Seq::empty()
    }) + seq![Pass::Regalloc, Pass::PrologueEpilogue] + (if opt == OptLevel::Best {
        seq![Pass::Shrink]
    } else {
        Seq::empty()
    }) + seq![Pass::RelaxBranches]
}

/// Fail-fast: the instrumentation log has grown by a prefix of the
/// schedule — after the first failing step no further pass ran.
pub open spec fn log_stopped_early(
    oldlog: Seq<Pass>,
    newlog: Seq<Pass>,
    opt: OptLevel,
    nan: bool,
) -> bool {
    exists|k: int|
        0 <= k <= compile_schedule(opt, nan).len() && newlog == oldlog + #[trigger] compile_schedule(
            opt,
            nan,
        ).take(k)
}

/// When `compile` succeeds: the initial consistency check passes (or is
/// disabled), the value table fits the register file, and the encoded
/// function fits the 32-bit size field.
pub open spec fn compile_ok(f: FuncView, cfg: CfgView, dt: DomTreeView, isa: TargetIsa) -> bool {
    &&& (isa.flags.enable_verifier ==> context_wf(f, cfg, dt))
    &&& f.num_values <= isa.num_regs
    &&& code_size_of(compiled_view(f, isa)) <= 0xffff_ffff
}

/// Persistent data structures and the compilation pipeline.
pub struct Context {
    /// The function we are compiling.
    pub func: Function,
    /// The control flow graph of `func`.
    pub cfg: ControlFlowGraph,
    /// The dominator tree of `func`.
    pub domtree: DominatorTree,
    /// Register-allocation working state.
    pub regalloc: regalloc::Context,
    /// The loop analysis of `func`.
    pub loop_analysis: LoopAnalysis,
    /// The instrumentation log: which passes ran, in order.
    pub pass_log: Vec<Pass>,
}

impl Context {
    /// Allocate a new compilation context.
    ///
    /// The returned instance should be reused for compiling multiple
    /// functions to avoid needless allocator thrashing.
    pub fn new() -> (r: Context)
        ensures
            r.func@ == empty_func(),
            !r.cfg@.valid && r.cfg@.succs.len() == 0,
            !r.domtree@.valid && r.domtree@.idom.len() == 0,
            !r.loop_analysis@.valid && r.loop_analysis@.headers.len() == 0,
            r.regalloc.scratch@.len() == 0,
            r.pass_log@.len() == 0,
    {
        Self::for_function(Function::new())
    }

    /// Allocate a new compilation context holding an existing function.
    pub fn for_function(func: Function) -> (r: Context)
        ensures
            r.func == func,
            !r.cfg@.valid && r.cfg@.succs.len() == 0,
            !r.domtree@.valid && r.domtree@.idom.len() == 0,
            !r.loop_analysis@.valid && r.loop_analysis@.headers.len() == 0,
            r.regalloc.scratch@.len() == 0,
            r.pass_log@.len() == 0,
    {
        Context {
            func,
            cfg: ControlFlowGraph::new(),
            domtree: DominatorTree::new(),
            regalloc: regalloc::Context::new(),
            loop_analysis: LoopAnalysis::new(),
            pass_log: Vec::new(),
        }
    }

    /// Clear all data structures in this context, keeping allocations, so
    /// the same instance can compile an unbounded sequence of functions.
    pub fn clear(&mut self)
        ensures
            final(self).func@ == empty_func(),
            !final(self).cfg@.valid && final(self).cfg@.succs.len() == 0,
            !final(self).domtree@.valid && final(self).domtree@.idom.len() == 0,
            !final(self).loop_analysis@.valid && final(self).loop_analysis@.headers.len() == 0,
            final(self).regalloc.scratch@.len() == 0,
            final(self).pass_log@.len() == 0,
    {
        self.func.clear();
        self.cfg.clear();
        self.domtree.clear();
        self.regalloc.clear();
        self.loop_analysis.clear();
        self.pass_log.clear();
    }

    /// Run the verifier on the function, also checking that the stored
    /// flow graph and dominator tree are consistent with it.  The error
    /// holds the complete list of violations found.
    pub fn verify(&self, isa: &TargetIsa) -> (r: VerifierResult<()>)
        ensures
            r is Ok <==> context_wf(self.func@, self.cfg@, self.domtree@),
            r matches Err(e) ==> e.errors@ == context_viols(self.func@, self.cfg@, self.domtree@)
                && e.errors@.len() > 0,
    {
        let _ = isa;
        let errors = check_context(&self.func, &self.cfg, &self.domtree);
        proof {
            lemma_context_viols_empty(self.func@, self.cfg@, self.domtree@);
        }
        if errors.len() == 0 {
            Ok(())
        } else {
            Err(VerifierErrors { errors })
        }
    }

    /// Run the verifier only if `enable_verifier` is set.
    pub fn verify_if(&self, isa: &TargetIsa) -> (r: CodegenResult<()>)
        ensures
            r is Ok <==> (!isa.flags.enable_verifier || context_wf(
                self.func@,
                self.cfg@,
                self.domtree@,
            )),
            r matches Err(e) ==> (match e {
                CodegenError::Verifier(ve) => isa.flags.enable_verifier && ve.errors@
                    == context_viols(self.func@, self.cfg@, self.domtree@) && ve.errors@.len() > 0,
                _ => false,
            }),
    {
        if isa.flags().enable_verifier() {
            match self.verify(isa) {
                Ok(()) => Ok(()),
                Err(e) => Err(CodegenError::Verifier(e)),
            }
        } else {
            Ok(())
        }
    }

    /// Run the locations verifier on the function: every value must have a
    /// register of the target assigned.
    pub fn verify_locations(&self, isa: &TargetIsa) -> (r: VerifierResult<()>)
        ensures
            r is Ok <==> locations_wf(self.func@, isa.num_regs),
            r matches Err(e) ==> e.errors@ == loc_viols(self.func@, isa.num_regs)
                && e.errors@.len() > 0,
    {
        let errors = check_locations(&self.func, isa.num_regs);
        proof {
            lemma_loc_viols_empty(self.func@, isa.num_regs);
        }
        if errors.len() == 0 {
            Ok(())
        } else {
            Err(VerifierErrors { errors })
        }
    }

    /// Run the locations verifier only if `enable_verifier` is set.
    pub fn verify_locations_if(&self, isa: &TargetIsa) -> (r: CodegenResult<()>)
        ensures
            r is Ok <==> (!isa.flags.enable_verifier || locations_wf(self.func@, isa.num_regs)),
            r matches Err(e) ==> (match e {
                CodegenError::Verifier(ve) => isa.flags.enable_verifier && ve.errors@ == loc_viols(
                    self.func@,
                    isa.num_regs,
                ) && ve.errors@.len() > 0,
                _ => false,
            }),
    {
        if isa.flags().enable_verifier() {
            match self.verify_locations(isa) {
                Ok(()) => Ok(()),
                Err(e) => Err(CodegenError::Verifier(e)),
            }
        } else {
            Ok(())
        }
    }

    /// Compute the control flow graph.
    pub fn compute_cfg(&mut self)
        ensures
            final(self).func == old(self).func,
            final(self).domtree == old(self).domtree,
            final(self).loop_analysis == old(self).loop_analysis,
            final(self).regalloc == old(self).regalloc,
            final(self).cfg@.valid && final(self).cfg@.succs == cfg_of(old(self).func@),
            cfg_matches(final(self).cfg@, final(self).func@),
            final(self).pass_log@ == old(self).pass_log@.push(Pass::ComputeCfg),
    {
        self.pass_log.push(Pass::ComputeCfg);
        self.cfg.compute(&self.func);
    }

    /// Compute the dominator tree from the stored flow graph.
    pub fn compute_domtree(&mut self)
        ensures
            final(self).func == old(self).func,
            final(self).cfg == old(self).cfg,
            final(self).loop_analysis == old(self).loop_analysis,
            final(self).regalloc == old(self).regalloc,
            final(self).domtree@.valid && final(self).domtree@.idom == idoms_of(
                old(self).cfg@.succs,
            ),
            final(self).pass_log@ == old(self).pass_log@.push(Pass::ComputeDomtree),
    {
        self.pass_log.push(Pass::ComputeDomtree);
        self.domtree.compute(&self.func, &self.cfg);
    }

    /// Compute the loop analysis from the stored flow graph and dominator
    /// tree.
    pub fn compute_loop_analysis(&mut self)
        ensures
            final(self).func == old(self).func,
            final(self).cfg == old(self).cfg,
            final(self).domtree == old(self).domtree,
            final(self).regalloc == old(self).regalloc,
            final(self).loop_analysis@.valid && final(self).loop_analysis@.headers
                == headers_from(old(self).cfg@.succs, old(self).domtree@.idom),
            final(self).pass_log@ == old(self).pass_log@.push(Pass::ComputeLoopAnalysis),
    {
        self.pass_log.push(Pass::ComputeLoopAnalysis);
        self.loop_analysis.compute(&self.func, &self.cfg, &self.domtree);
    }

    /// Compute the control flow graph and dominator tree.
    pub fn flowgraph(&mut self)
        ensures
            final(self).func == old(self).func,
            final(self).loop_analysis == old(self).loop_analysis,
            final(self).regalloc == old(self).regalloc,
            final(self).cfg@.valid && final(self).cfg@.succs == cfg_of(old(self).func@),
            final(self).domtree@.valid && final(self).domtree@.idom == idoms_of(
                cfg_of(old(self).func@),
            ),
            final(self).pass_log@ == old(self).pass_log@.push(Pass::ComputeCfg).push(
                Pass::ComputeDomtree,
            ),
    {
        self.compute_cfg();
        self.compute_domtree();
    }

    /// Perform pre-legalization rewrites: the only rewrite this
    /// instruction set admits is dropping nops.
    pub fn preopt(&mut self, isa: &TargetIsa) -> (r: CodegenResult<()>)
        ensures
            final(self).func@ == strip_nops_view(old(self).func@),
            final(self).cfg == old(self).cfg,
            final(self).domtree == old(self).domtree,
            final(self).loop_analysis == old(self).loop_analysis,
            final(self).pass_log@ == old(self).pass_log@.push(Pass::Preopt),
            r is Ok <==> (!isa.flags.enable_verifier || context_wf(
                final(self).func@,
                final(self).cfg@,
                final(self).domtree@,
            )),
            r matches Err(e) ==> (match e {
                CodegenError::Verifier(ve) => isa.flags.enable_verifier && ve.errors@
                    == context_viols(final(self).func@, final(self).cfg@, final(self).domtree@)
                    && ve.errors@.len() > 0,
                _ => false,
            }),
    {
        strip_nops(&mut self.func);
        self.pass_log.push(Pass::Preopt);
        self.verify_if(isa)?;
        Ok(())
    }

    /// Perform NaN-canonicalizing rewrites.  This instruction set has no
    /// floating-point instructions, so nothing is rewritten; the pass
    /// participates in gating and verification.
    pub fn canonicalize_nans(&mut self, isa: &TargetIsa) -> (r: CodegenResult<()>)
        ensures
            final(self).func == old(self).func,
            final(self).cfg == old(self).cfg,
            final(self).domtree == old(self).domtree,
            final(self).loop_analysis == old(self).loop_analysis,
            final(self).pass_log@ == old(self).pass_log@.push(Pass::CanonicalizeNans),
            r is Ok <==> (!isa.flags.enable_verifier || context_wf(
                final(self).func@,
                final(self).cfg@,
                final(self).domtree@,
            )),
            r matches Err(e) ==> (match e {
                CodegenError::Verifier(ve) => isa.flags.enable_verifier && ve.errors@
                    == context_viols(final(self).func@, final(self).cfg@, final(self).domtree@)
                    && ve.errors@.len() > 0,
                _ => false,
            }),
    {
        self.pass_log.push(Pass::CanonicalizeNans);
        self.verify_if(isa)
    }

    /// Run the legalizer: lower the function to target-legal instructions.
    ///
    /// Legalization may restructure control flow, so the dominator tree
    /// and loop analysis are unconditionally cleared before it runs, and
    /// the flow graph is recomputed afterwards.
    pub fn legalize(&mut self, isa: &TargetIsa) -> (r: CodegenResult<()>)
        ensures
            final(self).func@ == legalize_view(old(self).func@),
            !final(self).domtree@.valid,
            !final(self).loop_analysis@.valid,
            final(self).cfg@.valid && final(self).cfg@.succs == cfg_of(final(self).func@),
            final(self).pass_log@ == old(self).pass_log@.push(Pass::Legalize).push(
                Pass::ComputeCfg,
            ),
            r is Ok <==> (!isa.flags.enable_verifier || context_wf(
                final(self).func@,
                final(self).cfg@,
                final(self).domtree@,
            )),
            r matches Err(e) ==> (match e {
                CodegenError::Verifier(ve) => isa.flags.enable_verifier && ve.errors@
                    == context_viols(final(self).func@, final(self).cfg@, final(self).domtree@)
                    && ve.errors@.len() > 0,
                _ => false,
            }),
    {
        self.domtree.clear();
        self.loop_analysis.clear();
        legalize_rewrite(&mut self.func);
        self.pass_log.push(Pass::Legalize);
        self.compute_cfg();
        self.verify_if(isa)
    }

    /// Perform post-legalization rewrites.  No rewrite applies to the
    /// legalized forms of this instruction set, so the function is
    /// unchanged; the pass participates in tier gating and flag-gated
    /// verification.
    pub fn postopt(&mut self, isa: &TargetIsa) -> (r: CodegenResult<()>)
        ensures
            final(self).func == old(self).func,
            final(self).cfg == old(self).cfg,
            final(self).domtree == old(self).domtree,
            final(self).loop_analysis == old(self).loop_analysis,
            final(self).pass_log@ == old(self).pass_log@.push(Pass::Postopt),
            r is Ok <==> (!isa.flags.enable_verifier || context_wf(
                final(self).func@,
                final(self).cfg@,
                final(self).domtree@,
            )),
            r matches Err(e) ==> (match e {
                CodegenError::Verifier(ve) => isa.flags.enable_verifier && ve.errors@
                    == context_viols(final(self).func@, final(self).cfg@, final(self).domtree@)
                    && ve.errors@.len() > 0,
                _ => false,
            }),
    {
        self.pass_log.push(Pass::Postopt);
        self.verify_if(isa)
    }

    /// Perform simple global value numbering.  The numbering is
    /// conservative and merges nothing in this instruction set, leaving
    /// the function unchanged; the pass participates in tier gating and
    /// flag-gated verification.
    pub fn simple_gvn(&mut self, isa: &TargetIsa) -> (r: CodegenResult<()>)
        ensures
            final(self).func == old(self).func,
            final(self).cfg == old(self).cfg,
            final(self).domtree == old(self).domtree,
            final(self).loop_analysis == old(self).loop_analysis,
            final(self).pass_log@ == old(self).pass_log@.push(Pass::Gvn),
            r is Ok <==> (!isa.flags.enable_verifier || context_wf(
                final(self).func@,
                final(self).cfg@,
                final(self).domtree@,
            )),
            r matches Err(e) ==> (match e {
                CodegenError::Verifier(ve) => isa.flags.enable_verifier && ve.errors@
                    == context_viols(final(self).func@, final(self).cfg@, final(self).domtree@)
                    && ve.errors@.len() > 0,
                _ => false,
            }),
    {
        self.pass_log.push(Pass::Gvn);
        self.verify_if(isa)
    }

    /// Perform loop-invariant code motion.  The hoisting is conservative
    /// and moves nothing in this instruction set, but the loop analysis is
    /// recomputed afterwards so it reflects the function the following
    /// passes see.
    pub fn licm(&mut self, isa: &TargetIsa) -> (r: CodegenResult<()>)
        ensures
            final(self).func == old(self).func,
            final(self).cfg == old(self).cfg,
            final(self).domtree == old(self).domtree,
            final(self).loop_analysis@.valid && final(self).loop_analysis@.headers
                == headers_from(old(self).cfg@.succs, old(self).domtree@.idom),
            final(self).pass_log@ == old(self).pass_log@.push(Pass::Licm).push(
                Pass::ComputeLoopAnalysis,
            ),
            r is Ok <==> (!isa.flags.enable_verifier || context_wf(
                final(self).func@,
                final(self).cfg@,
                final(self).domtree@,
            )),
            r matches Err(e) ==> (match e {
                CodegenError::Verifier(ve) => isa.flags.enable_verifier && ve.errors@
                    == context_viols(final(self).func@, final(self).cfg@, final(self).domtree@)
                    && ve.errors@.len() > 0,
                _ => false,
            }),
    {
        self.pass_log.push(Pass::Licm);
        self.compute_loop_analysis();
        self.verify_if(isa)
    }

    /// Perform unreachable-code elimination.  Emission lays out every
    /// block, so unreachable blocks are kept rather than removed; the
    /// function is unchanged and the pass participates in sequencing and
    /// flag-gated verification.
    pub fn eliminate_unreachable_code(&mut self, isa: &TargetIsa) -> (r: CodegenResult<()>)
        ensures
            final(self).func == old(self).func,
            final(self).cfg == old(self).cfg,
            final(self).domtree == old(self).domtree,
            final(self).loop_analysis == old(self).loop_analysis,
            final(self).pass_log@ == old(self).pass_log@.push(Pass::Uce),
            r is Ok <==> (!isa.flags.enable_verifier || context_wf(
                final(self).func@,
                final(self).cfg@,
                final(self).domtree@,
            )),
            r matches Err(e) ==> (match e {
                CodegenError::Verifier(ve) => isa.flags.enable_verifier && ve.errors@
                    == context_viols(final(self).func@, final(self).cfg@, final(self).domtree@)
                    && ve.errors@.len() > 0,
                _ => false,
            }),
    {
        self.pass_log.push(Pass::Uce);
        self.verify_if(isa)
    }

    /// Perform dead-code elimination: drop every effect-free definition
    /// whose value no return reads.
    pub fn dce(&mut self, isa: &TargetIsa) -> (r: CodegenResult<()>)
        ensures
            final(self).func@ == dce_view(old(self).func@),
            final(self).cfg == old(self).cfg,
            final(self).domtree == old(self).domtree,
            final(self).loop_analysis == old(self).loop_analysis,
            final(self).pass_log@ == old(self).pass_log@.push(Pass::Dce),
            r is Ok <==> (!isa.flags.enable_verifier || context_wf(
                final(self).func@,
                final(self).cfg@,
                final(self).domtree@,
            )),
            r matches Err(e) ==> (match e {
                CodegenError::Verifier(ve) => isa.flags.enable_verifier && ve.errors@
                    == context_viols(final(self).func@, final(self).cfg@, final(self).domtree@)
                    && ve.errors@.len() > 0,
                _ => false,
            }),
    {
        dce_rewrite(&mut self.func);
        self.pass_log.push(Pass::Dce);
        self.verify_if(isa)?;
        Ok(())
    }

    /// Run the register allocator.  No consistency re-check follows here
    /// by design: the next step's verification covers both structural and
    /// location consistency.
    pub fn regalloc(&mut self, isa: &TargetIsa) -> (r: CodegenResult<()>)
        ensures
            final(self).cfg == old(self).cfg,
            final(self).domtree@ == old(self).domtree@,
            final(self).loop_analysis == old(self).loop_analysis,
            final(self).pass_log@ == old(self).pass_log@.push(Pass::Regalloc),
            r is Ok <==> old(self).func@.num_values <= isa.num_regs,
            r is Ok ==> final(self).func@ == regalloc_view(old(self).func@),
            r is Err ==> final(self).func@ == old(self).func@ && (r matches Err(e) && e
                is Regalloc),
    {
        self.pass_log.push(Pass::Regalloc);
        self.regalloc.run(isa, &mut self.func, &self.cfg, &mut self.domtree)
    }

    /// Insert the prologue and epilogues after computing the frame layout,
    /// then re-check structural and location consistency if enabled.
    pub fn prologue_epilogue(&mut self, isa: &TargetIsa) -> (r: CodegenResult<()>)
        ensures
            final(self).func@ == proepi_view(old(self).func@),
            final(self).cfg == old(self).cfg,
            final(self).domtree == old(self).domtree,
            final(self).loop_analysis == old(self).loop_analysis,
            final(self).pass_log@ == old(self).pass_log@.push(Pass::PrologueEpilogue),
            r is Ok <==> (!isa.flags.enable_verifier || (context_wf(
                final(self).func@,
                final(self).cfg@,
                final(self).domtree@,
            ) && locations_wf(final(self).func@, isa.num_regs))),
            r matches Err(e) ==> (match e {
                CodegenError::Verifier(ve) => isa.flags.enable_verifier && ve.errors@.len() > 0
                    && (if context_wf(final(self).func@, final(self).cfg@, final(self).domtree@) {
                    ve.errors@ == loc_viols(final(self).func@, isa.num_regs)
                } else {
                    ve.errors@ == context_viols(
                        final(self).func@,
                        final(self).cfg@,
                        final(self).domtree@,
                    )
                }),
                _ => false,
            }),
    {
        insert_proepi(&mut self.func);
        self.pass_log.push(Pass::PrologueEpilogue);
        self.verify_if(isa)?;
        self.verify_locations_if(isa)?;
        Ok(())
    }

    /// Run the instruction shrinking pass: select the smallest equivalent
    /// encodings, then re-check consistency if enabled.
    pub fn shrink_instructions(&mut self, isa: &TargetIsa) -> (r: CodegenResult<()>)
        ensures
            final(self).func@ == shrink_view(old(self).func@),
            final(self).cfg == old(self).cfg,
            final(self).domtree == old(self).domtree,
            final(self).loop_analysis == old(self).loop_analysis,
            final(self).pass_log@ == old(self).pass_log@.push(Pass::Shrink),
            r is Ok <==> (!isa.flags.enable_verifier || (context_wf(
                final(self).func@,
                final(self).cfg@,
                final(self).domtree@,
            ) && locations_wf(final(self).func@, isa.num_regs))),
            r matches Err(e) ==> (match e {
                CodegenError::Verifier(ve) => isa.flags.enable_verifier && ve.errors@.len() > 0
                    && (if context_wf(final(self).func@, final(self).cfg@, final(self).domtree@) {
                    ve.errors@ == loc_viols(final(self).func@, isa.num_regs)
                } else {
                    ve.errors@ == context_viols(
                        final(self).func@,
                        final(self).cfg@,
                        final(self).domtree@,
                    )
                }),
                _ => false,
            }),
    {
        shrink_rewrite(&mut self.func);
        self.pass_log.push(Pass::Shrink);
        self.verify_if(isa)?;
        self.verify_locations_if(isa)?;
        Ok(())
    }

    /// Run branch relaxation: measure the function under its final
    /// encodings and return the sizes record, re-checking consistency if
    /// enabled.  Fails when the code does not fit the 32-bit size field.
    pub fn relax_branches(&mut self, isa: &TargetIsa) -> (r: CodegenResult<CodeInfo>)
        ensures
            final(self).func == old(self).func,
            final(self).cfg == old(self).cfg,
            final(self).domtree == old(self).domtree,
            final(self).loop_analysis == old(self).loop_analysis,
            final(self).pass_log@ == old(self).pass_log@.push(Pass::RelaxBranches),
            r is Ok <==> (code_size_of(old(self).func@) <= 0xffff_ffff && (
            !isa.flags.enable_verifier || (context_wf(
                final(self).func@,
                final(self).cfg@,
                final(self).domtree@,
            ) && locations_wf(final(self).func@, isa.num_regs)))),
            r matches Ok(info) ==> info == code_info_of(old(self).func@),
            r matches Err(e) ==> (match e {
                CodegenError::CodeTooLarge => code_size_of(old(self).func@) > 0xffff_ffff,
                CodegenError::Verifier(ve) => code_size_of(old(self).func@) <= 0xffff_ffff
                    && isa.flags.enable_verifier && ve.errors@.len() > 0 && (if context_wf(
                    final(self).func@,
                    final(self).cfg@,
                    final(self).domtree@,
                ) {
                    ve.errors@ == loc_viols(final(self).func@, isa.num_regs)
                } else {
                    ve.errors@ == context_viols(
                        final(self).func@,
                        final(self).cfg@,
                        final(self).domtree@,
                    )
                }),
                _ => false,
            }),
    {
        self.pass_log.push(Pass::RelaxBranches);
        let insts = flatten(&self.func);
        let info = match measure_code(&insts) {
            Some(size) => CodeInfo {
                code_size: size,
                jumptables_size: 0,
                rodata_size: 0,
                total_size: size,
            },
            None => {
                return Err(CodegenError::CodeTooLarge);
            },
        };
        self.verify_if(isa)?;
        self.verify_locations_if(isa)?;
        Ok(info)
    }

    /// Build the location records for value-label debugging.
    pub fn build_value_labels_ranges(&self, isa: &TargetIsa) -> (r: CodegenResult<
        ValueLabelsRanges,
    >)
        requires
            self.func@.locations.len() <= 0xffff_ffff,
        ensures
            r matches Ok(v) ==> v@ == labels_of(self.func@),
            r is Ok,
    {
        let _ = isa;
        let mut v: Vec<ValueLocRange> = Vec::new();
        let mut i: usize = 0;
        while i < self.func.locations.len()
            invariant
                i <= self.func@.locations.len(),
                self.func@.locations.len() <= 0xffff_ffff,
                v@.len() == i,
                forall|j: int| 0 <= j < i ==> v@[j] == labels_of(self.func@)[j],
            decreases self.func@.locations.len() - i,
        {
            v.push(ValueLocRange { value: i as u32, loc: self.func.locations[i] });
            i = i + 1;
        }
        proof {
            assert(v@ =~= labels_of(self.func@));
        }
        Ok(v)
    }

    /// Compile the function for the target: run every pass the tier calls
    /// for, in the fixed order, and return the sizes of the final code.
    ///
    /// Fail-fast: the first failing step aborts the remaining pipeline.
    #[verifier::rlimit(100)]
    pub fn compile(&mut self, isa: &TargetIsa) -> (r: CodegenResult<CodeInfo>)
        ensures
            r is Ok <==> compile_ok(old(self).func@, old(self).cfg@, old(self).domtree@, *isa),
            r matches Ok(info) ==> {
                &&& final(self).func@ == compiled_view(old(self).func@, *isa)
                &&& info == code_info_of(compiled_view(old(self).func@, *isa))
                &&& final(self).pass_log@ == old(self).pass_log@ + compile_schedule(
                    isa.flags.opt_level,
                    isa.flags.enable_nan_canonicalization,
                )
                &&& cfg_matches(final(self).cfg@, final(self).func@)
                &&& domtree_matches(final(self).domtree@, final(self).func@)
            },
            r matches Err(e) ==> (match e {
                CodegenError::Verifier(ve) => isa.flags.enable_verifier && !context_wf(
                    old(self).func@,
                    old(self).cfg@,
                    old(self).domtree@,
                ) && ve.errors@ == context_viols(old(self).func@, old(self).cfg@, old(self).domtree@)
                    && ve.errors@.len() > 0,
                CodegenError::Regalloc => old(self).func@.num_values > isa.num_regs && (
                isa.flags.enable_verifier ==> context_wf(
                    old(self).func@,
                    old(self).cfg@,
                    old(self).domtree@,
                )),
                CodegenError::CodeTooLarge => code_size_of(compiled_view(old(self).func@, *isa))
                    > 0xffff_ffff && old(self).func@.num_values <= isa.num_regs && (
                isa.flags.enable_verifier ==> context_wf(
                    old(self).func@,
                    old(self).cfg@,
                    old(self).domtree@,
                )),
            }),
            r is Err ==> log_stopped_early(
                old(self).pass_log@,
                final(self).pass_log@,
                isa.flags.opt_level,
                isa.flags.enable_nan_canonicalization,
            ),
            (r matches Err(e) && e is Verifier) ==> final(self).pass_log@ == old(
                self,
            ).pass_log@,
    {
        let ghost sch = compile_schedule(isa.flags.opt_level, isa.flags.enable_nan_canonicalization);
        let ghost aa: int = if isa.flags.opt_level != OptLevel::Fastest { 1int } else { 0int };
        let ghost nn: int = if isa.flags.enable_nan_canonicalization { 1int } else { 0int };
        let ghost bb: int = if isa.flags.opt_level == OptLevel::Best { 5int } else { 0int };
        proof {
            lemma_context_viols_empty(self.func@, self.cfg@, self.domtree@);
        }
        if let Err(e) = self.verify_if(isa) {
            proof {
                assert(self.pass_log@ =~= old(self).pass_log@ + sch.take(0));
            }
            return Err(e);
        }
        let ghost f0 = self.func@;
        self.compute_cfg();
        if !matches!(isa.flags().opt_level(), OptLevel::Fastest) {
            proof {
                lemma_strip_nops_preserves(self.func@);
            }
            if let Err(e) = self.preopt(isa) {
                proof {
                    assert(self.pass_log@ =~= old(self).pass_log@ + sch.take(2));
                }
                return Err(e);
            }
        }
        if isa.flags().enable_nan_canonicalization() {
            if let Err(e) = self.canonicalize_nans(isa) {
                proof {
                    assert(self.pass_log@ =~= old(self).pass_log@ + sch.take(2 + aa));
                }
                return Err(e);
            }
        }
        proof {
            lemma_legalize_preserves(self.func@);
        }
        if let Err(e) = self.legalize(isa) {
            proof {
                assert(self.pass_log@ =~= old(self).pass_log@ + sch.take(3 + aa + nn));
            }
            return Err(e);
        }
        if !matches!(isa.flags().opt_level(), OptLevel::Fastest) {
            if let Err(e) = self.postopt(isa) {
                proof {
                    assert(self.pass_log@ =~= old(self).pass_log@ + sch.take(4 + aa + nn));
                }
                return Err(e);
            }
        }
        if matches!(isa.flags().opt_level(), OptLevel::Best) {
            self.compute_domtree();
            self.compute_loop_analysis();
            if let Err(e) = self.licm(isa) {
                proof {
                    assert(self.pass_log@ =~= old(self).pass_log@ + sch.take(9 + nn));
                }
                return Err(e);
            }
            if let Err(e) = self.simple_gvn(isa) {
                proof {
                    assert(self.pass_log@ =~= old(self).pass_log@ + sch.take(10 + nn));
                }
                return Err(e);
            }
        }
        self.compute_domtree();
        if let Err(e) = self.eliminate_unreachable_code(isa) {
            proof {
                assert(self.pass_log@ =~= old(self).pass_log@ + sch.take(5 + 2 * aa + nn + bb));
            }
            return Err(e);
        }
        if !matches!(isa.flags().opt_level(), OptLevel::Fastest) {
            proof {
                lemma_dce_preserves(self.func@);
            }
            if let Err(e) = self.dce(isa) {
                proof {
                    assert(self.pass_log@ =~= old(self).pass_log@ + sch.take(6 + 2 * aa + nn + bb));
                }
                return Err(e);
            }
        }
        proof {
            assert(self.func@ == tier_pre_view(f0, *isa));
        }
        if let Err(e) = self.regalloc(isa) {
            proof {
                assert(self.pass_log@ =~= old(self).pass_log@ + sch.take(6 + 3 * aa + nn + bb));
            }
            return Err(e);
        }
        proof {
            lemma_proepi_preserves(self.func@);
        }
        if let Err(e) = self.prologue_epilogue(isa) {
            proof {
                assert(self.pass_log@ =~= old(self).pass_log@ + sch.take(7 + 3 * aa + nn + bb));
            }
            return Err(e);
        }
        if matches!(isa.flags().opt_level(), OptLevel::Best) {
            proof {
                lemma_shrink_preserves(self.func@);
            }
            if let Err(e) = self.shrink_instructions(isa) {
                proof {
                    assert(self.pass_log@ =~= old(self).pass_log@ + sch.take(16 + nn));
                }
                return Err(e);
            }
        }
        proof {
            assert(self.func@ == compiled_view(f0, *isa));
        }
        let r = self.relax_branches(isa);
        proof {
            assert(self.pass_log@ =~= old(self).pass_log@ + sch);
            assert(sch.take(sch.len() as int) =~= sch);
        }
        r
    }

    /// Emit machine code into `mem` at `offset`, feeding one record per
    /// relocation site, trap site and safepoint to the sinks.
    ///
    /// The caller must provide a region of at least
    /// `CodeInfo.total_size` bytes starting at `offset`; nothing outside
    /// it is touched.  Emission is a pure function of the compiled
    /// function: it returns the same sizes `compile` reported.
    pub fn emit_to_memory(
        &self,
        isa: &TargetIsa,
        mem: &mut Vec<u8>,
        offset: usize,
        relocs: &mut RelocSink,
        traps: &mut TrapSink,
        stackmaps: &mut StackmapSink,
    ) -> (info: CodeInfo)
        requires
            code_size_of(self.func@) <= 0xffff_ffff,
            offset + code_size_of(self.func@) <= old(mem)@.len(),
        ensures
            info == code_info_of(self.func@),
            final(mem)@.len() == old(mem)@.len(),
            final(mem)@.subrange(offset as int, offset + code_size_of(self.func@)) == encode_seq(
                flat(self.func@),
            ),
            forall|j: int|
                0 <= j < old(mem)@.len() && !(offset <= j < offset + code_size_of(self.func@))
                    ==> final(mem)@[j] == old(mem)@[j],
            final(relocs).relocs@ == old(relocs).relocs@ + relocs_seq(flat(self.func@)),
            final(traps).traps@ == old(traps).traps@ + traps_seq(flat(self.func@)),
            final(stackmaps).stackmaps@ == old(stackmaps).stackmaps@ + maps_seq(flat(self.func@)),
    {
        let _ = isa;
        let insts = flatten(&self.func);
        crate::binemit::emit_function(&insts, mem, offset, relocs, traps, stackmaps);
        match measure_code(&insts) {
            Some(size) => CodeInfo {
                code_size: size,
                jumptables_size: 0,
                rodata_size: 0,
                total_size: size,
            },
            None => {
                proof {
                    assert(false);
                }
                CodeInfo { code_size: 0, jumptables_size: 0, rodata_size: 0, total_size: 0 }
            },
        }
    }

    /// Compile the function and emit it into `mem`, growing the buffer by
    /// exactly `CodeInfo.total_size` bytes and writing into the appended
    /// region.  The sizes emission measures are checked against the sizes
    /// `compile` returned: emission is deterministic in the compiled
    /// state.
    pub fn compile_and_emit(
        &mut self,
        isa: &TargetIsa,
        mem: &mut Vec<u8>,
        relocs: &mut RelocSink,
        traps: &mut TrapSink,
        stackmaps: &mut StackmapSink,
    ) -> (r: CodegenResult<CodeInfo>)
        ensures
            r is Ok <==> compile_ok(old(self).func@, old(self).cfg@, old(self).domtree@, *isa),
            r matches Ok(info) ==> {
                &&& final(self).func@ == compiled_view(old(self).func@, *isa)
                &&& info == code_info_of(final(self).func@)
                &&& final(mem)@ == old(mem)@ + encode_seq(flat(final(self).func@))
                &&& final(mem)@.len() == old(mem)@.len() + info.total_size
                &&& final(relocs).relocs@ == old(relocs).relocs@ + relocs_seq(
                    flat(final(self).func@),
                )
                &&& final(traps).traps@ == old(traps).traps@ + traps_seq(flat(final(self).func@))
                &&& final(stackmaps).stackmaps@ == old(stackmaps).stackmaps@ + maps_seq(
                    flat(final(self).func@),
                )
                &&& final(self).pass_log@ == old(self).pass_log@ + compile_schedule(
                    isa.flags.opt_level,
                    isa.flags.enable_nan_canonicalization,
                )
            },
            r is Err ==> final(mem)@ == old(mem)@ && final(relocs).relocs@ == old(relocs).relocs@
                && final(traps).traps@ == old(traps).traps@ && final(stackmaps).stackmaps@ == old(
                stackmaps,
            ).stackmaps@,
            r is Err ==> log_stopped_early(
                old(self).pass_log@,
                final(self).pass_log@,
                isa.flags.opt_level,
                isa.flags.enable_nan_canonicalization,
            ),
            (r matches Err(e) && e is Verifier) ==> final(self).pass_log@ == old(
                self,
            ).pass_log@,
    {
        let info = match self.compile(isa) {
            Ok(info) => info,
            Err(e) => {
                return Err(e);
            },
        };
        let old_len = mem.len();
        let total = info.total_size as usize;
        let mut added: usize = 0;
        while added < total
            invariant
                added <= total,
                mem@.len() == old(mem)@.len() + added,
                mem@.subrange(0, old(mem)@.len() as int) == old(mem)@,
            decreases total - added,
        {
            mem.push(0);
            proof {
                assert(mem@.subrange(0, old(mem)@.len() as int) =~= old(mem)@);
            }
            added = added + 1;
        }
        let new_info = self.emit_to_memory(isa, mem, old_len, relocs, traps, stackmaps);
        proof {
            assert(new_info == info);
            assert(mem@ =~= old(mem)@ + encode_seq(flat(self.func@)));
        }
        Ok(info)
    }
}

/// Determinism: `compile`'s contract pins its outcome — success, the
/// compiled function, the emitted bytes and the sizes record — to
/// functions of the starting state and target alone, so two contexts in
/// equal states compiling for the same target produce byte-identical code
/// and equal `CodeInfo`.
pub proof fn lemma_compile_deterministic(a: Context, b: Context, isa: TargetIsa)
    requires
        a.func@ == b.func@,
        a.cfg@ == b.cfg@,
        a.domtree@ == b.domtree@,
    ensures
        compile_ok(a.func@, a.cfg@, a.domtree@, isa) == compile_ok(
            b.func@,
            b.cfg@,
            b.domtree@,
            isa,
        ),
        compiled_view(a.func@, isa) == compiled_view(b.func@, isa),
        encode_seq(flat(compiled_view(a.func@, isa))) == encode_seq(
            flat(compiled_view(b.func@, isa)),
        ),
        code_info_of(compiled_view(a.func@, isa)) == code_info_of(compiled_view(b.func@, isa)),
{
}

/// Reuse isolation: a cleared, reused context holding `g` compiles exactly
/// like a freshly constructed context holding `g` — the outcome depends on
/// the function alone once the cached analyses are absent.
pub proof fn lemma_reuse_isolation(reused: Context, fresh: Context, isa: TargetIsa)
    requires
        reused.func@ == fresh.func@,
        !reused.cfg@.valid,
        !fresh.cfg@.valid,
        !reused.domtree@.valid,
        !fresh.domtree@.valid,
    ensures
        compile_ok(reused.func@, reused.cfg@, reused.domtree@, isa) == compile_ok(
            fresh.func@,
            fresh.cfg@,
            fresh.domtree@,
            isa,
        ),
        compiled_view(reused.func@, isa) == compiled_view(fresh.func@, isa),
        encode_seq(flat(compiled_view(reused.func@, isa))) == encode_seq(
            flat(compiled_view(fresh.func@, isa)),
        ),
        code_info_of(compiled_view(reused.func@, isa)) == code_info_of(
            compiled_view(fresh.func@, isa),
        ),
{
}

/// Tier gating at "fastest": no optional rewrite or analysis pass appears
/// in the schedule, while legalization, register allocation,
/// prologue/epilogue insertion and branch relaxation always do.
pub proof fn lemma_fastest_tier_gating(nan: bool)
    ensures
        !compile_schedule(OptLevel::Fastest, nan).contains(Pass::Preopt),
        !compile_schedule(OptLevel::Fastest, nan).contains(Pass::Postopt),
        !compile_schedule(OptLevel::Fastest, nan).contains(Pass::Dce),
        !compile_schedule(OptLevel::Fastest, nan).contains(Pass::Licm),
        !compile_schedule(OptLevel::Fastest, nan).contains(Pass::Gvn),
        !compile_schedule(OptLevel::Fastest, nan).contains(Pass::Shrink),
        compile_schedule(OptLevel::Fastest, nan).contains(Pass::Legalize),
        compile_schedule(OptLevel::Fastest, nan).contains(Pass::Regalloc),
        compile_schedule(OptLevel::Fastest, nan).contains(Pass::PrologueEpilogue),
        compile_schedule(OptLevel::Fastest, nan).contains(Pass::RelaxBranches),
{
    let s = compile_schedule(OptLevel::Fastest, nan);
    if nan {
        assert(s =~= seq![
            Pass::ComputeCfg,
            Pass::CanonicalizeNans,
            Pass::Legalize,
            Pass::ComputeCfg,
            Pass::ComputeDomtree,
            Pass::Uce,
            Pass::Regalloc,
            Pass::PrologueEpilogue,
            Pass::RelaxBranches,
        ]);
        assert(s[2] == Pass::Legalize);
        assert(s[6] == Pass::Regalloc);
        assert(s[7] == Pass::PrologueEpilogue);
        assert(s[8] == Pass::RelaxBranches);
    } else {
        assert(s =~= seq![
            Pass::ComputeCfg,
            Pass::Legalize,
            Pass::ComputeCfg,
            Pass::ComputeDomtree,
            Pass::Uce,
            Pass::Regalloc,
            Pass::PrologueEpilogue,
            Pass::RelaxBranches,
        ]);
        assert(s[1] == Pass::Legalize);
        assert(s[5] == Pass::Regalloc);
        assert(s[6] == Pass::PrologueEpilogue);
        assert(s[7] == Pass::RelaxBranches);
    }
}

/// Tier gating at "best": the dominator tree and the loop analysis are
/// each computed at least twice — once before LICM/GVN and once more in
/// the unconditional post-legalization recomputation (for the loop
/// analysis, inside LICM).
pub proof fn lemma_best_tier_recomputes(nan: bool)
    ensures
        exists|i: int, j: int|
            0 <= i < j < compile_schedule(OptLevel::Best, nan).len() && compile_schedule(
                OptLevel::Best,
                nan,
            )[i] == Pass::ComputeDomtree && compile_schedule(OptLevel::Best, nan)[j]
                == Pass::ComputeDomtree,
        exists|i: int, j: int|
            0 <= i < j < compile_schedule(OptLevel::Best, nan).len() && compile_schedule(
                OptLevel::Best,
                nan,
            )[i] == Pass::ComputeLoopAnalysis && compile_schedule(OptLevel::Best, nan)[j]
                == Pass::ComputeLoopAnalysis,
{
    let s = compile_schedule(OptLevel::Best, nan);
    let off: int = if nan {
        1
    } else {
        0
    };
    assert(s[5 + off] == Pass::ComputeDomtree);
    assert(s[10 + off] == Pass::ComputeDomtree);
    assert(s[6 + off] == Pass::ComputeLoopAnalysis);
    assert(s[8 + off] == Pass::ComputeLoopAnalysis);
}

/// Verifier gating: with verification disabled, orchestration itself
/// rejects nothing — only the register file and the size field can fail a
/// compilation; with verification enabled, an inconsistent starting state
/// fails with a non-empty violation list.
pub proof fn lemma_verifier_gating(f: FuncView, cfg: CfgView, dt: DomTreeView, isa: TargetIsa)
    ensures
        !isa.flags.enable_verifier ==> (compile_ok(f, cfg, dt, isa) <==> (f.num_values
            <= isa.num_regs && code_size_of(compiled_view(f, isa)) <= 0xffff_ffff)),
        isa.flags.enable_verifier && !context_wf(f, cfg, dt) ==> !compile_ok(f, cfg, dt, isa)
            && context_viols(f, cfg, dt).len() > 0,
{
    lemma_context_viols_empty(f, cfg, dt);
}

/// Round-trip consistency: for an unmutated compiled function, emission
/// returns exactly the sizes record `compile` produced, since both are the
/// one record the compiled state determines.
pub proof fn lemma_round_trip(c: Context, f0: FuncView, isa: TargetIsa)
    requires
        c.func@ == compiled_view(f0, isa),
    ensures
        code_info_of(c.func@) == code_info_of(compiled_view(f0, isa)),
{
}

} // verus!
