//! The control-flow graph derived from a function's terminators.
//!
//! Every block has at most one successor in this instruction set: the
//! target of a terminating jump.  The graph is valid only as of its last
//! `compute`; passes that change terminators leave it stale, and the
//! orchestrator, not the pass, is responsible for recomputing it.

use crate::ir::{FuncView, Function, Inst};
use vstd::prelude::*;

verus! {

/// The successor of a block: the target of its terminating jump, if any.
pub open spec fn block_succ(insts: Seq<Inst>) -> Option<u32> {
    if insts.len() == 0 {
        None
    } else {
        match insts.last() {
            Inst::Jump { target } => Some(target),
            _ => None,
        }
    }
}

/// The successor table of `f`: one entry per block.
pub open spec fn cfg_of(f: FuncView) -> Seq<Option<u32>> {
    Seq::new(f.blocks.len(), |b: int| block_succ(f.blocks[b]))
}

/// Predecessor/successor edges per block, recomputed on demand.
pub struct ControlFlowGraph {
    /// Whether the graph reflects some function; cleared graphs are absent.
    pub valid: bool,
    /// The successor of each block.
    pub succs: Vec<Option<u32>>,
}

/// The mathematical shape of a `ControlFlowGraph`.
#[verifier::ext_equal]
pub ghost struct CfgView {
    /// Whether the graph is present.
    pub valid: bool,
    /// The successor of each block.
    pub succs: Seq<Option<u32>>,
}

impl View for ControlFlowGraph {
    type V = CfgView;

    open spec fn view(&self) -> CfgView {
        CfgView { valid: self.valid, succs: self.succs@ }
    }
}

/// Whether `cfg` is present and matches the current terminators of `f`.
pub open spec fn cfg_matches(cfg: CfgView, f: FuncView) -> bool {
    cfg.valid && cfg.succs == cfg_of(f)
}

impl ControlFlowGraph {
    /// Create an absent (cleared) graph.
    pub fn new() -> (r: ControlFlowGraph)
        ensures
            !r@.valid,
            r@.succs == Seq::<Option<u32>>::empty(),
    {
        ControlFlowGraph { valid: false, succs: Vec::new() }
    }

    /// Reset the graph to the absent state, keeping allocations.
    pub fn clear(&mut self)
        ensures
            !final(self)@.valid,
            final(self)@.succs == Seq::<Option<u32>>::empty(),
    {
        self.valid = false;
        self.succs.clear();
    }

    /// Compute the graph from the current terminators of `func`.
    pub fn compute(&mut self, func: &Function)
        ensures
            final(self)@.valid,
            final(self)@.succs == cfg_of(func@),
            cfg_matches(final(self)@, func@),
    {
        self.succs.clear();
        let mut b: usize = 0;
        while b < func.blocks.len()
            invariant
                b <= func.blocks.len(),
                self.succs@.len() == b,
                forall|j: int| 0 <= j < b ==> self.succs@[j] == block_succ(func@.blocks[j]),
            decreases func.blocks.len() - b,
        {
            let insts = &func.blocks[b].insts;
            if insts.len() == 0 {
                self.succs.push(None);
            } else {
                match insts[insts.len() - 1] {
                    Inst::Jump { target } => self.succs.push(Some(target)),
                    _ => self.succs.push(None),
                }
            }
            b = b + 1;
        }
        self.valid = true;
        proof {
            assert(self.succs@ =~= cfg_of(func@));
        }
    }
}

} // verus!
