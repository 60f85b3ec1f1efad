//! The register allocator's working state.
//!
//! The allocator keeps no state across functions: its scratch assignment
//! buffer is rebuilt on every run and cleared between compilations like
//! every other owned structure.

use crate::errors::{CodegenError, CodegenResult};
use crate::dominator_tree::DominatorTree;
use crate::flowgraph::ControlFlowGraph;
use crate::ir::{copy_vec, Function};
use crate::isa::TargetIsa;
use crate::passes::regalloc_view;
use vstd::prelude::*;

verus! {

/// Register-allocation working storage, cleared and reused per function.
pub struct Context {
    /// The assignment under construction, one register per value.
    pub scratch: Vec<u32>,
}

impl Context {
    /// Create an allocator with empty working storage.
    pub fn new() -> (r: Context)
        ensures
            r.scratch@.len() == 0,
    {
        Context { scratch: Vec::new() }
    }

    /// Drop any working storage from an earlier run.
    pub fn clear(&mut self)
        ensures
            final(self).scratch@.len() == 0,
    {
        self.scratch.clear();
    }

    /// Assign a register to every value of `func`, or fail when the value
    /// table exceeds the target's register file.
    pub fn run(
        &mut self,
        isa: &TargetIsa,
        func: &mut Function,
        cfg: &ControlFlowGraph,
        domtree: &mut DominatorTree,
    ) -> (r: CodegenResult<()>)
        ensures
            r is Ok <==> old(func)@.num_values <= isa.num_regs,
            r is Ok ==> final(func)@ == regalloc_view(old(func)@),
            r is Err ==> final(func)@ == old(func)@ && (r matches Err(e) && e is Regalloc),
            final(domtree)@ == old(domtree)@,
    {
        let _ = cfg;
        if func.num_values > isa.num_regs {
            return Err(CodegenError::Regalloc);
        }
        self.scratch.clear();
        let mut v: u32 = 0;
        while v < func.num_values
            invariant
                v <= func.num_values,
                *func == *old(func),
                self.scratch@.len() == v,
                forall|k: int| 0 <= k < v ==> self.scratch@[k] == k as u32,
            decreases func.num_values - v,
        {
            self.scratch.push(v);
            v = v + 1;
        }
        func.locations = copy_vec(&self.scratch);
        proof {
            assert(func@ =~= regalloc_view(old(func)@));
        }
        Ok(())
    }
}

} // verus!
