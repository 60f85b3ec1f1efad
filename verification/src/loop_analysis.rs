//! The loop-nest analysis: identification of loop headers via back edges.
//!
//! An edge is a back edge exactly when its target dominates its source,
//! so the analysis is derived from the flow graph **and** the dominator
//! tree, and is co-invalidated with the tree: it is never left standing
//! once the control flow may have changed.

use crate::dominator_tree::{check_dominates, dominates, DominatorTree};
use crate::flowgraph::ControlFlowGraph;
use crate::ir::Function;
use vstd::prelude::*;

verus! {

/// Whether the edge leaving block `b` is a back edge onto block `t`: the
/// edge exists and its target dominates its source.
pub open spec fn is_back_edge(
    succs: Seq<Option<u32>>,
    idom: Seq<Option<usize>>,
    b: int,
    t: int,
) -> bool {
    &&& 0 <= b < succs.len()
    &&& match succs[b] {
        Some(tv) => tv as int == t && dominates(idom, t, b),
        None => false,
    }
}

/// Which blocks are loop headers, judged by the flow graph `succs` and
/// the dominator table `idom`.
pub open spec fn headers_from(succs: Seq<Option<u32>>, idom: Seq<Option<usize>>) -> Seq<bool> {
    Seq::new(succs.len(), |t: int| exists|b: int| is_back_edge(succs, idom, b, t))
}

/// The loop-nest forest of a function's flow graph.
pub struct LoopAnalysis {
    /// Whether the analysis reflects some flow graph and dominator tree.
    pub valid: bool,
    /// Whether each block heads a loop.
    pub headers: Vec<bool>,
}

/// The mathematical shape of a `LoopAnalysis`.
#[verifier::ext_equal]
pub ghost struct LoopView {
    /// Whether the analysis is present.
    pub valid: bool,
    /// Whether each block heads a loop.
    pub headers: Seq<bool>,
}

impl View for LoopAnalysis {
    type V = LoopView;

    open spec fn view(&self) -> LoopView {
        LoopView { valid: self.valid, headers: self.headers@ }
    }
}

impl LoopAnalysis {
    /// Create an absent (cleared) analysis.
    pub fn new() -> (r: LoopAnalysis)
        ensures
            !r@.valid,
            r@.headers == Seq::<bool>::empty(),
    {
        LoopAnalysis { valid: false, headers: Vec::new() }
    }

    /// Reset the analysis to the absent state, keeping allocations.
    pub fn clear(&mut self)
        ensures
            !final(self)@.valid,
            final(self)@.headers == Seq::<bool>::empty(),
    {
        self.valid = false;
        self.headers.clear();
    }

    /// Compute the analysis from the given flow graph and dominator tree.
    ///
    /// The result is only meaningful when `domtree` was computed from
    /// `cfg`; the orchestrator never calls this with a stale tree.
    pub fn compute(&mut self, func: &Function, cfg: &ControlFlowGraph, domtree: &DominatorTree)
        ensures
            final(self)@.valid,
            final(self)@.headers == headers_from(cfg@.succs, domtree@.idom),
    {
        let _ = func;
        let n = cfg.succs.len();
        let mut headers: Vec<bool> = Vec::new();
        let mut k: usize = 0;
        while k < n
            invariant
                k <= n,
                headers@.len() == k,
                forall|j: int| 0 <= j < k ==> !headers@[j],
            decreases n - k,
        {
            headers.push(false);
            k = k + 1;
        }
        let mut b: usize = 0;
        while b < n
            invariant
                b <= n,
                n == cfg.succs@.len(),
                headers@.len() == n,
                forall|t: int|
                    0 <= t < n ==> (headers@[t] <==> exists|bb: int|
                        bb < b && is_back_edge(cfg@.succs, domtree@.idom, bb, t)),
            decreases n - b,
        {
            let step = cfg.succs[b];
            let marked = match step {
                Some(t) => {
                    let t_us = t as usize;
                    if t_us < n && check_dominates(&domtree.idom, t_us, b) {
                        let ghost old_headers = headers@;
                        headers[t_us] = true;
                        proof {
                            assert(is_back_edge(cfg@.succs, domtree@.idom, b as int, t_us as int));
                            assert forall|t2: int| 0 <= t2 < n implies (headers@[t2]
                                <==> exists|bb: int|
                                    bb < b + 1 && is_back_edge(
                                        cfg@.succs,
                                        domtree@.idom,
                                        bb,
                                        t2,
                                    )) by {
                                if t2 == t_us {
                                    assert(is_back_edge(cfg@.succs, domtree@.idom, b as int, t2));
                                } else {
                                    assert(headers@[t2] == old_headers[t2]);
                                    if headers@[t2] {
                                        let bb = choose|bb: int|
                                            bb < b && is_back_edge(
                                                cfg@.succs,
                                                domtree@.idom,
                                                bb,
                                                t2,
                                            );
                                        assert(is_back_edge(cfg@.succs, domtree@.idom, bb, t2));
                                    }
                                }
                            }
                        }
                        true
                    } else {
                        false
                    }
                },
                None => false,
            };
            if !marked {
                proof {
                    assert forall|t2: int| 0 <= t2 < n implies (headers@[t2] <==> exists|bb: int|
                        bb < b + 1 && is_back_edge(cfg@.succs, domtree@.idom, bb, t2)) by {
                        if !headers@[t2] {
                            assert(!is_back_edge(cfg@.succs, domtree@.idom, b as int, t2));
                        }
                    }
                }
            }
            b = b + 1;
        }
        proof {
            assert(headers@ =~= headers_from(cfg@.succs, domtree@.idom));
        }
        self.headers = headers;
        self.valid = true;
    }
}

} // verus!
