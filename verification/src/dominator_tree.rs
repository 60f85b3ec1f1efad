//! The immediate-dominator relation over control-flow-graph nodes.
//!
//! With at most one successor per block, the blocks reachable from the
//! entry form a single walk, and the immediate dominator of a block first
//! reached over the edge `(p, b)` is `p`.  The tree is valid only relative
//! to the successor table it was computed from and must be cleared whenever
//! the control flow may have changed.

use crate::flowgraph::{cfg_of, ControlFlowGraph};
use crate::ir::{FuncView, Function};
use vstd::prelude::*;

verus! {

/// The number of `false` entries of `s`.
pub open spec fn count_false(s: Seq<bool>) -> nat
    decreases s.len(),
{
    if s.len() == 0 {
        0
    } else {
        count_false(s.drop_last()) + if s.last() {
            0nat
        } else {
            1nat
        }
    }
}

/// Marking a `false` entry `true` lowers the count by one.
pub proof fn lemma_count_false_update(s: Seq<bool>, i: int)
    requires
        0 <= i < s.len(),
        !s[i],
    ensures
        count_false(s.update(i, true)) + 1 == count_false(s),
    decreases s.len(),
{
    if i == s.len() - 1 {
        assert(s.update(i, true).drop_last() =~= s.drop_last());
    } else {
        assert(s.update(i, true).drop_last() =~= s.drop_last().update(i, true));
        lemma_count_false_update(s.drop_last(), i);
    }
}

/// A sequence of `false` entries counts its own length.
pub proof fn lemma_count_false_all(s: Seq<bool>)
    requires
        forall|i: int| 0 <= i < s.len() ==> !s[i],
    ensures
        count_false(s) == s.len(),
    decreases s.len(),
{
    if s.len() > 0 {
        lemma_count_false_all(s.drop_last());
    }
}

/// One walk over the flow graph from `cur`, recording the immediate
/// dominator of each block the first time it is reached.
pub open spec fn walk_idoms(
    succs: Seq<Option<u32>>,
    cur: int,
    idom: Seq<Option<usize>>,
    visited: Seq<bool>,
    fuel: nat,
) -> Seq<Option<usize>>
    decreases fuel,
{
    if fuel == 0 || !(0 <= cur < succs.len()) || visited[cur] {
        idom
    } else {
        let visited2 = visited.update(cur, true);
        match succs[cur] {
            None => idom,
            Some(t) => {
                let idom2 = if 0 <= t < succs.len() && !visited2[t as int] {
                    idom.update(t as int, Some(cur as usize))
                } else {
                    idom
                };
                walk_idoms(succs, t as int, idom2, visited2, (fuel - 1) as nat)
            },
        }
    }
}

/// The immediate dominator of each block of the graph `succs`; `None` for
/// the entry and for unreachable blocks.
pub open spec fn idoms_of(succs: Seq<Option<u32>>) -> Seq<Option<usize>> {
    walk_idoms(
        succs,
        0,
        Seq::new(succs.len(), |i: int| None),
        Seq::new(succs.len(), |i: int| false),
        succs.len() + 1,
    )
}

/// Whether block `t` lies on the immediate-dominator chain from block `b`
/// up to the entry, within `fuel` steps.
pub open spec fn on_idom_path(
    idom: Seq<Option<usize>>,
    t: int,
    b: int,
    fuel: nat,
) -> bool
    decreases fuel,
{
    if t == b {
        true
    } else if fuel == 0 || !(0 <= b < idom.len()) {
        false
    } else {
        match idom[b] {
            Some(p) => on_idom_path(idom, t, p as int, (fuel - 1) as nat),
            None => false,
        }
    }
}

/// Whether block `t` dominates block `b` under the dominator table `idom`:
/// `t` lies on the chain of immediate dominators from `b` to the entry.
pub open spec fn dominates(idom: Seq<Option<usize>>, t: int, b: int) -> bool {
    on_idom_path(idom, t, b, idom.len())
}

/// Exec check mirroring [`dominates`].
pub fn check_dominates(idom: &Vec<Option<usize>>, t: usize, b: usize) -> (r: bool)
    ensures
        r == dominates(idom@, t as int, b as int),
{
    let n = idom.len();
    let mut cur: usize = b;
    let mut steps: usize = n;
    loop
        invariant
            n == idom@.len(),
            dominates(idom@, t as int, b as int) == on_idom_path(
                idom@,
                t as int,
                cur as int,
                steps as nat,
            ),
        decreases steps,
    {
        if cur == t {
            return true;
        }
        if steps == 0 || cur >= n {
            return false;
        }
        match idom[cur] {
            Some(p) => {
                steps = steps - 1;
                cur = p;
            },
            None => {
                return false;
            },
        }
    }
}

/// The immediate-dominator tree of a function's flow graph.
pub struct DominatorTree {
    /// Whether the tree reflects some successor table; cleared is absent.
    pub valid: bool,
    /// The immediate dominator of each block.
    pub idom: Vec<Option<usize>>,
}

/// The mathematical shape of a `DominatorTree`.
#[verifier::ext_equal]
pub ghost struct DomTreeView {
    /// Whether the tree is present.
    pub valid: bool,
    /// The immediate dominator of each block.
    pub idom: Seq<Option<usize>>,
}

impl View for DominatorTree {
    type V = DomTreeView;

    open spec fn view(&self) -> DomTreeView {
        DomTreeView { valid: self.valid, idom: self.idom@ }
    }
}

/// Whether `dt` is present and matches the current flow graph of `f`.
pub open spec fn domtree_matches(dt: DomTreeView, f: FuncView) -> bool {
    dt.valid && dt.idom == idoms_of(cfg_of(f))
}

impl DominatorTree {
    /// Create an absent (cleared) tree.
    pub fn new() -> (r: DominatorTree)
        ensures
            !r@.valid,
            r@.idom == Seq::<Option<usize>>::empty(),
    {
        DominatorTree { valid: false, idom: Vec::new() }
    }

    /// Reset the tree to the absent state, keeping allocations.
    pub fn clear(&mut self)
        ensures
            !final(self)@.valid,
            final(self)@.idom == Seq::<Option<usize>>::empty(),
    {
        self.valid = false;
        self.idom.clear();
    }

    /// Compute the tree from the given flow graph snapshot.
    pub fn compute(&mut self, func: &Function, cfg: &ControlFlowGraph)
        ensures
            final(self)@.valid,
            final(self)@.idom == idoms_of(cfg@.succs),
    {
        let _ = func;
        let n = cfg.succs.len();
        let mut idom: Vec<Option<usize>> = Vec::new();
        let mut visited: Vec<bool> = Vec::new();
        let mut k: usize = 0;
        while k < n
            invariant
                k <= n,
                idom@.len() == k,
                visited@.len() == k,
                forall|j: int| 0 <= j < k ==> idom@[j] is None,
                forall|j: int| 0 <= j < k ==> !visited@[j],
            decreases n - k,
        {
            idom.push(None);
            visited.push(false);
            k = k + 1;
        }
        proof {
            assert(idom@ =~= Seq::new(cfg@.succs.len(), |i: int| None::<usize>));
            assert(visited@ =~= Seq::new(cfg@.succs.len(), |i: int| false));
            lemma_count_false_all(visited@);
        }
        let ghost mut fuel: nat = (n + 1) as nat;
        let mut cur: usize = 0;
        loop
            invariant_except_break
                n == cfg.succs@.len(),
                idom@.len() == n,
                visited@.len() == n,
                fuel >= count_false(visited@) + 1,
                idoms_of(cfg@.succs) == walk_idoms(
                    cfg@.succs,
                    cur as int,
                    idom@,
                    visited@,
                    fuel,
                ),
            ensures
                idom@ == idoms_of(cfg@.succs),
                idom@.len() == n,
            decreases fuel,
        {
            if cur >= n {
                break ;
            }
            if visited[cur] {
                break ;
            }
            let step = cfg.succs[cur];
            match step {
                None => {
                    break ;
                },
                Some(t) => {
                    let ghost old_visited = visited@;
                    let ghost old_idom = idom@;
                    let ghost old_fuel = fuel;
                    visited[cur] = true;
                    let t_us = t as usize;
                    if t_us < n && !visited[t_us] {
                        idom[t_us] = Some(cur);
                    }
                    proof {
                        lemma_count_false_update(old_visited, cur as int);
                        fuel = (fuel - 1) as nat;
                        assert(visited@ =~= old_visited.update(cur as int, true));
                        assert(walk_idoms(cfg@.succs, cur as int, old_idom, old_visited, old_fuel)
                            == walk_idoms(cfg@.succs, t as int, idom@, visited@, fuel));
                    }
                    cur = t_us;
                },
            }
        }
        self.idom = idom;
        self.valid = true;
    }
}

} // verus!
