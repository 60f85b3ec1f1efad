//! Structural and location-assignment consistency checks.
//!
//! A check reports the complete list of violations it finds, never just the
//! first.  Structural checks cover the terminator discipline of every
//! block, branch targets and value-table references, plus staleness of the
//! flow graph and dominator tree the context carries.  Location checks
//! cover the register assignment produced by register allocation.

use crate::dominator_tree::{idoms_of, DominatorTree, DomTreeView};
use crate::flowgraph::{cfg_of, CfgView, ControlFlowGraph};
use crate::ir::{check_terminator, def_of, is_terminator, use_of, FuncView, Function, Inst};
use vstd::prelude::*;

verus! {

/// The kind of one consistency violation.
#[derive(Clone, Copy, PartialEq, Eq, Structural, Debug)]
pub enum ViolationKind {
    /// A block holds no instruction.
    EmptyBlock,
    /// A block does not end in a terminator.
    MissingTerminator,
    /// A terminator stands before the end of its block.
    MisplacedTerminator,
    /// A jump names a block index that does not exist.
    BadJumpTarget,
    /// An instruction names a value outside the value table.
    BadValue,
    /// The stored flow graph does not match the function's terminators.
    StaleFlowGraph,
    /// The stored dominator tree does not match the current flow graph.
    StaleDominatorTree,
    /// The location table does not cover every value.
    MissingLocation,
    /// A value is assigned a register the target does not have.
    BadLocation,
}

/// One consistency violation; `block` and `index` locate it.
#[derive(Clone, Copy, PartialEq, Eq, Structural, Debug)]
pub struct Violation {
    /// What is inconsistent.
    pub kind: ViolationKind,
    /// The block concerned, where one is.
    pub block: usize,
    /// The instruction index or value id concerned, where one is.
    pub index: usize,
}

/// The complete list of violations found by one check.
#[derive(Debug)]
pub struct VerifierErrors {
    /// The violations, in scan order.
    pub errors: Vec<Violation>,
}

/// The result of an unconditional verifier run.
pub type VerifierResult<T> = Result<T, VerifierErrors>;

impl VerifierErrors {
    /// Whether no violation was found.
    pub fn is_empty(&self) -> (r: bool)
        ensures
            r == (self.errors@.len() == 0),
    {
        self.errors.len() == 0
    }
}

impl Default for VerifierErrors {
    /// An empty list of violations.
    fn default() -> (r: Self)
        ensures
            r.errors@ == Seq::<Violation>::empty(),
    {
        VerifierErrors { errors: Vec::new() }
    }
}

/// Whether one instruction respects block count `nb` and value table `nv`.
pub open spec fn inst_ok(i: Inst, nb: int, nv: u32) -> bool {
    &&& match i {
        Inst::Jump { target } => (target as int) < nb,
        _ => true,
    }
    &&& match def_of(i) {
        Some(r) => r < nv,
        None => true,
    }
    &&& match use_of(i) {
        Some(v) => v < nv,
        None => true,
    }
}

/// The violations contributed by instruction `i` of block `b`.
pub open spec fn inst_viols(s: Seq<Inst>, i: int, b: int, nb: int, nv: u32) -> Seq<Violation> {
    let x = s[i];
    (if i == s.len() - 1 && !is_terminator(x) {
        seq![Violation { kind: ViolationKind::MissingTerminator, block: b as usize, index: i as usize }]
    } else if i < s.len() - 1 && is_terminator(x) {
        seq![Violation { kind: ViolationKind::MisplacedTerminator, block: b as usize, index: i as usize }]
    } else {
        Seq::empty()
    }) + (if (match x {
        Inst::Jump { target } => (target as int) >= nb,
        _ => false,
    }) {
        seq![Violation { kind: ViolationKind::BadJumpTarget, block: b as usize, index: i as usize }]
    } else {
        Seq::empty()
    }) + (if (match def_of(x) {
        Some(r) => r >= nv,
        None => false,
    }) || (match use_of(x) {
        Some(v) => v >= nv,
        None => false,
    }) {
        seq![Violation { kind: ViolationKind::BadValue, block: b as usize, index: i as usize }]
    } else {
        Seq::empty()
    })
}

/// The violations of the first `k` instructions of block `b`.
pub open spec fn insts_viols(s: Seq<Inst>, k: int, b: int, nb: int, nv: u32) -> Seq<Violation>
    decreases k,
{
    if k <= 0 {
        Seq::empty()
    } else {
        insts_viols(s, k - 1, b, nb, nv) + inst_viols(s, k - 1, b, nb, nv)
    }
}

/// The violations of block `b` with instructions `s`.
pub open spec fn block_viols(s: Seq<Inst>, b: int, nb: int, nv: u32) -> Seq<Violation> {
    if s.len() == 0 {
        seq![Violation { kind: ViolationKind::EmptyBlock, block: b as usize, index: 0 }]
    } else {
        insts_viols(s, s.len() as int, b, nb, nv)
    }
}

/// The violations of the first `k` blocks of `f`.
pub open spec fn blocks_viols(f: FuncView, k: int) -> Seq<Violation>
    decreases k,
{
    if k <= 0 {
        Seq::empty()
    } else {
        blocks_viols(f, k - 1) + block_viols(
            f.blocks[k - 1],
            k - 1,
            f.blocks.len() as int,
            f.num_values,
        )
    }
}

/// The structural violations of the function itself.
pub open spec fn func_viols(f: FuncView) -> Seq<Violation> {
    blocks_viols(f, f.blocks.len() as int)
}

/// The violations of a function together with its cached analyses.
pub open spec fn context_viols(f: FuncView, cfg: CfgView, dt: DomTreeView) -> Seq<Violation> {
    func_viols(f) + (if cfg.valid && cfg.succs != cfg_of(f) {
        seq![Violation { kind: ViolationKind::StaleFlowGraph, block: 0, index: 0 }]
    } else {
        Seq::empty()
    }) + (if dt.valid && dt.idom != idoms_of(cfg_of(f)) {
        seq![Violation { kind: ViolationKind::StaleDominatorTree, block: 0, index: 0 }]
    } else {
        Seq::empty()
    })
}

/// Well-formedness of one block: nonempty, terminated exactly at its end,
/// and every instruction within bounds.
pub open spec fn block_wf(s: Seq<Inst>, nb: int, nv: u32) -> bool {
    &&& s.len() > 0
    &&& is_terminator(s.last())
    &&& forall|i: int| 0 <= i < s.len() - 1 ==> !is_terminator(#[trigger] s[i])
    &&& forall|i: int| 0 <= i < s.len() ==> inst_ok(#[trigger] s[i], nb, nv)
}

/// Structural well-formedness of the function itself.
pub open spec fn func_wf(f: FuncView) -> bool {
    forall|b: int|
        0 <= b < f.blocks.len() ==> block_wf(
            #[trigger] f.blocks[b],
            f.blocks.len() as int,
            f.num_values,
        )
}

/// Well-formedness of a function together with its cached analyses: any
/// analysis that is present matches the current function.
pub open spec fn context_wf(f: FuncView, cfg: CfgView, dt: DomTreeView) -> bool {
    &&& func_wf(f)
    &&& cfg.valid ==> cfg.succs == cfg_of(f)
    &&& dt.valid ==> dt.idom == idoms_of(cfg_of(f))
}

/// A scan of block `b` finds nothing exactly when the block is well formed.
proof fn lemma_insts_viols_empty(s: Seq<Inst>, k: int, b: int, nb: int, nv: u32)
    requires
        0 <= k <= s.len(),
    ensures
        insts_viols(s, k, b, nb, nv).len() == 0 <==> forall|i: int|
            0 <= i < k ==> #[trigger] inst_viols(s, i, b, nb, nv).len() == 0,
    decreases k,
{
    if k > 0 {
        lemma_insts_viols_empty(s, k - 1, b, nb, nv);
    }
}

/// A block scan finds nothing exactly when the block is well formed.
proof fn lemma_block_viols_empty(s: Seq<Inst>, b: int, nb: int, nv: u32)
    ensures
        block_viols(s, b, nb, nv).len() == 0 <==> block_wf(s, nb, nv),
{
    if s.len() > 0 {
        lemma_insts_viols_empty(s, s.len() as int, b, nb, nv);
        assert forall|i: int| 0 <= i < s.len() implies (inst_viols(s, i, b, nb, nv).len() == 0
            <==> ((i == s.len() - 1 ==> is_terminator(s[i])) && (i < s.len() - 1
            ==> !is_terminator(s[i])) && inst_ok(s[i], nb, nv))) by {}
    }
}

/// A function scan finds nothing exactly when every block is well formed.
proof fn lemma_blocks_viols_empty(f: FuncView, k: int)
    requires
        0 <= k <= f.blocks.len(),
    ensures
        blocks_viols(f, k).len() == 0 <==> forall|b: int|
            0 <= b < k ==> block_wf(#[trigger] f.blocks[b], f.blocks.len() as int, f.num_values),
    decreases k,
{
    if k > 0 {
        lemma_blocks_viols_empty(f, k - 1);
        lemma_block_viols_empty(f.blocks[k - 1], k - 1, f.blocks.len() as int, f.num_values);
    }
}

/// The full check finds nothing exactly when function and analyses are
/// consistent.
pub proof fn lemma_context_viols_empty(f: FuncView, cfg: CfgView, dt: DomTreeView)
    ensures
        context_viols(f, cfg, dt).len() == 0 <==> context_wf(f, cfg, dt),
{
    lemma_blocks_viols_empty(f, f.blocks.len() as int);
}

/// Exec comparison of two successor tables.
fn eq_succs(x: &Vec<Option<u32>>, y: &Vec<Option<u32>>) -> (r: bool)
    ensures
        r == (x@ == y@),
{
    if x.len() != y.len() {
        proof {
            assert(x@.len() != y@.len());
        }
        return false;
    }
    let mut i: usize = 0;
    while i < x.len()
        invariant
            i <= x.len(),
            x@.len() == y@.len(),
            forall|j: int| 0 <= j < i ==> x@[j] == y@[j],
        decreases x.len() - i,
    {
        let same = match (x[i], y[i]) {
            (None, None) => true,
            (Some(a), Some(b)) => a == b,
            _ => false,
        };
        if !same {
            return false;
        }
        i = i + 1;
    }
    proof {
        assert(x@ =~= y@);
    }
    true
}

/// Exec comparison of two immediate-dominator tables.
fn eq_idoms(x: &Vec<Option<usize>>, y: &Vec<Option<usize>>) -> (r: bool)
    ensures
        r == (x@ == y@),
{
    if x.len() != y.len() {
        proof {
            assert(x@.len() != y@.len());
        }
        return false;
    }
    let mut i: usize = 0;
    while i < x.len()
        invariant
            i <= x.len(),
            x@.len() == y@.len(),
            forall|j: int| 0 <= j < i ==> x@[j] == y@[j],
        decreases x.len() - i,
    {
        let same = match (x[i], y[i]) {
            (None, None) => true,
            (Some(a), Some(b)) => a == b,
            _ => false,
        };
        if !same {
            return false;
        }
        i = i + 1;
    }
    proof {
        assert(x@ =~= y@);
    }
    true
}

/// Run the structural check, returning every violation found.
pub fn check_context(func: &Function, cfg: &ControlFlowGraph, domtree: &DominatorTree) -> (v: Vec<
    Violation,
>)
    ensures
        v@ == context_viols(func@, cfg@, domtree@),
{
    let mut v: Vec<Violation> = Vec::new();
    let nb = func.blocks.len();
    let nv = func.num_values;
    let mut b: usize = 0;
    while b < nb
        invariant
            b <= nb,
            nb == func@.blocks.len(),
            nv == func@.num_values,
            v@ == blocks_viols(func@, b as int),
        decreases nb - b,
    {
        let s = &func.blocks[b].insts;
        if s.len() == 0 {
            v.push(Violation { kind: ViolationKind::EmptyBlock, block: b, index: 0 });
            proof {
                assert(v@ =~= blocks_viols(func@, b + 1));
            }
        } else {
            let ghost before = v@;
            let mut i: usize = 0;
            while i < s.len()
                invariant
                    i <= s@.len(),
                    s@ == func@.blocks[b as int],
                    b < nb,
                    nb == func@.blocks.len(),
                    nv == func@.num_values,
                    v@ == before + insts_viols(s@, i as int, b as int, nb as int, nv),
                decreases s@.len() - i,
            {
                let x = s[i];
                let last = i == s.len() - 1;
                if last && !check_terminator(x) {
                    v.push(Violation { kind: ViolationKind::MissingTerminator, block: b, index: i });
                } else if !last && check_terminator(x) {
                    v.push(
                        Violation { kind: ViolationKind::MisplacedTerminator, block: b, index: i },
                    );
                }
                let bad_jump = match x {
                    Inst::Jump { target } => target as usize >= nb,
                    _ => false,
                };
                if bad_jump {
                    v.push(Violation { kind: ViolationKind::BadJumpTarget, block: b, index: i });
                }
                let bad_value = match x {
                    Inst::IConst { result, .. } => result >= nv,
                    Inst::SConst { result, .. } => result >= nv,
                    Inst::BConst { result, .. } => result >= nv,
                    Inst::Ret { value } => value >= nv,
                    _ => false,
                };
                if bad_value {
                    v.push(Violation { kind: ViolationKind::BadValue, block: b, index: i });
                }
                proof {
                    assert(v@ =~= before + insts_viols(s@, i + 1, b as int, nb as int, nv));
                }
                i = i + 1;
            }
            proof {
                assert(v@ =~= blocks_viols(func@, b + 1));
            }
        }
        b = b + 1;
    }
    if cfg.valid {
        let mut fresh = ControlFlowGraph::new();
        fresh.compute(func);
        if !eq_succs(&cfg.succs, &fresh.succs) {
            v.push(Violation { kind: ViolationKind::StaleFlowGraph, block: 0, index: 0 });
        }
    }
    if domtree.valid {
        let mut fresh_cfg = ControlFlowGraph::new();
        fresh_cfg.compute(func);
        let mut fresh_dt = DominatorTree::new();
        fresh_dt.compute(func, &fresh_cfg);
        if !eq_idoms(&domtree.idom, &fresh_dt.idom) {
            v.push(Violation { kind: ViolationKind::StaleDominatorTree, block: 0, index: 0 });
        }
    }
    proof {
        assert(v@ =~= context_viols(func@, cfg@, domtree@));
    }
    v
}

/// The location violations of `f` under a register file of `num_regs`.
pub open spec fn locs_rec(locs: Seq<u32>, k: int, num_regs: u32) -> Seq<Violation>
    decreases k,
{
    if k <= 0 {
        Seq::empty()
    } else {
        locs_rec(locs, k - 1, num_regs) + (if locs[k - 1] >= num_regs {
            seq![Violation { kind: ViolationKind::BadLocation, block: 0, index: (k - 1) as usize }]
        } else {
            Seq::empty()
        })
    }
}

/// The complete list of location violations of `f`.
pub open spec fn loc_viols(f: FuncView, num_regs: u32) -> Seq<Violation> {
    (if f.locations.len() < f.num_values {
        seq![Violation { kind: ViolationKind::MissingLocation, block: 0, index: 0 }]
    } else {
        Seq::empty()
    }) + locs_rec(
        f.locations,
        if f.locations.len() < f.num_values {
            f.locations.len() as int
        } else {
            f.num_values as int
        },
        num_regs,
    )
}

/// Location well-formedness: every value has a register of the target.
pub open spec fn locations_wf(f: FuncView, num_regs: u32) -> bool {
    &&& f.locations.len() >= f.num_values
    &&& forall|v: int| 0 <= v < f.num_values ==> #[trigger] f.locations[v] < num_regs
}

/// A location scan finds nothing exactly when the assignment is complete
/// and within the register file.
pub proof fn lemma_loc_viols_empty(f: FuncView, num_regs: u32)
    ensures
        loc_viols(f, num_regs).len() == 0 <==> locations_wf(f, num_regs),
{
    let k = if f.locations.len() < f.num_values {
        f.locations.len() as int
    } else {
        f.num_values as int
    };
    lemma_locs_rec_empty(f.locations, k, num_regs);
}

proof fn lemma_locs_rec_empty(locs: Seq<u32>, k: int, num_regs: u32)
    requires
        k <= locs.len(),
    ensures
        locs_rec(locs, k, num_regs).len() == 0 <==> forall|v: int|
            0 <= v < k ==> #[trigger] locs[v] < num_regs,
    decreases k,
{
    if k > 0 {
        lemma_locs_rec_empty(locs, k - 1, num_regs);
    }
}

/// Run the location check, returning every violation found.
pub fn check_locations(func: &Function, num_regs: u32) -> (v: Vec<Violation>)
    ensures
        v@ == loc_viols(func@, num_regs),
{
    let mut v: Vec<Violation> = Vec::new();
    let bound = if func.locations.len() < func.num_values as usize {
        v.push(Violation { kind: ViolationKind::MissingLocation, block: 0, index: 0 });
        func.locations.len()
    } else {
        func.num_values as usize
    };
    let ghost before = v@;
    let mut i: usize = 0;
    while i < bound
        invariant
            i <= bound,
            bound <= func@.locations.len(),
            bound as int == (if func@.locations.len() < func@.num_values {
                func@.locations.len() as int
            } else {
                func@.num_values as int
            }),
            v@ == before + locs_rec(func@.locations, i as int, num_regs),
        decreases bound - i,
    {
        if func.locations[i] >= num_regs {
            v.push(Violation { kind: ViolationKind::BadLocation, block: 0, index: i });
        }
        proof {
            assert(v@ =~= before + locs_rec(func@.locations, i + 1, num_regs));
        }
        i = i + 1;
    }
    proof {
        assert(v@ =~= loc_viols(func@, num_regs));
    }
    v
}

} // verus!
