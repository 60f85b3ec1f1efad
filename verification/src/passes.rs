//! The transforms run by the pipeline, with their exact rewrite specs.
//!
//! Each transform is specified as a function on the mathematical view of
//! the function under compilation; the lemmas state what the orchestrator
//! relies on: every rewrite preserves the successor table (so a computed
//! flow graph stays consistent) and preserves structural well-formedness.

use crate::checker::{block_wf, func_wf, inst_ok};
use crate::flowgraph::{block_succ, cfg_of};
use crate::ir::{is_terminator, Block, FuncView, Function, Inst};
use vstd::prelude::*;

verus! {

/// The non-nop instructions of `s`, in order.
pub open spec fn keep_non_nop(s: Seq<Inst>) -> Seq<Inst>
    decreases s.len(),
{
    if s.len() == 0 {
        Seq::empty()
    } else {
        keep_non_nop(s.drop_last()) + (if s.last() is Nop {
            Seq::empty()
        } else {
            seq![s.last()]
        })
    }
}

/// Every kept instruction comes from `s`.
pub proof fn lemma_keep_non_nop_elems(s: Seq<Inst>)
    ensures
        forall|j: int|
            0 <= j < keep_non_nop(s).len() ==> s.contains(#[trigger] keep_non_nop(s)[j]),
    decreases s.len(),
{
    if s.len() > 0 {
        lemma_keep_non_nop_elems(s.drop_last());
        assert forall|j: int| 0 <= j < keep_non_nop(s).len() implies s.contains(
            #[trigger] keep_non_nop(s)[j],
        ) by {
            if j < keep_non_nop(s.drop_last()).len() {
                assert(s.drop_last().contains(keep_non_nop(s.drop_last())[j]));
                let k = choose|k: int|
                    0 <= k < s.drop_last().len() && s.drop_last()[k] == keep_non_nop(
                        s.drop_last(),
                    )[j];
                assert(s[k] == keep_non_nop(s)[j]);
            } else {
                assert(keep_non_nop(s)[j] == s.last());
                assert(s[s.len() - 1] == keep_non_nop(s)[j]);
            }
        }
    }
}

/// A block with its nops removed; the terminator always stays.
pub open spec fn strip_nops_block(s: Seq<Inst>) -> Seq<Inst> {
    if s.len() == 0 {
        s
    } else {
        keep_non_nop(s.drop_last()).push(s.last())
    }
}

/// The function with every nop removed.
pub open spec fn strip_nops_view(f: FuncView) -> FuncView {
    FuncView { blocks: Seq::new(f.blocks.len(), |b: int| strip_nops_block(f.blocks[b])), ..f }
}

/// Nop removal preserves the successor table and well-formedness.
pub proof fn lemma_strip_nops_preserves(f: FuncView)
    ensures
        cfg_of(strip_nops_view(f)) == cfg_of(f),
        func_wf(f) ==> func_wf(strip_nops_view(f)),
{
    let g = strip_nops_view(f);
    assert forall|b: int| 0 <= b < g.blocks.len() implies block_succ(#[trigger] g.blocks[b])
        == block_succ(f.blocks[b]) by {
        let s = f.blocks[b];
        if s.len() > 0 {
            assert(g.blocks[b].last() == s.last());
        }
    }
    assert(cfg_of(g) =~= cfg_of(f));
    if func_wf(f) {
        assert forall|b: int| 0 <= b < g.blocks.len() implies block_wf(
            #[trigger] g.blocks[b],
            g.blocks.len() as int,
            g.num_values,
        ) by {
            let s = f.blocks[b];
            assert(block_wf(s, f.blocks.len() as int, f.num_values));
            lemma_keep_non_nop_elems(s.drop_last());
            let t = g.blocks[b];
            assert(t.last() == s.last());
            assert forall|i: int| 0 <= i < t.len() - 1 implies !is_terminator(#[trigger] t[i])
                && inst_ok(t[i], g.blocks.len() as int, g.num_values) by {
                assert(t[i] == keep_non_nop(s.drop_last())[i]);
                assert(s.drop_last().contains(t[i]));
                let k = choose|k: int|
                    0 <= k < s.drop_last().len() && s.drop_last()[k] == t[i];
                assert(s[k] == t[i]);
                assert(!is_terminator(s[k]));
                assert(inst_ok(s[k], f.blocks.len() as int, f.num_values));
            }
            assert(inst_ok(t[t.len() - 1], g.blocks.len() as int, g.num_values));
        }
    }
}

/// Remove every nop from the function, block by block.
pub fn strip_nops(func: &mut Function)
    ensures
        final(func)@ == strip_nops_view(old(func)@),
{
    let mut nb: Vec<Block> = Vec::new();
    let mut b: usize = 0;
    while b < func.blocks.len()
        invariant
            b <= func.blocks.len(),
            *func == *old(func),
            nb@.len() == b,
            forall|j: int| 0 <= j < b ==> nb@[j].insts@ == strip_nops_block(old(func)@.blocks[j]),
        decreases func.blocks.len() - b,
    {
        let s = &func.blocks[b].insts;
        let mut out: Vec<Inst> = Vec::new();
        if s.len() > 0 {
            let mut i: usize = 0;
            while i < s.len() - 1
                invariant
                    s@.len() > 0,
                    i <= s@.len() - 1,
                    s@ == old(func)@.blocks[b as int],
                    b < old(func)@.blocks.len(),
                    out@ == keep_non_nop(s@.take(i as int)),
                decreases s@.len() - i,
            {
                let x = s[i];
                if !matches!(x, Inst::Nop) {
                    out.push(x);
                }
                proof {
                    assert(s@.take(i + 1).drop_last() =~= s@.take(i as int));
                    assert(s@.take(i + 1).last() == s@[i as int]);
                    assert(out@ =~= keep_non_nop(s@.take(i + 1)));
                }
                i = i + 1;
            }
            proof {
                assert(s@.take(s@.len() - 1) =~= s@.drop_last());
            }
            out.push(s[s.len() - 1]);
            proof {
                assert(out@ =~= strip_nops_block(s@));
            }
        }
        nb.push(Block { insts: out });
        b = b + 1;
    }
    func.blocks = nb;
    proof {
        assert(func@ =~= strip_nops_view(old(func)@));
    }
}

/// The target-legal form of one instruction: boolean constants are lowered
/// to integer constants, everything else is already legal.
pub open spec fn legalize_inst(i: Inst) -> Inst {
    match i {
        Inst::BConst { result, value } => Inst::IConst {
            result,
            value: if value {
                1
            } else {
                0
            },
        },
        _ => i,
    }
}

/// The function lowered to target-legal instructions.
pub open spec fn legalize_view(f: FuncView) -> FuncView {
    FuncView {
        blocks: Seq::new(
            f.blocks.len(),
            |b: int| Seq::new(f.blocks[b].len(), |i: int| legalize_inst(f.blocks[b][i])),
        ),
        ..f
    }
}

/// Legalization preserves the successor table and well-formedness.
pub proof fn lemma_legalize_preserves(f: FuncView)
    ensures
        cfg_of(legalize_view(f)) == cfg_of(f),
        func_wf(f) ==> func_wf(legalize_view(f)),
{
    let g = legalize_view(f);
    assert forall|b: int| 0 <= b < g.blocks.len() implies block_succ(#[trigger] g.blocks[b])
        == block_succ(f.blocks[b]) by {
        let s = f.blocks[b];
        if s.len() > 0 {
            assert(g.blocks[b].last() == legalize_inst(s.last()));
        }
    }
    assert(cfg_of(g) =~= cfg_of(f));
}

/// Lower the function to target-legal instructions in place.
pub fn legalize_rewrite(func: &mut Function)
    ensures
        final(func)@ == legalize_view(old(func)@),
{
    map_insts(func, false)
}

/// The shrunk form of one instruction: integer constants that fit a byte
/// take the short encoding.
pub open spec fn shrink_inst(i: Inst) -> Inst {
    match i {
        Inst::IConst { result, value } => if value < 256 {
            Inst::SConst { result, value: value as u8 }
        } else {
            i
        },
        _ => i,
    }
}

/// The function with every instruction shrunk to its smallest encoding.
pub open spec fn shrink_view(f: FuncView) -> FuncView {
    FuncView {
        blocks: Seq::new(
            f.blocks.len(),
            |b: int| Seq::new(f.blocks[b].len(), |i: int| shrink_inst(f.blocks[b][i])),
        ),
        ..f
    }
}

/// Shrinking preserves the successor table and well-formedness.
pub proof fn lemma_shrink_preserves(f: FuncView)
    ensures
        cfg_of(shrink_view(f)) == cfg_of(f),
        func_wf(f) ==> func_wf(shrink_view(f)),
{
    let g = shrink_view(f);
    assert forall|b: int| 0 <= b < g.blocks.len() implies block_succ(#[trigger] g.blocks[b])
        == block_succ(f.blocks[b]) by {
        let s = f.blocks[b];
        if s.len() > 0 {
            assert(g.blocks[b].last() == shrink_inst(s.last()));
        }
    }
    assert(cfg_of(g) =~= cfg_of(f));
}

/// Shrink instruction encodings in place.
pub fn shrink_rewrite(func: &mut Function)
    ensures
        final(func)@ == shrink_view(old(func)@),
{
    map_insts(func, true)
}

/// Rewrite every instruction with [`legalize_inst`] or [`shrink_inst`].
fn map_insts(func: &mut Function, shrink: bool)
    ensures
        !shrink ==> final(func)@ == legalize_view(old(func)@),
        shrink ==> final(func)@ == shrink_view(old(func)@),
{
    let mut nb: Vec<Block> = Vec::new();
    let mut b: usize = 0;
    while b < func.blocks.len()
        invariant
            b <= func.blocks.len(),
            *func == *old(func),
            nb@.len() == b,
            forall|j: int|
                0 <= j < b ==> (#[trigger] nb@[j].insts@).len() == old(func)@.blocks[j].len(),
            forall|j: int, i: int|
                0 <= j < b && 0 <= i < nb@[j].insts@.len() ==> #[trigger] nb@[j].insts@[i] == (
                if shrink {
                    shrink_inst(old(func)@.blocks[j][i])
                } else {
                    legalize_inst(old(func)@.blocks[j][i])
                }),
        decreases func.blocks.len() - b,
    {
        let s = &func.blocks[b].insts;
        let mut out: Vec<Inst> = Vec::new();
        let mut i: usize = 0;
        while i < s.len()
            invariant
                i <= s@.len(),
                s@ == old(func)@.blocks[b as int],
                b < old(func)@.blocks.len(),
                out@.len() == i,
                forall|k: int|
                    0 <= k < i ==> #[trigger] out@[k] == (if shrink {
                        shrink_inst(s@[k])
                    } else {
                        legalize_inst(s@[k])
                    }),
            decreases s@.len() - i,
        {
            let x = s[i];
            let y = if shrink {
                match x {
                    Inst::IConst { result, value } => if value < 256 {
                        Inst::SConst { result, value: value as u8 }
                    } else {
                        x
                    },
                    _ => x,
                }
            } else {
                match x {
                    Inst::BConst { result, value } => Inst::IConst {
                        result,
                        value: if value {
                            1
                        } else {
                            0
                        },
                    },
                    _ => x,
                }
            };
            out.push(y);
            i = i + 1;
        }
        nb.push(Block { insts: out });
        b = b + 1;
    }
    func.blocks = nb;
    proof {
        if shrink {
            assert forall|j: int| 0 <= j < func@.blocks.len() implies #[trigger] func@.blocks[j]
                =~= shrink_view(old(func)@).blocks[j] by {}
            assert(func@ =~= shrink_view(old(func)@));
        } else {
            assert forall|j: int| 0 <= j < func@.blocks.len() implies #[trigger] func@.blocks[j]
                =~= legalize_view(old(func)@).blocks[j] by {}
            assert(func@ =~= legalize_view(old(func)@));
        }
    }
}

/// One block with the epilogue inserted before its return, and the
/// prologue at the front of the entry block.
pub open spec fn proepi_block(s: Seq<Inst>, is_entry: bool) -> Seq<Inst> {
    let withep = if s.len() > 0 && s.last() is Ret {
        s.drop_last().push(Inst::Epilogue).push(s.last())
    } else {
        s
    };
    if is_entry {
        seq![Inst::Prologue] + withep
    } else {
        withep
    }
}

/// The function with prologue and epilogues inserted.
pub open spec fn proepi_view(f: FuncView) -> FuncView {
    FuncView { blocks: Seq::new(f.blocks.len(), |b: int| proepi_block(f.blocks[b], b == 0)), ..f }
}

/// Prologue/epilogue insertion preserves the successor table and
/// well-formedness.
pub proof fn lemma_proepi_preserves(f: FuncView)
    ensures
        cfg_of(proepi_view(f)) == cfg_of(f),
        func_wf(f) ==> func_wf(proepi_view(f)),
{
    let g = proepi_view(f);
    assert forall|b: int| 0 <= b < g.blocks.len() implies block_succ(#[trigger] g.blocks[b])
        == block_succ(f.blocks[b]) by {
        let s = f.blocks[b];
        let t = g.blocks[b];
        if s.len() > 0 {
            assert(t.last() == s.last());
        } else {
            if b == 0 {
                assert(t =~= seq![Inst::Prologue]);
                assert(t.last() == Inst::Prologue);
            }
        }
    }
    assert(cfg_of(g) =~= cfg_of(f));
    if func_wf(f) {
        assert forall|b: int| 0 <= b < g.blocks.len() implies block_wf(
            #[trigger] g.blocks[b],
            g.blocks.len() as int,
            g.num_values,
        ) by {
            let s = f.blocks[b];
            assert(block_wf(s, f.blocks.len() as int, f.num_values));
            let t = g.blocks[b];
            assert(t.last() == s.last());
            assert forall|i: int| 0 <= i < t.len() - 1 implies !is_terminator(#[trigger] t[i])
                && inst_ok(t[i], g.blocks.len() as int, g.num_values) by {
                let off: int = if b == 0 {
                    1
                } else {
                    0
                };
                if b == 0 && i == 0 {
                    assert(t[i] == Inst::Prologue);
                } else if s.last() is Ret && i == t.len() - 2 {
                    assert(t[i] == Inst::Epilogue);
                } else {
                    assert(t[i] == s[i - off]);
                    assert(!is_terminator(s[i - off]));
                    assert(inst_ok(s[i - off], f.blocks.len() as int, f.num_values));
                }
            }
            assert(inst_ok(t[t.len() - 1], g.blocks.len() as int, g.num_values));
        }
    }
}

/// Insert the prologue and the epilogues in place.
pub fn insert_proepi(func: &mut Function)
    ensures
        final(func)@ == proepi_view(old(func)@),
{
    let mut nb: Vec<Block> = Vec::new();
    let mut b: usize = 0;
    while b < func.blocks.len()
        invariant
            b <= func.blocks.len(),
            *func == *old(func),
            nb@.len() == b,
            forall|j: int|
                0 <= j < b ==> nb@[j].insts@ == proepi_block(old(func)@.blocks[j], j == 0),
        decreases func.blocks.len() - b,
    {
        let s = &func.blocks[b].insts;
        let mut out: Vec<Inst> = Vec::new();
        if b == 0 {
            out.push(Inst::Prologue);
        }
        let ghost prefix = out@;
        let has_ret = s.len() > 0 && matches!(s[s.len() - 1], Inst::Ret { .. });
        proof {
            assert(prefix + s@.take(0) =~= prefix);
        }
        let mut i: usize = 0;
        while i < s.len()
            invariant
                i <= s@.len(),
                s@ == old(func)@.blocks[b as int],
                b < old(func)@.blocks.len(),
                has_ret == (s@.len() > 0 && s@.last() is Ret),
                out@ == prefix + (if has_ret && i == s@.len() {
                    s@.drop_last().push(Inst::Epilogue).push(s@.last())
                } else {
                    s@.take(i as int)
                }),
            decreases s@.len() - i,
        {
            if has_ret && i == s.len() - 1 {
                out.push(Inst::Epilogue);
            }
            out.push(s[i]);
            proof {
                if has_ret && i + 1 == s@.len() {
                    assert(s@.take(s@.len() - 1) =~= s@.drop_last());
                    assert(out@ =~= prefix + s@.drop_last().push(Inst::Epilogue).push(s@.last()));
                } else {
                    assert(out@ =~= prefix + s@.take(i + 1));
                }
            }
            i = i + 1;
        }
        proof {
            assert(out@ =~= proepi_block(s@, b == 0));
        }
        nb.push(Block { insts: out });
        b = b + 1;
    }
    func.blocks = nb;
    proof {
        assert(func@ =~= proepi_view(old(func)@));
    }
}

/// The function after register allocation: value `v` lives in register `v`.
pub open spec fn regalloc_view(f: FuncView) -> FuncView {
    FuncView { locations: Seq::new(f.num_values as nat, |v: int| v as u32), ..f }
}

/// The values the returns of the stream `s` read.
pub open spec fn ret_uses(s: Seq<Inst>) -> Seq<u32>
    decreases s.len(),
{
    if s.len() == 0 {
        Seq::empty()
    } else {
        ret_uses(s.drop_last()) + match s.last() {
            Inst::Ret { value } => seq![value],
            _ => Seq::empty(),
        }
    }
}

/// Whether `i` is dead: it defines a value that nothing reads.
pub open spec fn is_dead(i: Inst, used: Seq<u32>) -> bool {
    match crate::ir::def_of(i) {
        Some(r) => !used.contains(r),
        None => false,
    }
}

/// The instructions of `s` that are not dead, in order.
pub open spec fn keep_live(s: Seq<Inst>, used: Seq<u32>) -> Seq<Inst>
    decreases s.len(),
{
    if s.len() == 0 {
        Seq::empty()
    } else {
        keep_live(s.drop_last(), used) + (if is_dead(s.last(), used) {
            Seq::empty()
        } else {
            seq![s.last()]
        })
    }
}

/// Every kept instruction comes from `s`.
pub proof fn lemma_keep_live_elems(s: Seq<Inst>, used: Seq<u32>)
    ensures
        forall|j: int|
            0 <= j < keep_live(s, used).len() ==> s.contains(#[trigger] keep_live(s, used)[j]),
    decreases s.len(),
{
    if s.len() > 0 {
        lemma_keep_live_elems(s.drop_last(), used);
        assert forall|j: int| 0 <= j < keep_live(s, used).len() implies s.contains(
            #[trigger] keep_live(s, used)[j],
        ) by {
            if j < keep_live(s.drop_last(), used).len() {
                assert(s.drop_last().contains(keep_live(s.drop_last(), used)[j]));
                let k = choose|k: int|
                    0 <= k < s.drop_last().len() && s.drop_last()[k] == keep_live(
                        s.drop_last(),
                        used,
                    )[j];
                assert(s[k] == keep_live(s, used)[j]);
            } else {
                assert(keep_live(s, used)[j] == s.last());
                assert(s[s.len() - 1] == keep_live(s, used)[j]);
            }
        }
    }
}

/// A block with its dead definitions removed; the terminator always stays.
pub open spec fn dce_block(s: Seq<Inst>, used: Seq<u32>) -> Seq<Inst> {
    if s.len() == 0 {
        s
    } else {
        keep_live(s.drop_last(), used).push(s.last())
    }
}

/// The function with every dead definition removed, judged against the
/// values its returns read.
pub open spec fn dce_view(f: FuncView) -> FuncView {
    FuncView {
        blocks: Seq::new(
            f.blocks.len(),
            |b: int| dce_block(f.blocks[b], ret_uses(crate::binemit::flat(f))),
        ),
        ..f
    }
}

/// Dead-code elimination preserves the successor table and
/// well-formedness.
pub proof fn lemma_dce_preserves(f: FuncView)
    ensures
        cfg_of(dce_view(f)) == cfg_of(f),
        func_wf(f) ==> func_wf(dce_view(f)),
{
    let used = ret_uses(crate::binemit::flat(f));
    let g = dce_view(f);
    assert forall|b: int| 0 <= b < g.blocks.len() implies block_succ(#[trigger] g.blocks[b])
        == block_succ(f.blocks[b]) by {
        let s = f.blocks[b];
        if s.len() > 0 {
            assert(g.blocks[b].last() == s.last());
        }
    }
    assert(cfg_of(g) =~= cfg_of(f));
    if func_wf(f) {
        assert forall|b: int| 0 <= b < g.blocks.len() implies block_wf(
            #[trigger] g.blocks[b],
            g.blocks.len() as int,
            g.num_values,
        ) by {
            let s = f.blocks[b];
            assert(block_wf(s, f.blocks.len() as int, f.num_values));
            lemma_keep_live_elems(s.drop_last(), used);
            let t = g.blocks[b];
            assert(t.last() == s.last());
            assert forall|i: int| 0 <= i < t.len() - 1 implies !is_terminator(#[trigger] t[i])
                && inst_ok(t[i], g.blocks.len() as int, g.num_values) by {
                assert(t[i] == keep_live(s.drop_last(), used)[i]);
                assert(s.drop_last().contains(t[i]));
                let k = choose|k: int|
                    0 <= k < s.drop_last().len() && s.drop_last()[k] == t[i];
                assert(s[k] == t[i]);
                assert(!is_terminator(s[k]));
                assert(inst_ok(s[k], f.blocks.len() as int, f.num_values));
            }
            assert(inst_ok(t[t.len() - 1], g.blocks.len() as int, g.num_values));
        }
    }
}

/// Whether `x` occurs in `v`.
fn contains_val(v: &Vec<u32>, x: u32) -> (r: bool)
    ensures
        r == v@.contains(x),
{
    let mut i: usize = 0;
    while i < v.len()
        invariant
            i <= v@.len(),
            forall|j: int| 0 <= j < i ==> v@[j] != x,
        decreases v@.len() - i,
    {
        if v[i] == x {
            return true;
        }
        i = i + 1;
    }
    false
}

/// Collect the values the function's returns read.
fn collect_ret_uses(func: &Function) -> (v: Vec<u32>)
    ensures
        v@ == ret_uses(crate::binemit::flat(func@)),
{
    let insts = crate::binemit::flatten(func);
    let mut v: Vec<u32> = Vec::new();
    let mut i: usize = 0;
    while i < insts.len()
        invariant
            i <= insts@.len(),
            v@ == ret_uses(insts@.take(i as int)),
        decreases insts@.len() - i,
    {
        proof {
            assert(insts@.take(i + 1).drop_last() =~= insts@.take(i as int));
        }
        match insts[i] {
            Inst::Ret { value } => {
                v.push(value);
                proof {
                    assert(v@ =~= ret_uses(insts@.take(i + 1)));
                }
            },
            _ => {},
        }
        i = i + 1;
    }
    proof {
        assert(insts@.take(insts@.len() as int) =~= insts@);
    }
    v
}

/// Remove every dead definition from the function, block by block.
pub fn dce_rewrite(func: &mut Function)
    ensures
        final(func)@ == dce_view(old(func)@),
{
    let used = collect_ret_uses(func);
    let mut nb: Vec<Block> = Vec::new();
    let mut b: usize = 0;
    while b < func.blocks.len()
        invariant
            b <= func.blocks.len(),
            *func == *old(func),
            used@ == ret_uses(crate::binemit::flat(old(func)@)),
            nb@.len() == b,
            forall|j: int| 0 <= j < b ==> nb@[j].insts@ == dce_block(old(func)@.blocks[j], used@),
        decreases func.blocks.len() - b,
    {
        let s = &func.blocks[b].insts;
        let mut out: Vec<Inst> = Vec::new();
        if s.len() > 0 {
            let mut i: usize = 0;
            while i < s.len() - 1
                invariant
                    s@.len() > 0,
                    i <= s@.len() - 1,
                    s@ == old(func)@.blocks[b as int],
                    b < old(func)@.blocks.len(),
                    out@ == keep_live(s@.take(i as int), used@),
                decreases s@.len() - i,
            {
                let x = s[i];
                let dead = match x {
                    Inst::IConst { result, .. } => !contains_val(&used, result),
                    Inst::SConst { result, .. } => !contains_val(&used, result),
                    Inst::BConst { result, .. } => !contains_val(&used, result),
                    _ => false,
                };
                if !dead {
                    out.push(x);
                }
                proof {
                    assert(s@.take(i + 1).drop_last() =~= s@.take(i as int));
                    assert(s@.take(i + 1).last() == s@[i as int]);
                    assert(out@ =~= keep_live(s@.take(i + 1), used@));
                }
                i = i + 1;
            }
            proof {
                assert(s@.take(s@.len() - 1) =~= s@.drop_last());
            }
            out.push(s[s.len() - 1]);
            proof {
                assert(out@ =~= dce_block(s@, used@));
            }
        }
        nb.push(Block { insts: out });
        b = b + 1;
    }
    func.blocks = nb;
    proof {
        assert(func@ =~= dce_view(old(func)@));
    }
}

} // verus!
