//! Binary emission: the encoding scheme, code measurement and the single
//! linear emission pass with its relocation, trap and stack-map callbacks.
//!
//! Emission is a pure function of the compiled function: the same
//! instructions always produce the same bytes, sizes and sink records.

use crate::ir::{FuncView, Function, Inst, TrapCode};
use vstd::prelude::*;

verus! {

/// Sizes of the emitted artifact; `total_size` is the sum of the parts.
#[derive(Clone, Copy, PartialEq, Eq, Structural, Debug)]
pub struct CodeInfo {
    /// Bytes of machine code.
    pub code_size: u32,
    /// Bytes of jump tables.
    pub jumptables_size: u32,
    /// Bytes of read-only data.
    pub rodata_size: u32,
    /// Total bytes the caller must provide for emission.
    pub total_size: u32,
}

/// How a relocated reference is to be resolved.
#[derive(Clone, Copy, PartialEq, Eq, Structural, Debug)]
pub enum RelocKind {
    /// An absolute address patched at load time.
    Absolute,
}

/// One relocation site, reported once during emission.
#[derive(Clone, Copy, PartialEq, Eq, Structural, Debug)]
pub struct Reloc {
    /// Offset of the patched field within the emitted code.
    pub offset: u32,
    /// How the reference is resolved.
    pub kind: RelocKind,
    /// The referenced symbol.
    pub name: u32,
    /// The addend applied to the symbol.
    pub addend: i64,
}

/// One potentially trapping instruction, reported once during emission.
#[derive(Clone, Copy, PartialEq, Eq, Structural, Debug)]
pub struct TrapSite {
    /// Offset of the instruction within the emitted code.
    pub offset: u32,
    /// The source location the producer tagged the trap with.
    pub srcloc: u32,
    /// Why the instruction traps.
    pub code: TrapCode,
}

/// One safepoint, reported once during emission.
#[derive(Clone, Copy, PartialEq, Eq, Structural, Debug)]
pub struct StackmapSite {
    /// Offset of the safepoint within the emitted code.
    pub offset: u32,
    /// The bit set of reference-holding stack slots live here.
    pub slots: u64,
}

/// Receives one record per relocation site.
pub struct RelocSink {
    /// The records received, in emission order.
    pub relocs: Vec<Reloc>,
}

impl RelocSink {
    /// An empty sink.
    pub fn new() -> (r: RelocSink)
        ensures
            r.relocs@ == Seq::<Reloc>::empty(),
    {
        RelocSink { relocs: Vec::new() }
    }
}

/// Receives one record per potentially trapping instruction.
pub struct TrapSink {
    /// The records received, in emission order.
    pub traps: Vec<TrapSite>,
}

impl TrapSink {
    /// An empty sink.
    pub fn new() -> (r: TrapSink)
        ensures
            r.traps@ == Seq::<TrapSite>::empty(),
    {
        TrapSink { traps: Vec::new() }
    }
}

/// Receives one record per safepoint.
pub struct StackmapSink {
    /// The records received, in emission order.
    pub stackmaps: Vec<StackmapSite>,
}

impl StackmapSink {
    /// An empty sink.
    pub fn new() -> (r: StackmapSink)
        ensures
            r.stackmaps@ == Seq::<StackmapSite>::empty(),
    {
        StackmapSink { stackmaps: Vec::new() }
    }
}

/// The four little-endian bytes of `v`.
pub open spec fn le4(v: u32) -> Seq<u8> {
    seq![
        (v & 0xff) as u8,
        ((v >> 8) & 0xff) as u8,
        ((v >> 16) & 0xff) as u8,
        ((v >> 24) & 0xff) as u8,
    ]
}

/// The eight little-endian bytes of `v`.
pub open spec fn le8(v: u64) -> Seq<u8> {
    seq![
        (v & 0xff) as u8,
        ((v >> 8) & 0xff) as u8,
        ((v >> 16) & 0xff) as u8,
        ((v >> 24) & 0xff) as u8,
        ((v >> 32) & 0xff) as u8,
        ((v >> 40) & 0xff) as u8,
        ((v >> 48) & 0xff) as u8,
        ((v >> 56) & 0xff) as u8,
    ]
}

/// The encoding byte of a trap code.
pub open spec fn trap_byte(c: TrapCode) -> u8 {
    match c {
        TrapCode::User => 0,
        TrapCode::UnreachableCode => 1,
    }
}

/// The bytes one instruction encodes to.
pub open spec fn encode_inst(i: Inst) -> Seq<u8> {
    match i {
        Inst::Nop => seq![0x00u8],
        Inst::IConst { result, value } => seq![0x01u8] + le4(result) + le8(value),
        Inst::SConst { result, value } => seq![0x02u8] + le4(result) + seq![value],
        Inst::BConst { result, value } => seq![0x03u8] + le4(result) + seq![
            if value {
                1u8
            } else {
                0u8
            },
        ],
        Inst::Jump { target } => seq![0x04u8] + le4(target),
        Inst::Ret { value } => seq![0x05u8] + le4(value),
        Inst::Call { callee } => seq![0x06u8] + le4(callee),
        Inst::Trap { code, .. } => seq![0x07u8, trap_byte(code)],
        Inst::Safepoint { .. } => seq![0x08u8],
        Inst::Prologue => seq![0x09u8],
        Inst::Epilogue => seq![0x0au8],
    }
}

/// The instructions of all blocks, in layout order.
pub open spec fn flat_blocks(bs: Seq<Seq<Inst>>) -> Seq<Inst>
    decreases bs.len(),
{
    if bs.len() == 0 {
        Seq::empty()
    } else {
        flat_blocks(bs.drop_last()) + bs.last()
    }
}

/// The instruction stream of `f`.
pub open spec fn flat(f: FuncView) -> Seq<Inst> {
    flat_blocks(f.blocks)
}

/// The bytes an instruction stream encodes to.
pub open spec fn encode_seq(s: Seq<Inst>) -> Seq<u8>
    decreases s.len(),
{
    if s.len() == 0 {
        Seq::empty()
    } else {
        encode_seq(s.drop_last()) + encode_inst(s.last())
    }
}

/// The code size of `f` in bytes.
pub open spec fn code_size_of(f: FuncView) -> nat {
    encode_seq(flat(f)).len()
}

/// The sizes record of `f`; this target emits no jump tables or read-only
/// data, so the total is the code size.
pub open spec fn code_info_of(f: FuncView) -> CodeInfo {
    CodeInfo {
        code_size: code_size_of(f) as u32,
        jumptables_size: 0,
        rodata_size: 0,
        total_size: code_size_of(f) as u32,
    }
}

/// The relocation records of an instruction stream: one per call, naming
/// the patched operand field.
pub open spec fn relocs_seq(s: Seq<Inst>) -> Seq<Reloc>
    decreases s.len(),
{
    if s.len() == 0 {
        Seq::empty()
    } else {
        relocs_seq(s.drop_last()) + match s.last() {
            Inst::Call { callee } => seq![
                Reloc {
                    offset: (encode_seq(s.drop_last()).len() + 1) as u32,
                    kind: RelocKind::Absolute,
                    name: callee,
                    addend: 0,
                },
            ],
            _ => Seq::empty(),
        }
    }
}

/// The trap records of an instruction stream: one per trap instruction.
pub open spec fn traps_seq(s: Seq<Inst>) -> Seq<TrapSite>
    decreases s.len(),
{
    if s.len() == 0 {
        Seq::empty()
    } else {
        traps_seq(s.drop_last()) + match s.last() {
            Inst::Trap { code, srcloc } => seq![
                TrapSite { offset: encode_seq(s.drop_last()).len() as u32, srcloc, code },
            ],
            _ => Seq::empty(),
        }
    }
}

/// The stack-map records of an instruction stream: one per safepoint.
pub open spec fn maps_seq(s: Seq<Inst>) -> Seq<StackmapSite>
    decreases s.len(),
{
    if s.len() == 0 {
        Seq::empty()
    } else {
        maps_seq(s.drop_last()) + match s.last() {
            Inst::Safepoint { slots } => seq![
                StackmapSite { offset: encode_seq(s.drop_last()).len() as u32, slots },
            ],
            _ => Seq::empty(),
        }
    }
}

/// Encoded prefixes never exceed the encoding of the whole stream.
pub proof fn lemma_encode_take_le(s: Seq<Inst>, i: int)
    requires
        0 <= i <= s.len(),
    ensures
        encode_seq(s.take(i)).len() <= encode_seq(s).len(),
    decreases s.len() - i,
{
    if i == s.len() {
        assert(s.take(i) =~= s);
    } else {
        assert(s.take(i + 1).drop_last() =~= s.take(i));
        lemma_encode_take_le(s, i + 1);
    }
}

/// The instruction stream of `func`, blocks flattened in layout order.
pub fn flatten(func: &Function) -> (v: Vec<Inst>)
    ensures
        v@ == flat(func@),
{
    let mut v: Vec<Inst> = Vec::new();
    let mut b: usize = 0;
    while b < func.blocks.len()
        invariant
            b <= func.blocks.len(),
            v@ == flat_blocks(func@.blocks.take(b as int)),
        decreases func.blocks.len() - b,
    {
        let s = &func.blocks[b].insts;
        let ghost before = v@;
        let mut i: usize = 0;
        while i < s.len()
            invariant
                i <= s@.len(),
                s@ == func@.blocks[b as int],
                b < func@.blocks.len(),
                v@ == before + s@.take(i as int),
            decreases s@.len() - i,
        {
            v.push(s[i]);
            proof {
                assert(v@ =~= before + s@.take(i + 1));
            }
            i = i + 1;
        }
        proof {
            assert(func@.blocks.take(b + 1).drop_last() =~= func@.blocks.take(b as int));
            assert(v@ =~= flat_blocks(func@.blocks.take(b + 1)));
        }
        b = b + 1;
    }
    proof {
        assert(func@.blocks.take(func@.blocks.len() as int) =~= func@.blocks);
    }
    v
}

/// The encoded size of one instruction.
pub fn inst_size(i: Inst) -> (n: u8)
    ensures
        n as nat == encode_inst(i).len(),
{
    match i {
        Inst::Nop => 1,
        Inst::IConst { .. } => 13,
        Inst::SConst { .. } => 6,
        Inst::BConst { .. } => 6,
        Inst::Jump { .. } => 5,
        Inst::Ret { .. } => 5,
        Inst::Call { .. } => 5,
        Inst::Trap { .. } => 2,
        Inst::Safepoint { .. } => 1,
        Inst::Prologue => 1,
        Inst::Epilogue => 1,
    }
}

/// Measure the encoded size of an instruction stream, or report that it
/// does not fit the 32-bit size field.
pub fn measure_code(insts: &Vec<Inst>) -> (r: Option<u32>)
    ensures
        r is Some <==> encode_seq(insts@).len() <= 0xffff_ffff,
        r matches Some(n) ==> n as nat == encode_seq(insts@).len(),
{
    let mut acc: u64 = 0;
    let mut i: usize = 0;
    while i < insts.len()
        invariant
            i <= insts@.len(),
            acc as nat == encode_seq(insts@.take(i as int)).len(),
            acc <= 0xffff_ffff,
        decreases insts@.len() - i,
    {
        let sz = inst_size(insts[i]);
        proof {
            assert(insts@.take(i + 1).drop_last() =~= insts@.take(i as int));
        }
        acc = acc + sz as u64;
        if acc > 0xffff_ffff {
            proof {
                lemma_encode_take_le(insts@, i + 1);
            }
            return None;
        }
        i = i + 1;
    }
    proof {
        assert(insts@.take(insts@.len() as int) =~= insts@);
    }
    Some(acc as u32)
}

/// Append the four little-endian bytes of `v`.
fn push_le4(out: &mut Vec<u8>, v: u32)
    ensures
        final(out)@ == old(out)@ + le4(v),
{
    assert((v & 0xff) < 256 && ((v >> 8) & 0xff) < 256 && ((v >> 16) & 0xff) < 256 && ((v >> 24)
        & 0xff) < 256) by (bit_vector);
    out.push((v & 0xff) as u8);
    out.push(((v >> 8) & 0xff) as u8);
    out.push(((v >> 16) & 0xff) as u8);
    out.push(((v >> 24) & 0xff) as u8);
    proof {
        assert(out@ =~= old(out)@ + le4(v));
    }
}

/// Append the eight little-endian bytes of `v`.
fn push_le8(out: &mut Vec<u8>, v: u64)
    ensures
        final(out)@ == old(out)@ + le8(v),
{
    assert((v & 0xff) < 256 && ((v >> 8) & 0xff) < 256 && ((v >> 16) & 0xff) < 256 && ((v >> 24)
        & 0xff) < 256 && ((v >> 32) & 0xff) < 256 && ((v >> 40) & 0xff) < 256 && ((v >> 48) & 0xff)
        < 256 && ((v >> 56) & 0xff) < 256) by (bit_vector);
    out.push((v & 0xff) as u8);
    out.push(((v >> 8) & 0xff) as u8);
    out.push(((v >> 16) & 0xff) as u8);
    out.push(((v >> 24) & 0xff) as u8);
    out.push(((v >> 32) & 0xff) as u8);
    out.push(((v >> 40) & 0xff) as u8);
    out.push(((v >> 48) & 0xff) as u8);
    out.push(((v >> 56) & 0xff) as u8);
    proof {
        assert(out@ =~= old(out)@ + le8(v));
    }
}

/// Encode the instruction stream and feed each sink one record per site.
fn encode_stream(
    insts: &Vec<Inst>,
    relocs: &mut RelocSink,
    traps: &mut TrapSink,
    stackmaps: &mut StackmapSink,
) -> (code: Vec<u8>)
    requires
        encode_seq(insts@).len() <= 0xffff_ffff,
    ensures
        code@ == encode_seq(insts@),
        final(relocs).relocs@ == old(relocs).relocs@ + relocs_seq(insts@),
        final(traps).traps@ == old(traps).traps@ + traps_seq(insts@),
        final(stackmaps).stackmaps@ == old(stackmaps).stackmaps@ + maps_seq(insts@),
{
    let mut code: Vec<u8> = Vec::new();
    let mut i: usize = 0;
    while i < insts.len()
        invariant
            i <= insts@.len(),
            encode_seq(insts@).len() <= 0xffff_ffff,
            code@ == encode_seq(insts@.take(i as int)),
            relocs.relocs@ == old(relocs).relocs@ + relocs_seq(insts@.take(i as int)),
            traps.traps@ == old(traps).traps@ + traps_seq(insts@.take(i as int)),
            stackmaps.stackmaps@ == old(stackmaps).stackmaps@ + maps_seq(insts@.take(i as int)),
        decreases insts@.len() - i,
    {
        let ghost before = code@;
        let off = code.len();
        proof {
            assert(insts@.take(i + 1).drop_last() =~= insts@.take(i as int));
            lemma_encode_take_le(insts@, i + 1);
        }
        let x = insts[i];
        match x {
            Inst::Nop => {
                code.push(0x00);
            },
            Inst::IConst { result, value } => {
                code.push(0x01);
                push_le4(&mut code, result);
                push_le8(&mut code, value);
            },
            Inst::SConst { result, value } => {
                code.push(0x02);
                push_le4(&mut code, result);
                code.push(value);
            },
            Inst::BConst { result, value } => {
                code.push(0x03);
                push_le4(&mut code, result);
                code.push(if value {
                    1
                } else {
                    0
                });
            },
            Inst::Jump { target } => {
                code.push(0x04);
                push_le4(&mut code, target);
            },
            Inst::Ret { value } => {
                code.push(0x05);
                push_le4(&mut code, value);
            },
            Inst::Call { callee } => {
                code.push(0x06);
                push_le4(&mut code, callee);
                relocs.relocs.push(
                    Reloc {
                        offset: (off + 1) as u32,
                        kind: RelocKind::Absolute,
                        name: callee,
                        addend: 0,
                    },
                );
            },
            Inst::Trap { code: tc, srcloc } => {
                code.push(0x07);
                code.push(
                    match tc {
                        TrapCode::User => 0,
                        TrapCode::UnreachableCode => 1,
                    },
                );
                traps.traps.push(TrapSite { offset: off as u32, srcloc, code: tc });
            },
            Inst::Safepoint { slots } => {
                code.push(0x08);
                stackmaps.stackmaps.push(StackmapSite { offset: off as u32, slots });
            },
            Inst::Prologue => {
                code.push(0x09);
            },
            Inst::Epilogue => {
                code.push(0x0a);
            },
        }
        proof {
            assert(code@ =~= before + encode_inst(insts@[i as int]));
            assert(code@ =~= encode_seq(insts@.take(i + 1)));
            assert(relocs.relocs@ =~= old(relocs).relocs@ + relocs_seq(insts@.take(i + 1)));
            assert(traps.traps@ =~= old(traps).traps@ + traps_seq(insts@.take(i + 1)));
            assert(stackmaps.stackmaps@ =~= old(stackmaps).stackmaps@ + maps_seq(
                insts@.take(i + 1),
            ));
        }
        i = i + 1;
    }
    proof {
        assert(insts@.take(insts@.len() as int) =~= insts@);
    }
    code
}

/// Emit the instruction stream into `mem` at `offset`, feeding the sinks.
///
/// The caller guarantees the destination region is large enough; nothing
/// outside `[offset, offset + code size)` is touched.
pub fn emit_function(
    insts: &Vec<Inst>,
    mem: &mut Vec<u8>,
    offset: usize,
    relocs: &mut RelocSink,
    traps: &mut TrapSink,
    stackmaps: &mut StackmapSink,
)
    requires
        encode_seq(insts@).len() <= 0xffff_ffff,
        offset + encode_seq(insts@).len() <= old(mem)@.len(),
    ensures
        final(mem)@.len() == old(mem)@.len(),
        final(mem)@.subrange(offset as int, offset + encode_seq(insts@).len())
            == encode_seq(insts@),
        forall|j: int|
            0 <= j < old(mem)@.len() && !(offset <= j < offset + encode_seq(insts@).len())
                ==> final(mem)@[j] == old(mem)@[j],
        final(relocs).relocs@ == old(relocs).relocs@ + relocs_seq(insts@),
        final(traps).traps@ == old(traps).traps@ + traps_seq(insts@),
        final(stackmaps).stackmaps@ == old(stackmaps).stackmaps@ + maps_seq(insts@),
{
    let code = encode_stream(insts, relocs, traps, stackmaps);
    let limit = mem.len();
    let mut k: usize = 0;
    while k < code.len()
        invariant
            k <= code@.len(),
            code@ == encode_seq(insts@),
            offset + code@.len() <= limit,
            mem@.len() == limit,
            mem@.len() == old(mem)@.len(),
            forall|j: int| 0 <= j < k ==> mem@[offset + j] == code@[j],
            forall|j: int|
                0 <= j < mem@.len() && !(offset <= j < offset + k) ==> mem@[j] == old(mem)@[j],
        decreases code@.len() - k,
    {
        mem[offset + k] = code[k];
        k = k + 1;
    }
    proof {
        assert(mem@.subrange(offset as int, offset + encode_seq(insts@).len()) =~= encode_seq(
            insts@,
        ));
    }
}

} // verus!
