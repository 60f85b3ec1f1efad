//! The intermediate representation compiled by a `Context`.
//!
//! A `Function` is an ordered list of basic blocks, each a straight-line
//! instruction sequence ending in a terminator, together with a signature
//! and a table of value locations filled in by register allocation.

use vstd::prelude::*;

verus! {

/// A value type carried by the instruction set.
#[derive(Clone, Copy, PartialEq, Eq, Structural, Debug)]
pub enum TypeTag {
    /// A one-bit boolean.
    B1,
    /// A 64-bit integer.
    I64,
}

impl TypeTag {
    /// Whether this is the boolean type.
    pub open spec fn is_bool_spec(self) -> bool {
        self is B1
    }

    /// Whether this is the boolean type.
    #[verifier::when_used_as_spec(is_bool_spec)]
    pub fn is_bool(self) -> (r: bool)
        ensures
            r == self.is_bool_spec(),
    {
        matches!(self, TypeTag::B1)
    }
}

/// Calling conventions a signature can request.
#[derive(Clone, Copy, PartialEq, Eq, Structural, Debug)]
pub enum CallConv {
    /// The default convention for internal, not externally visible code.
    Fast,
    /// The host's C-compatible convention.
    SystemV,
}

/// The reason recorded for an explicit trap instruction.
#[derive(Clone, Copy, PartialEq, Eq, Structural, Debug)]
pub enum TrapCode {
    /// A trap requested by the producer of the function.
    User,
    /// Code that the producer marked as never reachable.
    UnreachableCode,
}

/// One instruction.
///
/// `result` fields name the SSA value an instruction defines; operands name
/// the SSA values it reads.  `Jump`, `Ret` and `Trap` are the terminators.
#[derive(Clone, Copy, PartialEq, Eq, Structural, Debug)]
#[allow(inconsistent_fields)]
pub enum Inst {
    /// No operation.
    Nop,
    /// Define `result` as the 64-bit constant `value`.
    IConst { result: u32, value: u64 },
    /// Define `result` as the small constant `value` (shrunk encoding).
    SConst { result: u32, value: u8 },
    /// Define `result` as the boolean constant `value`.
    BConst { result: u32, value: bool },
    /// Unconditional branch to the block with index `target`.
    Jump { target: u32 },
    /// Return the value `value` to the caller.
    Ret { value: u32 },
    /// Call the external function with symbol index `callee`.
    Call { callee: u32 },
    /// Trap with `code`; `srcloc` tags the source location for the trap sink.
    Trap { code: TrapCode, srcloc: u32 },
    /// A safepoint; `slots` is the bit set of reference-holding stack slots.
    Safepoint { slots: u64 },
    /// The function prologue inserted after register allocation.
    Prologue,
    /// A function epilogue inserted before each return.
    Epilogue,
}

/// Whether `i` ends a basic block.
pub open spec fn is_terminator(i: Inst) -> bool {
    i is Jump || i is Ret || i is Trap
}

/// Exec check mirroring [`is_terminator`].
pub fn check_terminator(i: Inst) -> (r: bool)
    ensures
        r == is_terminator(i),
{
    matches!(i, Inst::Jump { .. } | Inst::Ret { .. } | Inst::Trap { .. })
}

/// The SSA value defined by `i`, if any.
pub open spec fn def_of(i: Inst) -> Option<u32> {
    match i {
        Inst::IConst { result, .. } => Some(result),
        Inst::SConst { result, .. } => Some(result),
        Inst::BConst { result, .. } => Some(result),
        _ => None,
    }
}

/// The SSA value read by `i`, if any.
pub open spec fn use_of(i: Inst) -> Option<u32> {
    match i {
        Inst::Ret { value } => Some(value),
        _ => None,
    }
}

/// A function signature: parameter and return types plus calling convention.
pub struct Signature {
    /// Parameter types.
    pub params: Vec<TypeTag>,
    /// Return types.
    pub returns: Vec<TypeTag>,
    /// The requested calling convention.
    pub call_conv: CallConv,
}

/// A basic block: a straight-line instruction sequence.
pub struct Block {
    /// The instructions of the block, the last being its terminator.
    pub insts: Vec<Inst>,
}

/// The unit of compilation, mutated in place by the passes.
pub struct Function {
    /// The signature of the function.
    pub signature: Signature,
    /// The basic blocks in layout order; block 0 is the entry.
    pub blocks: Vec<Block>,
    /// The size of the SSA value table: every value id is below this.
    pub num_values: u32,
    /// Register assigned to each value id; filled by register allocation.
    pub locations: Vec<u32>,
}

/// The mathematical shape of a `Function`.
#[verifier::ext_equal]
pub ghost struct FuncView {
    /// Parameter types.
    pub params: Seq<TypeTag>,
    /// Return types.
    pub returns: Seq<TypeTag>,
    /// The calling convention.
    pub call_conv: CallConv,
    /// Instructions per block.
    pub blocks: Seq<Seq<Inst>>,
    /// The size of the SSA value table.
    pub num_values: u32,
    /// Register assigned to each value id.
    pub locations: Seq<u32>,
}

impl View for Function {
    type V = FuncView;

    open spec fn view(&self) -> FuncView {
        FuncView {
            params: self.signature.params@,
            returns: self.signature.returns@,
            call_conv: self.signature.call_conv,
            blocks: Seq::new(self.blocks@.len() as nat, |i: int| self.blocks@[i].insts@),
            num_values: self.num_values,
            locations: self.locations@,
        }
    }
}

/// The view of a function with no blocks, no values and no locations.
pub open spec fn empty_func() -> FuncView {
    FuncView {
        params: Seq::empty(),
        returns: Seq::empty(),
        call_conv: CallConv::Fast,
        blocks: Seq::empty(),
        num_values: 0,
        locations: Seq::empty(),
    }
}

impl Function {
    /// Create an empty function.
    pub fn new() -> (f: Function)
        ensures
            f@ == empty_func(),
    {
        let f = Function {
            signature: Signature {
                params: Vec::new(),
                returns: Vec::new(),
                call_conv: CallConv::Fast,
            },
            blocks: Vec::new(),
            num_values: 0,
            locations: Vec::new(),
        };
        proof {
            assert(f@ =~= empty_func());
        }
        f
    }

    /// Reset the function to the empty state while keeping allocations.
    pub fn clear(&mut self)
        ensures
            final(self)@ == empty_func(),
    {
        self.signature.params.clear();
        self.signature.returns.clear();
        self.signature.call_conv = CallConv::Fast;
        self.blocks.clear();
        self.num_values = 0;
        self.locations.clear();
        proof {
            assert(self@ =~= empty_func());
        }
    }

    /// Copy the function field by field.
    pub fn duplicate(&self) -> (r: Function)
        ensures
            r@ == self@,
    {
        let mut blocks: Vec<Block> = Vec::new();
        let mut b: usize = 0;
        while b < self.blocks.len()
            invariant
                b <= self.blocks.len(),
                blocks@.len() == b,
                forall|j: int| 0 <= j < b ==> blocks@[j].insts@ == self.blocks@[j].insts@,
            decreases self.blocks.len() - b,
        {
            blocks.push(Block { insts: copy_vec(&self.blocks[b].insts) });
            b = b + 1;
        }
        let r = Function {
            signature: Signature {
                params: copy_vec(&self.signature.params),
                returns: copy_vec(&self.signature.returns),
                call_conv: self.signature.call_conv,
            },
            blocks,
            num_values: self.num_values,
            locations: copy_vec(&self.locations),
        };
        proof {
            assert(r@ =~= self@);
        }
        r
    }
}

/// Copy a vector of plain values element by element.
pub fn copy_vec<T: Copy>(v: &Vec<T>) -> (r: Vec<T>)
    ensures
        r@ == v@,
{
    let mut r: Vec<T> = Vec::new();
    let mut i: usize = 0;
    while i < v.len()
        invariant
            i <= v.len(),
            r@ == v@.subrange(0, i as int),
        decreases v.len() - i,
    {
        r.push(v[i]);
        proof {
            assert(r@ =~= v@.subrange(0, i + 1 as int));
        }
        i = i + 1;
    }
    proof {
        assert(r@ =~= v@);
    }
    r
}

} // verus!
