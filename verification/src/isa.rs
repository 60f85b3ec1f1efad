//! The immutable target capability descriptor.
//!
//! A `TargetIsa` is read-only and may be consulted by any number of
//! concurrently compiling contexts; it carries the optimization tier and
//! feature flags that gate the pipeline, the register file size, and the
//! default calling convention.

use crate::ir::CallConv;
use vstd::prelude::*;

verus! {

/// How much optimization the pipeline performs.
#[derive(Clone, Copy, PartialEq, Eq, Structural, Debug)]
pub enum OptLevel {
    /// Compile as fast as possible: no optional rewrite or analysis pass.
    Fastest,
    /// The default tier: pre/post-legalization rewrites and dead-code
    /// elimination, but no loop analysis, GVN, LICM or shrinking.
    Standard,
    /// Run every pass.
    Best,
}

/// Shared settings consulted by the pipeline.
#[derive(Clone, Copy, PartialEq, Eq, Structural, Debug)]
pub struct Flags {
    /// The optimization tier.
    pub opt_level: OptLevel,
    /// Whether every pass is followed by a consistency check.
    pub enable_verifier: bool,
    /// Whether the NaN-canonicalization pass runs.
    pub enable_nan_canonicalization: bool,
}

/// The default settings: the default tier, no verification, no NaN
/// canonicalization.
pub open spec fn default_flags() -> Flags {
    Flags { opt_level: OptLevel::Standard, enable_verifier: false, enable_nan_canonicalization: false }
}

impl Flags {
    /// The default settings.
    pub fn new() -> (r: Flags)
        ensures
            r == default_flags(),
    {
        Flags {
            opt_level: OptLevel::Standard,
            enable_verifier: false,
            enable_nan_canonicalization: false,
        }
    }

    /// The optimization tier.
    pub fn opt_level(&self) -> (r: OptLevel)
        ensures
            r == self.opt_level,
    {
        self.opt_level
    }

    /// Whether flag-gated verification runs.
    pub fn enable_verifier(&self) -> (r: bool)
        ensures
            r == self.enable_verifier,
    {
        self.enable_verifier
    }

    /// Whether the NaN-canonicalization pass runs.
    pub fn enable_nan_canonicalization(&self) -> (r: bool)
        ensures
            r == self.enable_nan_canonicalization,
    {
        self.enable_nan_canonicalization
    }
}

/// The number of registers the target's register file offers.
pub const HOST_REGS: u32 = 32;

/// The target capability object: flags, register file, calling convention
/// and the encoding scheme exercised through compilation and emission.
#[derive(Clone, Copy, PartialEq, Eq, Structural, Debug)]
pub struct TargetIsa {
    /// The settings every pass consults.
    pub flags: Flags,
    /// The size of the register file available to the allocator.
    pub num_regs: u32,
    /// The calling convention used when none is requested.
    pub call_conv: CallConv,
}

/// The host target under the given settings.
pub open spec fn host_isa(flags: Flags) -> TargetIsa {
    TargetIsa { flags, num_regs: HOST_REGS, call_conv: CallConv::SystemV }
}

impl TargetIsa {
    /// The host target under the given settings.
    pub fn new(flags: Flags) -> (r: TargetIsa)
        ensures
            r == host_isa(flags),
            r.flags == flags,
            r.num_regs == HOST_REGS,
            r.call_conv == CallConv::SystemV,
    {
        TargetIsa { flags, num_regs: HOST_REGS, call_conv: CallConv::SystemV }
    }

    /// The settings of this target.
    pub fn flags(&self) -> (r: Flags)
        ensures
            r == self.flags,
    {
        self.flags
    }

    /// The calling convention used when none is requested.
    pub fn default_call_conv(&self) -> (r: CallConv)
        ensures
            r == self.call_conv,
    {
        self.call_conv
    }
}

} // verus!
