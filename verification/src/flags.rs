//! Selective-enablement gate: two independent bitmask dimensions decide, per
//! monitored operation, whether instrumentation is enabled.

use vstd::prelude::*;

verus! {

/// A configured feature mask covers a requested one when every requested bit
/// is set in the configuration.
pub open spec fn covers_features(configured: u8, requested: u8) -> bool {
    configured & requested == requested
}

/// A configured operation mask covers a requested one when every requested bit
/// is set in the configuration.
pub open spec fn covers_ops(configured: u64, requested: u64) -> bool {
    configured & requested == requested
}

/// The enablement check over the two configured masks: which coarse features
/// are active, and which specific operations are being traced. Written once at
/// startup, read-only thereafter.
pub struct FlagGate {
    feature_flags: u8,
    op_flags: u64,
}

impl FlagGate {
    /// The configured feature bitmask.
    pub closed spec fn feature_flags(&self) -> u8 {
        self.feature_flags
    }

    /// The configured operation bitmask.
    pub closed spec fn op_flags(&self) -> u64 {
        self.op_flags
    }

    /// A (feature, operation) request is enabled exactly when both configured
    /// masks cover their requested masks, each dimension independently.
    pub open spec fn enabled(&self, requested_features: u8, requested_ops: u64) -> bool {
        covers_features(self.feature_flags(), requested_features)
            && covers_ops(self.op_flags(), requested_ops)
    }

    pub fn new(feature_flags: u8, op_flags: u64) -> (gate: FlagGate)
        ensures
            gate.feature_flags() == feature_flags,
            gate.op_flags() == op_flags,
    {
        FlagGate { feature_flags, op_flags }
    }

    /// True iff the configured feature mask is a superset of the requested
    /// feature mask and the configured operation mask is a superset of the
    /// requested operation mask.
    pub fn is_support_enabled(&self, feature_flags: u8, op_flags: u64) -> (enabled: bool)
        ensures
            enabled == self.enabled(feature_flags, op_flags),
    {
        self.feature_flags & feature_flags == feature_flags
            && self.op_flags & op_flags == op_flags
    }
}

/// A zero feature configuration disables every request that asks for at least
/// one feature bit, whatever its operation mask.
pub proof fn lemma_zero_feature_mask_disables(gate: FlagGate, features: u8, ops: u64)
    requires
        gate.feature_flags() == 0,
        features != 0,
    ensures
        !gate.enabled(features, ops),
{
    assert(!(0u8 & features == features)) by (bit_vector)
        requires
            features != 0,
    ;
}

/// A zero operation configuration disables every request that asks for at
/// least one operation bit, whatever its feature mask.
pub proof fn lemma_zero_op_mask_disables(gate: FlagGate, features: u8, ops: u64)
    requires
        gate.op_flags() == 0,
        ops != 0,
    ensures
        !gate.enabled(features, ops),
{
    assert(!(0u64 & ops == ops)) by (bit_vector)
        requires
            ops != 0,
    ;
}

/// An all-bits configuration in both dimensions enables every request.
pub proof fn lemma_all_bits_enable(gate: FlagGate, features: u8, ops: u64)
    requires
        gate.feature_flags() == 0xff,
        gate.op_flags() == 0xffff_ffff_ffff_ffff,
    ensures
        gate.enabled(features, ops),
{
    assert(0xffu8 & features == features) by (bit_vector);
    assert(0xffff_ffff_ffff_ffffu64 & ops == ops) by (bit_vector);
}

} // verus!
