//! Runtime features of program elements and the coarse runtime capabilities they require.
use vstd::prelude::*;

verus! {

/// The number of distinct runtime features.
pub const FEATURE_COUNT: u32 = 24;

/// The bits of all runtime features.
pub const ALL_FEATURE_BITS: u32 = 0xff_ffff;

/// Bit of the `ForwardBranching` capability.
pub const FORWARD_BRANCHING_BIT: u32 = 1;

/// Bit of the `IntegerComputations` capability.
pub const INTEGER_COMPUTATIONS_BIT: u32 = 2;

/// Bit of the `FloatingPointComputations` capability.
pub const FLOATING_POINT_COMPUTATIONS_BIT: u32 = 4;

/// Bit of the `BackwardsBranching` capability.
pub const BACKWARDS_BRANCHING_BIT: u32 = 8;

/// Bit of the `HigherLevelConstructs` capability.
pub const HIGHER_LEVEL_CONSTRUCTS_BIT: u32 = 16;

/// Bits of all capabilities.
pub const ALL_CAPABILITY_BITS: u32 = 0x1f;

/// Whether bit `i` of `bits` is set.
pub open spec fn bit_set(bits: u32, i: u32) -> bool {
    (bits >> i) & 1u32 == 1u32
}

/// The capability bucket of the feature at bit position `i`.
pub open spec fn feature_capability(i: u32) -> u32 {
    if i == 0 || i == 17 || i == 21 {
        FORWARD_BRANCHING_BIT
    } else if i == 1 || i == 2 || i == 3 {
        INTEGER_COMPUTATIONS_BIT
    } else if i == 4 {
        FLOATING_POINT_COMPUTATIONS_BIT
    } else if i == 22 {
        BACKWARDS_BRANCHING_BIT
    } else {
        HIGHER_LEVEL_CONSTRUCTS_BIT
    }
}

/// The union of the capability buckets of the features of `bits` among the first `n` positions.
pub open spec fn capabilities_of(bits: u32, n: nat) -> u32
    decreases n,
{
    if n == 0 {
        0
    } else {
        let i = (n - 1) as u32;
        capabilities_of(bits, (n - 1) as nat) | (if bit_set(bits, i) {
            feature_capability(i)
        } else {
            0
        })
    }
}

/// The features of `bits` among the first `n` positions whose bucket meets `caps`.
pub open spec fn contributing_of(bits: u32, caps: u32, n: nat) -> u32
    decreases n,
{
    if n == 0 {
        0
    } else {
        let i = (n - 1) as u32;
        contributing_of(bits, caps, (n - 1) as nat) | (if bit_set(bits, i) && feature_capability(i)
            & caps != 0 {
            1u32 << i
        } else {
            0
        })
    }
}

/// Use of a dynamic `Bool`.
pub const USE_OF_DYNAMIC_BOOL: u32 = 1 << 0;

/// Use of a dynamic `Int`.
pub const USE_OF_DYNAMIC_INT: u32 = 1 << 1;

/// Use of a dynamic `Pauli`.
pub const USE_OF_DYNAMIC_PAULI: u32 = 1 << 2;

/// Use of a dynamic `Range`.
pub const USE_OF_DYNAMIC_RANGE: u32 = 1 << 3;

/// Use of a dynamic `Double`.
pub const USE_OF_DYNAMIC_DOUBLE: u32 = 1 << 4;

/// Use of a dynamic `Qubit`.
pub const USE_OF_DYNAMIC_QUBIT: u32 = 1 << 5;

/// Use of a dynamic `BigInt`.
pub const USE_OF_DYNAMIC_BIG_INT: u32 = 1 << 6;

/// Use of a dynamic `String`.
pub const USE_OF_DYNAMIC_STRING: u32 = 1 << 7;

/// Use of a dynamically sized array.
pub const USE_OF_DYNAMICALLY_SIZED_ARRAY: u32 = 1 << 8;

/// Use of a dynamic UDT.
pub const USE_OF_DYNAMIC_UDT: u32 = 1 << 9;

/// Use of a dynamic arrow function.
pub const USE_OF_DYNAMIC_ARROW_FUNCTION: u32 = 1 << 10;

/// Use of a dynamic arrow operation.
pub const USE_OF_DYNAMIC_ARROW_OPERATION: u32 = 1 << 11;

/// A function with cycles used with a dynamic argument.
pub const CALL_TO_CYCLIC_FUNCTION_WITH_DYNAMIC_ARG: u32 = 1 << 12;

/// An operation specialization with cycles exists.
pub const CYCLIC_OPERATION_SPEC: u32 = 1 << 13;

/// A call to an operation with cycles.
pub const CALL_TO_CYCLIC_OPERATION: u32 = 1 << 14;

/// A callee expression is dynamic.
pub const CALL_TO_DYNAMIC_CALLEE: u32 = 1 << 15;

/// A callee expression could not be resolved to a specific callable.
pub const CALL_TO_UNRESOLVED_CALLEE: u32 = 1 << 16;

/// Forward branching on a dynamic value.
pub const FORWARD_BRANCHING_ON_DYNAMIC_VALUE: u32 = 1 << 17;

/// Qubit allocation that happens within a dynamic scope.
pub const DYNAMIC_QUBIT_ALLOCATION: u32 = 1 << 18;

/// Result allocation that happens within a dynamic scope.
pub const DYNAMIC_RESULT_ALLOCATION: u32 = 1 << 19;

/// Use of a dynamic index to access or update an array.
pub const USE_OF_DYNAMIC_INDEX: u32 = 1 << 20;

/// A return expression within a dynamic scope.
pub const RETURN_WITHIN_DYNAMIC_SCOPE: u32 = 1 << 21;

/// A loop with a dynamic condition.
pub const LOOP_WITH_DYNAMIC_CONDITION: u32 = 1 << 22;

/// Use of a closure.
pub const USE_OF_CLOSURE: u32 = 1 << 23;

/// Returns the capability bucket of the feature at bit position `i`.
pub fn capability_of_feature(i: u32) -> (r: u32)
    requires
        i < FEATURE_COUNT,
    ensures
        r == feature_capability(i),
{
    if i == 0 || i == 17 || i == 21 {
        FORWARD_BRANCHING_BIT
    } else if i == 1 || i == 2 || i == 3 {
        INTEGER_COMPUTATIONS_BIT
    } else if i == 4 {
        FLOATING_POINT_COMPUTATIONS_BIT
    } else if i == 22 {
        BACKWARDS_BRANCHING_BIT
    } else {
        HIGHER_LEVEL_CONSTRUCTS_BIT
    }
}

/// Runtime features represent anything a program can do that is more complex than executing quantum
/// operations on statically allocated qubits and using constant arguments. Bit `i` stands for the
/// feature whose constant is `1 << i`.
#[derive(Clone, Copy, Debug, PartialEq, Eq, Structural, Hash)]
pub struct RuntimeFeatureFlags {
    pub bits: u32,
}

impl RuntimeFeatureFlags {
    /// Only bits of known features are set.
    pub open spec fn wf(self) -> bool {
        self.bits <= ALL_FEATURE_BITS
    }

    pub fn empty() -> (r: RuntimeFeatureFlags)
        ensures
            r.bits == 0,
    {
        RuntimeFeatureFlags { bits: 0 }
    }

    pub fn all() -> (r: RuntimeFeatureFlags)
        ensures
            r.bits == ALL_FEATURE_BITS,
    {
        RuntimeFeatureFlags { bits: ALL_FEATURE_BITS }
    }

    /// The flags of `bits`, without the bits that name no feature.
    pub fn from_bits_truncate(bits: u32) -> (r: RuntimeFeatureFlags)
        ensures
            r.bits == bits & ALL_FEATURE_BITS,
            r.wf(),
    {
        proof {
            lemma_and_le(bits, ALL_FEATURE_BITS);
        }
        RuntimeFeatureFlags { bits: bits & ALL_FEATURE_BITS }
    }

    pub fn bits(&self) -> (r: u32)
        ensures
            r == self.bits,
    {
        self.bits
    }

    pub fn is_empty(&self) -> (r: bool)
        ensures
            r == (self.bits == 0),
    {
        self.bits == 0
    }

    /// Whether every feature of `other` is in `self`.
    pub fn contains(&self, other: RuntimeFeatureFlags) -> (r: bool)
        ensures
            r == (self.bits & other.bits == other.bits),
    {
        self.bits & other.bits == other.bits
    }

    /// Whether `self` and `other` share a feature.
    pub fn intersects(&self, other: RuntimeFeatureFlags) -> (r: bool)
        ensures
            r == (self.bits & other.bits != 0),
    {
        self.bits & other.bits != 0
    }

    /// The features of `self` together with those of `other`.
    pub fn union(self, other: RuntimeFeatureFlags) -> (r: RuntimeFeatureFlags)
        ensures
            r.bits == self.bits | other.bits,
            self.wf() && other.wf() ==> r.wf(),
    {
        proof {
            lemma_or_le(self.bits, other.bits);
        }
        RuntimeFeatureFlags { bits: self.bits | other.bits }
    }

    /// Maps program constructs to runtime capabilities: the union of the buckets of all features set.
    pub fn runtime_capabilities(&self) -> (r: RuntimeCapabilityFlags)
        ensures
            r.bits == capabilities_of(self.bits, FEATURE_COUNT as nat),
    {
        let mut caps: u32 = 0;
        let mut i: u32 = 0;
        while i < FEATURE_COUNT
            invariant
                i <= FEATURE_COUNT,
                caps == capabilities_of(self.bits, i as nat),
            decreases FEATURE_COUNT - i,
        {
            if (self.bits >> i) & 1 == 1 {
                caps = caps | capability_of_feature(i);
            } else {
                proof {
                    lemma_or_zero(caps);
                }
            }
            i = i + 1;
        }
        RuntimeCapabilityFlags { bits: caps }
    }

    /// Determines the runtime features that contribute to the provided runtime capabilities: the
    /// features of `self` whose bucket meets `runtime_capabilities`.
    pub fn contributing_features(&self, runtime_capabilities: RuntimeCapabilityFlags) -> (r:
        RuntimeFeatureFlags)
        ensures
            r.bits == contributing_of(self.bits, runtime_capabilities.bits, FEATURE_COUNT as nat),
    {
        let mut contributing: u32 = 0;
        let mut i: u32 = 0;
        while i < FEATURE_COUNT
            invariant
                i <= FEATURE_COUNT,
                contributing == contributing_of(
                    self.bits,
                    runtime_capabilities.bits,
                    i as nat,
                ),
            decreases FEATURE_COUNT - i,
        {
            let feature = RuntimeFeatureFlags { bits: 1u32 << i };
            proof {
                lemma_single_feature_capability(i);
            }
            if (self.bits >> i) & 1 == 1 && feature.runtime_capabilities().intersects(
                runtime_capabilities,
            ) {
                contributing = contributing | feature.bits;
            } else {
                proof {
                    lemma_or_zero(contributing);
                }
            }
            i = i + 1;
        }
        RuntimeFeatureFlags { bits: contributing }
    }
}

/// A set of coarse runtime capabilities of a quantum target.
#[derive(Clone, Copy, Debug, PartialEq, Eq, Structural, Hash)]
pub struct RuntimeCapabilityFlags {
    pub bits: u32,
}

impl RuntimeCapabilityFlags {
    pub fn empty() -> (r: RuntimeCapabilityFlags)
        ensures
            r.bits == 0,
    {
        RuntimeCapabilityFlags { bits: 0 }
    }

    pub fn all() -> (r: RuntimeCapabilityFlags)
        ensures
            r.bits == ALL_CAPABILITY_BITS,
    {
        RuntimeCapabilityFlags { bits: ALL_CAPABILITY_BITS }
    }

    /// The capabilities of `bits`, without the bits that name no capability.
    pub fn from_bits_truncate(bits: u32) -> (r: RuntimeCapabilityFlags)
        ensures
            r.bits == bits & ALL_CAPABILITY_BITS,
    {
        RuntimeCapabilityFlags { bits: bits & ALL_CAPABILITY_BITS }
    }

    pub fn bits(&self) -> (r: u32)
        ensures
            r == self.bits,
    {
        self.bits
    }

    /// Whether every capability of `other` is in `self`.
    pub fn contains(&self, other: RuntimeCapabilityFlags) -> (r: bool)
        ensures
            r == (self.bits & other.bits == other.bits),
    {
        self.bits & other.bits == other.bits
    }

    /// Whether `self` and `other` share a capability.
    pub fn intersects(&self, other: RuntimeCapabilityFlags) -> (r: bool)
        ensures
            r == (self.bits & other.bits != 0),
    {
        self.bits & other.bits != 0
    }

    /// The capabilities of `self` together with those of `other`.
    pub fn union(self, other: RuntimeCapabilityFlags) -> (r: RuntimeCapabilityFlags)
        ensures
            r.bits == self.bits | other.bits,
    {
        RuntimeCapabilityFlags { bits: self.bits | other.bits }
    }
}

proof fn lemma_or_zero(x: u32)
    ensures
        x | 0u32 == x,
        0u32 | x == x,
{
    assert(x | 0u32 == x && 0u32 | x == x) by (bit_vector);
}

proof fn lemma_and_le(x: u32, m: u32)
    ensures
        x & m <= m,
{
    assert(x & m <= m) by (bit_vector);
}

proof fn lemma_or_le(x: u32, y: u32)
    ensures
        x <= ALL_FEATURE_BITS && y <= ALL_FEATURE_BITS ==> x | y <= ALL_FEATURE_BITS,
{
    assert(x <= 0xff_ffffu32 && y <= 0xff_ffffu32 ==> x | y <= 0xff_ffffu32) by (bit_vector);
}

proof fn lemma_single_bit(i: u32, n: u32)
    requires
        i < 32,
        n < 32,
    ensures
        bit_set(1u32 << i, n) == (i == n),
{
    assert(i < 32 && n < 32 ==> (((1u32 << i) >> n) & 1u32 == 1u32) == (i == n)) by (bit_vector);
}

proof fn lemma_capabilities_of_single(i: u32, n: nat)
    requires
        i < FEATURE_COUNT,
        n <= FEATURE_COUNT,
    ensures
        capabilities_of(1u32 << i, n) == if (i as nat) < n {
            feature_capability(i)
        } else {
            0
        },
    decreases n,
{
    if n > 0 {
        let j = (n - 1) as u32;
        lemma_capabilities_of_single(i, (n - 1) as nat);
        lemma_single_bit(i, j);
        lemma_or_zero(feature_capability(i));
        lemma_or_zero(0);
    }
}

/// The capability of each single feature is the bucket that the feature table gives it.
pub proof fn lemma_single_feature_capability(i: u32)
    requires
        i < FEATURE_COUNT,
    ensures
        capabilities_of(1u32 << i, FEATURE_COUNT as nat) == feature_capability(i),
{
    lemma_capabilities_of_single(i, FEATURE_COUNT as nat);
}

/// The mask of the `n` lowest bits.
pub open spec fn low_mask(n: u32) -> u32 {
    ((1u32 << n) - 1u32) as u32
}

proof fn lemma_or_covers(x: u32, y: u32, c: u32)
    ensures
        c & (x | c) == c,
        c & x == c ==> c & (x | y) == c,
{
    assert(c & (x | c) == c) by (bit_vector);
    assert(c & x == c ==> c & (x | y) == c) by (bit_vector);
}

proof fn lemma_mask_step(f: u32, n: u32)
    requires
        n < FEATURE_COUNT,
    ensures
        bit_set(f, n) ==> (f & low_mask(n)) | (1u32 << n) == f & low_mask((n + 1) as u32),
        !bit_set(f, n) ==> (f & low_mask(n)) | 0u32 == f & low_mask((n + 1) as u32),
        f & low_mask(0) == 0,
        f <= ALL_FEATURE_BITS ==> f & low_mask(FEATURE_COUNT) == f,
{
    assert(n < 24 ==> (((f >> n) & 1u32 == 1u32) ==> (f & (((1u32 << n) - 1u32) as u32)) | (1u32
        << n) == f & (((1u32 << ((n + 1) as u32)) - 1u32) as u32))) by (bit_vector);
    assert(n < 24 ==> (!((f >> n) & 1u32 == 1u32) ==> (f & (((1u32 << n) - 1u32) as u32)) | 0u32
        == f & (((1u32 << ((n + 1) as u32)) - 1u32) as u32))) by (bit_vector);
    assert(f & (((1u32 << 0u32) - 1u32) as u32) == 0) by (bit_vector);
    assert(f <= 0xff_ffffu32 ==> f & (((1u32 << 24u32) - 1u32) as u32) == f) by (bit_vector);
}

/// Every set feature's bucket lies within the capabilities of the whole set.
proof fn lemma_capabilities_cover(f: u32, j: u32, n: nat)
    requires
        (j as nat) < n,
        n <= FEATURE_COUNT,
        bit_set(f, j),
    ensures
        feature_capability(j) & capabilities_of(f, n) == feature_capability(j),
    decreases n,
{
    let i = (n - 1) as u32;
    let prev = capabilities_of(f, (n - 1) as nat);
    let step = if bit_set(f, i) {
        feature_capability(i)
    } else {
        0
    };
    lemma_or_covers(prev, step, feature_capability(j));
    if (j as nat) < n - 1 {
        lemma_capabilities_cover(f, j, (n - 1) as nat);
    }
}

proof fn lemma_contributing_prefix(f: u32, caps: u32, n: nat)
    requires
        n <= FEATURE_COUNT,
        forall|j: u32| #![trigger bit_set(f, j)]
            (j as nat) < n && bit_set(f, j) ==> feature_capability(j) & caps != 0,
    ensures
        contributing_of(f, caps, n) == f & low_mask(n as u32),
    decreases n,
{
    if n == 0 {
        lemma_mask_step(f, 0);
    } else {
        let i = (n - 1) as u32;
        lemma_mask_step(f, i);
        lemma_contributing_prefix(f, caps, (n - 1) as nat);
        assert(bit_set(f, i) ==> feature_capability(i) & caps != 0);
        assert((i + 1) as u32 == n as u32);
    }
}

/// The features that contribute to a set's own capabilities are the whole set.
pub proof fn lemma_contributing_features_of_own_capabilities(f: RuntimeFeatureFlags)
    requires
        f.wf(),
    ensures
        contributing_of(f.bits, capabilities_of(f.bits, FEATURE_COUNT as nat), FEATURE_COUNT as nat)
            == f.bits,
{
    let caps = capabilities_of(f.bits, FEATURE_COUNT as nat);
    assert forall|j: u32| #![trigger bit_set(f.bits, j)]
        (j as nat) < FEATURE_COUNT && bit_set(f.bits, j) implies feature_capability(j) & caps
        != 0 by {
        lemma_capabilities_cover(f.bits, j, FEATURE_COUNT as nat);
    }
    lemma_contributing_prefix(f.bits, caps, FEATURE_COUNT as nat);
    lemma_mask_step(f.bits, 0);
}

} // verus!
