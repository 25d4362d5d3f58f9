use qsc_rca::features::{
    capability_of_feature, RuntimeCapabilityFlags, RuntimeFeatureFlags, ALL_FEATURE_BITS,
    BACKWARDS_BRANCHING_BIT, CALL_TO_CYCLIC_FUNCTION_WITH_DYNAMIC_ARG, CALL_TO_CYCLIC_OPERATION,
    CALL_TO_DYNAMIC_CALLEE, CALL_TO_UNRESOLVED_CALLEE, CYCLIC_OPERATION_SPEC,
    DYNAMIC_QUBIT_ALLOCATION, DYNAMIC_RESULT_ALLOCATION, FLOATING_POINT_COMPUTATIONS_BIT,
    FORWARD_BRANCHING_BIT, FORWARD_BRANCHING_ON_DYNAMIC_VALUE, HIGHER_LEVEL_CONSTRUCTS_BIT,
    INTEGER_COMPUTATIONS_BIT, LOOP_WITH_DYNAMIC_CONDITION, RETURN_WITHIN_DYNAMIC_SCOPE,
    USE_OF_CLOSURE, USE_OF_DYNAMICALLY_SIZED_ARRAY, USE_OF_DYNAMIC_ARROW_FUNCTION,
    USE_OF_DYNAMIC_ARROW_OPERATION, USE_OF_DYNAMIC_BIG_INT, USE_OF_DYNAMIC_BOOL,
    USE_OF_DYNAMIC_DOUBLE, USE_OF_DYNAMIC_INDEX, USE_OF_DYNAMIC_INT, USE_OF_DYNAMIC_PAULI,
    USE_OF_DYNAMIC_QUBIT, USE_OF_DYNAMIC_RANGE, USE_OF_DYNAMIC_STRING, USE_OF_DYNAMIC_UDT,
};

fn flags(bits: u32) -> RuntimeFeatureFlags {
    RuntimeFeatureFlags::from_bits_truncate(bits)
}

#[test]
fn each_feature_maps_to_its_capability() {
    let table = [
        (USE_OF_DYNAMIC_BOOL, FORWARD_BRANCHING_BIT),
        (USE_OF_DYNAMIC_INT, INTEGER_COMPUTATIONS_BIT),
        (USE_OF_DYNAMIC_PAULI, INTEGER_COMPUTATIONS_BIT),
        (USE_OF_DYNAMIC_RANGE, INTEGER_COMPUTATIONS_BIT),
        (USE_OF_DYNAMIC_DOUBLE, FLOATING_POINT_COMPUTATIONS_BIT),
        (USE_OF_DYNAMIC_QUBIT, HIGHER_LEVEL_CONSTRUCTS_BIT),
        (USE_OF_DYNAMIC_BIG_INT, HIGHER_LEVEL_CONSTRUCTS_BIT),
        (USE_OF_DYNAMIC_STRING, HIGHER_LEVEL_CONSTRUCTS_BIT),
        (USE_OF_DYNAMICALLY_SIZED_ARRAY, HIGHER_LEVEL_CONSTRUCTS_BIT),
        (USE_OF_DYNAMIC_UDT, HIGHER_LEVEL_CONSTRUCTS_BIT),
        (USE_OF_DYNAMIC_ARROW_FUNCTION, HIGHER_LEVEL_CONSTRUCTS_BIT),
        (USE_OF_DYNAMIC_ARROW_OPERATION, HIGHER_LEVEL_CONSTRUCTS_BIT),
        (CALL_TO_CYCLIC_FUNCTION_WITH_DYNAMIC_ARG, HIGHER_LEVEL_CONSTRUCTS_BIT),
        (CYCLIC_OPERATION_SPEC, HIGHER_LEVEL_CONSTRUCTS_BIT),
        (CALL_TO_CYCLIC_OPERATION, HIGHER_LEVEL_CONSTRUCTS_BIT),
        (CALL_TO_DYNAMIC_CALLEE, HIGHER_LEVEL_CONSTRUCTS_BIT),
        (CALL_TO_UNRESOLVED_CALLEE, HIGHER_LEVEL_CONSTRUCTS_BIT),
        (FORWARD_BRANCHING_ON_DYNAMIC_VALUE, FORWARD_BRANCHING_BIT),
        (DYNAMIC_QUBIT_ALLOCATION, HIGHER_LEVEL_CONSTRUCTS_BIT),
        (DYNAMIC_RESULT_ALLOCATION, HIGHER_LEVEL_CONSTRUCTS_BIT),
        (USE_OF_DYNAMIC_INDEX, HIGHER_LEVEL_CONSTRUCTS_BIT),
        (RETURN_WITHIN_DYNAMIC_SCOPE, FORWARD_BRANCHING_BIT),
        (LOOP_WITH_DYNAMIC_CONDITION, BACKWARDS_BRANCHING_BIT),
        (USE_OF_CLOSURE, HIGHER_LEVEL_CONSTRUCTS_BIT),
    ];
    for (position, (feature, capability)) in table.iter().enumerate() {
        assert_eq!(*feature, 1u32 << position);
        assert_eq!(flags(*feature).runtime_capabilities().bits(), *capability);
        assert_eq!(capability_of_feature(position as u32), *capability);
    }
}

#[test]
fn capabilities_of_a_set_are_the_union_of_its_buckets() {
    let features = flags(USE_OF_DYNAMIC_BOOL | USE_OF_DYNAMIC_DOUBLE | LOOP_WITH_DYNAMIC_CONDITION);
    assert_eq!(
        features.runtime_capabilities().bits(),
        FORWARD_BRANCHING_BIT | FLOATING_POINT_COMPUTATIONS_BIT | BACKWARDS_BRANCHING_BIT
    );
    assert_eq!(RuntimeFeatureFlags::empty().runtime_capabilities(), RuntimeCapabilityFlags::empty());
    assert_eq!(RuntimeFeatureFlags::all().runtime_capabilities(), RuntimeCapabilityFlags::all());
}

#[test]
fn contributing_features_of_own_capabilities_are_the_whole_set() {
    for bits in [
        0,
        USE_OF_DYNAMIC_BOOL,
        USE_OF_DYNAMIC_INT | USE_OF_DYNAMIC_QUBIT | USE_OF_CLOSURE,
        FORWARD_BRANCHING_ON_DYNAMIC_VALUE | LOOP_WITH_DYNAMIC_CONDITION,
        ALL_FEATURE_BITS,
    ] {
        let features = flags(bits);
        assert_eq!(features.contributing_features(features.runtime_capabilities()), features);
    }
}

#[test]
fn contributing_features_keep_only_matching_buckets() {
    let features = flags(
        USE_OF_DYNAMIC_BOOL | USE_OF_DYNAMIC_INT | USE_OF_DYNAMIC_QUBIT | RETURN_WITHIN_DYNAMIC_SCOPE,
    );
    let forward = RuntimeCapabilityFlags::from_bits_truncate(FORWARD_BRANCHING_BIT);
    assert_eq!(
        features.contributing_features(forward),
        flags(USE_OF_DYNAMIC_BOOL | RETURN_WITHIN_DYNAMIC_SCOPE)
    );
    let integer_or_higher = RuntimeCapabilityFlags::from_bits_truncate(
        INTEGER_COMPUTATIONS_BIT | HIGHER_LEVEL_CONSTRUCTS_BIT,
    );
    assert_eq!(
        features.contributing_features(integer_or_higher),
        flags(USE_OF_DYNAMIC_INT | USE_OF_DYNAMIC_QUBIT)
    );
    assert_eq!(
        features.contributing_features(RuntimeCapabilityFlags::empty()),
        RuntimeFeatureFlags::empty()
    );
}

#[test]
fn set_operations() {
    let a = flags(USE_OF_DYNAMIC_BOOL | USE_OF_DYNAMIC_INT);
    let b = flags(USE_OF_DYNAMIC_INT);
    let c = flags(USE_OF_CLOSURE);
    assert!(a.contains(b));
    assert!(!b.contains(a));
    assert!(a.intersects(b));
    assert!(!a.intersects(c));
    assert_eq!(a.union(c).bits(), USE_OF_DYNAMIC_BOOL | USE_OF_DYNAMIC_INT | USE_OF_CLOSURE);
    assert!(RuntimeFeatureFlags::empty().is_empty());
    assert!(!a.is_empty());
    assert_eq!(flags(u32::MAX).bits(), ALL_FEATURE_BITS);
    let caps = RuntimeCapabilityFlags::from_bits_truncate(u32::MAX);
    assert_eq!(caps, RuntimeCapabilityFlags::all());
    assert!(caps.contains(RuntimeCapabilityFlags::from_bits_truncate(INTEGER_COMPUTATIONS_BIT)));
    assert!(!RuntimeCapabilityFlags::empty().intersects(caps));
    assert_eq!(
        RuntimeCapabilityFlags::from_bits_truncate(FORWARD_BRANCHING_BIT)
            .union(RuntimeCapabilityFlags::from_bits_truncate(BACKWARDS_BRANCHING_BIT))
            .bits(),
        FORWARD_BRANCHING_BIT | BACKWARDS_BRANCHING_BIT
    );
}
