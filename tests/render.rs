use qsc_rca::applications::{ApplicationGeneratorSet, ArrayParamApplication, ParamApplication};
use qsc_rca::features::{
    RuntimeFeatureFlags, DYNAMIC_QUBIT_ALLOCATION, FORWARD_BRANCHING_ON_DYNAMIC_VALUE,
    LOOP_WITH_DYNAMIC_CONDITION, USE_OF_DYNAMICALLY_SIZED_ARRAY, USE_OF_DYNAMIC_BOOL,
    USE_OF_DYNAMIC_INT, USE_OF_DYNAMIC_QUBIT, USE_OF_DYNAMIC_RANGE,
};
use qsc_rca::ids::{BlockId, LocalItemId};
use qsc_rca::lattice::RuntimeKind::{Dynamic, Static};
use qsc_rca::lattice::{ComputeKind, QuantumProperties, ValueKind};
use qsc_rca::store::{CallableComputeProperties, ItemComputeProperties, PackageComputeProperties};
use qsc_rca::text::indent_text;

fn quantum(bits: u32, value_kind: ValueKind) -> ComputeKind {
    ComputeKind::new_with_runtime_features(RuntimeFeatureFlags::from_bits_truncate(bits), value_kind)
}

fn set(inherent: ComputeKind) -> ApplicationGeneratorSet {
    ApplicationGeneratorSet {
        inherent,
        dynamic_param_applications: vec![],
    }
}

#[test]
fn indentation_goes_before_each_non_empty_line() {
    assert_eq!(indent_text("a\nb\n\nc", "  "), "  a\n  b\n\n  c");
    assert_eq!(indent_text("\nx", "    "), "\n    x");
    assert_eq!(indent_text("", "    "), "");
}

#[test]
fn features_render_as_names_or_zero() {
    assert_eq!(
        RuntimeFeatureFlags::from_bits_truncate(USE_OF_DYNAMIC_BOOL | USE_OF_DYNAMIC_INT).to_string(),
        "RuntimeFeatureFlags(UseOfDynamicBool | UseOfDynamicInt)"
    );
    assert_eq!(RuntimeFeatureFlags::empty().to_string(), "RuntimeFeatureFlags(0x0)");
}

#[test]
fn value_kinds_render() {
    assert_eq!(ValueKind::Element(Dynamic).to_string(), "Element(Dynamic)");
    assert_eq!(
        ValueKind::Array(Static, Dynamic).to_string(),
        "Array(Content: Static, Size: Dynamic)"
    );
    assert_eq!(Static.to_string(), "Static");
}

#[test]
fn classical_set_renders() {
    assert_eq!(
        set(ComputeKind::Classical).to_string(),
        "ApplicationsGeneratorSet:\n    inherent: Classical\n    dynamic_param_applications: <empty>"
    );
}

#[test]
fn dynamic_bool_set_renders() {
    let expected = "ApplicationsGeneratorSet:
    inherent: Quantum: QuantumProperties:
        runtime_features: RuntimeFeatureFlags(UseOfDynamicBool)
        value_kind: Element(Dynamic)
    dynamic_param_applications: <empty>";
    assert_eq!(
        set(quantum(USE_OF_DYNAMIC_BOOL, ValueKind::Element(Dynamic))).to_string(),
        expected
    );
}

#[test]
fn static_qubit_set_renders() {
    let expected = "ApplicationsGeneratorSet:
    inherent: Quantum: QuantumProperties:
        runtime_features: RuntimeFeatureFlags(0x0)
        value_kind: Element(Static)
    dynamic_param_applications: <empty>";
    assert_eq!(set(quantum(0, ValueKind::Element(Static))).to_string(), expected);
}

#[test]
fn dynamic_register_set_renders() {
    let expected = "ApplicationsGeneratorSet:
    inherent: Quantum: QuantumProperties:
        runtime_features: RuntimeFeatureFlags(UseOfDynamicBool | UseOfDynamicInt | UseOfDynamicRange | UseOfDynamicQubit | UseOfDynamicallySizedArray | ForwardBranchingOnDynamicValue | DynamicQubitAllocation | LoopWithDynamicCondition)
        value_kind: Array(Content: Dynamic, Size: Dynamic)
    dynamic_param_applications: <empty>";
    let bits = USE_OF_DYNAMIC_BOOL
        | USE_OF_DYNAMIC_INT
        | USE_OF_DYNAMIC_RANGE
        | USE_OF_DYNAMIC_QUBIT
        | USE_OF_DYNAMICALLY_SIZED_ARRAY
        | FORWARD_BRANCHING_ON_DYNAMIC_VALUE
        | DYNAMIC_QUBIT_ALLOCATION
        | LOOP_WITH_DYNAMIC_CONDITION;
    assert_eq!(set(quantum(bits, ValueKind::Array(Dynamic, Dynamic))).to_string(), expected);
}

#[test]
fn callable_item_renders() {
    let expected = "Callable: CallableComputeProperties:
    body: ApplicationsGeneratorSet:
        inherent: Quantum: QuantumProperties:
            runtime_features: RuntimeFeatureFlags(UseOfDynamicBool | ForwardBranchingOnDynamicValue | DynamicQubitAllocation)
            value_kind: Element(Static)
        dynamic_param_applications: <empty>
    adj: <none>
    ctl: <none>
    ctl-adj: <none>";
    let bits = USE_OF_DYNAMIC_BOOL | FORWARD_BRANCHING_ON_DYNAMIC_VALUE | DYNAMIC_QUBIT_ALLOCATION;
    let item = ItemComputeProperties::Callable(CallableComputeProperties {
        body: set(quantum(bits, ValueKind::Element(Static))),
        adj: None,
        ctl: None,
        ctl_adj: None,
    });
    assert_eq!(item.to_string(), expected);
    assert_eq!(ItemComputeProperties::NonCallable.to_string(), "NonCallable");
}

#[test]
fn parameter_applications_render_indented() {
    let expected = "ApplicationsGeneratorSet:
    inherent: Classical
    dynamic_param_applications:
        [0]: [Parameter Type Element] Quantum: QuantumProperties:
            runtime_features: RuntimeFeatureFlags(UseOfDynamicInt)
            value_kind: Element(Dynamic)
        [1]: [Parameter Type Array] ArrayParamApplication:
            static_content_dynamic_size: Classical
            dynamic_content_static_size: Classical
            dynamic_content_dynamic_size: Classical";
    let set = ApplicationGeneratorSet {
        inherent: ComputeKind::Classical,
        dynamic_param_applications: vec![
            ParamApplication::Element(quantum(USE_OF_DYNAMIC_INT, ValueKind::Element(Dynamic))),
            ParamApplication::Array(ArrayParamApplication {
                static_content_dynamic_size: ComputeKind::Classical,
                dynamic_content_static_size: ComputeKind::Classical,
                dynamic_content_dynamic_size: ComputeKind::Classical,
            }),
        ],
    };
    assert_eq!(set.to_string(), expected);
}

#[test]
fn package_renders_its_entries() {
    let mut package = PackageComputeProperties::new();
    package.items.insert(LocalItemId(1).0, ItemComputeProperties::NonCallable);
    package.blocks.insert(BlockId(0).0, set(ComputeKind::Classical));
    let expected = "Package:
    Items:
        Item 1: NonCallable
    Blocks:
        Block 0: ApplicationsGeneratorSet:
            inherent: Classical
            dynamic_param_applications: <empty>
    Stmts:
    Exprs:";
    assert_eq!(package.to_string(), expected);
}

#[test]
fn quantum_properties_render() {
    let properties = QuantumProperties {
        runtime_features: RuntimeFeatureFlags::empty(),
        value_kind: ValueKind::Array(Static, Static),
    };
    assert_eq!(
        properties.to_string(),
        "QuantumProperties:\n    runtime_features: RuntimeFeatureFlags(0x0)\n    value_kind: Array(Content: Static, Size: Static)"
    );
}
