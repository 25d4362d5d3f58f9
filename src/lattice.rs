//! The value and compute-kind lattices and their joins.
use crate::features::{ALL_FEATURE_BITS, RuntimeFeatureFlags};
use crate::ty::Ty;
use vstd::prelude::*;

verus! {

/// Whether every bit of `a` is set in `b`.
pub open spec fn bits_subset(a: u32, b: u32) -> bool {
    a & b == a
}

/// The two-point lattice of runtime knowledge, `Static` below `Dynamic`.
#[derive(Clone, Copy, Debug, PartialEq, Eq, Structural)]
pub enum RuntimeKind {
    Static,
    Dynamic,
}

impl RuntimeKind {
    pub open spec fn join(self, other: RuntimeKind) -> RuntimeKind {
        if self == RuntimeKind::Dynamic || other == RuntimeKind::Dynamic {
            RuntimeKind::Dynamic
        } else {
            RuntimeKind::Static
        }
    }

    pub open spec fn le(self, other: RuntimeKind) -> bool {
        self == RuntimeKind::Static || other == RuntimeKind::Dynamic
    }

    /// The join of `self` and `value`: `Dynamic` absorbs.
    pub fn aggregate(self, value: RuntimeKind) -> (r: RuntimeKind)
        ensures
            r == self.join(value),
    {
        match value {
            RuntimeKind::Static => self,
            RuntimeKind::Dynamic => RuntimeKind::Dynamic,
        }
    }
}

/// The runtime knowledge of a value: of a single element, or of an array's content and size.
#[derive(Clone, Copy, Debug, PartialEq, Eq, Structural)]
pub enum ValueKind {
    /// The first runtime kind is that of the array's content, the second that of its size.
    Array(RuntimeKind, RuntimeKind),
    /// Runtime kind of a single element.
    Element(RuntimeKind),
}

impl ValueKind {
    pub open spec fn same_variant(self, other: ValueKind) -> bool {
        (self is Array) == (other is Array)
    }

    /// The component-wise join; values of different variants have none, and give `self`.
    pub open spec fn join(self, other: ValueKind) -> ValueKind {
        match (self, other) {
            (ValueKind::Array(c, s), ValueKind::Array(oc, os)) => ValueKind::Array(
                c.join(oc),
                s.join(os),
            ),
            (ValueKind::Element(k), ValueKind::Element(ok)) => ValueKind::Element(k.join(ok)),
            _ => self,
        }
    }

    /// The lattice order: same variant, component-wise.
    pub open spec fn le(self, other: ValueKind) -> bool {
        match (self, other) {
            (ValueKind::Array(c, s), ValueKind::Array(oc, os)) => c.le(oc) && s.le(os),
            (ValueKind::Element(k), ValueKind::Element(ok)) => k.le(ok),
            _ => false,
        }
    }

    pub open spec fn spec_is_dynamic(self) -> bool {
        match self {
            ValueKind::Array(c, s) => c == RuntimeKind::Dynamic || s == RuntimeKind::Dynamic,
            ValueKind::Element(k) => k == RuntimeKind::Dynamic,
        }
    }

    /// `self` coerced onto the variant of `target`.
    pub open spec fn projected(self, target: ValueKind) -> ValueKind {
        match target {
            ValueKind::Array(_, _) => match self {
                ValueKind::Array(c, s) => ValueKind::Array(c, s),
                ValueKind::Element(k) => ValueKind::Array(k, k),
            },
            ValueKind::Element(_) => ValueKind::Element(
                if self.spec_is_dynamic() {
                    RuntimeKind::Dynamic
                } else {
                    RuntimeKind::Static
                },
            ),
        }
    }

    /// The value kind of a dynamic value of type `ty`.
    pub open spec fn dynamic_of_type(ty: Ty) -> ValueKind {
        if ty.is_unit() {
            ValueKind::Element(RuntimeKind::Static)
        } else if ty.is_array() {
            ValueKind::Array(RuntimeKind::Dynamic, RuntimeKind::Dynamic)
        } else {
            ValueKind::Element(RuntimeKind::Dynamic)
        }
    }

    /// The value kind of a static value of type `ty`.
    pub open spec fn static_of_type(ty: Ty) -> ValueKind {
        if ty.is_array() {
            ValueKind::Array(RuntimeKind::Static, RuntimeKind::Static)
        } else {
            ValueKind::Element(RuntimeKind::Static)
        }
    }

    /// A dynamic value kind for `ty`; a unit value is always static.
    pub fn new_dynamic_from_type(ty: &Ty) -> (r: ValueKind)
        ensures
            r == ValueKind::dynamic_of_type(*ty),
    {
        match ty {
            Ty::Tuple(items) if items.len() == 0 => ValueKind::Element(RuntimeKind::Static),
            Ty::Array(_) => ValueKind::Array(RuntimeKind::Dynamic, RuntimeKind::Dynamic),
            _ => ValueKind::Element(RuntimeKind::Dynamic),
        }
    }

    /// A static value kind for `ty`.
    pub fn new_static_from_type(ty: &Ty) -> (r: ValueKind)
        ensures
            r == ValueKind::static_of_type(*ty),
    {
        match ty {
            Ty::Array(_) => ValueKind::Array(RuntimeKind::Static, RuntimeKind::Static),
            _ => ValueKind::Element(RuntimeKind::Static),
        }
    }

    /// The join of two value kinds of the same variant.
    pub fn aggregate(self, value: ValueKind) -> (r: ValueKind)
        requires
            self.same_variant(value),
        ensures
            r == self.join(value),
    {
        match self {
            ValueKind::Array(content, size) => match value {
                ValueKind::Array(other_content, other_size) => ValueKind::Array(
                    content.aggregate(other_content),
                    size.aggregate(other_size),
                ),
                ValueKind::Element(_) => self,
            },
            ValueKind::Element(kind) => match value {
                ValueKind::Element(other_kind) => ValueKind::Element(kind.aggregate(other_kind)),
                ValueKind::Array(_, _) => self,
            },
        }
    }

    /// Whether any component is dynamic.
    #[verifier::when_used_as_spec(spec_is_dynamic)]
    pub fn is_dynamic(self) -> (r: bool)
        ensures
            r == self.spec_is_dynamic(),
    {
        match self {
            ValueKind::Array(content, size) => matches!(content, RuntimeKind::Dynamic) || matches!(
                size,
                RuntimeKind::Dynamic
            ),
            ValueKind::Element(kind) => matches!(kind, RuntimeKind::Dynamic),
        }
    }

    /// Coerces the runtime kinds of `self` onto the variant of `variant`: an element spreads over
    /// content and size, an array collapses to an element that is dynamic if any part is.
    pub fn project_onto_variant(self, variant: &mut ValueKind)
        ensures
            *final(variant) == self.projected(*old(variant)),
    {
        match variant {
            ValueKind::Array(content_kind, size_kind) => match self {
                ValueKind::Array(self_content, self_size) => {
                    *content_kind = self_content;
                    *size_kind = self_size;
                },
                ValueKind::Element(self_kind) => {
                    *content_kind = self_kind;
                    *size_kind = self_kind;
                },
            },
            ValueKind::Element(kind) => {
                *kind = if self.is_dynamic() {
                    RuntimeKind::Dynamic
                } else {
                    RuntimeKind::Static
                };
            },
        }
    }
}

/// The quantum properties of a program element.
#[derive(Clone, Copy, Debug, PartialEq, Eq, Structural)]
pub struct QuantumProperties {
    /// The runtime features used by the program element.
    pub runtime_features: RuntimeFeatureFlags,
    /// The kind of value of the program element.
    pub value_kind: ValueKind,
}

/// Whether a program element is known before runtime (classical), or needs runtime features.
#[derive(Clone, Copy, Debug, PartialEq, Eq, Structural)]
pub enum ComputeKind {
    Classical,
    Quantum(QuantumProperties),
}

impl ComputeKind {
    /// Whether the value kind, if any, is of the array variant exactly when `array` holds.
    pub open spec fn fits(self, array: bool) -> bool {
        match self {
            ComputeKind::Classical => true,
            ComputeKind::Quantum(q) => (q.value_kind is Array) == array,
        }
    }

    /// Two compute kinds can be joined: they do not carry value kinds of different variants.
    pub open spec fn compatible(self, other: ComputeKind) -> bool {
        match (self, other) {
            (ComputeKind::Quantum(a), ComputeKind::Quantum(b)) => a.value_kind.same_variant(
                b.value_kind,
            ),
            _ => true,
        }
    }

    /// Classical is the bottom; quantum kinds join their features and their value kinds.
    pub open spec fn join(self, other: ComputeKind) -> ComputeKind {
        match (self, other) {
            (_, ComputeKind::Classical) => self,
            (ComputeKind::Classical, _) => other,
            (ComputeKind::Quantum(a), ComputeKind::Quantum(b)) => ComputeKind::Quantum(
                QuantumProperties {
                    runtime_features: RuntimeFeatureFlags {
                        bits: a.runtime_features.bits | b.runtime_features.bits,
                    },
                    value_kind: a.value_kind.join(b.value_kind),
                },
            ),
        }
    }

    /// The lattice order: classical below everything; quantum kinds by feature inclusion and value
    /// kind.
    pub open spec fn le(self, other: ComputeKind) -> bool {
        match (self, other) {
            (ComputeKind::Classical, _) => true,
            (ComputeKind::Quantum(_), ComputeKind::Classical) => false,
            (ComputeKind::Quantum(a), ComputeKind::Quantum(b)) => bits_subset(
                a.runtime_features.bits,
                b.runtime_features.bits,
            ) && a.value_kind.le(b.value_kind),
        }
    }

    /// The join of the features only: the value kind is that of `self`, or `default_value_kind`
    /// where `self` is classical and `value` is not.
    pub open spec fn join_features(
        self,
        value: ComputeKind,
        default_value_kind: ValueKind,
    ) -> ComputeKind {
        match (self, value) {
            (_, ComputeKind::Classical) => self,
            (ComputeKind::Classical, ComputeKind::Quantum(b)) => ComputeKind::Quantum(
                QuantumProperties {
                    runtime_features: b.runtime_features,
                    value_kind: default_value_kind,
                },
            ),
            (ComputeKind::Quantum(a), ComputeKind::Quantum(b)) => ComputeKind::Quantum(
                QuantumProperties {
                    runtime_features: RuntimeFeatureFlags {
                        bits: a.runtime_features.bits | b.runtime_features.bits,
                    },
                    value_kind: a.value_kind,
                },
            ),
        }
    }

    pub open spec fn spec_is_dynamic(self) -> bool {
        match self {
            ComputeKind::Classical => false,
            ComputeKind::Quantum(q) => q.value_kind.spec_is_dynamic(),
        }
    }

    pub fn new_with_runtime_features(runtime_features: RuntimeFeatureFlags, value_kind: ValueKind) -> (r:
        ComputeKind)
        ensures
            r == ComputeKind::Quantum(QuantumProperties { runtime_features, value_kind }),
    {
        ComputeKind::Quantum(QuantumProperties { runtime_features, value_kind })
    }

    /// The join of `self` and `value`.
    pub fn aggregate(self, value: ComputeKind) -> (r: ComputeKind)
        requires
            self.compatible(value),
        ensures
            r == self.join(value),
    {
        let value_properties = match value {
            ComputeKind::Classical => {
                return self;
            },
            ComputeKind::Quantum(q) => q,
        };
        let (runtime_features, value_kind) = match self {
            ComputeKind::Classical => (
                value_properties.runtime_features,
                value_properties.value_kind,
            ),
            ComputeKind::Quantum(self_properties) => (
                self_properties.runtime_features.union(value_properties.runtime_features),
                self_properties.value_kind.aggregate(value_properties.value_kind),
            ),
        };
        ComputeKind::Quantum(QuantumProperties { runtime_features, value_kind })
    }

    /// The join of the runtime features of `self` and `value`, keeping the value kind of `self`;
    /// where `self` is classical, the value kind is `default_value_kind`.
    pub fn aggregate_runtime_features(self, value: ComputeKind, default_value_kind: ValueKind) -> (r:
        ComputeKind)
        ensures
            r == self.join_features(value, default_value_kind),
    {
        let value_properties = match value {
            ComputeKind::Classical => {
                return self;
            },
            ComputeKind::Quantum(q) => q,
        };
        let (runtime_features, value_kind) = match self {
            ComputeKind::Classical => (value_properties.runtime_features, default_value_kind),
            ComputeKind::Quantum(self_properties) => (
                self_properties.runtime_features.union(value_properties.runtime_features),
                self_properties.value_kind,
            ),
        };
        ComputeKind::Quantum(QuantumProperties { runtime_features, value_kind })
    }

    /// Joins `value` into the value kind of a quantum compute kind.
    pub fn aggregate_value_kind(&mut self, value: ValueKind)
        requires
            *old(self) is Quantum,
            (*old(self))->Quantum_0.value_kind.same_variant(value),
        ensures
            *final(self) == ComputeKind::Quantum(
                QuantumProperties {
                    runtime_features: (*old(self))->Quantum_0.runtime_features,
                    value_kind: (*old(self))->Quantum_0.value_kind.join(value),
                },
            ),
    {
        match self {
            ComputeKind::Quantum(properties) => {
                properties.value_kind = properties.value_kind.aggregate(value);
            },
            ComputeKind::Classical => {},
        }
    }

    /// Whether the element is quantum with a dynamic value.
    pub fn is_dynamic(self) -> (r: bool)
        ensures
            r == self.spec_is_dynamic(),
    {
        match self {
            ComputeKind::Classical => false,
            ComputeKind::Quantum(properties) => properties.value_kind.is_dynamic(),
        }
    }

    /// The value kind of a quantum compute kind.
    pub fn value_kind(self) -> (r: Option<ValueKind>)
        ensures
            r == match self {
                ComputeKind::Classical => None,
                ComputeKind::Quantum(q) => Some(q.value_kind),
            },
    {
        match self {
            ComputeKind::Classical => None,
            ComputeKind::Quantum(properties) => Some(properties.value_kind),
        }
    }

    /// The value kind of a quantum compute kind, or `default` for a classical one.
    pub fn value_kind_or_default(self, default: ValueKind) -> (r: ValueKind)
        ensures
            r == match self {
                ComputeKind::Classical => default,
                ComputeKind::Quantum(q) => q.value_kind,
            },
    {
        match self {
            ComputeKind::Classical => default,
            ComputeKind::Quantum(properties) => properties.value_kind,
        }
    }
}

proof fn lemma_bits_subset_facts(a: u32, b: u32, c: u32)
    ensures
        bits_subset(a, a),
        bits_subset(a, a | b),
        bits_subset(b, a | b),
        bits_subset(a, c) && bits_subset(b, c) ==> bits_subset(a | b, c),
        bits_subset(a, b) && bits_subset(b, c) ==> bits_subset(a, c),
{
    assert(a & a == a) by (bit_vector);
    assert(a & (a | b) == a) by (bit_vector);
    assert(b & (a | b) == b) by (bit_vector);
    assert((a & c == a && b & c == b) ==> (a | b) & c == a | b) by (bit_vector);
    assert((a & b == a && b & c == b) ==> a & c == a) by (bit_vector);
}

/// The order on compute kinds is reflexive and transitive.
pub proof fn lemma_compute_kind_order(x: ComputeKind, y: ComputeKind, z: ComputeKind)
    ensures
        x.le(x),
        x.le(y) && y.le(z) ==> x.le(z),
{
    if let (ComputeKind::Quantum(a), ComputeKind::Quantum(b), ComputeKind::Quantum(c)) = (x, y, z) {
        lemma_bits_subset_facts(
            a.runtime_features.bits,
            b.runtime_features.bits,
            c.runtime_features.bits,
        );
    }
    if let ComputeKind::Quantum(a) = x {
        lemma_bits_subset_facts(a.runtime_features.bits, 0, 0);
    }
}

/// On compute kinds that carry value kinds of one variant, the join is the least upper bound.
pub proof fn lemma_compute_kind_join_least_upper_bound(
    x: ComputeKind,
    y: ComputeKind,
    z: ComputeKind,
    array: bool,
)
    requires
        x.fits(array),
        y.fits(array),
    ensures
        x.join(y).fits(array),
        x.le(x.join(y)),
        y.le(x.join(y)),
        x.le(z) && y.le(z) ==> x.join(y).le(z),
{
    lemma_compute_kind_order(x, x, x);
    lemma_compute_kind_order(y, y, y);
    if let (ComputeKind::Quantum(a), ComputeKind::Quantum(b)) = (x, y) {
        if let ComputeKind::Quantum(c) = z {
            lemma_bits_subset_facts(
                a.runtime_features.bits,
                b.runtime_features.bits,
                c.runtime_features.bits,
            );
        } else {
            lemma_bits_subset_facts(a.runtime_features.bits, b.runtime_features.bits, 0);
        }
    }
}

/// The join is monotone in both arguments.
pub proof fn lemma_compute_kind_join_monotone(
    x: ComputeKind,
    x2: ComputeKind,
    y: ComputeKind,
    y2: ComputeKind,
    array: bool,
)
    requires
        x.fits(array),
        x2.fits(array),
        y.fits(array),
        y2.fits(array),
        x.le(x2),
        y.le(y2),
    ensures
        x.join(y).le(x2.join(y2)),
{
    let z = x2.join(y2);
    lemma_compute_kind_join_least_upper_bound(x2, y2, z, array);
    lemma_compute_kind_order(x, x2, z);
    lemma_compute_kind_order(y, y2, z);
    lemma_compute_kind_join_least_upper_bound(x, y, z, array);
}

/// Joining two all-static array kinds keeps them static; a dynamic component on either side makes
/// that component of the join dynamic, and two static components stay static.
pub proof fn lemma_value_kind_join_components(a: ValueKind, b: ValueKind)
    requires
        a.same_variant(b),
    ensures
        ValueKind::Array(RuntimeKind::Static, RuntimeKind::Static).join(
            ValueKind::Array(RuntimeKind::Static, RuntimeKind::Static),
        ) == ValueKind::Array(RuntimeKind::Static, RuntimeKind::Static),
        a is Array ==> a.join(b) is Array,
        a is Array ==> (a.join(b)->Array_0 == RuntimeKind::Dynamic <==> (a->Array_0
            == RuntimeKind::Dynamic || b->Array_0 == RuntimeKind::Dynamic)),
        a is Array ==> (a.join(b)->Array_1 == RuntimeKind::Dynamic <==> (a->Array_1
            == RuntimeKind::Dynamic || b->Array_1 == RuntimeKind::Dynamic)),
        a is Element ==> a.join(b) is Element,
        a is Element ==> (a.join(b)->Element_0 == RuntimeKind::Dynamic <==> (a->Element_0
            == RuntimeKind::Dynamic || b->Element_0 == RuntimeKind::Dynamic)),
{
}

/// Projecting onto a target of the same variant gives the value kind back, and projecting onto
/// the result of a projection changes nothing.
pub proof fn lemma_project_onto_matching_variant(a: ValueKind, target: ValueKind)
    ensures
        a.same_variant(target) ==> a.projected(target) == a,
        a.projected(a.projected(target)) == a.projected(target),
{
}

} // verus!
