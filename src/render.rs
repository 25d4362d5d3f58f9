//! Multi-line text renderings of compute properties.
use crate::applications::{ApplicationGeneratorSet, ArrayParamApplication, ParamApplication};
use crate::features::{FEATURE_COUNT, RuntimeFeatureFlags, bit_set};
use crate::index_map::IndexMap;
use crate::lattice::{ComputeKind, QuantumProperties, RuntimeKind, ValueKind};
use crate::store::{CallableComputeProperties, ItemComputeProperties, PackageComputeProperties};
use crate::text::{decimal, indent_lines, indent_text, push_decimal};
use vstd::prelude::*;
use vstd::string::*;

verus! {

/// One level of indentation.
pub open spec fn level1() -> Seq<char> {
    "    "@
}

/// Two levels of indentation.
pub open spec fn level2() -> Seq<char> {
    "        "@
}

/// `text` as written at one more level of indentation, after the first line.
pub open spec fn nested(text: Seq<char>, indentation: Seq<char>) -> Seq<char> {
    indent_lines(text, indentation, true)
}

/// The name of the feature at bit position `i`.
pub open spec fn feature_name_of(i: u32) -> &'static str {
    match i {
        0 => "UseOfDynamicBool",
        1 => "UseOfDynamicInt",
        2 => "UseOfDynamicPauli",
        3 => "UseOfDynamicRange",
        4 => "UseOfDynamicDouble",
        5 => "UseOfDynamicQubit",
        6 => "UseOfDynamicBigInt",
        7 => "UseOfDynamicString",
        8 => "UseOfDynamicallySizedArray",
        9 => "UseOfDynamicUdt",
        10 => "UseOfDynamicArrowFunction",
        11 => "UseOfDynamicArrowOperation",
        12 => "CallToCyclicFunctionWithDynamicArg",
        13 => "CyclicOperationSpec",
        14 => "CallToCyclicOperation",
        15 => "CallToDynamicCallee",
        16 => "CallToUnresolvedCallee",
        17 => "ForwardBranchingOnDynamicValue",
        18 => "DynamicQubitAllocation",
        19 => "DynamicResultAllocation",
        20 => "UseOfDynamicIndex",
        21 => "ReturnWithinDynamicScope",
        22 => "LoopWithDynamicCondition",
        _ => "UseOfClosure",
    }
}

/// The name of the feature at bit position `i`.
pub fn feature_name(i: u32) -> (r: &'static str)
    ensures
        r == feature_name_of(i),
{
    match i {
        0 => "UseOfDynamicBool",
        1 => "UseOfDynamicInt",
        2 => "UseOfDynamicPauli",
        3 => "UseOfDynamicRange",
        4 => "UseOfDynamicDouble",
        5 => "UseOfDynamicQubit",
        6 => "UseOfDynamicBigInt",
        7 => "UseOfDynamicString",
        8 => "UseOfDynamicallySizedArray",
        9 => "UseOfDynamicUdt",
        10 => "UseOfDynamicArrowFunction",
        11 => "UseOfDynamicArrowOperation",
        12 => "CallToCyclicFunctionWithDynamicArg",
        13 => "CyclicOperationSpec",
        14 => "CallToCyclicOperation",
        15 => "CallToDynamicCallee",
        16 => "CallToUnresolvedCallee",
        17 => "ForwardBranchingOnDynamicValue",
        18 => "DynamicQubitAllocation",
        19 => "DynamicResultAllocation",
        20 => "UseOfDynamicIndex",
        21 => "ReturnWithinDynamicScope",
        22 => "LoopWithDynamicCondition",
        _ => "UseOfClosure",
    }
}

/// Whether a feature is set among the first `n` positions.
pub open spec fn any_feature(bits: u32, n: nat) -> bool
    decreases n,
{
    if n == 0 {
        false
    } else {
        any_feature(bits, (n - 1) as nat) || bit_set(bits, (n - 1) as u32)
    }
}

/// The names of the features set among the first `n` positions, separated by ` | `.
pub open spec fn feature_names(bits: u32, n: nat) -> Seq<char>
    decreases n,
{
    if n == 0 {
        Seq::empty()
    } else {
        let i = (n - 1) as u32;
        let before = feature_names(bits, (n - 1) as nat);
        if !bit_set(bits, i) {
            before
        } else if any_feature(bits, (n - 1) as nat) {
            before + " | "@ + feature_name_of(i)@
        } else {
            feature_name_of(i)@
        }
    }
}

proof fn lemma_no_feature_no_names(bits: u32, n: nat)
    requires
        !any_feature(bits, n),
    ensures
        feature_names(bits, n) == Seq::<char>::empty(),
    decreases n,
{
    if n > 0 {
        lemma_no_feature_no_names(bits, (n - 1) as nat);
    }
}

/// `RuntimeFeatureFlags(` followed by the names of the features set, or `0x0` where none is.
pub open spec fn features_text(f: RuntimeFeatureFlags) -> Seq<char> {
    "RuntimeFeatureFlags("@ + (if any_feature(f.bits, FEATURE_COUNT as nat) {
        feature_names(f.bits, FEATURE_COUNT as nat)
    } else {
        "0x0"@
    }) + ")"@
}

pub open spec fn runtime_kind_text(k: RuntimeKind) -> Seq<char> {
    match k {
        RuntimeKind::Static => "Static"@,
        RuntimeKind::Dynamic => "Dynamic"@,
    }
}

pub open spec fn value_kind_text(v: ValueKind) -> Seq<char> {
    match v {
        ValueKind::Array(c, s) => "Array(Content: "@ + runtime_kind_text(c) + ", Size: "@
            + runtime_kind_text(s) + ")"@,
        ValueKind::Element(k) => "Element("@ + runtime_kind_text(k) + ")"@,
    }
}

pub open spec fn quantum_properties_text(q: QuantumProperties) -> Seq<char> {
    "QuantumProperties:"@ + nested("\nruntime_features: "@ + features_text(q.runtime_features), level1())
        + nested("\nvalue_kind: "@ + value_kind_text(q.value_kind), level1())
}

pub open spec fn compute_kind_text(c: ComputeKind) -> Seq<char> {
    match c {
        ComputeKind::Quantum(q) => "Quantum: "@ + quantum_properties_text(q),
        ComputeKind::Classical => "Classical"@,
    }
}

impl RuntimeFeatureFlags {
    /// The names of the features set, as in `RuntimeFeatureFlags(UseOfDynamicBool | UseOfDynamicInt)`,
    /// or `RuntimeFeatureFlags(0x0)` where none is.
    pub fn to_string(&self) -> (r: String)
        ensures
            r@ == features_text(*self),
    {
        let mut names = String::new();
        let mut any = false;
        let mut i: u32 = 0;
        while i < FEATURE_COUNT
            invariant
                i <= FEATURE_COUNT,
                any == any_feature(self.bits, i as nat),
                names@ == feature_names(self.bits, i as nat),
            decreases FEATURE_COUNT - i,
        {
            let ghost before = names@;
            if (self.bits >> i) & 1 == 1 {
                let name = feature_name(i);
                if any {
                    names.append(" | ");
                    names.append(name);
                    assert(names@ =~= before + " | "@ + feature_name_of(i)@);
                } else {
                    names.append(name);
                    assert(names@ =~= before + feature_name_of(i)@);
                    proof {
                        lemma_no_feature_no_names(self.bits, i as nat);
                    }
                }
                any = true;
            }
            assert(names@ =~= feature_names(self.bits, (i + 1) as nat));
            i = i + 1;
        }
        let mut text = String::from_str("RuntimeFeatureFlags(");
        if any {
            text.append(names.as_str());
        } else {
            text.append("0x0");
        }
        text.append(")");
        text
    }
}

impl RuntimeKind {
    pub fn to_string(&self) -> (r: String)
        ensures
            r@ == runtime_kind_text(*self),
    {
        match self {
            RuntimeKind::Static => String::from_str("Static"),
            RuntimeKind::Dynamic => String::from_str("Dynamic"),
        }
    }
}

impl ValueKind {
    pub fn to_string(&self) -> (r: String)
        ensures
            r@ == value_kind_text(*self),
    {
        match self {
            ValueKind::Array(content, size) => {
                let mut text = String::from_str("Array(Content: ");
                text.append(content.to_string().as_str());
                text.append(", Size: ");
                text.append(size.to_string().as_str());
                text.append(")");
                text
            },
            ValueKind::Element(kind) => {
                let mut text = String::from_str("Element(");
                text.append(kind.to_string().as_str());
                text.append(")");
                text
            },
        }
    }
}

/// Appends `text`, indented by `indentation` after its first line, to `out`.
fn push_nested(out: &mut String, text: String, indentation: &'static str)
    ensures
        final(out)@ == old(out)@ + nested(text@, indentation@),
{
    out.append(indent_text(text.as_str(), indentation).as_str());
}

impl QuantumProperties {
    pub fn to_string(&self) -> (r: String)
        ensures
            r@ == quantum_properties_text(*self),
    {
        let mut text = String::from_str("QuantumProperties:");
        let mut line = String::from_str("\nruntime_features: ");
        line.append(self.runtime_features.to_string().as_str());
        push_nested(&mut text, line, "    ");
        let mut line = String::from_str("\nvalue_kind: ");
        line.append(self.value_kind.to_string().as_str());
        push_nested(&mut text, line, "    ");
        text
    }
}

impl ComputeKind {
    pub fn to_string(&self) -> (r: String)
        ensures
            r@ == compute_kind_text(*self),
    {
        match self {
            ComputeKind::Quantum(properties) => {
                let mut text = String::from_str("Quantum: ");
                text.append(properties.to_string().as_str());
                text
            },
            ComputeKind::Classical => String::from_str("Classical"),
        }
    }
}

pub open spec fn array_param_application_text(a: ArrayParamApplication) -> Seq<char> {
    "ArrayParamApplication:"@ + nested(
        "\nstatic_content_dynamic_size: "@ + compute_kind_text(a.static_content_dynamic_size),
        level1(),
    ) + nested(
        "\ndynamic_content_static_size: "@ + compute_kind_text(a.dynamic_content_static_size),
        level1(),
    ) + nested(
        "\ndynamic_content_dynamic_size: "@ + compute_kind_text(a.dynamic_content_dynamic_size),
        level1(),
    )
}

pub open spec fn param_application_text(p: ParamApplication) -> Seq<char> {
    match p {
        ParamApplication::Element(c) => "[Parameter Type Element] "@ + compute_kind_text(c),
        ParamApplication::Array(a) => "[Parameter Type Array] "@ + array_param_application_text(a),
    }
}

/// The first `n` parameter applications, one indented line `[i]: ...` each.
pub open spec fn param_applications_text(ps: Seq<ParamApplication>, n: nat) -> Seq<char>
    decreases n,
{
    if n == 0 {
        Seq::empty()
    } else {
        param_applications_text(ps, (n - 1) as nat) + nested(
            "\n["@ + decimal((n - 1) as nat) + "]: "@ + param_application_text(ps[n - 1]),
            level2(),
        )
    }
}

pub open spec fn generator_set_text(g: ApplicationGeneratorSet) -> Seq<char> {
    let ps = g.dynamic_param_applications@;
    "ApplicationsGeneratorSet:"@ + nested("\ninherent: "@ + compute_kind_text(g.inherent), level1())
        + nested("\ndynamic_param_applications:"@, level1()) + if ps.len() == 0 {
        " <empty>"@
    } else {
        param_applications_text(ps, ps.len())
    }
}

/// The line of a specialization labelled `label`, which may be absent.
pub open spec fn specialization_text(label: Seq<char>, g: Option<ApplicationGeneratorSet>) -> Seq<
    char,
> {
    match g {
        Some(g) => nested("\n"@ + label + ": "@ + generator_set_text(g), level1()),
        None => nested("\n"@ + label + ": <none>"@, level1()),
    }
}

pub open spec fn callable_text(c: CallableComputeProperties) -> Seq<char> {
    "CallableComputeProperties:"@ + nested("\nbody: "@ + generator_set_text(c.body), level1())
        + specialization_text("adj"@, c.adj) + specialization_text("ctl"@, c.ctl)
        + specialization_text("ctl-adj"@, c.ctl_adj)
}

pub open spec fn item_text(i: ItemComputeProperties) -> Seq<char> {
    match i {
        ItemComputeProperties::Callable(c) => "Callable: "@ + callable_text(c),
        ItemComputeProperties::NonCallable => "NonCallable"@,
    }
}

/// The first `n` item entries, one indented line `Item id: ...` each.
pub open spec fn item_entries_text(es: Seq<(usize, ItemComputeProperties)>, n: nat) -> Seq<char>
    decreases n,
{
    if n == 0 {
        Seq::empty()
    } else {
        item_entries_text(es, (n - 1) as nat) + nested(
            "\nItem "@ + decimal(es[n - 1].0 as nat) + ": "@ + item_text(es[n - 1].1),
            level2(),
        )
    }
}

/// The first `n` generator set entries, one indented line `<label>id: ...` each.
pub open spec fn set_entries_text(
    label: Seq<char>,
    es: Seq<(usize, ApplicationGeneratorSet)>,
    n: nat,
) -> Seq<char>
    decreases n,
{
    if n == 0 {
        Seq::empty()
    } else {
        set_entries_text(label, es, (n - 1) as nat) + nested(
            "\n"@ + label + decimal(es[n - 1].0 as nat) + ": "@ + generator_set_text(es[n - 1].1),
            level2(),
        )
    }
}

pub open spec fn package_text(p: PackageComputeProperties) -> Seq<char> {
    let items = p.items.entries();
    let blocks = p.blocks.entries();
    let stmts = p.stmts.entries();
    let exprs = p.exprs.entries();
    "Package:"@ + nested("\nItems:"@, level1()) + item_entries_text(items, items.len()) + nested(
        "\nBlocks:"@,
        level1(),
    ) + set_entries_text("Block "@, blocks, blocks.len()) + nested("\nStmts:"@, level1())
        + set_entries_text("Stmt "@, stmts, stmts.len()) + nested("\nExprs:"@, level1())
        + set_entries_text("Expr "@, exprs, exprs.len())
}

impl ArrayParamApplication {
    pub fn to_string(&self) -> (r: String)
        ensures
            r@ == array_param_application_text(*self),
    {
        let mut text = String::from_str("ArrayParamApplication:");
        let mut line = String::from_str("\nstatic_content_dynamic_size: ");
        line.append(self.static_content_dynamic_size.to_string().as_str());
        push_nested(&mut text, line, "    ");
        let mut line = String::from_str("\ndynamic_content_static_size: ");
        line.append(self.dynamic_content_static_size.to_string().as_str());
        push_nested(&mut text, line, "    ");
        let mut line = String::from_str("\ndynamic_content_dynamic_size: ");
        line.append(self.dynamic_content_dynamic_size.to_string().as_str());
        push_nested(&mut text, line, "    ");
        text
    }
}

impl ParamApplication {
    pub fn to_string(&self) -> (r: String)
        ensures
            r@ == param_application_text(*self),
    {
        match self {
            ParamApplication::Element(compute_kind) => {
                let mut text = String::from_str("[Parameter Type Element] ");
                text.append(compute_kind.to_string().as_str());
                text
            },
            ParamApplication::Array(array_param_application) => {
                let mut text = String::from_str("[Parameter Type Array] ");
                text.append(array_param_application.to_string().as_str());
                text
            },
        }
    }
}

impl ApplicationGeneratorSet {
    pub fn to_string(&self) -> (r: String)
        ensures
            r@ == generator_set_text(*self),
    {
        let ghost ps = self.dynamic_param_applications@;
        let mut text = String::from_str("ApplicationsGeneratorSet:");
        let mut line = String::from_str("\ninherent: ");
        line.append(self.inherent.to_string().as_str());
        push_nested(&mut text, line, "    ");
        push_nested(&mut text, String::from_str("\ndynamic_param_applications:"), "    ");
        if self.dynamic_param_applications.len() == 0 {
            text.append(" <empty>");
        } else {
            let ghost head = text@;
            let mut i: usize = 0;
            while i < self.dynamic_param_applications.len()
                invariant
                    i <= ps.len(),
                    ps == self.dynamic_param_applications@,
                    text@ == head + param_applications_text(ps, i as nat),
                decreases ps.len() - i,
            {
                let mut line = String::from_str("\n[");
                push_decimal(&mut line, i as u64);
                line.append("]: ");
                line.append(self.dynamic_param_applications[i].to_string().as_str());
                push_nested(&mut text, line, "        ");
                assert(text@ =~= head + param_applications_text(ps, (i + 1) as nat));
                i = i + 1;
            }
        }
        text
    }
}

/// Appends the line of a specialization labelled `label`, which may be absent.
fn push_specialization(out: &mut String, label: &str, g: &Option<ApplicationGeneratorSet>)
    ensures
        final(out)@ == old(out)@ + specialization_text(label@, *g),
{
    let mut line = String::from_str("\n");
    line.append(label);
    match g {
        Some(g) => {
            line.append(": ");
            line.append(g.to_string().as_str());
        },
        None => {
            line.append(": <none>");
        },
    }
    push_nested(out, line, "    ");
    assert(out@ =~= old(out)@ + specialization_text(label@, *g));
}

impl CallableComputeProperties {
    pub fn to_string(&self) -> (r: String)
        ensures
            r@ == callable_text(*self),
    {
        let mut text = String::from_str("CallableComputeProperties:");
        let mut line = String::from_str("\nbody: ");
        line.append(self.body.to_string().as_str());
        push_nested(&mut text, line, "    ");
        push_specialization(&mut text, "adj", &self.adj);
        push_specialization(&mut text, "ctl", &self.ctl);
        push_specialization(&mut text, "ctl-adj", &self.ctl_adj);
        text
    }
}

impl ItemComputeProperties {
    pub fn to_string(&self) -> (r: String)
        ensures
            r@ == item_text(*self),
    {
        match self {
            ItemComputeProperties::Callable(callable) => {
                let mut text = String::from_str("Callable: ");
                text.append(callable.to_string().as_str());
                text
            },
            ItemComputeProperties::NonCallable => String::from_str("NonCallable"),
        }
    }
}

/// Appends one indented line `<label>id: ...` per generator set of `map`, in order of key.
fn push_set_entries(
    out: &mut String,
    label: &str,
    map: &IndexMap<ApplicationGeneratorSet>,
)
    ensures
        final(out)@ == old(out)@ + set_entries_text(label@, map.entries(), map.entries().len()),
{
    let entries = map.iter();
    let ghost es = map.entries();
    let ghost head = out@;
    let mut i: usize = 0;
    while i < entries.len()
        invariant
            i <= entries@.len(),
            entries@.len() == es.len(),
            forall|j: int|
                0 <= j < entries@.len() ==> (#[trigger] entries@[j]).0 == es[j].0 && *entries@[j].1
                    == es[j].1,
            out@ == head + set_entries_text(label@, es, i as nat),
        decreases es.len() - i,
    {
        let (id, set) = entries[i];
        let mut line = String::from_str("\n");
        line.append(label);
        push_decimal(&mut line, id as u64);
        line.append(": ");
        line.append(set.to_string().as_str());
        push_nested(out, line, "        ");
        assert(out@ =~= head + set_entries_text(label@, es, (i + 1) as nat));
        i = i + 1;
    }
}

impl PackageComputeProperties {
    pub fn to_string(&self) -> (r: String)
        ensures
            r@ == package_text(*self),
    {
        let mut text = String::from_str("Package:");
        push_nested(&mut text, String::from_str("\nItems:"), "    ");
        let items = self.items.iter();
        let ghost es = self.items.entries();
        let ghost head = text@;
        let mut i: usize = 0;
        while i < items.len()
            invariant
                i <= items@.len(),
                items@.len() == es.len(),
                forall|j: int|
                    0 <= j < items@.len() ==> (#[trigger] items@[j]).0 == es[j].0 && *items@[j].1
                        == es[j].1,
                text@ == head + item_entries_text(es, i as nat),
            decreases es.len() - i,
        {
            let (id, item) = items[i];
            let mut line = String::from_str("\nItem ");
            push_decimal(&mut line, id as u64);
            line.append(": ");
            line.append(item.to_string().as_str());
            push_nested(&mut text, line, "        ");
            assert(text@ =~= head + item_entries_text(es, (i + 1) as nat));
            i = i + 1;
        }
        push_nested(&mut text, String::from_str("\nBlocks:"), "    ");
        push_set_entries(&mut text, "Block ", &self.blocks);
        push_nested(&mut text, String::from_str("\nStmts:"), "    ");
        push_set_entries(&mut text, "Stmt ", &self.stmts);
        push_nested(&mut text, String::from_str("\nExprs:"), "    ");
        push_set_entries(&mut text, "Expr ", &self.exprs);
        text
    }
}

} // verus!
