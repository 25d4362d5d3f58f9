//! Application generator sets: per-parameter summaries that yield the compute kind of any call.
use crate::lattice::{
    ComputeKind, RuntimeKind, ValueKind, lemma_compute_kind_join_least_upper_bound,
    lemma_compute_kind_join_monotone, lemma_compute_kind_order,
};
use vstd::prelude::*;

verus! {

/// The compute kinds of an application when an array parameter is bound to an argument that is
/// dynamic in its size, its content, or both.
#[derive(Clone, Copy, Debug, PartialEq, Eq, Structural)]
pub struct ArrayParamApplication {
    pub static_content_dynamic_size: ComputeKind,
    pub dynamic_content_static_size: ComputeKind,
    pub dynamic_content_dynamic_size: ComputeKind,
}

/// The compute kind contributed by a parameter when it is bound to a dynamic argument.
#[derive(Clone, Copy, Debug, PartialEq, Eq, Structural)]
pub enum ParamApplication {
    /// The parameter's type is not an array.
    Element(ComputeKind),
    /// The parameter's type is an array.
    Array(ArrayParamApplication),
}

impl ParamApplication {
    /// Every compute kind it holds carries, if any, a value kind of the array variant exactly when
    /// `array` holds.
    pub open spec fn fits(self, array: bool) -> bool {
        match self {
            ParamApplication::Element(delta) => delta.fits(array),
            ParamApplication::Array(a) => a.static_content_dynamic_size.fits(array)
                && a.dynamic_content_static_size.fits(array)
                && a.dynamic_content_dynamic_size.fits(array),
        }
    }

    /// A more dynamic array argument never contributes less.
    pub open spec fn monotone(self) -> bool {
        match self {
            ParamApplication::Element(_) => true,
            ParamApplication::Array(a) => a.static_content_dynamic_size.le(
                a.dynamic_content_dynamic_size,
            ) && a.dynamic_content_static_size.le(a.dynamic_content_dynamic_size),
        }
    }

    /// What an argument of value kind `arg` contributes, once projected onto the parameter's
    /// variant.
    pub open spec fn delta(self, arg: ValueKind) -> ComputeKind {
        match self {
            ParamApplication::Element(delta) => if arg.spec_is_dynamic() {
                delta
            } else {
                ComputeKind::Classical
            },
            ParamApplication::Array(a) => match arg.projected(
                ValueKind::Array(RuntimeKind::Static, RuntimeKind::Static),
            ) {
                ValueKind::Array(RuntimeKind::Dynamic, RuntimeKind::Static) => a.dynamic_content_static_size,
                ValueKind::Array(RuntimeKind::Static, RuntimeKind::Dynamic) => a.static_content_dynamic_size,
                ValueKind::Array(RuntimeKind::Dynamic, RuntimeKind::Dynamic) => a.dynamic_content_dynamic_size,
                _ => ComputeKind::Classical,
            },
        }
    }
}

/// A set of compute properties associated to a callable or one of its elements, from which the
/// properties of any particular call application can be derived.
#[derive(Clone, Debug, PartialEq, Eq)]
pub struct ApplicationGeneratorSet {
    /// The inherent compute kind of a program element, which is determined by binding all the
    /// parameters it depends on to static values.
    pub inherent: ComputeKind,
    /// Entry `i` gives the compute kind(s) of a call application when parameter `i` is bound to a
    /// dynamic value.
    pub dynamic_param_applications: Vec<ParamApplication>,
}

impl ApplicationGeneratorSet {
    pub open spec fn fits(self, array: bool) -> bool {
        &&& self.inherent.fits(array)
        &&& forall|i: int|
            0 <= i < self.dynamic_param_applications@.len()
                ==> #[trigger] self.dynamic_param_applications@[i].fits(array)
    }

    /// All value kinds in the set are of one variant, so that they can be joined.
    pub open spec fn wf(self) -> bool {
        self.fits(false) || self.fits(true)
    }

    /// Every array parameter application is monotone.
    pub open spec fn monotone(self) -> bool {
        forall|i: int|
            0 <= i < self.dynamic_param_applications@.len()
                ==> #[trigger] self.dynamic_param_applications@[i].monotone()
    }

    /// The compute kind after joining the contributions of the first `n` arguments to the inherent
    /// one.
    pub open spec fn application_prefix(self, args: Seq<ValueKind>, n: nat) -> ComputeKind
        decreases n,
    {
        if n == 0 {
            self.inherent
        } else {
            self.application_prefix(args, (n - 1) as nat).join(
                self.dynamic_param_applications@[n - 1].delta(args[n - 1]),
            )
        }
    }

    /// The compute kind of an application to arguments of value kinds `args`.
    pub open spec fn application(self, args: Seq<ValueKind>) -> ComputeKind {
        self.application_prefix(args, args.len())
    }

    /// The compute kind of an application whose arguments have the value kinds
    /// `args_value_kinds`, one per parameter.
    pub fn generate_application_compute_kind(&self, args_value_kinds: &[ValueKind]) -> (r:
        ComputeKind)
        requires
            self.wf(),
            self.dynamic_param_applications@.len() == args_value_kinds@.len(),
        ensures
            r == self.application(args_value_kinds@),
    {
        let ghost array = self.fits(true);
        let mut compute_kind = self.inherent;
        let mut i: usize = 0;
        while i < args_value_kinds.len()
            invariant
                i <= args_value_kinds@.len(),
                self.dynamic_param_applications@.len() == args_value_kinds@.len(),
                self.fits(array),
                compute_kind == self.application_prefix(args_value_kinds@, i as nat),
                compute_kind.fits(array),
            decreases args_value_kinds@.len() - i,
        {
            let arg_value_kind = args_value_kinds[i];
            let param_application = self.dynamic_param_applications[i];
            assert(param_application.fits(array));
            // The parameter may have a generic type, so the argument's variant may differ from the
            // parameter's: project the argument onto the parameter's variant first.
            let param_compute_kind = match param_application {
                ParamApplication::Element(delta) => {
                    let mut mapped_value_kind = ValueKind::Element(RuntimeKind::Static);
                    arg_value_kind.project_onto_variant(&mut mapped_value_kind);
                    match mapped_value_kind {
                        ValueKind::Element(RuntimeKind::Dynamic) => delta,
                        _ => ComputeKind::Classical,
                    }
                },
                ParamApplication::Array(array_param_application) => {
                    let mut mapped_value_kind = ValueKind::Array(
                        RuntimeKind::Static,
                        RuntimeKind::Static,
                    );
                    arg_value_kind.project_onto_variant(&mut mapped_value_kind);
                    match mapped_value_kind {
                        ValueKind::Array(RuntimeKind::Dynamic, RuntimeKind::Static) => {
                            array_param_application.dynamic_content_static_size
                        },
                        ValueKind::Array(RuntimeKind::Static, RuntimeKind::Dynamic) => {
                            array_param_application.static_content_dynamic_size
                        },
                        ValueKind::Array(RuntimeKind::Dynamic, RuntimeKind::Dynamic) => {
                            array_param_application.dynamic_content_dynamic_size
                        },
                        // Static content and size contribute nothing.
                        _ => ComputeKind::Classical,
                    }
                },
            };
            assert(param_compute_kind == param_application.delta(arg_value_kind));
            proof {
                lemma_compute_kind_join_least_upper_bound(
                    compute_kind,
                    param_compute_kind,
                    compute_kind,
                    array,
                );
            }
            compute_kind = compute_kind.aggregate(param_compute_kind);
            i = i + 1;
        }
        compute_kind
    }
}

proof fn lemma_delta_monotone(p: ParamApplication, x: ValueKind, y: ValueKind, array: bool)
    requires
        p.fits(array),
        p.monotone(),
        x.le(y),
    ensures
        p.delta(x).fits(array),
        p.delta(x).le(p.delta(y)),
{
    match p {
        ParamApplication::Element(d) => {
            lemma_compute_kind_order(d, d, d);
        },
        ParamApplication::Array(a) => {
            lemma_compute_kind_order(
                a.static_content_dynamic_size,
                a.static_content_dynamic_size,
                a.static_content_dynamic_size,
            );
            lemma_compute_kind_order(
                a.dynamic_content_static_size,
                a.dynamic_content_static_size,
                a.dynamic_content_static_size,
            );
            lemma_compute_kind_order(
                a.dynamic_content_dynamic_size,
                a.dynamic_content_dynamic_size,
                a.dynamic_content_dynamic_size,
            );
        },
    }
}

proof fn lemma_application_prefix_monotone(
    g: ApplicationGeneratorSet,
    a: Seq<ValueKind>,
    b: Seq<ValueKind>,
    n: nat,
    array: bool,
)
    requires
        g.fits(array),
        g.monotone(),
        n <= a.len(),
        a.len() == b.len(),
        a.len() == g.dynamic_param_applications@.len(),
        forall|i: int| 0 <= i < a.len() ==> #[trigger] a[i].le(b[i]),
    ensures
        g.application_prefix(a, n).le(g.application_prefix(b, n)),
        g.application_prefix(a, n).fits(array),
        g.application_prefix(b, n).fits(array),
    decreases n,
{
    if n == 0 {
        lemma_compute_kind_order(g.inherent, g.inherent, g.inherent);
    } else {
        let k = n - 1;
        let p = g.dynamic_param_applications@[k];
        assert(p.fits(array));
        assert(p.monotone());
        assert(a[k].le(b[k]));
        lemma_application_prefix_monotone(g, a, b, (n - 1) as nat, array);
        lemma_delta_monotone(p, a[k], b[k], array);
        lemma_delta_monotone(p, b[k], b[k], array);
        lemma_compute_kind_join_monotone(
            g.application_prefix(a, (n - 1) as nat),
            g.application_prefix(b, (n - 1) as nat),
            p.delta(a[k]),
            p.delta(b[k]),
            array,
        );
        lemma_compute_kind_join_least_upper_bound(
            g.application_prefix(a, (n - 1) as nat),
            p.delta(a[k]),
            ComputeKind::Classical,
            array,
        );
        lemma_compute_kind_join_least_upper_bound(
            g.application_prefix(b, (n - 1) as nat),
            p.delta(b[k]),
            ComputeKind::Classical,
            array,
        );
    }
}

/// Monotonicity: binding arguments that are at least as dynamic yields a compute kind at least as
/// high in the lattice.
pub proof fn lemma_application_monotone(
    g: ApplicationGeneratorSet,
    a: Seq<ValueKind>,
    b: Seq<ValueKind>,
)
    requires
        g.wf(),
        g.monotone(),
        a.len() == g.dynamic_param_applications@.len(),
        b.len() == a.len(),
        forall|i: int| 0 <= i < a.len() ==> #[trigger] a[i].le(b[i]),
    ensures
        g.application(a).le(g.application(b)),
{
    let array = g.fits(true);
    lemma_application_prefix_monotone(g, a, b, a.len(), array);
}

} // verus!
