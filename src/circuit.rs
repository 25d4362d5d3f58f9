//! Entry expressions that call an operation on freshly allocated qubits, for circuit generation.
use crate::text::{decimal, push_decimal};
use crate::ty::{Prim, Ty};
use vstd::prelude::*;
use vstd::string::*;

verus! {

/// The number of qubits to allocate along each dimension of a qubit array parameter.
pub const NUM_QUBITS: u32 = 2;

/// The number of qubits that a parameter of `dim` dimensions takes.
pub open spec fn qubits_for(dim: nat) -> nat
    decreases dim,
{
    if dim == 0 {
        1
    } else {
        (NUM_QUBITS * qubits_for((dim - 1) as nat)) as nat
    }
}

/// The number of dimensions of a qubit (0) or of an array of qubits; `None` for any other type.
pub open spec fn array_dimension(ty: Ty) -> Option<nat>
    decreases ty,
{
    match ty {
        Ty::Prim(Prim::Qubit) => Some(0),
        Ty::Array(element) => match array_dimension(*element) {
            Some(d) => Some(d + 1),
            None => None,
        },
        _ => None,
    }
}

/// The dimensions of the first `n` types, all of which are qubits or qubit arrays.
pub open spec fn dimensions_of(tys: Seq<Ty>, n: nat) -> Seq<nat>
    decreases n,
{
    if n == 0 {
        Seq::empty()
    } else {
        dimensions_of(tys, (n - 1) as nat).push(array_dimension(tys[n - 1])->Some_0)
    }
}

/// The number of qubits that parameters of the first `n` dimensions of `dims` take.
pub open spec fn qubits_before(dims: Seq<nat>, n: nat) -> nat
    decreases n,
{
    if n == 0 {
        0
    } else {
        qubits_before(dims, (n - 1) as nat) + qubits_for(dims[n - 1])
    }
}

/// The dimension of each qubit parameter of a callable whose input has type `ty`, and the number
/// of qubits they take; no dimensions where some parameter is not a qubit or qubit array.
pub open spec fn qubit_param_info_of(ty: Ty) -> (Seq<nat>, nat) {
    match ty {
        Ty::Prim(Prim::Qubit) => (seq![0nat], 1nat),
        Ty::Array(element) => match array_dimension(*element) {
            Some(d) => (seq![d + 1], qubits_for(d + 1)),
            None => (Seq::empty(), 0nat),
        },
        Ty::Tuple(tys) => if forall|i: int|
            0 <= i < tys@.len() ==> #[trigger] array_dimension(tys@[i]) is Some {
            let dims = dimensions_of(tys@, tys@.len());
            (dims, qubits_before(dims, dims.len()))
        } else {
            (Seq::empty(), 0nat)
        },
        _ => (Seq::empty(), 0nat),
    }
}

/// The dimensions and qubit counts that reading `ty` computes fit in a `u32`.
pub open spec fn qubit_param_info_fits(ty: Ty) -> bool {
    match ty {
        Ty::Array(element) => array_dimension(*element) is Some ==> qubits_for(
            array_dimension(*element)->Some_0 + 1,
        ) <= u32::MAX,
        Ty::Tuple(tys) => {
            &&& forall|i: int|
                0 <= i < tys@.len() && #[trigger] array_dimension(tys@[i]) is Some
                    ==> array_dimension(tys@[i])->Some_0 <= u32::MAX
            &&& qubit_param_info_of(ty).1 <= u32::MAX
        },
        _ => true,
    }
}

proof fn lemma_qubits_for_grows(i: nat, dim: nat)
    requires
        i <= dim,
    ensures
        1 <= qubits_for(i) <= qubits_for(dim),
    decreases dim,
{
    if i < dim {
        lemma_qubits_for_grows(i, (dim - 1) as nat);
        lemma_qubits_for_grows((dim - 1) as nat, (dim - 1) as nat);
    } else if dim > 0 {
        lemma_qubits_for_grows((dim - 1) as nat, (dim - 1) as nat);
    }
}

proof fn lemma_dimension_below_qubits(n: nat)
    ensures
        n < qubits_for(n),
    decreases n,
{
    if n > 0 {
        lemma_dimension_below_qubits((n - 1) as nat);
    }
}

proof fn lemma_qubits_before_grows(dims: Seq<nat>, i: nat, n: nat)
    requires
        i <= n <= dims.len(),
    ensures
        qubits_before(dims, i) <= qubits_before(dims, n),
    decreases n,
{
    if i < n {
        lemma_qubits_before_grows(dims, i, (n - 1) as nat);
    }
}

proof fn lemma_dimensions_of(tys: Seq<Ty>, n: nat)
    requires
        n <= tys.len(),
        forall|j: int| 0 <= j < tys.len() ==> #[trigger] array_dimension(tys[j]) is Some,
    ensures
        dimensions_of(tys, n).len() == n,
        forall|j: int|
            0 <= j < n ==> #[trigger] dimensions_of(tys, n)[j] == array_dimension(tys[j])->Some_0,
    decreases n,
{
    if n > 0 {
        lemma_dimensions_of(tys, (n - 1) as nat);
    }
}

/// The number of qubits that a qubit parameter of `dim` dimensions takes.
fn qubits_for_dimension(dim: u32) -> (r: u32)
    requires
        qubits_for(dim as nat) <= u32::MAX,
    ensures
        r == qubits_for(dim as nat),
{
    let mut count: u32 = 1;
    let mut i: u32 = 0;
    while i < dim
        invariant
            i <= dim,
            count == qubits_for(i as nat),
            qubits_for(dim as nat) <= u32::MAX,
        decreases dim - i,
    {
        proof {
            lemma_qubits_for_grows((i + 1) as nat, dim as nat);
        }
        count = count * NUM_QUBITS;
        i = i + 1;
    }
    count
}

/// If `input` is a qubit or a qubit array, the number of dimensions of the array: `Some(0)` for a
/// `Qubit`, `Some(2)` for a `Qubit[][]`; `None` for any other type.
fn get_array_dimension(input: &Ty) -> (r: Option<u32>)
    requires
        array_dimension(*input) is Some ==> array_dimension(*input)->Some_0 <= u32::MAX,
    ensures
        r is Some <==> array_dimension(*input) is Some,
        r is Some ==> r->Some_0 == array_dimension(*input)->Some_0,
    decreases input,
{
    match input {
        Ty::Prim(Prim::Qubit) => Some(0),
        Ty::Array(element) => match get_array_dimension(element) {
            Some(d) => Some(d + 1),
            None => None,
        },
        _ => None,
    }
}

/// The dimension of each qubit parameter of an input of type `input`, and the number of qubits
/// to allocate for them all; no dimensions and no qubits where any parameter is not a qubit or a
/// qubit array.
pub fn get_qubit_param_info(input: &Ty) -> (r: (Vec<u32>, u32))
    requires
        qubit_param_info_fits(*input),
    ensures
        nat_dims(r.0@) == qubit_param_info_of(*input).0,
        r.1 == qubit_param_info_of(*input).1,
{
    match input {
        Ty::Prim(Prim::Qubit) => {
            let r = (vec![0u32], 1u32);
            assert(r.0@.map_values(|d: u32| d as nat) =~= seq![0nat]);
            return r;
        },
        Ty::Array(element) => {
            proof {
                if array_dimension(**element) is Some {
                    lemma_dimension_below_qubits(array_dimension(**element)->Some_0 + 1);
                }
            }
            if let Some(element_dim) = get_array_dimension(element) {
                let dim = element_dim + 1;
                let r = (vec![dim], qubits_for_dimension(dim));
                assert(r.0@.map_values(|d: u32| d as nat) =~= seq![dim as nat]);
                return r;
            }
        },
        Ty::Tuple(tys) => {
            let mut params: Vec<Option<u32>> = Vec::new();
            let mut i: usize = 0;
            while i < tys.len()
                invariant
                    i <= tys@.len(),
                    params@.len() == i,
                    qubit_param_info_fits(*input),
                    *input == Ty::Tuple(*tys),
                    forall|j: int|
                        0 <= j < i ==> (#[trigger] params@[j] is Some <==> array_dimension(
                            tys@[j],
                        ) is Some) && (params@[j] is Some ==> params@[j]->Some_0
                            == array_dimension(tys@[j])->Some_0),
                decreases tys@.len() - i,
            {
                params.push(get_array_dimension(&tys[i]));
                i = i + 1;
            }
            let mut all_some = true;
            let mut i: usize = 0;
            while i < params.len()
                invariant
                    i <= params@.len(),
                    all_some == forall|j: int| 0 <= j < i ==> #[trigger] params@[j] is Some,
                decreases params@.len() - i,
            {
                if params[i].is_none() {
                    all_some = false;
                }
                i = i + 1;
            }
            if all_some {
                let ghost full = dimensions_of(tys@, tys@.len());
                proof {
                    assert forall|j: int| 0 <= j < tys@.len() implies #[trigger] array_dimension(
                        tys@[j],
                    ) is Some by {
                        assert(params@[j] is Some);
                    }
                    lemma_dimensions_of(tys@, tys@.len());
                }
                let mut dims: Vec<u32> = Vec::new();
                let mut total: u32 = 0;
                let mut i: usize = 0;
                while i < params.len()
                    invariant
                        i <= params@.len(),
                        params@.len() == tys@.len(),
                        full.len() == tys@.len(),
                        forall|j: int| 0 <= j < params@.len() ==> #[trigger] params@[j] is Some && params@[j]->Some_0 == full[j],
                        qubits_before(full, full.len()) <= u32::MAX,
                        dims@.len() == i,
                        dims@.map_values(|d: u32| d as nat) == full.take(i as int),
                        total == qubits_before(full, i as nat),
                    decreases params@.len() - i,
                {
                    let d = match params[i] {
                        Some(d) => d,
                        None => unreached(),
                    };
                    proof {
                        lemma_qubits_before_grows(full, (i + 1) as nat, full.len());
                    }
                    let ghost before = dims@;
                    dims.push(d);
                    total = total + qubits_for_dimension(d);
                    assert forall|j: int| 0 <= j < i implies #[trigger] dims@[j] as nat == full[j] by {
                        assert(dims@[j] == before[j]);
                        assert(before.map_values(|d: u32| d as nat)[j] == full.take(i as int)[j]);
                    }
                    assert(dims@.map_values(|d: u32| d as nat) =~= full.take(i + 1));
                    i = i + 1;
                }
                assert(full.take(full.len() as int) =~= full);
                return (dims, total);
            }
        },
        _ => {},
    }
    let r = (Vec::new(), 0u32);
    assert(r.0@.map_values(|d: u32| d as nat) =~= Seq::<nat>::empty());
    r
}

/// A callable declaration, as far as circuit generation reads it.
#[derive(Debug, PartialEq, Eq)]
pub struct CallableDecl {
    /// The type of the callable's input.
    pub input: Ty,
}

/// The kind of a declared item.
#[derive(Debug, PartialEq, Eq)]
pub enum ItemKind {
    Callable(CallableDecl),
    Namespace,
    Type,
}

/// A declared item.
#[derive(Debug, PartialEq, Eq)]
pub struct Item {
    pub kind: ItemKind,
}

/// The qubit parameter information of an item: present for a callable whose parameters are all
/// qubits or qubit arrays, and at least one.
pub open spec fn item_qubit_param_info(item: Item) -> Option<(Seq<nat>, nat)> {
    match item.kind {
        ItemKind::Callable(decl) => if qubit_param_info_of(decl.input).0.len() > 0 {
            Some(qubit_param_info_of(decl.input))
        } else {
            None
        },
        _ => None,
    }
}

/// The counts that reading the item's input computes fit in a `u32`.
pub open spec fn item_fits(item: Item) -> bool {
    match item.kind {
        ItemKind::Callable(decl) => qubit_param_info_fits(decl.input),
        _ => true,
    }
}

/// `dims` read as natural numbers.
pub open spec fn nat_dims(dims: Seq<u32>) -> Seq<nat> {
    dims.map_values(|d: u32| d as nat)
}

/// `arg` wrapped `times` times in a call that chunks an array into arrays of `NUM_QUBITS`.
pub open spec fn chunked(arg: Seq<char>, times: nat) -> Seq<char>
    decreases times,
{
    if times == 0 {
        arg
    } else {
        "Microsoft.Quantum.Arrays.Chunks("@ + decimal(NUM_QUBITS as nat) + ", "@ + chunked(
            arg,
            (times - 1) as nat,
        ) + ")"@
    }
}

/// The argument for a parameter of `dim` dimensions whose qubits start at index `start` of `qs`.
pub open spec fn call_arg_text(start: nat, dim: nat) -> Seq<char> {
    if dim == 0 {
        "qs["@ + decimal(start) + "]"@
    } else {
        chunked(
            "qs["@ + decimal(start) + ".."@ + decimal((start + qubits_for(dim) - 1) as nat) + "]"@,
            (dim - 1) as nat,
        )
    }
}

/// The arguments for the first `n` parameters, separated by commas.
pub open spec fn call_args_text(dims: Seq<nat>, n: nat) -> Seq<char>
    decreases n,
{
    if n == 0 {
        Seq::empty()
    } else if n == 1 {
        call_arg_text(0, dims[0])
    } else {
        call_args_text(dims, (n - 1) as nat) + ", "@ + call_arg_text(
            qubits_before(dims, (n - 1) as nat),
            dims[n - 1],
        )
    }
}

/// The entry expression that allocates `total` qubits and calls the operation `operation` with
/// parameters of dimensions `dims` on them.
pub open spec fn entry_expr_text(operation: Seq<char>, dims: Seq<nat>, total: nat) -> Seq<char> {
    "{\n            use qs = Qubit["@ + decimal(total) + "];\n            ("@ + operation + ")("@
        + call_args_text(dims, dims.len()) + ");\n            let r: Result[] = [];\n            r\n        }"@
}

proof fn lemma_info_total(ty: Ty)
    ensures
        qubits_before(qubit_param_info_of(ty).0, qubit_param_info_of(ty).0.len())
            == qubit_param_info_of(ty).1,
{
    match ty {
        Ty::Prim(Prim::Qubit) => {
            assert(qubits_before(seq![0nat], 1) == qubits_before(seq![0nat], 0) + qubits_for(0));
        },
        Ty::Array(element) => {
            if let Some(d) = array_dimension(*element) {
                assert(qubits_before(seq![d + 1], 1) == qubits_before(seq![d + 1], 0) + qubits_for(
                    d + 1,
                ));
            }
        },
        _ => {},
    }
}

/// If the item is a callable whose parameters are all qubits or qubit arrays, the dimension of
/// each parameter (0 for a qubit, 2 for a `Qubit[][]`) and the total number of qubits to allocate
/// to run it for circuit generation. `None` for another item, or where any parameter is not a
/// qubit or qubit array, or where there are no parameters.
pub fn qubit_param_info(item: &Item) -> (r: Option<(Vec<u32>, u32)>)
    requires
        item_fits(*item),
    ensures
        r is Some <==> item_qubit_param_info(*item) is Some,
        r is Some ==> nat_dims(r->Some_0.0@) == item_qubit_param_info(*item)->Some_0.0
            && r->Some_0.1 == item_qubit_param_info(*item)->Some_0.1,
{
    if let ItemKind::Callable(decl) = &item.kind {
        let (qubit_param_dimensions, total_num_qubits) = get_qubit_param_info(&decl.input);
        if qubit_param_dimensions.len() > 0 {
            return Some((qubit_param_dimensions, total_num_qubits));
        }
    }
    None
}

/// An entry expression that directly invokes the operation written `operation_expr` (a name
/// such as `Test.Foo`, or a lambda) on freshly allocated qubits, for circuit generation. `None`
/// where the item is not a callable, or takes a parameter that is not a qubit or qubit array.
pub fn entry_expr_for_qubit_operation(item: &Item, operation_expr: &str) -> (r: Option<String>)
    requires
        item_fits(*item),
    ensures
        r is Some <==> item_qubit_param_info(*item) is Some,
        r is Some ==> r->Some_0@ == entry_expr_text(
            operation_expr@,
            item_qubit_param_info(*item)->Some_0.0,
            item_qubit_param_info(*item)->Some_0.1,
        ),
{
    if let Some((qubit_param_dimensions, total_num_qubits)) = qubit_param_info(item) {
        proof {
            if let ItemKind::Callable(decl) = &item.kind {
                lemma_info_total(decl.input);
            }
        }
        return Some(
            operation_circuit_entry_expr(
                operation_expr,
                qubit_param_dimensions.as_slice(),
                total_num_qubits,
            ),
        );
    }
    None
}

/// The argument for a parameter of `dim` dimensions whose qubits start at index `qs_start`.
fn call_arg(qs_start: u32, dim: u32) -> (r: String)
    requires
        qs_start + qubits_for(dim as nat) <= u32::MAX,
        qubits_for(dim as nat) <= u32::MAX,
    ensures
        r@ == call_arg_text(qs_start as nat, dim as nat),
{
    let mut arg = String::from_str("qs[");
    push_decimal(&mut arg, qs_start as u64);
    if dim == 0 {
        arg.append("]");
        assert(arg@ =~= call_arg_text(qs_start as nat, dim as nat));
        return arg;
    }
    proof {
        lemma_qubits_for_grows(0, dim as nat);
    }
    let qs_end = qs_start + qubits_for_dimension(dim) - 1;
    arg.append("..");
    push_decimal(&mut arg, qs_end as u64);
    arg.append("]");
    let ghost base = arg@;
    assert(base =~= "qs["@ + decimal(qs_start as nat) + ".."@ + decimal(
        (qs_start + qubits_for(dim as nat) - 1) as nat,
    ) + "]"@);
    // Chunk the array for multi-dimensional array arguments.
    let mut i: u32 = 1;
    while i < dim
        invariant
            1 <= i <= dim,
            arg@ == chunked(base, (i - 1) as nat),
        decreases dim - i,
    {
        let mut chunks = String::from_str("Microsoft.Quantum.Arrays.Chunks(");
        push_decimal(&mut chunks, NUM_QUBITS as u64);
        chunks.append(", ");
        chunks.append(arg.as_str());
        chunks.append(")");
        assert(chunks@ =~= chunked(base, i as nat));
        arg = chunks;
        i = i + 1;
    }
    arg
}

/// The entry expression that allocates `total_num_qubits` qubits and calls the operation written
/// `operation_expr` with one argument per entry of `qubit_param_dimensions`, each a qubit or a
/// slice of consecutive qubits of the register chunked to its dimension.
pub fn operation_circuit_entry_expr(
    operation_expr: &str,
    qubit_param_dimensions: &[u32],
    total_num_qubits: u32,
) -> (r: String)
    requires
        qubits_before(nat_dims(qubit_param_dimensions@), qubit_param_dimensions@.len())
            <= u32::MAX,
    ensures
        r@ == entry_expr_text(operation_expr@, nat_dims(qubit_param_dimensions@), total_num_qubits as nat),
{
    let ghost dims = nat_dims(qubit_param_dimensions@);
    let mut call_args = String::new();
    let mut qs_start: u32 = 0;
    let mut i: usize = 0;
    while i < qubit_param_dimensions.len()
        invariant
            i <= qubit_param_dimensions@.len(),
            dims == nat_dims(qubit_param_dimensions@),
            qubits_before(dims, dims.len()) <= u32::MAX,
            qs_start == qubits_before(dims, i as nat),
            call_args@ == call_args_text(dims, i as nat),
        decreases qubit_param_dimensions@.len() - i,
    {
        let dim = qubit_param_dimensions[i];
        proof {
            lemma_qubits_before_grows(dims, (i + 1) as nat, dims.len());
        }
        let arg = call_arg(qs_start, dim);
        if i > 0 {
            call_args.append(", ");
        }
        call_args.append(arg.as_str());
        assert(call_args@ =~= call_args_text(dims, (i + 1) as nat));
        qs_start = qs_start + qubits_for_dimension(dim);
        i = i + 1;
    }
    // The qubits are neither reset nor measured, to keep reset gates out of the circuit; an empty
    // result array is returned to satisfy the base profile.
    let mut expr = String::from_str("{\n            use qs = Qubit[");
    push_decimal(&mut expr, total_num_qubits as u64);
    expr.append("];\n            (");
    expr.append(operation_expr);
    expr.append(")(");
    expr.append(call_args.as_str());
    expr.append(");\n            let r: Result[] = [];\n            r\n        }");
    assert(expr@ =~= entry_expr_text(operation_expr@, dims, total_num_qubits as nat));
    expr
}

} // verus!
