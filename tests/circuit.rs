use qsc_rca::circuit::{
    entry_expr_for_qubit_operation, get_qubit_param_info, operation_circuit_entry_expr,
    qubit_param_info, CallableDecl, Item, ItemKind,
};
use qsc_rca::ty::{Prim, Ty};

fn qubit() -> Ty {
    Ty::Prim(Prim::Qubit)
}

fn array_of(ty: Ty) -> Ty {
    Ty::Array(Box::new(ty))
}

fn callable(input: Ty) -> Item {
    Item {
        kind: ItemKind::Callable(CallableDecl { input }),
    }
}

#[test]
fn qubit_parameters_give_dimensions_and_qubit_count() {
    let input = Ty::Tuple(vec![qubit(), array_of(array_of(qubit())), array_of(qubit())]);
    assert_eq!(get_qubit_param_info(&input), (vec![0, 2, 1], 7));
    assert_eq!(get_qubit_param_info(&qubit()), (vec![0], 1));
    assert_eq!(get_qubit_param_info(&array_of(array_of(array_of(qubit())))), (vec![3], 8));
}

#[test]
fn non_qubit_parameters_give_nothing() {
    let input = Ty::Tuple(vec![qubit(), Ty::Prim(Prim::Int)]);
    assert_eq!(get_qubit_param_info(&input), (vec![], 0));
    assert_eq!(get_qubit_param_info(&array_of(Ty::Prim(Prim::Int))), (vec![], 0));
    assert_eq!(get_qubit_param_info(&Ty::unit()), (vec![], 0));
    assert_eq!(qubit_param_info(&callable(Ty::unit())), None);
    assert_eq!(qubit_param_info(&Item { kind: ItemKind::Namespace }), None);
    assert_eq!(qubit_param_info(&callable(input)), None);
}

#[test]
fn entry_expression_calls_the_operation_on_allocated_qubits() {
    let expected = "{
            use qs = Qubit[7];
            (Test.Foo)(qs[0], Microsoft.Quantum.Arrays.Chunks(2, qs[1..4]), qs[5..6]);
            let r: Result[] = [];
            r
        }";
    assert_eq!(operation_circuit_entry_expr("Test.Foo", &[0, 2, 1], 7), expected);
    let item = callable(Ty::Tuple(vec![qubit(), array_of(array_of(qubit())), array_of(qubit())]));
    assert_eq!(qubit_param_info(&item), Some((vec![0, 2, 1], 7)));
    assert_eq!(entry_expr_for_qubit_operation(&item, "Test.Foo"), Some(expected.to_string()));
    assert_eq!(entry_expr_for_qubit_operation(&Item { kind: ItemKind::Type }, "Test.Foo"), None);
}

#[test]
fn three_dimensional_argument_is_chunked_twice() {
    let expected = "{
            use qs = Qubit[8];
            (qs => H(qs[0]))(Microsoft.Quantum.Arrays.Chunks(2, Microsoft.Quantum.Arrays.Chunks(2, qs[0..7])));
            let r: Result[] = [];
            r
        }";
    assert_eq!(operation_circuit_entry_expr("qs => H(qs[0])", &[3], 8), expected);
}
