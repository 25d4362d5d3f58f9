use qsc_rca::applications::ApplicationGeneratorSet;
use qsc_rca::features::{RuntimeFeatureFlags, USE_OF_DYNAMIC_BOOL};
use qsc_rca::ids::{
    BlockId, ExprId, LocalItemId, PackageId, StmtId, StoreBlockId, StoreExprId, StoreItemId,
    StoreStmtId,
};
use qsc_rca::index_map::IndexMap;
use qsc_rca::lattice::{ComputeKind, RuntimeKind, ValueKind};
use qsc_rca::store::{
    CallableComputeProperties, ComputePropertiesLookup, ItemComputeProperties,
    PackageComputeProperties, PackageStoreComputeProperties,
};

fn classical() -> ApplicationGeneratorSet {
    ApplicationGeneratorSet {
        inherent: ComputeKind::Classical,
        dynamic_param_applications: vec![],
    }
}

fn dynamic_bool() -> ApplicationGeneratorSet {
    ApplicationGeneratorSet {
        inherent: ComputeKind::new_with_runtime_features(
            RuntimeFeatureFlags::from_bits_truncate(USE_OF_DYNAMIC_BOOL),
            ValueKind::Element(RuntimeKind::Dynamic),
        ),
        dynamic_param_applications: vec![],
    }
}

fn store_with_two_packages() -> PackageStoreComputeProperties {
    let mut store = PackageStoreComputeProperties::default();
    store.insert_package(PackageId(0), PackageComputeProperties::default());
    store.insert_package(PackageId(2), PackageComputeProperties::new());
    store
}

#[test]
fn index_map_insert_get_and_iterate_in_key_order() {
    let mut map = IndexMap::new();
    assert!(map.get(3).is_none());
    map.insert(3, "c");
    map.insert(0, "a");
    map.insert(3, "d");
    assert_eq!(map.get(3), Some(&"d"));
    assert_eq!(map.get(0), Some(&"a"));
    assert!(map.get(1).is_none());
    assert!(map.contains_key(0));
    assert!(!map.contains_key(2));
    assert_eq!(map.iter(), vec![(0, &"a"), (3, &"d")]);
    *map.get_mut(0) = "b";
    assert_eq!(map.get(0), Some(&"b"));
    map.clear();
    assert!(map.iter().is_empty());
}

#[test]
fn inserted_properties_are_found() {
    let mut store = store_with_two_packages();
    let block = StoreBlockId { package: PackageId(2), block: BlockId(4) };
    let stmt = StoreStmtId { package: PackageId(2), stmt: StmtId(1) };
    let expr = StoreExprId { package: PackageId(0), expr: ExprId(7) };
    let item = StoreItemId { package: PackageId(0), item: LocalItemId(0) };
    assert!(store.find_block(block).is_none());
    store.insert_block(block, dynamic_bool());
    store.insert_stmt(stmt, classical());
    store.insert_expr(expr, dynamic_bool());
    store.insert_item(item, ItemComputeProperties::NonCallable);
    assert_eq!(store.find_block(block), Some(&dynamic_bool()));
    assert_eq!(store.get_block(block), &dynamic_bool());
    assert_eq!(store.get_stmt(stmt), &classical());
    assert_eq!(store.get_expr(expr), &dynamic_bool());
    assert_eq!(store.get_item(item), &ItemComputeProperties::NonCallable);
    assert!(store.find_stmt(StoreStmtId { package: PackageId(0), stmt: StmtId(1) }).is_none());
    assert!(store.find_expr(StoreExprId { package: PackageId(2), expr: ExprId(7) }).is_none());
    assert!(store.find_item(StoreItemId { package: PackageId(2), item: LocalItemId(0) }).is_none());
    assert_eq!(store.get(PackageId(2)).get_block(BlockId(4)), &dynamic_bool());
    assert_eq!(store.get(PackageId(2)).get_stmt(StmtId(1)), &classical());
    assert_eq!(store.get(PackageId(0)).get_expr(ExprId(7)), &dynamic_bool());
    assert_eq!(store.get(PackageId(0)).get_item(LocalItemId(0)), &ItemComputeProperties::NonCallable);
}

#[test]
fn clearing_a_package_leaves_the_others() {
    let mut store = store_with_two_packages();
    let callable = ItemComputeProperties::Callable(CallableComputeProperties {
        body: dynamic_bool(),
        adj: None,
        ctl: Some(classical()),
        ctl_adj: None,
    });
    store.insert_item(StoreItemId { package: PackageId(0), item: LocalItemId(1) }, callable.clone());
    store.insert_block(StoreBlockId { package: PackageId(2), block: BlockId(0) }, classical());
    store.get_mut(PackageId(2)).clear();
    assert!(store.find_block(StoreBlockId { package: PackageId(2), block: BlockId(0) }).is_none());
    assert_eq!(
        store.find_item(StoreItemId { package: PackageId(0), item: LocalItemId(1) }),
        Some(&callable)
    );
}

#[test]
fn packages_iterate_in_increasing_order() {
    let store = store_with_two_packages();
    let ids: Vec<PackageId> = store.iter().into_iter().map(|(id, _)| id).collect();
    assert_eq!(ids, vec![PackageId(0), PackageId(2)]);
    assert_eq!(ids.iter().max(), Some(&PackageId(2)));
    assert!(PackageStoreComputeProperties::new().iter().is_empty());
}
