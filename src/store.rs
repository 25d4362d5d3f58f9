//! The compute properties of a package store: generator sets per item, block, statement and
//! expression, mirroring the shape of the analyzed store.
use crate::applications::ApplicationGeneratorSet;
use crate::ids::{
    BlockId, ExprId, LocalItemId, PackageId, StmtId, StoreBlockId, StoreExprId, StoreItemId,
    StoreStmtId,
};
use crate::index_map::IndexMap;
use vstd::prelude::*;

verus! {

/// The compute properties of a callable, one generator set per specialization it declares.
#[derive(Clone, Debug, PartialEq, Eq)]
pub struct CallableComputeProperties {
    /// The application generator set for the callable's body.
    pub body: ApplicationGeneratorSet,
    /// The application generator set for the callable's adjoint specialization.
    pub adj: Option<ApplicationGeneratorSet>,
    /// The application generator set for the callable's controlled specialization.
    pub ctl: Option<ApplicationGeneratorSet>,
    /// The application generator set for the callable's controlled adjoint specialization.
    pub ctl_adj: Option<ApplicationGeneratorSet>,
}

/// The compute properties of an item.
#[derive(Clone, Debug, PartialEq, Eq)]
pub enum ItemComputeProperties {
    /// The compute properties of a callable.
    Callable(CallableComputeProperties),
    /// The compute properties of a non-callable (for completeness only).
    NonCallable,
}

/// The compute properties of a package.
#[derive(Clone, Debug, PartialEq, Eq)]
pub struct PackageComputeProperties {
    /// The compute properties of the package items.
    pub items: IndexMap<ItemComputeProperties>,
    /// The application generator sets of the package blocks.
    pub blocks: IndexMap<ApplicationGeneratorSet>,
    /// The application generator sets of the package statements.
    pub stmts: IndexMap<ApplicationGeneratorSet>,
    /// The application generator sets of the package expressions.
    pub exprs: IndexMap<ApplicationGeneratorSet>,
}

impl PackageComputeProperties {
    /// No entry in any of the four maps.
    pub open spec fn is_empty(&self) -> bool {
        &&& self.items@ == Map::<usize, ItemComputeProperties>::empty()
        &&& self.blocks@ == Map::<usize, ApplicationGeneratorSet>::empty()
        &&& self.stmts@ == Map::<usize, ApplicationGeneratorSet>::empty()
        &&& self.exprs@ == Map::<usize, ApplicationGeneratorSet>::empty()
    }

    pub fn new() -> (r: PackageComputeProperties)
        ensures
            r.is_empty(),
    {
        PackageComputeProperties {
            items: IndexMap::new(),
            blocks: IndexMap::new(),
            stmts: IndexMap::new(),
            exprs: IndexMap::new(),
        }
    }

    /// Removes every entry, so that the package can be analyzed again.
    pub fn clear(&mut self)
        ensures
            final(self).is_empty(),
    {
        self.items.clear();
        self.blocks.clear();
        self.stmts.clear();
        self.exprs.clear();
    }

    pub fn get_block(&self, id: BlockId) -> (r: &ApplicationGeneratorSet)
        requires
            self.blocks@.contains_key(id.0),
        ensures
            *r == self.blocks@[id.0],
    {
        match self.blocks.get(id.0) {
            Some(properties) => properties,
            None => unreached(),
        }
    }

    pub fn get_expr(&self, id: ExprId) -> (r: &ApplicationGeneratorSet)
        requires
            self.exprs@.contains_key(id.0),
        ensures
            *r == self.exprs@[id.0],
    {
        match self.exprs.get(id.0) {
            Some(properties) => properties,
            None => unreached(),
        }
    }

    pub fn get_item(&self, id: LocalItemId) -> (r: &ItemComputeProperties)
        requires
            self.items@.contains_key(id.0),
        ensures
            *r == self.items@[id.0],
    {
        match self.items.get(id.0) {
            Some(properties) => properties,
            None => unreached(),
        }
    }

    pub fn get_stmt(&self, id: StmtId) -> (r: &ApplicationGeneratorSet)
        requires
            self.stmts@.contains_key(id.0),
        ensures
            *r == self.stmts@[id.0],
    {
        match self.stmts.get(id.0) {
            Some(properties) => properties,
            None => unreached(),
        }
    }
}

impl Default for PackageComputeProperties {
    fn default() -> (r: PackageComputeProperties)
        ensures
            r.is_empty(),
    {
        PackageComputeProperties::new()
    }
}

/// A way to look up the compute properties of elements in a package store.
pub trait ComputePropertiesLookup {
    /// Whether the package has an entry.
    spec fn has_package(&self, id: PackageId) -> bool;

    /// The generator set of a block, if one is stored.
    spec fn block_properties(&self, id: StoreBlockId) -> Option<ApplicationGeneratorSet>;

    /// The generator set of an expression, if one is stored.
    spec fn expr_properties(&self, id: StoreExprId) -> Option<ApplicationGeneratorSet>;

    /// The compute properties of an item, if they are stored.
    spec fn item_properties(&self, id: StoreItemId) -> Option<ItemComputeProperties>;

    /// The generator set of a statement, if one is stored.
    spec fn stmt_properties(&self, id: StoreStmtId) -> Option<ApplicationGeneratorSet>;

    /// Searches for the application generator set of a block with the specified ID.
    fn find_block(&self, id: StoreBlockId) -> (r: Option<&ApplicationGeneratorSet>)
        requires
            self.has_package(id.package),
        ensures
            r is Some <==> self.block_properties(id) is Some,
            r is Some ==> *r->Some_0 == self.block_properties(id)->Some_0,
    ;

    /// Searches for the application generator set of an expression with the specified ID.
    fn find_expr(&self, id: StoreExprId) -> (r: Option<&ApplicationGeneratorSet>)
        requires
            self.has_package(id.package),
        ensures
            r is Some <==> self.expr_properties(id) is Some,
            r is Some ==> *r->Some_0 == self.expr_properties(id)->Some_0,
    ;

    /// Searches for the compute properties of an item with the specified ID.
    fn find_item(&self, id: StoreItemId) -> (r: Option<&ItemComputeProperties>)
        requires
            self.has_package(id.package),
        ensures
            r is Some <==> self.item_properties(id) is Some,
            r is Some ==> *r->Some_0 == self.item_properties(id)->Some_0,
    ;

    /// Searches for the application generator set of a statement with the specified ID.
    fn find_stmt(&self, id: StoreStmtId) -> (r: Option<&ApplicationGeneratorSet>)
        requires
            self.has_package(id.package),
        ensures
            r is Some <==> self.stmt_properties(id) is Some,
            r is Some ==> *r->Some_0 == self.stmt_properties(id)->Some_0,
    ;

    /// Gets the application generator set of a block.
    fn get_block(&self, id: StoreBlockId) -> (r: &ApplicationGeneratorSet)
        requires
            self.block_properties(id) is Some,
        ensures
            *r == self.block_properties(id)->Some_0,
    ;

    /// Gets the application generator set of an expression.
    fn get_expr(&self, id: StoreExprId) -> (r: &ApplicationGeneratorSet)
        requires
            self.expr_properties(id) is Some,
        ensures
            *r == self.expr_properties(id)->Some_0,
    ;

    /// Gets the compute properties of an item.
    fn get_item(&self, id: StoreItemId) -> (r: &ItemComputeProperties)
        requires
            self.item_properties(id) is Some,
        ensures
            *r == self.item_properties(id)->Some_0,
    ;

    /// Gets the application generator set of a statement.
    fn get_stmt(&self, id: StoreStmtId) -> (r: &ApplicationGeneratorSet)
        requires
            self.stmt_properties(id) is Some,
        ensures
            *r == self.stmt_properties(id)->Some_0,
    ;
}

/// The compute properties of a package store, one entry per package.
#[derive(Clone, Debug, PartialEq, Eq)]
pub struct PackageStoreComputeProperties {
    packages: IndexMap<PackageComputeProperties>,
}

impl View for PackageStoreComputeProperties {
    type V = Map<usize, PackageComputeProperties>;

    closed spec fn view(&self) -> Map<usize, PackageComputeProperties> {
        self.packages@
    }
}

/// An entry of `map`, if present.
pub open spec fn entry_of<V>(map: Map<usize, V>, key: usize) -> Option<V> {
    if map.contains_key(key) {
        Some(map[key])
    } else {
        None
    }
}

impl PackageStoreComputeProperties {
    pub fn new() -> (r: PackageStoreComputeProperties)
        ensures
            r@ == Map::<usize, PackageComputeProperties>::empty(),
    {
        PackageStoreComputeProperties { packages: IndexMap::new() }
    }

    /// Adds or replaces the entry of a package.
    pub fn insert_package(&mut self, id: PackageId, value: PackageComputeProperties)
        ensures
            final(self)@ == old(self)@.insert(id.0, value),
    {
        self.packages.insert(id.0, value);
    }

    pub fn get(&self, id: PackageId) -> (r: &PackageComputeProperties)
        requires
            self@.contains_key(id.0),
        ensures
            *r == self@[id.0],
    {
        match self.packages.get(id.0) {
            Some(properties) => properties,
            None => unreached(),
        }
    }

    pub fn get_mut(&mut self, id: PackageId) -> (r: &mut PackageComputeProperties)
        requires
            old(self)@.contains_key(id.0),
        ensures
            *r == old(self)@[id.0],
            final(self)@ == old(self)@.insert(id.0, *final(r)),
    {
        self.packages.get_mut(id.0)
    }

    pub fn insert_block(&mut self, id: StoreBlockId, value: ApplicationGeneratorSet)
        requires
            old(self)@.contains_key(id.package.0),
        ensures
            final(self)@.dom() == old(self)@.dom(),
            forall|p: usize| p != id.package.0 ==> #[trigger] final(self)@[p] == old(self)@[p],
            final(self)@[id.package.0].blocks@ == old(self)@[id.package.0].blocks@.insert(
                id.block.0,
                value,
            ),
            final(self)@[id.package.0].items == old(self)@[id.package.0].items,
            final(self)@[id.package.0].stmts == old(self)@[id.package.0].stmts,
            final(self)@[id.package.0].exprs == old(self)@[id.package.0].exprs,
    {
        let package = self.get_mut(id.package);
        package.blocks.insert(id.block.0, value);
    }

    pub fn insert_expr(&mut self, id: StoreExprId, value: ApplicationGeneratorSet)
        requires
            old(self)@.contains_key(id.package.0),
        ensures
            final(self)@.dom() == old(self)@.dom(),
            forall|p: usize| p != id.package.0 ==> #[trigger] final(self)@[p] == old(self)@[p],
            final(self)@[id.package.0].exprs@ == old(self)@[id.package.0].exprs@.insert(
                id.expr.0,
                value,
            ),
            final(self)@[id.package.0].items == old(self)@[id.package.0].items,
            final(self)@[id.package.0].blocks == old(self)@[id.package.0].blocks,
            final(self)@[id.package.0].stmts == old(self)@[id.package.0].stmts,
    {
        let package = self.get_mut(id.package);
        package.exprs.insert(id.expr.0, value);
    }

    pub fn insert_item(&mut self, id: StoreItemId, value: ItemComputeProperties)
        requires
            old(self)@.contains_key(id.package.0),
        ensures
            final(self)@.dom() == old(self)@.dom(),
            forall|p: usize| p != id.package.0 ==> #[trigger] final(self)@[p] == old(self)@[p],
            final(self)@[id.package.0].items@ == old(self)@[id.package.0].items@.insert(
                id.item.0,
                value,
            ),
            final(self)@[id.package.0].blocks == old(self)@[id.package.0].blocks,
            final(self)@[id.package.0].stmts == old(self)@[id.package.0].stmts,
            final(self)@[id.package.0].exprs == old(self)@[id.package.0].exprs,
    {
        let package = self.get_mut(id.package);
        package.items.insert(id.item.0, value);
    }

    pub fn insert_stmt(&mut self, id: StoreStmtId, value: ApplicationGeneratorSet)
        requires
            old(self)@.contains_key(id.package.0),
        ensures
            final(self)@.dom() == old(self)@.dom(),
            forall|p: usize| p != id.package.0 ==> #[trigger] final(self)@[p] == old(self)@[p],
            final(self)@[id.package.0].stmts@ == old(self)@[id.package.0].stmts@.insert(
                id.stmt.0,
                value,
            ),
            final(self)@[id.package.0].items == old(self)@[id.package.0].items,
            final(self)@[id.package.0].blocks == old(self)@[id.package.0].blocks,
            final(self)@[id.package.0].exprs == old(self)@[id.package.0].exprs,
    {
        let package = self.get_mut(id.package);
        package.stmts.insert(id.stmt.0, value);
    }

    /// The packages in increasing order of identifier.
    pub fn iter(&self) -> (r: Vec<(PackageId, &PackageComputeProperties)>)
        ensures
            forall|j: int|
                0 <= j < r@.len() ==> self@.contains_key((#[trigger] r@[j]).0.0) && *r@[j].1
                    == self@[r@[j].0.0],
            forall|j: int, l: int| 0 <= j < l < r@.len() ==> r@[j].0.0 < r@[l].0.0,
            forall|k: usize| #[trigger]
                self@.contains_key(k) ==> exists|j: int| 0 <= j < r@.len() && r@[j].0.0 == k,
    {
        let entries = self.packages.iter();
        let mut out: Vec<(PackageId, &PackageComputeProperties)> = Vec::new();
        let mut i: usize = 0;
        while i < entries.len()
            invariant
                i <= entries@.len(),
                out@.len() == i,
                forall|j: int|
                    0 <= j < i ==> (#[trigger] out@[j]).0.0 == entries@[j].0 && out@[j].1
                        == entries@[j].1,
            decreases entries@.len() - i,
        {
            let (key, value) = entries[i];
            out.push((PackageId(key), value));
            i = i + 1;
        }
        assert forall|k: usize| #[trigger] self@.contains_key(k) implies exists|j: int|
            0 <= j < out@.len() && out@[j].0.0 == k by {
            let j = choose|j: int| 0 <= j < entries@.len() && entries@[j].0 == k;
            assert(out@[j].0.0 == k);
        }
        assert forall|j: int, l: int| 0 <= j < l < out@.len() implies out@[j].0.0 < out@[l].0.0 by {
            assert(entries@[j].0 < entries@[l].0);
        }
        out
    }
}

impl Default for PackageStoreComputeProperties {
    fn default() -> (r: PackageStoreComputeProperties)
        ensures
            r@ == Map::<usize, PackageComputeProperties>::empty(),
    {
        PackageStoreComputeProperties::new()
    }
}

impl ComputePropertiesLookup for PackageStoreComputeProperties {
    open spec fn has_package(&self, id: PackageId) -> bool {
        self@.contains_key(id.0)
    }

    open spec fn block_properties(&self, id: StoreBlockId) -> Option<ApplicationGeneratorSet> {
        if self@.contains_key(id.package.0) {
            entry_of(self@[id.package.0].blocks@, id.block.0)
        } else {
            None
        }
    }

    open spec fn expr_properties(&self, id: StoreExprId) -> Option<ApplicationGeneratorSet> {
        if self@.contains_key(id.package.0) {
            entry_of(self@[id.package.0].exprs@, id.expr.0)
        } else {
            None
        }
    }

    open spec fn item_properties(&self, id: StoreItemId) -> Option<ItemComputeProperties> {
        if self@.contains_key(id.package.0) {
            entry_of(self@[id.package.0].items@, id.item.0)
        } else {
            None
        }
    }

    open spec fn stmt_properties(&self, id: StoreStmtId) -> Option<ApplicationGeneratorSet> {
        if self@.contains_key(id.package.0) {
            entry_of(self@[id.package.0].stmts@, id.stmt.0)
        } else {
            None
        }
    }

    fn find_block(&self, id: StoreBlockId) -> (r: Option<&ApplicationGeneratorSet>) {
        self.get(id.package).blocks.get(id.block.0)
    }

    fn find_expr(&self, id: StoreExprId) -> (r: Option<&ApplicationGeneratorSet>) {
        self.get(id.package).exprs.get(id.expr.0)
    }

    fn find_item(&self, id: StoreItemId) -> (r: Option<&ItemComputeProperties>) {
        self.get(id.package).items.get(id.item.0)
    }

    fn find_stmt(&self, id: StoreStmtId) -> (r: Option<&ApplicationGeneratorSet>) {
        self.get(id.package).stmts.get(id.stmt.0)
    }

    fn get_block(&self, id: StoreBlockId) -> (r: &ApplicationGeneratorSet) {
        match self.find_block(id) {
            Some(properties) => properties,
            None => unreached(),
        }
    }

    fn get_expr(&self, id: StoreExprId) -> (r: &ApplicationGeneratorSet) {
        match self.find_expr(id) {
            Some(properties) => properties,
            None => unreached(),
        }
    }

    fn get_item(&self, id: StoreItemId) -> (r: &ItemComputeProperties) {
        match self.find_item(id) {
            Some(properties) => properties,
            None => unreached(),
        }
    }

    fn get_stmt(&self, id: StoreStmtId) -> (r: &ApplicationGeneratorSet) {
        match self.find_stmt(id) {
            Some(properties) => properties,
            None => unreached(),
        }
    }
}

} // verus!
