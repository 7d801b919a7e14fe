//! The version-agnostic intermediate model of one crate's documentation
//! export. Every supported schema version is projected into this shape, and
//! extraction and rendering operate on it alone.

use vstd::prelude::*;

verus! {

/// Visibility of an item. Only `Public` items participate in implicit
/// listings; the other variants are preserved for explicit display.
#[derive(Clone, Copy, Debug, PartialEq, Eq, Structural)]
pub enum Visibility {
    Public,
    Default,
    Crate,
    Restricted,
}

/// Whether a struct is field-named, tuple-like, or a unit struct.
#[derive(Clone, Copy, Debug, PartialEq, Eq, Structural)]
pub enum StructKind {
    Plain,
    Tuple,
    Unit,
}

/// The kind of an item together with the payload that rendering needs.
/// Kinds with no kind-specific rendering carry their display label only.
#[derive(Clone, Debug)]
pub enum ItemKind {
    Module { children: Vec<u64> },
    Struct { struct_kind: StructKind, impl_count: u64 },
    Enum { variant_count: u64, impl_count: u64 },
    Function { is_const: bool, is_async: bool, is_unsafe: bool },
    Trait { is_auto: bool, is_unsafe: bool, assoc_item_count: u64 },
    Other { label: String },
}

/// One declared entity of the documented crate.
#[derive(Clone, Debug)]
pub struct Item {
    pub name: Option<String>,
    pub visibility: Visibility,
    pub docs: Option<String>,
    pub deprecated: bool,
    pub kind: ItemKind,
}

/// An entry of the auxiliary paths table: the fully qualified path of an
/// item, as segments, and its kind label.
#[derive(Clone, Debug)]
pub struct PathInfo {
    pub path: Vec<String>,
    pub kind: String,
}

/// One crate's documentation export, normalized. `index` and `paths` are
/// association lists; `wf` states that index keys are unique.
#[derive(Clone, Debug)]
pub struct Document {
    pub schema_version: u64,
    pub crate_version: Option<String>,
    pub root_id: u64,
    pub index: Vec<(u64, Item)>,
    pub paths: Vec<(u64, PathInfo)>,
}

impl Document {
    /// Index keys are unique: each identifier maps to at most one item.
    pub open spec fn wf(self) -> bool {
        forall|i: int, j: int|
            0 <= i < j < self.index@.len() ==> self.index@[i].0 != self.index@[j].0
    }
}

/// The item mapped to `id`: the first entry of the list with that key.
pub open spec fn lookup(entries: Seq<(u64, Item)>, id: u64) -> Option<Item>
    decreases entries.len(),
{
    if entries.len() == 0 {
        None
    } else if entries[0].0 == id {
        Some(entries[0].1)
    } else {
        lookup(entries.drop_first(), id)
    }
}

/// Look an item up in the index by its identifier.
pub fn get_item<'a>(index: &'a Vec<(u64, Item)>, id: u64) -> (r: Option<&'a Item>)
    ensures
        match r {
            Some(it) => lookup(index@, id) == Some(*it),
            None => lookup(index@, id) is None,
        },
{
    let n = index.len();
    let mut i: usize = 0;
    proof {
        assert(index@.skip(0) =~= index@);
    }
    while i < n
        invariant
            n == index@.len(),
            0 <= i <= n,
            lookup(index@, id) == lookup(index@.skip(i as int), id),
        decreases n - i,
    {
        proof {
            let rest = index@.skip(i as int);
            assert(rest.len() > 0);
            assert(rest[0] == index@[i as int]);
            assert(rest.drop_first() =~= index@.skip(i as int + 1));
        }
        if index[i].0 == id {
            return Some(&index[i].1);
        }
        i += 1;
    }
    proof {
        assert(index@.skip(n as int) =~= Seq::<(u64, Item)>::empty());
    }
    None
}

/// The direct children of the document's root module, or the empty sequence
/// when the root is absent or not a module.
pub open spec fn root_children(doc: Document) -> Seq<u64> {
    match lookup(doc.index@, doc.root_id) {
        Some(root) => match root.kind {
            ItemKind::Module { children } => children@,
            _ => Seq::empty(),
        },
        None => Seq::empty(),
    }
}

} // verus!
