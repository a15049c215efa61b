//! Runtime type identity.
//!
//! Every wrapped type is associated with a key in a closed set, and the
//! single-inheritance ancestry between keys is a fixed relation.  Actual
//! runtime identifiers ([`GType`]) are handed out lazily by the registry in
//! [`crate::runtime::Runtime`]; this module holds the keys, the ancestry
//! relation and its basic laws.

use vstd::prelude::*;

verus! {

/// A runtime type identifier: the position of a registered key in the type
/// registry's table.  Stable for the life of the registry once assigned.
#[derive(Clone, Copy, PartialEq, Eq, Structural, Debug)]
pub struct GType {
    pub id: usize,
}

/// The closed set of types that these bindings register with the
/// foreign type system.
#[derive(Clone, Copy, PartialEq, Eq, Structural, Debug)]
pub enum TypeKey {
    TypeInstance,
    Object,
    File,
    Cancellable,
    InputStream,
    FileInputStream,
    AsyncResult,
    IoErrorEnum,
    FileAttributeInfoFlags,
    MainLoop,
    MainContext,
}

/// The direct ancestor of a key in the single-inheritance chain, if any.
pub open spec fn parent_of(k: TypeKey) -> Option<TypeKey> {
    match k {
        TypeKey::Object => Some(TypeKey::TypeInstance),
        TypeKey::File => Some(TypeKey::Object),
        TypeKey::Cancellable => Some(TypeKey::Object),
        TypeKey::InputStream => Some(TypeKey::Object),
        TypeKey::FileInputStream => Some(TypeKey::InputStream),
        _ => None,
    }
}

/// Depth of a key in the inheritance forest; the measure that makes walking
/// the ancestor chain terminate.
pub open spec fn type_depth(k: TypeKey) -> nat {
    match k {
        TypeKey::TypeInstance => 0,
        TypeKey::Object => 1,
        TypeKey::File => 2,
        TypeKey::Cancellable => 2,
        TypeKey::InputStream => 2,
        TypeKey::FileInputStream => 3,
        _ => 0,
    }
}

/// Whether `k` equals `a` or has `a` somewhere up its ancestor chain.
pub open spec fn is_descendant(k: TypeKey, a: TypeKey) -> bool
    decreases type_depth(k),
{
    k == a || match parent_of(k) {
        Some(p) => is_descendant(p, a),
        None => false,
    }
}

/// Executable form of [`parent_of`].
pub fn parent(k: TypeKey) -> (r: Option<TypeKey>)
    ensures
        r == parent_of(k),
{
    match k {
        TypeKey::Object => Some(TypeKey::TypeInstance),
        TypeKey::File => Some(TypeKey::Object),
        TypeKey::Cancellable => Some(TypeKey::Object),
        TypeKey::InputStream => Some(TypeKey::Object),
        TypeKey::FileInputStream => Some(TypeKey::InputStream),
        _ => None,
    }
}

/// Walks the ancestor chain of `k` looking for `a`.
pub fn check_descendant(k: TypeKey, a: TypeKey) -> (r: bool)
    ensures
        r == is_descendant(k, a),
    decreases type_depth(k),
{
    if k == a {
        true
    } else {
        match parent(k) {
            Some(p) => check_descendant(p, a),
            None => false,
        }
    }
}

/// Ancestry is transitive along the chain.
pub proof fn lemma_descendant_trans(a: TypeKey, b: TypeKey, c: TypeKey)
    requires
        is_descendant(a, b),
        is_descendant(b, c),
    ensures
        is_descendant(a, c),
    decreases type_depth(a),
{
    if a != b {
        lemma_descendant_trans(parent_of(a).unwrap(), b, c);
    }
}

/// Whether any key has `a` as its direct ancestor.
pub open spec fn has_children(a: TypeKey) -> bool {
    a == TypeKey::TypeInstance || a == TypeKey::Object || a == TypeKey::InputStream
}

/// A class without descendants is descended from only by itself.
pub proof fn lemma_leaf_descendant(k: TypeKey, a: TypeKey)
    requires
        is_descendant(k, a),
        !has_children(a),
    ensures
        k == a,
    decreases type_depth(k),
{
    if k != a {
        lemma_leaf_descendant(parent_of(k).unwrap(), a);
    }
}

} // verus!
