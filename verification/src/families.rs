//! The fixed library of marker types for common container shapes. Each
//! marker stands for one single-parameter type constructor; the capability
//! mapping itself (the associated type-level operation) lives with the
//! consumers of these markers, outside the verified core. The two-level
//! markers mirror the chain the generator would emit for the two-parameter
//! containers.

use vstd::prelude::*;

verus! {

/// Marker whose capability maps a type `T` to an optional value of `T`.
pub struct OptionFamily;

/// Marker whose capability maps a type `T` to a result with value type `T`
/// and the fixed error type `E`.
pub struct ResultFamily<E>(pub core::marker::PhantomData<E>);

/// Second chain level for results: maps an error type `E` to
/// `ResultFamily<E>`.
pub struct ResultFamilyFamily;

/// Marker whose capability maps a type `T` to a growable sequence of `T`.
pub struct VecFamily;

/// Marker whose capability maps a type `T` to a double-ended queue of `T`.
pub struct VecDequeFamily;

/// Marker whose capability maps a type `T` to a linked list of `T`.
pub struct LinkedListFamily;

/// Marker whose capability maps a type `V` to a hash map from the fixed key
/// type `K` to `V`.
pub struct HashMapFamily<K>(pub core::marker::PhantomData<K>);

/// Second chain level for hash maps: maps a key type `K` to
/// `HashMapFamily<K>`.
pub struct HashMapFamilyFamily;

/// Marker whose capability maps a type `V` to an ordered map from the fixed
/// key type `K` to `V`.
pub struct BTreeMapFamily<K>(pub core::marker::PhantomData<K>);

/// Second chain level for ordered maps: maps a key type `K` to
/// `BTreeMapFamily<K>`.
pub struct BTreeMapFamilyFamily;

/// Marker whose capability maps a type `T` to a hash set of `T`.
pub struct HashSetFamily;

/// Marker whose capability maps a type `T` to an ordered set of `T`.
pub struct BTreeSetFamily;

/// Marker whose capability maps a type `T` to a priority queue of `T`.
pub struct BinaryHeapFamily;

} // verus!
