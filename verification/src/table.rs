//! The two tables of a session that are keyed by slot.

use vstd::prelude::*;
use crate::primitive::Primitive;
use crate::value::BufferHandle;

verus! {

/// The primitives in progress, keyed by slot. It holds a
/// `bevy::utils::HashMap`, which Verus does not look into.
#[verifier::external_body]
pub struct PrimitiveTable {
    inner: bevy::utils::HashMap<usize, Primitive>,
}

/// What a primitive table holds.
pub uninterp spec fn primitive_table_contents(table: PrimitiveTable) -> Map<usize, Primitive>;

/// `bevy::utils::HashMap::default`: a table that holds nothing.
#[verifier::external_body]
pub(crate) fn primitive_table_new() -> (table: PrimitiveTable)
    ensures
        primitive_table_contents(table).dom() =~= Set::empty(),
{
    PrimitiveTable { inner: bevy::utils::HashMap::default() }
}

/// `bevy::utils::HashMap::insert`: the value stands under the key afterwards, in place
/// of any earlier one; the other entries stay.
#[verifier::external_body]
pub(crate) fn primitive_table_insert(table: &mut PrimitiveTable, key: usize, value: Primitive)
    ensures
        primitive_table_contents(*final(table)) == primitive_table_contents(*old(table)).insert(
            key,
            value,
        ),
{
    table.inner.insert(key, value);
}

/// `bevy::utils::HashMap::remove`: the entry under the key leaves the table and its
/// value is handed out; without such an entry nothing changes.
#[verifier::external_body]
pub(crate) fn primitive_table_remove(table: &mut PrimitiveTable, key: usize) -> (removed: Option<
    Primitive,
>)
    ensures
        primitive_table_contents(*final(table)) == primitive_table_contents(*old(table)).remove(
            key,
        ),
        removed.is_some() == primitive_table_contents(*old(table)).contains_key(key),
        removed.is_some() ==> removed.unwrap() == primitive_table_contents(*old(table))[key],
{
    table.inner.remove(&key)
}

/// `bevy::utils::HashMap::get`: the value under the key, if there is one.
#[verifier::external_body]
pub(crate) fn primitive_table_get(table: &PrimitiveTable, key: usize) -> (found: Option<
    &Primitive,
>)
    ensures
        found.is_some() == primitive_table_contents(*table).contains_key(key),
        found.is_some() ==> *found.unwrap() == primitive_table_contents(*table)[key],
{
    table.inner.get(&key)
}

/// `bevy::utils::HashMap::clear`: nothing is left.
#[verifier::external_body]
pub(crate) fn primitive_table_clear(table: &mut PrimitiveTable)
    ensures
        primitive_table_contents(*final(table)).dom() =~= Set::empty(),
{
    table.inner.clear();
}

/// The slots captured for instancing, each with its instance buffer. It
/// holds a `bevy::utils::HashMap`, which Verus does not look into.
#[verifier::external_body]
pub struct InstanceTable {
    inner: bevy::utils::HashMap<usize, BufferHandle>,
}

/// What an instance table holds.
pub uninterp spec fn instance_table_contents(table: InstanceTable) -> Map<usize, BufferHandle>;

/// `bevy::utils::HashMap::default`: a table that holds nothing.
#[verifier::external_body]
pub(crate) fn instance_table_new() -> (table: InstanceTable)
    ensures
        instance_table_contents(table).dom() =~= Set::empty(),
{
    InstanceTable { inner: bevy::utils::HashMap::default() }
}

/// `bevy::utils::HashMap::insert`: the value stands under the key afterwards, in place
/// of any earlier one; the other entries stay.
#[verifier::external_body]
pub(crate) fn instance_table_insert(table: &mut InstanceTable, key: usize, value: BufferHandle)
    ensures
        instance_table_contents(*final(table)) == instance_table_contents(*old(table)).insert(
            key,
            value,
        ),
{
    table.inner.insert(key, value);
}

/// `bevy::utils::HashMap::remove`: the entry under the key leaves the table and its
/// value is handed out; without such an entry nothing changes.
#[verifier::external_body]
pub(crate) fn instance_table_remove(table: &mut InstanceTable, key: usize) -> (removed: Option<
    BufferHandle,
>)
    ensures
        instance_table_contents(*final(table)) == instance_table_contents(*old(table)).remove(key),
        removed.is_some() == instance_table_contents(*old(table)).contains_key(key),
        removed.is_some() ==> removed.unwrap() == instance_table_contents(*old(table))[key],
{
    table.inner.remove(&key)
}

/// `bevy::utils::HashMap::contains_key`: whether an entry stands under the key.
#[verifier::external_body]
pub(crate) fn instance_table_contains(table: &InstanceTable, key: usize) -> (found: bool)
    ensures
        found == instance_table_contents(*table).contains_key(key),
{
    table.inner.contains_key(&key)
}

/// `bevy::utils::HashMap::clear`: nothing is left.
#[verifier::external_body]
pub(crate) fn instance_table_clear(table: &mut InstanceTable)
    ensures
        instance_table_contents(*final(table)).dom() =~= Set::empty(),
{
    table.inner.clear();
}

} // verus!
