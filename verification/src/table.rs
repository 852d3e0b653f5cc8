//! The two shared tables of a session, kept in concurrent maps.
//!
//! A `DashMap` is built for many threads, and its methods take `&self`. Here
//! every change goes through `&mut`, so that what a table holds before and
//! after a call can be stated.

use dashmap::DashMap;
use vstd::prelude::*;

verus! {

/// `dashmap::DashMap`. What a map holds is named for each of the two
/// tables below.
#[verifier::external_type_specification]
#[verifier::external_body]
#[verifier::reject_recursive_types(K)]
#[verifier::reject_recursive_types(V)]
#[verifier::reject_recursive_types(S)]
pub struct ExDashMap<K, V, S>(DashMap<K, V, S>);

/// What a table of pending requests holds: for each command id that still
/// waits for its response, the waiter that was registered with it.
pub uninterp spec fn pending_entries(table: DashMap<i32, u64>) -> Map<i32, u64>;

/// What a table of bindings holds: for each bound name, the handle of the
/// host function behind it.
pub uninterp spec fn binding_entries(table: DashMap<String, u64>) -> Map<Seq<char>, u64>;

/// `DashMap::new`: a map without entries.
#[verifier::external_body]
pub(crate) fn pending_new() -> (table: DashMap<i32, u64>)
    ensures
        pending_entries(table) =~= Map::empty(),
{
    DashMap::new()
}

/// `DashMap::insert`: afterwards the key is bound to the value and every
/// other key is as before. The call returns: it does not unwind.
#[verifier::external_body]
pub(crate) fn pending_insert(table: &mut DashMap<i32, u64>, id: i32, waiter: u64)
    ensures
        pending_entries(*final(table)) == pending_entries(*old(table)).insert(id, waiter),
    no_unwind
{
    table.insert(id, waiter);
}

/// `DashMap::remove`: afterwards the key is unbound and every other key is
/// as before; the value that the key had is returned, if it had one. The
/// call returns: it does not unwind.
#[verifier::external_body]
pub(crate) fn pending_remove(table: &mut DashMap<i32, u64>, id: i32) -> (waiter: Option<u64>)
    ensures
        pending_entries(*final(table)) == pending_entries(*old(table)).remove(id),
        waiter.is_some() == pending_entries(*old(table)).contains_key(id),
        waiter.is_some() ==> waiter.unwrap() == pending_entries(*old(table))[id],
    no_unwind
{
    table.remove(&id).map(|entry| entry.1)
}

/// `DashMap::clear`: afterwards the map has no entries. The call returns:
/// it does not unwind.
#[verifier::external_body]
pub(crate) fn pending_clear(table: &mut DashMap<i32, u64>)
    ensures
        pending_entries(*final(table)) =~= Map::empty(),
    no_unwind
{
    table.clear();
}

/// `DashMap::new`: a map without entries.
#[verifier::external_body]
pub(crate) fn bindings_new() -> (table: DashMap<String, u64>)
    ensures
        binding_entries(table) =~= Map::empty(),
{
    DashMap::new()
}

/// `DashMap::insert`: afterwards the name is bound to the handle, in place
/// of what it was bound to, and every other name is as before. The call
/// returns: it does not unwind.
#[verifier::external_body]
pub(crate) fn bindings_insert(table: &mut DashMap<String, u64>, name: String, handle: u64)
    ensures
        binding_entries(*final(table)) == binding_entries(*old(table)).insert(name@, handle),
    no_unwind
{
    table.insert(name, handle);
}

/// `DashMap::get`: the handle that the name is bound to, if it is bound.
#[verifier::external_body]
pub(crate) fn bindings_get(table: &DashMap<String, u64>, name: &str) -> (handle: Option<u64>)
    ensures
        handle.is_some() == binding_entries(*table).contains_key(name@),
        handle.is_some() ==> handle.unwrap() == binding_entries(*table)[name@],
{
    table.get(name).map(|entry| *entry.value())
}

} // verus!
