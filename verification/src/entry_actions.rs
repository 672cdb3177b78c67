//! Lists of entry actions that a caller builds up step by step, kept under
//! handles.

use crate::collections::{Duplicate, VecMap};
use crate::data::{EntryAction, EntryActionView, Value, ValueView};
use crate::ffi_error::FfiError;
use vstd::prelude::*;

verus! {

/// The handle of a list of entry actions.
pub type MDataEntryActionsHandle = u64;

/// What an `ObjectCache` stands for.
pub struct ObjectCacheView {
    /// The handle given out last.
    pub last_handle: u64,
    /// The lists of entry actions, by handle.
    pub mdata_entry_actions: Map<u64, Map<Seq<u8>, EntryActionView>>,
}

/// The objects that a caller has handles for.
#[derive(Debug)]
pub struct ObjectCache {
    handle_gen: u64,
    mdata_entry_actions: VecMap<u64, VecMap<Vec<u8>, EntryAction>>,
}

impl View for ObjectCache {
    type V = ObjectCacheView;

    closed spec fn view(&self) -> ObjectCacheView {
        ObjectCacheView {
            last_handle: self.handle_gen,
            mdata_entry_actions: self.mdata_entry_actions@,
        }
    }
}

impl Duplicate for ObjectCache {
    fn duplicate(&self) -> (r: Self) {
        ObjectCache {
            handle_gen: self.handle_gen,
            mdata_entry_actions: self.mdata_entry_actions.duplicate(),
        }
    }
}

impl Clone for ObjectCache {
    fn clone(&self) -> (r: Self)
        ensures
            r@ == self@,
    {
        self.duplicate()
    }
}

/// The handle that follows `handle`. After the highest comes 0.
pub open spec fn next_handle(handle: u64) -> u64 {
    if handle == u64::MAX {
        0
    } else {
        (handle + 1) as u64
    }
}

impl ObjectCache {
    /// A cache without objects.
    pub fn new() -> (cache: ObjectCache)
        ensures
            cache@.last_handle == 0,
            cache@.mdata_entry_actions == Map::<u64, Map<Seq<u8>, EntryActionView>>::empty(),
    {
        ObjectCache { handle_gen: 0, mdata_entry_actions: VecMap::new() }
    }

    /// A handle that was not given out lately.
    fn new_handle(&mut self) -> (handle: u64)
        ensures
            handle == next_handle(old(self)@.last_handle),
            final(self)@ == (ObjectCacheView { last_handle: handle, ..old(self)@ }),
    {
        self.handle_gen = if self.handle_gen == u64::MAX {
            0
        } else {
            self.handle_gen + 1
        };
        self.handle_gen
    }

    /// Puts `actions` into the cache and gives the handle under which they
    /// are kept from now on.
    pub fn insert_mdata_entry_actions(&mut self, actions: VecMap<Vec<u8>, EntryAction>) -> (handle:
        u64)
        ensures
            handle == next_handle(old(self)@.last_handle),
            final(self)@ == (ObjectCacheView {
                last_handle: handle,
                mdata_entry_actions: old(self)@.mdata_entry_actions.insert(handle, actions@),
            }),
    {
        let handle = self.new_handle();
        self.mdata_entry_actions.insert(handle, actions);
        handle
    }

    /// The actions kept under `handle`.
    pub fn get_mdata_entry_actions(&self, handle: u64) -> (r: Result<
        &VecMap<Vec<u8>, EntryAction>,
        FfiError,
    >)
        ensures
            match r {
                Ok(actions) => self@.mdata_entry_actions.contains_key(handle) && actions@
                    == self@.mdata_entry_actions[handle],
                Err(error) => !self@.mdata_entry_actions.contains_key(handle) && error
                    == FfiError::InvalidMDataEntryActionsHandle,
            },
    {
        match self.mdata_entry_actions.get(&handle) {
            Some(actions) => Ok(actions),
            None => Err(FfiError::InvalidMDataEntryActionsHandle),
        }
    }

    /// Takes the actions kept under `handle` out of the cache.
    pub fn remove_mdata_entry_actions(&mut self, handle: u64) -> (r: Result<
        VecMap<Vec<u8>, EntryAction>,
        FfiError,
    >)
        ensures
            match r {
                Ok(actions) => old(self)@.mdata_entry_actions.contains_key(handle) && actions@
                    == old(self)@.mdata_entry_actions[handle] && final(self)@ == (ObjectCacheView {
                    mdata_entry_actions: old(self)@.mdata_entry_actions.remove(handle),
                    ..old(self)@
                }),
                Err(error) => !old(self)@.mdata_entry_actions.contains_key(handle) && error
                    == FfiError::InvalidMDataEntryActionsHandle && final(self)@ == old(self)@,
            },
    {
        let actions = match self.mdata_entry_actions.get(&handle) {
            Some(actions) => actions.duplicate(),
            None => {
                return Err(FfiError::InvalidMDataEntryActionsHandle);
            },
        };
        self.mdata_entry_actions.remove(&handle);
        Ok(actions)
    }
}

/// The cache after `action` has been set for `key` in the list under
/// `handle`, or that there is no such list.
pub open spec fn action_added(
    cache: ObjectCacheView,
    handle: u64,
    key: Seq<u8>,
    action: EntryActionView,
) -> Result<ObjectCacheView, FfiError> {
    if cache.mdata_entry_actions.contains_key(handle) {
        Ok(
            ObjectCacheView {
                mdata_entry_actions: cache.mdata_entry_actions.insert(
                    handle,
                    cache.mdata_entry_actions[handle].insert(key, action),
                ),
                ..cache
            },
        )
    } else {
        Err(FfiError::InvalidMDataEntryActionsHandle)
    }
}

/// Sets `action` for `key` in the list kept under `actions_h`, in place of
/// any action that the list had for that key.
fn add_action(cache: &mut ObjectCache, actions_h: u64, key: Vec<u8>, action: EntryAction) -> (r:
    Result<(), FfiError>)
    ensures
        match action_added(old(cache)@, actions_h, key@, action@) {
            Ok(after) => r == Ok::<(), FfiError>(()) && final(cache)@ == after,
            Err(error) => r == Err::<(), FfiError>(error) && final(cache)@ == old(cache)@,
        },
{
    let mut actions = match cache.get_mdata_entry_actions(actions_h) {
        Ok(actions) => actions.duplicate(),
        Err(error) => {
            return Err(error);
        },
    };
    actions.insert(key, action);
    cache.mdata_entry_actions.insert(actions_h, actions);
    Ok(())
}

/// Makes a new, empty list of entry actions, and gives its handle.
pub fn mdata_entry_actions_new(cache: &mut ObjectCache) -> (handle: u64)
    ensures
        handle == next_handle(old(cache)@.last_handle),
        final(cache)@ == (ObjectCacheView {
            last_handle: handle,
            mdata_entry_actions: old(cache)@.mdata_entry_actions.insert(handle, Map::empty()),
        }),
{
    cache.insert_mdata_entry_actions(VecMap::new())
}

/// Adds the action that puts a new entry in, with version 0.
pub fn mdata_entry_actions_insert(
    cache: &mut ObjectCache,
    actions_h: u64,
    key: Vec<u8>,
    value: Vec<u8>,
) -> (r: Result<(), FfiError>)
    ensures
        match action_added(
            old(cache)@,
            actions_h,
            key@,
            EntryActionView::Ins(ValueView { content: value@, entry_version: 0 }),
        ) {
            Ok(after) => r == Ok::<(), FfiError>(()) && final(cache)@ == after,
            Err(error) => r == Err::<(), FfiError>(error) && final(cache)@ == old(cache)@,
        },
{
    add_action(cache, actions_h, key, EntryAction::Ins(Value { content: value, entry_version: 0 }))
}

/// Adds the action that gives an existing entry a new value and version.
pub fn mdata_entry_actions_update(
    cache: &mut ObjectCache,
    actions_h: u64,
    key: Vec<u8>,
    value: Vec<u8>,
    entry_version: u64,
) -> (r: Result<(), FfiError>)
    ensures
        match action_added(
            old(cache)@,
            actions_h,
            key@,
            EntryActionView::Update(ValueView { content: value@, entry_version }),
        ) {
            Ok(after) => r == Ok::<(), FfiError>(()) && final(cache)@ == after,
            Err(error) => r == Err::<(), FfiError>(error) && final(cache)@ == old(cache)@,
        },
{
    add_action(cache, actions_h, key, EntryAction::Update(Value { content: value, entry_version }))
}

/// Adds the action that empties an existing entry.
pub fn mdata_entry_actions_delete(
    cache: &mut ObjectCache,
    actions_h: u64,
    key: Vec<u8>,
    entry_version: u64,
) -> (r: Result<(), FfiError>)
    ensures
        match action_added(old(cache)@, actions_h, key@, EntryActionView::Del(entry_version)) {
            Ok(after) => r == Ok::<(), FfiError>(()) && final(cache)@ == after,
            Err(error) => r == Err::<(), FfiError>(error) && final(cache)@ == old(cache)@,
        },
{
    add_action(cache, actions_h, key, EntryAction::Del(entry_version))
}

/// Drops the list of entry actions kept under `actions_h`.
pub fn mdata_entry_actions_free(cache: &mut ObjectCache, actions_h: u64) -> (r: Result<
    (),
    FfiError,
>)
    ensures
        old(cache)@.mdata_entry_actions.contains_key(actions_h) ==> r == Ok::<(), FfiError>(())
            && final(cache)@ == (ObjectCacheView {
            mdata_entry_actions: old(cache)@.mdata_entry_actions.remove(actions_h),
            ..old(cache)@
        }),
        !old(cache)@.mdata_entry_actions.contains_key(actions_h) ==> r == Err::<(), FfiError>(
            FfiError::InvalidMDataEntryActionsHandle,
        ) && final(cache)@ == old(cache)@,
{
    match cache.remove_mdata_entry_actions(actions_h) {
        Ok(_) => Ok(()),
        Err(error) => Err(error),
    }
}

} // verus!
