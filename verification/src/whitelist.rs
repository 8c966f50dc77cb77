//! The allow-list and the policy that rests on it.
//!
//! Enforcement is switched by one flag. While it is off, every address is
//! admitted and the list is left as it is; switching it on again brings the
//! list back into force with the members it had.

use crate::address::Address;
use crate::storage::{Key, Slot, Storage};
use vstd::prelude::*;

verus! {

/// Whether enforcement is on: the flag is stored and is `true`.
pub open spec fn enabled(store: Map<Slot, bool>) -> bool {
    store.contains_key(Slot::WhitelistEnabled) && store[Slot::WhitelistEnabled]
}

/// Whether `address` is on the allow-list: its marker is stored and is `true`.
pub open spec fn whitelisted(store: Map<Slot, bool>, address: Seq<u8>) -> bool {
    store.contains_key(Slot::WhitelistMarker(address)) && store[Slot::WhitelistMarker(address)]
}

/// Whether `address` may call a guarded action without a proof.
pub open spec fn authorized(store: Map<Slot, bool>, address: Seq<u8>) -> bool {
    !enabled(store) || whitelisted(store, address)
}

/// Every marker that is stored is `true`: membership is presence.
pub open spec fn markers_all_true(store: Map<Slot, bool>) -> bool {
    forall|address: Seq<u8>| #[trigger]
        store.contains_key(Slot::WhitelistMarker(address)) ==> store[Slot::WhitelistMarker(
            address,
        )]
}

/// The store after the flag is set to `on`.
pub open spec fn with_enabled(store: Map<Slot, bool>, on: bool) -> Map<Slot, bool> {
    store.insert(Slot::WhitelistEnabled, on)
}

/// The store after `address` is added to the allow-list.
pub open spec fn with_address(store: Map<Slot, bool>, address: Seq<u8>) -> Map<Slot, bool> {
    store.insert(Slot::WhitelistMarker(address), true)
}

/// The store after `address` is removed from the allow-list.
pub open spec fn without_address(store: Map<Slot, bool>, address: Seq<u8>) -> Map<Slot, bool> {
    store.remove(Slot::WhitelistMarker(address))
}

/// Enables or disables enforcement of the allow-list.
pub fn set_whitelist_enabled(store: &mut Storage, enabled: bool)
    ensures
        final(store)@ == with_enabled(old(store)@, enabled),
{
    store.set(&Key::WhitelistEnabled, enabled);
}

/// Returns whether enforcement of the allow-list is on. It is off until it
/// is switched on.
pub fn is_whitelist_enabled(store: &Storage) -> (on: bool)
    ensures
        on == enabled(store@),
{
    store.get(&Key::WhitelistEnabled).unwrap_or(false)
}

/// Adds an address to the allow-list.
pub fn add_to_whitelist(store: &mut Storage, address: &Address)
    ensures
        final(store)@ == with_address(old(store)@, address@),
{
    store.set(&Key::WhitelistMarker(address.clone()), true);
}

/// Removes an address from the allow-list.
pub fn remove_from_whitelist(store: &mut Storage, address: &Address)
    ensures
        final(store)@ == without_address(old(store)@, address@),
{
    store.remove(&Key::WhitelistMarker(address.clone()));
}

/// Returns whether an address is on the allow-list.
pub fn is_whitelisted(store: &Storage, address: &Address) -> (listed: bool)
    ensures
        listed == whitelisted(store@, address@),
{
    store.get(&Key::WhitelistMarker(address.clone())).unwrap_or(false)
}

/// Returns whether the address may call guarded actions.
///
/// While enforcement is off, every address may.
pub fn require_whitelisted(store: &Storage, address: &Address) -> (allowed: bool)
    ensures
        allowed == authorized(store@, address@),
        !enabled(store@) ==> allowed,
{
    !is_whitelist_enabled(store) || is_whitelisted(store, address)
}

/// While enforcement is off, every address is authorized, whatever the
/// allow-list holds.
pub proof fn lemma_disabled_admits_all(store: Map<Slot, bool>, address: Seq<u8>)
    requires
        !enabled(store),
    ensures
        authorized(store, address),
{
}

/// While enforcement is on, an address is authorized exactly when it is on
/// the allow-list.
pub proof fn lemma_enabled_admits_members(store: Map<Slot, bool>, address: Seq<u8>)
    requires
        enabled(store),
    ensures
        authorized(store, address) == whitelisted(store, address),
{
}

/// An address that has been added is on the allow-list.
pub proof fn lemma_added_is_listed(store: Map<Slot, bool>, address: Seq<u8>)
    ensures
        whitelisted(with_address(store, address), address),
{
}

/// An address that has been removed is not on the allow-list.
pub proof fn lemma_removed_is_not_listed(store: Map<Slot, bool>, address: Seq<u8>)
    ensures
        !whitelisted(without_address(store, address), address),
{
}

/// Adding or removing one address leaves every other address, and the flag,
/// as they were.
pub proof fn lemma_others_untouched(store: Map<Slot, bool>, address: Seq<u8>, other: Seq<u8>)
    requires
        other != address,
    ensures
        whitelisted(with_address(store, address), other) == whitelisted(store, other),
        whitelisted(without_address(store, address), other) == whitelisted(store, other),
        enabled(with_address(store, address)) == enabled(store),
        enabled(without_address(store, address)) == enabled(store),
{
}

/// Adding an address twice is the same as adding it once.
pub proof fn lemma_add_is_idempotent(store: Map<Slot, bool>, address: Seq<u8>)
    ensures
        with_address(with_address(store, address), address) == with_address(store, address),
{
    assert(with_address(with_address(store, address), address) =~= with_address(store, address));
}

/// Removing an address twice is the same as removing it once.
pub proof fn lemma_remove_is_idempotent(store: Map<Slot, bool>, address: Seq<u8>)
    ensures
        without_address(without_address(store, address), address) == without_address(
            store,
            address,
        ),
{
    assert(without_address(without_address(store, address), address) =~= without_address(
        store,
        address,
    ));
}

/// Adding an address, removing it and adding it again leaves the store as
/// one addition does.
pub proof fn lemma_add_remove_add(store: Map<Slot, bool>, address: Seq<u8>)
    ensures
        with_address(without_address(with_address(store, address), address), address)
            == with_address(store, address),
{
    assert(with_address(without_address(with_address(store, address), address), address)
        =~= with_address(store, address));
}

/// Switching enforcement on or off changes no membership, and the flag
/// reads back as it was set.
pub proof fn lemma_flag_keeps_members(store: Map<Slot, bool>, on: bool, address: Seq<u8>)
    ensures
        whitelisted(with_enabled(store, on), address) == whitelisted(store, address),
        enabled(with_enabled(store, on)) == on,
{
}

/// No addition, removal or switch of the flag ever leaves a marker that is
/// `false`.
pub proof fn lemma_markers_stay_true(store: Map<Slot, bool>, address: Seq<u8>, on: bool)
    requires
        markers_all_true(store),
    ensures
        markers_all_true(with_address(store, address)),
        markers_all_true(without_address(store, address)),
        markers_all_true(with_enabled(store, on)),
        markers_all_true(Map::<Slot, bool>::empty()),
{
}

} // verus!
