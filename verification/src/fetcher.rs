//! A fetcher of legacy deploys.

use std::collections::HashMap;
use std::time::Duration;
use vstd::prelude::*;

verus! {

/// Whether a fetched item is on its way to storage.
#[derive(Clone, Debug, PartialEq, Eq)]
pub enum StoringState<S, T> {
    /// The item is being stored.
    Enqueued(S),
    /// The item is handed back and will not be stored.
    WontStore(T),
}

/// Fetches items by their identifier from peers.
#[verifier::reject_recursive_types(Id)]
#[verifier::reject_recursive_types(Peer)]
pub struct Fetcher<Id, Peer, Handle, Metrics> {
    /// How long to wait for a peer.
    pub get_from_peer_timeout: Duration,
    /// The requests under way, by item and by the peer that was asked.
    pub item_handles: HashMap<Id, HashMap<Peer, Handle>>,
    /// What has been counted so far.
    pub metrics: Metrics,
}

impl<Id, Peer, Handle, Metrics> Fetcher<Id, Peer, Handle, Metrics> {
    /// An item that has arrived can be handed to everyone who asked for it, whichever peer it was
    /// asked from.
    pub const SAFE_TO_RESPOND_TO_ALL: bool = true;

    /// Returns the requests under way, for changing them. Nothing else changes with them.
    pub fn item_handles(&mut self) -> (handles: &mut HashMap<Id, HashMap<Peer, Handle>>)
        ensures
            *handles == old(self).item_handles,
            *final(self) == (Fetcher { item_handles: *final(handles), ..*old(self) }),
    {
        &mut self.item_handles
    }

    /// Returns what has been counted so far.
    pub fn metrics(&mut self) -> (metrics: &Metrics)
        ensures
            *metrics == old(self).metrics,
            *final(self) == *old(self),
    {
        &self.metrics
    }

    /// Returns how long to wait for a peer.
    pub fn peer_timeout(&self) -> (timeout: Duration)
        ensures
            timeout == self.get_from_peer_timeout,
    {
        self.get_from_peer_timeout
    }

    /// Hands the item back: incoming deploys are routed to the deploy acceptor for validation
    /// before being stored.
    pub fn put_to_storage<S, T>(item: T) -> (state: StoringState<S, T>)
        ensures
            state == StoringState::<S, T>::WontStore(item),
    {
        StoringState::WontStore(item)
    }
}

} // verus!
