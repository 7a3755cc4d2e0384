//! The dynamic credential store, as its one writer sees it.
//!
//! A TLS configuration comes from a live stream. The first entry is waited
//! for at startup; later entries replace the configuration one by one, in
//! the order of their arrival. The refresh task is the only writer: it keeps
//! a [`CredentialStore`], feeds it what the stream yields, and publishes the
//! current configuration to the readers whenever the store says so.

use vstd::prelude::*;

verus! {

/// What the refresh task meets when it waits for the stream.
#[derive(Debug, PartialEq, Eq)]
pub enum StreamEvent<C> {
    /// An entry arrived and a usable configuration was built from it.
    Entry(C),
    /// An entry arrived, but no usable configuration could be built.
    Rejected,
    /// The stream ended.
    Closed,
    /// The stop signal fired.
    Cancelled,
}

/// What the refresh task does after an event.
#[derive(Clone, Copy, Debug, PartialEq, Eq, Structural)]
pub enum RefreshAction {
    /// Hand the store's configuration to the readers, then wait on.
    Publish,
    /// Leave the readers with what they have, then wait on.
    Keep,
    /// End the task. The readers keep the last configuration.
    Stop,
}

/// Why startup found no configuration.
#[derive(Clone, Copy, Debug, PartialEq, Eq, Structural)]
pub enum InitializationError {
    /// The stream ended before it produced an entry.
    StreamEnded,
    /// No usable configuration could be built from the first entry.
    Rejected,
    /// The stop signal fired before the first entry.
    Cancelled,
}

/// The configuration in effect, and whether the refresh task still runs.
pub struct CredentialStore<C> {
    current: C,
    running: bool,
}

/// What a store holds.
pub struct StoreView<C> {
    /// The configuration that readers are meant to see.
    pub current: C,
    /// Whether the refresh task still consumes the stream.
    pub running: bool,
}

impl<C> View for CredentialStore<C> {
    type V = StoreView<C>;

    closed spec fn view(&self) -> StoreView<C> {
        StoreView { current: self.current, running: self.running }
    }
}

/// The store after the first event of the stream, or why there is none.
pub open spec fn initialized<C>(first: StreamEvent<C>) -> Result<StoreView<C>, InitializationError> {
    match first {
        StreamEvent::Entry(config) => Ok(StoreView { current: config, running: true }),
        StreamEvent::Rejected => Err(InitializationError::Rejected),
        StreamEvent::Closed => Err(InitializationError::StreamEnded),
        StreamEvent::Cancelled => Err(InitializationError::Cancelled),
    }
}

/// A store, or the reason there is none, with the store as what it holds.
pub open spec fn store_view<C>(store: Result<CredentialStore<C>, InitializationError>) -> Result<
    StoreView<C>,
    InitializationError,
> {
    match store {
        Ok(s) => Ok(s@),
        Err(e) => Err(e),
    }
}

/// The store after one event: a usable entry replaces the configuration, a
/// rejected one changes nothing, and the end of the stream or the stop
/// signal ends the task with the configuration left in place. Once the task
/// has ended nothing changes any more.
pub open spec fn refreshed<C>(store: StoreView<C>, event: StreamEvent<C>) -> StoreView<C> {
    if !store.running {
        store
    } else {
        match event {
            StreamEvent::Entry(config) => StoreView { current: config, running: true },
            StreamEvent::Rejected => store,
            StreamEvent::Closed | StreamEvent::Cancelled => StoreView {
                current: store.current,
                running: false,
            },
        }
    }
}

/// What the refresh task does after one event.
pub open spec fn refresh_action<C>(store: StoreView<C>, event: StreamEvent<C>) -> RefreshAction {
    if !store.running {
        RefreshAction::Stop
    } else {
        match event {
            StreamEvent::Entry(_) => RefreshAction::Publish,
            StreamEvent::Rejected => RefreshAction::Keep,
            StreamEvent::Closed | StreamEvent::Cancelled => RefreshAction::Stop,
        }
    }
}

/// The store after a run of events, applied in their order.
pub open spec fn replayed<C>(store: StoreView<C>, events: Seq<StreamEvent<C>>) -> StoreView<C>
    decreases events.len(),
{
    if events.len() == 0 {
        store
    } else {
        refreshed(replayed(store, events.drop_last()), events.last())
    }
}

impl<C> CredentialStore<C> {
    /// Makes the store from the first event of the stream. Startup fails
    /// unless that event is a usable entry.
    pub fn initialize(first: StreamEvent<C>) -> (store: Result<CredentialStore<C>, InitializationError>)
        ensures
            store_view(store) == initialized(first),
            store is Ok <==> first is Entry,
    {
        match first {
            StreamEvent::Entry(config) => Ok(CredentialStore { current: config, running: true }),
            StreamEvent::Rejected => Err(InitializationError::Rejected),
            StreamEvent::Closed => Err(InitializationError::StreamEnded),
            StreamEvent::Cancelled => Err(InitializationError::Cancelled),
        }
    }

    /// Applies the next event of the stream and says what the refresh task
    /// does about it.
    pub fn apply(&mut self, event: StreamEvent<C>) -> (action: RefreshAction)
        ensures
            final(self)@ == refreshed(old(self)@, event),
            action == refresh_action(old(self)@, event),
    {
        if !self.running {
            RefreshAction::Stop
        } else {
            match event {
                StreamEvent::Entry(config) => {
                    self.current = config;
                    RefreshAction::Publish
                },
                StreamEvent::Rejected => RefreshAction::Keep,
                StreamEvent::Closed | StreamEvent::Cancelled => {
                    self.running = false;
                    RefreshAction::Stop
                },
            }
        }
    }

    /// The configuration in effect: that of the latest usable entry.
    pub fn load(&self) -> (config: &C)
        ensures
            *config == self@.current,
    {
        &self.current
    }

    /// Whether the refresh task still consumes the stream.
    pub fn is_running(&self) -> (running: bool)
        ensures
            running == self@.running,
    {
        self.running
    }
}

/// Replaying an event changes nothing: the store after an event and the
/// same event again is the store after the event once, whatever went
/// before. In particular the same entry applied twice leaves readers with
/// the same configuration as applied once.
pub proof fn lemma_replay_is_idempotent<C>(
    store: StoreView<C>,
    before: Seq<StreamEvent<C>>,
    event: StreamEvent<C>,
)
    ensures
        refreshed(refreshed(store, event), event) == refreshed(store, event),
        replayed(store, before.push(event).push(event)) == replayed(store, before.push(event)),
{
    let once = before.push(event);
    let twice = once.push(event);
    assert(twice.drop_last() =~= once);
}

/// An entry that could not be built leaves the previous configuration in
/// effect, and so does the end of the stream or the stop signal.
pub proof fn lemma_failure_keeps_configuration<C>(store: StoreView<C>, event: StreamEvent<C>)
    requires
        !(event is Entry),
    ensures
        refreshed(store, event).current == store.current,
        event is Rejected ==> refreshed(store, event) == store,
{
}

/// Once the refresh task has ended, the last configuration stays in place
/// whatever the stream would still yield.
pub proof fn lemma_ended_store_is_final<C>(store: StoreView<C>, events: Seq<StreamEvent<C>>)
    requires
        !store.running,
    ensures
        replayed(store, events) == store,
    decreases events.len(),
{
    if events.len() > 0 {
        lemma_ended_store_is_final(store, events.drop_last());
    }
}

/// Entries take effect in the order of their arrival: while the task runs,
/// the configuration in effect is that of the last usable entry, or the one
/// the run began with if there was none.
pub proof fn lemma_latest_entry_is_in_effect<C>(store: StoreView<C>, events: Seq<StreamEvent<C>>)
    requires
        store.running,
        forall|i: int| 0 <= i < events.len() ==> events[i] is Entry || events[i] is Rejected,
    ensures
        replayed(store, events).running,
        (forall|i: int| 0 <= i < events.len() ==> events[i] is Rejected) ==> replayed(
            store,
            events,
        ).current == store.current,
        forall|i: int|
            0 <= i < events.len() && events[i] is Entry && (forall|j: int|
                i < j < events.len() ==> events[j] is Rejected) ==> replayed(store, events).current
                == events[i]->Entry_0,
    decreases events.len(),
{
    if events.len() > 0 {
        let front = events.drop_last();
        lemma_latest_entry_is_in_effect(store, front);
        assert forall|i: int|
            0 <= i < events.len() && events[i] is Entry && (forall|j: int|
                i < j < events.len() ==> events[j] is Rejected) implies replayed(
            store,
            events,
        ).current == events[i]->Entry_0 by {
            if i < events.len() - 1 {
                assert(front[i] == events[i]);
            }
        }
    }
}

/// The store never holds anything but a usable entry: after any run of
/// events the configuration in effect is the one the run began with, or
/// that of an entry of the run.
pub proof fn lemma_configuration_comes_from_an_entry<C>(
    store: StoreView<C>,
    events: Seq<StreamEvent<C>>,
)
    ensures
        replayed(store, events).current == store.current || exists|i: int|
            0 <= i < events.len() && #[trigger] events[i] == StreamEvent::Entry(
                replayed(store, events).current,
            ),
    decreases events.len(),
{
    if events.len() > 0 {
        let front = events.drop_last();
        lemma_configuration_comes_from_an_entry(store, front);
        let before = replayed(store, front);
        let after = replayed(store, events);
        if after.current == before.current {
            if before.current != store.current {
                let i = choose|i: int|
                    0 <= i < front.len() && #[trigger] front[i] == StreamEvent::Entry(
                        before.current,
                    );
                assert(events[i] == front[i]);
            }
        } else {
            assert(events[events.len() - 1] == StreamEvent::Entry(after.current));
        }
    }
}

} // verus!
