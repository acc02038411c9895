//! Per-conversation state: the store that keeps one record per chat, and the
//! handle through which a handler reads and writes the record of its chat.

use std::collections::HashMap;
use std::marker::PhantomData;
use vstd::prelude::*;

verus! {

broadcast use vstd::std_specs::hash::group_hash_axioms;

/// Something that has a chat ID.
pub trait GetChatId {
    #[must_use]
    fn chat_id(&self) -> i64;
}

/// A store of dialogue states, one per chat at most.
///
/// A backend may fail at any call; a call that fails changes nothing.
pub trait Storage<D: Clone> {
    type Error;

    /// The records held. A backend says here what its records are; one
    /// that does not is taken to hold none.
    open spec fn records(&self) -> Map<i64, D> {
        Map::empty()
    }

    /// Whether reads and writes of the store never fail. A backend that
    /// does not say so is taken to fail at times.
    open spec fn reliable(&self) -> bool {
        false
    }

    /// Whether the removal of the record of `chat_id` is sure to succeed.
    /// A backend that does not say so is taken to fail at times.
    open spec fn removal_succeeds(&self, chat_id: i64) -> bool {
        false
    }

    /// Whether the removal of the record of `chat_id` is sure to fail. A
    /// backend that does not say so is taken to succeed at times.
    open spec fn removal_fails(&self, chat_id: i64) -> bool {
        false
    }

    /// A copy of the record of `chat_id`, or `None` where there is none.
    fn get_dialogue(&self, chat_id: i64) -> (found: Result<Option<D>, Self::Error>)
        ensures
            found matches Ok(state) ==> is_copy_of_record(self.records(), chat_id, state),
            self.reliable() ==> found is Ok,
    ;

    /// Makes `dialogue` the record of `chat_id`, in place of any other.
    fn update_dialogue(&mut self, chat_id: i64, dialogue: D) -> (done: Result<(), Self::Error>)
        ensures
            done is Ok ==> final(self).records() == old(self).records().insert(chat_id, dialogue),
            done is Err ==> final(self).records() == old(self).records(),
            old(self).reliable() ==> done is Ok,
            final(self).reliable() == old(self).reliable(),
    ;

    /// Removes the record of `chat_id`.
    fn remove_dialogue(&mut self, chat_id: i64) -> (done: Result<(), Self::Error>)
        ensures
            done is Ok ==> final(self).records() == old(self).records().remove(chat_id),
            done is Err ==> final(self).records() == old(self).records(),
            old(self).removal_succeeds(chat_id) ==> done is Ok,
            old(self).removal_fails(chat_id) ==> done is Err,
            final(self).reliable() == old(self).reliable(),
    ;
}

/// Whether `state` is what a read of `chat_id` may hand out: nothing where
/// the chat has no record, and a clone of the record where it has one.
pub open spec fn is_copy_of_record<D: Clone>(
    records: Map<i64, D>,
    chat_id: i64,
    state: Option<D>,
) -> bool {
    match state {
        Some(d) => records.contains_key(chat_id) && cloned(records[chat_id], d),
        None => !records.contains_key(chat_id),
    }
}

/// The one way in which the in-memory store fails.
#[derive(Clone, Copy, Debug, PartialEq, Eq, Structural)]
pub enum InMemStorageError {
    /// A record was to be removed from a chat that has none.
    DialogueNotFound,
}

/// A store that keeps its records in a hash map, in memory.
pub struct InMemStorage<D> {
    map: HashMap<i64, D>,
}

impl<D: Clone> InMemStorage<D> {
    /// A store without records.
    pub fn new() -> (store: InMemStorage<D>)
        ensures
            store.records() == Map::<i64, D>::empty(),
            store.reliable(),
    {
        InMemStorage { map: HashMap::new() }
    }
}

impl<D: Clone> Storage<D> for InMemStorage<D> {
    type Error = InMemStorageError;

    closed spec fn records(&self) -> Map<i64, D> {
        self.map@
    }

    /// Reads and writes of memory do not fail.
    open spec fn reliable(&self) -> bool {
        true
    }

    /// A record that is there can be removed.
    open spec fn removal_succeeds(&self, chat_id: i64) -> bool {
        self.records().contains_key(chat_id)
    }

    /// A record that is not there cannot.
    open spec fn removal_fails(&self, chat_id: i64) -> bool {
        !self.records().contains_key(chat_id)
    }

    fn get_dialogue(&self, chat_id: i64) -> (found: Result<Option<D>, InMemStorageError>) {
        match self.map.get(&chat_id) {
            Some(d) => Ok(Some(d.clone())),
            None => Ok(None),
        }
    }

    fn update_dialogue(&mut self, chat_id: i64, dialogue: D) -> (done: Result<
        (),
        InMemStorageError,
    >) {
        self.map.insert(chat_id, dialogue);
        Ok(())
    }

    /// Fails with `DialogueNotFound` exactly where the chat has no record.
    fn remove_dialogue(&mut self, chat_id: i64) -> (done: Result<(), InMemStorageError>)
        ensures
            done is Ok <==> old(self).records().contains_key(chat_id),
            done is Err ==> done == Err::<(), InMemStorageError>(
                InMemStorageError::DialogueNotFound,
            ),
    {
        match self.map.remove(&chat_id) {
            Some(_) => Ok(()),
            None => {
                assert(self.map@ =~= old(self).map@);
                Err(InMemStorageError::DialogueNotFound)
            },
        }
    }
}

/// A handle for controlling the dialogue state of one chat.
pub struct Dialogue<D, S> {
    storage: S,
    chat_id: i64,
    _phantom: PhantomData<D>,
}

impl<D: Clone, S: Storage<D>> Dialogue<D, S> {
    /// The chat that the handle is bound to.
    pub closed spec fn chat(&self) -> i64 {
        self.chat_id
    }

    /// The store behind the handle.
    pub closed spec fn store(&self) -> S {
        self.storage
    }

    /// The records of the store behind the handle.
    pub open spec fn records(&self) -> Map<i64, D> {
        self.store().records()
    }

    /// Whether reads and writes of the store behind the handle never fail.
    pub open spec fn reliable(&self) -> bool {
        self.store().reliable()
    }

    /// Constructs a new dialogue with `storage` (where dialogues are stored)
    /// and `chat_id` of a current dialogue.
    pub fn new(storage: S, chat_id: i64) -> (dialogue: Dialogue<D, S>)
        ensures
            dialogue.chat() == chat_id,
            dialogue.store() == storage,
    {
        Dialogue { storage, chat_id, _phantom: PhantomData }
    }

    /// Retrieves the current state of the dialogue or `None` if there is no
    /// dialogue.
    pub fn get(&self) -> (found: Result<Option<D>, S::Error>)
        ensures
            found matches Ok(state) ==> is_copy_of_record(self.records(), self.chat(), state),
            self.reliable() ==> found is Ok,
    {
        self.storage.get_dialogue(self.chat_id)
    }

    /// Updates the dialogue state: what `D::from` makes of `state` becomes
    /// the record of the chat.
    pub fn update<State>(&mut self, state: State) -> (done: Result<(), S::Error>) where
        D: From<State>,

        ensures
            final(self).chat() == old(self).chat(),
            final(self).reliable() == old(self).reliable(),
            old(self).reliable() ==> done is Ok,
            done is Err ==> final(self).records() == old(self).records(),
            done is Ok ==> {
                &&& final(self).records().contains_key(old(self).chat())
                &&& call_ensures(D::from, (state,), final(self).records()[old(self).chat()])
                &&& final(self).records() == old(self).records().insert(
                    old(self).chat(),
                    final(self).records()[old(self).chat()],
                )
            },
    {
        let new_dialogue = D::from(state);
        self.storage.update_dialogue(self.chat_id, new_dialogue)
    }

    /// Like [`Dialogue::get`] but returns a default value if there is no
    /// dialogue, and makes that value the record of the chat.
    pub fn get_or_default(&mut self) -> (state: Result<D, S::Error>) where D: Default
        ensures
            final(self).chat() == old(self).chat(),
            final(self).reliable() == old(self).reliable(),
            old(self).reliable() ==> state is Ok,
            state is Err ==> final(self).records() == old(self).records(),
            state matches Ok(d) ==> if old(self).records().contains_key(old(self).chat()) {
                &&& cloned(old(self).records()[old(self).chat()], d)
                &&& final(self).records() == old(self).records()
            } else {
                &&& is_default(d)
                &&& holds_default_at(old(self).records(), old(self).chat(), final(self).records())
            },
    {
        match self.storage.get_dialogue(self.chat_id) {
            Err(err) => Err(err),
            Ok(Some(d)) => Ok(d),
            Ok(None) => match self.storage.update_dialogue(self.chat_id, D::default()) {
                Err(err) => Err(err),
                Ok(()) => Ok(D::default()),
            },
        }
    }

    /// Updates the dialogue with a default value.
    pub fn reset(&mut self) -> (done: Result<(), S::Error>) where D: Default
        ensures
            final(self).chat() == old(self).chat(),
            final(self).reliable() == old(self).reliable(),
            old(self).reliable() ==> done is Ok,
            done is Err ==> final(self).records() == old(self).records(),
            done is Ok ==> holds_default_at(
                old(self).records(),
                old(self).chat(),
                final(self).records(),
            ),
    {
        self.update(D::default())
    }

    /// Removes the dialogue from the storage provided to [`Dialogue::new`].
    ///
    /// The removal succeeds where the store says that the removal of this
    /// chat's record is sure to succeed, and fails where the store says
    /// that it is sure to fail; the in-memory store removes a record that is
    /// there, and reports one that is not.
    pub fn exit(&mut self) -> (done: Result<(), S::Error>)
        ensures
            final(self).chat() == old(self).chat(),
            final(self).reliable() == old(self).reliable(),
            old(self).store().removal_succeeds(old(self).chat()) ==> done is Ok,
            old(self).store().removal_fails(old(self).chat()) ==> done is Err,
            done is Err ==> final(self).records() == old(self).records(),
            done is Ok ==> final(self).records() == old(self).records().remove(old(self).chat()),
    {
        self.storage.remove_dialogue(self.chat_id)
    }

    /// Gives the store back.
    pub fn into_storage(self) -> (storage: S)
        ensures
            storage == self.store(),
    {
        self.storage
    }
}

/// Whether `d` is a value that `D::default()` may return.
pub open spec fn is_default<D: Default>(d: D) -> bool {
    call_ensures(D::default, (), d)
}

/// Whether `after` is `before` with a default value as the record of
/// `chat_id`, in place of any other.
pub open spec fn holds_default_at<D: Default>(
    before: Map<i64, D>,
    chat_id: i64,
    after: Map<i64, D>,
) -> bool {
    &&& after.contains_key(chat_id)
    &&& is_default(after[chat_id])
    &&& after == before.insert(chat_id, after[chat_id])
}

/// Specifies std's `impl<T> From<T> for T`, which std documents to return
/// its argument unchanged: the contract claims that `T::from(t)` is `t`.
/// With it a state that is written as it is stays what it was.
pub assume_specification<T>[ <T as From<T>>::from ](t: T) -> (r: T)
    ensures
        r == t,
;

/// A read that follows a write to the same chat hands out a clone of what
/// was written.
pub proof fn read_after_update<D: Clone>(
    before: Map<i64, D>,
    chat_id: i64,
    written: D,
    read: Option<D>,
)
    requires
        is_copy_of_record(before.insert(chat_id, written), chat_id, read),
    ensures
        read is Some,
        cloned(written, read->Some_0),
{
}

/// A write to one chat leaves what a read of any other chat may hand out
/// as it was, and so does the removal of one chat's record.
pub proof fn other_chats_are_untouched<D: Clone>(
    before: Map<i64, D>,
    chat_id: i64,
    written: D,
    other: i64,
    read: Option<D>,
)
    requires
        other != chat_id,
    ensures
        is_copy_of_record(before.insert(chat_id, written), other, read) == is_copy_of_record(
            before,
            other,
            read,
        ),
        is_copy_of_record(before.remove(chat_id), other, read) == is_copy_of_record(
            before,
            other,
            read,
        ),
{
}

/// A read that follows the removal of the chat's record finds nothing.
pub proof fn read_after_exit<D: Clone>(before: Map<i64, D>, chat_id: i64, read: Option<D>)
    requires
        is_copy_of_record(before.remove(chat_id), chat_id, read),
    ensures
        read is None,
{
}

/// Where a chat without a record was given a default one, a read that
/// follows hands out a clone of that default value.
pub proof fn read_after_default<D: Clone + Default>(
    before: Map<i64, D>,
    chat_id: i64,
    after: Map<i64, D>,
    read: Option<D>,
)
    requires
        !before.contains_key(chat_id),
        holds_default_at(before, chat_id, after),
        is_copy_of_record(after, chat_id, read),
    ensures
        read is Some,
        is_default(after[chat_id]),
        cloned(after[chat_id], read->Some_0),
{
}

} // verus!
