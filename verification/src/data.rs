//! What a context owns: its deferred tasks and its user data.

use vstd::prelude::*;
use crate::value::Function;

verus! {

/// A store of user values, at most one of each type: an `anymap::AnyMap`.
/// Proofs see nothing inside a store. What they know of one is what the
/// contracts of the functions below say of it, and none of those has been
/// proved.
#[verifier::external_body]
pub struct UserData {
    map: anymap::AnyMap,
}

/// The number of values that a store holds, as `anymap::Map::len` counts
/// them.
pub uninterp spec fn user_data_len(store: UserData) -> nat;

impl UserData {
    /// `anymap::Map::new`: the new store holds nothing.
    #[verifier::external_body]
    pub(crate) fn new() -> (store: UserData)
        ensures
            user_data_len(store) == 0,
    {
        UserData { map: anymap::AnyMap::new() }
    }

    /// `anymap::Map::insert`: the value takes the place of the stored value
    /// of its type, which is returned, or is added where there was none. The
    /// contract states the effect on the number of values only: which value
    /// comes back is not stated.
    #[verifier::external_body]
    pub(crate) fn insert<T: 'static>(&mut self, value: T) -> (previous: Option<T>)
        ensures
            previous is Some ==> user_data_len(*final(self)) == user_data_len(*old(self)) > 0,
            previous is None ==> user_data_len(*final(self)) == user_data_len(*old(self)) + 1,
    {
        self.map.insert(value)
    }

    /// `anymap::Map::remove`: the stored value of the type leaves the store
    /// and is returned; where there is none, the store stays as it was.
    #[verifier::external_body]
    pub(crate) fn remove<T: 'static>(&mut self) -> (value: Option<T>)
        ensures
            value is Some ==> user_data_len(*old(self)) == user_data_len(*final(self)) + 1,
            value is None ==> *final(self) == *old(self),
    {
        self.map.remove::<T>()
    }

    /// `anymap::Map::get`: a value is found only in a store that holds one.
    #[verifier::external_body]
    pub(crate) fn get<T: 'static>(&self) -> (value: Option<&T>)
        ensures
            value is Some ==> user_data_len(*self) > 0,
    {
        self.map.get::<T>()
    }

    /// `anymap::Map::get_mut`: a value is found only in a store that holds
    /// one, and whatever is done through the reference, the store holds as
    /// many values as before.
    #[verifier::external_body]
    pub(crate) fn get_mut<T: 'static>(&mut self) -> (value: Option<&mut T>)
        ensures
            value is Some ==> user_data_len(*old(self)) > 0,
            user_data_len(*final(self)) == user_data_len(*old(self)),
    {
        self.map.get_mut::<T>()
    }
}

/// What a record holds, as contracts see it.
pub struct Record {
    /// The tasks that wait to be run, oldest first.
    pub tasks: Seq<Function>,
    /// The user data.
    pub user_data: UserData,
}

/// The record of one context: its waiting tasks and its user data.
pub struct ContextData {
    promise_queue: Vec<Function>,
    user_data: UserData,
}

impl View for ContextData {
    type V = Record;

    closed spec fn view(&self) -> Record {
        Record { tasks: self.promise_queue@, user_data: self.user_data }
    }
}

impl ContextData {
    /// A record with no task and no user data.
    pub fn new() -> (data: ContextData)
        ensures
            data@.tasks == Seq::<Function>::empty(),
            user_data_len(data@.user_data) == 0,
    {
        ContextData { promise_queue: Vec::new(), user_data: UserData::new() }
    }

    /// Puts a task at the end of the queue.
    pub fn push_task(&mut self, task: Function)
        ensures
            final(self)@ == (Record { tasks: old(self)@.tasks.push(task), ..old(self)@ }),
    {
        self.promise_queue.push(task);
    }

    /// Takes the task that was queued last, if any is waiting.
    pub fn pop_task(&mut self) -> (task: Option<Function>)
        ensures
            old(self)@.tasks.len() == 0 ==> task is None && final(self)@ == old(self)@,
            old(self)@.tasks.len() > 0 ==> task == Some(old(self)@.tasks.last())
                && final(self)@ == (Record { tasks: old(self)@.tasks.drop_last(), ..old(self)@ }),
    {
        self.promise_queue.pop()
    }

    /// Stores a user value, and returns the value of its type that was
    /// stored before, if there was one.
    pub fn insert_user_data<T: 'static>(&mut self, value: T) -> (previous: Option<T>)
        ensures
            final(self)@.tasks == old(self)@.tasks,
            previous is Some ==> user_data_len(final(self)@.user_data) == user_data_len(
                old(self)@.user_data,
            ) > 0,
            previous is None ==> user_data_len(final(self)@.user_data) == user_data_len(
                old(self)@.user_data,
            ) + 1,
    {
        self.user_data.insert(value)
    }

    /// Takes the stored user value of a type out, if there is one.
    pub fn remove_user_data<T: 'static>(&mut self) -> (value: Option<T>)
        ensures
            final(self)@.tasks == old(self)@.tasks,
            value is Some ==> user_data_len(old(self)@.user_data) == user_data_len(
                final(self)@.user_data,
            ) + 1,
            value is None ==> final(self)@ == old(self)@,
    {
        self.user_data.remove::<T>()
    }

    /// The stored user value of a type, if there is one.
    pub fn get_user_data<T: 'static>(&self) -> (value: Option<&T>)
        ensures
            value is Some ==> user_data_len(self@.user_data) > 0,
    {
        self.user_data.get::<T>()
    }

    /// The stored user value of a type, to be changed in place.
    pub fn get_user_data_mut<T: 'static>(&mut self) -> (value: Option<&mut T>)
        ensures
            value is Some ==> user_data_len(old(self)@.user_data) > 0,
            final(self)@.tasks == old(self)@.tasks,
            user_data_len(final(self)@.user_data) == user_data_len(old(self)@.user_data),
    {
        self.user_data.get_mut::<T>()
    }
}

} // verus!
