//! The per-instance user context: a value of the embedder's type that the
//! instance owns and that host functions reach through the execution
//! context.

use vstd::prelude::*;

verus! {

/// The execution context of one instance, as far as this layer reads it: the
/// slot that holds the attached user context on the heap, or nothing.
pub struct ExecEnv<T> {
    user_data: Option<Box<T>>,
}

impl<T> View for ExecEnv<T> {
    type V = Option<T>;

    /// The attached context, or `None` where the slot is null.
    closed spec fn view(&self) -> Option<T> {
        match self.user_data {
            Some(context) => Some(*context),
            None => None,
        }
    }
}

/// The slot after a context is attached to it.
pub open spec fn slot_after_install<T>(slot: Option<T>, context: T) -> Option<T> {
    Some(context)
}

/// The slot after its context is taken back.
pub open spec fn slot_after_reclaim<T>(slot: Option<T>) -> Option<T> {
    None
}

/// What taking the context back hands out: the attached context, or nothing
/// where the slot is null.
pub open spec fn reclaimed<T>(slot: Option<T>) -> Option<T> {
    slot
}

/// The slot after the attached context is replaced in place by `context`. A
/// null slot stays null.
pub open spec fn slot_after_write<T>(slot: Option<T>, context: T) -> Option<T> {
    match slot {
        Some(_) => Some(context),
        None => None,
    }
}

/// A context that was just installed is the one that is read back, and the
/// one that a reclaim hands out.
pub proof fn lemma_install_then_read<T>(slot: Option<T>, context: T)
    ensures
        slot_after_install(slot, context) == Some(context),
        reclaimed(slot_after_install(slot, context)) == Some(context),
{
}

/// What is written through the mutable view of an attached context is what
/// the next read sees, and the next one after a further write.
pub proof fn lemma_write_then_read<T>(slot: Option<T>, first: T, second: T)
    requires
        slot is Some,
    ensures
        slot_after_write(slot, first) == Some(first),
        slot_after_write(slot_after_write(slot, first), second) == Some(second),
{
}

/// Taking the context back from a null slot hands out nothing and leaves the
/// slot null, so a second reclaim after a first one does nothing.
pub proof fn lemma_reclaim_twice<T>(slot: Option<T>)
    ensures
        slot is None ==> reclaimed(slot) is None && slot_after_reclaim(slot) == slot,
        reclaimed(slot_after_reclaim(slot)) is None,
        slot_after_reclaim(slot_after_reclaim(slot)) == slot_after_reclaim(slot),
{
}

impl<T> ExecEnv<T> {
    /// An execution context whose slot is null.
    pub fn new() -> (env: Self)
        ensures
            env@ is None,
    {
        ExecEnv { user_data: None }
    }

    /// Whether the slot is null.
    pub fn is_null(&self) -> (null: bool)
        ensures
            null == (self@ is None),
    {
        self.user_data.is_none()
    }

    /// Takes ownership of `context`, moves it to the heap and attaches it.
    pub fn install(&mut self, context: T)
        ensures
            final(self)@ == slot_after_install(old(self)@, context),
    {
        self.user_data = Some(Box::new(context));
    }

    /// The attached context.
    pub fn read(&self) -> (context: &T)
        requires
            self@ is Some,
        ensures
            *context == self@->0,
    {
        match &self.user_data {
            Some(context) => &**context,
            None => unreached(),
        }
    }

    /// The attached context, for mutation in place: what the caller leaves
    /// behind the reference is what the slot then holds.
    pub fn read_mut(&mut self) -> (context: &mut T)
        requires
            old(self)@ is Some,
        ensures
            *context == old(self)@->0,
            final(self)@ == slot_after_write(old(self)@, *final(context)),
    {
        match &mut self.user_data {
            Some(context) => &mut **context,
            None => unreached(),
        }
    }

    /// Takes the attached context back and leaves the slot null. On a null
    /// slot there is nothing to take, and the slot stays null.
    pub fn reclaim(&mut self) -> (context: Option<T>)
        ensures
            context == reclaimed(old(self)@),
            final(self)@ == slot_after_reclaim(old(self)@),
    {
        match self.user_data.take() {
            Some(context) => Some(*context),
            None => None,
        }
    }
}

/// The view of the attached context that a host function gets from the
/// execution context it was called with. It borrows the execution context
/// for as long as it lives and holds that the slot is not null.
pub struct UserData<'a, T> {
    pub env: &'a mut ExecEnv<T>,
}

impl<'a, T> UserData<'a, T> {
    /// The slot behind this view is not null.
    pub open spec fn attached(&self) -> bool {
        self.env@ is Some
    }

    /// The attached context as it is now.
    pub open spec fn context(&self) -> T {
        self.env@->0
    }

    /// The user data behind `env`.
    pub fn from_env(env: &'a mut ExecEnv<T>) -> (user_data: Self)
        requires
            old(env)@ is Some,
        ensures
            user_data.attached(),
            user_data.context() == old(env)@->0,
            final(env)@ == final(user_data.env)@,
    {
        UserData { env }
    }

    /// The attached context.
    pub fn data(&self) -> (context: &T)
        requires
            self.attached(),
        ensures
            *context == self.context(),
    {
        self.env.read()
    }

    /// The attached context, for mutation in place.
    pub fn data_mut(&mut self) -> (context: &mut T)
        requires
            old(self).attached(),
        ensures
            *context == old(self).context(),
            final(self).attached(),
            final(self).context() == *final(context),
            final(final(self).env)@ == final(old(self).env)@,
    {
        self.env.read_mut()
    }
}

} // verus!
