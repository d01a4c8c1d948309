//! A thread store whose next flush can be held back or made to fail.

use vstd::prelude::*;

verus! {

/// An error of a thread store.
#[derive(Debug, PartialEq, Eq)]
pub enum ThreadStoreError {
    Internal { message: String },
}

/// What the next flush is to do.
#[derive(Debug, PartialEq, Eq)]
pub enum NextFlush {
    /// Flush the store underneath.
    Delegate,
    /// Wait to be released.
    Hold,
    /// Fail.
    Fail(ThreadStoreError),
}

/// What has to be done about a flush.
#[derive(Debug, PartialEq, Eq)]
pub enum FlushAction {
    /// Flush the store underneath; its result is the flush's.
    Delegate,
    /// Say that the flush was entered, then wait for its release.
    AwaitRelease,
    /// The flush has failed.
    Fail(ThreadStoreError),
}

/// What came of the wait for a release.
#[derive(Debug, PartialEq, Eq)]
pub enum Release {
    Released(Result<(), ThreadStoreError>),
    /// Whoever could have released the flush is gone.
    Dropped,
}

/// What is known of a store whose flushes are controlled.
#[derive(Debug, PartialEq, Eq)]
pub struct ControlledFlushStore {
    next_flush: NextFlush,
    flush_calls: usize,
}

impl ControlledFlushStore {
    /// What the next flush will do.
    pub closed spec fn next(self) -> NextFlush {
        self.next_flush
    }

    /// How often a flush was asked for, counted as far as `usize` goes and then
    /// from zero again.
    pub closed spec fn calls(self) -> usize {
        self.flush_calls
    }

    /// A store that has not been flushed and holds nothing back.
    pub fn new() -> (store: Self)
        ensures
            store.next() is Delegate,
            store.calls() == 0,
    {
        ControlledFlushStore { next_flush: NextFlush::Delegate, flush_calls: 0 }
    }

    /// Has the next flush wait until it is released.
    pub fn hold_next_flush(&mut self)
        ensures
            final(self).next() is Hold,
            final(self).calls() == old(self).calls(),
    {
        self.next_flush = NextFlush::Hold;
    }

    /// Has the next flush fail with `message`.
    pub fn fail_next_flush(&mut self, message: String)
        ensures
            final(self).next() == NextFlush::Fail(ThreadStoreError::Internal { message }),
            final(self).calls() == old(self).calls(),
    {
        self.next_flush = NextFlush::Fail(ThreadStoreError::Internal { message });
    }

    /// How often a flush was asked for.
    pub fn flush_calls(&self) -> (calls: usize)
        ensures
            calls == self.calls(),
    {
        self.flush_calls
    }

    /// Takes up a flush. What was set for it holds for this flush alone: the
    /// one after it is delegated.
    pub fn flush_thread(&mut self) -> (action: FlushAction)
        ensures
            action == (match old(self).next() {
                NextFlush::Delegate => FlushAction::Delegate,
                NextFlush::Hold => FlushAction::AwaitRelease,
                NextFlush::Fail(error) => FlushAction::Fail(error),
            }),
            final(self).next() is Delegate,
            final(self).calls() == if old(self).calls() == usize::MAX {
                0
            } else {
                old(self).calls() + 1
            },
    {
        self.flush_calls = self.flush_calls.wrapping_add(1);
        let mut next_flush = NextFlush::Delegate;
        std::mem::swap(&mut next_flush, &mut self.next_flush);
        match next_flush {
            NextFlush::Delegate => FlushAction::Delegate,
            NextFlush::Hold => FlushAction::AwaitRelease,
            NextFlush::Fail(error) => FlushAction::Fail(error),
        }
    }

    /// Goes on with a flush that waited for its release.
    pub fn flush_released(release: Release) -> (action: FlushAction)
        ensures
            match release {
                Release::Released(Ok(_)) => action is Delegate,
                Release::Released(Err(error)) => action == FlushAction::Fail(error),
                Release::Dropped => action matches FlushAction::Fail(
                    ThreadStoreError::Internal { message },
                ) && message@ == "rollout flush test release dropped"@,
            },
    {
        match release {
            Release::Released(Ok(_)) => FlushAction::Delegate,
            Release::Released(Err(error)) => FlushAction::Fail(error),
            Release::Dropped => FlushAction::Fail(
                ThreadStoreError::Internal {
                    message: "rollout flush test release dropped".to_string(),
                },
            ),
        }
    }
}

} // verus!
