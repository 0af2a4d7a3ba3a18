//! The session: what is decided about the pseudo-terminal and the child
//! process. The owner of the operating system's handles does the reading,
//! writing and resizing, and tells the session how each went; the session
//! keeps the write queue, the size and the lifecycle.

use vstd::prelude::*;
use std::collections::VecDeque;

verus! {

/// What can go wrong with a session.
#[derive(Clone, Copy, PartialEq, Eq, Structural, Debug)]
pub enum SessionError {
    /// The child process could not be started. The session never starts.
    SpawnFailed,
    /// A chunk could not be delivered, or the session is closed.
    WriteFailed,
    /// The new size could not be set. The session goes on at its size.
    ResizeFailed,
}

/// What became of a chunk handed to `write`.
#[derive(Clone, PartialEq, Eq, Debug)]
pub enum Queued {
    /// It waits in the queue.
    Accepted,
    /// The queue is full. The chunk comes back: the producer waits and
    /// hands it in again, so that nothing is lost.
    Full(Vec<u8>),
}

/// How the operating system took the chunk at the head of the queue.
#[derive(Clone, Copy, PartialEq, Eq, Structural, Debug)]
pub enum Delivery {
    /// All of it was written.
    Done,
    /// Nothing was written for now; it is to be tried again.
    WouldBlock,
    /// The descriptor is closed or broken.
    Failed,
}

/// The mathematical value of a session.
pub struct SessionView {
    /// The session ended: nothing more is written or reported.
    pub closed: bool,
    pub rows: u16,
    pub cols: u16,
    /// The chunks waiting to be written, oldest first.
    pub queue: Seq<Seq<u8>>,
    /// The largest number of chunks that may wait.
    pub limit: nat,
}

/// The values of a sequence of chunks.
pub open spec fn chunks(queue: Seq<Vec<u8>>) -> Seq<Seq<u8>> {
    Seq::new(queue.len(), |i: int| queue[i]@)
}

/// The session after the operating system has taken, or not, the chunk at
/// the head of the queue. A failure closes the session and discards what
/// waits.
pub open spec fn after_delivery(s: SessionView, d: Delivery) -> SessionView {
    if s.closed || s.queue.len() == 0 {
        s
    } else {
        match d {
            Delivery::Done => SessionView { queue: s.queue.skip(1), ..s },
            Delivery::WouldBlock => s,
            Delivery::Failed => SessionView { closed: true, queue: Seq::empty(), ..s },
        }
    }
}

/// A session. Its view is a [`SessionView`].
pub struct Session {
    closed: bool,
    rows: u16,
    cols: u16,
    queue: VecDeque<Vec<u8>>,
    limit: usize,
}

impl View for Session {
    type V = SessionView;

    closed spec fn view(&self) -> SessionView {
        SessionView {
            closed: self.closed,
            rows: self.rows,
            cols: self.cols,
            queue: chunks(self.queue@),
            limit: self.limit as nat,
        }
    }
}

impl Session {
    /// The session for a child process that the caller has tried to start:
    /// `spawned` says whether it runs. A failure to start is final.
    pub fn open(spawned: bool, rows: u16, cols: u16, limit: usize) -> (r: Result<
        Session,
        SessionError,
    >)
        ensures
            match r {
                Ok(s) => spawned && s@ == (SessionView {
                    closed: false,
                    rows,
                    cols,
                    queue: Seq::empty(),
                    limit: limit as nat,
                }),
                Err(e) => !spawned && e == SessionError::SpawnFailed,
            },
    {
        if spawned {
            let s = Session { closed: false, rows, cols, queue: VecDeque::new(), limit };
            assert(s@.queue =~= Seq::<Seq<u8>>::empty());
            Ok(s)
        } else {
            Err(SessionError::SpawnFailed)
        }
    }

    /// Whether the session has ended.
    pub fn is_closed(&self) -> (b: bool)
        ensures
            b == self@.closed,
    {
        self.closed
    }

    /// The size that the child process knows of, rows first.
    pub fn size(&self) -> (s: (u16, u16))
        ensures
            s == (self@.rows, self@.cols),
    {
        (self.rows, self.cols)
    }

    /// The number of chunks waiting to be written.
    pub fn pending(&self) -> (n: usize)
        ensures
            n == self@.queue.len(),
    {
        self.queue.len()
    }

    /// Hands in a chunk to be written to the child process. On a closed
    /// session this fails. With the queue full the chunk comes back and the
    /// queue stays as it is. Otherwise the chunk joins the end of the queue.
    pub fn write(&mut self, bytes: Vec<u8>) -> (r: Result<Queued, SessionError>)
        ensures
            match r {
                Err(e) => old(self)@.closed && e == SessionError::WriteFailed && final(self)@
                    == old(self)@,
                Ok(Queued::Full(back)) => !old(self)@.closed && old(self)@.queue.len() >= old(self)@.limit && back@ == bytes@ && final(self)@ == old(self)@,
                Ok(Queued::Accepted) => !old(self)@.closed && old(self)@.queue.len() < old(self)@.limit && final(self)@ == (SessionView {
                    queue: old(self)@.queue.push(bytes@),
                    ..old(self)@
                }),
            },
    {
        if self.closed {
            Err(SessionError::WriteFailed)
        } else if self.queue.len() >= self.limit {
            Ok(Queued::Full(bytes))
        } else {
            self.queue.push_back(bytes);
            assert(self@.queue =~= old(self)@.queue.push(bytes@));
            Ok(Queued::Accepted)
        }
    }

    /// The chunk to write next: the oldest one waiting.
    pub fn next_chunk(&self) -> (chunk: Option<&Vec<u8>>)
        ensures
            match chunk {
                Some(c) => !self@.closed && self@.queue.len() > 0 && c@ == self@.queue[0],
                None => self@.closed || self@.queue.len() == 0,
            },
    {
        if self.closed || self.queue.len() == 0 {
            None
        } else {
            Some(&self.queue[0])
        }
    }

    /// Records how the operating system took the chunk at the head of the
    /// queue. A chunk that was written leaves the queue; one that would
    /// block stays, to be tried again; a failure closes the session, which
    /// is reported here once and never again.
    pub fn delivered(&mut self, d: Delivery) -> (e: Option<SessionError>)
        ensures
            final(self)@ == after_delivery(old(self)@, d),
            e == (if !old(self)@.closed && old(self)@.queue.len() > 0 && d == Delivery::Failed {
                Some(SessionError::WriteFailed)
            } else {
                None
            }),
    {
        if self.closed || self.queue.len() == 0 {
            return None;
        }
        match d {
            Delivery::Done => {
                let _ = self.queue.pop_front();
                assert(self@.queue =~= old(self)@.queue.skip(1));
                None
            },
            Delivery::WouldBlock => None,
            Delivery::Failed => {
                self.closed = true;
                self.queue = VecDeque::new();
                assert(self@.queue =~= Seq::<Seq<u8>>::empty());
                Some(SessionError::WriteFailed)
            },
        }
    }

    /// Records a resize request and how it went: `done` says whether the
    /// operating system took the new size. If it did not, or the session is
    /// closed, the session goes on at its size.
    pub fn resized(&mut self, rows: u16, cols: u16, done: bool) -> (r: Result<(), SessionError>)
        ensures
            match r {
                Ok(_) => done && !old(self)@.closed && final(self)@ == (SessionView {
                    rows,
                    cols,
                    ..old(self)@
                }),
                Err(e) => (!done || old(self)@.closed) && e == SessionError::ResizeFailed
                    && final(self)@ == old(self)@,
            },
    {
        if done && !self.closed {
            self.rows = rows;
            self.cols = cols;
            Ok(())
        } else {
            Err(SessionError::ResizeFailed)
        }
    }

    /// Closes the session: the child process has ended or the host has
    /// closed the terminal. What waits is discarded.
    pub fn close(&mut self)
        ensures
            final(self)@ == (SessionView { closed: true, queue: Seq::empty(), ..old(self)@ }),
    {
        self.closed = true;
        self.queue = VecDeque::new();
        assert(self@.queue =~= Seq::<Seq<u8>>::empty());
    }
}

} // verus!
