//! Iterators over the counted arrays of an [`EventExec`].

use vstd::prelude::*;
use crate::bytes::optional_bytes;
use crate::bytes::slices_view;
use crate::cursor::Cursor;
use crate::event_exec::EventExec;
use crate::fd::fds_view;
use crate::fd::optional_fd;
use crate::fd::Fd;
use crate::record::FdRecord;
use crate::walk::lemma_rest_after_step;
use crate::walk::Walk;

verus! {

/// Iterator over the arguments of an [`EventExec`].
pub struct ExecArgs<'event, 'raw> {
    /// Wrapped event.
    ev: &'event EventExec<'raw>,
    /// Where the iterator stands. Its count was taken from the event when
    /// the iterator was made.
    cursor: Cursor,
}

impl<'event, 'raw> View for ExecArgs<'event, 'raw> {
    type V = Walk<Seq<u8>>;

    closed spec fn view(&self) -> Walk<Seq<u8>> {
        Walk { items: self.ev@.args, pos: self.cursor@.pos }
    }
}

impl<'event, 'raw> ExecArgs<'event, 'raw> {
    /// The cursor counts as many indices as the event has elements.
    #[verifier::type_invariant]
    closed spec fn inv(&self) -> bool {
        self.cursor.total() == self.ev@.args.len()
    }

    /// New iterator from event.
    pub(crate) fn new(ev: &'event EventExec<'raw>) -> (args: ExecArgs<'event, 'raw>)
        ensures
            args@ == Walk::fresh(ev@.args),
    {
        ExecArgs { ev, cursor: Cursor::new(ev.arg_count()) }
    }

    /// Yields the next argument, or nothing once all were
    /// yielded; from then on it yields nothing, however often it is called.
    pub fn next(&mut self) -> (arg: Option<&'raw [u8]>)
        ensures
            optional_bytes(arg) == old(self)@.peek(),
            final(self)@ == old(self)@.step(),
    {
        proof {
            use_type_invariant(&*self);
        }
        let mut cursor = self.cursor;
        let index = cursor.next();
        self.cursor = cursor;
        match index {
            Some(index) => Some(self.ev.arg_at(index)),
            None => None,
        }
    }

    /// Moves to index `n`, counted from the first argument of the
    /// event and not from where the iterator stands, and yields the
    /// argument there; yields nothing if there is none.
    pub fn nth(&mut self, n: usize) -> (arg: Option<&'raw [u8]>)
        ensures
            optional_bytes(arg) == old(self)@.seek(n as nat).peek(),
            final(self)@ == old(self)@.seek(n as nat).step(),
    {
        proof {
            use_type_invariant(&*self);
        }
        let mut cursor = self.cursor;
        let index = cursor.nth(n);
        self.cursor = cursor;
        match index {
            Some(index) => Some(self.ev.arg_at(index)),
            None => None,
        }
    }

    /// Yields the last argument of the event, or nothing if the
    /// event has none.
    pub fn last(self) -> (arg: Option<&'raw [u8]>)
        ensures
            optional_bytes(arg) == self@.seek_last().peek(),
    {
        proof {
            use_type_invariant(&self);
        }
        match self.cursor.last() {
            Some(index) => Some(self.ev.arg_at(index)),
            None => None,
        }
    }

    /// The number of arguments that are left.
    pub fn len(&self) -> (len: usize)
        ensures
            len == self@.remaining(),
    {
        proof {
            use_type_invariant(self);
        }
        self.cursor.len()
    }

    /// The number of arguments that are left, as a lower and
    /// an upper bound: the two agree.
    pub fn size_hint(&self) -> (hint: (usize, Option<usize>))
        ensures
            hint.0 == self@.remaining(),
            hint.1 == Some(hint.0),
    {
        let len = self.len();
        (len, Some(len))
    }

    /// Uses up the iterator and returns how many arguments were
    /// left, without reading them.
    pub fn count(self) -> (len: usize)
        ensures
            len == self@.remaining(),
    {
        proof {
            use_type_invariant(&self);
        }
        self.cursor.count()
    }

    /// Uses up the iterator and returns the arguments that were
    /// left, in order.
    pub fn collect(self) -> (args: Vec<&'raw [u8]>)
        ensures
            slices_view(args@) == self@.rest(),
    {
        let mut iter = self;
        let mut args: Vec<&'raw [u8]> = Vec::new();
        assert(slices_view(args@) + iter@.rest() =~= self@.rest());
        loop
            invariant
                slices_view(args@) + iter@.rest() == self@.rest(),
            ensures
                slices_view(args@) == self@.rest(),
            decreases iter@.remaining(),
        {
            let ghost before = iter@;
            let ghost collected = slices_view(args@);
            proof {
                lemma_rest_after_step(before);
            }
            match iter.next() {
                Some(arg) => {
                    args.push(arg);
                    assert(slices_view(args@) =~= collected.push(arg@));
                    assert(slices_view(args@) + iter@.rest() =~= collected + before.rest());
                },
                None => {
                    assert(slices_view(args@) + before.rest() =~= slices_view(args@));
                    break ;
                },
            }
        }
        args
    }
}

/// Iterator over the environment variables of an [`EventExec`].
pub struct ExecEnvs<'event, 'raw> {
    /// Wrapped event.
    ev: &'event EventExec<'raw>,
    /// Where the iterator stands. Its count was taken from the event when
    /// the iterator was made.
    cursor: Cursor,
}

impl<'event, 'raw> View for ExecEnvs<'event, 'raw> {
    type V = Walk<Seq<u8>>;

    closed spec fn view(&self) -> Walk<Seq<u8>> {
        Walk { items: self.ev@.envs, pos: self.cursor@.pos }
    }
}

impl<'event, 'raw> ExecEnvs<'event, 'raw> {
    /// The cursor counts as many indices as the event has elements.
    #[verifier::type_invariant]
    closed spec fn inv(&self) -> bool {
        self.cursor.total() == self.ev@.envs.len()
    }

    /// New iterator from event.
    pub(crate) fn new(ev: &'event EventExec<'raw>) -> (envs: ExecEnvs<'event, 'raw>)
        ensures
            envs@ == Walk::fresh(ev@.envs),
    {
        ExecEnvs { ev, cursor: Cursor::new(ev.env_count()) }
    }

    /// Yields the next environment variable, or nothing once all were
    /// yielded; from then on it yields nothing, however often it is called.
    pub fn next(&mut self) -> (env: Option<&'raw [u8]>)
        ensures
            optional_bytes(env) == old(self)@.peek(),
            final(self)@ == old(self)@.step(),
    {
        proof {
            use_type_invariant(&*self);
        }
        let mut cursor = self.cursor;
        let index = cursor.next();
        self.cursor = cursor;
        match index {
            Some(index) => Some(self.ev.env_at(index)),
            None => None,
        }
    }

    /// Moves to index `n`, counted from the first environment variable of the
    /// event and not from where the iterator stands, and yields the
    /// environment variable there; yields nothing if there is none.
    pub fn nth(&mut self, n: usize) -> (env: Option<&'raw [u8]>)
        ensures
            optional_bytes(env) == old(self)@.seek(n as nat).peek(),
            final(self)@ == old(self)@.seek(n as nat).step(),
    {
        proof {
            use_type_invariant(&*self);
        }
        let mut cursor = self.cursor;
        let index = cursor.nth(n);
        self.cursor = cursor;
        match index {
            Some(index) => Some(self.ev.env_at(index)),
            None => None,
        }
    }

    /// Yields the last environment variable of the event, or nothing if the
    /// event has none.
    pub fn last(self) -> (env: Option<&'raw [u8]>)
        ensures
            optional_bytes(env) == self@.seek_last().peek(),
    {
        proof {
            use_type_invariant(&self);
        }
        match self.cursor.last() {
            Some(index) => Some(self.ev.env_at(index)),
            None => None,
        }
    }

    /// The number of environment variables that are left.
    pub fn len(&self) -> (len: usize)
        ensures
            len == self@.remaining(),
    {
        proof {
            use_type_invariant(self);
        }
        self.cursor.len()
    }

    /// The number of environment variables that are left, as a lower and
    /// an upper bound: the two agree.
    pub fn size_hint(&self) -> (hint: (usize, Option<usize>))
        ensures
            hint.0 == self@.remaining(),
            hint.1 == Some(hint.0),
    {
        let len = self.len();
        (len, Some(len))
    }

    /// Uses up the iterator and returns how many environment variables were
    /// left, without reading them.
    pub fn count(self) -> (len: usize)
        ensures
            len == self@.remaining(),
    {
        proof {
            use_type_invariant(&self);
        }
        self.cursor.count()
    }

    /// Uses up the iterator and returns the environment variables that were
    /// left, in order.
    pub fn collect(self) -> (envs: Vec<&'raw [u8]>)
        ensures
            slices_view(envs@) == self@.rest(),
    {
        let mut iter = self;
        let mut envs: Vec<&'raw [u8]> = Vec::new();
        assert(slices_view(envs@) + iter@.rest() =~= self@.rest());
        loop
            invariant
                slices_view(envs@) + iter@.rest() == self@.rest(),
            ensures
                slices_view(envs@) == self@.rest(),
            decreases iter@.remaining(),
        {
            let ghost before = iter@;
            let ghost collected = slices_view(envs@);
            proof {
                lemma_rest_after_step(before);
            }
            match iter.next() {
                Some(env) => {
                    envs.push(env);
                    assert(slices_view(envs@) =~= collected.push(env@));
                    assert(slices_view(envs@) + iter@.rest() =~= collected + before.rest());
                },
                None => {
                    assert(slices_view(envs@) + before.rest() =~= slices_view(envs@));
                    break ;
                },
            }
        }
        envs
    }
}

/// Iterator over the file descriptors of an [`EventExec`].
pub struct ExecFds<'event, 'raw> {
    /// Wrapped event.
    ev: &'event EventExec<'raw>,
    /// Where the iterator stands. Its count was taken from the event when
    /// the iterator was made.
    cursor: Cursor,
}

impl<'event, 'raw> View for ExecFds<'event, 'raw> {
    type V = Walk<FdRecord>;

    closed spec fn view(&self) -> Walk<FdRecord> {
        Walk { items: self.ev@.fds, pos: self.cursor@.pos }
    }
}

impl<'event, 'raw> ExecFds<'event, 'raw> {
    /// The cursor counts as many indices as the event has elements.
    #[verifier::type_invariant]
    closed spec fn inv(&self) -> bool {
        self.cursor.total() == self.ev@.fds.len()
    }

    /// New iterator from event.
    pub(crate) fn new(ev: &'event EventExec<'raw>) -> (fds: ExecFds<'event, 'raw>)
        ensures
            fds@ == Walk::fresh(ev@.fds),
    {
        ExecFds { ev, cursor: Cursor::new(ev.fd_count()) }
    }

    /// Yields the next file descriptor, or nothing once all were
    /// yielded; from then on it yields nothing, however often it is called.
    pub fn next(&mut self) -> (fd: Option<Fd<'raw>>)
        ensures
            optional_fd(fd) == old(self)@.peek(),
            final(self)@ == old(self)@.step(),
    {
        proof {
            use_type_invariant(&*self);
        }
        let mut cursor = self.cursor;
        let index = cursor.next();
        self.cursor = cursor;
        match index {
            Some(index) => Some(self.ev.fd_at(index)),
            None => None,
        }
    }

    /// Moves to index `n`, counted from the first file descriptor of the
    /// event and not from where the iterator stands, and yields the
    /// file descriptor there; yields nothing if there is none.
    pub fn nth(&mut self, n: usize) -> (fd: Option<Fd<'raw>>)
        ensures
            optional_fd(fd) == old(self)@.seek(n as nat).peek(),
            final(self)@ == old(self)@.seek(n as nat).step(),
    {
        proof {
            use_type_invariant(&*self);
        }
        let mut cursor = self.cursor;
        let index = cursor.nth(n);
        self.cursor = cursor;
        match index {
            Some(index) => Some(self.ev.fd_at(index)),
            None => None,
        }
    }

    /// Yields the last file descriptor of the event, or nothing if the
    /// event has none.
    pub fn last(self) -> (fd: Option<Fd<'raw>>)
        ensures
            optional_fd(fd) == self@.seek_last().peek(),
    {
        proof {
            use_type_invariant(&self);
        }
        match self.cursor.last() {
            Some(index) => Some(self.ev.fd_at(index)),
            None => None,
        }
    }

    /// The number of file descriptors that are left.
    pub fn len(&self) -> (len: usize)
        ensures
            len == self@.remaining(),
    {
        proof {
            use_type_invariant(self);
        }
        self.cursor.len()
    }

    /// The number of file descriptors that are left, as a lower and
    /// an upper bound: the two agree.
    pub fn size_hint(&self) -> (hint: (usize, Option<usize>))
        ensures
            hint.0 == self@.remaining(),
            hint.1 == Some(hint.0),
    {
        let len = self.len();
        (len, Some(len))
    }

    /// Uses up the iterator and returns how many file descriptors were
    /// left, without reading them.
    pub fn count(self) -> (len: usize)
        ensures
            len == self@.remaining(),
    {
        proof {
            use_type_invariant(&self);
        }
        self.cursor.count()
    }

    /// Uses up the iterator and returns the file descriptors that were
    /// left, in order.
    pub fn collect(self) -> (fds: Vec<Fd<'raw>>)
        ensures
            fds_view(fds@) == self@.rest(),
    {
        let mut iter = self;
        let mut fds: Vec<Fd<'raw>> = Vec::new();
        assert(fds_view(fds@) + iter@.rest() =~= self@.rest());
        loop
            invariant
                fds_view(fds@) + iter@.rest() == self@.rest(),
            ensures
                fds_view(fds@) == self@.rest(),
            decreases iter@.remaining(),
        {
            let ghost before = iter@;
            let ghost collected = fds_view(fds@);
            proof {
                lemma_rest_after_step(before);
            }
            match iter.next() {
                Some(fd) => {
                    fds.push(fd);
                    assert(fds_view(fds@) =~= collected.push(fd@));
                    assert(fds_view(fds@) + iter@.rest() =~= collected + before.rest());
                },
                None => {
                    assert(fds_view(fds@) + before.rest() =~= fds_view(fds@));
                    break ;
                },
            }
        }
        fds
    }
}

} // verus!
