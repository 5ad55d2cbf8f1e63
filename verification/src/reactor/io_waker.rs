//! A resource's readiness, and the wakers that wait for it.
use crate::ready::{
    is_readable, is_writable, lemma_clear_read, lemma_clear_write, lemma_nothing, lemma_union,
    readable, readable_bit, writable, writable_bit,
};
use vstd::prelude::*;

verus! {

/// A struct that associates a resource with two wakers which correspond to read
/// and write operations.
#[derive(Debug)]
pub struct IoWaker<W> {
    token: usize,
    readiness: usize,
    read_waker: Option<W>,
    write_waker: Option<W>,
}

/// The wakers that are to be woken, the one for reading first.
#[derive(Debug)]
pub struct Wakers<W> {
    pub read: Option<W>,
    pub write: Option<W>,
}

/// What is known of a resource.
pub struct IoWakerView<W> {
    pub token: usize,
    pub readiness: usize,
    pub read: Option<W>,
    pub write: Option<W>,
}

impl<W> IoWakerView<W> {
    /// A resource of which nothing is known yet.
    pub open spec fn fresh(token: usize) -> IoWakerView<W> {
        IoWakerView { token, readiness: 0, read: None, write: None }
    }

    /// The resource has become ready for `ready`.
    pub open spec fn readied(self, ready: usize) -> IoWakerView<W> {
        IoWakerView {
            readiness: self.readiness | ready,
            read: if readable(ready) {
                None
            } else {
                self.read
            },
            write: if writable(ready) {
                None
            } else {
                self.write
            },
            ..self
        }
    }

    /// The wakers that wait for `ready`.
    pub open spec fn woken_by(self, ready: usize) -> Wakers<W> {
        Wakers {
            read: if readable(ready) {
                self.read
            } else {
                None
            },
            write: if writable(ready) {
                self.write
            } else {
                None
            },
        }
    }

    /// What polling for read readiness returns.
    pub open spec fn read_poll(self) -> Option<usize> {
        if readable(self.readiness) {
            Some(self.readiness)
        } else {
            None
        }
    }

    /// The resource after it has been polled for read readiness.
    pub open spec fn read_polled(self, waker: W) -> IoWakerView<W> {
        if readable(self.readiness) {
            IoWakerView { readiness: self.readiness & !1usize, ..self }
        } else {
            IoWakerView { read: Some(waker), ..self }
        }
    }

    /// What polling for write readiness returns.
    pub open spec fn write_poll(self) -> Option<usize> {
        if writable(self.readiness) {
            Some(self.readiness)
        } else {
            None
        }
    }

    /// The resource after it has been polled for write readiness.
    pub open spec fn write_polled(self, waker: W) -> IoWakerView<W> {
        if writable(self.readiness) {
            IoWakerView { readiness: self.readiness & !2usize, ..self }
        } else {
            IoWakerView { write: Some(waker), ..self }
        }
    }
}

impl<W> View for IoWaker<W> {
    type V = IoWakerView<W>;

    closed spec fn view(&self) -> IoWakerView<W> {
        IoWakerView {
            token: self.token,
            readiness: self.readiness,
            read: self.read_waker,
            write: self.write_waker,
        }
    }
}

impl<W> IoWaker<W> {
    /// Nothing is known yet of the resource with this token.
    pub fn new(token: usize) -> (io_waker: IoWaker<W>)
        ensures
            io_waker@ == IoWakerView::<W>::fresh(token),
    {
        IoWaker { token, readiness: 0, read_waker: None, write_waker: None }
    }

    /// The token under which the resource is registered.
    pub fn token(&self) -> (token: usize)
        ensures
            token == self@.token,
    {
        self.token
    }

    /// Adds `ready` to what is known of the resource, and takes the wakers that
    /// wait for it; they are then to be woken.
    pub fn wake_if_ready(&mut self, ready: usize) -> (wakers: Wakers<W>)
        ensures
            final(self)@ == old(self)@.readied(ready),
            wakers == old(self)@.woken_by(ready),
    {
        self.readiness = self.readiness | ready;
        let read = if is_readable(ready) {
            self.read_waker.take()
        } else {
            None
        };
        let write = if is_writable(ready) {
            self.write_waker.take()
        } else {
            None
        };
        Wakers { read, write }
    }

    /// Registers a new reading waker, in place of the one before.
    pub fn register_read(&mut self, waker: W)
        ensures
            final(self)@ == (IoWakerView { read: Some(waker), ..old(self)@ }),
    {
        self.read_waker = Some(waker);
    }

    /// Registers a new writing waker, in place of the one before.
    pub fn register_write(&mut self, waker: W)
        ensures
            final(self)@ == (IoWakerView { write: Some(waker), ..old(self)@ }),
    {
        self.write_waker = Some(waker);
    }

    /// Clears the read readiness.
    pub fn clear_read(&mut self)
        ensures
            final(self)@ == (IoWakerView {
                readiness: old(self)@.readiness & !1usize,
                ..old(self)@
            }),
    {
        self.readiness = self.readiness & !readable_bit();
    }

    /// Clears the write readiness.
    pub fn clear_write(&mut self)
        ensures
            final(self)@ == (IoWakerView {
                readiness: old(self)@.readiness & !2usize,
                ..old(self)@
            }),
    {
        self.readiness = self.readiness & !writable_bit();
    }

    /// Polls for read readiness. If the resource is readable, returns what it
    /// is ready for and clears the read readiness; else registers the waker.
    pub fn poll_readable(&mut self, waker: W) -> (ready: Option<usize>)
        ensures
            ready == old(self)@.read_poll(),
            final(self)@ == old(self)@.read_polled(waker),
    {
        let readiness = self.readiness;
        if is_readable(readiness) {
            self.clear_read();
            Some(readiness)
        } else {
            self.register_read(waker);
            None
        }
    }

    /// Polls for write readiness. If the resource is writable, returns what it
    /// is ready for and clears the write readiness; else registers the waker.
    pub fn poll_writable(&mut self, waker: W) -> (ready: Option<usize>)
        ensures
            ready == old(self)@.write_poll(),
            final(self)@ == old(self)@.write_polled(waker),
    {
        let readiness = self.readiness;
        if is_writable(readiness) {
            self.clear_write();
            Some(readiness)
        } else {
            self.register_write(waker);
            None
        }
    }
}

/// A poll for read readiness that has to wait is woken by the next event that
/// makes the resource readable, and the poll after that succeeds.
pub proof fn law_reader_is_woken<W>(resource: IoWakerView<W>, waker: W, ready: usize)
    requires
        resource.read_poll() is None,
        readable(ready),
    ensures
        resource.read_polled(waker).woken_by(ready).read == Some(waker),
        resource.read_polled(waker).readied(ready).read_poll() == Some(resource.readiness | ready),
{
    lemma_union(resource.readiness, ready);
}

/// A poll for write readiness that has to wait is woken by the next event that
/// makes the resource writable, and the poll after that succeeds.
pub proof fn law_writer_is_woken<W>(resource: IoWakerView<W>, waker: W, ready: usize)
    requires
        resource.write_poll() is None,
        writable(ready),
    ensures
        resource.write_polled(waker).woken_by(ready).write == Some(waker),
        resource.write_polled(waker).readied(ready).write_poll() == Some(
            resource.readiness | ready,
        ),
{
    lemma_union(resource.readiness, ready);
}

/// Read readiness is reported once: after a poll that succeeds the next one has
/// to wait. What is known of write readiness is not touched.
pub proof fn law_read_readiness_is_reported_once<W>(resource: IoWakerView<W>, waker: W)
    requires
        resource.read_poll() is Some,
    ensures
        resource.read_polled(waker).read_poll() is None,
        writable(resource.read_polled(waker).readiness) == writable(resource.readiness),
{
    lemma_clear_read(resource.readiness);
}

/// Write readiness is reported once: after a poll that succeeds the next one
/// has to wait. What is known of read readiness is not touched.
pub proof fn law_write_readiness_is_reported_once<W>(resource: IoWakerView<W>, waker: W)
    requires
        resource.write_poll() is Some,
    ensures
        resource.write_polled(waker).write_poll() is None,
        readable(resource.write_polled(waker).readiness) == readable(resource.readiness),
{
    lemma_clear_write(resource.readiness);
}

/// An event wakes no waker twice: it takes those that it wakes.
pub proof fn law_waker_is_woken_once<W>(resource: IoWakerView<W>, ready: usize, again: usize)
    requires
        readable(ready),
        writable(ready),
    ensures
        resource.readied(ready).woken_by(again) == (Wakers::<W> { read: None, write: None }),
{
}

/// A resource of which nothing is known is neither readable nor writable.
pub proof fn law_fresh_resource_is_not_ready<W>(token: usize)
    ensures
        IoWakerView::<W>::fresh(token).read_poll() is None,
        IoWakerView::<W>::fresh(token).write_poll() is None,
{
    lemma_nothing();
}

/// Who waits to read goes on waiting while others poll for write readiness,
/// whether that poll succeeds or has to wait, and is woken by the same events;
/// and who waits to write goes on waiting while others poll for read readiness.
pub proof fn law_polls_do_not_disturb_each_other<W>(
    resource: IoWakerView<W>,
    waker: W,
    ready: usize,
)
    ensures
        resource.write_polled(waker).read == resource.read,
        resource.write_polled(waker).woken_by(ready).read == resource.woken_by(ready).read,
        resource.write_polled(waker).read_poll() is Some <==> resource.read_poll() is Some,
        resource.read_polled(waker).write == resource.write,
        resource.read_polled(waker).woken_by(ready).write == resource.woken_by(ready).write,
        resource.read_polled(waker).write_poll() is Some <==> resource.write_poll() is Some,
        resource.write_polled(waker).token == resource.token,
        resource.read_polled(waker).token == resource.token,
{
    lemma_clear_read(resource.readiness);
    lemma_clear_write(resource.readiness);
}

/// A poll for read readiness succeeds exactly if the resource is readable. It
/// returns all that the resource is ready for, takes the read readiness out of
/// that and nothing else, and leaves the wakers alone. One that has to wait
/// leaves its waker in place of the one before, and the readiness as it is.
pub proof fn law_read_poll<W>(resource: IoWakerView<W>, waker: W)
    ensures
        resource.read_poll() is Some <==> resource.readiness & 1 != 0,
        resource.read_poll() is Some ==> {
            &&& resource.read_poll() == Some(resource.readiness)
            &&& resource.read_polled(waker).readiness | 1 == resource.readiness
            &&& resource.read_polled(waker).readiness & 1 == 0
            &&& resource.read_polled(waker).read == resource.read
        },
        resource.read_poll() is None ==> {
            &&& resource.read_polled(waker).readiness == resource.readiness
            &&& resource.read_polled(waker).read == Some(waker)
        },
{
    let r = resource.readiness;
    assert(r & 1 != 0 <==> r & 1 == 1) by (bit_vector);
    assert(r & 1 == 1 ==> (r & !1usize) | 1 == r) by (bit_vector);
    assert((r & !1usize) & 1 == 0) by (bit_vector);
}

/// A poll for write readiness succeeds exactly if the resource is writable. It
/// returns all that the resource is ready for, takes the write readiness out of
/// that and nothing else, and leaves the wakers alone. One that has to wait
/// leaves its waker in place of the one before, and the readiness as it is.
pub proof fn law_write_poll<W>(resource: IoWakerView<W>, waker: W)
    ensures
        resource.write_poll() is Some <==> resource.readiness & 2 != 0,
        resource.write_poll() is Some ==> {
            &&& resource.write_poll() == Some(resource.readiness)
            &&& resource.write_polled(waker).readiness | 2 == resource.readiness
            &&& resource.write_polled(waker).readiness & 2 == 0
            &&& resource.write_polled(waker).write == resource.write
        },
        resource.write_poll() is None ==> {
            &&& resource.write_polled(waker).readiness == resource.readiness
            &&& resource.write_polled(waker).write == Some(waker)
        },
{
    let r = resource.readiness;
    assert(r & 2 != 0 <==> r & 2 == 2) by (bit_vector);
    assert(r & 2 == 2 ==> (r & !2usize) | 2 == r) by (bit_vector);
    assert((r & !2usize) & 2 == 0) by (bit_vector);
}

/// An event adds what it says to what is known, and takes nothing away. It wakes
/// who waits to read exactly if it says that the resource is readable, and who
/// waits to write exactly if it says that it is writable; nobody is woken by
/// both or stays waiting for what has come.
pub proof fn law_event_wakes_who_waits_for_it<W>(resource: IoWakerView<W>, ready: usize)
    ensures
        resource.readied(ready).token == resource.token,
        resource.readied(ready).readiness == resource.readiness | ready,
        ready & 1 != 0 ==> resource.woken_by(ready).read == resource.read && resource.readied(
            ready,
        ).read is None,
        ready & 1 == 0 ==> resource.woken_by(ready).read is None && resource.readied(ready).read
            == resource.read,
        ready & 2 != 0 ==> resource.woken_by(ready).write == resource.write && resource.readied(
            ready,
        ).write is None,
        ready & 2 == 0 ==> resource.woken_by(ready).write is None && resource.readied(ready).write
            == resource.write,
{
    assert(ready & 1 != 0 <==> ready & 1 == 1) by (bit_vector);
    assert(ready & 2 != 0 <==> ready & 2 == 2) by (bit_vector);
}

/// Of a new resource the token is known, and nobody waits for it.
pub proof fn law_fresh_resource_has_its_token<W>(token: usize)
    ensures
        IoWakerView::<W>::fresh(token).token == token,
        IoWakerView::<W>::fresh(token).readiness == 0,
        IoWakerView::<W>::fresh(token).read is None,
        IoWakerView::<W>::fresh(token).write is None,
{
}

} // verus!
