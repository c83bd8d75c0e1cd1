//! Iteration over the events that `read` returns from an inotify descriptor.
use vstd::prelude::*;
use vstd::slice::slice_subrange;
use crate::abi::{
    find_zero, first_zero, le_u32, lemma_first_zero_bounds, lemma_first_zero_same,
    lemma_first_zero_shift, read_u32, INOTIFY_ALIGN, INOTIFY_HEADER_SIZE,
};
use crate::errno::{Errno, EIO};

verus! {

/// The event mask of an inotify event (`IN_*` bits), every bit kept as the
/// kernel set it.
#[derive(Clone, Copy, Debug, PartialEq, Eq, Structural)]
pub struct ReadFlags(u32);

impl View for ReadFlags {
    type V = u32;

    closed spec fn view(&self) -> u32 {
        self.0
    }
}

impl ReadFlags {
    /// Takes a mask as it is, unknown bits included.
    pub fn from_bits_retain(bits: u32) -> (r: ReadFlags)
        ensures
            r@ == bits,
    {
        ReadFlags(bits)
    }

    /// Returns the raw mask.
    pub fn bits(&self) -> (r: u32)
        ensures
            r == self@,
    {
        self.0
    }

    /// Whether every bit of `other` is set in `self`.
    pub fn contains(&self, other: ReadFlags) -> (r: bool)
        ensures
            r == (self@ & other@ == other@),
    {
        self.0 & other.0 == other.0
    }
}

/// An inotify event as plain values.
pub struct InotifyEventView {
    /// The watch descriptor.
    pub wd: i32,
    /// The raw event mask.
    pub mask: u32,
    /// The cookie that ties related events together.
    pub cookie: u32,
    /// The name, without its NUL, where the event carries one.
    pub name: Option<Seq<u8>>,
}

/// The `len` field of the event at the start of `s`: the size of the name
/// field that follows the header, padding included.
pub open spec fn event_name_len(s: Seq<u8>) -> int {
    le_u32(s, 12)
}

/// The size of the event at the start of `s`.
pub open spec fn event_size(s: Seq<u8>) -> int {
    INOTIFY_HEADER_SIZE + event_name_len(s)
}

/// The index in `s` of the NUL that ends the name of the event at its start.
pub open spec fn event_name_end(s: Seq<u8>) -> int {
    first_zero(s, INOTIFY_HEADER_SIZE as int, event_size(s))
}

/// `s` starts with a whole event: a header, and a name field that fits and,
/// where it is not empty, holds a NUL.
pub open spec fn event_ok(s: Seq<u8>) -> bool {
    &&& s.len() >= INOTIFY_HEADER_SIZE
    &&& event_size(s) <= s.len()
    &&& event_name_len(s) > 0 ==> event_name_end(s) < event_size(s)
}

/// The event at the start of `s`.
pub open spec fn event_view(s: Seq<u8>) -> InotifyEventView {
    InotifyEventView {
        wd: le_u32(s, 0) as i32,
        mask: le_u32(s, 4) as u32,
        cookie: le_u32(s, 8) as u32,
        name: if event_name_len(s) == 0 {
            None
        } else {
            Some(s.subrange(INOTIFY_HEADER_SIZE as int, event_name_end(s)))
        },
    }
}

/// What is left of `s` after the event at its start.
pub open spec fn event_rest(s: Seq<u8>) -> Seq<u8> {
    s.subrange(event_size(s), s.len() as int)
}

/// The events of the whole records at the start of `s`, in order, up to the
/// end of `s` or the first bytes that are no whole event.
pub open spec fn events(s: Seq<u8>) -> Seq<InotifyEventView>
    decreases s.len(),
{
    if event_ok(s) {
        seq![event_view(s)] + events(event_rest(s))
    } else {
        Seq::empty()
    }
}

/// `s` is a sequence of whole events with nothing after the last one.
pub open spec fn event_stream_ok(s: Seq<u8>) -> bool
    decreases s.len(),
{
    if s.len() == 0 {
        true
    } else {
        event_ok(s) && event_stream_ok(event_rest(s))
    }
}

/// The event at the start of `a` reads the same at the start of `a + b`.
proof fn lemma_event_prefix(a: Seq<u8>, b: Seq<u8>)
    requires
        event_ok(a),
    ensures
        event_ok(a + b),
        event_size(a + b) == event_size(a),
        event_view(a + b) == event_view(a),
        event_rest(a + b) =~= event_rest(a) + b,
{
    let c = a + b;
    let size = event_size(a);
    assert(event_size(c) == size);
    lemma_first_zero_same(a, c, INOTIFY_HEADER_SIZE as int, size);
    lemma_first_zero_bounds(a, INOTIFY_HEADER_SIZE as int, size);
    if event_name_len(a) > 0 {
        assert(event_view(c).name.unwrap() =~= event_view(a).name.unwrap());
    }
}

/// Resumability: events that reach the reader in two reads, split at an
/// event boundary, give the events that they give in one read, in order.
pub proof fn lemma_event_fills_concatenate(a: Seq<u8>, b: Seq<u8>)
    requires
        event_stream_ok(a),
    ensures
        events(a + b) == events(a) + events(b),
        event_stream_ok(b) ==> event_stream_ok(a + b),
    decreases a.len(),
{
    if a.len() == 0 {
        assert(a + b =~= b);
        assert(events(a) =~= Seq::<InotifyEventView>::empty());
        assert(events(a) + events(b) =~= events(b));
    } else {
        lemma_event_prefix(a, b);
        let rest = event_rest(a);
        lemma_event_fills_concatenate(rest, b);
        assert(event_rest(a + b) == rest + b);
        assert(events(a + b) == seq![event_view(a)] + events(rest + b));
        assert(events(a + b) =~= events(a) + events(b));
    }
}

/// The bytes of a run of fills, one after another.
pub open spec fn event_fill_bytes(fills: Seq<Seq<u8>>) -> Seq<u8>
    decreases fills.len(),
{
    if fills.len() == 0 {
        Seq::empty()
    } else {
        fills[0] + event_fill_bytes(fills.drop_first())
    }
}

/// The events that a run of fills gives, fill by fill.
pub open spec fn event_fill_events(fills: Seq<Seq<u8>>) -> Seq<InotifyEventView>
    decreases fills.len(),
{
    if fills.len() == 0 {
        Seq::empty()
    } else {
        events(fills[0]) + event_fill_events(fills.drop_first())
    }
}

/// A run of reads, each of whole events, gives the events of all its bytes
/// taken as one stream.
pub proof fn lemma_event_fills_flatten(fills: Seq<Seq<u8>>)
    requires
        forall|i: int| 0 <= i < fills.len() ==> event_stream_ok(#[trigger] fills[i]),
    ensures
        event_stream_ok(event_fill_bytes(fills)),
        event_fill_events(fills) == events(event_fill_bytes(fills)),
    decreases fills.len(),
{
    if fills.len() == 0 {
        assert(events(Seq::<u8>::empty()) =~= Seq::<InotifyEventView>::empty());
    } else {
        let rest = fills.drop_first();
        assert forall|i: int| 0 <= i < rest.len() implies event_stream_ok(#[trigger] rest[i]) by {
            assert(rest[i] == fills[i + 1]);
        }
        lemma_event_fills_flatten(rest);
        lemma_event_fills_concatenate(fills[0], event_fill_bytes(rest));
    }
}

/// Resumability over whole runs: two runs over the same event stream, whose
/// reads split it at different event boundaries (as buffers of different
/// sizes do), give the same events in the same order.
pub proof fn lemma_event_runs_agree(f: Seq<Seq<u8>>, g: Seq<Seq<u8>>)
    requires
        forall|i: int| 0 <= i < f.len() ==> event_stream_ok(#[trigger] f[i]),
        forall|i: int| 0 <= i < g.len() ==> event_stream_ok(#[trigger] g[i]),
        event_fill_bytes(f) == event_fill_bytes(g),
    ensures
        event_fill_events(f) == event_fill_events(g),
{
    lemma_event_fills_flatten(f);
    lemma_event_fills_flatten(g);
}

/// The offset of the first address at or after `addr` that is a multiple of
/// `align`.
pub open spec fn align_offset(addr: int, align: int) -> int {
    (align - addr % align) % align
}

/// An inotify event, decoded from one record.
#[derive(Debug)]
pub struct InotifyEvent {
    wd: i32,
    events: ReadFlags,
    cookie: u32,
    file_name: Option<Vec<u8>>,
}

impl View for InotifyEvent {
    type V = InotifyEventView;

    closed spec fn view(&self) -> InotifyEventView {
        InotifyEventView {
            wd: self.wd,
            mask: self.events@,
            cookie: self.cookie,
            name: match self.file_name {
                Some(v) => Some(v@),
                None => None,
            },
        }
    }
}

impl InotifyEvent {
    /// Returns the watch for which this event occurs.
    pub fn wd(&self) -> (r: i32)
        ensures
            r == self@.wd,
    {
        self.wd
    }

    /// Returns the events that occurred.
    pub fn events(&self) -> (r: ReadFlags)
        ensures
            r@ == self@.mask,
    {
        self.events
    }

    /// Returns the cookie that ties related events together.
    pub fn cookie(&self) -> (r: u32)
        ensures
            r == self@.cookie,
    {
        self.cookie
    }

    /// Returns the file name of this event, without its NUL, if any.
    pub fn file_name(&self) -> (r: Option<&[u8]>)
        ensures
            r.is_some() == self@.name.is_some(),
            r.is_some() ==> r.unwrap()@ == self@.name.unwrap(),
    {
        match &self.file_name {
            Some(v) => Some(v.as_slice()),
            None => None,
        }
    }
}

/// The state of an event reader as plain values.
pub struct ReaderView {
    /// The buffer that the reader holds; empty while it is out for a read.
    pub buffer: Seq<u8>,
    /// Where the aligned part of the buffer, the one that reads fill, starts.
    pub start: nat,
    /// How many bytes from `start` on the last read wrote.
    pub valid_len: nat,
    /// How many of those the events handed out so far took up.
    pub offset: nat,
}

impl ReaderView {
    /// The valid bytes that no event handed out has taken up yet.
    pub open spec fn unread(self) -> Seq<u8> {
        self.buffer.subrange(self.start + self.offset as int, self.start + self.valid_len as int)
    }
}

/// What an event reader asks of its caller next.
#[derive(Debug)]
pub enum EventAction {
    /// The next event.
    Event(InotifyEvent),
    /// All valid bytes are used up: `read` from the inotify descriptor into
    /// this buffer, from [`Reader::start`] on, and hand it back to
    /// [`Reader::read_done`].
    Read(Vec<u8>),
    /// The read failed or returned no bytes, or the bytes did not decode.
    Fail(Errno),
}

/// One decoding step from the state `pre`, whose unread bytes are not empty:
/// the event at the start of the unread bytes is handed out and consumed,
/// or, where there is no whole event, the step fails with `EIO` and drops the
/// rest of the buffer.
pub open spec fn event_decode_step(pre: ReaderView, act: EventAction, post: ReaderView) -> bool {
    let rest = pre.unread();
    &&& post.buffer == pre.buffer
    &&& post.start == pre.start
    &&& post.valid_len == pre.valid_len
    &&& if event_ok(rest) {
        &&& act is Event
        &&& act->Event_0@ == event_view(rest)
        &&& post.offset == pre.offset + event_size(rest)
    } else {
        &&& act == EventAction::Fail(Errno(EIO))
        &&& post.offset == pre.valid_len
    }
}

/// No over-read: two reader states that agree on their cursors and on the
/// valid bytes have the same unread bytes, whatever their buffers hold
/// outside them. Each decoding step is stated over the unread bytes alone.
pub proof fn lemma_valid_bytes_decide(p: ReaderView, q: ReaderView)
    requires
        p.start == q.start,
        p.offset == q.offset,
        p.valid_len == q.valid_len,
        p.offset <= p.valid_len,
        p.start + p.valid_len <= p.buffer.len(),
        q.start + q.valid_len <= q.buffer.len(),
        p.buffer.subrange(p.start as int, p.start + p.valid_len as int) == q.buffer.subrange(
            q.start as int,
            q.start + q.valid_len as int,
        ),
    ensures
        p.unread() == q.unread(),
{
    let a = p.start as int;
    let b = p.start + p.valid_len as int;
    assert forall|i: int| a + p.offset <= i < b implies p.buffer[i] == q.buffer[i] by {
        assert(p.buffer.subrange(a, b)[i - a] == q.buffer.subrange(a, b)[i - a]);
    }
    assert(p.unread() =~= q.unread());
}

/// Each decoding step hands out the first pending event, and what stays
/// pending is the rest; a step that fails leaves nothing pending.
pub proof fn lemma_event_step_takes_first(pre: ReaderView, act: EventAction, post: ReaderView)
    requires
        pre.offset < pre.valid_len,
        pre.start + pre.valid_len <= pre.buffer.len(),
        event_decode_step(pre, act, post),
    ensures
        event_ok(pre.unread()) ==> events(pre.unread()) == seq![act->Event_0@] + events(
            post.unread(),
        ),
        !event_ok(pre.unread()) ==> events(pre.unread()).len() == 0 && events(post.unread()).len()
            == 0,
{
    let rest = pre.unread();
    if event_ok(rest) {
        assert(post.unread() =~= event_rest(rest));
    } else {
        assert(post.unread() =~= Seq::<u8>::empty());
        assert(!event_ok(post.unread()));
    }
}

/// The two cursors of a reader, which a successful read moves together.
struct Cursors {
    valid: usize,
    offset: usize,
}

/// An inotify event reader over a caller's buffer.
///
/// Reads fill the buffer from its first address that is aligned for
/// `struct inotify_event`; the bytes before it are never used.
pub struct Reader<Fd> {
    fd: Fd,
    buf: Vec<u8>,
    start: usize,
    cursors: Cursors,
}

impl<Fd> View for Reader<Fd> {
    type V = ReaderView;

    closed spec fn view(&self) -> ReaderView {
        ReaderView {
            buffer: self.buf@,
            start: self.start as nat,
            valid_len: self.cursors.valid as nat,
            offset: self.cursors.offset as nat,
        }
    }
}

impl<Fd> Reader<Fd> {
    #[verifier::type_invariant]
    spec fn cursors_in_order(&self) -> bool {
        &&& self.cursors.offset <= self.cursors.valid
        &&& self.cursors.offset < self.cursors.valid ==> self.start + self.cursors.valid
            <= self.buf.len()
    }

    /// The inotify descriptor that the reader reads.
    pub closed spec fn handle(&self) -> Fd {
        self.fd
    }

    /// Creates a reader over `buf`, whose first byte sits at the address
    /// `base_addr`, for the inotify descriptor `fd`. The usable part of the
    /// buffer starts at the first address aligned for `struct inotify_event`;
    /// where there is none inside the buffer, no byte is usable.
    pub fn new(fd: Fd, buf: Vec<u8>, base_addr: usize) -> (r: Self)
        ensures
            r.handle() == fd,
            r@.buffer == buf@,
            r@.start == if align_offset(base_addr as int, INOTIFY_ALIGN as int) < buf@.len() {
                align_offset(base_addr as int, INOTIFY_ALIGN as int)
            } else {
                buf@.len() as int
            },
            r@.start < buf@.len() ==> (base_addr + r@.start) % (INOTIFY_ALIGN as int) == 0,
            r@.valid_len == 0,
            r@.offset == 0,
    {
        let misalign = base_addr % INOTIFY_ALIGN;
        let adjust = if misalign == 0 {
            0
        } else {
            INOTIFY_ALIGN - misalign
        };
        let len = buf.len();
        let start = if adjust < len {
            adjust
        } else {
            len
        };
        Reader { fd, buf, start, cursors: Cursors { valid: 0, offset: 0 } }
    }

    /// Returns the inotify descriptor.
    pub fn fd(&self) -> (r: &Fd)
        ensures
            *r == self.handle(),
    {
        &self.fd
    }

    /// Returns where reads fill the buffer from.
    pub fn start(&self) -> (r: usize)
        ensures
            r == self@.start,
    {
        self.start
    }

    /// Whether every valid byte is used up, so that the next call of
    /// [`Reader::next_action`] asks for a read, which may block.
    pub fn is_buffer_empty(&self) -> (r: bool)
        ensures
            r == (self@.offset >= self@.valid_len),
    {
        self.cursors.offset >= self.cursors.valid
    }

    /// Decides what comes next. Where unread valid bytes remain, the event
    /// at `offset` is decoded. Otherwise the buffer is handed out for a read;
    /// the cursors stay as they are until a read returns bytes.
    pub fn next_action(&mut self) -> (act: EventAction)
        ensures
            final(self).handle() == old(self).handle(),
            final(self)@.start == old(self)@.start,
            final(self)@.offset <= final(self)@.valid_len,
            final(self)@.offset < final(self)@.valid_len ==> final(self)@.start
                + final(self)@.valid_len <= final(self)@.buffer.len(),
            old(self)@.offset < old(self)@.valid_len ==> event_decode_step(
                old(self)@,
                act,
                final(self)@,
            ),
            old(self)@.offset >= old(self)@.valid_len ==> {
                &&& act is Read
                &&& act->Read_0@ == old(self)@.buffer
                &&& final(self)@.buffer == Seq::<u8>::empty()
                &&& final(self)@.valid_len == old(self)@.valid_len
                &&& final(self)@.offset == old(self)@.offset
            },
    {
        proof {
            use_type_invariant(&*self);
        }
        let act = if self.cursors.offset < self.cursors.valid {
            self.decode_next()
        } else {
            let mut out: Vec<u8> = Vec::new();
            std::mem::swap(&mut out, &mut self.buf);
            EventAction::Read(out)
        };
        proof {
            use_type_invariant(&*self);
        }
        act
    }

    /// Takes back the buffer of an [`EventAction::Read`] with the outcome of
    /// the `read` call that filled it: the number of bytes it wrote from
    /// [`Reader::start`] on, or its error. A read of no bytes is an error,
    /// `EIO`, apart from the `EINVAL` that a buffer too small for one event
    /// gets: an inotify descriptor does not reach an end. On either error the
    /// cursors stay as they were. Otherwise the cursors go back to the start
    /// of the new bytes and the first new event is decoded at once.
    pub fn read_done(&mut self, buf: Vec<u8>, filled: Result<usize, Errno>) -> (act: EventAction)
        requires
            old(self)@.offset >= old(self)@.valid_len,
            match filled {
                Ok(n) => old(self)@.start + n <= buf@.len(),
                Err(_) => true,
            },
        ensures
            final(self).handle() == old(self).handle(),
            final(self)@.start == old(self)@.start,
            final(self)@.offset <= final(self)@.valid_len,
            final(self)@.offset < final(self)@.valid_len ==> final(self)@.start
                + final(self)@.valid_len <= final(self)@.buffer.len(),
            match filled {
                Ok(n) => if n == 0 {
                    &&& act == EventAction::Fail(Errno(EIO))
                    &&& final(self)@.buffer == buf@
                    &&& final(self)@.valid_len == old(self)@.valid_len
                    &&& final(self)@.offset == old(self)@.offset
                } else {
                    event_decode_step(
                        ReaderView {
                            buffer: buf@,
                            start: old(self)@.start,
                            valid_len: n as nat,
                            offset: 0,
                        },
                        act,
                        final(self)@,
                    )
                },
                Err(e) => {
                    &&& act == EventAction::Fail(e)
                    &&& final(self)@.buffer == buf@
                    &&& final(self)@.valid_len == old(self)@.valid_len
                    &&& final(self)@.offset == old(self)@.offset
                },
            },
    {
        proof {
            use_type_invariant(&*self);
        }
        self.buf = buf;
        let act = match filled {
            Ok(n) => {
                if n == 0 {
                    EventAction::Fail(Errno(EIO))
                } else {
                    self.cursors = Cursors { valid: n, offset: 0 };
                    self.decode_next()
                }
            },
            Err(e) => EventAction::Fail(e),
        };
        proof {
            use_type_invariant(&*self);
        }
        act
    }

    /// Decodes the event at `offset`, reading no byte at or past `valid_len`.
    fn decode_next(&mut self) -> (act: EventAction)
        requires
            old(self)@.offset < old(self)@.valid_len,
        ensures
            event_decode_step(old(self)@, act, final(self)@),
            final(self).handle() == old(self).handle(),
    {
        proof {
            use_type_invariant(&*self);
        }
        let pos = self.cursors.offset;
        let end = self.cursors.valid;
        let valid = slice_subrange(self.buf.as_slice(), self.start, self.start + end);
        let ghost rest = self@.unread();
        proof {
            assert(rest =~= valid@.subrange(pos as int, end as int));
        }
        let avail = end - pos;
        if avail < INOTIFY_HEADER_SIZE {
            self.cursors.offset = end;
            return EventAction::Fail(Errno(EIO));
        }
        let name_len = read_u32(valid, pos + 12) as usize;
        assert(name_len == event_name_len(rest));
        if name_len > avail - INOTIFY_HEADER_SIZE {
            self.cursors.offset = end;
            return EventAction::Fail(Errno(EIO));
        }
        let size = INOTIFY_HEADER_SIZE + name_len;
        let name_start = pos + INOTIFY_HEADER_SIZE;
        let file_name = if name_len == 0 {
            None
        } else {
            let nul = find_zero(valid, name_start, pos + size);
            proof {
                lemma_first_zero_bounds(valid@, name_start as int, (pos + size) as int);
                lemma_first_zero_shift(valid@, pos as int, name_start as int, (pos + size) as int);
            }
            if nul >= pos + size {
                self.cursors.offset = end;
                return EventAction::Fail(Errno(EIO));
            }
            let mut name: Vec<u8> = Vec::new();
            let mut k: usize = name_start;
            while k < nul
                invariant
                    name_start <= k <= nul <= valid@.len(),
                    name@ =~= valid@.subrange(name_start as int, k as int),
                decreases nul - k,
            {
                name.push(valid[k]);
                k = k + 1;
            }
            proof {
                assert(name@ =~= event_view(rest).name.unwrap());
            }
            Some(name)
        };
        let wd = read_u32(valid, pos);
        let mask = read_u32(valid, pos + 4);
        let cookie = read_u32(valid, pos + 8);
        let event = InotifyEvent {
            wd: #[verifier::truncate] (wd as i32),
            events: ReadFlags(mask),
            cookie,
            file_name,
        };
        self.cursors.offset = pos + size;
        EventAction::Event(event)
    }
}

} // verus!
