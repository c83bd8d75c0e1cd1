//! Iteration over the records that `getdents64` writes into a buffer.
use vstd::prelude::*;
use vstd::slice::slice_subrange;
use crate::abi::{
    find_zero, first_zero, le_u16, le_u64, lemma_first_zero_bounds, lemma_first_zero_same,
    lemma_first_zero_shift, read_u16, read_u64, DIRENT_NAME_OFFSET,
    DIRENT_OFF_OFFSET, DIRENT_RECLEN_OFFSET, DIRENT_TYPE_OFFSET,
};
use crate::errno::{Errno, EIO};
use crate::file_type::{d_type_kind, FileType};

verus! {

/// A directory entry as plain values.
pub struct DirEntryView {
    /// The name, without its terminating NUL.
    pub name: Seq<u8>,
    /// The raw `d_type`.
    pub file_type: u8,
    /// The inode number.
    pub ino: u64,
    /// The seek cookie of the entry that follows.
    pub next_entry_cookie: i64,
}

/// `d_reclen` of the record at the start of `s`: its length, padding included.
pub open spec fn dirent_reclen(s: Seq<u8>) -> int {
    le_u16(s, DIRENT_RECLEN_OFFSET as int)
}

/// The index in `s` of the NUL that ends the name of the record at its
/// start: the first NUL from `d_name` on, within the stated length. A name
/// holds no NUL, so whatever the padding after it holds does not matter.
pub open spec fn dirent_name_end(s: Seq<u8>) -> int {
    first_zero(s, DIRENT_NAME_OFFSET as int, dirent_reclen(s))
}

/// `s` starts with a whole record: a header, and a NUL within the stated
/// length where the search for it runs.
pub open spec fn dirent_ok(s: Seq<u8>) -> bool {
    &&& s.len() >= DIRENT_NAME_OFFSET
    &&& DIRENT_NAME_OFFSET < dirent_reclen(s) <= s.len()
    &&& dirent_name_end(s) < dirent_reclen(s)
}

/// The entry that the record at the start of `s` describes.
pub open spec fn dirent_view(s: Seq<u8>) -> DirEntryView {
    DirEntryView {
        name: s.subrange(DIRENT_NAME_OFFSET as int, dirent_name_end(s)),
        file_type: s[DIRENT_TYPE_OFFSET as int],
        ino: le_u64(s, 0) as u64,
        next_entry_cookie: le_u64(s, DIRENT_OFF_OFFSET as int) as i64,
    }
}

/// What is left of `s` after the record at its start.
pub open spec fn dirent_rest(s: Seq<u8>) -> Seq<u8> {
    s.subrange(dirent_reclen(s), s.len() as int)
}

/// The entries of the whole records at the start of `s`, in order, up to the
/// end of `s` or the first bytes that are no whole record.
pub open spec fn dirents(s: Seq<u8>) -> Seq<DirEntryView>
    decreases s.len(),
{
    if dirent_ok(s) {
        seq![dirent_view(s)] + dirents(dirent_rest(s))
    } else {
        Seq::empty()
    }
}

/// `s` is a sequence of whole records with nothing after the last one, as a
/// successful `getdents64` call leaves its buffer.
pub open spec fn dirent_stream_ok(s: Seq<u8>) -> bool
    decreases s.len(),
{
    if s.len() == 0 {
        true
    } else {
        dirent_ok(s) && dirent_stream_ok(dirent_rest(s))
    }
}

/// A directory entry, decoded from one record.
///
/// Unlike `std::fs::DirEntry`, this may be the `.` or `..` entry.
#[derive(Debug)]
pub struct RawDirEntry {
    file_name: Vec<u8>,
    file_type: u8,
    inode_number: u64,
    next_entry_cookie: i64,
}

impl View for RawDirEntry {
    type V = DirEntryView;

    closed spec fn view(&self) -> DirEntryView {
        DirEntryView {
            name: self.file_name@,
            file_type: self.file_type,
            ino: self.inode_number,
            next_entry_cookie: self.next_entry_cookie,
        }
    }
}

impl RawDirEntry {
    /// Returns the file name of this entry, without its NUL.
    pub fn file_name(&self) -> (r: &[u8])
        ensures
            r@ == self@.name,
    {
        self.file_name.as_slice()
    }

    /// Returns the type of this entry.
    pub fn file_type(&self) -> (r: FileType)
        ensures
            r == d_type_kind(self@.file_type),
    {
        FileType::from_dirent_d_type(self.file_type)
    }

    /// Returns the inode number of this entry.
    pub fn ino(&self) -> (r: u64)
        ensures
            r == self@.ino,
    {
        self.inode_number
    }

    /// Returns the seek cookie of the next directory entry.
    pub fn next_entry_cookie(&self) -> (r: i64)
        ensures
            r == self@.next_entry_cookie,
    {
        self.next_entry_cookie
    }
}

/// The state of a directory decoder as plain values.
pub struct RawDirView {
    /// The buffer that the decoder holds; empty while it is out for a refill.
    pub buffer: Seq<u8>,
    /// How many bytes at the start of the buffer the last refill wrote.
    pub valid_len: nat,
    /// How many of those the entries handed out so far took up.
    pub offset: nat,
}

impl RawDirView {
    /// The valid bytes that no entry handed out has taken up yet.
    pub open spec fn unread(self) -> Seq<u8> {
        self.buffer.subrange(self.offset as int, self.valid_len as int)
    }

    /// The entries still to come from the bytes at hand.
    pub open spec fn pending(self) -> Seq<DirEntryView> {
        dirents(self.unread())
    }
}

/// What a directory decoder asks of its caller next.
#[derive(Debug)]
pub enum DirAction {
    /// The next entry of the directory.
    Entry(RawDirEntry),
    /// All valid bytes are used up: fill this buffer from the directory with
    /// `getdents64` and hand it back to [`RawDir::refill_done`].
    Refill(Vec<u8>),
    /// The directory has no more entries.
    End,
    /// The refill failed, or the kernel's bytes did not decode.
    Fail(Errno),
}

/// One decoding step from the state `pre`, whose unread bytes are not empty:
/// the record at the start of the unread bytes gives an entry and is
/// consumed, or, where there is no whole record, the step fails with `EIO`
/// and drops the rest of the buffer.
pub open spec fn dir_decode_step(pre: RawDirView, act: DirAction, post: RawDirView) -> bool {
    let rest = pre.unread();
    &&& post.buffer == pre.buffer
    &&& post.valid_len == pre.valid_len
    &&& if dirent_ok(rest) {
        &&& act is Entry
        &&& act->Entry_0@ == dirent_view(rest)
        &&& post.offset == pre.offset + dirent_reclen(rest)
    } else {
        &&& act == DirAction::Fail(Errno(EIO))
        &&& post.offset == pre.valid_len
    }
}

/// A directory iterator over a caller's buffer, filled by `getdents64`.
///
/// The buffer does not grow. Where an entry does not fit, the refill fails
/// with `EINVAL`: drop the decoder, take a larger buffer and make a new
/// decoder on the same directory handle, which goes on where the old one
/// stopped, since the kernel keeps the position in the directory.
pub struct RawDir<Fd> {
    fd: Fd,
    buf: Vec<u8>,
    initialized: usize,
    offset: usize,
}

impl<Fd> View for RawDir<Fd> {
    type V = RawDirView;

    closed spec fn view(&self) -> RawDirView {
        RawDirView {
            buffer: self.buf@,
            valid_len: self.initialized as nat,
            offset: self.offset as nat,
        }
    }
}

impl<Fd> RawDir<Fd> {
    #[verifier::type_invariant]
    spec fn cursors_in_order(&self) -> bool {
        self.offset <= self.initialized <= self.buf.len()
    }

    /// The directory handle that the decoder reads.
    pub closed spec fn handle(&self) -> Fd {
        self.fd
    }

    /// Creates a decoder over `buf` for the directory `fd`. No bytes of the
    /// buffer are valid yet.
    pub fn new(fd: Fd, buf: Vec<u8>) -> (r: Self)
        ensures
            r.handle() == fd,
            r@ == (RawDirView { buffer: buf@, valid_len: 0, offset: 0 }),
    {
        RawDir { fd, buf, initialized: 0, offset: 0 }
    }

    /// Returns the directory handle.
    pub fn fd(&self) -> (r: &Fd)
        ensures
            *r == self.handle(),
    {
        &self.fd
    }

    /// Decides what comes next. Where unread valid bytes remain, the record
    /// at `offset` is decoded. Otherwise both cursors go back to zero and the
    /// buffer is handed out for a refill; the entries decoded from it so far
    /// must be dropped before it is refilled.
    pub fn next_action(&mut self) -> (act: DirAction)
        ensures
            final(self).handle() == old(self).handle(),
            final(self)@.offset <= final(self)@.valid_len <= final(self)@.buffer.len(),
            old(self)@.offset < old(self)@.valid_len ==> dir_decode_step(
                old(self)@,
                act,
                final(self)@,
            ),
            old(self)@.offset >= old(self)@.valid_len ==> {
                &&& act is Refill
                &&& act->Refill_0@ == old(self)@.buffer
                &&& final(self)@ == (RawDirView { buffer: Seq::empty(), valid_len: 0, offset: 0 })
            },
    {
        proof {
            use_type_invariant(&*self);
        }
        let act = if self.offset < self.initialized {
            self.decode_next()
        } else {
            self.offset = 0;
            self.initialized = 0;
            let mut out: Vec<u8> = Vec::new();
            std::mem::swap(&mut out, &mut self.buf);
            DirAction::Refill(out)
        };
        proof {
            use_type_invariant(&*self);
        }
        act
    }

    /// Takes back the buffer of a [`DirAction::Refill`] with the outcome of
    /// the `getdents64` call that filled it: the number of bytes it wrote at
    /// the start of the buffer, or its error. No bytes mean the end of the
    /// directory; otherwise the first new record is decoded at once.
    pub fn refill_done(&mut self, buf: Vec<u8>, filled: Result<usize, Errno>) -> (act: DirAction)
        requires
            match filled {
                Ok(n) => n <= buf@.len(),
                Err(_) => true,
            },
        ensures
            final(self).handle() == old(self).handle(),
            final(self)@.offset <= final(self)@.valid_len <= final(self)@.buffer.len(),
            match filled {
                Ok(n) => if n == 0 {
                    &&& act == DirAction::End
                    &&& final(self)@ == (RawDirView { buffer: buf@, valid_len: 0, offset: 0 })
                } else {
                    dir_decode_step(
                        RawDirView { buffer: buf@, valid_len: n as nat, offset: 0 },
                        act,
                        final(self)@,
                    )
                },
                Err(e) => {
                    &&& act == DirAction::Fail(e)
                    &&& final(self)@ == (RawDirView { buffer: buf@, valid_len: 0, offset: 0 })
                },
            },
    {
        proof {
            use_type_invariant(&*self);
        }
        self.offset = 0;
        self.initialized = 0;
        self.buf = buf;
        let act = match filled {
            Ok(n) => {
                if n == 0 {
                    DirAction::End
                } else {
                    self.initialized = n;
                    self.decode_next()
                }
            },
            Err(e) => DirAction::Fail(e),
        };
        proof {
            use_type_invariant(&*self);
        }
        act
    }

    /// Decodes the record at `offset`, reading no byte at or past `valid_len`.
    fn decode_next(&mut self) -> (act: DirAction)
        requires
            old(self)@.offset < old(self)@.valid_len,
        ensures
            dir_decode_step(old(self)@, act, final(self)@),
            final(self).handle() == old(self).handle(),
    {
        proof {
            use_type_invariant(&*self);
        }
        let start = self.offset;
        let end = self.initialized;
        let valid = slice_subrange(self.buf.as_slice(), 0, end);
        let ghost rest = self@.unread();
        let avail = end - start;
        if avail < DIRENT_NAME_OFFSET {
            self.offset = end;
            return DirAction::Fail(Errno(EIO));
        }
        let reclen = read_u16(valid, start + DIRENT_RECLEN_OFFSET) as usize;
        assert(reclen == dirent_reclen(rest));
        if reclen <= DIRENT_NAME_OFFSET || reclen > avail {
            self.offset = end;
            return DirAction::Fail(Errno(EIO));
        }
        let from = start + DIRENT_NAME_OFFSET;
        let nul = find_zero(valid, from, start + reclen);
        proof {
            lemma_first_zero_bounds(valid@, from as int, (start + reclen) as int);
            lemma_first_zero_shift(valid@, start as int, from as int, (start + reclen) as int);
            assert(rest =~= valid@.subrange(start as int, end as int));
        }
        if nul >= start + reclen {
            self.offset = end;
            return DirAction::Fail(Errno(EIO));
        }
        let name_start = start + DIRENT_NAME_OFFSET;
        let mut file_name: Vec<u8> = Vec::new();
        let mut k: usize = name_start;
        while k < nul
            invariant
                name_start <= k <= nul <= valid@.len(),
                file_name@ =~= valid@.subrange(name_start as int, k as int),
            decreases nul - k,
        {
            file_name.push(valid[k]);
            k = k + 1;
        }
        let ino = read_u64(valid, start);
        let off = read_u64(valid, start + DIRENT_OFF_OFFSET);
        let d_type = valid[start + DIRENT_TYPE_OFFSET];
        let entry = RawDirEntry {
            file_name,
            file_type: d_type,
            inode_number: ino,
            next_entry_cookie: #[verifier::truncate] (off as i64),
        };
        proof {
            assert(entry@.name =~= dirent_view(rest).name);
        }
        self.offset = start + reclen;
        DirAction::Entry(entry)
    }
}

/// The record at the start of `a` reads the same at the start of `a + b`.
proof fn lemma_dirent_prefix(a: Seq<u8>, b: Seq<u8>)
    requires
        dirent_ok(a),
    ensures
        dirent_ok(a + b),
        dirent_reclen(a + b) == dirent_reclen(a),
        dirent_view(a + b) == dirent_view(a),
        dirent_rest(a + b) =~= dirent_rest(a) + b,
{
    let c = a + b;
    let reclen = dirent_reclen(a);
    assert(dirent_reclen(c) == reclen);
    lemma_first_zero_same(
        a,
        c,
        DIRENT_NAME_OFFSET as int,
        reclen,
    );
    lemma_first_zero_bounds(a, DIRENT_NAME_OFFSET as int, reclen);
    assert(dirent_name_end(c) == dirent_name_end(a));
    assert(dirent_view(c).name =~= dirent_view(a).name);
}

/// Resumability: records that reach the decoder in two fills, split at a
/// record boundary, give the entries that they give in one fill. Whole
/// records in the first fill give their entries, and the entries of the
/// second fill follow, in order.
pub proof fn lemma_fills_concatenate(a: Seq<u8>, b: Seq<u8>)
    requires
        dirent_stream_ok(a),
    ensures
        dirents(a + b) == dirents(a) + dirents(b),
        dirent_stream_ok(b) ==> dirent_stream_ok(a + b),
    decreases a.len(),
{
    if a.len() == 0 {
        assert(a + b =~= b);
        assert(dirents(a) =~= Seq::<DirEntryView>::empty());
        assert(dirents(a) + dirents(b) =~= dirents(b));
    } else {
        lemma_dirent_prefix(a, b);
        let rest = dirent_rest(a);
        lemma_fills_concatenate(rest, b);
        assert(dirent_rest(a + b) == rest + b);
        assert(dirents(a + b) == seq![dirent_view(a)] + dirents(rest + b));
        assert(dirents(a + b) =~= dirents(a) + dirents(b));
    }
}

/// The bytes of a run of fills, one after another.
pub open spec fn dirent_fill_bytes(fills: Seq<Seq<u8>>) -> Seq<u8>
    decreases fills.len(),
{
    if fills.len() == 0 {
        Seq::empty()
    } else {
        fills[0] + dirent_fill_bytes(fills.drop_first())
    }
}

/// The entries that a run of fills gives, fill by fill.
pub open spec fn dirent_fill_entries(fills: Seq<Seq<u8>>) -> Seq<DirEntryView>
    decreases fills.len(),
{
    if fills.len() == 0 {
        Seq::empty()
    } else {
        dirents(fills[0]) + dirent_fill_entries(fills.drop_first())
    }
}

/// A run of fills, each of whole records, gives the entries of all its
/// bytes taken as one stream.
pub proof fn lemma_fills_flatten(fills: Seq<Seq<u8>>)
    requires
        forall|i: int| 0 <= i < fills.len() ==> dirent_stream_ok(#[trigger] fills[i]),
    ensures
        dirent_stream_ok(dirent_fill_bytes(fills)),
        dirent_fill_entries(fills) == dirents(dirent_fill_bytes(fills)),
    decreases fills.len(),
{
    if fills.len() == 0 {
        assert(dirents(Seq::<u8>::empty()) =~= Seq::<DirEntryView>::empty());
    } else {
        let rest = fills.drop_first();
        assert forall|i: int| 0 <= i < rest.len() implies dirent_stream_ok(#[trigger] rest[i]) by {
            assert(rest[i] == fills[i + 1]);
        }
        lemma_fills_flatten(rest);
        lemma_fills_concatenate(fills[0], dirent_fill_bytes(rest));
    }
}

/// Resumability over whole runs: two runs over the same directory stream,
/// whose fills split it at different record boundaries (as buffers of
/// different sizes do), give the same entries in the same order.
pub proof fn lemma_runs_agree(f: Seq<Seq<u8>>, g: Seq<Seq<u8>>)
    requires
        forall|i: int| 0 <= i < f.len() ==> dirent_stream_ok(#[trigger] f[i]),
        forall|i: int| 0 <= i < g.len() ==> dirent_stream_ok(#[trigger] g[i]),
        dirent_fill_bytes(f) == dirent_fill_bytes(g),
    ensures
        dirent_fill_entries(f) == dirent_fill_entries(g),
{
    lemma_fills_flatten(f);
    lemma_fills_flatten(g);
}

/// Each decoding step hands out the first pending entry, and what stays
/// pending is the rest; a step that fails leaves nothing pending.
pub proof fn lemma_step_takes_first(pre: RawDirView, act: DirAction, post: RawDirView)
    requires
        pre.offset < pre.valid_len <= pre.buffer.len(),
        dir_decode_step(pre, act, post),
    ensures
        dirent_ok(pre.unread()) ==> pre.pending() == seq![act->Entry_0@] + post.pending(),
        !dirent_ok(pre.unread()) ==> pre.pending().len() == 0 && post.pending().len() == 0,
{
    let rest = pre.unread();
    if dirent_ok(rest) {
        assert(post.unread() =~= dirent_rest(rest));
    } else {
        assert(post.unread() =~= Seq::<u8>::empty());
        assert(!dirent_ok(post.unread()));
    }
}

/// No over-read: two decoder states that agree on their cursors and on the
/// valid bytes have the same unread bytes and the same pending entries,
/// whatever their buffers hold at or past `valid_len`. Each decoding step is
/// stated over the unread bytes alone.
pub proof fn lemma_valid_bytes_decide(p: RawDirView, q: RawDirView)
    requires
        p.offset == q.offset,
        p.valid_len == q.valid_len,
        p.offset <= p.valid_len <= p.buffer.len(),
        q.valid_len <= q.buffer.len(),
        p.buffer.subrange(0, p.valid_len as int) == q.buffer.subrange(0, q.valid_len as int),
    ensures
        p.unread() == q.unread(),
        p.pending() == q.pending(),
{
    let v = p.valid_len as int;
    assert forall|i: int| p.offset <= i < v implies p.buffer[i] == q.buffer[i] by {
        assert(p.buffer.subrange(0, v)[i] == q.buffer.subrange(0, v)[i]);
    }
    assert(p.unread() =~= q.unread());
}

/// Name extraction: for a record made of a header, a name of `L` bytes with
/// no NUL in it, its NUL and any number of padding bytes of any value,
/// whose `d_reclen` counts all of these, the decoded name is
/// exactly the `L` bytes, and the next record starts right after the padding.
pub proof fn lemma_name_extraction(header: Seq<u8>, name: Seq<u8>, pad: Seq<u8>, next: Seq<u8>)
    requires
        header.len() == DIRENT_NAME_OFFSET,
        forall|i: int| 0 <= i < name.len() ==> name[i] != 0,
        le_u16(header, DIRENT_RECLEN_OFFSET as int) == DIRENT_NAME_OFFSET + name.len() + 1
            + pad.len(),
    ensures
        dirent_ok(header + name + seq![0u8] + pad + next),
        dirent_view(header + name + seq![0u8] + pad + next).name == name,
        dirent_rest(header + name + seq![0u8] + pad + next) == next,
{
    let s = header + name + seq![0u8] + pad + next;
    let reclen = dirent_reclen(s);
    assert(reclen == le_u16(header, DIRENT_RECLEN_OFFSET as int));
    let from = DIRENT_NAME_OFFSET as int;
    let nul = DIRENT_NAME_OFFSET + name.len();
    assert(from <= nul);
    assert(s[nul] == 0);
    assert forall|j: int| from <= j < nul implies s[j] != 0 by {
        assert(s[j] == name[j - DIRENT_NAME_OFFSET]);
    }
    lemma_first_zero_bounds(s, from, reclen);
    let z = first_zero(s, from, reclen);
    if z < nul {
        assert(s[z] != 0);
    }
    if z > nul {
        assert(s[nul] != 0);
    }
    assert(z == nul);
    assert(dirent_view(s).name =~= name);
    assert(dirent_rest(s) =~= next);
}

} // verus!
