//! A fixed-capacity heap buffer for secret line input, wiped on drop.

use crate::input::read_into;
use vstd::prelude::*;
use vstd::string::StringSliceAdditionalSpecFns;
use vstd::utf8::valid_utf8;

verus! {

/// Capacity of a [`Password`] buffer in bytes, the terminating zero byte
/// included.
pub const PASSWORD_BUFFER_LEN: usize = 512;

/// The bytes of a [`Password`] buffer that input may fill.
pub const PASSWORD_DATA_LEN: usize = 511;

/// The newline byte.
pub const NEWLINE: u8 = 10;

/// `k` is the position of the first zero byte of `b`.
pub open spec fn is_first_nul(b: Seq<u8>, k: int) -> bool {
    &&& 0 <= k < b.len()
    &&& b[k] == 0
    &&& forall|i: int| 0 <= i < k ==> b[i] != 0
}

/// The secret held in the buffer `b`: its bytes before the first zero byte.
pub open spec fn secret(b: Seq<u8>) -> Seq<u8> {
    b.take(choose|k: int| is_first_nul(b, k))
}

/// A zero byte has only one first position.
pub proof fn lemma_first_nul_unique(b: Seq<u8>, k: int)
    requires
        is_first_nul(b, k),
    ensures
        secret(b) == b.take(k),
{
    let j = choose|j: int| is_first_nul(b, j);
    assert(is_first_nul(b, j));
    if j < k {
        assert(b[j] != 0);
    }
    if k < j {
        assert(b[k] != 0);
    }
}

/// A zero byte at `p` puts the first zero byte of `b` at or before `p`.
pub proof fn lemma_first_nul_exists(b: Seq<u8>, p: int)
    requires
        0 <= p < b.len(),
        b[p] == 0,
    ensures
        exists|k: int| k <= p && #[trigger] is_first_nul(b, k),
    decreases p,
{
    if exists|i: int| 0 <= i < p && b[i] == 0 {
        let i = choose|i: int| 0 <= i < p && b[i] == 0;
        lemma_first_nul_exists(b, i);
    } else {
        assert(is_first_nul(b, p));
    }
}

/// `b` holds no newline byte.
pub open spec fn no_newline(b: Seq<u8>) -> bool {
    forall|i: int| 0 <= i < b.len() ==> b[i] != NEWLINE
}

/// A buffer with a zero byte at `p` and no newline before it holds a secret
/// without a newline.
pub proof fn lemma_secret_has_no_newline(b: Seq<u8>, p: int)
    requires
        0 <= p < b.len(),
        b[p] == 0,
        no_newline(b.take(p)),
    ensures
        no_newline(secret(b)),
        secret(b).len() <= p,
{
    lemma_first_nul_exists(b, p);
    let k = choose|k: int| k <= p && #[trigger] is_first_nul(b, k);
    lemma_first_nul_unique(b, k);
    assert forall|i: int| 0 <= i < secret(b).len() implies secret(b)[i] != NEWLINE by {
        assert(b.take(p)[i] == b[i]);
    }
}

/// A buffer of the full size whose last byte is zero.
pub open spec fn well_terminated(b: Seq<u8>) -> bool {
    b.len() == PASSWORD_BUFFER_LEN && b[PASSWORD_BUFFER_LEN - 1] == 0
}

/// The line read into `new` (from the buffer `old`) ends with the zero byte
/// at `p`: no newline comes before it, it lies among the bytes input may
/// fill, and every byte after it is as it was.
pub open spec fn line_ends_at(old: Seq<u8>, new: Seq<u8>, p: int) -> bool {
    &&& 0 <= p < PASSWORD_DATA_LEN
    &&& new[p] == 0
    &&& no_newline(new.take(p))
    &&& new.subrange(p + 1, PASSWORD_BUFFER_LEN as int) == old.subrange(
        p + 1,
        PASSWORD_BUFFER_LEN as int,
    )
}

/// Two stretches without a newline, one after the other, make one.
pub proof fn lemma_no_newline_extends(b: Seq<u8>, filled: int, end: int)
    requires
        0 <= filled <= end <= b.len(),
        no_newline(b.take(filled)),
        no_newline(b.subrange(filled, end)),
    ensures
        no_newline(b.take(end)),
{
    assert forall|i: int| 0 <= i < end implies b.take(end)[i] != NEWLINE by {
        if i < filled {
            assert(b.take(filled)[i] == b[i]);
        } else {
            assert(b.subrange(filled, end)[i - filled] == b[i]);
        }
    }
}

/// Why a line could not be read.
#[derive(Debug)]
pub enum ReadLineError {
    /// The source failed.
    Io(std::io::Error),
    /// The buffer filled up before a newline arrived.
    InvalidData,
}

/// What the bytes of one read did to the line being read.
#[derive(Debug, Clone, Copy, PartialEq, Eq, Structural)]
pub enum LineProgress {
    /// The line is complete and terminated.
    Done,
    /// The line goes on; this many bytes are filled.
    More(usize),
    /// The buffer is full and holds no newline.
    Full,
}

/// `std::str::Utf8Error`, handed on unchanged.
#[verifier::external_type_specification]
#[verifier::external_body]
pub struct ExUtf8Error(std::str::Utf8Error);

/// Relies on `std::str::from_utf8`: `Ok` exactly when the bytes are valid
/// UTF-8, holding the same bytes as a string slice.
#[verifier::external_body]
fn str_from_utf8(b: &[u8]) -> (r: Result<&str, std::str::Utf8Error>)
    ensures
        r is Ok <==> valid_utf8(b@),
        r matches Ok(s) ==> s.spec_bytes() == b@,
{
    std::str::from_utf8(b)
}

/// Relies on `std::sync::atomic::compiler_fence`: the compiler does not move
/// memory accesses across it.
#[verifier::external_body]
fn compiler_fence_seq_cst()
    opens_invariants none
    no_unwind
{
    std::sync::atomic::compiler_fence(std::sync::atomic::Ordering::SeqCst)
}

/// Relies on `std::sync::atomic::fence`: a sequentially consistent memory
/// fence.
#[verifier::external_body]
fn fence_seq_cst()
    opens_invariants none
    no_unwind
{
    std::sync::atomic::fence(std::sync::atomic::Ordering::SeqCst)
}

/// The bytes input may fill, and the terminating zero byte after them. The
/// terminator is a field of its own so that the rest can be lent out
/// mutably while the terminator stays zero.
struct Storage {
    data: [u8; PASSWORD_DATA_LEN],
    nul: u8,
}

/// An owned buffer on the heap, never reallocated, for a secret such as a
/// password. It holds a zero-terminated byte string; on drop every byte is
/// overwritten with zero.
pub struct Password {
    buf: Box<Storage>,
}

impl View for Password {
    type V = Seq<u8>;

    closed spec fn view(&self) -> Seq<u8> {
        self.buf.data@.push(self.buf.nul)
    }
}

impl Password {
    #[verifier::type_invariant]
    spec fn terminated(self) -> bool {
        self.buf.nul == 0
    }

    /// An empty buffer: all bytes zero.
    pub fn new() -> (p: Self)
        ensures
            p@ == Seq::new(PASSWORD_BUFFER_LEN as nat, |i: int| 0u8),
            secret(p@) == Seq::<u8>::empty(),
    {
        let p = Password { buf: Box::new(Storage { data: [0u8; PASSWORD_DATA_LEN], nul: 0 }) };
        assert(p@ =~= Seq::new(PASSWORD_BUFFER_LEN as nat, |i: int| 0u8));
        proof {
            assert(is_first_nul(p@, 0));
            lemma_first_nul_unique(p@, 0);
            assert(p@.take(0) =~= Seq::<u8>::empty());
        }
        p
    }

    /// Overwrites every byte of the buffer with zero.
    pub fn wipe(&mut self)
        ensures
            final(self)@ == Seq::new(PASSWORD_BUFFER_LEN as nat, |i: int| 0u8),
        opens_invariants none
        no_unwind
    {
        proof {
            use_type_invariant(&*self);
        }
        let mut i: usize = 0;
        while i < PASSWORD_DATA_LEN
            invariant
                i <= PASSWORD_DATA_LEN,
                self.buf.nul == 0,
                forall|j: int| 0 <= j < i ==> self.buf.data[j] == 0,
            decreases PASSWORD_DATA_LEN - i,
        {
            self.buf.data[i] = 0;
            i = i + 1;
        }
        assert(self@ =~= Seq::new(PASSWORD_BUFFER_LEN as nat, |i: int| 0u8));
    }

    /// Takes the `n` bytes that one read put into the buffer after the
    /// `filled` bytes of the line read so far. No bytes (the source is
    /// exhausted) end the line: a zero byte is written after what was read.
    /// Otherwise the first newline among the new bytes ends the line and is
    /// overwritten with a zero byte; without one, the line goes on unless
    /// the buffer is full.
    pub fn accept_chunk(&mut self, filled: usize, n: usize) -> (r: LineProgress)
        requires
            filled + n <= PASSWORD_DATA_LEN,
        ensures
            well_terminated(final(self)@),
            n == 0 ==> r == LineProgress::Done && final(self)@ == old(self)@.update(filled as int, 0),
            n > 0 && no_newline(old(self)@.subrange(filled as int, filled + n)) ==> {
                &&& final(self)@ == old(self)@
                &&& r == if filled + n == PASSWORD_DATA_LEN {
                    LineProgress::Full
                } else {
                    LineProgress::More((filled + n) as usize)
                }
            },
            n > 0 && !no_newline(old(self)@.subrange(filled as int, filled + n)) ==> {
                &&& r == LineProgress::Done
                &&& exists|p: int|
                    {
                        &&& filled <= p < filled + n
                        &&& old(self)@[p] == NEWLINE
                        &&& no_newline(old(self)@.subrange(filled as int, p))
                        &&& final(self)@ == old(self)@.update(p, 0)
                    }
            },
    {
        proof {
            use_type_invariant(&*self);
        }
        if n == 0 {
            if filled < PASSWORD_DATA_LEN {
                self.buf.data[filled] = 0;
            }
            assert(self@ =~= old(self)@.update(filled as int, 0));
            return LineProgress::Done;
        }
        let end = filled + n;
        let mut p = filled;
        while p < end
            invariant
                filled <= p <= end,
                end == filled + n,
                n > 0,
                end <= PASSWORD_DATA_LEN,
                self@ == old(self)@,
                self.buf.nul == 0,
                no_newline(old(self)@.subrange(filled as int, p as int)),
            decreases end - p,
        {
            if self.buf.data[p] == NEWLINE {
                self.buf.data[p] = 0;
                assert(self@ =~= old(self)@.update(p as int, 0));
                assert(old(self)@.subrange(filled as int, end as int)[p - filled] == NEWLINE);
                return LineProgress::Done;
            }
            assert(old(self)@.subrange(filled as int, p + 1) =~= old(self)@.subrange(
                filled as int,
                p as int,
            ).push(old(self)@[p as int]));
            p = p + 1;
        }
        if end == PASSWORD_DATA_LEN {
            LineProgress::Full
        } else {
            LineProgress::More(end)
        }
    }

    /// Reads one line from `src` into the buffer, one byte per read, until
    /// a newline arrives or the source is exhausted. Each read is handed
    /// the one next byte of the buffer, so nothing after the newline is
    /// taken from the source. The newline is overwritten with a zero byte
    /// (at the end of input a zero byte is written after what was read);
    /// the buffer after that byte is left as it was. Input that fills all
    /// the bytes input may fill without a newline is refused with
    /// `InvalidData`.
    pub fn read_line<R: std::io::Read>(&mut self, src: &mut R) -> (r: Result<(), ReadLineError>)
        ensures
            well_terminated(final(self)@),
            r is Ok ==> exists|p: int| #[trigger] line_ends_at(old(self)@, final(self)@, p),
            r is Ok ==> secret(final(self)@).len() < PASSWORD_DATA_LEN && no_newline(
                secret(final(self)@),
            ),
            r matches Err(ReadLineError::InvalidData) ==> no_newline(
                final(self)@.take(PASSWORD_DATA_LEN as int),
            ),
    {
        proof {
            use_type_invariant(&*self);
        }
        let mut filled: usize = 0;
        assert(no_newline(self@.take(0)));
        loop
            invariant
                filled < PASSWORD_DATA_LEN,
                well_terminated(self@),
                no_newline(self@.take(filled as int)),
                self@.subrange(filled as int, PASSWORD_BUFFER_LEN as int) == old(self)@.subrange(
                    filled as int,
                    PASSWORD_BUFFER_LEN as int,
                ),
            decreases PASSWORD_DATA_LEN - filled,
        {
            let ghost before = self@;
            let res = {
                let buf: &mut [u8] = &mut self.buf.data;
                let (_, rest) = buf.split_at_mut(filled);
                let (window, _) = rest.split_at_mut(1);
                read_into(src, window)
            };
            proof {
                use_type_invariant(&*self);
                assert forall|j: int| 0 <= j < PASSWORD_BUFFER_LEN && j != filled implies self@[j]
                    == before[j] by {
                    if j < filled {
                        assert(self.buf.data@.subrange(0, filled as int)[j] == self@[j]);
                    }
                }
            }
            let n = match res {
                Ok(n) => n,
                Err(e) => {
                    return Err(ReadLineError::Io(e));
                },
            };
            let ghost read = self@;
            proof {
                assert(read.take(filled as int) =~= before.take(filled as int));
                assert(read.subrange(filled + 1, PASSWORD_BUFFER_LEN as int) =~= old(self)@.subrange(
                    filled + 1,
                    PASSWORD_BUFFER_LEN as int,
                )) by {
                    assert forall|j: int| filled + 1 <= j < PASSWORD_BUFFER_LEN implies read[j]
                        == old(self)@[j] by {
                        assert(before.subrange(filled as int, PASSWORD_BUFFER_LEN as int)[j
                            - filled] == before[j]);
                        assert(old(self)@.subrange(filled as int, PASSWORD_BUFFER_LEN as int)[j
                            - filled] == old(self)@[j]);
                    }
                }
            }
            let step = self.accept_chunk(filled, n);
            match step {
                LineProgress::Done => {
                    proof {
                        if n == 1 {
                            assert(read.subrange(filled as int, filled + 1)[0] == read[filled as int]);
                        }
                        assert(self@ == read.update(filled as int, 0));
                        assert(self@.take(filled as int) =~= read.take(filled as int));
                        assert(self@.subrange(filled + 1, PASSWORD_BUFFER_LEN as int) =~= read.subrange(
                            filled + 1,
                            PASSWORD_BUFFER_LEN as int,
                        ));
                        assert(line_ends_at(old(self)@, self@, filled as int));
                        lemma_secret_has_no_newline(self@, filled as int);
                    }
                    return Ok(());
                },
                LineProgress::Full => {
                    proof {
                        lemma_no_newline_extends(read, filled as int, filled + n);
                        assert(self@.take(PASSWORD_DATA_LEN as int) =~= read.take(filled + n));
                    }
                    return Err(ReadLineError::InvalidData);
                },
                LineProgress::More(m) => {
                    proof {
                        lemma_no_newline_extends(read, filled as int, filled + n);
                    }
                    filled = m;
                },
            }
        }
    }

    /// The secret: the bytes before the first zero byte.
    pub fn as_bytes(&self) -> (r: &[u8])
        ensures
            r@ == secret(self@),
            well_terminated(self@),
    {
        let k = self.secret_len();
        proof {
            assert(self@.take(k as int) =~= self.buf.data@.subrange(0, k as int));
        }
        vstd::slice::slice_subrange(self.buf.data.as_slice(), 0, k)
    }

    /// The secret followed by its terminating zero byte, when that byte lies
    /// among the bytes input may fill (as after every successful
    /// `read_line`); `None` when all of those are non-zero.
    pub fn as_bytes_with_nul(&self) -> (r: Option<&[u8]>)
        ensures
            r is Some <==> secret(self@).len() < PASSWORD_DATA_LEN,
            r matches Some(b) ==> b@ == secret(self@).push(0),
    {
        let k = self.secret_len();
        if k < PASSWORD_DATA_LEN {
            proof {
                assert(self@.take(k as int).push(0) =~= self.buf.data@.subrange(0, k + 1));
            }
            Some(vstd::slice::slice_subrange(self.buf.data.as_slice(), 0, k + 1))
        } else {
            None
        }
    }

    /// The position of the first zero byte: the length of the secret.
    fn secret_len(&self) -> (k: usize)
        ensures
            is_first_nul(self@, k as int),
            secret(self@) == self@.take(k as int),
            well_terminated(self@),
    {
        proof {
            use_type_invariant(self);
        }
        let mut k: usize = 0;
        while k < PASSWORD_DATA_LEN && self.buf.data[k] != 0
            invariant
                k <= PASSWORD_DATA_LEN,
                forall|i: int| 0 <= i < k ==> self.buf.data[i] != 0,
            decreases PASSWORD_DATA_LEN - k,
        {
            k = k + 1;
        }
        proof {
            assert(is_first_nul(self@, k as int));
            lemma_first_nul_unique(self@, k as int);
        }
        k
    }

    /// The secret as a string slice, when it is valid UTF-8.
    pub fn as_str(&self) -> (r: Result<&str, std::str::Utf8Error>)
        ensures
            r is Ok <==> valid_utf8(secret(self@)),
            r matches Ok(s) ==> s.spec_bytes() == secret(self@),
    {
        str_from_utf8(self.as_bytes())
    }

    /// The bytes that input may fill: all but the last, which stays zero,
    /// so the buffer is always terminated.
    pub fn as_mut_slice(&mut self) -> (r: &mut [u8])
        ensures
            r@ == old(self)@.take(PASSWORD_DATA_LEN as int),
            final(self)@ == final(r)@.push(0),
            well_terminated(final(self)@),
    {
        proof {
            use_type_invariant(&*self);
        }
        let r: &mut [u8] = &mut self.buf.data;
        assert(r@ =~= old(self)@.take(PASSWORD_DATA_LEN as int));
        r
    }
}

impl Drop for Password {
    /// Wipes the buffer, then fences so that the zeroing is neither
    /// optimized away nor reordered past the deallocation.
    fn drop(&mut self)
        ensures
            final(self)@ == Seq::new(PASSWORD_BUFFER_LEN as nat, |i: int| 0u8),
        opens_invariants none
        no_unwind
    {
        self.wipe();
        compiler_fence_seq_cst();
        fence_seq_cst();
    }
}

} // verus!
