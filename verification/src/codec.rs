//! Wire codec: canonical big-endian encoding of fixed-width integers and
//! length-prefixed sequences, over abstract byte sinks and sources.

use crate::errors::NetworkError;
use crate::text::{dec_u128, spec_dec};
use vstd::arithmetic::div_mod::{lemma_fundamental_div_mod, lemma_multiply_divide_lt};
use vstd::layout::size_of;
use vstd::prelude::*;
use vstd::string::StringExecFns;

verus! {

/// The most bytes a single wire message may occupy; the sequence decoder
/// rejects any length claim whose storage would exceed this before it
/// allocates or reads anything.
pub const MAX_MESSAGE_LEN: u32 = 1 + 16 * 1024 * 1024;

/// 256^w: the number of values representable in w bytes.
pub open spec fn bound256(w: nat) -> nat
    decreases w,
{
    if w == 0 {
        1
    } else {
        256 * bound256((w - 1) as nat)
    }
}

/// Big-endian bytes of `x`, `w` bytes wide (the low byte written last).
/// Only the low `w` bytes of `x` are represented.
pub open spec fn be_enc(x: nat, w: nat) -> Seq<u8>
    decreases w,
{
    if w == 0 {
        Seq::empty()
    } else {
        be_enc(x / 256, (w - 1) as nat).push((x % 256) as u8)
    }
}

/// The value of a big-endian byte string.
pub open spec fn be_dec(s: Seq<u8>) -> nat
    decreases s.len(),
{
    if s.len() == 0 {
        0
    } else {
        (be_dec(s.drop_last()) * 256 + s.last()) as nat
    }
}

pub proof fn lemma_be_enc_len(x: nat, w: nat)
    ensures
        be_enc(x, w).len() == w,
    decreases w,
{
    if w > 0 {
        lemma_be_enc_len(x / 256, (w - 1) as nat);
    }
}

pub proof fn lemma_be_dec_bound(s: Seq<u8>)
    ensures
        be_dec(s) < bound256(s.len()),
    decreases s.len(),
{
    if s.len() > 0 {
        lemma_be_dec_bound(s.drop_last());
    }
}

/// Decoding inverts encoding for every value that fits in the width.
pub proof fn lemma_be_round_trip(x: nat, w: nat)
    requires
        x < bound256(w),
    ensures
        be_dec(be_enc(x, w)) == x,
    decreases w,
{
    if w == 0 {
    } else {
        lemma_multiply_divide_lt(x as int, bound256((w - 1) as nat) as int, 256);
        lemma_be_round_trip(x / 256, (w - 1) as nat);
        let enc = be_enc(x / 256, (w - 1) as nat);
        assert(enc.push((x % 256) as u8).drop_last() == enc);
        lemma_fundamental_div_mod(x as int, 256);
    }
}

/// The encoding is injective on values that fit in the width: two distinct
/// values never share a byte representation, so peers cannot disagree on
/// what a byte string means.
pub proof fn lemma_be_enc_injective(x: nat, y: nat, w: nat)
    requires
        x < bound256(w),
        y < bound256(w),
        be_enc(x, w) == be_enc(y, w),
    ensures
        x == y,
{
    lemma_be_round_trip(x, w);
    lemma_be_round_trip(y, w);
}

/// Appending one byte to a big-endian string shifts its value up by one place.
pub proof fn lemma_be_dec_push(s: Seq<u8>, b: u8)
    ensures
        be_dec(s.push(b)) == be_dec(s) * 256 + b,
{
    assert(s.push(b).drop_last() == s);
    assert(s.push(b).last() == b);
}

/// Big-endian bytes of `x`, `w` bytes wide.
pub fn be_encode(x: u64, w: usize) -> (r: Vec<u8>)
    requires
        w <= 8,
    ensures
        r@ == be_enc(x as nat, w as nat),
        r.len() == w,
    decreases w,
{
    proof {
        lemma_be_enc_len(x as nat, w as nat);
    }
    if w == 0 {
        Vec::new()
    } else {
        let mut r = be_encode(x / 256, w - 1);
        r.push((x % 256) as u8);
        r
    }
}

pub proof fn lemma_bound256_le(v: nat, w: nat)
    requires
        v <= w,
    ensures
        bound256(v) <= bound256(w),
    decreases w,
{
    if v < w {
        lemma_bound256_le(v, (w - 1) as nat);
    }
}

/// The value of a big-endian byte string of at most 8 bytes.
pub fn be_decode(buf: &Vec<u8>) -> (x: u64)
    requires
        buf.len() <= 8,
    ensures
        x as nat == be_dec(buf@),
{
    let mut acc: u64 = 0;
    let mut i: usize = 0;
    proof {
        assert(buf@.take(0) =~= Seq::<u8>::empty());
    }
    while i < buf.len()
        invariant
            i <= buf.len() <= 8,
            acc as nat == be_dec(buf@.take(i as int)),
        decreases buf.len() - i,
    {
        proof {
            lemma_be_dec_bound(buf@.take(i as int));
            lemma_bound256_le(i as nat, 7);
            reveal_with_fuel(bound256, 9);
            assert(bound256(7) == 0x100000000000000);
            assert(buf@.take(i as int + 1) =~= buf@.take(i as int).push(buf@[i as int]));
            lemma_be_dec_push(buf@.take(i as int), buf@[i as int]);
        }
        acc = acc * 256 + (buf[i] as u64);
        i = i + 1;
    }
    proof {
        assert(buf@.take(buf.len() as int) =~= buf@);
    }
    acc
}

/// A destination that accepts bytes: a growing buffer, or (outside this
/// crate) a socket or file. `sunk()` is everything accepted so far; a sink
/// with `never_fails()` — such as an in-memory buffer — cannot reject a
/// write, which is what makes encoding into memory infallible.
pub trait ByteSink {
    spec fn sunk(&self) -> Seq<u8>;

    spec fn never_fails(&self) -> bool;

    fn sink_write(&mut self, buf: &Vec<u8>) -> (r: Result<(), NetworkError>)
        ensures
            final(self).never_fails() == old(self).never_fails(),
            r is Ok ==> final(self).sunk() == old(self).sunk() + buf@,
            old(self).never_fails() ==> r is Ok,
            r matches Err(e) ==> e is WriteError,
    ;
}

impl ByteSink for Vec<u8> {
    open spec fn sunk(&self) -> Seq<u8> {
        self@
    }

    open spec fn never_fails(&self) -> bool {
        true
    }

    fn sink_write(&mut self, buf: &Vec<u8>) -> (r: Result<(), NetworkError>) {
        let mut i: usize = 0;
        while i < buf.len()
            invariant
                i <= buf.len(),
                self@ == old(self)@ + buf@.take(i as int),
            decreases buf.len() - i,
        {
            self.push(buf[i]);
            proof {
                assert(buf@.take(i as int).push(buf@[i as int]) =~= buf@.take(i as int + 1));
            }
            i = i + 1;
        }
        proof {
            assert(buf@.take(buf.len() as int) =~= buf@);
        }
        Ok(())
    }
}

/// An origin that yields bytes. `stream()` is the whole byte stream the
/// source will ever yield from its start and `taken()` is how much of it has
/// been consumed; a `reliable()` source — such as an in-memory buffer —
/// fails exactly when fewer bytes remain than were asked for.
pub trait ByteSource {
    spec fn stream(&self) -> Seq<u8>;

    spec fn taken(&self) -> nat;

    spec fn reliable(&self) -> bool;

    /// A source never consumes more than its stream holds.
    proof fn lemma_stream_bounds(&self)
        ensures
            self.taken() <= self.stream().len(),
    ;

    fn source_read(&mut self, n: usize) -> (r: Result<Vec<u8>, NetworkError>)
        ensures
            final(self).stream() == old(self).stream(),
            final(self).reliable() == old(self).reliable(),
            r matches Ok(buf) ==> {
                &&& old(self).taken() + n <= old(self).stream().len()
                &&& buf@ == old(self).stream().subrange(
                    old(self).taken() as int,
                    old(self).taken() + n,
                )
                &&& buf@.len() == n
                &&& final(self).taken() == old(self).taken() + n
            },
            r matches Err(e) ==> {
                &&& final(self).taken() == old(self).taken()
                &&& (e is ReadError || e is UnderflowError)
            },
            old(self).reliable() ==> (r is Ok <==> old(self).taken() + n <= old(
                self,
            ).stream().len()),
    ;
}

/// An in-memory byte source over a fixed buffer; the reliable source the
/// decoder's exactness guarantees are stated against.
pub struct MemSource {
    data: Vec<u8>,
    pos: usize,
}

impl MemSource {
    #[verifier::type_invariant]
    spec fn wf(self) -> bool {
        self.pos <= self.data.len()
    }
}

impl MemSource {
    /// Begin reading from the front of `data`.
    pub fn new(data: Vec<u8>) -> (r: MemSource)
        ensures
            r.stream() == data@,
            r.taken() == 0,
            r.reliable(),
    {
        MemSource { data, pos: 0 }
    }

    /// How many bytes have been consumed so far.
    pub fn position(&self) -> (r: usize)
        ensures
            r == self.taken(),
    {
        proof {
            use_type_invariant(self);
        }
        self.pos
    }
}

impl ByteSource for MemSource {
    closed spec fn stream(&self) -> Seq<u8> {
        self.data@
    }

    closed spec fn taken(&self) -> nat {
        if self.pos <= self.data.len() {
            self.pos as nat
        } else {
            self.data@.len()
        }
    }

    closed spec fn reliable(&self) -> bool {
        true
    }

    proof fn lemma_stream_bounds(&self) {
    }

    fn source_read(&mut self, n: usize) -> (r: Result<Vec<u8>, NetworkError>) {
        proof {
            use_type_invariant(&*self);
        }
        if n > self.data.len() || self.pos > self.data.len() - n {
            proof {
                reveal_strlit("not enough bytes remain in the message");
            }
            return Err(
                NetworkError::UnderflowError("not enough bytes remain in the message".to_owned()),
            );
        }
        let mut buf: Vec<u8> = Vec::new();
        let mut i: usize = 0;
        while i < n
            invariant
                i <= n,
                self.pos + n <= self.data.len(),
                buf@ == self.data@.subrange(self.pos as int, self.pos + i),
                self == old(self),
            decreases n - i,
        {
            buf.push(self.data[self.pos + i]);
            proof {
                assert(self.data@.subrange(self.pos as int, self.pos + i).push(
                    self.data@[self.pos + i],
                ) =~= self.data@.subrange(self.pos as int, self.pos + i + 1));
            }
            i = i + 1;
        }
        self.pos = self.pos + n;
        Ok(buf)
    }
}

/// The wire-representation contract: a canonical byte encoding shared by all
/// network participants, with a decoder that is exact about what it accepts.
///
/// `encoding()` is the mathematical byte string of a value;
/// `decodes_to(s, v, n)` says the front of the byte string `s` decodes to
/// exactly `v` consuming `n` bytes, and `decode_fails(s)` says no value can
/// be decoded from it. The three proof obligations tie them together: a
/// decode result is unique, a decodable string is not also a failing one,
/// and every encoding decodes back to the value it came from — which is the
/// round-trip and no-ambiguity guarantee consensus requires.
pub trait StacksMessageCodec: Sized {
    spec fn encoding(&self) -> Seq<u8>;

    spec fn wf_wire(&self) -> bool;

    spec fn decodes_to(s: Seq<u8>, v: Self, n: nat) -> bool;

    spec fn decode_fails(s: Seq<u8>) -> bool;

    /// Whether decoding this type can fail only by running short of bytes:
    /// such a type never rejects input as malformed, so its decode errors
    /// are read- or underflow-class, never deserialize-class.
    spec fn decode_never_rejects() -> bool;

    /// Decoding consumes a determined number of bytes: two decodes of the
    /// same string never consume different amounts.
    proof fn lemma_decodes_deterministic(s: Seq<u8>, v1: Self, n1: nat, v2: Self, n2: nat)
        requires
            Self::decodes_to(s, v1, n1),
            Self::decodes_to(s, v2, n2),
        ensures
            n1 == n2,
    ;

    /// A decodable string is not also a failing one, and decoding consumes
    /// no more bytes than exist.
    proof fn lemma_decodes_bounded(s: Seq<u8>, v: Self, n: nat)
        requires
            Self::decodes_to(s, v, n),
        ensures
            !Self::decode_fails(s),
            n <= s.len(),
    ;

    /// Round trip: the encoding of any wire-well-formed value decodes back
    /// to exactly that value, whatever follows it in the stream.
    proof fn lemma_encoding_decodes(v: Self, rest: Seq<u8>)
        requires
            v.wf_wire(),
        ensures
            Self::decodes_to(v.encoding() + rest, v, v.encoding().len()),
    ;

    /// serialize implementors _should never_ error unless there is an
    /// underlying failure in writing to the `fd`: into a sink that never
    /// fails, serialization is guaranteed to succeed.
    fn consensus_serialize<W: ByteSink>(&self, fd: &mut W) -> (r: Result<(), NetworkError>)
        ensures
            final(fd).never_fails() == old(fd).never_fails(),
            r is Ok ==> final(fd).sunk() == old(fd).sunk() + self.encoding(),
            old(fd).never_fails() ==> r is Ok,
            r matches Err(e) ==> e is WriteError,
    ;

    fn consensus_deserialize<R: ByteSource>(fd: &mut R) -> (r: Result<Self, NetworkError>)
        ensures
            final(fd).stream() == old(fd).stream(),
            final(fd).reliable() == old(fd).reliable(),
            final(fd).taken() >= old(fd).taken(),
            r matches Ok(v) ==> Self::decodes_to(
                old(fd).stream().skip(old(fd).taken() as int),
                v,
                (final(fd).taken() - old(fd).taken()) as nat,
            ),
            r matches Err(e) ==> (e is ReadError || e is UnderflowError || e is DeserializeError),
            Self::decode_never_rejects() ==> (r matches Err(e) ==> (e is ReadError || e
                is UnderflowError)),
            old(fd).reliable() ==> (r is Err <==> Self::decode_fails(
                old(fd).stream().skip(old(fd).taken() as int),
            )),
    ;

    /// Convenience for serialization to a vec: an in-memory sink never
    /// fails, so this operation is infallible by construction.
    fn serialize_to_vec(&self) -> (r: Vec<u8>)
        ensures
            r@ == self.encoding(),
    {
        let mut bytes: Vec<u8> = Vec::new();
        match self.consensus_serialize(&mut bytes) {
            Ok(()) => bytes,
            Err(_) => {
                proof {
                    assert(false);
                }
                vstd::pervasive::unreached()
            },
        }
    }
}

/// Writes the `w`-byte big-endian form of `x` to the sink.
fn serialize_uint<W: ByteSink>(x: u64, w: usize, fd: &mut W) -> (r: Result<(), NetworkError>)
    requires
        1 <= w <= 8,
    ensures
        final(fd).never_fails() == old(fd).never_fails(),
        r is Ok ==> final(fd).sunk() == old(fd).sunk() + be_enc(x as nat, w as nat),
        old(fd).never_fails() ==> r is Ok,
        r matches Err(e) ==> e is WriteError,
{
    let buf = be_encode(x, w);
    fd.sink_write(&buf)
}

/// Reads `w` bytes from the source and returns their big-endian value.
fn deserialize_uint<R: ByteSource>(fd: &mut R, w: usize) -> (r: Result<u64, NetworkError>)
    requires
        1 <= w <= 8,
    ensures
        final(fd).stream() == old(fd).stream(),
        final(fd).reliable() == old(fd).reliable(),
        r matches Ok(x) ==> {
            &&& old(fd).taken() + w <= old(fd).stream().len()
            &&& x as nat == be_dec(
                old(fd).stream().subrange(old(fd).taken() as int, old(fd).taken() + w),
            )
            &&& x < bound256(w as nat)
            &&& final(fd).taken() == old(fd).taken() + w
        },
        r matches Err(e) ==> {
            &&& final(fd).taken() == old(fd).taken()
            &&& (e is ReadError || e is UnderflowError)
        },
        old(fd).reliable() ==> (r is Ok <==> old(fd).taken() + w <= old(fd).stream().len()),
{
    match fd.source_read(w) {
        Ok(buf) => {
            let x = be_decode(&buf);
            proof {
                lemma_be_dec_bound(buf@);
            }
            Ok(x)
        },
        Err(e) => Err(e),
    }
}

impl StacksMessageCodec for u8 {
    open spec fn encoding(&self) -> Seq<u8> {
        be_enc(*self as nat, 1)
    }

    open spec fn wf_wire(&self) -> bool {
        true
    }

    open spec fn decodes_to(s: Seq<u8>, v: Self, n: nat) -> bool {
        s.len() >= 1 && n == 1 && v as nat == be_dec(s.take(1))
    }

    open spec fn decode_fails(s: Seq<u8>) -> bool {
        s.len() < 1
    }

    open spec fn decode_never_rejects() -> bool {
        true
    }

    proof fn lemma_decodes_deterministic(s: Seq<u8>, v1: Self, n1: nat, v2: Self, n2: nat) {
    }

    proof fn lemma_decodes_bounded(s: Seq<u8>, v: Self, n: nat) {
    }

    proof fn lemma_encoding_decodes(v: Self, rest: Seq<u8>) {
        lemma_be_enc_len(v as nat, 1);
        assert((v.encoding() + rest).take(1) =~= v.encoding());
        reveal_with_fuel(bound256, 2);
        lemma_be_round_trip(v as nat, 1);
    }

    fn consensus_serialize<W: ByteSink>(&self, fd: &mut W) -> (r: Result<(), NetworkError>) {
        serialize_uint(*self as u64, 1, fd)
    }

    fn consensus_deserialize<R: ByteSource>(fd: &mut R) -> (r: Result<Self, NetworkError>) {
        let ghost s0 = fd.stream().skip(fd.taken() as int);
        match deserialize_uint(fd, 1) {
            Ok(x) => {
                proof {
                    reveal_with_fuel(bound256, 2);
                    assert(s0.take(1) =~= old(fd).stream().subrange(
                        old(fd).taken() as int,
                        old(fd).taken() as int + 1,
                    ));
                }
                Ok(x as u8)
            },
            Err(e) => {
                proof {
                    fd.lemma_stream_bounds();
                    assert(s0.len() == old(fd).stream().len() - old(fd).taken());
                }
                Err(e)
            },
        }
    }
}

/// The two's-complement reading of a signed 8-byte value as an unsigned one.
pub open spec fn i64_as_u64(x: i64) -> nat {
    if x >= 0 {
        x as nat
    } else {
        (x + 0x10000000000000000) as nat
    }
}

/// Shared round-trip argument for the fixed-width integer impls: the
/// `w`-byte encoding of a value below 256^w, followed by anything, reads
/// back as exactly that value.
proof fn lemma_uint_encoding_decodes(x: nat, w: nat, rest: Seq<u8>)
    requires
        x < bound256(w),
    ensures
        be_enc(x, w).len() == w,
        (be_enc(x, w) + rest).len() >= w,
        be_dec((be_enc(x, w) + rest).take(w as int)) == x,
{
    lemma_be_enc_len(x, w);
    assert((be_enc(x, w) + rest).take(w as int) =~= be_enc(x, w));
    lemma_be_round_trip(x, w);
}

impl StacksMessageCodec for u16 {
    open spec fn encoding(&self) -> Seq<u8> {
        be_enc(*self as nat, 2)
    }

    open spec fn wf_wire(&self) -> bool {
        true
    }

    open spec fn decodes_to(s: Seq<u8>, v: Self, n: nat) -> bool {
        s.len() >= 2 && n == 2 && v as nat == be_dec(s.take(2))
    }

    open spec fn decode_fails(s: Seq<u8>) -> bool {
        s.len() < 2
    }

    open spec fn decode_never_rejects() -> bool {
        true
    }

    proof fn lemma_decodes_deterministic(s: Seq<u8>, v1: Self, n1: nat, v2: Self, n2: nat) {
    }

    proof fn lemma_decodes_bounded(s: Seq<u8>, v: Self, n: nat) {
    }

    proof fn lemma_encoding_decodes(v: Self, rest: Seq<u8>) {
        reveal_with_fuel(bound256, 3);
        lemma_uint_encoding_decodes(v as nat, 2, rest);
    }

    fn consensus_serialize<W: ByteSink>(&self, fd: &mut W) -> (r: Result<(), NetworkError>) {
        serialize_uint(*self as u64, 2, fd)
    }

    fn consensus_deserialize<R: ByteSource>(fd: &mut R) -> (r: Result<Self, NetworkError>) {
        let ghost s0 = fd.stream().skip(fd.taken() as int);
        match deserialize_uint(fd, 2) {
            Ok(x) => {
                proof {
                    reveal_with_fuel(bound256, 3);
                    assert(s0.take(2) =~= old(fd).stream().subrange(
                        old(fd).taken() as int,
                        old(fd).taken() as int + 2,
                    ));
                }
                Ok(x as u16)
            },
            Err(e) => {
                proof {
                    fd.lemma_stream_bounds();
                    assert(s0.len() == old(fd).stream().len() - old(fd).taken());
                }
                Err(e)
            },
        }
    }
}

impl StacksMessageCodec for u32 {
    open spec fn encoding(&self) -> Seq<u8> {
        be_enc(*self as nat, 4)
    }

    open spec fn wf_wire(&self) -> bool {
        true
    }

    open spec fn decodes_to(s: Seq<u8>, v: Self, n: nat) -> bool {
        s.len() >= 4 && n == 4 && v as nat == be_dec(s.take(4))
    }

    open spec fn decode_fails(s: Seq<u8>) -> bool {
        s.len() < 4
    }

    open spec fn decode_never_rejects() -> bool {
        true
    }

    proof fn lemma_decodes_deterministic(s: Seq<u8>, v1: Self, n1: nat, v2: Self, n2: nat) {
    }

    proof fn lemma_decodes_bounded(s: Seq<u8>, v: Self, n: nat) {
    }

    proof fn lemma_encoding_decodes(v: Self, rest: Seq<u8>) {
        reveal_with_fuel(bound256, 5);
        lemma_uint_encoding_decodes(v as nat, 4, rest);
    }

    fn consensus_serialize<W: ByteSink>(&self, fd: &mut W) -> (r: Result<(), NetworkError>) {
        serialize_uint(*self as u64, 4, fd)
    }

    fn consensus_deserialize<R: ByteSource>(fd: &mut R) -> (r: Result<Self, NetworkError>) {
        let ghost s0 = fd.stream().skip(fd.taken() as int);
        match deserialize_uint(fd, 4) {
            Ok(x) => {
                proof {
                    reveal_with_fuel(bound256, 5);
                    assert(s0.take(4) =~= old(fd).stream().subrange(
                        old(fd).taken() as int,
                        old(fd).taken() as int + 4,
                    ));
                }
                Ok(x as u32)
            },
            Err(e) => {
                proof {
                    fd.lemma_stream_bounds();
                    assert(s0.len() == old(fd).stream().len() - old(fd).taken());
                }
                Err(e)
            },
        }
    }
}

impl StacksMessageCodec for u64 {
    open spec fn encoding(&self) -> Seq<u8> {
        be_enc(*self as nat, 8)
    }

    open spec fn wf_wire(&self) -> bool {
        true
    }

    open spec fn decodes_to(s: Seq<u8>, v: Self, n: nat) -> bool {
        s.len() >= 8 && n == 8 && v as nat == be_dec(s.take(8))
    }

    open spec fn decode_fails(s: Seq<u8>) -> bool {
        s.len() < 8
    }

    open spec fn decode_never_rejects() -> bool {
        true
    }

    proof fn lemma_decodes_deterministic(s: Seq<u8>, v1: Self, n1: nat, v2: Self, n2: nat) {
    }

    proof fn lemma_decodes_bounded(s: Seq<u8>, v: Self, n: nat) {
    }

    proof fn lemma_encoding_decodes(v: Self, rest: Seq<u8>) {
        reveal_with_fuel(bound256, 9);
        lemma_uint_encoding_decodes(v as nat, 8, rest);
    }

    fn consensus_serialize<W: ByteSink>(&self, fd: &mut W) -> (r: Result<(), NetworkError>) {
        serialize_uint(*self, 8, fd)
    }

    fn consensus_deserialize<R: ByteSource>(fd: &mut R) -> (r: Result<Self, NetworkError>) {
        let ghost s0 = fd.stream().skip(fd.taken() as int);
        match deserialize_uint(fd, 8) {
            Ok(x) => {
                proof {
                    assert(s0.take(8) =~= old(fd).stream().subrange(
                        old(fd).taken() as int,
                        old(fd).taken() as int + 8,
                    ));
                }
                Ok(x)
            },
            Err(e) => {
                proof {
                    fd.lemma_stream_bounds();
                    assert(s0.len() == old(fd).stream().len() - old(fd).taken());
                }
                Err(e)
            },
        }
    }
}

impl StacksMessageCodec for i64 {
    open spec fn encoding(&self) -> Seq<u8> {
        be_enc(i64_as_u64(*self), 8)
    }

    open spec fn wf_wire(&self) -> bool {
        true
    }

    open spec fn decodes_to(s: Seq<u8>, v: Self, n: nat) -> bool {
        s.len() >= 8 && n == 8 && i64_as_u64(v) == be_dec(s.take(8))
    }

    open spec fn decode_fails(s: Seq<u8>) -> bool {
        s.len() < 8
    }

    open spec fn decode_never_rejects() -> bool {
        true
    }

    proof fn lemma_decodes_deterministic(s: Seq<u8>, v1: Self, n1: nat, v2: Self, n2: nat) {
    }

    proof fn lemma_decodes_bounded(s: Seq<u8>, v: Self, n: nat) {
    }

    proof fn lemma_encoding_decodes(v: Self, rest: Seq<u8>) {
        reveal_with_fuel(bound256, 9);
        lemma_uint_encoding_decodes(i64_as_u64(v), 8, rest);
    }

    fn consensus_serialize<W: ByteSink>(&self, fd: &mut W) -> (r: Result<(), NetworkError>) {
        let unsigned: u64 = if *self >= 0 {
            *self as u64
        } else {
            u64::MAX - ((-(*self + 1)) as u64)
        };
        serialize_uint(unsigned, 8, fd)
    }

    fn consensus_deserialize<R: ByteSource>(fd: &mut R) -> (r: Result<Self, NetworkError>) {
        let ghost s0 = fd.stream().skip(fd.taken() as int);
        match deserialize_uint(fd, 8) {
            Ok(x) => {
                let signed: i64 = if x <= i64::MAX as u64 {
                    x as i64
                } else {
                    -((u64::MAX - x) as i64) - 1
                };
                proof {
                    assert(s0.take(8) =~= old(fd).stream().subrange(
                        old(fd).taken() as int,
                        old(fd).taken() as int + 8,
                    ));
                }
                Ok(signed)
            },
            Err(e) => {
                proof {
                    fd.lemma_stream_bounds();
                    assert(s0.len() == old(fd).stream().len() - old(fd).taken());
                }
                Err(e)
            },
        }
    }
}

/// The concatenated encodings of a run of elements, in order.
pub open spec fn elems_encoding<T: StacksMessageCodec>(q: Seq<T>) -> Seq<u8>
    decreases q.len(),
{
    if q.len() == 0 {
        Seq::empty()
    } else {
        q[0].encoding() + elems_encoding(q.skip(1))
    }
}

/// The front of `s` decodes to exactly the elements `es`, in order,
/// consuming `n` bytes in all.
pub open spec fn elems_decode_to<T: StacksMessageCodec>(s: Seq<u8>, es: Seq<T>, n: nat) -> bool
    decreases es.len(),
{
    if es.len() == 0 {
        n == 0
    } else {
        exists|m: nat|
            m <= n && #[trigger] T::decodes_to(s, es[0], m) && elems_decode_to(
                s.skip(m as int),
                es.skip(1),
                (n - m) as nat,
            )
    }
}

/// Decoding `count` elements off the front of `s` fails at some element.
pub open spec fn elems_decode_fail<T: StacksMessageCodec>(s: Seq<u8>, count: nat) -> bool
    decreases count,
{
    if count == 0 {
        false
    } else {
        T::decode_fails(s) || (exists|v: T, m: nat|
            #[trigger] T::decodes_to(s, v, m) && elems_decode_fail::<T>(
                s.skip(m as int),
                (count - 1) as nat,
            ))
    }
}

/// Two decodes of the same run of elements consume the same bytes.
proof fn lemma_elems_decode_deterministic<T: StacksMessageCodec>(
    s: Seq<u8>,
    es1: Seq<T>,
    n1: nat,
    es2: Seq<T>,
    n2: nat,
)
    requires
        elems_decode_to(s, es1, n1),
        elems_decode_to(s, es2, n2),
        es1.len() == es2.len(),
    ensures
        n1 == n2,
    decreases es1.len(),
{
    if es1.len() > 0 {
        let m1 = choose|m: nat|
            m <= n1 && #[trigger] T::decodes_to(s, es1[0], m) && elems_decode_to(
                s.skip(m as int),
                es1.skip(1),
                (n1 - m) as nat,
            );
        let m2 = choose|m: nat|
            m <= n2 && #[trigger] T::decodes_to(s, es2[0], m) && elems_decode_to(
                s.skip(m as int),
                es2.skip(1),
                (n2 - m) as nat,
            );
        T::lemma_decodes_deterministic(s, es1[0], m1, es2[0], m2);
        lemma_elems_decode_deterministic::<T>(
            s.skip(m1 as int),
            es1.skip(1),
            (n1 - m1) as nat,
            es2.skip(1),
            (n2 - m2) as nat,
        );
    }
}

/// A decodable run is not also a failing one, and consumes no more bytes
/// than exist.
proof fn lemma_elems_decode_bounded<T: StacksMessageCodec>(s: Seq<u8>, es: Seq<T>, n: nat)
    requires
        elems_decode_to(s, es, n),
    ensures
        n <= s.len(),
        !elems_decode_fail::<T>(s, es.len()),
    decreases es.len(),
{
    if es.len() > 0 {
        let m = choose|m: nat|
            m <= n && #[trigger] T::decodes_to(s, es[0], m) && elems_decode_to(
                s.skip(m as int),
                es.skip(1),
                (n - m) as nat,
            );
        T::lemma_decodes_bounded(s, es[0], m);
        lemma_elems_decode_bounded::<T>(s.skip(m as int), es.skip(1), (n - m) as nat);
        if elems_decode_fail::<T>(s, es.len()) {
            let (v, m2) = choose|v: T, m2: nat|
                #[trigger] T::decodes_to(s, v, m2) && elems_decode_fail::<T>(
                    s.skip(m2 as int),
                    (es.len() - 1) as nat,
                );
            T::lemma_decodes_deterministic(s, es[0], m, v, m2);
        }
    }
}

/// The concatenated encodings of wire-well-formed elements decode back to
/// exactly those elements, in order.
proof fn lemma_elems_encoding_decodes<T: StacksMessageCodec>(q: Seq<T>, rest: Seq<u8>)
    requires
        forall|i: int| 0 <= i < q.len() ==> #[trigger] q[i].wf_wire(),
    ensures
        elems_decode_to(elems_encoding(q) + rest, q, elems_encoding(q).len()),
    decreases q.len(),
{
    if q.len() == 0 {
        assert(elems_encoding(q).len() == 0);
    } else {
        let tail = elems_encoding(q.skip(1));
        T::lemma_encoding_decodes(q[0], tail + rest);
        let whole = elems_encoding(q) + rest;
        let m = q[0].encoding().len();
        assert(whole =~= q[0].encoding() + (tail + rest));
        assert(whole.skip(m as int) =~= tail + rest);
        assert(forall|i: int| 0 <= i < q.skip(1).len() ==> #[trigger] q.skip(1)[i].wf_wire());
        lemma_elems_encoding_decodes::<T>(q.skip(1), rest);
        assert(T::decodes_to(whole, q[0], m));
        assert(elems_decode_to(whole.skip(m as int), q.skip(1), tail.len()));
        assert(m + tail.len() == elems_encoding(q).len());
    }
}

/// A run of decoded elements extends by one more element decoded where the
/// run left off.
proof fn lemma_elems_decode_snoc<T: StacksMessageCodec>(
    s: Seq<u8>,
    es: Seq<T>,
    c: nat,
    v: T,
    d: nat,
)
    requires
        elems_decode_to(s, es, c),
        T::decodes_to(s.skip(c as int), v, d),
    ensures
        elems_decode_to(s, es.push(v), (c + d) as nat),
    decreases es.len(),
{
    if es.len() == 0 {
        assert(s.skip(0) =~= s);
        assert(es.push(v)[0] == v);
        assert(es.push(v).skip(1) =~= Seq::<T>::empty());
        assert(T::decodes_to(s, v, d));
        assert(elems_decode_to(s.skip(d as int), es.push(v).skip(1), 0nat));
    } else {
        let m = choose|m: nat|
            m <= c && #[trigger] T::decodes_to(s, es[0], m) && elems_decode_to(
                s.skip(m as int),
                es.skip(1),
                (c - m) as nat,
            );
        T::lemma_decodes_bounded(s, es[0], m);
        lemma_elems_decode_bounded::<T>(s.skip(m as int), es.skip(1), (c - m) as nat);
        assert(s.skip(m as int).skip((c - m) as int) =~= s.skip(c as int));
        lemma_elems_decode_snoc::<T>(s.skip(m as int), es.skip(1), (c - m) as nat, v, d);
        assert(es.push(v)[0] == es[0]);
        assert(es.push(v).skip(1) =~= es.skip(1).push(v));
        assert(T::decodes_to(s, es.push(v)[0], m) && elems_decode_to(
            s.skip(m as int),
            es.push(v).skip(1),
            ((c + d) - m) as nat,
        ));
    }
}

/// If a run of elements decodes and the next element fails, then decoding
/// any larger count fails.
proof fn lemma_elems_fail_extend<T: StacksMessageCodec>(s: Seq<u8>, es: Seq<T>, c: nat, count: nat)
    requires
        elems_decode_to(s, es, c),
        T::decode_fails(s.skip(c as int)),
        es.len() < count,
    ensures
        elems_decode_fail::<T>(s, count),
    decreases es.len(),
{
    if es.len() == 0 {
        assert(s.skip(0) =~= s);
    } else {
        let m = choose|m: nat|
            m <= c && #[trigger] T::decodes_to(s, es[0], m) && elems_decode_to(
                s.skip(m as int),
                es.skip(1),
                (c - m) as nat,
            );
        T::lemma_decodes_bounded(s, es[0], m);
        lemma_elems_decode_bounded::<T>(s.skip(m as int), es.skip(1), (c - m) as nat);
        assert(s.skip(m as int).skip((c - m) as int) =~= s.skip(c as int));
        lemma_elems_fail_extend::<T>(
            s.skip(m as int),
            es.skip(1),
            (c - m) as nat,
            (count - 1) as nat,
        );
        assert(T::decodes_to(s, es[0], m) && elems_decode_fail::<T>(
            s.skip(m as int),
            (count - 1) as nat,
        ));
    }
}

/// Writes one codec item to the sink.
pub fn write_next<T: StacksMessageCodec, W: ByteSink>(fd: &mut W, item: &T) -> (r: Result<
    (),
    NetworkError,
>)
    ensures
        final(fd).never_fails() == old(fd).never_fails(),
        r is Ok ==> final(fd).sunk() == old(fd).sunk() + item.encoding(),
        old(fd).never_fails() ==> r is Ok,
        r matches Err(e) ==> e is WriteError,
{
    item.consensus_serialize(fd)
}

/// Reads one codec item from the source.
pub fn read_next<T: StacksMessageCodec, R: ByteSource>(fd: &mut R) -> (r: Result<T, NetworkError>)
    ensures
        final(fd).stream() == old(fd).stream(),
        final(fd).reliable() == old(fd).reliable(),
        final(fd).taken() >= old(fd).taken(),
        r matches Ok(v) ==> T::decodes_to(
            old(fd).stream().skip(old(fd).taken() as int),
            v,
            (final(fd).taken() - old(fd).taken()) as nat,
        ),
        r matches Err(e) ==> (e is ReadError || e is UnderflowError || e is DeserializeError),
        T::decode_never_rejects() ==> (r matches Err(e) ==> (e is ReadError || e
            is UnderflowError)),
        old(fd).reliable() ==> (r is Err <==> T::decode_fails(
            old(fd).stream().skip(old(fd).taken() as int),
        )),
{
    let item: Result<T, NetworkError> = T::consensus_deserialize(fd);
    item
}

proof fn lemma_elems_encoding_snoc<T: StacksMessageCodec>(q: Seq<T>, i: int)
    requires
        0 <= i < q.len(),
    ensures
        elems_encoding(q.take(i + 1)) == elems_encoding(q.take(i)) + q[i].encoding(),
    decreases i,
{
    if i == 0 {
        assert(q.take(1)[0] == q[0]);
        assert(q.take(1).skip(1) =~= Seq::<T>::empty());
        assert(q.take(0) =~= Seq::<T>::empty());
        assert(elems_encoding(q.take(1)) =~= q[0].encoding() + Seq::<u8>::empty());
        assert(elems_encoding(q.take(0)) + q[0].encoding() =~= q[0].encoding());
    } else {
        let qs = q.skip(1);
        lemma_elems_encoding_snoc::<T>(qs, i - 1);
        assert(q.take(i + 1)[0] == q[0]);
        assert(q.take(i + 1).skip(1) =~= qs.take(i));
        assert(q.take(i).skip(1) =~= qs.take(i - 1));
        assert(q.take(i)[0] == q[0]);
        assert(qs[i - 1] == q[i]);
        assert(elems_encoding(q.take(i + 1)) =~= q[0].encoding() + elems_encoding(qs.take(i)));
        assert(elems_encoding(q.take(i)) + q[i].encoding() =~= q[0].encoding() + (elems_encoding(
            qs.take(i - 1),
        ) + qs[i - 1].encoding()));
    }
}

impl<T: StacksMessageCodec> StacksMessageCodec for Vec<T> {
    open spec fn encoding(&self) -> Seq<u8> {
        be_enc(self@.len() % 0x100000000, 4) + elems_encoding(self@)
    }

    open spec fn wf_wire(&self) -> bool {
        &&& self@.len() <= u32::MAX
        &&& seq_guard_ok::<T>(self@.len())
        &&& forall|i: int| 0 <= i < self@.len() ==> #[trigger] self@[i].wf_wire()
    }

    open spec fn decodes_to(s: Seq<u8>, v: Self, n: nat) -> bool {
        &&& s.len() >= 4
        &&& n >= 4
        &&& v@.len() == be_dec(s.take(4))
        &&& seq_guard_ok::<T>(be_dec(s.take(4)))
        &&& elems_decode_to::<T>(s.skip(4), v@, (n - 4) as nat)
    }

    open spec fn decode_fails(s: Seq<u8>) -> bool {
        ||| s.len() < 4
        ||| !seq_guard_ok::<T>(be_dec(s.take(4)))
        ||| elems_decode_fail::<T>(s.skip(4), be_dec(s.take(4)))
    }

    open spec fn decode_never_rejects() -> bool {
        false
    }

    proof fn lemma_decodes_deterministic(s: Seq<u8>, v1: Self, n1: nat, v2: Self, n2: nat) {
        lemma_elems_decode_deterministic::<T>(
            s.skip(4),
            v1@,
            (n1 - 4) as nat,
            v2@,
            (n2 - 4) as nat,
        );
    }

    proof fn lemma_decodes_bounded(s: Seq<u8>, v: Self, n: nat) {
        lemma_elems_decode_bounded::<T>(s.skip(4), v@, (n - 4) as nat);
    }

    proof fn lemma_encoding_decodes(v: Self, rest: Seq<u8>) {
        let q = v@;
        let len = q.len();
        vstd::arithmetic::div_mod::lemma_small_mod(len, 0x100000000);
        reveal_with_fuel(bound256, 5);
        lemma_uint_encoding_decodes(len, 4, elems_encoding(q) + rest);
        let whole = v.encoding() + rest;
        assert(whole =~= be_enc(len, 4) + (elems_encoding(q) + rest));
        lemma_be_enc_len(len, 4);
        assert(whole.take(4) =~= (be_enc(len, 4) + (elems_encoding(q) + rest)).take(4));
        assert(be_dec(whole.take(4)) == len);
        assert(whole.skip(4) =~= elems_encoding(q) + rest);
        lemma_elems_encoding_decodes::<T>(q, rest);
        assert(v.encoding().len() == 4 + elems_encoding(q).len());
    }

    fn consensus_serialize<W: ByteSink>(&self, fd: &mut W) -> (r: Result<(), NetworkError>) {
        let len64: u64 = self.len() as u64;
        let len: u32 = (len64 % 0x100000000) as u32;
        match write_next(fd, &len) {
            Ok(()) => {},
            Err(e) => {
                return Err(e);
            },
        }
        let mut i: usize = 0;
        proof {
            assert(len as nat == self@.len() % 0x100000000);
            assert(self@.take(0) =~= Seq::<T>::empty());
            assert(elems_encoding(self@.take(0)) == Seq::<u8>::empty());
            assert(fd.sunk() + elems_encoding(self@.take(0)) =~= fd.sunk());
        }
        while i < self.len()
            invariant
                i <= self@.len(),
                fd.never_fails() == old(fd).never_fails(),
                fd.sunk() == old(fd).sunk() + be_enc(self@.len() % 0x100000000, 4)
                    + elems_encoding(self@.take(i as int)),
            decreases self@.len() - i,
        {
            proof {
                lemma_elems_encoding_snoc::<T>(self@, i as int);
            }
            match write_next(fd, &self[i]) {
                Ok(()) => {},
                Err(e) => {
                    return Err(e);
                },
            }
            i = i + 1;
        }
        proof {
            assert(self@.take(self@.len() as int) =~= self@);
        }
        Ok(())
    }

    fn consensus_deserialize<R: ByteSource>(fd: &mut R) -> (r: Result<Vec<T>, NetworkError>) {
        let ghost s0 = fd.stream().skip(fd.taken() as int);
        let r = read_next_at_most::<R, T>(fd, u32::MAX);
        proof {
            if old(fd).reliable() && s0.len() >= 4 {
                lemma_be_dec_bound(s0.take(4));
                reveal_with_fuel(bound256, 5);
            }
        }
        r
    }
}

/// The arity policy of a sequence decode: with a positive `max_items` the
/// claimed length may be at most `max_items`; with `max_items == 0` it must
/// equal `num_items` exactly.
pub open spec fn seq_policy_ok(len: nat, num_items: u32, max_items: u32) -> bool {
    if max_items > 0 {
        len <= max_items
    } else {
        len == num_items
    }
}

/// The allocation-size guard of a sequence decode: storage for the claimed
/// element count must fit in the global maximum message size.
pub open spec fn seq_guard_ok<T>(len: nat) -> bool {
    size_of::<T>() * len <= MAX_MESSAGE_LEN
}

/// Reads a length-prefixed run of elements: the 4-byte length field, the
/// arity policy check, the allocation-size guard, and only then the
/// elements themselves, in order.
///
/// Over a reliable source the outcome is fully determined: a policy or
/// guard violation is rejected with a deserialize error after exactly the
/// four length bytes — before any element is read or storage allocated —
/// and otherwise the elements are decoded exactly as `elems_decode_to`
/// describes.
fn read_next_vec<T: StacksMessageCodec, R: ByteSource>(
    fd: &mut R,
    num_items: u32,
    max_items: u32,
) -> (r: Result<Vec<T>, NetworkError>)
    ensures
        final(fd).stream() == old(fd).stream(),
        final(fd).reliable() == old(fd).reliable(),
        final(fd).taken() >= old(fd).taken(),
        r matches Ok(v) ==> ({
            let s0 = old(fd).stream().skip(old(fd).taken() as int);
            &&& s0.len() >= 4
            &&& final(fd).taken() >= old(fd).taken() + 4
            &&& v@.len() == be_dec(s0.take(4))
            &&& seq_policy_ok(v@.len(), num_items, max_items)
            &&& seq_guard_ok::<T>(v@.len())
            &&& elems_decode_to::<T>(
                s0.skip(4),
                v@,
                (final(fd).taken() - old(fd).taken() - 4) as nat,
            )
        }),
        r matches Err(e) ==> (e is ReadError || e is UnderflowError || e is DeserializeError),
        old(fd).reliable() ==> ({
            let s0 = old(fd).stream().skip(old(fd).taken() as int);
            let claimed = be_dec(s0.take(4));
            &&& (s0.len() < 4 ==> r is Err)
            &&& (s0.len() >= 4 && max_items > 0 && claimed > max_items ==> (
                r matches Err(e)
                && e matches NetworkError::DeserializeError(m)
                && m@ == "Array has too many items ("@ + spec_dec(claimed) + " > "@ + spec_dec(
                    max_items as nat,
                )
                && final(fd).taken() == old(fd).taken() + 4
            ))
            &&& (s0.len() >= 4 && max_items == 0 && claimed != num_items ==> (
                r matches Err(e)
                && e matches NetworkError::DeserializeError(m)
                && m@ == "Array has incorrect number of items ("@ + spec_dec(claimed) + " != "@
                    + spec_dec(num_items as nat) + ")"@
                && final(fd).taken() == old(fd).taken() + 4
            ))
            &&& (s0.len() >= 4 && seq_policy_ok(claimed, num_items, max_items) && !seq_guard_ok::<
                T,
            >(claimed) ==> (
                r matches Err(e)
                && e matches NetworkError::DeserializeError(m)
                && m@ == "Message occupies too many bytes (tried to allocate "@ + spec_dec(
                    size_of::<T>(),
                ) + "*"@ + spec_dec(claimed) + "="@ + spec_dec(size_of::<T>() * claimed) + ")"@
                && final(fd).taken() == old(fd).taken() + 4
            ))
            &&& (s0.len() >= 4 && seq_policy_ok(claimed, num_items, max_items) && seq_guard_ok::<
                T,
            >(claimed) ==> (r is Err <==> elems_decode_fail::<T>(s0.skip(4), claimed)))
        }),
{
    let ghost p0 = fd.taken();
    let ghost s0 = fd.stream().skip(fd.taken() as int);
    proof {
        fd.lemma_stream_bounds();
        assert(s0.len() == old(fd).stream().len() - p0);
    }
    let len: u32 = match u32::consensus_deserialize(fd) {
        Ok(l) => l,
        Err(e) => {
            return Err(e);
        },
    };
    if max_items > 0 {
        if len > max_items {
            // too many items
            let mut msg = "Array has too many items (".to_owned();
            msg.append(dec_u128(len as u128).as_str());
            msg.append(" > ");
            msg.append(dec_u128(max_items as u128).as_str());
            proof {
                assert(msg@ =~= "Array has too many items ("@ + spec_dec(len as nat) + " > "@
                    + spec_dec(max_items as nat));
            }
            return Err(NetworkError::DeserializeError(msg));
        }
    } else {
        if len != num_items {
            // inexact item count
            let mut msg = "Array has incorrect number of items (".to_owned();
            msg.append(dec_u128(len as u128).as_str());
            msg.append(" != ");
            msg.append(dec_u128(num_items as u128).as_str());
            msg.append(")");
            proof {
                assert(msg@ =~= "Array has incorrect number of items ("@ + spec_dec(len as nat)
                    + " != "@ + spec_dec(num_items as nat) + ")"@);
            }
            return Err(NetworkError::DeserializeError(msg));
        }
    }
    let elem_size: usize = core::mem::size_of::<T>();
    proof {
        vstd::arithmetic::mul::lemma_mul_upper_bound(
            elem_size as int,
            u64::MAX as int,
            len as int,
            u32::MAX as int,
        );
    }
    if (elem_size as u128) * (len as u128) > MAX_MESSAGE_LEN as u128 {
        let mut msg = "Message occupies too many bytes (tried to allocate ".to_owned();
        msg.append(dec_u128(elem_size as u128).as_str());
        msg.append("*");
        msg.append(dec_u128(len as u128).as_str());
        msg.append("=");
        msg.append(dec_u128((elem_size as u128) * (len as u128)).as_str());
        msg.append(")");
        proof {
            assert(((elem_size as u128) * (len as u128)) as nat == size_of::<T>() * (
            len as nat));
            assert(msg@ =~= "Message occupies too many bytes (tried to allocate "@ + spec_dec(
                size_of::<T>(),
            ) + "*"@ + spec_dec(len as nat) + "="@ + spec_dec(size_of::<T>() * (len as nat))
                + ")"@);
        }
        return Err(NetworkError::DeserializeError(msg));
    }
    let mut ret: Vec<T> = Vec::with_capacity(len as usize);
    let mut k: u32 = 0;
    proof {
        assert(s0.skip(4) =~= fd.stream().skip(fd.taken() as int));
    }
    while k < len
        invariant
            fd.stream() == old(fd).stream(),
            fd.reliable() == old(fd).reliable(),
            k <= len,
            ret@.len() == k as nat,
            p0 == old(fd).taken(),
            s0 == old(fd).stream().skip(p0 as int),
            s0.len() >= 4,
            len as nat == be_dec(s0.take(4)),
            seq_policy_ok(len as nat, num_items, max_items),
            seq_guard_ok::<T>(len as nat),
            fd.taken() >= p0 + 4,
            elems_decode_to::<T>(s0.skip(4), ret@, (fd.taken() - p0 - 4) as nat),
        decreases len - k,
    {
        let ghost taken_k = fd.taken();
        let ghost consumed = (taken_k - p0 - 4) as nat;
        proof {
            fd.lemma_stream_bounds();
            lemma_elems_decode_bounded::<T>(s0.skip(4), ret@, consumed);
            assert(s0.skip(4).skip(consumed as int) =~= fd.stream().skip(fd.taken() as int));
        }
        match T::consensus_deserialize(fd) {
            Ok(next_item) => {
                proof {
                    lemma_elems_decode_snoc::<T>(
                        s0.skip(4),
                        ret@,
                        consumed,
                        next_item,
                        (fd.taken() - taken_k) as nat,
                    );
                }
                ret.push(next_item);
            },
            Err(e) => {
                proof {
                    if old(fd).reliable() {
                        lemma_elems_fail_extend::<T>(s0.skip(4), ret@, consumed, len as nat);
                    }
                }
                return Err(e);
            },
        }
        k = k + 1;
    }
    proof {
        lemma_elems_decode_bounded::<T>(s0.skip(4), ret@, (fd.taken() - p0 - 4) as nat);
    }
    Ok(ret)
}

/// Reads a length-prefixed run of at most `max_items` elements.
pub fn read_next_at_most<R: ByteSource, T: StacksMessageCodec>(
    fd: &mut R,
    max_items: u32,
) -> (r: Result<Vec<T>, NetworkError>)
    ensures
        final(fd).stream() == old(fd).stream(),
        final(fd).reliable() == old(fd).reliable(),
        final(fd).taken() >= old(fd).taken(),
        r matches Ok(v) ==> ({
            let s0 = old(fd).stream().skip(old(fd).taken() as int);
            &&& s0.len() >= 4
            &&& final(fd).taken() >= old(fd).taken() + 4
            &&& v@.len() == be_dec(s0.take(4))
            &&& seq_policy_ok(v@.len(), 0, max_items)
            &&& seq_guard_ok::<T>(v@.len())
            &&& elems_decode_to::<T>(
                s0.skip(4),
                v@,
                (final(fd).taken() - old(fd).taken() - 4) as nat,
            )
        }),
        r matches Err(e) ==> (e is ReadError || e is UnderflowError || e is DeserializeError),
        old(fd).reliable() ==> ({
            let s0 = old(fd).stream().skip(old(fd).taken() as int);
            let claimed = be_dec(s0.take(4));
            &&& (s0.len() < 4 ==> r is Err)
            &&& (s0.len() >= 4 && max_items > 0 && claimed > max_items ==> (
                r matches Err(e)
                && e matches NetworkError::DeserializeError(m)
                && m@ == "Array has too many items ("@ + spec_dec(claimed) + " > "@ + spec_dec(
                    max_items as nat,
                )
                && final(fd).taken() == old(fd).taken() + 4
            ))
            &&& (s0.len() >= 4 && max_items == 0 && claimed != 0 ==> (
                r matches Err(e)
                && e matches NetworkError::DeserializeError(m)
                && m@ == "Array has incorrect number of items ("@ + spec_dec(claimed) + " != "@
                    + spec_dec(0) + ")"@
                && final(fd).taken() == old(fd).taken() + 4
            ))
            &&& (s0.len() >= 4 && seq_policy_ok(claimed, 0, max_items) && !seq_guard_ok::<T>(
                claimed,
            ) ==> (
                r matches Err(e)
                && e matches NetworkError::DeserializeError(m)
                && m@ == "Message occupies too many bytes (tried to allocate "@ + spec_dec(
                    size_of::<T>(),
                ) + "*"@ + spec_dec(claimed) + "="@ + spec_dec(size_of::<T>() * claimed) + ")"@
                && final(fd).taken() == old(fd).taken() + 4
            ))
            &&& (s0.len() >= 4 && seq_policy_ok(claimed, 0, max_items) && seq_guard_ok::<T>(
                claimed,
            ) ==> (r is Err <==> elems_decode_fail::<T>(s0.skip(4), claimed)))
        }),
{
    read_next_vec::<T, R>(fd, 0, max_items)
}

/// Reads a length-prefixed run of exactly `num_items` elements.
pub fn read_next_exact<R: ByteSource, T: StacksMessageCodec>(
    fd: &mut R,
    num_items: u32,
) -> (r: Result<Vec<T>, NetworkError>)
    ensures
        final(fd).stream() == old(fd).stream(),
        final(fd).reliable() == old(fd).reliable(),
        final(fd).taken() >= old(fd).taken(),
        r matches Ok(v) ==> ({
            let s0 = old(fd).stream().skip(old(fd).taken() as int);
            &&& s0.len() >= 4
            &&& final(fd).taken() >= old(fd).taken() + 4
            &&& v@.len() == num_items as nat
            &&& v@.len() == be_dec(s0.take(4))
            &&& seq_guard_ok::<T>(v@.len())
            &&& elems_decode_to::<T>(
                s0.skip(4),
                v@,
                (final(fd).taken() - old(fd).taken() - 4) as nat,
            )
        }),
        r matches Err(e) ==> (e is ReadError || e is UnderflowError || e is DeserializeError),
        old(fd).reliable() ==> ({
            let s0 = old(fd).stream().skip(old(fd).taken() as int);
            let claimed = be_dec(s0.take(4));
            &&& (s0.len() < 4 ==> r is Err)
            &&& (s0.len() >= 4 && claimed != num_items ==> (
                r matches Err(e)
                && e matches NetworkError::DeserializeError(m)
                && m@ == "Array has incorrect number of items ("@ + spec_dec(claimed) + " != "@
                    + spec_dec(num_items as nat) + ")"@
                && final(fd).taken() == old(fd).taken() + 4
            ))
            &&& (s0.len() >= 4 && claimed == num_items && !seq_guard_ok::<T>(claimed) ==> (
                r matches Err(e)
                && e matches NetworkError::DeserializeError(m)
                && m@ == "Message occupies too many bytes (tried to allocate "@ + spec_dec(
                    size_of::<T>(),
                ) + "*"@ + spec_dec(claimed) + "="@ + spec_dec(size_of::<T>() * claimed) + ")"@
                && final(fd).taken() == old(fd).taken() + 4
            ))
            &&& (s0.len() >= 4 && claimed == num_items && seq_guard_ok::<T>(claimed) ==> (
                r is Err <==> elems_decode_fail::<T>(s0.skip(4), claimed)
            ))
        }),
{
    read_next_vec::<T, R>(fd, num_items, 0)
}

/// Law (round-trip): decoding the 1-byte encoding of `v` yields exactly
/// `v`, whatever bytes follow, and no other value or consumption is
/// possible for those bytes.
pub proof fn lemma_u8_round_trip(v: u8, rest: Seq<u8>)
    ensures
        u8::decodes_to(v.encoding() + rest, v, 1),
        forall|w: u8, n: nat| u8::decodes_to(v.encoding() + rest, w, n) ==> w == v && n == 1,
{
    u8::lemma_encoding_decodes(v, rest);
    lemma_be_enc_len(v as nat, 1);
}

/// Law (round-trip): decoding the 2-byte encoding of `v` yields exactly `v`.
pub proof fn lemma_u16_round_trip(v: u16, rest: Seq<u8>)
    ensures
        u16::decodes_to(v.encoding() + rest, v, 2),
        forall|w: u16, n: nat| u16::decodes_to(v.encoding() + rest, w, n) ==> w == v && n == 2,
{
    u16::lemma_encoding_decodes(v, rest);
    lemma_be_enc_len(v as nat, 2);
}

/// Law (round-trip): decoding the 4-byte encoding of `v` yields exactly `v`.
pub proof fn lemma_u32_round_trip(v: u32, rest: Seq<u8>)
    ensures
        u32::decodes_to(v.encoding() + rest, v, 4),
        forall|w: u32, n: nat| u32::decodes_to(v.encoding() + rest, w, n) ==> w == v && n == 4,
{
    u32::lemma_encoding_decodes(v, rest);
    lemma_be_enc_len(v as nat, 4);
}

/// Law (round-trip): decoding the 8-byte encoding of `v` yields exactly `v`.
pub proof fn lemma_u64_round_trip(v: u64, rest: Seq<u8>)
    ensures
        u64::decodes_to(v.encoding() + rest, v, 8),
        forall|w: u64, n: nat| u64::decodes_to(v.encoding() + rest, w, n) ==> w == v && n == 8,
{
    u64::lemma_encoding_decodes(v, rest);
    lemma_be_enc_len(v as nat, 8);
}

/// Law (round-trip): decoding the 8-byte two's-complement encoding of `v`
/// yields exactly `v`.
pub proof fn lemma_i64_round_trip(v: i64, rest: Seq<u8>)
    ensures
        i64::decodes_to(v.encoding() + rest, v, 8),
        forall|w: i64, n: nat| i64::decodes_to(v.encoding() + rest, w, n) ==> w == v && n == 8,
{
    i64::lemma_encoding_decodes(v, rest);
    lemma_be_enc_len(i64_as_u64(v), 8);
}

/// Two runs of single-byte elements decoded off the same string with the
/// same count are the same bytes in the same order.
proof fn lemma_elems_decode_u8_values(s: Seq<u8>, es1: Seq<u8>, n1: nat, es2: Seq<u8>, n2: nat)
    requires
        elems_decode_to(s, es1, n1),
        elems_decode_to(s, es2, n2),
        es1.len() == es2.len(),
    ensures
        es1 == es2,
    decreases es1.len(),
{
    if es1.len() > 0 {
        let m1 = choose|m: nat|
            m <= n1 && #[trigger] u8::decodes_to(s, es1[0], m) && elems_decode_to(
                s.skip(m as int),
                es1.skip(1),
                (n1 - m) as nat,
            );
        let m2 = choose|m: nat|
            m <= n2 && #[trigger] u8::decodes_to(s, es2[0], m) && elems_decode_to(
                s.skip(m as int),
                es2.skip(1),
                (n2 - m) as nat,
            );
        assert(m1 == 1 && m2 == 1);
        assert(es1[0] == es2[0]);
        lemma_elems_decode_u8_values(s.skip(1), es1.skip(1), (n1 - 1) as nat, es2.skip(1), (n2 - 1) as nat);
        assert forall|i: int| 0 <= i < es1.len() implies es1[i] == es2[i] by {
            if i > 0 {
                assert(es1.skip(1)[i - 1] == es2.skip(1)[i - 1]);
            }
        }
        assert(es1 =~= es2);
    } else {
        assert(es1 =~= es2);
    }
}

/// Law (sequence round-trip, order-preserving): the length-prefixed
/// encoding of a run of single-byte elements decodes back to exactly those
/// elements in their original order, whatever bytes follow; and no other
/// byte run can be decoded from it.
pub proof fn lemma_sequence_round_trip(v: Vec<u8>, rest: Seq<u8>)
    requires
        v@.len() <= u32::MAX,
        seq_guard_ok::<u8>(v@.len()),
    ensures
        <Vec<u8> as StacksMessageCodec>::decodes_to(v.encoding() + rest, v, v.encoding().len()),
        forall|w: Vec<u8>, n: nat|
            <Vec<u8> as StacksMessageCodec>::decodes_to(v.encoding() + rest, w, n) ==> w@ == v@,
{
    <Vec<u8> as StacksMessageCodec>::lemma_encoding_decodes(v, rest);
    let s = v.encoding() + rest;
    assert forall|w: Vec<u8>, n: nat|
        <Vec<u8> as StacksMessageCodec>::decodes_to(s, w, n) implies w@ == v@ by {
        lemma_elems_decode_u8_values(
            s.skip(4),
            w@,
            (n - 4) as nat,
            v@,
            (v.encoding().len() - 4) as nat,
        );
    }
}

} // verus!
