//! The codec core: byte sink and source, the error taxonomy, the [`Wire`]
//! trait that binds a declared type to its encode/decode pair, the primitive
//! scalar codecs the composite codecs delegate to, and the round-trip law.

use vstd::prelude::*;

verus! {

// ---------------------------------------------------------------------------
// Byte-sequence prefix reasoning
// ---------------------------------------------------------------------------

/// Does `p` stand at the front of `s`?
pub open spec fn prefix_of(p: Seq<u8>, s: Seq<u8>) -> bool {
    p.len() <= s.len() && s.subrange(0, p.len() as int) == p
}

/// A one-byte sequence.
pub open spec fn byte(b: u8) -> Seq<u8> {
    seq![b]
}

pub broadcast proof fn lemma_prefix_of_refl(s: Seq<u8>)
    ensures
        #[trigger] prefix_of(s, s),
{
    assert(s.subrange(0, s.len() as int) =~= s);
}

pub broadcast proof fn lemma_prefix_of_extend(s: Seq<u8>, t: Seq<u8>)
    ensures
        #[trigger] prefix_of(s, s + t),
{
    assert((s + t).subrange(0, s.len() as int) =~= s);
}

pub broadcast proof fn lemma_prefix_of_trans(a: Seq<u8>, b: Seq<u8>, c: Seq<u8>)
    requires
        #[trigger] prefix_of(a, b),
        #[trigger] prefix_of(b, c),
    ensures
        prefix_of(a, c),
{
    assert(c.subrange(0, a.len() as int) =~= a);
}

/// A concatenation is a prefix of a stream exactly when its first part is a
/// prefix and its second part is a prefix of what follows the first.
pub broadcast proof fn lemma_prefix_of_concat(a: Seq<u8>, b: Seq<u8>, s: Seq<u8>)
    ensures
        #[trigger] prefix_of(a + b, s) <==> (prefix_of(a, s) && prefix_of(
            b,
            s.skip(a.len() as int),
        )),
{
    if prefix_of(a + b, s) {
        assert(s.subrange(0, a.len() as int) =~= a);
        assert forall|i: int| 0 <= i < b.len() implies s.skip(a.len() as int)[i] == b[i] by {
            assert((a + b)[a.len() + i] == b[i]);
            assert(s.subrange(0, (a + b).len() as int)[a.len() + i] == s[a.len() + i]);
        }
        assert(s.skip(a.len() as int).subrange(0, b.len() as int) =~= b);
    }
    if prefix_of(a, s) && prefix_of(b, s.skip(a.len() as int)) {
        assert(s.subrange(0, (a + b).len() as int) =~= a + b);
    }
}

pub broadcast proof fn lemma_prefix_of_byte(b: u8, s: Seq<u8>)
    ensures
        #[trigger] prefix_of(byte(b), s) <==> (s.len() >= 1 && s[0] == b),
{
    if s.len() >= 1 && s[0] == b {
        assert(s.subrange(0, 1) =~= byte(b));
    }
    if prefix_of(byte(b), s) {
        assert(s.subrange(0, 1)[0] == s[0]);
    }
}

pub broadcast proof fn lemma_skip_skip(s: Seq<u8>, m: int, n: int)
    requires
        0 <= m,
        0 <= n,
        m + n <= s.len(),
    ensures
        (#[trigger] s.skip(m).skip(n)) == s.skip(m + n),
{
    assert(s.skip(m).skip(n) =~= s.skip(m + n));
}

pub broadcast proof fn lemma_push_is_add(s: Seq<u8>, b: u8)
    ensures
        (#[trigger] s.push(b)) == s + byte(b),
{
    assert(s.push(b) =~= s + byte(b));
}

pub broadcast proof fn lemma_add_empty_left(s: Seq<u8>)
    ensures
        (#[trigger] (Seq::<u8>::empty() + s)) == s,
{
    assert(Seq::<u8>::empty() + s =~= s);
}

pub broadcast proof fn lemma_le32_len(x: u32)
    ensures
        (#[trigger] le32(x)).len() == 4,
{
    reveal(le32);
}

pub broadcast proof fn lemma_le64_len(x: u64)
    ensures
        (#[trigger] le64(x)).len() == 8,
{
    reveal(le64);
}

pub broadcast group group_wire_axioms {
    lemma_le32_len,
    lemma_le64_len,
    lemma_prefix_of_refl,
    lemma_prefix_of_extend,
    lemma_prefix_of_trans,
    lemma_prefix_of_concat,
    lemma_prefix_of_byte,
    lemma_skip_skip,
    lemma_push_is_add,
    lemma_add_empty_left,
}

// ---------------------------------------------------------------------------
// Errors
// ---------------------------------------------------------------------------

/// The tagged unions a discriminant byte can fail to match, named so an
/// unknown-variant failure can say which union it was decoding.
#[derive(Clone, Copy, Debug, PartialEq, Eq, Structural)]
pub enum UnionName {
    BorderStyle,
    BoxShadowClipMode,
    DisplayListMode,
    FilterOp,
    FragmentType,
    ImageFormat,
    ImageRendering,
    MixBlendMode,
    ScrollLayerInfo,
    ScrollPolicy,
    SpecificDisplayItem,
}

/// Why a decode failed.  Failures surface immediately and verbatim; nothing
/// is constructed and nothing already consumed is un-read.
#[derive(Clone, Copy, Debug, PartialEq, Eq, Structural)]
pub enum DecodeError {
    /// The source ran out of bytes in the middle of a field.
    UnexpectedEnd,
    /// A discriminant byte matched no declared variant of the named union.
    UnknownVariant(UnionName),
    /// A decoded size value does not fit this platform's `usize`.
    SizeOutOfRange,
}

/// Why an encode failed.  Partial writes are not rolled back; the sink's
/// consistency is the sink's own responsibility.
#[derive(Clone, Copy, Debug, PartialEq, Eq, Structural)]
pub enum EncodeError {
    /// The sink's byte limit leaves no room for the field being written.
    SinkFull,
}

// ---------------------------------------------------------------------------
// Sink and source
// ---------------------------------------------------------------------------

/// An in-memory byte sink with a byte limit, standing in for whatever
/// transport carries the encoded stream.
pub struct Sink {
    pub bytes: Vec<u8>,
    pub limit: usize,
}

impl Sink {
    /// A sink bounded only by the address space.
    pub fn new() -> (s: Sink)
        ensures
            s.bytes@ == Seq::<u8>::empty(),
            s.limit == usize::MAX,
    {
        Sink { bytes: Vec::new(), limit: usize::MAX }
    }

    /// A sink that refuses to grow beyond `limit` bytes.
    pub fn with_limit(limit: usize) -> (s: Sink)
        ensures
            s.bytes@ == Seq::<u8>::empty(),
            s.limit == limit,
    {
        Sink { bytes: Vec::new(), limit }
    }

    /// Hands the encoded stream over.
    pub fn into_bytes(self) -> (v: Vec<u8>)
        ensures
            v@ == self.bytes@,
    {
        self.bytes
    }
}

/// A byte source: an encoded stream and a read position.
pub struct Source {
    pub bytes: Vec<u8>,
    pub pos: usize,
}

impl Source {
    /// The read position never passes the end of the stream.
    pub open spec fn inv(self) -> bool {
        self.pos <= self.bytes@.len()
    }

    /// The bytes not yet consumed.
    pub open spec fn rem(self) -> Seq<u8> {
        self.bytes@.skip(self.pos as int)
    }

    pub fn new(bytes: Vec<u8>) -> (s: Source)
        ensures
            s.inv(),
            s.bytes@ == bytes@,
            s.pos == 0,
            s.rem() == bytes@,
    {
        let s = Source { bytes, pos: 0 };
        proof {
            assert(s.rem() =~= s.bytes@);
        }
        s
    }

    /// How many bytes are left to read.
    pub fn remaining(&self) -> (n: usize)
        requires
            self.inv(),
        ensures
            n == self.rem().len(),
    {
        self.bytes.len() - self.pos
    }
}

// ---------------------------------------------------------------------------
// The codec trait
// ---------------------------------------------------------------------------

/// A type bound to its codec.
///
/// `wire` is the type's encoding relation: the exact byte sequence a value
/// puts on the wire.  `encode` appends exactly those bytes; `decode` reads
/// them back, and its contract makes the pair a bijection on well-formed
/// streams: whenever the unread bytes begin with `v.wire()`, decoding must
/// return `v` and consume exactly those bytes.
pub trait Wire: Sized {
    /// The bytes `self` puts on the wire.
    spec fn wire(&self) -> Seq<u8>;

    /// Append `self`'s encoding to the sink.  Succeeds exactly when the
    /// encoding fits under the sink's limit; on failure, bytes already
    /// written stay written.
    fn encode(&self, sink: &mut Sink) -> (r: Result<(), EncodeError>)
        ensures
            final(sink).limit == old(sink).limit,
            r is Ok <==> old(sink).bytes@.len() + self.wire().len() <= old(sink).limit as int,
            r is Ok ==> final(sink).bytes@ == old(sink).bytes@ + self.wire(),
            r is Err ==> prefix_of(old(sink).bytes@, final(sink).bytes@)
                && final(sink).bytes@.len() <= old(sink).bytes@.len() + self.wire().len()
                && r == Err::<(), EncodeError>(EncodeError::SinkFull),
    ;

    /// Read one value of `Self` from the source.  If the unread bytes begin
    /// with the encoding of some value, that value is returned and exactly
    /// its encoding is consumed; otherwise an error is returned, and bytes
    /// consumed before the failure stay consumed.
    fn decode(source: &mut Source) -> (r: Result<Self, DecodeError>)
        requires
            old(source).inv(),
        ensures
            final(source).inv(),
            final(source).bytes@ == old(source).bytes@,
            old(source).pos <= final(source).pos,
            r matches Ok(v) ==> final(source).pos == old(source).pos + v.wire().len() && prefix_of(
                v.wire(),
                old(source).rem(),
            ),
            forall|v: Self| #[trigger]
                prefix_of(v.wire(), old(source).rem()) ==> r == Ok::<Self, DecodeError>(v),
    ;
}

// ---------------------------------------------------------------------------
// Primitive codecs
// ---------------------------------------------------------------------------

/// An unsigned 32-bit value as four little-endian bytes.
#[verifier::opaque]
pub open spec fn le32(x: u32) -> Seq<u8> {
    seq![
        (x & 0xff) as u8,
        ((x >> 8) & 0xff) as u8,
        ((x >> 16) & 0xff) as u8,
        ((x >> 24) & 0xff) as u8,
    ]
}

/// An unsigned 64-bit value as eight little-endian bytes.
#[verifier::opaque]
pub open spec fn le64(x: u64) -> Seq<u8> {
    seq![
        (x & 0xff) as u8,
        ((x >> 8) & 0xff) as u8,
        ((x >> 16) & 0xff) as u8,
        ((x >> 24) & 0xff) as u8,
        ((x >> 32) & 0xff) as u8,
        ((x >> 40) & 0xff) as u8,
        ((x >> 48) & 0xff) as u8,
        ((x >> 56) & 0xff) as u8,
    ]
}

proof fn lemma_le32_reassemble(x: u32, b0: u8, b1: u8, b2: u8, b3: u8)
    requires
        x == (b0 as u32) | ((b1 as u32) << 8) | ((b2 as u32) << 16) | ((b3 as u32) << 24),
    ensures
        (x & 0xff) as u8 == b0,
        ((x >> 8) & 0xff) as u8 == b1,
        ((x >> 16) & 0xff) as u8 == b2,
        ((x >> 24) & 0xff) as u8 == b3,
{
    assert((x & 0xff) as u8 == b0 && ((x >> 8) & 0xff) as u8 == b1 && ((x >> 16) & 0xff) as u8
        == b2 && ((x >> 24) & 0xff) as u8 == b3) by (bit_vector)
        requires
            x == (b0 as u32) | ((b1 as u32) << 8) | ((b2 as u32) << 16) | ((b3 as u32) << 24),
    ;
}

proof fn lemma_le32_injective(x: u32, v: u32)
    requires
        le32(x) == le32(v),
    ensures
        x == v,
{
    reveal(le32);
    assert(le32(x)[0] == le32(v)[0]);
    assert(le32(x)[1] == le32(v)[1]);
    assert(le32(x)[2] == le32(v)[2]);
    assert(le32(x)[3] == le32(v)[3]);
    assert(x == v) by (bit_vector)
        requires
            (x & 0xff) as u8 == (v & 0xff) as u8,
            ((x >> 8) & 0xff) as u8 == ((v >> 8) & 0xff) as u8,
            ((x >> 16) & 0xff) as u8 == ((v >> 16) & 0xff) as u8,
            ((x >> 24) & 0xff) as u8 == ((v >> 24) & 0xff) as u8,
    ;
}

proof fn lemma_le64_reassemble(x: u64, b0: u8, b1: u8, b2: u8, b3: u8, b4: u8, b5: u8, b6: u8, b7: u8)
    requires
        x == (b0 as u64) | ((b1 as u64) << 8) | ((b2 as u64) << 16) | ((b3 as u64) << 24) | ((b4
            as u64) << 32) | ((b5 as u64) << 40) | ((b6 as u64) << 48) | ((b7 as u64) << 56),
    ensures
        (x & 0xff) as u8 == b0,
        ((x >> 8) & 0xff) as u8 == b1,
        ((x >> 16) & 0xff) as u8 == b2,
        ((x >> 24) & 0xff) as u8 == b3,
        ((x >> 32) & 0xff) as u8 == b4,
        ((x >> 40) & 0xff) as u8 == b5,
        ((x >> 48) & 0xff) as u8 == b6,
        ((x >> 56) & 0xff) as u8 == b7,
{
    assert((x & 0xff) as u8 == b0 && ((x >> 8) & 0xff) as u8 == b1 && ((x >> 16) & 0xff) as u8
        == b2 && ((x >> 24) & 0xff) as u8 == b3 && ((x >> 32) & 0xff) as u8 == b4 && ((x >> 40)
        & 0xff) as u8 == b5 && ((x >> 48) & 0xff) as u8 == b6 && ((x >> 56) & 0xff) as u8 == b7)
        by (bit_vector)
        requires
            x == (b0 as u64) | ((b1 as u64) << 8) | ((b2 as u64) << 16) | ((b3 as u64) << 24) | (
            (b4 as u64) << 32) | ((b5 as u64) << 40) | ((b6 as u64) << 48) | ((b7 as u64) << 56),
    ;
}

proof fn lemma_le64_injective(x: u64, v: u64)
    requires
        le64(x) == le64(v),
    ensures
        x == v,
{
    reveal(le64);
    assert(le64(x)[0] == le64(v)[0]);
    assert(le64(x)[1] == le64(v)[1]);
    assert(le64(x)[2] == le64(v)[2]);
    assert(le64(x)[3] == le64(v)[3]);
    assert(le64(x)[4] == le64(v)[4]);
    assert(le64(x)[5] == le64(v)[5]);
    assert(le64(x)[6] == le64(v)[6]);
    assert(le64(x)[7] == le64(v)[7]);
    assert(x == v) by (bit_vector)
        requires
            (x & 0xff) as u8 == (v & 0xff) as u8,
            ((x >> 8) & 0xff) as u8 == ((v >> 8) & 0xff) as u8,
            ((x >> 16) & 0xff) as u8 == ((v >> 16) & 0xff) as u8,
            ((x >> 24) & 0xff) as u8 == ((v >> 24) & 0xff) as u8,
            ((x >> 32) & 0xff) as u8 == ((v >> 32) & 0xff) as u8,
            ((x >> 40) & 0xff) as u8 == ((v >> 40) & 0xff) as u8,
            ((x >> 48) & 0xff) as u8 == ((v >> 48) & 0xff) as u8,
            ((x >> 56) & 0xff) as u8 == ((v >> 56) & 0xff) as u8,
    ;
}

impl Wire for u8 {
    open spec fn wire(&self) -> Seq<u8> {
        byte(*self)
    }

    fn encode(&self, sink: &mut Sink) -> (r: Result<(), EncodeError>) {
        broadcast use group_wire_axioms;

        if sink.bytes.len() <= sink.limit && sink.limit - sink.bytes.len() >= 1 {
            sink.bytes.push(*self);
            Ok(())
        } else {
            Err(EncodeError::SinkFull)
        }
    }

    fn decode(source: &mut Source) -> (r: Result<u8, DecodeError>)
        ensures
            r is Ok <==> old(source).rem().len() >= 1,
            r is Err ==> r == Err::<u8, DecodeError>(DecodeError::UnexpectedEnd) && final(source).pos == old(source).pos,
    {
        broadcast use group_wire_axioms;

        if source.bytes.len() - source.pos >= 1 {
            let b: u8 = source.bytes[source.pos];
            source.pos = source.pos + 1;
            Ok(b)
        } else {
            Err(DecodeError::UnexpectedEnd)
        }
    }
}

impl Wire for u32 {
    open spec fn wire(&self) -> Seq<u8> {
        le32(*self)
    }

    fn encode(&self, sink: &mut Sink) -> (r: Result<(), EncodeError>) {
        broadcast use group_wire_axioms;

        if sink.bytes.len() <= sink.limit && sink.limit - sink.bytes.len() >= 4 {
            let x: u32 = *self;
            sink.bytes.push((x & 0xff) as u8);
            sink.bytes.push(((x >> 8) & 0xff) as u8);
            sink.bytes.push(((x >> 16) & 0xff) as u8);
            sink.bytes.push(((x >> 24) & 0xff) as u8);
            proof {
                reveal(le32);
                assert(sink.bytes@ =~= old(sink).bytes@ + le32(x));
            }
            Ok(())
        } else {
            Err(EncodeError::SinkFull)
        }
    }

    fn decode(source: &mut Source) -> (r: Result<u32, DecodeError>)
        ensures
            r is Ok <==> old(source).rem().len() >= 4,
            r is Err ==> r == Err::<u32, DecodeError>(DecodeError::UnexpectedEnd) && final(source).pos == old(source).pos,
    {
        proof {
            reveal(le32);
        }
        if source.bytes.len() - source.pos >= 4 {
            let b0: u8 = source.bytes[source.pos];
            let b1: u8 = source.bytes[source.pos + 1];
            let b2: u8 = source.bytes[source.pos + 2];
            let b3: u8 = source.bytes[source.pos + 3];
            let x: u32 = (b0 as u32) | ((b1 as u32) << 8) | ((b2 as u32) << 16) | ((b3
                as u32) << 24);
            source.pos = source.pos + 4;
            proof {
                lemma_le32_reassemble(x, b0, b1, b2, b3);
                assert(le32(x) =~= old(source).rem().subrange(0, 4));
                assert(prefix_of(le32(x), old(source).rem()));
                assert forall|v: u32| prefix_of(v.wire(), old(source).rem()) implies v == x by {
                    assert(le32(v) == old(source).rem().subrange(0, 4));
                    lemma_le32_injective(x, v);
                }
            }
            Ok(x)
        } else {
            Err(DecodeError::UnexpectedEnd)
        }
    }
}

impl Wire for u64 {
    open spec fn wire(&self) -> Seq<u8> {
        le64(*self)
    }

    fn encode(&self, sink: &mut Sink) -> (r: Result<(), EncodeError>) {
        broadcast use group_wire_axioms;

        if sink.bytes.len() <= sink.limit && sink.limit - sink.bytes.len() >= 8 {
            let x: u64 = *self;
            sink.bytes.push((x & 0xff) as u8);
            sink.bytes.push(((x >> 8) & 0xff) as u8);
            sink.bytes.push(((x >> 16) & 0xff) as u8);
            sink.bytes.push(((x >> 24) & 0xff) as u8);
            sink.bytes.push(((x >> 32) & 0xff) as u8);
            sink.bytes.push(((x >> 40) & 0xff) as u8);
            sink.bytes.push(((x >> 48) & 0xff) as u8);
            sink.bytes.push(((x >> 56) & 0xff) as u8);
            proof {
                reveal(le64);
                assert(sink.bytes@ =~= old(sink).bytes@ + le64(x));
            }
            Ok(())
        } else {
            Err(EncodeError::SinkFull)
        }
    }

    fn decode(source: &mut Source) -> (r: Result<u64, DecodeError>)
        ensures
            r is Ok <==> old(source).rem().len() >= 8,
            r is Err ==> r == Err::<u64, DecodeError>(DecodeError::UnexpectedEnd) && final(source).pos == old(source).pos,
    {
        proof {
            reveal(le64);
        }
        if source.bytes.len() - source.pos >= 8 {
            let b0: u8 = source.bytes[source.pos];
            let b1: u8 = source.bytes[source.pos + 1];
            let b2: u8 = source.bytes[source.pos + 2];
            let b3: u8 = source.bytes[source.pos + 3];
            let b4: u8 = source.bytes[source.pos + 4];
            let b5: u8 = source.bytes[source.pos + 5];
            let b6: u8 = source.bytes[source.pos + 6];
            let b7: u8 = source.bytes[source.pos + 7];
            let x: u64 = (b0 as u64) | ((b1 as u64) << 8) | ((b2 as u64) << 16) | ((b3
                as u64) << 24) | ((b4 as u64) << 32) | ((b5 as u64) << 40) | ((b6 as u64) << 48)
                | ((b7 as u64) << 56);
            source.pos = source.pos + 8;
            proof {
                lemma_le64_reassemble(x, b0, b1, b2, b3, b4, b5, b6, b7);
                assert(le64(x) =~= old(source).rem().subrange(0, 8));
                assert(prefix_of(le64(x), old(source).rem()));
                assert forall|v: u64| prefix_of(v.wire(), old(source).rem()) implies v == x by {
                    assert(le64(v) == old(source).rem().subrange(0, 8));
                    lemma_le64_injective(x, v);
                }
            }
            Ok(x)
        } else {
            Err(DecodeError::UnexpectedEnd)
        }
    }
}

impl Wire for usize {
    open spec fn wire(&self) -> Seq<u8> {
        le64(*self as u64)
    }

    fn encode(&self, sink: &mut Sink) -> (r: Result<(), EncodeError>) {
        let wide: u64 = *self as u64;
        wide.encode(sink)
    }

    fn decode(source: &mut Source) -> (r: Result<usize, DecodeError>)
        ensures
            old(source).rem().len() < 8 ==> r == Err::<usize, DecodeError>(
                DecodeError::UnexpectedEnd,
            ) && final(source).pos == old(source).pos,
            r == Err::<usize, DecodeError>(DecodeError::SizeOutOfRange) ==> old(
                source,
            ).rem().len() >= 8,
    {
        let ghost rem0 = old(source).rem();
        let wide: u64 = match u64::decode(source) {
            Ok(x) => x,
            Err(e) => {
                proof {
                    assert forall|v: usize| prefix_of(v.wire(), rem0) implies false by {
                        let u: u64 = v as u64;
                        assert(prefix_of(u.wire(), rem0));
                    }
                }
                return Err(e);
            },
        };
        if wide <= usize::MAX as u64 {
            proof {
                assert forall|v: usize| prefix_of(v.wire(), rem0) implies v == wide as usize by {
                    let u: u64 = v as u64;
                    assert(prefix_of(u.wire(), rem0));
                }
            }
            Ok(wide as usize)
        } else {
            proof {
                assert forall|v: usize| prefix_of(v.wire(), rem0) implies false by {
                    let u: u64 = v as u64;
                    assert(prefix_of(u.wire(), rem0));
                }
            }
            Err(DecodeError::SizeOutOfRange)
        }
    }
}

impl Wire for i32 {
    open spec fn wire(&self) -> Seq<u8> {
        le32(*self as u32)
    }

    fn encode(&self, sink: &mut Sink) -> (r: Result<(), EncodeError>) {
        let bits: u32 = *self as u32;
        bits.encode(sink)
    }

    fn decode(source: &mut Source) -> (r: Result<i32, DecodeError>)
        ensures
            r is Ok <==> old(source).rem().len() >= 4,
            r is Err ==> r == Err::<i32, DecodeError>(DecodeError::UnexpectedEnd) && final(source).pos == old(source).pos,
    {
        let ghost rem0 = old(source).rem();
        let bits: u32 = match u32::decode(source) {
            Ok(x) => x,
            Err(e) => {
                proof {
                    assert forall|v: i32| prefix_of(v.wire(), rem0) implies false by {
                        let u: u32 = v as u32;
                        assert(prefix_of(u.wire(), rem0));
                    }
                }
                return Err(e);
            },
        };
        proof {
            assert forall|v: i32| prefix_of(v.wire(), rem0) implies v == bits as i32 by {
                let u: u32 = v as u32;
                assert(prefix_of(u.wire(), rem0));
                assert(((v as u32) as i32) == v) by (bit_vector);
            }
            assert(((bits as i32) as u32) == bits) by (bit_vector);
        }
        Ok(bits as i32)
    }
}

// ---------------------------------------------------------------------------
// The round-trip law
// ---------------------------------------------------------------------------

/// Round trip: for every type bound to a codec and every value of it,
/// decoding the encoding returns the original value, field for field.
pub fn round_trip<T: Wire>(v: &T) -> (r: Result<T, DecodeError>)
    requires
        v.wire().len() <= usize::MAX as int,
    ensures
        r == Ok::<T, DecodeError>(*v),
{
    broadcast use group_wire_axioms;

    let mut sink = Sink::new();
    let outcome = v.encode(&mut sink);
    proof {
        assert(outcome is Ok);
        assert(sink.bytes@ == v.wire());
    }
    let mut source = Source::new(sink.into_bytes());
    proof {
        assert(prefix_of(v.wire(), source.rem()));
    }
    T::decode(&mut source)
}

} // verus!
