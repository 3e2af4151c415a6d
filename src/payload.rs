use vstd::prelude::*;

verus! {

/// The most bytes of one stream payload that are kept.
pub const MAX_STREAM_SIZE: usize = 1048576;

/// `s`, cut to its first `MAX_STREAM_SIZE` bytes.
pub open spec fn bounded(s: Seq<u8>) -> Seq<u8> {
    if s.len() <= MAX_STREAM_SIZE {
        s
    } else {
        s.take(MAX_STREAM_SIZE as int)
    }
}

/// The chunks of a stream, one after the other.
pub open spec fn joined(chunks: Seq<Seq<u8>>) -> Seq<u8>
    decreases chunks.len(),
{
    if chunks.len() == 0 {
        Seq::empty()
    } else {
        joined(chunks.drop_last()) + chunks.last()
    }
}

/// What a buffer holds after the chunks were appended to it one by one.
pub open spec fn accumulated(start: Seq<u8>, chunks: Seq<Seq<u8>>) -> Seq<u8>
    decreases chunks.len(),
{
    if chunks.len() == 0 {
        start
    } else {
        bounded(accumulated(start, chunks.drop_last()) + chunks.last())
    }
}

/// Text of a byte payload, each malformed UTF-8 sequence replaced by U+FFFD.
pub uninterp spec fn lossy_text(bytes: Seq<u8>) -> Seq<char>;

/// The characters of bytes that are all ASCII.
pub open spec fn ascii_chars(bytes: Seq<u8>) -> Seq<char> {
    bytes.map_values(|b: u8| b as char)
}

pub open spec fn all_ascii(bytes: Seq<u8>) -> bool {
    forall|i: int| 0 <= i < bytes.len() ==> #[trigger] bytes[i] < 128
}

/// Relies on `String::from_utf8_lossy`: it decodes the bytes as UTF-8,
/// replacing each malformed sequence, so that the result depends on the bytes
/// alone; ASCII bytes, being valid UTF-8, come back as the same characters.
#[verifier::external_body]
fn from_utf8_lossy(bytes: &[u8]) -> (r: String)
    ensures
        r@ == lossy_text(bytes@),
        all_ascii(bytes@) ==> r@ == ascii_chars(bytes@),
{
    String::from_utf8_lossy(bytes).into_owned()
}

/// The text of a received payload; malformed UTF-8 never fails, it is
/// replaced.
pub fn decode_text(payload: &[u8]) -> (r: String)
    ensures
        r@ == lossy_text(payload@),
        all_ascii(payload@) ==> r@ == ascii_chars(payload@),
{
    from_utf8_lossy(payload)
}

/// Appends what a read returned to the payload buffer, keeping no more than
/// `MAX_STREAM_SIZE` bytes in all; returns whether the buffer is now full, so
/// that reading can stop.
pub fn append_bounded(buf: &mut Vec<u8>, chunk: &[u8]) -> (full: bool)
    requires
        old(buf)@.len() <= MAX_STREAM_SIZE,
    ensures
        final(buf)@ == bounded(old(buf)@ + chunk@),
        final(buf)@.len() <= MAX_STREAM_SIZE,
        full == (final(buf)@.len() == MAX_STREAM_SIZE),
{
    let room: usize = MAX_STREAM_SIZE - buf.len();
    let n: usize = if chunk.len() < room { chunk.len() } else { room };
    let ghost start = buf@;
    let mut i: usize = 0;
    while i < n
        invariant
            n <= chunk@.len(),
            start.len() + n <= MAX_STREAM_SIZE,
            i <= n,
            buf@ == start + chunk@.take(i as int),
        decreases n - i,
    {
        buf.push(chunk[i]);
        i = i + 1;
        assert(chunk@.take(i as int) == chunk@.take(i - 1).push(chunk@[i - 1]));
    }
    assert(buf@ == bounded(start + chunk@));
    buf.len() == MAX_STREAM_SIZE
}

/// Reading a stream never holds more than `MAX_STREAM_SIZE` bytes, and what
/// it holds is fixed by the bytes sent: however the transport cut the payload
/// into chunks, an empty buffer fed those chunks ends as the first
/// `MAX_STREAM_SIZE` bytes of the whole payload.
pub proof fn lemma_reading_is_bounded(chunks: Seq<Seq<u8>>)
    ensures
        accumulated(Seq::empty(), chunks) == bounded(joined(chunks)),
        accumulated(Seq::empty(), chunks).len() <= MAX_STREAM_SIZE,
    decreases chunks.len(),
{
    if chunks.len() > 0 {
        let prev = chunks.drop_last();
        lemma_reading_is_bounded(prev);
        lemma_bounded_absorbs(joined(prev), chunks.last());
    }
}

/// Cutting before appending more changes nothing once the result is cut.
pub proof fn lemma_bounded_absorbs(a: Seq<u8>, b: Seq<u8>)
    ensures
        bounded(bounded(a) + b) == bounded(a + b),
{
    let m = MAX_STREAM_SIZE as int;
    if a.len() > m {
        assert(bounded(bounded(a) + b) =~= bounded(a + b));
    } else {
        assert(bounded(a) == a);
    }
}

} // verus!
