//! Decoding the fixed-capacity audio buffer-list structure.
//!
//! The framework delivers audio as a header block that mirrors a C
//! structure — a descriptor count followed by a fixed number of descriptor
//! slots — together with a payload block the descriptors point into. The
//! foreign pointer of each descriptor is represented here as an offset into
//! that payload block, so the decoder works on plain bytes and every copy it
//! produces owns its memory outright: nothing the decoder returns aliases
//! the blocks it read.

use vstd::prelude::*;
use crate::errors::SampleDecodeError;

verus! {

/// The fixed capacity of the mirrored structure: at most this many
/// descriptors, whatever the count field claims.
pub const MAX_AUDIO_BUFFERS: usize = 8;

/// Bytes of one descriptor slot in the header block: channel count, payload
/// size and payload offset, each a little-endian 32-bit value.
pub const AUDIO_BUFFER_ENTRY_BYTES: usize = 12;

/// Bytes of the whole header block: the count field followed by the eight
/// descriptor slots.
pub const AUDIO_BUFFER_LIST_HEADER_BYTES: usize = 100;

/// The little-endian 32-bit value at `off`.
pub open spec fn le_u32_at(s: Seq<u8>, off: int) -> int {
    s[off] + 0x100 * s[off + 1] + 0x10000 * s[off + 2] + 0x1000000 * s[off + 3]
}

/// The four little-endian bytes of a 32-bit value.
pub open spec fn le_bytes(x: u32) -> Seq<u8> {
    seq![
        (x & 0xff) as u8,
        ((x >> 8) & 0xff) as u8,
        ((x >> 16) & 0xff) as u8,
        ((x >> 24) & 0xff) as u8,
    ]
}

/// One descriptor of the mirrored structure. The foreign layout carries a
/// raw payload pointer; here it is an offset into the payload block the
/// descriptor arrived with.
#[derive(Copy, Clone, PartialEq, Eq, Structural, Debug)]
pub struct AudioBuffer {
    pub number_channels: u32,
    pub data_bytes_size: u32,
    pub data_offset: u32,
}

/// The mirrored buffer-list structure: a count and the fixed array of
/// descriptor slots.
pub struct AudioBufferList {
    pub number_buffers: u32,
    pub buffers: Vec<AudioBuffer>,
}

/// The mathematical image of an `AudioBufferList`.
pub ghost struct AudioBufferListView {
    pub number_buffers: u32,
    pub buffers: Seq<AudioBuffer>,
}

impl View for AudioBufferList {
    type V = AudioBufferListView;

    open spec fn view(&self) -> AudioBufferListView {
        AudioBufferListView { number_buffers: self.number_buffers, buffers: self.buffers@ }
    }
}

impl AudioBufferList {
    /// Every list the parser hands out keeps all eight slots and a count
    /// within capacity.
    pub open spec fn wf(self) -> bool {
        self.buffers@.len() == MAX_AUDIO_BUFFERS && self.number_buffers <= MAX_AUDIO_BUFFERS
    }
}

/// An owned copy of one descriptor's payload; the only audio representation
/// that may outlive the callback that produced it.
pub struct CopiedAudioBuffer {
    pub number_channels: u32,
    pub data: Vec<u8>,
}

/// The mathematical image of a `CopiedAudioBuffer`.
pub ghost struct AudioBufferView {
    pub number_channels: u32,
    pub data: Seq<u8>,
}

impl View for CopiedAudioBuffer {
    type V = AudioBufferView;

    open spec fn view(&self) -> AudioBufferView {
        AudioBufferView { number_channels: self.number_channels, data: self.data@ }
    }
}

/// The images of a sequence of copied buffers.
pub open spec fn views_of(s: Seq<CopiedAudioBuffer>) -> Seq<AudioBufferView> {
    s.map_values(|c: CopiedAudioBuffer| c@)
}

/// The descriptor parsed from slot `i` of a header block.
pub open spec fn spec_descriptor_at(h: Seq<u8>, i: int) -> AudioBuffer {
    AudioBuffer {
        number_channels: le_u32_at(h, 4 + 12 * i) as u32,
        data_bytes_size: le_u32_at(h, 8 + 12 * i) as u32,
        data_offset: le_u32_at(h, 12 + 12 * i) as u32,
    }
}

/// How a header block parses: a block of the wrong size or a count beyond
/// the fixed capacity is a decode error; otherwise every slot is read.
pub open spec fn spec_parse_buffer_list(h: Seq<u8>) -> Result<
    AudioBufferListView,
    SampleDecodeError,
> {
    if h.len() != AUDIO_BUFFER_LIST_HEADER_BYTES {
        Err(SampleDecodeError::WrongHeaderLength)
    } else if le_u32_at(h, 0) > MAX_AUDIO_BUFFERS {
        Err(SampleDecodeError::TooManyBuffers)
    } else {
        Ok(
            AudioBufferListView {
                number_buffers: le_u32_at(h, 0) as u32,
                buffers: Seq::new(MAX_AUDIO_BUFFERS as nat, |i: int| spec_descriptor_at(h, i)),
            },
        )
    }
}

/// Whether a descriptor's payload lies inside a payload block of the given
/// length.
pub open spec fn descriptor_in_range(d: AudioBuffer, arena_len: int) -> bool {
    d.data_offset + d.data_bytes_size <= arena_len
}

/// The owned copy a descriptor yields from a payload block.
pub open spec fn spec_copied(d: AudioBuffer, arena: Seq<u8>) -> AudioBufferView {
    AudioBufferView {
        number_channels: d.number_channels,
        data: arena.subrange(d.data_offset as int, d.data_offset + d.data_bytes_size),
    }
}

/// How the counted descriptors copy out of a payload block: any descriptor
/// pointing outside the block is a decode error; otherwise exactly
/// `number_buffers` owned copies come back, in slot order.
pub open spec fn spec_copy_buffers(l: AudioBufferListView, arena: Seq<u8>) -> Result<
    Seq<AudioBufferView>,
    SampleDecodeError,
> {
    if exists|i: int|
        0 <= i < l.number_buffers && !descriptor_in_range(#[trigger] l.buffers[i], arena.len() as int) {
        Err(SampleDecodeError::BufferOutOfRange)
    } else {
        Ok(Seq::new(l.number_buffers as nat, |i: int| spec_copied(l.buffers[i], arena)))
    }
}

/// The whole decode: parse the header block, then copy the payloads.
pub open spec fn spec_decode_buffer_list(h: Seq<u8>, arena: Seq<u8>) -> Result<
    Seq<AudioBufferView>,
    SampleDecodeError,
> {
    match spec_parse_buffer_list(h) {
        Err(e) => Err(e),
        Ok(l) => spec_copy_buffers(l, arena),
    }
}

/// Reads the little-endian 32-bit value at `off`.
pub fn read_le_u32(bytes: &[u8], off: usize) -> (r: u32)
    requires
        off + 4 <= bytes@.len(),
    ensures
        r == le_u32_at(bytes@, off as int),
{
    (bytes[off] as u32) + 0x100 * (bytes[off + 1] as u32) + 0x10000 * (bytes[off + 2] as u32)
        + 0x1000000 * (bytes[off + 3] as u32)
}

/// Copies `len` bytes starting at `off` into a fresh owned buffer.
fn copy_range(bytes: &[u8], off: usize, len: usize) -> (r: Vec<u8>)
    requires
        off + len <= bytes@.len(),
    ensures
        r@ == bytes@.subrange(off as int, off + len),
{
    let n: usize = bytes.len();
    let mut r: Vec<u8> = Vec::new();
    let mut k: usize = 0;
    while k < len
        invariant
            k <= len,
            off + len <= n,
            n == bytes@.len(),
            r@.len() == k,
            forall|j: int| 0 <= j < k ==> r@[j] == bytes@[off + j],
        decreases len - k,
    {
        r.push(bytes[off + k]);
        k += 1;
    }
    proof {
        assert(r@ =~= bytes@.subrange(off as int, off + len));
    }
    r
}

/// Parses the header block of a delivered buffer list.
///
/// Returns the mirrored structure when the block has the fixed size and a
/// count within capacity, and the exact decode error otherwise.
pub fn parse_audio_buffer_list(header: &[u8]) -> (r: Result<AudioBufferList, SampleDecodeError>)
    ensures
        spec_parse_buffer_list(header@) matches Ok(lv) ==> (r matches Ok(l) && l@ == lv && l.wf()),
        spec_parse_buffer_list(header@) matches Err(e) ==> r == Err::<
            AudioBufferList,
            SampleDecodeError,
        >(e),
{
    if header.len() != AUDIO_BUFFER_LIST_HEADER_BYTES {
        return Err(SampleDecodeError::WrongHeaderLength);
    }
    let count: u32 = read_le_u32(header, 0);
    if count > 8 {
        return Err(SampleDecodeError::TooManyBuffers);
    }
    let mut buffers: Vec<AudioBuffer> = Vec::new();
    let mut i: usize = 0;
    while i < 8
        invariant
            i <= 8,
            header@.len() == AUDIO_BUFFER_LIST_HEADER_BYTES,
            buffers@.len() == i,
            forall|j: int| 0 <= j < i ==> buffers@[j] == spec_descriptor_at(header@, j),
        decreases 8 - i,
    {
        let number_channels: u32 = read_le_u32(header, 4 + 12 * i);
        let data_bytes_size: u32 = read_le_u32(header, 8 + 12 * i);
        let data_offset: u32 = read_le_u32(header, 12 + 12 * i);
        buffers.push(AudioBuffer { number_channels, data_bytes_size, data_offset });
        i += 1;
    }
    let list = AudioBufferList { number_buffers: count, buffers };
    proof {
        let lv = spec_parse_buffer_list(header@)->Ok_0;
        assert(list@.buffers =~= lv.buffers);
    }
    Ok(list)
}

/// Copies the payload of each counted descriptor out of the payload block.
///
/// Succeeds with exactly `number_buffers` owned copies, in slot order, when
/// every counted descriptor lies inside the block; reports a decode error
/// otherwise, never a partial result.
pub fn copy_audio_buffers(list: &AudioBufferList, arena: &[u8]) -> (r: Result<
    Vec<CopiedAudioBuffer>,
    SampleDecodeError,
>)
    requires
        list.wf(),
    ensures
        spec_copy_buffers(list@, arena@) matches Ok(bvs) ==> (r matches Ok(v) && views_of(v@)
            == bvs),
        spec_copy_buffers(list@, arena@) matches Err(e) ==> r == Err::<
            Vec<CopiedAudioBuffer>,
            SampleDecodeError,
        >(e),
{
    let count: usize = list.number_buffers as usize;
    let mut out: Vec<CopiedAudioBuffer> = Vec::new();
    let mut i: usize = 0;
    while i < count
        invariant
            i <= count,
            count == list.number_buffers,
            list.wf(),
            out@.len() == i,
            forall|j: int|
                0 <= j < i ==> descriptor_in_range(#[trigger] list@.buffers[j], arena@.len() as int),
            forall|j: int| 0 <= j < i ==> out@[j]@ == spec_copied(list@.buffers[j], arena@),
        decreases count - i,
    {
        let d: AudioBuffer = list.buffers[i];
        if !(d.data_offset as u64 + d.data_bytes_size as u64 <= arena.len() as u64) {
            proof {
                assert(!descriptor_in_range(list@.buffers[i as int], arena@.len() as int));
            }
            return Err(SampleDecodeError::BufferOutOfRange);
        }
        let data: Vec<u8> = copy_range(arena, d.data_offset as usize, d.data_bytes_size as usize);
        out.push(CopiedAudioBuffer { number_channels: d.number_channels, data });
        i += 1;
    }
    proof {
        let bvs = spec_copy_buffers(list@, arena@)->Ok_0;
        assert(views_of(out@) =~= bvs);
    }
    Ok(out)
}

/// Total payload bytes of a sequence of buffer images.
pub open spec fn total_data_len(s: Seq<AudioBufferView>) -> int
    decreases s.len(),
{
    if s.len() == 0 {
        0
    } else {
        total_data_len(s.drop_last()) + s.last().data.len()
    }
}

pub proof fn lemma_total_nonneg(s: Seq<AudioBufferView>)
    ensures
        total_data_len(s) >= 0,
    decreases s.len(),
{
    if s.len() > 0 {
        lemma_total_nonneg(s.drop_last());
    }
}

pub proof fn lemma_total_take_step(s: Seq<AudioBufferView>, i: int)
    requires
        0 <= i < s.len(),
    ensures
        total_data_len(s.take(i + 1)) == total_data_len(s.take(i)) + s[i].data.len(),
{
    assert(s.take(i + 1).drop_last() =~= s.take(i));
    assert(s.take(i + 1).last() == s[i]);
}

pub proof fn lemma_total_take_le(s: Seq<AudioBufferView>, i: int)
    requires
        0 <= i <= s.len(),
    ensures
        total_data_len(s.take(i)) <= total_data_len(s),
    decreases s.len() - i,
{
    if i == s.len() {
        assert(s.take(i) =~= s);
    } else {
        lemma_total_take_step(s, i);
        lemma_total_take_le(s, i + 1);
    }
}

pub proof fn lemma_total_take_mono(s: Seq<AudioBufferView>, a: int, b: int)
    requires
        0 <= a <= b <= s.len(),
    ensures
        total_data_len(s.take(a)) <= total_data_len(s.take(b)),
    decreases b - a,
{
    if a < b {
        lemma_total_take_step(s, a);
        lemma_total_take_mono(s, a + 1, b);
    }
}

pub proof fn lemma_element_le_total(s: Seq<AudioBufferView>, j: int)
    requires
        0 <= j < s.len(),
    ensures
        s[j].data.len() <= total_data_len(s),
{
    lemma_total_take_step(s, j);
    lemma_total_nonneg(s.take(j));
    lemma_total_take_le(s, j + 1);
}

proof fn lemma_le_bytes_value(x: u32)
    ensures
        le_bytes(x).len() == 4,
        le_u32_at(le_bytes(x), 0) == x,
{
    assert(x & 0xff < 256 && (x >> 8) & 0xff < 256 && (x >> 16) & 0xff < 256 && (x >> 24) & 0xff
        < 256) by (bit_vector);
    assert((x & 0xff) + 0x100 * ((x >> 8) & 0xff) + 0x10000 * ((x >> 16) & 0xff) + 0x1000000 * ((x
        >> 24) & 0xff) == x) by (bit_vector);
}

proof fn lemma_le_u32_at_of(s: Seq<u8>, off: int, x: u32)
    requires
        0 <= off,
        off + 4 <= s.len(),
        s.subrange(off, off + 4) == le_bytes(x),
    ensures
        le_u32_at(s, off) == x,
{
    lemma_le_bytes_value(x);
    assert(s[off] == s.subrange(off, off + 4)[0]);
    assert(s[off + 1] == s.subrange(off, off + 4)[1]);
    assert(s[off + 2] == s.subrange(off, off + 4)[2]);
    assert(s[off + 3] == s.subrange(off, off + 4)[3]);
}

/// Appends the four little-endian bytes of a 32-bit value.
fn write_le_u32(out: &mut Vec<u8>, x: u32)
    ensures
        final(out)@ == old(out)@ + le_bytes(x),
{
    out.push((x & 0xff) as u8);
    out.push(((x >> 8) & 0xff) as u8);
    out.push(((x >> 16) & 0xff) as u8);
    out.push(((x >> 24) & 0xff) as u8);
    proof {
        assert(out@ =~= old(out)@ + le_bytes(x));
    }
}

/// Appends a copy of the given bytes.
fn append_bytes(out: &mut Vec<u8>, bytes: &Vec<u8>)
    ensures
        final(out)@ == old(out)@ + bytes@,
{
    let mut k: usize = 0;
    while k < bytes.len()
        invariant
            k <= bytes@.len(),
            out@.len() == old(out)@.len() + k,
            out@ == old(out)@ + bytes@.subrange(0, k as int),
        decreases bytes@.len() - k,
    {
        out.push(bytes[k]);
        proof {
            assert(out@ =~= old(out)@ + bytes@.subrange(0, k + 1));
        }
        k += 1;
    }
    proof {
        assert(bytes@.subrange(0, bytes@.len() as int) =~= bytes@);
    }
}

/// The descriptor that encoding writes into slot `j`: the payloads sit in
/// the payload block one after another, so slot `j` points at the total
/// length of everything before it.
pub open spec fn spec_encoded_descriptor(vs: Seq<AudioBufferView>, j: int) -> AudioBuffer {
    AudioBuffer {
        number_channels: vs[j].number_channels,
        data_bytes_size: vs[j].data.len() as u32,
        data_offset: total_data_len(vs.take(j)) as u32,
    }
}

/// Builds a synthetic buffer list: a header block and a payload block that
/// decode back to exactly the given buffers.
///
/// This is the round trip the decoder is held to: for up to the fixed
/// capacity of descriptors, decoding what was encoded yields the same
/// number of buffers with byte-identical contents.
pub fn encode_audio_buffer_list(bufs: &Vec<CopiedAudioBuffer>) -> (r: (Vec<u8>, Vec<u8>))
    requires
        bufs@.len() <= MAX_AUDIO_BUFFERS,
        total_data_len(views_of(bufs@)) <= u32::MAX,
    ensures
        r.0@.len() == AUDIO_BUFFER_LIST_HEADER_BYTES,
        spec_decode_buffer_list(r.0@, r.1@) == Ok::<Seq<AudioBufferView>, SampleDecodeError>(
            views_of(bufs@),
        ),
{
    let ghost vs = views_of(bufs@);
    let count: usize = bufs.len();
    let mut header: Vec<u8> = Vec::new();
    write_le_u32(&mut header, count as u32);
    proof {
        assert(header@.subrange(0, 4) =~= le_bytes(count as u32));
        lemma_le_u32_at_of(header@, 0, count as u32);
    }
    let mut arena: Vec<u8> = Vec::new();
    let mut i: usize = 0;
    while i < count
        invariant
            i <= count,
            count == bufs@.len(),
            count <= 8,
            vs == views_of(bufs@),
            total_data_len(vs) <= u32::MAX,
            header@.len() == 4 + 12 * i,
            le_u32_at(header@, 0) == count,
            arena@.len() == total_data_len(vs.take(i as int)),
            forall|j: int|
                0 <= j < i ==> #[trigger] spec_descriptor_at(header@, j) == spec_encoded_descriptor(
                    vs,
                    j,
                ),
            forall|j: int|
                #![trigger vs.take(j)]
                0 <= j < i ==> arena@.subrange(
                    total_data_len(vs.take(j)),
                    total_data_len(vs.take(j)) + vs[j].data.len(),
                ) == vs[j].data,
        decreases count - i,
    {
        proof {
            lemma_element_le_total(vs, i as int);
            lemma_total_nonneg(vs.take(i as int));
            lemma_total_take_le(vs, i as int);
        }
        let ghost old_header = header@;
        let ghost old_arena = arena@;
        let d = &bufs[i];
        write_le_u32(&mut header, d.number_channels);
        write_le_u32(&mut header, d.data.len() as u32);
        write_le_u32(&mut header, arena.len() as u32);
        append_bytes(&mut arena, &d.data);
        proof {
            lemma_total_take_step(vs, i as int);
            assert(header@.subrange(4 + 12 * (i as int), 8 + 12 * (i as int)) =~= le_bytes(
                d.number_channels,
            ));
            assert(header@.subrange(8 + 12 * (i as int), 12 + 12 * (i as int)) =~= le_bytes(
                d.data.len() as u32,
            ));
            assert(header@.subrange(12 + 12 * (i as int), 16 + 12 * (i as int)) =~= le_bytes(
                old_arena.len() as u32,
            ));
            lemma_le_u32_at_of(header@, 4 + 12 * (i as int), d.number_channels);
            lemma_le_u32_at_of(header@, 8 + 12 * (i as int), d.data.len() as u32);
            lemma_le_u32_at_of(header@, 12 + 12 * (i as int), old_arena.len() as u32);
            assert(spec_descriptor_at(header@, i as int) == spec_encoded_descriptor(vs, i as int));
            assert forall|j: int| 0 <= j < i implies #[trigger] spec_descriptor_at(header@, j)
                == spec_encoded_descriptor(vs, j) by {
                assert(header@[4 + 12 * j] == old_header[4 + 12 * j]);
                assert(spec_descriptor_at(header@, j) == spec_descriptor_at(old_header, j));
            }
            assert forall|j: int| #![trigger vs.take(j)] 0 <= j <= i implies arena@.subrange(
                total_data_len(vs.take(j)),
                total_data_len(vs.take(j)) + vs[j].data.len(),
            ) == vs[j].data by {
                lemma_total_nonneg(vs.take(j));
                lemma_total_take_le(vs, j);
                lemma_total_take_step(vs, j);
                lemma_total_take_mono(vs, j + 1, i + 1);
                if j < i {
                    lemma_total_take_mono(vs, j + 1, i as int);
                    assert(arena@.subrange(
                        total_data_len(vs.take(j)),
                        total_data_len(vs.take(j)) + vs[j].data.len(),
                    ) =~= old_arena.subrange(
                        total_data_len(vs.take(j)),
                        total_data_len(vs.take(j)) + vs[j].data.len(),
                    ));
                } else {
                    assert(arena@.subrange(
                        total_data_len(vs.take(j)),
                        total_data_len(vs.take(j)) + vs[j].data.len(),
                    ) =~= vs[j].data);
                }
            }
            assert(le_u32_at(header@, 0) == le_u32_at(old_header, 0));
        }
        i += 1;
    }
    proof {
        assert(vs.take(count as int) =~= vs);
    }
    while i < 8
        invariant
            count <= i <= 8,
            count == bufs@.len(),
            vs == views_of(bufs@),
            total_data_len(vs) <= u32::MAX,
            header@.len() == 4 + 12 * i,
            le_u32_at(header@, 0) == count,
            arena@.len() == total_data_len(vs),
            forall|j: int|
                0 <= j < count ==> #[trigger] spec_descriptor_at(header@, j)
                    == spec_encoded_descriptor(vs, j),
            forall|j: int|
                #![trigger vs.take(j)]
                0 <= j < count ==> arena@.subrange(
                    total_data_len(vs.take(j)),
                    total_data_len(vs.take(j)) + vs[j].data.len(),
                ) == vs[j].data,
        decreases 8 - i,
    {
        let ghost old_header = header@;
        write_le_u32(&mut header, 0);
        write_le_u32(&mut header, 0);
        write_le_u32(&mut header, 0);
        proof {
            assert forall|j: int| 0 <= j < count implies #[trigger] spec_descriptor_at(header@, j)
                == spec_encoded_descriptor(vs, j) by {
                assert(header@[4 + 12 * j] == old_header[4 + 12 * j]);
                assert(spec_descriptor_at(header@, j) == spec_descriptor_at(old_header, j));
            }
            assert(le_u32_at(header@, 0) == le_u32_at(old_header, 0));
        }
        i += 1;
    }
    proof {
        let h = header@;
        assert(h.len() == AUDIO_BUFFER_LIST_HEADER_BYTES);
        assert(spec_parse_buffer_list(h) matches Ok(_));
        let lv = spec_parse_buffer_list(h)->Ok_0;
        assert(lv.number_buffers == count);
        assert forall|j: int| 0 <= j < count implies descriptor_in_range(
            #[trigger] lv.buffers[j],
            arena@.len() as int,
        ) by {
            lemma_total_take_step(vs, j);
            lemma_total_nonneg(vs.take(j));
            lemma_total_take_le(vs, j + 1);
            assert(lv.buffers[j] == spec_encoded_descriptor(vs, j));
        }
        assert(spec_copy_buffers(lv, arena@) matches Ok(_));
        let copied = spec_copy_buffers(lv, arena@)->Ok_0;
        assert forall|j: int| 0 <= j < count implies copied[j] == vs[j] by {
            assert(lv.buffers[j] == spec_encoded_descriptor(vs, j));
            lemma_total_nonneg(vs.take(j));
            lemma_total_take_step(vs, j);
            lemma_total_take_le(vs, j + 1);
            assert(arena@.subrange(
                total_data_len(vs.take(j)),
                total_data_len(vs.take(j)) + vs[j].data.len(),
            ) == vs[j].data);
        }
        assert(copied =~= vs);
    }
    (header, arena)
}

/// Decodes a delivered buffer list: parses the header block, then copies
/// every counted payload into owned memory.
pub fn decode_audio_buffer_list(header: &[u8], arena: &[u8]) -> (r: Result<
    Vec<CopiedAudioBuffer>,
    SampleDecodeError,
>)
    ensures
        spec_decode_buffer_list(header@, arena@) matches Ok(bvs) ==> (r matches Ok(v) && views_of(
            v@,
        ) == bvs),
        spec_decode_buffer_list(header@, arena@) matches Err(e) ==> r == Err::<
            Vec<CopiedAudioBuffer>,
            SampleDecodeError,
        >(e),
{
    match parse_audio_buffer_list(header) {
        Err(e) => Err(e),
        Ok(list) => copy_audio_buffers(&list, arena),
    }
}

} // verus!
