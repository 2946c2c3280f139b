use vstd::prelude::*;

use crate::bytes::{le_seq, lemma_read_le_seq, pow256, push_le, read_le, read_le_at};

verus! {

/// Bit 15 of the type tag: the payload after the tag is sealed.
pub const ENCRYPTED_FLAG: u16 = 0x8000;

/// Length of the nonce that travels in front of a sealed payload.
pub const NONCE_LEN: usize = 8;

/// Length of the authentication tag at the end of a sealed payload.
pub const TAG_LEN: usize = 4;

/// Length of the header (reserved byte, length, reserved byte) that the cipher's buffers carry.
pub const CCM_HEADER_LEN: usize = 3;

/// The largest ciphertext (tag included) that a decoder hands to the cipher.
pub const MAX_CIPHERTEXT: usize = 254;

/// The largest payload that a radio packet carries after its length byte.
pub const MAX_PAYLOAD: usize = 254;

/// Bytes of a record body before the measurement fields.
pub const RECORD_HEADER_LEN: usize = 18;

/// The most measurement bytes that fit a plaintext packet.
pub const MAX_PLAIN_FIELDS: usize = 234;

/// The most measurement bytes that fit a sealed packet.
pub const MAX_SEALED_FIELDS: usize = 222;

/// Packet type of a record with three acceleration and three magnetic-field axes.
pub const PACKET_MOTION: u16 = 3;

/// Packet type of a record with a temperature and a humidity.
pub const PACKET_CLIMATE: u16 = 4;

/// Packet type of a record with a temperature, a humidity and the battery voltage.
pub const PACKET_NODE: u16 = 6;

/// One telemetry record in its plaintext form.
#[derive(Clone, Debug, PartialEq, Eq)]
pub struct TelemetryRecord {
    pub packet_type: u16,
    pub device_id: u64,
    pub part_id: u32,
    pub sequence: u32,
    pub sensor_id: u16,
    /// The measurement fields, little-endian, laid out as the packet type says.
    pub fields: Vec<u8>,
}

pub struct RecordView {
    pub packet_type: u16,
    pub device_id: u64,
    pub part_id: u32,
    pub sequence: u32,
    pub sensor_id: u16,
    pub fields: Seq<u8>,
}

impl View for TelemetryRecord {
    type V = RecordView;

    open spec fn view(&self) -> RecordView {
        RecordView {
            packet_type: self.packet_type,
            device_id: self.device_id,
            part_id: self.part_id,
            sequence: self.sequence,
            sensor_id: self.sensor_id,
            fields: self.fields@,
        }
    }
}

/// What a packet turned out to hold.
#[derive(Debug)]
pub enum Frame {
    /// A plaintext packet: its type and the record body after the tag.
    Plain { packet_type: u16, body: Vec<u8> },
    /// A sealed packet: its type with the flag cleared, its nonce, and the buffer to hand to
    /// the cipher (header, then ciphertext and tag).
    Sealed { packet_type: u16, nonce: [u8; 8], ccm_input: Vec<u8> },
}

pub enum FrameView {
    Plain { packet_type: u16, body: Seq<u8> },
    Sealed { packet_type: u16, nonce: Seq<u8>, ccm_input: Seq<u8> },
}

impl View for Frame {
    type V = FrameView;

    open spec fn view(&self) -> FrameView {
        match self {
            Frame::Plain { packet_type, body } => FrameView::Plain {
                packet_type: *packet_type,
                body: body@,
            },
            Frame::Sealed { packet_type, nonce, ccm_input } => FrameView::Sealed {
                packet_type: *packet_type,
                nonce: nonce@,
                ccm_input: ccm_input@,
            },
        }
    }
}

#[derive(Clone, Copy, Debug, PartialEq, Eq, Structural)]
pub enum DecodeError {
    /// The packet is too short or its lengths do not add up.
    Malformed,
    /// The cipher rejected the authentication tag.
    Authentication,
}

/// The record body: identity, sequence index, sensor id, then the fields.
pub open spec fn record_body(r: RecordView) -> Seq<u8> {
    le_seq(r.device_id as nat, 8) + le_seq(r.part_id as nat, 4) + le_seq(r.sequence as nat, 4)
        + le_seq(r.sensor_id as nat, 2) + r.fields
}

/// The payload of a plaintext packet: the type tag, then the body.
pub open spec fn plain_packet(r: RecordView) -> Seq<u8> {
    le_seq(r.packet_type as nat, 2) + record_body(r)
}

/// The buffer handed to the cipher to seal a record: header, then the record body. The type
/// tag travels in the clear.
pub open spec fn sealing_input(r: RecordView) -> Seq<u8> {
    seq![0u8, record_body(r).len() as u8, 0u8] + record_body(r)
}

/// How many measurement bytes a record of type `t` has, for the types whose layout is known:
/// six 16-bit axes for motion, two 32-bit values for climate, three for a node record.
pub open spec fn layout_fields(t: u16) -> Option<nat> {
    if t == PACKET_MOTION {
        Some(12)
    } else if t == PACKET_CLIMATE {
        Some(8)
    } else if t == PACKET_NODE {
        Some(12)
    } else {
        None
    }
}

/// The body length of a record of type `t`, for the types whose layout is known.
pub open spec fn layout_body_len(t: u16) -> Option<nat> {
    match layout_fields(t) {
        Some(n) => Some((RECORD_HEADER_LEN + n) as nat),
        None => None,
    }
}

/// The body length of a record of type `t`, for the types whose layout is known.
pub fn body_len_of(t: u16) -> (r: Option<usize>)
    ensures
        r is Some <==> layout_body_len(t) is Some,
        r matches Some(n) ==> layout_body_len(t) == Some(n as nat),
{
    if t == PACKET_MOTION {
        Some(RECORD_HEADER_LEN + 12)
    } else if t == PACKET_CLIMATE {
        Some(RECORD_HEADER_LEN + 8)
    } else if t == PACKET_NODE {
        Some(RECORD_HEADER_LEN + 12)
    } else {
        None
    }
}

/// The payload of a sealed packet: the flagged tag, the nonce, and what the cipher returned
/// without its header.
pub open spec fn sealed_packet(packet_type: u16, nonce: Seq<u8>, sealed: Seq<u8>) -> Seq<u8> {
    le_seq(packet_type as nat + 0x8000, 2) + nonce + sealed.subrange(3, sealed.len() as int)
}

pub open spec fn plain_record_ok(r: RecordView) -> bool {
    r.packet_type < 0x8000 && r.fields.len() <= MAX_PLAIN_FIELDS
}

/// A record that can be sealed: its type has a known layout, and its fields fit it.
pub open spec fn sealed_record_ok(r: RecordView) -> bool {
    r.packet_type < 0x8000 && layout_fields(r.packet_type) == Some(r.fields.len())
}

/// The ciphertext and tag of a sealed payload: what follows the nonce, at most
/// `MAX_CIPHERTEXT` bytes.
pub open spec fn ciphertext_of(data: Seq<u8>) -> Seq<u8> {
    let end = if data.len() > 10 + MAX_CIPHERTEXT {
        10 + MAX_CIPHERTEXT
    } else {
        data.len() as int
    };
    data.subrange(10, end)
}

/// How a received payload reads: a tag with bit 15 clear is followed by a record body, and
/// fails authentication unless plaintext is accepted; one with bit 15 set is followed by a
/// nonce and at least a tag's worth of ciphertext.
pub open spec fn parse_spec(data: Seq<u8>, accept_plain: bool) -> Result<FrameView, DecodeError> {
    if data.len() < 2 {
        Err(DecodeError::Malformed)
    } else {
        let tag = read_le(data.subrange(0, 2));
        if tag < 0x8000 {
            if accept_plain {
                Ok(FrameView::Plain { packet_type: tag as u16, body: data.subrange(2, data.len() as int) })
            } else {
                Err(DecodeError::Authentication)
            }
        } else if data.len() < 2 + NONCE_LEN + TAG_LEN {
            Err(DecodeError::Malformed)
        } else {
            let ct = ciphertext_of(data);
            Ok(
                FrameView::Sealed {
                    packet_type: (tag - 0x8000) as u16,
                    nonce: data.subrange(2, 10),
                    ccm_input: seq![0u8, ct.len() as u8, 0u8] + ct,
                },
            )
        }
    }
}

/// The plaintext that the cipher's header announces in its output.
pub open spec fn opened_plain(opened: Seq<u8>) -> Seq<u8> {
    opened.subrange(3, 3 + opened[1])
}

/// The plaintext payload of a sealed one after the cipher has run on it: the clear type tag,
/// restored, then the opened record body. Nothing unless the tag was authentic and the length
/// in the cipher's header fits its buffer; and since the clear type tag is not sealed, a type
/// whose layout is unknown, or whose body length differs from the one opened, fails
/// authentication too.
pub open spec fn opened_spec(packet_type: u16, authentic: bool, opened: Seq<u8>) -> Result<
    Seq<u8>,
    DecodeError,
> {
    if !authentic {
        Err(DecodeError::Authentication)
    } else if opened.len() < 3 || 3 + opened[1] > opened.len() {
        Err(DecodeError::Malformed)
    } else if layout_body_len(packet_type) != Some(opened[1] as nat) {
        Err(DecodeError::Authentication)
    } else {
        Ok(le_seq(packet_type as nat, 2) + opened_plain(opened))
    }
}

/// The record that a plaintext payload holds, if it is long enough and its type is plain.
pub open spec fn record_of(p: Seq<u8>) -> Option<RecordView> {
    if p.len() < 2 + RECORD_HEADER_LEN || read_le(p.subrange(0, 2)) >= 0x8000 {
        None
    } else {
        Some(
            RecordView {
                packet_type: read_le(p.subrange(0, 2)) as u16,
                device_id: read_le(p.subrange(2, 10)) as u64,
                part_id: read_le(p.subrange(10, 14)) as u32,
                sequence: read_le(p.subrange(14, 18)) as u32,
                sensor_id: read_le(p.subrange(18, 20)) as u16,
                fields: p.subrange(20, p.len() as int),
            },
        )
    }
}

fn push_all(out: &mut Vec<u8>, src: &[u8])
    ensures
        final(out)@ == old(out)@ + src@,
{
    let ghost start = old(out)@;
    let mut i: usize = 0;
    while i < src.len()
        invariant
            i <= src@.len(),
            out@ == start + src@.subrange(0, i as int),
        decreases src@.len() - i,
    {
        out.push(src[i]);
        i += 1;
        assert(out@ =~= start + src@.subrange(0, i as int));
    }
    assert(src@.subrange(0, src@.len() as int) =~= src@);
}

impl TelemetryRecord {
    /// The record body: device id, part id, sequence index, sensor id, then the fields.
    pub fn body(&self) -> (r: Vec<u8>)
        ensures
            r@ == record_body(self@),
    {
        let mut out: Vec<u8> = Vec::new();
        push_le(&mut out, self.device_id, 8);
        push_le(&mut out, self.part_id as u64, 4);
        push_le(&mut out, self.sequence as u64, 4);
        push_le(&mut out, self.sensor_id as u64, 2);
        push_all(&mut out, self.fields.as_slice());
        out
    }
}

/// The payload of a plaintext packet that carries `r`.
pub fn encode_plain(r: &TelemetryRecord) -> (p: Vec<u8>)
    requires
        plain_record_ok(r@),
    ensures
        p@ == plain_packet(r@),
        p@.len() <= MAX_PAYLOAD,
{
    let mut out: Vec<u8> = Vec::new();
    push_le(&mut out, r.packet_type as u64, 2);
    let body = r.body();
    push_all(&mut out, body.as_slice());
    out
}

/// The buffer to hand to the cipher to seal `r`: the header (reserved byte, body length,
/// reserved byte), then the record body.
pub fn sealing_input_of(r: &TelemetryRecord) -> (p: Vec<u8>)
    requires
        sealed_record_ok(r@),
    ensures
        p@ == sealing_input(r@),
{
    let body = r.body();
    let mut out: Vec<u8> = Vec::new();
    out.push(0);
    out.push(body.len() as u8);
    out.push(0);
    push_all(&mut out, body.as_slice());
    assert(out@ =~= sealing_input(r@));
    out
}

/// The payload of a sealed packet: the type tag with bit 15 set, the nonce, then what the
/// cipher returned with its 3-byte header stripped.
pub fn encode_sealed(packet_type: u16, nonce: &[u8; 8], sealed: &[u8]) -> (p: Vec<u8>)
    requires
        packet_type < 0x8000,
        CCM_HEADER_LEN + TAG_LEN <= sealed@.len() <= CCM_HEADER_LEN + MAX_PAYLOAD - 2 - NONCE_LEN,
    ensures
        p@ == sealed_packet(packet_type, nonce@, sealed@),
        p@.len() <= MAX_PAYLOAD,
{
    let mut out: Vec<u8> = Vec::new();
    push_le(&mut out, packet_type as u64 + 0x8000, 2);
    push_all(&mut out, nonce.as_slice());
    let ghost before = out@;
    let mut i: usize = 3;
    while i < sealed.len()
        invariant
            3 <= i <= sealed@.len(),
            out@ == before + sealed@.subrange(3, i as int),
        decreases sealed@.len() - i,
    {
        out.push(sealed[i]);
        i += 1;
        assert(out@ =~= before + sealed@.subrange(3, i as int));
    }
    out
}

/// Reads a received payload: its tag, and for a sealed one the nonce and the buffer for the
/// cipher, the ciphertext clamped to `MAX_CIPHERTEXT` bytes. Unless `accept_plain`, a payload
/// whose tag has bit 15 clear fails authentication.
pub fn parse_packet(data: &[u8], accept_plain: bool) -> (r: Result<Frame, DecodeError>)
    ensures
        r is Ok <==> parse_spec(data@, accept_plain) is Ok,
        r matches Ok(f) ==> parse_spec(data@, accept_plain) == Ok::<FrameView, DecodeError>(f@),
        r matches Err(e) ==> parse_spec(data@, accept_plain) == Err::<FrameView, DecodeError>(e),
{
    let len: usize = data.len();
    if len < 2 {
        return Err(DecodeError::Malformed);
    }
    let tag = read_le_at(data, 0, 2);
    proof {
        reveal_with_fuel(pow256, 3);
        lemma_read_le_bound(data@.subrange(0, 2));
    }
    if tag < 0x8000 {
        if !accept_plain {
            return Err(DecodeError::Authentication);
        }
        let mut body: Vec<u8> = Vec::new();
        let mut i: usize = 2;
        while i < len
            invariant
                len == data@.len(),
                2 <= i <= len,
                body@ == data@.subrange(2, i as int),
            decreases len - i,
        {
            body.push(data[i]);
            i += 1;
            assert(body@ =~= data@.subrange(2, i as int));
        }
        return Ok(Frame::Plain { packet_type: tag as u16, body });
    }
    if len < 2 + NONCE_LEN + TAG_LEN {
        return Err(DecodeError::Malformed);
    }
    let mut nonce: [u8; 8] = [0u8; 8];
    let mut k: usize = 0;
    while k < 8
        invariant
            k <= 8,
            len == data@.len(),
            len >= 14,
            forall|j: int| 0 <= j < k ==> #[trigger] nonce@[j] == data@[2 + j],
        decreases 8 - k,
    {
        nonce[k] = data[2 + k];
        k += 1;
    }
    assert(nonce@ =~= data@.subrange(2, 10));
    let end: usize = if len > 10 + MAX_CIPHERTEXT {
        10 + MAX_CIPHERTEXT
    } else {
        len
    };
    let mut ccm_input: Vec<u8> = Vec::new();
    ccm_input.push(0);
    ccm_input.push((end - 10) as u8);
    ccm_input.push(0);
    let ghost head = ccm_input@;
    let mut i: usize = 10;
    while i < end
        invariant
            len == data@.len(),
            10 <= i <= end <= len,
            ccm_input@ == head + data@.subrange(10, i as int),
        decreases end - i,
    {
        ccm_input.push(data[i]);
        i += 1;
        assert(ccm_input@ =~= head + data@.subrange(10, i as int));
    }
    assert(ccm_input@ =~= seq![0u8, ciphertext_of(data@).len() as u8, 0u8] + ciphertext_of(data@));
    Ok(Frame::Sealed { packet_type: (tag - 0x8000) as u16, nonce, ccm_input })
}

/// The plaintext payload of a sealed packet from what the cipher returned: `packet_type`, the
/// clear tag with bit 15 cleared, then the body that the cipher's header announces. A failed
/// tag, or a type whose known layout does not have that body length, gives `Authentication`
/// and no bytes at all.
pub fn finish_decryption(packet_type: u16, authentic: bool, opened: &[u8]) -> (r: Result<
    Vec<u8>,
    DecodeError,
>)
    ensures
        r is Ok <==> opened_spec(packet_type, authentic, opened@) is Ok,
        r matches Ok(p) ==> opened_spec(packet_type, authentic, opened@) == Ok::<
            Seq<u8>,
            DecodeError,
        >(p@),
        r matches Err(e) ==> opened_spec(packet_type, authentic, opened@) == Err::<
            Seq<u8>,
            DecodeError,
        >(e),
        !authentic ==> r == Err::<Vec<u8>, DecodeError>(DecodeError::Authentication),
{
    if !authentic {
        return Err(DecodeError::Authentication);
    }
    let len: usize = opened.len();
    if len < 3 {
        return Err(DecodeError::Malformed);
    }
    let n: usize = opened[1] as usize;
    if 3 + n > len {
        return Err(DecodeError::Malformed);
    }
    match body_len_of(packet_type) {
        Some(expected) => {
            if expected != n {
                return Err(DecodeError::Authentication);
            }
        },
        None => {
            return Err(DecodeError::Authentication);
        },
    }
    let mut out: Vec<u8> = Vec::new();
    push_le(&mut out, packet_type as u64, 2);
    let ghost head = out@;
    let mut i: usize = 3;
    while i < 3 + n
        invariant
            len == opened@.len(),
            3 <= i <= 3 + n <= len,
            out@ == head + opened@.subrange(3, i as int),
        decreases 3 + n - i,
    {
        out.push(opened[i]);
        i += 1;
        assert(out@ =~= head + opened@.subrange(3, i as int));
    }
    assert(out@ =~= le_seq(packet_type as nat, 2) + opened_plain(opened@));
    Ok(out)
}

/// The record that a plaintext payload holds; `Malformed` where it is shorter than a tag and
/// a record header, or its tag has bit 15 set.
pub fn decode_record(payload: &[u8]) -> (r: Result<TelemetryRecord, DecodeError>)
    ensures
        r is Ok <==> record_of(payload@) is Some,
        r matches Ok(rec) ==> record_of(payload@) == Some(rec@),
        r matches Err(e) ==> e == DecodeError::Malformed,
{
    let len: usize = payload.len();
    if len < 2 + RECORD_HEADER_LEN {
        return Err(DecodeError::Malformed);
    }
    let tag = read_le_at(payload, 0, 2);
    if tag >= 0x8000 {
        return Err(DecodeError::Malformed);
    }
    let device_id = read_le_at(payload, 2, 8);
    let part_id = read_le_at(payload, 10, 4);
    let sequence = read_le_at(payload, 14, 4);
    let sensor_id = read_le_at(payload, 18, 2);
    proof {
        reveal_with_fuel(pow256, 5);
        lemma_read_le_bound(payload@.subrange(10, 14));
        lemma_read_le_bound(payload@.subrange(14, 18));
        lemma_read_le_bound(payload@.subrange(18, 20));
    }
    let mut fields: Vec<u8> = Vec::new();
    let mut i: usize = 20;
    while i < len
        invariant
            len == payload@.len(),
            20 <= i <= len,
            fields@ == payload@.subrange(20, i as int),
        decreases len - i,
    {
        fields.push(payload[i]);
        i += 1;
        assert(fields@ =~= payload@.subrange(20, i as int));
    }
    Ok(
        TelemetryRecord {
            packet_type: tag as u16,
            device_id,
            part_id: part_id as u32,
            sequence: sequence as u32,
            sensor_id: sensor_id as u16,
            fields,
        },
    )
}

/// The measurement fields of a climate record: temperature, then humidity, each the bit
/// pattern of a 32-bit float, little-endian.
pub open spec fn climate_fields_spec(temperature: u32, humidity: u32) -> Seq<u8> {
    le_seq(temperature as nat, 4) + le_seq(humidity as nat, 4)
}

/// The measurement fields of a climate record.
pub fn climate_fields(temperature: u32, humidity: u32) -> (r: Vec<u8>)
    ensures
        r@ == climate_fields_spec(temperature, humidity),
{
    let mut out: Vec<u8> = Vec::new();
    push_le(&mut out, temperature as u64, 4);
    push_le(&mut out, humidity as u64, 4);
    out
}

/// The measurement fields of a node record: temperature, humidity and battery voltage, each
/// the bit pattern of a 32-bit float, little-endian.
pub fn node_fields(temperature: u32, humidity: u32, battery: u32) -> (r: Vec<u8>)
    ensures
        r@ == climate_fields_spec(temperature, humidity) + le_seq(battery as nat, 4),
{
    let mut out = climate_fields(temperature, humidity);
    push_le(&mut out, battery as u64, 4);
    out
}

/// The temperature and humidity bit patterns of a climate record's fields; `None` unless
/// there are exactly eight bytes.
pub fn climate_of(fields: &[u8]) -> (r: Option<(u32, u32)>)
    ensures
        r is Some <==> fields@.len() == 8,
        r matches Some((t, h)) ==> t as nat == read_le(fields@.subrange(0, 4)) && h as nat
            == read_le(fields@.subrange(4, 8)),
{
    if fields.len() != 8 {
        return None;
    }
    let t = read_le_at(fields, 0, 4);
    let h = read_le_at(fields, 4, 4);
    proof {
        reveal_with_fuel(pow256, 5);
        lemma_read_le_bound(fields@.subrange(0, 4));
        lemma_read_le_bound(fields@.subrange(4, 8));
    }
    Some((t as u32, h as u32))
}

/// Climate fields read back as the two bit patterns they were built from.
pub proof fn lemma_climate_round_trip(temperature: u32, humidity: u32)
    ensures
        ({
            let f = climate_fields_spec(temperature, humidity);
            &&& f.len() == 8
            &&& read_le(f.subrange(0, 4)) == temperature as nat
            &&& read_le(f.subrange(4, 8)) == humidity as nat
        }),
{
    let f = climate_fields_spec(temperature, humidity);
    reveal_with_fuel(pow256, 5);
    assert(f.subrange(0, 4) =~= le_seq(temperature as nat, 4));
    assert(f.subrange(4, 8) =~= le_seq(humidity as nat, 4));
    lemma_read_le_seq(temperature as nat, 4);
    lemma_read_le_seq(humidity as nat, 4);
}

proof fn lemma_body_reads_back(r: RecordView, head: Seq<u8>)
    requires
        head.len() == 2,
    ensures
        ({
            let p = head + record_body(r);
            &&& read_le(p.subrange(2, 10)) == r.device_id as nat
            &&& read_le(p.subrange(10, 14)) == r.part_id as nat
            &&& read_le(p.subrange(14, 18)) == r.sequence as nat
            &&& read_le(p.subrange(18, 20)) == r.sensor_id as nat
            &&& p.subrange(20, p.len() as int) == r.fields
        }),
{
    let p = head + record_body(r);
    let a = le_seq(r.device_id as nat, 8);
    let b = le_seq(r.part_id as nat, 4);
    let c = le_seq(r.sequence as nat, 4);
    let d = le_seq(r.sensor_id as nat, 2);
    assert(p =~= head + a + b + c + d + r.fields);
    reveal_with_fuel(pow256, 9);
    assert(p.subrange(2, 10) =~= a);
    assert(p.subrange(10, 14) =~= b);
    assert(p.subrange(14, 18) =~= c);
    assert(p.subrange(18, 20) =~= d);
    assert(p.subrange(20, p.len() as int) =~= r.fields);
    lemma_read_le_seq(r.device_id as nat, 8);
    lemma_read_le_seq(r.part_id as nat, 4);
    lemma_read_le_seq(r.sequence as nat, 4);
    lemma_read_le_seq(r.sensor_id as nat, 2);
}

/// A plaintext packet reads back as a plaintext frame holding the record body where plaintext
/// is accepted, fails authentication where it is not, and holds the record it was built from.
pub proof fn lemma_plain_round_trip(r: RecordView)
    requires
        r.packet_type < 0x8000,
    ensures
        parse_spec(plain_packet(r), true) == Ok::<FrameView, DecodeError>(
            FrameView::Plain { packet_type: r.packet_type, body: record_body(r) },
        ),
        parse_spec(plain_packet(r), false) == Err::<FrameView, DecodeError>(
            DecodeError::Authentication,
        ),
        record_of(plain_packet(r)) == Some(r),
        read_le(plain_packet(r).subrange(0, 2)) == r.packet_type as nat,
{
    let p = plain_packet(r);
    reveal_with_fuel(pow256, 3);
    assert(p.subrange(0, 2) =~= le_seq(r.packet_type as nat, 2));
    lemma_read_le_seq(r.packet_type as nat, 2);
    lemma_body_reads_back(r, le_seq(r.packet_type as nat, 2));
    assert(p.subrange(2, p.len() as int) =~= record_body(r));
    let got = record_of(p).unwrap();
    assert(got.fields =~= r.fields);
}

proof fn lemma_sealing_input_opens(r: RecordView)
    requires
        sealed_record_ok(r),
    ensures
        opened_plain(sealing_input(r)) == record_body(r),
        sealing_input(r).len() == 3 + record_body(r).len(),
        sealing_input(r)[1] as nat == record_body(r).len(),
        record_body(r).len() == RECORD_HEADER_LEN + r.fields.len(),
        layout_body_len(r.packet_type) == Some(record_body(r).len()),
{
    let input = sealing_input(r);
    assert(opened_plain(input) =~= record_body(r));
}

/// A sealed packet reads back as a sealed frame with the record's type, the nonce, and the
/// cipher's output under a header rebuilt from its length; and where the cipher, run on that,
/// authenticates and returns the buffer that sealing took, the record comes out unchanged.
pub proof fn lemma_sealed_round_trip(
    r: RecordView,
    nonce: Seq<u8>,
    sealed: Seq<u8>,
    accept_plain: bool,
)
    requires
        sealed_record_ok(r),
        nonce.len() == NONCE_LEN,
        sealed.len() == sealing_input(r).len() + TAG_LEN,
    ensures
        parse_spec(sealed_packet(r.packet_type, nonce, sealed), accept_plain) == Ok::<
            FrameView,
            DecodeError,
        >(
            FrameView::Sealed {
                packet_type: r.packet_type,
                nonce,
                ccm_input: seq![0u8, (sealed.len() - 3) as u8, 0u8] + sealed.subrange(
                    3,
                    sealed.len() as int,
                ),
            },
        ),
        opened_spec(r.packet_type, true, sealing_input(r)) == Ok::<Seq<u8>, DecodeError>(
            plain_packet(r),
        ),
        record_of(plain_packet(r)) == Some(r),
{
    let p = sealed_packet(r.packet_type, nonce, sealed);
    reveal_with_fuel(pow256, 3);
    assert(p.subrange(0, 2) =~= le_seq(r.packet_type as nat + 0x8000, 2));
    lemma_read_le_seq(r.packet_type as nat + 0x8000, 2);
    assert(p.subrange(2, 10) =~= nonce);
    assert(ciphertext_of(p) =~= sealed.subrange(3, sealed.len() as int));
    lemma_sealing_input_opens(r);
    lemma_plain_round_trip(r);
}

/// A sealed packet whose type tag has one bit flipped fails authentication at a strict
/// decoder: with bit 15 cleared it reads as plaintext, which is rejected; otherwise the cipher
/// still authenticates the untouched nonce and ciphertext and returns the buffer that sealing
/// took, but the flipped type has no known layout, or one whose body length differs.
pub proof fn lemma_tag_tamper_rejected(
    r: RecordView,
    nonce: Seq<u8>,
    sealed: Seq<u8>,
    q: Seq<u8>,
    bit: u16,
)
    requires
        sealed_record_ok(r),
        nonce.len() == NONCE_LEN,
        sealed.len() == sealing_input(r).len() + TAG_LEN,
        bit < 16,
        q.len() == sealed_packet(r.packet_type, nonce, sealed).len(),
        q.subrange(2, q.len() as int) == sealed_packet(r.packet_type, nonce, sealed).subrange(
            2,
            q.len() as int,
        ),
        q.subrange(0, 2) == le_seq(
            ((r.packet_type + 0x8000) as u16 ^ (1u16 << bit)) as nat,
            2,
        ),
    ensures
        match parse_spec(q, false) {
            Err(e) => e == DecodeError::Authentication,
            Ok(FrameView::Sealed { packet_type, .. }) => opened_spec(
                packet_type,
                true,
                sealing_input(r),
            ) == Err::<Seq<u8>, DecodeError>(DecodeError::Authentication),
            Ok(FrameView::Plain { .. }) => false,
        },
{
    let t = r.packet_type;
    let y = ((t + 0x8000) as u16 ^ (1u16 << bit)) as u16;
    reveal_with_fuel(pow256, 3);
    lemma_read_le_seq(y as nat, 2);
    lemma_sealing_input_opens(r);
    let p = sealed_packet(t, nonce, sealed);
    assert(q.len() >= 2 + NONCE_LEN + TAG_LEN);
    if bit == 15 {
        assert(t < 0x8000 ==> ((t + 0x8000) as u16 ^ (1u16 << 15u16)) == t) by (bit_vector);
    } else {
        let f = (t ^ (1u16 << bit)) as u16;
        assert(bit < 15 && t < 0x8000 ==> ((t + 0x8000) as u16 ^ (1u16 << bit)) == (t ^ (1u16
            << bit)) + 0x8000 && (t ^ (1u16 << bit)) < 0x8000) by (bit_vector);
        assert(bit < 15 ==> (3u16 ^ (1u16 << bit)) != 3u16 && (3u16 ^ (1u16 << bit)) != 4u16
            && (3u16 ^ (1u16 << bit)) != 6u16) by (bit_vector);
        assert(bit < 15 ==> (4u16 ^ (1u16 << bit)) != 3u16 && (4u16 ^ (1u16 << bit)) != 4u16)
            by (bit_vector);
        assert(bit < 15 ==> (6u16 ^ (1u16 << bit)) != 3u16 && (6u16 ^ (1u16 << bit)) != 6u16)
            by (bit_vector);
        assert(layout_body_len(f) != Some(record_body(r).len()));
    }
}

/// Nothing between the tag and the clamp of a sealed payload escapes authentication: two
/// sealed payloads that differ in any byte there parse to frames that hand the cipher a
/// different nonce or a different input, so only the cipher's verdict can let either through.
pub proof fn lemma_tamper_reaches_cipher(a: Seq<u8>, b: Seq<u8>, i: int, accept_plain: bool)
    requires
        a.len() == b.len(),
        2 + NONCE_LEN + TAG_LEN <= a.len(),
        a.subrange(0, 2) == b.subrange(0, 2),
        read_le(a.subrange(0, 2)) >= 0x8000,
        2 <= i < a.len(),
        i < 10 + MAX_CIPHERTEXT,
        a[i] != b[i],
    ensures
        parse_spec(a, accept_plain) matches Ok(FrameView::Sealed { nonce: na, ccm_input: ca, .. })
            && parse_spec(b, accept_plain) matches Ok(
            FrameView::Sealed { nonce: nb, ccm_input: cb, .. },
        ) && (na != nb || ca != cb),
{
    if i < 10 {
        assert(a.subrange(2, 10)[i - 2] != b.subrange(2, 10)[i - 2]);
    } else {
        let ca = seq![0u8, ciphertext_of(a).len() as u8, 0u8] + ciphertext_of(a);
        let cb = seq![0u8, ciphertext_of(b).len() as u8, 0u8] + ciphertext_of(b);
        assert(ca[3 + i - 10] != cb[3 + i - 10]);
    }
}

/// A little-endian number of `s.len()` bytes is below 256 to that power.
pub proof fn lemma_read_le_bound(s: Seq<u8>)
    ensures
        read_le(s) < pow256(s.len()),
    decreases s.len(),
{
    if s.len() > 0 {
        lemma_read_le_bound(s.drop_first());
        let p = pow256((s.len() - 1) as nat);
        let x = read_le(s.drop_first());
        let b = s[0] as nat;
        assert(b + 256 * x < 256 * p) by (nonlinear_arith)
            requires
                x < p,
                b < 256,
        ;
    }
}

} // verus!
