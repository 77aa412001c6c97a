//! Framing of transactions on a byte stream.
use vstd::prelude::*;
use crate::error::ProtocolError;
use crate::field::{
    Field, FieldModel, FIELD_HEADER_SIZE, field_code, field_of_code, lemma_field_code_round_trip,
    lemma_value_round_trip, read_field_data, read_value, value_bytes, value_fits_kind,
    write_field_data,
};
use crate::transaction::{
    Transaction, TransactionHeader, TransactionModel, TRANSACTION_HEADER_SIZE, field_models,
    header_at_start, header_bytes,
};
use crate::types::{TransactionType, type_code, type_of_code, lemma_type_code_round_trip};
use crate::wire::{be16, be32, get_u16, put_u16, read16, read32, lemma_be16_round_trip, lemma_be32_round_trip};

verus! {

/// Largest payload of a transaction, in bytes.
pub const MAX_TRANSACTION_SIZE: usize = 32768;

/// Largest payload of a field, in bytes.
pub const MAX_FIELD_SIZE: usize = 32768;

/// The bytes of one field: identifier, length, value.
pub open spec fn field_bytes(f: FieldModel) -> Seq<u8> {
    let v = value_bytes(f.value);
    be16(field_code(f.id)) + be16(v.len() as u16) + v
}

/// The bytes of a sequence of fields, one after the other.
pub open spec fn fields_bytes(fs: Seq<FieldModel>) -> Seq<u8>
    decreases fs.len(),
{
    if fs.len() == 0 {
        Seq::empty()
    } else {
        field_bytes(fs[0]) + fields_bytes(fs.drop_first())
    }
}

/// The payload of a transaction: the field count, then the fields.
pub open spec fn payload_of(fs: Seq<FieldModel>) -> Seq<u8> {
    be16(fs.len() as u16) + fields_bytes(fs)
}

/// The wire can carry these fields: at most 65535 of them, each value at
/// most 65535 bytes long.
pub open spec fn fields_fit(fs: Seq<FieldModel>) -> bool {
    &&& fs.len() <= 65535
    &&& forall|i: int| 0 <= i < fs.len() ==> #[trigger] value_bytes(fs[i].value).len() <= 65535
}

/// Every field's value has the form that the interpretation table gives its identifier.
pub open spec fn fields_well_formed(fs: Seq<FieldModel>) -> bool {
    forall|i: int| 0 <= i < fs.len() ==> #[trigger] value_fits_kind(fs[i].id, fs[i].value)
}

/// The payload fits the wire and the limit.
pub open spec fn payload_within(fs: Seq<FieldModel>, max: usize) -> bool {
    payload_of(fs).len() <= max && payload_of(fs).len() <= u32::MAX
}

/// The header written for a transaction whose payload has `n` bytes.
pub open spec fn header_for(t: TransactionModel, n: u32) -> TransactionHeader {
    TransactionHeader {
        flags: t.flags,
        is_reply: if t.is_reply {
            1
        } else {
            0
        },
        transaction_type: type_code(t.transaction_type),
        id: t.id,
        error_code: t.error_code,
        total_size: n,
        data_size: n,
    }
}

/// The frame of a transaction: header, then payload; both size fields hold
/// the payload length.
pub open spec fn frame_bytes(t: TransactionModel) -> Seq<u8> {
    header_bytes(header_for(t, payload_of(t.fields).len() as u32)) + payload_of(t.fields)
}

/// Reading `n` fields that fill `b` exactly. Fields with an identifier that
/// names no field are read and left out.
pub open spec fn parse_fields(b: Seq<u8>, n: nat) -> Option<Seq<FieldModel>>
    decreases n,
{
    if n == 0 {
        if b.len() == 0 {
            Some(Seq::empty())
        } else {
            None
        }
    } else if b.len() < 4 {
        None
    } else {
        let size = read16(b, 2) as int;
        if b.len() < 4 + size {
            None
        } else {
            match parse_fields(b.subrange(4 + size, b.len() as int), (n - 1) as nat) {
                None => None,
                Some(rest) => match field_of_code(read16(b, 0)) {
                    Some(id) => Some(
                        seq![FieldModel { id, value: read_value(id, b.subrange(4, 4 + size)) }]
                            + rest,
                    ),
                    None => Some(rest),
                },
            }
        }
    }
}

/// The fields of a payload; an empty payload has none.
pub open spec fn decode_payload(p: Seq<u8>) -> Option<Seq<FieldModel>> {
    if p.len() == 0 {
        Some(Seq::empty())
    } else if p.len() < 2 {
        None
    } else {
        parse_fields(p.subrange(2, p.len() as int), read16(p, 0) as nat)
    }
}

/// What the start of a receive buffer holds.
pub ghost enum FrameOutcome {
    /// Not yet a whole frame.
    NeedMore,
    /// A header announcing a payload over the limit.
    TooLarge(u32),
    /// A whole frame whose type code names no transaction type.
    BadType(u16),
    /// A whole frame whose payload does not hold its fields.
    BadFields,
    /// A whole, valid frame.
    Frame(TransactionModel),
}

/// Length of the frame that starts the buffer, as its header announces it.
pub open spec fn frame_len(src: Seq<u8>) -> int {
    20 + read32(src, 16)
}

/// The meaning of a receive buffer under payload limit `max`. The limit is
/// checked as soon as the header is there, before waiting for the payload.
pub open spec fn decode_frame(src: Seq<u8>, max: usize) -> FrameOutcome {
    if src.len() < 20 {
        FrameOutcome::NeedMore
    } else {
        let h = header_at_start(src);
        if h.data_size > max {
            FrameOutcome::TooLarge(h.data_size)
        } else if src.len() < 20 + h.data_size {
            FrameOutcome::NeedMore
        } else {
            match type_of_code(h.transaction_type) {
                None => FrameOutcome::BadType(h.transaction_type),
                Some(tt) => match decode_payload(src.subrange(20, 20 + h.data_size)) {
                    None => FrameOutcome::BadFields,
                    Some(fs) => FrameOutcome::Frame(
                        TransactionModel {
                            flags: h.flags,
                            is_reply: h.is_reply != 0,
                            transaction_type: tt,
                            id: h.id,
                            error_code: h.error_code,
                            total_size: h.total_size,
                            data_size: h.data_size,
                            fields: fs,
                        },
                    ),
                },
            }
        }
    }
}

pub open spec fn prepend(acc: Seq<FieldModel>, o: Option<Seq<FieldModel>>) -> Option<Seq<FieldModel>> {
    match o {
        None => None,
        Some(r) => Some(acc + r),
    }
}

/// Reads the fields of a payload.
pub fn decode_fields(buf: &[u8]) -> (r: Result<Vec<Field>, ProtocolError>)
    ensures
        decode_payload(buf@) is None ==> r == Err::<Vec<Field>, ProtocolError>(ProtocolError::InvalidFieldData),
        decode_payload(buf@) matches Some(fs) ==> (r matches Ok(v) && field_models(v@) == fs),
{
    let len = buf.len();
    if len == 0 {
        let v: Vec<Field> = Vec::new();
        assert(field_models(v@) =~= Seq::<FieldModel>::empty());
        return Ok(v);
    }
    if len < 2 {
        return Err(ProtocolError::InvalidFieldData);
    }
    let count = get_u16(buf, 0);
    let mut out: Vec<Field> = Vec::new();
    let mut pos: usize = 2;
    let mut k: u16 = 0;
    assert(prepend(field_models(out@), parse_fields(buf@.subrange(2, len as int), count as nat))
        =~~= parse_fields(buf@.subrange(2, len as int), count as nat)) by {
        assert(field_models(out@) =~= Seq::<FieldModel>::empty());
        match parse_fields(buf@.subrange(2, len as int), count as nat) {
            None => {},
            Some(r) => {
                assert(Seq::<FieldModel>::empty() + r =~= r);
            },
        }
    }
    while k < count
        invariant
            2 <= pos <= len == buf@.len(),
            k <= count,
            count == read16(buf@, 0),
            decode_payload(buf@) == prepend(
                field_models(out@),
                parse_fields(buf@.subrange(pos as int, len as int), (count - k) as nat),
            ),
        decreases count - k,
    {
        let ghost b = buf@.subrange(pos as int, len as int);
        if len - pos < FIELD_HEADER_SIZE {
            return Err(ProtocolError::InvalidFieldData);
        }
        let code = get_u16(buf, pos);
        let size = get_u16(buf, pos + 2) as usize;
        assert(read16(b, 0) == code);
        assert(read16(b, 2) == size);
        if len - pos - 4 < size {
            return Err(ProtocolError::InvalidFieldData);
        }
        let start = pos + 4;
        let end = start + size;
        assert(b.subrange(4 + size, b.len() as int) =~= buf@.subrange(end as int, len as int));
        let ghost acc = field_models(out@);
        match crate::field::FieldId::from_u16(code) {
            Some(id) => {
                let data = read_field_data(id, &buf[start..end]);
                assert(buf@.subrange(start as int, end as int) =~= b.subrange(4, 4 + size));
                let f = Field { id, data };
                out.push(f);
                assert(field_models(out@) =~= acc + seq![f@]);
                proof {
                    match parse_fields(buf@.subrange(end as int, len as int), (count - k - 1) as nat) {
                        None => {},
                        Some(rest) => {
                            assert(acc + (seq![f@] + rest) =~= (acc + seq![f@]) + rest);
                        },
                    }
                }
            },
            None => {},
        }
        pos = end;
        k += 1;
    }
    if pos < len {
        return Err(ProtocolError::InvalidFieldData);
    }
    assert(buf@.subrange(pos as int, len as int) =~= Seq::<u8>::empty());
    assert(field_models(out@) + Seq::<FieldModel>::empty() =~= field_models(out@));
    Ok(out)
}

proof fn lemma_fields_bytes_push(a: Seq<FieldModel>, x: FieldModel)
    ensures
        fields_bytes(a.push(x)) == fields_bytes(a) + field_bytes(x),
    decreases a.len(),
{
    if a.len() == 0 {
        assert(a.push(x).drop_first() =~= Seq::<FieldModel>::empty());
        assert(fields_bytes(Seq::<FieldModel>::empty()) == Seq::<u8>::empty());
        assert(fields_bytes(a.push(x)) =~= field_bytes(x));
        assert(fields_bytes(a) + field_bytes(x) =~= field_bytes(x));
    } else {
        assert(a.push(x).drop_first() =~= a.drop_first().push(x));
        lemma_fields_bytes_push(a.drop_first(), x);
        assert(fields_bytes(a.push(x)) =~= fields_bytes(a) + field_bytes(x));
    }
}

/// Appends the payload of `fields` (count, then each field) to `buf`.
pub fn encode_fields(fields: &[Field], buf: &mut Vec<u8>) -> (r: Result<(), ProtocolError>)
    ensures
        fields_fit(field_models(fields@)) ==> r is Ok && final(buf)@ == old(buf)@ + payload_of(
            field_models(fields@),
        ),
        !fields_fit(field_models(fields@)) ==> r == Err::<(), ProtocolError>(ProtocolError::InvalidFieldData)
            && final(buf)@ == old(buf)@,
{
    let ghost fs = field_models(fields@);
    if fields.len() > 65535 {
        return Err(ProtocolError::InvalidFieldData);
    }
    let mut scratch: Vec<u8> = Vec::new();
    put_u16(&mut scratch, fields.len() as u16);
    let mut i: usize = 0;
    while i < fields.len()
        invariant
            i <= fields@.len() <= 65535,
            fs == field_models(fields@),
            scratch@ == be16(fields@.len() as u16) + fields_bytes(fs.take(i as int)),
            forall|j: int| 0 <= j < i ==> #[trigger] value_bytes(fs[j].value).len() <= 65535,
        decreases fields@.len() - i,
    {
        let mut vbuf: Vec<u8> = Vec::new();
        write_field_data(&fields[i].data, &mut vbuf);
        assert(vbuf@ =~= value_bytes(fs[i as int].value));
        if vbuf.len() > 65535 {
            return Err(ProtocolError::InvalidFieldData);
        }
        let header = crate::field::FieldHeader { id: fields[i].id.to_u16(), size: vbuf.len() as u16 };
        header.to_bytes(&mut scratch);
        scratch.extend_from_slice(vbuf.as_slice());
        proof {
            assert(fs.take(i + 1) =~= fs.take(i as int).push(fs[i as int]));
            lemma_fields_bytes_push(fs.take(i as int), fs[i as int]);
        }
        i += 1;
        assert(scratch@ =~= be16(fields@.len() as u16) + fields_bytes(fs.take(i as int)));
    }
    assert(fs.take(i as int) =~= fs);
    buf.extend_from_slice(scratch.as_slice());
    Ok(())
}

proof fn lemma_header_round_trip(h: TransactionHeader, tail: Seq<u8>)
    ensures
        header_at_start(header_bytes(h) + tail) == h,
{
    let b = header_bytes(h) + tail;
    let head0 = seq![h.flags, h.is_reply];
    let head1 = head0 + be16(h.transaction_type);
    let head2 = head1 + be32(h.id);
    let head3 = head2 + be32(h.error_code);
    let head4 = head3 + be32(h.total_size);
    let s4 = be32(h.data_size) + tail;
    let s3 = be32(h.total_size) + s4;
    let s2 = be32(h.error_code) + s3;
    let s1 = be32(h.id) + s2;
    assert(b =~= head0 + be16(h.transaction_type) + s1);
    lemma_be16_round_trip(h.transaction_type, head0, s1);
    assert(b =~= head1 + be32(h.id) + s2);
    lemma_be32_round_trip(h.id, head1, s2);
    assert(b =~= head2 + be32(h.error_code) + s3);
    lemma_be32_round_trip(h.error_code, head2, s3);
    assert(b =~= head3 + be32(h.total_size) + s4);
    lemma_be32_round_trip(h.total_size, head3, s4);
    assert(b =~= head4 + be32(h.data_size) + tail);
    lemma_be32_round_trip(h.data_size, head4, tail);
}

proof fn lemma_parse_one_field(f: FieldModel, t: Seq<u8>, n: nat)
    requires
        value_bytes(f.value).len() <= 65535,
        value_fits_kind(f.id, f.value),
    ensures
        parse_fields(field_bytes(f) + t, n + 1) == prepend(seq![f], parse_fields(t, n)),
{
    let v = value_bytes(f.value);
    let code = field_code(f.id);
    let b = field_bytes(f) + t;
    assert(b =~= Seq::<u8>::empty() + be16(code) + (be16(v.len() as u16) + v + t));
    lemma_be16_round_trip(code, Seq::empty(), be16(v.len() as u16) + v + t);
    assert(b =~= be16(code) + be16(v.len() as u16) + (v + t));
    lemma_be16_round_trip(v.len() as u16, be16(code), v + t);
    assert(read16(b, 2) as int == v.len());
    assert(b.subrange(4 + v.len() as int, b.len() as int) =~= t);
    assert(b.subrange(4, 4 + v.len() as int) =~= v);
    lemma_field_code_round_trip(f.id);
    lemma_value_round_trip(f.id, f.value);
    assert(FieldModel { id: f.id, value: f.value } == f);
}

proof fn lemma_parse_fields_bytes(fs: Seq<FieldModel>)
    requires
        fields_fit(fs),
        fields_well_formed(fs),
    ensures
        parse_fields(fields_bytes(fs), fs.len() as nat) == Some(fs),
    decreases fs.len(),
{
    if fs.len() == 0 {
        assert(fields_bytes(fs) =~= Seq::<u8>::empty());
        assert(fs =~= Seq::<FieldModel>::empty());
    } else {
        let f = fs[0];
        let tail = fs.drop_first();
        assert(fields_fit(tail)) by {
            assert forall|i: int| 0 <= i < tail.len() implies #[trigger] value_bytes(tail[i].value).len() <= 65535 by {
                assert(tail[i] == fs[i + 1]);
            }
        }
        assert(fields_well_formed(tail)) by {
            assert forall|i: int| 0 <= i < tail.len() implies #[trigger] value_fits_kind(tail[i].id, tail[i].value) by {
                assert(tail[i] == fs[i + 1]);
            }
        }
        lemma_parse_fields_bytes(tail);
        assert(value_bytes(fs[0].value).len() <= 65535);
        assert(value_fits_kind(fs[0].id, fs[0].value));
        lemma_parse_one_field(f, fields_bytes(tail), tail.len() as nat);
        assert(seq![f] + tail =~= fs);
    }
}

/// Decoding the frame of a well-formed transaction gives the transaction
/// back, with both size fields set to its payload length, and takes exactly
/// the frame's bytes off the buffer.
pub proof fn lemma_frame_round_trip(t: TransactionModel, max: usize, rest: Seq<u8>)
    requires
        fields_fit(t.fields),
        fields_well_formed(t.fields),
        payload_within(t.fields, max),
    ensures
        ({
            let n = payload_of(t.fields).len() as u32;
            let src = frame_bytes(t) + rest;
            &&& decode_frame(src, max) == FrameOutcome::Frame(
                TransactionModel { total_size: n, data_size: n, ..t },
            )
            &&& frame_len(src) == frame_bytes(t).len()
            &&& src.subrange(frame_len(src), src.len() as int) == rest
        }),
{
    let p = payload_of(t.fields);
    let n = p.len() as u32;
    let h = header_for(t, n);
    let src = frame_bytes(t) + rest;
    assert(src =~= header_bytes(h) + (p + rest));
    lemma_header_round_trip(h, p + rest);
    assert(src.subrange(20, 20 + n) =~= p);
    lemma_type_code_round_trip(t.transaction_type);
    assert(p =~= Seq::<u8>::empty() + be16(t.fields.len() as u16) + fields_bytes(t.fields));
    lemma_be16_round_trip(t.fields.len() as u16, Seq::empty(), fields_bytes(t.fields));
    assert(p.subrange(2, p.len() as int) =~= fields_bytes(t.fields));
    lemma_parse_fields_bytes(t.fields);
    assert(src.subrange(frame_len(src), src.len() as int) =~= rest);
}

/// A whole frame whose type code names no transaction type, within the
/// limit, is reported as such and then taken off the buffer in full: the
/// bytes after it come first for the next read.
pub proof fn lemma_unknown_type_frame_skipped(h: TransactionHeader, payload: Seq<u8>, rest: Seq<u8>, max: usize)
    requires
        type_of_code(h.transaction_type) is None,
        h.data_size == payload.len(),
        h.data_size <= max,
    ensures
        ({
            let src = header_bytes(h) + payload + rest;
            &&& decode_frame(src, max) == FrameOutcome::BadType(h.transaction_type)
            &&& frame_len(src) == 20 + payload.len()
            &&& src.subrange(frame_len(src), src.len() as int) == rest
        }),
{
    let src = header_bytes(h) + payload + rest;
    assert(src =~= header_bytes(h) + (payload + rest));
    lemma_header_round_trip(h, payload + rest);
    assert(src.subrange(20 + payload.len() as int, src.len() as int) =~= rest);
}

/// Frames transactions: reads them from a receive buffer and writes them to a
/// send buffer.
pub struct TransactionCodec {
    max_size: usize,
}

impl TransactionCodec {
    /// The payload limit.
    pub closed spec fn limit(&self) -> usize {
        self.max_size
    }

    /// A codec with the protocol's payload limit of 32768 bytes.
    pub fn new() -> (r: Self)
        ensures
            r.limit() == MAX_TRANSACTION_SIZE,
    {
        TransactionCodec { max_size: MAX_TRANSACTION_SIZE }
    }

    /// A codec with the given payload limit.
    pub fn with_max_size(max_size: usize) -> (r: Self)
        ensures
            r.limit() == max_size,
    {
        TransactionCodec { max_size }
    }

    pub fn max_size(&self) -> (r: usize)
        ensures
            r == self.limit(),
    {
        self.max_size
    }

    /// Reads the first frame of `src` and says how many bytes it took: none
    /// while no whole frame is there or when a header announces a payload
    /// over the limit (`TransactionTooLarge`), the whole frame otherwise,
    /// whether or not it reads as a transaction.
    pub fn decode_slice(&self, src: &[u8]) -> (r: (Result<Option<Transaction>, ProtocolError>, usize))
        ensures
            decode_frame(src@, self.limit()) is NeedMore ==> r.0 == Ok::<
                Option<Transaction>,
                ProtocolError,
            >(None) && r.1 == 0,
            decode_frame(src@, self.limit()) matches FrameOutcome::TooLarge(n) ==> r.0 == Err::<
                Option<Transaction>,
                ProtocolError,
            >(ProtocolError::TransactionTooLarge { size: n as usize, max: self.limit() })
                && r.1 == 0,
            decode_frame(src@, self.limit()) matches FrameOutcome::BadType(c) ==> r.0 == Err::<
                Option<Transaction>,
                ProtocolError,
            >(ProtocolError::InvalidTransactionType(c)),
            decode_frame(src@, self.limit()) is BadFields ==> r.0 == Err::<
                Option<Transaction>,
                ProtocolError,
            >(ProtocolError::InvalidFieldData),
            decode_frame(src@, self.limit()) matches FrameOutcome::Frame(m) ==> (r.0 matches Ok(
                Some(t),
            ) && t@ == m),
            decode_frame(src@, self.limit()) is BadType || decode_frame(src@, self.limit()) is BadFields
                || decode_frame(src@, self.limit()) is Frame ==> r.1 == frame_len(src@),
    {
        if src.len() < TRANSACTION_HEADER_SIZE {
            return (Ok(None), 0);
        }
        let header = match TransactionHeader::from_bytes(src) {
            Ok(h) => h,
            Err(e) => {
                return (Err(e), 0);
            },
        };
        let ds = header.data_size as usize;
        if ds > self.max_size {
            return (Err(ProtocolError::TransactionTooLarge { size: ds, max: self.max_size }), 0);
        }
        if src.len() - TRANSACTION_HEADER_SIZE < ds {
            return (Ok(None), 0);
        }
        let total = TRANSACTION_HEADER_SIZE + ds;
        let payload = &src[TRANSACTION_HEADER_SIZE..total];
        assert(payload@ =~= src@.subrange(20, 20 + header.data_size));
        assert(header == header_at_start(src@));
        let transaction_type = match TransactionType::from_u16(header.transaction_type) {
            Some(t) => t,
            None => {
                return (Err(ProtocolError::InvalidTransactionType(header.transaction_type)), total);
            },
        };
        let fields = match decode_fields(payload) {
            Ok(f) => f,
            Err(e) => {
                return (Err(e), total);
            },
        };
        (
            Ok(
                Some(
                    Transaction {
                        flags: header.flags,
                        is_reply: header.is_reply != 0,
                        transaction_type,
                        id: header.id,
                        error_code: header.error_code,
                        total_size: header.total_size,
                        data_size: header.data_size,
                        fields,
                    },
                ),
            ),
            total,
        )
    }

    /// Takes the first frame off `src`. Returns `Ok(None)` and leaves `src`
    /// as it is while no whole frame is there; fails with `TransactionTooLarge`,
    /// leaving `src` as it is, as soon as a header announces a payload over
    /// the limit. A whole frame is removed from `src` whether or not it reads
    /// as a transaction.
    pub fn decode(&self, src: &mut Vec<u8>) -> (r: Result<Option<Transaction>, ProtocolError>)
        ensures
            decode_frame(old(src)@, self.limit()) is NeedMore ==> r == Ok::<
                Option<Transaction>,
                ProtocolError,
            >(None) && final(src)@ == old(src)@,
            decode_frame(old(src)@, self.limit()) matches FrameOutcome::TooLarge(n) ==> r == Err::<
                Option<Transaction>,
                ProtocolError,
            >(ProtocolError::TransactionTooLarge { size: n as usize, max: self.limit() })
                && final(src)@ == old(src)@,
            decode_frame(old(src)@, self.limit()) matches FrameOutcome::BadType(c) ==> r == Err::<
                Option<Transaction>,
                ProtocolError,
            >(ProtocolError::InvalidTransactionType(c)),
            decode_frame(old(src)@, self.limit()) is BadFields ==> r == Err::<
                Option<Transaction>,
                ProtocolError,
            >(ProtocolError::InvalidFieldData),
            decode_frame(old(src)@, self.limit()) matches FrameOutcome::Frame(m) ==> (r matches Ok(
                Some(t),
            ) && t@ == m),
            decode_frame(old(src)@, self.limit()) is BadType || decode_frame(
                old(src)@,
                self.limit(),
            ) is BadFields || decode_frame(old(src)@, self.limit()) is Frame ==> final(src)@
                == old(src)@.subrange(frame_len(old(src)@), old(src)@.len() as int),
    {
        let (r, n) = self.decode_slice(src.as_slice());
        if n > 0 {
            let rest = src.split_off(n);
            *src = rest;
        }
        r
    }

    /// Appends the frame of `item` to `dst`: header, then payload, with both
    /// size fields set to the payload length. Fails, leaving `dst` as it is,
    /// when the wire cannot carry a field (`InvalidFieldData`) or the payload
    /// exceeds the limit (`TransactionTooLarge`).
    pub fn encode(&self, item: Transaction, dst: &mut Vec<u8>) -> (r: Result<(), ProtocolError>)
        ensures
            fields_fit(item@.fields) && payload_within(item@.fields, self.limit()) ==> r is Ok
                && final(dst)@ == old(dst)@ + frame_bytes(item@),
            !fields_fit(item@.fields) ==> r == Err::<(), ProtocolError>(
                ProtocolError::InvalidFieldData,
            ) && final(dst)@ == old(dst)@,
            fields_fit(item@.fields) && !payload_within(item@.fields, self.limit()) ==> r == Err::<
                (),
                ProtocolError,
            >(
                ProtocolError::TransactionTooLarge {
                    size: payload_of(item@.fields).len() as usize,
                    max: self.limit(),
                },
            ) && final(dst)@ == old(dst)@,
    {
        let mut payload: Vec<u8> = Vec::new();
        match encode_fields(item.fields.as_slice(), &mut payload) {
            Ok(()) => {},
            Err(e) => {
                return Err(e);
            },
        }
        assert(payload@ =~= payload_of(item@.fields));
        let n = payload.len();
        if n > self.max_size || n > 0xffff_ffff {
            return Err(ProtocolError::TransactionTooLarge { size: n, max: self.max_size });
        }
        let header = TransactionHeader {
            flags: item.flags,
            is_reply: if item.is_reply {
                1
            } else {
                0
            },
            transaction_type: item.transaction_type.to_u16(),
            id: item.id,
            error_code: item.error_code,
            total_size: n as u32,
            data_size: n as u32,
        };
        header.to_bytes(dst);
        dst.extend_from_slice(payload.as_slice());
        assert(final(dst)@ =~= old(dst)@ + frame_bytes(item@));
        Ok(())
    }
}

} // verus!
