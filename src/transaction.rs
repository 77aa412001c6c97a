//! Transactions and their 20-byte header.
use vstd::prelude::*;
use crate::error::ProtocolError;
use crate::field::{Field, FieldId, FieldModel};
use crate::types::TransactionType;
use crate::wire::{be16, be32, get_u16, get_u32, put_u16, put_u32, read16, read32};

verus! {

/// A transaction as a mathematical object.
pub ghost struct TransactionModel {
    pub flags: u8,
    pub is_reply: bool,
    pub transaction_type: TransactionType,
    pub id: u32,
    pub error_code: u32,
    pub total_size: u32,
    pub data_size: u32,
    pub fields: Seq<FieldModel>,
}

/// One request or reply frame.
#[derive(Clone, Debug)]
pub struct Transaction {
    /// Reserved, 0.
    pub flags: u8,
    /// Request (false) or reply (true).
    pub is_reply: bool,
    pub transaction_type: TransactionType,
    /// Non-zero for requests; replies echo the request's id; 0 marks a push.
    pub id: u32,
    /// 0 on success.
    pub error_code: u32,
    pub total_size: u32,
    pub data_size: u32,
    pub fields: Vec<Field>,
}

/// The models of a sequence of fields.
pub open spec fn field_models(fs: Seq<Field>) -> Seq<FieldModel> {
    fs.map_values(|f: Field| f@)
}

/// The first field with identifier `id`, if any.
pub open spec fn first_with_id(fs: Seq<FieldModel>, id: FieldId) -> Option<FieldModel>
    decreases fs.len(),
{
    if fs.len() == 0 {
        None
    } else if fs[0].id == id {
        Some(fs[0])
    } else {
        first_with_id(fs.drop_first(), id)
    }
}

impl Transaction {
    pub open spec fn view(&self) -> TransactionModel {
        TransactionModel {
            flags: self.flags,
            is_reply: self.is_reply,
            transaction_type: self.transaction_type,
            id: self.id,
            error_code: self.error_code,
            total_size: self.total_size,
            data_size: self.data_size,
            fields: field_models(self.fields@),
        }
    }

    /// A request of the given type with id 0 and no fields.
    pub fn new(transaction_type: TransactionType) -> (r: Self)
        ensures
            r@ == (TransactionModel {
                flags: 0,
                is_reply: false,
                transaction_type,
                id: 0,
                error_code: 0,
                total_size: 0,
                data_size: 0,
                fields: Seq::empty(),
            }),
    {
        let r = Transaction {
            flags: 0,
            is_reply: false,
            transaction_type,
            id: 0,
            error_code: 0,
            total_size: 0,
            data_size: 0,
            fields: Vec::new(),
        };
        assert(r@.fields =~= Seq::<FieldModel>::empty());
        r
    }

    /// A successful reply of the given type and id, with no fields.
    pub fn new_reply(transaction_type: TransactionType, id: u32) -> (r: Self)
        ensures
            r@ == (TransactionModel {
                flags: 0,
                is_reply: true,
                transaction_type,
                id,
                error_code: 0,
                total_size: 0,
                data_size: 0,
                fields: Seq::empty(),
            }),
    {
        let r = Transaction {
            flags: 0,
            is_reply: true,
            transaction_type,
            id,
            error_code: 0,
            total_size: 0,
            data_size: 0,
            fields: Vec::new(),
        };
        assert(r@.fields =~= Seq::<FieldModel>::empty());
        r
    }

    /// A reply of type `Error` with the given id and error code, with no fields.
    pub fn new_error(id: u32, error_code: u32) -> (r: Self)
        ensures
            r@ == (TransactionModel {
                flags: 0,
                is_reply: true,
                transaction_type: TransactionType::Error,
                id,
                error_code,
                total_size: 0,
                data_size: 0,
                fields: Seq::empty(),
            }),
    {
        let r = Transaction {
            flags: 0,
            is_reply: true,
            transaction_type: TransactionType::Error,
            id,
            error_code,
            total_size: 0,
            data_size: 0,
            fields: Vec::new(),
        };
        assert(r@.fields =~= Seq::<FieldModel>::empty());
        r
    }

    /// Appends a field.
    pub fn add_field(&mut self, field: Field)
        ensures
            final(self)@ == (TransactionModel { fields: old(self)@.fields.push(field@), ..old(self)@ }),
    {
        self.fields.push(field);
        assert(final(self)@.fields =~= old(self)@.fields.push(field@));
    }

    /// The first field with identifier `id`.
    pub fn get_field(&self, id: FieldId) -> (r: Option<&Field>)
        ensures
            r.is_some() == first_with_id(self@.fields, id).is_some(),
            r matches Some(f) ==> first_with_id(self@.fields, id) == Some(f@),
    {
        let mut i: usize = 0;
        assert(self@.fields.subrange(0, self@.fields.len() as int) =~= self@.fields);
        while i < self.fields.len()
            invariant
                i <= self.fields@.len(),
                first_with_id(self@.fields, id) == first_with_id(self@.fields.subrange(i as int, self@.fields.len() as int), id),
            decreases self.fields@.len() - i,
        {
            let ghost rest = self@.fields.subrange(i as int, self@.fields.len() as int);
            if self.fields[i].id == id {
                return Some(&self.fields[i]);
            }
            assert(rest.drop_first() =~= self@.fields.subrange(i + 1, self@.fields.len() as int));
            i += 1;
        }
        None
    }

    /// Whether a field with identifier `id` is present.
    pub fn has_field(&self, id: FieldId) -> (r: bool)
        ensures
            r == first_with_id(self@.fields, id).is_some(),
    {
        self.get_field(id).is_some()
    }
}

/// The fixed header of every transaction frame.
#[derive(Clone, Copy, Debug)]
pub struct TransactionHeader {
    pub flags: u8,
    pub is_reply: u8,
    pub transaction_type: u16,
    pub id: u32,
    pub error_code: u32,
    pub total_size: u32,
    pub data_size: u32,
}

pub const TRANSACTION_HEADER_SIZE: usize = 20;

/// The 20 bytes of a header.
pub open spec fn header_bytes(h: TransactionHeader) -> Seq<u8> {
    seq![h.flags, h.is_reply] + be16(h.transaction_type) + be32(h.id) + be32(h.error_code) + be32(
        h.total_size,
    ) + be32(h.data_size)
}

/// The header read from the first 20 bytes of `b`.
pub open spec fn header_at_start(b: Seq<u8>) -> TransactionHeader {
    TransactionHeader {
        flags: b[0],
        is_reply: b[1],
        transaction_type: read16(b, 2),
        id: read32(b, 4),
        error_code: read32(b, 8),
        total_size: read32(b, 12),
        data_size: read32(b, 16),
    }
}

impl TransactionHeader {
    /// Reads a header from the start of `buf`.
    pub fn from_bytes(buf: &[u8]) -> (r: Result<Self, ProtocolError>)
        ensures
            buf@.len() < 20 ==> r == Err::<Self, ProtocolError>(ProtocolError::UnexpectedEof),
            buf@.len() >= 20 ==> r == Ok::<Self, ProtocolError>(header_at_start(buf@)),
    {
        if buf.len() < TRANSACTION_HEADER_SIZE {
            return Err(ProtocolError::UnexpectedEof);
        }
        Ok(TransactionHeader {
            flags: buf[0],
            is_reply: buf[1],
            transaction_type: get_u16(buf, 2),
            id: get_u32(buf, 4),
            error_code: get_u32(buf, 8),
            total_size: get_u32(buf, 12),
            data_size: get_u32(buf, 16),
        })
    }

    /// Appends the 20 header bytes to `buf`.
    pub fn to_bytes(&self, buf: &mut Vec<u8>)
        ensures
            final(buf)@ == old(buf)@ + header_bytes(*self),
    {
        buf.push(self.flags);
        buf.push(self.is_reply);
        put_u16(buf, self.transaction_type);
        put_u32(buf, self.id);
        put_u32(buf, self.error_code);
        put_u32(buf, self.total_size);
        put_u32(buf, self.data_size);
        assert(final(buf)@ =~= old(buf)@ + header_bytes(*self));
    }
}

} // verus!
