//! Building replies and server-initiated transactions.
use vstd::prelude::*;
use crate::field::{Field, FieldModel};
use crate::transaction::{Transaction, TransactionModel, field_models};
use crate::types::{ErrorCode, TransactionType, error_code_value};

verus! {

/// `reply` answers `request`: same type and id, marked as a reply.
pub open spec fn answers(reply: TransactionModel, request: TransactionModel) -> bool {
    &&& reply.is_reply
    &&& reply.transaction_type == request.transaction_type
    &&& reply.id == request.id
}

/// A reply to `request` with the given error code and fields.
pub open spec fn reply_model(request: TransactionModel, error_code: u32, fields: Seq<FieldModel>) -> TransactionModel {
    TransactionModel {
        flags: 0,
        is_reply: true,
        transaction_type: request.transaction_type,
        id: request.id,
        error_code,
        total_size: 0,
        data_size: 0,
        fields,
    }
}

/// A server-initiated transaction: not a reply, id 0.
pub open spec fn push_model(transaction_type: TransactionType, fields: Seq<FieldModel>) -> TransactionModel {
    TransactionModel {
        flags: 0,
        is_reply: false,
        transaction_type,
        id: 0,
        error_code: 0,
        total_size: 0,
        data_size: 0,
        fields,
    }
}

/// A server-initiated transaction with the given fields.
pub fn create_server_transaction(transaction_type: TransactionType, fields: Vec<Field>) -> (r: Transaction)
    ensures
        r@ == push_model(transaction_type, field_models(fields@)),
{
    Transaction {
        flags: 0,
        is_reply: false,
        transaction_type,
        id: 0,
        error_code: 0,
        total_size: 0,
        data_size: 0,
        fields,
    }
}

/// A reply to `request` carrying `error_code` and no fields.
pub fn create_error_reply(request: &Transaction, error_code: ErrorCode) -> (r: Transaction)
    ensures
        r@ == reply_model(request@, error_code_value(error_code), Seq::empty()),
        answers(r@, request@),
{
    let r = Transaction {
        flags: 0,
        is_reply: true,
        transaction_type: request.transaction_type,
        id: request.id,
        error_code: error_code.to_u32(),
        total_size: 0,
        data_size: 0,
        fields: Vec::new(),
    };
    assert(r@.fields =~= Seq::<FieldModel>::empty());
    r
}

/// A successful reply to `request` carrying `fields`.
pub fn create_success_reply(request: &Transaction, fields: Vec<Field>) -> (r: Transaction)
    ensures
        r@ == reply_model(request@, 0, field_models(fields@)),
        answers(r@, request@),
{
    Transaction {
        flags: 0,
        is_reply: true,
        transaction_type: request.transaction_type,
        id: request.id,
        error_code: 0,
        total_size: 0,
        data_size: 0,
        fields,
    }
}

/// Every reply built for a request answers it: it is marked as a reply and
/// carries the request's type and id, whatever its error code and fields.
pub proof fn lemma_reply_answers_request(request: TransactionModel, error_code: u32, fields: Seq<FieldModel>)
    ensures
        answers(reply_model(request, error_code, fields), request),
{
}

} // verus!
