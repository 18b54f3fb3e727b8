use vstd::prelude::*;

use crate::api::comm_r_at;
use crate::api::pieces_reported;
use crate::api::init_sector_builder_answer;
use crate::api::is_error;
use crate::api::missing_store_message;
use crate::api::seal_status_answer;
use crate::api::sealed_sector_reported;
use crate::api::staged_sector_reported;
use crate::api::verify_post_answer;
use crate::api::verify_seal_answer;
use crate::metadata::status_of_class;
use crate::metadata::ApiError;
use crate::metadata::ErrorClass;
use crate::metadata::PieceMetadata;
use crate::metadata::SealStatus;
use crate::metadata::SealedSectorMetadata;
use crate::metadata::StagedSectorMetadata;
use crate::responses::all_zero;
use crate::responses::is_success;
use crate::responses::API_POREP_PROOF_BYTES;
use crate::responses::FCPResponseStatus;
use crate::responses::FFISealStatus;
use crate::responses::FFISealedSectorMetadata;
use crate::responses::FFIStagedSectorMetadata;
use crate::responses::FFIPieceMetadata;
use crate::responses::GetSealStatusResponse;
use crate::responses::InitSectorBuilderResponse;
use crate::responses::VerifyPoSTResponse;
use crate::responses::VerifySealResponse;

verus! {

/// The commitments, written one after the other.
pub open spec fn flatten_comm_rs(comm_rs: Seq<[u8; 32]>) -> Seq<u8>
    decreases comm_rs.len(),
{
    if comm_rs.len() == 0 {
        Seq::empty()
    } else {
        flatten_comm_rs(comm_rs.drop_last()) + comm_rs.last()@
    }
}

proof fn lemma_flatten_prefix(flattened: Seq<u8>, comm_rs: Seq<[u8; 32]>, n: int)
    requires
        0 <= n <= comm_rs.len(),
        32 * comm_rs.len() == flattened.len(),
        forall|i: int| 0 <= i < comm_rs.len() ==> #[trigger] comm_rs[i]@ == comm_r_at(flattened, i),
    ensures
        flatten_comm_rs(comm_rs.take(n)) == flattened.take(32 * n),
    decreases n,
{
    if n == 0 {
        assert(flattened.take(0) =~= Seq::<u8>::empty());
    } else {
        lemma_flatten_prefix(flattened, comm_rs, n - 1);
        assert(comm_rs.take(n).drop_last() =~= comm_rs.take(n - 1));
        assert(comm_rs.take(n).last() == comm_rs[n - 1]);
        assert(flattened.take(32 * n) =~= flattened.take(32 * (n - 1)) + comm_r_at(flattened, n - 1));
    }
}

/// Cutting a flattened list into commitments loses and adds nothing: the
/// commitments that `comm_rs_from_flattened` gives, written one after the
/// other, are the flattened list again.
pub proof fn law_comm_rs_cover_flattened(flattened: Seq<u8>, comm_rs: Seq<[u8; 32]>)
    requires
        flattened.len() % 32 == 0,
        comm_rs.len() == flattened.len() / 32,
        forall|i: int| 0 <= i < comm_rs.len() ==> #[trigger] comm_rs[i]@ == comm_r_at(flattened, i),
    ensures
        flatten_comm_rs(comm_rs) == flattened,
{
    let n: int = comm_rs.len() as int;
    assert(32 * n == flattened.len()) by (nonlinear_arith)
        requires
            n == flattened.len() / 32,
            flattened.len() % 32 == 0,
    ;
    lemma_flatten_prefix(flattened, comm_rs, n);
    assert(comm_rs.take(n) =~= comm_rs);
    assert(flattened.take(32 * n) =~= flattened);
}

/// An answer that reports an error never reads as a success.
pub proof fn law_error_is_not_success(status_code: FCPResponseStatus, error_msg: Option<String>, err: ApiError)
    requires
        is_error(status_code, error_msg, err),
    ensures
        !is_success(status_code, error_msg),
        status_code != FCPResponseStatus::FCPNoError,
{
}

/// A seal is reported valid only by an answer that reports success.
pub proof fn law_valid_seal_only_on_success(outcome: Option<Result<bool, ApiError>>, response: VerifySealResponse)
    requires
        verify_seal_answer(outcome, response),
    ensures
        response.is_valid ==> is_success(response.status_code, response.error_msg) && outcome == Some(
            Ok::<bool, ApiError>(true),
        ),
{
}

/// A proof of spacetime is reported valid only by an answer that reports
/// success, and only when the check found it valid.
pub proof fn law_valid_post_only_on_success(outcome: Result<bool, ApiError>, response: VerifyPoSTResponse)
    requires
        verify_post_answer(outcome, response),
    ensures
        response.is_valid ==> is_success(response.status_code, response.error_msg) && outcome == Ok::<
            bool,
            ApiError,
        >(true),
{
}

/// A missing sector store configuration is answered alike by `verify_seal` and
/// `init_sector_builder`: a caller error with the same message, and neither a
/// valid seal nor a builder.
pub proof fn law_missing_store_answered_alike<B>(
    seal_response: VerifySealResponse,
    init_response: InitSectorBuilderResponse<B>,
)
    requires
        verify_seal_answer(None, seal_response),
        init_sector_builder_answer(None::<Result<B, ApiError>>, init_response),
    ensures
        seal_response.status_code == init_response.status_code,
        seal_response.status_code == FCPResponseStatus::FCPCallerError,
        seal_response.error_msg is Some,
        init_response.error_msg is Some,
        seal_response.error_msg->Some_0@ == init_response.error_msg->Some_0@,
        seal_response.error_msg->Some_0@ == missing_store_message(),
        !seal_response.is_valid,
        init_response.sector_builder is None,
{
}

/// `get_seal_status` and `get_staged_sectors` report a sealing state under the
/// same code and with the same failure message.
pub proof fn law_seal_state_reported_alike(
    status: SealStatus,
    response: GetSealStatusResponse,
    meta: StagedSectorMetadata,
    sector: FFIStagedSectorMetadata,
)
    requires
        seal_status_answer(Ok(status), response),
        staged_sector_reported(sector, meta),
        meta.seal_status == status,
    ensures
        response.seal_status_code == sector.seal_status_code,
        response.seal_error_msg == sector.seal_error_msg,
{
}

/// `get_seal_status` for a sealed sector and `get_sealed_sectors` report the
/// same commitments, access, id, proof and pieces of that sector.
pub proof fn law_sealed_sector_reported_alike(
    meta: SealedSectorMetadata,
    response: GetSealStatusResponse,
    sector: FFISealedSectorMetadata,
)
    requires
        seal_status_answer(Ok(SealStatus::Sealed(Box::new(meta))), response),
        sealed_sector_reported(sector, meta),
    ensures
        response.seal_status_code == FFISealStatus::Sealed,
        response.comm_d == sector.comm_d,
        response.comm_r == sector.comm_r,
        response.comm_r_star == sector.comm_r_star,
        response.sector_access == Some(sector.sector_access),
        response.sector_id == sector.sector_id,
        response.snark_proof == sector.snark_proof,
        response.pieces@ == sector.pieces@,
{
    assert(response.pieces@ =~= sector.pieces@);
}

/// A staged sector carries a failure message exactly when it is reported as
/// failed.
pub proof fn law_staged_failure_message_iff_failed(meta: StagedSectorMetadata, sector: FFIStagedSectorMetadata)
    requires
        staged_sector_reported(sector, meta),
    ensures
        sector.seal_error_msg is Some <==> sector.seal_status_code == FFISealStatus::Failed,
{
}

/// A successful seal status answer carries a failure message exactly when it
/// reports the sealing as failed.
pub proof fn law_seal_status_failure_message_iff_failed(status: SealStatus, response: GetSealStatusResponse)
    requires
        seal_status_answer(Ok(status), response),
    ensures
        response.seal_error_msg is Some <==> response.seal_status_code == FFISealStatus::Failed,
{
}

/// Each error class is reported under its own error status, never as success:
/// unclassified, caller and receiver errors under the matching status.
pub proof fn law_error_classes_are_error_statuses(class: ErrorClass)
    ensures
        status_of_class(class) != FCPResponseStatus::FCPNoError,
        class == ErrorClass::Unclassified ==> status_of_class(class) == FCPResponseStatus::FCPUnclassifiedError,
        class == ErrorClass::Caller ==> status_of_class(class) == FCPResponseStatus::FCPCallerError,
        class == ErrorClass::Receiver ==> status_of_class(class) == FCPResponseStatus::FCPReceiverError,
{
}

/// A list of bytes is all zero exactly when every one of its bytes is zero.
pub proof fn law_all_zero_bytes(bytes: Seq<u8>)
    ensures
        all_zero(bytes) <==> forall|i: int| 0 <= i < bytes.len() ==> bytes[i] == 0,
{
}

/// A success answer is one with status `FCPNoError` and no error message.
pub proof fn law_success_is_no_error_and_no_message(status_code: FCPResponseStatus, error_msg: Option<String>)
    ensures
        is_success(status_code, error_msg) <==> (status_code == FCPResponseStatus::FCPNoError && error_msg
            is None),
{
}

/// An answer that reports an error carries the error's message and the status
/// of its class, which is never `FCPNoError`.
pub proof fn law_error_answer_carries_class_and_message(
    status_code: FCPResponseStatus,
    error_msg: Option<String>,
    err: ApiError,
)
    requires
        is_error(status_code, error_msg, err),
    ensures
        status_code != FCPResponseStatus::FCPNoError,
        error_msg == Some(err.message),
        err.class == ErrorClass::Unclassified ==> status_code == FCPResponseStatus::FCPUnclassifiedError,
        err.class == ErrorClass::Caller ==> status_code == FCPResponseStatus::FCPCallerError,
        err.class == ErrorClass::Receiver ==> status_code == FCPResponseStatus::FCPReceiverError,
{
}

/// Reported pieces are exactly the sector's pieces: as many, and piece `i`
/// with the key and size of piece `i`.
pub proof fn law_pieces_one_for_one(ffi: Seq<FFIPieceMetadata>, pieces: Seq<PieceMetadata>)
    requires
        pieces_reported(ffi, pieces),
    ensures
        ffi.len() == pieces.len(),
        forall|i: int|
            0 <= i < pieces.len() ==> (#[trigger] ffi[i]).piece_key == pieces[i].piece_key && ffi[i].num_bytes
                == pieces[i].num_bytes,
{
}

/// The commitments cut from a flattened list are its bytes in order: byte `j`
/// of commitment `i` is byte `32 * i + j` of the list.
pub proof fn law_comm_rs_bytes(flattened: Seq<u8>, comm_rs: Seq<[u8; 32]>)
    requires
        forall|i: int| 0 <= i < comm_rs.len() ==> #[trigger] comm_rs[i]@ == comm_r_at(flattened, i),
        32 * comm_rs.len() <= flattened.len(),
    ensures
        forall|i: int, j: int|
            #![trigger comm_rs[i]@[j]]
            0 <= i < comm_rs.len() && 0 <= j < 32 ==> comm_rs[i]@[j] == flattened[32 * i + j],
{
    assert forall|i: int, j: int| #![trigger comm_rs[i]@[j]] 0 <= i < comm_rs.len() && 0 <= j < 32 implies comm_rs[i]@[j]
        == flattened[32 * i + j] by {
        assert(comm_rs[i]@ == comm_r_at(flattened, i));
    }
}

/// `verify_seal` answers exactly: a finished check succeeds with its verdict;
/// an error is reported with its class's status and its message and no valid
/// seal; a missing store is a caller error with its message. A success answer
/// comes only from a finished check.
pub proof fn law_verify_seal_answers(outcome: Option<Result<bool, ApiError>>, response: VerifySealResponse)
    requires
        verify_seal_answer(outcome, response),
    ensures
        outcome matches Some(Ok(valid)) ==> response.status_code == FCPResponseStatus::FCPNoError
            && response.error_msg is None && response.is_valid == valid,
        outcome matches Some(Err(err)) ==> response.status_code == status_of_class(err.class)
            && response.status_code != FCPResponseStatus::FCPNoError && response.error_msg == Some(
            err.message,
        ) && !response.is_valid,
        outcome is None ==> response.status_code == FCPResponseStatus::FCPCallerError
            && response.error_msg is Some && response.error_msg->Some_0@ == "caller did not provide ConfiguredStore"@
            && !response.is_valid,
        response.status_code == FCPResponseStatus::FCPNoError ==> outcome matches Some(Ok(_)),
{
    reveal_strlit("caller did not provide ConfiguredStore");
}

/// `verify_post` answers exactly: a finished check succeeds with its verdict;
/// an error is reported with its class's status and its message and no valid
/// proof. A success answer comes only from a finished check.
pub proof fn law_verify_post_answers(outcome: Result<bool, ApiError>, response: VerifyPoSTResponse)
    requires
        verify_post_answer(outcome, response),
    ensures
        outcome matches Ok(valid) ==> response.status_code == FCPResponseStatus::FCPNoError
            && response.error_msg is None && response.is_valid == valid,
        outcome matches Err(err) ==> response.status_code == status_of_class(err.class)
            && response.status_code != FCPResponseStatus::FCPNoError && response.error_msg == Some(
            err.message,
        ) && !response.is_valid,
        response.status_code == FCPResponseStatus::FCPNoError ==> outcome is Ok,
{
}

/// `init_sector_builder` answers exactly: a built builder is handed back on
/// success; an error is reported with its class's status and its message; a
/// missing store is a caller error. A success answer always holds a builder,
/// and any other answer holds none.
pub proof fn law_init_sector_builder_answers<B>(
    outcome: Option<Result<B, ApiError>>,
    response: InitSectorBuilderResponse<B>,
)
    requires
        init_sector_builder_answer(outcome, response),
    ensures
        outcome matches Some(Ok(builder)) ==> response.status_code == FCPResponseStatus::FCPNoError
            && response.error_msg is None && response.sector_builder == Some(builder),
        outcome matches Some(Err(err)) ==> response.status_code == status_of_class(err.class)
            && response.status_code != FCPResponseStatus::FCPNoError && response.error_msg == Some(
            err.message,
        ) && response.sector_builder is None,
        outcome is None ==> response.status_code == FCPResponseStatus::FCPCallerError
            && response.error_msg is Some && response.error_msg->Some_0@ == "caller did not provide ConfiguredStore"@
            && response.sector_builder is None,
        response.status_code == FCPResponseStatus::FCPNoError <==> response.sector_builder is Some,
{
    reveal_strlit("caller did not provide ConfiguredStore");
}

/// A failed seal status lookup is reported as an error: the status of the
/// error's class, its message, the default `Failed` code with no failure
/// message, and no sector fields. A success answer comes only from a lookup
/// that found the sector.
pub proof fn law_seal_status_lookup_error(outcome: Result<SealStatus, ApiError>, response: GetSealStatusResponse)
    requires
        seal_status_answer(outcome, response),
    ensures
        outcome matches Err(err) ==> {
            &&& response.status_code == status_of_class(err.class)
            &&& response.status_code != FCPResponseStatus::FCPNoError
            &&& response.error_msg == Some(err.message)
            &&& response.seal_status_code == FFISealStatus::Failed
            &&& response.seal_error_msg is None
            &&& response.sector_access is None
            &&& response.sector_id == 0
            &&& response.pieces@.len() == 0
            &&& forall|i: int| 0 <= i < 32 ==> response.comm_d@[i] == 0 && response.comm_r@[i] == 0
                && response.comm_r_star@[i] == 0
            &&& forall|i: int| 0 <= i < API_POREP_PROOF_BYTES ==> response.snark_proof@[i] == 0
        },
        response.status_code == FCPResponseStatus::FCPNoError ==> outcome is Ok,
{
}

/// A found sector's sealing state is reported under its own code: pending as
/// pending, sealing as sealing, failed as failed with the failure's message,
/// sealed as sealed with the sector's commitments, access, id, proof and
/// every piece in order; only a failed sealing carries a failure message, and
/// only a sealed sector carries sector fields.
pub proof fn law_seal_status_found(status: SealStatus, response: GetSealStatusResponse)
    requires
        seal_status_answer(Ok(status), response),
    ensures
        response.status_code == FCPResponseStatus::FCPNoError,
        response.error_msg is None,
        status is Pending ==> response.seal_status_code == FFISealStatus::Pending,
        status is Sealing ==> response.seal_status_code == FFISealStatus::Sealing,
        status matches SealStatus::Failed(msg) ==> response.seal_status_code == FFISealStatus::Failed
            && response.seal_error_msg == Some(msg),
        !(status is Failed) ==> response.seal_error_msg is None,
        !(status is Sealed) ==> {
            &&& response.sector_access is None
            &&& response.sector_id == 0
            &&& response.pieces@.len() == 0
            &&& forall|i: int| 0 <= i < 32 ==> response.comm_d@[i] == 0 && response.comm_r@[i] == 0
                && response.comm_r_star@[i] == 0
            &&& forall|i: int| 0 <= i < API_POREP_PROOF_BYTES ==> response.snark_proof@[i] == 0
        },
        status matches SealStatus::Sealed(meta) ==> {
            &&& response.seal_status_code == FFISealStatus::Sealed
            &&& response.comm_d == meta.comm_d
            &&& response.comm_r == meta.comm_r
            &&& response.comm_r_star == meta.comm_r_star
            &&& response.snark_proof == meta.snark_proof
            &&& response.sector_id == meta.sector_id
            &&& response.sector_access == Some(meta.sector_access)
            &&& response.pieces@.len() == meta.pieces@.len()
            &&& forall|i: int|
                0 <= i < meta.pieces@.len() ==> (#[trigger] response.pieces@[i]).piece_key
                    == meta.pieces@[i].piece_key && response.pieces@[i].num_bytes == meta.pieces@[i].num_bytes
        },
{
}

/// A listed sealed sector carries the sector's commitments, access, id and
/// proof, and every one of its pieces, in order.
pub proof fn law_sealed_sector_fields(sector: FFISealedSectorMetadata, meta: SealedSectorMetadata)
    requires
        sealed_sector_reported(sector, meta),
    ensures
        sector.comm_d == meta.comm_d,
        sector.comm_r == meta.comm_r,
        sector.comm_r_star == meta.comm_r_star,
        sector.sector_access == meta.sector_access,
        sector.sector_id == meta.sector_id,
        sector.snark_proof == meta.snark_proof,
        sector.pieces@.len() == meta.pieces@.len(),
        forall|i: int|
            0 <= i < meta.pieces@.len() ==> (#[trigger] sector.pieces@[i]).piece_key == meta.pieces@[i].piece_key
                && sector.pieces@[i].num_bytes == meta.pieces@[i].num_bytes,
{
}

/// A listed staged sector carries the sector's access and id, every one of
/// its pieces in order, the code of its sealing state, and a failure message
/// exactly when its sealing failed.
pub proof fn law_staged_sector_fields(sector: FFIStagedSectorMetadata, meta: StagedSectorMetadata)
    requires
        staged_sector_reported(sector, meta),
    ensures
        sector.sector_access == meta.sector_access,
        sector.sector_id == meta.sector_id,
        sector.pieces@.len() == meta.pieces@.len(),
        forall|i: int|
            0 <= i < meta.pieces@.len() ==> (#[trigger] sector.pieces@[i]).piece_key == meta.pieces@[i].piece_key
                && sector.pieces@[i].num_bytes == meta.pieces@[i].num_bytes,
        meta.seal_status is Pending ==> sector.seal_status_code == FFISealStatus::Pending,
        meta.seal_status is Sealing ==> sector.seal_status_code == FFISealStatus::Sealing,
        meta.seal_status is Sealed ==> sector.seal_status_code == FFISealStatus::Sealed,
        meta.seal_status matches SealStatus::Failed(msg) ==> sector.seal_status_code == FFISealStatus::Failed
            && sector.seal_error_msg == Some(msg),
        !(meta.seal_status is Failed) ==> sector.seal_error_msg is None,
{
}

} // verus!
