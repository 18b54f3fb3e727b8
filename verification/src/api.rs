use vstd::prelude::*;

use crate::metadata::ApiError;
use crate::metadata::error_status;
use crate::metadata::status_of_class;
use crate::metadata::PieceMetadata;
use crate::metadata::PoStOutput;
use crate::metadata::SealedSectorMetadata;
use crate::metadata::SealStatus;
use crate::metadata::StagedSectorMetadata;
use crate::responses::AddPieceResponse;
use crate::responses::all_zero;
use crate::responses::FCPResponseStatus;
use crate::responses::FFIPieceMetadata;
use crate::responses::FFISealedSectorMetadata;
use crate::responses::FFISealStatus;
use crate::responses::FFIStagedSectorMetadata;
use crate::responses::GeneratePoSTResponse;
use crate::responses::GetMaxStagedBytesPerSector;
use crate::responses::GetSealedSectorsResponse;
use crate::responses::GetSealStatusResponse;
use crate::responses::GetStagedSectorsResponse;
use crate::responses::InitSectorBuilderResponse;
use crate::responses::is_success;
use crate::responses::no_sector_fields;
use crate::responses::ReadPieceFromSealedSectorResponse;
use crate::responses::SealAllStagedSectorsResponse;
use crate::responses::VerifyPoSTResponse;
use crate::responses::VerifySealResponse;

verus! {

/// The `i`-th replica commitment of a flattened list: bytes `32 * i` up to
/// `32 * i + 32`.
pub open spec fn comm_r_at(flattened: Seq<u8>, i: int) -> Seq<u8> {
    flattened.subrange(32 * i, 32 * i + 32)
}

/// Cuts a flattened list of replica commitments into its 32-byte commitments,
/// in order.
pub fn comm_rs_from_flattened(flattened: &[u8]) -> (comm_rs: Vec<[u8; 32]>)
    requires
        flattened@.len() % 32 == 0,
    ensures
        comm_rs@.len() == flattened@.len() / 32,
        forall|i: int| 0 <= i < comm_rs@.len() ==> #[trigger] comm_rs@[i]@ == comm_r_at(flattened@, i),
{
    let count: usize = flattened.len() / 32;
    assert(32 * count == flattened@.len()) by (nonlinear_arith)
        requires
            count == flattened@.len() / 32,
            flattened@.len() % 32 == 0,
    ;
    let mut comm_rs: Vec<[u8; 32]> = Vec::new();
    let mut i: usize = 0;
    while i < count
        invariant
            32 * count == flattened@.len(),
            32 * count <= usize::MAX,
            i <= count,
            comm_rs@.len() == i,
            forall|k: int| 0 <= k < i ==> #[trigger] comm_rs@[k]@ == comm_r_at(flattened@, k),
        decreases count - i,
    {
        let start: usize = 32 * i;
        let mut comm_r: [u8; 32] = [0u8; 32];
        let mut j: usize = 0;
        while j < 32
            invariant
                start == 32 * i,
                i < count,
                32 * count == flattened@.len(),
                j <= 32,
                forall|m: int| 0 <= m < j ==> comm_r@[m] == flattened@[start + m],
            decreases 32 - j,
        {
            comm_r[j] = flattened[start + j];
            j = j + 1;
        }
        assert(comm_r@ =~= comm_r_at(flattened@, i as int));
        comm_rs.push(comm_r);
        i = i + 1;
    }
    comm_rs
}

/// A response reports the error `err`: the status of its class and its message.
pub open spec fn is_error(status_code: FCPResponseStatus, error_msg: Option<String>, err: ApiError) -> bool {
    status_code == status_of_class(err.class) && error_msg == Some(err.message)
}

/// The reported piece carries the key and the size of the piece.
pub open spec fn piece_reported(ffi: FFIPieceMetadata, piece: PieceMetadata) -> bool {
    ffi.piece_key == piece.piece_key && ffi.num_bytes == piece.num_bytes
}

/// The reported pieces are the pieces, one for one and in order.
pub open spec fn pieces_reported(ffi: Seq<FFIPieceMetadata>, pieces: Seq<PieceMetadata>) -> bool {
    &&& ffi.len() == pieces.len()
    &&& forall|i: int| 0 <= i < ffi.len() ==> piece_reported(#[trigger] ffi[i], pieces[i])
}

/// The code under which the API reports a sealing state.
pub open spec fn seal_status_code_of(status: SealStatus) -> FFISealStatus {
    match status {
        SealStatus::Failed(_) => FFISealStatus::Failed,
        SealStatus::Pending => FFISealStatus::Pending,
        SealStatus::Sealed(_) => FFISealStatus::Sealed,
        SealStatus::Sealing => FFISealStatus::Sealing,
    }
}

/// The message of a failed sealing; none for any other state.
pub open spec fn seal_error_of(status: SealStatus) -> Option<String> {
    match status {
        SealStatus::Failed(msg) => Some(msg),
        _ => None,
    }
}

/// The reported sealed sector carries the commitments, access, id, proof and
/// pieces of the sector.
pub open spec fn sealed_sector_reported(ffi: FFISealedSectorMetadata, meta: SealedSectorMetadata) -> bool {
    &&& ffi.comm_d == meta.comm_d
    &&& ffi.comm_r == meta.comm_r
    &&& ffi.comm_r_star == meta.comm_r_star
    &&& ffi.sector_access == meta.sector_access
    &&& ffi.sector_id == meta.sector_id
    &&& ffi.snark_proof == meta.snark_proof
    &&& pieces_reported(ffi.pieces@, meta.pieces@)
}

/// The reported staged sector carries the access, id and pieces of the sector,
/// the code of its sealing state and, for a failed sealing, its message.
pub open spec fn staged_sector_reported(ffi: FFIStagedSectorMetadata, meta: StagedSectorMetadata) -> bool {
    &&& ffi.sector_access == meta.sector_access
    &&& ffi.sector_id == meta.sector_id
    &&& pieces_reported(ffi.pieces@, meta.pieces@)
    &&& ffi.seal_status_code == seal_status_code_of(meta.seal_status)
    &&& ffi.seal_error_msg == seal_error_of(meta.seal_status)
}

/// Reports each piece by its key and size.
pub fn ffi_pieces(pieces: &Vec<PieceMetadata>) -> (ffi: Vec<FFIPieceMetadata>)
    ensures
        pieces_reported(ffi@, pieces@),
{
    let mut ffi: Vec<FFIPieceMetadata> = Vec::new();
    let mut i: usize = 0;
    while i < pieces.len()
        invariant
            i <= pieces@.len(),
            ffi@.len() == i,
            forall|k: int| 0 <= k < i ==> piece_reported(#[trigger] ffi@[k], pieces@[k]),
        decreases pieces@.len() - i,
    {
        let piece = &pieces[i];
        ffi.push(FFIPieceMetadata { piece_key: piece.piece_key.clone(), num_bytes: piece.num_bytes });
        i = i + 1;
    }
    ffi
}

/// The code under which a sealing state is reported.
pub fn ffi_seal_status(status: &SealStatus) -> (code: FFISealStatus)
    ensures
        code == seal_status_code_of(*status),
{
    match status {
        SealStatus::Failed(_) => FFISealStatus::Failed,
        SealStatus::Pending => FFISealStatus::Pending,
        SealStatus::Sealed(_) => FFISealStatus::Sealed,
        SealStatus::Sealing => FFISealStatus::Sealing,
    }
}

/// Reports a sealed sector.
pub fn ffi_sealed_sector(meta: &SealedSectorMetadata) -> (ffi: FFISealedSectorMetadata)
    ensures
        sealed_sector_reported(ffi, *meta),
{
    FFISealedSectorMetadata {
        comm_d: meta.comm_d,
        comm_r: meta.comm_r,
        comm_r_star: meta.comm_r_star,
        sector_access: meta.sector_access.clone(),
        sector_id: meta.sector_id,
        snark_proof: meta.snark_proof,
        pieces: ffi_pieces(&meta.pieces),
    }
}

/// Reports a staged sector, with the code of its sealing state and, when its
/// sealing failed, the message of the failure.
pub fn ffi_staged_sector(meta: &StagedSectorMetadata) -> (ffi: FFIStagedSectorMetadata)
    ensures
        staged_sector_reported(ffi, *meta),
{
    let pieces = ffi_pieces(&meta.pieces);
    let mut sector = FFIStagedSectorMetadata {
        sector_access: meta.sector_access.clone(),
        sector_id: meta.sector_id,
        pieces,
        seal_status_code: FFISealStatus::Pending,
        seal_error_msg: None,
    };
    match &meta.seal_status {
        SealStatus::Failed(s) => {
            sector.seal_status_code = FFISealStatus::Failed;
            sector.seal_error_msg = Some(s.clone());
        },
        SealStatus::Sealing => {
            sector.seal_status_code = FFISealStatus::Sealing;
        },
        SealStatus::Pending => {
            sector.seal_status_code = FFISealStatus::Pending;
        },
        SealStatus::Sealed(_) => {
            sector.seal_status_code = FFISealStatus::Sealed;
        },
    }
    sector
}

/// Answer to a request for the staged sectors: on success every staged sector,
/// in order; on failure the error.
pub fn get_staged_sectors(outcome: Result<Vec<StagedSectorMetadata>, ApiError>) -> (response:
    GetStagedSectorsResponse)
    ensures
        match outcome {
            Ok(staged) => {
                &&& is_success(response.status_code, response.error_msg)
                &&& response.sectors@.len() == staged@.len()
                &&& forall|i: int|
                    0 <= i < staged@.len() ==> staged_sector_reported(
                        #[trigger] response.sectors@[i],
                        staged@[i],
                    )
            },
            Err(err) => {
                &&& is_error(response.status_code, response.error_msg, err)
                &&& response.sectors@.len() == 0
            },
        },
{
    let mut response = GetStagedSectorsResponse::default();
    match outcome {
        Ok(staged_sectors) => {
            response.status_code = FCPResponseStatus::FCPNoError;
            let mut sectors: Vec<FFIStagedSectorMetadata> = Vec::new();
            let mut i: usize = 0;
            while i < staged_sectors.len()
                invariant
                    i <= staged_sectors@.len(),
                    sectors@.len() == i,
                    forall|k: int|
                        0 <= k < i ==> staged_sector_reported(#[trigger] sectors@[k], staged_sectors@[k]),
                decreases staged_sectors@.len() - i,
            {
                sectors.push(ffi_staged_sector(&staged_sectors[i]));
                i = i + 1;
            }
            response.sectors = sectors;
        },
        Err(err) => {
            response.status_code = error_status(err.class);
            response.error_msg = Some(err.message);
        },
    }
    response
}

/// Answer to a request for the sealed sectors: on success every sealed sector,
/// in order; on failure the error.
pub fn get_sealed_sectors(outcome: Result<Vec<SealedSectorMetadata>, ApiError>) -> (response:
    GetSealedSectorsResponse)
    ensures
        match outcome {
            Ok(sealed) => {
                &&& is_success(response.status_code, response.error_msg)
                &&& response.sectors@.len() == sealed@.len()
                &&& forall|i: int|
                    0 <= i < sealed@.len() ==> sealed_sector_reported(
                        #[trigger] response.sectors@[i],
                        sealed@[i],
                    )
            },
            Err(err) => {
                &&& is_error(response.status_code, response.error_msg, err)
                &&& response.sectors@.len() == 0
            },
        },
{
    let mut response = GetSealedSectorsResponse::default();
    match outcome {
        Ok(sealed_sectors) => {
            response.status_code = FCPResponseStatus::FCPNoError;
            let mut sectors: Vec<FFISealedSectorMetadata> = Vec::new();
            let mut i: usize = 0;
            while i < sealed_sectors.len()
                invariant
                    i <= sealed_sectors@.len(),
                    sectors@.len() == i,
                    forall|k: int|
                        0 <= k < i ==> sealed_sector_reported(#[trigger] sectors@[k], sealed_sectors@[k]),
                decreases sealed_sectors@.len() - i,
            {
                sectors.push(ffi_sealed_sector(&sealed_sectors[i]));
                i = i + 1;
            }
            response.sectors = sectors;
        },
        Err(err) => {
            response.status_code = error_status(err.class);
            response.error_msg = Some(err.message);
        },
    }
    response
}

/// The fields of a seal status answer carry the commitments, access, id, proof
/// and pieces of the sealed sector.
pub open spec fn sealed_fields_reported(response: GetSealStatusResponse, meta: SealedSectorMetadata) -> bool {
    &&& response.comm_d == meta.comm_d
    &&& response.comm_r == meta.comm_r
    &&& response.comm_r_star == meta.comm_r_star
    &&& response.sector_access == Some(meta.sector_access)
    &&& response.sector_id == meta.sector_id
    &&& response.snark_proof == meta.snark_proof
    &&& pieces_reported(response.pieces@, meta.pieces@)
}

/// What `get_seal_status` answers for `outcome`.
pub open spec fn seal_status_answer(outcome: Result<SealStatus, ApiError>, response: GetSealStatusResponse) -> bool {
    match outcome {
        Ok(status) => {
            &&& is_success(response.status_code, response.error_msg)
            &&& response.seal_status_code == seal_status_code_of(status)
            &&& response.seal_error_msg == seal_error_of(status)
            &&& match status {
                SealStatus::Sealed(meta) => sealed_fields_reported(response, *meta),
                _ => no_sector_fields(response),
            }
        },
        Err(err) => {
            &&& is_error(response.status_code, response.error_msg, err)
            &&& response.seal_status_code == FFISealStatus::Failed
            &&& response.seal_error_msg is None
            &&& no_sector_fields(response)
        },
    }
}

/// Answer to a request for the sealing state of one sector: on success the code
/// of the state, the sector's metadata when it is sealed and the message of the
/// failure when its sealing failed; on failure (such as an unknown sector id)
/// the error.
pub fn get_seal_status(outcome: Result<SealStatus, ApiError>) -> (response: GetSealStatusResponse)
    ensures
        seal_status_answer(outcome, response),
{
    let mut response = GetSealStatusResponse::default();
    match outcome {
        Ok(seal_status) => {
            response.status_code = FCPResponseStatus::FCPNoError;
            match seal_status {
                SealStatus::Sealed(meta) => {
                    let meta = *meta;
                    response.seal_status_code = FFISealStatus::Sealed;
                    response.comm_d = meta.comm_d;
                    response.comm_r = meta.comm_r;
                    response.comm_r_star = meta.comm_r_star;
                    response.snark_proof = meta.snark_proof;
                    response.sector_id = meta.sector_id;
                    response.pieces = ffi_pieces(&meta.pieces);
                    response.sector_access = Some(meta.sector_access);
                },
                SealStatus::Sealing => {
                    response.seal_status_code = FFISealStatus::Sealing;
                },
                SealStatus::Pending => {
                    response.seal_status_code = FFISealStatus::Pending;
                },
                SealStatus::Failed(err) => {
                    response.seal_status_code = FFISealStatus::Failed;
                    response.seal_error_msg = Some(err);
                },
            }
        },
        Err(err) => {
            response.status_code = error_status(err.class);
            response.error_msg = Some(err.message);
        },
    }
    response
}

/// Message of the answer to a request that names no sector store configuration.
pub open spec fn missing_store_message() -> Seq<char> {
    "caller did not provide ConfiguredStore"@
}

/// A response reports that the caller gave no sector store configuration: a
/// caller error, with its message.
pub open spec fn missing_store_reported(status_code: FCPResponseStatus, error_msg: Option<String>) -> bool {
    &&& status_code == FCPResponseStatus::FCPCallerError
    &&& error_msg matches Some(msg) && msg@ == missing_store_message()
}

/// What `verify_seal` answers for `outcome`.
pub open spec fn verify_seal_answer(outcome: Option<Result<bool, ApiError>>, response: VerifySealResponse) -> bool {
    match outcome {
        Some(Ok(valid)) => is_success(response.status_code, response.error_msg) && response.is_valid == valid,
        Some(Err(err)) => is_error(response.status_code, response.error_msg, err) && !response.is_valid,
        None => missing_store_reported(response.status_code, response.error_msg) && !response.is_valid,
    }
}

/// Answer to a request to verify the output of a seal. `outcome` is `None`
/// when the caller gave no sector store configuration, else the outcome of the
/// check: whether the proof holds, or the error that stopped it.
pub fn verify_seal(outcome: Option<Result<bool, ApiError>>) -> (response: VerifySealResponse)
    ensures
        verify_seal_answer(outcome, response),
{
    let mut response = VerifySealResponse::default();
    match outcome {
        Some(checked) => match checked {
            Ok(true) => {
                response.status_code = FCPResponseStatus::FCPNoError;
                response.is_valid = true;
            },
            Ok(false) => {
                response.status_code = FCPResponseStatus::FCPNoError;
                response.is_valid = false;
            },
            Err(err) => {
                response.status_code = error_status(err.class);
                response.error_msg = Some(err.message);
            },
        },
        None => {
            response.status_code = FCPResponseStatus::FCPCallerError;
            response.error_msg = Some("caller did not provide ConfiguredStore".to_owned());
            proof {
                reveal_strlit("caller did not provide ConfiguredStore");
            }
        },
    }
    response
}

/// Answer to a request for a proof of spacetime: on success the proof and the
/// faulty sectors; on failure the error.
pub fn generate_post(outcome: Result<PoStOutput, ApiError>) -> (response: GeneratePoSTResponse)
    ensures
        match outcome {
            Ok(output) => {
                &&& is_success(response.status_code, response.error_msg)
                &&& response.proof == output.snark_proof
                &&& response.faults@ == output.faults@
            },
            Err(err) => {
                &&& is_error(response.status_code, response.error_msg, err)
                &&& all_zero(response.proof@)
                &&& response.faults@.len() == 0
            },
        },
{
    let mut response = GeneratePoSTResponse::default();
    match outcome {
        Ok(output) => {
            response.status_code = FCPResponseStatus::FCPNoError;
            response.proof = output.snark_proof;
            response.faults = output.faults;
        },
        Err(err) => {
            response.status_code = error_status(err.class);
            response.error_msg = Some(err.message);
        },
    }
    response
}

/// The challenge seed as the proof-of-spacetime check takes it: the seed with
/// the two high bits of its last byte cleared, so that it reads as an element
/// of the proof system's field; every other byte is kept.
pub fn safe_challenge_seed(challenge_seed: &[u8; 32]) -> (safe: [u8; 32])
    ensures
        forall|i: int| 0 <= i < 31 ==> #[trigger] safe@[i] == challenge_seed@[i],
        safe@[31] == challenge_seed@[31] & 0b00111111u8,
        safe@[31] < 64,
{
    let mut cs: [u8; 32] = *challenge_seed;
    let last: u8 = cs[31];
    let masked: u8 = last & 0b00111111u8;
    assert(masked < 64) by (bit_vector)
        requires
            masked == last & 0b00111111u8,
    ;
    cs[31] = masked;
    cs
}

/// What `verify_post` answers for `outcome`.
pub open spec fn verify_post_answer(outcome: Result<bool, ApiError>, response: VerifyPoSTResponse) -> bool {
    match outcome {
        Ok(valid) => is_success(response.status_code, response.error_msg) && response.is_valid == valid,
        Err(err) => is_error(response.status_code, response.error_msg, err) && !response.is_valid,
    }
}

/// Answer to a check that a proof of spacetime is valid: on success whether
/// the proof holds for the replica commitments, challenge seed and faults it
/// was checked against; on failure the error that stopped the check.
pub fn verify_post(outcome: Result<bool, ApiError>) -> (response: VerifyPoSTResponse)
    ensures
        verify_post_answer(outcome, response),
{
    let mut response = VerifyPoSTResponse::default();
    match outcome {
        Ok(true) => {
            response.status_code = FCPResponseStatus::FCPNoError;
            response.is_valid = true;
        },
        Ok(false) => {
            response.status_code = FCPResponseStatus::FCPNoError;
            response.is_valid = false;
        },
        Err(err) => {
            response.status_code = error_status(err.class);
            response.error_msg = Some(err.message);
        },
    }
    response
}

/// What `init_sector_builder` answers for `outcome`.
pub open spec fn init_sector_builder_answer<B>(
    outcome: Option<Result<B, ApiError>>,
    response: InitSectorBuilderResponse<B>,
) -> bool {
    match outcome {
        Some(Ok(builder)) => is_success(response.status_code, response.error_msg) && response.sector_builder
            == Some(builder),
        Some(Err(err)) => is_error(response.status_code, response.error_msg, err)
            && response.sector_builder is None,
        None => missing_store_reported(response.status_code, response.error_msg)
            && response.sector_builder is None,
    }
}

/// Answer to a request to set up a sector builder. `outcome` is `None` when the
/// caller gave no sector store configuration, else the builder or the error
/// that stopped its set-up.
pub fn init_sector_builder<B>(outcome: Option<Result<B, ApiError>>) -> (response:
    InitSectorBuilderResponse<B>)
    ensures
        init_sector_builder_answer(outcome, response),
{
    let mut response = InitSectorBuilderResponse::default();
    match outcome {
        Some(built) => match built {
            Ok(sb) => {
                response.status_code = FCPResponseStatus::FCPNoError;
                response.sector_builder = Some(sb);
            },
            Err(err) => {
                response.status_code = error_status(err.class);
                response.error_msg = Some(err.message);
            },
        },
        None => {
            response.status_code = FCPResponseStatus::FCPCallerError;
            response.error_msg = Some("caller did not provide ConfiguredStore".to_owned());
            proof {
                reveal_strlit("caller did not provide ConfiguredStore");
            }
        },
    }
    response
}

/// Answer to writing a piece: on success the id of the sector that took it; on
/// failure the error.
pub fn add_piece(outcome: Result<u64, ApiError>) -> (response: AddPieceResponse)
    ensures
        match outcome {
            Ok(sector_id) => is_success(response.status_code, response.error_msg) && response.sector_id
                == sector_id,
            Err(err) => is_error(response.status_code, response.error_msg, err) && response.sector_id == 0,
        },
{
    let mut response = AddPieceResponse::default();
    match outcome {
        Ok(sector_id) => {
            response.status_code = FCPResponseStatus::FCPNoError;
            response.sector_id = sector_id;
        },
        Err(err) => {
            response.status_code = error_status(err.class);
            response.error_msg = Some(err.message);
        },
    }
    response
}

/// Answer to reading a piece back out of a sealed sector: on success its bytes;
/// on failure the error.
pub fn read_piece_from_sealed_sector(outcome: Result<Vec<u8>, ApiError>) -> (response:
    ReadPieceFromSealedSectorResponse)
    ensures
        match outcome {
            Ok(bytes) => is_success(response.status_code, response.error_msg) && response.data@
                == bytes@,
            Err(err) => is_error(response.status_code, response.error_msg, err) && response.data@.len()
                == 0,
        },
{
    let mut response = ReadPieceFromSealedSectorResponse::default();
    match outcome {
        Ok(piece_bytes) => {
            response.status_code = FCPResponseStatus::FCPNoError;
            response.data = piece_bytes;
        },
        Err(err) => {
            response.status_code = error_status(err.class);
            response.error_msg = Some(err.message);
        },
    }
    response
}

/// Answer to sealing every staged sector: success, or the error.
pub fn seal_all_staged_sectors<T>(outcome: Result<T, ApiError>) -> (response: SealAllStagedSectorsResponse)
    ensures
        match outcome {
            Ok(_) => is_success(response.status_code, response.error_msg),
            Err(err) => is_error(response.status_code, response.error_msg, err),
        },
{
    let mut response = SealAllStagedSectorsResponse::default();
    match outcome {
        Ok(_) => {
            response.status_code = FCPResponseStatus::FCPNoError;
        },
        Err(err) => {
            response.status_code = error_status(err.class);
            response.error_msg = Some(err.message);
        },
    }
    response
}

/// Answer to a request for the number of user bytes that fit into a staged
/// sector; it always succeeds.
pub fn get_max_user_bytes_per_staged_sector(max_user_bytes: u64) -> (response: GetMaxStagedBytesPerSector)
    ensures
        is_success(response.status_code, response.error_msg),
        response.max_staged_bytes_per_sector == max_user_bytes,
{
    let mut response = GetMaxStagedBytesPerSector::default();
    response.status_code = FCPResponseStatus::FCPNoError;
    response.max_staged_bytes_per_sector = max_user_bytes;
    response
}

} // verus!
