use vstd::prelude::*;

verus! {

/// Number of bytes of a proof of replication.
pub const API_POREP_PROOF_BYTES: usize = 384;

/// Number of bytes of a proof of spacetime.
pub const API_POST_PROOF_BYTES: usize = 192;

/// Status of a response: success, or the class of the error that stopped it.
#[derive(Clone, Copy, Debug, PartialEq, Eq, Structural)]
pub enum FCPResponseStatus {
    FCPNoError,
    FCPUnclassifiedError,
    FCPCallerError,
    FCPReceiverError,
}

/// Sealing state of a sector as the API reports it.
#[derive(Clone, Copy, Debug, PartialEq, Eq, Structural)]
pub enum FFISealStatus {
    Sealed,
    Pending,
    Failed,
    Sealing,
}

/// A piece of a sector as the API reports it.
#[derive(Debug, PartialEq, Eq)]
pub struct FFIPieceMetadata {
    pub piece_key: String,
    pub num_bytes: u64,
}

/// `true` when every byte of `s` is zero.
pub open spec fn all_zero(s: Seq<u8>) -> bool {
    forall|i: int| 0 <= i < s.len() ==> s[i] == 0
}

/// A response that reports success carries no error message.
pub open spec fn is_success(status_code: FCPResponseStatus, error_msg: Option<String>) -> bool {
    status_code == FCPResponseStatus::FCPNoError && error_msg is None
}

/// Answer of `verify_seal`.
#[derive(Debug, PartialEq, Eq)]
pub struct VerifySealResponse {
    pub status_code: FCPResponseStatus,
    pub error_msg: Option<String>,
    pub is_valid: bool,
}

impl Default for VerifySealResponse {
    fn default() -> (r: Self)
        ensures
            is_success(r.status_code, r.error_msg),
            !r.is_valid,
    {
        VerifySealResponse {
            status_code: FCPResponseStatus::FCPNoError,
            error_msg: None,
            is_valid: false,
        }
    }
}

/// Answer of `generate_post`.
#[derive(Debug, PartialEq, Eq)]
pub struct GeneratePoSTResponse {
    pub status_code: FCPResponseStatus,
    pub error_msg: Option<String>,
    pub proof: [u8; API_POST_PROOF_BYTES],
    pub faults: Vec<u64>,
}

impl Default for GeneratePoSTResponse {
    fn default() -> (r: Self)
        ensures
            is_success(r.status_code, r.error_msg),
            all_zero(r.proof@),
            r.faults@.len() == 0,
    {
        GeneratePoSTResponse {
            status_code: FCPResponseStatus::FCPNoError,
            error_msg: None,
            proof: [0u8; API_POST_PROOF_BYTES],
            faults: Vec::new(),
        }
    }
}

/// Answer of `verify_post`.
#[derive(Debug, PartialEq, Eq)]
pub struct VerifyPoSTResponse {
    pub status_code: FCPResponseStatus,
    pub error_msg: Option<String>,
    pub is_valid: bool,
}

impl Default for VerifyPoSTResponse {
    fn default() -> (r: Self)
        ensures
            is_success(r.status_code, r.error_msg),
            !r.is_valid,
    {
        VerifyPoSTResponse {
            status_code: FCPResponseStatus::FCPNoError,
            error_msg: None,
            is_valid: false,
        }
    }
}

/// Answer of `init_sector_builder`; `sector_builder` holds the builder on success.
#[derive(Debug, PartialEq, Eq)]
pub struct InitSectorBuilderResponse<B> {
    pub status_code: FCPResponseStatus,
    pub error_msg: Option<String>,
    pub sector_builder: Option<B>,
}

impl<B> Default for InitSectorBuilderResponse<B> {
    fn default() -> (r: Self)
        ensures
            is_success(r.status_code, r.error_msg),
            r.sector_builder is None,
    {
        InitSectorBuilderResponse {
            status_code: FCPResponseStatus::FCPNoError,
            error_msg: None,
            sector_builder: None,
        }
    }
}

/// Answer of `add_piece`: the id of the sector that received the piece.
#[derive(Debug, PartialEq, Eq)]
pub struct AddPieceResponse {
    pub status_code: FCPResponseStatus,
    pub error_msg: Option<String>,
    pub sector_id: u64,
}

impl Default for AddPieceResponse {
    fn default() -> (r: Self)
        ensures
            is_success(r.status_code, r.error_msg),
            r.sector_id == 0,
    {
        AddPieceResponse { status_code: FCPResponseStatus::FCPNoError, error_msg: None, sector_id: 0 }
    }
}

/// Answer of `read_piece_from_sealed_sector`: the unsealed bytes of the piece.
#[derive(Debug, PartialEq, Eq)]
pub struct ReadPieceFromSealedSectorResponse {
    pub status_code: FCPResponseStatus,
    pub error_msg: Option<String>,
    pub data: Vec<u8>,
}

impl Default for ReadPieceFromSealedSectorResponse {
    fn default() -> (r: Self)
        ensures
            is_success(r.status_code, r.error_msg),
            r.data@.len() == 0,
    {
        ReadPieceFromSealedSectorResponse {
            status_code: FCPResponseStatus::FCPNoError,
            error_msg: None,
            data: Vec::new(),
        }
    }
}

/// Answer of `seal_all_staged_sectors`.
#[derive(Debug, PartialEq, Eq)]
pub struct SealAllStagedSectorsResponse {
    pub status_code: FCPResponseStatus,
    pub error_msg: Option<String>,
}

impl Default for SealAllStagedSectorsResponse {
    fn default() -> (r: Self)
        ensures
            is_success(r.status_code, r.error_msg),
    {
        SealAllStagedSectorsResponse { status_code: FCPResponseStatus::FCPNoError, error_msg: None }
    }
}

/// Answer of `get_max_user_bytes_per_staged_sector`.
#[derive(Debug, PartialEq, Eq)]
pub struct GetMaxStagedBytesPerSector {
    pub status_code: FCPResponseStatus,
    pub error_msg: Option<String>,
    pub max_staged_bytes_per_sector: u64,
}

impl Default for GetMaxStagedBytesPerSector {
    fn default() -> (r: Self)
        ensures
            is_success(r.status_code, r.error_msg),
            r.max_staged_bytes_per_sector == 0,
    {
        GetMaxStagedBytesPerSector {
            status_code: FCPResponseStatus::FCPNoError,
            error_msg: None,
            max_staged_bytes_per_sector: 0,
        }
    }
}

/// Answer of `get_seal_status`; the sector fields are filled only for a sealed
/// sector, `seal_error_msg` only for a sector whose sealing failed.
#[derive(Debug, PartialEq, Eq)]
pub struct GetSealStatusResponse {
    pub status_code: FCPResponseStatus,
    pub error_msg: Option<String>,
    pub seal_status_code: FFISealStatus,
    pub seal_error_msg: Option<String>,
    pub comm_d: [u8; 32],
    pub comm_r: [u8; 32],
    pub comm_r_star: [u8; 32],
    pub sector_access: Option<String>,
    pub sector_id: u64,
    pub snark_proof: [u8; API_POREP_PROOF_BYTES],
    pub pieces: Vec<FFIPieceMetadata>,
}

/// `true` when the sector fields of a seal status answer hold their defaults.
pub open spec fn no_sector_fields(r: GetSealStatusResponse) -> bool {
    &&& all_zero(r.comm_d@)
    &&& all_zero(r.comm_r@)
    &&& all_zero(r.comm_r_star@)
    &&& r.sector_access is None
    &&& r.sector_id == 0
    &&& all_zero(r.snark_proof@)
    &&& r.pieces@.len() == 0
}

impl Default for GetSealStatusResponse {
    fn default() -> (r: Self)
        ensures
            is_success(r.status_code, r.error_msg),
            r.seal_status_code == FFISealStatus::Failed,
            r.seal_error_msg is None,
            no_sector_fields(r),
    {
        GetSealStatusResponse {
            status_code: FCPResponseStatus::FCPNoError,
            error_msg: None,
            seal_status_code: FFISealStatus::Failed,
            seal_error_msg: None,
            comm_d: [0u8; 32],
            comm_r: [0u8; 32],
            comm_r_star: [0u8; 32],
            sector_access: None,
            sector_id: 0,
            snark_proof: [0u8; API_POREP_PROOF_BYTES],
            pieces: Vec::new(),
        }
    }
}

/// A sealed sector as the API reports it.
#[derive(Debug, PartialEq, Eq)]
pub struct FFISealedSectorMetadata {
    pub comm_d: [u8; 32],
    pub comm_r: [u8; 32],
    pub comm_r_star: [u8; 32],
    pub sector_access: String,
    pub sector_id: u64,
    pub snark_proof: [u8; API_POREP_PROOF_BYTES],
    pub pieces: Vec<FFIPieceMetadata>,
}

/// Answer of `get_sealed_sectors`.
#[derive(Debug, PartialEq, Eq)]
pub struct GetSealedSectorsResponse {
    pub status_code: FCPResponseStatus,
    pub error_msg: Option<String>,
    pub sectors: Vec<FFISealedSectorMetadata>,
}

impl Default for GetSealedSectorsResponse {
    fn default() -> (r: Self)
        ensures
            is_success(r.status_code, r.error_msg),
            r.sectors@.len() == 0,
    {
        GetSealedSectorsResponse {
            status_code: FCPResponseStatus::FCPNoError,
            error_msg: None,
            sectors: Vec::new(),
        }
    }
}

/// A staged sector as the API reports it.
#[derive(Debug, PartialEq, Eq)]
pub struct FFIStagedSectorMetadata {
    pub sector_access: String,
    pub sector_id: u64,
    pub pieces: Vec<FFIPieceMetadata>,
    pub seal_status_code: FFISealStatus,
    pub seal_error_msg: Option<String>,
}

/// Answer of `get_staged_sectors`.
#[derive(Debug, PartialEq, Eq)]
pub struct GetStagedSectorsResponse {
    pub status_code: FCPResponseStatus,
    pub error_msg: Option<String>,
    pub sectors: Vec<FFIStagedSectorMetadata>,
}

impl Default for GetStagedSectorsResponse {
    fn default() -> (r: Self)
        ensures
            is_success(r.status_code, r.error_msg),
            r.sectors@.len() == 0,
    {
        GetStagedSectorsResponse {
            status_code: FCPResponseStatus::FCPNoError,
            error_msg: None,
            sectors: Vec::new(),
        }
    }
}

} // verus!
