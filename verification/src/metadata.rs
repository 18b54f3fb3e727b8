use vstd::prelude::*;

use crate::responses::API_POREP_PROOF_BYTES;
use crate::responses::API_POST_PROOF_BYTES;
use crate::responses::FCPResponseStatus;

verus! {

/// The class of an error: who is to blame for it, or nobody known.
#[derive(Clone, Copy, Debug, PartialEq, Eq, Structural)]
pub enum ErrorClass {
    Unclassified,
    Caller,
    Receiver,
}

/// The status under which an error of class `class` is reported.
pub open spec fn status_of_class(class: ErrorClass) -> FCPResponseStatus {
    match class {
        ErrorClass::Unclassified => FCPResponseStatus::FCPUnclassifiedError,
        ErrorClass::Caller => FCPResponseStatus::FCPCallerError,
        ErrorClass::Receiver => FCPResponseStatus::FCPReceiverError,
    }
}

/// The status under which an error of class `class` is reported.
pub fn error_status(class: ErrorClass) -> (status: FCPResponseStatus)
    ensures
        status == status_of_class(class),
{
    match class {
        ErrorClass::Unclassified => FCPResponseStatus::FCPUnclassifiedError,
        ErrorClass::Caller => FCPResponseStatus::FCPCallerError,
        ErrorClass::Receiver => FCPResponseStatus::FCPReceiverError,
    }
}

/// An error of an operation, as the API reports it: its class and its message.
#[derive(Debug, PartialEq, Eq)]
pub struct ApiError {
    pub class: ErrorClass,
    pub message: String,
}

/// A piece written into a sector.
#[derive(Debug, PartialEq, Eq)]
pub struct PieceMetadata {
    pub piece_key: String,
    pub num_bytes: u64,
}

/// A sector that has been sealed, with its commitments and proof.
#[derive(Debug, PartialEq, Eq)]
pub struct SealedSectorMetadata {
    pub sector_id: u64,
    pub sector_access: String,
    pub pieces: Vec<PieceMetadata>,
    pub comm_r_star: [u8; 32],
    pub comm_r: [u8; 32],
    pub comm_d: [u8; 32],
    pub snark_proof: [u8; API_POREP_PROOF_BYTES],
}

/// Where a sector stands in the sealing process.
#[derive(Debug, PartialEq, Eq)]
pub enum SealStatus {
    Failed(String),
    Pending,
    Sealed(Box<SealedSectorMetadata>),
    Sealing,
}

/// A sector that still takes pieces, or is being sealed.
#[derive(Debug, PartialEq, Eq)]
pub struct StagedSectorMetadata {
    pub sector_id: u64,
    pub sector_access: String,
    pub pieces: Vec<PieceMetadata>,
    pub seal_status: SealStatus,
}

/// What a proof of spacetime gives back: the proof and the faulty sectors.
#[derive(Debug, PartialEq, Eq)]
pub struct PoStOutput {
    pub snark_proof: [u8; API_POST_PROOF_BYTES],
    pub faults: Vec<u64>,
}

} // verus!
