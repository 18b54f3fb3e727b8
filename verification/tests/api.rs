use filecoin_proofs::api::add_piece;
use filecoin_proofs::api::comm_rs_from_flattened;
use filecoin_proofs::api::ffi_pieces;
use filecoin_proofs::api::ffi_seal_status;
use filecoin_proofs::api::ffi_sealed_sector;
use filecoin_proofs::api::ffi_staged_sector;
use filecoin_proofs::api::generate_post;
use filecoin_proofs::api::get_max_user_bytes_per_staged_sector;
use filecoin_proofs::api::get_seal_status;
use filecoin_proofs::api::get_sealed_sectors;
use filecoin_proofs::api::get_staged_sectors;
use filecoin_proofs::api::init_sector_builder;
use filecoin_proofs::api::read_piece_from_sealed_sector;
use filecoin_proofs::api::safe_challenge_seed;
use filecoin_proofs::api::seal_all_staged_sectors;
use filecoin_proofs::api::verify_post;
use filecoin_proofs::api::verify_seal;
use filecoin_proofs::metadata::error_status;
use filecoin_proofs::metadata::ApiError;
use filecoin_proofs::metadata::ErrorClass;
use filecoin_proofs::metadata::PieceMetadata;
use filecoin_proofs::metadata::PoStOutput;
use filecoin_proofs::metadata::SealStatus;
use filecoin_proofs::metadata::SealedSectorMetadata;
use filecoin_proofs::metadata::StagedSectorMetadata;
use filecoin_proofs::responses::FCPResponseStatus;
use filecoin_proofs::responses::FFISealStatus;
use filecoin_proofs::responses::API_POREP_PROOF_BYTES;
use filecoin_proofs::responses::API_POST_PROOF_BYTES;

const MISSING_STORE: &str = "caller did not provide ConfiguredStore";

fn err(class: ErrorClass, message: &str) -> ApiError {
    ApiError { class, message: message.to_string() }
}

fn piece(key: &str, num_bytes: u64) -> PieceMetadata {
    PieceMetadata { piece_key: key.to_string(), num_bytes }
}

fn sealed_meta(sector_id: u64) -> SealedSectorMetadata {
    let mut snark_proof = [0u8; API_POREP_PROOF_BYTES];
    snark_proof[0] = 7;
    snark_proof[API_POREP_PROOF_BYTES - 1] = 9;
    SealedSectorMetadata {
        sector_id,
        sector_access: format!("/sealed/{}", sector_id),
        pieces: vec![piece("a", 10), piece("b", 20)],
        comm_r_star: [3u8; 32],
        comm_r: [2u8; 32],
        comm_d: [1u8; 32],
        snark_proof,
    }
}

#[test]
fn constants_have_the_proof_sizes() {
    assert_eq!(API_POREP_PROOF_BYTES, 384);
    assert_eq!(API_POST_PROOF_BYTES, 192);
}

#[test]
fn verify_seal_reports_valid_proof() {
    let r = verify_seal(Some(Ok(true)));
    assert_eq!(r.status_code, FCPResponseStatus::FCPNoError);
    assert_eq!(r.error_msg, None);
    assert!(r.is_valid);
}

#[test]
fn verify_seal_reports_invalid_proof() {
    let r = verify_seal(Some(Ok(false)));
    assert_eq!(r.status_code, FCPResponseStatus::FCPNoError);
    assert_eq!(r.error_msg, None);
    assert!(!r.is_valid);
}

#[test]
fn verify_seal_reports_error() {
    let r = verify_seal(Some(Err(err(ErrorClass::Receiver, "bad proof bytes"))));
    assert_eq!(r.status_code, FCPResponseStatus::FCPReceiverError);
    assert_eq!(r.error_msg, Some("bad proof bytes".to_string()));
    assert!(!r.is_valid);
}

#[test]
fn verify_seal_without_store_is_caller_error() {
    let r = verify_seal(None);
    assert_eq!(r.status_code, FCPResponseStatus::FCPCallerError);
    assert_eq!(r.error_msg, Some(MISSING_STORE.to_string()));
    assert!(!r.is_valid);
}

#[test]
fn init_sector_builder_holds_builder() {
    let r = init_sector_builder::<u32>(Some(Ok(77)));
    assert_eq!(r.status_code, FCPResponseStatus::FCPNoError);
    assert_eq!(r.error_msg, None);
    assert_eq!(r.sector_builder, Some(77));
}

#[test]
fn init_sector_builder_reports_error() {
    let r = init_sector_builder::<u32>(Some(Err(err(ErrorClass::Unclassified, "no metadata dir"))));
    assert_eq!(r.status_code, FCPResponseStatus::FCPUnclassifiedError);
    assert_eq!(r.error_msg, Some("no metadata dir".to_string()));
    assert_eq!(r.sector_builder, None);
}

#[test]
fn init_sector_builder_without_store_is_caller_error() {
    let r = init_sector_builder::<u32>(None);
    assert_eq!(r.status_code, FCPResponseStatus::FCPCallerError);
    assert_eq!(r.error_msg, Some(MISSING_STORE.to_string()));
    assert_eq!(r.sector_builder, None);
}

#[test]
fn missing_store_answered_alike() {
    let a = verify_seal(None);
    let b = init_sector_builder::<u8>(None);
    assert_eq!(a.status_code, b.status_code);
    assert_eq!(a.error_msg, b.error_msg);
}

#[test]
fn comm_rs_are_cut_in_order() {
    let mut flattened: Vec<u8> = Vec::new();
    for i in 0..96u32 {
        flattened.push(i as u8);
    }
    let comm_rs = comm_rs_from_flattened(&flattened);
    assert_eq!(comm_rs.len(), 3);
    for (k, comm_r) in comm_rs.iter().enumerate() {
        for j in 0..32 {
            assert_eq!(comm_r[j], (32 * k + j) as u8);
        }
    }
    let rejoined: Vec<u8> = comm_rs.iter().flat_map(|c| c.iter().copied()).collect();
    assert_eq!(rejoined, flattened);
}

#[test]
fn comm_rs_of_empty_list() {
    assert!(comm_rs_from_flattened(&[]).is_empty());
}

#[test]
fn generate_post_reports_proof_and_faults() {
    let mut snark_proof = [0u8; API_POST_PROOF_BYTES];
    snark_proof[5] = 42;
    let r = generate_post(Ok(PoStOutput { snark_proof, faults: vec![3, 1, 4] }));
    assert_eq!(r.status_code, FCPResponseStatus::FCPNoError);
    assert_eq!(r.error_msg, None);
    assert_eq!(r.proof, snark_proof);
    assert_eq!(r.faults, vec![3, 1, 4]);
}

#[test]
fn generate_post_reports_error() {
    let r = generate_post(Err(err(ErrorClass::Caller, "no such replica")));
    assert_eq!(r.status_code, FCPResponseStatus::FCPCallerError);
    assert_eq!(r.error_msg, Some("no such replica".to_string()));
    assert_eq!(r.proof, [0u8; API_POST_PROOF_BYTES]);
    assert!(r.faults.is_empty());
}

#[test]
fn verify_post_reports_valid_proof() {
    let r = verify_post(Ok(true));
    assert_eq!(r.status_code, FCPResponseStatus::FCPNoError);
    assert_eq!(r.error_msg, None);
    assert!(r.is_valid);
}

#[test]
fn verify_post_reports_invalid_proof() {
    let r = verify_post(Ok(false));
    assert_eq!(r.status_code, FCPResponseStatus::FCPNoError);
    assert_eq!(r.error_msg, None);
    assert!(!r.is_valid);
}

#[test]
fn verify_post_reports_error() {
    let r = verify_post(Err(err(ErrorClass::Caller, "wrong number of faults")));
    assert_eq!(r.status_code, FCPResponseStatus::FCPCallerError);
    assert_eq!(r.error_msg, Some("wrong number of faults".to_string()));
    assert!(!r.is_valid);
}

#[test]
fn challenge_seed_last_byte_is_masked() {
    let mut seed = [0xffu8; 32];
    seed[0] = 1;
    let safe = safe_challenge_seed(&seed);
    assert_eq!(safe[0], 1);
    for i in 1..31 {
        assert_eq!(safe[i], 0xff);
    }
    assert_eq!(safe[31], 0b00111111);
    let mut low = [7u8; 32];
    low[31] = 0b0101_0101;
    assert_eq!(safe_challenge_seed(&low)[31], 0b0001_0101);
    assert_eq!(safe_challenge_seed(&low)[30], 7);
}

#[test]
fn error_classes_map_to_error_statuses() {
    assert_eq!(error_status(ErrorClass::Unclassified), FCPResponseStatus::FCPUnclassifiedError);
    assert_eq!(error_status(ErrorClass::Caller), FCPResponseStatus::FCPCallerError);
    assert_eq!(error_status(ErrorClass::Receiver), FCPResponseStatus::FCPReceiverError);
}

#[test]
fn add_piece_reports_sector_id() {
    let r = add_piece(Ok(12));
    assert_eq!(r.status_code, FCPResponseStatus::FCPNoError);
    assert_eq!(r.error_msg, None);
    assert_eq!(r.sector_id, 12);
}

#[test]
fn add_piece_reports_overflow_error() {
    let r = add_piece(Err(err(ErrorClass::Caller, "piece too large")));
    assert_eq!(r.status_code, FCPResponseStatus::FCPCallerError);
    assert_eq!(r.error_msg, Some("piece too large".to_string()));
    assert_eq!(r.sector_id, 0);
}

#[test]
fn read_piece_reports_bytes() {
    let r = read_piece_from_sealed_sector(Ok(vec![9, 8, 7]));
    assert_eq!(r.status_code, FCPResponseStatus::FCPNoError);
    assert_eq!(r.error_msg, None);
    assert_eq!(r.data, vec![9, 8, 7]);
}

#[test]
fn read_piece_reports_error() {
    let r = read_piece_from_sealed_sector(Err(err(ErrorClass::Receiver, "unseal failed")));
    assert_eq!(r.status_code, FCPResponseStatus::FCPReceiverError);
    assert_eq!(r.error_msg, Some("unseal failed".to_string()));
    assert!(r.data.is_empty());
}

#[test]
fn seal_all_reports_success_and_error() {
    let ok = seal_all_staged_sectors::<Vec<u64>>(Ok(vec![1, 2]));
    assert_eq!(ok.status_code, FCPResponseStatus::FCPNoError);
    assert_eq!(ok.error_msg, None);
    let bad = seal_all_staged_sectors::<()>(Err(err(ErrorClass::Unclassified, "busy")));
    assert_eq!(bad.status_code, FCPResponseStatus::FCPUnclassifiedError);
    assert_eq!(bad.error_msg, Some("busy".to_string()));
}

#[test]
fn max_user_bytes_is_reported() {
    let r = get_max_user_bytes_per_staged_sector(1016);
    assert_eq!(r.status_code, FCPResponseStatus::FCPNoError);
    assert_eq!(r.error_msg, None);
    assert_eq!(r.max_staged_bytes_per_sector, 1016);
}

#[test]
fn seal_status_of_sealed_sector() {
    let meta = sealed_meta(5);
    let r = get_seal_status(Ok(SealStatus::Sealed(Box::new(sealed_meta(5)))));
    assert_eq!(r.status_code, FCPResponseStatus::FCPNoError);
    assert_eq!(r.error_msg, None);
    assert_eq!(r.seal_status_code, FFISealStatus::Sealed);
    assert_eq!(r.seal_error_msg, None);
    assert_eq!(r.comm_d, meta.comm_d);
    assert_eq!(r.comm_r, meta.comm_r);
    assert_eq!(r.comm_r_star, meta.comm_r_star);
    assert_eq!(r.snark_proof, meta.snark_proof);
    assert_eq!(r.sector_id, 5);
    assert_eq!(r.sector_access, Some("/sealed/5".to_string()));
    assert_eq!(r.pieces.len(), 2);
    assert_eq!(r.pieces[0].piece_key, "a");
    assert_eq!(r.pieces[0].num_bytes, 10);
    assert_eq!(r.pieces[1].piece_key, "b");
    assert_eq!(r.pieces[1].num_bytes, 20);
}

#[test]
fn seal_status_of_sealing_and_pending() {
    for (status, code) in [(SealStatus::Sealing, FFISealStatus::Sealing), (SealStatus::Pending, FFISealStatus::Pending)] {
        let r = get_seal_status(Ok(status));
        assert_eq!(r.status_code, FCPResponseStatus::FCPNoError);
        assert_eq!(r.seal_status_code, code);
        assert_eq!(r.seal_error_msg, None);
        assert_eq!(r.sector_access, None);
        assert_eq!(r.sector_id, 0);
        assert_eq!(r.comm_d, [0u8; 32]);
        assert!(r.pieces.is_empty());
    }
}

#[test]
fn seal_status_of_failed_sector() {
    let r = get_seal_status(Ok(SealStatus::Failed("disk full".to_string())));
    assert_eq!(r.status_code, FCPResponseStatus::FCPNoError);
    assert_eq!(r.seal_status_code, FFISealStatus::Failed);
    assert_eq!(r.seal_error_msg, Some("disk full".to_string()));
    assert_eq!(r.sector_access, None);
}

#[test]
fn seal_status_of_unknown_sector_is_error() {
    let r = get_seal_status(Err(err(ErrorClass::Caller, "unknown sector 99")));
    assert_eq!(r.status_code, FCPResponseStatus::FCPCallerError);
    assert_eq!(r.error_msg, Some("unknown sector 99".to_string()));
    assert_eq!(r.seal_status_code, FFISealStatus::Failed);
    assert_eq!(r.seal_error_msg, None);
    assert_eq!(r.snark_proof, [0u8; API_POREP_PROOF_BYTES]);
}

#[test]
fn sealed_sectors_in_order() {
    let r = get_sealed_sectors(Ok(vec![sealed_meta(1), sealed_meta(2)]));
    assert_eq!(r.status_code, FCPResponseStatus::FCPNoError);
    assert_eq!(r.error_msg, None);
    assert_eq!(r.sectors.len(), 2);
    assert_eq!(r.sectors[0].sector_id, 1);
    assert_eq!(r.sectors[0].sector_access, "/sealed/1");
    assert_eq!(r.sectors[1].sector_id, 2);
    assert_eq!(r.sectors[1].comm_r, [2u8; 32]);
    assert_eq!(r.sectors[1].pieces[1].piece_key, "b");
}

#[test]
fn sealed_sectors_error() {
    let r = get_sealed_sectors(Err(err(ErrorClass::Receiver, "metadata lost")));
    assert_eq!(r.status_code, FCPResponseStatus::FCPReceiverError);
    assert_eq!(r.error_msg, Some("metadata lost".to_string()));
    assert!(r.sectors.is_empty());
}

#[test]
fn sealed_sector_reported_alike_by_both_queries() {
    let status = get_seal_status(Ok(SealStatus::Sealed(Box::new(sealed_meta(4)))));
    let listed = get_sealed_sectors(Ok(vec![sealed_meta(4)]));
    let s = &listed.sectors[0];
    assert_eq!(status.comm_d, s.comm_d);
    assert_eq!(status.comm_r, s.comm_r);
    assert_eq!(status.comm_r_star, s.comm_r_star);
    assert_eq!(status.snark_proof, s.snark_proof);
    assert_eq!(status.sector_id, s.sector_id);
    assert_eq!(status.sector_access, Some(s.sector_access.clone()));
    assert_eq!(status.pieces, s.pieces);
}

fn staged(sector_id: u64, seal_status: SealStatus) -> StagedSectorMetadata {
    StagedSectorMetadata {
        sector_id,
        sector_access: format!("/staged/{}", sector_id),
        pieces: vec![piece("k", 3)],
        seal_status,
    }
}

#[test]
fn staged_sectors_with_each_state() {
    let r = get_staged_sectors(Ok(vec![
        staged(1, SealStatus::Pending),
        staged(2, SealStatus::Sealing),
        staged(3, SealStatus::Failed("oops".to_string())),
        staged(4, SealStatus::Sealed(Box::new(sealed_meta(4)))),
    ]));
    assert_eq!(r.status_code, FCPResponseStatus::FCPNoError);
    assert_eq!(r.error_msg, None);
    assert_eq!(r.sectors.len(), 4);
    let codes: Vec<FFISealStatus> = r.sectors.iter().map(|s| s.seal_status_code).collect();
    assert_eq!(codes, vec![FFISealStatus::Pending, FFISealStatus::Sealing, FFISealStatus::Failed, FFISealStatus::Sealed]);
    assert_eq!(r.sectors[0].seal_error_msg, None);
    assert_eq!(r.sectors[1].seal_error_msg, None);
    assert_eq!(r.sectors[2].seal_error_msg, Some("oops".to_string()));
    assert_eq!(r.sectors[3].seal_error_msg, None);
    assert_eq!(r.sectors[2].sector_id, 3);
    assert_eq!(r.sectors[2].sector_access, "/staged/3");
    assert_eq!(r.sectors[2].pieces[0].piece_key, "k");
    assert_eq!(r.sectors[2].pieces[0].num_bytes, 3);
}

#[test]
fn staged_sectors_error() {
    let r = get_staged_sectors(Err(err(ErrorClass::Unclassified, "lock poisoned")));
    assert_eq!(r.status_code, FCPResponseStatus::FCPUnclassifiedError);
    assert_eq!(r.error_msg, Some("lock poisoned".to_string()));
    assert!(r.sectors.is_empty());
}

#[test]
fn seal_state_reported_alike_by_both_queries() {
    let failed = get_seal_status(Ok(SealStatus::Failed("x".to_string())));
    let staged_failed = ffi_staged_sector(&staged(8, SealStatus::Failed("x".to_string())));
    assert_eq!(failed.seal_status_code, staged_failed.seal_status_code);
    assert_eq!(failed.seal_error_msg, staged_failed.seal_error_msg);
    let sealing = get_seal_status(Ok(SealStatus::Sealing));
    assert_eq!(sealing.seal_status_code, ffi_staged_sector(&staged(8, SealStatus::Sealing)).seal_status_code);
}

#[test]
fn helpers_report_pieces_and_codes() {
    let pieces = vec![piece("p", 1), piece("q", 2)];
    let ffi = ffi_pieces(&pieces);
    assert_eq!(ffi.len(), 2);
    assert_eq!(ffi[1].piece_key, "q");
    assert_eq!(ffi[1].num_bytes, 2);
    assert_eq!(ffi_seal_status(&SealStatus::Pending), FFISealStatus::Pending);
    assert_eq!(ffi_seal_status(&SealStatus::Failed(String::new())), FFISealStatus::Failed);
    let sector = ffi_sealed_sector(&sealed_meta(6));
    assert_eq!(sector.sector_id, 6);
    assert_eq!(sector.comm_d, [1u8; 32]);
}
