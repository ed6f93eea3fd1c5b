use ed25519_dalek::{Keypair, PublicKey, SecretKey, Signature, Verifier};
use kpi_attestation::attestation::{
    calculate_kpi_with_attestation, calculate_kpi_with_attestation_at, quantize_kpi,
    AttestationError, TEEAttestation,
};
use kpi_attestation::document::{Asset, CreditEntry, Document, DocumentType};
use kpi_attestation::kpi::calculate_kpi;
use rand::rngs::OsRng;
use sha2::Digest;

/// One currency unit in micro-units.
const MICRO: i64 = 1_000_000;

fn random_keypair() -> Keypair {
    let mut csprng = OsRng {};
    Keypair::generate(&mut csprng)
}

fn fixed_keypair() -> Keypair {
    let secret = SecretKey::from_bytes(&[7u8; 32]).unwrap();
    let public = PublicKey::from(&secret);
    Keypair { secret, public }
}

fn journal_document(amount_micro: i64) -> Document {
    let mut d = Document::empty();
    d.has_journal_entry_id = true;
    d.credits = Some(vec![CreditEntry {
        account: "Sales Revenue".to_string(),
        amount: Some(amount_micro),
    }]);
    d
}

fn payroll_document(gross_pay_micro: i64) -> Document {
    let mut d = Document::empty();
    d.has_employee_details = true;
    d.gross_pay = Some(gross_pay_micro);
    d
}

#[test]
fn test_calculate_kpi_with_attestation() {
    // Generate a test TEE keypair
    let tee_keypair = random_keypair();

    // Sample financial documents
    let documents_json = r#"[
            {
                "journalEntryId": "JE-2025-001",
                "credits": [
                    {"account": "Sales Revenue", "amount": 50000.0}
                ]
            },
            {
                "employeeDetails": {},
                "grossPay": 20000.0
            }
        ]"#;
    let documents = vec![journal_document(50_000 * MICRO), payroll_document(20_000 * MICRO)];
    let raw = documents_json.as_bytes().to_vec();

    // Calculate KPI with attestation
    let result = calculate_kpi_with_attestation(&documents, &raw, &tee_keypair).unwrap();

    // Verify KPI calculation
    // Sales Revenue: +50000, Payroll: -20000 => Total: 30000
    assert_eq!(result.kpi_result.kpi, 30_000i128 * MICRO as i128);

    // Verify attestation bytes length
    assert_eq!(result.attestation_bytes.len(), 144);

    // Verify attestation structure
    assert_eq!(result.attestation.kpi_value, 30000000); // 30000.0 * 1000

    println!("✅ KPI calculation with attestation successful");
    println!("KPI: {}", result.kpi_result.kpi);
    println!("Attestation bytes: {} bytes", result.attestation_bytes.len());
}

#[test]
fn test_attestation_serialization() {
    let tee_keypair = random_keypair();

    let documents_json =
        r#"[{"journalEntryId": "JE-001", "credits": [{"account": "Sales Revenue", "amount": 1000.0}]}]"#;
    let documents = vec![journal_document(1_000 * MICRO)];
    let raw = documents_json.as_bytes().to_vec();

    let result = calculate_kpi_with_attestation(&documents, &raw, &tee_keypair).unwrap();

    // Verify we can deserialize the bytes back
    let bytes = &result.attestation_bytes;

    // Extract kpi_value
    let kpi_value = u64::from_le_bytes([
        bytes[0], bytes[1], bytes[2], bytes[3], bytes[4], bytes[5], bytes[6], bytes[7],
    ]);

    assert_eq!(kpi_value, result.attestation.kpi_value);
    println!("✅ Attestation serialization test passed");
}

#[test]
fn test_classification_precedence() {
    // A document carrying both a journal id and employee details is a
    // journal entry: the first matching check wins.
    let mut d = journal_document(5 * MICRO);
    d.has_employee_details = true;
    let result = calculate_kpi(&d, 0);
    assert_eq!(result.file_type, DocumentType::JournalEntry);
    assert_eq!(result.file_type.name(), "JournalEntry".to_string());
    assert_eq!(result.change, 5 * MICRO as i128);
}

#[test]
fn test_journal_first_matching_credit() {
    let mut d = Document::empty();
    d.has_journal_entry_id = true;
    d.credits = Some(vec![
        CreditEntry { account: "Other".to_string(), amount: Some(999 * MICRO) },
        CreditEntry { account: "Sales Revenue".to_string(), amount: Some(50 * MICRO) },
        CreditEntry { account: "Sales Revenue".to_string(), amount: Some(70 * MICRO) },
    ]);
    let result = calculate_kpi(&d, 0);
    assert_eq!(result.change, 50 * MICRO as i128);

    // A matching credit without an amount contributes zero.
    let mut none_amount = Document::empty();
    none_amount.has_journal_entry_id = true;
    none_amount.credits =
        Some(vec![CreditEntry { account: "Sales Revenue".to_string(), amount: None }]);
    assert_eq!(calculate_kpi(&none_amount, 0).change, 0);
}

#[test]
fn test_fixed_assets_default_life() {
    // usefulLife_years omitted: life defaults to one year, so the monthly
    // depreciation of a 2400-unit asset is 2400 / 12 = 200 units.
    let mut d = Document::empty();
    d.asset_list = Some(vec![Asset {
        has_asset_id: true,
        original_cost: Some(2_400 * MICRO),
        residual_value: None,
        useful_life_years: None,
    }]);
    let result = calculate_kpi(&d, 0);
    assert_eq!(result.file_type, DocumentType::FixedAssetsRegister);
    assert_eq!(result.change, -200 * MICRO as i128);

    // A non-positive stated life falls back to the same default.
    let mut zero_life = Document::empty();
    zero_life.asset_list = Some(vec![Asset {
        has_asset_id: true,
        original_cost: Some(2_400 * MICRO),
        residual_value: Some(0),
        useful_life_years: Some(0),
    }]);
    assert_eq!(calculate_kpi(&zero_life, 0).change, -200 * MICRO as i128);
}

#[test]
fn test_fixed_assets_multiple() {
    // Two assets over two years: (4800 - 0) / 24 + (2400 - 1200) / 24
    // = 200 + 50 units a month.
    let mut d = Document::empty();
    d.asset_list = Some(vec![
        Asset {
            has_asset_id: true,
            original_cost: Some(4_800 * MICRO),
            residual_value: None,
            useful_life_years: Some(2 * MICRO),
        },
        Asset {
            has_asset_id: false,
            original_cost: Some(2_400 * MICRO),
            residual_value: Some(1_200 * MICRO),
            useful_life_years: Some(2 * MICRO),
        },
    ]);
    let result = calculate_kpi(&d, 0);
    assert_eq!(result.change, -250 * MICRO as i128);
}

#[test]
fn test_payroll_and_overhead() {
    let result = calculate_kpi(&payroll_document(20_000 * MICRO), 1_000);
    assert_eq!(result.file_type, DocumentType::PayrollExpense);
    assert_eq!(result.change, -20_000 * MICRO as i128);
    assert_eq!(result.kpi, -20_000 * MICRO as i128 + 1_000);

    let mut overhead = Document::empty();
    overhead.report_title = Some("Corporate Overhead Report".to_string());
    overhead.total_overhead_cost = Some(1_000 * MICRO);
    let result = calculate_kpi(&overhead, 0);
    assert_eq!(result.file_type, DocumentType::OverheadReport);
    assert_eq!(result.change, -100 * MICRO as i128);

    // Any other title does not classify as an overhead report.
    let mut wrong_title = Document::empty();
    wrong_title.report_title = Some("Quarterly Overhead Report".to_string());
    wrong_title.total_overhead_cost = Some(1_000 * MICRO);
    let result = calculate_kpi(&wrong_title, 0);
    assert_eq!(result.file_type, DocumentType::Unknown);
    assert_eq!(result.change, 0);
}

#[test]
fn test_unknown_contributes_zero() {
    let d = Document::empty();
    let result = calculate_kpi(&d, 42);
    assert_eq!(result.file_type, DocumentType::Unknown);
    assert_eq!(result.change, 0);
    assert_eq!(result.kpi, 42);
}

#[test]
fn test_quantization() {
    // 30000.0 units -> 30000000 milli-units.
    assert_eq!(quantize_kpi(30_000i128 * MICRO as i128), Some(30_000_000));
    // 1234.5675 units round half up at the third decimal -> 1234568.
    assert_eq!(quantize_kpi(1_234_567_500), Some(1_234_568));
    // Just below the half stays down.
    assert_eq!(quantize_kpi(1_234_567_499), Some(1_234_567));
    // A negative KPI does not fit the unsigned field.
    assert_eq!(quantize_kpi(-1_000_000), None);
    assert_eq!(quantize_kpi(0), Some(0));
}

#[test]
fn test_order_sensitivity() {
    let keypair = fixed_keypair();
    let raw = b"[]".to_vec();
    let forward = vec![journal_document(50_000 * MICRO), payroll_document(20_000 * MICRO)];
    let reversed = vec![payroll_document(20_000 * MICRO), journal_document(50_000 * MICRO)];

    let f = calculate_kpi_with_attestation_at(&forward, &raw, &keypair, 5).unwrap();
    let r = calculate_kpi_with_attestation_at(&reversed, &raw, &keypair, 5).unwrap();

    // The KPI is a pure sum: identical either way.
    assert_eq!(f.kpi_result.kpi, 30_000i128 * MICRO as i128);
    assert_eq!(r.kpi_result.kpi, 30_000i128 * MICRO as i128);
    // The reported type follows the last document processed.
    assert_eq!(f.kpi_result.file_type, DocumentType::PayrollExpense);
    assert_eq!(r.kpi_result.file_type, DocumentType::JournalEntry);
}

#[test]
fn test_attestation_round_trip_and_verification() {
    let keypair = fixed_keypair();
    let documents = vec![journal_document(123 * MICRO)];
    let raw = br#"[{"journalEntryId":"JE-9"}]"#.to_vec();
    let out = calculate_kpi_with_attestation_at(&documents, &raw, &keypair, 1_700_000_000_000)
        .unwrap();

    // Decoding the 144 bytes reproduces the five fields exactly.
    let decoded = TEEAttestation::from_bytes(&out.attestation_bytes).unwrap();
    assert_eq!(decoded.kpi_value, out.attestation.kpi_value);
    assert_eq!(decoded.computation_hash, out.attestation.computation_hash);
    assert_eq!(decoded.timestamp, out.attestation.timestamp);
    assert_eq!(decoded.tee_public_key, out.attestation.tee_public_key);
    assert_eq!(decoded.signature, out.attestation.signature);
    assert_eq!(decoded.timestamp, 1_700_000_000_000);

    // The library checks its own signature.
    assert!(decoded.verify_signature());

    // The decoded signature verifies against the decoded public key over
    // the message rebuilt from the decoded fields.
    let mut message = Vec::new();
    message.extend_from_slice(&decoded.kpi_value.to_le_bytes());
    message.extend_from_slice(&decoded.computation_hash);
    message.extend_from_slice(&decoded.timestamp.to_le_bytes());
    let public = PublicKey::from_bytes(&decoded.tee_public_key).unwrap();
    let signature = Signature::from_bytes(&decoded.signature).unwrap();
    assert!(public.verify(&message, &signature).is_ok());

    // A corrupted encoding no longer verifies.
    let mut tampered = decoded;
    tampered.kpi_value += 1;
    assert!(!tampered.verify_signature());

    // Only 144-byte strings decode.
    assert!(TEEAttestation::from_bytes(&vec![0u8; 143]).is_none());
}

#[test]
fn test_hash_commitment_matches_sha256() {
    let keypair = fixed_keypair();
    let documents = vec![journal_document(MICRO)];
    let raw = br#"[{"journalEntryId":"JE-1"}]  "#.to_vec();
    let out = calculate_kpi_with_attestation_at(&documents, &raw, &keypair, 3).unwrap();
    let expected = sha2::Sha256::digest(&raw).to_vec();
    assert_eq!(out.attestation.computation_hash, expected);

    // The commitment is byte-exact: trailing whitespace changes it.
    let raw2 = br#"[{"journalEntryId":"JE-1"}]"#.to_vec();
    let out2 = calculate_kpi_with_attestation_at(&documents, &raw2, &keypair, 3).unwrap();
    assert_ne!(out2.attestation.computation_hash, out.attestation.computation_hash);
}

#[test]
fn test_negative_kpi_is_rejected() {
    let keypair = fixed_keypair();
    let documents = vec![payroll_document(20_000 * MICRO)];
    let raw = b"[]".to_vec();
    let result = calculate_kpi_with_attestation_at(&documents, &raw, &keypair, 9);
    match result {
        Ok(_) => panic!("a payroll-only batch has a negative KPI and must be rejected"),
        Err(err) => assert_eq!(err, AttestationError::KpiValueOutOfRange),
    }
}

#[test]
fn test_mismatched_keypair_is_rejected() {
    // A keypair whose public half does not belong to its secret half
    // produces signatures that verify under neither key; the pipeline
    // refuses to emit such an attestation.
    let secret = SecretKey::from_bytes(&[7u8; 32]).unwrap();
    let unrelated = SecretKey::from_bytes(&[9u8; 32]).unwrap();
    let public = PublicKey::from(&unrelated);
    let keypair = Keypair { secret, public };
    let documents = vec![journal_document(MICRO)];
    let raw = b"[]".to_vec();
    let result = calculate_kpi_with_attestation_at(&documents, &raw, &keypair, 9);
    match result {
        Ok(_) => panic!("an attestation signed by a mismatched keypair must be rejected"),
        Err(err) => assert_eq!(err, AttestationError::SignatureRejected),
    }
}

#[test]
fn test_empty_batch() {
    let keypair = fixed_keypair();
    let documents: Vec<Document> = Vec::new();
    let raw = b"[]".to_vec();
    let out = calculate_kpi_with_attestation_at(&documents, &raw, &keypair, 1).unwrap();
    assert_eq!(out.kpi_result.kpi, 0);
    assert_eq!(out.kpi_result.file_type, DocumentType::Unknown);
    assert_eq!(out.attestation.kpi_value, 0);
    assert_eq!(out.attestation_bytes.len(), 144);
}
