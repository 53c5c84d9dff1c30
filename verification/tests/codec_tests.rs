use grass_claim::codec::{
    extract_version_and_proof, prepare_proof, GrassApiResponse, Receipt, ReceiptData, ReceiptError,
};

fn full_receipt() -> GrassApiResponse<Receipt> {
    GrassApiResponse {
        result: Some(Receipt {
            data: Some(ReceiptData {
                version_number: Some(2),
                claim_proof: Some(String::from("[]")),
                allocation: Some(5_000_000_000),
            }),
        }),
    }
}

#[test]
fn proof_codec_keeps_only_32_byte_buffer_entries() {
    let bytes: Vec<u8> = (1..=32).collect();
    let json = format!(
        "[{{\"data\":{{\"type\":\"Buffer\",\"data\":{:?}}}}},{{\"data\":{{\"type\":\"Other\",\"data\":[1,2,3,4]}}}},{{\"data\":{{\"type\":\"Buffer\",\"data\":[1,2,3]}}}}]",
        bytes
    );
    let nodes = prepare_proof(&json);
    assert_eq!(nodes.len(), 1);
    assert_eq!(nodes[0], bytes);
}

#[test]
fn proof_codec_returns_empty_on_unparsable_input() {
    assert_eq!(prepare_proof("not json at all").len(), 0);
    assert_eq!(prepare_proof("").len(), 0);
    assert_eq!(prepare_proof("{\"data\":1}").len(), 0);
}

#[test]
fn proof_codec_fails_whole_parse_on_one_malformed_entry() {
    // The second entry has no "data" object, so the whole input is rejected
    // and the proof is empty.
    let json = "[{\"data\":{\"type\":\"Buffer\",\"data\":[1]}},{\"position\":\"left\"}]";
    assert_eq!(prepare_proof(json).len(), 0);
}

#[test]
fn proof_codec_preserves_node_order() {
    let a: Vec<u8> = vec![1; 32];
    let b: Vec<u8> = vec![2; 32];
    let json = format!(
        "[{{\"data\":{{\"type\":\"Buffer\",\"data\":{:?}}}}},{{\"data\":{{\"type\":\"Buffer\",\"data\":{:?}}}}}]",
        a, b
    );
    let nodes = prepare_proof(&json);
    assert_eq!(nodes.len(), 2);
    assert_eq!(nodes[0], a);
    assert_eq!(nodes[1], b);
}

#[test]
fn proof_codec_accepts_entries_with_position_tags() {
    let a: Vec<u8> = vec![7; 32];
    let json = format!(
        "[{{\"position\":\"left\",\"data\":{{\"type\":\"Buffer\",\"data\":{:?}}}}}]",
        a
    );
    let nodes = prepare_proof(&json);
    assert_eq!(nodes.len(), 1);
    assert_eq!(nodes[0], a);
}

#[test]
fn extract_reports_each_missing_field() {
    let r = extract_version_and_proof(&GrassApiResponse { result: None });
    assert_eq!(r.unwrap_err(), ReceiptError::MissingResult);

    let r = extract_version_and_proof(&GrassApiResponse { result: Some(Receipt { data: None }) });
    assert_eq!(r.unwrap_err(), ReceiptError::MissingData);

    let mut receipt = full_receipt();
    receipt.result.as_mut().unwrap().data.as_mut().unwrap().version_number = None;
    assert_eq!(extract_version_and_proof(&receipt).unwrap_err(), ReceiptError::MissingVersionNumber);

    let mut receipt = full_receipt();
    receipt.result.as_mut().unwrap().data.as_mut().unwrap().claim_proof = None;
    assert_eq!(extract_version_and_proof(&receipt).unwrap_err(), ReceiptError::MissingClaimProof);

    let mut receipt = full_receipt();
    receipt.result.as_mut().unwrap().data.as_mut().unwrap().allocation = None;
    assert_eq!(extract_version_and_proof(&receipt).unwrap_err(), ReceiptError::MissingAllocation);
}

#[test]
fn extract_returns_the_receipt_fields() {
    let (version, nodes, allocation) = extract_version_and_proof(&full_receipt()).unwrap();
    assert_eq!(version, 2);
    assert_eq!(nodes.len(), 0);
    assert_eq!(allocation, 5_000_000_000);
}

#[test]
fn receipt_error_messages_name_the_missing_field() {
    assert_eq!(ReceiptError::MissingResult.message(), "Receipt result is missing");
    assert_eq!(
        ReceiptError::MissingVersionNumber.message(),
        "Version number is missing in the receipt data"
    );
}
