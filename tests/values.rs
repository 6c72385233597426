use linera_chain::{
    Certificate, Committee, LiteVote, SignatureAggregator,
    make_first_block, truncate_query_output, Amount, ApplicationWrapper, BlockExecutionOutcome,
    CertificateKind, ChainId, ClientWrapper, ConfirmedBlock, CryptoHash, Encode, Event,
    LiteValue, OnClientDrop, Operation, OperationResult, OutgoingMessage, Round, ValidatedBlock,
    ValidatorSecretKey, ValidatorSignature,
};

fn hex(bytes: &[u8]) -> String {
    bytes.iter().map(|b| format!("{:02x}", b)).collect()
}

fn unhex(s: &str) -> Vec<u8> {
    (0..s.len() / 2)
        .map(|i| u8::from_str_radix(&s[2 * i..2 * i + 2], 16).unwrap())
        .collect()
}

#[test]
fn keccak_of_empty_input() {
    let h = CryptoHash::of_bytes(&Vec::new());
    assert_eq!(
        hex(&h.bytes),
        "c5d2460186f7233c927e7db2dcc703c0e500b653ca82273b7bfad8045d85a470"
    );
}

#[test]
fn ed25519_known_answer() {
    let seed: [u8; 32] = unhex("9d61b19deffd5a60ba844af492ec2cc44449c5697b326919703bac031cae7f60")
        .try_into()
        .unwrap();
    let secret = ValidatorSecretKey::from_seed(seed);
    let public = secret.public();
    assert_eq!(
        hex(&public.bytes),
        "d75a980182b10ab7d54bfed3c964073a0ee172f3daa62325af021a68f707511a"
    );
    let signature = ValidatorSignature::sign(&secret, &Vec::new());
    assert_eq!(
        hex(&signature.bytes),
        "e5564300c360ac729086e2cc806e828a84877f1eb8e5d974d873e065224901555fb8821590a33bacc61e39701cf9b46bd25bf5f0595bbe24655141438e7a100b"
    );
    assert!(signature.check(&public, &Vec::new()));
    assert!(!signature.check(&public, &vec![0u8]));
    let mut bad = signature;
    bad.bytes[0] ^= 1;
    assert!(!bad.check(&public, &Vec::new()));
}

#[test]
fn integers_encode_little_endian() {
    let mut out = Vec::new();
    0x0102_0304u32.encode_into(&mut out);
    assert_eq!(out, vec![4, 3, 2, 1]);
    let mut out = Vec::new();
    258u64.encode_into(&mut out);
    assert_eq!(out, vec![2, 1, 0, 0, 0, 0, 0, 0]);
    let mut out = Vec::new();
    vec![7u8, 9u8].encode_into(&mut out);
    assert_eq!(out, vec![2, 0, 0, 0, 0, 0, 0, 0, 7, 9]);
    let mut out = Vec::new();
    Some(5u8).encode_into(&mut out);
    None::<u8>.encode_into(&mut out);
    assert_eq!(out, vec![1, 5, 0]);
}

#[test]
fn rounds_encode_with_a_tag() {
    let mut out = Vec::new();
    Round::Fast.encode_into(&mut out);
    Round::MultiLeader(1).encode_into(&mut out);
    Round::Validator(256).encode_into(&mut out);
    assert_eq!(out, vec![0, 1, 1, 0, 0, 0, 3, 0, 1, 0, 0]);
}

#[test]
fn rounds_are_ordered_by_phase_then_index() {
    assert!(Round::Fast < Round::MultiLeader(0));
    assert!(Round::MultiLeader(0) < Round::MultiLeader(1));
    assert!(Round::MultiLeader(9) < Round::SingleLeader(0));
    assert!(Round::SingleLeader(5) < Round::Validator(0));
    assert!(Round::Validator(1) > Round::Validator(0));
    assert_eq!(
        Round::SingleLeader(2).partial_cmp(&Round::SingleLeader(2)),
        Some(std::cmp::Ordering::Equal)
    );
    assert_eq!(Round::Fast.cmp(&Round::Validator(0)), std::cmp::Ordering::Less);
}

#[test]
fn root_chain_ids_differ() {
    assert_ne!(ChainId::root(1), ChainId::root(2));
    assert_eq!(ChainId::root(1), ChainId::root(1));
}

#[test]
fn amounts_count_attos() {
    assert_eq!(Amount::from_tokens(1), Amount(1_000_000_000_000_000_000));
    assert_eq!(Amount::from_tokens(0), Amount(0));
}

#[test]
fn block_with_transfer_appends_operation() {
    let block = make_first_block(ChainId::root(1)).with_simple_transfer(ChainId::root(2), Amount::from_tokens(3));
    assert_eq!(block.height, 0);
    assert_eq!(block.previous_block_hash, None);
    assert_eq!(
        block.operations,
        vec![Operation::Transfer { recipient: ChainId::root(2), amount: Amount::from_tokens(3) }]
    );
}

#[test]
fn lite_values_separate_kinds_and_content() {
    let outcome = BlockExecutionOutcome {
        messages: vec![vec![OutgoingMessage { destination: ChainId::root(2), payload: vec![1, 2] }]],
        previous_message_blocks: vec![(ChainId::root(2), CryptoHash::test_hash("previous"))],
        state_hash: CryptoHash::test_hash("state"),
        oracle_responses: vec![vec![vec![3]]],
        events: vec![vec![Event { stream_id: vec![4], index: 0, value: vec![5] }]],
        blobs: vec![vec![vec![6, 7]]],
        operation_results: vec![OperationResult(vec![8])],
    };
    let block = outcome.clone().with(make_first_block(ChainId::root(1)));
    let confirmed = LiteValue::new(&ConfirmedBlock::new(block.clone()));
    let validated = LiteValue::new(&ValidatedBlock::new(block.clone()));
    assert_eq!(confirmed.kind, CertificateKind::Confirmed);
    assert_eq!(validated.kind, CertificateKind::Validated);
    assert_ne!(confirmed, validated);
    assert_ne!(confirmed.value_hash, validated.value_hash);
    assert_eq!(confirmed, LiteValue::new(&ConfirmedBlock::new(block.clone())));

    let mut other = outcome;
    other.state_hash = CryptoHash::test_hash("other state");
    let changed = LiteValue::new(&ConfirmedBlock::new(other.with(make_first_block(ChainId::root(1)))));
    assert_ne!(confirmed.value_hash, changed.value_hash);

    let mut bytes = vec![2u8];
    block.encode_into(&mut bytes);
    assert_eq!(confirmed.value_hash, CryptoHash::of_bytes(&bytes));

    let payload = confirmed.signing_payload(Round::MultiLeader(2));
    assert_eq!(payload.len(), 38);
    assert_eq!(&payload[..32], &confirmed.value_hash.bytes[..]);
    assert_eq!(&payload[32..], &[2, 1, 2, 0, 0, 0]);
}

#[test]
fn client_paths_and_arguments() {
    let client = ClientWrapper::new("/tmp/net".to_string(), Some(37), 12, OnClientDrop::LeakChains);
    assert_eq!(client.storage_path(), "rocksdb:/tmp/net/client_12.db");
    assert_eq!(client.wallet_path(), "/tmp/net/wallet_12.json");
    assert_eq!(client.on_drop(), OnClientDrop::LeakChains);
    assert_eq!(
        client.command_arguments(),
        vec![
            "--wallet",
            "wallet_12.json",
            "--storage",
            "rocksdb:/tmp/net/client_12.db",
            "--max-pending-message-bundles",
            "10000",
            "--send-timeout-ms",
            "500000",
            "--recv-timeout-ms",
            "500000",
            "--wait-for-outgoing-messages",
        ]
    );
    let zero = ClientWrapper::new("d".to_string(), None, 0, OnClientDrop::CloseChains);
    assert_eq!(zero.storage_path(), "rocksdb:d/client_0.db");
}

#[test]
fn cached_binary_path_is_set_once() {
    let mut client = ClientWrapper::new("p".to_string(), None, 1, OnClientDrop::CloseChains);
    assert_eq!(client.cached_binary_path(), None);
    client.set_cached_binary_path("/bin/linera".to_string());
    assert_eq!(client.cached_binary_path(), Some("/bin/linera".to_string()));
    client.set_cached_binary_path("/bin/linera".to_string());
    assert_eq!(client.cached_binary_path(), Some("/bin/linera".to_string()));
}

#[test]
fn query_output_is_truncated_after_two_hundred_bytes() {
    assert_eq!(truncate_query_output("short"), "short");
    let exact = "a".repeat(199);
    assert_eq!(truncate_query_output(&exact), exact);
    let long = "b".repeat(200);
    assert_eq!(truncate_query_output(&long), format!("{} ...", long));
    let longer = "c".repeat(250);
    assert_eq!(truncate_query_output(&longer), format!("{} ...", "c".repeat(200)));
}

#[test]
fn application_wrapper_keeps_uri() {
    let app: ApplicationWrapper<()> = ApplicationWrapper::from("http://localhost:8080/app".to_string());
    assert_eq!(app.uri(), "http://localhost:8080/app");
}

#[test]
fn votes_and_certificates_encode_all_their_parts() {
    let secret = ValidatorSecretKey::from_seed([9; 32]);
    let value = ConfirmedBlock::new(
        BlockExecutionOutcome {
            messages: Vec::new(),
            previous_message_blocks: Vec::new(),
            state_hash: CryptoHash::test_hash("state"),
            oracle_responses: Vec::new(),
            events: Vec::new(),
            blobs: Vec::new(),
            operation_results: Vec::new(),
        }
        .with(make_first_block(ChainId::root(1))),
    );
    let lite = LiteValue::new(&value);
    let vote = LiteVote::new(lite, Round::SingleLeader(1), &secret);

    let mut out = Vec::new();
    lite.encode_into(&mut out);
    assert_eq!(out.len(), 33);
    assert_eq!(out[32], 2);

    let mut out = Vec::new();
    vote.encode_into(&mut out);
    assert_eq!(out.len(), 33 + 5 + 32 + 64);
    assert_eq!(&out[38..70], &vote.public_key.bytes[..]);
    assert_eq!(&out[70..], &vote.signature.bytes[..]);

    let committee = Committee::make_simple(vec![secret.public()]).unwrap();
    let mut builder = SignatureAggregator::new(value.clone(), Round::SingleLeader(1), &committee);
    let certificate: Certificate<ConfirmedBlock> =
        builder.append(vote.public_key, vote.signature).unwrap().unwrap();
    let mut value_bytes = Vec::new();
    value.encode_into(&mut value_bytes);
    let mut out = Vec::new();
    certificate.encode_into(&mut out);
    assert_eq!(out.len(), value_bytes.len() + 5 + 8 + 96);
    assert_eq!(&out[..value_bytes.len()], &value_bytes[..]);
    let copy = certificate.copied();
    let mut again = Vec::new();
    copy.encode_into(&mut again);
    assert_eq!(out, again);
    assert_eq!(copy.check(&committee), Ok(()));
}
