use linera_chain::{
    make_first_block, Amount, BlockExecutionOutcome, ChainError, ChainId, Committee,
    ConfirmedBlock, CryptoHash, ExecutedBlock, LiteValue, LiteVote, OperationResult, Round,
    SignatureAggregator, ValidatedBlock, ValidatorPublicKey, ValidatorSecretKey,
};

struct ValidatorKeypair {
    secret_key: ValidatorSecretKey,
    public_key: ValidatorPublicKey,
}

impl ValidatorKeypair {
    fn generate() -> ValidatorKeypair {
        let secret_key = ValidatorSecretKey::from_seed(rand::random::<[u8; 32]>());
        let public_key = secret_key.public();
        ValidatorKeypair { secret_key, public_key }
    }
}

fn executed_block(recipient: ChainId) -> ExecutedBlock {
    BlockExecutionOutcome {
        messages: vec![Vec::new()],
        previous_message_blocks: Vec::new(),
        state_hash: CryptoHash::test_hash("state"),
        oracle_responses: vec![Vec::new()],
        events: vec![Vec::new()],
        blobs: vec![Vec::new()],
        operation_results: vec![OperationResult::default()],
    }
    .with(make_first_block(ChainId::root(1)).with_simple_transfer(recipient, Amount::from_tokens(1)))
}

#[test]
fn test_signed_values() {
    let validator1_key_pair = ValidatorKeypair::generate();
    let validator2_key_pair = ValidatorKeypair::generate();

    let block = executed_block(ChainId::root(2));
    let confirmed_value = ConfirmedBlock::new(block.clone());

    let confirmed_vote = LiteVote::new(
        LiteValue::new(&confirmed_value),
        Round::Fast,
        &validator1_key_pair.secret_key,
    );
    assert!(confirmed_vote.check().is_ok());

    let validated_value = ValidatedBlock::new(block);
    let validated_vote = LiteVote::new(
        LiteValue::new(&validated_value),
        Round::Fast,
        &validator1_key_pair.secret_key,
    );
    assert_ne!(
        confirmed_vote.value, validated_vote.value,
        "Confirmed and validated votes should be different, even if for the same block"
    );

    let mut v = LiteVote::new(
        LiteValue::new(&confirmed_value),
        Round::Fast,
        &validator2_key_pair.secret_key,
    );
    v.public_key = validator1_key_pair.public_key;
    assert!(v.check().is_err());

    assert!(validated_vote.check().is_ok());
    assert!(confirmed_vote.check().is_ok());

    let mut v = validated_vote.clone();
    // Use signature from ConfirmedBlock to sign a ValidatedBlock.
    v.signature = confirmed_vote.signature;
    assert!(
        v.check().is_err(),
        "Confirmed and validated votes must not be interchangeable"
    );

    let mut v = confirmed_vote.clone();
    v.signature = validated_vote.signature;
    assert!(
        v.check().is_err(),
        "Confirmed and validated votes must not be interchangeable"
    );
}

#[test]
fn test_certificates() {
    let validator1_key_pair = ValidatorKeypair::generate();
    let validator2_key_pair = ValidatorKeypair::generate();
    let validator3_key_pair = ValidatorKeypair::generate();

    let committee = Committee::make_simple(vec![
        validator1_key_pair.public_key,
        validator2_key_pair.public_key,
    ])
    .unwrap();

    let block = executed_block(ChainId::root(1));
    let value = ConfirmedBlock::new(block);

    let v1 = LiteVote::new(
        LiteValue::new(&value),
        Round::Fast,
        &validator1_key_pair.secret_key,
    );
    let v2 = LiteVote::new(
        LiteValue::new(&value),
        Round::Fast,
        &validator2_key_pair.secret_key,
    );
    let v3 = LiteVote::new(
        LiteValue::new(&value),
        Round::Fast,
        &validator3_key_pair.secret_key,
    );

    let mut builder = SignatureAggregator::new(value.clone(), Round::Fast, &committee);
    assert!(builder
        .append(v1.public_key, v1.signature)
        .unwrap()
        .is_none());
    let mut c = builder
        .append(v2.public_key, v2.signature)
        .unwrap()
        .unwrap();
    assert!(c.check(&committee).is_ok());
    c.signatures_mut().pop();
    assert!(c.check(&committee).is_err());

    let mut builder = SignatureAggregator::new(value, Round::Fast, &committee);
    assert!(builder
        .append(v1.public_key, v1.signature)
        .unwrap()
        .is_none());
    assert!(builder.append(v3.public_key, v3.signature).is_err());
}

#[test]
fn unknown_signer_leaves_aggregator_unchanged() {
    let a = ValidatorKeypair::generate();
    let b = ValidatorKeypair::generate();
    let outsider = ValidatorKeypair::generate();
    let committee = Committee::make_simple(vec![a.public_key, b.public_key]).unwrap();
    let value = ConfirmedBlock::new(executed_block(ChainId::root(2)));
    let lite = LiteValue::new(&value);
    let va = LiteVote::new(lite, Round::Fast, &a.secret_key);
    let vb = LiteVote::new(lite, Round::Fast, &b.secret_key);
    let vo = LiteVote::new(lite, Round::Fast, &outsider.secret_key);

    let mut builder = SignatureAggregator::new(value, Round::Fast, &committee);
    assert!(builder.append(va.public_key, va.signature).unwrap().is_none());
    assert_eq!(
        builder.append(vo.public_key, vo.signature).err(),
        Some(ChainError::UnknownSigner)
    );
    let certificate = builder.append(vb.public_key, vb.signature).unwrap().unwrap();
    assert_eq!(certificate.signatures().len(), 2);
    assert_eq!(certificate.check(&committee), Ok(()));
}

#[test]
fn removing_a_signature_breaks_quorum() {
    let a = ValidatorKeypair::generate();
    let b = ValidatorKeypair::generate();
    let committee = Committee::make_simple(vec![a.public_key, b.public_key]).unwrap();
    let value = ConfirmedBlock::new(executed_block(ChainId::root(2)));
    let lite = LiteValue::new(&value);
    let va = LiteVote::new(lite, Round::Fast, &a.secret_key);
    let vb = LiteVote::new(lite, Round::Fast, &b.secret_key);
    let mut builder = SignatureAggregator::new(value, Round::Fast, &committee);
    builder.append(va.public_key, va.signature).unwrap();
    let mut certificate = builder.append(vb.public_key, vb.signature).unwrap().unwrap();
    assert_eq!(certificate.check(&committee), Ok(()));
    certificate.signatures_mut().pop();
    assert_eq!(
        certificate.check(&committee),
        Err(ChainError::InsufficientQuorum)
    );
}

#[test]
fn confirmed_signature_is_refused_by_validated_aggregator() {
    let a = ValidatorKeypair::generate();
    let b = ValidatorKeypair::generate();
    let committee = Committee::make_simple(vec![a.public_key, b.public_key]).unwrap();
    let block = executed_block(ChainId::root(2));
    let confirmed = ConfirmedBlock::new(block.clone());
    let validated = ValidatedBlock::new(block);
    let vote = LiteVote::new(LiteValue::new(&confirmed), Round::Fast, &a.secret_key);
    let mut builder = SignatureAggregator::new(validated, Round::Fast, &committee);
    assert_eq!(
        builder.append(vote.public_key, vote.signature).err(),
        Some(ChainError::InvalidSignature)
    );
}

#[test]
fn end_to_end_two_of_two() {
    let a = ValidatorKeypair::generate();
    let b = ValidatorKeypair::generate();
    let committee = Committee::make_simple(vec![a.public_key, b.public_key]).unwrap();
    assert_eq!(committee.total_votes(), 2);
    assert_eq!(committee.quorum_threshold(), 2);
    let value = ConfirmedBlock::new(executed_block(ChainId::root(2)));
    let lite = LiteValue::new(&value);
    let va = LiteVote::new(lite, Round::Fast, &a.secret_key);
    let vb = LiteVote::new(lite, Round::Fast, &b.secret_key);
    let mut builder = SignatureAggregator::new(value.clone(), Round::Fast, &committee);
    assert!(builder.append(va.public_key, va.signature).unwrap().is_none());
    let certificate = builder.append(vb.public_key, vb.signature).unwrap().unwrap();
    assert_eq!(certificate.signatures().len(), 2);
    assert_eq!(certificate.signatures()[0].0, a.public_key);
    assert_eq!(certificate.signatures()[1].0, b.public_key);
    assert_eq!(certificate.round(), Round::Fast);
    assert_eq!(certificate.value(), &value);
    assert_eq!(certificate.check(&committee), Ok(()));
}

#[test]
fn duplicate_vote_is_refused() {
    let a = ValidatorKeypair::generate();
    let b = ValidatorKeypair::generate();
    let committee = Committee::make_simple(vec![a.public_key, b.public_key]).unwrap();
    let value = ConfirmedBlock::new(executed_block(ChainId::root(2)));
    let va = LiteVote::new(LiteValue::new(&value), Round::Fast, &a.secret_key);
    let mut builder = SignatureAggregator::new(value, Round::Fast, &committee);
    assert!(builder.append(va.public_key, va.signature).unwrap().is_none());
    assert_eq!(
        builder.append(va.public_key, va.signature).err(),
        Some(ChainError::DuplicateVote)
    );
}

#[test]
fn vote_in_another_round_is_refused() {
    let a = ValidatorKeypair::generate();
    let committee = Committee::make_simple(vec![a.public_key]).unwrap();
    let value = ConfirmedBlock::new(executed_block(ChainId::root(2)));
    let vote = LiteVote::new(LiteValue::new(&value), Round::MultiLeader(0), &a.secret_key);
    assert!(vote.check().is_ok());
    let mut builder = SignatureAggregator::new(value, Round::Fast, &committee);
    assert_eq!(
        builder.append(vote.public_key, vote.signature).err(),
        Some(ChainError::InvalidSignature)
    );
}

#[test]
fn tampered_vote_round_fails_check() {
    let a = ValidatorKeypair::generate();
    let value = ConfirmedBlock::new(executed_block(ChainId::root(2)));
    let mut vote = LiteVote::new(LiteValue::new(&value), Round::Fast, &a.secret_key);
    vote.round = Round::SingleLeader(3);
    assert_eq!(vote.check(), Err(ChainError::InvalidSignature));
}
