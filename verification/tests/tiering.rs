use librevm::bytes::{append_bytes, copy_bytes, same_bytes};
use librevm::ext::{stored_count, CodeState, Dispatch, ExternalContext};
use librevm::interface::{new_vm, new_vm_with_compiler, resolve_spec_id, FALLBACK_SPEC_ID};
use librevm::label::{hex_digit, label_bytes, mangle_chars, mangle_hex};
use librevm::store::{
    decode_count, encode_count, iter_prefix, same_hash, CodeHash, KeyPrefix, QueryKey, COUNT_LEN,
    KEY_LEN,
};
use librevm::worker::{CompileOutcome, Compiler, HashState};

fn hash_of(seed: u8) -> CodeHash {
    let mut hash = [0u8; 32];
    for (i, byte) in hash.iter_mut().enumerate() {
        *byte = seed.wrapping_add(i as u8);
    }
    hash
}

/// The STOP opcode alone.
fn stop_contract() -> Vec<u8> {
    vec![0x00]
}

#[test]
fn test_no_compile_before_threshold_and_one_at_threshold() {
    let mut ctx = ExternalContext::new(Compiler::new(10, 2));
    let hash = hash_of(0xa1);
    let code = stop_contract();
    let mut stored: Option<Vec<u8>> = None;
    for k in 1..=9u64 {
        let write = ctx.update_bytecode_reference(hash, &code, stored.clone());
        assert!(write.key.match_prefix(KeyPrefix::Count));
        assert_eq!(write.key.to_b256(), hash);
        assert_eq!(decode_count(&write.value), Some(k));
        assert_eq!(ctx.compiler.queued_count(), 0);
        assert_eq!(ctx.compiler.state(&hash), HashState::Idle);
        assert!(matches!(ctx.get_function(hash, None), Dispatch::Interpret));
        stored = Some(write.value);
    }
    let write = ctx.update_bytecode_reference(hash, &code, stored.clone());
    assert_eq!(decode_count(&write.value), Some(10));
    assert_eq!(ctx.compiler.queued_count(), 1);
    assert_eq!(ctx.compiler.state(&hash), HashState::Queued);
    assert!(ctx.compiler.queued_request(1).is_none());
    assert_eq!(ctx.compiler.queued_request(0).unwrap().code_hash, hash);
    assert_eq!(ctx.compiler.queued_request(0).unwrap().bytecode, code);
    stored = Some(write.value);
    for k in 11..=15u64 {
        let write = ctx.update_bytecode_reference(hash, &code, stored.clone());
        assert_eq!(decode_count(&write.value), Some(k));
        assert_eq!(ctx.compiler.queued_count(), 1);
        stored = Some(write.value);
    }

    let job = ctx.compiler.start_next().unwrap();
    assert_eq!(job.code_hash, hash);
    let path = b"/tmp/aot/_a1a2a3/a.so".to_vec();
    let writes = Compiler::publication(&hash, path.clone());
    assert_eq!(writes.len(), 2);
    assert!(ctx.compiler.finish(&hash, CompileOutcome::Published));
    match ctx.get_function(hash, Some(writes[1].value.clone())) {
        Dispatch::Native { path: p, symbol } => {
            assert_eq!(p, path);
            assert_eq!(symbol, "_a1a2a3");
            assert_eq!(symbol.as_bytes(), &writes[0].value[..]);
        }
        Dispatch::Interpret => panic!("a published artifact is dispatched to"),
    }
}

#[test]
fn test_unknown_bytecode_is_counted_but_not_queued() {
    let mut ctx = ExternalContext::new(Compiler::new(1, 2));
    let hash = hash_of(3);
    let write = ctx.update_bytecode_reference(hash, &[], None);
    assert_eq!(decode_count(&write.value), Some(1));
    assert_eq!(ctx.compiler.queued_count(), 0);
}

#[test]
fn test_malformed_count_record_reads_as_zero() {
    assert_eq!(stored_count(&None), 0);
    assert_eq!(stored_count(&Some(vec![1, 2, 3])), 0);
    assert_eq!(stored_count(&Some(vec![0, 0, 0, 0, 0, 0, 1, 2])), 258);
    let mut ctx = ExternalContext::new(Compiler::new(1, 1));
    let write = ctx.update_bytecode_reference(hash_of(1), &[0x00], Some(vec![9; 4]));
    assert_eq!(write.value, vec![0, 0, 0, 0, 0, 0, 0, 1]);
    assert_eq!(ctx.compiler.queued_count(), 1);
}

#[test]
fn test_count_stays_at_the_largest_value() {
    let mut ctx = ExternalContext::new(Compiler::new(u64::MAX, 1));
    let write = ctx.update_bytecode_reference(hash_of(1), &[0x00], Some(vec![0xff; 8]));
    assert_eq!(write.value, vec![0xff; 8]);
    assert_eq!(ctx.compiler.queued_count(), 0);
    let write = ctx.update_bytecode_reference(
        hash_of(1),
        &[0x00],
        Some(vec![0xff, 0xff, 0xff, 0xff, 0xff, 0xff, 0xff, 0xfe]),
    );
    assert_eq!(write.value, vec![0xff; 8]);
    assert_eq!(ctx.compiler.queued_count(), 1);
}

#[test]
fn test_failed_compile_poisons_and_is_not_retried() {
    let mut ctx = ExternalContext::new(Compiler::new(2, 2));
    let hash = hash_of(0xef);
    let code = vec![0xef, 0x00, 0x01];
    let first = ctx.update_bytecode_reference(hash, &code, None);
    let second = ctx.update_bytecode_reference(hash, &code, Some(first.value));
    assert_eq!(ctx.compiler.queued_count(), 1);
    let job = ctx.compiler.start_next().unwrap();
    assert_eq!(job.bytecode, code);
    assert!(ctx.compiler.finish(&hash, CompileOutcome::Failed));
    assert_eq!(ctx.compiler.state(&hash), HashState::Poisoned);
    assert_eq!(ctx.compiler.failures(), 1);
    assert_eq!(ctx.compiler.in_flight_count(), 0);
    assert!(matches!(ctx.get_function(hash, None), Dispatch::Interpret));

    assert!(!ctx.compiler.push_queue(hash, code.clone()));
    let again = ctx.update_bytecode_reference(hash, &code, Some(encode_count(1).to_vec()));
    assert_eq!(again.value, second.value);
    assert_eq!(ctx.compiler.queued_count(), 0);
    assert!(ctx.compiler.start_next().is_none());
    assert_eq!(ctx.compiler.failures(), 1);
}

#[test]
fn test_at_most_max_concurrent_compilations_run() {
    let mut worker = Compiler::new(10, 2);
    let hashes = [hash_of(1), hash_of(2), hash_of(3), hash_of(4)];
    for hash in hashes.iter() {
        assert!(worker.push_queue(*hash, vec![0x60, 0x00]));
    }
    assert_eq!(worker.queued_count(), 4);
    let first = worker.start_next().unwrap();
    let second = worker.start_next().unwrap();
    assert_eq!(first.code_hash, hashes[0]);
    assert_eq!(second.code_hash, hashes[1]);
    assert!(worker.start_next().is_none());
    assert_eq!(worker.in_flight_count(), 2);
    assert_eq!(worker.queued_count(), 2);

    let mut published = 0;
    published += Compiler::publication(&hashes[1], b"/a/2.so".to_vec()).len() / 2;
    assert!(worker.finish(&hashes[1], CompileOutcome::Published));
    assert_eq!(worker.in_flight_count(), 1);
    let third = worker.start_next().unwrap();
    assert_eq!(third.code_hash, hashes[2]);
    assert!(worker.start_next().is_none());
    assert!(worker.in_flight_count() <= 2);
    published += Compiler::publication(&hashes[0], b"/a/1.so".to_vec()).len() / 2;
    assert!(worker.finish(&hashes[0], CompileOutcome::Published));
    let fourth = worker.start_next().unwrap();
    assert_eq!(fourth.code_hash, hashes[3]);
    assert!(worker.in_flight_count() <= 2);
    published += Compiler::publication(&hashes[2], b"/a/3.so".to_vec()).len() / 2;
    assert!(worker.finish(&hashes[2], CompileOutcome::Published));
    published += Compiler::publication(&hashes[3], b"/a/4.so".to_vec()).len() / 2;
    assert!(worker.finish(&hashes[3], CompileOutcome::Published));
    assert_eq!(published, 4);
    assert_eq!(worker.in_flight_count(), 0);
    assert_eq!(worker.queued_count(), 0);
    assert!(worker.start_next().is_none());
}

#[test]
fn test_publication_writes_label_before_path() {
    let mut worker = Compiler::new(1, 1);
    let hash = hash_of(0x10);
    assert!(worker.push_queue(hash, vec![0x00]));
    worker.start_next().unwrap();
    let writes = Compiler::publication(&hash, b"/x/a.so".to_vec());
    assert!(worker.finish(&hash, CompileOutcome::Published));
    assert_eq!(writes.len(), 2);
    assert!(writes[0].key.match_prefix(KeyPrefix::SymbolLabel));
    assert_eq!(writes[0].key.to_b256(), hash);
    assert_eq!(writes[0].value, b"_101112".to_vec());
    assert!(writes[1].key.match_prefix(KeyPrefix::ArtifactPath));
    assert_eq!(writes[1].key.to_b256(), hash);
    assert_eq!(writes[1].value, b"/x/a.so".to_vec());
    assert_eq!(worker.state(&hash), HashState::Idle);
}

#[test]
fn test_duplicate_and_empty_requests_are_dropped() {
    let mut worker = Compiler::new(1, 1);
    let hash = hash_of(7);
    assert!(!worker.push_queue(hash, vec![]));
    assert!(worker.push_queue(hash, vec![1]));
    assert!(!worker.push_queue(hash, vec![1]));
    assert_eq!(worker.queued_count(), 1);
    worker.start_next().unwrap();
    assert_eq!(worker.state(&hash), HashState::Running);
    assert!(!worker.push_queue(hash, vec![1]));
    assert_eq!(worker.queued_count(), 0);
}

#[test]
fn test_artifact_found_in_store_is_not_compiled_again() {
    let mut worker = Compiler::new(1, 1);
    let hash = hash_of(8);
    assert!(worker.push_queue(hash, vec![1]));
    worker.start_next().unwrap();
    assert!(worker.finish(&hash, CompileOutcome::AlreadyPublished));
    assert_eq!(worker.state(&hash), HashState::Idle);
    assert_eq!(worker.failures(), 0);
}

#[test]
fn test_finish_of_a_hash_that_does_not_run_changes_nothing() {
    let mut worker = Compiler::new(1, 1);
    let hash = hash_of(9);
    assert!(worker.push_queue(hash, vec![1]));
    assert!(!worker.finish(&hash, CompileOutcome::Failed));
    assert_eq!(worker.state(&hash), HashState::Queued);
    assert_eq!(worker.failures(), 0);
}

#[test]
fn test_zero_ceiling_admits_nothing() {
    let mut worker = Compiler::new(1, 0);
    assert!(worker.push_queue(hash_of(1), vec![1]));
    assert!(worker.start_next().is_none());
    assert_eq!(worker.queued_count(), 1);
}

#[test]
fn test_key_layout_and_round_trip() {
    let hash = hash_of(0x20);
    let key = QueryKey::with_prefix(hash, KeyPrefix::ArtifactPath);
    let bytes = key.to_bytes();
    assert_eq!(bytes.len(), KEY_LEN);
    assert_eq!(bytes[0], 2);
    assert_eq!(&bytes[1..], &hash[..]);
    let back = QueryKey::from_bytes(&bytes).unwrap();
    assert_eq!(back.prefix, KeyPrefix::ArtifactPath);
    assert_eq!(back.to_b256(), hash);

    let mut key = key;
    key.update_prefix(KeyPrefix::Bytecode);
    assert!(key.match_prefix(KeyPrefix::Bytecode));
    assert!(!key.match_prefix(KeyPrefix::ArtifactPath));
    assert_eq!(key.to_bytes()[0], 4);
    assert_eq!(key.to_b256(), hash);
}

#[test]
fn test_key_prefix_tags() {
    assert_eq!(KeyPrefix::Count.tag(), 1);
    assert_eq!(KeyPrefix::ArtifactPath.tag(), 2);
    assert_eq!(KeyPrefix::SymbolLabel.tag(), 3);
    assert_eq!(KeyPrefix::Bytecode.tag(), 4);
    assert_eq!(KeyPrefix::from_tag(1), Some(KeyPrefix::Count));
    assert_eq!(KeyPrefix::from_tag(4), Some(KeyPrefix::Bytecode));
    assert_eq!(KeyPrefix::from_tag(0), None);
    assert_eq!(KeyPrefix::from_tag(5), None);
}

#[test]
fn test_malformed_keys_are_rejected() {
    assert!(QueryKey::from_bytes(&[]).is_none());
    assert!(QueryKey::from_bytes(&[1; 32]).is_none());
    assert!(QueryKey::from_bytes(&[1; 34]).is_none());
    assert!(QueryKey::from_bytes(&[0; 33]).is_none());
    assert!(QueryKey::from_bytes(&[9; 33]).is_none());
    assert!(QueryKey::from_bytes(&[3; 33]).is_some());
}

#[test]
fn test_count_is_big_endian() {
    assert_eq!(encode_count(0), [0; 8]);
    assert_eq!(encode_count(1), [0, 0, 0, 0, 0, 0, 0, 1]);
    assert_eq!(encode_count(0x0102030405060708), [1, 2, 3, 4, 5, 6, 7, 8]);
    assert_eq!(encode_count(u64::MAX), [0xff; 8]);
    assert_eq!(decode_count(&[1, 2, 3, 4, 5, 6, 7, 8]), Some(0x0102030405060708));
    assert_eq!(decode_count(&[0xff; 8]), Some(u64::MAX));
    assert_eq!(decode_count(&[0; 7]), None);
    assert_eq!(decode_count(&[0; 9]), None);
    assert_eq!(COUNT_LEN, 8);
    for v in [0u64, 9, 10, 255, 256, 1 << 40, u64::MAX - 1] {
        assert_eq!(encode_count(v), v.to_be_bytes());
        assert_eq!(decode_count(&encode_count(v)), Some(v));
    }
}

#[test]
fn test_same_hash() {
    let a = hash_of(1);
    let mut b = hash_of(1);
    assert!(same_hash(&a, &b));
    b[31] ^= 1;
    assert!(!same_hash(&a, &b));
}

#[test]
fn test_label_is_underscore_and_three_bytes_in_hex() {
    let mut hash = [0u8; 32];
    hash[0] = 0xa1;
    hash[1] = 0xb2;
    hash[2] = 0xc3;
    hash[3] = 0xd4;
    assert_eq!(mangle_hex(&hash), "_a1b2c3");
    assert_eq!(mangle_hex(&[0x00, 0x0f, 0xF0]), "_000ff0");
    assert_eq!(mangle_hex(&[0xAB]), "_ab");
    assert_eq!(mangle_hex(&[]), "_");
    assert_eq!(mangle_chars(&[0x12, 0x34]), vec!['_', '1', '2', '3', '4']);
    assert_eq!(label_bytes(&hash), b"_a1b2c3".to_vec());
    assert_eq!(hex_digit(9), '9');
    assert_eq!(hex_digit(10), 'a');
    assert_eq!(hex_digit(15), 'f');
}

#[test]
fn test_byte_string_helpers() {
    assert_eq!(copy_bytes(&[1, 2, 3]), vec![1, 2, 3]);
    assert_eq!(copy_bytes(&[]), Vec::<u8>::new());
    let mut bytes = vec![1u8, 2];
    append_bytes(&mut bytes, &[3, 4]);
    assert_eq!(bytes, vec![1, 2, 3, 4]);
    assert!(same_bytes(&[], &[]));
    assert!(same_bytes(&[1, 2], &[1, 2]));
    assert!(!same_bytes(&[1, 2], &[1, 3]));
    assert!(!same_bytes(&[1, 2], &[1, 2, 3]));
}

#[test]
fn test_keys_of_one_kind() {
    let keys = vec![
        QueryKey::with_prefix(hash_of(1), KeyPrefix::Count),
        QueryKey::with_prefix(hash_of(1), KeyPrefix::Bytecode),
        QueryKey::with_prefix(hash_of(2), KeyPrefix::Count),
        QueryKey::with_prefix(hash_of(2), KeyPrefix::ArtifactPath),
        QueryKey::with_prefix(hash_of(3), KeyPrefix::Count),
    ];
    let counts = iter_prefix(&keys, KeyPrefix::Count);
    assert_eq!(counts.len(), 3);
    assert_eq!(counts[0].to_b256(), hash_of(1));
    assert_eq!(counts[1].to_b256(), hash_of(2));
    assert_eq!(counts[2].to_b256(), hash_of(3));
    assert!(counts.iter().all(|k| k.match_prefix(KeyPrefix::Count)));
    assert!(iter_prefix(&keys, KeyPrefix::SymbolLabel).is_empty());
    assert_eq!(iter_prefix(&keys, KeyPrefix::ArtifactPath).len(), 1);
    assert!(iter_prefix(&vec![], KeyPrefix::Count).is_empty());
}

#[test]
fn test_states_of_a_contract() {
    let mut ctx = ExternalContext::new(Compiler::new(2, 1));
    let hash = hash_of(0x55);
    let code = vec![0x00];
    assert_eq!(ctx.code_state(&hash, &None, false), CodeState::Unknown);
    let first = ctx.update_bytecode_reference(hash, &code, None);
    let stored = Some(first.value);
    assert_eq!(ctx.code_state(&hash, &stored, false), CodeState::Counting(1));
    let second = ctx.update_bytecode_reference(hash, &code, stored);
    let stored = Some(second.value);
    assert_eq!(ctx.code_state(&hash, &stored, false), CodeState::Queued);
    ctx.compiler.start_next().unwrap();
    assert_eq!(ctx.code_state(&hash, &stored, false), CodeState::Queued);
    assert!(ctx.compiler.finish(&hash, CompileOutcome::Published));
    assert_eq!(ctx.code_state(&hash, &stored, true), CodeState::Published);

    let other = hash_of(0x66);
    assert!(ctx.compiler.push_queue(other, code.clone()));
    ctx.compiler.start_next().unwrap();
    assert!(ctx.compiler.finish(&other, CompileOutcome::Failed));
    assert_eq!(ctx.code_state(&other, &stored, false), CodeState::Poisoned);
}

#[test]
fn test_spec_id_of_the_host_or_the_fallback() {
    assert_eq!(resolve_spec_id(0), 0);
    assert_eq!(resolve_spec_id(17), 17);
    assert_eq!(resolve_spec_id(19), 19);
    assert_eq!(resolve_spec_id(255), 255);
    assert_eq!(resolve_spec_id(20), FALLBACK_SPEC_ID);
    assert_eq!(resolve_spec_id(26), FALLBACK_SPEC_ID);
    assert_eq!(resolve_spec_id(254), FALLBACK_SPEC_ID);
    assert_eq!(FALLBACK_SPEC_ID, 19);
    for byte in 0..=255u8 {
        let expected = if byte <= 19 || byte == 255 { byte } else { 19 };
        assert_eq!(resolve_spec_id(byte), expected);
    }
}

#[test]
fn test_vm_configurations() {
    let plain = new_vm(17);
    assert_eq!(plain.spec_id, 17);
    assert!(plain.compiler.is_none());
    let tiered = new_vm_with_compiler(200, 10, 4);
    assert_eq!(tiered.spec_id, 19);
    let worker = tiered.compiler.unwrap();
    assert_eq!(worker.threshold(), 10);
    assert_eq!(worker.max_concurrent(), 4);
    assert_eq!(worker.queued_count(), 0);
    assert_eq!(worker.in_flight_count(), 0);
    assert_eq!(worker.failures(), 0);
}
