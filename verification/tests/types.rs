use librevm::access_path::{DataType, InvalidDataType};
use librevm::aot::{AotCfg, JitCfg, OptimizationLevel, RuntimeAot, DEFAULT_SPEC_ID};
use librevm::block::{
    address_from_slice, all_zero, blob_fee, blob_fee_with_price, hash_from_slice,
    word_from_be_slice, BlobExcessGasAndPrice, Block, BlockEnv, BlockProto, MAX_EXCESS_BLOB_GAS,
};

fn sample_block() -> Block {
    Block {
        number: vec![0x01, 0x00],
        coinbase: vec![0x11; 20],
        timestamp: vec![0x65, 0x00, 0x00, 0x00],
        gas_limit: vec![0x01, 0xc9, 0xc3, 0x80],
        basefee: vec![7],
        difficulty: vec![],
        prevrandao: vec![0xab; 32],
        excess_blob_gas: Some(10_000_000),
    }
}

fn word(low: &[u8]) -> [u8; 32] {
    let mut w = [0u8; 32];
    w[32 - low.len()..].copy_from_slice(low);
    w
}

#[test]
fn test_data_type_predicates() {
    assert!(DataType::Code.is_code());
    assert!(!DataType::Resource.is_code());
    assert!(DataType::Resource.is_resource());
    assert!(!DataType::TableItem.is_resource());
    assert!(!DataType::TableInfo.is_code());
    assert_eq!(DataType::LENGTH, 2);
}

#[test]
fn test_data_type_indices() {
    assert_eq!(DataType::Code.type_index(), 0);
    assert_eq!(DataType::Resource.type_index(), 1);
    assert_eq!(DataType::TableItem.type_index(), 2);
    assert_eq!(DataType::TableInfo.type_index(), 3);
    assert_eq!(DataType::Code.storage_index(), 0);
    assert_eq!(DataType::Resource.storage_index(), 1);
    assert_eq!(DataType::TableItem.storage_index(), 2);
    assert_eq!(DataType::TableInfo.storage_index(), 3);
}

#[test]
fn test_data_type_from_index() {
    assert_eq!(DataType::from_index(0), Ok(DataType::Code));
    assert_eq!(DataType::from_index(2), Ok(DataType::Resource));
    assert_eq!(DataType::from_index(3), Ok(DataType::TableItem));
    assert_eq!(DataType::from_index(4), Ok(DataType::TableInfo));
    assert_eq!(DataType::from_index(1), Err(InvalidDataType { index: 1 }));
    assert_eq!(DataType::from_index(5), Err(InvalidDataType { index: 5 }));
    assert_eq!(DataType::from_index(255), Err(InvalidDataType { index: 255 }));
}

#[test]
fn test_default_configuration() {
    let cfg = JitCfg::default();
    assert!(cfg.aot);
    assert_eq!(cfg.opt_level, OptimizationLevel::Aggressive);
    assert!(cfg.no_gas);
    assert!(cfg.no_len_checks);
    assert!(cfg.debug_assertions);
    assert!(!cfg.eof);
    assert_eq!(cfg.spec_id, DEFAULT_SPEC_ID);
    assert_eq!(DEFAULT_SPEC_ID, 18);
}

#[test]
fn test_compiler_settings_follow_the_configuration() {
    let cfg: AotCfg = AotCfg {
        aot: true,
        opt_level: OptimizationLevel::Less,
        no_gas: false,
        no_len_checks: true,
        debug_assertions: false,
        eof: false,
        spec_id: 17,
    };
    let driver = RuntimeAot::new(cfg);
    assert_eq!(driver.cfg, cfg);
    let s = driver.settings();
    assert!(s.aot);
    assert_eq!(s.opt_level, OptimizationLevel::Less);
    assert!(!s.gas_metering);
    assert!(s.stack_bound_checks);
    assert!(s.frame_pointers);
    assert!(!s.debug_assertions);
    assert!(s.validate_eof);
    assert!(s.inspect_stack_length);
    assert_eq!(s.spec_id, 17);
}

#[test]
fn test_block_proto_wraps_the_block() {
    let proto = BlockProto::new(sample_block());
    let inner = proto.into_inner();
    assert_eq!(inner.number, vec![0x01, 0x00]);
    assert_eq!(inner.excess_blob_gas, Some(10_000_000));
    let proto: BlockProto = sample_block().into();
    assert_eq!(proto.into_inner().coinbase, vec![0x11; 20]);
}

#[test]
fn test_block_env_from_proto() {
    let block = sample_block();
    assert!(block.convertible());
    let env = BlockEnv::try_from_proto(BlockProto::new(block)).unwrap();
    assert_eq!(env.number, word(&[0x01, 0x00]));
    assert_eq!(env.coinbase, [0x11; 20]);
    assert_eq!(env.timestamp, word(&[0x65, 0, 0, 0]));
    assert_eq!(env.gas_limit, word(&[0x01, 0xc9, 0xc3, 0x80]));
    assert_eq!(env.basefee, word(&[7]));
    assert_eq!(env.difficulty, [0u8; 32]);
    assert_eq!(env.prevrandao, Some([0xab; 32]));
    assert_eq!(
        env.blob_excess_gas_and_price,
        Some(BlobExcessGasAndPrice { excess_blob_gas: 10_000_000, blob_gasprice: 19 })
    );
}

#[test]
fn test_block_env_drops_zero_randomness_and_zero_excess() {
    let mut block = sample_block();
    block.prevrandao = vec![0; 32];
    block.excess_blob_gas = Some(0);
    let env = BlockEnv::try_from_proto(BlockProto::new(block)).unwrap();
    assert_eq!(env.prevrandao, None);
    assert_eq!(env.blob_excess_gas_and_price, None);

    let mut block = sample_block();
    block.excess_blob_gas = None;
    let env = BlockEnv::try_from_proto(BlockProto::new(block)).unwrap();
    assert_eq!(env.blob_excess_gas_and_price, None);
}

#[test]
fn test_block_that_cannot_be_converted() {
    let mut block = sample_block();
    block.coinbase = vec![0x11; 19];
    assert!(!block.convertible());
    let mut block = sample_block();
    block.number = vec![1; 33];
    assert!(!block.convertible());
    let mut block = sample_block();
    block.prevrandao = vec![];
    assert!(!block.convertible());
    let mut block = sample_block();
    block.excess_blob_gas = Some(MAX_EXCESS_BLOB_GAS + 1);
    assert!(!block.convertible());
    block.excess_blob_gas = Some(MAX_EXCESS_BLOB_GAS);
    assert!(block.convertible());
}

#[test]
fn test_blob_fee() {
    assert_eq!(blob_fee(None), None);
    assert_eq!(blob_fee(Some(0)), None);
    assert_eq!(
        blob_fee(Some(1)),
        Some(BlobExcessGasAndPrice { excess_blob_gas: 1, blob_gasprice: 1 })
    );
    assert_eq!(
        blob_fee(Some(100_000_000)),
        Some(BlobExcessGasAndPrice { excess_blob_gas: 100_000_000, blob_gasprice: 10203769476395 })
    );
    assert_eq!(
        blob_fee(Some(MAX_EXCESS_BLOB_GAS)),
        Some(BlobExcessGasAndPrice {
            excess_blob_gas: MAX_EXCESS_BLOB_GAS,
            blob_gasprice: 10079293834132079738693097,
        })
    );
    assert_eq!(blob_fee_with_price(Some(0), 5), None);
    assert_eq!(blob_fee_with_price(None, 5), None);
    assert_eq!(
        blob_fee_with_price(Some(3), 5),
        Some(BlobExcessGasAndPrice { excess_blob_gas: 3, blob_gasprice: 5 })
    );
}

#[test]
fn test_byte_helpers() {
    assert_eq!(word_from_be_slice(&[]), [0u8; 32]);
    assert_eq!(word_from_be_slice(&[1, 2]), word(&[1, 2]));
    assert_eq!(word_from_be_slice(&[9; 32]), [9u8; 32]);
    assert_eq!(hash_from_slice(&[3; 32]), [3u8; 32]);
    assert_eq!(address_from_slice(&[4; 20]), [4u8; 20]);
    assert!(all_zero(&[]));
    assert!(all_zero(&[0; 32]));
    assert!(!all_zero(&[0, 0, 1]));
}
