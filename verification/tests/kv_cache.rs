use memristor::{
    check_infer_input, CompressKvError, DecompressKvError, KvSessionStore, OmegaVChipError,
};

/// What a chip of side `size` hands the store for `payload`: the size error the
/// chip reports, or an output vector of the chip's side (its values are
/// computed by the analog path on the host; the store only keeps them).
fn chip_output(size: usize, payload: &[f32]) -> Result<Vec<f32>, OmegaVChipError> {
    check_infer_input(size, payload.len()).map(|()| payload.to_vec())
}

#[test]
fn compress_updates_session_budget() {
    let mut manager: KvSessionStore<f32> = KvSessionStore::new();
    let payload = vec![0.25_f32; 4];
    manager.store_compressed(7, chip_output(4, &payload)).expect("compression should pass");
    assert_eq!(manager.session_budget(7), Some(16));
}

#[test]
fn decompress_round_trip_size_match() {
    let mut manager: KvSessionStore<f32> = KvSessionStore::new();
    let payload = vec![0.1_f32, 0.2, 0.3, 0.4];
    manager.store_compressed(1, chip_output(4, &payload)).unwrap();
    let back = manager.decompress_kv(1).unwrap();
    assert_eq!(back.len(), payload.len());
}

#[test]
fn decompress_unknown_session() {
    let manager: KvSessionStore<f32> = KvSessionStore::new();
    assert_eq!(
        manager.decompress_kv(99).unwrap_err(),
        DecompressKvError::SessionNotFound(99)
    );
}

#[test]
fn compress_wrong_size_is_error() {
    let mut manager: KvSessionStore<f32> = KvSessionStore::new();
    let payload = vec![0.25_f32; 2];
    assert!(manager.store_compressed(1, chip_output(4, &payload)).is_err());
    assert_eq!(manager.session_budget(1), None);
    assert_eq!(
        manager.decompress_kv(1).unwrap_err(),
        DecompressKvError::SessionNotFound(1)
    );
}

#[test]
fn store_records_budget_in_bytes() {
    let mut store: KvSessionStore<f32> = KvSessionStore::new();
    store.store_compressed(7, Ok(vec![0.25_f32; 4])).expect("compression should pass");
    assert_eq!(store.session_budget(7), Some(16));
}

#[test]
fn read_gives_back_last_write() {
    let mut store: KvSessionStore<f32> = KvSessionStore::new();
    store.store_compressed(1, Ok(vec![0.1_f32, 0.2, 0.3, 0.4])).unwrap();
    store.store_compressed(2, Ok(vec![9.0_f32])).unwrap();
    assert_eq!(store.decompress_kv(1).unwrap(), vec![0.1_f32, 0.2, 0.3, 0.4]);
    store.store_compressed(1, Ok(vec![5.0_f32, 6.0])).unwrap();
    assert_eq!(store.decompress_kv(1).unwrap(), vec![5.0_f32, 6.0]);
    assert_eq!(store.session_budget(1), Some(8));
    assert_eq!(store.decompress_kv(2).unwrap(), vec![9.0_f32]);
    assert_eq!(store.session_budget(2), Some(4));
}

#[test]
fn unknown_session_is_not_found() {
    let store: KvSessionStore<f32> = KvSessionStore::new();
    assert_eq!(
        store.decompress_kv(99).unwrap_err(),
        DecompressKvError::SessionNotFound(99)
    );
    assert_eq!(store.session_budget(99), None);
}

#[test]
fn chip_error_changes_nothing() {
    let mut store: KvSessionStore<f32> = KvSessionStore::new();
    let chip_err = OmegaVChipError::InvalidInputSize { expected: 4, got: 2 };
    assert_eq!(store.store_compressed(1, Err(chip_err)), Err(CompressKvError::Chip(chip_err)));
    assert_eq!(store.session_budget(1), None);
    assert_eq!(
        store.decompress_kv(1).unwrap_err(),
        DecompressKvError::SessionNotFound(1)
    );
    store.store_compressed(3, Ok(vec![1.0_f32])).unwrap();
    assert!(store.store_compressed(3, Err(chip_err)).is_err());
    assert_eq!(store.decompress_kv(3).unwrap(), vec![1.0_f32]);
}

#[test]
fn budget_uses_element_size() {
    let mut store: KvSessionStore<u64> = KvSessionStore::new();
    store.store_compressed(5, Ok(vec![1u64, 2, 3])).unwrap();
    assert_eq!(store.session_budget(5), Some(24));
    let e: CompressKvError = OmegaVChipError::InvalidInputSize { expected: 1, got: 0 }.into();
    assert_eq!(e, CompressKvError::Chip(OmegaVChipError::InvalidInputSize { expected: 1, got: 0 }));
}
