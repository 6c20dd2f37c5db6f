use handle_registry::boundary::statsig_bootstrap_specs_adapter_create_from_bytes as create_from_bytes;
use handle_registry::boundary::statsig_bootstrap_specs_adapter_release as release;
use handle_registry::registry::InstanceRegistry;

#[test]
fn valid_payload_yields_nonzero_releasable_handle() {
    let mut reg = InstanceRegistry::new();
    let bytes: Vec<u8> = b"{\"flags\":[]}".to_vec();
    assert_eq!(bytes.len(), 12);
    let h = create_from_bytes(&mut reg, Some(bytes.as_slice()));
    assert_ne!(h, 0);
    assert_eq!(reg.len(), 1);
    assert!(reg.get(h).is_some());
    release(&mut reg, h);
    assert!(reg.get(h).is_none());
    assert_eq!(reg.len(), 0);
}

#[test]
fn null_buffer_rejected_without_registration() {
    let mut reg = InstanceRegistry::new();
    let h = create_from_bytes(&mut reg, None);
    assert_eq!(h, 0);
    assert_eq!(reg.len(), 0);
}

#[test]
fn empty_buffer_rejected_without_registration() {
    let mut reg = InstanceRegistry::new();
    let empty: Vec<u8> = Vec::new();
    let h = create_from_bytes(&mut reg, Some(empty.as_slice()));
    assert_eq!(h, 0);
    assert_eq!(reg.len(), 0);
}

#[test]
fn lone_continuation_byte_rejected() {
    let mut reg = InstanceRegistry::new();
    let bytes: Vec<u8> = vec![0x80];
    let h = create_from_bytes(&mut reg, Some(bytes.as_slice()));
    assert_eq!(h, 0);
    assert_eq!(reg.len(), 0);
}

#[test]
fn invalid_utf8_start_rejected_registry_unchanged() {
    let mut reg = InstanceRegistry::new();
    let valid: Vec<u8> = b"{}".to_vec();
    let live = create_from_bytes(&mut reg, Some(valid.as_slice()));
    assert_ne!(live, 0);
    assert_eq!(reg.len(), 1);

    let bytes: Vec<u8> = vec![0xFF, 0xFE];
    let h = create_from_bytes(&mut reg, Some(bytes.as_slice()));
    assert_eq!(h, 0);
    assert_eq!(reg.len(), 1);
    assert!(reg.get(live).is_some());
}

#[test]
fn double_release_is_safe() {
    let mut reg = InstanceRegistry::new();
    let bytes: Vec<u8> = b"{\"flags\":[]}".to_vec();
    let h = create_from_bytes(&mut reg, Some(bytes.as_slice()));
    assert_ne!(h, 0);
    release(&mut reg, h);
    assert_eq!(reg.len(), 0);
    release(&mut reg, h);
    assert_eq!(reg.len(), 0);
    assert!(reg.get(h).is_none());
}

#[test]
fn release_of_never_issued_handle_is_noop() {
    let mut reg = InstanceRegistry::new();
    release(&mut reg, 0xFFFFFFFF);
    assert_eq!(reg.len(), 0);

    let bytes: Vec<u8> = b"{\"flags\":[]}".to_vec();
    let h = create_from_bytes(&mut reg, Some(bytes.as_slice()));
    assert_ne!(h, 0);
    release(&mut reg, 0xFFFFFFFF);
    assert_eq!(reg.len(), 1);
    assert!(reg.get(h).is_some());
}

#[test]
fn release_of_zero_sentinel_is_noop() {
    let mut reg = InstanceRegistry::new();
    let bytes: Vec<u8> = b"{}".to_vec();
    let h = create_from_bytes(&mut reg, Some(bytes.as_slice()));
    assert_ne!(h, 0);
    release(&mut reg, 0);
    assert_eq!(reg.len(), 1);
}

#[test]
fn many_creations_yield_distinct_handles() {
    let mut reg = InstanceRegistry::new();
    let bytes: Vec<u8> = b"{\"flags\":[]}".to_vec();
    let mut handles: Vec<u64> = Vec::new();
    for _ in 0..8 {
        let h = create_from_bytes(&mut reg, Some(bytes.as_slice()));
        assert_ne!(h, 0);
        handles.push(h);
    }
    assert_eq!(reg.len(), 8);
    for i in 0..handles.len() {
        for j in 0..handles.len() {
            if i != j {
                assert_ne!(handles[i], handles[j]);
            }
        }
    }
    for h in &handles {
        assert!(reg.get(*h).is_some());
        release(&mut reg, *h);
        assert!(reg.get(*h).is_none());
    }
    assert_eq!(reg.len(), 0);
}

#[test]
fn typed_retrieval_fails_closed_on_stale_handle() {
    let mut reg = InstanceRegistry::new();
    let bytes: Vec<u8> = b"{\"flags\":[]}".to_vec();
    let h = create_from_bytes(&mut reg, Some(bytes.as_slice()));
    assert_ne!(h, 0);
    assert!(reg.get_bootstrap_specs(h).is_some());
    assert!(reg.get_bootstrap_specs(h + 1).is_none());
    release(&mut reg, h);
    assert!(reg.get_bootstrap_specs(h).is_none());
}
