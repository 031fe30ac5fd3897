use memmap2::MmapMut;
use mmap_io::flush::FlushPolicy;
use mmap_io::{MemoryMappedFile, MmapIoError, MmapMode};

fn anon_rw(size: usize, policy: FlushPolicy) -> MemoryMappedFile {
    let map = MmapMut::map_anon(size).expect("anon map");
    MemoryMappedFile::from_rw_map(map, String::from("mem"), policy, true)
}

fn anon_ro(contents: &[u8]) -> MemoryMappedFile {
    let mut map = MmapMut::map_anon(contents.len().max(1)).expect("anon map");
    map[..contents.len()].copy_from_slice(contents);
    let ro = map.make_read_only().expect("make read only");
    MemoryMappedFile::from_ro_map(ro, String::from("mem"))
}

#[test]
fn create_write_read_flush_ro() {
    let mut mmap = anon_rw(4096, FlushPolicy::Never);
    assert_eq!(mmap.mode(), MmapMode::ReadWrite);

    // Write pattern
    let data = b"hello-mmap";
    mmap.update_region(100, data).expect("update");
    mmap.flush().expect("flush");

    let mut buf = vec![0u8; data.len()];
    mmap.read_into(100, &mut buf).expect("read");
    assert_eq!(&buf, data);

    // A read-only mapping over the same contents sees the write.
    let mut contents = vec![0u8; 4096];
    contents[100..110].copy_from_slice(data);
    let ro = anon_ro(&contents);
    let slice = ro.as_slice(100, data.len() as u64).expect("slice");
    assert_eq!(slice, data);
}

#[test]
fn test_readonly_write_fails() {
    let ro = anon_ro(&[0u8; 1024]);
    let mut ro = ro;
    assert_eq!(ro.mode(), MmapMode::ReadOnly);

    // Write operations should fail
    assert!(ro.update_region(0, b"fail").is_err());
    assert!(matches!(
        ro.update_region(0, b"fail"),
        Err(MmapIoError::InvalidMode(_))
    ));
    assert!(matches!(
        ro.resize_request(2048),
        Err(MmapIoError::InvalidMode(_))
    ));
    let spare = MmapMut::map_anon(2048).expect("anon map");
    assert!(matches!(
        ro.install_remapped(spare, 2048),
        Err(MmapIoError::InvalidMode(_))
    ));

    // Read operations should work
    assert!(ro.as_slice(0, 10).is_ok());
}

#[test]
fn cow_mode_rejects_mutation() {
    let mut map = MmapMut::map_anon(64).expect("anon map");
    map[..13].copy_from_slice(b"original data");
    let cow = map.make_read_only().expect("make read only");
    let mut cow = MemoryMappedFile::from_cow_map(cow, String::from("mem"));
    assert_eq!(cow.mode(), MmapMode::CopyOnWrite);

    // Phase-1: all mutation through the copy-on-write variant is rejected.
    assert!(matches!(
        cow.update_region(0, b"x"),
        Err(MmapIoError::InvalidMode(_))
    ));
    // Reads work, flush is a no-op.
    assert_eq!(cow.as_slice(0, 13).expect("slice"), b"original data");
    cow.flush().expect("flush");
    let mut buf = vec![0u8; 8];
    cow.read_into(0, &mut buf).expect("read");
    assert_eq!(&buf, b"original");
}

#[test]
fn test_empty_operations() {
    let mut mmap = anon_rw(1024, FlushPolicy::Never);

    // Empty write is ok
    assert!(mmap.update_region(0, b"").is_ok());

    // Empty flush range is ok
    assert!(mmap.flush_range(0, 0).is_ok());

    // Empty read
    let mut buf: Vec<u8> = Vec::new();
    assert!(mmap.read_into(0, &mut buf).is_ok());

    // Empty read at the very end is legal
    let mut buf: Vec<u8> = Vec::new();
    assert!(mmap.read_into(1024, &mut buf).is_ok());
}

#[test]
fn invalid_offset_access() {
    let mut mmap = anon_rw(1024, FlushPolicy::Never);

    let mut buf = vec![0u8; 10];
    let err = mmap.read_into(2048, &mut buf).unwrap_err();
    assert!(matches!(
        err,
        MmapIoError::OutOfBounds {
            offset: 2048,
            len: 10,
            total: 1024
        }
    ));
    assert_eq!(
        err.message(),
        "range out of bounds: offset=2048, len=10, total=1024"
    );

    // Same window through a zero-copy borrow on a read-only mapping.
    let ro = anon_ro(&[0u8; 1024]);
    let err = ro.as_slice(2048, 10).unwrap_err();
    assert_eq!(
        err.message(),
        "range out of bounds: offset=2048, len=10, total=1024"
    );

    // Writes out of bounds fail too, without touching anything.
    assert!(mmap.update_region(1020, b"12345").is_err());
    assert!(mmap.update_region(0, &[1u8; 1025]).is_err());
}

#[test]
fn as_slice_on_rw_requires_read_into() {
    let mmap = anon_rw(64, FlushPolicy::Never);
    let err = mmap.as_slice(0, 8).unwrap_err();
    assert!(matches!(err, MmapIoError::InvalidMode(_)));
    assert_eq!(
        err.message(),
        "invalid access mode: use read_into for RW mappings"
    );
    // Out-of-bounds takes precedence over the mode refusal.
    let err = mmap.as_slice(60, 8).unwrap_err();
    assert!(matches!(err, MmapIoError::OutOfBounds { .. }));
}

#[test]
fn getters_reflect_state() {
    let mmap = anon_rw(512, FlushPolicy::Never);
    assert_eq!(mmap.len(), 512);
    assert!(!mmap.is_empty());
    assert_eq!(mmap.current_len().expect("len"), 512);
    assert_eq!(mmap.path(), "mem");
    assert_eq!(mmap.pending_writes(), 0);
}

#[test]
fn hint_span_validates_os_hint_ranges() {
    let mmap = anon_rw(1024, FlushPolicy::Never);
    // A zero-length hint is a documented no-op.
    assert_eq!(mmap.hint_span(0, 0).expect("span"), None);
    assert_eq!(mmap.hint_span(1024, 0).expect("span"), None);
    // In-bounds ranges come back as slice positions.
    assert_eq!(mmap.hint_span(10, 20).expect("span"), Some((10, 30)));
    assert_eq!(mmap.hint_span(0, 1024).expect("span"), Some((0, 1024)));
    // Anything out of bounds is refused with the exact window.
    assert!(matches!(
        mmap.hint_span(1020, 10),
        Err(MmapIoError::OutOfBounds {
            offset: 1020,
            len: 10,
            total: 1024
        })
    ));
}

#[test]
fn manager_free_functions_delegate() {
    let mut mmap = anon_rw(128, FlushPolicy::EveryBytes(4));
    mmap_io::update_region(&mut mmap, 0, b"abcd").expect("update");
    assert_eq!(mmap.pending_writes(), 0);
    mmap_io::update_region(&mut mmap, 8, b"ef").expect("update");
    assert_eq!(mmap.pending_writes(), 2);
    mmap_io::flush(&mut mmap).expect("flush");
    assert_eq!(mmap.pending_writes(), 0);
    let mut buf = vec![0u8; 4];
    mmap.read_into(0, &mut buf).expect("read");
    assert_eq!(&buf, b"abcd");
}

#[test]
fn round_trip_many_offsets() {
    let mut mmap = anon_rw(256, FlushPolicy::Never);
    for offset in [0u64, 1, 7, 100, 246] {
        let data = b"0123456789";
        mmap.update_region(offset, data).expect("write");
        mmap.flush().expect("flush");
        let mut buf = vec![0u8; data.len()];
        mmap.read_into(offset, &mut buf).expect("read");
        assert_eq!(&buf, data);
    }
    // Writes at distinct offsets do not disturb each other.
    let mut all = vec![0u8; 256];
    mmap.read_into(0, &mut all).expect("read all");
    assert_eq!(&all[100..110], b"0123456789");
    assert_eq!(&all[246..256], b"0123456789");
}
