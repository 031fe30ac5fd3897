use memmap2::MmapMut;
use mmap_io::flush::FlushPolicy;
use mmap_io::mmap::{check_create_size, check_open_len, ResizeAction, MAX_MMAP_SIZE};
use mmap_io::{MemoryMappedFile, MmapIoError, MmapMode};

fn anon_rw(size: usize, shrink_truncates: bool) -> MemoryMappedFile {
    let map = MmapMut::map_anon(size).expect("anon map");
    MemoryMappedFile::from_rw_map(map, String::from("mem"), FlushPolicy::Never, shrink_truncates)
}

/// Build a fresh mapping of `new_size` bytes carrying over the current
/// contents (what extending or truncating the backing file does), and
/// install it.
fn remap_to(mmap: &mut MemoryMappedFile, new_size: usize) {
    let keep = (mmap.len() as usize).min(new_size);
    let mut buf = vec![0u8; keep];
    mmap.read_into(0, &mut buf).expect("read for remap");
    let mut fresh = MmapMut::map_anon(new_size).expect("anon map");
    fresh[..keep].copy_from_slice(&buf);
    mmap.install_remapped(fresh, new_size as u64).expect("install");
}

#[test]
fn test_resize_operations() {
    let mut mmap = anon_rw(1024, true);
    mmap.update_region(0, b"before resize").expect("write");

    // Grow
    assert_eq!(mmap.resize_request(2048).expect("resize larger"), ResizeAction::Remap);
    remap_to(&mut mmap, 2048);
    assert_eq!(mmap.len(), 2048);
    let mut buf = vec![0u8; 13];
    mmap.read_into(0, &mut buf).expect("read");
    assert_eq!(&buf, b"before resize");

    // Shrink
    assert_eq!(mmap.resize_request(512).expect("resize smaller"), ResizeAction::Remap);
    remap_to(&mut mmap, 512);
    assert_eq!(mmap.len(), 512);
    let mut buf = vec![0u8; 13];
    mmap.read_into(0, &mut buf).expect("read");
    assert_eq!(&buf, b"before resize");
}

#[test]
fn grow_then_shrink_preserves_prior_writes() {
    let mut mmap = anon_rw(1024, true);
    mmap.update_region(10, b"durable").expect("write");

    remap_to(&mut mmap, 2048);
    remap_to(&mut mmap, 1024);

    let mut buf = vec![0u8; 7];
    mmap.read_into(10, &mut buf).expect("read");
    assert_eq!(&buf, b"durable");
}

#[test]
fn virtual_shrink_branch() {
    // The platform that cannot truncate a mapped file honors a shrink
    // virtually: only the cached length changes.
    let mut mmap = anon_rw(2048, false);
    mmap.update_region(0, b"kept").expect("write");
    mmap.update_region(1000, b"beyond").expect("write");

    assert_eq!(mmap.resize_request(512).expect("request"), ResizeAction::VirtualShrink);
    mmap.apply_virtual_shrink(512);
    assert_eq!(mmap.len(), 512);

    // Bytes within the shrunk bound are untouched.
    let mut buf = vec![0u8; 4];
    mmap.read_into(0, &mut buf).expect("read");
    assert_eq!(&buf, b"kept");

    // The shrink is observable: the old region is out of bounds now.
    let mut buf = vec![0u8; 6];
    assert!(matches!(
        mmap.read_into(1000, &mut buf),
        Err(MmapIoError::OutOfBounds {
            offset: 1000,
            len: 6,
            total: 512
        })
    ));

    // An equal size is left alone on this platform; a grow remaps.
    assert_eq!(mmap.resize_request(512).expect("request"), ResizeAction::NoChange);
    assert_eq!(mmap.resize_request(4096).expect("request"), ResizeAction::Remap);
}

#[test]
fn virtual_shrink_then_grow_reconciles() {
    let mut mmap = anon_rw(2048, false);
    mmap.update_region(100, b"hello").expect("write");
    mmap.apply_virtual_shrink(1024);
    assert_eq!(mmap.len(), 1024);
    remap_to(&mut mmap, 4096);
    assert_eq!(mmap.len(), 4096);
    let mut buf = vec![0u8; 5];
    mmap.read_into(100, &mut buf).expect("read");
    assert_eq!(&buf, b"hello");
}

#[test]
fn test_zero_size_validation() {
    let err = check_create_size(0).unwrap_err();
    assert!(matches!(err, MmapIoError::ResizeFailed(_)));
    let msg = err.message();
    assert!(msg.contains("must be greater than zero"));
    assert_eq!(msg, "resize failed: Size must be greater than zero");
}

#[test]
fn test_max_size_validation_create() {
    let err = check_create_size(u64::MAX).unwrap_err();
    assert!(matches!(err, MmapIoError::ResizeFailed(_)));
    assert!(err.message().contains("exceeds maximum safe limit"));
    // The largest allowed size passes; one past it fails.
    assert!(check_create_size(MAX_MMAP_SIZE).is_ok());
    assert!(check_create_size(MAX_MMAP_SIZE + 1).is_err());
}

#[test]
fn test_max_size_validation_resize() {
    let mmap = anon_rw(1024, true);
    let err = mmap.resize_request(u64::MAX).unwrap_err();
    assert!(matches!(err, MmapIoError::ResizeFailed(_)));
    assert!(err.message().contains("exceeds maximum safe limit"));

    let err = mmap.resize_request(0).unwrap_err();
    assert_eq!(err.message(), "resize failed: New size must be greater than zero");
}

#[test]
fn test_max_size_validation_builder() {
    let b = MemoryMappedFile::builder(String::from("big.bin"))
        .mode(MmapMode::ReadWrite)
        .size(u64::MAX);
    let err = b.create_plan().unwrap_err();
    assert!(matches!(err, MmapIoError::ResizeFailed(_)));
    assert!(err.message().contains("exceeds maximum safe limit"));
}

#[test]
fn open_zero_length_rejected() {
    let err = check_open_len(MmapMode::ReadWrite, 0).unwrap_err();
    assert_eq!(err.message(), "resize failed: Cannot map zero-length file");
    assert!(check_open_len(MmapMode::ReadOnly, 0).is_ok());
    assert!(matches!(
        check_open_len(MmapMode::CopyOnWrite, 0),
        Err(MmapIoError::ResizeFailed(_))
    ));
    assert!(check_open_len(MmapMode::ReadWrite, 1).is_ok());
}

#[test]
fn install_checks_the_mapping_size() {
    let mut mmap = anon_rw(1024, true);
    let wrong = MmapMut::map_anon(512).expect("anon map");
    let err = mmap.install_remapped(wrong, 2048).unwrap_err();
    assert_eq!(
        err.message(),
        "resize failed: mapping does not match the requested size"
    );
    // The mapping is untouched by the failed install.
    assert_eq!(mmap.len(), 1024);
}
