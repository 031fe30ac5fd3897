use memmap2::MmapMut;
use mmap_io::flush::FlushPolicy;
use mmap_io::{MemoryMappedFile, MmapIoError};

fn anon_rw(size: usize) -> MemoryMappedFile {
    let map = MmapMut::map_anon(size).expect("anon map");
    MemoryMappedFile::from_rw_map(map, String::from("mem"), FlushPolicy::Never, true)
}

#[test]
fn atomic_u64_validation() {
    let mmap = anon_rw(64);

    // Aligned accesses within bounds pass and return the slice position.
    assert_eq!(mmap.check_atomic_access(0, 8, 1).expect("atomic at 0"), 0);
    assert_eq!(mmap.check_atomic_access(8, 8, 1).expect("atomic at 8"), 8);
    assert_eq!(mmap.check_atomic_access(56, 8, 1).expect("atomic at 56"), 56);

    // Misaligned offsets are refused, naming the required alignment.
    assert!(matches!(
        mmap.check_atomic_access(1, 8, 1),
        Err(MmapIoError::Misaligned {
            required: 8,
            offset: 1
        })
    ));
    assert!(matches!(
        mmap.check_atomic_access(7, 8, 1),
        Err(MmapIoError::Misaligned {
            required: 8,
            offset: 7
        })
    ));

    // Out of bounds: the word must fit within the current length.
    assert!(mmap.check_atomic_access(64, 8, 1).is_err());
    assert!(mmap.check_atomic_access(57, 8, 1).is_err());
}

#[test]
fn atomic_u32_validation() {
    let mmap = anon_rw(32);

    assert_eq!(mmap.check_atomic_access(0, 4, 1).expect("atomic at 0"), 0);
    assert_eq!(mmap.check_atomic_access(4, 4, 1).expect("atomic at 4"), 4);

    assert!(matches!(
        mmap.check_atomic_access(1, 4, 1),
        Err(MmapIoError::Misaligned {
            required: 4,
            offset: 1
        })
    ));
    assert!(matches!(
        mmap.check_atomic_access(3, 4, 1),
        Err(MmapIoError::Misaligned {
            required: 4,
            offset: 3
        })
    ));

    assert!(mmap.check_atomic_access(32, 4, 1).is_err());
    assert!(mmap.check_atomic_access(29, 4, 1).is_err());
}

#[test]
fn atomic_slice_validation() {
    let mmap = anon_rw(128);

    // Runs of words are bounds-checked as a whole.
    assert_eq!(mmap.check_atomic_access(0, 8, 4).expect("u64 slice"), 0);
    assert_eq!(mmap.check_atomic_access(64, 4, 8).expect("u32 slice"), 64);

    // Misaligned runs.
    assert!(mmap.check_atomic_access(1, 8, 2).is_err());
    assert!(mmap.check_atomic_access(2, 4, 2).is_err());

    // Out of bounds runs: the reported length covers the whole run.
    assert!(matches!(
        mmap.check_atomic_access(120, 8, 2),
        Err(MmapIoError::OutOfBounds {
            offset: 120,
            len: 16,
            total: 128
        })
    ));
    assert!(matches!(
        mmap.check_atomic_access(124, 4, 2),
        Err(MmapIoError::OutOfBounds {
            offset: 124,
            len: 8,
            total: 128
        })
    ));
}

#[test]
fn atomic_span_overflow_is_rejected() {
    let mmap = anon_rw(64);
    // A run whose byte span does not even fit in u64 can never be in
    // bounds; the length is reported saturated.
    assert!(matches!(
        mmap.check_atomic_access(0, 8, u64::MAX),
        Err(MmapIoError::OutOfBounds {
            offset: 0,
            len: u64::MAX,
            total: 64
        })
    ));
}

#[test]
fn atomic_validation_is_mode_independent() {
    let mut map = MmapMut::map_anon(16).expect("anon map");
    map[0] = 42;
    let ro = map.make_read_only().expect("make read only");
    let ro = MemoryMappedFile::from_ro_map(ro, String::from("mem"));
    assert_eq!(ro.check_atomic_access(0, 8, 1).expect("atomic ro"), 0);
    assert!(ro.check_atomic_access(16, 8, 1).is_err());
}

#[test]
fn atomic_zero_count_is_legal() {
    let mmap = anon_rw(8);
    // Zero words at an aligned offset within the mapping: nothing to fit.
    assert_eq!(mmap.check_atomic_access(8, 8, 0).expect("empty run"), 8);
}
