use memmap2::MmapMut;
use mmap_io::flush::FlushPolicy;
use mmap_io::{MemoryMappedFile, MmapIoError};

fn anon_rw(size: usize, shrink_truncates: bool) -> MemoryMappedFile {
    let map = MmapMut::map_anon(size).expect("anon map");
    MemoryMappedFile::from_rw_map(map, String::from("mem"), FlushPolicy::Never, shrink_truncates)
}

fn collect_chunks(mmap: &MemoryMappedFile, chunk_size: usize) -> Vec<Vec<u8>> {
    let mut iter = mmap.chunks(chunk_size);
    let mut out = Vec::new();
    while let Some(chunk) = iter.next_chunk(mmap) {
        out.push(chunk.expect("chunk"));
    }
    out
}

#[test]
fn test_chunk_iterator() {
    let mut mmap = anon_rw(10240, true);
    for i in 0..10u64 {
        let data = vec![i as u8; 1024];
        mmap.update_region(i * 1024, &data).expect("write");
    }
    mmap.flush().expect("flush");

    let chunks = collect_chunks(&mmap, 1024);
    assert_eq!(chunks.len(), 10);
    for (i, chunk) in chunks.iter().enumerate() {
        assert_eq!(chunk.len(), 1024);
        assert!(chunk.iter().all(|&b| b == i as u8));
    }

    // With a non-aligned chunk size the final chunk is shorter.
    let chunks = collect_chunks(&mmap, 3000);
    assert_eq!(chunks.len(), 4); // 3000, 3000, 3000, 1240
    assert_eq!(chunks[3].len(), 1240);
}

#[test]
fn test_page_iterator() {
    let ps = 4096usize;
    let file_size = ps * 3 + 100; // 3 full pages + partial
    let mmap = anon_rw(file_size, true);

    let mut iter = mmap.pages(ps);
    let mut pages = Vec::new();
    while let Some(page) = iter.next_chunk(&mmap) {
        pages.push(page.expect("page"));
    }

    assert_eq!(pages.len(), 4); // 3 full + 1 partial
    assert_eq!(pages[0].len(), ps);
    assert_eq!(pages[1].len(), ps);
    assert_eq!(pages[2].len(), ps);
    assert_eq!(pages[3].len(), 100);
    assert_eq!(iter.size_hint(), (0, Some(0)));
}

#[test]
fn test_mutable_chunk_iterator() {
    let mut mmap = anon_rw(4096, true);

    // Fill each chunk with a value derived from its offset.
    let mut iter = mmap.chunks_mut(1024);
    while let Some((offset, len)) = iter.next_range() {
        let value = (offset / 1024) as u8;
        let data = vec![value; len as usize];
        mmap.update_region(offset, &data).expect("write");
    }
    mmap.flush().expect("flush");

    let mut buf = vec![0u8; 1024];
    for i in 0..4u64 {
        mmap.read_into(i * 1024, &mut buf).expect("read");
        assert!(buf.iter().all(|&b| b == i as u8));
    }
}

#[test]
fn test_iterator_size_hint() {
    let mmap = anon_rw(10000, true);

    let iter = mmap.chunks(1000);
    assert_eq!(iter.size_hint(), (10, Some(10)));

    let iter = mmap.chunks(3000);
    assert_eq!(iter.size_hint(), (4, Some(4)));
}

#[test]
fn test_empty_file_iteration() {
    let mmap = anon_rw(1, true);

    let chunks = collect_chunks(&mmap, 1024);
    assert_eq!(chunks.len(), 1);
    assert_eq!(chunks[0].len(), 1);
}

#[test]
fn chunk_iterator_observes_shrunk_owner() {
    let mut mmap = anon_rw(2048, false);
    let mut iter = mmap.chunks(1024);
    let first = iter.next_chunk(&mmap).expect("some").expect("chunk");
    assert_eq!(first.len(), 1024);

    // The owner shrinks under the iterator's snapshot.
    mmap.apply_virtual_shrink(1024);

    let stale = iter.next_chunk(&mmap).expect("some");
    assert!(matches!(
        stale,
        Err(MmapIoError::OutOfBounds {
            offset: 1024,
            len: 1024,
            total: 1024
        })
    ));
}
