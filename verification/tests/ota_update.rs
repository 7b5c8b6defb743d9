use provisioner::download::{find_header_end, firmware_request, split_at_header_end};
use provisioner::ota::{
    FlashWrite, OtaError, OtaImageState, OtaSession, Partition, PartitionTable,
};

fn two_partition_table() -> PartitionTable {
    PartitionTable {
        parts: vec![
            Partition { offset: 0x10000, size: 0x60000 },
            Partition { offset: 0x80000, size: 0x60000 },
        ],
        booted: 0,
        boot_target: 0,
        image_state: OtaImageState::Valid,
    }
}

/// A simulated flash: applies a write exactly as the driver would.
fn apply(flash: &mut [u8], table: &PartitionTable, w: &FlashWrite, data: &[u8]) {
    assert_eq!(w.len as usize, data.len());
    let base = table.parts[w.partition].offset as usize + w.offset as usize;
    flash[base..base + data.len()].copy_from_slice(data);
}

#[test]
fn update_targets_the_non_booted_partition() {
    let table = two_partition_table();
    assert_eq!(table.update_target(), 1);
    let mut other = two_partition_table();
    other.booted = 1;
    assert_eq!(other.update_target(), 0);
}

#[test]
fn streamed_chunks_reassemble_exactly() {
    // A 16 KiB image split into uneven chunks, as socket reads would.
    let image: Vec<u8> = (0..16384u32).map(|i| (i * 7 + i / 251) as u8).collect();
    let table = two_partition_table();
    let mut flash = vec![0u8; 0x100000];
    let mut session = OtaSession::begin(&table);
    let mut fed = 0usize;
    let mut offsets: Vec<u32> = Vec::new();
    let splits = [1usize, 4096, 1, 1023, 4096, 4096, 2048, 1, 1021, 1];
    let mut total = 0usize;
    for len in splits {
        let chunk = &image[fed..fed + len];
        let w = session.write_chunk(chunk).expect("fits");
        assert_eq!(w.partition, 1);
        assert_eq!(w.offset as usize, fed);
        assert_eq!(w.len as usize, len);
        offsets.push(w.offset);
        apply(&mut flash, &table, &w, chunk);
        fed += len;
        total += w.len as usize;
    }
    assert_eq!(fed, image.len());
    assert_eq!(total, image.len());
    // Offsets are strictly increasing: monotonic writes.
    assert!(offsets.windows(2).all(|p| p[0] < p[1]));
    // The target partition holds exactly the original bytes.
    let base = table.parts[1].offset as usize;
    assert_eq!(&flash[base..base + image.len()], &image[..]);
}

#[test]
fn booted_partition_is_never_written() {
    let image = vec![0xa5u8; 8192];
    let table = two_partition_table();
    let mut session = OtaSession::begin(&table);
    let booted = table.parts[table.booted];
    let booted_range = booted.offset as u64..booted.offset as u64 + booted.size as u64;
    for chunk in image.chunks(1000) {
        let w = session.write_chunk(chunk).expect("fits");
        assert_ne!(w.partition, table.booted);
        let part = table.parts[w.partition];
        let lo = part.offset as u64 + w.offset as u64;
        let hi = lo + w.len as u64;
        assert!(hi <= part.offset as u64 + part.size as u64);
        // No written address falls in the booted partition's range.
        assert!(hi <= booted_range.start || lo >= booted_range.end);
    }
}

#[test]
fn oversized_image_is_refused_without_activation() {
    let table = PartitionTable {
        parts: vec![
            Partition { offset: 0x1000, size: 0x1000 },
            Partition { offset: 0x2000, size: 0x1000 },
        ],
        booted: 0,
        boot_target: 0,
        image_state: OtaImageState::Valid,
    };
    let mut session = OtaSession::begin(&table);
    let w = session.write_chunk(&[0u8; 0x1000]).expect("exactly fills");
    assert_eq!(w.len, 0x1000);
    let err = session.write_chunk(&[0u8; 1]).expect_err("full");
    assert_eq!(err, OtaError::ImageTooLarge);
}

#[test]
fn activation_is_one_metadata_update() {
    let mut table = two_partition_table();
    let session = OtaSession::begin(&table);
    let target = session.target;
    table.activate(target);
    table.set_image_state(OtaImageState::New);
    assert_eq!(table.boot_target, 1);
    assert_eq!(table.booted, 0);
    assert_eq!(table.image_state, OtaImageState::New);
    // The partitions themselves are untouched.
    assert_eq!(table.parts, two_partition_table().parts);
}

#[test]
fn header_end_is_found_first() {
    assert_eq!(find_header_end(b"HTTP/1.0 200 OK\r\n\r\npayload"), Some(15));
    assert_eq!(find_header_end(b"\r\n\r\n\r\n\r\n"), Some(0));
    assert_eq!(find_header_end(b"no terminator yet\r\n"), None);
    assert_eq!(find_header_end(b""), None);
    assert_eq!(find_header_end(b"\r\n\r"), None);
}

#[test]
fn payload_past_header_end_is_kept() {
    let (end, payload) =
        split_at_header_end(b"HTTP/1.0 200 OK\r\nX: y\r\n\r\n\x01\x02\x03").expect("complete");
    assert_eq!(end, 21);
    assert_eq!(payload, vec![1, 2, 3]);
    let (_, empty) = split_at_header_end(b"HTTP/1.0 200 OK\r\n\r\n").expect("complete");
    assert!(empty.is_empty());
    assert!(split_at_header_end(b"HTTP/1.0 200 OK\r\n").is_none());
}

#[test]
fn firmware_request_is_exact() {
    let req = firmware_request(b"192.168.0.10");
    assert_eq!(
        req,
        b"GET /firmware.bin HTTP/1.0\r\nHost: 192.168.0.10\r\n\r\n".to_vec()
    );
}
