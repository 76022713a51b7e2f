use uds_fd::frame::{decode_header, encode_entry, MARKER};
use uds_fd::metadata::{AttrSnapshot, FileMetadata, FileType};
use uds_fd::receiver::{take_descriptor, RxAction, RxEvent, RxState};

fn snapshot(is_file: bool, is_dir: bool, mode: u32, len: u64) -> AttrSnapshot {
    AttrSnapshot {
        is_file,
        is_dir,
        is_symlink: false,
        mode,
        len,
        modified_time: Some(1),
        created_time: None,
    }
}

/// Sends each entry through framing and the receiving machine, with `content`
/// the bytes behind each descriptor; returns the kinds dispatched, whether
/// each had a descriptor, and the bytes counted.
fn transfer(entries: &[(FileMetadata, Option<i32>)], content: &[(i32, usize)]) -> (Vec<(u64, bool)>, usize) {
    let mut state = RxState::start();
    let mut seen = Vec::new();
    let mut total = 0usize;
    for (meta, fd) in entries {
        let primary = meta.size.to_be_bytes().to_vec();
        let frame = encode_entry(primary.clone()).ok().unwrap();
        let fds: Vec<i32> = fd.iter().copied().collect();
        let (held, extra) = take_descriptor(fds);
        assert!(extra.is_empty());
        let (s, a) = state.step(RxEvent::HeaderRead { buf: frame.header, n: 6, fd: held });
        let (l1, l2) = match a {
            RxAction::ReadPayload { len_primary, len_secondary } => (len_primary, len_secondary),
            other => panic!("{:?}", other),
        };
        assert_eq!(l1 as usize, primary.len());
        assert_eq!(frame.secondary, MARKER.as_bytes().to_vec());
        let (s, a) = s.step(RxEvent::PayloadRead { n: (l1 + l2) as usize });
        match a {
            RxAction::Dispatch { fd } => {
                let size = u64::from_be_bytes(frame.primary[..8].try_into().unwrap());
                if let Some(fd) = fd {
                    total += content.iter().find(|c| c.0 == fd).unwrap().1;
                }
                seen.push((size, fd.is_some()));
            }
            other => panic!("{:?}", other),
        }
        state = s;
    }
    let (s, a) = state.step(RxEvent::HeaderRead { buf: [0; 6], n: 0, fd: None });
    assert_eq!((s, a), (RxState::Closed, RxAction::Finish));
    (seen, total)
}

#[test]
fn file_and_subdirectory() {
    let file = FileMetadata::new("d/a.txt", &snapshot(true, false, 0o100644, 10)).unwrap();
    let dir = FileMetadata::new("d/sub", &snapshot(false, true, 0o040755, 4096)).unwrap();
    assert_eq!(file.file_type, FileType::RegularFile);
    assert_eq!(file.size, 10);
    assert!(file.carries_descriptor());
    assert_eq!(dir.file_type, FileType::Directory);
    assert!(!dir.carries_descriptor());
    let (seen, total) = transfer(&[(file, Some(21)), (dir, None)], &[(21, 10)]);
    assert_eq!(seen, vec![(10, true), (4096, false)]);
    assert_eq!(total, 10);
}

#[test]
fn descriptor_adds_its_bytes() {
    let file = FileMetadata::new("k.bin", &snapshot(true, false, 0o100644, 5)).unwrap();
    let (seen, total) = transfer(&[(file, Some(3))], &[(3, 5)]);
    assert_eq!(seen, vec![(5, true)]);
    assert_eq!(total, 5);
}

#[test]
fn no_descriptor_leaves_count() {
    let dir = FileMetadata::new("d", &snapshot(false, true, 0o040755, 0)).unwrap();
    let (seen, total) = transfer(&[(dir, None)], &[]);
    assert_eq!(seen, vec![(0, false)]);
    assert_eq!(total, 0);
}

#[test]
fn many_messages_keep_order() {
    let entries: Vec<(FileMetadata, Option<i32>)> = (0..50u64)
        .map(|i| {
            let m = FileMetadata::new("f", &snapshot(true, false, 0o100644, i)).unwrap();
            (m, if i % 2 == 0 { Some(i as i32 + 100) } else { None })
        })
        .collect();
    let content: Vec<(i32, usize)> = (0..50).map(|i| (i + 100, i as usize)).collect();
    let (seen, total) = transfer(&entries, &content);
    let want: Vec<(u64, bool)> = (0..50u64).map(|i| (i, i % 2 == 0)).collect();
    assert_eq!(seen, want);
    assert_eq!(total, (0..50).filter(|i| i % 2 == 0).sum::<usize>());
    assert_eq!(decode_header(&[0; 6], 0), Ok(None));
}
