use std::collections::HashMap;

use argos_arpa::archive::{existing_outcome, plan_archive, sizes_match, verify_copy, ArchiveStep, Placed};
use argos_arpa::checksum::{big_endian, ContentHasher};
use argos_arpa::ARPAError;

fn checksum(bytes: &[u8], block: usize) -> u128 {
    let mut h = ContentHasher::new();
    for chunk in bytes.chunks(block) {
        h.update(chunk);
    }
    h.finish()
}

/// Archives within an in-memory filesystem, taking every decision from the
/// library, as the program around it does on disk.
fn archive(
    files: &mut HashMap<String, Vec<u8>>,
    source: &mut String,
    directory: &str,
    name: &str,
    move_files: bool,
    copies: &mut usize,
) -> Result<u128, ARPAError> {
    let destination = match plan_archive(source, directory, name) {
        ArchiveStep::InPlace => return Ok(0),
        ArchiveStep::Place { destination } => destination,
    };
    let src = files.get(source.as_str()).cloned().ok_or(ARPAError::MissingFileOrDirectory(source.clone()))?;
    if let Some(dst) = files.get(&destination) {
        if !sizes_match(src.len() as u64, dst.len() as u64) {
            return Ok(0);
        }
        let (c, _duplicate) = existing_outcome(checksum(&src, 4), checksum(dst, 4));
        return Ok(c);
    }
    files.insert(destination.clone(), src.clone());
    *copies += 1;
    let dst = files[&destination].clone();
    let placed = verify_copy(checksum(&src, 4), checksum(&dst, 4), src.len() as u64, dst.len() as u64, move_files)?;
    if placed.remove_source {
        files.remove(source.as_str());
    }
    *source = destination;
    Ok(placed.checksum)
}

#[test]
fn checksum_of_known_content() {
    assert_eq!(checksum(b"abc", 2), 0x900150983cd24fb0d6963f7d28e17f72);
    assert_eq!(checksum(b"", 2), 0xd41d8cd98f00b204e9800998ecf8427e);
    let data: Vec<u8> = (0..10_000u32).map(|i| (i % 251) as u8).collect();
    assert_eq!(checksum(&data, 7), checksum(&data, 4096));
}

#[test]
fn big_endian_fold() {
    assert_eq!(big_endian(&vec![0x01, 0x02]), 0x0102);
    assert_eq!(big_endian(&vec![]), 0);
    assert_eq!(big_endian(&vec![0xff; 16]), u128::MAX);
}

#[test]
fn archiving_twice_gives_the_same_checksum() {
    let mut files = HashMap::new();
    files.insert("/in/obs.ar".to_string(), b"raw bytes of an observation".to_vec());
    let mut copies = 0;
    let mut first_source = "/in/obs.ar".to_string();
    let first = archive(&mut files, &mut first_source, "/store/J0437", "obs.ar", false, &mut copies).unwrap();
    let mut second_source = "/in/obs.ar".to_string();
    let second = archive(&mut files, &mut second_source, "/store/J0437", "obs.ar", false, &mut copies).unwrap();
    assert_eq!(first, second);
    assert_eq!(first, checksum(b"raw bytes of an observation", 64));
    assert_eq!(copies, 1);
}

#[test]
fn moving_to_an_empty_directory() {
    let content = vec![7u8; 1000];
    let mut files = HashMap::new();
    files.insert("/in/obs.ar".to_string(), content.clone());
    let mut copies = 0;
    let mut source = "/in/obs.ar".to_string();
    let c = archive(&mut files, &mut source, "/store/J0437", "obs.ar", true, &mut copies).unwrap();
    assert_eq!(source, "/store/J0437/obs.ar");
    assert!(!files.contains_key("/in/obs.ar"));
    assert_eq!(files["/store/J0437/obs.ar"].len(), 1000);
    assert_eq!(c, checksum(&content, 3));
    assert_eq!(checksum(&files["/store/J0437/obs.ar"], 3), c);
}

#[test]
fn identical_destination_is_not_copied_again() {
    let content = b"same bytes".to_vec();
    let mut files = HashMap::new();
    files.insert("/in/obs.ar".to_string(), content.clone());
    files.insert("/store/obs.ar".to_string(), content.clone());
    let mut copies = 0;
    let mut source = "/in/obs.ar".to_string();
    let c = archive(&mut files, &mut source, "/store", "obs.ar", true, &mut copies).unwrap();
    assert_eq!(copies, 0);
    assert_eq!(c, checksum(&content, 5));
    assert!(files.contains_key("/in/obs.ar"));
    assert_eq!(source, "/in/obs.ar");
}

#[test]
fn destination_of_another_size_is_left_alone() {
    let mut files = HashMap::new();
    files.insert("/in/obs.ar".to_string(), vec![1, 2, 3]);
    files.insert("/store/obs.ar".to_string(), vec![1, 2]);
    let mut copies = 0;
    let mut source = "/in/obs.ar".to_string();
    assert_eq!(archive(&mut files, &mut source, "/store", "obs.ar", false, &mut copies).unwrap(), 0);
    assert_eq!(files["/store/obs.ar"], vec![1, 2]);
}

#[test]
fn file_in_place_returns_the_sentinel() {
    assert!(matches!(plan_archive("/store/obs.ar", "/store", "obs.ar"), ArchiveStep::InPlace));
    match plan_archive("/in/obs.ar", "/store", "obs.ar") {
        ArchiveStep::Place { destination } => assert_eq!(destination, "/store/obs.ar"),
        other => panic!("unexpected {other:?}"),
    }
}

#[test]
fn copy_mismatch_is_an_integrity_error() {
    assert!(matches!(verify_copy(1, 2, 10, 10, false), Err(ARPAError::FileCopy(1, 2, 10, 10))));
    assert!(matches!(verify_copy(1, 1, 10, 11, true), Err(ARPAError::FileCopy(1, 1, 10, 11))));
    assert_eq!(verify_copy(5, 5, 10, 10, true).unwrap(), Placed { checksum: 5, remove_source: true });
    assert_eq!(existing_outcome(3, 4), (3, false));
    assert_eq!(existing_outcome(3, 3), (3, true));
}
