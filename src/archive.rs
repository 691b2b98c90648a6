//! The content-addressed archiver: places a file at `{directory}/{name}`,
//! verifying byte-exact integrity by size and content checksum.
//!
//! The decisions are made here; the filesystem work (creating the directory,
//! copying, hashing with two workers, removing the source) is done by the
//! caller between them. `archive_outcome` is the whole procedure over a model
//! of the filesystem, built from the same decisions.
use vstd::prelude::*;
use crate::checksum::content_checksum;
use crate::error::ARPAError;
use crate::text::join3;

verus! {

/// The canonical location of a file.
pub open spec fn destination_of(directory: Seq<char>, name: Seq<char>) -> Seq<char> {
    directory + "/"@ + name
}

/// What to do first.
#[derive(Debug)]
pub enum ArchiveStep {
    /// The file is at its destination already: nothing is done and the
    /// sentinel checksum 0 is returned.
    InPlace,
    /// Create the directory, then see whether the destination exists.
    Place { destination: String },
}

/// Decides the first step of archiving `source` as `{directory}/{name}`.
pub fn plan_archive(source: &str, directory: &str, name: &str) -> (r: ArchiveStep)
    ensures
        source@ == destination_of(directory@, name@) <==> r is InPlace,
        r matches ArchiveStep::Place { destination } ==> destination@ == destination_of(
            directory@,
            name@,
        ),
{
    let destination = join3(directory, "/", name);
    if crate::text::same_text(source, destination.as_str()) {
        ArchiveStep::InPlace
    } else {
        ArchiveStep::Place { destination }
    }
}

/// An existing destination of another size is left alone (and reported with
/// the sentinel checksum 0); one of the same size is compared by checksum.
pub fn sizes_match(src_size: u64, dst_size: u64) -> (r: bool)
    ensures
        r == (src_size == dst_size),
{
    src_size == dst_size
}

/// The checksum returned for an existing destination of the same size.
pub open spec fn existing_checksum(src_checksum: u128, dst_checksum: u128) -> u128 {
    src_checksum
}

/// The sentinel checksum returned when nothing is placed.
pub open spec fn sentinel() -> u128 {
    0
}

/// The outcome for an existing destination of the same size, given both
/// checksums: the source's checksum, and whether the source is a verified
/// duplicate that the caller may remove. A mismatch is no error.
pub fn existing_outcome(src_checksum: u128, dst_checksum: u128) -> (r: (u128, bool))
    ensures
        r.0 == existing_checksum(src_checksum, dst_checksum),
        r.1 == (src_checksum == dst_checksum),
{
    (src_checksum, src_checksum == dst_checksum)
}

/// A verified fresh copy.
#[derive(Debug, Clone, Copy, PartialEq, Eq, Structural)]
pub struct Placed {
    /// The checksum of the placed file.
    pub checksum: u128,
    /// Whether the source is to be removed (move semantics).
    pub remove_source: bool,
}

/// Whether a fresh copy verifies: equal checksums and equal sizes.
pub open spec fn copy_verifies(src_checksum: u128, dst_checksum: u128, src_size: u64, dst_size: u64) -> bool {
    src_checksum == dst_checksum && src_size == dst_size
}

/// The result of a fresh copy that verifies.
pub open spec fn placed_of(checksum: u128, move_files: bool) -> Placed {
    Placed { checksum, remove_source: move_files }
}

/// Checks a fresh copy. Any mismatch is a fatal integrity error carrying all
/// four values; the source is removed only after verified equality.
pub fn verify_copy(
    src_checksum: u128,
    dst_checksum: u128,
    src_size: u64,
    dst_size: u64,
    move_files: bool,
) -> (r: Result<Placed, ARPAError>)
    ensures
        copy_verifies(src_checksum, dst_checksum, src_size, dst_size) ==> r == Ok::<Placed, ARPAError>(
            placed_of(src_checksum, move_files),
        ),
        !copy_verifies(src_checksum, dst_checksum, src_size, dst_size) ==> (r matches Err(
            ARPAError::FileCopy(a, b, c, d),
        ) && a == src_checksum && b == dst_checksum && c == src_size && d == dst_size),
{
    if src_checksum != dst_checksum || src_size != dst_size {
        return Err(ARPAError::FileCopy(src_checksum, dst_checksum, src_size, dst_size));
    }
    Ok(Placed { checksum: src_checksum, remove_source: move_files })
}

/// A filesystem: the content of each file by path.
pub type Files = Map<Seq<char>, Seq<u8>>;

/// The outcome of archiving over a model of the filesystem, where copies are
/// exact: the returned checksum (`None` for an integrity error), the files
/// afterwards, and the source's path afterwards.
///
/// It is built from the decisions' own terms: `destination_of` of
/// `plan_archive`, the size test of `sizes_match`, `existing_checksum` of
/// `existing_outcome`, and `copy_verifies` and `placed_of` of `verify_copy`.
pub open spec fn archive_outcome(
    files: Files,
    source: Seq<char>,
    directory: Seq<char>,
    name: Seq<char>,
    move_files: bool,
) -> (Option<u128>, Files, Seq<char>) {
    let dest = destination_of(directory, name);
    let src = files[source];
    if source == dest {
        (Some(sentinel()), files, source)
    } else if files.contains_key(dest) {
        let dst = files[dest];
        if src.len() != dst.len() {
            (Some(sentinel()), files, source)
        } else {
            (Some(existing_checksum(content_checksum(src), content_checksum(dst))), files, source)
        }
    } else {
        let copied = files.insert(dest, src);
        if copy_verifies(content_checksum(src), content_checksum(copied[dest]), src.len() as u64, copied[dest].len() as u64) {
            let placed = placed_of(content_checksum(src), move_files);
            let after = if placed.remove_source { copied.remove(source) } else { copied };
            (Some(placed.checksum), after, dest)
        } else {
            (None, copied, source)
        }
    }
}

/// Idempotence: with copy semantics, archiving the same source to the same
/// destination twice succeeds both times with the same checksum.
pub proof fn lemma_archive_twice(files: Files, source: Seq<char>, directory: Seq<char>, name: Seq<char>)
    requires
        files.contains_key(source),
    ensures
        ({
            let first = archive_outcome(files, source, directory, name, false);
            let second = archive_outcome(first.1, source, directory, name, false);
            first.0 is Some && second.0 == first.0
        }),
{
    let first = archive_outcome(files, source, directory, name, false);
    let dest = destination_of(directory, name);
    if source != dest && !files.contains_key(dest) {
        assert(first.1 == files.insert(dest, files[source]));
        assert(first.1[source] == files[source]);
        assert(first.1[dest] == files[source]);
    }
}

/// Moving a file to a free destination places a file of equal size and
/// checksum there and removes the source.
pub proof fn lemma_move_to_free_destination(files: Files, source: Seq<char>, directory: Seq<char>, name: Seq<char>)
    requires
        files.contains_key(source),
        !files.contains_key(destination_of(directory, name)),
    ensures
        ({
            let dest = destination_of(directory, name);
            let out = archive_outcome(files, source, directory, name, true);
            &&& out.0 == Some(content_checksum(files[source]))
            &&& out.1.contains_key(dest)
            &&& out.1[dest].len() == files[source].len()
            &&& content_checksum(out.1[dest]) == content_checksum(files[source])
            &&& !out.1.contains_key(source)
            &&& out.2 == dest
        }),
{
    let dest = destination_of(directory, name);
    assert(source != dest);
}

/// A destination that already holds a byte-identical copy is not copied over:
/// the files stay as they are and the shared checksum is returned.
pub proof fn lemma_identical_destination(
    files: Files,
    source: Seq<char>,
    directory: Seq<char>,
    name: Seq<char>,
    move_files: bool,
)
    requires
        files.contains_key(source),
        source != destination_of(directory, name),
        files.contains_key(destination_of(directory, name)),
        files[destination_of(directory, name)] == files[source],
    ensures
        ({
            let out = archive_outcome(files, source, directory, name, move_files);
            &&& out.0 == Some(content_checksum(files[source]))
            &&& out.1 == files
            &&& out.2 == source
        }),
{
}

} // verus!
