//! Metadata of snapshot files.
//!
//! When a replica packages a snapshot, every file of the checkpoint is
//! recorded with its name relative to the snapshot's data area, its size
//! and its checksum. Reading the checkpoint from disk happens outside;
//! this module computes the record for the bytes that were read.

use vstd::prelude::*;
use crate::text::str_eq;

verus! {

/// The name of a snapshot's data area: the checkpoint file or directory.
pub const SNAP_DATA: &'static str = "DATA";

/// One file of a snapshot: its name relative to the snapshot directory,
/// its checksum and its size.
#[derive(Debug)]
pub struct SnapshotFile {
    pub name: String,
    pub crc32: u32,
    pub size: u64,
}

/// The CRC-32 checksum of a byte sequence.
pub uninterp spec fn crc32_of(data: Seq<u8>) -> u32;

/// Relies on `crc32fast::hash`: the CRC-32 checksum of the bytes, a pure
/// function of its input.
#[verifier::external_body]
fn crc32(data: &[u8]) -> (r: u32)
    ensures
        r == crc32_of(data@),
{
    crc32fast::hash(data)
}

/// The recorded name of a checkpoint file: the data area itself keeps
/// its name, a file inside it is prefixed with the area's name.
pub open spec fn spec_snapshot_file_name(file_name: Seq<char>) -> Seq<char> {
    if file_name == "DATA"@ {
        "DATA"@
    } else {
        "DATA/"@ + file_name
    }
}

/// Records one checkpoint file: its relative name, its size, and the
/// checksum of its content.
pub fn snapshot_file_meta(file_name: &str, data: &Vec<u8>) -> (r: SnapshotFile)
    ensures
        r.name@ == spec_snapshot_file_name(file_name@),
        r.size == data@.len(),
        r.crc32 == crc32_of(data@),
{
    let name = if str_eq(file_name, SNAP_DATA) {
        String::from_str(SNAP_DATA)
    } else {
        let mut joined = String::from_str("DATA/");
        joined.append(file_name);
        joined
    };
    let crc32 = crc32(data.as_slice());
    SnapshotFile { name, crc32, size: data.len() as u64 }
}

} // verus!
