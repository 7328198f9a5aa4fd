//! Persistence gateway: the byte images that cross the storage boundary.
//!
//! The gateway never touches the filesystem itself; the embedding program
//! reads and writes files and hands the raw bytes across. On the way out,
//! `WriteToFile` assembles the exact 128-byte image that a flush must
//! store; on the way in, `ReadFromFile` validates what was read and either
//! accepts it, rejects it as corrupt, or — when no store exists yet —
//! produces the freshly defaulted record.

use crate::errors::StateError;
use crate::record::{zeroed_record, Buffer};
use crate::registry::RECORD_SIZE;
use vstd::prelude::*;

verus! {

/// Major version of the record format this crate writes and accepts.
pub const VERSION_MAJOR: u8 = 1;

/// Minor version of the record format this crate writes.
pub const VERSION_MINOR: u8 = 0;

/// Bugfix version of the record format this crate writes.
pub const VERSION_BUGFIX: u8 = 0;

/// The freshly defaulted record image: all zero bytes except the version
/// header (1.0.0 in bytes 0..3) and the endianness marker (byte 3, 0 for
/// little-endian).
pub open spec fn default_record() -> Seq<u8> {
    zeroed_record().update(0, VERSION_MAJOR)
}

/// A stored image is well-formed when it is exactly 128 bytes, carries the
/// supported major version, and is marked little-endian — the only byte
/// order this crate's codec implements, so the marker must be consulted
/// before any multi-byte field is interpreted.
pub open spec fn image_well_formed(s: Seq<u8>) -> bool {
    &&& s.len() == RECORD_SIZE
    &&& s[0] == VERSION_MAJOR
    &&& s[3] == 0
}

/// The freshly defaulted record is itself a well-formed stored image, so
/// the image flushed on a first run loads back verbatim afterwards.
pub proof fn lemma_default_record_well_formed()
    ensures
        image_well_formed(default_record()),
{
}

/// Relies on `binbin::write_vec_le` with `Writer::write` on a byte slice:
/// binbin packs a `&[u8]` by writing each byte in order (its `Pack`
/// implementation for slices), so the assembled vector holds exactly the
/// bytes of `data`. Writing into an in-memory vector does not fail.
#[verifier::external_body]
fn emit_image(data: &[u8]) -> (r: Vec<u8>)
    ensures
        r@ == data@,
{
    let mut buf = Vec::<u8>::new();
    binbin::write_vec_le(&mut buf, |w| {
        w.write(data)?;
        Ok(())
    }).expect("writing into an in-memory vector cannot fail");
    buf
}

/// Read-side of the persistence gateway: validates and decodes the byte
/// images that the embedding program reads from storage.
pub struct ReadFromFile {}

/// Write-side of the persistence gateway: produces the byte images that
/// the embedding program writes to storage.
pub struct WriteToFile {}

impl ReadFromFile {
    /// Decodes a stored image into a record buffer.
    ///
    /// Fails with `CorruptStore` exactly when the image is not a
    /// well-formed record: a length other than 128 bytes (a short read is
    /// an error, never zero-padded), an unsupported major version, or an
    /// endianness marker other than little-endian.
    pub fn decode(bytes: Vec<u8>) -> (r: Result<Buffer, StateError>)
        ensures
            match r {
                Ok(b) => image_well_formed(bytes@) && b.wf() && b@ == bytes@,
                Err(e) => e == StateError::CorruptStore && !image_well_formed(bytes@),
            },
    {
        if bytes.len() != RECORD_SIZE {
            return Err(StateError::CorruptStore);
        }
        if bytes[0] != VERSION_MAJOR || bytes[3] != 0 {
            return Err(StateError::CorruptStore);
        }
        match Buffer::from_bytes(bytes) {
            Ok(b) => Ok(b),
            Err(_) => {
                proof {
                    assert(false);
                }
                Err(StateError::CorruptStore)
            },
        }
    }

    /// The load path of the gateway. `stored` holds the bytes read from
    /// the storage location, or `None` when no store exists there yet.
    ///
    /// A missing store yields the freshly defaulted record, which the
    /// caller is expected to flush so the store exists from then on; a
    /// present store must be well-formed and is taken verbatim, and
    /// otherwise the load fails with `CorruptStore` — never with a
    /// partially repaired record.
    pub fn load(stored: Option<Vec<u8>>) -> (r: Result<Buffer, StateError>)
        ensures
            match r {
                Ok(b) => b.wf() && match stored {
                    Option::None => b@ == default_record(),
                    Option::Some(v) => image_well_formed(v@) && b@ == v@,
                },
                Err(e) => {
                    &&& e == StateError::CorruptStore
                    &&& stored matches Option::Some(v)
                    &&& !image_well_formed(v@)
                },
            },
    {
        match stored {
            Option::None => Ok(default_record_buffer()),
            Option::Some(bytes) => Self::decode(bytes),
        }
    }
}

impl WriteToFile {
    /// Encodes a record buffer as the exact 128-byte image a flush writes,
    /// assembled through the binary writer.
    pub fn encode(record: &Buffer) -> (r: Vec<u8>)
        requires
            record.wf(),
        ensures
            r@ == record@,
    {
        let snap = record.snapshot();
        emit_image(snap.as_slice())
    }
}

/// Builds the freshly defaulted record: zero bytes with the version header
/// set.
pub fn default_record_buffer() -> (r: Buffer)
    ensures
        r.wf(),
        r@ == default_record(),
{
    let mut b = Buffer::initialize_buffer();
    let mut header: Vec<u8> = Vec::new();
    header.push(VERSION_MAJOR);
    header.push(VERSION_MINOR);
    header.push(VERSION_BUGFIX);
    let r = b.write_range(0, 3, &header);
    proof {
        assert(r is Ok);
        assert(b@ =~= default_record());
    }
    b
}

} // verus!
