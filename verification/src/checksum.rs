//! Streamed SHA-256 checksum computation with progress events, and the hex
//! encoding and comparison of digests.
use vstd::prelude::*;

use sha2::Digest;

use crate::progress::InstallState;
use crate::strutil::eq_ignore_case_spec;
use crate::strutil::str_eq_ignore_case;

verus! {

#[verifier::external_type_specification]
#[verifier::external_body]
pub struct ExSha256(sha2::Sha256);

/// The stream of bytes fed into an incremental SHA-256 hasher so far.
pub uninterp spec fn sha256_fed(h: sha2::Sha256) -> Seq<u8>;

/// The SHA-256 digest (32 bytes) of a byte stream.
pub uninterp spec fn sha256_of(bytes: Seq<u8>) -> Seq<u8>;

/// Relies on sha2's Digest::new: a fresh hasher, with no data fed yet.
#[verifier::external_body]
fn sha256_new() -> (h: sha2::Sha256)
    ensures
        sha256_fed(h) == Seq::<u8>::empty(),
{
    sha2::Sha256::new()
}

/// Relies on sha2's Digest::update: appends the data to the hashed stream.
#[verifier::external_body]
fn sha256_update(h: &mut sha2::Sha256, data: &[u8])
    ensures
        sha256_fed(*final(h)) == sha256_fed(*old(h)) + data@,
{
    h.update(data);
}

/// Relies on sha2's Digest::finalize: the 32-byte SHA-256 digest of the
/// whole fed stream, a function of those bytes alone.
#[verifier::external_body]
fn sha256_finalize(h: sha2::Sha256) -> (r: Vec<u8>)
    ensures
        r@ == sha256_of(sha256_fed(h)),
        r@.len() == 32,
{
    h.finalize().to_vec()
}

/// One lowercase hexadecimal digit.
pub open spec fn hex_digit(n: int) -> char {
    if n == 0 {
        '0'
    } else if n == 1 {
        '1'
    } else if n == 2 {
        '2'
    } else if n == 3 {
        '3'
    } else if n == 4 {
        '4'
    } else if n == 5 {
        '5'
    } else if n == 6 {
        '6'
    } else if n == 7 {
        '7'
    } else if n == 8 {
        '8'
    } else if n == 9 {
        '9'
    } else if n == 10 {
        'a'
    } else if n == 11 {
        'b'
    } else if n == 12 {
        'c'
    } else if n == 13 {
        'd'
    } else if n == 14 {
        'e'
    } else {
        'f'
    }
}

/// Lowercase hex encoding: two digits per byte, high nibble first.
pub open spec fn hex_of(bytes: Seq<u8>) -> Seq<char> {
    Seq::new(
        bytes.len() * 2,
        |i: int|
            if i % 2 == 0 {
                hex_digit(bytes[i / 2] as int / 16)
            } else {
                hex_digit(bytes[i / 2] as int % 16)
            },
    )
}

/// Relies on data_encoding::HEXLOWER.encode: each input byte becomes two
/// lowercase hexadecimal digits, high nibble first.
#[verifier::external_body]
pub(crate) fn hex_lower(bytes: &Vec<u8>) -> (r: String)
    ensures
        r@ == hex_of(bytes@),
{
    data_encoding::HEXLOWER.encode(bytes.as_slice())
}

/// An incremental checksum of a stream read in chunks, with the running byte
/// count that drives progress reporting.
pub struct Sha256Stream {
    inner: sha2::Sha256,
    bytes_read: u64,
}

impl Sha256Stream {
    /// The bytes fed so far.
    pub closed spec fn fed(self) -> Seq<u8> {
        sha256_fed(self.inner)
    }

    /// The byte counter agrees with the fed stream.
    pub closed spec fn wf(self) -> bool {
        self.bytes_read == self.fed().len()
    }

    pub closed spec fn bytes_read(self) -> u64 {
        self.bytes_read
    }

    pub fn new() -> (s: Sha256Stream)
        ensures
            s.wf(),
            s.fed() == Seq::<u8>::empty(),
    {
        Sha256Stream { inner: sha256_new(), bytes_read: 0 }
    }

    /// Feeds one chunk, returning the progress event to report.
    pub fn update(&mut self, chunk: &[u8]) -> (ev: InstallState)
        requires
            old(self).wf(),
            old(self).fed().len() + chunk@.len() <= u64::MAX,
        ensures
            final(self).wf(),
            final(self).fed() == old(self).fed() + chunk@,
            ev == (InstallState::Verifying { bytes_read: final(self).bytes_read() }),
    {
        sha256_update(&mut self.inner, chunk);
        self.bytes_read = self.bytes_read + chunk.len() as u64;
        InstallState::Verifying { bytes_read: self.bytes_read }
    }

    /// Finishes the stream: the 32-byte digest of everything fed.
    pub fn finalize(self) -> (r: Vec<u8>)
        ensures
            r@ == sha256_of(self.fed()),
            r@.len() == 32,
    {
        sha256_finalize(self.inner)
    }

    /// Finishes the stream and renders the digest in lowercase hex.
    pub fn finalize_hex(self) -> (r: String)
        ensures
            r@ == hex_of(sha256_of(self.fed())),
    {
        let digest = self.finalize();
        hex_lower(&digest)
    }
}

/// Size of the chunks in which files are streamed through the hasher.
pub const CHECKSUM_CHUNK_SIZE: u64 = 65536;

/// One per-chunk progress event for each chunk boundary from `pos` up to
/// `total`, each carrying the cumulative bytes read.
pub open spec fn chunk_events_from(pos: nat, total: nat) -> Seq<InstallState>
    decreases total - pos,
{
    if pos >= total {
        Seq::empty()
    } else {
        let next = if pos + CHECKSUM_CHUNK_SIZE <= total {
            (pos + CHECKSUM_CHUNK_SIZE) as nat
        } else {
            total
        };
        seq![InstallState::Verifying { bytes_read: next as u64 }] + chunk_events_from(next, total)
    }
}

/// The ordered progress events of checksumming `total` bytes: begin, one
/// report per chunk with the cumulative bytes read, end.
pub open spec fn checksum_events(total: nat) -> Seq<InstallState> {
    seq![InstallState::VerifyingBegin { asset_size: total as u64 }] + chunk_events_from(0, total)
        + seq![InstallState::VerifyingFinish]
}

/// Checksum progress is complete: for a nonempty stream, the last per-chunk
/// event before the end event reports exactly the total announced at the
/// beginning.
pub proof fn lemma_checksum_progress_completes(total: nat)
    requires
        0 < total <= u64::MAX,
    ensures
        chunk_events_from(0, total).len() > 0,
        chunk_events_from(0, total).last() == (InstallState::Verifying { bytes_read: total as u64 }),
{
    lemma_chunk_events_last(0, total);
}

proof fn lemma_chunk_events_last(pos: nat, total: nat)
    requires
        pos < total <= u64::MAX,
    ensures
        chunk_events_from(pos, total).len() > 0,
        chunk_events_from(pos, total).last() == (InstallState::Verifying {
            bytes_read: total as u64,
        }),
    decreases total - pos,
{
    let next = if pos + CHECKSUM_CHUNK_SIZE <= total {
        (pos + CHECKSUM_CHUNK_SIZE) as nat
    } else {
        total
    };
    if next < total {
        lemma_chunk_events_last(next, total);
    } else {
        assert(chunk_events_from(next, total) =~= Seq::<InstallState>::empty());
    }
}

/// Scans a whole in-memory stream in fixed-size chunks through the
/// incremental hasher and returns its SHA-256 digest, appending the begin,
/// per-chunk, and end progress events in order.
pub fn calculate_checksum(data: &[u8], events: &mut Vec<InstallState>) -> (r: Vec<u8>)
    requires
        data@.len() <= u64::MAX,
    ensures
        r@ == sha256_of(data@),
        r@.len() == 32,
        final(events)@ == old(events)@ + checksum_events(data@.len()),
{
    let len: usize = data.len();
    events.push(InstallState::VerifyingBegin { asset_size: len as u64 });
    let mut stream = Sha256Stream::new();
    let mut i: usize = 0;
    let ghost total = data@.len();
    while i < len
        invariant
            i <= len,
            len == total,
            total == data@.len(),
            total <= u64::MAX,
            stream.wf(),
            stream.fed() == data@.take(i as int),
            events@ + chunk_events_from(i as nat, total) == old(events)@ + seq![
                InstallState::VerifyingBegin { asset_size: total as u64 },
            ] + chunk_events_from(0, total),
        decreases len - i,
    {
        let end: usize = if len - i > 65536 {
            i + 65536
        } else {
            len
        };
        let ghost pre_events = events@;
        let chunk = vstd::slice::slice_subrange(data, i, end);
        let ev = stream.update(chunk);
        events.push(ev);
        proof {
            assert(stream.fed() =~= data@.take(end as int));
            assert(chunk_events_from(i as nat, total) == seq![ev] + chunk_events_from(
                end as nat,
                total,
            ));
            assert((pre_events + seq![ev]) + chunk_events_from(end as nat, total) =~= pre_events
                + chunk_events_from(i as nat, total));
        }
        i = end;
    }
    proof {
        assert(data@.take(len as int) =~= data@);
        assert(events@ + chunk_events_from(len as nat, total) =~= events@);
    }
    events.push(InstallState::VerifyingFinish);
    proof {
        assert(events@ =~= old(events)@ + checksum_events(total));
    }
    stream.finalize()
}

/// Whether a computed digest matches the expected one, compared
/// case-insensitively as hex strings.
pub fn checksums_match(actual_hex: &str, expected_hex: &str) -> (r: bool)
    ensures
        r == eq_ignore_case_spec(actual_hex@, expected_hex@),
{
    str_eq_ignore_case(actual_hex, expected_hex)
}

} // verus!
