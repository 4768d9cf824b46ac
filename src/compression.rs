//! Gzip compression of cached payloads, and whether it is worth doing.
use vstd::prelude::*;

verus! {

/// Bytes looked at to judge data.
pub const SAMPLE_LEN: usize = 1024;

/// Number of byte values below `k` that occur in `s`.
pub open spec fn distinct_below(s: Seq<u8>, k: int) -> int
    decreases k,
{
    if k <= 0 {
        0
    } else {
        distinct_below(s, k - 1) + if s.contains((k - 1) as u8) {
            1int
        } else {
            0int
        }
    }
}

/// Data of at least 1024 bytes whose first 1024 bytes take fewer than 100
/// distinct values: text-like and likely to compress well.
pub open spec fn worth_compressing(data: Seq<u8>) -> bool {
    data.len() >= SAMPLE_LEN && distinct_below(data.subrange(0, SAMPLE_LEN as int), 256) < 100
}

pub fn should_compress(data: &[u8]) -> (r: bool)
    ensures
        r == worth_compressing(data@),
{
    if data.len() < SAMPLE_LEN {
        return false;
    }
    let ghost sample = data@.subrange(0, SAMPLE_LEN as int);
    let mut seen: Vec<bool> = Vec::new();
    let mut v: usize = 0;
    while v < 256
        invariant
            v <= 256,
            seen@.len() == v,
            forall|k: int| 0 <= k < v ==> !#[trigger] seen@[k],
        decreases 256 - v,
    {
        seen.push(false);
        v = v + 1;
    }
    let mut i: usize = 0;
    while i < SAMPLE_LEN
        invariant
            i <= SAMPLE_LEN,
            data@.len() >= SAMPLE_LEN,
            sample == data@.subrange(0, SAMPLE_LEN as int),
            seen@.len() == 256,
            forall|k: int| 0 <= k < 256 ==> #[trigger] seen@[k] == sample.subrange(0, i as int).contains(k as u8),
        decreases SAMPLE_LEN - i,
    {
        let b = data[i];
        assert(sample[i as int] == b);
        seen.set(b as usize, true);
        assert forall|k: int| 0 <= k < 256 implies #[trigger] seen@[k] == sample.subrange(0, i + 1).contains(k as u8) by {
            let pre = sample.subrange(0, i as int);
            let post = sample.subrange(0, i + 1);
            assert(post == pre.push(b));
            if pre.contains(k as u8) {
                let j = choose|j: int| 0 <= j < pre.len() && pre[j] == k as u8;
                assert(post[j] == k as u8);
            }
            if post.contains(k as u8) && !pre.contains(k as u8) {
                let j = choose|j: int| 0 <= j < post.len() && post[j] == k as u8;
                if j < pre.len() {
                    assert(pre[j] == k as u8);
                }
            }
            if k == b as int {
                assert(post[i as int] == b);
            }
        }
        i = i + 1;
    }
    assert(sample.subrange(0, SAMPLE_LEN as int) == sample);
    let mut unique: usize = 0;
    let mut k: usize = 0;
    while k < 256
        invariant
            k <= 256,
            seen@.len() == 256,
            forall|j: int| 0 <= j < 256 ==> #[trigger] seen@[j] == sample.contains(j as u8),
            unique as int == distinct_below(sample, k as int),
            unique <= k,
        decreases 256 - k,
    {
        if seen[k] {
            unique = unique + 1;
        }
        k = k + 1;
    }
    unique < 100
}

/// The gzip stream that flate2 writes for the bytes at the default level.
pub uninterp spec fn gzip_of(data: Seq<u8>) -> Seq<u8>;

/// The bytes a gzip stream decodes to, or none when it is not valid gzip.
pub uninterp spec fn gunzip_of(data: Seq<u8>) -> Option<Seq<u8>>;

/// Relies on flate2::write::GzEncoder (default level, a header without
/// time stamp or OS): the stream depends on the bytes alone. None when the
/// encoder reports an I/O error.
#[verifier::external_body]
fn gzip(data: &[u8]) -> (r: Option<Vec<u8>>)
    ensures
        match r {
            Some(c) => c@ == gzip_of(data@),
            None => true,
        },
{
    let mut encoder = flate2::write::GzEncoder::new(Vec::new(), flate2::Compression::default());
    match std::io::Write::write_all(&mut encoder, data) {
        Ok(()) => {},
        Err(_) => return None,
    }
    match encoder.finish() {
        Ok(v) => Some(v),
        Err(_) => None,
    }
}

/// Relies on flate2::write::GzDecoder: the decoded bytes, or an error for a
/// stream that is not valid gzip.
#[verifier::external_body]
fn gunzip(data: &[u8]) -> (r: Option<Vec<u8>>)
    ensures
        match r {
            Some(v) => gunzip_of(data@) == Some(v@),
            None => gunzip_of(data@) is None,
        },
{
    let mut decoder = flate2::write::GzDecoder::new(Vec::new());
    match std::io::Write::write_all(&mut decoder, data) {
        Ok(()) => {},
        Err(_) => return None,
    }
    match decoder.finish() {
        Ok(v) => Some(v),
        Err(_) => None,
    }
}

/// Gzip-compresses a payload.
pub fn compress_data(data: &[u8]) -> (r: Result<Vec<u8>, String>)
    ensures
        match r {
            Ok(c) => c@ == gzip_of(data@),
            Err(_) => true,
        },
{
    match gzip(data) {
        Some(c) => Ok(c),
        None => Err(String::from_str("Failed to finish compression")),
    }
}

/// Decompresses a gzip payload; an error when it is not valid gzip.
pub fn decompress_data(data: &[u8]) -> (r: Result<Vec<u8>, String>)
    ensures
        match r {
            Ok(v) => gunzip_of(data@) == Some(v@),
            Err(_) => gunzip_of(data@) is None,
        },
{
    match gunzip(data) {
        Some(v) => Ok(v),
        None => Err(String::from_str("Failed to finish decompression")),
    }
}

} // verus!
