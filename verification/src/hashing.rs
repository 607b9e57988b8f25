//! SHA-256 digests (from the `sha2` crate) and lowercase hex encoding (from
//! the `hex` crate), and the two fingerprints built from them: blob names and
//! the chunking-configuration hash.

use sha2::{Digest, Sha256};
use vstd::prelude::*;

use crate::text::bytes_to_vec;

verus! {

/// Name for the SHA-256 digest of `data`, as `sha2::Sha256` computes it.
pub uninterp spec fn sha256(data: Seq<u8>) -> Seq<u8>;

/// Calls `sha2::Sha256::digest` on `data`. Claims that the result is the
/// SHA-256 digest of `data` (named `sha256`) and is 32 bytes long, the
/// output size that SHA-256 fixes.
#[verifier::external_body]
fn sha256_digest(data: &[u8]) -> (res: Vec<u8>)
    ensures
        res@ == sha256(data@),
        res@.len() == 32,
{
    Sha256::digest(data).to_vec()
}

/// The lowercase hexadecimal digit for `n < 16`.
pub open spec fn hex_digit(n: nat) -> char {
    if n < 10 {
        crate::text::digit_char(n)
    } else if n == 10 {
        'a'
    } else if n == 11 {
        'b'
    } else if n == 12 {
        'c'
    } else if n == 13 {
        'd'
    } else if n == 14 {
        'e'
    } else {
        'f'
    }
}

/// Lowercase hex encoding: each byte becomes two digits, high nibble first.
pub open spec fn hex_lower(data: Seq<u8>) -> Seq<char>
    decreases data.len(),
{
    if data.len() == 0 {
        Seq::empty()
    } else {
        hex_lower(data.drop_last()) + seq![
            hex_digit((data.last() / 16) as nat),
            hex_digit((data.last() % 16) as nat),
        ]
    }
}

/// A lowercase hexadecimal digit.
pub open spec fn is_lower_hex(c: char) -> bool {
    ('0' <= c <= '9') || ('a' <= c <= 'f')
}

/// Every character of a hex encoding is a lowercase hex digit.
pub proof fn lemma_hex_lower_digits(data: Seq<u8>)
    ensures
        forall|i: int| 0 <= i < hex_lower(data).len() ==> is_lower_hex(#[trigger] hex_lower(data)[i]),
    decreases data.len(),
{
    if data.len() > 0 {
        lemma_hex_lower_digits(data.drop_last());
        let a = hex_lower(data.drop_last());
        let hi = hex_digit((data.last() / 16) as nat);
        let lo = hex_digit((data.last() % 16) as nat);
        assert(is_lower_hex(hi) && is_lower_hex(lo));
        assert forall|i: int| 0 <= i < hex_lower(data).len() implies is_lower_hex(#[trigger] hex_lower(data)[i]) by {
            if i < a.len() {
                assert(hex_lower(data)[i] == a[i]);
            } else if i == a.len() {
                assert(hex_lower(data)[i] == hi);
            } else {
                assert(hex_lower(data)[i] == lo);
            }
        }
    }
}

/// The hex encoding is twice as long as its input.
pub proof fn lemma_hex_lower_len(data: Seq<u8>)
    ensures
        hex_lower(data).len() == 2 * data.len(),
    decreases data.len(),
{
    if data.len() > 0 {
        lemma_hex_lower_len(data.drop_last());
    }
}

/// Calls `hex::encode`. Claims what the `hex` crate documents and its source
/// shows: every byte becomes two lowercase hex digits, high nibble first.
#[verifier::external_body]
fn hex_encode(data: &[u8]) -> (res: String)
    ensures
        res@ == hex_lower(data@),
{
    hex::encode(data)
}

/// The name of a blob: the hex SHA-256 digest of the UTF-8 bytes of its path
/// followed by those of its content.
pub open spec fn blob_name(path: Seq<char>, content: Seq<char>) -> Seq<char> {
    hex_lower(sha256(vstd::utf8::encode_utf8(path) + vstd::utf8::encode_utf8(content)))
}

/// Computes the name of the blob with the given path and content.
pub fn calculate_blob_name(path: &str, content: &str) -> (res: String)
    ensures
        res@ == blob_name(path@, content@),
        res@.len() == 64,
        forall|i: int| 0 <= i < 64 ==> is_lower_hex(#[trigger] res@[i]),
{
    let mut data = bytes_to_vec(path.as_bytes());
    let tail = content.as_bytes();
    let n = tail.len();
    let mut i: usize = 0;
    while i < n
        invariant
            n == tail@.len(),
            i <= n,
            data@ == vstd::utf8::encode_utf8(path@) + tail@.take(i as int),
        decreases n - i,
    {
        data.push(tail[i]);
        i = i + 1;
        proof {
            assert(tail@.take(i as int) == tail@.take((i - 1) as int).push(tail@[i - 1]));
        }
    }
    assert(tail@.take(n as int) == tail@);
    let digest = sha256_digest(data.as_slice());
    proof {
        lemma_hex_lower_len(digest@);
        lemma_hex_lower_digits(digest@);
    }
    hex_encode(digest.as_slice())
}

/// The little-endian bytes of `n`, `k` of them.
pub open spec fn le_bytes(n: nat, k: nat) -> Seq<u8>
    decreases k,
{
    if k == 0 {
        Seq::empty()
    } else {
        seq![(n % 256) as u8] + le_bytes(n / 256, (k - 1) as nat)
    }
}

/// The memory representation of a `usize` in little-endian byte order (as `usize::to_le_bytes`).
pub open spec fn usize_le_bytes(n: usize) -> Seq<u8> {
    le_bytes(n as nat, (usize::BITS / 8) as nat)
}

fn le_bytes_exec(n: usize, k: u32) -> (res: Vec<u8>)
    ensures
        res@ == le_bytes(n as nat, k as nat),
    decreases k,
{
    if k == 0 {
        Vec::new()
    } else {
        let low: u8 = (n % 256) as u8;
        let rest = le_bytes_exec(n / 256, k - 1);
        let mut out: Vec<u8> = Vec::new();
        out.push(low);
        let m = rest.len();
        let mut i: usize = 0;
        while i < m
            invariant
                m == rest@.len(),
                i <= m,
                out@ == seq![low] + rest@.take(i as int),
            decreases m - i,
        {
            out.push(rest[i]);
            i = i + 1;
            proof {
                assert(rest@.take(i as int) == rest@.take((i - 1) as int).push(rest@[i - 1]));
            }
        }
        assert(rest@.take(m as int) == rest@);
        out
    }
}

/// Number of values `k` bytes can hold: 256 to the power `k`.
pub open spec fn byte_range(k: nat) -> nat
    decreases k,
{
    if k == 0 {
        1
    } else {
        256 * byte_range((k - 1) as nat)
    }
}

proof fn lemma_le_bytes_injective(a: nat, b: nat, k: nat)
    requires
        le_bytes(a, k) == le_bytes(b, k),
        a < byte_range(k),
        b < byte_range(k),
    ensures
        a == b,
    decreases k,
{
    if k > 0 {
        let j = (k - 1) as nat;
        let la = le_bytes(a, k);
        let lb = le_bytes(b, k);
        assert(la[0] == lb[0]);
        assert(la.drop_first() =~= le_bytes(a / 256, j));
        assert(lb.drop_first() =~= le_bytes(b / 256, j));
        assert(a / 256 < byte_range(j));
        assert(b / 256 < byte_range(j));
        lemma_le_bytes_injective(a / 256, b / 256, j);
    }
}

/// Different numbers of lines per blob give different fingerprint inputs,
/// so a change of that setting is seen as a change of configuration.
pub proof fn law_config_hash_input_distinct(a: usize, b: usize)
    requires
        a != b,
    ensures
        config_hash_input(a) != config_hash_input(b),
{
    let w = (usize::BITS / 8) as nat;
    assert(byte_range(4) == 0x1_0000_0000) by {
        reveal_with_fuel(byte_range, 5);
    }
    assert(byte_range(8) == 0x1_0000_0000_0000_0000) by {
        reveal_with_fuel(byte_range, 9);
    }
    assert(a < byte_range(w) && b < byte_range(w));
    if config_hash_input(a) == config_hash_input(b) {
        assert(usize_le_bytes(a) =~= config_hash_input(a).skip(3));
        assert(usize_le_bytes(b) =~= config_hash_input(b).skip(3));
        lemma_le_bytes_injective(a as nat, b as nat, w);
    }
}

/// The bytes fed to SHA-256 for the configuration fingerprint: the ASCII
/// bytes of `"v1:"` followed by the little-endian bytes of `max_lines_per_blob`.
pub open spec fn config_hash_input(max_lines_per_blob: usize) -> Seq<u8> {
    seq![0x76u8, 0x31u8, 0x3au8] + usize_le_bytes(max_lines_per_blob)
}

/// The configuration fingerprint: hex of the first 8 bytes of the digest.
pub open spec fn config_hash_of(max_lines_per_blob: usize) -> Seq<char> {
    hex_lower(sha256(config_hash_input(max_lines_per_blob)).take(8))
}

/// Computes the fingerprint of the configuration options that affect how
/// blobs are split and named (only `max_lines_per_blob` does).
pub fn calculate_config_hash(max_lines_per_blob: usize) -> (res: String)
    ensures
        res@ == config_hash_of(max_lines_per_blob),
        res@.len() == 16,
        forall|i: int| 0 <= i < 16 ==> is_lower_hex(#[trigger] res@[i]),
{
    let mut data: Vec<u8> = Vec::new();
    data.push(0x76u8);
    data.push(0x31u8);
    data.push(0x3au8);
    let width: u32 = usize::BITS / 8;
    let le = le_bytes_exec(max_lines_per_blob, width);
    let m = le.len();
    let mut i: usize = 0;
    while i < m
        invariant
            m == le@.len(),
            i <= m,
            data@ == seq![0x76u8, 0x31u8, 0x3au8] + le@.take(i as int),
        decreases m - i,
    {
        data.push(le[i]);
        i = i + 1;
        proof {
            assert(le@.take(i as int) == le@.take((i - 1) as int).push(le@[i - 1]));
        }
    }
    assert(le@.take(m as int) == le@);
    let digest = sha256_digest(data.as_slice());
    let mut prefix: Vec<u8> = Vec::new();
    let mut j: usize = 0;
    while j < 8
        invariant
            digest@.len() == 32,
            j <= 8,
            prefix@ == digest@.take(j as int),
        decreases 8 - j,
    {
        prefix.push(digest[j]);
        j = j + 1;
        proof {
            assert(digest@.take(j as int) == digest@.take((j - 1) as int).push(digest@[j - 1]));
        }
    }
    proof {
        lemma_hex_lower_len(prefix@);
        lemma_hex_lower_digits(prefix@);
    }
    hex_encode(prefix.as_slice())
}

} // verus!
