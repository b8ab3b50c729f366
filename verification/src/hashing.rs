//! SHA-256 content hashes of session records, in lowercase hex.

use vstd::bytes::{spec_u64_to_le_bytes, u64_to_le_bytes};
use vstd::prelude::*;
use vstd::utf8::encode_utf8;

verus! {

/// The byte that separates the fields of a hashed record: `|`.
pub const FIELD_SEPARATOR: u8 = 0x7c;

/// The SHA-256 digest of `data`, as the sha2 crate's `Sha256::digest` computes it.
pub uninterp spec fn sha256(data: Seq<u8>) -> Seq<u8>;

/// The lowercase hex digit for a value below sixteen.
pub open spec fn hex_digit(nibble: int) -> char {
    seq!['0', '1', '2', '3', '4', '5', '6', '7', '8', '9', 'a', 'b', 'c', 'd', 'e', 'f'][nibble]
}

/// Lowercase hex text of `bytes`: two digits a byte, the high half first.
pub open spec fn hex_lower(bytes: Seq<u8>) -> Seq<char> {
    Seq::new(
        2 * bytes.len(),
        |i: int|
            if i % 2 == 0 {
                hex_digit(bytes[i / 2] as int / 16)
            } else {
                hex_digit(bytes[i / 2] as int % 16)
            },
    )
}

/// The bytes that are hashed for one session: the four texts in UTF-8 and the
/// three counts as eight little-endian bytes each, separated by `|`, then `|`
/// and the prior hash where there is one.
pub open spec fn session_preimage(
    process_name: Seq<char>,
    window_title: Seq<char>,
    start_time: Seq<char>,
    end_time: Seq<char>,
    keystrokes: u64,
    clicks: u64,
    scrolls: u64,
    prev_hash: Option<Seq<char>>,
) -> Seq<u8> {
    let bar = seq![FIELD_SEPARATOR];
    let head = encode_utf8(process_name) + bar + encode_utf8(window_title) + bar + encode_utf8(
        start_time,
    ) + bar + encode_utf8(end_time) + bar + spec_u64_to_le_bytes(keystrokes) + bar
        + spec_u64_to_le_bytes(clicks) + bar + spec_u64_to_le_bytes(scrolls);
    match prev_hash {
        Some(prev) => head + bar + encode_utf8(prev),
        None => head,
    }
}

/// The content hash of one session: hex of the SHA-256 of its preimage.
pub open spec fn session_hash(
    process_name: Seq<char>,
    window_title: Seq<char>,
    start_time: Seq<char>,
    end_time: Seq<char>,
    keystrokes: u64,
    clicks: u64,
    scrolls: u64,
    prev_hash: Option<Seq<char>>,
) -> Seq<char> {
    hex_lower(
        sha256(
            session_preimage(
                process_name,
                window_title,
                start_time,
                end_time,
                keystrokes,
                clicks,
                scrolls,
                prev_hash,
            ),
        ),
    )
}

/// Calls sha2's `Sha256::digest`. The result is the digest named by `sha256`,
/// which is always 32 bytes long.
#[verifier::external_body]
pub(crate) fn sha256_digest(data: &[u8]) -> (digest: Vec<u8>)
    ensures
        digest@ == sha256(data@),
        digest@.len() == 32,
{
    <sha2::Sha256 as sha2::Digest>::digest(data).to_vec()
}

/// Calls the hex crate's `encode`, which writes two lowercase digits for each
/// byte, the high half first.
#[verifier::external_body]
pub(crate) fn hex_encode(bytes: &[u8]) -> (text: String)
    ensures
        text@ == hex_lower(bytes@),
{
    hex::encode(bytes)
}

/// Appends `bytes` to `buf`.
pub(crate) fn append_bytes(buf: &mut Vec<u8>, bytes: &[u8])
    ensures
        final(buf)@ == old(buf)@ + bytes@,
{
    let mut i: usize = 0;
    while i < bytes.len()
        invariant
            i <= bytes@.len(),
            buf@ == old(buf)@ + bytes@.take(i as int),
        decreases bytes@.len() - i,
    {
        buf.push(bytes[i]);
        i += 1;
        assert(bytes@.take(i as int) == bytes@.take(i - 1).push(bytes@[i - 1]));
    }
    assert(bytes@.take(i as int) == bytes@);
}

/// Lowercase hex of the SHA-256 digest of `data`.
pub fn sha256_hex(data: &[u8]) -> (text: String)
    ensures
        text@ == hex_lower(sha256(data@)),
        text@.len() == 64,
{
    let digest = sha256_digest(data);
    hex_encode(digest.as_slice())
}

/// Computes the content hash of a session from its fields and, where there is
/// one, the hash of the session persisted before it.
pub fn hash_session_data(
    process_name: &str,
    window_title: &str,
    start_time: &str,
    end_time: &str,
    keystrokes: u64,
    clicks: u64,
    scrolls: u64,
    prev_hash: Option<&str>,
) -> (hash: String)
    ensures
        hash@ == session_hash(
            process_name@,
            window_title@,
            start_time@,
            end_time@,
            keystrokes,
            clicks,
            scrolls,
            match prev_hash {
                Some(p) => Some(p@),
                None => None,
            },
        ),
        hash@.len() == 64,
{
    let mut buf: Vec<u8> = Vec::new();
    append_bytes(&mut buf, process_name.as_bytes());
    buf.push(FIELD_SEPARATOR);
    append_bytes(&mut buf, window_title.as_bytes());
    buf.push(FIELD_SEPARATOR);
    append_bytes(&mut buf, start_time.as_bytes());
    buf.push(FIELD_SEPARATOR);
    append_bytes(&mut buf, end_time.as_bytes());
    buf.push(FIELD_SEPARATOR);
    let keys = u64_to_le_bytes(keystrokes);
    append_bytes(&mut buf, keys.as_slice());
    buf.push(FIELD_SEPARATOR);
    let clicks_le = u64_to_le_bytes(clicks);
    append_bytes(&mut buf, clicks_le.as_slice());
    buf.push(FIELD_SEPARATOR);
    let scrolls_le = u64_to_le_bytes(scrolls);
    append_bytes(&mut buf, scrolls_le.as_slice());
    if let Some(prev) = prev_hash {
        buf.push(FIELD_SEPARATOR);
        append_bytes(&mut buf, prev.as_bytes());
    }
    proof {
        let spec_prev = match prev_hash {
            Some(p) => Some(p@),
            None => None,
        };
        assert(buf@ =~= session_preimage(
            process_name@,
            window_title@,
            start_time@,
            end_time@,
            keystrokes,
            clicks,
            scrolls,
            spec_prev,
        ));
    }
    sha256_hex(buf.as_slice())
}

/// The content hash is a function of the hashed fields: equal fields give
/// equal hashes.
pub proof fn lemma_session_hash_deterministic(
    process_a: Seq<char>,
    title_a: Seq<char>,
    start_a: Seq<char>,
    end_a: Seq<char>,
    keys_a: u64,
    clicks_a: u64,
    scrolls_a: u64,
    prev_a: Option<Seq<char>>,
    process_b: Seq<char>,
    title_b: Seq<char>,
    start_b: Seq<char>,
    end_b: Seq<char>,
    keys_b: u64,
    clicks_b: u64,
    scrolls_b: u64,
    prev_b: Option<Seq<char>>,
)
    requires
        process_a == process_b,
        title_a == title_b,
        start_a == start_b,
        end_a == end_b,
        keys_a == keys_b,
        clicks_a == clicks_b,
        scrolls_a == scrolls_b,
        prev_a == prev_b,
    ensures
        session_hash(process_a, title_a, start_a, end_a, keys_a, clicks_a, scrolls_a, prev_a)
            == session_hash(
            process_b,
            title_b,
            start_b,
            end_b,
            keys_b,
            clicks_b,
            scrolls_b,
            prev_b,
        ),
{
}

} // verus!
