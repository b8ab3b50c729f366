//! Binary Merkle root over an ordered list of session hashes.
//!
//! A parent is the hash of the hex texts of its two children, written one
//! after the other; a level of odd length pairs its last node with itself.

use crate::hashing::{append_bytes, hex_lower, sha256, sha256_hex};
use vstd::prelude::*;
use vstd::utf8::encode_utf8;

verus! {

/// The parent of two nodes: hex of the SHA-256 of the left text followed by
/// the right text.
pub open spec fn pair_hash(left: Seq<char>, right: Seq<char>) -> Seq<char> {
    hex_lower(sha256(encode_utf8(left) + encode_utf8(right)))
}

/// The level above `level`: adjacent nodes paired, the last one with itself
/// where the level has odd length.
pub open spec fn next_level(level: Seq<Seq<char>>) -> Seq<Seq<char>> {
    Seq::new(
        ((level.len() + 1) / 2) as nat,
        |i: int|
            if 2 * i + 1 < level.len() {
                pair_hash(level[2 * i], level[2 * i + 1])
            } else {
                pair_hash(level[2 * i], level[2 * i])
            },
    )
}

/// The single node that is left when `level`, which is not empty, is paired
/// up again and again.
pub open spec fn reduce_level(level: Seq<Seq<char>>) -> Seq<char>
    decreases level.len(),
{
    if level.len() <= 1 {
        level[0]
    } else {
        reduce_level(next_level(level))
    }
}

/// The Merkle root of `hashes`, and nothing for an empty list.
pub open spec fn merkle_root(hashes: Seq<Seq<char>>) -> Option<Seq<char>> {
    if hashes.len() == 0 {
        None
    } else {
        Some(reduce_level(hashes))
    }
}

/// Whether `expected` is the root of `hashes`; an empty list has the empty
/// text for its root.
pub open spec fn root_matches(hashes: Seq<Seq<char>>, expected: Seq<char>) -> bool {
    match merkle_root(hashes) {
        Some(root) => root == expected,
        None => expected.len() == 0,
    }
}

/// The texts of a list of strings.
pub open spec fn texts(strings: Seq<String>) -> Seq<Seq<char>> {
    Seq::new(strings.len(), |i: int| strings[i]@)
}

/// Hashes two nodes into their parent.
pub fn hash_pair(left: &str, right: &str) -> (parent: String)
    ensures
        parent@ == pair_hash(left@, right@),
        parent@.len() == 64,
{
    let mut buf: Vec<u8> = Vec::new();
    append_bytes(&mut buf, left.as_bytes());
    append_bytes(&mut buf, right.as_bytes());
    assert(buf@ =~= encode_utf8(left@) + encode_utf8(right@));
    sha256_hex(buf.as_slice())
}

/// Pairs up one level into the level above it.
fn pair_up(level: &Vec<String>) -> (above: Vec<String>)
    ensures
        texts(above@) == next_level(texts(level@)),
        above@.len() == (level@.len() + 1) / 2,
        forall|j: int| 0 <= j < above@.len() ==> (#[trigger] above@[j])@.len() == 64,
{
    let mut above: Vec<String> = Vec::new();
    let mut i: usize = 0;
    let n: usize = level.len();
    while i < n
        invariant
            n == level@.len(),
            i <= n,
            i % 2 == 0 || i == n,
            above@.len() == (i + 1) / 2,
            forall|j: int|
                0 <= j < above@.len() ==> (#[trigger] above@[j])@ == next_level(
                    texts(level@),
                )[j],
            forall|j: int| 0 <= j < above@.len() ==> (#[trigger] above@[j])@.len() == 64,
        decreases n - i,
    {
        if n - i >= 2 {
            let parent = hash_pair(level[i].as_str(), level[i + 1].as_str());
            above.push(parent);
            i += 2;
        } else {
            let parent = hash_pair(level[i].as_str(), level[i].as_str());
            above.push(parent);
            i += 1;
        }
    }
    assert(texts(above@) =~= next_level(texts(level@)));
    above
}

/// Builds the Merkle root of `hashes`, kept in their order; `None` for an
/// empty list, the hash itself for a list of one. The root of two or more
/// hashes is a digest in hex, 64 characters long.
pub fn build_merkle_root(hashes: &[String]) -> (root: Option<String>)
    ensures
        match root {
            Some(r) => merkle_root(texts(hashes@)) == Some(r@),
            None => merkle_root(texts(hashes@)) is None,
        },
        root is Some <==> hashes@.len() > 0,
        hashes@.len() == 1 ==> (root matches Some(r) && r@ == hashes@[0]@),
        hashes@.len() >= 2 ==> (root matches Some(r) && r@.len() == 64),
{
    if hashes.len() == 0 {
        return None;
    }
    let mut level: Vec<String> = Vec::new();
    let mut k: usize = 0;
    while k < hashes.len()
        invariant
            k <= hashes@.len(),
            level@.len() == k,
            forall|j: int| 0 <= j < k ==> (#[trigger] level@[j])@ == hashes@[j]@,
        decreases hashes@.len() - k,
    {
        level.push(hashes[k].clone());
        k += 1;
    }
    assert(texts(level@) =~= texts(hashes@));
    let ghost paired = false;
    while level.len() > 1
        invariant
            level@.len() >= 1,
            reduce_level(texts(level@)) == reduce_level(texts(hashes@)),
            !paired ==> texts(level@) == texts(hashes@),
            paired ==> forall|j: int| 0 <= j < level@.len() ==> (#[trigger] level@[j])@.len() == 64,
        decreases level@.len(),
    {
        proof {
            assert(texts(level@).len() == level@.len());
            paired = true;
        }
        level = pair_up(&level);
    }
    proof {
        assert(texts(level@).len() == level@.len());
        assert(texts(hashes@).len() == hashes@.len());
        if !paired {
            assert(texts(level@)[0] == level@[0]@);
            assert(texts(hashes@)[0] == hashes@[0]@);
        }
    }
    Some(level[0].clone())
}

/// Tells whether `hashes` produce `expected_root`. An empty list matches the
/// empty text only.
pub fn verify_merkle_root(hashes: &[String], expected_root: &str) -> (ok: bool)
    ensures
        ok == root_matches(texts(hashes@), expected_root@),
{
    match build_merkle_root(hashes) {
        Some(computed) => {
            let expected: String = expected_root.to_owned();
            computed == expected
        },
        None => expected_root.is_empty(),
    }
}

/// The root of a single hash is that hash.
pub proof fn lemma_merkle_root_singleton(hash: Seq<char>)
    ensures
        merkle_root(seq![hash]) == Some(hash),
{
}

/// The root is a function of the list: equal lists have equal roots.
pub proof fn lemma_merkle_root_deterministic(a: Seq<Seq<char>>, b: Seq<Seq<char>>)
    requires
        a == b,
    ensures
        merkle_root(a) == merkle_root(b),
{
}

/// A list always matches the root computed from it, and the empty list
/// matches the empty text.
pub proof fn lemma_root_matches_itself(hashes: Seq<Seq<char>>)
    ensures
        match merkle_root(hashes) {
            Some(root) => root_matches(hashes, root),
            None => root_matches(hashes, Seq::<char>::empty()),
        },
{
}

/// Two hashes have the hash of their pair for a root.
pub proof fn lemma_merkle_root_pair(left: Seq<char>, right: Seq<char>)
    ensures
        merkle_root(seq![left, right]) == Some(pair_hash(left, right)),
{
    let level = seq![left, right];
    assert(next_level(level) =~= seq![pair_hash(left, right)]);
    assert(reduce_level(level) == reduce_level(next_level(level)));
}

/// A record of one day's commitment: the root over the day's session hashes,
/// the root of the day before it, and a signature over both and the date.
#[derive(Debug)]
pub struct DailyIntegrity {
    pub date: String,
    pub merkle_root: String,
    pub prev_day_root: Option<String>,
    pub session_count: u32,
    pub signature: String,
}

impl Clone for DailyIntegrity {
    fn clone(&self) -> (copy: Self)
        ensures
            copy == *self,
    {
        DailyIntegrity {
            date: self.date.clone(),
            merkle_root: self.merkle_root.clone(),
            prev_day_root: match &self.prev_day_root {
                Some(root) => Some(root.clone()),
                None => None,
            },
            session_count: self.session_count,
            signature: self.signature.clone(),
        }
    }
}

} // verus!
