//! Per-client connection policy: clients whose `User-Agent` marks them as
//! unable to handle an unbounded stream get a hard cap on the number of
//! encoded chunks; everyone else streams without bound.

use vstd::prelude::*;

verus! {

/// Chunk cap applied to limited clients, so that what they fetch still looks
/// like a complete animation.
pub const LIMITED_CLIENT_CHUNK_CAP: u64 = 10;

/// The `User-Agent` marker of the one client family known to mishandle
/// unbounded streams: the bytes of "Discordbot".
pub open spec fn limited_client_marker() -> Seq<u8> {
    seq![68u8, 105u8, 115u8, 99u8, 111u8, 114u8, 100u8, 98u8, 111u8, 116u8]
}

/// `needle` occurs in `hay` starting at position `i`.
pub open spec fn matches_at(hay: Seq<u8>, needle: Seq<u8>, i: int) -> bool {
    0 <= i && i + needle.len() <= hay.len() && hay.subrange(i, i + needle.len()) == needle
}

/// `needle` occurs somewhere in `hay`.
pub open spec fn contains_seq(hay: Seq<u8>, needle: Seq<u8>) -> bool {
    exists|i: int| matches_at(hay, needle, i)
}

/// A client is limited exactly when its `User-Agent` contains the marker.
pub open spec fn spec_is_limited_client(agent: Seq<u8>) -> bool {
    contains_seq(agent, limited_client_marker())
}

/// The marker as a byte vector.
fn limited_marker_bytes() -> (v: Vec<u8>)
    ensures
        v@ == limited_client_marker(),
{
    let mut v: Vec<u8> = Vec::new();
    v.push(68);
    v.push(105);
    v.push(115);
    v.push(99);
    v.push(111);
    v.push(114);
    v.push(100);
    v.push(98);
    v.push(111);
    v.push(116);
    proof {
        assert(v@ =~= limited_client_marker());
    }
    v
}

/// Whether `needle` occurs in `hay` starting exactly at `i`.
fn matches_at_exec(hay: &[u8], needle: &[u8], i: usize) -> (r: bool)
    requires
        i + needle@.len() <= hay@.len(),
    ensures
        r == matches_at(hay@, needle@, i as int),
{
    let n = needle.len();
    let hlen = hay.len();
    let mut j: usize = 0;
    while j < n
        invariant
            j <= n,
            n == needle@.len(),
            hlen == hay@.len(),
            i + n <= hlen,
            forall|k: int| 0 <= k < j ==> hay@[i + k] == needle@[k],
        decreases n - j,
    {
        if hay[i + j] != needle[j] {
            proof {
                assert(hay@.subrange(i as int, i + n as int)[j as int] == hay@[i + j]);
            }
            return false;
        }
        j += 1;
    }
    proof {
        assert(hay@.subrange(i as int, i + n as int) =~= needle@);
    }
    true
}

/// Whether `needle` occurs anywhere in `hay`.
fn contains_bytes(hay: &[u8], needle: &[u8]) -> (r: bool)
    ensures
        r == contains_seq(hay@, needle@),
{
    let n = needle.len();
    let h = hay.len();
    if n == 0 {
        proof {
            assert(hay@.subrange(0, 0) =~= needle@);
            assert(matches_at(hay@, needle@, 0));
        }
        return true;
    }
    if n > h {
        proof {
            assert(forall|i: int| !matches_at(hay@, needle@, i));
        }
        return false;
    }
    let mut i: usize = 0;
    while i <= h - n
        invariant
            1 <= n <= h,
            n == needle@.len(),
            h == hay@.len(),
            i <= h - n + 1,
            forall|j: int| 0 <= j < i ==> !matches_at(hay@, needle@, j),
        decreases h - i,
    {
        if matches_at_exec(hay, needle, i) {
            return true;
        }
        i += 1;
    }
    proof {
        assert(forall|j: int| matches_at(hay@, needle@, j) ==> 0 <= j <= h - n);
    }
    false
}

/// Whether the request's declared client identity marks it as a client that
/// cannot handle an unbounded stream.
pub fn is_limited_client(agent: &[u8]) -> (r: bool)
    ensures
        r == spec_is_limited_client(agent@),
{
    let marker = limited_marker_bytes();
    contains_bytes(agent, marker.as_slice())
}

/// The chunk cap for a connection, decided from its `User-Agent` bytes:
/// limited clients get exactly [`LIMITED_CLIENT_CHUNK_CAP`] chunks, all
/// other clients stream without bound.
pub fn chunk_cap_for(agent: &[u8]) -> (r: Option<u64>)
    ensures
        spec_is_limited_client(agent@) ==> r == Some(LIMITED_CLIENT_CHUNK_CAP),
        !spec_is_limited_client(agent@) ==> r is None,
{
    if is_limited_client(agent) {
        Some(LIMITED_CLIENT_CHUNK_CAP)
    } else {
        None
    }
}

/// The media type every response declares.
pub fn content_type() -> (r: &'static str)
    ensures
        r@ == "image/gif"@,
{
    "image/gif"
}

} // verus!
