//! Finding which algorithm of the catalogue reproduces a recorded checksum.
//!
//! A recorded checksum carries no tag that says how it was computed, so every
//! algorithm is tried: the 64-bit ones first, then the 32-bit ones, each in
//! catalogue order. The first that gives the recorded value wins.

use vstd::prelude::*;
use crate::catalogue::{
    crc_32, crc_32_value, crc_64, crc_64_value, narrow_catalogue, wide_catalogue, Crc32Algorithm,
    Crc64Algorithm,
};

verus! {

/// How many bits a checksum algorithm produces.
#[derive(Clone, Copy, Debug, PartialEq, Eq, Structural)]
pub enum ChecksumWidth {
    Bits32,
    Bits64,
}

/// The algorithm that was found to reproduce a recorded checksum.
#[derive(Clone, Debug, PartialEq, Eq)]
pub struct ChecksumMatch {
    pub algorithm_name: String,
    pub width: ChecksumWidth,
}

impl View for ChecksumMatch {
    type V = (Seq<char>, ChecksumWidth);

    open spec fn view(&self) -> (Seq<char>, ChecksumWidth) {
        (self.algorithm_name@, self.width)
    }
}

/// A search result as plain values.
pub open spec fn match_view(found: Option<ChecksumMatch>) -> Option<(Seq<char>, ChecksumWidth)> {
    match found {
        Some(hit) => Some(hit@),
        None => None,
    }
}

/// A list of 64-bit digests with their names, as plain values.
pub open spec fn wide_view(listed: Seq<(u64, String)>) -> Seq<(u64, Seq<char>)> {
    Seq::new(listed.len(), |i: int| (listed[i].0, listed[i].1@))
}

/// A list of 32-bit digests with their names, as plain values.
pub open spec fn narrow_view(listed: Seq<(u32, String)>) -> Seq<(u32, Seq<char>)> {
    Seq::new(listed.len(), |i: int| (listed[i].0, listed[i].1@))
}

/// The digest at position `k` when the wide list is followed by the narrow
/// one. A narrow digest is widened by zero-extension; the target is never
/// cut down to 32 bits.
pub open spec fn listed_digest(
    wide: Seq<(u64, Seq<char>)>,
    narrow: Seq<(u32, Seq<char>)>,
    k: int,
) -> u64 {
    if k < wide.len() {
        wide[k].0
    } else {
        narrow[k - wide.len()].0 as u64
    }
}

/// The name and width at position `k` when the wide list is followed by the
/// narrow one.
pub open spec fn listed_entry(
    wide: Seq<(u64, Seq<char>)>,
    narrow: Seq<(u32, Seq<char>)>,
    k: int,
) -> (Seq<char>, ChecksumWidth) {
    if k < wide.len() {
        (wide[k].1, ChecksumWidth::Bits64)
    } else {
        (narrow[k - wide.len()].1, ChecksumWidth::Bits32)
    }
}

/// Position `k` holds the target.
pub open spec fn hits(
    wide: Seq<(u64, Seq<char>)>,
    narrow: Seq<(u32, Seq<char>)>,
    target: u64,
    k: int,
) -> bool {
    0 <= k < wide.len() + narrow.len() && listed_digest(wide, narrow, k) == target
}

/// Position `k` holds the target and no earlier position does.
pub open spec fn is_first_hit(
    wide: Seq<(u64, Seq<char>)>,
    narrow: Seq<(u32, Seq<char>)>,
    target: u64,
    k: int,
) -> bool {
    hits(wide, narrow, target, k) && forall|j: int| 0 <= j < k ==> !hits(wide, narrow, target, j)
}

/// The name and width at the first position that holds the target, if any
/// position does.
pub open spec fn first_listed(
    wide: Seq<(u64, Seq<char>)>,
    narrow: Seq<(u32, Seq<char>)>,
    target: u64,
) -> Option<(Seq<char>, ChecksumWidth)> {
    if exists|k: int| is_first_hit(wide, narrow, target, k) {
        Some(listed_entry(wide, narrow, choose|k: int| is_first_hit(wide, narrow, target, k)))
    } else {
        None
    }
}

/// At most one position is the first hit.
pub proof fn lemma_first_hit_unique(
    wide: Seq<(u64, Seq<char>)>,
    narrow: Seq<(u32, Seq<char>)>,
    target: u64,
    a: int,
    b: int,
)
    requires
        is_first_hit(wide, narrow, target, a),
        is_first_hit(wide, narrow, target, b),
    ensures
        a == b,
{
}

/// Where some position holds the target, a first one does, and it is not
/// later.
pub proof fn lemma_first_hit_exists(
    wide: Seq<(u64, Seq<char>)>,
    narrow: Seq<(u32, Seq<char>)>,
    target: u64,
    k: int,
) -> (first: int)
    requires
        hits(wide, narrow, target, k),
    ensures
        0 <= first <= k,
        is_first_hit(wide, narrow, target, first),
    decreases k,
{
    if exists|j: int| 0 <= j < k && hits(wide, narrow, target, j) {
        let j = choose|j: int| 0 <= j < k && hits(wide, narrow, target, j);
        lemma_first_hit_exists(wide, narrow, target, j)
    } else {
        k
    }
}

/// The first entry of the two lists whose digest equals `target`: the wide
/// list is searched before the narrow one, each from its start.
pub fn first_match(
    wide: &[(u64, String)],
    narrow: &[(u32, String)],
    target: u64,
) -> (found: Option<ChecksumMatch>)
    ensures
        match_view(found) == first_listed(wide_view(wide@), narrow_view(narrow@), target),
{
    let ghost w = wide_view(wide@);
    let ghost n = narrow_view(narrow@);
    let mut i: usize = 0;
    while i < wide.len()
        invariant
            i <= wide@.len(),
            w == wide_view(wide@),
            n == narrow_view(narrow@),
            forall|j: int| 0 <= j < i ==> !hits(w, n, target, j),
        decreases wide@.len() - i,
    {
        if wide[i].0 == target {
            proof {
                assert(is_first_hit(w, n, target, i as int));
                let chosen = choose|k: int| is_first_hit(w, n, target, k);
                lemma_first_hit_unique(w, n, target, chosen, i as int);
            }
            return Some(
                ChecksumMatch { algorithm_name: wide[i].1.clone(), width: ChecksumWidth::Bits64 },
            );
        }
        i += 1;
    }
    let mut i: usize = 0;
    while i < narrow.len()
        invariant
            i <= narrow@.len(),
            w == wide_view(wide@),
            n == narrow_view(narrow@),
            forall|j: int| 0 <= j < wide@.len() + i ==> !hits(w, n, target, j),
        decreases narrow@.len() - i,
    {
        if narrow[i].0 as u64 == target {
            proof {
                let k = wide@.len() + i;
                assert(is_first_hit(w, n, target, k));
                let chosen = choose|k: int| is_first_hit(w, n, target, k);
                lemma_first_hit_unique(w, n, target, chosen, k);
            }
            return Some(
                ChecksumMatch { algorithm_name: narrow[i].1.clone(), width: ChecksumWidth::Bits32 },
            );
        }
        i += 1;
    }
    None
}

/// The checksum of `data` under every 64-bit algorithm of the catalogue, in
/// catalogue order, each with the algorithm's name.
pub open spec fn wide_digests(data: Seq<u8>) -> Seq<(u64, Seq<char>)> {
    Seq::new(
        wide_catalogue().len(),
        |i: int| (crc_64_value(wide_catalogue()[i], data), wide_catalogue()[i].spec_name()),
    )
}

/// The checksum of `data` under every 32-bit algorithm of the catalogue, in
/// catalogue order, each with the algorithm's name.
pub open spec fn narrow_digests(data: Seq<u8>) -> Seq<(u32, Seq<char>)> {
    Seq::new(
        narrow_catalogue().len(),
        |i: int| (crc_32_value(narrow_catalogue()[i], data), narrow_catalogue()[i].spec_name()),
    )
}

/// The first algorithm of the catalogue, wide ones before narrow ones, whose
/// checksum of `data` is `target`; none where no algorithm gives it.
pub open spec fn resolved(data: Seq<u8>, target: u64) -> Option<(Seq<char>, ChecksumWidth)> {
    first_listed(wide_digests(data), narrow_digests(data), target)
}

/// Searches the catalogue for an algorithm whose checksum of `buffer` is
/// `target`, and reports the first one found.
///
/// That no algorithm gives the target is an ordinary outcome, not a failure.
pub fn resolve(buffer: &[u8], target: u64) -> (found: Option<ChecksumMatch>)
    ensures
        match_view(found) == resolved(buffer@, target),
{
    let wide = crc_64(buffer);
    let narrow = crc_32(buffer);
    assert(wide_view(wide@) =~= wide_digests(buffer@));
    assert(narrow_view(narrow@) =~= narrow_digests(buffer@));
    first_match(wide.as_slice(), narrow.as_slice(), target)
}

/// The number of algorithms in the catalogue, both widths together.
pub open spec fn catalogue_len() -> nat {
    wide_catalogue().len() + narrow_catalogue().len()
}

/// The checksum of `data` under the algorithm at position `k` of the whole
/// catalogue, wide algorithms first, as a 64-bit value.
pub open spec fn catalogue_digest(data: Seq<u8>, k: int) -> u64 {
    listed_digest(wide_digests(data), narrow_digests(data), k)
}

/// The name and width of the algorithm at position `k` of the whole
/// catalogue, wide algorithms first.
pub open spec fn catalogue_entry(k: int) -> (Seq<char>, ChecksumWidth) {
    if k < wide_catalogue().len() {
        (wide_catalogue()[k].spec_name(), ChecksumWidth::Bits64)
    } else {
        (narrow_catalogue()[k - wide_catalogue().len()].spec_name(), ChecksumWidth::Bits32)
    }
}

/// The position of a 64-bit algorithm in the whole catalogue.
pub open spec fn wide_position(algorithm: Crc64Algorithm) -> int {
    match algorithm {
        Crc64Algorithm::Ecma182 => 0,
        Crc64Algorithm::GoIso => 1,
        Crc64Algorithm::Ms => 2,
        Crc64Algorithm::Redis => 3,
        Crc64Algorithm::We => 4,
        Crc64Algorithm::Xz => 5,
    }
}

/// The position of a 32-bit algorithm in the whole catalogue, where the
/// 32-bit algorithms follow the 64-bit ones.
pub open spec fn narrow_position(algorithm: Crc32Algorithm) -> int {
    wide_catalogue().len() + match algorithm {
        Crc32Algorithm::Aixm => 0int,
        Crc32Algorithm::Autosar => 1,
        Crc32Algorithm::Base91D => 2,
        Crc32Algorithm::Bzip2 => 3,
        Crc32Algorithm::CdRomEdc => 4,
        Crc32Algorithm::Cksum => 5,
        Crc32Algorithm::Iscsi => 6,
        Crc32Algorithm::IsoHdlc => 7,
        Crc32Algorithm::Jamcrc => 8,
        Crc32Algorithm::Mef => 9,
        Crc32Algorithm::Mpeg2 => 10,
        Crc32Algorithm::Xfer => 11,
    }
}

/// Resolving the checksum that the algorithm at position `k` gives for a
/// buffer finds the algorithm at some position `p` that is not later and
/// gives the same checksum, and no algorithm before `p` gives it.
pub proof fn lemma_resolve_finds_position(data: Seq<u8>, k: int) -> (p: int)
    requires
        0 <= k < catalogue_len(),
    ensures
        0 <= p <= k,
        catalogue_digest(data, p) == catalogue_digest(data, k),
        forall|j: int| 0 <= j < p ==> catalogue_digest(data, j) != catalogue_digest(data, k),
        resolved(data, catalogue_digest(data, k)) == Some(catalogue_entry(p)),
{
    let wide = wide_digests(data);
    let narrow = narrow_digests(data);
    let target = catalogue_digest(data, k);
    let p = lemma_first_hit_exists(wide, narrow, target, k);
    let chosen = choose|i: int| is_first_hit(wide, narrow, target, i);
    lemma_first_hit_unique(wide, narrow, target, chosen, p);
    assert forall|j: int| 0 <= j < p implies catalogue_digest(data, j) != target by {
        assert(!hits(wide, narrow, target, j));
    }
    p
}

/// Resolving the checksum that a 64-bit algorithm of the catalogue gives for
/// a buffer always finds a match: that very algorithm, or a 64-bit algorithm
/// earlier in the catalogue that gives the same checksum for the buffer.
pub proof fn lemma_resolve_finds_wide(data: Seq<u8>, algorithm: Crc64Algorithm) -> (p: int)
    ensures
        0 <= p <= wide_position(algorithm),
        wide_catalogue()[wide_position(algorithm)] == algorithm,
        crc_64_value(wide_catalogue()[p], data) == crc_64_value(algorithm, data),
        resolved(data, crc_64_value(algorithm, data)) == Some(
            (wide_catalogue()[p].spec_name(), ChecksumWidth::Bits64),
        ),
{
    lemma_resolve_finds_position(data, wide_position(algorithm))
}

/// Resolving the zero-extended checksum that a 32-bit algorithm of the
/// catalogue gives for a buffer always finds a match: that very algorithm, or
/// an algorithm earlier in the catalogue, of either width, that gives the
/// same value for the buffer.
pub proof fn lemma_resolve_finds_narrow(data: Seq<u8>, algorithm: Crc32Algorithm) -> (p: int)
    ensures
        0 <= p <= narrow_position(algorithm),
        catalogue_digest(data, p) == crc_32_value(algorithm, data) as u64,
        resolved(data, crc_32_value(algorithm, data) as u64) == Some(catalogue_entry(p)),
        catalogue_entry(narrow_position(algorithm)) == (
            algorithm.spec_name(),
            ChecksumWidth::Bits32,
        ),
{
    lemma_resolve_finds_position(data, narrow_position(algorithm))
}

/// Resolving finds no match exactly when no algorithm of the catalogue gives
/// the target for the buffer.
pub proof fn lemma_resolve_none_iff_unproducible(data: Seq<u8>, target: u64)
    ensures
        resolved(data, target) is None <==> forall|k: int|
            0 <= k < catalogue_len() ==> catalogue_digest(data, k) != target,
{
    let wide = wide_digests(data);
    let narrow = narrow_digests(data);
    if resolved(data, target) is None {
        assert forall|k: int| 0 <= k < catalogue_len() implies catalogue_digest(data, k)
            != target by {
            if catalogue_digest(data, k) == target {
                lemma_first_hit_exists(wide, narrow, target, k);
            }
        }
    } else {
        let p = choose|i: int| is_first_hit(wide, narrow, target, i);
        assert(catalogue_digest(data, p) == target);
    }
}

} // verus!
