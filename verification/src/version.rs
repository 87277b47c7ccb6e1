use vstd::prelude::*;
use vstd::utf8::*;
use crate::text::lemma_same_bytes_same_text;

verus! {

/// The lexicographic order on byte strings: the first byte that differs
/// decides, and where none does, the shorter string comes first.
pub open spec fn bytes_le(a: Seq<u8>, b: Seq<u8>) -> bool
    decreases a.len(),
{
    if a.len() == 0 {
        true
    } else if b.len() == 0 {
        false
    } else if a[0] != b[0] {
        a[0] < b[0]
    } else {
        bytes_le(a.drop_first(), b.drop_first())
    }
}

/// The order in which versions are ranked: that of the bytes of their UTF-8
/// encoding. A version is a token without inner structure, so "2022.3.9f1"
/// ranks above "2022.3.11f1".
pub open spec fn version_le(a: Seq<char>, b: Seq<char>) -> bool {
    bytes_le(encode_utf8(a), encode_utf8(b))
}

/// Whether version `a` ranks at or below version `b`.
pub fn ranks_at_most(a: &str, b: &str) -> (yes: bool)
    ensures
        yes == version_le(a@, b@),
{
    let x = a.as_bytes();
    let y = b.as_bytes();
    let mut i: usize = 0;
    assert(x@.skip(0) =~= x@ && y@.skip(0) =~= y@);
    while i < x.len() && i < y.len()
        invariant
            i <= x@.len(),
            i <= y@.len(),
            version_le(a@, b@) == bytes_le(x@.skip(i as int), y@.skip(i as int)),
        decreases x@.len() - i,
    {
        proof {
            assert(x@.skip(i as int).drop_first() =~= x@.skip(i + 1));
            assert(y@.skip(i as int).drop_first() =~= y@.skip(i + 1));
        }
        if x[i] != y[i] {
            return x[i] < y[i];
        }
        i += 1;
    }
    x.len() <= y.len()
}

/// Every byte string is at most itself.
pub proof fn lemma_bytes_le_reflexive(a: Seq<u8>)
    ensures
        bytes_le(a, a),
    decreases a.len(),
{
    if a.len() > 0 {
        lemma_bytes_le_reflexive(a.drop_first());
    }
}

/// Two byte strings that are each at most the other are the same.
pub proof fn lemma_bytes_le_antisymmetric(a: Seq<u8>, b: Seq<u8>)
    requires
        bytes_le(a, b),
        bytes_le(b, a),
    ensures
        a == b,
    decreases a.len(),
{
    if a.len() > 0 && b.len() > 0 {
        lemma_bytes_le_antisymmetric(a.drop_first(), b.drop_first());
        assert(a =~= seq![a[0]] + a.drop_first());
        assert(b =~= seq![b[0]] + b.drop_first());
    }
}

/// The order on byte strings is transitive.
pub proof fn lemma_bytes_le_transitive(a: Seq<u8>, b: Seq<u8>, c: Seq<u8>)
    requires
        bytes_le(a, b),
        bytes_le(b, c),
    ensures
        bytes_le(a, c),
    decreases a.len(),
{
    if a.len() > 0 && a[0] == b[0] && b[0] == c[0] {
        lemma_bytes_le_transitive(a.drop_first(), b.drop_first(), c.drop_first());
    }
}

/// Of two byte strings, one is at most the other.
pub proof fn lemma_bytes_le_total(a: Seq<u8>, b: Seq<u8>)
    ensures
        bytes_le(a, b) || bytes_le(b, a),
    decreases a.len(),
{
    if a.len() > 0 && b.len() > 0 && a[0] == b[0] {
        lemma_bytes_le_total(a.drop_first(), b.drop_first());
    }
}

/// The order on versions is a total order: reflexive, antisymmetric,
/// transitive, and any two versions are comparable.
pub proof fn lemma_version_le_total_order(a: Seq<char>, b: Seq<char>, c: Seq<char>)
    ensures
        version_le(a, a),
        version_le(a, b) && version_le(b, a) ==> a == b,
        version_le(a, b) && version_le(b, c) ==> version_le(a, c),
        version_le(a, b) || version_le(b, a),
{
    let (x, y, z) = (encode_utf8(a), encode_utf8(b), encode_utf8(c));
    lemma_bytes_le_reflexive(x);
    lemma_bytes_le_total(x, y);
    if bytes_le(x, y) && bytes_le(y, x) {
        lemma_bytes_le_antisymmetric(x, y);
        lemma_same_bytes_same_text(a, b);
    }
    if bytes_le(x, y) && bytes_le(y, z) {
        lemma_bytes_le_transitive(x, y, z);
    }
}

/// Whether position `at` of `versions` holds the latest version: none ranks
/// above it, and none after it is the same.
pub open spec fn is_latest(versions: Seq<Seq<char>>, at: int) -> bool {
    &&& 0 <= at < versions.len()
    &&& forall|other: int|
        0 <= other < versions.len() ==> version_le(#[trigger] versions[other], versions[at])
    &&& forall|other: int| at < other < versions.len() ==> #[trigger] versions[other] != versions[at]
}

/// The position of the latest version: of the versions that none ranks
/// above, the one that comes last. `None` where there is no version at all.
pub open spec fn latest(versions: Seq<Seq<char>>) -> Option<int> {
    if versions.len() == 0 {
        None
    } else {
        Some(choose|at: int| is_latest(versions, at))
    }
}

/// At most one position holds the latest version.
pub proof fn lemma_latest_unique(versions: Seq<Seq<char>>, first: int, second: int)
    requires
        is_latest(versions, first),
        is_latest(versions, second),
    ensures
        first == second,
{
    lemma_version_le_total_order(versions[first], versions[second], versions[first]);
}

/// Wherever there is a version, one position holds the latest.
pub proof fn lemma_latest_exists(versions: Seq<Seq<char>>)
    requires
        versions.len() > 0,
    ensures
        exists|at: int| is_latest(versions, at),
    decreases versions.len(),
{
    let last = versions.len() - 1;
    if last == 0 {
        lemma_version_le_total_order(versions[0], versions[0], versions[0]);
        assert(is_latest(versions, 0));
    } else {
        let front = versions.drop_last();
        lemma_latest_exists(front);
        let best = choose|at: int| is_latest(front, at);
        lemma_version_le_total_order(versions[last], versions[best], versions[last]);
        if version_le(versions[best], versions[last]) {
            assert forall|other: int| 0 <= other < versions.len() implies version_le(
                #[trigger] versions[other],
                versions[last],
            ) by {
                if other < last {
                    assert(front[other] == versions[other]);
                    lemma_version_le_total_order(versions[other], versions[best], versions[last]);
                }
            }
            assert(is_latest(versions, last));
        } else {
            assert forall|other: int| 0 <= other < versions.len() implies version_le(
                #[trigger] versions[other],
                versions[best],
            ) by {
                if other < last {
                    assert(front[other] == versions[other]);
                }
            }
            assert forall|other: int| best < other < versions.len() implies #[trigger] versions[other]
                != versions[best] by {
                if other < last {
                    assert(front[other] == versions[other]);
                }
            }
            assert(is_latest(versions, best));
        }
    }
}

/// The latest version is where `latest` says, and nowhere else.
pub proof fn lemma_latest_is(versions: Seq<Seq<char>>, at: int)
    ensures
        is_latest(versions, at) <==> latest(versions) == Some(at),
{
    if versions.len() > 0 {
        lemma_latest_exists(versions);
        let chosen = choose|at: int| is_latest(versions, at);
        if is_latest(versions, at) {
            lemma_latest_unique(versions, at, chosen);
        }
    }
}

/// Whether position `at` is the first of `versions` that holds `wanted`.
pub open spec fn is_first_match(versions: Seq<Seq<char>>, wanted: Seq<char>, at: int) -> bool {
    &&& 0 <= at < versions.len()
    &&& versions[at] == wanted
    &&& forall|earlier: int| 0 <= earlier < at ==> #[trigger] versions[earlier] != wanted
}

/// The first position of `versions` that holds `wanted`, if any does.
pub open spec fn first_match(versions: Seq<Seq<char>>, wanted: Seq<char>) -> Option<int> {
    if versions.contains(wanted) {
        Some(choose|at: int| is_first_match(versions, wanted, at))
    } else {
        None
    }
}

/// A version that occurs has a first position.
pub proof fn lemma_first_match_exists(versions: Seq<Seq<char>>, wanted: Seq<char>)
    requires
        versions.contains(wanted),
    ensures
        exists|at: int| is_first_match(versions, wanted, at),
    decreases versions.len(),
{
    let somewhere = choose|at: int| 0 <= at < versions.len() && versions[at] == wanted;
    let front = versions.take(somewhere);
    if front.contains(wanted) {
        lemma_first_match_exists(front, wanted);
        let at = choose|at: int| is_first_match(front, wanted, at);
        assert forall|earlier: int| 0 <= earlier < at implies #[trigger] versions[earlier]
            != wanted by {
            assert(front[earlier] == versions[earlier]);
        }
        assert(is_first_match(versions, wanted, at));
    } else {
        assert forall|earlier: int| 0 <= earlier < somewhere implies #[trigger] versions[earlier]
            != wanted by {
            assert(front[earlier] == versions[earlier]);
        }
        assert(is_first_match(versions, wanted, somewhere));
    }
}

/// The first match is where `first_match` says, and nowhere else.
pub proof fn lemma_first_match_is(versions: Seq<Seq<char>>, wanted: Seq<char>, at: int)
    ensures
        is_first_match(versions, wanted, at) <==> first_match(versions, wanted) == Some(at),
{
    if versions.contains(wanted) {
        lemma_first_match_exists(versions, wanted);
    }
}

} // verus!
