//! The order of byte strings by which metadata values compare: lexicographic,
//! byte by byte, a proper prefix coming first.
use vstd::prelude::*;

verus! {

/// How `a` compares with `b` lexicographically: -1 when `a` comes first, 0
/// when they are equal, 1 when `b` comes first.
pub open spec fn compare_bytes(a: Seq<u8>, b: Seq<u8>) -> i8
    decreases a.len(),
{
    if a.len() == 0 {
        if b.len() == 0 {
            0i8
        } else {
            -1i8
        }
    } else if b.len() == 0 {
        1i8
    } else if a[0] < b[0] {
        -1i8
    } else if a[0] > b[0] {
        1i8
    } else {
        compare_bytes(a.drop_first(), b.drop_first())
    }
}

/// Two byte strings compare equal exactly when they are the same.
pub proof fn lemma_compare_bytes_zero_iff_equal(a: Seq<u8>, b: Seq<u8>)
    ensures
        (compare_bytes(a, b) == 0) <==> (a == b),
    decreases a.len(),
{
    if a.len() > 0 && b.len() > 0 {
        if a[0] == b[0] {
            lemma_compare_bytes_zero_iff_equal(a.drop_first(), b.drop_first());
            if a.drop_first() == b.drop_first() {
                assert(a =~= seq![a[0]] + a.drop_first());
                assert(b =~= seq![b[0]] + b.drop_first());
            }
            if a == b {
                assert(a.drop_first() =~= b.drop_first());
            }
        } else {
            assert(a[0] != b[0]);
        }
    } else if a.len() == 0 && b.len() == 0 {
        assert(a =~= b);
    } else {
        assert(a.len() != b.len());
    }
}

/// The comparison only ever gives -1, 0 or 1.
pub proof fn lemma_compare_bytes_range(a: Seq<u8>, b: Seq<u8>)
    ensures
        -1 <= compare_bytes(a, b) <= 1,
    decreases a.len(),
{
    if a.len() > 0 && b.len() > 0 && a[0] == b[0] {
        lemma_compare_bytes_range(a.drop_first(), b.drop_first());
    }
}

/// Swapping the two sides reverses the comparison.
pub proof fn lemma_compare_bytes_antisymmetric(a: Seq<u8>, b: Seq<u8>)
    ensures
        compare_bytes(a, b) == -compare_bytes(b, a),
    decreases a.len(),
{
    lemma_compare_bytes_range(a, b);
    if a.len() > 0 && b.len() > 0 && a[0] == b[0] {
        lemma_compare_bytes_antisymmetric(a.drop_first(), b.drop_first());
    }
}

/// Coming first is transitive.
pub proof fn lemma_compare_bytes_transitive(a: Seq<u8>, b: Seq<u8>, c: Seq<u8>)
    requires
        compare_bytes(a, b) < 0,
        compare_bytes(b, c) < 0,
    ensures
        compare_bytes(a, c) < 0,
    decreases a.len(),
{
    if a.len() > 0 && b.len() > 0 && c.len() > 0 && a[0] == b[0] && b[0] == c[0] {
        lemma_compare_bytes_transitive(a.drop_first(), b.drop_first(), c.drop_first());
    }
}

/// Two byte strings that first differ where `a` holds `x` and `b` holds a
/// greater `y` compare with `a` first, whatever follows and whatever their
/// lengths.
pub proof fn lemma_compare_bytes_first_difference(
    p: Seq<u8>,
    x: u8,
    s: Seq<u8>,
    y: u8,
    t: Seq<u8>,
)
    requires
        x < y,
    ensures
        compare_bytes(p + seq![x] + s, p + seq![y] + t) == -1,
    decreases p.len(),
{
    let a = p + seq![x] + s;
    let b = p + seq![y] + t;
    if p.len() == 0 {
        assert(a[0] == x);
        assert(b[0] == y);
    } else {
        assert(a[0] == p[0]);
        assert(b[0] == p[0]);
        assert(a.drop_first() =~= p.drop_first() + seq![x] + s);
        assert(b.drop_first() =~= p.drop_first() + seq![y] + t);
        lemma_compare_bytes_first_difference(p.drop_first(), x, s, y, t);
    }
}

/// A proper prefix comes first.
pub proof fn lemma_compare_bytes_proper_prefix(p: Seq<u8>, x: u8, s: Seq<u8>)
    ensures
        compare_bytes(p, p + seq![x] + s) == -1,
    decreases p.len(),
{
    let b = p + seq![x] + s;
    if p.len() > 0 {
        assert(b[0] == p[0]);
        assert(b.drop_first() =~= p.drop_first() + seq![x] + s);
        lemma_compare_bytes_proper_prefix(p.drop_first(), x, s);
    }
}

/// Dropping a common first byte leaves the comparison unchanged.
proof fn lemma_compare_bytes_skip(a: Seq<u8>, b: Seq<u8>, i: int)
    requires
        0 <= i < a.len(),
        i < b.len(),
        a[i] == b[i],
    ensures
        compare_bytes(a.skip(i), b.skip(i)) == compare_bytes(a.skip(i + 1), b.skip(i + 1)),
{
    assert(a.skip(i).drop_first() =~= a.skip(i + 1));
    assert(b.skip(i).drop_first() =~= b.skip(i + 1));
}

/// Compares two byte strings lexicographically: -1, 0 or 1 as `compare_bytes`.
pub fn bytes_compare(a: &[u8], b: &[u8]) -> (r: i8)
    ensures
        r == compare_bytes(a@, b@),
{
    let mut i: usize = 0;
    assert(a@.skip(0) =~= a@);
    assert(b@.skip(0) =~= b@);
    while i < a.len() && i < b.len()
        invariant
            i <= a@.len(),
            i <= b@.len(),
            compare_bytes(a@, b@) == compare_bytes(a@.skip(i as int), b@.skip(i as int)),
        decreases a@.len() - i,
    {
        if a[i] < b[i] {
            return -1;
        }
        if a[i] > b[i] {
            return 1;
        }
        proof {
            lemma_compare_bytes_skip(a@, b@, i as int);
        }
        i = i + 1;
    }
    if i < a.len() {
        1
    } else if i < b.len() {
        -1
    } else {
        0
    }
}

/// Whether two byte strings are the same.
pub fn bytes_equal(a: &[u8], b: &[u8]) -> (r: bool)
    ensures
        r == (a@ == b@),
{
    if a.len() != b.len() {
        return false;
    }
    let mut i: usize = 0;
    while i < a.len()
        invariant
            i <= a@.len(),
            a@.len() == b@.len(),
            forall|j: int| 0 <= j < i ==> a@[j] == b@[j],
        decreases a@.len() - i,
    {
        if a[i] != b[i] {
            return false;
        }
        i = i + 1;
    }
    assert(a@ =~= b@);
    true
}

} // verus!
