use vstd::prelude::*;
use vstd::seq_lib::lemma_multiset_commutative;
use rand::seq::SliceRandom;
use crate::tetromino::TetrominoType;

verus! {

/// Number of shapes in one bag.
pub const BAG_SIZE: usize = 7;

/// The seven shapes, each once, in catalogue order.
pub open spec fn all_shapes() -> Seq<TetrominoType> {
    seq![
        TetrominoType::I,
        TetrominoType::O,
        TetrominoType::T,
        TetrominoType::S,
        TetrominoType::Z,
        TetrominoType::J,
        TetrominoType::L,
    ]
}

/// `s` holds each of the seven shapes exactly once, in some order.
pub open spec fn is_bag(s: Seq<TetrominoType>) -> bool {
    s.to_multiset() == all_shapes().to_multiset()
}

/// The `k`-th group of seven consecutive shapes of `s`.
pub open spec fn bag_at(s: Seq<TetrominoType>, k: int) -> Seq<TetrominoType> {
    s.subrange(7 * k, 7 * k + 7)
}

/// `s` is a concatenation of bags.
pub open spec fn is_bag_sequence(s: Seq<TetrominoType>) -> bool {
    &&& s.len() % 7 == 0
    &&& forall|k: int| 0 <= k < s.len() / 7 ==> is_bag(#[trigger] bag_at(s, k))
}

/// A bag holds each shape exactly once.
pub proof fn lemma_bag_count(b: Seq<TetrominoType>, shape: TetrominoType)
    requires
        is_bag(b),
    ensures
        b.to_multiset().count(shape) == 1,
{
    broadcast use vstd::seq_lib::group_to_multiset_ensures;

    let s0 = Seq::<TetrominoType>::empty();
    let s1 = s0.push(TetrominoType::I);
    let s2 = s1.push(TetrominoType::O);
    let s3 = s2.push(TetrominoType::T);
    let s4 = s3.push(TetrominoType::S);
    let s5 = s4.push(TetrominoType::Z);
    let s6 = s5.push(TetrominoType::J);
    let s7 = s6.push(TetrominoType::L);
    assert(s7 =~= all_shapes());
    assert(s0.to_multiset().count(shape) == 0);
    assert(s1.to_multiset() =~= s0.to_multiset().insert(TetrominoType::I));
    assert(s2.to_multiset() =~= s1.to_multiset().insert(TetrominoType::O));
    assert(s3.to_multiset() =~= s2.to_multiset().insert(TetrominoType::T));
    assert(s4.to_multiset() =~= s3.to_multiset().insert(TetrominoType::S));
    assert(s5.to_multiset() =~= s4.to_multiset().insert(TetrominoType::Z));
    assert(s6.to_multiset() =~= s5.to_multiset().insert(TetrominoType::J));
    assert(s7.to_multiset() =~= s6.to_multiset().insert(TetrominoType::L));
}

/// Appending a bag to a concatenation of bags gives a concatenation of bags.
pub proof fn lemma_bag_sequence_append(s: Seq<TetrominoType>, b: Seq<TetrominoType>)
    requires
        is_bag_sequence(s),
        is_bag(b),
        b.len() == 7,
    ensures
        is_bag_sequence(s + b),
{
    let t = s + b;
    assert forall|k: int| 0 <= k < t.len() / 7 implies is_bag(#[trigger] bag_at(t, k)) by {
        if k < s.len() / 7 {
            assert(bag_at(t, k) =~= bag_at(s, k));
        } else {
            assert(bag_at(t, k) =~= b);
        }
    }
}

/// Over a concatenation of bags, any stretch that starts on a bag boundary
/// and spans whole bags holds each shape once per bag.
pub proof fn lemma_aligned_run_count(
    s: Seq<TetrominoType>,
    start: int,
    n: int,
    shape: TetrominoType,
)
    requires
        is_bag_sequence(s),
        0 <= start,
        0 <= n,
        start % 7 == 0,
        n % 7 == 0,
        start + n <= s.len(),
    ensures
        s.subrange(start, start + n).to_multiset().count(shape) == n / 7,
    decreases n,
{
    broadcast use vstd::seq_lib::group_to_multiset_ensures;

    if n == 0 {
        assert(s.subrange(start, start) =~= Seq::<TetrominoType>::empty());
    } else {
        lemma_aligned_run_count(s, start, n - 7, shape);
        let a = s.subrange(start, start + n - 7);
        let k = (start + n - 7) / 7;
        let b = bag_at(s, k);
        assert(7 * k == start + n - 7);
        assert(s.subrange(start, start + n) =~= a + b);
        lemma_multiset_commutative(a, b);
        lemma_bag_count(b, shape);
    }
}

/// Puts `items` in a random order.
///
/// Relies on rand's `SliceRandom::shuffle` with the thread-local generator
/// `rand::rng()`: the shuffle only swaps elements, so the result is a
/// permutation of the input. (`rand::rng()` panics only when the operating
/// system gives no randomness.)
#[verifier::external_body]
fn shuffle<T>(items: &mut Vec<T>)
    ensures
        final(items)@.to_multiset() == old(items)@.to_multiset(),
{
    items.shuffle(&mut rand::rng());
}

/// A fresh bag: the seven shapes in a uniformly random order.
pub fn shuffled_bag() -> (r: Vec<TetrominoType>)
    ensures
        r@.len() == BAG_SIZE,
        is_bag(r@),
{
    let mut bag = vec![
        TetrominoType::I,
        TetrominoType::O,
        TetrominoType::T,
        TetrominoType::S,
        TetrominoType::Z,
        TetrominoType::J,
        TetrominoType::L,
    ];
    assert(bag@ =~= all_shapes());
    shuffle(&mut bag);
    proof {
        broadcast use vstd::seq_lib::group_to_multiset_ensures;

        assert(bag@.len() == bag@.to_multiset().len());
        assert(all_shapes().to_multiset().len() == 7);
    }
    bag
}

} // verus!
