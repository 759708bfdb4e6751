//! Move ordering.  Moves are ranked so that, in priority order, the
//! best-move hint comes first, the killer hint second, and the rest
//! follow by the capture heuristic "most valuable victim, least valuable
//! attacker", descending; ties keep generation order.  The whole ranking
//! is a stable sort by one composite ascending key.
use vstd::prelude::*;
use vstd::seq_lib::group_to_multiset_ensures;
use vstd::multiset::Multiset;
use crate::pieces::PieceType;
use crate::pieces::spec_piece_value;
use crate::pieces::piece_value;
use crate::pieces::spec_piece_from_code;
use crate::pieces::piece_from_code;
use crate::pieces::spec_type_of;
use crate::pieces::type_of_piece;
use crate::board::spec_board_moves;
use crate::board::spec_piece_code_at;
use crate::board::spec_move_src;
use crate::board::spec_move_dest;
use crate::board::board_legal_moves;
use crate::board::board_piece_code_at;
use crate::board::move_src;
use crate::board::move_dest;

verus! {

/// A raw 16-bit move paired with its ascending ordering key.
pub type RankedMove = (u16, i64);

/// Capture-ordering score of a move: `1000 * value(victim) -
/// value(attacker)` for captures, `0` for quiet moves (no victim).
pub open spec fn spec_mvv_lva(victim: PieceType, attacker: PieceType) -> i64 {
    if victim == PieceType::Empty {
        0
    } else {
        (1000 * spec_piece_value(victim) - spec_piece_value(attacker)) as i64
    }
}

/// Exec mirror of [`spec_mvv_lva`].
pub fn mvv_lva_score(victim: PieceType, attacker: PieceType) -> (r: i64)
    ensures
        r == spec_mvv_lva(victim, attacker),
        0 <= r <= 1_000_000,
{
    if matches!(victim, PieceType::Empty) {
        0
    } else {
        let v: i64 = piece_value(victim) as i64;
        let a: i64 = piece_value(attacker) as i64;
        1000 * v - a
    }
}

/// Hint priority of a move: `0` for the best-move hint, `1` for the
/// killer hint, `2` otherwise.  The best-move hint wins when the two
/// hints name the same move.
pub open spec fn spec_hint_priority(m: u16, killer: Option<u16>, best: Option<u16>) -> i64 {
    if best == Some(m) {
        0
    } else if killer == Some(m) {
        1
    } else {
        2
    }
}

/// Composite ascending ordering key: hint priority first, then the
/// capture score, descending.  Lower keys sort earlier.
pub open spec fn spec_order_key(
    m: u16,
    victim: PieceType,
    attacker: PieceType,
    killer: Option<u16>,
    best: Option<u16>,
) -> i64 {
    (spec_hint_priority(m, killer, best) * 2_000_000 + (1_000_000 - spec_mvv_lva(
        victim,
        attacker,
    ))) as i64
}

/// Exec mirror of [`spec_order_key`].
pub fn order_key(
    m: u16,
    victim: PieceType,
    attacker: PieceType,
    killer: Option<u16>,
    best: Option<u16>,
) -> (r: i64)
    ensures
        r == spec_order_key(m, victim, attacker, killer, best),
{
    let mvv: i64 = mvv_lva_score(victim, attacker);
    let prio: i64 = if best == Some(m) {
        0
    } else if killer == Some(m) {
        1
    } else {
        2
    };
    prio * 2_000_000 + (1_000_000 - mvv)
}

/// The sequence is in ascending key order.
pub open spec fn ranked_sorted(s: Seq<RankedMove>) -> bool {
    forall|i: int, j: int| 0 <= i < j < s.len() ==> s[i].1 <= s[j].1
}

/// Stable insertion of `x` into `s`: `x` lands just before the first
/// element whose key is strictly larger, so equal keys keep their order.
pub open spec fn spec_insert_ranked(x: RankedMove, s: Seq<RankedMove>) -> Seq<RankedMove>
    decreases s.len(),
{
    if s.len() == 0 {
        seq![x]
    } else if s[0].1 <= x.1 {
        seq![s[0]] + spec_insert_ranked(x, s.drop_first())
    } else {
        seq![x] + s
    }
}

/// Stable insertion sort by ascending key.
pub open spec fn spec_stable_sort(s: Seq<RankedMove>) -> Seq<RankedMove>
    decreases s.len(),
{
    if s.len() == 0 {
        Seq::empty()
    } else {
        spec_insert_ranked(s.last(), spec_stable_sort(s.drop_last()))
    }
}

proof fn lemma_insert_ranked_ensures(x: RankedMove, s: Seq<RankedMove>)
    ensures
        spec_insert_ranked(x, s).len() == s.len() + 1,
        forall|k: int|
            0 <= k < spec_insert_ranked(x, s).len() ==> (spec_insert_ranked(x, s)[k] == x
                || s.contains(#[trigger] spec_insert_ranked(x, s)[k])),
        spec_insert_ranked(x, s).to_multiset() == s.to_multiset().insert(x),
        ranked_sorted(s) ==> ranked_sorted(spec_insert_ranked(x, s)),
    decreases s.len(),
{
    broadcast use group_to_multiset_ensures;

    let r = spec_insert_ranked(x, s);
    if s.len() == 0 {
        assert(r =~= Seq::empty().push(x));
        assert(s.to_multiset().len() == 0);
        assert(s.to_multiset() =~= Multiset::empty());
        assert(r.to_multiset() =~= s.to_multiset().insert(x));
    } else if s[0].1 <= x.1 {
        let t = s.drop_first();
        lemma_insert_ranked_ensures(x, t);
        let rt = spec_insert_ranked(x, t);
        assert(r == seq![s[0]] + rt);
        assert(forall|k: int| 0 <= k < rt.len() ==> r[k + 1] == rt[k]);
        assert(forall|k: int|
            0 <= k < r.len() ==> (r[k] == x || s.contains(#[trigger] r[k]))) by {
            assert(s.contains(s[0]));
            assert(forall|k: int| 0 <= k < t.len() ==> t[k] == s[k + 1]);
            assert(forall|k: int| #![auto] 0 <= k < t.len() && t.contains(t[k]) ==> s.contains(t[k]));
        }
        // multiset: r = [s[0]] + rt and s = [s[0]] + t
        vstd::seq_lib::lemma_multiset_commutative(seq![s[0]], rt);
        vstd::seq_lib::lemma_multiset_commutative(seq![s[0]], t);
        assert(s =~= seq![s[0]] + t);
        assert(seq![s[0]].to_multiset() =~= Multiset::empty().insert(s[0])) by {
            assert(seq![s[0]] =~= Seq::empty().push(s[0]));
            assert(Seq::<RankedMove>::empty().to_multiset().len() == 0);
            assert(Seq::<RankedMove>::empty().to_multiset() =~= Multiset::empty());
        }
        assert(r.to_multiset() =~= s.to_multiset().insert(x));
        if ranked_sorted(s) {
            assert(ranked_sorted(t));
            assert forall|i: int, j: int| 0 <= i < j < r.len() implies r[i].1 <= r[j].1 by {
                if i == 0 {
                    // r[j] is x or an element of t, both with key >= s[0].1
                    assert(r[j] == rt[j - 1]);
                    if rt[j - 1] != x {
                        let e = rt[j - 1];
                        assert(t.contains(e));
                        let w = choose|w: int| 0 <= w < t.len() && t[w] == e;
                        assert(s[w + 1] == e);
                    }
                } else {
                    assert(r[i] == rt[i - 1] && r[j] == rt[j - 1]);
                }
            }
        }
    } else {
        assert(r == seq![x] + s);
        vstd::seq_lib::lemma_multiset_commutative(seq![x], s);
        assert(seq![x].to_multiset() =~= Multiset::empty().insert(x)) by {
            assert(seq![x] =~= Seq::empty().push(x));
            assert(Seq::<RankedMove>::empty().to_multiset().len() == 0);
            assert(Seq::<RankedMove>::empty().to_multiset() =~= Multiset::empty());
        }
        assert(r.to_multiset() =~= s.to_multiset().insert(x));
        if ranked_sorted(s) {
            assert forall|i: int, j: int| 0 <= i < j < r.len() implies r[i].1 <= r[j].1 by {
                if i == 0 {
                    if j == 1 {
                        assert(r[1] == s[0]);
                    } else {
                        assert(r[j] == s[j - 1]);
                        assert(s[0].1 <= s[j - 1].1);
                    }
                }
            }
        }
    }
}

/// What the stable sort guarantees: same length, ascending keys, the
/// same elements with the same multiplicities.
pub proof fn lemma_stable_sort_ensures(s: Seq<RankedMove>)
    ensures
        spec_stable_sort(s).len() == s.len(),
        ranked_sorted(spec_stable_sort(s)),
        spec_stable_sort(s).to_multiset() == s.to_multiset(),
        forall|k: int|
            0 <= k < spec_stable_sort(s).len() ==> s.contains(#[trigger] spec_stable_sort(s)[k]),
    decreases s.len(),
{
    broadcast use group_to_multiset_ensures;

    let r = spec_stable_sort(s);
    if s.len() == 0 {
        assert(s.to_multiset().len() == 0);
        assert(r.to_multiset().len() == 0);
        assert(r.to_multiset() =~= s.to_multiset());
    } else {
        let front = s.drop_last();
        lemma_stable_sort_ensures(front);
        lemma_insert_ranked_ensures(s.last(), spec_stable_sort(front));
        assert(s =~= front.push(s.last()));
        assert(s.to_multiset() =~= front.to_multiset().insert(s.last()));
        assert(r.to_multiset() =~= s.to_multiset());
        assert forall|k: int| 0 <= k < r.len() implies s.contains(#[trigger] r[k]) by {
            if r[k] == s.last() {
                assert(s[s.len() - 1] == s.last());
            } else {
                let sf = spec_stable_sort(front);
                assert(sf.contains(r[k]));
                let w = choose|w: int| 0 <= w < sf.len() && sf[w] == r[k];
                assert(front.contains(sf[w]));
                let u = choose|u: int| 0 <= u < front.len() && front[u] == r[k];
                assert(s[u] == r[k]);
            }
        }
    }
}

/// Recursive stable insertion matching [`spec_insert_ranked`].
fn insert_ranked(v: Vec<RankedMove>, x: RankedMove) -> (r: Vec<RankedMove>)
    ensures
        r@ == spec_insert_ranked(x, v@),
    decreases v@.len(),
{
    let ghost orig = v@;
    let mut v = v;
    if v.len() == 0 {
        v.push(x);
        assert(v@ =~= seq![x]);
        v
    } else if v[0].1 <= x.1 {
        let h = v.remove(0);
        assert(v@ =~= orig.drop_first());
        let mut r = insert_ranked(v, x);
        r.insert(0, h);
        assert(r@ =~= seq![h] + spec_insert_ranked(x, orig.drop_first()));
        r
    } else {
        v.insert(0, x);
        assert(v@ =~= seq![x] + orig);
        v
    }
}

/// Recursive stable insertion sort matching [`spec_stable_sort`].
pub fn stable_sort_ranked(v: Vec<RankedMove>) -> (r: Vec<RankedMove>)
    ensures
        r@ == spec_stable_sort(v@),
    decreases v@.len(),
{
    let ghost orig = v@;
    let mut v = v;
    if v.len() == 0 {
        v
    } else {
        let popped = v.pop();
        let x = match popped {
            Some(y) => y,
            Option::None => {
                proof {
                    assert(false);
                }
                (0, 0)
            },
        };
        assert(v@ =~= orig.drop_last());
        assert(x == orig.last());
        let sorted = stable_sort_ranked(v);
        insert_ranked(sorted, x)
    }
}

/// The move list paired with each move's ordering key; `victims[i]` and
/// `attackers[i]` are the piece kinds on the destination and source
/// squares of `moves[i]`.
pub open spec fn spec_ranked_moves(
    moves: Seq<u16>,
    victims: Seq<PieceType>,
    attackers: Seq<PieceType>,
    killer: Option<u16>,
    best: Option<u16>,
) -> Seq<RankedMove> {
    Seq::new(
        moves.len(),
        |i: int| (moves[i], spec_order_key(moves[i], victims[i], attackers[i], killer, best)),
    )
}

/// The fully ordered move list: stable sort by the composite key, then
/// the keys dropped.
pub open spec fn spec_order_moves(
    moves: Seq<u16>,
    victims: Seq<PieceType>,
    attackers: Seq<PieceType>,
    killer: Option<u16>,
    best: Option<u16>,
) -> Seq<u16> {
    spec_stable_sort(spec_ranked_moves(moves, victims, attackers, killer, best)).map_values(
        |p: RankedMove| p.0,
    )
}

/// Orders a move list by hint priority and capture score, given the
/// victim and attacker piece kinds of each move.  Pure logic: the
/// board-facing `order_moves` gathers those kinds and calls this.
pub fn rank_and_order_moves(
    moves: &Vec<u16>,
    victims: &Vec<PieceType>,
    attackers: &Vec<PieceType>,
    killer: Option<u16>,
    best: Option<u16>,
) -> (r: Vec<u16>)
    requires
        victims@.len() == moves@.len(),
        attackers@.len() == moves@.len(),
    ensures
        r@ == spec_order_moves(moves@, victims@, attackers@, killer, best),
        r@.len() == moves@.len(),
        forall|k: int| 0 <= k < r@.len() ==> moves@.contains(#[trigger] r@[k]),
{
    let ghost ranked_spec = spec_ranked_moves(moves@, victims@, attackers@, killer, best);
    let mut ranked: Vec<RankedMove> = Vec::new();
    let mut i: usize = 0;
    while i < moves.len()
        invariant
            i <= moves@.len(),
            victims@.len() == moves@.len(),
            attackers@.len() == moves@.len(),
            ranked@ == ranked_spec.subrange(0, i as int),
            ranked_spec == spec_ranked_moves(moves@, victims@, attackers@, killer, best),
        decreases moves@.len() - i,
    {
        let m = moves[i];
        let key = order_key(m, victims[i], attackers[i], killer, best);
        ranked.push((m, key));
        assert(ranked@ =~= ranked_spec.subrange(0, i + 1));
        i += 1;
    }
    assert(ranked@ =~= ranked_spec);
    let sorted = stable_sort_ranked(ranked);
    proof {
        lemma_stable_sort_ensures(ranked_spec);
    }
    let mut out: Vec<u16> = Vec::new();
    let mut j: usize = 0;
    while j < sorted.len()
        invariant
            j <= sorted@.len(),
            sorted@ == spec_stable_sort(ranked_spec),
            out@ == sorted@.map_values(|p: RankedMove| p.0).subrange(0, j as int),
        decreases sorted@.len() - j,
    {
        out.push(sorted[j].0);
        assert(out@ =~= sorted@.map_values(|p: RankedMove| p.0).subrange(0, j + 1));
        j += 1;
    }
    assert(out@ =~= sorted@.map_values(|p: RankedMove| p.0));
    proof {
        assert forall|k: int| 0 <= k < out@.len() implies moves@.contains(#[trigger] out@[k]) by {
            let sorted_seq = spec_stable_sort(ranked_spec);
            assert(out@[k] == sorted_seq[k].0);
            assert(ranked_spec.contains(sorted_seq[k]));
            let w = choose|w: int| 0 <= w < ranked_spec.len() && ranked_spec[w] == sorted_seq[k];
            assert(moves@[w] == out@[k]);
        }
    }
    out
}

/// With both hints present in a duplicate-free move list and naming
/// different moves, the ordered list starts with the best-move hint and
/// follows with the killer hint, whatever the capture scores are.
pub proof fn lemma_hints_lead_ordering(
    moves: Seq<u16>,
    victims: Seq<PieceType>,
    attackers: Seq<PieceType>,
    killer: u16,
    best: u16,
)
    requires
        victims.len() == moves.len(),
        attackers.len() == moves.len(),
        moves.no_duplicates(),
        moves.contains(best),
        moves.contains(killer),
        best != killer,
    ensures
        spec_order_moves(moves, victims, attackers, Some(killer), Some(best))[0] == best,
        spec_order_moves(moves, victims, attackers, Some(killer), Some(best))[1] == killer,
{
    broadcast use group_to_multiset_ensures;

    let ranked = spec_ranked_moves(moves, victims, attackers, Some(killer), Some(best));
    let sorted = spec_stable_sort(ranked);
    lemma_stable_sort_ensures(ranked);
    let ib = choose|i: int| 0 <= i < moves.len() && moves[i] == best;
    let ik = choose|i: int| 0 <= i < moves.len() && moves[i] == killer;
    let bp = ranked[ib];
    let kp = ranked[ik];
    // key bands: the best hint sits in [0, 1e6], the killer hint in
    // [2e6, 3e6], every other move in [4e6, 5e6].
    assert(forall|v: PieceType, a: PieceType| 0 <= #[trigger] spec_mvv_lva(v, a) <= 1_000_000);
    assert(0 <= bp.1 <= 1_000_000);
    assert(2_000_000 <= kp.1 <= 3_000_000);
    assert(forall|i: int|
        0 <= i < ranked.len() && moves[i] != best && moves[i] != killer ==> 4_000_000 <= (
        #[trigger] ranked[i]).1 <= 5_000_000);
    // ranked has no duplicate pairs because the moves are distinct
    assert(ranked.no_duplicates()) by {
        assert(forall|i: int, j: int|
            0 <= i < j < ranked.len() ==> moves[i] != moves[j] && #[trigger] ranked[i].0 != (
            #[trigger] ranked[j]).0);
    }
    ranked.lemma_multiset_has_no_duplicates();
    assert(ranked.to_multiset().count(bp) == 1) by {
        assert(ranked.contains(bp));
        assert(ranked.to_multiset().contains(bp));
    }
    // the multiset of sorted equals that of ranked, so bp sits somewhere
    assert(sorted.to_multiset().count(bp) == 1);
    assert(sorted.contains(bp)) by {
        assert(sorted.to_multiset().contains(bp));
    }
    let pb = choose|p: int| 0 <= p < sorted.len() && sorted[p] == bp;
    // only pairs whose move is `best` carry a key below 2e6
    assert(forall|i: int|
        0 <= i < ranked.len() && (#[trigger] ranked[i]).1 < 2_000_000 ==> ranked[i].0 == best
            && i == ib);
    // position 0: sorted[0].1 <= bp.1 <= 1e6, and sorted[0] comes from
    // ranked, so it can only be bp itself
    assert(sorted[0] == bp) by {
        if sorted[0] != bp {
            assert(sorted[0].1 <= sorted[pb].1);
            assert(ranked.contains(sorted[0]));
            let w = choose|w: int| 0 <= w < ranked.len() && ranked[w] == sorted[0];
            assert(ranked[w].1 < 2_000_000);
            assert(w == ib);
        }
    }
    // position 1: not bp again (count 1), so its key is at least 2e6;
    // it is bounded by the killer pair's key, so it sits in the killer
    // band, where only the killer pair lives
    assert(sorted.contains(kp)) by {
        assert(ranked.contains(kp));
        assert(ranked.to_multiset().contains(kp));
        assert(sorted.to_multiset().contains(kp));
    }
    let pk = choose|p: int| 0 <= p < sorted.len() && sorted[p] == kp;
    assert(pk != 0);
    assert(sorted[1] == kp) by {
        if sorted[1] != kp {
            assert(moves.len() >= 2);
            assert(sorted[1] != bp) by {
                if sorted[1] == bp {
                    let s01 = sorted.subrange(0, 2);
                    let srest = sorted.subrange(2, sorted.len() as int);
                    assert(sorted =~= s01 + srest);
                    vstd::seq_lib::lemma_multiset_commutative(s01, srest);
                    assert(s01 =~= Seq::empty().push(sorted[0]).push(sorted[1]));
                    assert(Seq::<RankedMove>::empty().to_multiset().len() == 0);
                    assert(Seq::<RankedMove>::empty().to_multiset() =~= Multiset::empty());
                    assert(s01.to_multiset().count(bp) == 2);
                    assert(sorted.to_multiset().count(bp) >= 2);
                }
            }
            assert(ranked.contains(sorted[1]));
            let w = choose|w: int| 0 <= w < ranked.len() && ranked[w] == sorted[1];
            assert(ranked[w].1 >= 2_000_000);
            assert(sorted[1].1 <= sorted[pk].1);
            assert(ranked[w].1 <= 3_000_000);
            assert(moves[w] == killer || moves[w] == best);
            assert(w == ik || w == ib);
        }
    }
    assert(spec_order_moves(moves, victims, attackers, Some(killer), Some(best))[0] == best);
    assert(spec_order_moves(moves, victims, attackers, Some(killer), Some(best))[1] == killer);
}

/// The piece kind on the destination square of each legal move.
pub open spec fn spec_board_victims(b: pleco::Board) -> Seq<PieceType> {
    Seq::new(
        spec_board_moves(b).len(),
        |i: int|
            spec_type_of(
                spec_piece_from_code(spec_piece_code_at(b, spec_move_dest(spec_board_moves(b)[i]))),
            ),
    )
}

/// The piece kind on the source square of each legal move.
pub open spec fn spec_board_attackers(b: pleco::Board) -> Seq<PieceType> {
    Seq::new(
        spec_board_moves(b).len(),
        |i: int|
            spec_type_of(
                spec_piece_from_code(spec_piece_code_at(b, spec_move_src(spec_board_moves(b)[i]))),
            ),
    )
}

/// Orders the position's legal moves: the best-move hint first if legal,
/// the killer hint second if legal and distinct, the rest by descending
/// capture score with generation order breaking ties.  Pure with respect
/// to the position: no shared state is touched.  The last clause is the
/// hint-stability law itself: both hints legal and distinct puts the
/// best-move hint first and the killer hint second, whatever the
/// capture scores are.
pub fn order_moves(board: &pleco::Board, killer_move: Option<u16>, best_move: Option<u16>) -> (r:
    Vec<u16>)
    ensures
        r@ == spec_order_moves(
            spec_board_moves(*board),
            spec_board_victims(*board),
            spec_board_attackers(*board),
            killer_move,
            best_move,
        ),
        r@.len() == spec_board_moves(*board).len(),
        forall|k: int| 0 <= k < r@.len() ==> spec_board_moves(*board).contains(#[trigger] r@[k]),
        (match (best_move, killer_move) {
            (Some(b), Some(k)) => (b != k && spec_board_moves(*board).contains(b)
                && spec_board_moves(*board).contains(k)) ==> (r@[0] == b && r@[1] == k),
            _ => true,
        }),
{
    let moves = board_legal_moves(board);
    let mut victims: Vec<PieceType> = Vec::new();
    let mut attackers: Vec<PieceType> = Vec::new();
    let mut i: usize = 0;
    while i < moves.len()
        invariant
            i <= moves@.len(),
            moves@ == spec_board_moves(*board),
            victims@ == spec_board_victims(*board).subrange(0, i as int),
            attackers@ == spec_board_attackers(*board).subrange(0, i as int),
        decreases moves@.len() - i,
    {
        let m = moves[i];
        let vic = piece_from_code(board_piece_code_at(board, move_dest(m)));
        let att = piece_from_code(board_piece_code_at(board, move_src(m)));
        victims.push(type_of_piece(vic));
        attackers.push(type_of_piece(att));
        assert(victims@ =~= spec_board_victims(*board).subrange(0, i + 1));
        assert(attackers@ =~= spec_board_attackers(*board).subrange(0, i + 1));
        i += 1;
    }
    assert(victims@ =~= spec_board_victims(*board));
    assert(attackers@ =~= spec_board_attackers(*board));
    let out = rank_and_order_moves(&moves, &victims, &attackers, killer_move, best_move);
    proof {
        if let (Some(b), Some(k)) = (best_move, killer_move) {
            if b != k && spec_board_moves(*board).contains(b) && spec_board_moves(*board).contains(
                k,
            ) {
                lemma_hints_lead_ordering(
                    spec_board_moves(*board),
                    spec_board_victims(*board),
                    spec_board_attackers(*board),
                    k,
                    b,
                );
            }
        }
    }
    out
}

} // verus!
