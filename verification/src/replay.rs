//! The order in which the records of a snapshot are replayed.
//!
//! A workspace comes into being when the first window is moved into it, so
//! the records go by output and by workspace index, lowest first: a workspace
//! with a lower index exists before one with a higher index is targeted.

use vstd::prelude::*;
use vstd::string::*;
use crate::model::{RecordModel, Session, WindowRecord};
use crate::text::{lemma_lex_order, lex_less, same_text, str_less};

verus! {

/// Strict order of optional output names: an absent name first, then the
/// names in lexicographic order.
pub open spec fn output_before(a: Option<Seq<char>>, b: Option<Seq<char>>) -> bool {
    match (a, b) {
        (None, Some(_)) => true,
        (Some(x), Some(y)) => lex_less(x, y),
        _ => false,
    }
}

/// Strict order of optional workspace indices: an absent index first.
pub open spec fn idx_before(a: Option<u8>, b: Option<u8>) -> bool {
    match (a, b) {
        (None, Some(_)) => true,
        (Some(x), Some(y)) => x < y,
        _ => false,
    }
}

/// Whether the pair of output and workspace index of `a` is strictly less
/// than that of `b`.
pub open spec fn key_before(a: RecordModel, b: RecordModel) -> bool {
    output_before(a.workspace_output, b.workspace_output) || (a.workspace_output
        == b.workspace_output && idx_before(a.workspace_idx, b.workspace_idx))
}

/// Whether `a` and `b` have the same output and workspace index.
pub open spec fn key_equal(a: RecordModel, b: RecordModel) -> bool {
    a.workspace_output == b.workspace_output && a.workspace_idx == b.workspace_idx
}

/// `key_before` is a strict order in which any two records with different
/// keys are comparable.
pub proof fn lemma_key_order(a: RecordModel, b: RecordModel, c: RecordModel)
    ensures
        !key_before(a, a),
        key_before(a, b) ==> !key_before(b, a) && !key_equal(a, b),
        key_before(a, b) && key_before(b, c) ==> key_before(a, c),
        key_before(a, b) && key_equal(b, c) ==> key_before(a, c),
        key_equal(a, b) && key_before(b, c) ==> key_before(a, c),
        key_before(a, b) || key_equal(a, b) || key_before(b, a),
{
    match a.workspace_output {
        Some(x) => {
            lemma_lex_order(x, x, x);
        },
        None => {},
    }
    match (a.workspace_output, b.workspace_output) {
        (Some(x), Some(y)) => {
            lemma_lex_order(x, y, x);
            lemma_lex_order(y, x, y);
            match c.workspace_output {
                Some(z) => {
                    lemma_lex_order(x, y, z);
                },
                None => {},
            }
        },
        _ => {},
    }
}

/// Whether the record at `i` is replayed before the record at `j`: by key,
/// and among records with one key in the order of the snapshot.
pub open spec fn comes_first(s: Seq<WindowRecord>, i: int, j: int) -> bool {
    key_before(s[i]@, s[j]@) || (key_equal(s[i]@, s[j]@) && i < j)
}

/// Whether `p` lists the first `m` positions of `s`, each once, in replay
/// order.
pub open spec fn orders_prefix(s: Seq<WindowRecord>, p: Seq<usize>, m: int) -> bool {
    &&& p.len() == m
    &&& forall|k: int| 0 <= k < p.len() ==> 0 <= #[trigger] p[k] < m
    &&& forall|k: int, l: int|
        0 <= k < l < p.len() ==> comes_first(s, #[trigger] p[k] as int, #[trigger] p[l] as int)
    &&& forall|j: usize| j < m ==> #[trigger] p.contains(j)
}

/// Whether `p` is the replay order of `s`: a permutation of the positions of
/// `s` that is ascending by key and keeps records with one key in the order
/// of the snapshot.
pub open spec fn is_replay_order(s: Seq<WindowRecord>, p: Seq<usize>) -> bool {
    orders_prefix(s, p, s.len() as int)
}

/// Of two records, the one replayed later never has the lesser key; a record
/// without an output is never replayed after one with an output.
pub proof fn lemma_replay_order_sorted(s: Seq<WindowRecord>, p: Seq<usize>, k: int, l: int)
    requires
        is_replay_order(s, p),
        0 <= k < l < p.len(),
    ensures
        !key_before(s[p[l] as int]@, s[p[k] as int]@),
        s[p[l] as int]@.workspace_output.is_none() ==> s[p[k] as int]@.workspace_output.is_none(),
        key_equal(s[p[k] as int]@, s[p[l] as int]@) ==> p[k] < p[l],
{
    assert(comes_first(s, p[k] as int, p[l] as int));
    lemma_key_order(s[p[k] as int]@, s[p[l] as int]@, s[p[k] as int]@);
    lemma_key_order(s[p[l] as int]@, s[p[k] as int]@, s[p[l] as int]@);
}

/// Where no two records have the same pair of output and workspace index,
/// the replay order is strictly ascending by that pair, an absent value
/// before any present one.
pub proof fn lemma_replay_order_ascending(s: Seq<WindowRecord>, p: Seq<usize>, k: int, l: int)
    requires
        is_replay_order(s, p),
        0 <= k < l < p.len(),
        forall|i: int, j: int|
            0 <= i < j < s.len() ==> !key_equal((#[trigger] s[i])@, (#[trigger] s[j])@),
    ensures
        key_before(s[p[k] as int]@, s[p[l] as int]@),
        s[p[l] as int]@.workspace_output.is_none() ==> s[p[k] as int]@.workspace_output.is_none(),
        s[p[k] as int]@.workspace_output == s[p[l] as int]@.workspace_output
            ==> s[p[k] as int]@.workspace_idx != s[p[l] as int]@.workspace_idx
            && (s[p[l] as int]@.workspace_idx.is_none()
            ==> s[p[k] as int]@.workspace_idx.is_none()),
{
    assert(comes_first(s, p[k] as int, p[l] as int));
    lemma_replay_order_sorted(s, p, k, l);
}

/// Two replay orders of a session agree on their first `n` places.
proof fn lemma_replay_order_agree(s: Seq<WindowRecord>, p: Seq<usize>, q: Seq<usize>, n: int)
    requires
        is_replay_order(s, p),
        is_replay_order(s, q),
        0 <= n <= s.len(),
    ensures
        forall|k: int| 0 <= k < n ==> p[k] == q[k],
    decreases n,
{
    if n > 0 {
        lemma_replay_order_agree(s, p, q, n - 1);
        let k = n - 1;
        assert(q.contains(p[k]));
        let l = choose|l: int| 0 <= l < q.len() && q[l] == p[k];
        assert(p.contains(q[k]));
        let m = choose|m: int| 0 <= m < p.len() && p[m] == q[k];
        let a = s[p[k] as int]@;
        let b = s[q[k] as int]@;
        lemma_key_order(a, b, a);
        lemma_key_order(b, a, b);
        if l < k {
            assert(p[l] == q[l]);
            assert(comes_first(s, p[l] as int, p[k] as int));
        } else if m < k {
            assert(q[m] == p[m]);
            assert(comes_first(s, q[m] as int, q[k] as int));
        } else if l > k && m > k {
            assert(comes_first(s, q[k] as int, q[l] as int));
            assert(comes_first(s, p[k] as int, p[m] as int));
        }
    }
}

/// A session has one replay order.
pub proof fn lemma_replay_order_unique(s: Seq<WindowRecord>, p: Seq<usize>, q: Seq<usize>)
    requires
        is_replay_order(s, p),
        is_replay_order(s, q),
    ensures
        p == q,
{
    lemma_replay_order_agree(s, p, q, s.len() as int);
    assert(p =~= q);
}

/// Whether `a` goes strictly before `b` by output and workspace index.
pub fn record_before(a: &WindowRecord, b: &WindowRecord) -> (r: bool)
    ensures
        r == key_before(a@, b@),
{
    match (&a.workspace_output, &b.workspace_output) {
        (None, Some(_)) => true,
        (Some(_), None) => false,
        (None, None) => index_before(a.workspace_idx, b.workspace_idx),
        (Some(x), Some(y)) => {
            if str_less(x.as_str(), y.as_str()) {
                true
            } else if same_text(x.as_str(), y.as_str()) {
                index_before(a.workspace_idx, b.workspace_idx)
            } else {
                false
            }
        },
    }
}

/// Whether the optional index `a` goes strictly before `b`.
pub fn index_before(a: Option<u8>, b: Option<u8>) -> (r: bool)
    ensures
        r == idx_before(a, b),
{
    match (a, b) {
        (None, Some(_)) => true,
        (Some(x), Some(y)) => x < y,
        _ => false,
    }
}

/// The position `i`, put where the records with a greater key begin, extends
/// the replay order of the first `i` records to that of the first `i + 1`.
proof fn lemma_insert_keeps_order(s: Seq<WindowRecord>, p: Seq<usize>, pos: int, i: usize)
    requires
        0 <= i < s.len(),
        orders_prefix(s, p, i as int),
        0 <= pos <= p.len(),
        forall|k: int| 0 <= k < pos ==> !key_before(s[i as int]@, s[#[trigger] p[k] as int]@),
        pos < p.len() ==> key_before(s[i as int]@, s[p[pos] as int]@),
    ensures
        orders_prefix(s, p.insert(pos, i), i + 1),
{
    let q = p.insert(pos, i);
    assert(q.len() == p.len() + 1);
    assert forall|k: int| 0 <= k < q.len() implies 0 <= #[trigger] q[k] < i + 1 by {
        if k < pos {
            assert(q[k] == p[k]);
        } else if k > pos {
            assert(q[k] == p[k - 1]);
        }
    }
    assert forall|k: int, l: int| 0 <= k < l < q.len() implies comes_first(
        s,
        #[trigger] q[k] as int,
        #[trigger] q[l] as int,
    ) by {
        if l < pos {
            assert(q[k] == p[k] && q[l] == p[l]);
        } else if l == pos {
            assert(q[k] == p[k]);
            lemma_key_order(s[i as int]@, s[p[k] as int]@, s[i as int]@);
        } else if k == pos {
            assert(q[l] == p[l - 1]);
            if l - 1 > pos {
                assert(comes_first(s, p[pos] as int, p[l - 1] as int));
                lemma_key_order(s[i as int]@, s[p[pos] as int]@, s[p[l - 1] as int]@);
            }
        } else if k < pos {
            assert(q[k] == p[k] && q[l] == p[l - 1]);
        } else {
            assert(q[k] == p[k - 1] && q[l] == p[l - 1]);
        }
    }
    assert forall|j: usize| j < i + 1 implies #[trigger] q.contains(j) by {
        if j == i {
            assert(q[pos] == j);
        } else {
            assert(p.contains(j));
            let k = choose|k: int| 0 <= k < p.len() && p[k] == j;
            if k < pos {
                assert(q[k] == j);
            } else {
                assert(q[k + 1] == p[k]);
            }
        }
    }
}

/// The positions of the records of `session` in the order of their replay.
pub fn replay_order(session: &Session) -> (order: Vec<usize>)
    ensures
        is_replay_order(session@, order@),
{
    let n: usize = session.len();
    let mut order: Vec<usize> = Vec::new();
    let mut i: usize = 0;
    while i < n
        invariant
            n == session@.len(),
            i <= n,
            orders_prefix(session@, order@, i as int),
        decreases n - i,
    {
        let mut pos: usize = 0;
        while pos < order.len() && !record_before(&session[i], &session[order[pos]])
            invariant
                n == session@.len(),
                i < n,
                pos <= order@.len(),
                orders_prefix(session@, order@, i as int),
                forall|k: int|
                    0 <= k < pos ==> !key_before(
                        session@[i as int]@,
                        session@[#[trigger] order@[k] as int]@,
                    ),
            decreases order@.len() - pos,
        {
            pos += 1;
        }
        proof {
            lemma_insert_keeps_order(session@, order@, pos as int, i);
        }
        order.insert(pos, i);
        i += 1;
    }
    order
}

/// Whether `r` holds the records of `s` in the order `p`.
pub open spec fn arranged(s: Seq<WindowRecord>, p: Seq<usize>, r: Seq<WindowRecord>) -> bool {
    &&& r.len() == p.len()
    &&& forall|k: int| 0 <= k < r.len() ==> (#[trigger] r[k])@ == s[p[k] as int]@
}

/// The records of `session` in the order of their replay.
pub fn sort_for_replay(session: &Session) -> (r: Vec<WindowRecord>)
    ensures
        r@.len() == session@.len(),
        exists|p: Seq<usize>| is_replay_order(session@, p) && #[trigger] arranged(session@, p, r@),
{
    let order = replay_order(session);
    let mut sorted: Vec<WindowRecord> = Vec::new();
    let mut k: usize = 0;
    while k < order.len()
        invariant
            is_replay_order(session@, order@),
            k <= order@.len(),
            sorted@.len() == k,
            forall|j: int| 0 <= j < k ==> (#[trigger] sorted@[j])@ == session@[order@[j] as int]@,
        decreases order@.len() - k,
    {
        sorted.push(session[order[k]].duplicate());
        k += 1;
    }
    assert(arranged(session@, order@, sorted@));
    sorted
}

} // verus!
