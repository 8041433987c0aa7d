//! Processes as the watchdog sees them: matching by name and choosing the
//! heaviest ones for cleanup.

use vstd::prelude::*;
use crate::text::{seq_contains, str_contains};

verus! {

/// One process as the watchdog sees it.
pub struct ProcessInfo {
    pub pid: u32,
    pub name: String,
    /// Resident memory in bytes.
    pub memory: u64,
    /// CPU usage, kept as the bit pattern of the sampled `f32` percentage;
    /// nothing here reads it, it is only carried along for display.
    pub cpu_bits: u32,
}

impl ProcessInfo {
    /// A field-by-field copy.
    pub fn copied(&self) -> (r: ProcessInfo)
        ensures
            r == *self,
    {
        ProcessInfo {
            pid: self.pid,
            name: self.name.clone(),
            memory: self.memory,
            cpu_bits: self.cpu_bits,
        }
    }
}

/// The process's name contains `target`.
pub open spec fn name_matches(p: ProcessInfo, target: Seq<char>) -> bool {
    seq_contains(p.name@, target)
}

/// The processes of `ps` whose name contains `target`, in the order given.
pub open spec fn matching(ps: Seq<ProcessInfo>, target: Seq<char>) -> Seq<ProcessInfo>
    decreases ps.len(),
{
    if ps.len() == 0 {
        Seq::empty()
    } else {
        let rest = matching(ps.drop_last(), target);
        if name_matches(ps.last(), target) {
            rest.push(ps.last())
        } else {
            rest
        }
    }
}

/// Keeps the processes whose name contains `target_name`, in order.
pub fn find_matching_processes(procs: &Vec<ProcessInfo>, target_name: &str) -> (r: Vec<
    ProcessInfo,
>)
    ensures
        r@ == matching(procs@, target_name@),
{
    let mut r: Vec<ProcessInfo> = Vec::new();
    let n = procs.len();
    for i in 0..n
        invariant
            n == procs@.len(),
            r@ == matching(procs@.take(i as int), target_name@),
    {
        assert(procs@.take(i + 1).drop_last() =~= procs@.take(i as int));
        assert(procs@.take(i + 1).last() == procs@[i as int]);
        if str_contains(procs[i].name.as_str(), target_name) {
            r.push(procs[i].copied());
        }
    }
    assert(procs@.take(n as int) =~= procs@);
    r
}

/// Every process kept by `matching` has a matching name, and nothing is
/// invented: the result is no longer than the input.
pub proof fn law_matching_only_keeps_matches(ps: Seq<ProcessInfo>, target: Seq<char>)
    ensures
        matching(ps, target).len() <= ps.len(),
        forall|i: int|
            0 <= i < matching(ps, target).len() ==> name_matches(
                #[trigger] matching(ps, target)[i],
                target,
            ),
    decreases ps.len(),
{
    if ps.len() > 0 {
        law_matching_only_keeps_matches(ps.drop_last(), target);
    }
}

/// Matching misses nothing: every process whose name matches is kept.
pub proof fn law_matching_keeps_every_match(ps: Seq<ProcessInfo>, target: Seq<char>)
    ensures
        forall|i: int|
            0 <= i < ps.len() && name_matches(#[trigger] ps[i], target) ==> matching(
                ps,
                target,
            ).contains(ps[i]),
    decreases ps.len(),
{
    if ps.len() > 0 {
        let prev = ps.drop_last();
        law_matching_keeps_every_match(prev, target);
        let rest = matching(prev, target);
        assert forall|i: int|
            0 <= i < ps.len() && name_matches(#[trigger] ps[i], target) implies matching(
            ps,
            target,
        ).contains(ps[i]) by {
            if i < ps.len() - 1 {
                assert(prev[i] == ps[i]);
                assert(rest.contains(ps[i]));
                let k = choose|k: int| 0 <= k < rest.len() && rest[k] == ps[i];
                if name_matches(ps.last(), target) {
                    assert(rest.push(ps.last())[k] == ps[i]);
                }
            } else {
                assert(rest.push(ps.last())[rest.len() as int] == ps[i]);
            }
        }
    }
}

/// Matching keeps, in their order, exactly the processes whose name holds
/// `target` as a contiguous run of characters.
pub proof fn law_matching_is_a_filter(ps: Seq<ProcessInfo>, target: Seq<char>)
    ensures
        matching(ps, target) == ps.filter(|p: ProcessInfo| seq_contains(p.name@, target)),
    decreases ps.len(),
{
    let keep = |p: ProcessInfo| seq_contains(p.name@, target);
    reveal(Seq::filter);
    if ps.len() > 0 {
        law_matching_is_a_filter(ps.drop_last(), target);
        assert(ps.filter(keep) == if keep(ps.last()) {
            ps.drop_last().filter(keep).push(ps.last())
        } else {
            ps.drop_last().filter(keep)
        });
    } else {
        assert(ps.filter(keep) =~= Seq::<ProcessInfo>::empty());
    }
}

/// A text contains itself and every text that occurs inside it, and never
/// a longer one.
pub proof fn law_containment(before: Seq<char>, needle: Seq<char>, after: Seq<char>, hay: Seq<char>)
    ensures
        seq_contains(before + needle + after, needle),
        seq_contains(needle, needle),
        seq_contains(hay, needle) ==> needle.len() <= hay.len(),
{
    let whole = before + needle + after;
    assert(whole.subrange(before.len() as int, before.len() as int + needle.len()) =~= needle);
    assert(needle.subrange(0, 0int + needle.len()) =~= needle);
}

/// Process `i` comes before process `j` when the heaviest come first and
/// equal memory keeps the order given.
pub open spec fn ranks_before(ps: Seq<ProcessInfo>, i: int, j: int) -> bool {
    ps[i].memory > ps[j].memory || (ps[i].memory == ps[j].memory && i < j)
}

/// How many of `n` processes make up `percentage` percent, rounded up.
pub open spec fn kill_count(n: nat, percentage: nat) -> nat {
    (n * percentage + 99) / 100
}

/// The cleanup count is `n * percentage / 100` rounded up: enough to
/// cover that share, and one fewer would not be.
pub proof fn law_kill_count_rounds_up(n: nat, percentage: nat)
    ensures
        kill_count(n, percentage) * 100 >= n * percentage,
        kill_count(n, percentage) == 0 || (kill_count(n, percentage) - 1) * 100 < n * percentage,
{
    let m = n * percentage;
    let k = (m + 99) / 100;
    vstd::arithmetic::div_mod::lemma_fundamental_div_mod((m + 99) as int, 100);
    vstd::arithmetic::div_mod::lemma_mod_pos_bound((m + 99) as int, 100);
    assert(k == kill_count(n, percentage));
    assert(100 * k + (m + 99) % 100 == m + 99);
}

/// `sel` lists, heaviest first, the first `count` indices of `ps` in the
/// `ranks_before` order (all of them when `count` exceeds the length).
pub open spec fn is_top_selection(ps: Seq<ProcessInfo>, sel: Seq<usize>, count: nat) -> bool {
    &&& sel.len() == (if count <= ps.len() {
        count
    } else {
        ps.len()
    })
    &&& forall|a: int| 0 <= a < sel.len() ==> #[trigger] sel[a] < ps.len()
    &&& forall|a: int, b: int|
        0 <= a < b < sel.len() ==> ranks_before(ps, #[trigger] sel[a] as int, #[trigger] sel[b] as int)
    &&& forall|i: int, a: int|
        0 <= i < ps.len() && !sel.contains(i as usize) && 0 <= a < sel.len() ==> #[trigger] ranks_before(
            ps,
            sel[a] as int,
            i,
        )
}

/// All indices of `procs`, heaviest first; equal memory keeps the order given.
fn memory_order(procs: &Vec<ProcessInfo>) -> (order: Vec<usize>)
    ensures
        order.len() == procs.len(),
        forall|a: int| 0 <= a < order.len() ==> #[trigger] order[a] < procs.len(),
        forall|a: int, b: int|
            0 <= a < b < order.len() ==> ranks_before(
                procs@,
                #[trigger] order[a] as int,
                #[trigger] order[b] as int,
            ),
        forall|k: usize| k < procs.len() ==> #[trigger] order@.contains(k),
{
    let n = procs.len();
    let mut order: Vec<usize> = Vec::new();
    for i in 0..n
        invariant
            n == procs.len(),
            order.len() == i,
            forall|a: int| 0 <= a < order.len() ==> #[trigger] order[a] < i,
            forall|a: int, b: int|
                0 <= a < b < order.len() ==> ranks_before(
                    procs@,
                    #[trigger] order[a] as int,
                    #[trigger] order[b] as int,
                ),
            forall|k: usize| k < i ==> #[trigger] order@.contains(k),
    {
        let mut pos: usize = 0;
        while pos < order.len() && !(procs[i].memory > procs[order[pos]].memory)
            invariant
                n == procs.len(),
                i < n,
                pos <= order.len(),
                order.len() == i,
                forall|a: int| 0 <= a < order.len() ==> #[trigger] order[a] < i,
                forall|a: int| 0 <= a < pos ==> ranks_before(procs@, #[trigger] order[a] as int, i as int),
            decreases order.len() - pos,
        {
            pos = pos + 1;
        }
        let ghost old_order = order@;
        order.insert(pos, i);
        assert(order@ == old_order.insert(pos as int, i));
        assert forall|b: int| pos <= b < old_order.len() implies ranks_before(
            procs@,
            i as int,
            #[trigger] old_order[b] as int,
        ) by {
            assert(ranks_before(procs@, i as int, old_order[pos as int] as int));
            if b > pos {
                assert(ranks_before(procs@, old_order[pos as int] as int, old_order[b] as int));
            }
        }
        assert forall|a: int, b: int| 0 <= a < b < order.len() implies ranks_before(
            procs@,
            #[trigger] order[a] as int,
            #[trigger] order[b] as int,
        ) by {
            if b < pos {
                assert(order[a] == old_order[a] && order[b] == old_order[b]);
            } else if b == pos {
                assert(order[a] == old_order[a]);
            } else if a < pos {
                assert(order[a] == old_order[a] && order[b] == old_order[b - 1]);
                assert(ranks_before(procs@, old_order[a] as int, i as int));
                assert(ranks_before(procs@, i as int, old_order[b - 1] as int));
            } else if a == pos {
                assert(order[b] == old_order[b - 1]);
            } else {
                assert(order[a] == old_order[a - 1] && order[b] == old_order[b - 1]);
            }
        }
        assert forall|k: usize| k < i + 1 implies #[trigger] order@.contains(k) by {
            if k < i {
                assert(old_order.contains(k));
                let p = choose|p: int| 0 <= p < old_order.len() && old_order[p] == k;
                if p < pos {
                    assert(order@[p] == k);
                } else {
                    assert(order@[p + 1] == k);
                }
            } else {
                assert(order@[pos as int] == i);
            }
        }
    }
    order
}

/// The indices of the `count` heaviest processes, heaviest first; among equal
/// memory the earlier process comes first.
pub fn select_top(procs: &Vec<ProcessInfo>, count: usize) -> (sel: Vec<usize>)
    ensures
        is_top_selection(procs@, sel@, count as nat),
{
    let mut order = memory_order(procs);
    let ghost full = order@;
    if count < order.len() {
        order.truncate(count);
    }
    let k = order.len();
    assert(order@ == full.take(k as int));
    assert forall|i: int, a: int|
        0 <= i < procs@.len() && !order@.contains(i as usize) && 0 <= a < order@.len() implies #[trigger] ranks_before(
        procs@,
        order@[a] as int,
        i,
    ) by {
        assert(full.contains(i as usize));
        let p = choose|p: int| 0 <= p < full.len() && full[p] == i as usize;
        if p < k {
            assert(order@[p] == i as usize);
        }
        assert(full[a] == order@[a]);
    }
    order
}

/// A top selection is ordered by memory, heaviest first, with equal
/// memory in list order, and no process left out is heavier than a chosen
/// one (on equal memory, the chosen one comes earlier in the list).
pub proof fn law_top_selection_by_memory(ps: Seq<ProcessInfo>, sel: Seq<usize>, count: nat)
    requires
        is_top_selection(ps, sel, count),
    ensures
        sel.len() == (if count <= ps.len() {
            count
        } else {
            ps.len()
        }),
        forall|a: int, b: int|
            0 <= a < b < sel.len() ==> ps[#[trigger] sel[a] as int].memory >= ps[#[trigger] sel[b] as int].memory
                && (ps[sel[a] as int].memory == ps[sel[b] as int].memory ==> sel[a] < sel[b]),
        forall|i: int, a: int|
            0 <= i < ps.len() && !sel.contains(i as usize) && 0 <= a < sel.len() ==> ps[#[trigger] sel[a] as int].memory
                >= #[trigger] ps[i].memory && (ps[sel[a] as int].memory == ps[i].memory ==> sel[a] < i),
{
    assert forall|a: int, b: int| 0 <= a < b < sel.len() implies ps[#[trigger] sel[a] as int].memory
        >= ps[#[trigger] sel[b] as int].memory && (ps[sel[a] as int].memory == ps[sel[b] as int].memory
        ==> sel[a] < sel[b]) by {
        assert(ranks_before(ps, sel[a] as int, sel[b] as int));
    }
    assert forall|i: int, a: int|
        0 <= i < ps.len() && !sel.contains(i as usize) && 0 <= a < sel.len() implies ps[#[trigger] sel[a] as int].memory
        >= #[trigger] ps[i].memory && (ps[sel[a] as int].memory == ps[i].memory ==> sel[a] < i) by {
        assert(ranks_before(ps, sel[a] as int, i));
    }
}

proof fn lemma_top_selection_agree_upto(
    ps: Seq<ProcessInfo>,
    s1: Seq<usize>,
    s2: Seq<usize>,
    count: nat,
    a: int,
)
    requires
        is_top_selection(ps, s1, count),
        is_top_selection(ps, s2, count),
        0 <= a < s1.len(),
    ensures
        forall|b: int| 0 <= b <= a ==> s1[b] == s2[b],
    decreases a,
{
    if a > 0 {
        lemma_top_selection_agree_upto(ps, s1, s2, count, a - 1);
    }
    if s1[a] != s2[a] {
        let x = s1[a];
        let y = s2[a];
        assert(x < ps.len() && y < ps.len());
        if ranks_before(ps, x as int, y as int) {
            if s2.contains(x) {
                let b = choose|b: int| 0 <= b < s2.len() && s2[b] == x;
                if b < a {
                    assert(s1[b] == x);
                    assert(ranks_before(ps, s1[b] as int, s1[a] as int));
                } else {
                    assert(ranks_before(ps, s2[a] as int, s2[b] as int));
                }
            } else {
                assert(ranks_before(ps, s2[a] as int, x as int));
            }
        } else {
            assert(ranks_before(ps, y as int, x as int));
            if s1.contains(y) {
                let b = choose|b: int| 0 <= b < s1.len() && s1[b] == y;
                if b < a {
                    assert(s2[b] == y);
                    assert(ranks_before(ps, s2[b] as int, s2[a] as int));
                } else {
                    assert(ranks_before(ps, s1[a] as int, s1[b] as int));
                }
            } else {
                assert(ranks_before(ps, s1[a] as int, y as int));
            }
        }
    }
}

/// The cleanup choice is determined: two lists that both name, heaviest
/// first, the `count` heaviest processes of `ps` are the same list.
pub proof fn lemma_top_selection_unique(
    ps: Seq<ProcessInfo>,
    s1: Seq<usize>,
    s2: Seq<usize>,
    count: nat,
)
    requires
        is_top_selection(ps, s1, count),
        is_top_selection(ps, s2, count),
    ensures
        s1 == s2,
{
    if s1.len() > 0 {
        lemma_top_selection_agree_upto(ps, s1, s2, count, s1.len() - 1);
    }
    assert(s1 =~= s2);
}

} // verus!
