//! How the running coding agents are summarised: per-agent details, the
//! counts across agents, and the order the agents are listed in.
//!
//! Counts arrive in the fixed order of the recognised agents, one per agent.

use vstd::prelude::*;
use vstd::string::*;

use crate::text::{decimal, decimal_text};

verus! {

broadcast use vstd::seq_lib::group_filter_ensures, vstd::seq::Seq::lemma_filter_push;

/// One agent's sessions, as the menu panel and the command line word them.
pub open spec fn session_detail_spec(count: nat) -> Seq<char> {
    if count == 0 {
        "idle"@
    } else if count == 1 {
        "1 session"@
    } else {
        decimal(count) + " sessions"@
    }
}

pub fn session_detail(count: usize) -> (detail: String)
    ensures
        detail@ == session_detail_spec(count as nat),
{
    if count == 0 {
        String::from_str("idle")
    } else if count == 1 {
        String::from_str("1 session")
    } else {
        let mut detail = decimal_text(count as u64);
        detail.append(" sessions");
        detail
    }
}

/// One agent's row on the desktop app's Agents page.
pub open spec fn agent_row_detail_spec(count: nat) -> Seq<char> {
    if count == 0 {
        "Not running"@
    } else if count == 1 {
        "1 session running"@
    } else {
        decimal(count) + " sessions running"@
    }
}

pub fn agent_row_detail(count: usize) -> (detail: String)
    ensures
        detail@ == agent_row_detail_spec(count as nat),
{
    if count == 0 {
        String::from_str("Not running")
    } else if count == 1 {
        String::from_str("1 session running")
    } else {
        let mut detail = decimal_text(count as u64);
        detail.append(" sessions running");
        detail
    }
}

/// Whether an agent has any session running.
pub open spec fn is_running(count: usize) -> bool {
    count > 0
}

/// How many agents have at least one session.
pub open spec fn working_spec(counts: Seq<usize>) -> nat {
    counts.filter(|count: usize| is_running(count)).len()
}

/// All sessions across agents.
pub open spec fn sessions_spec(counts: Seq<usize>) -> int
    decreases counts.len(),
{
    if counts.len() == 0 {
        0
    } else {
        sessions_spec(counts.drop_last()) + counts.last()
    }
}

pub fn working(counts: &Vec<usize>) -> (n: usize)
    ensures
        n == working_spec(counts@),
{
    let mut n: usize = 0;
    let mut i: usize = 0;
    while i < counts.len()
        invariant
            i <= counts@.len(),
            n == working_spec(counts@.take(i as int)),
            n <= i,
        decreases counts.len() - i,
    {
        assert(counts@.take(i + 1) =~= counts@.take(i as int).push(counts@[i as int]));
        if counts[i] > 0 {
            n = n + 1;
        }
        i = i + 1;
    }
    assert(counts@.take(counts.len() as int) =~= counts@);
    n
}

pub fn sessions(counts: &Vec<usize>) -> (total: usize)
    requires
        sessions_spec(counts@) <= usize::MAX,
    ensures
        total == sessions_spec(counts@),
{
    let mut total: usize = 0;
    let mut i: usize = 0;
    while i < counts.len()
        invariant
            i <= counts@.len(),
            total == sessions_spec(counts@.take(i as int)),
            sessions_spec(counts@) <= usize::MAX,
        decreases counts.len() - i,
    {
        assert(counts@.take(i + 1).drop_last() =~= counts@.take(i as int));
        proof {
            lemma_sessions_prefix_bounded(counts@, i as int + 1);
        }
        total = total + counts[i];
        i = i + 1;
    }
    assert(counts@.take(counts.len() as int) =~= counts@);
    total
}

/// A prefix never holds more sessions than the whole list.
proof fn lemma_sessions_prefix_bounded(counts: Seq<usize>, k: int)
    requires
        0 <= k <= counts.len(),
    ensures
        sessions_spec(counts.take(k)) <= sessions_spec(counts),
        sessions_spec(counts.take(k)) >= 0,
    decreases counts.len(),
{
    if counts.len() == 0 {
        assert(counts.take(k) =~= counts);
    } else if k == counts.len() {
        assert(counts.take(k) =~= counts);
        lemma_sessions_prefix_bounded(counts.drop_last(), k - 1);
    } else {
        assert(counts.take(k) =~= counts.drop_last().take(k));
        lemma_sessions_prefix_bounded(counts.drop_last(), k);
    }
}

/// The menu panel's line beside the Agents heading.
pub open spec fn working_summary_spec(working: nat) -> Seq<char> {
    if working == 0 { "all idle"@ } else { decimal(working) + " working"@ }
}

pub fn working_summary(counts: &Vec<usize>) -> (line: String)
    ensures
        line@ == working_summary_spec(working_spec(counts@)),
{
    let n = working(counts);
    if n == 0 {
        String::from_str("all idle")
    } else {
        let mut line = decimal_text(n as u64);
        line.append(" working");
        line
    }
}

/// The caption under the desktop app's Agents card.
pub open spec fn agents_caption_spec(working: nat, sessions: nat) -> Seq<char> {
    if working == 0 {
        "Nothing running right now."@
    } else if working == 1 && sessions == 1 {
        "1 session"@
    } else if working == 1 {
        decimal(sessions) + " sessions in one agent"@
    } else {
        decimal(sessions) + " sessions across "@ + decimal(working) + " agents"@
    }
}

pub fn agents_caption(counts: &Vec<usize>) -> (line: String)
    requires
        sessions_spec(counts@) <= usize::MAX,
    ensures
        line@ == agents_caption_spec(working_spec(counts@), sessions_spec(counts@) as nat),
{
    let n = working(counts);
    let total = sessions(counts);
    if n == 0 {
        String::from_str("Nothing running right now.")
    } else if n == 1 && total == 1 {
        String::from_str("1 session")
    } else if n == 1 {
        let mut line = decimal_text(total as u64);
        line.append(" sessions in one agent");
        line
    } else {
        let mut line = decimal_text(total as u64);
        line.append(" sessions across ");
        let agents = decimal_text(n as u64);
        line.append(agents.as_str());
        line.append(" agents");
        line
    }
}

/// The subtitle of the desktop app's Agents page.
pub open spec fn agents_subtitle_spec(working: nat) -> Seq<char> {
    if working == 0 {
        "None of the agents below is running. The list refreshes every few seconds."@
    } else if working == 1 {
        "One agent is running. Close the lid and it keeps going."@
    } else {
        decimal(working) + " agents are running. Close the lid and they keep going."@
    }
}

pub fn agents_subtitle(counts: &Vec<usize>) -> (line: String)
    ensures
        line@ == agents_subtitle_spec(working_spec(counts@)),
{
    let n = working(counts);
    if n == 0 {
        String::from_str("None of the agents below is running. The list refreshes every few seconds.")
    } else if n == 1 {
        String::from_str("One agent is running. Close the lid and it keeps going.")
    } else {
        let mut line = decimal_text(n as u64);
        line.append(" agents are running. Close the lid and they keep going.");
        line
    }
}

/// The positions `0..n`.
pub open spec fn positions(n: nat) -> Seq<int> {
    Seq::new(n, |i: int| i)
}

/// The agents to list, by position: those running first, then the idle ones,
/// each group in the fixed order, so rows do not shuffle on refresh.
pub open spec fn running_first_spec(counts: Seq<usize>) -> Seq<int> {
    positions(counts.len()).filter(|i: int| counts[i] > 0) + positions(counts.len()).filter(
        |i: int| counts[i] == 0,
    )
}

pub fn running_first(counts: &Vec<usize>) -> (order: Vec<usize>)
    ensures
        order@.map_values(|i: usize| i as int) == running_first_spec(counts@),
{
    let ghost busy_pred = |i: int| counts@[i] > 0;
    let ghost idle_pred = |i: int| counts@[i] == 0;
    let mut busy: Vec<usize> = Vec::new();
    let mut idle: Vec<usize> = Vec::new();
    let mut i: usize = 0;
    while i < counts.len()
        invariant
            i <= counts@.len(),
            busy_pred == (|i: int| counts@[i] > 0),
            idle_pred == (|i: int| counts@[i] == 0),
            busy@.map_values(|i: usize| i as int) == positions(i as nat).filter(busy_pred),
            idle@.map_values(|i: usize| i as int) == positions(i as nat).filter(idle_pred),
        decreases counts.len() - i,
    {
        assert(positions((i + 1) as nat) =~= positions(i as nat).push(i as int));
        if counts[i] > 0 {
            busy.push(i);
        } else {
            idle.push(i);
        }
        assert(busy@.map_values(|i: usize| i as int) =~= positions((i + 1) as nat).filter(
            busy_pred,
        ));
        assert(idle@.map_values(|i: usize| i as int) =~= positions((i + 1) as nat).filter(
            idle_pred,
        ));
        i = i + 1;
    }
    let mut order = busy;
    let ghost busy_view = order@;
    let mut k: usize = 0;
    while k < idle.len()
        invariant
            k <= idle@.len(),
            order@ == busy_view + idle@.take(k as int),
        decreases idle.len() - k,
    {
        order.push(idle[k]);
        assert(idle@.take(k + 1) =~= idle@.take(k as int).push(idle@[k as int]));
        k = k + 1;
    }
    assert(idle@.take(idle.len() as int) =~= idle@);
    assert(order@.map_values(|i: usize| i as int) =~= busy_view.map_values(|i: usize| i as int)
        + idle@.map_values(|i: usize| i as int));
    order
}

/// Splitting positions by a predicate and its negation loses and gains
/// nothing.
proof fn lemma_split_lengths(counts: Seq<usize>, n: nat)
    requires
        n <= counts.len(),
    ensures
        positions(n).filter(|i: int| counts[i] > 0).len() + positions(n).filter(
            |i: int| counts[i] == 0,
        ).len() == n,
    decreases n,
{
    if n > 0 {
        lemma_split_lengths(counts, (n - 1) as nat);
        assert(positions(n) =~= positions((n - 1) as nat).push(n - 1));
    }
}

/// The listing order shows every agent exactly once, and never an idle agent
/// above a running one.
pub proof fn lemma_running_agents_come_first(counts: Seq<usize>)
    ensures
        ({
            let order = running_first_spec(counts);
            &&& order.len() == counts.len()
            &&& forall|i: int| 0 <= i < counts.len() ==> #[trigger] order.contains(i)
            &&& forall|p: int, q: int|
                #![trigger order[p], order[q]]
                0 <= p < q < order.len() && counts[order[q]] > 0 ==> counts[order[p]] > 0
            &&& forall|p: int| 0 <= p < order.len() ==> 0 <= #[trigger] order[p] < counts.len()
        }),
{
    let busy_pred = |i: int| counts[i] > 0;
    let idle_pred = |i: int| counts[i] == 0;
    let all = positions(counts.len());
    let busy = all.filter(busy_pred);
    let idle = all.filter(idle_pred);
    let order = running_first_spec(counts);
    lemma_split_lengths(counts, counts.len());
    assert forall|i: int| 0 <= i < counts.len() implies #[trigger] order.contains(i) by {
        assert(all[i] == i);
        if counts[i] > 0 {
            assert(busy.contains(all[i]));
            let j = choose|j: int| 0 <= j < busy.len() && busy[j] == i;
            assert(order[j] == i);
        } else {
            assert(idle.contains(all[i]));
            let j = choose|j: int| 0 <= j < idle.len() && idle[j] == i;
            assert(order[busy.len() + j] == i);
        }
    }
    assert forall|p: int| 0 <= p < order.len() implies 0 <= #[trigger] order[p] < counts.len() by {
        let x = order[p];
        if p < busy.len() {
            assert(busy.contains(busy[p]));
            all.lemma_filter_contains_rev(busy_pred, x);
        } else {
            assert(idle.contains(idle[p - busy.len()]));
            all.lemma_filter_contains_rev(idle_pred, x);
        }
        let j = choose|j: int| 0 <= j < all.len() && all[j] == x;
        assert(all[j] == j);
    }
    assert forall|p: int, q: int|
        #![trigger order[p], order[q]]
        0 <= p < q < order.len() && counts[order[q]] > 0 implies counts[order[p]] > 0 by {
        if q < busy.len() {
            assert(busy_pred(busy[p]));
        } else {
            assert(idle_pred(idle[q - busy.len()]));
        }
    }
}

} // verus!
