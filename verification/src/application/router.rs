//! Capability-based routing: picks the agents able to run a subtask by the
//! capabilities they declare, preferring higher priorities.
//!
//! The router keeps the metadata of the registered agents, one per id, in
//! the order they were first registered.

use vstd::prelude::*;
use vstd::string::*;

use crate::domain::agent::AgentInfo;
use crate::domain::error::OrchestratorError;
use crate::text::str_eq;

verus! {

/// Whether `a` may serve capability `cap`: it is enabled and declares it.
pub open spec fn eligible(a: AgentInfo, cap: Seq<char>) -> bool {
    a.enabled && a.declares(cap)
}

/// Index `k` holds the first agent of highest priority among those eligible for `cap`.
pub open spec fn is_first_best(s: Seq<AgentInfo>, cap: Seq<char>, k: int) -> bool {
    &&& 0 <= k < s.len()
    &&& eligible(s[k], cap)
    &&& forall|j: int| 0 <= j < s.len() && eligible(#[trigger] s[j], cap) ==> s[j].priority <= s[k].priority
    &&& forall|j: int| 0 <= j < k && eligible(#[trigger] s[j], cap) ==> s[j].priority < s[k].priority
}

/// Whether some agent of `s` holds id `id`.
pub open spec fn has_id(s: Seq<AgentInfo>, id: Seq<char>) -> bool {
    exists|i: int| 0 <= i < s.len() && (#[trigger] s[i]).id@ == id
}

/// The agents after registering `info`: it replaces the agent with the same
/// id in place, or is added last.
pub open spec fn registered(s: Seq<AgentInfo>, info: AgentInfo) -> Seq<AgentInfo> {
    if has_id(s, info.id@) {
        s.update(choose|i: int| 0 <= i < s.len() && (#[trigger] s[i]).id@ == info.id@, info)
    } else {
        s.push(info)
    }
}

/// The agents after removing the one with id `id`, if any.
pub open spec fn unregistered(s: Seq<AgentInfo>, id: Seq<char>) -> Seq<AgentInfo> {
    if has_id(s, id) {
        s.remove(choose|i: int| 0 <= i < s.len() && (#[trigger] s[i]).id@ == id)
    } else {
        s
    }
}

/// Ids of the enabled agents of `s`, in order.
pub open spec fn enabled_ids(s: Seq<AgentInfo>) -> Seq<Seq<char>>
    decreases s.len(),
{
    if s.len() == 0 {
        Seq::empty()
    } else if s.last().enabled {
        enabled_ids(s.drop_last()).push(s.last().id@)
    } else {
        enabled_ids(s.drop_last())
    }
}

/// `a` and `b` hold the same metadata.
pub open spec fn same_info(a: AgentInfo, b: AgentInfo) -> bool {
    &&& a.id == b.id
    &&& a.display_name == b.display_name
    &&& a.capabilities@ == b.capabilities@
    &&& a.max_concurrency == b.max_concurrency
    &&& a.default_timeout == b.default_timeout
    &&& a.enabled == b.enabled
    &&& a.priority == b.priority
}

/// Id and priority of each agent eligible for `cap`, in registration order.
pub open spec fn matching_entries(s: Seq<AgentInfo>, cap: Seq<char>) -> Seq<(Seq<char>, u32)>
    decreases s.len(),
{
    if s.len() == 0 {
        Seq::empty()
    } else if eligible(s.last(), cap) {
        matching_entries(s.drop_last(), cap).push((s.last().id@, s.last().priority))
    } else {
        matching_entries(s.drop_last(), cap)
    }
}

/// Where an entry of priority `p` goes in `s`: before the first entry of
/// lower priority.
pub open spec fn insert_pos(s: Seq<(Seq<char>, u32)>, p: u32) -> int
    decreases s.len(),
{
    if s.len() == 0 {
        0
    } else if s[0].1 < p {
        0
    } else {
        1 + insert_pos(s.drop_first(), p)
    }
}

/// `e` ordered by decreasing priority; entries of equal priority keep their order.
pub open spec fn by_priority(e: Seq<(Seq<char>, u32)>) -> Seq<(Seq<char>, u32)>
    decreases e.len(),
{
    if e.len() == 0 {
        Seq::empty()
    } else {
        let s = by_priority(e.drop_last());
        s.insert(insert_pos(s, e.last().1), e.last())
    }
}

/// Priorities never increase along `s`.
pub open spec fn priority_descending(s: Seq<(Seq<char>, u32)>) -> bool {
    forall|i: int, j: int| 0 <= i < j < s.len() ==> #[trigger] s[i].1 >= #[trigger] s[j].1
}

proof fn lemma_insert_pos(s: Seq<(Seq<char>, u32)>, p: u32)
    ensures
        0 <= insert_pos(s, p) <= s.len(),
        forall|j: int| 0 <= j < insert_pos(s, p) ==> #[trigger] s[j].1 >= p,
        insert_pos(s, p) < s.len() ==> s[insert_pos(s, p)].1 < p,
    decreases s.len(),
{
    if s.len() > 0 && s[0].1 >= p {
        lemma_insert_pos(s.drop_first(), p);
        assert forall|j: int| 0 <= j < insert_pos(s, p) implies #[trigger] s[j].1 >= p by {
            if j > 0 {
                assert(s[j] == s.drop_first()[j - 1]);
            }
        }
    }
}

proof fn lemma_insert_keeps_descending(s: Seq<(Seq<char>, u32)>, x: (Seq<char>, u32))
    requires
        priority_descending(s),
    ensures
        priority_descending(s.insert(insert_pos(s, x.1), x)),
{
    lemma_insert_pos(s, x.1);
    let k = insert_pos(s, x.1);
    let t = s.insert(k, x);
    assert forall|i: int, j: int| 0 <= i < j < t.len() implies #[trigger] t[i].1 >= #[trigger] t[j].1 by {
        if j < k {
            assert(t[i] == s[i] && t[j] == s[j]);
        } else if j == k {
            assert(t[i] == s[i]);
        } else if i == k {
            assert(t[j] == s[j - 1]);
            assert(s[k].1 < x.1);
            if j - 1 > k {
                assert(s[k].1 >= s[j - 1].1);
            }
        } else if i < k {
            assert(t[i] == s[i] && t[j] == s[j - 1]);
        } else {
            assert(t[i] == s[i - 1] && t[j] == s[j - 1]);
        }
    }
}

/// The matching agents are listed by decreasing priority, and the listing
/// holds each matching agent exactly once.
pub proof fn law_all_matching_is_sorted_permutation(e: Seq<(Seq<char>, u32)>)
    ensures
        priority_descending(by_priority(e)),
        by_priority(e).to_multiset() == e.to_multiset(),
    decreases e.len(),
{
    broadcast use vstd::seq_lib::to_multiset_insert, vstd::seq_lib::to_multiset_build;

    if e.len() == 0 {
        assert(e =~= Seq::<(Seq<char>, u32)>::empty());
    } else {
        law_all_matching_is_sorted_permutation(e.drop_last());
        let s = by_priority(e.drop_last());
        lemma_insert_keeps_descending(s, e.last());
        lemma_insert_pos(s, e.last().1);
        assert(e.drop_last().push(e.last()) =~= e);
        vstd::seq_lib::to_multiset_insert(s, insert_pos(s, e.last().1), e.last());
        vstd::seq_lib::to_multiset_build(e.drop_last(), e.last());
        assert(by_priority(e) == s.insert(insert_pos(s, e.last().1), e.last()));
        assert(by_priority(e).to_multiset() == s.to_multiset().insert(e.last()));
        assert(s.to_multiset() == e.drop_last().to_multiset());
        assert(e.drop_last().push(e.last()).to_multiset() == e.drop_last().to_multiset().insert(e.last()));
    }
}

/// Index `j` holds the first entry of highest priority in `e`.
pub open spec fn is_first_max(e: Seq<(Seq<char>, u32)>, j: int) -> bool {
    &&& 0 <= j < e.len()
    &&& forall|i: int| 0 <= i < e.len() ==> #[trigger] e[i].1 <= e[j].1
    &&& forall|i: int| 0 <= i < j ==> #[trigger] e[i].1 < e[j].1
}

proof fn lemma_by_priority_len(e: Seq<(Seq<char>, u32)>)
    ensures
        by_priority(e).len() == e.len(),
    decreases e.len(),
{
    if e.len() > 0 {
        lemma_by_priority_len(e.drop_last());
        lemma_insert_pos(by_priority(e.drop_last()), e.last().1);
    }
}

proof fn lemma_by_priority_head(e: Seq<(Seq<char>, u32)>, j: int)
    requires
        is_first_max(e, j),
    ensures
        by_priority(e).len() == e.len(),
        by_priority(e)[0] == e[j],
    decreases e.len(),
{
    broadcast use vstd::seq_lib::to_multiset_contains, vstd::seq_lib::to_multiset_len;

    let x = e.last();
    let d = e.drop_last();
    let s = by_priority(d);
    law_all_matching_is_sorted_permutation(d);
    lemma_insert_pos(s, x.1);
    lemma_by_priority_len(e);
    lemma_by_priority_len(d);
    if e.len() == 1 {
        assert(s =~= Seq::<(Seq<char>, u32)>::empty());
    } else if j == e.len() - 1 {
        assert(s.len() == d.len());
        assert(s.contains(s[0]));
        assert(d.to_multiset().count(s[0]) > 0);
        assert(d.contains(s[0]));
        let w = choose|w: int| 0 <= w < d.len() && d[w] == s[0];
        assert(e[w] == d[w]);
        assert(e[w].1 < e[j].1);
        assert(insert_pos(s, x.1) == 0);
    } else {
        assert forall|i: int| 0 <= i < d.len() implies #[trigger] d[i].1 <= d[j].1 by {
            assert(d[i] == e[i]);
        }
        assert forall|i: int| 0 <= i < j implies #[trigger] d[i].1 < d[j].1 by {
            assert(d[i] == e[i]);
        }
        lemma_by_priority_head(d, j);
        assert(e[e.len() - 1].1 <= e[j].1);
        assert(insert_pos(s, x.1) > 0);
    }
}

proof fn lemma_first_best_heads_matching(s: Seq<AgentInfo>, cap: Seq<char>, k: int)
    requires
        is_first_best(s, cap, k),
    ensures
        exists|j: int|
            is_first_max(matching_entries(s, cap), j) && #[trigger] matching_entries(s, cap)[j] == (
                s[k].id@,
                s[k].priority,
            ),
    decreases s.len(),
{
    let t = s.drop_last();
    let mt = matching_entries(t, cap);
    let m = matching_entries(s, cap);
    if k == s.len() - 1 {
        assert(m == mt.push((s[k].id@, s[k].priority)));
        let j = mt.len() as int;
        assert forall|i: int| 0 <= i < m.len() implies #[trigger] m[i].1 <= m[j].1 && (i < j ==> m[i].1
            < m[j].1) by {
            if i < j {
                assert(m[i] == mt[i]);
                assert(mt.contains(mt[i]));
                lemma_matching_entries_sound(t, cap, mt[i]);
                let q = choose|q: int| 0 <= q < t.len() && eligible(#[trigger] t[q], cap) && mt[i].1 == t[q].priority;
                assert(t[q] == s[q]);
            }
        }
        assert(is_first_max(m, j));
    } else {
        assert forall|i: int| 0 <= i < t.len() && eligible(#[trigger] t[i], cap) implies t[i].priority
            <= t[k].priority by {
            assert(t[i] == s[i]);
        }
        assert forall|i: int| 0 <= i < k && eligible(#[trigger] t[i], cap) implies t[i].priority
            < t[k].priority by {
            assert(t[i] == s[i]);
        }
        assert(t[k] == s[k]);
        lemma_first_best_heads_matching(t, cap, k);
        let j = choose|j: int| is_first_max(mt, j) && #[trigger] mt[j] == (t[k].id@, t[k].priority);
        if eligible(s.last(), cap) {
            assert(m == mt.push((s.last().id@, s.last().priority)));
            assert(eligible(s[s.len() - 1], cap));
            assert forall|i: int| 0 <= i < m.len() implies #[trigger] m[i].1 <= m[j].1 by {
                if i < mt.len() {
                    assert(m[i] == mt[i]);
                }
            }
            assert forall|i: int| 0 <= i < j implies #[trigger] m[i].1 < m[j].1 by {
                assert(m[i] == mt[i]);
            }
            assert(m[j] == mt[j]);
        }
        assert(is_first_max(m, j));
    }
}

/// The agent `route` picks is the first one `all_matching` lists.
pub proof fn law_route_agrees_with_all_matching(s: Seq<AgentInfo>, cap: Seq<char>, k: int)
    requires
        is_first_best(s, cap, k),
    ensures
        by_priority(matching_entries(s, cap)).len() > 0,
        by_priority(matching_entries(s, cap))[0] == (s[k].id@, s[k].priority),
{
    lemma_first_best_heads_matching(s, cap, k);
    let m = matching_entries(s, cap);
    let j = choose|j: int| is_first_max(m, j) && #[trigger] m[j] == (s[k].id@, s[k].priority);
    lemma_by_priority_head(m, j);
}

proof fn lemma_matching_entries_sound(s: Seq<AgentInfo>, cap: Seq<char>, x: (Seq<char>, u32))
    requires
        matching_entries(s, cap).contains(x),
    ensures
        exists|j: int| 0 <= j < s.len() && eligible(#[trigger] s[j], cap) && x.1 == s[j].priority,
    decreases s.len(),
{
    if s.len() > 0 {
        let m = matching_entries(s.drop_last(), cap);
        if eligible(s.last(), cap) && x == (s.last().id@, s.last().priority) {
            assert(eligible(s[s.len() - 1], cap));
        } else {
            let w = choose|w: int| 0 <= w < matching_entries(s, cap).len() && matching_entries(s, cap)[w] == x;
            assert(m[w] == x);
            lemma_matching_entries_sound(s.drop_last(), cap, x);
            let j = choose|j: int| 0 <= j < s.drop_last().len() && eligible(#[trigger] s.drop_last()[j], cap)
                && x.1 == s.drop_last()[j].priority;
            assert(s[j] == s.drop_last()[j]);
        }
    }
}

/// A capability-based router over the registered agents' metadata.
pub struct CapabilityRouter {
    agents: Vec<AgentInfo>,
}

impl View for CapabilityRouter {
    type V = Seq<AgentInfo>;

    closed spec fn view(&self) -> Seq<AgentInfo> {
        self.agents@
    }
}

impl CapabilityRouter {
    /// No two registered agents share an id.
    pub closed spec fn wf(&self) -> bool {
        forall|i: int, j: int|
            0 <= i < self.agents@.len() && 0 <= j < self.agents@.len() && i != j ==> (#[trigger] self.agents@[i]).id@
                != (#[trigger] self.agents@[j]).id@
    }

    /// Create a new empty router.
    pub fn new() -> (r: CapabilityRouter)
        ensures
            r.wf(),
            r@ == Seq::<AgentInfo>::empty(),
    {
        CapabilityRouter { agents: Vec::new() }
    }

    fn position(&self, agent_id: &str) -> (r: Option<usize>)
        requires
            self.wf(),
        ensures
            r matches Some(i) ==> i < self@.len() && self@[i as int].id@ == agent_id@ && i as int == choose|
                k: int,
            | 0 <= k < self@.len() && (#[trigger] self@[k]).id@ == agent_id@,
            r is None ==> !has_id(self@, agent_id@),
    {
        let mut i: usize = 0;
        while i < self.agents.len()
            invariant
                self.wf(),
                i <= self.agents.len(),
                forall|j: int| 0 <= j < i ==> (#[trigger] self.agents@[j]).id@ != agent_id@,
            decreases self.agents.len() - i,
        {
            if str_eq(self.agents[i].id.as_str(), agent_id) {
                assert(has_id(self@, agent_id@));
                let ghost c = choose|k: int| 0 <= k < self@.len() && (#[trigger] self@[k]).id@ == agent_id@;
                assert(c == i);
                return Some(i);
            }
            i = i + 1;
        }
        None
    }

    /// Register an agent; an agent registered under the same id is replaced.
    pub fn register(&mut self, info: AgentInfo)
        requires
            old(self).wf(),
        ensures
            final(self).wf(),
            final(self)@ == registered(old(self)@, info),
    {
        match self.position(info.id.as_str()) {
            Some(i) => {
                self.agents.set(i, info);
            },
            None => {
                self.agents.push(info);
                assert forall|a: int, b: int|
                    0 <= a < self.agents@.len() && 0 <= b < self.agents@.len() && a != b implies (
                    #[trigger] self.agents@[a]).id@ != (#[trigger] self.agents@[b]).id@ by {
                    if a < old(self).agents@.len() && b < old(self).agents@.len() {
                        assert(self.agents@[a] == old(self).agents@[a]);
                        assert(self.agents@[b] == old(self).agents@[b]);
                    } else if a < old(self).agents@.len() {
                        assert(self.agents@[a] == old(self)@[a]);
                    } else {
                        assert(self.agents@[b] == old(self)@[b]);
                    }
                }
            },
        }
    }

    /// Unregister an agent by id.
    pub fn unregister(&mut self, agent_id: &str)
        requires
            old(self).wf(),
        ensures
            final(self).wf(),
            final(self)@ == unregistered(old(self)@, agent_id@),
    {
        match self.position(agent_id) {
            Some(i) => {
                self.agents.remove(i);
                assert forall|a: int, b: int|
                    0 <= a < self.agents@.len() && 0 <= b < self.agents@.len() && a != b implies (
                    #[trigger] self.agents@[a]).id@ != (#[trigger] self.agents@[b]).id@ by {
                    let a2 = if a < i { a } else { a + 1 };
                    let b2 = if b < i { b } else { b + 1 };
                    assert(self.agents@[a] == old(self).agents@[a2]);
                    assert(self.agents@[b] == old(self).agents@[b2]);
                }
            },
            None => {},
        }
    }

    /// Metadata of all registered agents, in registration order.
    pub fn all_agent_info(&self) -> (r: Vec<AgentInfo>)
        ensures
            r@.len() == self@.len(),
            forall|i: int| 0 <= i < r@.len() ==> same_info(#[trigger] r@[i], self@[i]),
    {
        let mut r: Vec<AgentInfo> = Vec::new();
        let mut i: usize = 0;
        while i < self.agents.len()
            invariant
                i <= self.agents.len(),
                r@.len() == i,
                forall|j: int| 0 <= j < i ==> same_info(#[trigger] r@[j], self@[j]),
            decreases self.agents.len() - i,
        {
            r.push(self.agents[i].duplicate());
            i = i + 1;
        }
        r
    }

    /// Metadata of the agent registered under `agent_id`, if any.
    pub fn get_agent(&self, agent_id: &str) -> (r: Option<&AgentInfo>)
        requires
            self.wf(),
        ensures
            r is None <==> !has_id(self@, agent_id@),
            r matches Some(a) ==> a.id@ == agent_id@ && self@.contains(*a),
    {
        match self.position(agent_id) {
            Some(i) => Some(&self.agents[i]),
            None => None,
        }
    }

    /// Ids of the enabled agents, in registration order.
    pub fn active_agents(&self) -> (r: Vec<String>)
        ensures
            r@.map_values(|s: String| s@) == enabled_ids(self@),
    {
        let mut r: Vec<String> = Vec::new();
        let mut i: usize = 0;
        while i < self.agents.len()
            invariant
                i <= self.agents.len(),
                r@.map_values(|s: String| s@) == enabled_ids(self@.take(i as int)),
            decreases self.agents.len() - i,
        {
            let ghost prev = r@;
            let ghost tk = self@.take(i + 1);
            assert(tk.drop_last() =~= self@.take(i as int));
            assert(tk.last() == self@[i as int]);
            if self.agents[i].enabled {
                r.push(self.agents[i].id.clone());
                assert(r@.map_values(|s: String| s@) =~= prev.map_values(|s: String| s@).push(
                    self@[i as int].id@,
                ));
            }
            i = i + 1;
        }
        assert(self@.take(self.agents.len() as int) =~= self@);
        r
    }

    /// The id of the best agent for a capability: among the enabled agents
    /// that declare it, the one of highest priority, the first registered
    /// among equals.
    ///
    /// Fails with `InvalidConfig` when no enabled agent declares the capability.
    pub fn route(&self, capability: &str) -> (r: Result<String, OrchestratorError>)
        requires
            self.wf(),
        ensures
            r is Ok <==> exists|k: int| 0 <= k < self@.len() && eligible(#[trigger] self@[k], capability@),
            r matches Ok(id) ==> exists|k: int| is_first_best(self@, capability@, k) && (
            #[trigger] self@[k]).id@ == id@,
            r is Err ==> (r matches Err(OrchestratorError::InvalidConfig(m)) && m@
                == "no enabled agent found for capability '"@ + capability@ + "'"@),
    {
        let mut best: Option<usize> = None;
        let mut i: usize = 0;
        while i < self.agents.len()
            invariant
                i <= self.agents.len(),
                best matches Some(b) ==> b < i && is_first_best(self@.take(i as int), capability@, b as int),
                best is None ==> forall|j: int| 0 <= j < i ==> !eligible(#[trigger] self@[j], capability@),
            decreases self.agents.len() - i,
        {
            let info = &self.agents[i];
            let ghost t = self@.take(i + 1);
            assert(forall|j: int| 0 <= j < i ==> self@.take(i as int)[j] == #[trigger] t[j]);
            if info.enabled && info.has_capability(capability) {
                match best {
                    Some(b) => {
                        if info.priority > self.agents[b].priority {
                            best = Some(i);
                        }
                    },
                    None => {
                        best = Some(i);
                    },
                }
            }
            proof {
                if let Some(b) = best {
                    assert forall|j: int| 0 <= j < t.len() && eligible(#[trigger] t[j], capability@) implies t[j].priority
                        <= t[b as int].priority by {
                        if j < i {
                            assert(self@.take(i as int)[j] == t[j]);
                        }
                    }
                    assert forall|j: int| 0 <= j < b && eligible(#[trigger] t[j], capability@) implies t[j].priority
                        < t[b as int].priority by {
                        assert(self@.take(i as int)[j] == t[j]);
                    }
                }
            }
            i = i + 1;
        }
        assert(self@.take(self.agents.len() as int) =~= self@);
        match best {
            Some(b) => Ok(self.agents[b].id.clone()),
            None => {
                let mut m = String::from_str("no enabled agent found for capability '");
                m.append(capability);
                m.append("'");
                Err(OrchestratorError::InvalidConfig(m))
            },
        }
    }

    /// Ids of all enabled agents declaring the capability, by decreasing
    /// priority (agents of equal priority in registration order).
    pub fn all_matching(&self, capability: &str) -> (r: Vec<String>)
        ensures
            r@.map_values(|s: String| s@) == by_priority(matching_entries(self@, capability@)).map_values(
                |e: (Seq<char>, u32)| e.0,
            ),
    {
        let mut sorted: Vec<(String, u32)> = Vec::new();
        let mut i: usize = 0;
        while i < self.agents.len()
            invariant
                i <= self.agents.len(),
                sorted@.map_values(|p: (String, u32)| (p.0@, p.1)) == by_priority(
                    matching_entries(self@.take(i as int), capability@),
                ),
            decreases self.agents.len() - i,
        {
            let info = &self.agents[i];
            assert(self@.take(i + 1).drop_last() =~= self@.take(i as int));
            if info.enabled && info.has_capability(capability) {
                insert_by_priority(&mut sorted, info.id.clone(), info.priority);
                let ghost e = matching_entries(self@.take(i as int), capability@);
                assert(self@.take(i + 1).last() == self@[i as int]);
                assert(matching_entries(self@.take(i + 1), capability@) == e.push((info.id@, info.priority)));
                assert(e.push((info.id@, info.priority)).drop_last() =~= e);
            } else {
                assert(self@.take(i + 1).last() == self@[i as int]);
            }
            i = i + 1;
        }
        assert(self@.take(self.agents.len() as int) =~= self@);
        let mut r: Vec<String> = Vec::new();
        let mut j: usize = 0;
        while j < sorted.len()
            invariant
                j <= sorted.len(),
                r@.map_values(|s: String| s@) == sorted@.map_values(|p: (String, u32)| (p.0@, p.1)).take(
                    j as int,
                ).map_values(|e: (Seq<char>, u32)| e.0),
            decreases sorted.len() - j,
        {
            let ghost prev = r@;
            let ghost sv = sorted@.map_values(|p: (String, u32)| (p.0@, p.1));
            r.push(sorted[j].0.clone());
            assert(r@.map_values(|s: String| s@) =~= prev.map_values(|s: String| s@).push(sv[j as int].0));
            assert(sv.take(j + 1) =~= sv.take(j as int).push(sv[j as int]));
            assert(r@.map_values(|s: String| s@) =~= sorted@.map_values(|p: (String, u32)| (p.0@, p.1)).take(
                j + 1,
            ).map_values(|e: (Seq<char>, u32)| e.0));
            j = j + 1;
        }
        assert(sorted@.map_values(|p: (String, u32)| (p.0@, p.1)).take(sorted.len() as int) =~= sorted@.map_values(
            |p: (String, u32)| (p.0@, p.1),
        ));
        r
    }
}

fn insert_by_priority(sorted: &mut Vec<(String, u32)>, id: String, priority: u32)
    ensures
        final(sorted)@.map_values(|p: (String, u32)| (p.0@, p.1)) == ({
            let s = old(sorted)@.map_values(|p: (String, u32)| (p.0@, p.1));
            s.insert(insert_pos(s, priority), (id@, priority))
        }),
{
    let ghost s = sorted@.map_values(|p: (String, u32)| (p.0@, p.1));
    let mut pos: usize = 0;
    assert(s.skip(0) =~= s);
    while pos < sorted.len() && sorted[pos].1 >= priority
        invariant
            pos <= sorted.len(),
            s == sorted@.map_values(|p: (String, u32)| (p.0@, p.1)),
            insert_pos(s, priority) == pos + insert_pos(s.skip(pos as int), priority),
        decreases sorted.len() - pos,
    {
        assert(s.skip(pos as int).drop_first() =~= s.skip(pos + 1));
        pos = pos + 1;
    }
    proof {
        if pos < sorted.len() {
            assert(s.skip(pos as int)[0] == s[pos as int]);
        } else {
            assert(s.skip(pos as int) =~= Seq::<(Seq<char>, u32)>::empty());
        }
    }
    let ghost idv = id@;
    sorted.insert(pos, (id, priority));
    assert(sorted@.map_values(|p: (String, u32)| (p.0@, p.1)) =~= s.insert(pos as int, (idv, priority)));
}

impl Default for CapabilityRouter {
    fn default() -> (r: CapabilityRouter)
        ensures
            r.wf(),
            r@ == Seq::<AgentInfo>::empty(),
    {
        CapabilityRouter::new()
    }
}

} // verus!
