use vstd::prelude::*;
use crate::content::{ToolCallPart, ToolResultPart};
use crate::message::CoreMessage;

verus! {

/// Content that a tool result may be turned into for the model.
#[derive(Debug, Clone, Copy, PartialEq, Eq, Structural)]
pub struct ToolResultContent {}

/// The type a tool's arguments are parsed into.
pub trait ToolParameters {
    type Output;
}

/// Parameters described by the type they parse into.
pub struct Schema<T> {
    pub _type: std::marker::PhantomData<T>,
}

impl<T> ToolParameters for Schema<T> {
    type Output = T;
}

/// The context handed to a tool's execution: the id of the call and the
/// conversation so far.
#[derive(Debug)]
pub struct ToolExecutionOptions {
    pub tool_call_id: String,
    pub messages: Vec<CoreMessage>,
}

/// A registered tool: what it does and the JSON schema of its arguments.
#[derive(Debug)]
pub struct Tool {
    pub description: Option<String>,
    pub parameters: String,
}

/// The tools available to a generation, keyed by unique name. It is only read
/// while a generation runs, so generations may share one.
#[derive(Debug)]
pub struct ToolSet {
    pub entries: Vec<(String, Tool)>,
}

impl ToolSet {
    /// The registered names, in order of registration.
    pub open spec fn names(&self) -> Seq<Seq<char>> {
        self.entries@.map_values(|e: (String, Tool)| e.0@)
    }

    pub open spec fn has_tool(&self, name: Seq<char>) -> bool {
        self.names().contains(name)
    }

    /// Names are unique.
    pub open spec fn wf(&self) -> bool {
        self.names().no_duplicates()
    }

    pub fn new() -> (r: ToolSet)
        ensures
            r.wf(),
            r.names() == Seq::<Seq<char>>::empty(),
    {
        ToolSet { entries: Vec::new() }
    }

    /// The position of the tool with the given name, if one is registered.
    pub fn find(&self, name: &String) -> (r: Option<usize>)
        ensures
            r is Some <==> self.has_tool(name@),
            r is Some ==> r->Some_0 < self.entries@.len() && self.names()[r->Some_0 as int] == name@,
    {
        let mut i: usize = 0;
        while i < self.entries.len()
            invariant
                0 <= i <= self.entries@.len(),
                forall|k: int| 0 <= k < i ==> self.names()[k] != name@,
            decreases self.entries@.len() - i,
        {
            if self.entries[i].0 == *name {
                proof {
                    assert(self.names()[i as int] == name@);
                }
                return Some(i);
            }
            i = i + 1;
        }
        proof {
            if self.has_tool(name@) {
                let k = choose|k: int| 0 <= k < self.names().len() && self.names()[k] == name@;
                assert(self.names()[k] == name@);
            }
        }
        None
    }

    /// Registers a tool under a name that is not taken yet; a taken name
    /// leaves the set unchanged and is reported by `false`.
    pub fn register(&mut self, name: String, tool: Tool) -> (r: bool)
        requires
            old(self).wf(),
        ensures
            final(self).wf(),
            r == !old(self).has_tool(name@),
            r ==> final(self).entries@ == old(self).entries@.push((name, tool)),
            !r ==> *final(self) == *old(self),
    {
        match self.find(&name) {
            Some(_) => false,
            None => {
                let ghost old_names = self.names();
                self.entries.push((name, tool));
                proof {
                    assert(self.names() =~= old_names.push(name@));
                }
                true
            },
        }
    }
}

/// What running a tool gave: its result, or the description of its failure.
#[derive(Debug)]
pub enum ToolOutcome {
    Returned(String),
    Failed(String),
}

impl Clone for ToolOutcome {
    fn clone(&self) -> (r: Self)
        ensures
            r == *self,
    {
        match self {
            ToolOutcome::Returned(s) => ToolOutcome::Returned(s.clone()),
            ToolOutcome::Failed(s) => ToolOutcome::Failed(s.clone()),
        }
    }
}

/// The outcome of the tool call at position `index` of a step, in the order
/// in which the outcomes came in.
#[derive(Debug)]
pub struct ToolArrival {
    pub index: usize,
    pub outcome: ToolOutcome,
}

impl View for ToolResultPart {
    type V = (Seq<char>, Seq<char>, Seq<char>, Option<bool>);

    open spec fn view(&self) -> Self::V {
        (self.tool_call_id@, self.tool_name@, self.result@, self.is_error)
    }
}

/// The result fed back for a call whose tool is not registered.
pub open spec fn tool_not_found_text() -> Seq<char> {
    "tool not found"@
}

/// The result part of one call: an error when its tool is not registered,
/// otherwise what running the tool gave, flagged as an error if it failed.
pub open spec fn expected_result(tools: ToolSet, call: ToolCallPart, outcome: ToolOutcome) -> (
    Seq<char>,
    Seq<char>,
    Seq<char>,
    Option<bool>,
) {
    if !tools.has_tool(call.tool_name@) {
        (call.tool_call_id@, call.tool_name@, tool_not_found_text(), Some(true))
    } else {
        match outcome {
            ToolOutcome::Returned(s) => (call.tool_call_id@, call.tool_name@, s@, Some(false)),
            ToolOutcome::Failed(s) => (call.tool_call_id@, call.tool_name@, s@, Some(true)),
        }
    }
}

/// One of the first `m` arrivals is for position `i`.
pub open spec fn arrived_among(a: Seq<ToolArrival>, m: int, i: int) -> bool {
    exists|j: int| 0 <= j < m && (#[trigger] a[j]).index == i
}

/// Each position below `n` has exactly one arrival, and no arrival names
/// another position.
pub open spec fn is_arrangement(a: Seq<ToolArrival>, n: nat) -> bool {
    &&& forall|j: int| 0 <= j < a.len() ==> (#[trigger] a[j]).index < n
    &&& forall|j: int, k: int| 0 <= j < k < a.len() ==> (#[trigger] a[j]).index != (#[trigger] a[k]).index
    &&& forall|i: int| 0 <= i < n ==> #[trigger] arrived_among(a, a.len() as int, i)
}

/// The outcome that arrived for position `i`.
pub open spec fn outcome_at(a: Seq<ToolArrival>, i: int) -> ToolOutcome {
    a[choose|j: int| 0 <= j < a.len() && (#[trigger] a[j]).index == i].outcome
}

/// The result parts of a step, in the order in which the calls were requested.
pub open spec fn expected_results(tools: ToolSet, calls: Seq<ToolCallPart>, a: Seq<ToolArrival>) -> Seq<
    (Seq<char>, Seq<char>, Seq<char>, Option<bool>),
> {
    Seq::new(calls.len(), |i: int| expected_result(tools, calls[i], outcome_at(a, i)))
}

proof fn lemma_outcome_at(a: Seq<ToolArrival>, j: int)
    requires
        forall|j: int, k: int| 0 <= j < k < a.len() ==> (#[trigger] a[j]).index != (#[trigger] a[k]).index,
        0 <= j < a.len(),
    ensures
        outcome_at(a, a[j].index as int) == a[j].outcome,
{
    let i = a[j].index as int;
    assert(0 <= j < a.len() && a[j].index == i);
    let k = choose|k: int| 0 <= k < a.len() && (#[trigger] a[k]).index == i;
    if k != j {
        if k < j {
            assert(a[k].index != a[j].index);
        } else {
            assert(a[j].index != a[k].index);
        }
    }
}

/// Builds the result part of one call.
pub fn tool_result_part(tools: &ToolSet, call: &ToolCallPart, outcome: ToolOutcome) -> (r: ToolResultPart)
    ensures
        r@ == expected_result(*tools, *call, outcome),
{
    match tools.find(&call.tool_name) {
        None => ToolResultPart {
            tool_call_id: call.tool_call_id.clone(),
            tool_name: call.tool_name.clone(),
            result: "tool not found".to_owned(),
            is_error: Some(true),
        },
        Some(_) => {
            let (result, is_error) = match outcome {
                ToolOutcome::Returned(s) => (s, false),
                ToolOutcome::Failed(s) => (s, true),
            };
            ToolResultPart {
                tool_call_id: call.tool_call_id.clone(),
                tool_name: call.tool_name.clone(),
                result,
                is_error: Some(is_error),
            }
        },
    }
}

/// Reassembles the outcomes of a step's tool calls, which may arrive in any
/// order, into result parts in the order of the calls. Fails when the
/// arrivals do not give exactly one outcome per call.
pub fn assemble_tool_results(tools: &ToolSet, calls: &Vec<ToolCallPart>, arrivals: &Vec<ToolArrival>) -> (r:
    Option<Vec<ToolResultPart>>)
    ensures
        r is Some <==> is_arrangement(arrivals@, calls@.len()),
        r is Some ==> r->Some_0@.map_values(|p: ToolResultPart| p@) == expected_results(
            *tools,
            calls@,
            arrivals@,
        ),
{
    let n = calls.len();
    let mut slots: Vec<Option<ToolOutcome>> = Vec::new();
    let mut i: usize = 0;
    while i < n
        invariant
            n == calls@.len(),
            0 <= i <= n,
            slots@.len() == i,
            forall|x: int| 0 <= x < i ==> (#[trigger] slots@[x]) is None,
        decreases n - i,
    {
        slots.push(None);
        i = i + 1;
    }
    let mut j: usize = 0;
    while j < arrivals.len()
        invariant
            n == calls@.len(),
            slots@.len() == n,
            0 <= j <= arrivals@.len(),
            forall|k: int| 0 <= k < j ==> (#[trigger] arrivals@[k]).index < n,
            forall|k: int, l: int|
                0 <= k < l < j ==> (#[trigger] arrivals@[k]).index != (#[trigger] arrivals@[l]).index,
            forall|x: int|
                0 <= x < n ==> ((#[trigger] slots@[x]) is Some <==> arrived_among(arrivals@, j as int, x)),
            forall|k: int|
                0 <= k < j ==> slots@[(#[trigger] arrivals@[k]).index as int] == Some(
                    arrivals@[k].outcome,
                ),
        decreases arrivals@.len() - j,
    {
        let idx = arrivals[j].index;
        if idx >= n {
            return None;
        }
        let taken = match &slots[idx] {
            Some(_) => true,
            None => false,
        };
        if taken {
            proof {
                let k = choose|k: int| 0 <= k < j && (#[trigger] arrivals@[k]).index == idx;
                assert(arrivals@[k].index == arrivals@[j as int].index);
            }
            return None;
        }
        let ghost before = slots@;
        slots[idx] = Some(arrivals[j].outcome.clone());
        proof {
            assert forall|x: int|
                0 <= x < n implies ((#[trigger] slots@[x]) is Some <==> arrived_among(arrivals@, j + 1, x)) by {
                if x == idx {
                    assert(arrivals@[j as int].index == x);
                } else {
                    if slots@[x] is Some {
                        assert(before[x] is Some);
                    }
                    if arrived_among(arrivals@, j + 1, x) {
                        let k = choose|k: int| 0 <= k < j + 1 && (#[trigger] arrivals@[k]).index == x;
                        assert(k != j);
                    }
                }
            }
            assert forall|k: int|
                0 <= k < j + 1 implies slots@[(#[trigger] arrivals@[k]).index as int] == Some(
                arrivals@[k].outcome,
            ) by {
                if k < j {
                    assert(arrivals@[k].index != idx) by {
                        assert(before[idx as int] is None);
                    }
                }
            }
        }
        j = j + 1;
    }
    let mut out: Vec<ToolResultPart> = Vec::new();
    let mut i: usize = 0;
    while i < n
        invariant
            n == calls@.len(),
            slots@.len() == n,
            0 <= i <= n,
            out@.len() == i,
            forall|k: int| 0 <= k < arrivals@.len() ==> (#[trigger] arrivals@[k]).index < n,
            forall|k: int, l: int|
                0 <= k < l < arrivals@.len() ==> (#[trigger] arrivals@[k]).index
                    != (#[trigger] arrivals@[l]).index,
            forall|x: int|
                0 <= x < n ==> ((#[trigger] slots@[x]) is Some <==> arrived_among(arrivals@, arrivals@.len() as int, x)),
            forall|k: int|
                0 <= k < arrivals@.len() ==> slots@[(#[trigger] arrivals@[k]).index as int] == Some(
                    arrivals@[k].outcome,
                ),
            forall|x: int| 0 <= x < i ==> #[trigger] arrived_among(arrivals@, arrivals@.len() as int, x),
            forall|x: int|
                0 <= x < i ==> (#[trigger] out@[x])@ == expected_result(
                    *tools,
                    calls@[x],
                    outcome_at(arrivals@, x),
                ),
        decreases n - i,
    {
        let outcome = match &slots[i] {
            Some(o) => o.clone(),
            None => {
                return None;
            },
        };
        proof {
            assert(arrived_among(arrivals@, arrivals@.len() as int, i as int));
            let k = choose|k: int| 0 <= k < arrivals@.len() && (#[trigger] arrivals@[k]).index == i;
            lemma_outcome_at(arrivals@, k);
        }
        let part = tool_result_part(tools, &calls[i], outcome);
        out.push(part);
        i = i + 1;
    }
    proof {
        assert(is_arrangement(arrivals@, n as nat));
        assert(out@.map_values(|p: ToolResultPart| p@) =~= expected_results(*tools, calls@, arrivals@));
    }
    Some(out)
}

/// Tool results follow the order of the calls, whatever the order in which
/// their outcomes arrive: two arrangements that hold the same arrivals give
/// the same result parts, and the part at each position answers the call at
/// that position.
pub proof fn lemma_results_follow_request_order(
    tools: ToolSet,
    calls: Seq<ToolCallPart>,
    a: Seq<ToolArrival>,
    b: Seq<ToolArrival>,
)
    requires
        is_arrangement(a, calls.len()),
        is_arrangement(b, calls.len()),
        a.to_set() == b.to_set(),
    ensures
        expected_results(tools, calls, a) == expected_results(tools, calls, b),
        forall|i: int|
            0 <= i < calls.len() ==> (#[trigger] expected_results(tools, calls, a)[i]).0
                == calls[i].tool_call_id@,
{
    assert forall|i: int| 0 <= i < calls.len() implies outcome_at(a, i) == outcome_at(b, i) by {
        assert(arrived_among(a, a.len() as int, i));
        let ja = choose|j: int| 0 <= j < a.len() && (#[trigger] a[j]).index == i;
        lemma_outcome_at(a, ja);
        assert(a.to_set().contains(a[ja]));
        assert(b.to_set().contains(a[ja]));
        let kb = choose|k: int| 0 <= k < b.len() && b[k] == a[ja];
        assert(b[kb].index == i);
        lemma_outcome_at(b, kb);
    }
    assert(expected_results(tools, calls, a) =~= expected_results(tools, calls, b));
}

} // verus!
