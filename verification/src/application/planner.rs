//! Deterministic planning: maps a user request to a plan of a single
//! subtask.

use vstd::prelude::*;
use vstd::string::*;

use crate::domain::agent::AgentCapability;
use crate::domain::error::OrchestratorError;
use crate::domain::orchestrator::UserRequest;
use crate::domain::task::{ExecutionPlan, SubTask, TaskStatus};
use crate::domain::token::TokenCounter;

verus! {

/// The hyphenated, lowercase text of a version-4 UUID: 36 characters,
/// hyphens at 8, 13, 18 and 23, the version digit `4` at 14, and lowercase
/// hexadecimal digits elsewhere.
pub open spec fn uuid_v4_text(s: Seq<char>) -> bool {
    &&& s.len() == 36
    &&& forall|i: int|
        0 <= i < 36 ==> if i == 8 || i == 13 || i == 18 || i == 23 {
            #[trigger] s[i] == '-'
        } else if i == 14 {
            s[i] == '4'
        } else {
            ('0' <= s[i] <= '9') || ('a' <= s[i] <= 'f')
        }
}

/// A fresh random identifier, through `uuid::Uuid::new_v4` and its `Display`.
///
/// Trusted: the text is a hyphenated lowercase version-4 UUID. Which UUID
/// comes out is random and is not stated.
#[verifier::external_body]
fn new_uuid_v4() -> (s: String)
    ensures
        uuid_v4_text(s@),
{
    uuid::Uuid::new_v4().to_string()
}

/// `s` cut to its first `max_len` characters with `...` appended, when it
/// has more than `max_len` characters; `s` itself otherwise.
pub open spec fn truncated(s: Seq<char>, max_len: nat) -> Seq<char> {
    if s.len() <= max_len {
        s
    } else {
        s.take(max_len as int) + "..."@
    }
}

/// Truncate a string to `max_len` characters, appending `...` if truncated.
pub fn truncate(s: &str, max_len: usize) -> (r: String)
    ensures
        r@ == truncated(s@, max_len as nat),
{
    let n = s.unicode_len();
    if n <= max_len {
        String::from_str(s)
    } else {
        let mut r = String::from_str(s.substring_char(0, max_len));
        r.append("...");
        r
    }
}

/// The description given to the subtask made for `message`.
pub open spec fn subtask_description(message: Seq<char>) -> Seq<char> {
    "Process user request: "@ + truncated(message, 80)
}

/// A deterministic planner that creates a single subtask from the user
/// request, for the capability the user prefers or a default one.
pub struct DeterministicPlanner<C: TokenCounter> {
    token_counter: C,
    default_capability: String,
}

impl<C: TokenCounter> DeterministicPlanner<C> {
    /// The counter used to estimate the plan's token cost.
    pub closed spec fn counter(&self) -> C {
        self.token_counter
    }

    /// Capability assigned when the user does not name one.
    pub closed spec fn spec_default_capability(&self) -> Seq<char> {
        self.default_capability@
    }

    /// The capability a request is planned for.
    pub open spec fn capability_for(&self, request: UserRequest) -> Seq<char> {
        match request.preferred_capability {
            Some(c) => c@,
            None => self.spec_default_capability(),
        }
    }

    /// Whether `plan` is the single-subtask plan for `request`, its subtask
    /// carrying the identifier `subtask_id`.
    pub open spec fn plans(&self, request: UserRequest, plan: ExecutionPlan, subtask_id: Seq<char>) -> bool {
        &&& plan.request_id@ == request.id@
        &&& plan.estimated_total_tokens == self.counter().token_estimate(request.message@)
        &&& plan.subtasks@.len() == 1
        &&& {
            let st = plan.subtasks@[0];
            &&& st.id@ == subtask_id
            &&& st.parent_request_id@ == request.id@
            &&& st.description@ == subtask_description(request.message@)
            &&& st.required_capability@ == self.capability_for(request)
            &&& st.prompt@ == request.message@
            &&& st.max_tokens == request.max_tokens
            &&& st.timeout is None
            &&& st.status == TaskStatus::Pending
            &&& st.depends_on@.len() == 0
            &&& st.retry_count == 0
            &&& st.assigned_agent is None
        }
    }

    /// Create a new deterministic planner.
    pub fn new(token_counter: C, default_capability: String) -> (p: DeterministicPlanner<C>)
        ensures
            p.counter() == token_counter,
            p.spec_default_capability() == default_capability@,
    {
        DeterministicPlanner { token_counter, default_capability }
    }

    /// The plan for `request`, with `subtask_id` as the identifier of its subtask.
    pub fn plan_with_id(&self, request: &UserRequest, subtask_id: String) -> (plan: ExecutionPlan)
        ensures
            self.plans(*request, plan, subtask_id@),
    {
        let capability = match &request.preferred_capability {
            Some(c) => c.as_str(),
            None => self.default_capability.as_str(),
        };
        let estimated_tokens = self.token_counter.count_tokens(request.message.as_str());
        let mut description = String::from_str("Process user request: ");
        let short = truncate(request.message.as_str(), 80);
        description.append(short.as_str());
        let subtask = SubTask {
            id: subtask_id,
            parent_request_id: request.id.clone(),
            description,
            required_capability: AgentCapability::new(capability),
            prompt: request.message.clone(),
            max_tokens: request.max_tokens,
            timeout: None,
            status: TaskStatus::Pending,
            depends_on: Vec::new(),
            retry_count: 0,
            assigned_agent: None,
        };
        let mut subtasks: Vec<SubTask> = Vec::new();
        subtasks.push(subtask);
        ExecutionPlan {
            request_id: request.id.clone(),
            subtasks,
            estimated_total_tokens: estimated_tokens,
        }
    }

    /// Generate an execution plan for the given user request: one subtask,
    /// identified by a fresh random UUID.
    pub fn plan(&self, request: &UserRequest) -> (r: Result<ExecutionPlan, OrchestratorError>)
        ensures
            r matches Ok(plan) && self.plans(*request, plan, plan.subtasks@[0].id@) && uuid_v4_text(
                plan.subtasks@[0].id@,
            ),
    {
        let id = new_uuid_v4();
        Ok(self.plan_with_id(request, id))
    }
}

} // verus!
