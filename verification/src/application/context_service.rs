//! In-memory context management: per-session sliding windows of messages,
//! ledgers, and the prompts built from them.

use vstd::prelude::*;
use vstd::string::*;

use crate::application::keyed::KeyedStore;
use crate::domain::context::{entries_of_kind, ContextConfig, Ledger, LedgerEntry, LedgerEntryKind, Message, MessageRole};
use crate::domain::error::OrchestratorError;
use crate::text::{join_strings, join_with};

verus! {

// ---------------------------------------------------------------------------
// Sums over a message history
// ---------------------------------------------------------------------------

/// Sum of the token estimates of `msgs`.
pub open spec fn tokens_sum(msgs: Seq<Message>) -> nat
    decreases msgs.len(),
{
    if msgs.len() == 0 {
        0
    } else {
        tokens_sum(msgs.drop_last()) + msgs.last().token_estimate as nat
    }
}

/// Sum of the content byte sizes of `msgs`.
pub open spec fn bytes_sum(msgs: Seq<Message>) -> nat
    decreases msgs.len(),
{
    if msgs.len() == 0 {
        0
    } else {
        bytes_sum(msgs.drop_last()) + msgs.last().spec_byte_size()
    }
}

/// Both sums split off the first message.
pub proof fn lemma_sums_drop_first(msgs: Seq<Message>)
    requires
        msgs.len() > 0,
    ensures
        tokens_sum(msgs) == msgs[0].token_estimate + tokens_sum(msgs.drop_first()),
        bytes_sum(msgs) == msgs[0].spec_byte_size() + bytes_sum(msgs.drop_first()),
    decreases msgs.len(),
{
    if msgs.len() > 1 {
        lemma_sums_drop_first(msgs.drop_last());
        assert(msgs.drop_last().drop_first() =~= msgs.drop_first().drop_last());
    } else {
        assert(msgs.drop_first() =~= Seq::<Message>::empty());
        assert(msgs.drop_last() =~= Seq::<Message>::empty());
    }
}

/// Dropping more of the oldest messages never increases the sums.
pub proof fn lemma_sums_skip_monotone(msgs: Seq<Message>, j: int, k: int)
    requires
        0 <= j <= k <= msgs.len(),
    ensures
        tokens_sum(msgs.skip(k)) <= tokens_sum(msgs.skip(j)),
        bytes_sum(msgs.skip(k)) <= bytes_sum(msgs.skip(j)),
    decreases k - j,
{
    if j < k {
        lemma_sums_drop_first(msgs.skip(j));
        assert(msgs.skip(j).drop_first() =~= msgs.skip(j + 1));
        lemma_sums_skip_monotone(msgs, j + 1, k);
    }
}

// ---------------------------------------------------------------------------
// Trimming
// ---------------------------------------------------------------------------

/// Whether a history fits all three limits of `cfg`.
pub open spec fn fits(msgs: Seq<Message>, cfg: ContextConfig) -> bool {
    &&& msgs.len() <= cfg.max_messages
    &&& bytes_sum(msgs) <= cfg.max_bytes
    &&& tokens_sum(msgs) <= cfg.max_tokens
}

/// The fewest oldest messages, at least `k`, whose removal makes the rest fit.
pub open spec fn first_fit(msgs: Seq<Message>, cfg: ContextConfig, k: nat) -> nat
    decreases msgs.len() - k,
{
    if k >= msgs.len() || fits(msgs.skip(k as int), cfg) {
        k
    } else {
        first_fit(msgs, cfg, k + 1)
    }
}

/// What trimming keeps of `msgs`: the newest messages, as many as fit.
pub open spec fn trimmed(msgs: Seq<Message>, cfg: ContextConfig) -> Seq<Message> {
    msgs.skip(first_fit(msgs, cfg, 0) as int)
}

proof fn lemma_first_fit_bounds(msgs: Seq<Message>, cfg: ContextConfig, k: nat)
    requires
        k <= msgs.len(),
    ensures
        k <= first_fit(msgs, cfg, k) <= msgs.len(),
        fits(msgs.skip(first_fit(msgs, cfg, k) as int), cfg),
        forall|j: int| k <= j < first_fit(msgs, cfg, k) ==> !fits(#[trigger] msgs.skip(j), cfg),
    decreases msgs.len() - k,
{
    if k >= msgs.len() {
        assert(msgs.skip(k as int) =~= Seq::<Message>::empty());
    } else if !fits(msgs.skip(k as int), cfg) {
        lemma_first_fit_bounds(msgs, cfg, k + 1);
    }
}

proof fn lemma_first_fit_skip(msgs: Seq<Message>, cfg: ContextConfig, j: nat, k: nat)
    requires
        j <= k <= msgs.len(),
        forall|i: int| j <= i < k ==> !fits(#[trigger] msgs.skip(i), cfg),
    ensures
        first_fit(msgs, cfg, j) == first_fit(msgs, cfg, k),
    decreases k - j,
{
    if j < k {
        lemma_first_fit_skip(msgs, cfg, j + 1, k);
    }
}

/// Trimming keeps the longest run of newest messages that fits within the
/// message, byte and token limits: what it keeps fits, and keeping even one
/// more of the older messages would break a limit.
pub proof fn law_trim_keeps_longest_fitting_suffix(msgs: Seq<Message>, cfg: ContextConfig)
    ensures
        fits(trimmed(msgs, cfg), cfg),
        trimmed(msgs, cfg) == msgs.skip(msgs.len() - trimmed(msgs, cfg).len()),
        forall|j: int|
            0 <= j < msgs.len() - trimmed(msgs, cfg).len() ==> !fits(#[trigger] msgs.skip(j), cfg),
{
    lemma_first_fit_bounds(msgs, cfg, 0);
}

/// Role label used when rendering the context window.
pub open spec fn role_label(r: MessageRole) -> Seq<char> {
    match r {
        MessageRole::System => "system"@,
        MessageRole::User => "user"@,
        MessageRole::Assistant => "assistant"@,
        MessageRole::Tool => "tool"@,
    }
}

fn role_str(r: MessageRole) -> (s: &'static str)
    ensures
        s@ == role_label(r),
{
    match r {
        MessageRole::System => "system",
        MessageRole::User => "user",
        MessageRole::Assistant => "assistant",
        MessageRole::Tool => "tool",
    }
}

/// Content of the latest user message of `msgs` (empty when there is none).
pub open spec fn last_user_content(msgs: Seq<Message>) -> Seq<char>
    decreases msgs.len(),
{
    if msgs.len() == 0 {
        Seq::empty()
    } else if msgs.last().role == MessageRole::User {
        msgs.last().content@
    } else {
        last_user_content(msgs.drop_last())
    }
}

/// One bullet line of the system prompt.
pub open spec fn bullet(e: LedgerEntry) -> Seq<char> {
    "- "@ + e.key@ + ": "@ + e.value@
}

/// A titled list of ledger entries (nothing when there are none).
pub open spec fn section(title: Seq<char>, entries: Seq<LedgerEntry>) -> Seq<Seq<char>> {
    if entries.len() == 0 {
        Seq::empty()
    } else {
        seq![title] + entries.map_values(|e: LedgerEntry| bullet(e))
    }
}

/// The lines of the system prompt of a session with ledger `entries`
/// (`has_session` false: a session that does not exist).
pub open spec fn system_prompt_lines(has_session: bool, entries: Seq<LedgerEntry>) -> Seq<
    Seq<char>,
> {
    let base = seq!["You are a helpful AI assistant."@];
    if has_session {
        base + section("\n## Constraints"@, entries_of_kind(entries, LedgerEntryKind::Constraint))
            + section("\n## Decisions"@, entries_of_kind(entries, LedgerEntryKind::Decision))
    } else {
        base
    }
}

/// The system prompt: its lines joined by newlines.
pub open spec fn system_prompt_text(has_session: bool, entries: Seq<LedgerEntry>) -> Seq<char> {
    join_with(system_prompt_lines(has_session, entries), "\n"@)
}

/// The rendered context window: one `[role] content` line per message.
pub open spec fn context_lines(msgs: Seq<Message>) -> Seq<char>
    decreases msgs.len(),
{
    if msgs.len() == 0 {
        Seq::empty()
    } else {
        context_lines(msgs.drop_last()) + "["@ + role_label(msgs.last().role) + "] "@
            + msgs.last().content@ + "\n"@
    }
}

/// The newest `max` messages of `msgs` (all of them if there are fewer).
pub open spec fn context_window(msgs: Seq<Message>, max: nat) -> Seq<Message> {
    if msgs.len() > max {
        msgs.skip(msgs.len() - max)
    } else {
        msgs
    }
}

/// The full agent input: system prompt, context window, task, allowed
/// tools and the latest user message, in labelled blocks.
pub open spec fn agent_input_text(
    system: Seq<char>,
    window: Seq<Message>,
    task: Seq<char>,
    tools: Seq<Seq<char>>,
    user: Seq<char>,
) -> Seq<char> {
    "[SYSTEM]\n"@ + system + "\n\n[CONTEXT]\n"@ + context_lines(window) + "\n[TASK]\n"@ + task
        + "\n"@ + (if tools.len() > 0 {
        "\n[ALLOWED_TOOLS]\n"@ + join_with(tools, ", "@) + "\n"@
    } else {
        Seq::<char>::empty()
    }) + (if user.len() > 0 {
        "\n[USER]\n"@ + user + "\n"@
    } else {
        Seq::<char>::empty()
    })
}

// ---------------------------------------------------------------------------
// Sessions
// ---------------------------------------------------------------------------

/// Per-session state managed by the context service.
#[derive(Debug, Clone)]
pub struct SessionContext {
    /// Messages in the sliding window.
    pub messages: Vec<Message>,
    /// Structured ledger.
    pub ledger: Ledger,
    /// Total estimated tokens across all messages.
    pub total_tokens: u64,
    /// Total bytes across all messages.
    pub total_bytes: usize,
}

impl SessionContext {
    /// The totals agree with the messages.
    pub open spec fn wf(self) -> bool {
        &&& self.total_tokens == tokens_sum(self.messages@)
        &&& self.total_bytes == bytes_sum(self.messages@)
    }

    /// A session with no messages and an empty ledger.
    pub fn new() -> (s: SessionContext)
        ensures
            s.wf(),
            s.messages@ == Seq::<Message>::empty(),
            s.ledger.entries@ == Seq::<LedgerEntry>::empty(),
    {
        SessionContext { messages: Vec::new(), ledger: Ledger::new(), total_tokens: 0, total_bytes: 0 }
    }

    fn push_message(&mut self, message: Message)
        requires
            old(self).wf(),
            old(self).total_tokens + message.token_estimate <= u64::MAX,
            old(self).messages@.len() == 0 || old(self).total_bytes + message.spec_byte_size()
                <= usize::MAX,
        ensures
            final(self).wf(),
            final(self).messages@ == old(self).messages@.push(message),
            final(self).ledger == old(self).ledger,
    {
        let size = message.byte_size();
        self.total_tokens = self.total_tokens + message.token_estimate;
        self.total_bytes = self.total_bytes + size;
        let ghost before = self.messages@;
        self.messages.push(message);
        assert(self.messages@.drop_last() =~= before);
    }

    fn trim_first(&mut self)
        requires
            old(self).wf(),
            old(self).messages@.len() > 0,
        ensures
            final(self).wf(),
            final(self).messages@ == old(self).messages@.drop_first(),
            final(self).ledger == old(self).ledger,
    {
        proof {
            lemma_sums_drop_first(self.messages@);
        }
        let size = self.messages[0].byte_size();
        self.total_tokens = self.total_tokens.saturating_sub(self.messages[0].token_estimate);
        self.total_bytes = self.total_bytes.saturating_sub(size);
        self.messages.remove(0);
        assert(self.messages@ =~= old(self).messages@.drop_first());
    }

    fn trim(&mut self, cfg: &ContextConfig)
        requires
            old(self).wf(),
        ensures
            final(self).wf(),
            final(self).messages@ == trimmed(old(self).messages@, *cfg),
            final(self).ledger == old(self).ledger,
    {
        let ghost orig = self.messages@;
        let ghost mut k: nat = 0;
        assert(orig.skip(0) =~= orig);
        while self.messages.len() > cfg.max_messages
            invariant
                self.wf(),
                self.ledger == old(self).ledger,
                orig == old(self).messages@,
                k <= orig.len(),
                self.messages@ == orig.skip(k as int),
                forall|j: int| 0 <= j < k ==> !fits(#[trigger] orig.skip(j), *cfg),
            decreases self.messages.len(),
        {
            self.trim_first();
            proof {
                assert(orig.skip(k as int).drop_first() =~= orig.skip(k + 1 as int));
                k = k + 1;
            }
        }
        let ghost k1 = k;
        while self.total_bytes > cfg.max_bytes && self.messages.len() > 0
            invariant
                self.wf(),
                self.ledger == old(self).ledger,
                orig == old(self).messages@,
                k1 <= k <= orig.len(),
                self.messages@ == orig.skip(k as int),
                orig.skip(k1 as int).len() <= cfg.max_messages,
                forall|j: int| 0 <= j < k ==> !fits(#[trigger] orig.skip(j), *cfg),
            decreases self.messages.len(),
        {
            self.trim_first();
            proof {
                assert(orig.skip(k as int).drop_first() =~= orig.skip(k + 1 as int));
                k = k + 1;
            }
        }
        let ghost k2 = k;
        while self.total_tokens > cfg.max_tokens && self.messages.len() > 0
            invariant
                self.wf(),
                self.ledger == old(self).ledger,
                orig == old(self).messages@,
                k1 <= k2 <= k <= orig.len(),
                self.messages@ == orig.skip(k as int),
                orig.skip(k1 as int).len() <= cfg.max_messages,
                k2 == orig.len() || bytes_sum(orig.skip(k2 as int)) <= cfg.max_bytes,
                forall|j: int| 0 <= j < k ==> !fits(#[trigger] orig.skip(j), *cfg),
            decreases self.messages.len(),
        {
            proof {
                lemma_sums_skip_monotone(orig, k2 as int, k as int);
            }
            self.trim_first();
            proof {
                assert(orig.skip(k as int).drop_first() =~= orig.skip(k + 1 as int));
                k = k + 1;
            }
        }
        proof {
            lemma_sums_skip_monotone(orig, k2 as int, k as int);
            lemma_first_fit_skip(orig, *cfg, 0, k);
            if k < orig.len() {
                assert(fits(orig.skip(k as int), *cfg));
            }
        }
    }
}

// ---------------------------------------------------------------------------
// Manager
// ---------------------------------------------------------------------------

/// The messages of session `id` in `sessions` (none if it does not exist).
pub open spec fn session_messages(sessions: Map<Seq<char>, SessionContext>, id: Seq<char>) -> Seq<
    Message,
> {
    if sessions.dom().contains(id) {
        sessions[id].messages@
    } else {
        Seq::empty()
    }
}

/// The ledger entries of session `id` in `sessions` (none if it does not exist).
pub open spec fn session_ledger(sessions: Map<Seq<char>, SessionContext>, id: Seq<char>) -> Seq<
    LedgerEntry,
> {
    if sessions.dom().contains(id) {
        sessions[id].ledger.entries@
    } else {
        Seq::empty()
    }
}

/// In-memory context manager: stores per-session context with configurable
/// limits; when limits are exceeded, the oldest messages are removed.
pub struct InMemoryContextManager {
    config: ContextConfig,
    sessions: KeyedStore<SessionContext>,
}

impl View for InMemoryContextManager {
    type V = Map<Seq<char>, SessionContext>;

    closed spec fn view(&self) -> Map<Seq<char>, SessionContext> {
        self.sessions@
    }
}

impl InMemoryContextManager {
    /// The store is well formed and every session's totals agree with its messages.
    pub closed spec fn wf(&self) -> bool {
        &&& self.sessions.wf()
        &&& forall|k: Seq<char>| #[trigger] self.sessions@.dom().contains(k) ==> self.sessions@[k].wf()
    }

    /// The limits this manager was created with.
    pub closed spec fn spec_config(&self) -> ContextConfig {
        self.config
    }

    /// Whether session `id` exists.
    pub open spec fn has_session(&self, id: Seq<char>) -> bool {
        self@.dom().contains(id)
    }

    /// Create a new in-memory context manager with no sessions.
    pub fn new(config: ContextConfig) -> (m: InMemoryContextManager)
        ensures
            m.wf(),
            m@ == Map::<Seq<char>, SessionContext>::empty(),
            m.spec_config() == config,
    {
        InMemoryContextManager { config, sessions: KeyedStore::new() }
    }

    /// The slot of session `id`, creating an empty session if there is none.
    fn get_or_create_session(&mut self, id: &str) -> (i: usize)
        requires
            old(self).wf(),
        ensures
            final(self).wf(),
            final(self).config == old(self).config,
            i < final(self).sessions.slots(),
            final(self).sessions.key_at(i as int) == id@,
            final(self)@.dom() == old(self)@.dom().insert(id@),
            final(self)@[id@].messages@ == session_messages(old(self)@, id@),
            final(self)@[id@].ledger.entries@ == session_ledger(old(self)@, id@),
            final(self)@[id@].total_tokens == tokens_sum(session_messages(old(self)@, id@)),
            final(self)@[id@].total_bytes == bytes_sum(session_messages(old(self)@, id@)),
            forall|k: Seq<char>| k != id@ && #[trigger] old(self)@.dom().contains(k) ==> final(self)@[k]
                == old(self)@[k],
    {
        match self.sessions.find(id) {
            Some(i) => i,
            None => {
                let i = self.sessions.insert(id, SessionContext::new());
                i
            },
        }
    }

    /// Add a message to the session, creating the session if needed.
    pub fn add_message(&mut self, session_id: &str, message: Message)
        requires
            old(self).wf(),
            tokens_sum(session_messages(old(self)@, session_id@)) + message.token_estimate <= u64::MAX,
            session_messages(old(self)@, session_id@).len() > 0 ==> bytes_sum(
                session_messages(old(self)@, session_id@),
            ) + message.spec_byte_size() <= usize::MAX,
        ensures
            final(self).wf(),
            final(self).spec_config() == old(self).spec_config(),
            final(self).has_session(session_id@),
            session_messages(final(self)@, session_id@) == session_messages(old(self)@, session_id@).push(message),
            session_ledger(final(self)@, session_id@) == session_ledger(old(self)@, session_id@),
            final(self)@.remove(session_id@) == old(self)@.remove(session_id@),
    {
        let i = self.get_or_create_session(session_id);
        let ghost before = *self;
        let s = self.sessions.get_mut(i);
        s.push_message(message);
        let ghost nv = *s;
        proof {
            KeyedStore::lemma_update(&before.sessions, &self.sessions, i as int, nv);
        }
        assert(self@.remove(session_id@) =~= old(self)@.remove(session_id@));
    }

    /// Add a ledger entry to the session, creating the session if needed.
    pub fn add_ledger_entry(&mut self, session_id: &str, entry: LedgerEntry)
        requires
            old(self).wf(),
        ensures
            final(self).wf(),
            final(self).spec_config() == old(self).spec_config(),
            final(self).has_session(session_id@),
            session_messages(final(self)@, session_id@) == session_messages(old(self)@, session_id@),
            session_ledger(final(self)@, session_id@) == session_ledger(old(self)@, session_id@).push(entry),
            final(self)@.remove(session_id@) == old(self)@.remove(session_id@),
    {
        let i = self.get_or_create_session(session_id);
        let ghost before = *self;
        let s = self.sessions.get_mut(i);
        s.ledger.add(entry);
        let ghost nv = *s;
        proof {
            KeyedStore::lemma_update(&before.sessions, &self.sessions, i as int, nv);
        }
        assert(self@.remove(session_id@) =~= old(self)@.remove(session_id@));
    }

    /// Build the system prompt from the session's constraints and decisions.
    pub fn build_system_prompt(&self, session_id: &str) -> (s: String)
        requires
            self.wf(),
        ensures
            s@ == system_prompt_text(self.has_session(session_id@), session_ledger(self@, session_id@)),
    {
        let mut parts: Vec<String> = Vec::new();
        parts.push(String::from_str("You are a helpful AI assistant."));
        let ghost base = seq!["You are a helpful AI assistant."@];
        assert(parts@.map_values(|s: String| s@) =~= base);
        match self.sessions.find(session_id) {
            Some(i) => {
                let ctx = self.sessions.get(i);
                let constraints = ctx.ledger.by_kind(LedgerEntryKind::Constraint);
                append_section(&mut parts, "\n## Constraints", &constraints);
                let decisions = ctx.ledger.by_kind(LedgerEntryKind::Decision);
                append_section(&mut parts, "\n## Decisions", &decisions);
            },
            None => {},
        }
        join_strings(parts.as_slice(), "\n")
    }

    /// The latest user message of the session (empty if it has none).
    ///
    /// Fails with `ContextOverflow("session not found")` when the session
    /// does not exist.
    pub fn build_user_prompt(&self, session_id: &str) -> (r: Result<String, OrchestratorError>)
        requires
            self.wf(),
        ensures
            !self.has_session(session_id@) ==> (r matches Err(OrchestratorError::ContextOverflow(m))
                && m@ == "session not found"@),
            self.has_session(session_id@) ==> (r matches Ok(s) && s@ == last_user_content(
                self@[session_id@].messages@,
            )),
    {
        match self.sessions.find(session_id) {
            None => Err(OrchestratorError::ContextOverflow(String::from_str("session not found"))),
            Some(i) => {
                let ctx = self.sessions.get(i);
                let mut j = ctx.messages.len();
                assert(ctx.messages@.take(j as int) =~= ctx.messages@);
                while j > 0
                    invariant
                        j <= ctx.messages.len(),
                        self.has_session(session_id@),
                        *ctx == self@[session_id@],
                        last_user_content(ctx.messages@) == last_user_content(ctx.messages@.take(j as int)),
                    decreases j,
                {
                    let ghost pre = ctx.messages@.take(j as int);
                    assert(pre.drop_last() =~= ctx.messages@.take(j - 1));
                    if ctx.messages[j - 1].role == MessageRole::User {
                        assert(pre.last() == ctx.messages@[j - 1]);
                        return Ok(ctx.messages[j - 1].content.clone());
                    }
                    j = j - 1;
                }
                Ok(String::new())
            },
        }
    }

    /// Build the full agent input combining system prompt, context window,
    /// task, allowed tools and the latest user message.
    ///
    /// Fails exactly as `build_user_prompt` does, when the session does not exist.
    pub fn build_agent_input(&self, session_id: &str, task_description: &str, allowed_tools: &[String]) -> (r:
        Result<String, OrchestratorError>)
        requires
            self.wf(),
        ensures
            !self.has_session(session_id@) ==> (r matches Err(OrchestratorError::ContextOverflow(m))
                && m@ == "session not found"@),
            self.has_session(session_id@) ==> (r matches Ok(s) && s@ == agent_input_text(
                system_prompt_text(true, self@[session_id@].ledger.entries@),
                context_window(self@[session_id@].messages@, self.spec_config().max_messages as nat),
                task_description@,
                allowed_tools@.map_values(|t: String| t@),
                last_user_content(self@[session_id@].messages@),
            )),
    {
        let system = self.build_system_prompt(session_id);
        let user = match self.build_user_prompt(session_id) {
            Ok(u) => u,
            Err(e) => {
                return Err(e);
            },
        };
        let mut input = String::from_str("[SYSTEM]\n");
        input.append(system.as_str());
        input.append("\n\n[CONTEXT]\n");
        let i = match self.sessions.find(session_id) {
            Some(i) => i,
            None => {
                return Err(OrchestratorError::ContextOverflow(String::from_str("session not found")));
            },
        };
        let ctx = self.sessions.get(i);
        let n = ctx.messages.len();
        let start = n.saturating_sub(self.config.max_messages);
        let ghost prefix = input@;
        let ghost window = context_window(ctx.messages@, self.config.max_messages as nat);
        assert(window =~= ctx.messages@.skip(start as int));
        let mut j = start;
        assert(ctx.messages@.subrange(start as int, j as int) =~= Seq::<Message>::empty());
        while j < n
            invariant
                start <= j <= n,
                n == ctx.messages@.len(),
                input@ == prefix + context_lines(ctx.messages@.subrange(start as int, j as int)),
            decreases n - j,
        {
            let msg = &ctx.messages[j];
            input.append("[");
            input.append(role_str(msg.role));
            input.append("] ");
            input.append(msg.content.as_str());
            input.append("\n");
            assert(ctx.messages@.subrange(start as int, j + 1).drop_last() =~= ctx.messages@.subrange(
                start as int,
                j as int,
            ));
            j = j + 1;
        }
        assert(ctx.messages@.subrange(start as int, n as int) =~= window);
        input.append("\n[TASK]\n");
        input.append(task_description);
        input.append("\n");
        let ghost before_tools = input@;
        if allowed_tools.len() > 0 {
            let tools = join_strings(allowed_tools, ", ");
            input.append("\n[ALLOWED_TOOLS]\n");
            input.append(tools.as_str());
            input.append("\n");
        }
        let ghost before_user = input@;
        if !user.as_str().is_empty() {
            input.append("\n[USER]\n");
            input.append(user.as_str());
            input.append("\n");
        }
        assert(input@ =~= agent_input_text(
            system@,
            window,
            task_description@,
            allowed_tools@.map_values(|t: String| t@),
            user@,
        ));
        Ok(input)
    }

    /// Trim the session to fit within the configured limits, removing the
    /// oldest messages first. A session that does not exist is left alone.
    pub fn trim_context(&mut self, session_id: &str)
        requires
            old(self).wf(),
        ensures
            final(self).wf(),
            final(self).spec_config() == old(self).spec_config(),
            final(self)@.dom() == old(self)@.dom(),
            session_messages(final(self)@, session_id@) == trimmed(
                session_messages(old(self)@, session_id@),
                old(self).spec_config(),
            ),
            session_ledger(final(self)@, session_id@) == session_ledger(old(self)@, session_id@),
            final(self)@.remove(session_id@) == old(self)@.remove(session_id@),
    {
        match self.sessions.find(session_id) {
            None => {
                assert(trimmed(Seq::<Message>::empty(), self.config) =~= Seq::<Message>::empty());
            },
            Some(i) => {
                let cfg = self.config;
                let ghost before = *self;
                let s = self.sessions.get_mut(i);
                s.trim(&cfg);
                let ghost nv = *s;
                proof {
                    KeyedStore::lemma_update(&before.sessions, &self.sessions, i as int, nv);
                }
                assert(self@.remove(session_id@) =~= old(self)@.remove(session_id@));
                assert(self@.dom() =~= old(self)@.dom());
            },
        }
    }

    /// The session's ledger (empty if the session does not exist).
    pub fn get_ledger(&self, session_id: &str) -> (l: Ledger)
        requires
            self.wf(),
        ensures
            l.entries@ == session_ledger(self@, session_id@),
    {
        match self.sessions.find(session_id) {
            Some(i) => self.sessions.get(i).ledger.duplicate(),
            None => Ledger::new(),
        }
    }

    /// Estimated total tokens of the session's messages (zero if it does not exist).
    pub fn estimate_tokens(&self, session_id: &str) -> (n: u64)
        requires
            self.wf(),
        ensures
            n == tokens_sum(session_messages(self@, session_id@)),
    {
        match self.sessions.find(session_id) {
            Some(i) => self.sessions.get(i).total_tokens,
            None => 0,
        }
    }

    /// Total content bytes of the session's messages (zero if it does not exist).
    pub fn estimate_bytes(&self, session_id: &str) -> (n: usize)
        requires
            self.wf(),
        ensures
            n == bytes_sum(session_messages(self@, session_id@)),
    {
        match self.sessions.find(session_id) {
            Some(i) => self.sessions.get(i).total_bytes,
            None => 0,
        }
    }

    /// Clear all context for a session.
    pub fn clear_session(&mut self, session_id: &str)
        requires
            old(self).wf(),
        ensures
            final(self).wf(),
            final(self).spec_config() == old(self).spec_config(),
            final(self)@ == old(self)@.remove(session_id@),
    {
        self.sessions.remove(session_id);
    }
}

/// Reading the user prompt after adding a message gives that message's
/// content when it is a user message, and the previous answer otherwise.
pub proof fn law_user_prompt_reads_latest_user_message(msgs: Seq<Message>, m: Message)
    ensures
        m.role == MessageRole::User ==> last_user_content(msgs.push(m)) == m.content@,
        m.role != MessageRole::User ==> last_user_content(msgs.push(m)) == last_user_content(msgs),
{
    assert(msgs.push(m).drop_last() =~= msgs);
}

/// The token estimate of a session grows by exactly the estimate of each
/// message added, and the byte total by its size.
pub proof fn law_totals_grow_by_added_message(msgs: Seq<Message>, m: Message)
    ensures
        tokens_sum(msgs.push(m)) == tokens_sum(msgs) + m.token_estimate,
        bytes_sum(msgs.push(m)) == bytes_sum(msgs) + m.spec_byte_size(),
{
    assert(msgs.push(m).drop_last() =~= msgs);
}

/// A cleared session holds nothing: no messages, no ledger entries, a zero
/// token estimate, and the bare system prompt; the other sessions are kept.
pub proof fn law_cleared_session_is_empty(sessions: Map<Seq<char>, SessionContext>, id: Seq<char>)
    ensures
        session_messages(sessions.remove(id), id) == Seq::<Message>::empty(),
        session_ledger(sessions.remove(id), id) == Seq::<LedgerEntry>::empty(),
        tokens_sum(session_messages(sessions.remove(id), id)) == 0,
        system_prompt_lines(sessions.remove(id).dom().contains(id), session_ledger(sessions.remove(id), id))
            == seq!["You are a helpful AI assistant."@],
        forall|k: Seq<char>| k != id ==> session_messages(sessions.remove(id), k) == #[trigger] session_messages(sessions, k),
{
}

/// Trimming twice keeps what trimming once kept.
pub proof fn law_trim_is_idempotent(msgs: Seq<Message>, cfg: ContextConfig)
    ensures
        trimmed(trimmed(msgs, cfg), cfg) == trimmed(msgs, cfg),
{
    lemma_first_fit_bounds(msgs, cfg, 0);
    let t = trimmed(msgs, cfg);
    assert(t.skip(0) =~= t);
    if t.len() > 0 {
        assert(first_fit(t, cfg, 0) == 0);
    } else {
        assert(first_fit(t, cfg, 0) == 0);
    }
}


/// The context window holds the newest messages: as many as the limit
/// allows (all of them when there are fewer), in order, ending with the
/// latest message.
pub proof fn law_context_window_is_newest_suffix(msgs: Seq<Message>, max: nat)
    ensures
        context_window(msgs, max).len() == if msgs.len() < max {
            msgs.len()
        } else {
            max
        },
        forall|i: int|
            0 <= i < context_window(msgs, max).len() ==> #[trigger] context_window(msgs, max)[i] == msgs[msgs.len()
                - context_window(msgs, max).len() + i],
        msgs.len() > 0 && max > 0 ==> context_window(msgs, max).last() == msgs.last(),
{
}

/// Every constraint and every decision of a session's ledger is listed in
/// its system prompt as a line `- key: value`, under its heading, in ledger
/// order; the prompt holds the opening line, each non-empty heading, and
/// nothing else.
pub proof fn law_system_prompt_lists_every_entry(entries: Seq<LedgerEntry>)
    ensures
        ({
            let cs = entries_of_kind(entries, LedgerEntryKind::Constraint);
            let ds = entries_of_kind(entries, LedgerEntryKind::Decision);
            let lines = system_prompt_lines(true, entries);
            let off: int = if cs.len() > 0 {
                cs.len() + 1int
            } else {
                0
            };
            &&& lines.len() == 1 + off + if ds.len() > 0 {
                ds.len() + 1
            } else {
                0
            }
            &&& lines[0] == "You are a helpful AI assistant."@
            &&& cs.len() > 0 ==> lines[1] == "\n## Constraints"@
            &&& forall|k: int|
                0 <= k < cs.len() ==> #[trigger] lines[2 + k] == "- "@ + cs[k].key@ + ": "@ + cs[k].value@
            &&& ds.len() > 0 ==> lines[1 + off] == "\n## Decisions"@
            &&& forall|k: int|
                0 <= k < ds.len() ==> #[trigger] lines[2 + off + k] == "- "@ + ds[k].key@ + ": "@
                    + ds[k].value@
            &&& forall|i: int|
                0 <= i < entries.len() && #[trigger] entries[i].kind == LedgerEntryKind::Constraint ==> cs.contains(
                    entries[i],
                )
            &&& forall|i: int|
                0 <= i < entries.len() && #[trigger] entries[i].kind == LedgerEntryKind::Decision ==> ds.contains(
                    entries[i],
                )
        }),
{
    let cs = entries_of_kind(entries, LedgerEntryKind::Constraint);
    let ds = entries_of_kind(entries, LedgerEntryKind::Decision);
    assert forall|i: int|
        0 <= i < entries.len() && #[trigger] entries[i].kind == LedgerEntryKind::Constraint implies cs.contains(
            entries[i],
        ) by {
        entries.lemma_filter_contains(|e: LedgerEntry| e.kind == LedgerEntryKind::Constraint, i);
    }
    assert forall|i: int|
        0 <= i < entries.len() && #[trigger] entries[i].kind == LedgerEntryKind::Decision implies ds.contains(
            entries[i],
        ) by {
        entries.lemma_filter_contains(|e: LedgerEntry| e.kind == LedgerEntryKind::Decision, i);
    }
}

fn append_section(parts: &mut Vec<String>, title: &str, entries: &Vec<&LedgerEntry>)
    ensures
        final(parts)@.map_values(|s: String| s@) == old(parts)@.map_values(|s: String| s@)
            + section(title@, entries@.map_values(|e: &LedgerEntry| *e)),
{
    let ghost start = parts@.map_values(|s: String| s@);
    let ghost es = entries@.map_values(|e: &LedgerEntry| *e);
    if entries.len() == 0 {
        assert(section(title@, es) =~= Seq::<Seq<char>>::empty());
        assert(parts@.map_values(|s: String| s@) =~= start + section(title@, es));
        return;
    }
    parts.push(String::from_str(title));
    let mut i: usize = 0;
    while i < entries.len()
        invariant
            i <= entries.len(),
            es == entries@.map_values(|e: &LedgerEntry| *e),
            parts@.map_values(|s: String| s@) == start + seq![title@] + es.take(i as int).map_values(
                |e: LedgerEntry| bullet(e),
            ),
        decreases entries.len() - i,
    {
        let e = entries[i];
        let mut line = String::from_str("- ");
        line.append(e.key.as_str());
        line.append(": ");
        line.append(e.value.as_str());
        let ghost prev = parts@;
        assert(line@ == bullet(es[i as int]));
        parts.push(line);
        assert(parts@.map_values(|s: String| s@) =~= prev.map_values(|s: String| s@).push(line@));
        assert(es.take(i + 1).map_values(|e: LedgerEntry| bullet(e)) =~= es.take(i as int).map_values(
            |e: LedgerEntry| bullet(e),
        ).push(bullet(es[i as int])));
        assert(parts@.map_values(|s: String| s@) =~= start + seq![title@] + es.take(i + 1).map_values(
            |e: LedgerEntry| bullet(e),
        ));
        i = i + 1;
    }
    assert(es.take(entries.len() as int) =~= es);
    assert(parts@.map_values(|s: String| s@) =~= start + section(title@, es));
}

} // verus!
