//! Conversation context: messages, the structured ledger of facts, and the
//! limits of the context window.

use vstd::prelude::*;
use vstd::string::*;

use crate::text::{byte_len, str_byte_len};

verus! {

/// Role of a message in the conversation.
#[derive(Debug, Clone, Copy, PartialEq, Eq, Structural)]
pub enum MessageRole {
    /// System instruction (not user-generated).
    System,
    /// User input.
    User,
    /// Assistant (agent) response.
    Assistant,
    /// Tool invocation result.
    Tool,
}

/// A single message in the conversation history.
#[derive(Debug, Clone)]
pub struct Message {
    /// Role of the message author.
    pub role: MessageRole,
    /// Textual content.
    pub content: String,
    /// Estimated token count for this message.
    pub token_estimate: u64,
    /// Unix timestamp (seconds).
    pub timestamp: i64,
}

impl Message {
    /// The number of bytes the message's content takes.
    pub open spec fn spec_byte_size(self) -> nat {
        byte_len(self.content@)
    }

    /// Byte size of the content (for RAM budgeting).
    pub fn byte_size(&self) -> (n: usize)
        ensures
            n as nat == self.spec_byte_size(),
    {
        str_byte_len(self.content.as_str())
    }
}

/// Categories for ledger entries.
#[derive(Debug, Clone, Copy, PartialEq, Eq, Structural)]
pub enum LedgerEntryKind {
    /// A verified fact.
    Fact,
    /// A decision made during the session.
    Decision,
    /// A constraint or requirement.
    Constraint,
    /// A summary of previous context.
    Summary,
}

/// A structured fact stored in the ledger.
#[derive(Debug, Clone)]
pub struct LedgerEntry {
    /// Category of the entry.
    pub kind: LedgerEntryKind,
    /// Human-readable key (e.g. `"project-language"`).
    pub key: String,
    /// The value.
    pub value: String,
    /// Unix timestamp.
    pub timestamp: i64,
    /// Which agent produced this entry (if any).
    pub source_agent: Option<String>,
}

impl LedgerEntry {
    /// A field-by-field copy of the entry.
    pub fn duplicate(&self) -> (e: LedgerEntry)
        ensures
            e == *self,
    {
        let source_agent = match &self.source_agent {
            Some(a) => Some(a.clone()),
            None => None,
        };
        LedgerEntry {
            kind: self.kind,
            key: self.key.clone(),
            value: self.value.clone(),
            timestamp: self.timestamp,
            source_agent,
        }
    }
}

/// The entries of `entries` whose kind is `kind`, in their order.
pub open spec fn entries_of_kind(entries: Seq<LedgerEntry>, kind: LedgerEntryKind) -> Seq<
    LedgerEntry,
> {
    entries.filter(|e: LedgerEntry| e.kind == kind)
}

/// The bytes an entry is accounted for: its key, its value, and a fixed
/// overhead of 64 bytes.
pub open spec fn entry_bytes(e: LedgerEntry) -> nat {
    byte_len(e.key@) + byte_len(e.value@) + 64
}

/// Sum of `entry_bytes` over `entries`.
pub open spec fn ledger_bytes(entries: Seq<LedgerEntry>) -> nat
    decreases entries.len(),
{
    if entries.len() == 0 {
        0
    } else {
        ledger_bytes(entries.drop_last()) + entry_bytes(entries.last())
    }
}

/// The total of a prefix never exceeds the total of the whole.
pub proof fn lemma_ledger_bytes_prefix(entries: Seq<LedgerEntry>, i: int)
    requires
        0 <= i <= entries.len(),
    ensures
        ledger_bytes(entries.take(i)) <= ledger_bytes(entries),
    decreases entries.len() - i,
{
    if i < entries.len() {
        lemma_ledger_bytes_prefix(entries, i + 1);
        assert(entries.take(i + 1).drop_last() =~= entries.take(i));
    } else {
        assert(entries.take(i) =~= entries);
    }
}

/// The full ledger for a session: an append-only list of entries.
#[derive(Debug, Clone)]
pub struct Ledger {
    /// Ordered list of entries.
    pub entries: Vec<LedgerEntry>,
}

impl Ledger {
    /// Create an empty ledger.
    pub fn new() -> (l: Ledger)
        ensures
            l.entries@ == Seq::<LedgerEntry>::empty(),
    {
        Ledger { entries: Vec::new() }
    }

    /// A copy of the ledger with the same entries in the same order.
    pub fn duplicate(&self) -> (l: Ledger)
        ensures
            l.entries@ == self.entries@,
    {
        let mut entries: Vec<LedgerEntry> = Vec::new();
        let mut i: usize = 0;
        while i < self.entries.len()
            invariant
                i <= self.entries.len(),
                entries@ == self.entries@.take(i as int),
            decreases self.entries.len() - i,
        {
            entries.push(self.entries[i].duplicate());
            assert(entries@ =~= self.entries@.take(i + 1));
            i = i + 1;
        }
        assert(self.entries@.take(self.entries.len() as int) =~= self.entries@);
        Ledger { entries }
    }

    /// Add an entry to the ledger.
    pub fn add(&mut self, entry: LedgerEntry)
        ensures
            final(self).entries@ == old(self).entries@.push(entry),
    {
        self.entries.push(entry);
    }

    /// Retrieve entries by kind, in the order they were added.
    pub fn by_kind(&self, kind: LedgerEntryKind) -> (r: Vec<&LedgerEntry>)
        ensures
            r@.map_values(|e: &LedgerEntry| *e) == entries_of_kind(self.entries@, kind),
    {
        let mut r: Vec<&LedgerEntry> = Vec::new();
        let mut i: usize = 0;
        while i < self.entries.len()
            invariant
                i <= self.entries.len(),
                r@.map_values(|e: &LedgerEntry| *e) == entries_of_kind(
                    self.entries@.take(i as int),
                    kind,
                ),
            decreases self.entries.len() - i,
        {
            let e = &self.entries[i];
            proof {
                let pred = |x: LedgerEntry| x.kind == kind;
                assert(self.entries@.take(i + 1).drop_last() =~= self.entries@.take(i as int));
                reveal_with_fuel(Seq::<LedgerEntry>::filter, 1);
            }
            if e.kind == kind {
                r.push(e);
            }
            assert(r@.map_values(|e: &LedgerEntry| *e) =~= entries_of_kind(
                self.entries@.take(i + 1),
                kind,
            ));
            i = i + 1;
        }
        assert(self.entries@.take(self.entries.len() as int) =~= self.entries@);
        r
    }

    /// Estimated byte size of the ledger: key and value bytes plus 64 per entry.
    pub fn byte_size(&self) -> (n: usize)
        requires
            ledger_bytes(self.entries@) <= usize::MAX,
        ensures
            n as nat == ledger_bytes(self.entries@),
    {
        let mut total: usize = 0;
        let mut i: usize = 0;
        while i < self.entries.len()
            invariant
                i <= self.entries.len(),
                ledger_bytes(self.entries@) <= usize::MAX,
                total as nat == ledger_bytes(self.entries@.take(i as int)),
            decreases self.entries.len() - i,
        {
            proof {
                assert(self.entries@.take(i + 1).drop_last() =~= self.entries@.take(i as int));
                lemma_ledger_bytes_prefix(self.entries@, i + 1);
            }
            let e = &self.entries[i];
            let k = str_byte_len(e.key.as_str());
            let v = str_byte_len(e.value.as_str());
            total = total + k + v + 64;
            i = i + 1;
        }
        assert(self.entries@.take(self.entries.len() as int) =~= self.entries@);
        total
    }
}

impl Default for Ledger {
    fn default() -> (l: Ledger)
        ensures
            l.entries@ == Seq::<LedgerEntry>::empty(),
    {
        Ledger::new()
    }
}

/// Configuration for the context manager.
#[derive(Debug, Clone, Copy)]
pub struct ContextConfig {
    /// Maximum number of messages in the sliding window.
    pub max_messages: usize,
    /// Maximum total bytes for the message history.
    pub max_bytes: usize,
    /// Maximum token estimate for the context window.
    pub max_tokens: u64,
    /// Whether to enable incremental summarization.
    pub enable_summarization: bool,
}

impl Default for ContextConfig {
    fn default() -> (c: ContextConfig)
        ensures
            c.max_messages == 100,
            c.max_bytes == 512 * 1024,
            c.max_tokens == 8000,
            c.enable_summarization,
    {
        ContextConfig {
            max_messages: 100,
            max_bytes: 512 * 1024,
            max_tokens: 8000,
            enable_summarization: true,
        }
    }
}

} // verus!
