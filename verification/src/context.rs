//! Conversation context: the messages kept for the assistant, their token
//! estimates, and compaction of old messages.

use vstd::prelude::*;
use vstd::string::StringSliceAdditionalSpecFns;
use crate::text::{cat3, dec, owned, push_str, u64_to_string};

verus! {

/// One message held in the context.
#[derive(Debug, Clone)]
pub struct ContextMessage {
    pub role: String,
    pub content: String,
    pub tokens: usize,
}

/// The context: its messages, the tokens they hold, and the running totals.
#[derive(Debug, Clone)]
pub struct ContextManager {
    pub messages: Vec<ContextMessage>,
    pub token_count: usize,
    pub total_tokens_used: u64,
    pub total_cost_cents: u64,
}

/// The token estimate of a text: a quarter of its length in UTF-8 bytes.
pub open spec fn tokens_of(text: &str) -> nat {
    text.spec_bytes().len() / 4
}

/// The messages that a compaction leaves: the last five, newest first, when
/// there are more than five; otherwise all of them, unchanged.
pub open spec fn compacted(m: Seq<ContextMessage>) -> Seq<ContextMessage> {
    if m.len() > 5 {
        m.subrange(m.len() - 5, m.len() as int).reverse()
    } else {
        m
    }
}

/// Estimates the tokens of a text: its byte length divided by four.
pub fn estimate_tokens(text: &str) -> (r: usize)
    ensures
        r == tokens_of(text),
{
    text.as_bytes().len() / 4
}

impl ContextManager {
    /// An empty context with zero totals.
    pub fn new() -> (r: Self)
        ensures
            r.messages@.len() == 0,
            r.token_count == 0,
            r.total_tokens_used == 0,
            r.total_cost_cents == 0,
    {
        ContextManager { messages: Vec::new(), token_count: 0, total_tokens_used: 0, total_cost_cents: 0 }
    }

    /// Appends a message and counts its estimated tokens in the current and
    /// the running total.
    pub fn add_message(&mut self, role: &str, content: &str)
        requires
            old(self).token_count + tokens_of(content) <= usize::MAX,
            old(self).total_tokens_used + tokens_of(content) <= u64::MAX,
        ensures
            final(self).messages@.len() == old(self).messages@.len() + 1,
            final(self).messages@.drop_last() == old(self).messages@,
            final(self).messages@.last().role@ == role@,
            final(self).messages@.last().content@ == content@,
            final(self).messages@.last().tokens == tokens_of(content),
            final(self).token_count == old(self).token_count + tokens_of(content),
            final(self).total_tokens_used == old(self).total_tokens_used + tokens_of(content),
            final(self).total_cost_cents == old(self).total_cost_cents,
    {
        let tokens = estimate_tokens(content);
        self.messages.push(ContextMessage { role: owned(role), content: owned(content), tokens });
        self.token_count = self.token_count + tokens;
        self.total_tokens_used = self.total_tokens_used + tokens as u64;
        assert(self.messages@.drop_last() =~= old(self).messages@);
    }

    /// Keeps only the last five messages, newest first, and returns how many
    /// were dropped. The token counts are left as they are.
    pub fn compact(&mut self) -> (r: usize)
        ensures
            final(self).messages@ == compacted(old(self).messages@),
            r == old(self).messages@.len() - compacted(old(self).messages@).len(),
            final(self).token_count == old(self).token_count,
            final(self).total_tokens_used == old(self).total_tokens_used,
            final(self).total_cost_cents == old(self).total_cost_cents,
    {
        let initial = self.messages.len();
        if initial > 5 {
            let mut rest: Vec<ContextMessage> = Vec::new();
            std::mem::swap(&mut rest, &mut self.messages);
            let mut kept: Vec<ContextMessage> = Vec::new();
            while rest.len() > initial - 5
                invariant
                    initial == old(self).messages@.len(),
                    initial > 5,
                    initial - 5 <= rest@.len() <= initial,
                    rest@ == old(self).messages@.subrange(0, rest@.len() as int),
                    kept@ =~= old(self).messages@.subrange(rest@.len() as int, initial as int).reverse(),
                decreases rest.len(),
            {
                let m = rest.pop().unwrap();
                kept.push(m);
            }
            self.messages = kept;
        }
        initial - self.messages.len()
    }

    /// The current token count, the running total, and the cost in cents.
    pub fn get_usage(&self) -> (r: (usize, u64, u64))
        ensures
            r == (self.token_count, self.total_tokens_used, self.total_cost_cents),
    {
        (self.token_count, self.total_tokens_used, self.total_cost_cents)
    }

    /// Drops every message and resets the current token count; the running
    /// totals stay.
    pub fn clear(&mut self)
        ensures
            final(self).messages@.len() == 0,
            final(self).token_count == 0,
            final(self).total_tokens_used == old(self).total_tokens_used,
            final(self).total_cost_cents == old(self).total_cost_cents,
    {
        self.messages = Vec::new();
        self.token_count = 0;
    }
}

/// A compaction leaves at most five messages, and compacting again changes
/// nothing.
pub proof fn lemma_compact_settles(m: Seq<ContextMessage>)
    ensures
        compacted(m).len() <= 5,
        compacted(compacted(m)) == compacted(m),
{
}

/// The status line of a context: messages, current tokens and total tokens.
pub fn get_context_status(ctx: &ContextManager) -> (r: String)
    ensures
        r@ == "Status: "@ + dec(ctx.messages@.len()) + " messages, "@ + dec(ctx.token_count as nat)
            + " tokens used, "@ + dec(ctx.total_tokens_used as nat) + " total tokens"@,
{
    let mut r = cat3("Status: ", u64_to_string(ctx.messages.len() as u64).as_str(), " messages, ");
    push_str(&mut r, u64_to_string(ctx.token_count as u64).as_str());
    push_str(&mut r, " tokens used, ");
    push_str(&mut r, u64_to_string(ctx.total_tokens_used).as_str());
    push_str(&mut r, " total tokens");
    r
}

/// The one-line summary of a context: messages and current tokens.
pub fn get_context_summary(ctx: &ContextManager) -> (r: String)
    ensures
        r@ == "Messages: "@ + dec(ctx.messages@.len()) + " | Tokens: "@ + dec(ctx.token_count as nat),
{
    let mut r = cat3("Messages: ", u64_to_string(ctx.messages.len() as u64).as_str(), " | Tokens: ");
    push_str(&mut r, u64_to_string(ctx.token_count as u64).as_str());
    r
}

/// Compacts the context and says how many messages were dropped.
pub fn compact_context(ctx: &mut ContextManager) -> (r: String)
    ensures
        final(ctx).messages@ == compacted(old(ctx).messages@),
        final(ctx).token_count == old(ctx).token_count,
        final(ctx).total_tokens_used == old(ctx).total_tokens_used,
        final(ctx).total_cost_cents == old(ctx).total_cost_cents,
        r@ == "Compacted "@ + dec((old(ctx).messages@.len() - compacted(old(ctx).messages@).len()) as nat)
            + " messages"@,
{
    let removed = ctx.compact();
    cat3("Compacted ", u64_to_string(removed as u64).as_str(), " messages")
}

/// The token usage report: current and total tokens.
pub fn show_usage(ctx: &ContextManager) -> (r: String)
    ensures
        r@ == "\n\x1b[36m\u{1f4ca} Token Usage\x1b[0m\n\n"@ + "Current: "@ + dec(ctx.token_count as nat)
            + " tokens\n"@ + "Total: "@ + dec(ctx.total_tokens_used as nat) + " tokens\n"@,
{
    let (tokens, total, _cost) = ctx.get_usage();
    let mut r = owned("\n\x1b[36m\u{1f4ca} Token Usage\x1b[0m\n\n");
    push_str(&mut r, "Current: ");
    push_str(&mut r, u64_to_string(tokens as u64).as_str());
    push_str(&mut r, " tokens\n");
    push_str(&mut r, "Total: ");
    push_str(&mut r, u64_to_string(total).as_str());
    push_str(&mut r, " tokens\n");
    r
}

} // verus!
