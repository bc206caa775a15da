//! Sizing of the context window and summarization of old conversation.
use vstd::prelude::*;
use crate::ollama::{plain_message, requests_view, ChatMessage, ChatMessageRequest};
use crate::text::{append_str, chars_of, str_len, string_of, spec_to_uppercase, to_uppercase};

verus! {

/// Decides when the conversation is summarized.
///
/// The threshold is the fraction of the context window, in thousandths, at which
/// summarization starts (800 for 80%).
#[derive(Debug, Clone)]
pub struct ContextManager {
    pub summarization_threshold_permille: u32,
    pub auto_context: bool,
    pub summarization_enabled: bool,
}

/// Memory of the machine, in megabytes.
#[derive(Debug, Clone)]
pub struct SystemResources {
    pub available_ram_mb: u64,
    pub total_ram_mb: u64,
}

impl Default for ContextManager {
    fn default() -> (m: Self)
        ensures
            m.summarization_threshold_permille == 800,
            m.auto_context,
            m.summarization_enabled,
    {
        ContextManager { summarization_threshold_permille: 800, auto_context: true, summarization_enabled: true }
    }
}

/// The least context window ever chosen.
pub open spec fn min_context() -> nat { 2048 }

/// The context window assumed for a model that does not report one.
pub open spec fn default_context() -> nat { 4096 }

/// The context window for a model reporting `model_context` on a machine with
/// `ram_mb` megabytes free: the model's window (or the default), capped at a
/// quarter of the free megabytes, and never under the minimum.
pub open spec fn optimal_context(model_context: Option<usize>, ram_mb: nat) -> nat {
    let ram_limit = ram_mb / 4;
    let model_limit = match model_context { Some(c) => c as nat, None => default_context() };
    let capped = if model_limit <= ram_limit { model_limit } else { ram_limit };
    if capped >= min_context() { capped } else { min_context() }
}

/// More free memory never gives a smaller window, and the window never exceeds
/// the model's own (or the default) unless that is under the minimum.
pub proof fn lemma_optimal_context_monotone(model_context: Option<usize>, ram_a: nat, ram_b: nat)
    requires
        ram_a <= ram_b,
    ensures
        optimal_context(model_context, ram_a) <= optimal_context(model_context, ram_b),
        min_context() <= optimal_context(model_context, ram_a),
        optimal_context(model_context, ram_a) <= if ram_a / 4 > min_context() { ram_a / 4 } else { min_context() },
        optimal_context(model_context, ram_a) <= (match model_context {
            Some(c) => if c as nat > min_context() { c as nat } else { min_context() },
            None => default_context(),
        }),
{
    assert(ram_a / 4 <= ram_b / 4) by (nonlinear_arith)
        requires
            ram_a <= ram_b,
    ;
}

/// The estimated tokens of a text: a quarter of its length in bytes, plus four.
pub open spec fn text_tokens(s: Seq<char>) -> nat {
    str_len(s) / 4 + 4
}

/// The estimated tokens of a list of messages: the sum over their contents.
pub open spec fn messages_tokens(ms: Seq<ChatMessage>) -> nat
    decreases ms.len(),
{
    if ms.len() == 0 {
        0
    } else {
        messages_tokens(ms.drop_last()) + text_tokens(ms.last().content@)
    }
}

pub proof fn lemma_messages_tokens_prefix(ms: Seq<ChatMessage>, n: int)
    requires
        0 <= n <= ms.len(),
    ensures
        messages_tokens(ms.take(n)) <= messages_tokens(ms),
    decreases ms.len(),
{
    if n < ms.len() {
        assert(ms.drop_last().take(n) =~= ms.take(n));
        lemma_messages_tokens_prefix(ms.drop_last(), n);
    } else {
        assert(ms.take(n) =~= ms);
    }
}

/// The text of a conversation as the summary prompt shows it: each message as its
/// role in capitals, `": "`, its content, and a blank line.
pub open spec fn conversation_text(ms: Seq<ChatMessage>) -> Seq<char>
    decreases ms.len(),
{
    if ms.len() == 0 {
        Seq::empty()
    } else {
        conversation_text(ms.drop_last()) + spec_to_uppercase(ms.last().role@) + ": "@
            + ms.last().content@ + "\n\n"@
    }
}

/// The opening of the summary prompt.
pub open spec fn summary_prompt_head() -> Seq<char> {
    "Please provide a concise summary of the following conversation. Focus on:\n- Key topics discussed\n- Important decisions or conclusions\n- Any pending questions or tasks\n\nKeep the summary brief but comprehensive enough to maintain conversation context.\n\nCONVERSATION:\n"@
}

/// The prompt asking the model to summarize `ms`.
pub open spec fn summary_prompt(ms: Seq<ChatMessage>) -> Seq<char> {
    summary_prompt_head() + conversation_text(ms) + "\n\nSUMMARY:"@
}

impl ContextManager {
    /// A manager with the given settings.
    pub fn new(auto_context: bool, summarization_enabled: bool, summarization_threshold_permille: u32) -> (m: Self)
        ensures
            m.auto_context == auto_context,
            m.summarization_enabled == summarization_enabled,
            m.summarization_threshold_permille == summarization_threshold_permille,
    {
        ContextManager { summarization_threshold_permille, auto_context, summarization_enabled }
    }

    /// Memory figures in whole megabytes, from byte counts.
    pub fn resources_from_bytes(available_bytes: u64, total_bytes: u64) -> (r: SystemResources)
        ensures
            r.available_ram_mb == available_bytes / 1048576,
            r.total_ram_mb == total_bytes / 1048576,
    {
        SystemResources { available_ram_mb: available_bytes / 1048576, total_ram_mb: total_bytes / 1048576 }
    }

    /// The machine's memory, in whole megabytes, as the system reports it now
    /// (sysinfo's available and total memory, through `resources_from_bytes`).
    pub fn detect_system_resources() -> (r: SystemResources)
        ensures
            r.available_ram_mb <= u64::MAX / 1048576,
            r.total_ram_mb <= u64::MAX / 1048576,
    {
        let mut sys = system_new_all();
        system_refresh_memory(&mut sys);
        let avail = system_available_memory(&sys);
        let total = system_total_memory(&sys);
        let r = ContextManager::resources_from_bytes(avail, total);
        assert(r.available_ram_mb <= u64::MAX / 1048576) by (nonlinear_arith)
            requires r.available_ram_mb == avail / 1048576;
        assert(r.total_ram_mb <= u64::MAX / 1048576) by (nonlinear_arith)
            requires r.total_ram_mb == total / 1048576;
        r
    }

    /// The context window to use (see `optimal_context`).
    pub fn get_optimal_context_size(model_context: Option<usize>, available_ram_mb: u64) -> (r: usize)
        ensures
            r as nat == optimal_context(model_context, available_ram_mb as nat),
    {
        let ram_based_limit: u64 = available_ram_mb / 4;
        let model_limit: usize = match model_context {
            Some(c) => c,
            None => 4096,
        };
        let capped: usize = if (model_limit as u64) <= ram_based_limit {
            model_limit
        } else {
            ram_based_limit as usize
        };
        if capped >= 2048 { capped } else { 2048 }
    }

    /// Whether `current_tokens` of a `limit`-token window reach the threshold
    /// (never when summarization is off or the limit is zero).
    pub fn should_summarize(&self, current_tokens: usize, limit: usize) -> (r: bool)
        ensures
            r == (self.summarization_enabled && limit != 0
                && current_tokens * 1000 >= self.summarization_threshold_permille * limit),
    {
        if !self.summarization_enabled || limit == 0 {
            return false;
        }
        let lhs: u128 = current_tokens as u128 * 1000;
        let p: u128 = self.summarization_threshold_permille as u128;
        let l: u128 = limit as u128;
        assert(p * l <= 0xffff_ffff_ffff_ffff_ffff_ffff_ffff_ffff) by (nonlinear_arith)
            requires p <= 0xffff_ffff, l <= 0xffff_ffff_ffff_ffff;
        let rhs: u128 = p * l;
        lhs >= rhs
    }

    /// The estimated tokens of `messages` (see `messages_tokens`).
    pub fn estimate_token_count(messages: &[ChatMessage]) -> (r: usize)
        requires
            messages_tokens(messages@) <= usize::MAX,
        ensures
            r as nat == messages_tokens(messages@),
    {
        let mut total: usize = 0;
        let mut i: usize = 0;
        while i < messages.len()
            invariant
                i <= messages.len(),
                messages_tokens(messages@) <= usize::MAX,
                total as nat == messages_tokens(messages@.take(i as int)),
            decreases messages.len() - i,
        {
            assert(messages@.take(i + 1).drop_last() =~= messages@.take(i as int));
            proof { lemma_messages_tokens_prefix(messages@, i + 1); }
            total = total + (messages[i].content.as_str().len() / 4 + 4);
            i = i + 1;
        }
        assert(messages@.take(messages.len() as int) =~= messages@);
        total
    }

    /// The prompt asking the model to summarize `messages` (see `summary_prompt`).
    pub fn generate_summary_prompt(messages: &[ChatMessage]) -> (r: String)
        ensures
            r@ == summary_prompt(messages@),
    {
        let mut out: Vec<char> = chars_of("Please provide a concise summary of the following conversation. Focus on:\n- Key topics discussed\n- Important decisions or conclusions\n- Any pending questions or tasks\n\nKeep the summary brief but comprehensive enough to maintain conversation context.\n\nCONVERSATION:\n");
        let ghost head = out@;
        let mut i: usize = 0;
        while i < messages.len()
            invariant
                i <= messages.len(),
                out@ == head + conversation_text(messages@.take(i as int)),
            decreases messages.len() - i,
        {
            assert(messages@.take(i + 1).drop_last() =~= messages@.take(i as int));
            let role = to_uppercase(messages[i].role.as_str());
            append_str(&mut out, role.as_str());
            append_str(&mut out, ": ");
            append_str(&mut out, messages[i].content.as_str());
            append_str(&mut out, "\n\n");
            assert(out@ =~= head + conversation_text(messages@.take(i + 1)));
            i = i + 1;
        }
        assert(messages@.take(messages.len() as int) =~= messages@);
        append_str(&mut out, "\n\nSUMMARY:");
        string_of(out.as_slice())
    }

    /// The prompt summarizing all but the `keep_recent` latest messages, and how many
    /// messages it covers; nothing when no message would be covered.
    pub fn summarize_messages(messages: &[ChatMessage], keep_recent: usize) -> (r: Option<(String, usize)>)
        ensures
            match r {
                Some((prompt, count)) => messages@.len() > keep_recent
                    && count == messages@.len() - keep_recent
                    && prompt@ == summary_prompt(messages@.take(count as int)),
                None => messages@.len() <= keep_recent,
            },
    {
        if messages.len() <= keep_recent {
            return None;
        }
        let count_to_summarize = messages.len() - keep_recent;
        let older = &messages[0..count_to_summarize];
        assert(older@ =~= messages@.take(count_to_summarize as int));
        let prompt = Self::generate_summary_prompt(older);
        Some((prompt, count_to_summarize))
    }

    /// The request for a summary of `messages`: the system prompt, then the summary
    /// prompt as the user's message.
    pub fn build_summary_request(messages: &[ChatMessage], system_prompt: &str) -> (r: Vec<ChatMessageRequest>)
        ensures
            requests_view(r@) == seq![
                plain_message("system"@, system_prompt@),
                plain_message("user"@, summary_prompt(messages@)),
            ],
    {
        let prompt = Self::generate_summary_prompt(messages);
        let mut r: Vec<ChatMessageRequest> = Vec::new();
        r.push(ChatMessageRequest::plain("system", String::from_str(system_prompt)));
        r.push(ChatMessageRequest::plain("user", prompt));
        assert(requests_view(r@) =~= seq![
            plain_message("system"@, system_prompt@),
            plain_message("user"@, summary_prompt(messages@)),
        ]);
        r
    }
}

#[verifier::external_type_specification]
#[verifier::external_body]
pub struct ExSystem(sysinfo::System);

/// sysinfo's `System::new_all`: a snapshot of the system's information. What it
/// holds depends on the machine and the moment; nothing is stated of it.
#[verifier::external_body]
fn system_new_all() -> sysinfo::System {
    sysinfo::System::new_all()
}

/// sysinfo's `System::refresh_memory`: rereads the memory figures.
#[verifier::external_body]
fn system_refresh_memory(sys: &mut sysinfo::System) {
    sys.refresh_memory();
}

/// sysinfo's `System::available_memory`: the memory, in bytes, available to new
/// work; a figure of the machine, of which nothing is stated.
#[verifier::external_body]
fn system_available_memory(sys: &sysinfo::System) -> u64 {
    sys.available_memory()
}

/// sysinfo's `System::total_memory`: the machine's memory in bytes; nothing is
/// stated of it.
#[verifier::external_body]
fn system_total_memory(sys: &sysinfo::System) -> u64 {
    sys.total_memory()
}

} // verus!
