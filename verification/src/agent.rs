//! The orchestration loop: drives a bounded sequence of backend-call,
//! drain, and tool-execution turns over the conversation store.
//!
//! One exchange appends the user's message, then repeats: take the next
//! turn's directive (a backend request, or the advisory once the turn
//! budget is spent), absorb the backend's reply, execute its requested tool
//! calls strictly in list order, and stop on a turn with no tool calls (the
//! final answer), on a backend failure, or on a tool failure.

use vstd::prelude::*;

use crate::args::{arg_model, ArgModel, ArgValue};
use crate::protocol::{
    calls_model, defs_model, entries_model, AgentStatus, AssistantMessage, ConversationEntry,
    EntryModel, SystemMessage, ToolCall, ToolCallModel, ToolDefModel, ToolDefinition,
    UserMessage,
};
use crate::store::AgentState;
use crate::tools::{catalogue_matches, ToolExecutor, ToolFailure, ToolRegistry};

verus! {

/// The advisory message emitted when the turn budget is exhausted.
pub open spec fn advisory_text() -> Seq<char> {
    "\n🔄 已达到最大对话轮次，建议重新开始对话。"@
}

/// The advisory message emitted when the turn budget is exhausted.
pub fn advisory_message() -> (r: String)
    ensures
        r@ == advisory_text(),
{
    "\n🔄 已达到最大对话轮次，建议重新开始对话。".to_owned()
}

/// The tool-first instruction injected when no system entry leads the
/// history.
pub open spec fn system_prompt_text() -> Seq<char> {
    "You are a helpful AI assistant. When users ask for information that can be obtained through tools, you MUST use the available tools.\n\nAvailable tools:\n- current_time: Get current date and time\n- shell: Execute shell commands\n- read_file: Read text file contents\n- get_flight_number: Query flight number by departure, destination, and date\n- get_ticket_price: Query ticket price by flight number and date\n\nDo not guess or make up information. Always use tools when they are relevant. For flight queries, ask for missing required information if the user doesn't provide complete details."@
}

/// The tool-first instruction injected when no system entry leads the
/// history.
pub fn system_prompt() -> (r: String)
    ensures
        r@ == system_prompt_text(),
{
    "You are a helpful AI assistant. When users ask for information that can be obtained through tools, you MUST use the available tools.\n\nAvailable tools:\n- current_time: Get current date and time\n- shell: Execute shell commands\n- read_file: Read text file contents\n- get_flight_number: Query flight number by departure, destination, and date\n- get_ticket_price: Query ticket price by flight number and date\n\nDo not guess or make up information. Always use tools when they are relevant. For flight queries, ask for missing required information if the user doesn't provide complete details.".to_owned()
}

/// The history a request carries: the log as it stands if a system entry
/// already leads it, else with the instruction entry prepended; the
/// injected entry is never persisted.
pub open spec fn injected_log(log: Seq<EntryModel>) -> Seq<EntryModel> {
    if log.len() > 0 && log[0] is System {
        log
    } else {
        seq![EntryModel::System { content: system_prompt_text() }] + log
    }
}

/// Prepends the instruction entry where no system entry leads the history.
pub fn with_system_prompt(entries: &Vec<ConversationEntry>) -> (r: Vec<ConversationEntry>)
    ensures
        entries_model(r@) == injected_log(entries_model(entries@)),
{
    let mut out: Vec<ConversationEntry> = Vec::new();
    let needs_prompt: bool = if entries.len() == 0 {
        true
    } else {
        match &entries[0] {
            ConversationEntry::System(_) => false,
            _ => true,
        }
    };
    let ghost m = entries_model(entries@);
    let ghost lead: int = if needs_prompt {
        1int
    } else {
        0int
    };
    if needs_prompt {
        out.push(ConversationEntry::System(SystemMessage { content: system_prompt() }));
    }
    let n = entries.len();
    for i in 0..n
        invariant
            n == entries@.len(),
            m == entries_model(entries@),
            m.len() == n,
            lead == if needs_prompt {
                1int
            } else {
                0int
            },
            out@.len() == lead + i,
            needs_prompt ==> out@[0]@ == (EntryModel::System { content: system_prompt_text() }),
            forall|j: int| 0 <= j < i ==> (#[trigger] out@[lead + j])@ == m[j],
    {
        out.push(entries[i].duplicate());
    }
    proof {
        assert forall|k: int| 0 <= k < out@.len() implies entries_model(out@)[k] == injected_log(
            m,
        )[k] by {
            if needs_prompt {
                if k > 0 {
                    assert(out@[lead + (k - 1)]@ == m[k - 1]);
                }
            } else {
                assert(out@[lead + k]@ == m[k]);
                assert(m[0] == entries@[0]@);
            }
        }
        assert(entries_model(out@) =~= injected_log(m));
    }
    out
}

/// One request to the backend: the history to replay and the tool
/// catalogue.
#[derive(Debug)]
pub struct BackendRequest {
    pub messages: Vec<ConversationEntry>,
    pub tools: Vec<ToolDefinition>,
}

/// What the next turn does: invoke the backend, or stop with the advisory
/// once the turn budget is spent.
#[derive(Debug)]
pub enum TurnDirective {
    Invoke(BackendRequest),
    Stop { advisory: String },
}

/// One backend turn's outcome, as the drain of its response left it.
#[derive(Debug, PartialEq)]
pub enum BackendReply {
    /// The response was drained: the turn's text, and its tool calls if the
    /// completion signal arrived.
    Completed { text: String, tool_calls: Option<Vec<ToolCall>> },
    /// The invocation failed.
    Failed { message: String },
}

/// The model of a [`BackendReply`].
pub enum ReplyModel {
    Completed { text: Seq<char>, tool_calls: Option<Seq<ToolCallModel>> },
    Failed { message: Seq<char> },
}

impl View for BackendReply {
    type V = ReplyModel;

    open spec fn view(&self) -> ReplyModel {
        match self {
            BackendReply::Completed { text, tool_calls } => ReplyModel::Completed {
                text: text@,
                tool_calls: crate::protocol::opt_calls_model(*tool_calls),
            },
            BackendReply::Failed { message } => ReplyModel::Failed { message: message@ },
        }
    }
}

/// The models of a reply list, in order.
pub open spec fn replies_model(s: Seq<BackendReply>) -> Seq<ReplyModel> {
    Seq::new(s.len(), |i: int| s[i]@)
}

/// Whether a reply requests at least one tool call.
pub open spec fn requests_tools(r: ReplyModel) -> bool {
    match r {
        ReplyModel::Completed { tool_calls, .. } => match tool_calls {
            Some(cs) => cs.len() > 0,
            None => false,
        },
        ReplyModel::Failed { .. } => false,
    }
}

/// What absorbing one backend turn decided.
#[derive(Debug)]
pub enum ReplyDisposition {
    /// Tool calls were executed; the loop calls the backend again.
    Continue,
    /// No tool call was requested: the turn's text is the final answer.
    Finished { text: String },
    /// A tool call failed; the exchange aborts.
    ToolFailed { failure: ToolFailure },
}

/// How one whole exchange ended.
#[derive(Debug)]
pub enum OutcomeKind {
    /// The final answer.
    Final { text: String },
    /// The turn budget was spent; the fixed advisory message.
    BudgetExhausted { advisory: String },
    /// A backend invocation failed.
    BackendFailed { message: String },
    /// A tool call failed; the failure is surfaced as it was raised.
    ToolFailed { failure: ToolFailure },
}

/// How one whole exchange ended, and how many backend invocations it made.
#[derive(Debug)]
pub struct ExchangeOutcome {
    pub backend_calls: usize,
    pub kind: OutcomeKind,
}

/// The orchestrator: the conversation store, the tool registry, and the
/// turn budget.
pub struct Agent<H: ToolExecutor> {
    state: AgentState,
    registry: ToolRegistry<H>,
    max_turns: usize,
    current_turn: usize,
}

impl<H: ToolExecutor> Agent<H> {
    /// The conversation log.
    pub closed spec fn spec_log(&self) -> Seq<EntryModel> {
        self.state@.log
    }

    /// The observable status.
    pub closed spec fn spec_status(&self) -> AgentStatus {
        self.state@.status
    }

    /// The registry.
    pub closed spec fn spec_registry(&self) -> ToolRegistry<H> {
        self.registry
    }

    /// The turn budget.
    pub closed spec fn spec_max_turns(&self) -> int {
        self.max_turns as int
    }

    /// The turns taken in the running exchange.
    pub closed spec fn spec_turn(&self) -> int {
        self.current_turn as int
    }

    /// Well-formed: the registry is, and the turn counter never passes the
    /// budget.
    pub open spec fn wf(&self) -> bool {
        self.spec_registry().wf() && 0 <= self.spec_turn() <= self.spec_max_turns()
    }

    /// An orchestrator over a registry, with the default turn budget.
    pub fn new(registry: ToolRegistry<H>) -> (r: Agent<H>)
        requires
            registry.wf(),
        ensures
            r.wf(),
            r.spec_status() == AgentStatus::Idle,
            r.spec_log() == Seq::<EntryModel>::empty(),
            r.spec_registry() == registry,
            r.spec_max_turns() == 10,
            r.spec_turn() == 0,
    {
        Agent { state: AgentState::new(), registry, max_turns: 10, current_turn: 0 }
    }

    /// An orchestrator over a registry, with the given turn budget.
    pub fn with_max_turns(registry: ToolRegistry<H>, max_turns: usize) -> (r: Agent<H>)
        requires
            registry.wf(),
        ensures
            r.wf(),
            r.spec_status() == AgentStatus::Idle,
            r.spec_log() == Seq::<EntryModel>::empty(),
            r.spec_registry() == registry,
            r.spec_max_turns() == max_turns,
            r.spec_turn() == 0,
    {
        Agent { state: AgentState::new(), registry, max_turns, current_turn: 0 }
    }

    /// The observable status.
    pub fn get_status(&self) -> (r: AgentStatus)
        ensures
            r == self.spec_status(),
    {
        self.state.status()
    }

    /// The current conversation log.
    pub fn history(&self) -> (r: &Vec<ConversationEntry>)
        ensures
            entries_model(r@) == self.spec_log(),
    {
        self.state.snapshot()
    }

    /// Clears the conversation and the turn counter; the registry stays.
    pub fn reset(&mut self)
        requires
            old(self).wf(),
        ensures
            final(self).wf(),
            final(self).spec_status() == AgentStatus::Idle,
            final(self).spec_log() == Seq::<EntryModel>::empty(),
            final(self).spec_registry() == old(self).spec_registry(),
            final(self).spec_max_turns() == old(self).spec_max_turns(),
            final(self).spec_turn() == 0,
    {
        self.state.reset();
        self.current_turn = 0;
    }

    /// Starts one exchange: appends the user's message, resets the turn
    /// counter, and begins thinking.
    pub fn begin_exchange(&mut self, user_input: &str)
        requires
            old(self).wf(),
        ensures
            final(self).wf(),
            final(self).spec_log() == old(self).spec_log().push(
                EntryModel::User { content: user_input@ },
            ),
            final(self).spec_status() == AgentStatus::Thinking,
            final(self).spec_registry() == old(self).spec_registry(),
            final(self).spec_max_turns() == old(self).spec_max_turns(),
            final(self).spec_turn() == 0,
    {
        self.state.set_status(AgentStatus::Thinking);
        self.state.append(
            ConversationEntry::User(UserMessage { content: user_input.to_owned() }),
        );
        self.current_turn = 0;
    }

    /// The next turn's directive. Once the budget is spent it stops with
    /// the fixed advisory and makes no further backend call this exchange;
    /// otherwise it counts the turn and hands out the request: the history
    /// with the instruction entry injected, and the full tool catalogue.
    pub fn begin_turn(&mut self) -> (r: TurnDirective)
        requires
            old(self).wf(),
        ensures
            final(self).wf(),
            final(self).spec_log() == old(self).spec_log(),
            final(self).spec_registry() == old(self).spec_registry(),
            final(self).spec_max_turns() == old(self).spec_max_turns(),
            old(self).spec_turn() == old(self).spec_max_turns() ==> (r matches TurnDirective::Stop {
                advisory,
            } && advisory@ == advisory_text() && final(self).spec_turn() == old(self).spec_turn()
                && final(self).spec_status() == AgentStatus::Idle),
            old(self).spec_turn() < old(self).spec_max_turns() ==> (r matches
                TurnDirective::Invoke(req) && final(self).spec_turn() == old(self).spec_turn() + 1
                && final(self).spec_status() == AgentStatus::Thinking && entries_model(
                req.messages@,
            ) == injected_log(old(self).spec_log()) && catalogue_matches(
                defs_model(req.tools@),
                old(self).spec_registry().spec_tools(),
            )),
    {
        if self.current_turn == self.max_turns {
            self.state.set_status(AgentStatus::Idle);
            return TurnDirective::Stop { advisory: advisory_message() };
        }
        self.current_turn = self.current_turn + 1;
        self.state.set_status(AgentStatus::Thinking);
        let messages = with_system_prompt(self.state.snapshot());
        let tools = self.registry.list_definitions();
        TurnDirective::Invoke(BackendRequest { messages, tools })
    }

    /// Absorbs one drained backend turn: appends the assistant entry; with
    /// no requested tool call the turn's text is the final answer;
    /// otherwise every requested call is executed strictly in list order,
    /// each appending its result entry keyed by the call's id, and the loop
    /// continues — unless a call fails, which aborts the exchange.
    pub fn absorb_reply(&mut self, text: String, tool_calls: Option<Vec<ToolCall>>) -> (r:
        ReplyDisposition)
        requires
            old(self).wf(),
        ensures
            final(self).wf(),
            final(self).spec_registry() == old(self).spec_registry(),
            final(self).spec_max_turns() == old(self).spec_max_turns(),
            final(self).spec_turn() == old(self).spec_turn(),
            final(self).spec_log().len() > old(self).spec_log().len(),
            final(self).spec_log().subrange(0, old(self).spec_log().len() as int + 1) == old(self).spec_log().push(
                EntryModel::Assistant {
                    content: text@,
                    tool_calls: crate::protocol::opt_calls_model(tool_calls),
                },
            ),
            ({
                let requested = match crate::protocol::opt_calls_model(tool_calls) {
                    Some(cs) => cs.len() > 0,
                    None => false,
                };
                &&& (r is Finished <==> !requested)
                &&& (r matches ReplyDisposition::Finished { text: t } ==> t@ == text@
                    && final(self).spec_status() == AgentStatus::Idle && final(self).spec_log()
                    == old(self).spec_log().push(
                    EntryModel::Assistant {
                        content: text@,
                        tool_calls: crate::protocol::opt_calls_model(tool_calls),
                    },
                ))
                &&& (r is Continue ==> final(self).spec_status() == AgentStatus::Thinking && ({
                    let cs = crate::protocol::opt_calls_model(tool_calls)->Some_0;
                    final(self).spec_log().len() == old(self).spec_log().len() + 1 + cs.len()
                        && forall|j: int|
                        0 <= j < cs.len() ==> ((#[trigger] final(self).spec_log()[old(self).spec_log().len() + 1 + j]) matches EntryModel::Tool {
                            tool_call_id,
                            ..
                        } && tool_call_id == cs[j].id)
                }))
                &&& (r matches ReplyDisposition::ToolFailed { failure } ==> ({
                    let cs = crate::protocol::opt_calls_model(tool_calls)->Some_0;
                    let k = final(self).spec_log().len() - old(self).spec_log().len() - 1;
                    &&& final(self).spec_status() == AgentStatus::Error
                    &&& 0 <= k < cs.len()
                    &&& (forall|j: int|
                        0 <= j < k ==> ((#[trigger] final(self).spec_log()[old(
                            self,
                        ).spec_log().len() + 1 + j]) matches EntryModel::Tool {
                            tool_call_id,
                            ..
                        } && tool_call_id == cs[j].id))
                    &&& (failure@ matches crate::tools::ToolFailureModel::NotFound { name }
                        ==> name == cs[k].name)
                    &&& (failure@ matches crate::tools::ToolFailureModel::ArgumentParse { raw }
                        ==> ArgModel::Str(raw) == cs[k].arguments)
                }))
            }),
    {
        let ghost base = old(self).spec_log();
        let ghost asst = EntryModel::Assistant {
            content: text@,
            tool_calls: crate::protocol::opt_calls_model(tool_calls),
        };
        let entry_calls: Option<Vec<ToolCall>> = match &tool_calls {
            Some(cs) => Some(crate::protocol::duplicate_calls(cs)),
            None => None,
        };
        self.state.append(
            ConversationEntry::Assistant(
                AssistantMessage { content: text.clone(), tool_calls: entry_calls },
            ),
        );
        proof {
            assert(self.spec_log() =~= base.push(asst));
            assert(self.spec_log().subrange(0, base.len() as int + 1) =~= base.push(asst));
        }
        let requested: bool = match &tool_calls {
            Some(cs) => cs.len() > 0,
            None => false,
        };
        if !requested {
            self.state.set_status(AgentStatus::Idle);
            return ReplyDisposition::Finished { text };
        }
        let calls: &Vec<ToolCall> = match &tool_calls {
            Some(cs) => cs,
            None => {
                proof {
                    assert(false);
                }
                return ReplyDisposition::Continue;
            },
        };
        let ghost cs = calls_model(calls@);
        let n = calls.len();
        for i in 0..n
            invariant
                n == calls@.len(),
                cs == calls_model(calls@),
                cs.len() == n,
                cs.len() > 0,
                self.wf(),
                self.spec_registry() == old(self).spec_registry(),
                self.spec_max_turns() == old(self).spec_max_turns(),
                self.spec_turn() == old(self).spec_turn(),
                base == old(self).spec_log(),
                asst == (EntryModel::Assistant {
                    content: text@,
                    tool_calls: crate::protocol::opt_calls_model(tool_calls),
                }),
                crate::protocol::opt_calls_model(tool_calls) == Some(cs),
                self.spec_log().len() == base.len() + 1 + i,
                self.spec_log().subrange(0, base.len() as int + 1) == base.push(asst),
                forall|j: int|
                    0 <= j < i ==> ((#[trigger] self.spec_log()[base.len() + 1 + j]) matches
                        EntryModel::Tool { tool_call_id, .. } && tool_call_id == cs[j].id),
        {
            self.state.set_status(AgentStatus::ExecutingTool);
            let outcome = self.registry.execute(&calls[i]);
            match outcome {
                Ok(result) => {
                    proof {
                        assert(result.tool_call_id@ == cs[i as int].id);
                    }
                    let ghost logpre = self.spec_log();
                    self.state.append(ConversationEntry::Tool(result));
                    self.state.set_status(AgentStatus::Thinking);
                    proof {
                        assert(self.spec_log() =~= logpre.push(
                            self.spec_log()[logpre.len() as int],
                        ));
                        assert(self.spec_log().subrange(0, base.len() as int + 1) =~= base.push(asst));
                    }
                },
                Err(failure) => {
                    self.state.set_status(AgentStatus::Error);
                    proof {
                        assert(cs[i as int] == calls@[i as int]@);
                    }
                    return ReplyDisposition::ToolFailed { failure };
                },
            }
        }
        self.state.set_status(AgentStatus::Thinking);
        ReplyDisposition::Continue
    }

    /// Runs one whole exchange against a given sequence of drained backend
    /// replies, consumed one per turn: the loop of the orchestrator, with
    /// the backend transport abstracted as the reply list. Unless a tool
    /// call fails, the exchange ends with the final answer exactly when the
    /// scan of the replies, within the budget, reaches a completed reply
    /// with no tool call — that reply's text, after that many invocations;
    /// every reply consumed before the deciding one requested tools. A
    /// failed reply (or a missing one) aborts at its own turn, with no
    /// retry. With a turn budget of `M`, a backend that always requests a
    /// tool call sees exactly `M` invocations and then the fixed advisory
    /// message.
    pub fn run_exchange(&mut self, user_input: &str, replies: Vec<BackendReply>) -> (r:
        ExchangeOutcome)
        requires
            old(self).wf(),
        ensures
            final(self).wf(),
            final(self).spec_registry() == old(self).spec_registry(),
            final(self).spec_max_turns() == old(self).spec_max_turns(),
            r.backend_calls <= replies@.len(),
            r.backend_calls <= old(self).spec_max_turns(),
            r.kind matches OutcomeKind::BudgetExhausted { advisory } ==> advisory@
                == advisory_text() && r.backend_calls == old(self).spec_max_turns() && final(self).spec_status() == AgentStatus::Idle,
            r.kind is BudgetExhausted ==> forall|j: int|
                0 <= j < r.backend_calls ==> requests_tools((#[trigger] replies@[j])@),
            r.kind matches OutcomeKind::Final { text } ==> 1 <= r.backend_calls <= replies@.len()
                && (replies@[r.backend_calls - 1]@ matches ReplyModel::Completed {
                text: t,
                tool_calls,
            } && text@ == t && !requests_tools(replies@[r.backend_calls - 1]@)) && final(self).spec_status() == AgentStatus::Idle,
            r.kind is BackendFailed ==> final(self).spec_status() == AgentStatus::Error,
            r.kind is BackendFailed ==> r.backend_calls == replies@.len() || (r.backend_calls >= 1
                && replies@[r.backend_calls - 1]@ is Failed),
            r.kind is ToolFailed ==> final(self).spec_status() == AgentStatus::Error
                && r.backend_calls >= 1 && requests_tools(replies@[r.backend_calls - 1]@),
            !(r.kind is ToolFailed) ==> ((r.kind is Final) <==> (1 <= r.backend_calls
                && replies@[r.backend_calls - 1]@ is Completed && !requests_tools(
                replies@[r.backend_calls - 1]@,
            ))),
            forall|j: int|
                0 <= j < r.backend_calls - 1 ==> requests_tools((#[trigger] replies@[j])@),
            (forall|i: int| 0 <= i < replies@.len() ==> requests_tools((#[trigger] replies@[i])@))
                && replies@.len() >= old(self).spec_max_turns() && !(r.kind is ToolFailed) ==> (
            r.kind is BudgetExhausted),
            final(self).spec_log().len() > old(self).spec_log().len(),
            final(self).spec_log().subrange(0, old(self).spec_log().len() as int + 1) == old(self).spec_log().push(EntryModel::User { content: user_input@ }),
    {
        self.begin_exchange(user_input);
        let ghost base = old(self).spec_log();
        let ghost user_entry = EntryModel::User { content: user_input@ };
        let mut remaining = replies;
        let mut consumed: usize = 0;
        proof {
            assert(self.spec_log().subrange(0, base.len() as int + 1) =~= base.push(user_entry));
        }
        loop
            invariant
                self.wf(),
                self.spec_registry() == old(self).spec_registry(),
                self.spec_max_turns() == old(self).spec_max_turns(),
                consumed + remaining@.len() == replies@.len(),
                forall|j: int|
                    0 <= j < remaining@.len() ==> remaining@[j] == replies@[consumed + j],
                forall|j: int| 0 <= j < consumed ==> requests_tools((#[trigger] replies@[j])@),
                consumed == self.spec_turn(),
                self.spec_log().len() > base.len(),
                self.spec_log().subrange(0, base.len() as int + 1) == base.push(user_entry),
                base == old(self).spec_log(),
                user_entry == (EntryModel::User { content: user_input@ }),
            decreases old(self).spec_max_turns() - consumed,
        {
            match self.begin_turn() {
                TurnDirective::Stop { advisory } => {
                    return ExchangeOutcome {
                        backend_calls: consumed,
                        kind: OutcomeKind::BudgetExhausted { advisory },
                    };
                },
                TurnDirective::Invoke(_request) => {
                    if remaining.len() == 0 {
                        self.state.set_status(AgentStatus::Error);
                        proof {
                            assert(consumed == replies@.len());
                            assert(consumed < old(self).spec_max_turns());
                        }
                        return ExchangeOutcome {
                            backend_calls: consumed,
                            kind: OutcomeKind::BackendFailed {
                                message: "后端未返回响应".to_owned(),
                            },
                        };
                    }
                    let reply = remaining.remove(0);
                    let ghost rm = reply@;
                    proof {
                        assert(reply == replies@[consumed as int]);
                    }
                    consumed = consumed + 1;
                    proof {
                        assert(rm == replies@[consumed as int - 1]@);
                    }
                    match reply {
                        BackendReply::Failed { message } => {
                            self.state.set_status(AgentStatus::Error);
                            proof {
                                assert(replies@[consumed as int - 1]@ is Failed);
                            }
                            return ExchangeOutcome {
                                backend_calls: consumed,
                                kind: OutcomeKind::BackendFailed { message },
                            };
                        },
                        BackendReply::Completed { text, tool_calls } => {
                            match self.absorb_reply(text, tool_calls) {
                                ReplyDisposition::Continue => {
                                    proof {
                                        assert(requests_tools(rm));
                                        assert(self.spec_log().subrange(0, base.len() as int + 1)
                                            =~= base.push(user_entry));
                                    }
                                },
                                ReplyDisposition::Finished { text } => {
                                    proof {
                                        assert(!requests_tools(rm));
                                    }
                                    return ExchangeOutcome {
                                        backend_calls: consumed,
                                        kind: OutcomeKind::Final { text },
                                    };
                                },
                                ReplyDisposition::ToolFailed { failure } => {
                                    proof {
                                        assert(requests_tools(rm));
                                    }
                                    return ExchangeOutcome {
                                        backend_calls: consumed,
                                        kind: OutcomeKind::ToolFailed { failure },
                                    };
                                },
                            }
                        },
                    }
                },
            }
        }
    }
}

/// The wire form of one tool call inside an assistant message.
pub open spec fn call_wire(c: ToolCallModel) -> ArgModel {
    ArgModel::Obj(
        seq![
            ("id"@, ArgModel::Str(c.id)),
            ("type"@, ArgModel::Str("function"@)),
            (
                "function"@,
                ArgModel::Obj(
                    seq![("name"@, ArgModel::Str(c.name)), ("arguments"@, c.arguments)],
                ),
            ),
        ],
    )
}

/// The wire form of one history entry: its role, its content, and for an
/// assistant entry its tool calls, for a tool entry the answered call's id.
pub open spec fn message_wire(e: EntryModel) -> ArgModel {
    match e {
        EntryModel::User { content } => ArgModel::Obj(
            seq![("role"@, ArgModel::Str("user"@)), ("content"@, ArgModel::Str(content))],
        ),
        EntryModel::System { content } => ArgModel::Obj(
            seq![("role"@, ArgModel::Str("system"@)), ("content"@, ArgModel::Str(content))],
        ),
        EntryModel::Tool { tool_call_id, content } => ArgModel::Obj(
            seq![
                ("role"@, ArgModel::Str("tool"@)),
                ("content"@, ArgModel::Str(content)),
                ("tool_call_id"@, ArgModel::Str(tool_call_id)),
            ],
        ),
        EntryModel::Assistant { content, tool_calls } => ArgModel::Obj(
            seq![
                ("role"@, ArgModel::Str("assistant"@)),
                ("content"@, ArgModel::Str(content)),
            ] + match tool_calls {
                Some(cs) => seq![
                    ("tool_calls"@, ArgModel::Arr(Seq::new(cs.len(), |i: int| call_wire(cs[i])))),
                ],
                None => Seq::empty(),
            },
        ),
    }
}

/// The wire form of one catalogue entry.
pub open spec fn tool_wire(d: ToolDefModel) -> ArgModel {
    ArgModel::Obj(
        seq![
            ("type"@, ArgModel::Str("function"@)),
            (
                "function"@,
                ArgModel::Obj(
                    seq![
                        ("name"@, ArgModel::Str(d.name)),
                        ("description"@, ArgModel::Str(d.description)),
                        ("parameters"@, d.parameters),
                    ],
                ),
            ),
        ],
    )
}

/// The whole request document: the model identifier, the wire form of every
/// history entry in order, the stream flag, automatic tool choice when
/// streaming, and the tool catalogue when any tool is registered.
pub open spec fn request_body_model(
    entries: Seq<EntryModel>,
    tools: Seq<ToolDefModel>,
    model: Seq<char>,
    stream: bool,
) -> ArgModel {
    ArgModel::Obj(
        seq![
            ("model"@, ArgModel::Str(model)),
            ("messages"@, ArgModel::Arr(Seq::new(entries.len(), |i: int| message_wire(entries[i])))),
            ("stream"@, ArgModel::Bool(stream)),
        ] + (if stream {
            seq![("tool_choice"@, ArgModel::Str("auto"@))]
        } else {
            Seq::empty()
        }) + (if tools.len() > 0 {
            seq![("tools"@, ArgModel::Arr(Seq::new(tools.len(), |i: int| tool_wire(tools[i]))))]
        } else {
            Seq::empty()
        }),
    )
}

/// Builds the wire form of one tool call.
fn call_wire_exec(c: &ToolCall) -> (r: ArgValue)
    ensures
        r@ == call_wire(c@),
{
    let mut fun: Vec<(String, ArgValue)> = Vec::new();
    fun.push(("name".to_owned(), ArgValue::Str(c.name.clone())));
    fun.push(("arguments".to_owned(), c.arguments.duplicate()));
    let ghost fseq = fun@;
    let ghost fun_m = arg_model(ArgValue::Obj(fun));
    let mut pairs: Vec<(String, ArgValue)> = Vec::new();
    pairs.push(("id".to_owned(), ArgValue::Str(c.id.clone())));
    pairs.push(("type".to_owned(), ArgValue::Str("function".to_owned())));
    pairs.push(("function".to_owned(), ArgValue::Obj(fun)));
    let r = ArgValue::Obj(pairs);
    proof {
        assert(fseq.len() == 2);
        assert(fseq[0].0@ == "name"@ && arg_model(fseq[0].1) == ArgModel::Str(c.name@));
        assert(fseq[1].0@ == "arguments"@ && arg_model(fseq[1].1) == arg_model(c.arguments));
        assert(fun_m->Obj_0 =~= seq![
            ("name"@, ArgModel::Str(c.name@)),
            ("arguments"@, arg_model(c.arguments)),
        ]);
        assert(pairs@.len() == 3);
        assert(pairs@[0].0@ == "id"@ && arg_model(pairs@[0].1) == ArgModel::Str(c.id@));
        assert(pairs@[1].0@ == "type"@ && arg_model(pairs@[1].1) == ArgModel::Str("function"@));
        assert(pairs@[2].0@ == "function"@ && arg_model(pairs@[2].1) == fun_m);
        assert(r@->Obj_0 =~= call_wire(c@)->Obj_0);
    }
    r
}

/// Builds the wire form of one history entry.
fn message_wire_exec(e: &ConversationEntry) -> (r: ArgValue)
    ensures
        r@ == message_wire(e@),
{
    match e {
        ConversationEntry::User(m) => {
            let mut pairs: Vec<(String, ArgValue)> = Vec::new();
            pairs.push(("role".to_owned(), ArgValue::Str("user".to_owned())));
            pairs.push(("content".to_owned(), ArgValue::Str(m.content.clone())));
            let r = ArgValue::Obj(pairs);
            proof {
                assert(pairs@.len() == 2);
                assert(pairs@[0].0@ == "role"@ && arg_model(pairs@[0].1) == ArgModel::Str(
                    "user"@,
                ));
                assert(pairs@[1].0@ == "content"@ && arg_model(pairs@[1].1) == ArgModel::Str(
                    m.content@,
                ));
                assert(r@->Obj_0 =~= message_wire(e@)->Obj_0);
            }
            r
        },
        ConversationEntry::System(m) => {
            let mut pairs: Vec<(String, ArgValue)> = Vec::new();
            pairs.push(("role".to_owned(), ArgValue::Str("system".to_owned())));
            pairs.push(("content".to_owned(), ArgValue::Str(m.content.clone())));
            let r = ArgValue::Obj(pairs);
            proof {
                assert(pairs@.len() == 2);
                assert(pairs@[0].0@ == "role"@ && arg_model(pairs@[0].1) == ArgModel::Str(
                    "system"@,
                ));
                assert(pairs@[1].0@ == "content"@ && arg_model(pairs@[1].1) == ArgModel::Str(
                    m.content@,
                ));
                assert(r@->Obj_0 =~= message_wire(e@)->Obj_0);
            }
            r
        },
        ConversationEntry::Tool(m) => {
            let mut pairs: Vec<(String, ArgValue)> = Vec::new();
            pairs.push(("role".to_owned(), ArgValue::Str("tool".to_owned())));
            pairs.push(("content".to_owned(), ArgValue::Str(m.content.clone())));
            pairs.push(("tool_call_id".to_owned(), ArgValue::Str(m.tool_call_id.clone())));
            let r = ArgValue::Obj(pairs);
            proof {
                assert(pairs@.len() == 3);
                assert(pairs@[0].0@ == "role"@ && arg_model(pairs@[0].1) == ArgModel::Str(
                    "tool"@,
                ));
                assert(pairs@[1].0@ == "content"@ && arg_model(pairs@[1].1) == ArgModel::Str(
                    m.content@,
                ));
                assert(pairs@[2].0@ == "tool_call_id"@ && arg_model(pairs@[2].1) == ArgModel::Str(
                    m.tool_call_id@,
                ));
                assert(r@->Obj_0 =~= message_wire(e@)->Obj_0);
            }
            r
        },
        ConversationEntry::Assistant(m) => {
            let mut pairs: Vec<(String, ArgValue)> = Vec::new();
            pairs.push(("role".to_owned(), ArgValue::Str("assistant".to_owned())));
            pairs.push(("content".to_owned(), ArgValue::Str(m.content.clone())));
            proof {
                assert(pairs@[0].0@ == "role"@ && arg_model(pairs@[0].1) == ArgModel::Str(
                    "assistant"@,
                ));
                assert(pairs@[1].0@ == "content"@ && arg_model(pairs@[1].1) == ArgModel::Str(
                    m.content@,
                ));
            }
            match &m.tool_calls {
                Some(cs) => {
                    let ghost csm = calls_model(cs@);
                    let mut arr: Vec<ArgValue> = Vec::new();
                    let n = cs.len();
                    for i in 0..n
                        invariant
                            n == cs@.len(),
                            csm == calls_model(cs@),
                            csm.len() == n,
                            arr@.len() == i,
                            forall|j: int| 0 <= j < i ==> arg_model(#[trigger] arr@[j])
                                == call_wire(csm[j]),
                    {
                        arr.push(call_wire_exec(&cs[i]));
                    }
                    proof {
                        assert(arg_model(ArgValue::Arr(arr))->Arr_0 =~= Seq::new(
                            csm.len(),
                            |i: int| call_wire(csm[i]),
                        ));
                    }
                    pairs.push(("tool_calls".to_owned(), ArgValue::Arr(arr)));
                    let r = ArgValue::Obj(pairs);
                    proof {
                        assert(pairs@.len() == 3);
                        assert(pairs@[2].0@ == "tool_calls"@ && arg_model(pairs@[2].1)
                            == ArgModel::Arr(Seq::new(csm.len(), |i: int| call_wire(csm[i]))));
                        assert(r@->Obj_0 =~= message_wire(e@)->Obj_0);
                    }
                    r
                },
                None => {
                    let r = ArgValue::Obj(pairs);
                    proof {
                        assert(pairs@.len() == 2);
                        assert(message_wire(e@)->Obj_0 =~= seq![
                            ("role"@, ArgModel::Str("assistant"@)),
                            ("content"@, ArgModel::Str(m.content@)),
                        ]);
                        assert(r@->Obj_0 =~= message_wire(e@)->Obj_0);
                    }
                    r
                },
            }
        },
    }
}

/// Builds the wire form of one catalogue entry.
fn tool_wire_exec(d: &ToolDefinition) -> (r: ArgValue)
    ensures
        r@ == tool_wire(d@),
{
    let mut fun: Vec<(String, ArgValue)> = Vec::new();
    fun.push(("name".to_owned(), ArgValue::Str(d.name.clone())));
    fun.push(("description".to_owned(), ArgValue::Str(d.description.clone())));
    fun.push(("parameters".to_owned(), d.parameters.duplicate()));
    let ghost fseq = fun@;
    let ghost fun_m = arg_model(ArgValue::Obj(fun));
    let mut pairs: Vec<(String, ArgValue)> = Vec::new();
    pairs.push(("type".to_owned(), ArgValue::Str("function".to_owned())));
    pairs.push(("function".to_owned(), ArgValue::Obj(fun)));
    let r = ArgValue::Obj(pairs);
    proof {
        assert(fseq.len() == 3);
        assert(fseq[0].0@ == "name"@ && arg_model(fseq[0].1) == ArgModel::Str(d.name@));
        assert(fseq[1].0@ == "description"@ && arg_model(fseq[1].1) == ArgModel::Str(
            d.description@,
        ));
        assert(fseq[2].0@ == "parameters"@ && arg_model(fseq[2].1) == arg_model(d.parameters));
        assert(fun_m->Obj_0 =~= seq![
            ("name"@, ArgModel::Str(d.name@)),
            ("description"@, ArgModel::Str(d.description@)),
            ("parameters"@, arg_model(d.parameters)),
        ]);
        assert(pairs@.len() == 2);
        assert(pairs@[0].0@ == "type"@ && arg_model(pairs@[0].1) == ArgModel::Str("function"@));
        assert(pairs@[1].0@ == "function"@ && arg_model(pairs@[1].1) == fun_m);
        assert(r@->Obj_0 =~= tool_wire(d@)->Obj_0);
    }
    r
}

/// Builds the whole request document a backend invocation sends.
pub fn request_body(req: &BackendRequest, model: &str, stream: bool) -> (r: ArgValue)
    ensures
        r@ == request_body_model(
            entries_model(req.messages@),
            defs_model(req.tools@),
            model@,
            stream,
        ),
{
    let ghost em = entries_model(req.messages@);
    let ghost dm = defs_model(req.tools@);
    let mut msgs: Vec<ArgValue> = Vec::new();
    let n = req.messages.len();
    for i in 0..n
        invariant
            n == req.messages@.len(),
            em == entries_model(req.messages@),
            em.len() == n,
            msgs@.len() == i,
            forall|j: int| 0 <= j < i ==> arg_model(#[trigger] msgs@[j]) == message_wire(em[j]),
    {
        msgs.push(message_wire_exec(&req.messages[i]));
    }
    let mut tools: Vec<ArgValue> = Vec::new();
    let k = req.tools.len();
    for i in 0..k
        invariant
            k == req.tools@.len(),
            dm == defs_model(req.tools@),
            dm.len() == k,
            tools@.len() == i,
            forall|j: int| 0 <= j < i ==> arg_model(#[trigger] tools@[j]) == tool_wire(dm[j]),
    {
        tools.push(tool_wire_exec(&req.tools[i]));
    }
    let has_tools = req.tools.len() > 0;
    let mut pairs: Vec<(String, ArgValue)> = Vec::new();
    pairs.push(("model".to_owned(), ArgValue::Str(model.to_owned())));
    proof {
        assert(arg_model(ArgValue::Arr(msgs))->Arr_0 =~= Seq::new(
            em.len(),
            |i: int| message_wire(em[i]),
        ));
        assert(arg_model(ArgValue::Arr(tools))->Arr_0 =~= Seq::new(
            dm.len(),
            |i: int| tool_wire(dm[i]),
        ));
    }
    pairs.push(("messages".to_owned(), ArgValue::Arr(msgs)));
    pairs.push(("stream".to_owned(), ArgValue::Bool(stream)));
    if stream {
        pairs.push(("tool_choice".to_owned(), ArgValue::Str("auto".to_owned())));
    }
    if has_tools {
        pairs.push(("tools".to_owned(), ArgValue::Arr(tools)));
    }
    let r = ArgValue::Obj(pairs);
    proof {
        assert(pairs@[0].0@ == "model"@ && arg_model(pairs@[0].1) == ArgModel::Str(model@));
        assert(pairs@[1].0@ == "messages"@ && arg_model(pairs@[1].1) == ArgModel::Arr(
            Seq::new(em.len(), |i: int| message_wire(em[i])),
        ));
        assert(pairs@[2].0@ == "stream"@ && arg_model(pairs@[2].1) == ArgModel::Bool(stream));
        if stream {
            assert(pairs@[3].0@ == "tool_choice"@ && arg_model(pairs@[3].1) == ArgModel::Str(
                "auto"@,
            ));
        }
        if has_tools {
            let ti: int = if stream {
                4int
            } else {
                3int
            };
            assert(pairs@[ti].0@ == "tools"@ && arg_model(pairs@[ti].1) == ArgModel::Arr(
                Seq::new(dm.len(), |i: int| tool_wire(dm[i])),
            ));
        }
        assert(pairs@.len() == 3 + (if stream {
            1int
        } else {
            0int
        }) + (if has_tools {
            1int
        } else {
            0int
        }));
        assert(r@->Obj_0 =~= request_body_model(em, dm, model@, stream)->Obj_0);
    }
    r
}

} // verus!
