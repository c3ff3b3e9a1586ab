//! The mention dispatcher: the decisions that turn one decoded inbound
//! event into the actions the surrounding runtime performs.
//!
//! The runtime is bound to this module's model as follows: for each event it
//! calls [`dispatch`]; on [`Dispatch::Generate`] it hands the event off to a
//! detached task, so acknowledging the webhook never waits on the endpoint,
//! and that task performs one completion exchange over `text` followed by
//! one thread reply whose text is [`reply_for`] of the outcome — exactly the
//! actions of [`handling_trace`]. On anything else it performs none.

use vstd::prelude::*;
use vstd::string::StringExecFns;
use vstd::string::StrSliceExecFns;

use crate::completion::CompletionResult;
use crate::completion::ResultView;

verus! {

/// One decoded mention: the bot was referenced in a conversation.
#[derive(Clone, Debug, PartialEq, Eq)]
pub struct MentionEvent {
    /// Identifies the channel or room the mention came from.
    pub conversation_id: String,
    /// Identifies the message the reply should be nested under.
    pub thread_anchor: String,
    /// The raw user-supplied text, possibly with platform mention syntax.
    pub text: String,
    /// The sending workspace, when the platform supplies it.
    pub sender_team_id: Option<String>,
}

/// Mathematical model of a [`MentionEvent`].
pub struct MentionView {
    pub conversation_id: Seq<char>,
    pub thread_anchor: Seq<char>,
    pub text: Seq<char>,
    pub sender_team_id: Option<Seq<char>>,
}

impl View for MentionEvent {
    type V = MentionView;

    open spec fn view(&self) -> MentionView {
        MentionView {
            conversation_id: self.conversation_id@,
            thread_anchor: self.thread_anchor@,
            text: self.text@,
            sender_team_id: self.sender_team_id.deep_view(),
        }
    }
}

/// Every inbound notification the webhook layer can hand over, as a closed
/// set of kinds: adding a kind is a compile-time-checked decision, not a
/// silent fallthrough.
#[derive(Clone, Debug, PartialEq, Eq)]
pub enum Event {
    /// The bot was mentioned; carries everything needed to reply.
    Mention(MentionEvent),
    /// An ordinary message, observed but never answered.
    PlainMessage { conversation_id: String, text: String, sender_team_id: Option<String> },
    /// Any event kind the bridge does not handle.
    Other,
}

/// Mathematical model of an [`Event`].
pub enum EventView {
    Mention(MentionView),
    PlainMessage { conversation_id: Seq<char>, text: Seq<char>, sender_team_id: Option<Seq<char>> },
    Other,
}

impl View for Event {
    type V = EventView;

    open spec fn view(&self) -> EventView {
        match self {
            Event::Mention(m) => EventView::Mention(m@),
            Event::PlainMessage { conversation_id, text, sender_team_id } => EventView::PlainMessage {
                conversation_id: conversation_id@,
                text: text@,
                sender_team_id: sender_team_id.deep_view(),
            },
            Event::Other => EventView::Other,
        }
    }
}

/// Whether a mention carries the addressing a reply needs: both the
/// conversation and the thread anchor are present.
pub open spec fn valid_addressing(m: MentionView) -> bool {
    m.conversation_id.len() > 0 && m.thread_anchor.len() > 0
}

/// What the dispatcher decides to do with one event.
#[derive(Clone, Debug, PartialEq, Eq)]
pub enum Dispatch {
    /// Run the generator over `text` and reply in the thread named here.
    Generate { conversation_id: String, thread_anchor: String, text: String },
    /// A mention whose addressing is incomplete: dropped, logged only.
    Dropped,
    /// Not a mention: noted and left alone.
    Ignored,
}

/// Mathematical model of a [`Dispatch`].
pub enum DispatchView {
    Generate { conversation_id: Seq<char>, thread_anchor: Seq<char>, text: Seq<char> },
    Dropped,
    Ignored,
}

impl View for Dispatch {
    type V = DispatchView;

    open spec fn view(&self) -> DispatchView {
        match self {
            Dispatch::Generate { conversation_id, thread_anchor, text } => DispatchView::Generate {
                conversation_id: conversation_id@,
                thread_anchor: thread_anchor@,
                text: text@,
            },
            Dispatch::Dropped => DispatchView::Dropped,
            Dispatch::Ignored => DispatchView::Ignored,
        }
    }
}

/// The dispatch decision for one event: work is produced for a mention with
/// complete addressing and for nothing else.
pub open spec fn dispatch_spec(e: EventView) -> DispatchView {
    match e {
        EventView::Mention(m) => if valid_addressing(m) {
            DispatchView::Generate {
                conversation_id: m.conversation_id,
                thread_anchor: m.thread_anchor,
                text: m.text,
            }
        } else {
            DispatchView::Dropped
        },
        EventView::PlainMessage { .. } => DispatchView::Ignored,
        EventView::Other => DispatchView::Ignored,
    }
}

/// Decides what one inbound event leads to. Only a mention carrying both a
/// conversation and a thread anchor produces work; a mention missing either
/// is dropped, and every other kind is ignored.
pub fn dispatch(event: &Event) -> (r: Dispatch)
    ensures
        r@ == dispatch_spec(event@),
{
    match event {
        Event::Mention(m) => {
            if m.conversation_id.as_str().unicode_len() > 0 && m.thread_anchor.as_str().unicode_len() > 0 {
                Dispatch::Generate {
                    conversation_id: m.conversation_id.clone(),
                    thread_anchor: m.thread_anchor.clone(),
                    text: m.text.clone(),
                }
            } else {
                Dispatch::Dropped
            }
        },
        Event::PlainMessage { .. } => Dispatch::Ignored,
        Event::Other => Dispatch::Ignored,
    }
}

/// The fixed user-facing text sent when the generator fails. A user sees
/// either genuine model output or exactly this string; internal reasons,
/// status codes and error text never reach them.
pub open spec fn fallback_text() -> Seq<char> {
    "Sorry, I could not generate a response."@
}

/// The reply for one generator outcome: the completion text verbatim on
/// success — the empty string included, with nothing added — and the fixed
/// fallback on any failure.
pub open spec fn reply_text_spec(outcome: ResultView) -> Seq<char> {
    match outcome {
        ResultView::Success(t) => t,
        ResultView::Failure(_) => fallback_text(),
    }
}

/// The text posted into the thread for one generator outcome.
pub fn reply_for(outcome: &CompletionResult) -> (r: String)
    ensures
        r@ == reply_text_spec(outcome@),
{
    match outcome {
        CompletionResult::Success(t) => t.clone(),
        CompletionResult::Failure(_) => String::from_str("Sorry, I could not generate a response."),
    }
}

/// One externally visible action of the runtime while handling an event.
pub enum ActionView {
    /// One request to the completion endpoint carrying this text.
    LlmCall(Seq<char>),
    /// One reply posted under this thread with this text.
    PostReply { conversation_id: Seq<char>, thread_anchor: Seq<char>, text: Seq<char> },
}

pub open spec fn is_reply(a: ActionView) -> bool {
    a is PostReply
}

pub open spec fn is_llm_call(a: ActionView) -> bool {
    a is LlmCall
}

/// How many of the actions are replies to the chat client.
pub open spec fn reply_count(t: Seq<ActionView>) -> nat
    decreases t.len(),
{
    if t.len() == 0 {
        0
    } else {
        reply_count(t.drop_last()) + (if is_reply(t.last()) { 1nat } else { 0nat })
    }
}

/// How many of the actions are calls to the completion endpoint.
pub open spec fn llm_call_count(t: Seq<ActionView>) -> nat
    decreases t.len(),
{
    if t.len() == 0 {
        0
    } else {
        llm_call_count(t.drop_last()) + (if is_llm_call(t.last()) { 1nat } else { 0nat })
    }
}

/// The actions the runtime performs for one event whose generator run (if
/// any) ended in `outcome`: a dispatched mention leads to exactly one
/// endpoint call followed by exactly one thread reply; every other event
/// leads to none.
pub open spec fn handling_trace(e: EventView, outcome: ResultView) -> Seq<ActionView> {
    match dispatch_spec(e) {
        DispatchView::Generate { conversation_id, thread_anchor, text } => seq![
            ActionView::LlmCall(text),
            ActionView::PostReply { conversation_id, thread_anchor, text: reply_text_spec(outcome) },
        ],
        DispatchView::Dropped => Seq::empty(),
        DispatchView::Ignored => Seq::empty(),
    }
}

/// For every mention with complete addressing, handling the event makes
/// exactly one endpoint call and exactly one reply to the chat client,
/// whatever the generator returned — the reply carrying the completion text
/// on success and the fixed fallback on failure.
pub proof fn lemma_valid_mention_one_reply(m: MentionView, outcome: ResultView)
    requires
        valid_addressing(m),
    ensures
        reply_count(handling_trace(EventView::Mention(m), outcome)) == 1,
        llm_call_count(handling_trace(EventView::Mention(m), outcome)) == 1,
        handling_trace(EventView::Mention(m), outcome) == seq![
            ActionView::LlmCall(m.text),
            ActionView::PostReply {
                conversation_id: m.conversation_id,
                thread_anchor: m.thread_anchor,
                text: reply_text_spec(outcome),
            },
        ],
{
    let t = handling_trace(EventView::Mention(m), outcome);
    let t1 = seq![ActionView::LlmCall(m.text)];
    assert(t.len() == 2);
    assert(t.drop_last() =~= t1);
    assert(t1.drop_last() =~= Seq::<ActionView>::empty());
    assert(reply_count(Seq::<ActionView>::empty()) == 0);
    assert(llm_call_count(Seq::<ActionView>::empty()) == 0);
    assert(reply_count(t1) == 0);
    assert(llm_call_count(t1) == 1);
    assert(is_reply(t.last()));
    assert(reply_count(t) == 1);
    assert(llm_call_count(t) == 1);
}

/// For every event that is not a mention with complete addressing — a
/// mention missing its conversation or thread anchor, a plain message, or
/// an unrecognized kind — handling it makes no endpoint call and no reply.
pub proof fn lemma_undispatched_event_silent(e: EventView, outcome: ResultView)
    requires
        (match e {
            EventView::Mention(m) => !valid_addressing(m),
            _ => true,
        }),
    ensures
        handling_trace(e, outcome) == Seq::<ActionView>::empty(),
        reply_count(handling_trace(e, outcome)) == 0,
        llm_call_count(handling_trace(e, outcome)) == 0,
{
}

} // verus!
