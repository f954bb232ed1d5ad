use vstd::prelude::*;
use vstd::string::StringExecFns;
use crate::delta::MessageDelta;
use crate::delta::StreamError;
use crate::message::{capped, count_tokens, estimate_tokens, tokens_of, word_count, words};
use crate::message::{api_of, Message, Request, Role, SYSTEM_PROMPT};
use crate::settings::{cost_of, model_name, Model};

verus! {

/// Why a prompt or a clear was refused.
#[derive(Debug, PartialEq, Eq, Structural)]
pub enum PromptError {
    /// A reply is streaming in; the call is refused, not queued.
    ConversationLocked,
    /// The connection for the request could not be set up.
    TransportUnavailable,
}

/// A request to stop the reply that is streaming in. It is taken back the
/// first time a turn looks at it.
#[derive(Debug)]
pub struct CancelState {
    requested: bool,
}

impl View for CancelState {
    type V = bool;

    closed spec fn view(&self) -> bool {
        self.requested
    }
}

impl CancelState {
    pub fn new() -> (r: CancelState)
        ensures
            !r@,
    {
        CancelState { requested: false }
    }

    /// Asks the turn in flight to stop.
    pub fn transmit_cancel(&mut self)
        ensures
            final(self)@,
    {
        self.requested = true;
    }

    /// Whether a stop was asked for; the request is taken back.
    pub fn receive_cancel(&mut self) -> (r: bool)
        ensures
            r == old(self)@,
            !final(self)@,
    {
        let r = self.requested;
        self.requested = false;
        r
    }
}

/// What a conversation holds.
pub struct ConversationView {
    pub messages: Seq<Message>,
    pub name: Option<Seq<char>>,
    pub id: u32,
    pub date_created: u64,
    /// The generation of the turn in flight, if one is.
    pub lock: Option<u64>,
    /// Counts the times the transcript was replaced wholesale; a turn that
    /// began under another generation no longer writes.
    pub generation: u64,
}

/// The live conversation: its transcript, its cached name, and whether a
/// reply is streaming in.
#[derive(Debug)]
pub struct Conversation {
    messages: Vec<Message>,
    name: Option<String>,
    id: u32,
    date_created: u64,
    lock: Option<u64>,
    generation: u64,
}

impl View for Conversation {
    type V = ConversationView;

    closed spec fn view(&self) -> ConversationView {
        ConversationView {
            messages: self.messages@,
            name: match self.name {
                Some(n) => Some(n@),
                None => None,
            },
            id: self.id,
            date_created: self.date_created,
            lock: self.lock,
            generation: self.generation,
        }
    }
}

/// The generation after `g`.
pub open spec fn next_generation(g: u64) -> u64 {
    if g == u64::MAX {
        0
    } else {
        (g + 1) as u64
    }
}

/// The word estimate of a transcript: the sum over its messages.
pub open spec fn transcript_words(ms: Seq<Message>) -> nat
    decreases ms.len(),
{
    if ms.len() == 0 {
        0
    } else {
        transcript_words(ms.drop_last()) + words(ms.last().content@)
    }
}

/// The texts of `fs` one after the other.
pub open spec fn concat(fs: Seq<Seq<char>>) -> Seq<char>
    decreases fs.len(),
{
    if fs.len() == 0 {
        Seq::empty()
    } else {
        concat(fs.drop_last()) + fs.last()
    }
}

/// What a turn holds.
pub struct TurnView {
    pub generation: u64,
    pub model: Model,
    pub input_tokens: u64,
    pub output: Seq<char>,
    pub fragments: Seq<Seq<char>>,
    pub stopped: bool,
}

/// One reply streaming into a conversation: the fragments taken so far and
/// the basis of its cost.
pub struct Turn {
    generation: u64,
    model: Model,
    input_tokens: u64,
    output: String,
    fragments: Ghost<Seq<Seq<char>>>,
    stopped: bool,
}

impl View for Turn {
    type V = TurnView;

    closed spec fn view(&self) -> TurnView {
        TurnView {
            generation: self.generation,
            model: self.model,
            input_tokens: self.input_tokens,
            output: self.output@,
            fragments: self.fragments@,
            stopped: self.stopped,
        }
    }
}

/// The placeholder of `c` is its last message: an assistant message that has
/// no cost yet.
pub open spec fn placeholder_open(c: ConversationView) -> bool {
    &&& c.messages.len() > 0
    &&& c.messages.last().role == Role::Assistant
    &&& c.messages.last().cost is None
}

impl Turn {
    /// The turn is well formed: its output is its fragments one after the
    /// other.
    pub open spec fn wf(&self) -> bool {
        self@.output == concat(self@.fragments)
    }

    /// The turn still writes into `c`: no reset or load came between.
    pub open spec fn is_current(&self, c: ConversationView) -> bool {
        self@.generation == c.generation
    }

    /// While the turn is current, `c` is locked by it and its
    /// placeholder holds exactly the turn's output.
    pub open spec fn tracks(&self, c: ConversationView) -> bool {
        &&& self.wf()
        &&& self.is_current(c) ==> {
            &&& c.lock == Some(self@.generation)
            &&& placeholder_open(c)
            &&& c.messages.last().content@ == self@.output
        }
    }

    pub fn is_stopped(&self) -> (r: bool)
        ensures
            r == self@.stopped,
    {
        self.stopped
    }
}

/// What the transport reported while a turn waited for its next step.
#[derive(Debug)]
pub enum TurnEvent {
    /// A decoded frame, or why it could not be decoded.
    Received(Result<MessageDelta, StreamError>),
    /// The stream ended without a `[DONE]` frame.
    Ended,
    /// Nothing came within the inactivity limit.
    TimedOut,
}

/// What to do after a step of a turn.
#[derive(Debug, PartialEq, Eq)]
pub enum TurnStep {
    /// Wait for the next frame.
    Continue,
    /// This fragment was appended; tell the presentation, then wait for the
    /// next frame.
    Appended(String),
    /// Stop reading and finish the turn.
    Stop,
}

/// How a turn ended.
#[derive(Debug, PartialEq, Eq, Structural)]
pub struct TurnOutcome {
    /// The estimated cost, in millionths of a dollar.
    pub cost: u128,
    /// Whether the turn still owned the transcript, so that its cost was
    /// recorded and the conversation may be saved.
    pub current: bool,
}

/// The step that a turn takes on `event`, with the cancel request `cancel`
/// standing: `Some(text)` where the fragment `text` is appended, `None`
/// where the turn goes on without writing, and the turn stops otherwise.
pub open spec fn event_action(event: TurnEvent, cancel: bool) -> Option<Option<String>> {
    match event {
        TurnEvent::Received(Ok(MessageDelta::Delta(t))) => if cancel {
            None
        } else {
            Some(Some(t))
        },
        TurnEvent::Received(Ok(MessageDelta::Role(_))) => Some(None),
        TurnEvent::Received(Ok(MessageDelta::NoData)) => Some(None),
        _ => None,
    }
}

/// Whether `event` brings a fragment, so that the turn looks at the cancel
/// request.
pub open spec fn brings_fragment(event: TurnEvent) -> bool {
    event matches TurnEvent::Received(Ok(MessageDelta::Delta(_)))
}

/// `after` is `before` with the user's `prompt` and an empty assistant
/// placeholder appended.
pub open spec fn opens_turn(before: Seq<Message>, after: Seq<Message>, prompt: Seq<char>) -> bool {
    &&& after.len() == before.len() + 2
    &&& after.take(before.len() as int) == before
    &&& after[before.len() as int].role == Role::User
    &&& after[before.len() as int].content@ == prompt
    &&& after[before.len() as int].cost is None
    &&& after.last().role == Role::Assistant
    &&& after.last().content@.len() == 0
    &&& after.last().cost is None
}

/// `after` is `before` with `text` appended to the content of its last
/// message.
pub open spec fn appends_to_last(before: Seq<Message>, after: Seq<Message>, text: Seq<char>) -> bool {
    &&& before.len() > 0
    &&& after.len() == before.len()
    &&& after.drop_last() == before.drop_last()
    &&& after.last().role == before.last().role
    &&& after.last().cost == before.last().cost
    &&& after.last().content@ == before.last().content@ + text
}

/// `after` is `before` with the cost of its last message set to `cost`.
pub open spec fn prices_last(before: Seq<Message>, after: Seq<Message>, cost: u128) -> bool {
    &&& before.len() > 0
    &&& after.len() == before.len()
    &&& after.drop_last() == before.drop_last()
    &&& after.last().role == before.last().role
    &&& after.last().content == before.last().content
    &&& after.last().cost == Some(cost)
}

/// The estimated cost of a turn, in millionths of a dollar: the prompt side
/// was fixed when the turn began, the completion side is the estimate of the
/// text taken.
pub open spec fn turn_cost(t: TurnView) -> int {
    cost_of(t.model, t.input_tokens as int, capped(tokens_of(capped(words(t.output) as int))))
}

/// `s` is a snapshot of `c`, taken when `c` had a name.
pub open spec fn snapshot_of(c: ConversationView, s: SerializedConversation) -> bool {
    &&& c.name == Some(s.name@)
    &&& s.id == c.id
    &&& s.date_created == c.date_created
    &&& s.messages@ == c.messages
}

/// `after` is `before` with the snapshot `s` loaded: its transcript, id and
/// name replace the current ones, and a turn in flight no longer writes. The
/// lock and the creation time stay.
pub open spec fn loads(before: ConversationView, s: SerializedConversation, after: ConversationView) -> bool {
    &&& after.messages == s.messages@
    &&& after.id == s.id
    &&& after.name == Some(s.name@)
    &&& after.date_created == before.date_created
    &&& after.lock == before.lock
    &&& after.generation == next_generation(before.generation)
}

/// Whether a name being generated reads on after `step`, and what it grows
/// by: the fragments of the reply, up to its end or the first failure.
pub open spec fn name_step(step: Result<MessageDelta, StreamError>) -> (bool, Seq<char>) {
    match step {
        Ok(MessageDelta::Delta(t)) => (true, t@),
        Ok(MessageDelta::Done) => (false, Seq::empty()),
        Ok(_) => (true, Seq::empty()),
        Err(_) => (false, Seq::empty()),
    }
}

/// Folds one decoded step of the naming reply into `name`; returns whether
/// to read on.
pub fn extend_name(name: &mut String, step: Result<MessageDelta, StreamError>) -> (r: bool)
    ensures
        r == name_step(step).0,
        final(name)@ == old(name)@ + name_step(step).1,
{
    match step {
        Ok(MessageDelta::Delta(t)) => {
            name.append(t.as_str());
            true
        },
        Ok(MessageDelta::Done) => {
            proof {
                assert(old(name)@ + Seq::<char>::empty() =~= old(name)@);
            }
            false
        },
        Ok(_) => {
            proof {
                assert(old(name)@ + Seq::<char>::empty() =~= old(name)@);
            }
            true
        },
        Err(_) => {
            proof {
                assert(old(name)@ + Seq::<char>::empty() =~= old(name)@);
            }
            false
        },
    }
}

/// Saving and then loading gives back the transcript, costs included, the id
/// and the name that the conversation had when it was saved, whatever the
/// conversation it is loaded into held before.
pub proof fn lemma_save_load_round_trip(
    saved: ConversationView,
    s: SerializedConversation,
    target: ConversationView,
    loaded: ConversationView,
)
    requires
        snapshot_of(saved, s),
        loads(target, s, loaded),
    ensures
        loaded.messages == saved.messages,
        loaded.id == saved.id,
        loaded.name == saved.name,
        loaded.lock == target.lock,
{
}

/// While a turn owns the transcript, its placeholder holds exactly the
/// fragments that the turn took, one after the other in the order they came.
pub proof fn lemma_placeholder_holds_fragments(turn: Turn, c: ConversationView)
    requires
        turn.tracks(c),
        turn.is_current(c),
    ensures
        c.messages.last().content@ == concat(turn@.fragments),
        c.messages.last().role == Role::Assistant,
{
}

/// A turn keeps its hold on the placeholder through whatever happens to the
/// conversation between two of its steps, so long as nothing touches the
/// lock or the transcript while the turn stays current. In particular a
/// conversation that is not locked has no current turn.
pub proof fn lemma_turn_survives(turn: Turn, before: ConversationView, after: ConversationView)
    requires
        turn.tracks(before),
        turn.is_current(after) ==> turn.is_current(before) && after.lock == before.lock
            && after.messages == before.messages,
    ensures
        turn.tracks(after),
        before.lock is None ==> !turn.is_current(before),
{
}

/// A standing cancel request lets no fragment in: the next fragment stops
/// the turn, and no step taken under the request appends anything.
pub proof fn lemma_cancel_stops_at_next_fragment(event: TurnEvent)
    ensures
        brings_fragment(event) ==> event_action(event, true) is None,
        event_action(event, true) matches Some(a) ==> a is None,
{
}

/// A conversation snapshot as it is stored: the lock is never part of it.
#[derive(Debug)]
pub struct SerializedConversation {
    pub name: String,
    pub id: u32,
    pub date_created: u64,
    pub messages: Vec<Message>,
}

/// The message that asks the model to name a conversation.
pub const NAMING_PROMPT: &'static str = "Write a name for this conversation, it should not be longer than a few words. Do not mention math if the user doesn't. Do not say anything except the name, do not put it in quotes and do not use a period.";

/// The model that names conversations.
pub const NAMING_MODEL: &'static str = "gpt-3.5-turbo";

/// Relies on rand::random (rand 0.8): a value drawn from the thread's
/// generator; nothing is known of it.
pub assume_specification<T>[ rand::random::<T> ]() -> (r: T)
    where
        rand::distributions::Standard: rand::distributions::Distribution<T>,
;

/// Relies on std::time::SystemTime::now and SystemTime::duration_since: the
/// whole seconds since the Unix epoch, or `None` where the clock stands before
/// it. Nothing else is known of the result.
#[verifier::external_body]
fn unix_now() -> (r: Option<u64>) {
    std::time::SystemTime::now().duration_since(std::time::UNIX_EPOCH).ok().map(|d| d.as_secs())
}

/// The current time in seconds since the Unix epoch; 0 where the clock stands
/// before the epoch.
fn now_or_epoch() -> u64 {
    match unix_now() {
        Some(t) => t,
        None => 0,
    }
}

/// A copy of `m`.
pub fn copy_message(m: &Message) -> (r: Message)
    ensures
        r == *m,
{
    Message { role: m.role, content: m.content.clone(), cost: m.cost }
}

/// A copy of `ms`.
pub fn copy_messages(ms: &Vec<Message>) -> (r: Vec<Message>)
    ensures
        r@ == ms@,
{
    let mut out: Vec<Message> = Vec::new();
    let mut i: usize = 0;
    while i < ms.len()
        invariant
            i <= ms@.len(),
            out@ == ms@.take(i as int),
        decreases ms@.len() - i,
    {
        out.push(copy_message(&ms[i]));
        proof {
            assert(ms@.take(i as int).push(ms@[i as int]) =~= ms@.take(i + 1));
        }
        i = i + 1;
    }
    proof {
        assert(ms@.take(ms@.len() as int) =~= ms@);
    }
    out
}

impl Conversation {
    /// A fresh conversation with a random id, created now.
    pub fn new() -> (r: Conversation)
        ensures
            r@.messages.len() == 0,
            r@.name is None,
            r@.lock is None,
    {
        let id: u32 = rand::random::<u32>();
        Conversation::with_identity(id, now_or_epoch())
    }

    /// A fresh conversation with the given id and creation time.
    pub fn with_identity(id: u32, date_created: u64) -> (r: Conversation)
        ensures
            r@.messages.len() == 0,
            r@.name is None,
            r@.id == id,
            r@.date_created == date_created,
            r@.lock is None,
            r@.generation == 0,
    {
        Conversation { messages: Vec::new(), name: None, id, date_created, lock: None, generation: 0 }
    }

    /// Starts over with a random id, created now: the transcript and name
    /// are dropped and the lock is forced open; a turn still running no
    /// longer writes.
    pub fn reset(&mut self)
        ensures
            final(self)@.messages.len() == 0,
            final(self)@.name is None,
            final(self)@.lock is None,
            final(self)@.generation == next_generation(old(self)@.generation),
    {
        let id: u32 = rand::random::<u32>();
        self.reset_to(id, now_or_epoch());
    }

    /// Starts over with the given id and creation time.
    pub fn reset_to(&mut self, id: u32, date_created: u64)
        ensures
            final(self)@.messages.len() == 0,
            final(self)@.name is None,
            final(self)@.id == id,
            final(self)@.date_created == date_created,
            final(self)@.lock is None,
            final(self)@.generation == next_generation(old(self)@.generation),
    {
        self.lock = None;
        self.messages = Vec::new();
        self.name = None;
        self.id = id;
        self.date_created = date_created;
        self.generation = if self.generation == u64::MAX {
            0
        } else {
            self.generation + 1
        };
    }

    pub fn get_messages(&self) -> (r: &Vec<Message>)
        ensures
            r@ == self@.messages,
    {
        &self.messages
    }

    pub fn get_id(&self) -> (r: u32)
        ensures
            r == self@.id,
    {
        self.id
    }

    pub fn get_date_created(&self) -> (r: u64)
        ensures
            r == self@.date_created,
    {
        self.date_created
    }

    /// Whether a reply is streaming in.
    pub fn is_locked(&self) -> (r: bool)
        ensures
            r == self@.lock is Some,
    {
        self.lock.is_some()
    }

    /// The word estimate of the transcript, capped at the largest `u64`.
    pub fn get_word_count(&self) -> (r: u64)
        ensures
            r == capped(transcript_words(self@.messages) as int),
    {
        let mut total: u64 = 0;
        let mut i: usize = 0;
        while i < self.messages.len()
            invariant
                i <= self@.messages.len(),
                total == capped(transcript_words(self@.messages.take(i as int)) as int),
            decreases self@.messages.len() - i,
        {
            let w = word_count(self.messages[i].content.as_str());
            proof {
                let ms = self@.messages;
                assert(ms.take(i + 1).drop_last() =~= ms.take(i as int));
            }
            total = total.saturating_add(w);
            i = i + 1;
        }
        proof {
            assert(self@.messages.take(self@.messages.len() as int) =~= self@.messages);
        }
        total
    }

    /// The token estimate of the transcript.
    pub fn get_token_count(&self) -> (r: u64)
        ensures
            r == capped(tokens_of(capped(transcript_words(self@.messages) as int))),
    {
        estimate_tokens(self.get_word_count())
    }

    /// Starts a turn: refused while a reply is streaming in, and then nothing
    /// changes. Otherwise the prompt and an empty assistant placeholder are
    /// appended, the conversation is locked by this turn, a stale cancel
    /// request is dropped, and the token estimate of the transcript so far is
    /// kept as the prompt side of the cost. Returns the turn and the request
    /// to send: the system instruction, then the whole transcript.
    pub fn prompt(&mut self, prompt: &str, model: Model, cancel: &mut CancelState) -> (r: Result<
        (Turn, Request),
        PromptError,
    >)
        ensures
            old(self)@.lock is Some ==> r == Err::<(Turn, Request), PromptError>(
                PromptError::ConversationLocked,
            ) && final(self)@ == old(self)@ && final(cancel)@ == old(cancel)@,
            old(self)@.lock is None ==> r is Ok,
            r matches Ok((turn, req)) ==> {
                &&& opens_turn(old(self)@.messages, final(self)@.messages, prompt@)
                &&& final(self)@.lock == Some(old(self)@.generation)
                &&& final(self)@.generation == old(self)@.generation
                &&& final(self)@.name == old(self)@.name
                &&& final(self)@.id == old(self)@.id
                &&& final(self)@.date_created == old(self)@.date_created
                &&& !final(cancel)@
                &&& turn@.generation == old(self)@.generation
                &&& turn@.model == model
                &&& turn@.input_tokens == capped(
                    tokens_of(capped(transcript_words(final(self)@.messages) as int)),
                )
                &&& turn@.output.len() == 0
                &&& turn@.fragments.len() == 0
                &&& !turn@.stopped
                &&& turn.tracks(final(self)@)
                &&& req.model@ == model_name(model)
                &&& req.stream
                &&& req.messages@.len() == final(self)@.messages.len() + 1
                &&& req.messages@[0].role == Role::System
                &&& req.messages@[0].content@ == SYSTEM_PROMPT@
                &&& forall|i: int|
                    0 <= i < final(self)@.messages.len() ==> #[trigger] req.messages@[i + 1]
                        == api_of(final(self)@.messages[i])
            },
    {
        if self.lock.is_some() {
            return Err(PromptError::ConversationLocked);
        }
        let ghost before = self@.messages;
        self.messages.push(Message::new(Role::User, String::from_str(prompt)));
        self.messages.push(Message::new(Role::Assistant, String::new()));
        assert(self@.messages.take(before.len() as int) =~= before);
        self.lock = Some(self.generation);
        let _ = cancel.receive_cancel();
        let input_tokens = self.get_token_count();
        let request = Request::new(copy_messages(&self.messages), model.to_string());
        let turn = Turn {
            generation: self.generation,
            model,
            input_tokens,
            output: String::new(),
            fragments: Ghost(Seq::empty()),
            stopped: false,
        };
        Ok((turn, request))
    }

    /// Takes one step of `turn` on what the transport reported. A turn that
    /// has stopped stays stopped; one that no longer owns the transcript
    /// stops without writing. A fragment first takes back a standing cancel
    /// request, and stops the turn if there was one; otherwise it is appended
    /// to the placeholder. A role or an empty frame changes nothing; the end
    /// of the reply, a decode failure, the end of the stream and a timeout
    /// each stop the turn.
    pub fn apply_event(
        &mut self,
        turn: &mut Turn,
        cancel: &mut CancelState,
        event: TurnEvent,
    ) -> (r: TurnStep)
        requires
            old(turn).tracks(old(self)@),
        ensures
            final(turn).tracks(final(self)@),
            final(turn)@.generation == old(turn)@.generation,
            final(turn)@.model == old(turn)@.model,
            final(turn)@.input_tokens == old(turn)@.input_tokens,
            final(self)@.lock == old(self)@.lock,
            final(self)@.generation == old(self)@.generation,
            final(self)@.name == old(self)@.name,
            final(self)@.id == old(self)@.id,
            final(self)@.date_created == old(self)@.date_created,
            old(turn)@.stopped || !old(turn).is_current(old(self)@) ==> {
                &&& r == TurnStep::Stop
                &&& final(turn)@.stopped
                &&& final(turn)@.fragments == old(turn)@.fragments
                &&& final(self)@ == old(self)@
                &&& final(cancel)@ == old(cancel)@
            },
            !old(turn)@.stopped && old(turn).is_current(old(self)@) ==> {
                &&& final(cancel)@ == (old(cancel)@ && !brings_fragment(event))
                &&& match event_action(event, old(cancel)@) {
                    Some(Some(t)) => {
                        &&& r == TurnStep::Appended(t)
                        &&& appends_to_last(old(self)@.messages, final(self)@.messages, t@)
                        &&& final(turn)@.fragments == old(turn)@.fragments.push(t@)
                        &&& !final(turn)@.stopped
                    },
                    Some(None) => {
                        &&& r == TurnStep::Continue
                        &&& final(self)@ == old(self)@
                        &&& final(turn)@ == old(turn)@
                    },
                    None => {
                        &&& r == TurnStep::Stop
                        &&& final(self)@ == old(self)@
                        &&& final(turn)@.fragments == old(turn)@.fragments
                        &&& final(turn)@.stopped
                    },
                }
            },
    {
        if turn.stopped {
            return TurnStep::Stop;
        }
        if turn.generation != self.generation {
            turn.stopped = true;
            return TurnStep::Stop;
        }
        match event {
            TurnEvent::Received(Ok(MessageDelta::Delta(t))) => {
                if cancel.receive_cancel() {
                    turn.stopped = true;
                    return TurnStep::Stop;
                }
                let ghost before = self@.messages;
                let ghost fs = turn.fragments@;
                let mut last = self.messages.pop().unwrap();
                last.add_content(t.as_str());
                self.messages.push(last);
                turn.output.append(t.as_str());
                proof {
                    turn.fragments = Ghost(fs.push(t@));
                    assert(fs.push(t@).drop_last() =~= fs);
                    assert(self@.messages.drop_last() =~= before.drop_last());
                }
                TurnStep::Appended(t)
            },
            TurnEvent::Received(Ok(MessageDelta::Role(_))) => TurnStep::Continue,
            TurnEvent::Received(Ok(MessageDelta::NoData)) => TurnStep::Continue,
            _ => {
                turn.stopped = true;
                TurnStep::Stop
            },
        }
    }

    /// Ends `turn`: its cost is estimated from the prompt side fixed at its
    /// start and the text it took. Where the turn still owns the transcript
    /// the cost is set on the placeholder, which had none; where the
    /// conversation is still locked by the turn, it is unlocked.
    pub fn finish(&mut self, turn: Turn) -> (r: TurnOutcome)
        requires
            turn.tracks(old(self)@),
        ensures
            r.cost == turn_cost(turn@),
            r.current == turn.is_current(old(self)@),
            r.current ==> old(self)@.messages.last().cost is None && prices_last(
                old(self)@.messages,
                final(self)@.messages,
                r.cost,
            ),
            !r.current ==> final(self)@.messages == old(self)@.messages,
            old(self)@.lock == Some(turn@.generation) ==> final(self)@.lock is None,
            old(self)@.lock != Some(turn@.generation) ==> final(self)@.lock == old(self)@.lock,
            final(self)@.generation == old(self)@.generation,
            final(self)@.name == old(self)@.name,
            final(self)@.id == old(self)@.id,
            final(self)@.date_created == old(self)@.date_created,
    {
        let output_tokens = count_tokens(turn.output.as_str());
        let cost = turn.model.calculate_cost(turn.input_tokens, output_tokens);
        let current = turn.generation == self.generation;
        if current {
            let ghost before = self@.messages;
            let mut last = self.messages.pop().unwrap();
            last.set_cost(cost);
            self.messages.push(last);
            proof {
                assert(self@.messages.drop_last() =~= before.drop_last());
            }
        }
        if self.lock == Some(turn.generation) {
            self.lock = None;
        }
        TurnOutcome { cost, current }
    }

    /// Gives up `turn` before any frame was read, because its connection
    /// could not be set up: the lock that it took is released, the messages
    /// stay.
    pub fn release(&mut self, turn: Turn)
        ensures
            old(self)@.lock == Some(turn@.generation) ==> final(self)@.lock is None,
            old(self)@.lock != Some(turn@.generation) ==> final(self)@.lock == old(self)@.lock,
            final(self)@.messages == old(self)@.messages,
            final(self)@.generation == old(self)@.generation,
            final(self)@.name == old(self)@.name,
            final(self)@.id == old(self)@.id,
            final(self)@.date_created == old(self)@.date_created,
    {
        if self.lock == Some(turn.generation) {
            self.lock = None;
        }
    }

    /// Whether the conversation has no name yet, so that one is generated
    /// before it is saved.
    pub fn needs_name(&self) -> (r: bool)
        ensures
            r == self@.name is None,
    {
        self.name.is_none()
    }

    /// The cached name, if there is one.
    pub fn get_name(&self) -> (r: Option<String>)
        ensures
            r is Some <==> self@.name is Some,
            r matches Some(n) ==> self@.name == Some(n@),
    {
        match &self.name {
            Some(n) => Some(n.clone()),
            None => None,
        }
    }

    /// Caches `name` as the conversation's name.
    pub fn set_name(&mut self, name: String)
        ensures
            final(self)@ == (ConversationView { name: Some(name@), ..old(self)@ }),
    {
        self.name = Some(name);
    }

    /// The one-shot request that asks the model for a short name: the system
    /// instruction, the transcript, then the naming prompt.
    pub fn naming_request(&self) -> (r: Request)
        ensures
            r.model@ == NAMING_MODEL@,
            r.stream,
            r.messages@.len() == self@.messages.len() + 2,
            r.messages@[0].role == Role::System,
            forall|i: int|
                0 <= i < self@.messages.len() ==> #[trigger] r.messages@[i + 1] == api_of(
                    self@.messages[i],
                ),
            r.messages@.last().role == Role::User,
            r.messages@.last().content@ == NAMING_PROMPT@,
    {
        let mut ms = copy_messages(&self.messages);
        ms.push(Message::new(Role::User, String::from_str(NAMING_PROMPT)));
        let r = Request::new(ms, NAMING_MODEL);
        proof {
            let k = self@.messages.len() as int;
            assert(r.messages@[k + 1] == api_of(ms@[k]));
        }
        r
    }

    /// A snapshot for storage; `None` while the conversation has no name.
    pub fn serialize(&self) -> (r: Option<SerializedConversation>)
        ensures
            r is Some <==> self@.name is Some,
            r matches Some(s) ==> snapshot_of(self@, s),
    {
        match &self.name {
            Some(n) => Some(
                SerializedConversation {
                    name: n.clone(),
                    id: self.id,
                    date_created: self.date_created,
                    messages: copy_messages(&self.messages),
                },
            ),
            None => None,
        }
    }

    /// Replaces the transcript, id and name with those of a stored snapshot.
    pub fn load(&mut self, snapshot: SerializedConversation)
        ensures
            loads(old(self)@, snapshot, final(self)@),
    {
        self.id = snapshot.id;
        self.name = Some(snapshot.name);
        self.messages = snapshot.messages;
        self.generation = if self.generation == u64::MAX {
            0
        } else {
            self.generation + 1
        };
    }

    /// Drops every message; refused while a reply is streaming in.
    pub fn clear(&mut self) -> (r: Result<(), PromptError>)
        ensures
            old(self)@.lock is Some ==> r == Err::<(), PromptError>(PromptError::ConversationLocked)
                && final(self)@ == old(self)@,
            old(self)@.lock is None ==> r is Ok && final(self)@ == (ConversationView {
                messages: Seq::empty(),
                ..old(self)@
            }),
    {
        if self.lock.is_some() {
            return Err(PromptError::ConversationLocked);
        }
        self.messages = Vec::new();
        Ok(())
    }
}

} // verus!
