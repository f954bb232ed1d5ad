use vstd::prelude::*;
use vstd::std_specs::iter::IteratorSpec;
use vstd::string::StringExecFns;

verus! {

/// Who wrote a message.
#[derive(Clone, Copy, Debug, PartialEq, Eq, Structural)]
pub enum Role {
    User,
    System,
    Assistant,
}

/// One message of a transcript. The content grows while a reply streams in;
/// the cost, in millionths of a dollar, is set once the reply has ended.
#[derive(Clone, Debug)]
pub struct Message {
    pub role: Role,
    pub content: String,
    pub cost: Option<u128>,
}

/// A message as it is sent to the service: role and content only.
#[derive(Clone, Debug)]
pub struct ApiMessage {
    pub role: Role,
    pub content: String,
}

/// The instruction that opens every request; it is never kept in a transcript.
pub const SYSTEM_PROMPT: &'static str = "You are about to enter a conversation with a user, they may or may not ask you questions about math. If you are trying to express a formula or variable or any other math concept that can be expressed in LaTeX, please do so. You can create an inline LaTeX block with a single dollar sign, for example: $a$. If you want to create a block that is centered, please use double dollar signs: $$a$$. If your output happens to contain a dollar sign, but you do not want the dollar sign to be interpreted as the start of a LaTeX block, please escape it using a backslash like this: \\$";

impl Message {
    pub fn new(role: Role, content: String) -> (r: Message)
        ensures
            r.role == role,
            r.content == content,
            r.cost is None,
    {
        Message { role, content, cost: None }
    }

    pub fn add_content(&mut self, content: &str)
        ensures
            final(self).content@ == old(self).content@ + content@,
            final(self).role == old(self).role,
            final(self).cost == old(self).cost,
    {
        self.content.append(content);
    }

    pub fn set_cost(&mut self, cost: u128)
        ensures
            final(self).cost == Some(cost),
            final(self).role == old(self).role,
            final(self).content == old(self).content,
    {
        self.cost = Some(cost);
    }

    pub fn get_content(&self) -> (r: &str)
        ensures
            r@ == self.content@,
    {
        self.content.as_str()
    }

    /// The message as it is sent to the service.
    pub fn into_api(self) -> (r: ApiMessage)
        ensures
            r == api_of(self),
    {
        ApiMessage { role: self.role, content: self.content }
    }
}

pub open spec fn api_of(m: Message) -> ApiMessage {
    ApiMessage { role: m.role, content: m.content }
}

/// The body of a streamed completion request.
#[derive(Clone, Debug)]
pub struct Request {
    pub model: String,
    pub messages: Vec<ApiMessage>,
    pub stream: bool,
}

impl Request {
    /// A streamed request for `model` whose first message is the system
    /// instruction, followed by `messages` in order.
    pub fn new(messages: Vec<Message>, model: &str) -> (r: Request)
        ensures
            r.model@ == model@,
            r.stream,
            r.messages@.len() == messages@.len() + 1,
            r.messages@[0].role == Role::System,
            r.messages@[0].content@ == SYSTEM_PROMPT@,
            forall|i: int|
                0 <= i < messages@.len() ==> #[trigger] r.messages@[i + 1] == api_of(
                    messages@[i],
                ),
    {
        let mut out: Vec<ApiMessage> = Vec::new();
        out.push(ApiMessage { role: Role::System, content: String::from_str(SYSTEM_PROMPT) });
        let mut i: usize = 0;
        while i < messages.len()
            invariant
                i <= messages@.len(),
                out@.len() == i + 1,
                out@[0].role == Role::System,
                out@[0].content@ == SYSTEM_PROMPT@,
                forall|k: int| 0 <= k < i ==> #[trigger] out@[k + 1] == api_of(messages@[k]),
            decreases messages@.len() - i,
        {
            let m = &messages[i];
            out.push(ApiMessage { role: m.role, content: m.content.clone() });
            i = i + 1;
        }
        Request { model: String::from_str(model), messages: out, stream: true }
    }
}

/// The number of spaces in `s`.
pub open spec fn spaces(s: Seq<char>) -> nat
    decreases s.len(),
{
    if s.len() == 0 {
        0
    } else {
        spaces(s.drop_last()) + if s.last() == ' ' {
            1nat
        } else {
            0nat
        }
    }
}

/// The word estimate of a text: the pieces it falls into when split at each
/// space, so one more than its number of spaces.
pub open spec fn words(s: Seq<char>) -> nat {
    spaces(s) + 1
}

/// The token estimate for a number of words: 1000 tokens for 750 words,
/// rounded down.
pub open spec fn tokens_of(words: int) -> int {
    words * 1000 / 750
}

/// `n`, or the largest `u64` where `n` is larger.
pub open spec fn capped(n: int) -> int {
    if n > u64::MAX {
        u64::MAX as int
    } else {
        n
    }
}

/// The word estimate of `s` (one more than its number of spaces).
pub fn word_count(s: &str) -> (r: u64)
    ensures
        r == capped(words(s@) as int),
{
    broadcast use vstd::string::group_string_axioms;

    let mut n: u64 = 0;
    for c in it: s.chars()
        invariant
            it.seq() == s@,
            n == capped(spaces(it.seq().take(it.index())) as int),
    {
        proof {
            let k = it.index();
            assert(it.seq().take(k + 1).drop_last() =~= it.seq().take(k));
        }
        if c == ' ' {
            n = n.saturating_add(1);
        }
    }
    proof {
        assert(s@.take(s@.len() as int) =~= s@);
    }
    n.saturating_add(1)
}

/// The token estimate for `words` words, capped at the largest `u64`.
pub fn estimate_tokens(words: u64) -> (r: u64)
    ensures
        r == capped(tokens_of(words as int)),
{
    let t = (words as u128) * 1000 / 750;
    if t > u64::MAX as u128 {
        u64::MAX
    } else {
        t as u64
    }
}

/// The token estimate of a text.
pub fn count_tokens(s: &str) -> (r: u64)
    ensures
        r == capped(tokens_of(capped(words(s@) as int))),
{
    estimate_tokens(word_count(s))
}

} // verus!
