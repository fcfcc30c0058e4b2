use vstd::prelude::*;
use vstd::string::StringExecFns;

verus! {

/// Sampling temperature of a default request, in thousandths (0.7).
pub const DEFAULT_TEMPERATURE: u32 = 700;

/// Nucleus sampling mass of a default request, in thousandths (1.0).
pub const DEFAULT_TOP_P: u32 = 1000;

/// Who wrote a message of a conversation.
#[derive(Debug, Clone, Copy, PartialEq, Eq, Structural)]
pub enum MessageRole {
    System,
    User,
    Assistant,
}

/// One message of a conversation.
#[derive(Debug, Clone)]
pub struct Message {
    pub role: MessageRole,
    pub content: String,
}

/// Why the model stopped generating a choice.
#[derive(Debug, Clone, Copy, PartialEq, Eq, Structural)]
pub enum FinishReason {
    Stop,
    Length,
    ModelLength,
}

/// One generated answer of a completion.
#[derive(Debug, Clone)]
pub struct Choice {
    pub index: i32,
    pub message: Message,
    pub finish_reason: FinishReason,
}

/// Token accounting of a completion, as reported by the service.
#[derive(Debug, Clone, Copy, PartialEq, Eq, Structural)]
pub struct Usage {
    pub prompt_tokens: i32,
    pub completion_tokens: i32,
    pub total_tokens: i32,
}

/// A successful chat completion.
#[derive(Debug, Clone)]
pub struct ChatCompletionResponse {
    pub id: String,
    pub object: String,
    pub created: i64,
    pub model: String,
    pub choices: Vec<Choice>,
    pub usage: Usage,
}

/// The abstract content of a chat completion request.
pub struct ChatCompletionView {
    pub model: Seq<char>,
    pub messages: Seq<Message>,
    /// In thousandths.
    pub temperature: u32,
    /// In thousandths.
    pub top_p: u32,
    pub max_tokens: Option<i32>,
    pub stream: bool,
    pub safe_prompt: bool,
    pub random_seed: Option<i32>,
}

/// A chat completion request: the model to use, the conversation so far and
/// the sampling parameters. Temperature and top_p are held in thousandths.
#[derive(Debug)]
pub struct ChatCompletion {
    model: String,
    messages: Vec<Message>,
    temperature: u32,
    top_p: u32,
    max_tokens: Option<i32>,
    stream: bool,
    safe_prompt: bool,
    random_seed: Option<i32>,
}

impl View for ChatCompletion {
    type V = ChatCompletionView;

    closed spec fn view(&self) -> ChatCompletionView {
        ChatCompletionView {
            model: self.model@,
            messages: self.messages@,
            temperature: self.temperature,
            top_p: self.top_p,
            max_tokens: self.max_tokens,
            stream: self.stream,
            safe_prompt: self.safe_prompt,
            random_seed: self.random_seed,
        }
    }
}

impl ChatCompletion {
    /// A builder holding the default sampling parameters.
    pub fn builder() -> (r: ChatCompletionBuilder)
        ensures
            r@ == ChatCompletionBuilder::default_view(),
    {
        ChatCompletionBuilder::default()
    }

    /// A request for `model` with the default sampling parameters and no
    /// messages.
    pub fn new(model: &str) -> (r: ChatCompletion)
        ensures
            r@ == ChatCompletionBuilder::default_view().request_for(model@),
    {
        ChatCompletionBuilder::default().build(model)
    }

    /// The conversation, to be changed in place.
    pub fn messages_mut(&mut self) -> (r: &mut Vec<Message>)
        ensures
            r@ == old(self)@.messages,
            final(self)@ == (ChatCompletionView { messages: final(r)@, ..old(self)@ }),
    {
        &mut self.messages
    }

    /// Adds `message` at the end of the conversation.
    pub fn append_message(&mut self, message: Message)
        ensures
            final(self)@ == (ChatCompletionView { messages: old(self)@.messages.push(message), ..old(self)@ }),
            final(self)@.messages.len() == old(self)@.messages.len() + 1,
            forall|i: int|
                0 <= i < old(self)@.messages.len() ==> #[trigger] final(self)@.messages[i]
                    == old(self)@.messages[i],
            final(self)@.messages.last() == message,
    {
        self.messages.push(message);
    }

    pub fn model(&self) -> (r: &str)
        ensures
            r@ == self@.model,
    {
        self.model.as_str()
    }

    pub fn messages(&self) -> (r: &[Message])
        ensures
            r@ == self@.messages,
    {
        self.messages.as_slice()
    }

    /// The sampling temperature, in thousandths.
    pub fn temperature_value(&self) -> (r: u32)
        ensures
            r == self@.temperature,
    {
        self.temperature
    }

    /// The nucleus sampling mass, in thousandths.
    pub fn top_p_value(&self) -> (r: u32)
        ensures
            r == self@.top_p,
    {
        self.top_p
    }

    pub fn max_tokens_value(&self) -> (r: Option<i32>)
        ensures
            r == self@.max_tokens,
    {
        self.max_tokens
    }

    pub fn stream_value(&self) -> (r: bool)
        ensures
            r == self@.stream,
    {
        self.stream
    }

    pub fn safe_prompt_value(&self) -> (r: bool)
        ensures
            r == self@.safe_prompt,
    {
        self.safe_prompt
    }

    pub fn random_seed_value(&self) -> (r: Option<i32>)
        ensures
            r == self@.random_seed,
    {
        self.random_seed
    }

    /// A request with every part given; temperature and top_p in thousandths.
    pub fn from_parts(
        model: String,
        messages: Vec<Message>,
        temperature: u32,
        top_p: u32,
        max_tokens: Option<i32>,
        stream: bool,
        safe_prompt: bool,
        random_seed: Option<i32>,
    ) -> (r: ChatCompletion)
        ensures
            r@ == (ChatCompletionView {
                model: model@,
                messages: messages@,
                temperature,
                top_p,
                max_tokens,
                stream,
                safe_prompt,
                random_seed,
            }),
    {
        ChatCompletion {
            model,
            messages,
            temperature,
            top_p,
            max_tokens,
            stream,
            safe_prompt,
            random_seed,
        }
    }
}

/// The sampling parameters that a builder holds.
pub struct ChatCompletionBuilderView {
    /// In thousandths.
    pub temperature: u32,
    /// In thousandths.
    pub top_p: u32,
    pub max_tokens: Option<i32>,
    pub stream: bool,
    pub safe_prompt: bool,
    pub random_seed: Option<i32>,
}

impl ChatCompletionBuilderView {
    /// The request that these parameters give for `model`: no messages yet.
    pub open spec fn request_for(self, model: Seq<char>) -> ChatCompletionView {
        ChatCompletionView {
            model,
            messages: Seq::empty(),
            temperature: self.temperature,
            top_p: self.top_p,
            max_tokens: self.max_tokens,
            stream: self.stream,
            safe_prompt: self.safe_prompt,
            random_seed: self.random_seed,
        }
    }
}

/// Collects sampling parameters, then builds requests for a model.
/// Temperature and top_p are held in thousandths.
#[derive(Debug, Clone, Copy)]
pub struct ChatCompletionBuilder {
    temperature: u32,
    top_p: u32,
    max_tokens: Option<i32>,
    stream: bool,
    safe_prompt: bool,
    random_seed: Option<i32>,
}

impl View for ChatCompletionBuilder {
    type V = ChatCompletionBuilderView;

    closed spec fn view(&self) -> ChatCompletionBuilderView {
        ChatCompletionBuilderView {
            temperature: self.temperature,
            top_p: self.top_p,
            max_tokens: self.max_tokens,
            stream: self.stream,
            safe_prompt: self.safe_prompt,
            random_seed: self.random_seed,
        }
    }
}

impl ChatCompletionBuilder {
    /// Temperature 0.7, top_p 1.0, no token limit, no streaming, no safety
    /// prompt, no seed.
    pub open spec fn default_view() -> ChatCompletionBuilderView {
        ChatCompletionBuilderView {
            temperature: DEFAULT_TEMPERATURE,
            top_p: DEFAULT_TOP_P,
            max_tokens: None,
            stream: false,
            safe_prompt: false,
            random_seed: None,
        }
    }

    /// Sets the sampling temperature, in thousandths.
    pub fn temperature(self, temperature: u32) -> (r: Self)
        ensures
            r@ == (ChatCompletionBuilderView { temperature, ..self@ }),
    {
        let mut b = self;
        b.temperature = temperature;
        b
    }

    /// Sets the nucleus sampling mass, in thousandths.
    pub fn top_p(self, top_p: u32) -> (r: Self)
        ensures
            r@ == (ChatCompletionBuilderView { top_p, ..self@ }),
    {
        let mut b = self;
        b.top_p = top_p;
        b
    }

    pub fn max_tokens(self, max_tokens: i32) -> (r: Self)
        ensures
            r@ == (ChatCompletionBuilderView { max_tokens: Some(max_tokens), ..self@ }),
    {
        let mut b = self;
        b.max_tokens = Some(max_tokens);
        b
    }

    pub fn stream(self, stream: bool) -> (r: Self)
        ensures
            r@ == (ChatCompletionBuilderView { stream, ..self@ }),
    {
        let mut b = self;
        b.stream = stream;
        b
    }

    pub fn safe_prompt(self, safe_prompt: bool) -> (r: Self)
        ensures
            r@ == (ChatCompletionBuilderView { safe_prompt, ..self@ }),
    {
        let mut b = self;
        b.safe_prompt = safe_prompt;
        b
    }

    pub fn random_seed(self, random_seed: i32) -> (r: Self)
        ensures
            r@ == (ChatCompletionBuilderView { random_seed: Some(random_seed), ..self@ }),
    {
        let mut b = self;
        b.random_seed = Some(random_seed);
        b
    }

    /// A request for `model` with these parameters and no messages.
    pub fn build(&self, model: &str) -> (r: ChatCompletion)
        ensures
            r@ == self@.request_for(model@),
    {
        let r = ChatCompletion {
            model: String::from_str(model),
            messages: Vec::new(),
            temperature: self.temperature,
            top_p: self.top_p,
            max_tokens: self.max_tokens,
            stream: self.stream,
            safe_prompt: self.safe_prompt,
            random_seed: self.random_seed,
        };
        assert(r@.messages =~= Seq::<Message>::empty());
        r
    }
}

impl Default for ChatCompletionBuilder {
    fn default() -> (r: Self)
        ensures
            r@ == ChatCompletionBuilder::default_view(),
    {
        ChatCompletionBuilder {
            temperature: DEFAULT_TEMPERATURE,
            top_p: DEFAULT_TOP_P,
            max_tokens: None,
            stream: false,
            safe_prompt: false,
            random_seed: None,
        }
    }
}

} // verus!
