//! Side questions: asked of what the model has seen so far, and kept out of the
//! conversation.

use crate::text::texts;
use vstd::prelude::*;
use vstd::string::*;

verus! {

/// How many earlier exchanges a question takes along.
pub const REPLAY_EXCHANGES: usize = 20;

/// A question with its whole answer.
#[derive(Debug)]
pub struct Exchange {
    pub question: String,
    pub answer: String,
}

/// What an [`Exchange`] holds.
pub struct ExchangeView {
    pub question: Seq<char>,
    pub answer: Seq<char>,
}

impl View for Exchange {
    type V = ExchangeView;

    open spec fn view(&self) -> ExchangeView {
        ExchangeView { question: self.question@, answer: self.answer@ }
    }
}

impl Clone for Exchange {
    fn clone(&self) -> (r: Self)
        ensures
            r == *self,
    {
        Exchange { question: self.question.clone(), answer: self.answer.clone() }
    }
}

/// What the exchanges of a list hold.
pub open spec fn exchanges_view(s: Seq<Exchange>) -> Seq<ExchangeView> {
    s.map_values(|e: Exchange| e@)
}

#[derive(Debug, Clone, Copy, PartialEq, Eq, Structural)]
pub enum MessageRole {
    User,
    Assistant,
}

/// A message to the model. What is not text travels as it came, encoded.
#[derive(Debug)]
pub struct ModelMessage {
    pub role: MessageRole,
    pub content: Vec<ModelContent>,
}

#[derive(Debug)]
pub enum ModelContent {
    Text { text: String },
    Encoded(String),
}

pub enum ContentView {
    Text { text: Seq<char> },
    Encoded(Seq<char>),
}

/// What a [`ModelMessage`] holds.
pub struct ModelMessageView {
    pub role: MessageRole,
    pub content: Seq<ContentView>,
}

impl View for ModelContent {
    type V = ContentView;

    open spec fn view(&self) -> ContentView {
        match *self {
            ModelContent::Text { text } => ContentView::Text { text: text@ },
            ModelContent::Encoded(s) => ContentView::Encoded(s@),
        }
    }
}

pub open spec fn content_view(s: Seq<ModelContent>) -> Seq<ContentView> {
    s.map_values(|c: ModelContent| c@)
}

impl View for ModelMessage {
    type V = ModelMessageView;

    open spec fn view(&self) -> ModelMessageView {
        ModelMessageView { role: self.role, content: content_view(self.content@) }
    }
}

pub open spec fn messages_view(s: Seq<ModelMessage>) -> Seq<ModelMessageView> {
    s.map_values(|m: ModelMessage| m@)
}

impl Clone for ModelContent {
    fn clone(&self) -> (r: Self)
        ensures
            r == *self,
    {
        match self {
            ModelContent::Text { text } => ModelContent::Text { text: text.clone() },
            ModelContent::Encoded(s) => ModelContent::Encoded(s.clone()),
        }
    }
}

impl Clone for ModelMessage {
    fn clone(&self) -> (r: Self)
        ensures
            r@ == self@,
    {
        let mut content: Vec<ModelContent> = Vec::new();
        let mut i: usize = 0;
        while i < self.content.len()
            invariant
                i <= self.content@.len(),
                content@ == self.content@.take(i as int),
            decreases self.content@.len() - i,
        {
            content.push(self.content[i].clone());
            i += 1;
        }
        assert(self.content@.take(i as int) =~= self.content@);
        ModelMessage { role: self.role, content }
    }
}

/// A message of one text.
pub open spec fn say_spec(role: MessageRole, text: Seq<char>) -> ModelMessageView {
    ModelMessageView { role, content: seq![ContentView::Text { text }] }
}

pub fn say(role: MessageRole, text: &str) -> (r: ModelMessage)
    ensures
        r@ == say_spec(role, text@),
{
    let mut content: Vec<ModelContent> = Vec::new();
    content.push(ModelContent::Text { text: text.to_owned() });
    assert(content_view(content@) =~= seq![ContentView::Text { text: text@ }]);
    ModelMessage { role, content }
}

/// What stands in front of a side question.
pub const PREAMBLE: &'static str =
    "[侧问] 下面这个问题是题外话，只用上面已有的信息回答，简短一点。你现在**没有任何工具**——读不了文件、跑不了命令、搜不了东西。要是答案不在上面的上下文里，直接说你够不着，别猜。\n\n";

/// Why a question cannot be asked before anything was said.
pub const NO_CONTEXT: &'static str =
    "这次会话还没有可问的上下文——先说一句话，再用 /btw 问关于它的事。";

/// What a question that was cut short comes to.
pub const INTERRUPTED: &'static str = "侧问中断了。";

/// What a question comes to that the model did not take.
pub const NOT_ASKED: &'static str = "侧问没能问出去：";

/// Exchanges as messages, question and answer in turn.
pub open spec fn replay(exchanges: Seq<ExchangeView>) -> Seq<ModelMessageView>
    decreases exchanges.len(),
{
    if exchanges.len() == 0 {
        seq![]
    } else {
        let e = exchanges.last();
        replay(exchanges.drop_last()).push(say_spec(MessageRole::User, e.question)).push(
            say_spec(MessageRole::Assistant, e.answer),
        )
    }
}

/// The latest exchanges, as many as a question takes along.
pub open spec fn latest(exchanges: Seq<ExchangeView>) -> Seq<ExchangeView> {
    if exchanges.len() <= REPLAY_EXCHANGES {
        exchanges
    } else {
        exchanges.skip(exchanges.len() - REPLAY_EXCHANGES)
    }
}

/// What is sent to the model: the conversation as it stands, the latest exchanges, and the
/// question.
pub open spec fn composed(
    conversation: Seq<ModelMessageView>,
    exchanges: Seq<ExchangeView>,
    question: Seq<char>,
) -> Seq<ModelMessageView> {
    (conversation + replay(latest(exchanges))).push(
        say_spec(MessageRole::User, PREAMBLE@ + question),
    )
}

/// The conversation as the model last saw it, and the exchanges of this run.
#[derive(Debug)]
pub struct SideQuestions {
    snapshot: Option<Vec<ModelMessage>>,
    exchanges: Vec<Exchange>,
    /// The number of the question that is being answered.
    in_flight: Option<u64>,
}

/// The state of [`SideQuestions`] over mathematical types.
#[verifier::ext_equal]
pub struct SideModel {
    pub snapshot: Option<Seq<ModelMessageView>>,
    pub exchanges: Seq<ExchangeView>,
    pub in_flight: Option<u64>,
}

impl View for SideQuestions {
    type V = SideModel;

    closed spec fn view(&self) -> SideModel {
        SideModel {
            snapshot: match self.snapshot {
                Some(v) => Some(messages_view(v@)),
                None => None,
            },
            exchanges: exchanges_view(self.exchanges@),
            in_flight: self.in_flight,
        }
    }
}

/// What comes of a question, and what is kept then: the messages that it sends and the number
/// that it takes the place of, or why it cannot be asked.
pub open spec fn asked(side: SideModel, question: Seq<char>, number: u64) -> (
    Result<(Option<u64>, Seq<ModelMessageView>), Seq<char>>,
    SideModel,
) {
    match side.snapshot {
        Some(conversation) => (
            Ok((side.in_flight, composed(conversation, side.exchanges, question))),
            SideModel { in_flight: Some(number), ..side },
        ),
        None => (Err(NO_CONTEXT@), side),
    }
}

pub open spec fn asked_view(r: Result<(Option<u64>, Vec<ModelMessage>), String>) -> Result<
    (Option<u64>, Seq<ModelMessageView>),
    Seq<char>,
> {
    match r {
        Ok((superseded, messages)) => Ok((superseded, messages_view(messages@))),
        Err(e) => Err(e@),
    }
}

impl SideQuestions {
    pub fn new() -> (r: Self)
        ensures
            r@ == (SideModel { snapshot: None, exchanges: seq![], in_flight: None }),
    {
        let r = SideQuestions { snapshot: None, exchanges: Vec::new(), in_flight: None };
        r
    }

    /// Takes down what the model was just sent. It always replaces what was there.
    pub fn mirror(&mut self, messages: Vec<ModelMessage>)
        ensures
            final(self)@ == (SideModel {
                snapshot: Some(messages_view(messages@)),
                ..old(self)@
            }),
    {
        self.snapshot = Some(messages);
    }

    /// Whether there is a conversation to ask about.
    pub fn is_ready(&self) -> (r: bool)
        ensures
            r == self@.snapshot is Some,
    {
        self.snapshot.is_some()
    }

    /// The exchanges so far, oldest first.
    pub fn exchanges(&self) -> (r: Vec<Exchange>)
        ensures
            exchanges_view(r@) == self@.exchanges,
    {
        let mut r: Vec<Exchange> = Vec::new();
        let mut i: usize = 0;
        while i < self.exchanges.len()
            invariant
                i <= self.exchanges@.len(),
                r@ == self.exchanges@.take(i as int),
            decreases self.exchanges@.len() - i,
        {
            r.push(self.exchanges[i].clone());
            i += 1;
        }
        r
    }

    /// Forgets the exchanges.
    pub fn clear(&mut self)
        ensures
            final(self)@ == (SideModel { exchanges: seq![], ..old(self)@ }),
    {
        self.exchanges = Vec::new();
    }

    /// Gives up the question that is being answered; its number says which call to end.
    pub fn abandon(&mut self) -> (r: Option<u64>)
        ensures
            r == old(self)@.in_flight,
            final(self)@ == (SideModel { in_flight: None, ..old(self)@ }),
    {
        let r: Option<u64> = self.in_flight;
        self.in_flight = None;
        r
    }

    /// The messages of a question.
    fn compose(&self, conversation: &Vec<ModelMessage>, question: &str) -> (r: Vec<ModelMessage>)
        ensures
            messages_view(r@) == composed(
                messages_view(conversation@),
                self@.exchanges,
                question@,
            ),
    {
        let ghost conv = messages_view(conversation@);
        let mut r: Vec<ModelMessage> = Vec::new();
        let mut i: usize = 0;
        while i < conversation.len()
            invariant
                i <= conversation@.len(),
                conv == messages_view(conversation@),
                messages_view(r@) == conv.take(i as int),
            decreases conversation@.len() - i,
        {
            let ghost before = r@;
            let m: ModelMessage = conversation[i].clone();
            r.push(m);
            assert(messages_view(r@) =~= messages_view(before).push(m@));
            i += 1;
        }
        let n: usize = self.exchanges.len();
        let from: usize = if n <= REPLAY_EXCHANGES {
            0
        } else {
            n - REPLAY_EXCHANGES
        };
        let ghost all = self@.exchanges;
        let ghost kept = latest(all);
        let mut k: usize = from;
        while k < n
            invariant
                from <= k <= n == self.exchanges@.len(),
                all == exchanges_view(self.exchanges@),
                kept == all.skip(from as int),
                messages_view(r@) == conv + replay(kept.take(k - from)),
            decreases n - k,
        {
            let e: &Exchange = &self.exchanges[k];
            let ghost before = r@;
            let asked: ModelMessage = say(MessageRole::User, e.question.as_str());
            let answered: ModelMessage = say(MessageRole::Assistant, e.answer.as_str());
            r.push(asked);
            r.push(answered);
            proof {
                let t = kept.take(k - from + 1);
                assert(t.drop_last() =~= kept.take(k - from));
                assert(messages_view(r@) =~= messages_view(before).push(asked@).push(answered@));
            }
            k += 1;
        }
        proof {
            assert(kept.take(k - from) =~= kept);
        }
        let text: String = PREAMBLE.to_owned().concat(question);
        let last: ModelMessage = say(MessageRole::User, text.as_str());
        r.push(last);
        r
    }

    /// Begins a question under a number of its own, in place of the one that is being
    /// answered, whose number comes back with the messages. There must be a conversation to
    /// ask about.
    pub fn begin(&mut self, question: &str, number: u64) -> (r: Result<
        (Option<u64>, Vec<ModelMessage>),
        String,
    >)
        ensures
            (asked_view(r), final(self)@) == asked(old(self)@, question@, number),
            r is Ok == old(self)@.snapshot is Some,
            match r {
                Ok((superseded, messages)) => {
                    &&& superseded == old(self)@.in_flight
                    &&& messages_view(messages@) == composed(
                        old(self)@.snapshot->0,
                        old(self)@.exchanges,
                        question@,
                    )
                    &&& final(self)@ == (SideModel { in_flight: Some(number), ..old(self)@ })
                },
                Err(e) => e@ == NO_CONTEXT@ && final(self)@ == old(self)@,
            },
    {
        let messages: Vec<ModelMessage> = match &self.snapshot {
            Some(conversation) => self.compose(conversation, question),
            None => {
                return Err(NO_CONTEXT.to_owned());
            },
        };
        let superseded: Option<u64> = self.abandon();
        self.in_flight = Some(number);
        Ok((superseded, messages))
    }

    /// Ends a question with the pieces of its answer. One that was cut short leaves nothing
    /// behind: half an answer is no exchange.
    pub fn finish(&mut self, question: &str, pieces: &Vec<String>, cancelled: bool) -> (r: Result<
        String,
        String,
    >)
        ensures
            r is Ok == !cancelled,
            match r {
                Ok(answer) => {
                    &&& answer@ == concatenated(texts(pieces@))
                    &&& final(self)@ == (SideModel {
                        exchanges: old(self)@.exchanges.push(
                            ExchangeView { question: question@, answer: answer@ },
                        ),
                        ..old(self)@
                    })
                },
                Err(e) => e@ == INTERRUPTED@ && final(self)@ == old(self)@,
            },
    {
        if cancelled {
            return Err(INTERRUPTED.to_owned());
        }
        let answer: String = concat_all(pieces);
        let e = Exchange { question: question.to_owned(), answer: answer.clone() };
        self.exchanges.push(e);
        Ok(answer)
    }
}

/// Pieces of a text put together.
pub open spec fn concatenated(v: Seq<Seq<char>>) -> Seq<char>
    decreases v.len(),
{
    if v.len() == 0 {
        seq![]
    } else {
        concatenated(v.drop_last()) + v.last()
    }
}

fn concat_all(v: &Vec<String>) -> (r: String)
    ensures
        r@ == concatenated(texts(v@)),
{
    let ghost all = texts(v@);
    let mut r: String = String::new();
    let mut i: usize = 0;
    while i < v.len()
        invariant
            i <= v@.len(),
            all == texts(v@),
            r@ == concatenated(all.take(i as int)),
        decreases v@.len() - i,
    {
        r.append(v[i].as_str());
        proof {
            assert(all.take(i + 1).drop_last() =~= all.take(i as int));
        }
        i += 1;
    }
    assert(all.take(i as int) =~= all);
    r
}

/// What a question comes to that the model did not take.
pub fn describe_failure(error: &str) -> (r: String)
    ensures
        r@ == NOT_ASKED@ + error@,
{
    NOT_ASKED.to_owned().concat(error)
}

// ---- an answer that comes in pieces --------------------------------------------------

/// What the model says while it answers.
#[derive(Debug)]
pub enum AnswerEvent {
    /// A piece of the answer.
    Text(String),
    /// Something that is no part of the answer.
    Other,
    /// That was all.
    End,
    /// The model could not go on; what it said about it.
    Failed(String),
    /// The question was taken back.
    Cancelled,
}

/// A question that is being answered.
#[derive(Debug)]
pub struct Answering {
    pub question: String,
    pub pieces: Vec<String>,
}

/// What a [`Answering`] holds.
pub struct AnsweringView {
    pub question: Seq<char>,
    pub pieces: Seq<Seq<char>>,
}

impl View for Answering {
    type V = AnsweringView;

    open spec fn view(&self) -> AnsweringView {
        AnsweringView { question: self.question@, pieces: texts(self.pieces@) }
    }
}

/// How a question came out: the answer, or what to say instead.
pub open spec fn answer_view(r: Result<String, String>) -> Result<Seq<char>, Seq<char>> {
    match r {
        Ok(a) => Ok(a@),
        Err(e) => Err(e@),
    }
}

pub open spec fn opt_answer(r: Option<Result<String, String>>) -> Option<
    Result<Seq<char>, Seq<char>>,
> {
    match r {
        Some(x) => Some(answer_view(x)),
        None => None,
    }
}

/// How a question comes out that has ended with some pieces of an answer.
pub open spec fn ended_with(a: AnsweringView, side: SideModel, cancelled: bool) -> (
    Result<Seq<char>, Seq<char>>,
    SideModel,
) {
    if cancelled {
        (Err(INTERRUPTED@), side)
    } else {
        let answer = concatenated(a.pieces);
        (
            Ok(answer),
            SideModel {
                exchanges: side.exchanges.push(ExchangeView { question: a.question, answer }),
                ..side
            },
        )
    }
}

/// What is known of an answer, what is kept, and the outcome where there is one, after the
/// model has said something.
pub open spec fn heard(a: AnsweringView, side: SideModel, event: AnswerEvent, cancelled: bool) -> (
    AnsweringView,
    SideModel,
    Option<Result<Seq<char>, Seq<char>>>,
) {
    match event {
        AnswerEvent::Text(text) => (
            AnsweringView { pieces: a.pieces.push(text@), ..a },
            side,
            None,
        ),
        AnswerEvent::Other => (a, side, None),
        AnswerEvent::End => {
            let (outcome, after) = ended_with(a, side, cancelled);
            (a, after, Some(outcome))
        },
        AnswerEvent::Failed(e) => (a, side, Some(Err(NOT_ASKED@ + e@))),
        AnswerEvent::Cancelled => (a, side, Some(Err(INTERRUPTED@))),
    }
}

impl Answering {
    pub fn new(question: String) -> (r: Self)
        ensures
            r@ == (AnsweringView { question: question@, pieces: seq![] }),
    {
        let r = Answering { question, pieces: Vec::new() };
        assert(r@.pieces =~= seq![]);
        r
    }

    /// Takes what the model says next; `cancelled` tells whether the question has been taken
    /// back by now. The outcome comes back once there is one.
    pub fn on(&mut self, event: AnswerEvent, side: &mut SideQuestions, cancelled: bool) -> (r:
        Option<Result<String, String>>)
        ensures
            (final(self)@, final(side)@, opt_answer(r)) == heard(
                old(self)@,
                old(side)@,
                event,
                cancelled,
            ),
            final(self)@.question == old(self)@.question,
            final(self)@.pieces == match event {
                AnswerEvent::Text(text) => old(self)@.pieces.push(text@),
                _ => old(self)@.pieces,
            },
            (opt_answer(r), final(side)@) == match event {
                AnswerEvent::Text(_) | AnswerEvent::Other => (None, old(side)@),
                AnswerEvent::End => {
                    let (outcome, after) = ended_with(old(self)@, old(side)@, cancelled);
                    (Some(outcome), after)
                },
                AnswerEvent::Failed(e) => (
                    Some(Err::<Seq<char>, Seq<char>>(NOT_ASKED@ + e@)),
                    old(side)@,
                ),
                AnswerEvent::Cancelled => (
                    Some(Err::<Seq<char>, Seq<char>>(INTERRUPTED@)),
                    old(side)@,
                ),
            },
    {
        match event {
            AnswerEvent::Text(text) => {
                let ghost said = text@;
                self.pieces.push(text);
                assert(self@.pieces =~= old(self)@.pieces.push(said));
                None
            },
            AnswerEvent::Other => None,
            AnswerEvent::End => Some(side.finish(self.question.as_str(), &self.pieces, cancelled)),
            AnswerEvent::Failed(e) => Some(Err(describe_failure(e.as_str()))),
            AnswerEvent::Cancelled => Some(side.finish(self.question.as_str(), &self.pieces, true)),
        }
    }
}

// ---- laws ----------------------------------------------------------------------------

/// Only a whole answer is kept: whatever else ends a question leaves the earlier exchanges
/// as they are.
pub proof fn law_only_whole_answers_are_kept(a: AnsweringView, side: SideModel, cancelled: bool)
    ensures
        cancelled ==> ended_with(a, side, cancelled).1 == side,
        !cancelled ==> ended_with(a, side, cancelled).0 == Ok::<Seq<char>, Seq<char>>(
            ended_with(a, side, cancelled).1.exchanges.last().answer,
        ),
{
}

/// A question takes the whole conversation along, as it stands and in front of everything
/// else.
pub proof fn law_conversation_goes_along(
    conversation: Seq<ModelMessageView>,
    exchanges: Seq<ExchangeView>,
    question: Seq<char>,
)
    ensures
        composed(conversation, exchanges, question).take(conversation.len() as int) == conversation,
        composed(conversation, exchanges, question).last() == say_spec(
            MessageRole::User,
            PREAMBLE@ + question,
        ),
{
}

proof fn lemma_replay_len(exchanges: Seq<ExchangeView>)
    ensures
        replay(exchanges).len() == 2 * exchanges.len(),
    decreases exchanges.len(),
{
    if exchanges.len() > 0 {
        lemma_replay_len(exchanges.drop_last());
    }
}

/// After the exchanges were forgotten, a question takes the conversation and itself along
/// and nothing else; and never more than the latest exchanges.
pub proof fn law_replay_is_bounded(
    conversation: Seq<ModelMessageView>,
    exchanges: Seq<ExchangeView>,
    question: Seq<char>,
)
    ensures
        composed(conversation, seq![], question) == conversation.push(
            say_spec(MessageRole::User, PREAMBLE@ + question),
        ),
        composed(conversation, exchanges, question).len() <= conversation.len() + 2
            * REPLAY_EXCHANGES + 1,
{
    lemma_replay_len(latest(exchanges));
}

} // verus!
