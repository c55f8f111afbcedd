use crate::history::{evicted, lemma_slide_all_is_recent_suffix, slide, slide_all, within};
use crate::message::{assistant_role, system_role, turn, turns, user_role, Message, MessageModel};
use crate::reply::{
    completion_of, outcome_model, read_completion, status_is_success, CompletionError, Reply,
};
use crate::request::{bearer, default_model, endpoint, CompletionRequest, RequestModel};
use std::sync::Arc;
use vstd::prelude::*;
use vstd::string::StringExecFns;

verus! {

/// The HTTP client of `reqwest`. Nothing is known of what it holds: a handle to
/// it is carried through and handed back.
#[verifier::external_type_specification]
#[verifier::external_body]
pub struct ExClient(reqwest::Client);

/// A conversation as mathematics.
pub struct ConversationModel {
    pub api_key: Seq<char>,
    pub client: Arc<reqwest::Client>,
    pub model: Seq<char>,
    pub log_size: nat,
    pub system_messages: Seq<MessageModel>,
    pub chat_messages: Seq<MessageModel>,
}

impl ConversationModel {
    /// What a request carries: every instruction, then every turn of the
    /// window, each list in the order in which it was filled.
    pub open spec fn messages(self) -> Seq<MessageModel> {
        self.system_messages + self.chat_messages
    }

    /// Whether the window is no longer than the limit lets it grow.
    pub open spec fn within_limit(self) -> bool {
        within(self.chat_messages, self.log_size)
    }

    /// The conversation after one more instruction.
    pub open spec fn with_system_message(self, prompt: Seq<char>) -> ConversationModel {
        ConversationModel {
            system_messages: self.system_messages.push(turn(system_role(), prompt)),
            ..self
        }
    }

    /// The conversation after one more turn has been offered to the window.
    pub open spec fn with_chat_message(self, message: MessageModel) -> ConversationModel {
        ConversationModel {
            chat_messages: slide(self.chat_messages, self.log_size, message),
            ..self
        }
    }

    /// The conversation after `prompts` were added as instructions, one by one.
    pub open spec fn with_system_messages(self, prompts: Seq<Seq<char>>) -> ConversationModel
        decreases prompts.len(),
    {
        if prompts.len() == 0 {
            self
        } else {
            self.with_system_messages(prompts.drop_last()).with_system_message(prompts.last())
        }
    }

    /// The conversation after `messages` were offered to the window, one by one.
    pub open spec fn with_chat_messages(self, messages: Seq<MessageModel>) -> ConversationModel
        decreases messages.len(),
    {
        if messages.len() == 0 {
            self
        } else {
            self.with_chat_messages(messages.drop_last()).with_chat_message(messages.last())
        }
    }

    /// The request that a completion sends. It names the fixed model, whatever
    /// model the conversation is configured with.
    pub open spec fn request(self) -> RequestModel {
        RequestModel {
            url: endpoint(),
            authorization: bearer(self.api_key),
            model: default_model(),
            messages: self.messages(),
        }
    }
}

/// A conversation with a remote chat model: the credential and the HTTP client
/// to reach it with, the instructions that head every request, and a sliding
/// window over the turns exchanged so far.
pub struct ChatCompletion {
    api_key: String,
    client: Arc<reqwest::Client>,
    model: String,
    log_size: u32,
    system_messages: Vec<Message>,
    chat_messages: Vec<Message>,
}

impl View for ChatCompletion {
    type V = ConversationModel;

    closed spec fn view(&self) -> ConversationModel {
        ConversationModel {
            api_key: self.api_key@,
            client: self.client,
            model: self.model@,
            log_size: self.log_size as nat,
            system_messages: turns(self.system_messages@),
            chat_messages: turns(self.chat_messages@),
        }
    }
}

impl ChatCompletion {
    /// A conversation with nothing said yet, the default model and a window
    /// limit of 30.
    pub fn new(api_key: String, client: Arc<reqwest::Client>) -> (chat: Self)
        ensures
            chat@ == (ConversationModel {
                api_key: api_key@,
                client,
                model: default_model(),
                log_size: 30,
                system_messages: Seq::empty(),
                chat_messages: Seq::empty(),
            }),
            chat@.within_limit(),
    {
        let chat = Self {
            api_key,
            client,
            model: "gpt-4o-mini".to_owned(),
            log_size: 30,
            system_messages: Vec::new(),
            chat_messages: Vec::new(),
        };
        assert(turns(chat.system_messages@) =~= Seq::empty());
        assert(turns(chat.chat_messages@) =~= Seq::empty());
        chat
    }

    /// Adds an instruction. Instructions are never dropped, and adding one
    /// leaves the window as it was.
    pub fn push_system_message(&mut self, prompt: &str)
        ensures
            final(self)@ == old(self)@.with_system_message(prompt@),
            final(self)@.chat_messages == old(self)@.chat_messages,
            old(self)@.within_limit() ==> final(self)@.within_limit(),
    {
        let system_message = Message::new("system", prompt);
        self.system_messages.push(system_message);
        assert(turns(self.system_messages@) =~= turns(old(self).system_messages@).push(
            turn(system_role(), prompt@),
        ));
    }

    fn push_chat_message(&mut self, role: &str, input: &str)
        ensures
            final(self)@ == old(self)@.with_chat_message(turn(role@, input@)),
    {
        if self.chat_messages.len() > self.log_size as usize {
            self.chat_messages.remove(0);
        }
        self.chat_messages.push(Message::new(role, input));
        assert(turns(self.chat_messages@) =~= slide(
            turns(old(self).chat_messages@),
            old(self).log_size as nat,
            turn(role@, input@),
        ));
    }

    /// Adds what the person said to the window, which first gives up its
    /// oldest turn if it already holds more than the limit.
    pub fn push_user_message(&mut self, input: &str)
        ensures
            final(self)@ == old(self)@.with_chat_message(turn(user_role(), input@)),
            old(self)@.within_limit() ==> final(self)@.within_limit(),
    {
        self.push_chat_message("user", input);
    }

    /// Adds what the model answered to the window, which first gives up its
    /// oldest turn if it already holds more than the limit.
    pub fn push_assistant_message(&mut self, input: &str)
        ensures
            final(self)@ == old(self)@.with_chat_message(turn(assistant_role(), input@)),
            old(self)@.within_limit() ==> final(self)@.within_limit(),
    {
        self.push_chat_message("assistant", input);
    }

    /// Copies of the messages that a request carries: the instructions first,
    /// then the window.
    pub fn messages(&self) -> (all: Vec<Message>)
        ensures
            turns(all@) == self@.messages(),
    {
        let mut all: Vec<Message> = Vec::new();
        let mut i: usize = 0;
        while i < self.system_messages.len()
            invariant
                i <= self.system_messages.len(),
                all@ == self.system_messages@.take(i as int),
            decreases self.system_messages.len() - i,
        {
            all.push(self.system_messages[i].clone());
            assert(all@ =~= self.system_messages@.take(i + 1));
            i += 1;
        }
        let mut j: usize = 0;
        while j < self.chat_messages.len()
            invariant
                j <= self.chat_messages.len(),
                all@ == self.system_messages@ + self.chat_messages@.take(j as int),
            decreases self.chat_messages.len() - j,
        {
            all.push(self.chat_messages[j].clone());
            assert(all@ =~= self.system_messages@ + self.chat_messages@.take(j + 1));
            j += 1;
        }
        assert(turns(all@) =~= turns(self.system_messages@) + turns(self.chat_messages@));
        all
    }

    /// The request that a completion sends for the conversation as it stands.
    pub fn request(&self) -> (request: CompletionRequest)
        ensures
            request@ == self@.request(),
    {
        let mut authorization = String::from_str("Bearer ");
        authorization.append(self.api_key.as_str());
        CompletionRequest {
            url: "https://api.openai.com/v1/chat/completions".to_owned(),
            authorization,
            model: "gpt-4o-mini".to_owned(),
            messages: self.messages(),
        }
    }

    /// What the completion comes to, once the request has been sent and
    /// `reply` says how that ended: the text at `choices[0].message.content`
    /// of a response with a good status, or the reason why there is none.
    ///
    /// The conversation is left as it is: an answer is not added to the window.
    pub fn completion(&self, reply: Reply) -> (outcome: Result<String, CompletionError>)
        ensures
            outcome_model(outcome) == completion_of(reply@),
    {
        match reply {
            Reply::Failed { cause } => Err(CompletionError::Transport { cause }),
            Reply::Answered { status, body } => {
                if status_is_success(status) {
                    read_completion(body.as_slice())
                } else {
                    Err(CompletionError::HttpStatus { status })
                }
            },
        }
    }

    /// The HTTP client that requests are to be sent with.
    pub fn http_client(&self) -> (client: &Arc<reqwest::Client>)
        ensures
            *client == self@.client,
    {
        &self.client
    }

    /// Replaces the credential.
    pub fn api_key(&mut self, api_key: &str) -> (ret: &mut Self)
        ensures
            ret@ == (ConversationModel { api_key: api_key@, ..old(self)@ }),
            old(self)@.within_limit() ==> ret@.within_limit(),
            *final(self) == *final(ret),
    {
        self.api_key = api_key.to_owned();
        self
    }

    /// Replaces the configured model. Requests go on naming the fixed model.
    pub fn model(&mut self, model_name: &str) -> (ret: &mut Self)
        ensures
            ret@ == (ConversationModel { model: model_name@, ..old(self)@ }),
            old(self)@.within_limit() ==> ret@.within_limit(),
            *final(self) == *final(ret),
    {
        self.model = model_name.to_owned();
        self
    }

    /// Replaces the HTTP client.
    pub fn client(&mut self, client: Arc<reqwest::Client>) -> (ret: &mut Self)
        ensures
            ret@ == (ConversationModel { client, ..old(self)@ }),
            old(self)@.within_limit() ==> ret@.within_limit(),
            *final(self) == *final(ret),
    {
        self.client = client;
        self
    }

    /// Replaces the limit of the window. The window itself is left as it is,
    /// also where it is longer than the new limit allows.
    pub fn log_size(&mut self, size: u32) -> (ret: &mut Self)
        ensures
            ret@ == (ConversationModel { log_size: size as nat, ..old(self)@ }),
            ret@.within_limit() <==> old(self)@.chat_messages.len() <= size + 1,
            *final(self) == *final(ret),
    {
        self.log_size = size;
        self
    }
}

/// However many turns are offered to a window that was within its limit, it
/// stays within the limit, and what it holds is the most recent stretch of
/// all that it held and was offered: turns leave oldest first, one for each
/// arrival beyond the limit. Nothing else in the conversation changes.
pub proof fn lemma_chat_pushes_keep_recent_window(
    chat: ConversationModel,
    messages: Seq<MessageModel>,
)
    requires
        chat.within_limit(),
    ensures
        chat.with_chat_messages(messages).within_limit(),
        chat.with_chat_messages(messages) == (ConversationModel {
            chat_messages: (chat.chat_messages + messages).skip(
                evicted(chat.chat_messages.len() + messages.len(), chat.log_size) as int,
            ),
            ..chat
        }),
{
    lemma_with_chat_messages_is_slide_all(chat, messages);
    lemma_slide_all_is_recent_suffix(chat.chat_messages, chat.log_size, messages);
}

/// Offering turns to the window one by one is sliding the window over them,
/// under the limit that the conversation has throughout.
proof fn lemma_with_chat_messages_is_slide_all(chat: ConversationModel, messages: Seq<MessageModel>)
    ensures
        chat.with_chat_messages(messages) == (ConversationModel {
            chat_messages: slide_all(chat.chat_messages, chat.log_size, messages),
            ..chat
        }),
    decreases messages.len(),
{
    if messages.len() > 0 {
        lemma_with_chat_messages_is_slide_all(chat, messages.drop_last());
    }
}

/// However many instructions are added, none is dropped: the list holds what
/// it held, then each new instruction in the order of arrival. The window and
/// the rest of the conversation stay as they were.
pub proof fn lemma_system_pushes_evict_nothing(chat: ConversationModel, prompts: Seq<Seq<char>>)
    ensures
        chat.with_system_messages(prompts) == (ConversationModel {
            system_messages: chat.system_messages + prompts.map_values(
                |prompt: Seq<char>| turn(system_role(), prompt),
            ),
            ..chat
        }),
    decreases prompts.len(),
{
    let added = prompts.map_values(|prompt: Seq<char>| turn(system_role(), prompt));
    if prompts.len() == 0 {
        assert(chat.system_messages + added =~= chat.system_messages);
    } else {
        let earlier = prompts.drop_last();
        lemma_system_pushes_evict_nothing(chat, earlier);
        assert((chat.system_messages + earlier.map_values(
            |prompt: Seq<char>| turn(system_role(), prompt),
        )).push(turn(system_role(), prompts.last())) =~= chat.system_messages + added);
    }
}

/// In what a request carries, every instruction stands before every turn of
/// the window, and each of the two lists keeps its own order.
pub proof fn lemma_messages_order(chat: ConversationModel)
    ensures
        chat.messages().len() == chat.system_messages.len() + chat.chat_messages.len(),
        forall|i: int|
            0 <= i < chat.system_messages.len() ==> chat.messages()[i] == chat.system_messages[i],
        forall|j: int|
            0 <= j < chat.chat_messages.len() ==> chat.messages()[chat.system_messages.len() + j]
                == chat.chat_messages[j],
{
}

/// Two lists that `messages` may give for one conversation hold the same
/// turns in the same order.
pub proof fn lemma_messages_repeatable(
    chat: ChatCompletion,
    first: Vec<Message>,
    second: Vec<Message>,
)
    requires
        turns(first@) == chat@.messages(),
        turns(second@) == chat@.messages(),
    ensures
        turns(first@) == turns(second@),
        first@.len() == second@.len(),
        forall|i: int| 0 <= i < first@.len() ==> first@[i]@ == second@[i]@,
{
    assert(turns(first@).len() == first@.len());
    assert(turns(second@).len() == second@.len());
    assert forall|i: int| 0 <= i < first@.len() implies first@[i]@ == second@[i]@ by {
        assert(turns(first@)[i] == first@[i]@);
        assert(turns(second@)[i] == second@[i]@);
    }
}

} // verus!
