//! The chat template: role-tagged messages linearised into one prompt.

use vstd::prelude::*;
use vstd::string::*;

verus! {

/// Who speaks in a chat message. The set is closed: every dispatch on a role
/// is an exhaustive match.
#[derive(Clone, Copy, Debug, PartialEq, Eq, Structural)]
pub enum ChatRole {
    User,
    Assistant,
    System,
}

/// What is written before and after the content of a message.
#[derive(Clone, Debug, PartialEq, Eq)]
pub struct ChatFormatterPrePost {
    pub pre: String,
    pub post: String,
}

/// One prefix and suffix pair for each role. Built once and only read
/// afterwards.
#[derive(Clone, Debug, PartialEq, Eq)]
pub struct ChatFormatter {
    pub user_template: ChatFormatterPrePost,
    pub assistant_template: ChatFormatterPrePost,
    pub system_template: ChatFormatterPrePost,
}

/// One turn of a conversation.
#[derive(Clone, Debug, PartialEq, Eq)]
pub struct ChatMessage {
    pub role: ChatRole,
    pub content: String,
}

/// A message as a mathematical value.
pub struct ChatMessageView {
    pub role: ChatRole,
    pub content: Seq<char>,
}

impl View for ChatMessage {
    type V = ChatMessageView;

    open spec fn view(&self) -> ChatMessageView {
        ChatMessageView { role: self.role, content: self.content@ }
    }
}

impl ChatFormatter {
    /// The pair that belongs to a role.
    pub open spec fn template(&self, role: ChatRole) -> ChatFormatterPrePost {
        match role {
            ChatRole::User => self.user_template,
            ChatRole::Assistant => self.assistant_template,
            ChatRole::System => self.system_template,
        }
    }

    /// What one message contributes to the prompt: the prefix of its role,
    /// its content, the suffix of its role.
    pub open spec fn render(&self, message: ChatMessage) -> Seq<char> {
        self.template(message.role).pre@ + message.content@ + self.template(message.role).post@
    }

    /// The prompt of a conversation: the contributions of its messages, in
    /// the order of the conversation.
    pub open spec fn linearize(&self, messages: Seq<ChatMessage>) -> Seq<char>
        decreases messages.len(),
    {
        if messages.len() == 0 {
            Seq::<char>::empty()
        } else {
            self.linearize(messages.drop_last()) + self.render(messages.last())
        }
    }

    pub fn template_for(&self, role: ChatRole) -> (template: &ChatFormatterPrePost)
        ensures
            *template == self.template(role),
    {
        match role {
            ChatRole::Assistant => &self.assistant_template,
            ChatRole::System => &self.system_template,
            ChatRole::User => &self.user_template,
        }
    }

    /// Linearises a conversation into one prompt.
    pub fn linearize_messages(&self, messages: &Vec<ChatMessage>) -> (prompt: String)
        ensures
            prompt@ == self.linearize(messages@),
    {
        let mut prompt = String::new();
        let mut i: usize = 0;
        while i < messages.len()
            invariant
                i <= messages.len(),
                prompt@ == self.linearize(messages@.take(i as int)),
            decreases messages.len() - i,
        {
            let m = &messages[i];
            let template = self.template_for(m.role);
            prompt.append(template.pre.as_str());
            prompt.append(m.content.as_str());
            prompt.append(template.post.as_str());
            proof {
                let next = messages@.take(i + 1);
                assert(next.drop_last() =~= messages@.take(i as int));
                assert(next.last() == messages@[i as int]);
                assert(prompt@ =~= self.linearize(next));
            }
            i += 1;
        }
        assert(messages@.take(i as int) =~= messages@);
        prompt
    }

    /// An empty conversation gives an empty prompt, whatever the templates.
    pub proof fn lemma_linearize_empty(&self)
        ensures
            self.linearize(Seq::<ChatMessage>::empty()) == Seq::<char>::empty(),
    {
    }

    /// The prompt of a single message is its contribution.
    pub proof fn lemma_linearize_one(&self, message: ChatMessage)
        ensures
            self.linearize(seq![message]) == self.render(message),
    {
        let one = seq![message];
        assert(one.drop_last() =~= Seq::<ChatMessage>::empty());
        assert(self.linearize(one.drop_last()) == Seq::<char>::empty());
        assert(self.linearize(one) =~= self.render(message));
    }

    /// The prompt of two conversations joined is the two prompts joined:
    /// linearising keeps the order of the messages, and neither drops nor
    /// repeats one.
    pub proof fn lemma_linearize_concat(&self, first: Seq<ChatMessage>, second: Seq<ChatMessage>)
        ensures
            self.linearize(first + second) == self.linearize(first) + self.linearize(second),
        decreases second.len(),
    {
        if second.len() == 0 {
            assert(first + second =~= first);
            assert(self.linearize(first) + self.linearize(second) =~= self.linearize(first));
        } else {
            let whole = first + second;
            assert(whole.drop_last() =~= first + second.drop_last());
            assert(whole.last() == second.last());
            self.lemma_linearize_concat(first, second.drop_last());
            assert(self.linearize(whole) =~= self.linearize(first) + self.linearize(second));
        }
    }

    /// A system message, a user message and an assistant message give, in
    /// that order, the system pair around the first content, then the user
    /// pair around the second, then the assistant pair around the third.
    pub proof fn lemma_linearize_system_user_assistant(
        &self,
        system: ChatMessage,
        user: ChatMessage,
        assistant: ChatMessage,
    )
        requires
            system.role == ChatRole::System,
            user.role == ChatRole::User,
            assistant.role == ChatRole::Assistant,
        ensures
            self.linearize(seq![system, user, assistant]) == self.system_template.pre@
                + system.content@ + self.system_template.post@ + self.user_template.pre@
                + user.content@ + self.user_template.post@ + self.assistant_template.pre@
                + assistant.content@ + self.assistant_template.post@,
    {
        let all = seq![system, user, assistant];
        assert(all =~= seq![system] + seq![user] + seq![assistant]);
        self.lemma_linearize_concat(seq![system], seq![user]);
        self.lemma_linearize_concat(seq![system] + seq![user], seq![assistant]);
        self.lemma_linearize_one(system);
        self.lemma_linearize_one(user);
        self.lemma_linearize_one(assistant);
        assert(self.linearize(all) =~= self.system_template.pre@ + system.content@
            + self.system_template.post@ + self.user_template.pre@ + user.content@
            + self.user_template.post@ + self.assistant_template.pre@ + assistant.content@
            + self.assistant_template.post@);
    }

    /// With every template empty, the prompt of a single message is its
    /// content unchanged.
    pub proof fn lemma_linearize_plain(&self, message: ChatMessage)
        requires
            self.template(message.role).pre@ == Seq::<char>::empty(),
            self.template(message.role).post@ == Seq::<char>::empty(),
        ensures
            self.linearize(seq![message]) == message.content@,
    {
        self.lemma_linearize_one(message);
        assert(self.render(message) =~= message.content@);
    }
}

/// The value of a setting: what was configured, or the empty string.
pub open spec fn setting_or_empty(setting: Option<String>) -> Seq<char> {
    match setting {
        Some(s) => s@,
        None => Seq::<char>::empty(),
    }
}

fn setting_value(setting: Option<String>) -> (value: String)
    ensures
        value@ == setting_or_empty(setting),
{
    match setting {
        Some(s) => s,
        None => String::new(),
    }
}

/// Builds the chat formatter from its six settings, each of which may be
/// unset and then stands for the empty string.
pub fn get_chatformatter(
    user_pre: Option<String>,
    user_post: Option<String>,
    assistant_pre: Option<String>,
    assistant_post: Option<String>,
    system_pre: Option<String>,
    system_post: Option<String>,
) -> (formatter: ChatFormatter)
    ensures
        formatter.user_template.pre@ == setting_or_empty(user_pre),
        formatter.user_template.post@ == setting_or_empty(user_post),
        formatter.assistant_template.pre@ == setting_or_empty(assistant_pre),
        formatter.assistant_template.post@ == setting_or_empty(assistant_post),
        formatter.system_template.pre@ == setting_or_empty(system_pre),
        formatter.system_template.post@ == setting_or_empty(system_post),
{
    ChatFormatter {
        user_template: ChatFormatterPrePost {
            pre: setting_value(user_pre),
            post: setting_value(user_post),
        },
        assistant_template: ChatFormatterPrePost {
            pre: setting_value(assistant_pre),
            post: setting_value(assistant_post),
        },
        system_template: ChatFormatterPrePost {
            pre: setting_value(system_pre),
            post: setting_value(system_post),
        },
    }
}

} // verus!
