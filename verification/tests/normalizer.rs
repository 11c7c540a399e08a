use openai_compat::chat::get_chatformatter;
use openai_compat::chat::ChatFormatter;
use openai_compat::chat::ChatFormatterPrePost;
use openai_compat::chat::ChatMessage;
use openai_compat::chat::ChatRole;
use openai_compat::protocol::default_max_new_tokens;
use openai_compat::protocol::F32Bits;
use openai_compat::protocol::GenerateRequest;
use openai_compat::request::chat_to_generate_request;
use openai_compat::request::max_new_tokens;
use openai_compat::request::repetition_penalty;
use openai_compat::request::CompatChatCompletionRequest;
use openai_compat::request::CompatCompletionRequest;
use openai_compat::request::Penalty;

fn bits(x: f32) -> F32Bits {
    F32Bits { bits: x.to_bits() }
}

fn penalty(presence: f32) -> Penalty {
    Penalty { presence: bits(presence), repetition: bits((presence + 2.0) / 2.0) }
}

fn pair(pre: &str, post: &str) -> ChatFormatterPrePost {
    ChatFormatterPrePost { pre: String::from(pre), post: String::from(post) }
}

fn formatter() -> ChatFormatter {
    ChatFormatter {
        user_template: pair("<u>", "</u>"),
        assistant_template: pair("<a>", "</a>"),
        system_template: pair("<s>", "</s>"),
    }
}

fn empty_formatter() -> ChatFormatter {
    get_chatformatter(None, None, None, None, None, None)
}

fn message(role: ChatRole, content: &str) -> ChatMessage {
    ChatMessage { role, content: String::from(content) }
}

fn completion_request(prompt: &str) -> CompatCompletionRequest {
    CompatCompletionRequest {
        prompt: String::from(prompt),
        best_of: None,
        temperature: None,
        presence_penalty: None,
        top_k: None,
        top_p: None,
        typical_p: None,
        do_sample: false,
        max_tokens: None,
        echo: None,
        stop: Vec::new(),
        truncate: None,
        watermark: false,
        decoder_input_details: false,
        seed: None,
        stream: false,
    }
}

fn chat_request(messages: Vec<ChatMessage>) -> CompatChatCompletionRequest {
    CompatChatCompletionRequest {
        messages,
        best_of: None,
        temperature: None,
        presence_penalty: None,
        top_k: None,
        top_p: None,
        typical_p: None,
        do_sample: false,
        max_tokens: None,
        echo: None,
        stop: Vec::new(),
        truncate: None,
        watermark: false,
        decoder_input_details: false,
        seed: None,
        stream: false,
    }
}

#[test]
fn linearize_empty_conversation_is_empty() {
    let prompt = formatter().linearize_messages(&Vec::new());
    assert_eq!(prompt, "");
    let plain = empty_formatter().linearize_messages(&Vec::new());
    assert_eq!(plain, "");
}

#[test]
fn linearize_system_user_assistant_in_order() {
    let messages = vec![
        message(ChatRole::System, "be brief"),
        message(ChatRole::User, "hello"),
        message(ChatRole::Assistant, "hi"),
    ];
    let prompt = formatter().linearize_messages(&messages);
    assert_eq!(prompt, "<s>be brief</s><u>hello</u><a>hi</a>");
}

#[test]
fn linearize_never_reorders_or_merges() {
    let messages = vec![
        message(ChatRole::Assistant, "b"),
        message(ChatRole::User, "a"),
        message(ChatRole::User, "a"),
        message(ChatRole::System, ""),
    ];
    let prompt = formatter().linearize_messages(&messages);
    assert_eq!(prompt, "<a>b</a><u>a</u><u>a</u><s></s>");
}

#[test]
fn linearize_of_joined_conversations_joins_prompts() {
    let first = vec![message(ChatRole::System, "x"), message(ChatRole::User, "y")];
    let second = vec![message(ChatRole::Assistant, "z")];
    let mut joined = first.clone();
    joined.extend(second.clone());
    let f = formatter();
    let expected = format!("{}{}", f.linearize_messages(&first), f.linearize_messages(&second));
    assert_eq!(f.linearize_messages(&joined), expected);
}

#[test]
fn template_for_picks_the_pair_of_the_role() {
    let f = formatter();
    assert_eq!(f.template_for(ChatRole::User), &pair("<u>", "</u>"));
    assert_eq!(f.template_for(ChatRole::Assistant), &pair("<a>", "</a>"));
    assert_eq!(f.template_for(ChatRole::System), &pair("<s>", "</s>"));
}

#[test]
fn chatformatter_defaults_to_empty_strings() {
    let f = empty_formatter();
    assert_eq!(f.user_template, pair("", ""));
    assert_eq!(f.assistant_template, pair("", ""));
    assert_eq!(f.system_template, pair("", ""));
}

#[test]
fn chatformatter_takes_each_setting() {
    let f = get_chatformatter(
        Some(String::from("up")),
        Some(String::from("uq")),
        Some(String::from("ap")),
        None,
        Some(String::from("sp")),
        Some(String::from("sq")),
    );
    assert_eq!(f.user_template, pair("up", "uq"));
    assert_eq!(f.assistant_template, pair("ap", ""));
    assert_eq!(f.system_template, pair("sp", "sq"));
}

#[test]
fn chat_request_with_empty_templates_keeps_prompt() {
    let req = chat_request(vec![message(ChatRole::User, "Hi")]);
    let native_req = chat_to_generate_request(req, &empty_formatter());
    assert_eq!(native_req.inputs, "Hi");
    assert!(native_req.parameters.details);
    assert_eq!(native_req.parameters.max_new_tokens, 20);
    assert_eq!(native_req.parameters.repetition_penalty, None);
}

#[test]
fn chat_request_copies_every_option() {
    let mut req = chat_request(vec![
        message(ChatRole::System, "s"),
        message(ChatRole::User, "u"),
    ]);
    req.best_of = Some(2);
    req.temperature = Some(bits(0.5));
    req.presence_penalty = Some(penalty(0.0));
    req.top_k = Some(10);
    req.top_p = Some(bits(0.95));
    req.typical_p = Some(bits(0.9));
    req.do_sample = true;
    req.max_tokens = Some(7);
    req.echo = Some(false);
    req.stop = vec![String::from("photographer"), String::from("\n")];
    req.truncate = Some(100);
    req.watermark = true;
    req.decoder_input_details = true;
    req.seed = Some(42);
    req.stream = true;
    let native_req = chat_to_generate_request(req, &formatter());
    assert_eq!(native_req.inputs, "<s>s</s><u>u</u>");
    let p = native_req.parameters;
    assert_eq!(p.best_of, Some(2));
    assert_eq!(p.temperature, Some(bits(0.5)));
    assert_eq!(p.repetition_penalty, Some(bits(1.0)));
    assert_eq!(p.top_k, Some(10));
    assert_eq!(p.top_p, Some(bits(0.95)));
    assert_eq!(p.typical_p, Some(bits(0.9)));
    assert!(p.do_sample);
    assert_eq!(p.max_new_tokens, 7);
    assert_eq!(p.return_full_text, Some(false));
    assert_eq!(p.stop, vec![String::from("photographer"), String::from("\n")]);
    assert_eq!(p.truncate, Some(100));
    assert!(p.watermark);
    assert!(p.details);
    assert!(p.decoder_input_details);
    assert_eq!(p.seed, Some(42));
}

#[test]
fn completion_request_copies_prompt_and_options() {
    let mut req = completion_request("My name is Michael and I");
    req.best_of = Some(1);
    req.temperature = Some(bits(0.7));
    req.top_k = Some(-3);
    req.top_p = Some(bits(0.5));
    req.typical_p = Some(bits(0.25));
    req.max_tokens = Some(5);
    req.echo = Some(true);
    req.stop = vec![String::from("stop")];
    req.truncate = Some(9);
    req.seed = Some(0);
    let native_req = GenerateRequest::from(req);
    assert_eq!(native_req.inputs, "My name is Michael and I");
    let p = native_req.parameters;
    assert_eq!(p.best_of, Some(1));
    assert_eq!(p.temperature, Some(bits(0.7)));
    assert_eq!(p.repetition_penalty, None);
    assert_eq!(p.top_k, Some(-3));
    assert_eq!(p.top_p, Some(bits(0.5)));
    assert_eq!(p.typical_p, Some(bits(0.25)));
    assert!(!p.do_sample);
    assert_eq!(p.max_new_tokens, 5);
    assert_eq!(p.return_full_text, Some(true));
    assert_eq!(p.stop, vec![String::from("stop")]);
    assert_eq!(p.truncate, Some(9));
    assert!(!p.watermark);
    assert!(p.details);
    assert!(!p.decoder_input_details);
    assert_eq!(p.seed, Some(0));
}

#[test]
fn completion_request_does_not_clamp() {
    let mut req = completion_request("");
    req.max_tokens = Some(u32::MAX);
    req.top_k = Some(i32::MIN);
    let native_req = GenerateRequest::from(req);
    assert_eq!(native_req.inputs, "");
    assert_eq!(native_req.parameters.max_new_tokens, u32::MAX);
    assert_eq!(native_req.parameters.top_k, Some(i32::MIN));
}

#[test]
fn missing_max_tokens_takes_the_default() {
    assert_eq!(default_max_new_tokens(), 20);
    assert_eq!(max_new_tokens(None), 20);
    assert_eq!(max_new_tokens(Some(1)), 1);
    assert_eq!(max_new_tokens(Some(511)), 511);
    let native_req = GenerateRequest::from(completion_request("x"));
    assert_eq!(native_req.parameters.max_new_tokens, 20);
}

#[test]
fn unset_penalty_stays_unset() {
    assert_eq!(repetition_penalty(None), None);
    let native_req = GenerateRequest::from(completion_request("x"));
    assert_eq!(native_req.parameters.repetition_penalty, None);
    let chat = chat_to_generate_request(chat_request(Vec::new()), &formatter());
    assert_eq!(chat.parameters.repetition_penalty, None);
    assert_eq!(chat.inputs, "");
}

#[test]
fn penalty_is_carried_in_native_form() {
    let cases: [(f32, f32); 4] = [(0.0, 1.0), (2.0, 2.0), (-2.0, 0.0), (1.0, 1.5)];
    for (presence, expected) in cases {
        let mut req = completion_request("x");
        req.presence_penalty = Some(penalty(presence));
        let native_req = GenerateRequest::from(req);
        assert_eq!(native_req.parameters.repetition_penalty, Some(bits(expected)));
        let mut chat = chat_request(vec![message(ChatRole::User, "x")]);
        chat.presence_penalty = Some(penalty(presence));
        let native_chat = chat_to_generate_request(chat, &empty_formatter());
        assert_eq!(native_chat.parameters.repetition_penalty, Some(bits(expected)));
        assert_eq!(repetition_penalty(Some(penalty(presence))), Some(bits(expected)));
    }
}

#[test]
fn into_gives_the_native_request() {
    let mut req = completion_request("Hi");
    req.max_tokens = Some(5);
    let native_req: GenerateRequest = req.clone().into();
    assert_eq!(native_req, GenerateRequest::from(req));
    assert_eq!(native_req.inputs, "Hi");
    assert_eq!(native_req.parameters.max_new_tokens, 5);
}
