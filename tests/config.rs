use openai_api::api::{ChatArgs, ChatArgsBuilder, ChatFormat, ChatRole, CompletionArgs, CompletionArgsBuilder, Real};

fn bits_of(x: f64) -> Real {
    Real::from_bits(x.to_bits())
}

fn strings(v: &[&str]) -> Vec<String> {
    v.iter().map(|s| s.to_string()).collect()
}

#[test]
fn completion_builder_defaults() {
    let args = CompletionArgs::builder().build().unwrap();
    assert_eq!(args.model(), "text-davinci-003");
    assert_eq!(args.prompt(), "<|endoftext|>");
    assert_eq!(args.max_tokens(), 16);
    assert_eq!(args.temperature(), bits_of(1.0));
    assert_eq!(args.top_p(), bits_of(1.0));
    assert_eq!(args.n(), 1);
    assert_eq!(args.logprobs(), None);
    assert!(!args.echo());
    assert!(args.stop().is_none());
    assert_eq!(args.presence_penalty(), bits_of(0.0));
    assert_eq!(args.frequency_penalty(), bits_of(0.0));
    assert!(args.logit_bias().is_empty());
}

#[test]
fn completion_default_trait_builds_defaults() {
    let args = CompletionArgsBuilder::default().build().unwrap();
    assert_eq!(args.model(), "text-davinci-003");
    assert_eq!(args.max_tokens(), 16);
    assert_eq!(f64::from_bits(args.temperature().bits), 1.0);
}

#[test]
fn chat_builder_defaults() {
    let args = ChatArgs::builder().build().unwrap();
    assert_eq!(args.model(), "gpt-3.5-turbo");
    assert!(args.messages().is_empty());
    assert_eq!(args.max_tokens(), None);
    assert_eq!(args.temperature(), bits_of(1.0));
    assert_eq!(args.top_p(), bits_of(1.0));
    assert_eq!(args.n(), 1);
    assert!(args.stop().is_none());
    assert_eq!(args.presence_penalty(), bits_of(0.0));
    assert_eq!(args.frequency_penalty(), bits_of(0.0));
    assert!(args.logit_bias().is_empty());
    let again = ChatArgsBuilder::default().build().unwrap();
    assert_eq!(again.model(), "gpt-3.5-turbo");
}

fn same_completion(a: &CompletionArgs, b: &CompletionArgs) {
    assert_eq!(a.model(), b.model());
    assert_eq!(a.prompt(), b.prompt());
    assert_eq!(a.max_tokens(), b.max_tokens());
    assert_eq!(a.temperature(), b.temperature());
    assert_eq!(a.top_p(), b.top_p());
    assert_eq!(a.n(), b.n());
    assert_eq!(a.logprobs(), b.logprobs());
    assert_eq!(a.echo(), b.echo());
    assert_eq!(a.stop(), b.stop());
    assert_eq!(a.presence_penalty(), b.presence_penalty());
    assert_eq!(a.frequency_penalty(), b.frequency_penalty());
    assert_eq!(a.logit_bias(), b.logit_bias());
}

#[test]
fn prompt_conversion_equals_builder() {
    let converted: CompletionArgs = "Hey there".into();
    let built = CompletionArgs::builder().prompt("Hey there").build().unwrap();
    same_completion(&converted, &built);
    assert_eq!(converted.prompt(), "Hey there");
    same_completion(&CompletionArgs::from_prompt(""), &CompletionArgs::builder().prompt("").build().unwrap());
}

#[test]
fn pairs_conversion_equals_builder() {
    let pairs = vec![
        (ChatRole::System, "You are a helpful assistant.".to_string()),
        (ChatRole::User, "Who won the world series in 2020?".to_string()),
        (ChatRole::Assistant, "The Los Angeles Dodgers.".to_string()),
    ];
    let converted: ChatArgs = pairs.clone().into();
    let messages: Vec<ChatFormat> = pairs.into_iter().map(|(r, c)| ChatFormat::new(r, c)).collect();
    let built = ChatArgs::builder().messages(messages.clone()).build().unwrap();
    assert_eq!(converted.messages(), &messages);
    assert_eq!(converted.messages(), built.messages());
    assert_eq!(converted.messages()[1].role, ChatRole::User);
    assert_eq!(converted.model(), built.model());
    assert_eq!(converted.max_tokens(), built.max_tokens());
    assert_eq!(converted.temperature(), built.temperature());
    assert_eq!(converted.top_p(), built.top_p());
    assert_eq!(converted.n(), built.n());
    assert_eq!(converted.stop(), built.stop());
    assert_eq!(converted.presence_penalty(), built.presence_penalty());
    assert_eq!(converted.frequency_penalty(), built.frequency_penalty());
    assert_eq!(converted.logit_bias(), built.logit_bias());
}

#[test]
fn empty_pair_list_converts_to_defaults() {
    let converted = ChatArgs::from_pairs(Vec::new());
    assert!(converted.messages().is_empty());
    assert_eq!(converted.model(), "gpt-3.5-turbo");
}

#[test]
fn explicit_completion_params() {
    let args = CompletionArgsBuilder::default()
        .prompt("Once upon a time,")
        .max_tokens(10)
        .temperature(bits_of(0.5))
        .top_p(bits_of(0.5))
        .n(1)
        .logprobs(3)
        .echo(false)
        .stop(strings(&["\n"]))
        .presence_penalty(bits_of(0.5))
        .frequency_penalty(bits_of(0.5))
        .logit_bias(vec![("1".to_string(), bits_of(1.0)), ("23".to_string(), bits_of(0.0))])
        .build()
        .expect("build should succeed");
    assert_eq!(args.model(), "text-davinci-003");
    assert_eq!(args.prompt(), "Once upon a time,");
    assert_eq!(args.max_tokens(), 10);
    assert_eq!(f64::from_bits(args.temperature().bits), 0.5);
    assert_eq!(args.top_p(), bits_of(0.5));
    assert_eq!(args.logprobs(), Some(3));
    assert_eq!(args.stop(), &Some(strings(&["\n"])));
    assert_eq!(args.presence_penalty(), bits_of(0.5));
    assert_eq!(args.frequency_penalty(), bits_of(0.5));
    assert_eq!(args.logit_bias().len(), 2);
    assert_eq!(args.logit_bias()[1].0, "23");
}

#[test]
fn out_of_range_values_are_accepted() {
    let args = CompletionArgs::builder().temperature(bits_of(7.5)).presence_penalty(bits_of(-9.0)).build();
    assert!(args.is_ok());
    assert_eq!(args.unwrap().temperature(), bits_of(7.5));
}

#[test]
fn builder_converts_by_try_from() {
    let builder = CompletionArgs::builder().temperature(bits_of(0.7));
    let args: CompletionArgs = builder.try_into().unwrap();
    assert_eq!(args.temperature(), bits_of(0.7));
    let chat_builder = ChatArgs::builder().temperature(bits_of(0.7));
    let chat: ChatArgs = chat_builder.try_into().unwrap();
    assert_eq!(chat.temperature(), bits_of(0.7));
}

#[test]
fn explicit_chat_params() {
    let args = ChatArgs::builder()
        .model("gpt-3.5-turbo-0301")
        .messages(vec![ChatFormat {
            role: ChatRole::System,
            content: "Hello there, how may I assist you today?".into(),
        }])
        .temperature(bits_of(0.0))
        .top_p(bits_of(0.0))
        .max_tokens(100)
        .n(2)
        .stop(strings(&["#", "\n"]))
        .presence_penalty(bits_of(1.5))
        .frequency_penalty(bits_of(-1.5))
        .logit_bias(vec![("50256".to_string(), bits_of(-100.0))])
        .build()
        .expect("build should succeed");
    assert_eq!(args.model(), "gpt-3.5-turbo-0301");
    assert_eq!(args.messages().len(), 1);
    assert_eq!(args.messages()[0].role, ChatRole::System);
    assert_eq!(args.max_tokens(), Some(100));
    assert_eq!(args.n(), 2);
    assert_eq!(args.stop(), &Some(strings(&["#", "\n"])));
    assert_eq!(args.temperature(), bits_of(0.0));
    assert_eq!(args.frequency_penalty(), bits_of(-1.5));
    assert_eq!(args.logit_bias()[0].1, bits_of(-100.0));
}

#[test]
fn later_setter_wins() {
    let args = CompletionArgs::builder().max_tokens(5).max_tokens(64).model("ada").build().unwrap();
    assert_eq!(args.max_tokens(), 64);
    assert_eq!(args.model(), "ada");
}

#[test]
fn unset_builder_converts_to_defaults() {
    let args = CompletionArgs::try_from(CompletionArgs::builder()).unwrap();
    assert_eq!(args.model(), "text-davinci-003");
    assert_eq!(args.prompt(), "<|endoftext|>");
    assert_eq!(args.max_tokens(), 16);
    assert_eq!(args.temperature(), bits_of(1.0));
    assert!(args.logit_bias().is_empty());
    let chat = ChatArgs::try_from(ChatArgs::builder()).unwrap();
    assert_eq!(chat.model(), "gpt-3.5-turbo");
    assert!(chat.messages().is_empty());
    assert_eq!(chat.max_tokens(), None);
}

#[test]
fn builder_conversion_keeps_rejected_values() {
    let builder = CompletionArgs::builder()
        .temperature(bits_of(5.0))
        .top_p(bits_of(-1.0))
        .presence_penalty(bits_of(-10.0))
        .frequency_penalty(bits_of(10.0))
        .n(0)
        .max_tokens(0);
    let args = CompletionArgs::try_from(builder).unwrap();
    assert_eq!(args.temperature(), bits_of(5.0));
    assert_eq!(args.top_p(), bits_of(-1.0));
    assert_eq!(args.presence_penalty(), bits_of(-10.0));
    assert_eq!(args.frequency_penalty(), bits_of(10.0));
    assert_eq!(args.n(), 0);
    assert_eq!(args.max_tokens(), 0);
}

#[test]
fn builder_stays_usable_after_build() {
    let builder = CompletionArgs::builder().prompt("Once upon a time").max_tokens(5);
    let first = builder.build().unwrap();
    let second = builder.build().unwrap();
    same_completion(&first, &second);
    let longer = builder.max_tokens(64).build().unwrap();
    assert_eq!(longer.max_tokens(), 64);
    assert_eq!(builder.build().unwrap().max_tokens(), 5);
    let chat = ChatArgs::builder().messages(vec![ChatFormat::new(ChatRole::User, "hi".into())]);
    let a = chat.build().unwrap();
    let b = chat.build().unwrap();
    assert_eq!(a.messages(), b.messages());
    assert_eq!(chat.n(3).build().unwrap().messages()[0].content, "hi");
}
