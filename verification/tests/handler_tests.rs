use spoilme::handler::{step, trigger_target, Action, Event, Invocation};
use spoilme::model::{
    Attachment, ChatEvent, PlatformError, ReplacementMessage, ReplyReference, SpoiledAttachment,
    TargetMessage,
};

fn chat(content: &str, reply: Option<ReplyReference>) -> ChatEvent {
    ChatEvent { author_id: 5, channel_id: 7, message_id: 100, content: content.to_string(), reply }
}

fn reply_to(channel_id: u64, message_id: u64) -> Option<ReplyReference> {
    Some(ReplyReference { channel_id, message_id: Some(message_id) })
}

fn attachment(name: &str) -> Attachment {
    Attachment { url: format!("https://cdn.example/{}", name), filename: name.to_string() }
}

fn target(content: &str, names: &[&str]) -> TargetMessage {
    TargetMessage {
        author_id: 42,
        content: content.to_string(),
        attachments: names.iter().map(|n| attachment(n)).collect(),
        created: 1700000000,
        edited: None,
        channel_id: 7,
        message_id: 9,
    }
}

fn fetching() -> Invocation {
    Invocation::Fetching { channel_id: 7, message_id: 9 }
}

#[test]
fn trigger_needs_exact_text_and_reply() {
    assert_eq!(trigger_target(&chat("!spoilme", reply_to(7, 9))), Some((7, 9)));
    assert_eq!(trigger_target(&chat("!spoilme", None)), None);
    assert_eq!(
        trigger_target(&chat("!spoilme", Some(ReplyReference { channel_id: 7, message_id: None }))),
        None
    );
    for text in ["", "!spoilme ", " !spoilme", "!Spoilme", "!SPOILME", "!spoilme please", "spoilme", "!spoilm"] {
        assert_eq!(trigger_target(&chat(text, reply_to(7, 9))), None);
    }
}

#[test]
fn trigger_takes_channel_of_reference() {
    assert_eq!(trigger_target(&chat("!spoilme", reply_to(11, 12))), Some((11, 12)));
}

#[test]
fn non_trigger_event_asks_nothing() {
    for event in [
        chat("hello", reply_to(7, 9)),
        chat("!spoilme", None),
        chat("!spoilme\n", reply_to(7, 9)),
        chat("", None),
    ] {
        let (state, action) = step(Invocation::new(), Event::Created(event));
        assert_eq!(state, Invocation::Idle);
        assert_eq!(action, Action::Nothing);
    }
}

#[test]
fn trigger_event_fetches_target() {
    let (state, action) = step(Invocation::new(), Event::Created(chat("!spoilme", reply_to(7, 9))));
    assert_eq!(state, Invocation::Fetching { channel_id: 7, message_id: 9 });
    assert_eq!(action, Action::Fetch { channel_id: 7, message_id: 9 });
}

#[test]
fn text_only_message_is_published_then_deleted() {
    let (state, action) = step(fetching(), Event::Fetched(Ok(target("hello world", &[]))));
    assert_eq!(state, Invocation::Publishing { channel_id: 7, message_id: 9 });
    assert_eq!(
        action,
        Action::Publish {
            channel_id: 7,
            message: ReplacementMessage {
                body: "<@42>\n_ <t:1700000000>_\n> hello world".to_string(),
                attachments: Vec::new(),
            },
        }
    );
    let (state, action) = step(state, Event::Published(Ok(())));
    assert_eq!(state, Invocation::Deleting { channel_id: 7, message_id: 9 });
    assert_eq!(action, Action::Delete { channel_id: 7, message_id: 9 });
    let (state, action) = step(state, Event::Deleted(Ok(())));
    assert_eq!(state, Invocation::Done);
    assert_eq!(action, Action::Nothing);
}

#[test]
fn one_attachment_is_renamed_with_same_bytes() {
    let (state, action) = step(fetching(), Event::Fetched(Ok(target("", &["cat.png"]))));
    assert_eq!(action, Action::Download { url: "https://cdn.example/cat.png".to_string() });
    assert!(matches!(state, Invocation::Transforming { .. }));
    let (state, action) = step(state, Event::Downloaded(Ok(vec![10, 20, 30])));
    assert_eq!(state, Invocation::Publishing { channel_id: 7, message_id: 9 });
    assert_eq!(
        action,
        Action::Publish {
            channel_id: 7,
            message: ReplacementMessage {
                body: "<@42>\n_ <t:1700000000>_".to_string(),
                attachments: vec![SpoiledAttachment {
                    filename: "SPOILER_cat.png".to_string(),
                    data: vec![10, 20, 30],
                }],
            },
        }
    );
}

#[test]
fn marked_attachment_keeps_its_name() {
    let (state, _) = step(fetching(), Event::Fetched(Ok(target("", &["SPOILER_meme.jpg"]))));
    let (_, action) = step(state, Event::Downloaded(Ok(vec![1])));
    match action {
        Action::Publish { message, .. } => {
            assert_eq!(message.attachments.len(), 1);
            assert_eq!(message.attachments[0].filename, "SPOILER_meme.jpg");
            assert_eq!(message.attachments[0].data, vec![1]);
        },
        other => panic!("unexpected action {:?}", other),
    }
}

#[test]
fn attachments_keep_their_order() {
    let names = ["a.png", "SPOILER_b.png", "c.txt"];
    let (mut state, mut action) = step(fetching(), Event::Fetched(Ok(target("t", &names))));
    for (i, name) in names.iter().enumerate() {
        assert_eq!(action, Action::Download { url: format!("https://cdn.example/{}", name) });
        let r = step(state, Event::Downloaded(Ok(vec![i as u8; i + 1])));
        state = r.0;
        action = r.1;
    }
    assert_eq!(state, Invocation::Publishing { channel_id: 7, message_id: 9 });
    match action {
        Action::Publish { channel_id, message } => {
            assert_eq!(channel_id, 7);
            assert_eq!(message.body, "<@42>\n_ <t:1700000000>_\n> t");
            let got: Vec<(String, Vec<u8>)> =
                message.attachments.into_iter().map(|a| (a.filename, a.data)).collect();
            assert_eq!(
                got,
                vec![
                    ("SPOILER_a.png".to_string(), vec![0]),
                    ("SPOILER_b.png".to_string(), vec![1, 1]),
                    ("SPOILER_c.txt".to_string(), vec![2, 2, 2]),
                ]
            );
        },
        other => panic!("unexpected action {:?}", other),
    }
}

#[test]
fn failed_fetch_posts_and_deletes_nothing() {
    let (state, action) = step(fetching(), Event::Fetched(Err(PlatformError::NotFound)));
    assert_eq!(state, Invocation::Failed);
    assert_eq!(action, Action::Report(PlatformError::NotFound));
    let (state, action) = step(state, Event::Published(Ok(())));
    assert_eq!(state, Invocation::Failed);
    assert_eq!(action, Action::Nothing);
    let (state, action) = step(state, Event::Deleted(Ok(())));
    assert_eq!(state, Invocation::Failed);
    assert_eq!(action, Action::Nothing);
}

#[test]
fn failed_download_aborts_whole_transform() {
    let (state, _) = step(fetching(), Event::Fetched(Ok(target("x", &["a.png", "b.png"]))));
    let (state, action) = step(state, Event::Downloaded(Ok(vec![1])));
    assert_eq!(action, Action::Download { url: "https://cdn.example/b.png".to_string() });
    let (state, action) = step(state, Event::Downloaded(Err(PlatformError::Network)));
    assert_eq!(state, Invocation::Failed);
    assert_eq!(action, Action::Report(PlatformError::Network));
    let (state, action) = step(state, Event::Downloaded(Ok(vec![2])));
    assert_eq!(state, Invocation::Failed);
    assert_eq!(action, Action::Nothing);
}

#[test]
fn failed_publish_deletes_nothing() {
    let (state, _) = step(fetching(), Event::Fetched(Ok(target("x", &[]))));
    let (state, action) = step(state, Event::Published(Err(PlatformError::Permission)));
    assert_eq!(state, Invocation::Failed);
    assert_eq!(action, Action::Report(PlatformError::Permission));
    let (state, action) = step(state, Event::Published(Ok(())));
    assert_eq!(state, Invocation::Failed);
    assert_eq!(action, Action::Nothing);
}

#[test]
fn failed_delete_is_reported_and_not_retried() {
    let (state, action) = step(fetching(), Event::Fetched(Ok(target("hello world", &[]))));
    assert!(matches!(action, Action::Publish { .. }));
    let (state, action) = step(state, Event::Published(Ok(())));
    assert_eq!(action, Action::Delete { channel_id: 7, message_id: 9 });
    let (state, action) = step(state, Event::Deleted(Err(PlatformError::Permission)));
    assert_eq!(state, Invocation::Done);
    assert_eq!(action, Action::Report(PlatformError::Permission));
    let (state, action) = step(state, Event::Deleted(Err(PlatformError::Permission)));
    assert_eq!(state, Invocation::Done);
    assert_eq!(action, Action::Nothing);
}

#[test]
fn unexpected_event_changes_nothing() {
    let (state, action) = step(fetching(), Event::Downloaded(Ok(vec![1])));
    assert_eq!(state, fetching());
    assert_eq!(action, Action::Nothing);
    let (state, action) = step(state, Event::Created(chat("!spoilme", reply_to(1, 2))));
    assert_eq!(state, fetching());
    assert_eq!(action, Action::Nothing);
    let (state, action) = step(Invocation::new(), Event::Fetched(Ok(target("x", &[]))));
    assert_eq!(state, Invocation::Idle);
    assert_eq!(action, Action::Nothing);
    let (state, action) =
        step(Invocation::Deleting { channel_id: 1, message_id: 2 }, Event::Published(Ok(())));
    assert_eq!(state, Invocation::Deleting { channel_id: 1, message_id: 2 });
    assert_eq!(action, Action::Nothing);
}

#[test]
fn publish_goes_to_channel_of_target() {
    let mut t = target("x", &[]);
    t.channel_id = 70;
    t.message_id = 90;
    let (state, action) = step(fetching(), Event::Fetched(Ok(t)));
    assert_eq!(state, Invocation::Publishing { channel_id: 70, message_id: 90 });
    assert!(matches!(action, Action::Publish { channel_id: 70, .. }));
}

#[test]
fn edited_target_is_published_with_edit_note() {
    let mut t = target("hi", &[]);
    t.edited = Some(1700000100);
    let (_, action) = step(fetching(), Event::Fetched(Ok(t)));
    match action {
        Action::Publish { message, .. } => assert_eq!(
            message.body,
            "<@42>\n_ <t:1700000000> (edited at <t:1700000100>)_\n> hi"
        ),
        other => panic!("unexpected action {:?}", other),
    }
}
