use mcp_channel::fragment::ContextualUserFragment;
use mcp_channel::mailbox::{Mailbox, MailboxItem, PendingMails};
use mcp_channel::mcp_channel_message::McpChannelMessage;
use mcp_channel::protocol::{
    ContentItem, InboundMcpChannelMessage, InterAgentCommunication, ResponseInputItem,
};

fn make_mail(
    author: &str,
    recipient: &str,
    content: &str,
    trigger_turn: bool,
) -> InterAgentCommunication {
    InterAgentCommunication::new(
        author.to_string(),
        recipient.to_string(),
        Vec::new(),
        content.to_string(),
        trigger_turn,
    )
}

fn make_channel_message(content: &str, trigger_turn: bool) -> InboundMcpChannelMessage {
    InboundMcpChannelMessage {
        server_name: "linear".to_string(),
        content: content.to_string(),
        metadata: None,
        received_at: 1_726_000_001,
        trigger_turn,
    }
}

fn block_on<F: std::future::Future>(future: F) -> F::Output {
    tokio::runtime::Builder::new_current_thread()
        .build()
        .expect("runtime")
        .block_on(future)
}

#[test]
fn mailbox_assigns_monotonic_sequence_numbers() {
    let (mut mailbox, _receiver) = Mailbox::new();
    let mut seq_rx = mailbox.subscribe();

    let seq_a = mailbox.send(make_mail(
        "/root",
        "/root/worker",
        "one",
        /*trigger_turn*/ false,
    ));
    let seq_b = mailbox.send(make_mail(
        "/root",
        "/root/worker",
        "two",
        /*trigger_turn*/ false,
    ));

    block_on(async { seq_rx.changed().await.expect("first seq update") });
    assert_eq!(*seq_rx.borrow(), seq_b);
    assert_eq!(seq_a, 1);
    assert_eq!(seq_b, 2);
}

#[test]
fn mailbox_drains_in_delivery_order() {
    let (mut mailbox, mut receiver) = Mailbox::new();
    let mail_one = make_mail("/root", "/root/worker", "one", /*trigger_turn*/ false);
    let mail_two = make_mail("/root/worker", "/root", "two", /*trigger_turn*/ false);

    mailbox.send(mail_one.clone());
    mailbox.send(mail_two.clone());

    assert_eq!(
        receiver.drain(),
        vec![
            MailboxItem::InterAgent(mail_one),
            MailboxItem::InterAgent(mail_two)
        ]
    );
    assert!(!receiver.has_pending());
}

#[test]
fn mailbox_drains_mixed_items_in_delivery_order() {
    let (mut mailbox, mut receiver) = Mailbox::new();
    let mail = make_mail(
        "/root",
        "/root/worker",
        "inter-agent",
        /*trigger_turn*/ false,
    );
    let channel_message = make_channel_message("mcp channel", /*trigger_turn*/ false);

    mailbox.send(mail.clone());
    mailbox.send(channel_message.clone());

    assert_eq!(
        receiver.drain(),
        vec![
            MailboxItem::InterAgent(mail),
            MailboxItem::McpChannel(channel_message)
        ]
    );
}

#[test]
fn mailbox_tracks_pending_trigger_turn_mail() {
    let (mut mailbox, mut receiver) = Mailbox::new();

    mailbox.send(make_mail(
        "/root",
        "/root/worker",
        "queued",
        /*trigger_turn*/ false,
    ));
    assert!(!receiver.has_pending_trigger_turn());

    mailbox.send(make_mail(
        "/root",
        "/root/worker",
        "wake",
        /*trigger_turn*/ true,
    ));
    assert!(receiver.has_pending_trigger_turn());
}

#[test]
fn mailbox_tracks_pending_trigger_turn_channel_message() {
    let (mut mailbox, mut receiver) = Mailbox::new();

    mailbox.send(make_channel_message("queued", /*trigger_turn*/ false));
    assert!(!receiver.has_pending_trigger_turn());

    mailbox.send(make_channel_message("wake", /*trigger_turn*/ true));
    assert!(receiver.has_pending_trigger_turn());
}

#[test]
fn inter_agent_item_converts_to_existing_assistant_envelope() {
    let mail = make_mail("/root", "/root/worker", "hello", /*trigger_turn*/ false);

    assert_eq!(
        MailboxItem::InterAgent(mail.clone()).to_response_input_item(),
        mail.to_response_input_item()
    );
}

#[test]
fn mcp_channel_item_converts_to_user_input_text_fragment() {
    let channel_message = make_channel_message("mcp channel", /*trigger_turn*/ true);

    let item = MailboxItem::McpChannel(channel_message).to_response_input_item();

    let ResponseInputItem::Message { role, content } = item;
    assert_eq!(role, "user");
    let [ContentItem::InputText { text }] = content.as_slice() else {
        panic!("expected one input_text item, got {content:#?}");
    };
    assert!(text.starts_with("<mcp_channel_message>"));
    assert!(text.ends_with("</mcp_channel_message>"));
    assert!(!text.contains("trigger_turn"));
    assert!(InterAgentCommunication::from_message_content(&content).is_none());
}

#[test]
fn drains_in_a_row_miss_nothing_and_repeat_nothing() {
    let (mut mailbox, mut receiver) = Mailbox::new();
    let one = make_channel_message("one", false);
    let two = make_channel_message("two", false);
    let three = make_mail("/root", "/root/worker", "three", true);

    assert_eq!(receiver.drain(), vec![]);
    mailbox.send(one.clone());
    mailbox.send(two.clone());
    assert!(receiver.has_pending());
    assert_eq!(
        receiver.drain(),
        vec![MailboxItem::McpChannel(one), MailboxItem::McpChannel(two)]
    );
    mailbox.send(three.clone());
    assert_eq!(receiver.drain(), vec![MailboxItem::InterAgent(three)]);
    assert_eq!(receiver.drain(), vec![]);
    assert!(!receiver.has_pending_trigger_turn());
}

#[test]
fn all_drains_together_give_all_that_was_sent() {
    let (mut mailbox, mut receiver) = Mailbox::new();
    let mut sent: Vec<MailboxItem> = Vec::new();
    let mut drained: Vec<MailboxItem> = Vec::new();
    for round in 0..4 {
        for n in 0..round {
            let message = make_channel_message(&format!("{round}/{n}"), n == 1);
            sent.push(MailboxItem::McpChannel(message.clone()));
            mailbox.send(message);
            receiver.has_pending();
        }
        drained.extend(receiver.drain());
        let mail = make_mail("/root", "/root/worker", &format!("{round}"), false);
        sent.push(MailboxItem::InterAgent(mail.clone()));
        mailbox.send(mail);
    }
    drained.extend(receiver.drain_sent(&mailbox));
    assert_eq!(sent.len(), 10);
    assert_eq!(drained, sent);
    assert_eq!(receiver.drain_sent(&mailbox), vec![]);
}

#[test]
fn everything_sent_is_pending_until_it_is_drained() {
    let (mut mailbox, mut receiver) = Mailbox::new();
    assert!(!receiver.has_pending_sent(&mailbox));
    assert!(!receiver.has_pending_trigger_turn_sent(&mailbox));
    mailbox.send(make_channel_message("quiet", false));
    assert!(receiver.has_pending_sent(&mailbox));
    assert!(!receiver.has_pending_trigger_turn_sent(&mailbox));
    mailbox.send(make_channel_message("loud", true));
    assert!(receiver.has_pending_trigger_turn_sent(&mailbox));
    assert_eq!(receiver.drain_sent(&mailbox).len(), 2);
    assert!(!receiver.has_pending_sent(&mailbox));
    assert!(!receiver.has_pending_trigger_turn_sent(&mailbox));
}

#[test]
fn questions_foretell_the_drain_and_change_nothing() {
    for (loud, count) in [(false, 0), (false, 2), (true, 3)] {
        let (mut mailbox, mut receiver) = Mailbox::new();
        let (mut twin, mut unasked) = Mailbox::new();
        for n in 0..count {
            mailbox.send(make_channel_message("mail", loud && n == 1));
            twin.send(make_channel_message("mail", loud && n == 1));
        }
        for _ in 0..3 {
            assert_eq!(receiver.has_pending(), count > 0);
            assert_eq!(receiver.has_pending_trigger_turn(), loud);
        }
        assert_eq!(receiver.drain(), unasked.drain());
        assert!(!receiver.has_pending());
        assert!(!receiver.has_pending_trigger_turn());
    }
}

#[test]
fn waking_mail_wakes_until_it_is_drained() {
    let (mut mailbox, mut receiver) = Mailbox::new();
    mailbox.send(make_mail("/root", "/root/worker", "wake", true));
    assert!(receiver.has_pending_trigger_turn());
    mailbox.send(make_channel_message("quiet", false));
    assert!(receiver.has_pending_trigger_turn());
    assert!(receiver.has_pending());
    assert_eq!(receiver.drain().len(), 2);
    mailbox.send(make_channel_message("quiet again", false));
    assert!(!receiver.has_pending_trigger_turn());
    assert!(receiver.has_pending());
}

#[test]
fn a_foreign_mailbox_adds_nothing() {
    let (mut mailbox, mut receiver) = Mailbox::new();
    let (mut other, _other_receiver) = Mailbox::new();
    other.send(make_channel_message("elsewhere", true));
    other.send(make_channel_message("elsewhere too", true));
    assert!(!receiver.has_pending_sent(&other));
    mailbox.send(make_channel_message("here", false));
    assert_eq!(
        receiver.drain_sent(&other),
        vec![MailboxItem::McpChannel(make_channel_message("here", false))]
    );
}

#[test]
fn whoever_an_announcement_wakes_finds_the_item() {
    let (mut mailbox, mut receiver) = Mailbox::new();
    let mut seq_rx = mailbox.subscribe();
    mailbox.send(make_channel_message("one", true));
    block_on(async { seq_rx.changed().await.expect("seq update") });
    assert_eq!(*seq_rx.borrow(), 1);
    assert!(receiver.has_pending_trigger_turn());
}

#[test]
fn a_looked_at_item_stays_pending() {
    let (mut mailbox, mut receiver) = Mailbox::new();
    assert!(!receiver.has_pending());
    mailbox.send(make_channel_message("wake", true));
    assert!(receiver.has_pending());
    assert!(receiver.has_pending_trigger_turn());
    assert!(receiver.has_pending());
    assert_eq!(receiver.drain().len(), 1);
}

#[test]
fn a_subscription_starts_with_the_latest_number() {
    let (mut mailbox, _receiver) = Mailbox::new();
    let early = mailbox.subscribe();
    assert_eq!(*early.borrow(), 0);
    assert!(!early.has_changed().expect("open"));
    assert_eq!(mailbox.send(make_channel_message("one", false)), 1);
    let late = mailbox.subscribe();
    assert_eq!(*late.borrow(), 1);
    assert!(!late.has_changed().expect("open"));
    assert!(early.has_changed().expect("open"));
    assert_eq!(mailbox.send(make_channel_message("two", false)), 2);
    assert!(late.has_changed().expect("open"));
    assert_eq!(*early.borrow(), 2);
    assert_eq!(*late.borrow(), 2);
}

#[test]
fn numbers_go_on_when_the_receiver_is_gone() {
    let (mut mailbox, receiver) = Mailbox::new();
    drop(receiver);
    assert_eq!(mailbox.send(make_channel_message("one", false)), 1);
    assert_eq!(mailbox.send(make_channel_message("two", false)), 2);
    assert_eq!(*mailbox.subscribe().borrow(), 2);
}

#[test]
fn mail_outlives_the_sender() {
    let (mut mailbox, mut receiver) = Mailbox::new();
    mailbox.send(make_channel_message("last words", false));
    drop(mailbox);
    assert_eq!(receiver.drain().len(), 1);
    assert!(!receiver.has_pending());
}

#[test]
fn pending_mails_keep_their_order() {
    let quiet = MailboxItem::McpChannel(make_channel_message("quiet", false));
    let loud = MailboxItem::InterAgent(make_mail("/root", "/root/worker", "loud", true));
    let mut pending = PendingMails::new();
    assert!(pending.is_empty());
    assert!(!pending.any_trigger_turn());
    pending.push(quiet.clone());
    assert!(!pending.any_trigger_turn());
    pending.push(loud.clone());
    assert!(pending.any_trigger_turn());
    assert!(!pending.is_empty());
    assert_eq!(pending.drain(), vec![quiet, loud]);
    assert!(pending.is_empty());
}

#[test]
fn items_know_whether_they_wake() {
    assert!(MailboxItem::from(make_channel_message("a", true)).trigger_turn());
    assert!(!MailboxItem::from(make_channel_message("a", false)).trigger_turn());
    assert!(MailboxItem::from(make_mail("/root", "/root/worker", "a", true)).trigger_turn());
    assert!(!MailboxItem::from(make_mail("/root", "/root/worker", "a", false)).trigger_turn());
}

#[test]
fn channel_item_is_shown_as_the_rendered_fragment() {
    let message = make_channel_message("mcp channel", false);
    let ResponseInputItem::Message { content, .. } =
        MailboxItem::McpChannel(message.clone()).to_response_input_item();
    assert_eq!(
        content,
        vec![ContentItem::InputText {
            text: McpChannelMessage { message }.render(),
        }]
    );
}

#[test]
fn cloned_channel_message_is_equal() {
    let mut message = make_channel_message("copy me", true);
    message.metadata = Some(serde_json::from_str(r#"{"a": [1, 2.5, null]}"#).expect("JSON"));
    assert_eq!(message.clone(), message);
}
