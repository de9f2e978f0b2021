//! The mailbox of an agent: a sending end that numbers what it sends, and a receiving end that
//! keeps what has arrived until it is drained.

use crate::channel::{announce, new_queue, new_watch, send_item, subscribe_to, try_take};
use crate::fragment::{rendered, ContextualUserFragment};
use crate::inter_agent::{
    envelope, law_agent_messages_are_told_apart, law_channel_fragment_is_no_envelope,
    law_envelope_holds_the_message, message_envelope,
};
use crate::json::{
    is_one_line, is_plain, json_parse, json_text, json_view, parse_depth, parsed_json, JsonView,
};
use crate::mcp_channel_message::{
    law_payload_line_reads_as_the_message, law_payload_members, law_plain_metadata_reads_back,
    law_rendered_as_the_message, law_trigger_turn_is_not_shown, McpChannelMessage,
};
use crate::protocol::{
    is_input_text, is_output_text, ContentItem, InboundMcpChannelMessage, InterAgentCommunication,
    ResponseInputItem,
};
use std::collections::VecDeque;
use tokio::sync::mpsc::{UnboundedReceiver, UnboundedSender};
use tokio::sync::watch;
use vstd::prelude::*;
use vstd::std_specs::convert::{FromSpecImpl, IntoSpec};

verus! {

/// One item of mail.
#[derive(Debug, Clone, PartialEq)]
pub enum MailboxItem {
    /// A message from another agent.
    InterAgent(InterAgentCommunication),
    /// A message from an MCP server.
    McpChannel(InboundMcpChannelMessage),
}

impl MailboxItem {
    /// Whether the item wakes an idle session.
    pub open spec fn wakes(self) -> bool {
        match self {
            MailboxItem::InterAgent(communication) => communication.trigger_turn,
            MailboxItem::McpChannel(message) => message.trigger_turn,
        }
    }

    /// Whether the item wakes an idle session.
    pub fn trigger_turn(&self) -> (wakes: bool)
        ensures
            wakes == self.wakes(),
    {
        match self {
            MailboxItem::InterAgent(communication) => communication.trigger_turn,
            MailboxItem::McpChannel(message) => message.trigger_turn,
        }
    }

    /// `item` is this mail as input of a turn: a message from an agent in its envelope, a message
    /// from an MCP server as a fragment of context, which cannot be taken for an envelope.
    pub open spec fn is_shown_as(self, item: ResponseInputItem) -> bool {
        item matches ResponseInputItem::Message { role, content } && match self {
            MailboxItem::InterAgent(communication) => {
                &&& role@ == "assistant"@
                &&& is_output_text(content@, json_text(envelope(communication@)))
                &&& is_one_line(json_text(envelope(communication@)))
                &&& json_parse(json_text(envelope(communication@))) == Some(
                    envelope(communication@),
                )
                &&& message_envelope(content@) == Some(communication@)
            },
            MailboxItem::McpChannel(message) => {
                &&& role@ == "user"@
                &&& is_input_text(content@, rendered(McpChannelMessage { message }))
                &&& McpChannelMessage { message }.reads_back_from(
                    rendered(McpChannelMessage { message }),
                )
                &&& message_envelope(content@) is None
            },
        }
    }

    /// The item as input of a turn.
    pub fn to_response_input_item(&self) -> (item: ResponseInputItem)
        ensures
            self.is_shown_as(item),
    {
        match self {
            MailboxItem::InterAgent(communication) => communication.to_response_input_item(),
            MailboxItem::McpChannel(message) => {
                let fragment = McpChannelMessage { message: message.clone() };
                let mut content: Vec<ContentItem> = Vec::new();
                content.push(ContentItem::InputText { text: fragment.render() });
                proof {
                    let shown = McpChannelMessage { message: *message };
                    law_trigger_turn_is_not_shown(fragment, shown);
                    law_channel_fragment_is_no_envelope(shown, content@);
                }
                ResponseInputItem::Message { role: "user".to_owned(), content }
            },
        }
    }
}

impl From<InterAgentCommunication> for MailboxItem {
    fn from(value: InterAgentCommunication) -> (item: Self) {
        MailboxItem::InterAgent(value)
    }
}

impl FromSpecImpl<InterAgentCommunication> for MailboxItem {
    open spec fn obeys_from_spec() -> bool {
        true
    }

    open spec fn from_spec(value: InterAgentCommunication) -> Self {
        MailboxItem::InterAgent(value)
    }
}

impl From<InboundMcpChannelMessage> for MailboxItem {
    fn from(value: InboundMcpChannelMessage) -> (item: Self) {
        MailboxItem::McpChannel(value)
    }
}

impl FromSpecImpl<InboundMcpChannelMessage> for MailboxItem {
    open spec fn obeys_from_spec() -> bool {
        true
    }

    open spec fn from_spec(value: InboundMcpChannelMessage) -> Self {
        MailboxItem::McpChannel(value)
    }
}

/// The sending end of a mailbox.
pub struct Mailbox {
    tx: UnboundedSender<MailboxItem>,
    next_seq: u64,
    seq_tx: watch::Sender<u64>,
}

/// Mail that has arrived and waits to be drained, first to last.
pub struct PendingMails {
    mails: VecDeque<MailboxItem>,
}

impl View for PendingMails {
    type V = Seq<MailboxItem>;

    closed spec fn view(&self) -> Seq<MailboxItem> {
        self.mails@
    }
}

/// An item among `mails` wakes an idle session.
pub open spec fn any_wakes(mails: Seq<MailboxItem>) -> bool {
    exists|i: int| 0 <= i < mails.len() && (#[trigger] mails[i]).wakes()
}

impl PendingMails {
    /// No mail.
    pub fn new() -> (pending: PendingMails)
        ensures
            pending@ == Seq::<MailboxItem>::empty(),
    {
        PendingMails { mails: VecDeque::new() }
    }

    /// Adds an item behind the others.
    pub fn push(&mut self, mail: MailboxItem)
        ensures
            final(self)@ == old(self)@.push(mail),
    {
        self.mails.push_back(mail);
    }

    /// Whether there is no mail.
    pub fn is_empty(&self) -> (empty: bool)
        ensures
            empty == (self@.len() == 0),
    {
        self.mails.len() == 0
    }

    /// Whether an item wakes an idle session.
    pub fn any_trigger_turn(&self) -> (any: bool)
        ensures
            any == any_wakes(self@),
    {
        let mut i: usize = 0;
        while i < self.mails.len()
            invariant
                i <= self@.len(),
                forall|j: int| 0 <= j < i ==> !(#[trigger] self@[j]).wakes(),
            decreases self@.len() - i,
        {
            if self.mails[i].trigger_turn() {
                assert(self@[i as int].wakes());
                return true;
            }
            i = i + 1;
        }
        false
    }

    /// Takes all the mail, first to last.
    pub fn drain(&mut self) -> (mails: Vec<MailboxItem>)
        ensures
            mails@ == old(self)@,
            final(self)@ == Seq::<MailboxItem>::empty(),
    {
        let mut mails: Vec<MailboxItem> = Vec::new();
        loop
            invariant
                mails@ + self@ == old(self)@,
            ensures
                mails@ == old(self)@,
                self@ == Seq::<MailboxItem>::empty(),
            decreases self@.len(),
        {
            match self.mails.pop_front() {
                Some(mail) => {
                    mails.push(mail);
                },
                None => {
                    break;
                },
            }
        }
        mails
    }
}

/// The receiving end of a mailbox.
pub struct MailboxReceiver {
    rx: UnboundedReceiver<MailboxItem>,
    pending_mails: PendingMails,
}

/// The two ends of a mailbox through which nothing has passed yet.
pub open spec fn is_new_pair(mailbox: Mailbox, receiver: MailboxReceiver) -> bool {
    &&& mailbox.wf()
    &&& mailbox.last_seq() == 0
    &&& receiver.wf()
    &&& receiver.taken() == 0
    &&& receiver.rounds() == 0
    &&& receiver.pending() == Seq::<MailboxItem>::empty()
    &&& receiver.items() == mailbox.items()
    &&& receiver.queue() == mailbox.queue()
}

impl Mailbox {
    /// Which queue the mailbox sends through. The other end of the mailbox has the same.
    pub closed spec fn queue(self) -> int {
        crate::channel::queue_of(self.tx)
    }

    /// Everything that is sent through the mailbox in its whole life, first to last. Both ends
    /// share it, and neither changes it: each gets further along in it.
    pub closed spec fn items(self) -> Seq<MailboxItem> {
        crate::channel::carried_from(self.tx)
    }

    /// The sequence number of the last item sent, which is the number of items sent.
    pub closed spec fn last_seq(self) -> u64 {
        self.next_seq
    }

    /// The sequence numbers that the mailbox announces, first to last; 0 stands for none yet.
    pub closed spec fn announcements(self) -> Seq<u64> {
        crate::channel::watch_values(self.seq_tx)
    }

    /// The sequence numbers count the items sent, and the announcements made count along.
    pub closed spec fn wf(self) -> bool {
        &&& crate::channel::sent_count(self.tx) == self.next_seq
        &&& crate::channel::watch_position(self.seq_tx) == self.next_seq
        &&& self.next_seq <= self.items().len()
        &&& self.next_seq < self.announcements().len()
        &&& forall|i: int| 0 <= i <= self.next_seq ==> self.announcements()[i] == i
    }

    /// `self` is `before` after `item` was sent: the item is the next one of the mailbox, and its
    /// number the next announcement.
    pub open spec fn after_send(self, before: Mailbox, item: MailboxItem) -> bool {
        &&& self.wf()
        &&& self.queue() == before.queue()
        &&& self.items() == before.items()
        &&& self.announcements() == before.announcements()
        &&& self.last_seq() == before.last_seq() + 1
        &&& self.last_seq() <= self.items().len()
        &&& self.items()[before.last_seq() as int] == item
        &&& self.announcements()[self.last_seq() as int] == self.last_seq()
    }

    /// A new mailbox, with nothing sent and nothing received.
    pub fn new() -> (ends: (Mailbox, MailboxReceiver))
        ensures
            is_new_pair(ends.0, ends.1),
    {
        let (tx, rx) = new_queue();
        let seq_tx = new_watch(0);
        let receiver = MailboxReceiver { rx, pending_mails: PendingMails::new() };
        assert(receiver.pending() =~= receiver.items().subrange(0, 0));
        (Mailbox { tx, next_seq: 0, seq_tx }, receiver)
    }

    /// The sequence number of the last item sent, 0 if there is none.
    pub fn latest_seq(&self) -> (seq: u64)
        ensures
            seq == self.last_seq(),
    {
        self.next_seq
    }

    /// A subscription to the sequence numbers of the items as they are sent.
    pub fn subscribe(&self) -> (subscription: watch::Receiver<u64>)
        requires
            self.wf(),
        ensures
            crate::channel::subscribed_values(subscription) == self.announcements(),
            crate::channel::seen_position(subscription) == self.last_seq(),
    {
        subscribe_to(&self.seq_tx)
    }

    /// Sends an item and announces its sequence number, which is returned.
    pub fn send<I: Into<MailboxItem>>(&mut self, item: I) -> (seq: u64)
        requires
            old(self).wf(),
            old(self).last_seq() < u64::MAX,
        ensures
            seq == old(self).last_seq() + 1,
            final(self).after_send(*old(self), final(self).items()[seq - 1]),
            call_ensures(I::into, (item,), final(self).items()[seq - 1]),
            I::obeys_into_spec() ==> final(self).items()[seq - 1] == item.into_spec(),
    {
        let seq: u64 = self.next_seq + 1;
        self.next_seq = seq;
        send_item(&mut self.tx, item.into());
        announce(&mut self.seq_tx, seq, &self.tx);
        seq
    }
}

impl MailboxReceiver {
    /// Which queue the mailbox receives from.
    pub closed spec fn queue(self) -> int {
        crate::channel::queue_to(self.rx)
    }

    /// Everything that is sent through the mailbox in its whole life, first to last. Both ends
    /// share it, and neither changes it: each gets further along in it.
    pub closed spec fn items(self) -> Seq<MailboxItem> {
        crate::channel::carried_to(self.rx)
    }

    /// How many items have arrived.
    pub closed spec fn taken(self) -> nat {
        crate::channel::taken_count(self.rx)
    }

    /// How often everything that had arrived was taken in, until there was no more.
    pub closed spec fn rounds(self) -> nat {
        crate::channel::found_empty(self.rx).len()
    }

    /// How many items had been sent when last there was no more.
    pub closed spec fn seen(self) -> nat {
        crate::channel::found_empty(self.rx).last()
    }

    /// The items that have arrived and are not yet drained, in the order of their arrival.
    pub closed spec fn pending(self) -> Seq<MailboxItem> {
        self.pending_mails@
    }

    /// How many items have been drained.
    pub open spec fn drained(self) -> int {
        self.taken() - self.pending().len()
    }

    /// What is pending is the last part of what has arrived.
    pub open spec fn wf(self) -> bool {
        &&& 0 <= self.drained()
        &&& self.taken() <= self.items().len()
        &&& self.pending() == self.items().subrange(self.drained(), self.taken() as int)
    }

    /// `self` is `before` after all that had been sent by then was taken in.
    pub open spec fn after_arrivals(self, before: MailboxReceiver) -> bool {
        &&& self.wf()
        &&& self.rounds() == before.rounds() + 1
        &&& self.queue() == before.queue()
        &&& self.items() == before.items()
        &&& self.drained() == before.drained()
        &&& self.taken() >= before.taken()
        &&& self.taken() == self.seen()
    }

    /// `self` is `before` after all that had been sent by then was taken in and drained: `mails` is
    /// what `before` had pending and what came in, first to last.
    pub open spec fn after_drain(self, before: MailboxReceiver, mails: Seq<MailboxItem>) -> bool {
        &&& self.wf()
        &&& self.rounds() == before.rounds() + 1
        &&& self.queue() == before.queue()
        &&& self.items() == before.items()
        &&& self.taken() >= before.taken()
        &&& self.taken() == self.seen()
        &&& self.pending() == Seq::<MailboxItem>::empty()
        &&& mails == before.items().subrange(before.drained(), self.taken() as int)
    }

    /// Everything that `mailbox` has sent has come through, if the two are ends of one mailbox.
    pub open spec fn has_all_from(self, mailbox: Mailbox) -> bool {
        self.queue() == mailbox.queue() ==> self.taken() == mailbox.last_seq()
    }

    /// Adds what has come through the queue to what is pending. With the sending end at hand,
    /// nothing is sent meanwhile, and that is everything that it has sent.
    fn sync_pending_mails(&mut self, mailbox: Option<&Mailbox>)
        requires
            old(self).wf(),
            mailbox is Some ==> mailbox->0.wf(),
        ensures
            final(self).after_arrivals(*old(self)),
            mailbox is Some ==> final(self).has_all_from(*mailbox->0),
    {
        let sender = match mailbox {
            Some(mailbox) => Some(&mailbox.tx),
            None => None,
        };
        loop
            invariant
                sender is Some == mailbox is Some,
                mailbox is Some ==> mailbox->0.wf() && *sender->0 == mailbox->0.tx,
                self.wf(),
                self.rounds() == old(self).rounds(),
                self.queue() == old(self).queue(),
                self.items() == old(self).items(),
                self.drained() == old(self).drained(),
                self.taken() >= old(self).taken(),
            decreases self.items().len() - self.taken(),
        {
            match try_take(&mut self.rx, sender) {
                Some(mail) => {
                    self.pending_mails.push(mail);
                    assert(self.pending() =~= self.items().subrange(
                        self.drained(),
                        self.taken() as int,
                    ));
                },
                None => {
                    return;
                },
            }
        }
    }

    /// Takes everything that is pending already, first to last.
    fn take_pending(&mut self) -> (mails: Vec<MailboxItem>)
        requires
            old(self).wf(),
        ensures
            final(self).wf(),
            final(self).rounds() == old(self).rounds(),
            final(self).seen() == old(self).seen(),
            final(self).queue() == old(self).queue(),
            final(self).items() == old(self).items(),
            final(self).taken() == old(self).taken(),
            final(self).pending() == Seq::<MailboxItem>::empty(),
            mails@ == old(self).pending(),
    {
        let mails = self.pending_mails.drain();
        assert(self.pending() =~= self.items().subrange(
            self.taken() as int,
            self.taken() as int,
        ));
        mails
    }

    /// Whether an item is pending, of all that had been sent when the call found no more. How much
    /// that is, is left unsaid, as nothing here shows how far the sending end is.
    pub fn has_pending(&mut self) -> (any: bool)
        requires
            old(self).wf(),
        ensures
            final(self).after_arrivals(*old(self)),
            any == (final(self).pending().len() > 0),
    {
        self.sync_pending_mails(None);
        !self.pending_mails.is_empty()
    }

    /// Whether an item is pending that wakes an idle session, of all that had been sent when the
    /// call found no more. How much that is, is left unsaid.
    pub fn has_pending_trigger_turn(&mut self) -> (any: bool)
        requires
            old(self).wf(),
        ensures
            final(self).after_arrivals(*old(self)),
            any == any_wakes(final(self).pending()),
    {
        self.sync_pending_mails(None);
        self.pending_mails.any_trigger_turn()
    }

    /// Takes everything that is pending, first to last, of all that had been sent when the call
    /// found no more. How much that is, is left unsaid.
    pub fn drain(&mut self) -> (mails: Vec<MailboxItem>)
        requires
            old(self).wf(),
        ensures
            final(self).after_drain(*old(self), mails@),
    {
        self.sync_pending_mails(None);
        self.take_pending()
    }

    /// Whether an item is pending, of everything that `mailbox` has sent. The mailbox is borrowed,
    /// so nothing is sent meanwhile.
    pub fn has_pending_sent(&mut self, mailbox: &Mailbox) -> (any: bool)
        requires
            old(self).wf(),
            mailbox.wf(),
        ensures
            final(self).after_arrivals(*old(self)),
            final(self).has_all_from(*mailbox),
            any == (final(self).pending().len() > 0),
            old(self).queue() == mailbox.queue() ==> any == (old(self).drained()
                < mailbox.last_seq()),
    {
        self.sync_pending_mails(Some(mailbox));
        !self.pending_mails.is_empty()
    }

    /// Whether an item is pending that wakes an idle session, of everything that `mailbox` has
    /// sent. The mailbox is borrowed, so nothing is sent meanwhile.
    pub fn has_pending_trigger_turn_sent(&mut self, mailbox: &Mailbox) -> (any: bool)
        requires
            old(self).wf(),
            mailbox.wf(),
        ensures
            final(self).after_arrivals(*old(self)),
            final(self).has_all_from(*mailbox),
            any == any_wakes(final(self).pending()),
            old(self).queue() == mailbox.queue() ==> any == any_wakes(
                old(self).items().subrange(old(self).drained(), mailbox.last_seq() as int),
            ),
    {
        self.sync_pending_mails(Some(mailbox));
        self.pending_mails.any_trigger_turn()
    }

    /// Takes everything that `mailbox` has sent and that is not yet drained, first to last. The
    /// mailbox is borrowed, so nothing is sent meanwhile.
    pub fn drain_sent(&mut self, mailbox: &Mailbox) -> (mails: Vec<MailboxItem>)
        requires
            old(self).wf(),
            mailbox.wf(),
        ensures
            final(self).after_drain(*old(self), mails@),
            final(self).has_all_from(*mailbox),
            old(self).queue() == mailbox.queue() ==> mails@ == old(self).items().subrange(
                old(self).drained(),
                mailbox.last_seq() as int,
            ),
    {
        self.sync_pending_mails(Some(mailbox));
        self.take_pending()
    }
}

/// One call on a mailbox, with what it was given or gave back.
pub enum MailboxEvent {
    /// An item was sent.
    Sent(MailboxItem),
    /// It was asked whether something is pending.
    HasPending(bool),
    /// It was asked whether something is pending that wakes an idle session.
    HasPendingTriggerTurn(bool),
    /// Mail was drained.
    Drained(Seq<MailboxItem>),
}

impl MailboxEvent {
    /// The call only asks.
    pub open spec fn is_question(self) -> bool {
        self is HasPending || self is HasPendingTriggerTurn
    }
}

/// What a call leaves of the receiving end, as the contract of the call says.
pub open spec fn is_call(
    before: MailboxReceiver,
    event: MailboxEvent,
    after: MailboxReceiver,
) -> bool {
    match event {
        MailboxEvent::Sent(_) => after == before,
        MailboxEvent::HasPending(any) => after.after_arrivals(before) && any == (
        after.pending().len() > 0),
        MailboxEvent::HasPendingTriggerTurn(any) => after.after_arrivals(before) && any
            == any_wakes(after.pending()),
        MailboxEvent::Drained(mails) => after.after_drain(before, mails),
    }
}

/// What a call leaves of the two ends of a mailbox, where no other call on either of them takes
/// place meanwhile: when the receiving end finds no more, what had been sent is what the sending
/// end has sent.
pub open spec fn is_step(
    mailbox: Mailbox,
    receiver: MailboxReceiver,
    event: MailboxEvent,
    next_mailbox: Mailbox,
    next_receiver: MailboxReceiver,
) -> bool {
    &&& is_call(receiver, event, next_receiver)
    &&& match event {
        MailboxEvent::Sent(item) => next_mailbox.after_send(mailbox, item),
        _ => next_mailbox == mailbox && next_receiver.seen() == mailbox.last_seq(),
    }
}

/// `events` are calls on one mailbox, one after the other, from its beginning; `mailboxes` and
/// `receivers` are its two ends before the first call and after each.
pub open spec fn is_run(
    mailboxes: Seq<Mailbox>,
    receivers: Seq<MailboxReceiver>,
    events: Seq<MailboxEvent>,
) -> bool {
    &&& mailboxes.len() == events.len() + 1
    &&& receivers.len() == events.len() + 1
    &&& is_new_pair(mailboxes[0], receivers[0])
    &&& forall|i: int|
        0 <= i < events.len() ==> is_step(
            mailboxes[i],
            receivers[i],
            #[trigger] events[i],
            mailboxes[i + 1],
            receivers[i + 1],
        )
}

/// The items that were sent, in the order of the calls.
pub open spec fn all_sent(events: Seq<MailboxEvent>) -> Seq<MailboxItem>
    decreases events.len(),
{
    if events.len() == 0 {
        Seq::empty()
    } else {
        match events.last() {
            MailboxEvent::Sent(item) => all_sent(events.drop_last()).push(item),
            _ => all_sent(events.drop_last()),
        }
    }
}

/// What the drains gave, one after the other.
pub open spec fn all_drained(events: Seq<MailboxEvent>) -> Seq<MailboxItem>
    decreases events.len(),
{
    if events.len() == 0 {
        Seq::empty()
    } else {
        match events.last() {
            MailboxEvent::Drained(mails) => all_drained(events.drop_last()) + mails,
            _ => all_drained(events.drop_last()),
        }
    }
}

/// The items that were sent and not yet drained, in the order in which they were sent.
pub open spec fn undrained(events: Seq<MailboxEvent>) -> Seq<MailboxItem> {
    all_sent(events).skip(all_drained(events).len() as int)
}

/// The first calls of a run are a run.
proof fn lemma_run_prefix(
    mailboxes: Seq<Mailbox>,
    receivers: Seq<MailboxReceiver>,
    events: Seq<MailboxEvent>,
    n: int,
)
    requires
        is_run(mailboxes, receivers, events),
        0 <= n <= events.len(),
    ensures
        is_run(mailboxes.take(n + 1), receivers.take(n + 1), events.take(n)),
{
    assert forall|i: int| 0 <= i < n implies is_step(
        mailboxes.take(n + 1)[i],
        receivers.take(n + 1)[i],
        #[trigger] events.take(n)[i],
        mailboxes.take(n + 1)[i + 1],
        receivers.take(n + 1)[i + 1],
    ) by {
        assert(events[i] == events.take(n)[i]);
    }
}

/// At any time, whatever the calls were, the drains have given, one after the other, the first of
/// the items that were sent, in the order in which they were sent; the two ends stay joined.
pub proof fn law_drains_follow_the_order_of_sending(
    mailboxes: Seq<Mailbox>,
    receivers: Seq<MailboxReceiver>,
    events: Seq<MailboxEvent>,
)
    requires
        is_run(mailboxes, receivers, events),
    ensures
        mailboxes.last().wf(),
        receivers.last().wf(),
        receivers.last().queue() == mailboxes.last().queue(),
        receivers.last().items() == mailboxes.last().items(),
        receivers.last().taken() <= mailboxes.last().last_seq(),
        mailboxes.last().last_seq() <= mailboxes.last().items().len(),
        all_sent(events) == mailboxes.last().items().take(mailboxes.last().last_seq() as int),
        all_drained(events) == mailboxes.last().items().take(receivers.last().drained()),
        all_drained(events).is_prefix_of(all_sent(events)),
    decreases events.len(),
{
    let items = mailboxes.last().items();
    if events.len() == 0 {
        assert(all_sent(events) =~= items.take(0));
        assert(all_drained(events) =~= items.take(0));
    } else {
        let n = events.len() - 1;
        lemma_run_prefix(mailboxes, receivers, events, n);
        assert(events.take(n) =~= events.drop_last());
        law_drains_follow_the_order_of_sending(
            mailboxes.take(n + 1),
            receivers.take(n + 1),
            events.take(n),
        );
        assert(events[n] == events.last());
        assert(all_sent(events) =~= items.take(mailboxes.last().last_seq() as int));
        assert(all_drained(events) =~= items.take(receivers.last().drained()));
    }
}

/// A mailbox is a queue, whatever the calls on it were: an item that is sent joins those that are
/// not yet drained at their end, a question is answered by all of them and changes none, and a
/// drain gives them all and leaves none.
pub proof fn law_mailbox_is_a_queue(
    mailboxes: Seq<Mailbox>,
    receivers: Seq<MailboxReceiver>,
    events: Seq<MailboxEvent>,
)
    requires
        is_run(mailboxes, receivers, events),
        events.len() > 0,
    ensures
        match events.last() {
            MailboxEvent::Sent(item) => undrained(events) == undrained(events.drop_last()).push(
                item,
            ),
            MailboxEvent::HasPending(any) => {
                &&& any == (undrained(events.drop_last()).len() > 0)
                &&& undrained(events) == undrained(events.drop_last())
            },
            MailboxEvent::HasPendingTriggerTurn(any) => {
                &&& any == any_wakes(undrained(events.drop_last()))
                &&& undrained(events) == undrained(events.drop_last())
            },
            MailboxEvent::Drained(mails) => {
                &&& mails == undrained(events.drop_last())
                &&& undrained(events) == Seq::<MailboxItem>::empty()
            },
        },
{
    let n = events.len() - 1;
    let items = mailboxes.last().items();
    lemma_run_prefix(mailboxes, receivers, events, n);
    assert(events.take(n) =~= events.drop_last());
    law_drains_follow_the_order_of_sending(
        mailboxes.take(n + 1),
        receivers.take(n + 1),
        events.take(n),
    );
    law_drains_follow_the_order_of_sending(mailboxes, receivers, events);
    assert(events[n] == events.last());
    let earlier = undrained(events.drop_last());
    assert(earlier =~= items.subrange(
        receivers[n].drained(),
        mailboxes[n].last_seq() as int,
    ));
    assert(undrained(events) =~= items.subrange(
        receivers.last().drained(),
        mailboxes.last().last_seq() as int,
    ));
    match events.last() {
        MailboxEvent::Sent(item) => {
            assert(undrained(events) =~= earlier.push(item));
        },
        _ => {},
    }
}

/// Whatever calls were made on a mailbox, after a drain all drains together have given exactly the
/// items that were sent, in the order in which they were sent.
pub proof fn law_drains_give_all_items_sent(
    mailboxes: Seq<Mailbox>,
    receivers: Seq<MailboxReceiver>,
    events: Seq<MailboxEvent>,
)
    requires
        is_run(mailboxes, receivers, events),
        events.len() > 0,
        events.last() is Drained,
    ensures
        all_drained(events) == all_sent(events),
{
    law_drains_follow_the_order_of_sending(mailboxes, receivers, events);
    let n = events.len() - 1;
    assert(events[n] is Drained);
}

/// Questions leave what is not yet drained as it is.
proof fn lemma_questions_change_nothing(
    mailboxes: Seq<Mailbox>,
    receivers: Seq<MailboxReceiver>,
    events: Seq<MailboxEvent>,
    first: int,
    last: int,
)
    requires
        is_run(mailboxes, receivers, events),
        0 <= first <= last <= events.len(),
        forall|i: int| first <= i < last ==> (#[trigger] events[i]).is_question(),
    ensures
        undrained(events.take(last)) == undrained(events.take(first)),
    decreases last - first,
{
    if first < last {
        let n = last - 1;
        lemma_questions_change_nothing(mailboxes, receivers, events, first, n);
        lemma_run_prefix(mailboxes, receivers, events, last);
        assert(events.take(last).drop_last() =~= events.take(n));
        assert(events[n].is_question());
        law_mailbox_is_a_queue(
            mailboxes.take(last + 1),
            receivers.take(last + 1),
            events.take(last),
        );
    }
}

/// Any number of questions before a drain leave its result the same, and each foretells it:
/// something is pending exactly if the drain gives something, something that wakes exactly if the
/// drain gives something that wakes, and then something is pending.
pub proof fn law_questions_foretell_the_drain(
    mailboxes: Seq<Mailbox>,
    receivers: Seq<MailboxReceiver>,
    events: Seq<MailboxEvent>,
    first: int,
    last: int,
    question: int,
)
    requires
        is_run(mailboxes, receivers, events),
        0 <= first <= question < last < events.len(),
        forall|i: int| first <= i < last ==> (#[trigger] events[i]).is_question(),
        events[last] is Drained,
    ensures
        events[last]->Drained_0 == undrained(events.take(first)),
        events[question] matches MailboxEvent::HasPending(any) ==> any == (
        events[last]->Drained_0.len() > 0),
        events[question] matches MailboxEvent::HasPendingTriggerTurn(any) ==> any == any_wakes(
            events[last]->Drained_0,
        ) && (any ==> events[last]->Drained_0.len() > 0),
{
    lemma_questions_change_nothing(mailboxes, receivers, events, first, last);
    lemma_questions_change_nothing(mailboxes, receivers, events, first, question);
    lemma_run_prefix(mailboxes, receivers, events, last + 1);
    assert(events.take(last + 1).drop_last() =~= events.take(last));
    law_mailbox_is_a_queue(
        mailboxes.take(last + 2),
        receivers.take(last + 2),
        events.take(last + 1),
    );
    lemma_run_prefix(mailboxes, receivers, events, question + 1);
    assert(events.take(question + 1).drop_last() =~= events.take(question));
    law_mailbox_is_a_queue(
        mailboxes.take(question + 2),
        receivers.take(question + 2),
        events.take(question + 1),
    );
}

/// What is not yet drained stays, in its place, until it is drained.
proof fn lemma_undrained_stays(
    mailboxes: Seq<Mailbox>,
    receivers: Seq<MailboxReceiver>,
    events: Seq<MailboxEvent>,
    first: int,
    last: int,
)
    requires
        is_run(mailboxes, receivers, events),
        0 <= first <= last <= events.len(),
        forall|i: int| first <= i < last ==> !((#[trigger] events[i]) is Drained),
    ensures
        undrained(events.take(first)).is_prefix_of(undrained(events.take(last))),
    decreases last - first,
{
    if first < last {
        let n = last - 1;
        lemma_undrained_stays(mailboxes, receivers, events, first, n);
        lemma_run_prefix(mailboxes, receivers, events, last);
        assert(events.take(last).drop_last() =~= events.take(n));
        assert(!(events[n] is Drained));
        law_mailbox_is_a_queue(
            mailboxes.take(last + 1),
            receivers.take(last + 1),
            events.take(last),
        );
    }
}

/// Once something is pending, or something that wakes, it stays so until a drain, whatever is sent
/// or asked meanwhile.
pub proof fn law_pending_until_drained(
    mailboxes: Seq<Mailbox>,
    receivers: Seq<MailboxReceiver>,
    events: Seq<MailboxEvent>,
    first: int,
    last: int,
)
    requires
        is_run(mailboxes, receivers, events),
        0 <= first < last < events.len(),
        forall|i: int| first <= i < last ==> !((#[trigger] events[i]) is Drained),
    ensures
        events[first] == MailboxEvent::HasPending(true) && events[last] is HasPending
            ==> events[last]->HasPending_0,
        events[first] == MailboxEvent::HasPendingTriggerTurn(true)
            && events[last] is HasPendingTriggerTurn ==> events[last]->HasPendingTriggerTurn_0,
{
    lemma_undrained_stays(mailboxes, receivers, events, first, last);
    lemma_run_prefix(mailboxes, receivers, events, first + 1);
    assert(events.take(first + 1).drop_last() =~= events.take(first));
    law_mailbox_is_a_queue(
        mailboxes.take(first + 2),
        receivers.take(first + 2),
        events.take(first + 1),
    );
    lemma_run_prefix(mailboxes, receivers, events, last + 1);
    assert(events.take(last + 1).drop_last() =~= events.take(last));
    law_mailbox_is_a_queue(
        mailboxes.take(last + 2),
        receivers.take(last + 2),
        events.take(last + 1),
    );
    let earlier = undrained(events.take(first));
    let later = undrained(events.take(last));
    if any_wakes(earlier) {
        let i = choose|i: int| 0 <= i < earlier.len() && (#[trigger] earlier[i]).wakes();
        assert(later[i] == earlier[i]);
        assert(any_wakes(later));
    }
}

/// A drain gives nothing where nothing was sent since the one before it.
pub proof fn law_second_drain_is_empty(
    before: MailboxReceiver,
    between: MailboxReceiver,
    after: MailboxReceiver,
    first: Seq<MailboxItem>,
    second: Seq<MailboxItem>,
)
    requires
        between.after_drain(before, first),
        after.after_drain(between, second),
        after.seen() == between.seen(),
    ensures
        second == Seq::<MailboxItem>::empty(),
{
}

/// Two drains in a row give, one after the other, what has come through the mailbox, in the order
/// in which it was sent: nothing is left out, repeated or put elsewhere.
pub proof fn law_drains_in_delivery_order(
    before: MailboxReceiver,
    between: MailboxReceiver,
    after: MailboxReceiver,
    first: Seq<MailboxItem>,
    second: Seq<MailboxItem>,
)
    requires
        before.wf(),
        between.after_drain(before, first),
        after.after_drain(between, second),
    ensures
        first + second == before.items().subrange(before.drained(), after.taken() as int),
        after.drained() == after.taken(),
{
    assert(first + second =~= before.items().subrange(
        before.drained(),
        after.taken() as int,
    ));
}

/// The item that was sent under a sequence number is the item at that number among all that is
/// drained: a drain gives it if it reaches that far and earlier drains did not.
pub proof fn law_drained_by_sequence_number(
    mailbox: Mailbox,
    before: MailboxReceiver,
    after: MailboxReceiver,
    mails: Seq<MailboxItem>,
    seq: int,
)
    requires
        before.wf(),
        before.items() == mailbox.items(),
        after.after_drain(before, mails),
        before.drained() < seq <= after.taken(),
    ensures
        mails.len() == after.taken() - before.drained(),
        mails[seq - 1 - before.drained()] == mailbox.items()[seq - 1],
{
}

/// The announcements that a mailbox has made are the numbers of the items sent, in order, so the
/// latest one is the number of the last item.
pub proof fn law_announcements_count_the_items(mailbox: Mailbox)
    requires
        mailbox.wf(),
    ensures
        mailbox.last_seq() < mailbox.announcements().len(),
        forall|i: int| 0 <= i <= mailbox.last_seq() ==> mailbox.announcements()[i] == i,
{
}

/// An item that comes in wakes the session exactly if it asks to; one that does not leaves things
/// as they are.
pub proof fn law_only_waking_mail_wakes(mails: Seq<MailboxItem>, mail: MailboxItem)
    ensures
        any_wakes(mails.push(mail)) == (any_wakes(mails) || mail.wakes()),
{
    let more = mails.push(mail);
    assert(more[mails.len() as int] == mail);
    if any_wakes(mails) {
        let i = choose|i: int| 0 <= i < mails.len() && (#[trigger] mails[i]).wakes();
        assert(more[i].wakes());
    }
    if any_wakes(more) && !mail.wakes() {
        let i = choose|i: int| 0 <= i < more.len() && (#[trigger] more[i]).wakes();
        assert(mails[i].wakes());
    }
}

/// Right after a drain nothing is pending, and so nothing that wakes the session.
pub proof fn law_nothing_pending_after_drain(
    before: MailboxReceiver,
    after: MailboxReceiver,
    mails: Seq<MailboxItem>,
)
    requires
        after.after_drain(before, mails),
    ensures
        after.pending().len() == 0,
        !any_wakes(after.pending()),
{
}

/// A message is sent as it is: the item of mail holds the very message.
pub proof fn law_mail_holds_the_message(
    message: InboundMcpChannelMessage,
    communication: InterAgentCommunication,
)
    ensures
        <InboundMcpChannelMessage as IntoSpec<MailboxItem>>::obeys_into_spec(),
        <InboundMcpChannelMessage as IntoSpec<MailboxItem>>::into_spec(message)
            == MailboxItem::McpChannel(message),
        <InterAgentCommunication as IntoSpec<MailboxItem>>::obeys_into_spec(),
        <InterAgentCommunication as IntoSpec<MailboxItem>>::into_spec(communication)
            == MailboxItem::InterAgent(communication),
{
}

/// An item wakes the session exactly if the message in it asks for that, whatever else the message
/// says.
pub proof fn law_item_wakes_as_its_message_asks(
    message: InboundMcpChannelMessage,
    communication: InterAgentCommunication,
)
    ensures
        MailboxItem::McpChannel(message).wakes() <==> message.trigger_turn,
        MailboxItem::InterAgent(communication).wakes() <==> communication.trigger_turn,
{
}

/// Mail wakes the session exactly if some message in it asks for that.
pub proof fn law_mail_wakes_as_a_message_asks(mails: Seq<MailboxItem>)
    ensures
        any_wakes(mails) <==> exists|i: int|
            0 <= i < mails.len() && match #[trigger] mails[i] {
                MailboxItem::InterAgent(communication) => communication.trigger_turn,
                MailboxItem::McpChannel(message) => message.trigger_turn,
            },
{
    if any_wakes(mails) {
        let i = choose|i: int| 0 <= i < mails.len() && (#[trigger] mails[i]).wakes();
        assert(match mails[i] {
                MailboxItem::InterAgent(communication) => communication.trigger_turn,
                MailboxItem::McpChannel(message) => message.trigger_turn,
            });
    }
    if exists|i: int| 0 <= i < mails.len() && match #[trigger] mails[i] {
                MailboxItem::InterAgent(communication) => communication.trigger_turn,
                MailboxItem::McpChannel(message) => message.trigger_turn,
            } {
        let i = choose|i: int| 0 <= i < mails.len() && match #[trigger] mails[i] {
                MailboxItem::InterAgent(communication) => communication.trigger_turn,
                MailboxItem::McpChannel(message) => message.trigger_turn,
            };
        assert(mails[i].wakes());
    }
}

/// It is answered that something pending wakes the session exactly if, of all that has arrived and
/// is not drained, some message asks for that.
pub proof fn law_pending_wakes_as_a_message_asks(
    before: MailboxReceiver,
    after: MailboxReceiver,
    any: bool,
)
    requires
        before.wf(),
        after.after_arrivals(before),
        any == any_wakes(after.pending()),
    ensures
        any <==> exists|i: int|
            before.drained() <= i < after.taken() && match #[trigger] before.items()[i] {
                MailboxItem::InterAgent(communication) => communication.trigger_turn,
                MailboxItem::McpChannel(message) => message.trigger_turn,
            },
{
    let mails = after.pending();
    law_mail_wakes_as_a_message_asks(mails);
    let items = before.items();
    if any {
        let i = choose|i: int| 0 <= i < mails.len() && match #[trigger] mails[i] {
                MailboxItem::InterAgent(communication) => communication.trigger_turn,
                MailboxItem::McpChannel(message) => message.trigger_turn,
            };
        assert(items[before.drained() + i] == mails[i]);
    }
    if exists|i: int|
        before.drained() <= i < after.taken() && match #[trigger] items[i] {
                MailboxItem::InterAgent(communication) => communication.trigger_turn,
                MailboxItem::McpChannel(message) => message.trigger_turn,
            } {
        let i = choose|i: int|
            before.drained() <= i < after.taken() && match #[trigger] items[i] {
                MailboxItem::InterAgent(communication) => communication.trigger_turn,
                MailboxItem::McpChannel(message) => message.trigger_turn,
            };
        assert(mails[i - before.drained()] == items[i]);
    }
}

/// Call number `i` sent an item, and no drain came after it.
pub open spec fn sent_and_not_drained(events: Seq<MailboxEvent>, i: int) -> bool {
    &&& 0 <= i < events.len()
    &&& events[i] is Sent
    &&& forall|j: int| i < j < events.len() ==> !((#[trigger] events[j]) is Drained)
}

/// Whatever calls were made on a mailbox, what is not yet drained is what was sent after the last
/// drain: there is any exactly if something was sent since, and any that wakes exactly if a message
/// that asks for that was sent since.
proof fn lemma_undrained_was_sent_since(
    mailboxes: Seq<Mailbox>,
    receivers: Seq<MailboxReceiver>,
    events: Seq<MailboxEvent>,
)
    requires
        is_run(mailboxes, receivers, events),
    ensures
        undrained(events).len() > 0 <==> exists|i: int| sent_and_not_drained(events, i),
        any_wakes(undrained(events)) <==> exists|i: int| #[trigger]
            sent_and_not_drained(events, i) && match events[i]->Sent_0 {
                MailboxItem::InterAgent(communication) => communication.trigger_turn,
                MailboxItem::McpChannel(message) => message.trigger_turn,
            },
    decreases events.len(),
{
    if events.len() > 0 {
        let n = events.len() - 1;
        let earlier = events.drop_last();
        lemma_run_prefix(mailboxes, receivers, events, n);
        assert(events.take(n) =~= earlier);
        lemma_undrained_was_sent_since(mailboxes.take(n + 1), receivers.take(n + 1), earlier);
        law_mailbox_is_a_queue(mailboxes, receivers, events);
        if events.last() is Drained {
            assert forall|i: int| !sent_and_not_drained(events, i) by {
                if sent_and_not_drained(events, i) {
                    assert(events[n] is Drained);
                }
            }
            law_mail_wakes_as_a_message_asks(undrained(events));
        } else {
            assert forall|i: int| i != n implies sent_and_not_drained(events, i)
                == sent_and_not_drained(earlier, i) by {
                if sent_and_not_drained(earlier, i) {
                    assert forall|j: int| i < j < events.len() implies !((
                    #[trigger] events[j]) is Drained) by {
                        if j < n {
                            assert(events[j] == earlier[j]);
                        }
                    }
                }
                if sent_and_not_drained(events, i) {
                    assert forall|j: int| i < j < earlier.len() implies !((
                    #[trigger] earlier[j]) is Drained) by {
                        assert(events[j] == earlier[j]);
                    }
                }
            }
            assert forall|i: int| sent_and_not_drained(earlier, i) implies earlier[i]
                == events[i] && sent_and_not_drained(events, i) by {}
            assert forall|i: int| i != n && sent_and_not_drained(events, i) implies earlier[i]
                == events[i] && sent_and_not_drained(earlier, i) by {}
            if let MailboxEvent::Sent(item) = events.last() {
                assert(sent_and_not_drained(events, n));
                law_only_waking_mail_wakes(undrained(earlier), item);
            } else {
                assert(!sent_and_not_drained(events, n));
            }
        }
    } else {
        assert(undrained(events).len() == 0);
    }
}

/// Whatever calls were made on a mailbox, it has something pending exactly if something was sent
/// after the last drain, and something that wakes the session exactly if one of the messages sent
/// after the last drain asks for that.
pub proof fn law_questions_are_answered_by_what_was_sent(
    mailboxes: Seq<Mailbox>,
    receivers: Seq<MailboxReceiver>,
    events: Seq<MailboxEvent>,
)
    requires
        is_run(mailboxes, receivers, events),
        events.len() > 0,
    ensures
        events.last() matches MailboxEvent::HasPending(any) ==> (any <==> exists|i: int|
            sent_and_not_drained(events, i)),
        events.last() matches MailboxEvent::HasPendingTriggerTurn(any) ==> (any <==> exists|
            i: int,
        | #[trigger]
            sent_and_not_drained(events, i) && match events[i]->Sent_0 {
                MailboxItem::InterAgent(communication) => communication.trigger_turn,
                MailboxItem::McpChannel(message) => message.trigger_turn,
            }),
{
    law_mailbox_is_a_queue(mailboxes, receivers, events);
    lemma_undrained_was_sent_since(mailboxes, receivers, events);
}

/// Whatever calls were made on a mailbox, the number of the last item is the number of items sent.
pub proof fn law_items_are_numbered_from_one(
    mailboxes: Seq<Mailbox>,
    receivers: Seq<MailboxReceiver>,
    events: Seq<MailboxEvent>,
)
    requires
        is_run(mailboxes, receivers, events),
    ensures
        mailboxes.last().last_seq() == all_sent(events).len(),
{
    law_drains_follow_the_order_of_sending(mailboxes, receivers, events);
}

/// A message from an MCP server is shown to the model as it is: one text for the model, said by the
/// user, which is the one JSON object that has its sender, its content, its metadata, or null where
/// it has none, and the time of its arrival as members, and no others, on a line between the
/// markers. Where that line can be read back, it reads as that object. It is never taken for a
/// message from an agent.
pub proof fn law_channel_item_shows_the_message(
    message: InboundMcpChannelMessage,
    item: ResponseInputItem,
    members: Map<Seq<char>, JsonView>,
)
    requires
        MailboxItem::McpChannel(message).is_shown_as(item),
        forall|key: Seq<char>| #[trigger]
            members.dom().contains(key) <==> key == "server_name"@ || key == "content"@ || key
                == "metadata"@ || key == "received_at"@,
        members["server_name"@] == JsonView::Text(message.server_name@),
        members["content"@] == JsonView::Text(message.content@),
        match message.metadata {
            Some(metadata) => members["metadata"@] == json_view(metadata),
            None => members["metadata"@] == JsonView::Null,
        },
        members["received_at"@] == JsonView::Integer(message.received_at as int),
    ensures
        ({
            let ResponseInputItem::Message { role, content } = item;
            &&& role@ == "user"@
            &&& content@.len() == 1
            &&& content@[0] matches ContentItem::InputText { text } && text@
                == "<mcp_channel_message>"@ + (seq!['\n'] + json_text(JsonView::Object(members))
                + seq!['\n']) + "</mcp_channel_message>"@
            &&& message_envelope(content@) is None
        }),
        is_plain(JsonView::Object(members), parse_depth()) ==> parsed_json(
            json_text(JsonView::Object(members)),
        ) == Some(JsonView::Object(members)),
{
    let fragment = McpChannelMessage { message };
    law_rendered_as_the_message(fragment, members);
    law_payload_line_reads_as_the_message(fragment, members, rendered(fragment));
}

/// A message from an agent is shown to the model as it is: one text, said by an assistant, which is
/// the one JSON object that has its sender, its recipients, its content and its wish to wake the
/// recipient as members, and no others. It reads as that object.
pub proof fn law_agent_item_shows_the_message(
    message: InterAgentCommunication,
    item: ResponseInputItem,
    members: Map<Seq<char>, JsonView>,
)
    requires
        MailboxItem::InterAgent(message).is_shown_as(item),
        forall|key: Seq<char>| #[trigger]
            members.dom().contains(key) <==> key == "author"@ || key == "recipient"@ || key
                == "other_recipients"@ || key == "content"@ || key == "trigger_turn"@,
        members["author"@] == JsonView::Text(message.author@),
        members["recipient"@] == JsonView::Text(message.recipient@),
        members["other_recipients"@] is Array,
        members["other_recipients"@]->Array_0.len() == message.other_recipients@.len(),
        forall|i: int|
            0 <= i < message.other_recipients@.len() ==> (
            #[trigger] members["other_recipients"@]->Array_0[i]) == JsonView::Text(
                message.other_recipients@[i]@,
            ),
        members["content"@] == JsonView::Text(message.content@),
        members["trigger_turn"@] == JsonView::Bool(message.trigger_turn),
    ensures
        ({
            let ResponseInputItem::Message { role, content } = item;
            &&& role@ == "assistant"@
            &&& content@.len() == 1
            &&& content@[0] matches ContentItem::OutputText { text } && text@ == json_text(
                JsonView::Object(members),
            )
        }),
        parsed_json(json_text(JsonView::Object(members))) == Some(JsonView::Object(members)),
{
    law_envelope_holds_the_message(message, members);
}

/// Two messages from MCP servers that the model is shown alike have the same sender, the same
/// content, the same time of arrival and the same metadata, where no metadata counts as null.
pub proof fn law_channel_messages_are_told_apart(
    a: InboundMcpChannelMessage,
    b: InboundMcpChannelMessage,
    item: ResponseInputItem,
)
    requires
        MailboxItem::McpChannel(a).is_shown_as(item),
        MailboxItem::McpChannel(b).is_shown_as(item),
        a.metadata matches Some(metadata) ==> is_plain(
            json_view(metadata),
            (parse_depth() - 1) as nat,
        ),
        b.metadata matches Some(metadata) ==> is_plain(
            json_view(metadata),
            (parse_depth() - 1) as nat,
        ),
    ensures
        a.server_name@ == b.server_name@,
        a.content@ == b.content@,
        a.received_at == b.received_at,
        match (a.metadata, b.metadata) {
            (Some(of_a), Some(of_b)) => json_view(of_a) == json_view(of_b),
            (Some(of_a), None) => json_view(of_a) == JsonView::Null,
            (None, Some(of_b)) => json_view(of_b) == JsonView::Null,
            (None, None) => true,
        },
{
    let first = McpChannelMessage { message: a };
    let second = McpChannelMessage { message: b };
    law_plain_metadata_reads_back(first);
    law_plain_metadata_reads_back(second);
    law_payload_members(first);
    law_payload_members(second);
    assert(first.payload() == second.payload());
}

/// Two messages from agents that the model is shown alike have the same sender, the same
/// recipients, the same content and the same wish to wake the recipient.
pub proof fn law_agent_items_are_told_apart(
    a: InterAgentCommunication,
    b: InterAgentCommunication,
    item: ResponseInputItem,
)
    requires
        MailboxItem::InterAgent(a).is_shown_as(item),
        MailboxItem::InterAgent(b).is_shown_as(item),
    ensures
        a.author@ == b.author@,
        a.recipient@ == b.recipient@,
        a.other_recipients@.len() == b.other_recipients@.len(),
        forall|i: int|
            0 <= i < a.other_recipients@.len() ==> (#[trigger] a.other_recipients@[i])@
                == b.other_recipients@[i]@,
        a.content@ == b.content@,
        a.trigger_turn == b.trigger_turn,
{
    assert(a@ == b@);
    law_agent_messages_are_told_apart(a, b);
}

} // verus!
