//! The two `tokio` channels that a mailbox is made of: the queue that carries its items, and the
//! watch that announces their sequence numbers.
//!
//! A channel is described by the one sequence of values that it carries in its whole life, which
//! both of its ends share, and by the position in that sequence that each end has reached.

use crate::mailbox::MailboxItem;
use tokio::sync::mpsc::{UnboundedReceiver, UnboundedSender};
use tokio::sync::watch;
use vstd::prelude::*;

verus! {

/// `tokio::sync::mpsc::UnboundedSender`, the sending end of a queue.
#[verifier::external_type_specification]
#[verifier::external_body]
#[verifier::reject_recursive_types(T)]
pub struct ExUnboundedSender<T>(UnboundedSender<T>);

/// `tokio::sync::mpsc::UnboundedReceiver`, the receiving end of a queue.
#[verifier::external_type_specification]
#[verifier::external_body]
#[verifier::reject_recursive_types(T)]
pub struct ExUnboundedReceiver<T>(UnboundedReceiver<T>);

/// `tokio::sync::watch::Sender`, the announcing end of a watch.
#[verifier::external_type_specification]
#[verifier::external_body]
#[verifier::reject_recursive_types(T)]
pub struct ExWatchSender<T>(watch::Sender<T>);

/// `tokio::sync::watch::Receiver`, a subscription to a watch.
#[verifier::external_type_specification]
#[verifier::external_body]
#[verifier::reject_recursive_types(T)]
pub struct ExWatchReceiver<T>(watch::Receiver<T>);

/// Which queue this is the sending end of.
pub uninterp spec fn queue_of(tx: UnboundedSender<MailboxItem>) -> int;

/// Which queue this is the receiving end of.
pub uninterp spec fn queue_to(rx: UnboundedReceiver<MailboxItem>) -> int;

/// The items that are handed to this end of a queue, first to last.
pub uninterp spec fn carried_from(tx: UnboundedSender<MailboxItem>) -> Seq<MailboxItem>;

/// How many items have been handed to this end of a queue.
pub uninterp spec fn sent_count(tx: UnboundedSender<MailboxItem>) -> nat;

/// The items that are handed to the other end of the queue, first to last.
pub uninterp spec fn carried_to(rx: UnboundedReceiver<MailboxItem>) -> Seq<MailboxItem>;

/// How many items have been taken out of this end of a queue.
pub uninterp spec fn taken_count(rx: UnboundedReceiver<MailboxItem>) -> nat;

/// For each time that this end of a queue was asked for an item and had none, first to last, how
/// many items had been handed to the other end by then.
pub uninterp spec fn found_empty(rx: UnboundedReceiver<MailboxItem>) -> Seq<nat>;

/// The values that a watch holds, first to last; the first is the one it was made with.
pub uninterp spec fn watch_values(tx: watch::Sender<u64>) -> Seq<u64>;

/// The position, among the values of the watch, of the one that it holds now.
pub uninterp spec fn watch_position(tx: watch::Sender<u64>) -> nat;

/// The values that the watch of this subscription holds, first to last.
pub uninterp spec fn subscribed_values(rx: watch::Receiver<u64>) -> Seq<u64>;

/// The position, among those values, of the last one that this subscription has seen.
pub uninterp spec fn seen_position(rx: watch::Receiver<u64>) -> nat;

/// `tokio::sync::mpsc::unbounded_channel`: the two ends of a new queue, through which nothing
/// has passed yet.
#[verifier::external_body]
pub(crate) fn new_queue() -> (ends: (UnboundedSender<MailboxItem>, UnboundedReceiver<MailboxItem>))
    ensures
        queue_of(ends.0) == queue_to(ends.1),
        carried_from(ends.0) == carried_to(ends.1),
        sent_count(ends.0) == 0,
        taken_count(ends.1) == 0,
        found_empty(ends.1).len() == 0,
{
    tokio::sync::mpsc::unbounded_channel()
}

/// `tokio::sync::mpsc::UnboundedSender::send`: the item is the next one that is handed to the
/// queue. The queue drops it where its receiving end is gone. The exclusive borrow of the only
/// sending end keeps other items from coming in between. With half of `usize::MAX` items waiting
/// the call would abort the process, but so many items fit into no memory.
#[verifier::external_body]
pub(crate) fn send_item(tx: &mut UnboundedSender<MailboxItem>, item: MailboxItem)
    ensures
        queue_of(*final(tx)) == queue_of(*old(tx)),
        carried_from(*final(tx)) == carried_from(*old(tx)),
        sent_count(*final(tx)) == sent_count(*old(tx)) + 1,
        sent_count(*final(tx)) <= carried_from(*final(tx)).len(),
        carried_from(*final(tx))[sent_count(*old(tx)) as int] == item,
{
    let _ = tx.send(item);
}

/// `rx` is what a poll makes of `before`: with an item, that item is the next one in the order in
/// which the items were handed in; without one, all that had been handed in by then has been taken
/// out, and nothing changes but that the poll is noted.
pub open spec fn is_polled(
    rx: UnboundedReceiver<MailboxItem>,
    before: UnboundedReceiver<MailboxItem>,
    item: Option<MailboxItem>,
) -> bool {
    &&& queue_to(rx) == queue_to(before)
    &&& carried_to(rx) == carried_to(before)
    &&& match item {
        Some(item) => {
            &&& taken_count(rx) == taken_count(before) + 1
            &&& found_empty(rx) == found_empty(before)
            &&& taken_count(rx) <= carried_to(rx).len()
            &&& item == carried_to(rx)[taken_count(before) as int]
        },
        None => {
            &&& taken_count(rx) == taken_count(before)
            &&& found_empty(rx) == found_empty(before).push(taken_count(before))
        },
    }
}

/// `tokio::sync::mpsc::UnboundedReceiver::try_recv`: takes out the next item, or finds that there
/// is none, which it does only where everything handed to the other end by then has been taken
/// out. While that end is borrowed nothing is sent, and it is known how much that is. Otherwise it
/// is left unsaid which of the two happens: that is a matter of what the sending end has done.
#[verifier::external_body]
pub(crate) fn try_take(
    rx: &mut UnboundedReceiver<MailboxItem>,
    sender: Option<&UnboundedSender<MailboxItem>>,
) -> (item: Option<MailboxItem>)
    ensures
        is_polled(*final(rx), *old(rx), item),
        item is None && sender is Some && queue_of(*sender->0) == queue_to(*old(rx))
            ==> taken_count(*final(rx)) == sent_count(*sender->0),
{
    let _ = sender;
    rx.try_recv().ok()
}

/// `tokio::sync::watch::channel`: a new watch that holds the given value.
#[verifier::external_body]
pub(crate) fn new_watch(value: u64) -> (tx: watch::Sender<u64>)
    ensures
        watch_position(tx) == 0,
        watch_values(tx).len() > 0,
        watch_values(tx)[0] == value,
{
    watch::channel(value).0
}

/// `tokio::sync::watch::Sender::send_replace`: the value is the next one that the watch holds,
/// whether or not anyone has subscribed; what it held before is returned. The value is the number
/// of an item that has been handed to the queue already, so that whoever the announcement wakes
/// finds the item there.
#[verifier::external_body]
pub(crate) fn announce(
    tx: &mut watch::Sender<u64>,
    value: u64,
    queue: &UnboundedSender<MailboxItem>,
) -> (previous: u64)
    requires
        value <= sent_count(*queue),
    ensures
        watch_values(*final(tx)) == watch_values(*old(tx)),
        watch_position(*final(tx)) == watch_position(*old(tx)) + 1,
        watch_position(*final(tx)) < watch_values(*final(tx)).len(),
        watch_values(*final(tx))[watch_position(*final(tx)) as int] == value,
        previous == watch_values(*old(tx))[watch_position(*old(tx)) as int],
{
    let _ = queue;
    tx.send_replace(value)
}

/// `tokio::sync::watch::Sender::subscribe`: a subscription to this watch, which counts the value
/// that the watch holds as seen.
#[verifier::external_body]
pub(crate) fn subscribe_to(tx: &watch::Sender<u64>) -> (rx: watch::Receiver<u64>)
    ensures
        subscribed_values(rx) == watch_values(*tx),
        seen_position(rx) == watch_position(*tx),
{
    tx.subscribe()
}

} // verus!
