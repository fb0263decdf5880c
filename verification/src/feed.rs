//! A queue of messages in front of a channel.
use crate::channel::poll_recv;
use crate::task::Poll;
use std::collections::VecDeque;
use std::task::Waker;
use tokio::sync::mpsc::UnboundedReceiver;
use vstd::prelude::*;

verus! {

/// [Feed] combines polling from a queue of messages and a channel. Message can be delayed
/// and later placed in the queue.
#[verifier::reject_recursive_types(T)]
pub struct Feed<T> {
    /// Messages from the queue will be delivered first.
    queue: VecDeque<T>,
    /// Channel to receive messages to deliver.
    feed: UnboundedReceiver<T>,
    /// Any message drawn from [Feed] can be delayed and later placed in the queue.
    delayed: Vec<T>,
}

/// A feed as its contracts see it.
#[verifier::reject_recursive_types(T)]
pub struct FeedView<T> {
    /// The messages to be drawn before any from the channel, the next one first.
    pub queue: Seq<T>,
    /// The channel.
    pub channel: UnboundedReceiver<T>,
    /// The messages that are put off, in the order in which they were.
    pub delayed: Seq<T>,
}

impl<T> View for Feed<T> {
    type V = FeedView<T>;

    closed spec fn view(&self) -> FeedView<T> {
        FeedView { queue: self.queue@, channel: self.feed, delayed: self.delayed@ }
    }
}

/// The feed with the delayed messages in front of the queue.
pub open spec fn refreshed<T>(feed: FeedView<T>) -> FeedView<T> {
    FeedView { queue: feed.delayed + feed.queue, delayed: Seq::empty(), ..feed }
}

/// The feed without the next message of its queue.
pub open spec fn without_next<T>(feed: FeedView<T>) -> FeedView<T> {
    FeedView { queue: feed.queue.drop_first(), ..feed }
}

/// The feed with `message` put off.
pub open spec fn with_delayed<T>(feed: FeedView<T>, message: T) -> FeedView<T> {
    FeedView { delayed: feed.delayed.push(message), ..feed }
}

impl<T> Feed<T> {
    /// A feed that draws messages from the channel.
    pub fn new(feed: UnboundedReceiver<T>) -> (result: Self)
        ensures
            result@ == (FeedView {
                queue: Seq::<T>::empty(),
                channel: feed,
                delayed: Seq::<T>::empty(),
            }),
    {
        Self { queue: VecDeque::new(), feed, delayed: Vec::new() }
    }

    /// Draw the next message either from the queue or the channel. There is none to expect
    /// if the queue is empty and the channel has been closed and drained.
    pub fn next(&mut self, current: &Waker) -> (message: Poll<Option<T>>)
        ensures
            old(self)@.queue.len() > 0 ==> {
                &&& message == Poll::Ready(Some(old(self)@.queue[0]))
                &&& final(self)@ == without_next(old(self)@)
            },
            old(self)@.queue.len() == 0 ==> {
                &&& final(self)@.queue == old(self)@.queue
                &&& final(self)@.delayed == old(self)@.delayed
                &&& exists|channel: &mut UnboundedReceiver<T>|
                    #[trigger] call_ensures(poll_recv::<T>, (channel, current), message)
                        && *channel == old(self)@.channel && *final(channel)
                        == final(self)@.channel
            },
    {
        match self.queue.pop_front() {
            Some(message) => {
                Poll::Ready(Some(message))
            },
            None => poll_recv(&mut self.feed, current),
        }
    }

    /// Put off a message.
    pub fn delay(&mut self, message: T)
        ensures
            final(self)@ == with_delayed(old(self)@, message),
    {
        self.delayed.push(message);
    }

    /// Place delayed messages in the queue.
    pub fn refresh(&mut self)
        ensures
            final(self)@ == refreshed(old(self)@),
    {
        while self.delayed.len() > 0
            invariant
                self.feed == old(self).feed,
                self.delayed@ + self.queue@ == old(self).delayed@ + old(self).queue@,
            decreases self.delayed.len(),
        {
            if let Some(message) = self.delayed.pop() {
                self.queue.push_front(message);
            }
        }
        assert(self.delayed@ =~= Seq::<T>::empty());
    }
}

/// The feed with `messages` put off one after another.
pub open spec fn with_all_delayed<T>(feed: FeedView<T>, messages: Seq<T>) -> FeedView<T>
    decreases messages.len(),
{
    if messages.len() == 0 {
        feed
    } else {
        with_delayed(with_all_delayed(feed, messages.drop_last()), messages.last())
    }
}

/// The feed after `count` messages have been drawn from its queue.
pub open spec fn drawn<T>(feed: FeedView<T>, count: nat) -> FeedView<T>
    decreases count,
{
    if count == 0 {
        feed
    } else {
        without_next(drawn(feed, (count - 1) as nat))
    }
}

proof fn lemma_all_are_delayed<T>(feed: FeedView<T>, messages: Seq<T>)
    ensures
        with_all_delayed(feed, messages) == (FeedView {
            delayed: feed.delayed + messages,
            ..feed
        }),
    decreases messages.len(),
{
    if messages.len() > 0 {
        lemma_all_are_delayed(feed, messages.drop_last());
        assert((feed.delayed + messages.drop_last()).push(messages.last()) =~= feed.delayed
            + messages);
    }
}

proof fn lemma_queue_is_drawn<T>(feed: FeedView<T>, count: nat)
    requires
        count <= feed.queue.len(),
    ensures
        drawn(feed, count) == (FeedView { queue: feed.queue.skip(count as int), ..feed }),
    decreases count,
{
    if count == 0 {
        assert(feed.queue.skip(0) =~= feed.queue);
    } else {
        lemma_queue_is_drawn(feed, (count - 1) as nat);
        assert(feed.queue.skip(count - 1).drop_first() =~= feed.queue.skip(count as int));
    }
}

/// Delayed messages come first after a refresh, in the order in which they were delayed;
/// the messages that were queued already follow, and a second refresh changes nothing.
pub proof fn law_delayed_messages_come_first<T>(feed: FeedView<T>, messages: Seq<T>)
    ensures
        refreshed(refreshed(feed)) == refreshed(feed),
        refreshed(with_all_delayed(feed, messages)) == (FeedView {
            queue: feed.delayed + messages + feed.queue,
            delayed: Seq::empty(),
            ..feed
        }),
{
    lemma_all_are_delayed(feed, messages);
}

/// Delaying messages and refreshing undoes their draws: with none delayed before, they are
/// drawn again in the same order, and then the feed is what it was after the first draws.
pub proof fn law_delaying_undoes_draws<T>(feed: FeedView<T>, messages: Seq<T>)
    requires
        feed.delayed.len() == 0,
    ensures
        ({
            let again = refreshed(with_all_delayed(feed, messages));
            &&& again.queue == messages + feed.queue
            &&& forall|i: int|
                0 <= i < messages.len() ==> {
                    &&& (#[trigger] drawn(again, i as nat)).queue.len() > 0
                    &&& drawn(again, i as nat).queue[0] == messages[i]
                }
            &&& drawn(again, messages.len()) == feed
        }),
{
    let again = refreshed(with_all_delayed(feed, messages));
    lemma_all_are_delayed(feed, messages);
    assert forall|i: int| 0 <= i < messages.len() implies {
        &&& (#[trigger] drawn(again, i as nat)).queue.len() > 0
        &&& drawn(again, i as nat).queue[0] == messages[i]
    } by {
        lemma_queue_is_drawn(again, i as nat);
    }
    lemma_queue_is_drawn(again, messages.len());
    assert(again.queue.skip(messages.len() as int) =~= feed.queue);
    assert(feed.delayed =~= Seq::<T>::empty());
}

/// Messages that are drawn from the queue, delayed and refreshed leave the feed as if
/// nothing had been drawn.
pub proof fn law_queue_is_restored<T>(feed: FeedView<T>, count: nat)
    requires
        feed.delayed.len() == 0,
        count <= feed.queue.len(),
    ensures
        refreshed(with_all_delayed(drawn(feed, count), feed.queue.take(count as int))) == feed,
{
    lemma_queue_is_drawn(feed, count);
    lemma_all_are_delayed(drawn(feed, count), feed.queue.take(count as int));
    assert(feed.delayed + feed.queue.take(count as int) + feed.queue.skip(count as int)
        =~= feed.queue);
    assert(feed.delayed =~= Seq::<T>::empty());
}

/// A new feed has the channel that it is given, and no messages of its own.
pub proof fn law_feed_starts_with_its_channel<T>(channel: UnboundedReceiver<T>, feed: Feed<T>)
    requires
        call_ensures(Feed::<T>::new, (channel,), feed),
    ensures
        feed@.channel == channel,
        feed@.queue.len() == 0,
        feed@.delayed.len() == 0,
{
}

/// A message is drawn from the queue as long as there is one, the first of the queue, and
/// otherwise from the channel. Nothing else changes.
pub proof fn law_queue_is_drawn_first<T>(
    feed: &mut Feed<T>,
    current: &Waker,
    message: Poll<Option<T>>,
)
    requires
        call_ensures(Feed::<T>::next, (feed, current), message),
    ensures
        final(feed)@.delayed == old(feed)@.delayed,
        old(feed)@.queue.len() > 0 ==> {
            &&& message matches Poll::Ready(Some(drawn))
            &&& seq![drawn] + final(feed)@.queue == old(feed)@.queue
            &&& final(feed)@.channel == old(feed)@.channel
        },
        old(feed)@.queue.len() == 0 ==> {
            &&& final(feed)@.queue.len() == 0
            &&& exists|channel: &mut UnboundedReceiver<T>| #[trigger]
                call_ensures(poll_recv::<T>, (channel, current), message) && *channel == old(
                    feed,
                )@.channel && *final(channel) == final(feed)@.channel
        },
{
}

/// A delayed message comes last of those that are delayed. Nothing else changes.
pub proof fn law_delayed_message_is_kept<T>(feed: &mut Feed<T>, message: T)
    requires
        call_ensures(Feed::<T>::delay, (feed, message), ()),
    ensures
        final(feed)@.delayed == old(feed)@.delayed + seq![message],
        final(feed)@.queue == old(feed)@.queue,
        final(feed)@.channel == old(feed)@.channel,
{
}

/// Refreshing puts the delayed messages in front of the queue, in the order in which they were
/// delayed. None is lost, none is left delayed, and the channel is not touched.
pub proof fn law_refresh_requeues_delayed_messages<T>(feed: &mut Feed<T>)
    requires
        call_ensures(Feed::<T>::refresh, (feed,), ()),
    ensures
        final(feed)@.queue.len() == old(feed)@.delayed.len() + old(feed)@.queue.len(),
        forall|i: int|
            0 <= i < old(feed)@.delayed.len() ==> #[trigger] final(feed)@.queue[i] == old(
                feed,
            )@.delayed[i],
        forall|i: int|
            0 <= i < old(feed)@.queue.len() ==> final(feed)@.queue[old(feed)@.delayed.len() + i]
                == #[trigger] old(feed)@.queue[i],
        final(feed)@.delayed.len() == 0,
        final(feed)@.channel == old(feed)@.channel,
{
}

/// A message that is drawn from the queue, delayed and refreshed is drawn again, and then the feed
/// is what it was after the first draw, provided that nothing had been delayed.
pub proof fn law_delayed_message_is_drawn_again<T>(
    first: &mut Feed<T>,
    current: &Waker,
    message: T,
    delaying: &mut Feed<T>,
    refreshing: &mut Feed<T>,
    second: &mut Feed<T>,
    again: Poll<Option<T>>,
)
    requires
        old(first)@.delayed.len() == 0,
        call_ensures(Feed::<T>::next, (first, current), Poll::Ready(Some(message))),
        *old(delaying) == *final(first),
        call_ensures(Feed::<T>::delay, (delaying, message), ()),
        *old(refreshing) == *final(delaying),
        call_ensures(Feed::<T>::refresh, (refreshing,), ()),
        *old(second) == *final(refreshing),
        call_ensures(Feed::<T>::next, (second, current), again),
    ensures
        again == Poll::Ready(Some(message)),
        final(second)@.queue =~= final(first)@.queue,
        final(second)@.delayed =~= final(first)@.delayed,
        final(second)@.channel == final(first)@.channel,
        old(first)@.queue.len() > 0 ==> final(refreshing)@.queue =~= old(first)@.queue,
{
}

} // verus!
