//! Single-slot mailboxes that carry readings from sensor tasks to the fusion
//! task, and the selector that multiplexes them.
//!
//! A channel holds at most one unread reading. A producer facing a full slot
//! must wait — back-pressure instead of dropping or queueing — so the
//! pipeline never silently loses a source update.

use vstd::prelude::*;

verus! {

/// How many readings a channel can hold.
pub const CHANNEL_SIZE: usize = 1;

/// A single-slot mailbox for one source's readings, in tenths of a degree.
pub struct Channel {
    slot: Option<i32>,
}

impl Channel {
    /// The unread reading, if one is outstanding.
    pub closed spec fn spec_slot(self) -> Option<i32> {
        self.slot
    }

    /// An empty channel.
    pub fn new() -> (ch: Channel)
        ensures
            ch.spec_slot() is None,
    {
        Channel { slot: None }
    }

    /// The unread reading, left in place.
    pub fn peek(&self) -> (r: Option<i32>)
        ensures
            r == self.spec_slot(),
    {
        self.slot
    }

    /// Offers a reading: accepted exactly when the slot is free. A refused
    /// producer retries after the consumer takes the outstanding reading.
    pub fn try_send(&mut self, reading: i32) -> (accepted: bool)
        ensures
            match old(self).spec_slot() {
                None => accepted && final(self).spec_slot() == Some(reading),
                Some(_) => !accepted && *final(self) == *old(self),
            },
    {
        match self.slot {
            None => {
                self.slot = Some(reading);
                true
            },
            Some(_) => false,
        }
    }

    /// Takes the outstanding reading, leaving the slot free.
    pub fn try_receive(&mut self) -> (r: Option<i32>)
        ensures
            r == old(self).spec_slot(),
            final(self).spec_slot() is None,
    {
        let r = self.slot;
        self.slot = None;
        r
    }
}

/// A reading tagged with the index of the channel it came from.
#[derive(Clone, Copy, Debug, PartialEq, Eq, Structural)]
pub struct TemperatureWithID(pub usize, pub i32);

/// Selects the first channel, in index order, with a reading outstanding.
pub struct ChannelSelect {}

impl ChannelSelect {
    /// What one poll starting at channel `i` selects: the reading of the
    /// first ready channel at or after `i`.
    pub open spec fn spec_selected_from(chs: Seq<Channel>, i: int) -> Option<TemperatureWithID>
        decreases chs.len() - i,
    {
        if i < 0 || i >= chs.len() {
            None
        } else {
            match chs[i].spec_slot() {
                Some(v) => Some(TemperatureWithID(i as usize, v)),
                None => Self::spec_selected_from(chs, i + 1),
            }
        }
    }

    /// What one poll across all channels selects: the reading of the ready
    /// channel of lowest index, if any channel is ready.
    pub open spec fn spec_selected(chs: Seq<Channel>) -> Option<TemperatureWithID> {
        Self::spec_selected_from(chs, 0)
    }

    pub fn new() -> (s: ChannelSelect) {
        ChannelSelect {  }
    }

    /// One poll across all source channels: takes the reading of the
    /// lowest-index ready channel, leaving every other channel untouched —
    /// ties between simultaneously ready channels go to the lowest source
    /// index. Yields nothing when no channel is ready.
    pub fn poll(&self, channels: &mut Vec<Channel>) -> (r: Option<TemperatureWithID>)
        ensures
            final(channels)@.len() == old(channels)@.len(),
            r == Self::spec_selected(old(channels)@),
            match r {
                Some(tw) => {
                    &&& tw.0 < old(channels)@.len()
                    &&& old(channels)@[tw.0 as int].spec_slot() == Some(tw.1)
                    &&& final(channels)@[tw.0 as int].spec_slot() is None
                    &&& forall|k: int|
                        0 <= k < tw.0 ==> #[trigger] old(channels)@[k].spec_slot() is None
                    &&& forall|k: int|
                        0 <= k < old(channels)@.len() && k != tw.0
                            ==> #[trigger] final(channels)@[k] == old(channels)@[k]
                },
                None => {
                    &&& *final(channels) == *old(channels)
                    &&& forall|k: int|
                        0 <= k < old(channels)@.len()
                            ==> #[trigger] old(channels)@[k].spec_slot() is None
                },
            },
    {
        let mut i: usize = 0;
        while i < channels.len()
            invariant
                i <= channels@.len(),
                *channels == *old(channels),
                forall|k: int| 0 <= k < i ==> #[trigger] channels@[k].spec_slot() is None,
                Self::spec_selected(channels@) == Self::spec_selected_from(channels@, i as int),
            decreases channels@.len() - i,
        {
            match channels[i].peek() {
                Some(reading) => {
                    channels.set(i, Channel::new());
                    return Some(TemperatureWithID(i, reading));
                },
                None => {},
            }
            i += 1;
        }
        None
    }
}

} // verus!
