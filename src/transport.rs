use vstd::prelude::*;

use crate::channel_data::ChannelData;
use crate::turn_message::{TurnMessage, TurnMessageView};

verus! {

/// The frames received on one transport, waiting to be taken by the STUN side or the
/// ChannelData side. Each side takes the head only when it is of its kind, and never waits
/// on the other kind: the other side takes it when it polls. Within each kind the order of
/// arrival is kept.
#[derive(Debug)]
pub struct RecvQueue {
    items: Vec<TurnMessage>,
}

impl View for RecvQueue {
    type V = Seq<TurnMessageView>;

    closed spec fn view(&self) -> Seq<TurnMessageView> {
        self.items@.map_values(|m: TurnMessage| m@)
    }
}

impl RecvQueue {
    pub fn new() -> (r: RecvQueue)
        ensures
            r@ == Seq::<TurnMessageView>::empty(),
    {
        let r = RecvQueue { items: Vec::new() };
        assert(r@ =~= Seq::<TurnMessageView>::empty());
        r
    }

    pub fn len(&self) -> (r: usize)
        ensures
            r == self@.len(),
    {
        self.items.len()
    }

    /// Appends a received frame.
    pub fn push(&mut self, item: TurnMessage)
        ensures
            final(self)@ == old(self)@.push(item@),
    {
        self.items.push(item);
        assert(self@ =~= old(self)@.push(item@));
    }

    fn take_head(&mut self) -> (r: TurnMessage)
        requires
            old(self)@.len() > 0,
        ensures
            r@ == old(self)@[0],
            final(self)@ == old(self)@.drop_first(),
    {
        let r = self.items.remove(0);
        assert(self@ =~= old(self)@.drop_first());
        r
    }

    /// Takes the head if it is a STUN message; otherwise takes nothing.
    pub fn poll_stun(&mut self) -> (r: Option<Vec<u8>>)
        ensures
            old(self)@.len() > 0 && old(self)@[0] is Stun ==> r is Some && old(self)@[0]
                == TurnMessageView::Stun(r->0@) && final(self)@ == old(self)@.drop_first(),
            !(old(self)@.len() > 0 && old(self)@[0] is Stun) ==> r is None && final(self)@ == old(
                self,
            )@,
    {
        if self.items.len() == 0 {
            return None;
        }
        let is_stun = match &self.items[0] {
            TurnMessage::Stun(_) => true,
            TurnMessage::ChannelData(_) => false,
        };
        assert(self.items@[0]@ == self@[0]);
        if !is_stun {
            return None;
        }
        match self.take_head() {
            TurnMessage::Stun(b) => Some(b),
            TurnMessage::ChannelData(_) => None,
        }
    }

    /// Takes the head if it is a ChannelData message; otherwise takes nothing.
    pub fn poll_channel_data(&mut self) -> (r: Option<ChannelData>)
        ensures
            old(self)@.len() > 0 && old(self)@[0] is ChannelData ==> r is Some && old(self)@[0]
                == TurnMessageView::ChannelData(r->0@.0, r->0@.1) && final(self)@ == old(
                self,
            )@.drop_first(),
            !(old(self)@.len() > 0 && old(self)@[0] is ChannelData) ==> r is None && final(self)@
                == old(self)@,
    {
        if self.items.len() == 0 {
            return None;
        }
        let is_channel_data = match &self.items[0] {
            TurnMessage::Stun(_) => false,
            TurnMessage::ChannelData(_) => true,
        };
        assert(self.items@[0]@ == self@[0]);
        if !is_channel_data {
            return None;
        }
        match self.take_head() {
            TurnMessage::ChannelData(c) => Some(c),
            TurnMessage::Stun(_) => None,
        }
    }
}

} // verus!
