//! Reassembly of logical messages from frames.
//!
//! The peer may split one message into several frames. It announces this by
//! a frame whose whole text is a bare decimal numeral `N`; the `N` frames
//! that follow, laid end to end, are the message. Any other frame is a
//! message by itself.

use crate::decimal::{lemma_numeral_round_trip, numeral_of, parse_decimal, parsed_decimal};
use vstd::prelude::*;

verus! {

/// Where a reassembly stands.
pub enum Assembly {
    /// Between messages: the next frame starts one.
    Idle,
    /// `remaining` more frames belong to the message whose text begins with
    /// `text`.
    Collecting { remaining: nat, text: Seq<char> },
}

/// What one frame does to a reassembly: the state after it, and the message
/// that it completes, if it completes one.
pub open spec fn accept(state: Assembly, frame: Seq<char>) -> (Assembly, Option<Seq<char>>) {
    match state {
        Assembly::Idle => match parsed_decimal(frame) {
            Some(count) => if count == 0 {
                (Assembly::Idle, Some(Seq::empty()))
            } else {
                (Assembly::Collecting { remaining: count as nat, text: Seq::empty() }, None)
            },
            None => (Assembly::Idle, Some(frame)),
        },
        Assembly::Collecting { remaining, text } => if remaining <= 1 {
            (Assembly::Idle, Some(text + frame))
        } else {
            (Assembly::Collecting { remaining: (remaining - 1) as nat, text: text + frame }, None)
        },
    }
}

/// What a run of frames does to a reassembly: the state after the last of
/// them, and the messages completed on the way, in order.
pub open spec fn feed(state: Assembly, frames: Seq<Seq<char>>) -> (Assembly, Seq<Seq<char>>)
    decreases frames.len(),
{
    if frames.len() == 0 {
        (state, Seq::empty())
    } else {
        let (next, message) = accept(state, frames[0]);
        let (last, later) = feed(next, frames.drop_first());
        (
            last,
            match message {
                Some(m) => seq![m] + later,
                None => later,
            },
        )
    }
}

/// The frames laid end to end, in order, with nothing between them.
pub open spec fn joined(frames: Seq<Seq<char>>) -> Seq<char>
    decreases frames.len(),
{
    if frames.len() == 0 {
        Seq::empty()
    } else {
        frames[0] + joined(frames.drop_first())
    }
}

/// While frames are still owed, feeding some of them completes nothing; the
/// frame that settles the debt completes the message, which is all the
/// frames joined.
pub proof fn lemma_collecting(remaining: nat, text: Seq<char>, frames: Seq<Seq<char>>)
    requires
        remaining >= 1,
        frames.len() <= remaining,
    ensures
        feed(Assembly::Collecting { remaining, text }, frames) == if frames.len() == remaining {
            (Assembly::Idle, seq![text + joined(frames)])
        } else {
            (
                Assembly::Collecting {
                    remaining: (remaining - frames.len()) as nat,
                    text: text + joined(frames),
                },
                Seq::empty(),
            )
        },
    decreases frames.len(),
{
    if frames.len() > 0 {
        let rest = frames.drop_first();
        assert(text + joined(frames) =~= (text + frames[0]) + joined(rest));
        if remaining == 1 {
            assert(feed(Assembly::Idle, rest) == (Assembly::Idle, Seq::<Seq<char>>::empty()));
            assert(seq![text + frames[0]] + Seq::<Seq<char>>::empty() =~= seq![
                text + frames[0],
            ]);
        } else {
            lemma_collecting((remaining - 1) as nat, text + frames[0], rest);
        }
    }
}

/// A count frame followed by as many frames as it announces gives one
/// message, the frames joined, and leaves the reassembly between messages.
/// With fewer frames than announced no message is complete yet.
pub proof fn lemma_chunks_reassemble(count: u64, frames: Seq<Seq<char>>)
    requires
        frames.len() <= count,
    ensures
        feed(Assembly::Idle, seq![numeral_of(count as nat)] + frames) == if frames.len()
            == count {
            (Assembly::Idle, seq![joined(frames)])
        } else {
            (
                Assembly::Collecting {
                    remaining: (count - frames.len()) as nat,
                    text: joined(frames),
                },
                Seq::empty(),
            )
        },
{
    lemma_numeral_round_trip(count as nat);
    assert((seq![numeral_of(count as nat)] + frames).drop_first() =~= frames);
    if count == 0 {
        assert(feed(Assembly::Idle, frames) == (Assembly::Idle, Seq::<Seq<char>>::empty()));
        assert(seq![Seq::<char>::empty()] + Seq::<Seq<char>>::empty() =~= seq![
            Seq::<char>::empty(),
        ]);
    } else {
        lemma_collecting(count as nat, Seq::empty(), frames);
    }
}

/// A frame that is no count is a message by itself.
pub proof fn lemma_plain_frame(frame: Seq<char>)
    requires
        parsed_decimal(frame) is None,
    ensures
        feed(Assembly::Idle, seq![frame]) == (Assembly::Idle, seq![frame]),
{
    assert(feed(Assembly::Idle, seq![frame].drop_first()) == (
        Assembly::Idle,
        Seq::<Seq<char>>::empty(),
    ));
}

/// Puts the frames of one logical message together.
pub struct Reassembler {
    remaining: u64,
    text: String,
}

impl View for Reassembler {
    type V = Assembly;

    closed spec fn view(&self) -> Assembly {
        if self.remaining == 0 {
            Assembly::Idle
        } else {
            Assembly::Collecting { remaining: self.remaining as nat, text: self.text@ }
        }
    }
}

impl Reassembler {
    /// A reassembler between messages.
    pub fn new() -> (reassembler: Reassembler)
        ensures
            reassembler@ == Assembly::Idle,
    {
        Reassembler { remaining: 0, text: String::new() }
    }

    /// Whether the next frame continues a message that a count announced.
    pub fn is_collecting(&self) -> (collecting: bool)
        ensures
            collecting == (self@ is Collecting),
    {
        self.remaining != 0
    }

    /// Takes the next frame. Answers the logical message that the frame
    /// completes, and nothing while frames of it are outstanding.
    pub fn push(&mut self, frame: String) -> (message: Option<String>)
        ensures
            final(self)@ == accept(old(self)@, frame@).0,
            match message {
                Some(text) => accept(old(self)@, frame@).1 == Some(text@),
                None => accept(old(self)@, frame@).1 is None,
            },
    {
        if self.remaining == 0 {
            match parse_decimal(frame.as_str()) {
                Some(count) => {
                    if count == 0 {
                        Some(String::new())
                    } else {
                        self.remaining = count;
                        self.text = String::new();
                        None
                    }
                },
                None => Some(frame),
            }
        } else {
            self.text.append(frame.as_str());
            self.remaining = self.remaining - 1;
            if self.remaining == 0 {
                let mut text = String::new();
                core::mem::swap(&mut self.text, &mut text);
                Some(text)
            } else {
                None
            }
        }
    }
}

} // verus!
