//! The board that all visitors share, and what a message does to it.
//!
//! The board holds the current paste with the instant at which it lapses, and
//! a second paste that never lapses. The last writer wins: a message replaces
//! the paste it is meant for, and an empty text clears it.

use crate::clock::{in_chrono_range, shifted, Moment, ShiftError, NANOS_PER_SECOND};
use crate::lifetime::{expiry_seconds, expiry_seconds_of, setting_of};
use vstd::prelude::*;

verus! {

/// A text that a visitor sends.
#[derive(Debug, Clone, PartialEq, Eq)]
pub struct Message {
    /// The sender's session identifier.
    pub id: String,
    /// The new text; empty to clear the paste.
    pub content: String,
    /// Whether the text is meant for the paste that never lapses.
    pub persistent: bool,
}

/// The shared board as the server keeps it.
#[derive(Debug, Clone, PartialEq, Eq)]
pub struct AppState {
    /// The current paste, if there is one.
    pub content: Option<String>,
    /// When the current paste lapses; moved by every message for it.
    pub expiry: Option<Moment>,
    /// The paste that never lapses, if there is one.
    pub persistent_content: Option<String>,
}

/// The board as plain values: texts as character sequences, the expiry in
/// nanoseconds since the Unix epoch.
pub struct Board {
    /// The current paste.
    pub content: Option<Seq<char>>,
    /// When the current paste lapses.
    pub expiry: Option<int>,
    /// The paste that never lapses.
    pub persistent_content: Option<Seq<char>>,
}

/// The characters of a stored text.
pub open spec fn text_of(stored: Option<String>) -> Option<Seq<char>> {
    match stored {
        Some(text) => Some(text@),
        None => None,
    }
}

/// A stored instant in nanoseconds since the Unix epoch.
pub open spec fn instant_of(stored: Option<Moment>) -> Option<int> {
    match stored {
        Some(at) => Some(at@),
        None => None,
    }
}

/// What is stored for a text that arrived: nothing for the empty text.
pub open spec fn kept(text: Seq<char>) -> Option<Seq<char>> {
    if text.len() == 0 {
        None
    } else {
        Some(text)
    }
}

/// The expiry of a paste that arrived at `now` with a lifetime of `seconds`,
/// where `chrono` can compute it.
pub open spec fn expiry_after(now: int, seconds: int) -> Option<int> {
    match shifted(now, seconds) {
        Ok(at) => Some(at),
        Err(_) => None,
    }
}

/// Whether a message that arrived at `now` with a lifetime of `seconds` was
/// taken in whole. A persistent message always is; any other only where its
/// expiry can be computed, and else the reason is given.
pub open spec fn outcome(persistent: bool, now: int, seconds: int) -> Result<(), ShiftError> {
    if persistent {
        Ok(())
    } else {
        match shifted(now, seconds) {
            Ok(_) => Ok(()),
            Err(error) => Err(error),
        }
    }
}

impl Board {
    /// The board of a server that has just started.
    pub open spec fn empty() -> Board {
        Board { content: None, expiry: None, persistent_content: None }
    }

    /// The board after a message with the text `content` arrived at `now`,
    /// with a lifetime of `seconds`.
    ///
    /// A persistent message replaces the lasting paste and nothing else. Any
    /// other message replaces the current paste and moves the expiry to
    /// `seconds` after `now`; where that instant cannot be computed the
    /// expiry stays as it was.
    pub open spec fn received(self, content: Seq<char>, persistent: bool, seconds: int, now: int) -> Board {
        if persistent {
            Board { persistent_content: kept(content), ..self }
        } else {
            Board {
                content: kept(content),
                expiry: match expiry_after(now, seconds) {
                    Some(at) => Some(at),
                    None => self.expiry,
                },
                ..self
            }
        }
    }

    /// The board as a reader finds it at `now`: once the expiry has come the
    /// current paste is gone. The expiry itself stays.
    pub open spec fn lapsed(self, now: int) -> Board {
        match self.expiry {
            Some(at) => if at <= now {
                Board { content: None, ..self }
            } else {
                self
            },
            None => self,
        }
    }
}

impl Board {
    /// The two pastes do not touch each other: a persistent text leaves the
    /// current paste and its expiry as they were, and any other text leaves
    /// the lasting paste as it was.
    pub proof fn pastes_are_independent(self, text: Seq<char>, seconds: int, now: int)
        ensures
            self.received(text, true, seconds, now).content == self.content,
            self.received(text, true, seconds, now).expiry == self.expiry,
            self.received(text, false, seconds, now).persistent_content == self.persistent_content,
    {
    }

    /// The last writer wins: of two texts for the same paste, the board
    /// holds the second. Two persistent texts leave the board as the second
    /// alone would; so do two other texts where the second one's expiry can
    /// be computed.
    pub proof fn last_writer_wins(
        self,
        first: Seq<char>,
        second: Seq<char>,
        persistent: bool,
        first_seconds: int,
        first_now: int,
        seconds: int,
        now: int,
    )
        ensures
            persistent ==> self.received(first, true, first_seconds, first_now).received(
                second,
                true,
                seconds,
                now,
            ).persistent_content == kept(second),
            !persistent ==> self.received(first, false, first_seconds, first_now).received(
                second,
                false,
                seconds,
                now,
            ).content == kept(second),
            persistent || expiry_after(now, seconds) is Some ==> self.received(
                first,
                persistent,
                first_seconds,
                first_now,
            ).received(second, persistent, seconds, now) == self.received(
                second,
                persistent,
                seconds,
                now,
            ),
    {
    }

    /// The lasting paste never lapses, and a lapse leaves the expiry set.
    pub proof fn lasting_paste_never_lapses(self, now: int)
        ensures
            self.lapsed(now).persistent_content == self.persistent_content,
            self.lapsed(now).expiry == self.expiry,
    {
    }

    /// A text that arrived lives for exactly its lifetime: a reader finds it
    /// before `seconds` have passed since `now`, and no longer from then on.
    pub proof fn paste_lives_for_its_lifetime(self, text: Seq<char>, seconds: int, now: int, read: int)
        requires
            expiry_after(now, seconds) is Some,
        ensures
            self.received(text, false, seconds, now).lapsed(read).content == (if read < now + seconds
                * NANOS_PER_SECOND {
                kept(text)
            } else {
                None
            }),
    {
    }

    /// Time only takes away: what a later reader finds does not depend on
    /// whether an earlier reader came by, and a paste once gone stays gone
    /// until the next text.
    pub proof fn lapse_is_final(self, earlier: int, later: int)
        requires
            earlier <= later,
        ensures
            self.lapsed(earlier).lapsed(later) == self.lapsed(later),
            self.lapsed(earlier).content is None ==> self.lapsed(later).content is None,
    {
    }
}

impl View for AppState {
    type V = Board;

    open spec fn view(&self) -> Board {
        Board {
            content: text_of(self.content),
            expiry: instant_of(self.expiry),
            persistent_content: text_of(self.persistent_content),
        }
    }
}

impl Default for AppState {
    /// The board of a server that has just started: no paste, no expiry.
    fn default() -> (r: AppState)
        ensures
            r@ == Board::empty(),
    {
        AppState { content: None, expiry: None, persistent_content: None }
    }
}

/// The text to store for a text that arrived: nothing for the empty text.
pub fn keep(text: String) -> (r: Option<String>)
    ensures
        text_of(r) == kept(text@),
{
    if !text.as_str().is_empty() {
        Some(text)
    } else {
        None
    }
}

impl AppState {
    /// Moves the expiry to `seconds` after `now`, or leaves it where that
    /// instant cannot be computed.
    fn expire_after(&mut self, now: Moment, seconds: i64) -> (r: Result<(), ShiftError>)
        ensures
            final(self).content == old(self).content,
            final(self).persistent_content == old(self).persistent_content,
            instant_of(final(self).expiry) == (match expiry_after(now@, seconds as int) {
                Some(at) => Some(at),
                None => instant_of(old(self).expiry),
            }),
            r == outcome(false, now@, seconds as int),
    {
        match now.plus_seconds(seconds) {
            Ok(at) => {
                self.expiry = Some(at);
                Ok(())
            },
            Err(e) => Err(e),
        }
    }

    /// Takes in a message that arrived at `now`, with the lifetime that
    /// `configured` stands for.
    ///
    /// Fails where the new expiry cannot be computed; the text is stored all
    /// the same and the old expiry stays.
    pub fn receive_at(&mut self, message: Message, configured: Option<&str>, now: Moment) -> (r: Result<
        (),
        ShiftError,
    >)
        ensures
            final(self)@ == old(self)@.received(
                message.content@,
                message.persistent,
                expiry_seconds_of(setting_of(configured)) as int,
                now@,
            ),
            r == outcome(
                message.persistent,
                now@,
                expiry_seconds_of(setting_of(configured)) as int,
            ),
    {
        if message.persistent {
            self.persistent_content = keep(message.content);
            return Ok(());
        }
        let seconds: i64 = expiry_seconds(configured);
        self.content = keep(message.content);
        self.expire_after(now, seconds)
    }

    /// Takes in a message that arrives now, by the system clock, with the
    /// lifetime that `configured` stands for.
    ///
    /// The clock is read for a message that is not persistent, after its
    /// text is stored. The result is that of [`AppState::receive_at`] at the
    /// instant read.
    pub fn receive(&mut self, message: Message, configured: Option<&str>) -> (r: Result<(), ShiftError>)
        ensures
            (exists|now: int|
                {
                    &&& in_chrono_range(now)
                    &&& final(self)@ == #[trigger] old(self)@.received(
                        message.content@,
                        message.persistent,
                        expiry_seconds_of(setting_of(configured)) as int,
                        now,
                    )
                    &&& r == outcome(
                        message.persistent,
                        now,
                        expiry_seconds_of(setting_of(configured)) as int,
                    )
                }),
    {
        if message.persistent {
            self.persistent_content = keep(message.content);
            assert(in_chrono_range(0) && self@ == old(self)@.received(
                message.content@,
                message.persistent,
                expiry_seconds_of(setting_of(configured)) as int,
                0,
            ));
            return Ok(());
        }
        let seconds: i64 = expiry_seconds(configured);
        self.content = keep(message.content);
        let now = Moment::now();
        let r = self.expire_after(now, seconds);
        assert(self@ == old(self)@.received(
            message.content@,
            message.persistent,
            expiry_seconds_of(setting_of(configured)) as int,
            now@,
        ));
        r
    }

    /// Drops the current paste if its expiry has come by `now`.
    pub fn expire_at(&mut self, now: Moment)
        ensures
            final(self)@ == old(self)@.lapsed(now@),
    {
        match self.expiry {
            Some(at) => {
                if at.not_after(&now) {
                    self.content = None;
                }
            },
            None => {},
        }
    }

    /// Drops the current paste if its expiry has come by now, by the system
    /// clock. The clock is read only where an expiry is set.
    pub fn expire(&mut self)
        ensures
            exists|now: int| in_chrono_range(now) && final(self)@ == #[trigger] old(self)@.lapsed(now),
    {
        match self.expiry {
            Some(at) => {
                let now = Moment::now();
                if at.not_after(&now) {
                    self.content = None;
                }
                assert(self@ == old(self)@.lapsed(now@));
            },
            None => {
                assert(in_chrono_range(0) && self@ == old(self)@.lapsed(0));
            },
        }
    }
}

} // verus!
