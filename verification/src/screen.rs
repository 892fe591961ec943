//! What the controller asks of its screens, and the record it keeps of
//! them.
//!
//! The screens themselves live outside this library. They share a note
//! index of type `I` and a configuration of type `C`; the controller keeps
//! both and lends them to every constructor.

use vstd::prelude::*;
use crossterm::event::KeyEvent;
use ratatui::buffer::Buffer;
use ratatui::layout::Rect;
use crate::message::Message;

verus! {

/// A view that can be active: it handles keys and draws itself.
pub trait Screen {
    /// What the screen fails with.
    type Error;

    /// Handles one key and says what the controller is to do about it.
    fn update(&mut self, key: KeyEvent) -> Result<Message, Self::Error>;

    /// Draws the screen into the given area of the buffer.
    fn draw(&self, area: Rect, buf: &mut Buffer);
}

/// The screen on which notes are chosen. There is always exactly one.
pub trait SelectScreen<I, C>: Screen + Sized {
    /// Makes the screen from the shared index and the configuration.
    fn new(index: &I, config: &C) -> Self;
}

/// The screen that shows one note.
pub trait DisplayScreen<I, C>: Screen + Sized {
    /// Makes the screen for the note with the given identifier, or fails,
    /// as it does when the index knows no such note.
    fn new(id: &str, index: &I, config: &C) -> Result<Self, Self::Error>;
}

/// A selection screen together with the keys it has been handed.
///
/// The only way to a value of this type is [`Chooser::new`], and the only
/// way to its screen's `update` is [`Chooser::update`], so the record is
/// true of every value.
pub struct Chooser<S> {
    screen: S,
    handled: Ghost<Seq<KeyEvent>>,
}

/// A display screen together with the identifier it was built from and
/// the keys it has been handed since.
///
/// The only way to a value of this type is [`Built::new`], and the only
/// way to its screen's `update` is [`Built::update`], so the record is
/// true of every value.
pub struct Built<D> {
    screen: D,
    source: Ghost<Seq<char>>,
    handled: Ghost<Seq<KeyEvent>>,
}

impl<S> Chooser<S> {
    /// The keys that the screen has been handed since it was made, the
    /// latest last.
    pub closed spec fn handled(&self) -> Seq<KeyEvent> {
        self.handled@
    }

    /// The screen as it is now.
    pub closed spec fn inner(&self) -> S {
        self.screen
    }

    /// Makes the selection screen from the shared index and the
    /// configuration: the screen is what its own constructor returns for
    /// them, and its record holds no key.
    pub fn new<I, C>(index: &I, config: &C) -> (r: Self) where S: SelectScreen<I, C>
        ensures
            call_ensures(S::new, (index, config), r.inner()),
            r.handled() == Seq::<KeyEvent>::empty(),
    {
        Chooser { screen: S::new(index, config), handled: Ghost(Seq::empty()) }
    }

    /// The screen.
    pub fn screen(&self) -> (r: &S)
        ensures
            *r == self.inner(),
    {
        &self.screen
    }

    /// Hands one key to the screen and returns its answer: the screen and
    /// the answer are as one call of the screen's `update` with the key
    /// leaves and gives them, and the record has the key added.
    pub fn update(&mut self, key: KeyEvent) -> (r: Result<Message, S::Error>) where S: Screen
        ensures
            exists|lent: &mut S|
                *lent == old(self).inner() && *final(lent) == final(self).inner()
                    && #[trigger] call_ensures(S::update, (lent, key), r),
            final(self).handled() == old(self).handled().push(key),
    {
        proof {
            self.handled@ = self.handled@.push(key);
        }
        self.screen.update(key)
    }

    /// Has the screen draw itself into the given area of the buffer: the
    /// buffer is left as one call of the screen's `draw` leaves it.
    pub fn draw(&self, area: Rect, buf: &mut Buffer) where S: Screen
        ensures
            exists|lent: &mut Buffer|
                *lent == *old(buf) && *final(lent) == *final(buf) && #[trigger] call_ensures(
                    S::draw,
                    (&self.inner(), area, lent),
                    (),
                ),
    {
        assert(self.inner() == self.screen);
        self.screen.draw(area, buf)
    }
}

impl<D> Built<D> {
    /// The identifier that the screen was built from.
    pub closed spec fn source(&self) -> Seq<char> {
        self.source@
    }

    /// The keys that the screen has been handed since it was built, the
    /// latest last.
    pub closed spec fn handled(&self) -> Seq<KeyEvent> {
        self.handled@
    }

    /// The screen as it is now.
    pub closed spec fn inner(&self) -> D {
        self.screen
    }

    /// Builds the display screen for the note with the given identifier:
    /// the result is what the screen's own constructor returns for the
    /// identifier, the index and the configuration, a failure as it is and
    /// a screen with a record that names the identifier and no key.
    pub fn new<I, C>(id: &str, index: &I, config: &C) -> (r: Result<Self, D::Error>) where
        D: DisplayScreen<I, C>,

        ensures
            r matches Ok(built) ==> call_ensures(
                D::new,
                (id, index, config),
                Ok::<D, D::Error>(built.inner()),
            ),
            r matches Ok(built) ==> built.source() == id@,
            r matches Ok(built) ==> built.handled() == Seq::<KeyEvent>::empty(),
            r matches Err(error) ==> call_ensures(
                D::new,
                (id, index, config),
                Err::<D, D::Error>(error),
            ),
    {
        match D::new(id, index, config) {
            Ok(screen) => Ok(Built { screen, source: Ghost(id@), handled: Ghost(Seq::empty()) }),
            Err(error) => Err(error),
        }
    }

    /// The screen.
    pub fn screen(&self) -> (r: &D)
        ensures
            *r == self.inner(),
    {
        &self.screen
    }

    /// Hands one key to the screen and returns its answer: the screen and
    /// the answer are as one call of the screen's `update` with the key
    /// leaves and gives them, the record has the key added, and the
    /// identifier stays.
    pub fn update(&mut self, key: KeyEvent) -> (r: Result<Message, D::Error>) where D: Screen
        ensures
            exists|lent: &mut D|
                *lent == old(self).inner() && *final(lent) == final(self).inner()
                    && #[trigger] call_ensures(D::update, (lent, key), r),
            final(self).source() == old(self).source(),
            final(self).handled() == old(self).handled().push(key),
    {
        proof {
            self.handled@ = self.handled@.push(key);
        }
        self.screen.update(key)
    }

    /// Has the screen draw itself into the given area of the buffer: the
    /// buffer is left as one call of the screen's `draw` leaves it.
    pub fn draw(&self, area: Rect, buf: &mut Buffer) where D: Screen
        ensures
            exists|lent: &mut Buffer|
                *lent == *old(buf) && *final(lent) == *final(buf) && #[trigger] call_ensures(
                    D::draw,
                    (&self.inner(), area, lent),
                    (),
                ),
    {
        assert(self.inner() == self.screen);
        self.screen.draw(area, buf)
    }
}

} // verus!
