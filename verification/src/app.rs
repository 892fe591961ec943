//! The controller: it owns the screens and the navigation stack, hands
//! each key to the screen that is active and acts on the answer.

use vstd::prelude::*;
use crossterm::event::KeyEvent;
use ratatui::buffer::Buffer;
use ratatui::layout::Rect;
use crate::message::Message;
use crate::message::MessageView;
use crate::message::TerminalMessage;
use crate::navigation::Mode;
use crate::navigation::Navigation;
use crate::screen::Built;
use crate::screen::Chooser;
use crate::screen::DisplayScreen;
use crate::screen::Screen;
use crate::screen::SelectScreen;
use crate::terminal::is_press;
use crate::terminal::pressed;

verus! {

/// The main state of the application.
///
/// It consists of a selection screen that always exists, the stack of the
/// notes that the user has gone through, and the display screen of the
/// note on top of that stack, if there is one.
pub struct App<S, D, I, C> {
    /// The screen on which notes are chosen.
    select: Chooser<S>,
    /// The screen of the note on top of the stack, if the stack has one.
    display: Option<Built<D>>,
    /// The identifiers of the notes visited, the current one last.
    display_stack: Vec<String>,
    /// The configuration, as it was at start.
    config: C,
    /// The handle of the note index that all screens share.
    index: I,
}

impl<S, D, I, C> View for App<S, D, I, C> {
    type V = Navigation;

    /// The stack, and the identifier that the display screen was built
    /// from.
    open spec fn view(&self) -> Navigation {
        Navigation {
            stack: self.identifiers(),
            shown: match self.shown() {
                Some(built) => Some(built.source()),
                None => None,
            },
        }
    }
}

impl<S, D, I, C> App<S, D, I, C> {
    /// The invariant of the controller: a display screen exists exactly if
    /// the stack is not empty, and it was built from the top of the stack.
    pub open spec fn wf(&self) -> bool {
        self@.consistent()
    }

    /// The identifiers on the stack, the current one last.
    pub closed spec fn identifiers(&self) -> Seq<Seq<char>> {
        self.display_stack.deep_view()
    }

    /// The selection screen as it is now, with its record.
    pub closed spec fn chooser(&self) -> Chooser<S> {
        self.select
    }

    /// The display screen as it is now, with its record.
    pub closed spec fn shown(&self) -> Option<Built<D>> {
        self.display
    }

    /// The handle of the shared note index.
    pub closed spec fn index_handle(&self) -> I {
        self.index
    }

    /// The configuration.
    pub closed spec fn configuration(&self) -> C {
        self.config
    }

    /// The screen that a key goes to: none for an event that is no press,
    /// else the display screen if there is one, else the selection screen.
    pub open spec fn receiver(&self, key: KeyEvent) -> Option<Mode> {
        if is_press(key) {
            Some(self@.mode())
        } else {
            None
        }
    }

    /// Whether a display screen in this state, if there is one, has been
    /// handed no key yet.
    pub open spec fn display_is_new(&self) -> bool {
        self.shown() matches Some(display) ==> display.handled() == Seq::<KeyEvent>::empty()
    }

    /// Whether `after` is this state with the key handed to the selection
    /// screen, and to it alone: no display screen in `after` has seen a
    /// key.
    pub open spec fn routed_to_selection(&self, after: &Self, key: KeyEvent) -> bool {
        &&& after.chooser().handled() == self.chooser().handled().push(key)
        &&& after.display_is_new()
    }

    /// Whether `mid` is this state right after the active screen, and no
    /// other, has been handed the key.
    ///
    /// The stack, the index and the configuration are as they were. With a
    /// display screen, the selection screen is as it was, and the display
    /// screen is still the one built from the same identifier, with the key
    /// added to its record. Without one, there is none in `mid` either,
    /// and the key is added to the selection screen's record.
    pub open spec fn handed(&self, mid: &Self, key: KeyEvent) -> bool {
        &&& mid.identifiers() == self.identifiers()
        &&& mid.index_handle() == self.index_handle()
        &&& mid.configuration() == self.configuration()
        &&& self.shown() matches Some(before) ==> {
            &&& mid.chooser() == self.chooser()
            &&& mid.shown() matches Some(display)
            &&& display.source() == before.source()
            &&& display.handled() == before.handled().push(key)
        }
        &&& self.shown() is None ==> {
            &&& mid.shown() is None
            &&& mid.chooser().handled() == self.chooser().handled().push(key)
        }
    }
}

impl<S, D, I, C> App<S, D, I, C> where
    S: SelectScreen<I, C>,
    D: DisplayScreen<I, C> + Screen<Error = S::Error>,
{
    /// Whether `outcome` is what the display screen's constructor returns
    /// for the identifier that is pending for the message in this state,
    /// this state's index and its configuration.
    pub open spec fn built_for(&self, msg: MessageView, outcome: Result<D, S::Error>) -> bool {
        exists|id: &str|
            {
                &&& Some(id@) == self@.pending(msg)
                &&& #[trigger] call_ensures(
                    D::new,
                    (id, &self.index_handle(), &self.configuration()),
                    outcome,
                )
            }
    }

    /// Whether `after` and `r` are what acting on the message leads to
    /// from this state.
    ///
    /// The selection screen, the index and the configuration stay as they
    /// are. A message that does not navigate changes nothing at all. On
    /// success the host's instruction is the one that belongs to the
    /// message and the navigation has taken the message's step; where a
    /// display screen had to be built, the one now in place is what the
    /// screen's constructor returned for the pending identifier, and it
    /// has been handed no key. A failure comes only where a display screen
    /// had to be built, is the failure that the constructor returned for
    /// the pending identifier, and leaves everything as it was.
    pub open spec fn acted(
        &self,
        after: &Self,
        msg: MessageView,
        r: Result<TerminalMessage, S::Error>,
    ) -> bool {
        &&& after.chooser() == self.chooser()
        &&& after.index_handle() == self.index_handle()
        &&& after.configuration() == self.configuration()
        &&& !msg.navigates() ==> *after == *self
        &&& r matches Ok(instruction) ==> {
            &&& instruction@ == msg.instruction()
            &&& after@ == self@.step(msg)
            &&& msg.navigates() ==> after.display_is_new()
        }
        &&& (r is Ok && self@.pending(msg) is Some) ==> {
            &&& after.shown() matches Some(display)
            &&& self.built_for(msg, Ok(display.inner()))
        }
        &&& r matches Err(error) ==> {
            &&& *after == *self
            &&& self.built_for(msg, Err(error))
        }
    }

    /// Whether `after` and `r` are what a screen's reply leads to from
    /// this state: a failure of the screen is handed on as it is and
    /// changes nothing, a message is acted on.
    pub open spec fn reacted(
        &self,
        after: &Self,
        reply: Result<Message, S::Error>,
        r: Result<TerminalMessage, S::Error>,
    ) -> bool {
        &&& reply matches Ok(msg) ==> self.acted(after, msg@, r)
        &&& reply matches Err(error) ==> r == Err::<TerminalMessage, S::Error>(error) && *after
            == *self
    }

    /// Creates the application state around the given index and
    /// configuration: the selection screen that its constructor returns
    /// for them, an empty stack, and no display screen.
    pub fn new(index: I, config: C) -> (app: Self)
        ensures
            app.wf(),
            app@ == Navigation::empty(),
            call_ensures(S::new, (&index, &config), app.chooser().inner()),
            app.chooser().handled() == Seq::<KeyEvent>::empty(),
            app.index_handle() == index,
            app.configuration() == config,
    {
        let select = Chooser::new(&index, &config);
        let app = App { select, display: None, display_stack: Vec::new(), config, index };
        assert(app.identifiers() =~= Seq::<Seq<char>>::empty());
        app
    }

    /// Which of the two screens is active.
    pub fn mode(&self) -> (r: Mode)
        ensures
            r == self@.mode(),
    {
        match &self.display {
            Some(_) => Mode::Displaying,
            None => Mode::Selecting,
        }
    }

    /// The identifier that a new display screen has to be built from
    /// before the message can take effect, if it asks for one: the pushed
    /// identifier, or the one below the top for a pop.
    pub fn pending<'a>(&'a self, msg: &'a Message) -> (r: Option<&'a str>)
        ensures
            r is Some <==> self@.pending(msg@) is Some,
            r matches Some(id) ==> self@.pending(msg@) == Some(id@),
    {
        match msg {
            Message::DisplayStackPush(id) => Some(id.as_str()),
            Message::DisplayStackPop => {
                let depth: usize = self.display_stack.len();
                if depth >= 2 {
                    proof {
                        let stack = self.identifiers();
                        assert(stack.drop_last().last() == stack[depth - 2]);
                    }
                    Some(self.display_stack[depth - 2].as_str())
                } else {
                    None
                }
            },
            _ => None,
        }
    }

    /// Lets a message take effect, given the outcome of building the
    /// display screen that it asks for.
    ///
    /// If the screen could not be built, nothing changes and the failure is
    /// handed on. Else the stack changes as the message says, the new
    /// screen replaces the old one, which a clear or a pop to the empty
    /// stack discards without a successor, and the instruction for the
    /// host is returned.
    pub fn finish(&mut self, msg: Message, built: Option<Result<Built<D>, S::Error>>) -> (r: Result<
        TerminalMessage,
        S::Error,
    >)
        requires
            old(self).wf(),
            built is Some <==> old(self)@.pending(msg@) is Some,
            built matches Some(Ok(fresh)) ==> old(self)@.pending(msg@) == Some(fresh.source()),
        ensures
            final(self).wf(),
            final(self).chooser() == old(self).chooser(),
            final(self).index_handle() == old(self).index_handle(),
            final(self).configuration() == old(self).configuration(),
            !msg@.navigates() ==> *final(self) == *old(self),
            built matches Some(Err(error)) ==> r == Err::<TerminalMessage, S::Error>(error)
                && *final(self) == *old(self),
            !(built matches Some(Err(_))) ==> (r matches Ok(instruction) && instruction@
                == msg@.instruction()),
            !(built matches Some(Err(_))) ==> final(self)@ == old(self)@.step(msg@),
            built matches Some(Ok(fresh)) ==> final(self).shown() == Some(fresh),
            built is None && msg@.navigates() ==> final(self).shown() is None,
    {
        let fresh = match built {
            Some(Err(error)) => {
                return Err(error);
            },
            Some(Ok(fresh)) => Some(fresh),
            None => None,
        };
        let ghost before = self.identifiers();
        match msg {
            Message::Nothing => Ok(TerminalMessage::Nothing),
            Message::Quit => Ok(TerminalMessage::Quit),
            Message::OpenExternalCommand(command) => Ok(
                TerminalMessage::OpenExternalCommand(command),
            ),
            Message::DisplayStackClear => {
                self.display_stack.clear();
                self.display = None;
                assert(self.identifiers() =~= Seq::<Seq<char>>::empty());
                Ok(TerminalMessage::Nothing)
            },
            Message::DisplayStackPop => {
                self.display_stack.pop();
                self.display = fresh;
                assert(self.identifiers() =~= if before.len() > 0 {
                    before.drop_last()
                } else {
                    before
                });
                Ok(TerminalMessage::Nothing)
            },
            Message::DisplayStackPush(id) => {
                self.display_stack.push(id);
                self.display = fresh;
                assert(self.identifiers() =~= before.push(id@));
                Ok(TerminalMessage::Nothing)
            },
        }
    }

    /// Acts on the message that a screen has answered with.
    ///
    /// The display screen that the message asks for is built first. If
    /// that fails, the failure is returned and the application is as it
    /// was before, the stack included.
    pub fn apply(&mut self, msg: Message) -> (r: Result<TerminalMessage, S::Error>)
        requires
            old(self).wf(),
        ensures
            final(self).wf(),
            old(self).acted(final(self), msg@, r),
    {
        let built = match self.pending(&msg) {
            Some(id) => {
                let outcome = Built::new(id, &self.index, &self.config);
                assert(self.index_handle() == self.index && self.configuration() == self.config);
                assert(outcome matches Ok(fresh) ==> self.built_for(msg@, Ok(fresh.inner())));
                assert(outcome matches Err(error) ==> self.built_for(msg@, Err(error)));
                Some(outcome)
            },
            None => None,
        };
        let r = self.finish(msg, built);
        r
    }

    /// Acts on what a screen has come back with: a failure is handed on as
    /// it is and changes nothing, a message is acted on as [`App::apply`]
    /// says.
    pub fn react(&mut self, reply: Result<Message, S::Error>) -> (r: Result<
        TerminalMessage,
        S::Error,
    >)
        requires
            old(self).wf(),
        ensures
            final(self).wf(),
            old(self).reacted(final(self), reply, r),
    {
        match reply {
            Ok(msg) => self.apply(msg),
            Err(error) => Err(error),
        }
    }

    /// Updates the application with the given key.
    ///
    /// An event that is no press is ignored. A press goes to the display
    /// screen if there is one, else to the selection screen, and never to
    /// both: the application passes through a state `mid` in which that
    /// screen, and nothing else, is as one call of its `update` with the
    /// key leaves it. What the screen comes back with is then acted on as
    /// [`App::react`] says. After a failure the stack is as it was.
    pub fn update(&mut self, key: KeyEvent) -> (r: Result<TerminalMessage, S::Error>)
        requires
            old(self).wf(),
        ensures
            final(self).wf(),
            final(self).index_handle() == old(self).index_handle(),
            final(self).configuration() == old(self).configuration(),
            old(self).receiver(key) is None ==> *final(self) == *old(self),
            old(self).receiver(key) is None ==> r matches Ok(TerminalMessage::Nothing),
            old(self).receiver(key) == Some(Mode::Selecting) ==> old(self).routed_to_selection(
                final(self),
                key,
            ),
            old(self).shown() is Some ==> final(self).chooser() == old(self).chooser(),
            r is Err ==> final(self)@ == old(self)@,
            r matches Ok(instruction) ==> exists|msg: MessageView| #[trigger]
                old(self)@.step(msg) == final(self)@ && msg.instruction() == instruction@,
            old(self).receiver(key) is Some ==> exists|
                mid: Self,
                reply: Result<Message, S::Error>,
            |
                {
                    &&& old(self).handed(&mid, key)
                    &&& #[trigger] mid.reacted(final(self), reply, r)
                    &&& old(self).shown() matches Some(before) ==> exists|lent: &mut D|
                        {
                            &&& *lent == before.inner()
                            &&& mid.shown() matches Some(display)
                            &&& *final(lent) == display.inner()
                            &&& #[trigger] call_ensures(D::update, (lent, key), reply)
                        }
                    &&& old(self).shown() is None ==> exists|lent: &mut S|
                        {
                            &&& *lent == old(self).chooser().inner()
                            &&& *final(lent) == mid.chooser().inner()
                            &&& #[trigger] call_ensures(S::update, (lent, key), reply)
                        }
                },
    {
        if !pressed(&key) {
            assert(self@ == self@.step(MessageView::Nothing));
            return Ok(TerminalMessage::Nothing);
        }
        let reply = match &mut self.display {
            Some(display) => display.update(key),
            None => self.select.update(key),
        };
        let ghost mid = *self;
        let ghost answer = reply;
        assert(old(self).handed(&mid, key));
        let r = self.react(reply);
        assert(mid.reacted(self, answer, r));
        r
    }

    /// Draws the display screen if there is one, else the selection
    /// screen, into the given area of the buffer: the buffer is left as
    /// one call of that screen's `draw` leaves it, and the application is
    /// not touched.
    pub fn draw(&self, area: Rect, buf: &mut Buffer)
        ensures
            self.shown() matches Some(display) ==> exists|lent: &mut Buffer|
                *lent == *old(buf) && *final(lent) == *final(buf) && #[trigger] call_ensures(
                    D::draw,
                    (&display.inner(), area, lent),
                    (),
                ),
            self.shown() is None ==> exists|lent: &mut Buffer|
                *lent == *old(buf) && *final(lent) == *final(buf) && #[trigger] call_ensures(
                    S::draw,
                    (&self.chooser().inner(), area, lent),
                    (),
                ),
    {
        assert(self.chooser() == self.select);
        match &self.display {
            Some(display) => display.draw(area, buf),
            None => self.select.draw(area, buf),
        }
    }

    /// The identifiers of the notes visited, the current one last.
    pub fn stack(&self) -> (r: &Vec<String>)
        ensures
            r.deep_view() == self@.stack,
    {
        &self.display_stack
    }

    /// The selection screen.
    pub fn select(&self) -> (r: &Chooser<S>)
        ensures
            *r == self.chooser(),
    {
        &self.select
    }

    /// The display screen, if there is one.
    pub fn display(&self) -> (r: Option<&Built<D>>)
        ensures
            r is Some <==> self.shown() is Some,
            r matches Some(built) ==> self.shown() == Some(*built),
    {
        match &self.display {
            Some(built) => Some(built),
            None => None,
        }
    }
}

} // verus!
