//! The navigation history as a mathematical object: a stack of note
//! identifiers, the identifier of the note on display, and the transition
//! that each message stands for.

use vstd::prelude::*;
use crate::message::MessageView;

verus! {

/// The two states that the controller alternates between.
#[derive(Debug, Clone, Copy, PartialEq, Eq, Structural)]
pub enum Mode {
    /// No note is on display: the selection screen is active.
    Selecting,
    /// The note on top of the stack is on display.
    Displaying,
}

/// The controller's navigation state.
pub struct Navigation {
    /// The identifiers of the notes visited, the current one last.
    pub stack: Seq<Seq<char>>,
    /// The identifier that the display screen was built from, if there is
    /// a display screen.
    pub shown: Option<Seq<char>>,
}

/// The last identifier of a stack, if it has one.
pub open spec fn top(stack: Seq<Seq<char>>) -> Option<Seq<char>> {
    if stack.len() > 0 {
        Some(stack.last())
    } else {
        None
    }
}

/// One push for each of the given identifiers, in their order.
pub open spec fn pushes(ids: Seq<Seq<char>>) -> Seq<MessageView> {
    Seq::new(ids.len(), |i: int| MessageView::DisplayStackPush(ids[i]))
}

/// The given number of pops.
pub open spec fn pops(count: nat) -> Seq<MessageView> {
    Seq::new(count, |i: int| MessageView::DisplayStackPop)
}

impl Navigation {
    /// The state at start: nothing visited, nothing on display.
    pub open spec fn empty() -> Navigation {
        Navigation { stack: Seq::empty(), shown: None }
    }

    /// A note is on display exactly if the stack is not empty, and it is
    /// the note on top of the stack.
    pub open spec fn consistent(self) -> bool {
        self.shown == top(self.stack)
    }

    /// Which of the two screens is active.
    pub open spec fn mode(self) -> Mode {
        if self.shown is Some {
            Mode::Displaying
        } else {
            Mode::Selecting
        }
    }

    /// The stack once the message has taken effect. A pop of the empty
    /// stack leaves it empty.
    pub open spec fn stack_after(self, msg: MessageView) -> Seq<Seq<char>> {
        match msg {
            MessageView::DisplayStackClear => Seq::empty(),
            MessageView::DisplayStackPop => if self.stack.len() > 0 {
                self.stack.drop_last()
            } else {
                self.stack
            },
            MessageView::DisplayStackPush(id) => self.stack.push(id),
            _ => self.stack,
        }
    }

    /// The identifier that a new display screen has to be built from before
    /// the message can take effect: the top of the stack as the message
    /// leaves it, where a push or a pop leaves one.
    pub open spec fn pending(self, msg: MessageView) -> Option<Seq<char>> {
        if msg is DisplayStackPop || msg is DisplayStackPush {
            top(self.stack_after(msg))
        } else {
            None
        }
    }

    /// The state once the message has taken effect.
    pub open spec fn step(self, msg: MessageView) -> Navigation {
        Navigation {
            stack: self.stack_after(msg),
            shown: if msg.navigates() {
                top(self.stack_after(msg))
            } else {
                self.shown
            },
        }
    }

    /// The state once the messages have taken effect one after the other.
    pub open spec fn run(self, msgs: Seq<MessageView>) -> Navigation
        decreases msgs.len(),
    {
        if msgs.len() == 0 {
            self
        } else {
            self.run(msgs.drop_last()).step(msgs.last())
        }
    }

    /// No message breaks the tie between the stack and the display: if the
    /// note on display was the top of the stack before, it is so after.
    pub proof fn lemma_step_consistent(self, msg: MessageView)
        requires
            self.consistent(),
        ensures
            self.step(msg).consistent(),
    {
    }

    /// A message that does not navigate changes nothing.
    pub proof fn lemma_step_idle(self, msg: MessageView)
        requires
            !msg.navigates(),
        ensures
            self.step(msg) == self,
    {
    }

    /// The tie between the stack and the display holds after any run of
    /// messages from a state in which it held.
    pub proof fn lemma_run_consistent(self, msgs: Seq<MessageView>)
        requires
            self.consistent(),
        ensures
            self.run(msgs).consistent(),
        decreases msgs.len(),
    {
        if msgs.len() > 0 {
            self.lemma_run_consistent(msgs.drop_last());
        }
    }

    /// Running a single message is taking its step.
    pub proof fn lemma_run_single(self, msg: MessageView)
        ensures
            self.run(seq![msg]) == self.step(msg),
    {
        let one = seq![msg];
        assert(one.drop_last() =~= Seq::<MessageView>::empty());
        assert(self.run(one.drop_last()) == self);
    }

    /// Running two series of messages in a row is running their
    /// concatenation.
    pub proof fn lemma_run_concat(self, first: Seq<MessageView>, second: Seq<MessageView>)
        ensures
            self.run(first + second) == self.run(first).run(second),
        decreases second.len(),
    {
        if second.len() == 0 {
            assert(first + second =~= first);
        } else {
            self.lemma_run_concat(first, second.drop_last());
            assert((first + second).drop_last() =~= first + second.drop_last());
            assert((first + second).last() == second.last());
        }
    }

    /// Clearing leads to the empty state from every state, whatever the
    /// depth of the stack.
    pub proof fn lemma_clear_resets(self)
        ensures
            self.step(MessageView::DisplayStackClear) == Navigation::empty(),
    {
    }

    /// A pop undoes the push before it.
    pub proof fn lemma_pop_undoes_push(self, id: Seq<char>)
        requires
            self.consistent(),
        ensures
            self.step(MessageView::DisplayStackPush(id)).step(MessageView::DisplayStackPop)
                == self,
    {
        assert(self.stack.push(id).drop_last() =~= self.stack);
    }

    /// Pushing any identifiers and then popping as many times leads back
    /// to the state before the first push.
    pub proof fn lemma_pushes_pops_return(self, ids: Seq<Seq<char>>)
        requires
            self.consistent(),
        ensures
            self.run(pushes(ids) + pops(ids.len())) == self,
        decreases ids.len(),
    {
        if ids.len() == 0 {
            assert(pushes(ids) + pops(ids.len()) =~= Seq::<MessageView>::empty());
        } else {
            let head = seq![MessageView::DisplayStackPush(ids.first())];
            let inner = pushes(ids.drop_first()) + pops(ids.drop_first().len());
            let tail = seq![MessageView::DisplayStackPop];
            let after = self.step(MessageView::DisplayStackPush(ids.first()));
            assert(pushes(ids) + pops(ids.len()) =~= head + (inner + tail));
            self.lemma_run_concat(head, inner + tail);
            self.lemma_run_single(MessageView::DisplayStackPush(ids.first()));
            after.lemma_run_concat(inner, tail);
            after.lemma_pushes_pops_return(ids.drop_first());
            after.lemma_run_single(MessageView::DisplayStackPop);
            self.lemma_pop_undoes_push(ids.first());
        }
    }

    /// From the start, pushing any number of identifiers and popping as
    /// many times ends with an empty stack and nothing on display.
    pub proof fn lemma_pushes_pops_empty(ids: Seq<Seq<char>>)
        ensures
            Navigation::empty().run(pushes(ids) + pops(ids.len())) == Navigation::empty(),
    {
        Navigation::empty().lemma_pushes_pops_return(ids);
    }
}

} // verus!
