use vstd::prelude::*;

use crate::errors::{error_message_view, AppError};

verus! {

/// Collects recoverable problems for the user. Failures of background
/// jobs and other recoverable errors are queued here as messages; the
/// shell takes them once per tick and shows them as non-fatal toasts.
pub struct Notifier {
    queue: Vec<String>,
}

impl View for Notifier {
    type V = Seq<Seq<char>>;

    closed spec fn view(&self) -> Seq<Seq<char>> {
        self.queue@.map_values(|m: String| m@)
    }
}

impl Notifier {
    /// An empty queue.
    pub fn new() -> (r: Self)
        ensures
            r@ == Seq::<Seq<char>>::empty(),
    {
        let r = Notifier { queue: Vec::new() };
        proof {
            assert(r@ =~= Seq::<Seq<char>>::empty());
        }
        r
    }

    /// Queues the message of a recoverable error; it is reported exactly
    /// once, when the shell takes the queue.
    pub fn report_error(&mut self, err: &AppError)
        ensures
            final(self)@ == old(self)@.push(error_message_view(*err)),
    {
        let msg = err.message_text();
        self.queue.push(msg);
        proof {
            assert(final(self)@ =~= old(self)@.push(error_message_view(*err)));
        }
    }

    /// Queues the error of a failed result; a success changes nothing.
    pub fn report_result(&mut self, result: &Result<(), AppError>)
        ensures
            result matches Err(e) ==> final(self)@ == old(self)@.push(error_message_view(*e)),
            result is Ok ==> final(self)@ == old(self)@,
    {
        if let Err(e) = result {
            self.report_error(e);
        }
    }

    /// Whether nothing is queued.
    pub fn is_empty(&self) -> (r: bool)
        ensures
            r == (self@.len() == 0),
    {
        self.queue.len() == 0
    }

    /// Hands every queued message to the shell, in order, and empties the
    /// queue.
    pub fn take_messages(&mut self) -> (r: Vec<String>)
        ensures
            r@.map_values(|m: String| m@) == old(self)@,
            final(self)@ == Seq::<Seq<char>>::empty(),
    {
        let mut r: Vec<String> = Vec::new();
        core::mem::swap(&mut r, &mut self.queue);
        proof {
            assert(final(self)@ =~= Seq::<Seq<char>>::empty());
        }
        r
    }
}

} // verus!
