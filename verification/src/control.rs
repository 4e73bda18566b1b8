use vstd::prelude::*;

verus! {

/// What one poll of the terminal input produced within the refresh
/// interval: nothing before the timeout, a key press, or some other
/// event this dashboard ignores.
#[derive(Clone, Copy, PartialEq, Eq, Structural, Debug)]
pub enum PollOutcome {
    Timeout,
    Key(char),
    OtherEvent,
}

/// Whether the refresh loop runs another cycle or stops.
#[derive(Clone, Copy, PartialEq, Eq, Structural, Debug)]
pub enum LoopAction {
    Continue,
    Quit,
}

/// The designated quit key.
pub const QUIT_KEY: char = 'q';

/// Decides the refresh loop's fate for one cycle: exactly a quit-key
/// press ends the loop on the current iteration; a timeout or any other
/// event lets the next cycle start.
pub fn control_step(poll: PollOutcome) -> (r: LoopAction)
    ensures
        r == LoopAction::Quit <==> poll == PollOutcome::Key(QUIT_KEY),
        r == LoopAction::Quit || r == LoopAction::Continue,
{
    match poll {
        PollOutcome::Key(c) => if c == QUIT_KEY {
            LoopAction::Quit
        } else {
            LoopAction::Continue
        },
        PollOutcome::Timeout => LoopAction::Continue,
        PollOutcome::OtherEvent => LoopAction::Continue,
    }
}

} // verus!
