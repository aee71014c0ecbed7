//! The command dispatcher: the session's single control loop.
//!
//! The dispatcher is a state machine. It awaits one line at a time from
//! the line channel, classifies it, and either terminates the session or
//! starts exactly one lookup, awaiting that lookup's completion before it
//! considers any further line — lookups are strictly sequential and never
//! overlap. The outcome of a lookup is printed verbatim, whatever it is.
//!
//! The loop that feeds it events — receiving from the channel, running
//! the lookup, printing — lives outside the library; every decision the
//! loop takes comes from [`Dispatcher::step`].

use vstd::prelude::*;
use crate::channel::LineChannel;
use crate::command::{classify, terminate_word, Command};

verus! {

/// Where the dispatch loop stands.
pub enum Phase {
    /// No input is being processed; the next line is awaited.
    Awaiting,
    /// A lookup is in flight; its completion is awaited.
    Dispatching,
    /// The termination command was observed; nothing further is
    /// dispatched.
    Terminated,
}

/// What the dispatch loop observes next.
pub enum Event {
    /// The channel delivered a line.
    LineArrived(String),
    /// The channel is empty right now; nothing was delivered.
    ChannelEmpty,
    /// The lookup in flight completed; the payload is the textual form
    /// of whatever outcome the node returned.
    LookupDone(String),
}

/// What the dispatch loop must do next.
pub enum Action {
    /// Await the next line from the channel.
    AwaitLine,
    /// Start one lookup with the given key and await its completion.
    StartLookup(String),
    /// Print the given outcome text, then await the next line.
    PrintOutcome(String),
    /// Emit the termination notice and leave the loop.
    AnnounceTermination,
    /// The session is already over; do nothing.
    Halt,
}

/// The dispatcher's state.
pub struct Dispatcher {
    phase: Phase,
}

impl Dispatcher {
    /// Where the dispatch loop stands.
    pub closed spec fn phase(&self) -> Phase {
        self.phase
    }

    /// A fresh dispatcher, awaiting its first line.
    pub fn new() -> (d: Dispatcher)
        ensures
            d.phase() is Awaiting,
    {
        Dispatcher { phase: Phase::Awaiting }
    }

    /// Whether a lookup is in flight, so that the only admissible
    /// observation is that lookup's completion.
    pub fn awaiting_completion(&self) -> (r: bool)
        ensures
            r == (self.phase() is Dispatching),
    {
        match self.phase {
            Phase::Dispatching => true,
            _ => false,
        }
    }

    /// One decision of the dispatch loop.
    ///
    /// The loop's structure itself rules two pairings out: while a
    /// lookup is in flight the only possible observation is its
    /// completion, and no completion can arrive while none is in
    /// flight. Termination is absorbing: once the termination command
    /// has been observed, no event — in particular no line enqueued
    /// after it — causes a lookup or any other work.
    pub fn step(&mut self, event: Event) -> (a: Action)
        requires
            old(self).phase() is Awaiting ==> !(event is LookupDone),
            old(self).phase() is Dispatching ==> event is LookupDone,
        ensures
            // Termination is absorbing: nothing is dispatched any more.
            old(self).phase() is Terminated ==> (final(self).phase() is Terminated && a is Halt),
            // The termination word ends the session with a notice.
            event matches Event::LineArrived(l) ==> ((old(self).phase() is Awaiting && l@
                == terminate_word()) ==> (final(self).phase() is Terminated
                && a is AnnounceTermination)),
            // Every other line — the empty line included — starts exactly
            // one lookup, with the line, verbatim, as its key.
            event matches Event::LineArrived(l) ==> ((old(self).phase() is Awaiting && l@
                != terminate_word()) ==> (final(self).phase() is Dispatching && (
                a matches Action::StartLookup(key) && key@ == l@))),
            // An empty channel terminates nothing: the loop awaits again.
            (old(self).phase() is Awaiting && event is ChannelEmpty) ==> (
                final(self).phase() is Awaiting && a is AwaitLine),
            // The outcome of a completed lookup is passed through and
            // printed verbatim, success or failure alike.
            event matches Event::LookupDone(text) ==> (old(self).phase() is Dispatching ==> (
                final(self).phase() is Awaiting && (a matches Action::PrintOutcome(out) && out@
                == text@))),
            // Only the termination word ever terminates the session.
            final(self).phase() is Terminated ==> (old(self).phase() is Terminated || (
            event matches Event::LineArrived(l) && l@ == terminate_word())),
            // A lookup starts only for the line just delivered.
            a matches Action::StartLookup(key) ==> (event matches Event::LineArrived(l) && key@
                == l@ && l@ != terminate_word()),
    {
        match self.phase {
            Phase::Terminated => Action::Halt,
            Phase::Dispatching => match event {
                Event::LookupDone(text) => {
                    self.phase = Phase::Awaiting;
                    Action::PrintOutcome(text)
                },
                _ => {
                    proof {
                        assert(false);
                    }
                    Action::Halt
                },
            },
            Phase::Awaiting => match event {
                Event::LineArrived(l) => match classify(l) {
                    Command::Terminate => {
                        self.phase = Phase::Terminated;
                        Action::AnnounceTermination
                    },
                    Command::Lookup(key) => {
                        self.phase = Phase::Dispatching;
                        Action::StartLookup(key)
                    },
                },
                Event::ChannelEmpty => Action::AwaitLine,
                Event::LookupDone(_) => {
                    proof {
                        assert(false);
                    }
                    Action::Halt
                },
            },
        }
    }
}

/// The keys the dispatcher looks up for a given input sequence: every
/// line before the first termination word, in input order, one lookup
/// per line.
pub open spec fn dispatched_keys(lines: Seq<Seq<char>>) -> Seq<Seq<char>>
    decreases lines.len(),
{
    if lines.len() == 0 {
        Seq::empty()
    } else if lines.first() == terminate_word() {
        Seq::empty()
    } else {
        seq![lines.first()] + dispatched_keys(lines.drop_first())
    }
}

/// Law: for an input sequence in which no line is the termination word,
/// the dispatcher issues exactly one lookup per line, in input order —
/// the dispatched keys are the input lines themselves.
pub proof fn lemma_one_lookup_per_line(lines: Seq<Seq<char>>)
    requires
        forall|i: int| 0 <= i < lines.len() ==> lines[i] != terminate_word(),
    ensures
        dispatched_keys(lines) == lines,
    decreases lines.len(),
{
    if lines.len() == 0 {
        assert(dispatched_keys(lines) =~= lines);
    } else {
        assert(lines.first() == lines[0]);
        assert(forall|i: int|
            0 <= i < lines.drop_first().len() ==> lines.drop_first()[i] == lines[i + 1]);
        lemma_one_lookup_per_line(lines.drop_first());
        assert(dispatched_keys(lines) =~= lines);
    }
}

/// Law: the dispatched keys are always an initial segment of the input —
/// the key of the i-th lookup is the i-th input line, and no dispatched
/// line is the termination word.
pub proof fn lemma_keys_are_input_prefix(lines: Seq<Seq<char>>)
    ensures
        dispatched_keys(lines).len() <= lines.len(),
        forall|i: int|
            0 <= i < dispatched_keys(lines).len() ==> dispatched_keys(lines)[i] == lines[i]
                && lines[i] != terminate_word(),
    decreases lines.len(),
{
    if lines.len() == 0 {
    } else if lines.first() == terminate_word() {
    } else {
        lemma_keys_are_input_prefix(lines.drop_first());
        assert forall|i: int| 0 <= i < dispatched_keys(lines).len() implies dispatched_keys(
            lines,
        )[i] == lines[i] && lines[i] != terminate_word() by {
            if i == 0 {
                assert(dispatched_keys(lines)[0] == lines.first());
            } else {
                assert(dispatched_keys(lines)[i] == dispatched_keys(lines.drop_first())[i - 1]);
                assert(lines.drop_first()[i - 1] == lines[i]);
            }
        }
    }
}

/// Law: once the termination word stands at position `t` of the input,
/// no later line is ever dispatched — the session's lookups are already
/// decided by the lines before `t`, and there are at most `t` of them.
pub proof fn lemma_no_dispatch_after_termination(lines: Seq<Seq<char>>, t: int)
    requires
        0 <= t < lines.len(),
        lines[t] == terminate_word(),
    ensures
        dispatched_keys(lines) == dispatched_keys(lines.take(t)),
        dispatched_keys(lines).len() <= t,
    decreases t,
{
    if lines.first() == terminate_word() {
        if t == 0 {
            assert(dispatched_keys(lines.take(t)) =~= Seq::<Seq<char>>::empty());
        } else {
            assert(lines.take(t).first() == lines.first());
            assert(dispatched_keys(lines) =~= dispatched_keys(lines.take(t)));
        }
    } else {
        assert(t != 0);
        assert(lines.drop_first()[t - 1] == lines[t]);
        lemma_no_dispatch_after_termination(lines.drop_first(), t - 1);
        assert(lines.drop_first().take(t - 1) =~= lines.take(t).drop_first());
        assert(lines.take(t).first() == lines.first());
        assert(dispatched_keys(lines.take(t)) == seq![lines.first()] + dispatched_keys(
            lines.take(t).drop_first(),
        ));
    }
}

/// Replays a whole session through the pipeline: every line is sent into
/// a capacity-1 line channel — each send finding the channel empty, since
/// the previous line was consumed first, exactly as the backpressure
/// discipline arranges — delivered from there to the dispatcher, and each
/// lookup the dispatcher starts is recorded and acknowledged as complete
/// before the next line is sent. Lines sent after the termination word
/// are delivered and observed to cause nothing. Returns the keys looked
/// up, in order: the channel loses, reorders and duplicates no line.
pub fn session_keys(lines: &Vec<String>) -> (keys: Vec<String>)
    ensures
        keys@.map_values(|k: String| k@) == dispatched_keys(
            lines@.map_values(|l: String| l@),
        ),
{
    let ghost all: Seq<Seq<char>> = lines@.map_values(|l: String| l@);
    let mut keys: Vec<String> = Vec::new();
    let mut chan = LineChannel::new();
    let mut d = Dispatcher::new();
    let mut i: usize = 0;
    proof {
        assert(keys@.map_values(|k: String| k@) =~= Seq::<Seq<char>>::empty());
        assert(all.skip(0) =~= all);
        assert(Seq::<Seq<char>>::empty() + dispatched_keys(all) =~= dispatched_keys(all));
    }
    while i < lines.len()
        invariant
            i <= lines.len(),
            all == lines@.map_values(|l: String| l@),
            chan.wf(),
            chan.cap() == 1,
            chan.is_empty(),
            d.phase() is Awaiting || d.phase() is Terminated,
            d.phase() is Awaiting ==> dispatched_keys(all) == keys@.map_values(|k: String| k@)
                + dispatched_keys(all.skip(i as int)),
            d.phase() is Terminated ==> dispatched_keys(all) == keys@.map_values(|k: String| k@),
        decreases lines.len() - i,
    {
        let ghost keys_before: Seq<Seq<char>> = keys@.map_values(|k: String| k@);
        let sent = chan.send(lines[i].clone());
        proof {
            assert(sent is Accepted);
        }
        let line = match chan.recv() {
            Some(delivered) => delivered,
            None => {
                proof {
                    assert(false);
                }
                String::new()
            },
        };
        proof {
            assert(chan.lines() =~= Seq::<Seq<char>>::empty());
            assert(all[i as int] == lines@[i as int]@);
            assert(line@ == all[i as int]);
        }
        let a = d.step(Event::LineArrived(line));
        match a {
            Action::StartLookup(key) => {
                proof {
                    assert(all.skip(i as int).first() == all[i as int]);
                    assert(all.skip(i as int).drop_first() =~= all.skip(i as int + 1));
                }
                keys.push(key);
                proof {
                    assert(keys@.map_values(|k: String| k@) =~= keys_before.push(key@));
                    assert(keys_before.push(all[i as int]) + dispatched_keys(
                        all.skip(i as int + 1),
                    ) =~= keys_before + dispatched_keys(all.skip(i as int)));
                }
                let acknowledged = d.step(Event::LookupDone(String::new()));
                proof {
                    assert(acknowledged is PrintOutcome);
                }
            },
            Action::AnnounceTermination => {
                proof {
                    assert(all.skip(i as int).first() == all[i as int]);
                    assert(dispatched_keys(all.skip(i as int)) =~= Seq::<Seq<char>>::empty());
                    assert(keys_before + Seq::<Seq<char>>::empty() =~= keys_before);
                }
            },
            _ => {
            },
        }
        i = i + 1;
    }
    proof {
        if d.phase() is Awaiting {
            assert(all.skip(lines.len() as int) =~= Seq::<Seq<char>>::empty());
            assert(keys@.map_values(|k: String| k@) + Seq::<Seq<char>>::empty() =~= keys@.map_values(
                |k: String| k@,
            ));
        }
    }
    keys
}

} // verus!
