//! Running the login command against replies that are known beforehand.

use crate::command::{LoginCommand, LoginCommandView};
use crate::flow::{
    next, start, started, step, Directive, DirectiveView, Event, EventView, PhaseView,
    PollPolicy,
};
use vstd::prelude::*;

verus! {

/// What the machine hands out from `phase` on as `events` arrive in order,
/// up to the directive that ends the run.
pub open spec fn continued(
    command: LoginCommandView,
    policy: PollPolicy,
    phase: PhaseView,
    events: Seq<EventView>,
) -> Seq<DirectiveView>
    decreases events.len(),
{
    if events.len() == 0 {
        Seq::empty()
    } else {
        let (after, directive) = next(command, policy, phase, events[0]);
        if directive.request.is_final() {
            seq![directive]
        } else {
            seq![directive] + continued(command, policy, after, events.drop_first())
        }
    }
}

/// Everything that a run of `command` hands out as `events` arrive in
/// order: the first directive, then one for each event, up to the directive
/// that ends the run. Events after that one are not looked at.
pub open spec fn transcript(
    command: LoginCommandView,
    policy: PollPolicy,
    events: Seq<EventView>,
) -> Seq<DirectiveView> {
    let (phase, directive) = started(command);
    if directive.request.is_final() {
        seq![directive]
    } else {
        seq![directive] + continued(command, policy, phase, events)
    }
}

impl LoginCommand {
    /// Runs the command against the replies in `events`, which stand for
    /// what the outside world would have answered, and returns every
    /// directive that the run hands out. The run stops at the directive
    /// that ends it, or when the replies run out.
    pub fn run(&self, policy: &PollPolicy, events: Vec<Event>) -> (directives: Vec<Directive>)
        ensures
            directives.deep_view() == transcript(self@, *policy, events.deep_view()),
    {
        let ghost script = events.deep_view();
        let mut events = events;
        let (first_phase, first) = start(self);
        let mut phase = first_phase;
        let mut ended = first.request.is_final();
        let mut directives: Vec<Directive> = Vec::new();
        directives.push(first);
        assert(directives.deep_view() =~= seq![started(self@).1]);
        while !ended && events.len() > 0
            invariant
                ended ==> directives.deep_view() == transcript(self@, *policy, script),
                !ended ==> directives.deep_view() + continued(
                    self@,
                    *policy,
                    phase@,
                    events.deep_view(),
                ) == transcript(self@, *policy, script),
            decreases events.len(),
        {
            let ghost before = directives.deep_view();
            let ghost waiting = events.deep_view();
            let event = events.remove(0);
            assert(event@ == waiting[0]);
            assert(events.deep_view() =~= waiting.drop_first());
            let (after, directive) = step(self, policy, phase, event);
            ended = directive.request.is_final();
            directives.push(directive);
            assert(directives.deep_view() =~= before.push(directive@));
            phase = after;
            assert(before.push(directive@) =~= before + seq![directive@]);
            assert(before + (seq![directive@] + continued(
                self@,
                *policy,
                phase@,
                events.deep_view(),
            )) =~= before + seq![directive@] + continued(
                self@,
                *policy,
                phase@,
                events.deep_view(),
            ));
        }
        assert(!ended ==> continued(self@, *policy, phase@, events.deep_view()) =~= Seq::<
            DirectiveView,
        >::empty());
        assert(!ended ==> directives.deep_view() + Seq::<DirectiveView>::empty()
            =~= directives.deep_view());
        directives
    }
}

} // verus!
