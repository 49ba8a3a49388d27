//! Control of the Newton iteration that trains a logistic regression.
//!
//! Each round evaluates the gradient of the log-likelihood at the current
//! coefficients; training stops with success as soon as its norm is below the
//! tolerance. Otherwise the Hessian is inverted, a Newton step is taken and
//! the next round starts, for at most `max_iteration_count` rounds. The
//! numerical work is done by the caller, which reports each result as a
//! `NewtonEvent` and performs the `NewtonAction` it is given back.

use vstd::prelude::*;

verus! {

/// How training by Newton iteration ended.
#[derive(Debug, Clone, Copy, PartialEq, Eq, Structural)]
pub enum NewtonOutcome {
    /// The norm of the gradient fell below the tolerance: the current
    /// coefficients are the trained model.
    Converged,
    /// The Hessian at the current coefficients could not be inverted.
    HessianIsSingular,
    /// `max_iteration_count` Newton steps were taken without the gradient
    /// falling below the tolerance.
    NotConverged,
}

/// Where the iteration stands.
#[derive(Debug, Clone, Copy, PartialEq, Eq, Structural)]
pub enum NewtonPhase {
    /// The gradient at the current coefficients is wanted.
    AwaitingGradient,
    /// The gradient was too large; the Hessian's inverse is wanted for a step.
    AwaitingHessian,
    /// Training has ended.
    Finished(NewtonOutcome),
}

/// A result of the numerical work, reported back to the iteration.
#[derive(Debug, Clone, Copy, PartialEq, Eq, Structural)]
pub enum NewtonEvent {
    /// The gradient was evaluated; its norm is or is not below the tolerance.
    Gradient { norm_below_epsilon: bool },
    /// The Hessian was inverted (and the Newton step taken) or found singular.
    Hessian { invertible: bool },
}

/// What the caller is to do next.
#[derive(Debug, Clone, Copy, PartialEq, Eq, Structural)]
pub enum NewtonAction {
    /// Evaluate the gradient at the current coefficients.
    EvaluateGradient,
    /// Invert the Hessian at the current coefficients and take the step.
    InvertHessian,
    /// Stop training with this outcome.
    Stop(NewtonOutcome),
}

/// The mathematical state of the iteration.
pub struct NewtonModel {
    /// Newton steps taken so far.
    pub iteration: nat,
    /// The most Newton steps that may be taken.
    pub max_iteration_count: nat,
    pub phase: NewtonPhase,
}

impl NewtonModel {
    /// The state before the first round.
    pub open spec fn start(max_iteration_count: nat) -> NewtonModel {
        NewtonModel {
            iteration: 0,
            max_iteration_count,
            phase: if max_iteration_count > 0 {
                NewtonPhase::AwaitingGradient
            } else {
                NewtonPhase::Finished(NewtonOutcome::NotConverged)
            },
        }
    }

    /// The states that the iteration can be in.
    pub open spec fn wf(self) -> bool {
        &&& self.iteration <= self.max_iteration_count
        &&& match self.phase {
            NewtonPhase::AwaitingGradient => self.iteration < self.max_iteration_count,
            NewtonPhase::AwaitingHessian => self.iteration < self.max_iteration_count,
            NewtonPhase::Finished(NewtonOutcome::NotConverged) => self.iteration
                == self.max_iteration_count,
            NewtonPhase::Finished(_) => true,
        }
    }

    /// What the caller is asked to do in this state.
    pub open spec fn action(self) -> NewtonAction {
        match self.phase {
            NewtonPhase::AwaitingGradient => NewtonAction::EvaluateGradient,
            NewtonPhase::AwaitingHessian => NewtonAction::InvertHessian,
            NewtonPhase::Finished(outcome) => NewtonAction::Stop(outcome),
        }
    }

    /// The state after an event. An event that the state is not waiting for,
    /// and any event after the end, leaves the state as it is.
    pub open spec fn advance(self, event: NewtonEvent) -> NewtonModel {
        match (self.phase, event) {
            (NewtonPhase::AwaitingGradient, NewtonEvent::Gradient { norm_below_epsilon }) => {
                if norm_below_epsilon {
                    NewtonModel { phase: NewtonPhase::Finished(NewtonOutcome::Converged), ..self }
                } else {
                    NewtonModel { phase: NewtonPhase::AwaitingHessian, ..self }
                }
            },
            (NewtonPhase::AwaitingHessian, NewtonEvent::Hessian { invertible }) => {
                if !invertible {
                    NewtonModel {
                        phase: NewtonPhase::Finished(NewtonOutcome::HessianIsSingular),
                        ..self
                    }
                } else if self.iteration + 1 < self.max_iteration_count {
                    NewtonModel {
                        iteration: self.iteration + 1,
                        phase: NewtonPhase::AwaitingGradient,
                        ..self
                    }
                } else {
                    NewtonModel {
                        iteration: self.iteration + 1,
                        phase: NewtonPhase::Finished(NewtonOutcome::NotConverged),
                        ..self
                    }
                }
            },
            _ => self,
        }
    }

    /// The state after a sequence of events.
    pub open spec fn run(self, events: Seq<NewtonEvent>) -> NewtonModel
        decreases events.len(),
    {
        if events.len() == 0 {
            self
        } else {
            self.advance(events[0]).run(events.drop_first())
        }
    }

    /// How many of the events are gradients that the iteration asked for.
    pub open spec fn gradient_evaluations(self, events: Seq<NewtonEvent>) -> nat
        decreases events.len(),
    {
        if events.len() == 0 {
            0
        } else {
            let counted: nat = if self.phase is AwaitingGradient && events[0] is Gradient {
                1
            } else {
                0
            };
            counted + self.advance(events[0]).gradient_evaluations(events.drop_first())
        }
    }

    /// How many more gradients the iteration may yet ask for.
    pub open spec fn gradient_budget(self) -> nat {
        match self.phase {
            NewtonPhase::AwaitingGradient => (self.max_iteration_count - self.iteration) as nat,
            NewtonPhase::AwaitingHessian => (self.max_iteration_count - self.iteration
                - 1) as nat,
            NewtonPhase::Finished(_) => 0,
        }
    }
}

/// The events of `rounds` rounds in which the gradient is too large and the
/// Hessian invertible.
pub open spec fn unconverged_rounds(rounds: nat) -> Seq<NewtonEvent>
    decreases rounds,
{
    if rounds == 0 {
        Seq::empty()
    } else {
        seq![
            NewtonEvent::Gradient { norm_below_epsilon: false },
            NewtonEvent::Hessian { invertible: true },
        ] + unconverged_rounds((rounds - 1) as nat)
    }
}

/// Every event keeps the iteration in a state it can be in: never more Newton
/// steps than allowed, and "not converged" only once all of them were taken.
pub proof fn lemma_advance_preserves_wf(s: NewtonModel, event: NewtonEvent)
    requires
        s.wf(),
    ensures
        s.advance(event).wf(),
{
}

/// Any sequence of events keeps the iteration in a state it can be in.
pub proof fn lemma_run_preserves_wf(s: NewtonModel, events: Seq<NewtonEvent>)
    requires
        s.wf(),
    ensures
        s.run(events).wf(),
    decreases events.len(),
{
    if events.len() > 0 {
        lemma_advance_preserves_wf(s, events[0]);
        lemma_run_preserves_wf(s.advance(events[0]), events.drop_first());
    }
}

/// Once training has ended, no event changes its outcome.
pub proof fn lemma_finished_is_final(s: NewtonModel, events: Seq<NewtonEvent>)
    requires
        s.phase is Finished,
    ensures
        s.run(events) == s,
    decreases events.len(),
{
    if events.len() > 0 {
        lemma_finished_is_final(s.advance(events[0]), events.drop_first());
    }
}

/// Training ends converged only on a gradient, asked for, whose norm is below
/// the tolerance.
pub proof fn lemma_converged_only_on_small_gradient(s: NewtonModel, event: NewtonEvent)
    requires
        !(s.phase is Finished),
        s.advance(event).phase == NewtonPhase::Finished(NewtonOutcome::Converged),
    ensures
        s.phase == NewtonPhase::AwaitingGradient,
        event == (NewtonEvent::Gradient { norm_below_epsilon: true }),
{
}

/// From any state, the iteration asks for no more gradients than its budget.
pub proof fn lemma_gradient_evaluations_within_budget(s: NewtonModel, events: Seq<NewtonEvent>)
    requires
        s.wf(),
    ensures
        s.gradient_evaluations(events) <= s.gradient_budget(),
    decreases events.len(),
{
    if events.len() > 0 {
        lemma_advance_preserves_wf(s, events[0]);
        lemma_gradient_evaluations_within_budget(s.advance(events[0]), events.drop_first());
    }
}

/// Training evaluates the gradient at most `max_iteration_count` times,
/// whatever the numerical work reports.
pub proof fn lemma_at_most_max_iteration_count_gradients(
    max_iteration_count: nat,
    events: Seq<NewtonEvent>,
)
    ensures
        NewtonModel::start(max_iteration_count).gradient_evaluations(events)
            <= max_iteration_count,
{
    lemma_gradient_evaluations_within_budget(NewtonModel::start(max_iteration_count), events);
}

/// From a state that asks for a gradient, each round with a large gradient
/// and an invertible Hessian takes one Newton step; the last allowed step ends
/// training without convergence.
proof fn lemma_unconverged_rounds_from(s: NewtonModel, rounds: nat)
    requires
        s.wf(),
        s.phase == NewtonPhase::AwaitingGradient,
        rounds <= s.max_iteration_count - s.iteration,
    ensures
        s.run(unconverged_rounds(rounds)) == (NewtonModel {
            iteration: s.iteration + rounds,
            max_iteration_count: s.max_iteration_count,
            phase: if s.iteration + rounds < s.max_iteration_count {
                NewtonPhase::AwaitingGradient
            } else {
                NewtonPhase::Finished(NewtonOutcome::NotConverged)
            },
        }),
    decreases rounds,
{
    if rounds > 0 {
        let events = unconverged_rounds(rounds);
        let g = NewtonEvent::Gradient { norm_below_epsilon: false };
        let h = NewtonEvent::Hessian { invertible: true };
        let rest = unconverged_rounds((rounds - 1) as nat);
        assert(events == seq![g, h] + rest);
        assert(events.drop_first() == seq![h] + rest);
        assert((seq![h] + rest).drop_first() == rest);
        let s1 = s.advance(g);
        let s2 = s1.advance(h);
        assert(events[0] == g);
        assert(s.run(events) == s1.run(seq![h] + rest));
        assert((seq![h] + rest)[0] == h);
        assert(s1.run(seq![h] + rest) == s2.run(rest));
        if s.iteration + 1 < s.max_iteration_count {
            lemma_unconverged_rounds_from(s2, (rounds - 1) as nat);
        } else {
            assert(rest == Seq::<NewtonEvent>::empty());
        }
    }
}

/// Running two sequences of events one after the other is running their
/// concatenation.
pub proof fn lemma_run_append(s: NewtonModel, first: Seq<NewtonEvent>, second: Seq<NewtonEvent>)
    ensures
        s.run(first + second) == s.run(first).run(second),
    decreases first.len(),
{
    if first.len() > 0 {
        assert((first + second)[0] == first[0]);
        assert((first + second).drop_first() == first.drop_first() + second);
        lemma_run_append(s.advance(first[0]), first.drop_first(), second);
    } else {
        assert(first + second == second);
    }
}

/// With a gradient that stays above the tolerance and Hessians that can be
/// inverted, training takes exactly `max_iteration_count` Newton steps and
/// ends without convergence, and the caller is told to stop unconverged.
pub proof fn lemma_unconverged_rounds_exhaust_iterations(max_iteration_count: nat)
    ensures
        NewtonModel::start(max_iteration_count).run(unconverged_rounds(max_iteration_count)) == (
        NewtonModel {
            iteration: max_iteration_count,
            max_iteration_count,
            phase: NewtonPhase::Finished(NewtonOutcome::NotConverged),
        }),
        NewtonModel::start(max_iteration_count).run(unconverged_rounds(max_iteration_count)).action()
            == NewtonAction::Stop(NewtonOutcome::NotConverged),
{
    if max_iteration_count > 0 {
        lemma_unconverged_rounds_from(NewtonModel::start(max_iteration_count), max_iteration_count);
    }
}

/// After fewer than `max_iteration_count` unconverged rounds, training goes on:
/// the caller is asked for the next gradient, and a gradient below the
/// tolerance then ends training converged after exactly those Newton steps.
pub proof fn lemma_small_gradient_after_rounds_converges(max_iteration_count: nat, rounds: nat)
    requires
        rounds < max_iteration_count,
    ensures
        NewtonModel::start(max_iteration_count).run(unconverged_rounds(rounds)).action()
            == NewtonAction::EvaluateGradient,
        NewtonModel::start(max_iteration_count).run(
            unconverged_rounds(rounds).push(NewtonEvent::Gradient { norm_below_epsilon: true }),
        ) == (NewtonModel {
            iteration: rounds,
            max_iteration_count,
            phase: NewtonPhase::Finished(NewtonOutcome::Converged),
        }),
        NewtonModel::start(max_iteration_count).run(
            unconverged_rounds(rounds).push(NewtonEvent::Gradient { norm_below_epsilon: true }),
        ).action() == NewtonAction::Stop(NewtonOutcome::Converged),
{
    let s = NewtonModel::start(max_iteration_count);
    let g = NewtonEvent::Gradient { norm_below_epsilon: true };
    lemma_unconverged_rounds_from(s, rounds);
    let mid = s.run(unconverged_rounds(rounds));
    lemma_small_gradient_converges(mid);
    assert(unconverged_rounds(rounds).push(g) == unconverged_rounds(rounds) + seq![g]);
    lemma_run_append(s, unconverged_rounds(rounds), seq![g]);
    assert(seq![g].drop_first() == Seq::<NewtonEvent>::empty());
    assert(mid.run(seq![g]) == mid.advance(g).run(Seq::<NewtonEvent>::empty()));
}

/// The caller is asked for exactly the work the state waits for, and a
/// finished state tells it to stop with exactly its outcome, whatever the
/// iteration count.
pub proof fn lemma_action_follows_phase(s: NewtonModel)
    ensures
        s.phase == NewtonPhase::AwaitingGradient <==> s.action() == NewtonAction::EvaluateGradient,
        s.phase == NewtonPhase::AwaitingHessian <==> s.action() == NewtonAction::InvertHessian,
        s.phase == NewtonPhase::Finished(NewtonOutcome::Converged) <==> s.action()
            == NewtonAction::Stop(NewtonOutcome::Converged),
        s.phase == NewtonPhase::Finished(NewtonOutcome::HessianIsSingular) <==> s.action()
            == NewtonAction::Stop(NewtonOutcome::HessianIsSingular),
        s.phase == NewtonPhase::Finished(NewtonOutcome::NotConverged) <==> s.action()
            == NewtonAction::Stop(NewtonOutcome::NotConverged),
{
}

/// In every state that asks for a gradient, at any iteration count, a
/// gradient below the tolerance ends training converged, with no Newton step
/// taken and nothing else changed.
pub proof fn lemma_small_gradient_converges(s: NewtonModel)
    requires
        s.wf(),
        s.phase == NewtonPhase::AwaitingGradient,
    ensures
        s.advance(NewtonEvent::Gradient { norm_below_epsilon: true }) == (NewtonModel {
            iteration: s.iteration,
            max_iteration_count: s.max_iteration_count,
            phase: NewtonPhase::Finished(NewtonOutcome::Converged),
        }),
        s.advance(NewtonEvent::Gradient { norm_below_epsilon: true }).action()
            == NewtonAction::Stop(NewtonOutcome::Converged),
{
}

/// In every state that asks for a gradient, a gradient that is not below the
/// tolerance asks for the Hessian, with nothing else changed.
pub proof fn lemma_large_gradient_asks_for_hessian(s: NewtonModel)
    requires
        s.wf(),
        s.phase == NewtonPhase::AwaitingGradient,
    ensures
        s.advance(NewtonEvent::Gradient { norm_below_epsilon: false }) == (NewtonModel {
            iteration: s.iteration,
            max_iteration_count: s.max_iteration_count,
            phase: NewtonPhase::AwaitingHessian,
        }),
        s.advance(NewtonEvent::Gradient { norm_below_epsilon: false }).action()
            == NewtonAction::InvertHessian,
{
}

/// In every state that waits for the Hessian: a singular one ends training
/// with that outcome and no step taken; an invertible one takes one Newton
/// step, after which the next gradient is asked for while steps remain, and
/// training ends unconverged once `max_iteration_count` steps are taken.
pub proof fn lemma_hessian_step(s: NewtonModel)
    requires
        s.wf(),
        s.phase == NewtonPhase::AwaitingHessian,
    ensures
        s.advance(NewtonEvent::Hessian { invertible: false }) == (NewtonModel {
            iteration: s.iteration,
            max_iteration_count: s.max_iteration_count,
            phase: NewtonPhase::Finished(NewtonOutcome::HessianIsSingular),
        }),
        s.advance(NewtonEvent::Hessian { invertible: false }).action() == NewtonAction::Stop(
            NewtonOutcome::HessianIsSingular,
        ),
        s.advance(NewtonEvent::Hessian { invertible: true }).iteration == s.iteration + 1,
        s.advance(NewtonEvent::Hessian { invertible: true }).max_iteration_count
            == s.max_iteration_count,
        s.iteration + 1 < s.max_iteration_count ==> s.advance(
            NewtonEvent::Hessian { invertible: true },
        ).action() == NewtonAction::EvaluateGradient,
        s.iteration + 1 == s.max_iteration_count ==> s.advance(
            NewtonEvent::Hessian { invertible: true },
        ).action() == NewtonAction::Stop(NewtonOutcome::NotConverged),
{
}

/// Training ends unconverged only on an invertible Hessian whose Newton step
/// is the last one allowed: the step count then equals `max_iteration_count`.
pub proof fn lemma_not_converged_only_when_steps_run_out(s: NewtonModel, event: NewtonEvent)
    requires
        s.wf(),
        s.phase != NewtonPhase::Finished(NewtonOutcome::NotConverged),
        s.advance(event).action() == NewtonAction::Stop(NewtonOutcome::NotConverged),
    ensures
        s.phase == NewtonPhase::AwaitingHessian,
        event == (NewtonEvent::Hessian { invertible: true }),
        s.iteration + 1 == s.max_iteration_count,
        s.advance(event).iteration == s.max_iteration_count,
{
}

/// An event that the state does not wait for changes nothing: no Newton step,
/// no outcome, and the caller is asked again for the same work.
pub proof fn lemma_unexpected_event_changes_nothing(s: NewtonModel, event: NewtonEvent)
    requires
        !(s.phase == NewtonPhase::AwaitingGradient && event is Gradient),
        !(s.phase == NewtonPhase::AwaitingHessian && event is Hessian),
    ensures
        s.advance(event) == s,
        s.advance(event).action() == s.action(),
{
}

/// The caller is told to stop converged only in a state entered on a
/// gradient below the tolerance.
pub proof fn lemma_stop_converged_only_on_small_gradient(s: NewtonModel, event: NewtonEvent)
    requires
        s.wf(),
        s.action() != NewtonAction::Stop(NewtonOutcome::Converged),
        s.advance(event).action() == NewtonAction::Stop(NewtonOutcome::Converged),
    ensures
        s.phase == NewtonPhase::AwaitingGradient,
        event == (NewtonEvent::Gradient { norm_below_epsilon: true }),
        s.advance(event).iteration == s.iteration,
{
}

/// The Newton iteration of a logistic regression's training.
pub struct NewtonIteration {
    iteration: usize,
    max_iteration_count: usize,
    phase: NewtonPhase,
}

impl View for NewtonIteration {
    type V = NewtonModel;

    closed spec fn view(&self) -> NewtonModel {
        NewtonModel {
            iteration: self.iteration as nat,
            max_iteration_count: self.max_iteration_count as nat,
            phase: self.phase,
        }
    }
}

impl NewtonIteration {
    #[verifier::type_invariant]
    closed spec fn inv(self) -> bool {
        self@.wf()
    }

    /// Starts the iteration with room for `max_iteration_count` Newton steps.
    /// With room for none, training has already ended without convergence.
    pub fn new(max_iteration_count: usize) -> (res: NewtonIteration)
        ensures
            res@ == NewtonModel::start(max_iteration_count as nat),
            res@.wf(),
    {
        let phase = if max_iteration_count > 0 {
            NewtonPhase::AwaitingGradient
        } else {
            NewtonPhase::Finished(NewtonOutcome::NotConverged)
        };
        NewtonIteration { iteration: 0, max_iteration_count, phase }
    }

    /// What the caller is to do next.
    pub fn action(&self) -> (res: NewtonAction)
        ensures
            res == self@.action(),
            self@.phase == NewtonPhase::AwaitingGradient ==> res == NewtonAction::EvaluateGradient,
            self@.phase == NewtonPhase::AwaitingHessian ==> res == NewtonAction::InvertHessian,
            self@.phase matches NewtonPhase::Finished(outcome) ==> res == NewtonAction::Stop(
                outcome,
            ),
    {
        match self.phase {
            NewtonPhase::AwaitingGradient => NewtonAction::EvaluateGradient,
            NewtonPhase::AwaitingHessian => NewtonAction::InvertHessian,
            NewtonPhase::Finished(outcome) => NewtonAction::Stop(outcome),
        }
    }

    /// The number of Newton steps taken so far.
    pub fn iteration(&self) -> (res: usize)
        ensures
            res == self@.iteration,
    {
        self.iteration
    }

    /// Reports the result of the work last asked for, and returns what to do
    /// next.
    pub fn advance(&mut self, event: NewtonEvent) -> (res: NewtonAction)
        ensures
            final(self)@ == old(self)@.advance(event),
            final(self)@.wf(),
            res == final(self)@.action(),
            final(self)@.max_iteration_count == old(self)@.max_iteration_count,
            old(self)@.phase == NewtonPhase::AwaitingGradient && event == (NewtonEvent::Gradient {
                norm_below_epsilon: true,
            }) ==> res == NewtonAction::Stop(NewtonOutcome::Converged) && final(self)@.iteration
                == old(self)@.iteration,
            res == NewtonAction::Stop(NewtonOutcome::NotConverged) ==> final(self)@.iteration
                == final(self)@.max_iteration_count,
            res == NewtonAction::Stop(NewtonOutcome::Converged) ==> old(self)@.phase
                == NewtonPhase::Finished(NewtonOutcome::Converged) || event == (NewtonEvent::Gradient {
                norm_below_epsilon: true,
            }),
    {
        proof {
            use_type_invariant(&*self);
        }
        let next = match (self.phase, event) {
            (NewtonPhase::AwaitingGradient, NewtonEvent::Gradient { norm_below_epsilon }) => {
                if norm_below_epsilon {
                    NewtonIteration {
                        phase: NewtonPhase::Finished(NewtonOutcome::Converged),
                        ..*self
                    }
                } else {
                    NewtonIteration { phase: NewtonPhase::AwaitingHessian, ..*self }
                }
            },
            (NewtonPhase::AwaitingHessian, NewtonEvent::Hessian { invertible }) => {
                if !invertible {
                    NewtonIteration {
                        phase: NewtonPhase::Finished(NewtonOutcome::HessianIsSingular),
                        ..*self
                    }
                } else if self.iteration + 1 < self.max_iteration_count {
                    NewtonIteration {
                        iteration: self.iteration + 1,
                        phase: NewtonPhase::AwaitingGradient,
                        ..*self
                    }
                } else {
                    NewtonIteration {
                        iteration: self.iteration + 1,
                        phase: NewtonPhase::Finished(NewtonOutcome::NotConverged),
                        ..*self
                    }
                }
            },
            _ => NewtonIteration { ..*self },
        };
        *self = next;
        self.action()
    }
}

} // verus!
