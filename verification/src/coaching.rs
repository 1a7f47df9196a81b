//! Coaching agent personas offered by the training side of the service.

use vstd::prelude::*;

verus! {

/// One of the coaching personas a client may train with.
#[derive(Debug, Clone, Copy, PartialEq, Eq, Structural)]
pub enum CoachingAgent {
    TacticalAssassin,
    PositionalMaster,
    EndgameSpecialist,
    OpeningExplorer,
    BlitzTrainer,
    PsychologyCoach,
}

/// The short personality blurb attached to each agent.
pub open spec fn spec_personality(agent: CoachingAgent) -> Seq<char> {
    match agent {
        CoachingAgent::TacticalAssassin => "Aggressive, direct feedback"@,
        CoachingAgent::PositionalMaster => "Patient, educational"@,
        CoachingAgent::EndgameSpecialist => "Technical, precise"@,
        CoachingAgent::OpeningExplorer => "Theoretical, systematic"@,
        CoachingAgent::BlitzTrainer => "Fast-paced, practical"@,
        CoachingAgent::PsychologyCoach => "Supportive, motivational"@,
    }
}

impl CoachingAgent {
    /// Describes the agent's coaching style.
    pub fn personality(&self) -> (r: &'static str)
        ensures
            r@ == spec_personality(*self),
    {
        match self {
            CoachingAgent::TacticalAssassin => "Aggressive, direct feedback",
            CoachingAgent::PositionalMaster => "Patient, educational",
            CoachingAgent::EndgameSpecialist => "Technical, precise",
            CoachingAgent::OpeningExplorer => "Theoretical, systematic",
            CoachingAgent::BlitzTrainer => "Fast-paced, practical",
            CoachingAgent::PsychologyCoach => "Supportive, motivational",
        }
    }
}

} // verus!
