use vstd::prelude::*;

use crate::logger::Logger;

verus! {

/// Lifecycle state shared by every node kind: a unique identity, an optional
/// diagnostic name, and the three independent flags `active`, `running` and
/// `completed`.  The invariant `completed ==> !running` holds of every value
/// that the constructors and methods produce.
#[derive(Clone)]
pub struct GeneratorBase {
    pub id: u128,
    pub name: Option<String>,
    pub active: bool,
    pub running: bool,
    pub completed: bool,
    pub logger: Logger,
}

/// Relies on uuid::Uuid::new_v4: a random identifier; the version and variant
/// bits are always set, so the value is never zero.  Nothing else can be
/// promised of a random result.
#[verifier::external_body]
pub fn fresh_id() -> (r: u128)
    ensures
        r != 0,
{
    uuid::Uuid::new_v4().as_u128()
}

impl GeneratorBase {
    /// The flag invariant: a completed generator is never running.
    pub open spec fn inv(self) -> bool {
        self.completed ==> !self.running
    }

    /// A generator advances on `step` only while it is active, running and
    /// not yet completed.
    pub open spec fn can_step(self) -> bool {
        self.active && self.running && !self.completed
    }

    pub fn new() -> (r: GeneratorBase)
        ensures
            r.name is None,
            r.active,
            r.running,
            !r.completed,
            r.inv(),
    {
        GeneratorBase {
            id: fresh_id(),
            name: None,
            active: true,
            running: true,
            completed: false,
            logger: Logger::new(String::new()),
        }
    }

    pub fn with_name(name: String) -> (r: GeneratorBase)
        ensures
            r.name == Some(name),
            r.active,
            r.running,
            !r.completed,
            r.inv(),
    {
        GeneratorBase {
            id: fresh_id(),
            name: Some(name),
            active: true,
            running: true,
            completed: false,
            logger: Logger::new(String::new()),
        }
    }

    pub fn id(&self) -> (r: u128)
        ensures
            r == self.id,
    {
        self.id
    }

    pub fn name(&self) -> (r: &Option<String>)
        ensures
            r == &self.name,
    {
        &self.name
    }

    pub fn set_name(&mut self, name: String)
        ensures
            *final(self) == (GeneratorBase { name: Some(name), ..*old(self) }),
    {
        self.name = Some(name);
    }

    pub fn is_active(&self) -> (r: bool)
        ensures
            r == self.active,
    {
        self.active
    }

    pub fn is_running(&self) -> (r: bool)
        ensures
            r == self.running,
    {
        self.running
    }

    pub fn is_completed(&self) -> (r: bool)
        ensures
            r == self.completed,
    {
        self.completed
    }

    pub fn activate(&mut self)
        ensures
            *final(self) == (GeneratorBase { active: true, ..*old(self) }),
    {
        self.active = true;
    }

    pub fn deactivate(&mut self)
        ensures
            *final(self) == (GeneratorBase { active: false, ..*old(self) }),
    {
        self.active = false;
    }

    /// Marks the generator completed and stops it running; every other field
    /// is left unchanged.  Repeating the call changes nothing further.
    pub fn complete(&mut self)
        ensures
            *final(self) == completed_base(*old(self)),
            final(self).inv(),
    {
        self.completed = true;
        self.running = false;
    }

    pub fn logger(&self) -> (r: &Logger)
        ensures
            r == &self.logger,
    {
        &self.logger
    }
}

/// The state after `complete`: `completed` set, `running` cleared, all else kept.
pub open spec fn completed_base(b: GeneratorBase) -> GeneratorBase {
    GeneratorBase { completed: true, running: false, ..b }
}

/// `complete` is idempotent: applying the transition twice gives exactly the
/// state after applying it once, so a second call makes no observable change.
pub proof fn lemma_complete_idempotent(b: GeneratorBase)
    ensures
        completed_base(completed_base(b)) == completed_base(b),
{
}

/// `complete` always yields a completed, non-running state that satisfies the
/// flag invariant, whatever the state it started from.
pub proof fn lemma_complete_sound(b: GeneratorBase)
    ensures
        completed_base(b).completed,
        !completed_base(b).running,
        completed_base(b).inv(),
        completed_base(b).id == b.id,
        completed_base(b).name == b.name,
        completed_base(b).active == b.active,
{
}

} // verus!
