//! The creation of the upstream of a token, step by step.
use vstd::prelude::*;

use crate::net::SocketAddr;

verus! {

/// Why the upstream of a token could not be created. Some name what was said about it.
pub enum CreateError {
    NoPoolAddresses,
    PoolConnection(String),
    Translator(String),
    TranslatorClosed,
    ShareAccounter(String),
}

/// The text of an error.
pub open spec fn error_text(error: CreateError) -> Seq<char> {
    match error {
        CreateError::NoPoolAddresses => "No pool addresses available for this token"@,
        CreateError::PoolConnection(e) => "SV2 pool connection failed: "@ + e@,
        CreateError::Translator(e) => "Failed to start translator: "@ + e@,
        CreateError::TranslatorClosed => "Translator failed before initialization"@,
        CreateError::ShareAccounter(e) => "Failed to start share accounter: "@ + e@,
    }
}

impl CreateError {
    /// The text of the error.
    pub fn message(&self) -> (text: String)
        ensures
            text@ == error_text(*self),
    {
        match self {
            CreateError::NoPoolAddresses => "No pool addresses available for this token".to_string(),
            CreateError::PoolConnection(e) => "SV2 pool connection failed: ".to_string().concat(
                e.as_str(),
            ),
            CreateError::Translator(e) => "Failed to start translator: ".to_string().concat(
                e.as_str(),
            ),
            CreateError::TranslatorClosed => "Translator failed before initialization".to_string(),
            CreateError::ShareAccounter(e) => "Failed to start share accounter: ".to_string().concat(
                e.as_str(),
            ),
        }
    }
}

/// What is to be done next, or has been done.
#[derive(Clone, Copy, Debug, PartialEq, Eq, Structural)]
pub enum CreationStep {
    /// Connect to the pool.
    Connect(SocketAddr),
    /// Start the translator.
    StartTranslator,
    /// Wait for the translator to say how it is reached.
    AwaitTranslator,
    /// Start the share accounter between the translator and the pool.
    StartShareAccounter,
    /// Nothing is left to do.
    Created,
    /// The creation failed.
    Failed,
}

/// The step after one that succeeded.
pub open spec fn step_after(step: CreationStep) -> CreationStep {
    match step {
        CreationStep::Connect(_) => CreationStep::StartTranslator,
        CreationStep::StartTranslator => CreationStep::AwaitTranslator,
        CreationStep::AwaitTranslator => CreationStep::StartShareAccounter,
        CreationStep::StartShareAccounter => CreationStep::Created,
        CreationStep::Created => CreationStep::Created,
        CreationStep::Failed => CreationStep::Failed,
    }
}

/// The error of a step that failed, with what was said about it.
pub open spec fn error_of(step: CreationStep, said: String) -> CreateError {
    match step {
        CreationStep::Connect(_) => CreateError::PoolConnection(said),
        CreationStep::StartTranslator => CreateError::Translator(said),
        CreationStep::AwaitTranslator => CreateError::TranslatorClosed,
        _ => CreateError::ShareAccounter(said),
    }
}

/// A creation that is under way.
pub struct Creation {
    step: CreationStep,
}

impl View for Creation {
    type V = CreationStep;

    closed spec fn view(&self) -> CreationStep {
        self.step
    }
}

impl Creation {
    /// Begins a creation, with the first of the pool's addresses. Without any it fails at once.
    pub fn new(addresses: Option<Vec<SocketAddr>>) -> (creation: Result<Self, CreateError>)
        requires
            addresses matches Some(list) ==> list@.len() > 0,
        ensures
            match addresses {
                Some(list) => creation matches Ok(c) && c@ == CreationStep::Connect(list@[0]),
                None => creation == Err::<Self, _>(CreateError::NoPoolAddresses),
            },
    {
        match addresses {
            Some(list) => Ok(Creation { step: CreationStep::Connect(list[0]) }),
            None => Err(CreateError::NoPoolAddresses),
        }
    }

    /// What is to be done next.
    pub fn step(&self) -> (step: CreationStep)
        ensures
            step == self@,
    {
        self.step
    }

    /// Takes how the step ended that was to be done: the next one, or why there is none.
    pub fn on_outcome(&mut self, outcome: Result<(), String>) -> (next: Result<
        CreationStep,
        CreateError,
    >)
        requires
            old(self)@ !is Created,
            old(self)@ !is Failed,
        ensures
            match outcome {
                Ok(_) => {
                    &&& final(self)@ == step_after(old(self)@)
                    &&& next == Ok::<_, CreateError>(step_after(old(self)@))
                },
                Err(said) => {
                    &&& final(self)@ == CreationStep::Failed
                    &&& next == Err::<CreationStep, _>(error_of(old(self)@, said))
                },
            },
    {
        match outcome {
            Ok(_) => {
                self.step = match self.step {
                    CreationStep::Connect(_) => CreationStep::StartTranslator,
                    CreationStep::StartTranslator => CreationStep::AwaitTranslator,
                    CreationStep::AwaitTranslator => CreationStep::StartShareAccounter,
                    _ => CreationStep::Created,
                };
                Ok(self.step)
            },
            Err(said) => {
                let error = match self.step {
                    CreationStep::Connect(_) => CreateError::PoolConnection(said),
                    CreationStep::StartTranslator => CreateError::Translator(said),
                    CreationStep::AwaitTranslator => CreateError::TranslatorClosed,
                    _ => CreateError::ShareAccounter(said),
                };
                self.step = CreationStep::Failed;
                Err(error)
            },
        }
    }
}

/// A creation connects to the pool, then starts the translator, then waits for it, then starts the
/// share accounter, and then is done. A step is never left out or repeated.
pub proof fn law_order_of_a_creation(pool: SocketAddr)
    ensures
        step_after(CreationStep::Connect(pool)) == CreationStep::StartTranslator,
        step_after(step_after(CreationStep::Connect(pool))) == CreationStep::AwaitTranslator,
        step_after(step_after(step_after(CreationStep::Connect(pool))))
            == CreationStep::StartShareAccounter,
        step_after(step_after(step_after(step_after(CreationStep::Connect(pool)))))
            == CreationStep::Created,
{
}

/// The text of an error tells which step failed and, but for a translator that hung up, ends in what
/// was said about it.
pub proof fn law_texts_of_errors(pool: SocketAddr, said: String)
    ensures
        error_text(CreateError::NoPoolAddresses) == "No pool addresses available for this token"@,
        error_text(error_of(CreationStep::Connect(pool), said)) == "SV2 pool connection failed: "@
            + said@,
        error_text(error_of(CreationStep::StartTranslator, said))
            == "Failed to start translator: "@ + said@,
        error_text(error_of(CreationStep::AwaitTranslator, said))
            == "Translator failed before initialization"@,
        error_text(error_of(CreationStep::StartShareAccounter, said))
            == "Failed to start share accounter: "@ + said@,
{
}

/// A creation in which every step succeeds takes them in order: it connects to the first of the
/// pool's addresses, starts the translator, waits for it, starts the share accounter, and is done.
pub proof fn law_creation_from_start_to_end(
    addresses: Vec<SocketAddr>,
    creation: Creation,
    c1: &mut Creation,
    next1: Result<CreationStep, CreateError>,
    c2: &mut Creation,
    next2: Result<CreationStep, CreateError>,
    c3: &mut Creation,
    next3: Result<CreationStep, CreateError>,
    c4: &mut Creation,
    next4: Result<CreationStep, CreateError>,
)
    requires
        addresses@.len() > 0,
        call_ensures(Creation::new, (Some(addresses),), Ok::<_, CreateError>(creation)),
        *old(c1) == creation,
        call_ensures(Creation::on_outcome, (c1, Ok::<(), String>(())), next1),
        *old(c2) == *final(c1),
        call_ensures(Creation::on_outcome, (c2, Ok::<(), String>(())), next2),
        *old(c3) == *final(c2),
        call_ensures(Creation::on_outcome, (c3, Ok::<(), String>(())), next3),
        *old(c4) == *final(c3),
        call_ensures(Creation::on_outcome, (c4, Ok::<(), String>(())), next4),
    ensures
        creation@ == CreationStep::Connect(addresses@[0]),
        next1 == Ok::<_, CreateError>(CreationStep::StartTranslator),
        next2 == Ok::<_, CreateError>(CreationStep::AwaitTranslator),
        next3 == Ok::<_, CreateError>(CreationStep::StartShareAccounter),
        next4 == Ok::<_, CreateError>(CreationStep::Created),
{
}

/// A creation fails with the first step that fails, whichever that is, and the text of its error
/// names that step and, but for a translator that hung up, ends in what was said about it.
pub proof fn law_failed_creation(
    creation: &mut Creation,
    said: String,
    next: Result<CreationStep, CreateError>,
    text: String,
)
    requires
        old(creation)@ !is Created,
        old(creation)@ !is Failed,
        call_ensures(Creation::on_outcome, (creation, Err::<(), _>(said)), next),
        next is Err,
        call_ensures(CreateError::message, (&next->Err_0,), text),
    ensures
        final(creation)@ == CreationStep::Failed,
        text@ == match old(creation)@ {
            CreationStep::Connect(_) => "SV2 pool connection failed: "@ + said@,
            CreationStep::StartTranslator => "Failed to start translator: "@ + said@,
            CreationStep::AwaitTranslator => "Translator failed before initialization"@,
            _ => "Failed to start share accounter: "@ + said@,
        },
{
}

/// Without addresses of the pool no creation begins.
pub proof fn law_no_creation_without_addresses(
    creation: Result<Creation, CreateError>,
    text: String,
)
    requires
        call_ensures(Creation::new, (None::<Vec<SocketAddr>>,), creation),
        creation is Err,
        call_ensures(CreateError::message, (&creation->Err_0,), text),
    ensures
        text@ == "No pool addresses available for this token"@,
{
}

/// What is to be done next is what the last outcome led to.
pub proof fn law_next_step_is_told(
    creation: &mut Creation,
    next: Result<CreationStep, CreateError>,
    step: CreationStep,
)
    requires
        call_ensures(Creation::on_outcome, (creation, Ok::<(), String>(())), next),
        call_ensures(Creation::step, (&*final(creation),), step),
    ensures
        next == Ok::<_, CreateError>(step),
{
}

} // verus!
