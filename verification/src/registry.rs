//! The shortcut registry and the transaction that swaps its hotkey.
//!
//! The registry holds at most one accelerator: the last one whose hotkey the
//! platform's facility took. A swap releases the old hotkey, claims the new
//! one and, where the claim fails, tries to take the old one back. Each of
//! those is work for the facility, so a swap is a value that says what the
//! facility is to do next, and `advance` takes the facility's answer to the
//! next such value. The caller does the work while it holds the registry.
use crate::error::{RegistrationError, ShortcutError, ShortcutErrorView};
use crate::token::{parse, parse_model, ParseErrorView, ShortcutToken};
use vstd::prelude::*;

verus! {

/// The one slot for the active shortcut. Its view is the accelerator in the
/// form in which the user gave it, or `None` where no hotkey is active.
#[derive(Debug, PartialEq, Eq)]
pub struct ShortcutRegistry {
    current: Option<String>,
}

impl View for ShortcutRegistry {
    type V = Option<Seq<char>>;

    closed spec fn view(&self) -> Option<Seq<char>> {
        match self.current {
            Some(raw) => Some(raw@),
            None => None,
        }
    }
}

impl ShortcutRegistry {
    /// A registry with no active shortcut, as at the start of the process.
    pub fn new() -> (registry: ShortcutRegistry)
        ensures
            registry@ is None,
    {
        ShortcutRegistry { current: None }
    }
}

impl Default for ShortcutRegistry {
    fn default() -> (registry: ShortcutRegistry)
        ensures
            registry@ is None,
    {
        ShortcutRegistry::new()
    }
}

/// An optional string as plain characters.
pub open spec fn text_view(text: Option<String>) -> Option<Seq<char>> {
    match text {
        Some(text) => Some(text@),
        None => None,
    }
}

/// The active shortcut of `registry`, if there is one. Nothing changes.
pub fn get_current_shortcut(registry: &ShortcutRegistry) -> (current: Option<String>)
    ensures
        text_view(current) == registry@,
{
    match &registry.current {
        Some(raw) => Some(raw.clone()),
        None => None,
    }
}

/// A swap of the active shortcut, at one of its stages. Each stage but the
/// last names the hotkey that the facility is to act on, by the canonical
/// text of its token, and waits for the facility's answer.
#[derive(Debug, PartialEq, Eq)]
pub enum Swap {
    /// The facility is to unregister `token`, the hotkey of the shortcut that
    /// was active so far. Its answer does not change what follows.
    Releasing { registry: ShortcutRegistry, requested: String, token: ShortcutToken },
    /// The facility is to register `token`, the hotkey of the requested
    /// shortcut, and to bind the trigger to it.
    Claiming { registry: ShortcutRegistry, requested: String, token: ShortcutToken },
    /// The claim failed with `failure`. The facility is to register `token`,
    /// the hotkey of the old shortcut, again, and to bind the trigger to it.
    Restoring { registry: ShortcutRegistry, token: ShortcutToken, failure: String },
    /// The swap is over: the registry as it now is, and what the caller is
    /// told.
    Done { registry: ShortcutRegistry, result: Result<bool, ShortcutError> },
}

/// A `Swap` as plain characters.
pub enum SwapView {
    Releasing { current: Option<Seq<char>>, requested: Seq<char>, token: Seq<char> },
    Claiming { current: Option<Seq<char>>, requested: Seq<char>, token: Seq<char> },
    Restoring { current: Option<Seq<char>>, token: Seq<char>, failure: Seq<char> },
    Done { current: Option<Seq<char>>, result: Result<bool, ShortcutErrorView> },
}

impl SwapView {
    /// What the registry inside the swap reports as active at this stage.
    pub open spec fn current(self) -> Option<Seq<char>> {
        match self {
            SwapView::Releasing { current, .. } => current,
            SwapView::Claiming { current, .. } => current,
            SwapView::Restoring { current, .. } => current,
            SwapView::Done { current, .. } => current,
        }
    }
}

/// The result of a swap as plain characters.
pub open spec fn result_view(result: Result<bool, ShortcutError>) -> Result<
    bool,
    ShortcutErrorView,
> {
    match result {
        Ok(live) => Ok(live),
        Err(error) => Err(error@),
    }
}

impl View for Swap {
    type V = SwapView;

    open spec fn view(&self) -> SwapView {
        match self {
            Swap::Releasing { registry, requested, token } => SwapView::Releasing {
                current: registry@,
                requested: requested@,
                token: token@,
            },
            Swap::Claiming { registry, requested, token } => SwapView::Claiming {
                current: registry@,
                requested: requested@,
                token: token@,
            },
            Swap::Restoring { registry, token, failure } => SwapView::Restoring {
                current: registry@,
                token: token@,
                failure: failure@,
            },
            Swap::Done { registry, result } => SwapView::Done {
                current: registry@,
                result: result_view(*result),
            },
        }
    }
}

/// The facility's answer to a request, as plain characters: `Ok`, or the
/// reason for which it refused.
pub open spec fn answer_view(answer: Result<(), String>) -> Result<(), Seq<char>> {
    match answer {
        Ok(_) => Ok(()),
        Err(reason) => Err(reason@),
    }
}

/// The stage at which the new shortcut is taken up: where it parses, the
/// facility is to claim its hotkey; where it does not, the swap ends with the
/// parse error and the registry as it was.
pub open spec fn claim_model(current: Option<Seq<char>>, requested: Seq<char>) -> SwapView {
    match parse_model(requested) {
        Ok(token) => SwapView::Claiming { current, requested, token },
        Err(error) => SwapView::Done { current, result: Err(ShortcutErrorView::Parse(error)) },
    }
}

/// The first stage of a swap: where a shortcut is active and parses, the
/// facility is to release its hotkey first; else the new one is taken up at
/// once.
pub open spec fn begin_model(current: Option<Seq<char>>, requested: Seq<char>) -> SwapView {
    match current {
        Some(old) => match parse_model(old) {
            Ok(token) => SwapView::Releasing { current, requested, token },
            Err(_) => claim_model(current, requested),
        },
        None => claim_model(current, requested),
    }
}

/// The stage after a failed claim: where an old shortcut is there and parses,
/// the facility is to take its hotkey back; else the swap ends. Either way the
/// caller will be told of the failed claim.
pub open spec fn rollback_model(current: Option<Seq<char>>, failure: Seq<char>) -> SwapView {
    let failed = SwapView::Done {
        current,
        result: Err(ShortcutErrorView::Registration(failure)),
    };
    match current {
        Some(old) => match parse_model(old) {
            Ok(token) => SwapView::Restoring { current, token, failure },
            Err(_) => failed,
        },
        None => failed,
    }
}

/// The stage that follows `swap` on the facility's `answer`.
///
/// - Releasing: whatever the answer, the new shortcut is taken up.
/// - Claiming: on `Ok` the requested shortcut becomes the active one and the
///   swap ends in success; on a refusal the rollback begins.
/// - Restoring: whatever the answer, the swap ends with the failed claim, and
///   the registry holds the old shortcut as before.
/// - Done: nothing is awaited, and nothing changes.
pub open spec fn step_model(swap: SwapView, answer: Result<(), Seq<char>>) -> SwapView {
    match swap {
        SwapView::Releasing { current, requested, token } => claim_model(current, requested),
        SwapView::Claiming { current, requested, token } => match answer {
            Ok(_) => SwapView::Done { current: Some(requested), result: Ok(true) },
            Err(failure) => rollback_model(current, failure),
        },
        SwapView::Restoring { current, token, failure } => SwapView::Done {
            current,
            result: Err(ShortcutErrorView::Registration(failure)),
        },
        SwapView::Done { current, result } => swap,
    }
}

/// Takes up the requested shortcut.
fn claim(registry: ShortcutRegistry, requested: String) -> (swap: Swap)
    ensures
        swap@ == claim_model(registry@, requested@),
{
    match parse(requested.as_str()) {
        Ok(token) => Swap::Claiming { registry, requested, token },
        Err(error) => Swap::Done { registry, result: Err(ShortcutError::Parse(error)) },
    }
}

/// Begins the rollback after a claim that failed with `failure`.
fn rollback(registry: ShortcutRegistry, failure: String) -> (swap: Swap)
    ensures
        swap@ == rollback_model(registry@, failure@),
{
    let restored = match &registry.current {
        Some(old) => parse(old.as_str()).ok(),
        None => None,
    };
    match restored {
        Some(token) => Swap::Restoring { registry, token, failure },
        None => Swap::Done {
            registry,
            result: Err(ShortcutError::Registration(RegistrationError::new(failure))),
        },
    }
}

/// Begins the swap of the active shortcut of `registry` for `shortcut`. The
/// swap holds the registry until it is done.
pub fn register_shortcut(registry: ShortcutRegistry, shortcut: String) -> (swap: Swap)
    ensures
        swap@ == begin_model(registry@, shortcut@),
{
    let released = match &registry.current {
        Some(old) => parse(old.as_str()).ok(),
        None => None,
    };
    match released {
        Some(token) => Swap::Releasing { registry, requested: shortcut, token },
        None => claim(registry, shortcut),
    }
}

/// Takes `swap` to its next stage on the facility's answer to the request
/// that `swap` stands for.
pub fn advance(swap: Swap, answer: Result<(), String>) -> (next: Swap)
    ensures
        next@ == step_model(swap@, answer_view(answer)),
{
    match swap {
        Swap::Releasing { registry, requested, token } => claim(registry, requested),
        Swap::Claiming { registry, requested, token } => match answer {
            Ok(_) => Swap::Done {
                registry: ShortcutRegistry { current: Some(requested) },
                result: Ok(true),
            },
            Err(failure) => rollback(registry, failure),
        },
        Swap::Restoring { registry, token, failure } => Swap::Done {
            registry,
            result: Err(ShortcutError::Registration(RegistrationError::new(failure))),
        },
        Swap::Done { registry, result } => Swap::Done { registry, result },
    }
}

/// The stage that `swap` has reached after the facility's answers, taken in
/// order.
pub open spec fn run_model(swap: SwapView, answers: Seq<Result<(), Seq<char>>>) -> SwapView
    decreases answers.len(),
{
    if answers.len() == 0 {
        swap
    } else {
        run_model(step_model(swap, answers[0]), answers.skip(1))
    }
}

/// How many answers `swap` can still wait for.
pub open spec fn stages_left(swap: SwapView) -> nat {
    match swap {
        SwapView::Releasing { .. } => 3,
        SwapView::Claiming { .. } => 2,
        SwapView::Restoring { .. } => 1,
        SwapView::Done { .. } => 0,
    }
}

/// Whether `swap` is a stage of the swap that began with the registry at
/// `current` and the request for `requested`: until the claim succeeds the
/// registry is untouched, and it ends either in success with the requested
/// shortcut active, or in failure with the registry as it was.
pub open spec fn on_course(
    swap: SwapView,
    current: Option<Seq<char>>,
    requested: Seq<char>,
) -> bool {
    match swap {
        SwapView::Releasing { current: now, requested: wanted, token } => {
            &&& now == current
            &&& wanted == requested
            &&& current matches Some(old)
            &&& parse_model(old) == Ok::<Seq<char>, ParseErrorView>(token)
        },
        SwapView::Claiming { current: now, requested: wanted, token } => {
            &&& now == current
            &&& wanted == requested
            &&& parse_model(requested) == Ok::<Seq<char>, ParseErrorView>(token)
        },
        SwapView::Restoring { current: now, token, failure } => {
            &&& now == current
            &&& current matches Some(old)
            &&& parse_model(old) == Ok::<Seq<char>, ParseErrorView>(token)
        },
        SwapView::Done { current: now, result } => match result {
            Ok(live) => live && now == Some(requested) && parse_model(requested) is Ok,
            Err(_) => now == current,
        },
    }
}

/// A swap begins on course.
pub proof fn lemma_swap_begins_on_course(current: Option<Seq<char>>, requested: Seq<char>)
    ensures
        on_course(begin_model(current, requested), current, requested),
{
}

/// Every answer keeps a swap on course.
pub proof fn lemma_swap_stays_on_course(
    current: Option<Seq<char>>,
    requested: Seq<char>,
    swap: SwapView,
    answers: Seq<Result<(), Seq<char>>>,
)
    requires
        on_course(swap, current, requested),
    ensures
        on_course(run_model(swap, answers), current, requested),
    decreases answers.len(),
{
    if answers.len() > 0 {
        lemma_swap_stays_on_course(
            current,
            requested,
            step_model(swap, answers[0]),
            answers.skip(1),
        );
    }
}

/// A swap is over once the facility has answered as often as it has stages
/// left: after three answers at the latest.
pub proof fn lemma_swap_ends(swap: SwapView, answers: Seq<Result<(), Seq<char>>>)
    requires
        answers.len() >= stages_left(swap),
    ensures
        run_model(swap, answers) is Done,
    decreases answers.len(),
{
    if answers.len() > 0 {
        lemma_swap_ends(step_model(swap, answers[0]), answers.skip(1));
    }
}

/// What a finished swap leaves behind. Where it succeeded, the requested
/// shortcut is the active one. Where it failed, for whatever reason, the
/// registry holds what it held before: the old shortcut or none. So a failed
/// request for a shortcut other than the active one never leaves the
/// requested one reported as active.
pub proof fn lemma_swap_outcome(
    current: Option<Seq<char>>,
    requested: Seq<char>,
    answers: Seq<Result<(), Seq<char>>>,
)
    ensures
        run_model(begin_model(current, requested), answers) matches SwapView::Done {
            current: now,
            result,
        } ==> {
            &&& result is Ok ==> result == Ok::<bool, ShortcutErrorView>(true) && now == Some(
                requested,
            )
            &&& result is Err ==> now == current
            &&& result is Err && current != Some(requested) ==> now != Some(requested)
        },
{
    lemma_swap_begins_on_course(current, requested);
    lemma_swap_stays_on_course(current, requested, begin_model(current, requested), answers);
}

} // verus!
