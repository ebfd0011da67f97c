//! A model of the platform's registration facility, and what a swap keeps
//! true of the registry and the facility together.
//!
//! The facility is known here by what it is asked and what it answers: a
//! hotkey that it agreed to register is registered, one that it agreed to
//! unregister is not, and a request that it refused changed nothing. A hotkey
//! stands in the model as the canonical text of its token.
use crate::registry::{begin_model, run_model, step_model, SwapView};
use crate::token::parse_model;
use vstd::prelude::*;

verus! {

/// The hotkeys registered with the facility after it has given `answer` to
/// the request that `swap` stands for.
pub open spec fn registered_after(
    registered: Set<Seq<char>>,
    swap: SwapView,
    answer: Result<(), Seq<char>>,
) -> Set<Seq<char>> {
    match swap {
        SwapView::Releasing { token, .. } => if answer is Ok {
            registered.remove(token)
        } else {
            registered
        },
        SwapView::Claiming { token, .. } => if answer is Ok {
            registered.insert(token)
        } else {
            registered
        },
        SwapView::Restoring { token, .. } => if answer is Ok {
            registered.insert(token)
        } else {
            registered
        },
        SwapView::Done { .. } => registered,
    }
}

/// The hotkeys registered once `swap` has run through `answers`.
pub open spec fn registered_after_run(
    registered: Set<Seq<char>>,
    swap: SwapView,
    answers: Seq<Result<(), Seq<char>>>,
) -> Set<Seq<char>>
    decreases answers.len(),
{
    if answers.len() == 0 {
        registered
    } else {
        registered_after_run(
            registered_after(registered, swap, answers[0]),
            step_model(swap, answers[0]),
            answers.skip(1),
        )
    }
}

/// Whether the registry tells the truth about the facility: the shortcut
/// that it reports as active, if any, parses, and its hotkey is registered.
pub open spec fn is_live(current: Option<Seq<char>>, registered: Set<Seq<char>>) -> bool {
    current matches Some(raw) ==> (parse_model(raw) matches Ok(token) && registered.contains(
        token,
    ))
}

/// Whether a swap, begun with a live shortcut and run to its end through
/// `answers`, leaves the registry reporting a hotkey that is gone. There are
/// two ways: the old hotkey was released and then the new accelerator did not
/// parse; or the old hotkey was released, the claim was refused, and so was
/// the attempt to take the old hotkey back.
pub open spec fn loses_hotkey(
    current: Option<Seq<char>>,
    requested: Seq<char>,
    answers: Seq<Result<(), Seq<char>>>,
) -> bool {
    &&& current is Some
    &&& answers[0] is Ok
    &&& (parse_model(requested) is Err || (answers[1] is Err && answers[2] is Err))
}

/// One finished swap keeps the registry live, on every course of answers but
/// the two that `loses_hotkey` names; and on those two it does not.
pub proof fn lemma_swap_keeps_registry_live(
    current: Option<Seq<char>>,
    registered: Set<Seq<char>>,
    requested: Seq<char>,
    answers: Seq<Result<(), Seq<char>>>,
)
    requires
        is_live(current, registered),
        run_model(begin_model(current, requested), answers) is Done,
    ensures
        is_live(
            run_model(begin_model(current, requested), answers).current(),
            registered_after_run(registered, begin_model(current, requested), answers),
        ) <==> !loses_hotkey(current, requested, answers),
{
    let s0 = begin_model(current, requested);
    let r0 = registered;
    if answers.len() >= 1 {
        let s1 = step_model(s0, answers[0]);
        let r1 = registered_after(r0, s0, answers[0]);
        let t1 = answers.skip(1);
        if t1.len() >= 1 {
            let s2 = step_model(s1, t1[0]);
            let r2 = registered_after(r1, s1, t1[0]);
            let t2 = t1.skip(1);
            assert(t1[0] == answers[1]);
            if t2.len() >= 1 {
                let s3 = step_model(s2, t2[0]);
                let r3 = registered_after(r2, s2, t2[0]);
                assert(t2[0] == answers[2]);
                lemma_done_is_final(r3, s3, t2.skip(1));
                assert(run_model(s2, t2) == run_model(s3, t2.skip(1)));
                assert(registered_after_run(r2, s2, t2) == registered_after_run(
                    r3,
                    s3,
                    t2.skip(1),
                ));
            }
            assert(run_model(s1, t1) == run_model(s2, t2));
            assert(registered_after_run(r1, s1, t1) == registered_after_run(r2, s2, t2));
        }
        assert(run_model(s0, answers) == run_model(s1, t1));
        assert(registered_after_run(r0, s0, answers) == registered_after_run(r1, s1, t1));
    }
}

/// Once a swap is done, further answers change neither it nor the facility.
pub proof fn lemma_done_is_final(
    registered: Set<Seq<char>>,
    swap: SwapView,
    answers: Seq<Result<(), Seq<char>>>,
)
    requires
        swap is Done,
    ensures
        run_model(swap, answers) == swap,
        registered_after_run(registered, swap, answers) == registered,
    decreases answers.len(),
{
    if answers.len() > 0 {
        lemma_done_is_final(registered, swap, answers.skip(1));
    }
}

/// One request for a new shortcut, with the answers that the facility gave
/// in the course of it.
pub struct Call {
    pub requested: Seq<char>,
    pub answers: Seq<Result<(), Seq<char>>>,
}

/// What the registry reports after `call`, made with the registry at
/// `current`.
pub open spec fn current_after_call(current: Option<Seq<char>>, call: Call) -> Option<Seq<char>> {
    run_model(begin_model(current, call.requested), call.answers).current()
}

/// The hotkeys registered after `call`.
pub open spec fn registered_after_call(
    current: Option<Seq<char>>,
    registered: Set<Seq<char>>,
    call: Call,
) -> Set<Seq<char>> {
    registered_after_run(registered, begin_model(current, call.requested), call.answers)
}

/// What the registry reports after `calls`, made one after the other.
pub open spec fn current_after_calls(current: Option<Seq<char>>, calls: Seq<Call>) -> Option<
    Seq<char>,
>
    decreases calls.len(),
{
    if calls.len() == 0 {
        current
    } else {
        current_after_calls(current_after_call(current, calls[0]), calls.skip(1))
    }
}

/// The hotkeys registered after `calls`, made one after the other.
pub open spec fn registered_after_calls(
    current: Option<Seq<char>>,
    registered: Set<Seq<char>>,
    calls: Seq<Call>,
) -> Set<Seq<char>>
    decreases calls.len(),
{
    if calls.len() == 0 {
        registered
    } else {
        registered_after_calls(
            current_after_call(current, calls[0]),
            registered_after_call(current, registered, calls[0]),
            calls.skip(1),
        )
    }
}

/// Whether each of `calls` was answered to its end and none of them lost the
/// hotkey.
pub open spec fn calls_keep_hotkey(current: Option<Seq<char>>, calls: Seq<Call>) -> bool
    decreases calls.len(),
{
    calls.len() > 0 ==> {
        &&& run_model(begin_model(current, calls[0].requested), calls[0].answers) is Done
        &&& !loses_hotkey(current, calls[0].requested, calls[0].answers)
        &&& calls_keep_hotkey(current_after_call(current, calls[0]), calls.skip(1))
    }
}

/// After any sequence of requests none of which loses the hotkey, the
/// registry is live: what it reports as active is registered with the
/// facility. A registry that reports nothing, as a new one does, is live to
/// begin with.
pub proof fn lemma_calls_keep_registry_live(
    current: Option<Seq<char>>,
    registered: Set<Seq<char>>,
    calls: Seq<Call>,
)
    requires
        is_live(current, registered),
        calls_keep_hotkey(current, calls),
    ensures
        is_live(
            current_after_calls(current, calls),
            registered_after_calls(current, registered, calls),
        ),
    decreases calls.len(),
{
    if calls.len() > 0 {
        let call = calls[0];
        lemma_swap_keeps_registry_live(current, registered, call.requested, call.answers);
        lemma_calls_keep_registry_live(
            current_after_call(current, call),
            registered_after_call(current, registered, call),
            calls.skip(1),
        );
    }
}

} // verus!
