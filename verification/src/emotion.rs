//! Emotion set-point decisions.
//!
//! The store itself is a single slot with last-write-wins semantics, held by
//! the surrounding service; the decision of what each wake-up does to the
//! slot is the pure transition below. The service races incoming commands
//! against an idle timeout and feeds whichever occurs first into
//! `emotion_transition`.

use vstd::prelude::*;

use crate::logic::Emotion;

verus! {

/// How long the slot may sit idle before it resets to the default emotion.
pub const EMOTION_RESET_TIMER_SECS: u64 = 60;

/// What can wake the emotion manager: a command from the request layer, or
/// the idle timeout winning the race.
#[derive(Debug, Clone, Copy, PartialEq, Eq, Structural)]
pub enum EmotionEvent {
    SetEmotion(Emotion),
    GetEmotion,
    IdleTimeout,
}

/// The decision of one manager step: the stored value afterwards, and the
/// reply (for a `Get`).
pub open spec fn spec_emotion_transition(current: Emotion, event: EmotionEvent) -> (
    Emotion,
    Option<Emotion>,
) {
    match event {
        EmotionEvent::SetEmotion(e) => (e, None),
        EmotionEvent::GetEmotion => (current, Some(current)),
        EmotionEvent::IdleTimeout => (Emotion::Happy, None),
    }
}

pub fn emotion_transition(current: Emotion, event: EmotionEvent) -> (r: (Emotion, Option<Emotion>))
    ensures
        r == spec_emotion_transition(current, event),
{
    match event {
        EmotionEvent::SetEmotion(e) => (e, None),
        EmotionEvent::GetEmotion => (current, Some(current)),
        EmotionEvent::IdleTimeout => (Emotion::Happy, None),
    }
}

/// Idle reset: after the idle timeout fires, and absent any intervening
/// `Set`, a `Get` reports the default emotion.
pub proof fn lemma_idle_reset_then_get(current: Emotion)
    ensures
        spec_emotion_transition(
            spec_emotion_transition(current, EmotionEvent::IdleTimeout).0,
            EmotionEvent::GetEmotion,
        ).1 == Some(Emotion::Happy),
{
}

} // verus!
