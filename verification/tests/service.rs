use crab_control::auth::{digest_matches, token_valid};
use crab_control::emotion::{EmotionEvent, emotion_transition};
use crab_control::logic::Emotion;
use crab_control::talk::text_to_emotion;

/// SHA-1 of "abc", a published reference value.
const SHA1_ABC: [u8; 20] = [
    0xa9, 0x99, 0x3e, 0x36, 0x47, 0x06, 0x81, 0x6a, 0xba, 0x3e, 0x25, 0x71, 0x78, 0x50, 0xc2,
    0x6c, 0x9c, 0xd0, 0xd8, 0x9d,
];

#[test]
fn digest_matches_known_answer() {
    assert!(digest_matches(b"abc", &SHA1_ABC));
    assert!(!digest_matches(b"abd", &SHA1_ABC));
    assert!(!digest_matches(b"", &SHA1_ABC));
}

#[test]
fn bad_tokens_are_rejected() {
    assert!(!token_valid(b""));
    assert!(!token_valid(b"password"));
    assert!(!token_valid(b"abc"));
}

#[test]
fn talk_keywords_pick_emotions() {
    assert_eq!(text_to_emotion("I love Rust"), Emotion::Happy);
    assert_eq!(text_to_emotion("RUST"), Emotion::Happy);
    assert_eq!(text_to_emotion(".rs files"), Emotion::Happy);
    assert_eq!(text_to_emotion("golang"), Emotion::Angered);
    assert_eq!(text_to_emotion("GO is fine"), Emotion::Angered);
    assert_eq!(text_to_emotion("CoBoL"), Emotion::Surprised);
    assert_eq!(text_to_emotion("python"), Emotion::Neutral);
    assert_eq!(text_to_emotion(""), Emotion::Neutral);
}

#[test]
fn emotion_set_and_get() {
    let current = Emotion::Happy;
    let (current, reply) = emotion_transition(current, EmotionEvent::SetEmotion(Emotion::Angered));
    assert_eq!(current, Emotion::Angered);
    assert_eq!(reply, None);

    let (current, reply) = emotion_transition(current, EmotionEvent::GetEmotion);
    assert_eq!(current, Emotion::Angered);
    assert_eq!(reply, Some(Emotion::Angered));
}

#[test]
fn emotion_idle_reset() {
    // Absent any set command for the idle period, a following get reports
    // the default emotion again.
    let current = Emotion::Sad;
    let (current, _) = emotion_transition(current, EmotionEvent::IdleTimeout);
    let (_, reply) = emotion_transition(current, EmotionEvent::GetEmotion);
    assert_eq!(reply, Some(Emotion::Happy));
}

#[test]
fn default_emotion_is_happy() {
    assert_eq!(Emotion::default(), Emotion::Happy);
}
