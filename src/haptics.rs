//! Haptic feedback patterns and the pulses that play them.

use vstd::prelude::*;

verus! {

/// Named haptic patterns offered to the UI layer.
#[derive(Clone, Copy, Debug, PartialEq, Eq, Structural)]
pub enum HapticPattern {
    Generic,
    Alignment,
    LevelChange,
    Light,
    Medium,
    Heavy,
    Selection,
    Success,
    Error,
}

/// Feedback kinds of the platform's haptic performer.
pub const FEEDBACK_GENERIC: u8 = 0;
pub const FEEDBACK_ALIGNMENT: u8 = 1;
pub const FEEDBACK_LEVEL_CHANGE: u8 = 2;

/// Performance times: play now, or at the next drawn frame.
pub const PERFORM_DEFAULT: u8 = 0;
pub const PERFORM_NOW: u8 = 1;

/// Pause inside the double tap of `Success`.
pub const SUCCESS_PAUSE_MS: u32 = 50;

/// Pause between the taps of `Error`.
pub const ERROR_PAUSE_MS: u32 = 40;

/// One feedback request, then a pause before the next.
#[derive(Clone, Copy, Debug, PartialEq, Eq, Structural)]
pub struct HapticPulse {
    pub feedback: u8,
    pub performance_time: u8,
    pub pause_after_ms: u32,
}

pub open spec fn pulse(feedback: u8, performance_time: u8, pause_after_ms: u32) -> HapticPulse {
    HapticPulse { feedback, performance_time, pause_after_ms }
}

/// The pulses of each pattern: the subtle patterns use the alignment
/// feedback, the medium ones the generic feedback, the strong ones the level
/// change feedback; `Success` is a double tap and `Error` a triple tap.
pub open spec fn pulses_spec(pattern: HapticPattern) -> Seq<HapticPulse> {
    match pattern {
        HapticPattern::Generic => seq![pulse(FEEDBACK_GENERIC, PERFORM_NOW, 0)],
        HapticPattern::Alignment => seq![pulse(FEEDBACK_ALIGNMENT, PERFORM_NOW, 0)],
        HapticPattern::LevelChange => seq![pulse(FEEDBACK_LEVEL_CHANGE, PERFORM_NOW, 0)],
        HapticPattern::Light => seq![pulse(FEEDBACK_ALIGNMENT, PERFORM_NOW, 0)],
        HapticPattern::Medium => seq![pulse(FEEDBACK_GENERIC, PERFORM_NOW, 0)],
        HapticPattern::Heavy => seq![pulse(FEEDBACK_LEVEL_CHANGE, PERFORM_NOW, 0)],
        HapticPattern::Selection => seq![pulse(FEEDBACK_ALIGNMENT, PERFORM_DEFAULT, 0)],
        HapticPattern::Success => seq![
            pulse(FEEDBACK_ALIGNMENT, PERFORM_NOW, SUCCESS_PAUSE_MS),
            pulse(FEEDBACK_GENERIC, PERFORM_NOW, 0),
        ],
        HapticPattern::Error => seq![
            pulse(FEEDBACK_LEVEL_CHANGE, PERFORM_NOW, ERROR_PAUSE_MS),
            pulse(FEEDBACK_LEVEL_CHANGE, PERFORM_NOW, ERROR_PAUSE_MS),
            pulse(FEEDBACK_LEVEL_CHANGE, PERFORM_NOW, 0),
        ],
    }
}

fn single(feedback: u8, performance_time: u8) -> (r: Vec<HapticPulse>)
    ensures
        r@ == seq![pulse(feedback, performance_time, 0)],
{
    let mut v: Vec<HapticPulse> = Vec::new();
    v.push(HapticPulse { feedback, performance_time, pause_after_ms: 0 });
    v
}

/// The pulses that play `pattern`, in order.
pub fn haptic_pulses(pattern: HapticPattern) -> (r: Vec<HapticPulse>)
    ensures
        r@ == pulses_spec(pattern),
{
    match pattern {
        HapticPattern::Generic => single(FEEDBACK_GENERIC, PERFORM_NOW),
        HapticPattern::Alignment => single(FEEDBACK_ALIGNMENT, PERFORM_NOW),
        HapticPattern::LevelChange => single(FEEDBACK_LEVEL_CHANGE, PERFORM_NOW),
        HapticPattern::Light => single(FEEDBACK_ALIGNMENT, PERFORM_NOW),
        HapticPattern::Medium => single(FEEDBACK_GENERIC, PERFORM_NOW),
        HapticPattern::Heavy => single(FEEDBACK_LEVEL_CHANGE, PERFORM_NOW),
        HapticPattern::Selection => single(FEEDBACK_ALIGNMENT, PERFORM_DEFAULT),
        HapticPattern::Success => {
            let mut v: Vec<HapticPulse> = Vec::new();
            v.push(
                HapticPulse {
                    feedback: FEEDBACK_ALIGNMENT,
                    performance_time: PERFORM_NOW,
                    pause_after_ms: SUCCESS_PAUSE_MS,
                },
            );
            v.push(HapticPulse { feedback: FEEDBACK_GENERIC, performance_time: PERFORM_NOW, pause_after_ms: 0 });
            proof {
                assert(v@ =~= pulses_spec(pattern));
            }
            v
        },
        HapticPattern::Error => {
            let mut v: Vec<HapticPulse> = Vec::new();
            let mut k: usize = 0;
            while k < 3
                invariant
                    k <= 3,
                    v@.len() == k,
                    forall|j: int|
                        0 <= j < k ==> #[trigger] v@[j] == pulse(
                            FEEDBACK_LEVEL_CHANGE,
                            PERFORM_NOW,
                            if j < 2 {
                                ERROR_PAUSE_MS
                            } else {
                                0
                            },
                        ),
                decreases 3 - k,
            {
                let pause: u32 = if k < 2 { ERROR_PAUSE_MS } else { 0 };
                v.push(
                    HapticPulse {
                        feedback: FEEDBACK_LEVEL_CHANGE,
                        performance_time: PERFORM_NOW,
                        pause_after_ms: pause,
                    },
                );
                k = k + 1;
            }
            proof {
                assert(v@ =~= pulses_spec(pattern));
            }
            v
        },
    }
}

} // verus!
