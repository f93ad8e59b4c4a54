//! The paste-injection protocol: write the chosen content to the system
//! clipboard under a bounded retry policy, restore focus to the remembered
//! window, wait for the focus handoff to settle, then synthesize a paste
//! chord.
//!
//! The platform calls — the clipboard write itself, sleeping between
//! attempts, the focus request, the input synthesis — run outside the
//! library. The decisions all stand here: when to retry and when to give
//! up, in what order the steps run, which failures are fatal and which are
//! absorbed, and what the synthetic chord consists of.

use vstd::prelude::*;

verus! {

/// How many times the clipboard write is attempted before the command
/// fails with the last underlying error.
pub const MAX_WRITE_ATTEMPTS: u8 = 8;

/// Fixed backoff between clipboard write attempts, in milliseconds.
pub const WRITE_BACKOFF_MS: u64 = 40;

/// Fixed delay between requesting focus restoration and synthesizing the
/// paste chord, in milliseconds: sending the chord earlier could deliver it
/// to the wrong window.
pub const SETTLE_DELAY_MS: u64 = 320;

/// Whether the bounded retry loop succeeds, given the outcome each platform
/// write attempt would have, in order: it does exactly when at least one of
/// the first `MAX_WRITE_ATTEMPTS` attempts succeeds.
pub open spec fn spec_retry_succeeds(outcomes: Seq<bool>) -> bool {
    exists|i: int| 0 <= i < outcomes.len() && i < MAX_WRITE_ATTEMPTS && outcomes[i]
}

/// What the retry loop does after one write attempt completes.
#[derive(Debug, PartialEq, Eq, Structural, Clone, Copy)]
pub enum RetryDecision {
    /// The write succeeded: move on to focus restoration.
    Done,
    /// The write failed with attempts to spare: sleep, then try again.
    RetryAfterBackoff { delay_ms: u64 },
    /// The write failed on the last attempt: the command fails with the
    /// last underlying error.
    GiveUp,
}

/// Progress of the bounded retry loop: how many write attempts completed.
#[derive(Debug, PartialEq, Eq, Structural, Clone, Copy)]
pub struct RetryState {
    pub attempts_done: u8,
}

impl RetryState {
    /// Never more attempts than the policy allows.
    pub open spec fn wf(self) -> bool {
        self.attempts_done <= MAX_WRITE_ATTEMPTS
    }

    /// A fresh loop with no attempts made.
    pub fn new() -> (s: Self)
        ensures
            s.wf(),
            s.attempts_done == 0,
    {
        RetryState { attempts_done: 0 }
    }

    /// Records the outcome of one write attempt and decides how to go on:
    /// success finishes the loop; failure backs off and retries until the
    /// last allowed attempt, whose failure gives up.
    pub fn record_attempt(&mut self, success: bool) -> (d: RetryDecision)
        requires
            old(self).wf(),
            old(self).attempts_done < MAX_WRITE_ATTEMPTS,
        ensures
            final(self).wf(),
            final(self).attempts_done == old(self).attempts_done + 1,
            success ==> d == RetryDecision::Done,
            !success && old(self).attempts_done + 1 < MAX_WRITE_ATTEMPTS ==> d == (
            RetryDecision::RetryAfterBackoff { delay_ms: WRITE_BACKOFF_MS }),
            !success && old(self).attempts_done + 1 == MAX_WRITE_ATTEMPTS ==> d
                == RetryDecision::GiveUp,
    {
        self.attempts_done = self.attempts_done + 1;
        if success {
            RetryDecision::Done
        } else if self.attempts_done < MAX_WRITE_ATTEMPTS {
            RetryDecision::RetryAfterBackoff { delay_ms: WRITE_BACKOFF_MS }
        } else {
            RetryDecision::GiveUp
        }
    }
}

/// Law: the retry loop reaches the last allowed attempt. A write that
/// fails on every attempt before the last and succeeds on the last still
/// succeeds as a whole: the loop must not give up early.
pub proof fn lemma_retry_reaches_last_attempt(outcomes: Seq<bool>)
    requires
        outcomes.len() == MAX_WRITE_ATTEMPTS,
        forall|i: int| 0 <= i < MAX_WRITE_ATTEMPTS - 1 ==> !outcomes[i],
        outcomes[MAX_WRITE_ATTEMPTS - 1],
    ensures
        spec_retry_succeeds(outcomes),
{
    assert(spec_retry_succeeds(outcomes)) by {
        assert(outcomes[MAX_WRITE_ATTEMPTS - 1]);
    }
}

/// Law: a write that fails on every allowed attempt fails as a whole.
pub proof fn lemma_retry_exhausted(outcomes: Seq<bool>)
    requires
        forall|i: int| 0 <= i < outcomes.len() ==> !outcomes[i],
    ensures
        !spec_retry_succeeds(outcomes),
{
}

/// The two keys of the synthetic paste chord.
#[derive(Debug, PartialEq, Eq, Structural, Clone, Copy)]
pub enum ChordKey {
    /// The chord's modifier (control).
    Modifier,
    /// The paste key itself (the letter V).
    PasteKey,
}

/// Direction of one synthetic key event.
#[derive(Debug, PartialEq, Eq, Structural, Clone, Copy)]
pub enum KeyDirection {
    Press,
    Release,
}

/// One synthetic key event.
#[derive(Debug, PartialEq, Eq, Structural, Clone, Copy)]
pub struct KeyStroke {
    pub key: ChordKey,
    pub direction: KeyDirection,
}

/// The synthetic paste chord, in order: press the modifier, press the
/// paste key, release the paste key, release the modifier.
pub open spec fn spec_paste_chord() -> Seq<KeyStroke> {
    seq![
        (KeyStroke { key: ChordKey::Modifier, direction: KeyDirection::Press }),
        (KeyStroke { key: ChordKey::PasteKey, direction: KeyDirection::Press }),
        (KeyStroke { key: ChordKey::PasteKey, direction: KeyDirection::Release }),
        (KeyStroke { key: ChordKey::Modifier, direction: KeyDirection::Release }),
    ]
}

/// Builds the synthetic paste chord to hand to the OS input-injection
/// facility.
pub fn paste_chord() -> (r: Vec<KeyStroke>)
    ensures
        r@ == spec_paste_chord(),
{
    let mut v: Vec<KeyStroke> = Vec::new();
    v.push(KeyStroke { key: ChordKey::Modifier, direction: KeyDirection::Press });
    v.push(KeyStroke { key: ChordKey::PasteKey, direction: KeyDirection::Press });
    v.push(KeyStroke { key: ChordKey::PasteKey, direction: KeyDirection::Release });
    v.push(KeyStroke { key: ChordKey::Modifier, direction: KeyDirection::Release });
    proof {
        assert(v@ =~= spec_paste_chord());
    }
    v
}

/// Why a paste command failed.
#[derive(Debug, PartialEq, Eq, Structural, Clone, Copy)]
pub enum PasteError {
    /// Every allowed clipboard write attempt failed.
    ClipboardWriteExhausted,
    /// The OS accepted fewer synthesized events than the chord requested.
    InjectionRejected { requested: usize, accepted: usize },
}

/// Judges the report of the OS input-injection facility: the chord landed
/// only if every requested event was accepted.
pub fn injection_result(requested: usize, accepted: usize) -> (r: Result<(), PasteError>)
    ensures
        r is Ok <==> accepted == requested,
        r is Err ==> r->Err_0 == (PasteError::InjectionRejected { requested, accepted }),
{
    if accepted == requested {
        Ok(())
    } else {
        Err(PasteError::InjectionRejected { requested, accepted })
    }
}

/// Where a paste command stands in its strictly sequential protocol.
#[derive(Debug, PartialEq, Eq, Structural, Clone, Copy)]
pub enum PastePhase {
    /// Nothing done yet.
    Start,
    /// The presentation window was told to hide.
    Hidden,
    /// The content reached the clipboard.
    Written,
    /// Focus restoration was requested.
    FocusRequested,
    /// The settle delay elapsed.
    Settled,
    /// The chord was accepted: the command succeeded.
    Completed,
    /// A fatal step failed: the command failed.
    Failed,
}

/// The next platform action a paste command performs in a given phase.
#[derive(Debug, PartialEq, Eq, Structural, Clone, Copy)]
pub enum PasteAction {
    /// Hide the presentation window so the paste lands on the target
    /// application (failures are ignored).
    HideWindow,
    /// Write the content to the clipboard under the retry policy.
    WriteClipboard,
    /// Request foreground focus for the remembered window (best effort,
    /// failures are ignored).
    RestoreFocus,
    /// Sleep for the given number of milliseconds.
    Wait { ms: u64 },
    /// Synthesize the paste chord.
    InjectChord,
    /// Nothing: the command is over.
    Idle,
}

impl PastePhase {
    /// The action to perform next in this phase.
    pub fn next_action(&self) -> (a: PasteAction)
        ensures
            *self == PastePhase::Start ==> a == PasteAction::HideWindow,
            *self == PastePhase::Hidden ==> a == PasteAction::WriteClipboard,
            *self == PastePhase::Written ==> a == PasteAction::RestoreFocus,
            *self == PastePhase::FocusRequested ==> a == (PasteAction::Wait {
                ms: SETTLE_DELAY_MS,
            }),
            *self == PastePhase::Settled ==> a == PasteAction::InjectChord,
            *self == PastePhase::Completed || *self == PastePhase::Failed ==> a
                == PasteAction::Idle,
    {
        match self {
            PastePhase::Start => PasteAction::HideWindow,
            PastePhase::Hidden => PasteAction::WriteClipboard,
            PastePhase::Written => PasteAction::RestoreFocus,
            PastePhase::FocusRequested => PasteAction::Wait { ms: SETTLE_DELAY_MS },
            PastePhase::Settled => PasteAction::InjectChord,
            PastePhase::Completed => PasteAction::Idle,
            PastePhase::Failed => PasteAction::Idle,
        }
    }

    /// Advances the protocol once the phase's action completed with the
    /// given outcome. Hiding the window and restoring focus are best
    /// effort: their outcome is ignored. A failed clipboard write (retries
    /// exhausted) and a rejected chord are fatal; nothing runs out of
    /// order.
    pub fn advance(&self, succeeded: bool) -> (next: PastePhase)
        ensures
            *self == PastePhase::Start ==> next == PastePhase::Hidden,
            *self == PastePhase::Hidden && succeeded ==> next == PastePhase::Written,
            *self == PastePhase::Hidden && !succeeded ==> next == PastePhase::Failed,
            *self == PastePhase::Written ==> next == PastePhase::FocusRequested,
            *self == PastePhase::FocusRequested ==> next == PastePhase::Settled,
            *self == PastePhase::Settled && succeeded ==> next == PastePhase::Completed,
            *self == PastePhase::Settled && !succeeded ==> next == PastePhase::Failed,
            *self == PastePhase::Completed ==> next == PastePhase::Completed,
            *self == PastePhase::Failed ==> next == PastePhase::Failed,
    {
        match self {
            PastePhase::Start => PastePhase::Hidden,
            PastePhase::Hidden => {
                if succeeded {
                    PastePhase::Written
                } else {
                    PastePhase::Failed
                }
            },
            PastePhase::Written => PastePhase::FocusRequested,
            PastePhase::FocusRequested => PastePhase::Settled,
            PastePhase::Settled => {
                if succeeded {
                    PastePhase::Completed
                } else {
                    PastePhase::Failed
                }
            },
            PastePhase::Completed => PastePhase::Completed,
            PastePhase::Failed => PastePhase::Failed,
        }
    }
}

/// The observable effect of one paste-text command: whether it completed,
/// and the text the shared clipboard holds afterwards (`None` when the
/// command never got a write through and the clipboard keeps whatever it
/// held before).
pub struct PasteEffect {
    pub completed: bool,
    pub clipboard_text: Option<Seq<char>>,
}

/// The effect of pasting `t`, given the outcome each clipboard write
/// attempt would have and whether the OS accepts the chord: once any write
/// attempt succeeds the clipboard holds `t`, whatever happens afterwards;
/// the command completes when the chord is also accepted.
pub open spec fn spec_paste_text_effect(
    t: Seq<char>,
    write_outcomes: Seq<bool>,
    chord_accepted: bool,
) -> PasteEffect {
    if spec_retry_succeeds(write_outcomes) {
        PasteEffect { completed: chord_accepted, clipboard_text: Some(t) }
    } else {
        PasteEffect { completed: false, clipboard_text: None }
    }
}

/// Law: paste is idempotent in effect. Two paste commands for the same
/// text both complete, and the clipboard ends holding that text both
/// times. The clipboard and the input facility are shared with every other
/// process, so the law presumes what its wording does: that each command
/// gets one of its write attempts through and its chord accepted.
pub proof fn lemma_paste_text_idempotent(t: Seq<char>, w1: Seq<bool>, w2: Seq<bool>)
    requires
        spec_retry_succeeds(w1),
        spec_retry_succeeds(w2),
    ensures
        spec_paste_text_effect(t, w1, true).completed,
        spec_paste_text_effect(t, w2, true).completed,
        spec_paste_text_effect(t, w1, true).clipboard_text == Some(t),
        spec_paste_text_effect(t, w2, true).clipboard_text == Some(t),
        spec_paste_text_effect(t, w1, true) == spec_paste_text_effect(t, w2, true),
{
}

} // verus!
