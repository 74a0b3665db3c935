//! The shutdown command's confirmation dialogue, as plain decisions: the
//! caller sends the prompt, collects at most one reaction within the timeout,
//! and acts on what is decided here.
use vstd::prelude::*;
use vstd::string::*;

verus! {

/// The affirmative reaction option.
pub const CHECK_MARK: char = '\u{2705}';

/// The negative reaction option.
pub const CROSS_MARK: char = '\u{274E}';

/// How long to wait for the invoking author's reaction, in seconds.
pub const CONFIRMATION_TIMEOUT_SECS: u64 = 60;

/// How the wait for a confirmation reaction ended.
#[derive(Clone, Copy, Debug, PartialEq, Eq, Structural)]
pub enum ReactionOutcome {
    Affirmative,
    Negative,
    TimedOut,
}

/// What the dialogue's outcome calls for.
#[derive(Clone, Copy, Debug, PartialEq, Eq, Structural)]
pub struct ShutdownDecision {
    pub delete_prompt: bool,
    pub terminate: bool,
}

/// Which outcome a reaction emoji stands for, if it is one of the two options.
pub open spec fn classify_spec(emoji: Seq<char>) -> Option<ReactionOutcome> {
    if emoji == seq![CHECK_MARK] {
        Some(ReactionOutcome::Affirmative)
    } else if emoji == seq![CROSS_MARK] {
        Some(ReactionOutcome::Negative)
    } else {
        None
    }
}

/// Maps a reaction emoji to the outcome it stands for; any emoji other than
/// the two offered options stands for nothing (the collector's filter).
pub fn classify_reaction(emoji: &str) -> (r: Option<ReactionOutcome>)
    ensures
        r == classify_spec(emoji@),
{
    let n = emoji.unicode_len();
    if n != 1 {
        proof {
            assert(emoji@ != seq![CHECK_MARK] && emoji@ != seq![CROSS_MARK]);
        }
        return None;
    }
    let c = emoji.get_char(0);
    if c == CHECK_MARK {
        proof {
            assert(emoji@ =~= seq![CHECK_MARK]);
        }
        Some(ReactionOutcome::Affirmative)
    } else if c == CROSS_MARK {
        proof {
            assert(emoji@ =~= seq![CROSS_MARK]);
        }
        Some(ReactionOutcome::Negative)
    } else {
        proof {
            assert(emoji@ != seq![CHECK_MARK] && emoji@ != seq![CROSS_MARK]);
        }
        None
    }
}

/// Decides the dialogue's effects: the prompt is deleted whatever happened,
/// and the process terminates only when the affirmative reaction arrived
/// before the timeout.
pub fn decide_shutdown(outcome: &ReactionOutcome) -> (d: ShutdownDecision)
    ensures
        d.delete_prompt,
        d.terminate == (*outcome == ReactionOutcome::Affirmative),
{
    ShutdownDecision {
        delete_prompt: true,
        terminate: match outcome {
            ReactionOutcome::Affirmative => true,
            _ => false,
        },
    }
}

/// The confirmation prompt's text.
pub fn confirmation_text() -> (r: String)
    ensures
        r@ == "Are you sure?"@,
{
    String::from_str("Are you sure?")
}

} // verus!
