//! The dispatcher: decides, for one inbound message, whether it is a command
//! invocation, resolves it against the registry, checks authorization, and
//! says what to do. All outcomes are values; the caller performs the side
//! effects they call for.
use vstd::prelude::*;
use vstd::string::*;

use crate::auth::AuthState;
use crate::registry::{
    is_privileged, lookup, lookup_spec, reg_view, CommandDescriptor, CommandKind, DescriptorView,
};
use crate::text::{lower_seq, strip_spec, strip_str};

verus! {

/// The leading character that marks a chat message as a command invocation.
pub const PREFIX: char = '<';

/// The cap on a user-facing failure reply, in characters.
pub const REPLY_LIMIT: usize = 2000;

/// The index of the first space in the string, or its length when it has none.
pub open spec fn first_space(s: Seq<char>) -> int
    decreases s.len(),
{
    if s.len() == 0 {
        0
    } else if s[0] == ' ' {
        0
    } else {
        1 + first_space(s.drop_first())
    }
}

pub proof fn lemma_first_space(s: Seq<char>)
    ensures
        0 <= first_space(s) <= s.len(),
        first_space(s) < s.len() ==> s[first_space(s)] == ' ',
        forall|k: int| 0 <= k < first_space(s) ==> s[k] != ' ',
    decreases s.len(),
{
    if s.len() == 0 {
    } else if s[0] == ' ' {
    } else {
        lemma_first_space(s.drop_first());
        assert forall|k: int| 0 <= k < first_space(s) implies s[k] != ' ' by {
            if k > 0 {
                assert(s.drop_first()[k - 1] != ' ');
            }
        }
    }
}

/// The message content split on single spaces, with no escaping or quoting;
/// consecutive spaces yield empty tokens.
pub open spec fn split_spaces(s: Seq<char>) -> Seq<Seq<char>>
    decreases s.len(),
{
    let i = first_space(s);
    if 0 <= i < s.len() {
        seq![s.take(i)] + split_spaces(s.skip(i + 1))
    } else {
        seq![s]
    }
}

/// Splits on single spaces, as `split_spaces` states.
pub fn split_spaces_str(s: &str) -> (r: Vec<String>)
    ensures
        r.deep_view() == split_spaces(s@),
        r.len() >= 1,
    decreases s@.len(),
{
    let n = s.unicode_len();
    let mut i: usize = 0;
    while i < n && s.get_char(i) != ' '
        invariant
            0 <= i <= n,
            n == s@.len(),
            forall|k: int| 0 <= k < i ==> s@[k] != ' ',
        decreases n - i,
    {
        i = i + 1;
    }
    proof {
        lemma_first_space(s@);
        assert(i == first_space(s@));
    }
    if i == n {
        let mut r: Vec<String> = Vec::new();
        r.push(s.to_owned());
        proof {
            assert(r.deep_view() =~~= split_spaces(s@));
        }
        r
    } else {
        let head = s.substring_char(0, i).to_owned();
        let tail = s.substring_char(i + 1, n);
        let mut rest = split_spaces_str(tail);
        let mut r: Vec<String> = Vec::new();
        r.push(head);
        r.append(&mut rest);
        proof {
            assert(s@.subrange(0, i as int) =~= s@.take(i as int));
            assert(s@.subrange(i + 1, n as int) =~= s@.skip(i + 1));
            assert(r.deep_view() =~~= split_spaces(s@));
        }
        r
    }
}

/// What the dispatcher decides for one inbound message.
pub enum DispatchDecision {
    /// The message is no command invocation (or an unmatched one): do nothing.
    Ignore,
    /// A privileged command from an unauthorized author: send the rejection
    /// reply, invoke nothing.
    Reject,
    /// Invoke the resolved command's action on the remaining tokens.
    Invoke { kind: CommandKind, args: Vec<String> },
}

#[verifier::ext_equal]
pub ghost enum DecisionView {
    Ignore,
    Reject,
    Invoke { kind: CommandKind, args: Seq<Seq<char>> },
}

impl View for DispatchDecision {
    type V = DecisionView;

    open spec fn view(&self) -> DecisionView {
        match self {
            DispatchDecision::Ignore => DecisionView::Ignore,
            DispatchDecision::Reject => DecisionView::Reject,
            DispatchDecision::Invoke { kind, args } => DecisionView::Invoke {
                kind: *kind,
                args: args.deep_view(),
            },
        }
    }
}

/// The eligibility filter: content starts with the prefix, the author is no
/// bot, the message comes from a group channel, and it is a regular message.
pub open spec fn eligible(content: Seq<char>, author_is_bot: bool, from_guild: bool, is_regular: bool) -> bool {
    &&& content.len() > 0
    &&& content[0] == PREFIX
    &&& !author_is_bot
    &&& from_guild
    &&& is_regular
}

/// The command token of an eligible message: the first space-separated token,
/// case-folded, with the prefix character stripped.
pub open spec fn command_token(content: Seq<char>) -> Seq<char> {
    lower_seq(split_spaces(content)[0]).drop_first()
}

/// The registry index an eligible message resolves to, if any.
pub open spec fn resolved_index(content: Seq<char>, reg: Seq<DescriptorView>) -> Option<int> {
    lookup_spec(reg, command_token(content))
}

/// The dispatcher's whole decision as a function of the message, the
/// privileged set, and the registry.
pub open spec fn dispatch_spec(
    content: Seq<char>,
    author_is_bot: bool,
    from_guild: bool,
    is_regular: bool,
    author_id: u64,
    devs: Seq<u64>,
    reg: Seq<DescriptorView>,
) -> DecisionView {
    if !eligible(content, author_is_bot, from_guild, is_regular) {
        DecisionView::Ignore
    } else {
        match resolved_index(content, reg) {
            None => DecisionView::Ignore,
            Some(i) => if is_privileged(reg[i]) && !devs.contains(author_id) {
                DecisionView::Reject
            } else {
                DecisionView::Invoke {
                    kind: reg[i].kind,
                    args: split_spaces(content).drop_first(),
                }
            },
        }
    }
}

/// Decides what one inbound message calls for, as `dispatch_spec` states:
/// ineligible or unmatched messages are ignored; a privileged command from an
/// author outside the privileged set is rejected without invocation; anything
/// else is invoked with the remaining tokens as arguments, verbatim.
pub fn dispatch(
    content: &str,
    author_is_bot: bool,
    from_guild: bool,
    is_regular: bool,
    author_id: u64,
    auth: &AuthState,
    registry: &Vec<CommandDescriptor>,
) -> (d: DispatchDecision)
    ensures
        d@ == dispatch_spec(
            content@,
            author_is_bot,
            from_guild,
            is_regular,
            author_id,
            auth@.developers,
            reg_view(registry@),
        ),
{
    if content.is_empty() {
        return DispatchDecision::Ignore;
    }
    let first_char = content.get_char(0);
    if !(first_char == PREFIX && !author_is_bot && from_guild && is_regular) {
        return DispatchDecision::Ignore;
    }
    let toks = split_spaces_str(content);
    let first = toks[0].as_str();
    proof {
        lemma_first_space(content@);
        assert(first_space(content@) >= 1);
        assert(toks.deep_view()[0] == split_spaces(content@)[0]);
        assert(split_spaces(content@)[0].len() >= 1);
    }
    let stripped = first.substring_char(1, first.unicode_len());
    proof {
        assert(lower_seq(stripped@) =~= command_token(content@)) by {
            assert(stripped@ =~= split_spaces(content@)[0].drop_first());
            crate::text::lemma_lower_idempotent(split_spaces(content@)[0].drop_first());
            assert(lower_seq(split_spaces(content@)[0]).drop_first() =~= lower_seq(
                split_spaces(content@)[0].drop_first(),
            ));
        }
    }
    match lookup(registry, stripped) {
        None => DispatchDecision::Ignore,
        Some(d) => {
            if d.is_developer() && !auth.is_developer(author_id) {
                DispatchDecision::Reject
            } else {
                let kind = d.kind;
                let mut args = toks;
                args.remove(0);
                proof {
                    assert(args.deep_view() =~~= split_spaces(content@).drop_first());
                }
                DispatchDecision::Invoke { kind, args }
            }
        },
    }
}

/// Law: an author outside the privileged set can never get a privileged
/// command invoked. Whenever the message resolves to a privileged descriptor
/// the decision is the rejection, and whenever the decision invokes anything
/// the resolved descriptor is unprivileged.
pub proof fn lemma_privileged_gate(
    content: Seq<char>,
    author_is_bot: bool,
    from_guild: bool,
    is_regular: bool,
    author_id: u64,
    devs: Seq<u64>,
    reg: Seq<DescriptorView>,
)
    requires
        !devs.contains(author_id),
    ensures
        forall|i: int|
            resolved_index(content, reg) == Some(i) && 0 <= i < reg.len() && is_privileged(reg[i])
                && eligible(content, author_is_bot, from_guild, is_regular) ==> dispatch_spec(
                content,
                author_is_bot,
                from_guild,
                is_regular,
                author_id,
                devs,
                reg,
            ) == DecisionView::Reject,
        (dispatch_spec(content, author_is_bot, from_guild, is_regular, author_id, devs, reg)
            is Invoke) ==> {
            let i = resolved_index(content, reg)->0;
            !is_privileged(reg[i])
        },
{
}

/// The reply sent for an unauthorized invocation.
pub fn rejection_text() -> (r: String)
    ensures
        r@ == "You do not have permissions to execute the command!"@,
{
    String::from_str("You do not have permissions to execute the command!")
}

/// Converts an action failure's text into the bounded user-facing reply:
/// capped at `REPLY_LIMIT` characters with an ellipsis marker when cut.
pub fn failure_reply(error_text: &str) -> (r: Option<String>)
    ensures
        match r {
            Some(t) => strip_spec(error_text@, REPLY_LIMIT as int, true) == Some(t@),
            None => strip_spec(error_text@, REPLY_LIMIT as int, true) is None,
        },
{
    strip_str(error_text, REPLY_LIMIT, true)
}

} // verus!
