//! The command registry: an immutable ordered list of command descriptors,
//! built once at startup, and the token lookup that resolves an invocation
//! against it (first match wins, case-insensitively).
use vstd::prelude::*;
use vstd::string::*;

use crate::text::{is_lower, lower_seq, lower_str};

verus! {

/// The fixed grouping of commands; `Developer` also marks a command as
/// privileged.
#[derive(Clone, Copy, Debug, PartialEq, Eq, Structural)]
pub enum CommandCategory {
    Developer,
    General,
    Utility,
}

impl CommandCategory {
    /// The category's display name.
    pub open spec fn name_spec(&self) -> Seq<char> {
        match self {
            CommandCategory::Developer => "Developer"@,
            CommandCategory::General => "General"@,
            CommandCategory::Utility => "Utility"@,
        }
    }

    pub fn to_string(&self) -> (r: String)
        ensures
            r@ == self.name_spec(),
    {
        match self {
            CommandCategory::Developer => String::from_str("Developer"),
            CommandCategory::General => String::from_str("General"),
            CommandCategory::Utility => String::from_str("Utility"),
        }
    }
}

/// Which action a descriptor stands for.
#[derive(Clone, Copy, Debug, PartialEq, Eq, Structural)]
pub enum CommandKind {
    Shutdown,
    Help,
    Ping,
    Uptime,
    Weather,
}

/// Static metadata and action tag for one user-invocable command.
pub struct CommandDescriptor {
    pub name: String,
    pub aliases: Vec<String>,
    pub category: CommandCategory,
    pub description: String,
    pub usages: Vec<Vec<String>>,
    pub kind: CommandKind,
}

/// The mathematical shadow of a descriptor: every text field as a character
/// sequence.
#[verifier::ext_equal]
pub ghost struct DescriptorView {
    pub name: Seq<char>,
    pub aliases: Seq<Seq<char>>,
    pub category: CommandCategory,
    pub description: Seq<char>,
    pub usages: Seq<Seq<Seq<char>>>,
    pub kind: CommandKind,
}

impl View for CommandDescriptor {
    type V = DescriptorView;

    open spec fn view(&self) -> DescriptorView {
        DescriptorView {
            name: self.name@,
            aliases: self.aliases.deep_view(),
            category: self.category,
            description: self.description@,
            usages: self.usages.deep_view(),
            kind: self.kind,
        }
    }
}

pub open spec fn reg_view(reg: Seq<CommandDescriptor>) -> Seq<DescriptorView> {
    reg.map_values(|d: CommandDescriptor| d@)
}

/// A descriptor is privileged exactly when its category is `Developer`.
pub open spec fn is_privileged(d: DescriptorView) -> bool {
    d.category == CommandCategory::Developer
}

impl CommandDescriptor {
    /// Whether the command is restricted to developers.
    pub fn is_developer(&self) -> (r: bool)
        ensures
            r == is_privileged(self@),
    {
        match self.category {
            CommandCategory::Developer => true,
            _ => false,
        }
    }
}

/// A descriptor matches a (folded) token when the token is its name or one of
/// its aliases.
pub open spec fn matches_token(d: DescriptorView, tok: Seq<char>) -> bool {
    d.name == tok || d.aliases.contains(tok)
}

/// The index of the first descriptor that matches the token, if any.
pub open spec fn lookup_spec(reg: Seq<DescriptorView>, tok: Seq<char>) -> Option<int>
    decreases reg.len(),
{
    if reg.len() == 0 {
        None
    } else if matches_token(reg[0], tok) {
        Some(0int)
    } else {
        match lookup_spec(reg.drop_first(), tok) {
            None => None,
            Some(i) => Some(i + 1),
        }
    }
}

/// Two descriptors clash when any name or alias of one equals a name or alias
/// of the other.
pub open spec fn token_clash(a: DescriptorView, b: DescriptorView) -> bool {
    ||| a.name == b.name
    ||| b.aliases.contains(a.name)
    ||| a.aliases.contains(b.name)
    ||| exists|k: int| 0 <= k < a.aliases.len() && b.aliases.contains(#[trigger] a.aliases[k])
}

pub open spec fn wf_descriptor(d: DescriptorView) -> bool {
    &&& d.name.len() > 0
    &&& is_lower(d.name)
    &&& forall|i: int| 0 <= i < d.aliases.len() ==> is_lower(#[trigger] d.aliases[i])
}

/// A well-formed registry: every descriptor's tokens are non-empty and stored
/// lower-case, and no token is shared between two descriptors.
pub open spec fn wf_registry(reg: Seq<DescriptorView>) -> bool {
    &&& forall|i: int| 0 <= i < reg.len() ==> wf_descriptor(#[trigger] reg[i])
    &&& forall|i: int, j: int|
        0 <= i < reg.len() && 0 <= j < reg.len() && i != j ==> !token_clash(
            #[trigger] reg[i],
            #[trigger] reg[j],
        )
}

fn descriptor_matches(d: &CommandDescriptor, tok: &String) -> (b: bool)
    ensures
        b == matches_token(d@, tok@),
{
    if d.name == *tok {
        return true;
    }
    let n = d.aliases.len();
    let mut j: usize = 0;
    while j < n
        invariant
            0 <= j <= n,
            n == d.aliases.len(),
            d@.aliases.len() == n,
            forall|k: int| 0 <= k < j ==> d@.aliases[k] != tok@,
        decreases n - j,
    {
        if d.aliases[j] == *tok {
            proof {
                assert(d@.aliases[j as int] == tok@);
            }
            return true;
        }
        j = j + 1;
    }
    proof {
        assert(!d@.aliases.contains(tok@));
    }
    false
}

/// Resolves a token against the registry: the token is case-folded, and the
/// first descriptor whose name or alias equals the folded token wins. An
/// unmatched token resolves to nothing.
pub fn lookup<'a>(registry: &'a Vec<CommandDescriptor>, token: &str) -> (r: Option<
    &'a CommandDescriptor,
>)
    ensures
        match (r, lookup_spec(reg_view(registry@), lower_seq(token@))) {
            (Some(d), Some(i)) => 0 <= i < registry@.len() && d@ == reg_view(registry@)[i],
            (None, None) => true,
            _ => false,
        },
{
    let tok = lower_str(token);
    let ghost views = reg_view(registry@);
    let n = registry.len();
    let mut i: usize = 0;
    while i < n
        invariant
            0 <= i <= n,
            n == registry.len(),
            views == reg_view(registry@),
            views.len() == n,
            tok@ == lower_seq(token@),
            forall|j: int| 0 <= j < i ==> !matches_token(#[trigger] views[j], tok@),
        decreases n - i,
    {
        if descriptor_matches(&registry[i], &tok) {
            proof {
                lemma_lookup_spec_first(views, tok@, i as int);
            }
            return Some(&registry[i]);
        }
        i = i + 1;
    }
    proof {
        lemma_lookup_spec_none(views, tok@);
    }
    None
}

pub proof fn lemma_lookup_spec_first(reg: Seq<DescriptorView>, tok: Seq<char>, i: int)
    requires
        0 <= i < reg.len(),
        matches_token(reg[i], tok),
        forall|j: int| 0 <= j < i ==> !matches_token(#[trigger] reg[j], tok),
    ensures
        lookup_spec(reg, tok) == Some(i),
    decreases i,
{
    if i == 0 {
    } else {
        assert(!matches_token(reg[0], tok));
        assert forall|j: int| 0 <= j < i - 1 implies !matches_token(
            #[trigger] reg.drop_first()[j],
            tok,
        ) by {
            assert(reg.drop_first()[j] == reg[j + 1]);
        }
        assert(reg.drop_first()[i - 1] == reg[i]);
        lemma_lookup_spec_first(reg.drop_first(), tok, i - 1);
    }
}

pub proof fn lemma_lookup_spec_none(reg: Seq<DescriptorView>, tok: Seq<char>)
    requires
        forall|j: int| 0 <= j < reg.len() ==> !matches_token(#[trigger] reg[j], tok),
    ensures
        lookup_spec(reg, tok) is None,
    decreases reg.len(),
{
    if reg.len() == 0 {
    } else {
        assert forall|j: int| 0 <= j < reg.len() - 1 implies !matches_token(
            #[trigger] reg.drop_first()[j],
            tok,
        ) by {
            assert(reg.drop_first()[j] == reg[j + 1]);
        }
        lemma_lookup_spec_none(reg.drop_first(), tok);
    }
}

/// Law: in a well-formed registry every name is stored lower-case, names are
/// unique, and looking a name up yields exactly the descriptor that bears it.
pub proof fn lemma_lookup_name(reg: Seq<DescriptorView>, i: int)
    requires
        wf_registry(reg),
        0 <= i < reg.len(),
    ensures
        is_lower(reg[i].name),
        forall|j: int| 0 <= j < reg.len() && j != i ==> (#[trigger] reg[j]).name != reg[i].name,
        lookup_spec(reg, reg[i].name) == Some(i),
{
    assert forall|j: int| 0 <= j < reg.len() && j != i implies !matches_token(
        #[trigger] reg[j],
        reg[i].name,
    ) by {
        assert(!token_clash(reg[i], reg[j]));
    }
    lemma_lookup_spec_first(reg, reg[i].name, i);
}

/// Law: an alias of a descriptor resolves to the very same descriptor as the
/// descriptor's own name.
pub proof fn lemma_lookup_alias(reg: Seq<DescriptorView>, i: int, alias: Seq<char>)
    requires
        wf_registry(reg),
        0 <= i < reg.len(),
        reg[i].aliases.contains(alias),
    ensures
        lookup_spec(reg, alias) == Some(i),
        lookup_spec(reg, reg[i].name) == Some(i),
{
    assert forall|j: int| 0 <= j < reg.len() && j != i implies !matches_token(
        #[trigger] reg[j],
        alias,
    ) by {
        assert(!token_clash(reg[i], reg[j]));
        let k = choose|k: int| 0 <= k < reg[i].aliases.len() && reg[i].aliases[k] == alias;
        assert(reg[i].aliases[k] == alias);
    }
    lemma_lookup_spec_first(reg, alias, i);
    lemma_lookup_name(reg, i);
}

} // verus!
