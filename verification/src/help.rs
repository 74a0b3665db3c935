//! The help command's two renderings: the grouped overview of every command,
//! and the detail card for a single queried command.
use vstd::prelude::*;
use vstd::string::*;

use crate::registry::{
    is_privileged, lookup, lookup_spec, reg_view, CommandCategory, CommandDescriptor,
    DescriptorView,
};
use crate::text::{
    join_with, join_with_sep, lex_le, lower_seq, sort_strings, sort_strings_spec, str_le,
};

verus! {

/// The detail card for one command.
pub struct HelpDetail {
    pub title: String,
    pub description: String,
    pub category: String,
    pub aliases: Option<String>,
    pub usages: Option<String>,
}

/// The card's title: prefix and name, with a developer-only marker where the
/// command is privileged.
pub open spec fn title_spec(d: DescriptorView) -> Seq<char> {
    "<"@ + d.name + (if is_privileged(d) {
        " (developer-only)"@
    } else {
        Seq::<char>::empty()
    })
}

/// The aliases line: the aliases sorted and comma-separated, or nothing when
/// there are none.
pub open spec fn aliases_text(d: DescriptorView) -> Option<Seq<char>> {
    if d.aliases.len() == 0 {
        None
    } else {
        Some(join_with(sort_strings_spec(d.aliases), ", "@))
    }
}

/// One placeholder of a usage template, wrapped in angle brackets.
pub open spec fn usage_arg(a: Seq<char>) -> Seq<char> {
    "<"@ + a + ">"@
}

/// Every placeholder of a template, wrapped.
pub open spec fn usage_args_view(u: Seq<Seq<char>>) -> Seq<Seq<char>> {
    u.map_values(|a: Seq<char>| usage_arg(a))
}

/// One usage line: the prefixed command name followed by its placeholders.
pub open spec fn usage_line(name: Seq<char>, u: Seq<Seq<char>>) -> Seq<char> {
    "<"@ + name + " "@ + join_with(usage_args_view(u), " "@)
}

/// Every template rendered as its usage line.
pub open spec fn usage_lines_view(name: Seq<char>, us: Seq<Seq<Seq<char>>>) -> Seq<Seq<char>> {
    us.map_values(|u: Seq<Seq<char>>| usage_line(name, u))
}

/// The usages block: one line per template, or nothing when there are none.
pub open spec fn usages_text(name: Seq<char>, us: Seq<Seq<Seq<char>>>) -> Option<Seq<char>> {
    if us.len() == 0 {
        None
    } else {
        Some(join_with(usage_lines_view(name, us), "\n"@))
    }
}

fn render_usages(name: &str, usages: &Vec<Vec<String>>) -> (r: Option<String>)
    ensures
        match r {
            Some(t) => usages_text(name@, usages.deep_view()) == Some(t@),
            None => usages_text(name@, usages.deep_view()) is None,
        },
{
    if usages.len() == 0 {
        return None;
    }
    let mut lines: Vec<String> = Vec::new();
    let n = usages.len();
    let mut i: usize = 0;
    while i < n
        invariant
            0 <= i <= n,
            n == usages.len(),
            usages.deep_view().len() == n,
            lines.deep_view() =~= usage_lines_view(name@, usages.deep_view().take(i as int)),
        decreases n - i,
    {
        let u = &usages[i];
        let mut wrapped: Vec<String> = Vec::new();
        let m = u.len();
        let mut j: usize = 0;
        while j < m
            invariant
                0 <= j <= m,
                m == u.len(),
                u.deep_view().len() == m,
                wrapped.deep_view() =~= usage_args_view(u.deep_view().take(j as int)),
            decreases m - j,
        {
            let mut w = String::from_str("<");
            w.append(u[j].as_str());
            w.append(">");
            wrapped.push(w);
            proof {
                let udv = u.deep_view();
                assert(udv.take(j + 1) =~= udv.take(j as int).push(udv[j as int]));
                assert(w@ == usage_arg(udv[j as int]));
                assert(usage_args_view(udv.take(j + 1)) =~= usage_args_view(
                    udv.take(j as int),
                ).push(usage_arg(udv[j as int])));
                assert(wrapped.deep_view() =~= usage_args_view(udv.take(j + 1)));
            }
            j = j + 1;
        }
        proof {
            assert(u.deep_view().take(m as int) =~= u.deep_view());
        }
        let mut line = String::from_str("<");
        line.append(name);
        line.append(" ");
        let joined = join_with_sep(&wrapped, " ");
        line.append(joined.as_str());
        lines.push(line);
        proof {
            let dv = usages.deep_view();
            assert(line@ == usage_line(name@, dv[i as int]));
            assert(dv.take(i + 1) =~= dv.take(i as int).push(dv[i as int]));
            assert(usage_lines_view(name@, dv.take(i + 1)) =~= usage_lines_view(
                name@,
                dv.take(i as int),
            ).push(usage_line(name@, dv[i as int])));
            assert(lines.deep_view() =~= usage_lines_view(name@, dv.take(i + 1)));
        }
        i = i + 1;
    }
    proof {
        assert(usages.deep_view().take(n as int) =~= usages.deep_view());
    }
    Some(join_with_sep(&lines, "\n"))
}

/// Renders the detail card for the queried token, resolved like any command
/// invocation; an unmatched query yields nothing (the not-found failure).
pub fn help_detail(registry: &Vec<CommandDescriptor>, query: &str) -> (r: Option<HelpDetail>)
    ensures
        match (r, lookup_spec(reg_view(registry@), lower_seq(query@))) {
            (Some(h), Some(i)) => {
                let d = reg_view(registry@)[i];
                &&& 0 <= i < registry@.len()
                &&& h.title@ == title_spec(d)
                &&& h.description@ == d.description
                &&& h.category@ == d.category.name_spec()
                &&& match h.aliases {
                    Some(a) => aliases_text(d) == Some(a@),
                    None => aliases_text(d) is None,
                }
                &&& match h.usages {
                    Some(u) => usages_text(d.name, d.usages) == Some(u@),
                    None => usages_text(d.name, d.usages) is None,
                }
            },
            (None, None) => true,
            _ => false,
        },
{
    match lookup(registry, query) {
        None => None,
        Some(d) => {
            let mut title = String::from_str("<");
            title.append(d.name.as_str());
            if d.is_developer() {
                title.append(" (developer-only)");
            }
            let category = d.category.to_string();
            let aliases = if d.aliases.len() == 0 {
                None
            } else {
                let sorted = sort_strings(&d.aliases);
                Some(join_with_sep(&sorted, ", "))
            };
            let usages = render_usages(d.name.as_str(), &d.usages);
            Some(
                HelpDetail {
                    title,
                    description: d.description.clone(),
                    category,
                    aliases,
                    usages,
                },
            )
        },
    }
}

/// One field of the overview: a category heading and its command names.
pub struct HelpGroup {
    pub title: String,
    pub commands: String,
}

/// The mathematical shadow of an overview field.
#[verifier::ext_equal]
pub ghost struct GroupView {
    pub title: Seq<char>,
    pub commands: Seq<char>,
}

impl View for HelpGroup {
    type V = GroupView;

    open spec fn view(&self) -> GroupView {
        GroupView { title: self.title@, commands: self.commands@ }
    }
}

pub open spec fn groups_view(gs: Seq<HelpGroup>) -> Seq<GroupView> {
    gs.map_values(|g: HelpGroup| g@)
}

/// Consecutive descriptors of one category, collected in registry order into
/// (category, names) runs.
pub open spec fn group_cats(reg: Seq<DescriptorView>) -> Seq<(CommandCategory, Seq<Seq<char>>)>
    decreases reg.len(),
{
    if reg.len() == 0 {
        Seq::empty()
    } else {
        let rest = group_cats(reg.drop_first());
        if rest.len() > 0 && rest[0].0 == reg[0].category {
            seq![(reg[0].category, seq![reg[0].name] + rest[0].1)] + rest.drop_first()
        } else {
            seq![(reg[0].category, seq![reg[0].name])] + rest
        }
    }
}

/// Where the stable sort by category name puts a new run: before the first
/// run whose category name it is less-or-equal to.
pub open spec fn insert_group(
    g: (CommandCategory, Seq<Seq<char>>),
    s: Seq<(CommandCategory, Seq<Seq<char>>)>,
) -> Seq<(CommandCategory, Seq<Seq<char>>)>
    decreases s.len(),
{
    if s.len() == 0 {
        seq![g]
    } else if lex_le(g.0.name_spec(), s[0].0.name_spec()) {
        seq![g] + s
    } else {
        seq![s[0]] + insert_group(g, s.drop_first())
    }
}

/// Stable insertion sort of the runs by category name.
pub open spec fn sort_groups(s: Seq<(CommandCategory, Seq<Seq<char>>)>) -> Seq<
    (CommandCategory, Seq<Seq<char>>),
>
    decreases s.len(),
{
    if s.len() == 0 {
        s
    } else {
        insert_group(s[0], sort_groups(s.drop_first()))
    }
}

/// The whole overview: runs grouped in registry order, sorted by category
/// name, each rendered as a `{category} Commands` heading over its sorted,
/// comma-separated command names.
pub open spec fn group_field(g: (CommandCategory, Seq<Seq<char>>)) -> GroupView {
    GroupView {
        title: g.0.name_spec() + " Commands"@,
        commands: join_with(sort_strings_spec(g.1), ", "@),
    }
}

pub open spec fn group_fields(gs: Seq<(CommandCategory, Seq<Seq<char>>)>) -> Seq<GroupView> {
    gs.map_values(|g: (CommandCategory, Seq<Seq<char>>)| group_field(g))
}

pub open spec fn overview_spec(reg: Seq<DescriptorView>) -> Seq<GroupView> {
    group_fields(sort_groups(group_cats(reg)))
}

/// A (category, names) run while the overview is being assembled.
pub struct GroupAcc {
    pub category: CommandCategory,
    pub names: Vec<String>,
}

impl View for GroupAcc {
    type V = (CommandCategory, Seq<Seq<char>>);

    open spec fn view(&self) -> (CommandCategory, Seq<Seq<char>>) {
        (self.category, self.names.deep_view())
    }
}

pub open spec fn accs_view(s: Seq<GroupAcc>) -> Seq<(CommandCategory, Seq<Seq<char>>)> {
    s.map_values(|a: GroupAcc| a@)
}

fn build_groups(registry: &Vec<CommandDescriptor>) -> (gs: Vec<GroupAcc>)
    ensures
        accs_view(gs@) == group_cats(reg_view(registry@)),
{
    let mut gs: Vec<GroupAcc> = Vec::new();
    let n = registry.len();
    let mut i: usize = n;
    proof {
        assert(reg_view(registry@).skip(n as int) =~= Seq::<DescriptorView>::empty());
        assert(accs_view(gs@) =~= group_cats(reg_view(registry@).skip(n as int)));
    }
    while i > 0
        invariant
            0 <= i <= n,
            n == registry.len(),
            reg_view(registry@).len() == n,
            accs_view(gs@) == group_cats(reg_view(registry@).skip(i as int)),
        decreases i,
    {
        i = i - 1;
        let d = &registry[i];
        let ghost rv = reg_view(registry@);
        proof {
            assert(rv.skip(i as int).drop_first() =~= rv.skip(i + 1));
            assert(rv.skip(i as int)[0] == rv[i as int]);
        }
        if gs.len() > 0 && gs[0].category == d.category {
            let mut g0 = gs.remove(0);
            g0.names.insert(0, d.name.clone());
            let ghost rest = group_cats(rv.skip(i + 1));
            gs.insert(0, g0);
            proof {
                assert(accs_view(gs@) =~~= seq![
                    (rv[i as int].category, seq![rv[i as int].name] + rest[0].1),
                ] + rest.drop_first());
            }
        } else {
            let mut row: Vec<String> = Vec::new();
            row.push(d.name.clone());
            let g = GroupAcc { category: d.category, names: row };
            gs.insert(0, g);
            proof {
                let rest = group_cats(rv.skip(i + 1));
                assert(accs_view(gs@) =~~= seq![(rv[i as int].category, seq![rv[i as int].name])]
                    + rest);
            }
        }
    }
    proof {
        assert(reg_view(registry@).skip(0) =~= reg_view(registry@));
    }
    gs
}

pub proof fn lemma_insert_group_at(
    g: (CommandCategory, Seq<Seq<char>>),
    s: Seq<(CommandCategory, Seq<Seq<char>>)>,
    i: int,
)
    requires
        0 <= i <= s.len(),
        forall|k: int| 0 <= k < i ==> !lex_le(g.0.name_spec(), s[k].0.name_spec()),
        i < s.len() ==> lex_le(g.0.name_spec(), s[i].0.name_spec()),
    ensures
        insert_group(g, s) == s.take(i) + seq![g] + s.skip(i),
    decreases i,
{
    if i == 0 {
        if s.len() == 0 {
            assert(insert_group(g, s) =~= s.take(0) + seq![g] + s.skip(0));
        } else {
            assert(insert_group(g, s) =~= s.take(0) + seq![g] + s.skip(0));
        }
    } else {
        assert(!lex_le(g.0.name_spec(), s[0].0.name_spec()));
        assert forall|k: int| 0 <= k < i - 1 implies !lex_le(
            g.0.name_spec(),
            s.drop_first()[k].0.name_spec(),
        ) by {
            assert(s.drop_first()[k] == s[k + 1]);
        }
        if i - 1 < s.drop_first().len() {
            assert(s.drop_first()[i - 1] == s[i]);
        }
        lemma_insert_group_at(g, s.drop_first(), i - 1);
        assert(insert_group(g, s) =~= s.take(i) + seq![g] + s.skip(i));
    }
}

fn insert_group_exec(v: &mut Vec<GroupAcc>, g: GroupAcc)
    ensures
        accs_view(final(v)@) == insert_group(g@, accs_view(old(v)@)),
{
    let key = g.category.to_string();
    let n = v.len();
    let mut i: usize = 0;
    while i < n && !str_le(key.as_str(), v[i].category.to_string().as_str())
        invariant
            0 <= i <= n,
            n == v.len(),
            *v == *old(v),
            key@ == g.category.name_spec(),
            forall|k: int|
                0 <= k < i ==> !lex_le(g@.0.name_spec(), accs_view(v@)[k].0.name_spec()),
        decreases n - i,
    {
        i = i + 1;
    }
    proof {
        lemma_insert_group_at(g@, accs_view(v@), i as int);
    }
    let ghost pre = accs_view(v@);
    v.insert(i, g);
    proof {
        assert(accs_view(v@) =~~= pre.take(i as int) + seq![g@] + pre.skip(i as int));
    }
}

fn sort_groups_exec(v: Vec<GroupAcc>) -> (r: Vec<GroupAcc>)
    ensures
        accs_view(r@) == sort_groups(accs_view(v@)),
{
    let mut r: Vec<GroupAcc> = Vec::new();
    let n = v.len();
    let mut i: usize = n;
    proof {
        assert(accs_view(v@).skip(n as int) =~= Seq::<(CommandCategory, Seq<Seq<char>>)>::empty());
        assert(accs_view(r@) =~= Seq::<(CommandCategory, Seq<Seq<char>>)>::empty());
    }
    while i > 0
        invariant
            0 <= i <= n,
            n == v.len(),
            accs_view(v@).len() == n,
            accs_view(r@) == sort_groups(accs_view(v@).skip(i as int)),
        decreases i,
    {
        i = i - 1;
        let names = v[i].names.clone();
        let g = GroupAcc { category: v[i].category, names };
        proof {
            assert(g@ == accs_view(v@)[i as int]);
            let dv = accs_view(v@);
            assert(dv.skip(i as int).drop_first() =~= dv.skip(i + 1));
            assert(dv.skip(i as int)[0] == dv[i as int]);
        }
        insert_group_exec(&mut r, g);
    }
    proof {
        assert(accs_view(v@).skip(0) =~= accs_view(v@));
    }
    r
}

/// Renders the zero-argument help overview: every command, grouped by
/// category, groups sorted by category name and names sorted within each, as
/// `overview_spec` states.
pub fn help_overview(registry: &Vec<CommandDescriptor>) -> (r: Vec<HelpGroup>)
    ensures
        groups_view(r@) == overview_spec(reg_view(registry@)),
{
    let grouped = build_groups(registry);
    let sorted = sort_groups_exec(grouped);
    let mut r: Vec<HelpGroup> = Vec::new();
    let n = sorted.len();
    let mut i: usize = 0;
    while i < n
        invariant
            0 <= i <= n,
            n == sorted.len(),
            accs_view(sorted@).len() == n,
            groups_view(r@) =~= group_fields(accs_view(sorted@).take(i as int)),
        decreases n - i,
    {
        let mut title = sorted[i].category.to_string();
        title.append(" Commands");
        let names = sort_strings(&sorted[i].names);
        let commands = join_with_sep(&names, ", ");
        let h = HelpGroup { title, commands };
        r.push(h);
        proof {
            let dv = accs_view(sorted@);
            assert(dv.take(i + 1) =~= dv.take(i as int).push(dv[i as int]));
            assert(h@ =~= group_field(dv[i as int]));
            assert(group_fields(dv.take(i + 1)) =~= group_fields(dv.take(i as int)).push(
                group_field(dv[i as int]),
            ));
            assert(groups_view(r@) =~= group_fields(dv.take(i + 1)));
        }
        i = i + 1;
    }
    proof {
        assert(accs_view(sorted@).take(n as int) =~= accs_view(sorted@));
    }
    r
}

} // verus!
