//! The five built-in commands and the registry assembled from them at startup.
use vstd::prelude::*;
use vstd::string::*;

use crate::registry::{
    reg_view, is_privileged, token_clash, wf_descriptor, wf_registry, CommandCategory,
    CommandDescriptor, CommandKind, DescriptorView,
};
use crate::duration::{as_text, duration_text};
use crate::text::{dec_str, is_lower, lower_seq, u64_to_string};

verus! {

/// The registry's contents, in registration order.
pub open spec fn registry_view() -> Seq<DescriptorView> {
    seq![
        DescriptorView {
            name: "shutdown"@,
            aliases: Seq::empty(),
            category: CommandCategory::Developer,
            description: "Shuts the bot down"@,
            usages: Seq::empty(),
            kind: CommandKind::Shutdown,
        },
        DescriptorView {
            name: "help"@,
            aliases: Seq::empty(),
            category: CommandCategory::General,
            description: "Sends a list of the bot's commands or provides help for the specified command"@,
            usages: seq![seq!["command name (optional)"@]],
            kind: CommandKind::Help,
        },
        DescriptorView {
            name: "ping"@,
            aliases: seq!["latency"@],
            category: CommandCategory::General,
            description: "Sends the bot's current response latency"@,
            usages: Seq::empty(),
            kind: CommandKind::Ping,
        },
        DescriptorView {
            name: "uptime"@,
            aliases: Seq::empty(),
            category: CommandCategory::General,
            description: "Sends the bot's current uptime"@,
            usages: Seq::empty(),
            kind: CommandKind::Uptime,
        },
        DescriptorView {
            name: "weather"@,
            aliases: Seq::empty(),
            category: CommandCategory::Utility,
            description: "Sends the weather in the specified location"@,
            usages: seq![seq!["location"@]],
            kind: CommandKind::Weather,
        },
    ]
}

/// Shuts the bot down after an interactive confirmation (developer-only).
pub struct ShutdownCommand;

/// Lists the commands, or describes a single one.
pub struct HelpCommand;

/// Reports the bot's current response latency.
pub struct PingCommand;

/// Reports how long the bot has been running.
pub struct UptimeCommand;

/// Reports the weather at a queried location.
pub struct WeatherCommand;

impl ShutdownCommand {
    pub fn name(&self) -> (r: &'static str)
        ensures
            r@ == "shutdown"@,
    {
        "shutdown"
    }

    pub fn description(&self) -> (r: &'static str)
        ensures
            r@ == "Shuts the bot down"@,
    {
        "Shuts the bot down"
    }

    pub fn category(&self) -> (r: CommandCategory)
        ensures
            r == CommandCategory::Developer,
    {
        CommandCategory::Developer
    }

    pub fn is_developer(&self) -> (r: bool)
        ensures
            r,
    {
        true
    }

    pub fn descriptor(&self) -> (d: CommandDescriptor)
        ensures
            d@ == registry_view()[0],
    {
        let d = CommandDescriptor {
            name: String::from_str(self.name()),
            aliases: Vec::new(),
            category: self.category(),
            description: String::from_str(self.description()),
            usages: Vec::new(),
            kind: CommandKind::Shutdown,
        };
        proof {
            assert(d@ =~~= registry_view()[0]);
        }
        d
    }
}

impl HelpCommand {
    pub fn name(&self) -> (r: &'static str)
        ensures
            r@ == "help"@,
    {
        "help"
    }

    pub fn description(&self) -> (r: &'static str)
        ensures
            r@ == "Sends a list of the bot's commands or provides help for the specified command"@,
    {
        "Sends a list of the bot's commands or provides help for the specified command"
    }

    pub fn category(&self) -> (r: CommandCategory)
        ensures
            r == CommandCategory::General,
    {
        CommandCategory::General
    }

    pub fn is_developer(&self) -> (r: bool)
        ensures
            !r,
    {
        false
    }

    pub fn usages(&self) -> (r: Vec<Vec<String>>)
        ensures
            r.deep_view() =~~= seq![seq!["command name (optional)"@]],
    {
        let mut row: Vec<String> = Vec::new();
        row.push(String::from_str("command name (optional)"));
        let mut u: Vec<Vec<String>> = Vec::new();
        u.push(row);
        u
    }

    pub fn descriptor(&self) -> (d: CommandDescriptor)
        ensures
            d@ == registry_view()[1],
    {
        let d = CommandDescriptor {
            name: String::from_str(self.name()),
            aliases: Vec::new(),
            category: self.category(),
            description: String::from_str(self.description()),
            usages: self.usages(),
            kind: CommandKind::Help,
        };
        proof {
            assert(d@ =~~= registry_view()[1]);
        }
        d
    }
}

impl PingCommand {
    pub fn name(&self) -> (r: &'static str)
        ensures
            r@ == "ping"@,
    {
        "ping"
    }

    pub fn description(&self) -> (r: &'static str)
        ensures
            r@ == "Sends the bot's current response latency"@,
    {
        "Sends the bot's current response latency"
    }

    pub fn category(&self) -> (r: CommandCategory)
        ensures
            r == CommandCategory::General,
    {
        CommandCategory::General
    }

    pub fn is_developer(&self) -> (r: bool)
        ensures
            !r,
    {
        false
    }

    pub fn aliases(&self) -> (r: Vec<String>)
        ensures
            r.deep_view() =~~= seq!["latency"@],
    {
        let mut a: Vec<String> = Vec::new();
        a.push(String::from_str("latency"));
        a
    }

    /// The latency reply's body: the measured round trip in milliseconds.
    pub fn response_text(&self, ping_millis: u64) -> (r: String)
        ensures
            r@ == dec_str(ping_millis as nat) + " ms"@,
    {
        let mut r = u64_to_string(ping_millis);
        r.append(" ms");
        r
    }

    pub fn descriptor(&self) -> (d: CommandDescriptor)
        ensures
            d@ == registry_view()[2],
    {
        let d = CommandDescriptor {
            name: String::from_str(self.name()),
            aliases: self.aliases(),
            category: self.category(),
            description: String::from_str(self.description()),
            usages: Vec::new(),
            kind: CommandKind::Ping,
        };
        proof {
            assert(d@ =~~= registry_view()[2]);
        }
        d
    }
}

impl UptimeCommand {
    pub fn name(&self) -> (r: &'static str)
        ensures
            r@ == "uptime"@,
    {
        "uptime"
    }

    pub fn description(&self) -> (r: &'static str)
        ensures
            r@ == "Sends the bot's current uptime"@,
    {
        "Sends the bot's current uptime"
    }

    pub fn category(&self) -> (r: CommandCategory)
        ensures
            r == CommandCategory::General,
    {
        CommandCategory::General
    }

    pub fn is_developer(&self) -> (r: bool)
        ensures
            !r,
    {
        false
    }

    /// The uptime reply's body: the elapsed time since process start as
    /// English text.
    pub fn response_text(&self, uptime_millis: i64) -> (r: String)
        requires
            uptime_millis >= 0,
        ensures
            r@ == duration_text(uptime_millis as int),
    {
        as_text(uptime_millis)
    }

    pub fn descriptor(&self) -> (d: CommandDescriptor)
        ensures
            d@ == registry_view()[3],
    {
        let d = CommandDescriptor {
            name: String::from_str(self.name()),
            aliases: Vec::new(),
            category: self.category(),
            description: String::from_str(self.description()),
            usages: Vec::new(),
            kind: CommandKind::Uptime,
        };
        proof {
            assert(d@ =~~= registry_view()[3]);
        }
        d
    }
}

impl WeatherCommand {
    pub fn name(&self) -> (r: &'static str)
        ensures
            r@ == "weather"@,
    {
        "weather"
    }

    pub fn description(&self) -> (r: &'static str)
        ensures
            r@ == "Sends the weather in the specified location"@,
    {
        "Sends the weather in the specified location"
    }

    pub fn category(&self) -> (r: CommandCategory)
        ensures
            r == CommandCategory::Utility,
    {
        CommandCategory::Utility
    }

    pub fn is_developer(&self) -> (r: bool)
        ensures
            !r,
    {
        false
    }

    pub fn usages(&self) -> (r: Vec<Vec<String>>)
        ensures
            r.deep_view() =~~= seq![seq!["location"@]],
    {
        let mut row: Vec<String> = Vec::new();
        row.push(String::from_str("location"));
        let mut u: Vec<Vec<String>> = Vec::new();
        u.push(row);
        u
    }

    pub fn descriptor(&self) -> (d: CommandDescriptor)
        ensures
            d@ == registry_view()[4],
    {
        let d = CommandDescriptor {
            name: String::from_str(self.name()),
            aliases: Vec::new(),
            category: self.category(),
            description: String::from_str(self.description()),
            usages: self.usages(),
            kind: CommandKind::Weather,
        };
        proof {
            assert(d@ =~~= registry_view()[4]);
        }
        d
    }
}

/// Every token of the registry is stored lower-case, tokens are unique across
/// descriptors, and names are non-empty.
pub proof fn lemma_registry_wf()
    ensures
        wf_registry(registry_view()),
{
    reveal_strlit("shutdown");
    reveal_strlit("help");
    reveal_strlit("ping");
    reveal_strlit("uptime");
    reveal_strlit("weather");
    reveal_strlit("latency");
    assert(is_lower("shutdown"@)) by {
        assert(lower_seq("shutdown"@) =~= "shutdown"@);
    }
    assert(is_lower("help"@)) by {
        assert(lower_seq("help"@) =~= "help"@);
    }
    assert(is_lower("ping"@)) by {
        assert(lower_seq("ping"@) =~= "ping"@);
    }
    assert(is_lower("uptime"@)) by {
        assert(lower_seq("uptime"@) =~= "uptime"@);
    }
    assert(is_lower("weather"@)) by {
        assert(lower_seq("weather"@) =~= "weather"@);
    }
    assert(is_lower("latency"@)) by {
        assert(lower_seq("latency"@) =~= "latency"@);
    }
    let reg = registry_view();
    assert(reg.len() == 5);
    assert(wf_descriptor(reg[0]));
    assert(wf_descriptor(reg[1]));
    assert(wf_descriptor(reg[2])) by {
        assert(forall|i: int| 0 <= i < reg[2].aliases.len() ==> is_lower(#[trigger] reg[2].aliases[i]))
            by {
            assert(reg[2].aliases[0] == "latency"@);
        }
    }
    assert(wf_descriptor(reg[3]));
    assert(wf_descriptor(reg[4]));
    assert forall|i: int, j: int|
        0 <= i < reg.len() && 0 <= j < reg.len() && i != j implies !token_clash(
        #[trigger] reg[i],
        #[trigger] reg[j],
    ) by {
        assert("shutdown"@ != "help"@ && "shutdown"@ != "ping"@ && "shutdown"@ != "uptime"@
            && "shutdown"@ != "weather"@ && "shutdown"@ != "latency"@);
        assert("help"@ != "ping"@) by {
            assert("help"@[0] == 'h' && "ping"@[0] == 'p');
        }
        assert("help"@ != "uptime"@ && "help"@ != "weather"@ && "help"@ != "latency"@);
        assert("ping"@ != "uptime"@ && "ping"@ != "weather"@ && "ping"@ != "latency"@);
        assert("uptime"@ != "weather"@ && "uptime"@ != "latency"@);
        assert("weather"@ != "latency"@) by {
            assert("weather"@[0] == 'w' && "latency"@[0] == 'l');
        }
        assert(forall|x: Seq<char>| #[trigger] reg[2].aliases.contains(x) ==> x == "latency"@);
        assert(forall|x: Seq<char>| !(#[trigger] reg[0].aliases.contains(x)));
        assert(forall|x: Seq<char>| !(#[trigger] reg[1].aliases.contains(x)));
        assert(forall|x: Seq<char>| !(#[trigger] reg[3].aliases.contains(x)));
        assert(forall|x: Seq<char>| !(#[trigger] reg[4].aliases.contains(x)));
    }
}

/// In this registry the privileged descriptors are exactly the shutdown
/// command: `Developer` category and the shutdown action coincide.
pub proof fn lemma_privileged_exactly_shutdown()
    ensures
        forall|i: int|
            0 <= i < registry_view().len() ==> (is_privileged(#[trigger] registry_view()[i])
                <==> registry_view()[i].kind == CommandKind::Shutdown),
{
}

/// Builds the process-wide command registry, in registration order.
pub fn registry() -> (r: Vec<CommandDescriptor>)
    ensures
        reg_view(r@) == registry_view(),
        wf_registry(registry_view()),
{
    let mut v: Vec<CommandDescriptor> = Vec::new();
    v.push(ShutdownCommand.descriptor());
    v.push(HelpCommand.descriptor());
    v.push(PingCommand.descriptor());
    v.push(UptimeCommand.descriptor());
    v.push(WeatherCommand.descriptor());
    proof {
        assert(reg_view(v@) =~= registry_view());
        lemma_registry_wf();
    }
    v
}

} // verus!
