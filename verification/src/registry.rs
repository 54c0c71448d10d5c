//! The command registries: a name-to-command mapping plus fallback policy.

use vstd::prelude::*;

use crate::command::AnyCommand;
use crate::command::CmdView;
use crate::command::NullCmd;
use crate::command::PingCmd;

verus! {

/// No two entries share a name.
pub open spec fn keys_unique<T>(entries: Seq<(String, T)>) -> bool {
    forall|i: int, j: int|
        0 <= i < j < entries.len() ==> entries[i].0@ != entries[j].0@
}

/// The mapping that a sequence of named entries denotes, each value
/// abstracted to its view.
pub open spec fn entries_map<T: View>(entries: Seq<(String, T)>) -> Map<Seq<char>, T::V>
    decreases entries.len(),
{
    if entries.len() == 0 {
        Map::empty()
    } else {
        entries_map(entries.drop_last()).insert(entries.last().0@, entries.last().1@)
    }
}

/// An entry's name is in the denoted mapping, and under unique names the
/// mapping takes it to that entry's value.
proof fn lemma_entries_map_index<T: View>(entries: Seq<(String, T)>, i: int)
    requires
        keys_unique(entries),
        0 <= i < entries.len(),
    ensures
        entries_map(entries).contains_key(entries[i].0@),
        entries_map(entries)[entries[i].0@] == entries[i].1@,
    decreases entries.len(),
{
    if i < entries.len() - 1 {
        assert(keys_unique(entries.drop_last()));
        assert(entries.drop_last()[i] == entries[i]);
        lemma_entries_map_index(entries.drop_last(), i);
        assert(entries.last().0@ != entries[i].0@);
    }
}

/// A name no entry carries is not in the denoted mapping.
proof fn lemma_entries_map_absent<T: View>(entries: Seq<(String, T)>, name: Seq<char>)
    requires
        forall|i: int| 0 <= i < entries.len() ==> entries[i].0@ != name,
    ensures
        !entries_map(entries).contains_key(name),
    decreases entries.len(),
{
    if entries.len() > 0 {
        assert(entries.drop_last().len() == entries.len() - 1);
        assert(forall|i: int|
            0 <= i < entries.drop_last().len() ==> entries.drop_last()[i] == entries[i]);
        lemma_entries_map_absent(entries.drop_last(), name);
    }
}

/// Relies on `<str as PartialEq>::eq`: two string slices compare equal
/// exactly when their characters do.
#[verifier::external_body]
fn str_eq(a: &str, b: &str) -> (r: bool)
    ensures
        r == (a@ == b@),
{
    a == b
}

/// The index of the first entry named `name`, if any.
fn find_entry<T>(entries: &Vec<(String, T)>, name: &str) -> (r: Option<usize>)
    ensures
        match r {
            Some(i) => {
                &&& i < entries@.len()
                &&& entries@[i as int].0@ == name@
            },
            None => forall|j: int| 0 <= j < entries@.len() ==> entries@[j].0@ != name@,
        },
{
    let n: usize = entries.len();
    let mut idx: usize = 0;
    while idx < n
        invariant
            n == entries@.len(),
            idx <= n,
            forall|j: int| 0 <= j < idx ==> entries@[j].0@ != name@,
        decreases n - idx,
    {
        if str_eq(entries[idx].0.as_str(), name) {
            return Some(idx);
        }
        idx = idx + 1;
    }
    None
}

/// What resolving `name` against the mapping `m` denotes: the command
/// registered under `name`, or the null command when the name is absent.
/// Total by construction; absence is handled by substitution, not error.
pub open spec fn resolve_spec(m: Map<Seq<char>, CmdView>, name: Seq<char>) -> CmdView {
    if m.contains_key(name) {
        m[name]
    } else {
        CmdView::Null
    }
}

/// A registry that owns its command instances: a mapping from name to
/// command plus one designated null command used when a lookup misses.
/// Constructed once, read-only thereafter.
pub struct Commands {
    raw_commands: Vec<(String, AnyCommand)>,
    null_cmd: AnyCommand,
}

impl View for Commands {
    type V = Map<Seq<char>, CmdView>;

    closed spec fn view(&self) -> Map<Seq<char>, CmdView> {
        entries_map(self.raw_commands@)
    }
}

impl Commands {
    /// Entry names are unique and the fallback is the null command.
    pub closed spec fn wf(&self) -> bool {
        &&& keys_unique(self.raw_commands@)
        &&& self.null_cmd@ == CmdView::Null
    }

    /// Takes ownership of a caller-supplied set of named commands,
    /// duplicate-free since it stands for a mapping keyed by name.
    pub fn new(raw_commands: Vec<(String, AnyCommand)>) -> (r: Commands)
        requires
            keys_unique(raw_commands@),
        ensures
            r.wf(),
            r@ == entries_map(raw_commands@),
    {
        Commands { raw_commands, null_cmd: Commands::default_cmd() }
    }

    /// The command registered under `a_cmd_name`, or the registry's null
    /// command if the name is absent. Never fails.
    pub fn one_by<'a>(&'a self, a_cmd_name: &str) -> (r: &'a AnyCommand)
        requires
            self.wf(),
        ensures
            r@ == resolve_spec(self@, a_cmd_name@),
    {
        match find_entry(&self.raw_commands, a_cmd_name) {
            Some(i) => {
                proof {
                    lemma_entries_map_index(self.raw_commands@, i as int);
                }
                &self.raw_commands[i].1
            },
            None => {
                proof {
                    lemma_entries_map_absent(self.raw_commands@, a_cmd_name@);
                }
                &self.null_cmd
            },
        }
    }

    /// The command substituted for unregistered names: always the null
    /// command.
    pub fn default_cmd() -> (r: AnyCommand)
        ensures
            r@ == CmdView::Null,
    {
        AnyCommand::Null(NullCmd::new())
    }
}

/// The mapping the default registry is pre-populated with: a "ping" entry
/// constructed with a fixed sample argument, and a "null" entry.
pub open spec fn default_registry() -> Map<Seq<char>, CmdView> {
    map!["ping"@ => CmdView::Ping(Some("--a"@)), "null"@ => CmdView::Null]
}

impl Default for Commands {
    /// A registry pre-populated with the "ping" and "null" entries:
    /// equivalent in shape to `new` with that fixed mapping.
    fn default() -> (r: Commands)
        ensures
            r.wf(),
            r@ == default_registry(),
    {
        let mut raw_commands: Vec<(String, AnyCommand)> = Vec::new();
        raw_commands.push(
            (String::from_str("ping"), AnyCommand::Ping(PingCmd::new(Some(String::from_str("--a"))))),
        );
        raw_commands.push((String::from_str("null"), AnyCommand::Null(NullCmd::new())));
        proof {
            reveal_strlit("ping");
            reveal_strlit("null");
            assert("ping"@[0] != "null"@[0]);
            let s = raw_commands@;
            assert(s.len() == 2);
            assert(s[0].0@ == "ping"@);
            assert(s[0].1@ == CmdView::Ping(Some("--a"@)));
            assert(s[1].0@ == "null"@);
            assert(s[1].1@ == CmdView::Null);
            assert(keys_unique(s));
            assert(s.drop_last().drop_last() =~= Seq::<(String, AnyCommand)>::empty());
            assert(entries_map(s.drop_last().drop_last()) == Map::<Seq<char>, CmdView>::empty());
            assert(s.drop_last().last() == s[0]);
            assert(entries_map(s.drop_last()) == Map::<Seq<char>, CmdView>::empty().insert(
                "ping"@,
                CmdView::Ping(Some("--a"@)),
            ));
            assert(entries_map(s) =~= default_registry());
        }
        Commands { raw_commands, null_cmd: Commands::default_cmd() }
    }
}

/// The kind of command a name stands for, when construction is deferred
/// to lookup time.
#[derive(Clone, Copy, Debug, PartialEq, Eq, Structural)]
pub enum Cmd {
    Ping,
    Null,
}

impl View for Cmd {
    type V = Cmd;

    open spec fn view(&self) -> Cmd {
        *self
    }
}

/// What resolving `name` against a mapping of command kinds denotes:
/// the kind registered under `name`, or the null kind when absent.
pub open spec fn raw_resolve_spec(m: Map<Seq<char>, Cmd>, name: Seq<char>) -> Cmd {
    if m.contains_key(name) {
        m[name]
    } else {
        Cmd::Null
    }
}

/// The command a kind constructs when given `args`: only a ping command
/// captures the argument; the null command ignores it.
pub open spec fn build_spec(kind: Cmd, args: Option<Seq<char>>) -> CmdView {
    match kind {
        Cmd::Ping => CmdView::Ping(args),
        Cmd::Null => CmdView::Null,
    }
}

/// A registry that defers construction of the command to lookup time:
/// it maps each name to a command kind and builds a fresh command on
/// each lookup.
pub struct Command2 {
    raw_commands: Vec<(String, Cmd)>,
}

impl View for Command2 {
    type V = Map<Seq<char>, Cmd>;

    closed spec fn view(&self) -> Map<Seq<char>, Cmd> {
        entries_map(self.raw_commands@)
    }
}

impl Command2 {
    /// Entry names are unique.
    pub closed spec fn wf(&self) -> bool {
        keys_unique(self.raw_commands@)
    }

    /// A registry knowing the single name "ping".
    pub fn new() -> (r: Command2)
        ensures
            r.wf(),
            r@ == (map!["ping"@ => Cmd::Ping]),
    {
        let mut raw_commands: Vec<(String, Cmd)> = Vec::new();
        raw_commands.push((String::from_str("ping"), Cmd::Ping));
        proof {
            let s = raw_commands@;
            assert(s.drop_last() =~= Seq::<(String, Cmd)>::empty());
            assert(entries_map(s.drop_last()) == Map::<Seq<char>, Cmd>::empty());
            assert(entries_map(s) =~= (map!["ping"@ => Cmd::Ping]));
        }
        Command2 { raw_commands }
    }

    /// A freshly constructed command of the kind registered under
    /// `a_cmd_name`, built with `args`; a null command when the name is
    /// absent. Never fails.
    pub fn one_by(&self, a_cmd_name: &str, args: Option<String>) -> (r: AnyCommand)
        requires
            self.wf(),
        ensures
            r@ == build_spec(raw_resolve_spec(self@, a_cmd_name@), args.deep_view()),
    {
        let kind = match find_entry(&self.raw_commands, a_cmd_name) {
            Some(i) => {
                proof {
                    lemma_entries_map_index(self.raw_commands@, i as int);
                }
                self.raw_commands[i].1
            },
            None => {
                proof {
                    lemma_entries_map_absent(self.raw_commands@, a_cmd_name@);
                }
                Cmd::Null
            },
        };
        match kind {
            Cmd::Ping => AnyCommand::Ping(PingCmd::new(args)),
            Cmd::Null => AnyCommand::Null(NullCmd::new()),
        }
    }
}

} // verus!
