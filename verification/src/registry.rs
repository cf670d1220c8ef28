//! The command registry: from a command's name to its descriptor.

use vstd::prelude::*;
use vstd::string::*;
use crate::text::str_eq;

verus! {

/// The handler that a command runs: one tag for each command the bot knows.
#[derive(Debug, Clone, Copy, PartialEq, Eq, Structural)]
pub enum Handler {
    /// Answers with a fixed acknowledgement.
    Ping,
    /// Multiplies two integers.
    Multiply,
    /// Answers with the sender's identity.
    MyId,
    /// Asks the platform for one app.
    GetApp,
    /// Asks the platform for the list of apps.
    GetApps,
    /// Asks the platform to restart one app.
    RestartApp,
}

/// A command as it is registered: its name, the bounds on the number of its
/// arguments, and its handler.
#[derive(Debug, Clone, PartialEq, Eq)]
pub struct CommandDescriptor {
    pub name: String,
    pub min_args: usize,
    pub max_args: usize,
    pub handler: Handler,
}

/// What a [`CommandDescriptor`] stands for.
pub struct DescriptorView {
    pub name: Seq<char>,
    pub min_args: nat,
    pub max_args: nat,
    pub handler: Handler,
}

impl View for CommandDescriptor {
    type V = DescriptorView;

    open spec fn view(&self) -> DescriptorView {
        DescriptorView {
            name: self.name@,
            min_args: self.min_args as nat,
            max_args: self.max_args as nat,
            handler: self.handler,
        }
    }
}

impl CommandDescriptor {
    /// A descriptor for the command `name`.
    pub fn new(name: &str, min_args: usize, max_args: usize, handler: Handler) -> (d: Self)
        ensures
            d@ == (DescriptorView {
                name: name@,
                min_args: min_args as nat,
                max_args: max_args as nat,
                handler,
            }),
    {
        CommandDescriptor { name: String::from_str(name), min_args, max_args, handler }
    }
}

/// The name under which the bot registers `handler`.
pub open spec fn standard_name(handler: Handler) -> Seq<char> {
    match handler {
        Handler::Ping => "ping"@,
        Handler::Multiply => "multiply"@,
        Handler::MyId => "myid"@,
        Handler::GetApp => "get_app"@,
        Handler::GetApps => "get_apps"@,
        Handler::RestartApp => "restart_app"@,
    }
}

/// The number of arguments that `handler` takes.
pub open spec fn standard_arity(handler: Handler) -> nat {
    match handler {
        Handler::Ping => 0,
        Handler::Multiply => 2,
        Handler::MyId => 0,
        Handler::GetApp => 1,
        Handler::GetApps => 0,
        Handler::RestartApp => 1,
    }
}

/// The descriptor under which the bot registers `handler`: its name, and its
/// number of arguments as both bounds.
pub open spec fn standard_descriptor(handler: Handler) -> DescriptorView {
    DescriptorView {
        name: standard_name(handler),
        min_args: standard_arity(handler),
        max_args: standard_arity(handler),
        handler,
    }
}

/// The bot's commands, in the order in which they are registered.
pub open spec fn standard_commands() -> Seq<DescriptorView> {
    seq![
        standard_descriptor(Handler::Ping),
        standard_descriptor(Handler::Multiply),
        standard_descriptor(Handler::MyId),
        standard_descriptor(Handler::GetApp),
        standard_descriptor(Handler::GetApps),
        standard_descriptor(Handler::RestartApp),
    ]
}

/// The bot's commands have six different names.
pub proof fn lemma_standard_names_unique()
    ensures
        names_unique(standard_commands()),
{
    reveal_strlit("ping");
    reveal_strlit("multiply");
    reveal_strlit("myid");
    reveal_strlit("get_app");
    reveal_strlit("get_apps");
    reveal_strlit("restart_app");
    let c = standard_commands();
    assert(c[0].name.len() == 4 && c[0].name[0] == 'p');
    assert(c[1].name.len() == 8 && c[1].name[0] == 'm');
    assert(c[2].name.len() == 4 && c[2].name[0] == 'm');
    assert(c[3].name.len() == 7);
    assert(c[4].name.len() == 8 && c[4].name[0] == 'g');
}

impl Handler {
    /// The descriptor under which the bot registers this handler.
    pub fn descriptor(self) -> (d: CommandDescriptor)
        ensures
            d@ == standard_descriptor(self),
    {
        match self {
            Handler::Ping => CommandDescriptor::new("ping", 0, 0, self),
            Handler::Multiply => CommandDescriptor::new("multiply", 2, 2, self),
            Handler::MyId => CommandDescriptor::new("myid", 0, 0, self),
            Handler::GetApp => CommandDescriptor::new("get_app", 1, 1, self),
            Handler::GetApps => CommandDescriptor::new("get_apps", 0, 0, self),
            Handler::RestartApp => CommandDescriptor::new("restart_app", 1, 1, self),
        }
    }
}

/// The descriptors of a sequence of commands.
pub open spec fn descriptors(commands: Seq<CommandDescriptor>) -> Seq<DescriptorView> {
    commands.map_values(|d: CommandDescriptor| d@)
}

/// Whether no two commands of `commands` share a name.
pub open spec fn names_unique(commands: Seq<DescriptorView>) -> bool {
    forall|i: int, j: int|
        0 <= i < j < commands.len() ==> (#[trigger] commands[i]).name != (
        #[trigger] commands[j]).name
}

/// Whether some command of `commands` is named `name`.
pub open spec fn is_registered(commands: Seq<DescriptorView>, name: Seq<char>) -> bool {
    exists|i: int| 0 <= i < commands.len() && (#[trigger] commands[i]).name == name
}

/// The first command of `commands` that is named exactly `name`.
pub open spec fn spec_lookup(commands: Seq<DescriptorView>, name: Seq<char>) -> Option<
    DescriptorView,
>
    decreases commands.len(),
{
    if commands.len() == 0 {
        None
    } else if commands[0].name == name {
        Some(commands[0])
    } else {
        spec_lookup(commands.drop_first(), name)
    }
}

/// A lookup finds a command exactly where one of that name is registered, and
/// what it finds is a registered command of that name.
pub proof fn lemma_lookup_finds_registered(commands: Seq<DescriptorView>, name: Seq<char>)
    ensures
        spec_lookup(commands, name) is Some <==> is_registered(commands, name),
        spec_lookup(commands, name) matches Some(d) ==> d.name == name && commands.contains(d),
    decreases commands.len(),
{
    if commands.len() > 0 && commands[0].name != name {
        let rest = commands.drop_first();
        lemma_lookup_finds_registered(rest, name);
        if is_registered(commands, name) {
            let i = choose|i: int| 0 <= i < commands.len() && (#[trigger] commands[i]).name == name;
            assert(rest[i - 1].name == name);
        }
    }
}

/// Where names are unique, every registered command is the one that a lookup
/// of its name finds.
pub proof fn lemma_lookup_unique(commands: Seq<DescriptorView>, i: int)
    requires
        names_unique(commands),
        0 <= i < commands.len(),
    ensures
        spec_lookup(commands, commands[i].name) == Some(commands[i]),
    decreases commands.len(),
{
    if i > 0 {
        lemma_lookup_unique(commands.drop_first(), i - 1);
    }
}

/// Why a command could not be registered.
#[derive(Debug, Clone, PartialEq, Eq)]
pub enum RegistryError {
    /// A command of this name is registered already.
    DuplicateName(String),
}

/// The commands the bot knows, each under a name of its own.
#[derive(Debug, Clone, PartialEq, Eq)]
pub struct Registry {
    commands: Vec<CommandDescriptor>,
}

impl View for Registry {
    type V = Seq<DescriptorView>;

    closed spec fn view(&self) -> Seq<DescriptorView> {
        descriptors(self.commands@)
    }
}

impl Registry {
    /// Whether the registry is well formed: no two of its commands share a
    /// name.
    pub open spec fn wf(&self) -> bool {
        names_unique(self@)
    }

    /// A registry without commands.
    pub fn new() -> (r: Self)
        ensures
            r@ == Seq::<DescriptorView>::empty(),
            r.wf(),
    {
        Registry { commands: Vec::new() }
    }

    /// The registry of the bot's six commands.
    pub fn standard() -> (r: Self)
        ensures
            r@ == standard_commands(),
            r.wf(),
    {
        let mut commands: Vec<CommandDescriptor> = Vec::new();
        commands.push(Handler::Ping.descriptor());
        commands.push(Handler::Multiply.descriptor());
        commands.push(Handler::MyId.descriptor());
        commands.push(Handler::GetApp.descriptor());
        commands.push(Handler::GetApps.descriptor());
        commands.push(Handler::RestartApp.descriptor());
        let r = Registry { commands };
        proof {
            lemma_standard_names_unique();
        }
        r
    }

    /// The number of commands.
    pub fn len(&self) -> (n: usize)
        ensures
            n == self@.len(),
    {
        self.commands.len()
    }

    /// The command at position `i`, in the order of registration.
    pub fn get(&self, i: usize) -> (r: Option<&CommandDescriptor>)
        ensures
            match r {
                Some(d) => i < self@.len() && d@ == self@[i as int],
                None => i >= self@.len(),
            },
    {
        if i < self.commands.len() {
            Some(&self.commands[i])
        } else {
            None
        }
    }

    /// Looks `name` up: case-sensitive, exact match.
    pub fn lookup(&self, name: &str) -> (r: Option<&CommandDescriptor>)
        ensures
            match r {
                Some(d) => spec_lookup(self@, name@) == Some(d@),
                None => spec_lookup(self@, name@) is None,
            },
    {
        let n: usize = self.commands.len();
        let mut i: usize = 0;
        assert(self@.skip(0) =~= self@);
        while i < n
            invariant
                i <= n,
                n == self.commands@.len(),
                self@ == descriptors(self.commands@),
                spec_lookup(self@, name@) == spec_lookup(self@.skip(i as int), name@),
            decreases n - i,
        {
            let d = &self.commands[i];
            assert(self@.skip(i as int).drop_first() =~= self@.skip(i + 1));
            if str_eq(d.name.as_str(), name) {
                return Some(d);
            }
            i = i + 1;
        }
        None
    }

    /// Registers `descriptor`, unless a command of its name is registered
    /// already: then the registry stays as it is.
    pub fn register(&mut self, descriptor: CommandDescriptor) -> (r: Result<(), RegistryError>)
        ensures
            old(self).wf() ==> final(self).wf(),
            match r {
                Ok(()) => {
                    &&& !is_registered(old(self)@, descriptor@.name)
                    &&& final(self)@ == old(self)@.push(descriptor@)
                },
                Err(RegistryError::DuplicateName(name)) => {
                    &&& is_registered(old(self)@, descriptor@.name)
                    &&& name@ == descriptor@.name
                    &&& final(self)@ == old(self)@
                },
            },
    {
        proof {
            lemma_lookup_finds_registered(self@, descriptor@.name);
        }
        if self.lookup(descriptor.name.as_str()).is_some() {
            return Err(RegistryError::DuplicateName(descriptor.name));
        }
        let ghost before = self@;
        self.commands.push(descriptor);
        proof {
            assert(self@ =~= before.push(descriptor@));
        }
        Ok(())
    }
}

} // verus!
