//! The commands of each module, and the `:Mad <module> <command> [args]`
//! command that dispatches to them.
//!
//! A command is held as a value of type `C` (the closure that runs it); the
//! registry only decides which command a call reaches and with which
//! arguments.

use vstd::prelude::*;

use super::action::{ActionName, ModuleName};
use crate::strings::str_eq;

verus! {

/// The command registered under `name` among `entries`, if any.
pub open spec fn find_command<C>(entries: Seq<(ActionName, C)>, name: Seq<char>) -> Option<C>
    decreases entries.len(),
{
    if entries.len() == 0 {
        None
    } else if entries[0].0.spec_str() == name {
        Some(entries[0].1)
    } else {
        find_command(entries.drop_first(), name)
    }
}

/// The names of the registered commands, in registration order.
pub open spec fn command_names<C>(entries: Seq<(ActionName, C)>) -> Seq<Seq<char>> {
    entries.map_values(|e: (ActionName, C)| e.0.spec_str())
}

/// The characters of each string slice.
pub open spec fn strs_view(strs: Seq<&'static str>) -> Seq<Seq<char>> {
    strs.map_values(|s: &'static str| s@)
}

/// The commands of one module.
pub struct ModuleCommands<C> {
    module_name: ModuleName,
    default_command: Option<C>,
    commands: Vec<(ActionName, C)>,
}

impl<C> ModuleCommands<C> {
    /// The name of the module the commands belong to.
    pub closed spec fn module(&self) -> Seq<char> {
        self.module_name.spec_str()
    }

    /// The command that runs when no command is named.
    pub closed spec fn default(&self) -> Option<C> {
        self.default_command
    }

    /// The named commands, in registration order.
    pub closed spec fn entries(&self) -> Seq<(ActionName, C)> {
        self.commands@
    }

    /// No two commands share a name.
    pub open spec fn wf(&self) -> bool {
        command_names(self.entries()).no_duplicates()
    }

    /// No commands yet for the module `module_name`.
    pub fn new(module_name: ModuleName) -> (this: Self)
        ensures
            this.wf(),
            this.module() == module_name.spec_str(),
            this.default() is None,
            this.entries() == Seq::<(ActionName, C)>::empty(),
    {
        let this = ModuleCommands { module_name, default_command: None, commands: Vec::new() };
        assert(command_names(this.entries()) =~= Seq::<Seq<char>>::empty());
        this
    }

    /// The name of the module.
    pub fn module_name(&self) -> (name: ModuleName)
        ensures
            name.spec_str() == self.module(),
    {
        self.module_name
    }

    /// The position of the command named `name`, if there is one.
    pub fn position(&self, name: &str) -> (pos: Option<usize>)
        ensures
            match pos {
                Some(i) => i < self.entries().len() && self.entries()[i as int].0.spec_str()
                    == name@ && find_command(self.entries(), name@) == Some(
                    self.entries()[i as int].1,
                ),
                None => !command_names(self.entries()).contains(name@) && find_command(
                    self.entries(),
                    name@,
                ) is None,
            },
    {
        let n = self.commands.len();
        let mut i: usize = 0;
        assert(self.entries().subrange(0, n as int) =~= self.entries());
        while i < n
            invariant
                n == self.entries().len(),
                i <= n,
                forall|j: int| 0 <= j < i ==> self.entries()[j].0.spec_str() != name@,
                find_command(self.entries(), name@) == find_command(
                    self.entries().subrange(i as int, n as int),
                    name@,
                ),
            decreases n - i,
        {
            let ghost rest = self.entries().subrange(i as int, n as int);
            assert(rest[0] == self.entries()[i as int]);
            if str_eq(self.commands[i].0.as_str(), name) {
                return Some(i);
            }
            assert(rest.drop_first() =~= self.entries().subrange(i + 1, n as int));
            i += 1;
        }
        assert(!command_names(self.entries()).contains(name@)) by {
            if command_names(self.entries()).contains(name@) {
                let j = choose|j: int|
                    0 <= j < command_names(self.entries()).len() && command_names(
                        self.entries(),
                    )[j] == name@;
                assert(self.entries()[j].0.spec_str() == name@);
            }
        }
        None
    }

    /// Whether a command is registered under `name`.
    pub fn has_command(&self, name: &str) -> (b: bool)
        ensures
            b == command_names(self.entries()).contains(name@),
    {
        match self.position(name) {
            Some(i) => {
                assert(command_names(self.entries())[i as int] == name@);
                true
            },
            None => false,
        }
    }

    /// Registers `command` under `name`. The command must belong to this
    /// module and its name must be free.
    pub fn add_command(&mut self, module: ModuleName, name: ActionName, command: C)
        requires
            old(self).wf(),
            module.spec_str() == old(self).module(),
            !command_names(old(self).entries()).contains(name.spec_str()),
        ensures
            final(self).wf(),
            final(self).module() == old(self).module(),
            final(self).default() == old(self).default(),
            final(self).entries() == old(self).entries().push((name, command)),
    {
        let ghost old_entries = self.entries();
        self.commands.push((name, command));
        proof {
            assert(command_names(self.entries()) =~= command_names(old_entries).push(
                name.spec_str(),
            ));
        }
    }

    /// Sets the command that runs when no command is named. The command must
    /// belong to this module, and no default may be set yet.
    pub fn add_default_command(&mut self, module: ModuleName, command: C)
        requires
            old(self).wf(),
            module.spec_str() == old(self).module(),
            old(self).default() is None,
        ensures
            final(self).wf(),
            final(self).module() == old(self).module(),
            final(self).default() == Some(command),
            final(self).entries() == old(self).entries(),
    {
        self.default_command = Some(command);
    }

    /// The command that runs when no command is named, if any.
    pub fn default_command(&self) -> (command: Option<&C>)
        ensures
            match command {
                Some(c) => self.default() == Some(*c),
                None => self.default() is None,
            },
    {
        match &self.default_command {
            Some(c) => Some(c),
            None => None,
        }
    }

    /// The command registered under `name`, if any.
    pub fn command(&self, name: &str) -> (command: Option<&C>)
        ensures
            match command {
                Some(c) => find_command(self.entries(), name@) == Some(*c),
                None => find_command(self.entries(), name@) is None,
            },
    {
        match self.position(name) {
            Some(i) => Some(&self.commands[i].1),
            None => None,
        }
    }

    /// The names of the commands, in registration order.
    pub fn command_names(&self) -> (names: Vec<&'static str>)
        ensures
            strs_view(names@) == command_names(self.entries()),
    {
        let n = self.commands.len();
        let mut names: Vec<&'static str> = Vec::new();
        let mut i: usize = 0;
        while i < n
            invariant
                n == self.entries().len(),
                i <= n,
                strs_view(names@) == command_names(self.entries()).subrange(0, i as int),
            decreases n - i,
        {
            let ghost before = names@;
            let name = self.commands[i].0.as_str();
            names.push(name);
            proof {
                assert(names@ == before.push(name));
                assert(strs_view(before).len() == i);
                assert(names@.len() == i + 1);
                assert(strs_view(names@).len() == i + 1);
                assert(names@[i as int] == name);
                assert(strs_view(names@)[i as int] == name@);
                assert forall|j: int| 0 <= j <= i implies #[trigger] strs_view(names@)[j]
                    == command_names(self.entries())[j] by {
                    if j < i {
                        assert(strs_view(before)[j] == command_names(self.entries())[j]);
                    }
                }
                assert(strs_view(names@) =~= command_names(self.entries()).subrange(
                    0,
                    i + 1,
                ));
            }
            i += 1;
        }
        proof {
            assert(command_names(self.entries()).subrange(0, n as int) =~= command_names(
                self.entries(),
            ));
        }
        names
    }
}

/// The module among `modules` whose name is `name`, if any.
pub open spec fn find_module<C>(modules: Seq<ModuleCommands<C>>, name: Seq<char>) -> Option<
    ModuleCommands<C>,
>
    decreases modules.len(),
{
    if modules.len() == 0 {
        None
    } else if modules[0].module() == name {
        Some(modules[0])
    } else {
        find_module(modules.drop_first(), name)
    }
}

/// The names of the modules, in registration order.
pub open spec fn module_names<C>(modules: Seq<ModuleCommands<C>>) -> Seq<Seq<char>> {
    modules.map_values(|m: ModuleCommands<C>| m.module())
}

/// The command that a call of `:Mad` reaches, and the arguments left for it.
pub struct CommandCall<'a, C> {
    pub command: &'a C,
    pub args: Vec<String>,
}

/// Why a call of `:Mad` reached no command. Each error lists the valid
/// names at the place where the call went wrong.
pub enum NomadCommandError {
    /// A module was named but no command, and the module has no default.
    MissingCommand { valid: Vec<&'static str> },
    /// No module was named.
    MissingModule { valid: Vec<&'static str> },
    /// The named command does not exist in the module.
    UnknownCommand { command_name: String, valid: Vec<&'static str> },
    /// The named module does not exist.
    UnknownModule { module_name: String, valid: Vec<&'static str> },
}

impl NomadCommandError {
    /// Reports the error to the user. Nothing is shown yet.
    pub fn emit(self) {
    }
}

/// The `:Mad` command: the commands of every module.
pub struct NomadCommand<C> {
    modules: Vec<ModuleCommands<C>>,
}

impl<C> NomadCommand<C> {
    /// The modules' commands, in registration order.
    pub closed spec fn modules(&self) -> Seq<ModuleCommands<C>> {
        self.modules@
    }

    /// Every module's commands are well formed, and no two modules share a
    /// name.
    pub open spec fn wf(&self) -> bool {
        &&& forall|i: int| 0 <= i < self.modules().len() ==> #[trigger] self.modules()[i].wf()
        &&& module_names(self.modules()).no_duplicates()
    }

    /// A command with no module.
    pub fn new() -> (this: Self)
        ensures
            this.wf(),
            this.modules() == Seq::<ModuleCommands<C>>::empty(),
    {
        let this = NomadCommand { modules: Vec::new() };
        assert(module_names(this.modules()) =~= Seq::<Seq<char>>::empty());
        this
    }

    /// The position of the module named `name`, if there is one.
    pub fn module_position(&self, name: &str) -> (pos: Option<usize>)
        ensures
            match pos {
                Some(i) => i < self.modules().len() && self.modules()[i as int].module() == name@
                    && find_module(self.modules(), name@) == Some(self.modules()[i as int]),
                None => !module_names(self.modules()).contains(name@) && find_module(
                    self.modules(),
                    name@,
                ) is None,
            },
    {
        let n = self.modules.len();
        let mut i: usize = 0;
        assert(self.modules().subrange(0, n as int) =~= self.modules());
        while i < n
            invariant
                n == self.modules().len(),
                i <= n,
                forall|j: int| 0 <= j < i ==> self.modules()[j].module() != name@,
                find_module(self.modules(), name@) == find_module(
                    self.modules().subrange(i as int, n as int),
                    name@,
                ),
            decreases n - i,
        {
            let ghost rest = self.modules().subrange(i as int, n as int);
            assert(rest[0] == self.modules()[i as int]);
            if str_eq(self.modules[i].module_name().as_str(), name) {
                return Some(i);
            }
            assert(rest.drop_first() =~= self.modules().subrange(i + 1, n as int));
            i += 1;
        }
        assert(!module_names(self.modules()).contains(name@)) by {
            if module_names(self.modules()).contains(name@) {
                let j = choose|j: int|
                    0 <= j < module_names(self.modules()).len() && module_names(
                        self.modules(),
                    )[j] == name@;
                assert(self.modules()[j].module() == name@);
            }
        }
        None
    }

    /// Whether a module named `name` has been added.
    pub fn has_module(&self, name: &str) -> (b: bool)
        ensures
            b == module_names(self.modules()).contains(name@),
    {
        match self.module_position(name) {
            Some(i) => {
                assert(module_names(self.modules())[i as int] == name@);
                true
            },
            None => false,
        }
    }

    /// Adds the commands of a module whose name is not taken yet.
    pub fn add_module(&mut self, module_commands: ModuleCommands<C>)
        requires
            old(self).wf(),
            module_commands.wf(),
            !module_names(old(self).modules()).contains(module_commands.module()),
        ensures
            final(self).wf(),
            final(self).modules() == old(self).modules().push(module_commands),
    {
        let ghost old_modules = self.modules();
        self.modules.push(module_commands);
        proof {
            assert(module_names(self.modules()) =~= module_names(old_modules).push(
                module_commands.module(),
            ));
        }
    }

    /// The names of the modules, in registration order.
    pub fn module_names(&self) -> (names: Vec<&'static str>)
        ensures
            strs_view(names@) == module_names(self.modules()),
    {
        let n = self.modules.len();
        let mut names: Vec<&'static str> = Vec::new();
        let mut i: usize = 0;
        while i < n
            invariant
                n == self.modules().len(),
                i <= n,
                strs_view(names@) == module_names(self.modules()).subrange(0, i as int),
            decreases n - i,
        {
            let ghost before = names@;
            let name = self.modules[i].module_name().as_str();
            names.push(name);
            proof {
                assert(names@ == before.push(name));
                assert(strs_view(before).len() == i);
                assert(names@.len() == i + 1);
                assert(strs_view(names@).len() == i + 1);
                assert(names@[i as int] == name);
                assert(strs_view(names@)[i as int] == name@);
                assert forall|j: int| 0 <= j <= i implies #[trigger] strs_view(names@)[j]
                    == module_names(self.modules())[j] by {
                    if j < i {
                        assert(strs_view(before)[j] == module_names(self.modules())[j]);
                    }
                }
                assert(strs_view(names@) =~= module_names(self.modules()).subrange(0, i + 1));
            }
            i += 1;
        }
        proof {
            assert(module_names(self.modules()).subrange(0, n as int) =~= module_names(
                self.modules(),
            ));
        }
        names
    }

    /// Finds the command that a call of `:Mad` with `args` reaches. The first
    /// argument names the module and the second the command, whose own
    /// arguments are the rest; with the module alone its default command
    /// runs with no arguments.
    pub fn call(&self, args: Vec<String>) -> (res: Result<CommandCall<'_, C>, NomadCommandError>)
        ensures
            args@.len() == 0 ==> (res matches Err(NomadCommandError::MissingModule { valid })
                && strs_view(valid@) == module_names(self.modules())),
            args@.len() > 0 && find_module(self.modules(), args@[0]@) is None ==> (res matches Err(
                NomadCommandError::UnknownModule { module_name, valid },
            ) && module_name@ == args@[0]@ && strs_view(valid@) == module_names(
                self.modules(),
            )),
            args@.len() == 1 ==> match find_module(self.modules(), args@[0]@) {
                Some(m) => match m.default() {
                    Some(d) => (res matches Ok(call) && *call.command == d && call.args@.len()
                        == 0),
                    None => (res matches Err(NomadCommandError::MissingCommand { valid })
                        && strs_view(valid@) == command_names(m.entries())),
                },
                None => true,
            },
            args@.len() >= 2 ==> match find_module(self.modules(), args@[0]@) {
                Some(m) => match find_command(m.entries(), args@[1]@) {
                    Some(c) => (res matches Ok(call) && *call.command == c && call.args@
                        == args@.subrange(2, args@.len() as int)),
                    None => (res matches Err(
                        NomadCommandError::UnknownCommand { command_name, valid },
                    ) && command_name@ == args@[1]@ && strs_view(valid@) == command_names(
                        m.entries(),
                    )),
                },
                None => true,
            },
    {
        let mut args = args;
        if args.len() == 0 {
            return Err(NomadCommandError::MissingModule { valid: self.module_names() });
        }
        let ghost all = args@;
        let module_name = args.remove(0);
        let pos = self.module_position(module_name.as_str());
        let module_commands = match pos {
            Some(i) => &self.modules[i],
            None => {
                return Err(
                    NomadCommandError::UnknownModule { module_name, valid: self.module_names() },
                );
            },
        };
        if args.len() == 0 {
            return match module_commands.default_command() {
                Some(command) => Ok(CommandCall { command, args }),
                None => Err(
                    NomadCommandError::MissingCommand { valid: module_commands.command_names() },
                ),
            };
        }
        let command_name = args.remove(0);
        match module_commands.command(command_name.as_str()) {
            Some(command) => {
                assert(args@ =~= all.subrange(2, all.len() as int));
                Ok(CommandCall { command, args })
            },
            None => Err(
                NomadCommandError::UnknownCommand {
                    command_name,
                    valid: module_commands.command_names(),
                },
            ),
        }
    }
}

/// The part of a module's API that the registry keeps: the names of its
/// functions and its commands.
pub struct ModuleApi<C> {
    module_name: ModuleName,
    function_names: Vec<&'static str>,
    commands: ModuleCommands<C>,
}

impl<C> ModuleApi<C> {
    /// The name of the module.
    pub closed spec fn module(&self) -> Seq<char> {
        self.module_name.spec_str()
    }

    /// The names of the module's functions, in registration order.
    pub closed spec fn functions(&self) -> Seq<Seq<char>> {
        strs_view(self.function_names@)
    }

    /// The module's commands.
    pub closed spec fn commands(&self) -> ModuleCommands<C> {
        self.commands
    }

    /// The API is consistent: its commands belong to its module and are well
    /// formed, and no two functions share a name.
    pub open spec fn wf(&self) -> bool {
        &&& self.commands().wf()
        &&& self.commands().module() == self.module()
        &&& self.functions().no_duplicates()
    }

    /// An empty API for the module `module_name`.
    pub fn new(module_name: ModuleName) -> (api: Self)
        ensures
            api.wf(),
            api.module() == module_name.spec_str(),
            api.functions() == Seq::<Seq<char>>::empty(),
            api.commands().entries() == Seq::<(ActionName, C)>::empty(),
            api.commands().default() is None,
    {
        let api = ModuleApi {
            module_name,
            function_names: Vec::new(),
            commands: ModuleCommands::new(module_name),
        };
        assert(api.functions() =~= Seq::<Seq<char>>::empty());
        api
    }

    /// Whether a function named `name` has been added.
    pub fn has_function(&self, name: &str) -> (b: bool)
        ensures
            b == self.functions().contains(name@),
    {
        let n = self.function_names.len();
        let mut i: usize = 0;
        while i < n
            invariant
                n == self.function_names@.len(),
                i <= n,
                forall|j: int| 0 <= j < i ==> self.function_names@[j]@ != name@,
            decreases n - i,
        {
            if str_eq(self.function_names[i], name) {
                assert(self.functions()[i as int] == name@);
                return true;
            }
            i += 1;
        }
        assert(!self.functions().contains(name@)) by {
            if self.functions().contains(name@) {
                let j = choose|j: int|
                    0 <= j < self.functions().len() && self.functions()[j] == name@;
                assert(self.function_names@[j]@ == name@);
            }
        }
        false
    }

    /// Adds a command under a free name.
    pub fn command(self, name: ActionName, command: C) -> (api: Self)
        requires
            self.wf(),
            !command_names(self.commands().entries()).contains(name.spec_str()),
        ensures
            api.wf(),
            api.module() == self.module(),
            api.functions() == self.functions(),
            api.commands().entries() == self.commands().entries().push((name, command)),
            api.commands().default() == self.commands().default(),
    {
        let mut api = self;
        let module = api.module_name;
        api.commands.add_command(module, name, command);
        api
    }

    /// Adds a function under a free name.
    pub fn function(self, name: ActionName) -> (api: Self)
        requires
            self.wf(),
            !self.functions().contains(name.spec_str()),
        ensures
            api.wf(),
            api.module() == self.module(),
            api.functions() == self.functions().push(name.spec_str()),
            api.commands() == self.commands(),
    {
        let mut api = self;
        let ghost before = api.function_names@;
        let fname = name.as_str();
        api.function_names.push(fname);
        proof {
            assert(api.function_names@ == before.push(fname));
            assert(strs_view(api.function_names@) =~= strs_view(before).push(name.spec_str()));
        }
        api
    }

    /// The module's name, function names and commands.
    pub fn into_parts(self) -> (parts: (ModuleName, Vec<&'static str>, ModuleCommands<C>))
        ensures
            parts.0.spec_str() == self.module(),
            strs_view(parts.1@) == self.functions(),
            parts.2 == self.commands(),
    {
        (self.module_name, self.function_names, self.commands)
    }
}

/// The plugin's API: the commands and function names of every module.
pub struct Api<C> {
    commands: NomadCommand<C>,
}

impl<C> Api<C> {
    /// The commands of the modules added so far.
    pub closed spec fn command(&self) -> NomadCommand<C> {
        self.commands
    }

    /// An API with no module.
    pub fn new() -> (api: Self)
        ensures
            api.command().wf(),
            api.command().modules() == Seq::<ModuleCommands<C>>::empty(),
    {
        Api { commands: NomadCommand::new() }
    }

    /// Whether a module named `name` has been added.
    pub fn has_module(&self, name: &str) -> (b: bool)
        ensures
            b == module_names(self.command().modules()).contains(name@),
    {
        self.commands.has_module(name)
    }

    /// Adds a module's API, whose name must not be taken yet. Returns the
    /// names of the module's functions, to be placed in the API dictionary
    /// under the module's name.
    pub fn add_module(&mut self, module_api: ModuleApi<C>) -> (functions: Vec<&'static str>)
        requires
            old(self).command().wf(),
            module_api.wf(),
            !module_names(old(self).command().modules()).contains(module_api.module()),
        ensures
            final(self).command().wf(),
            final(self).command().modules() == old(self).command().modules().push(
                module_api.commands(),
            ),
            strs_view(functions@) == module_api.functions(),
    {
        let (_name, functions, commands) = module_api.into_parts();
        self.commands.add_module(commands);
        functions
    }

    /// The `:Mad` command over the modules added so far.
    pub fn into_command(self) -> (command: NomadCommand<C>)
        ensures
            command == self.command(),
    {
        self.commands
    }
}

} // verus!
