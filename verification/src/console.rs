//! The console: a prompt and the commands that are registered with it.

use vstd::prelude::*;
use vstd::string::StringExecFns;
pub use crate::command::Command;
pub use crate::error::ConsoleError;
use crate::text::views;

verus! {

/// Where `name` stands in `names`: the first position that holds it, if any does.
pub open spec fn position(names: Seq<Seq<char>>, name: Seq<char>) -> Option<int>
    decreases names.len(),
{
    if names.len() == 0 {
        None
    } else {
        match position(names.drop_last(), name) {
            Some(i) => Some(i),
            None => if names.last() == name {
                Some(names.len() - 1)
            } else {
                None
            },
        }
    }
}

/// [`position`] finds a name exactly where it stands first.
pub proof fn lemma_position(names: Seq<Seq<char>>, name: Seq<char>)
    ensures
        match position(names, name) {
            Some(i) => 0 <= i < names.len() && names[i] == name && forall|j: int|
                0 <= j < i ==> names[j] != name,
            None => forall|j: int| 0 <= j < names.len() ==> names[j] != name,
        },
    decreases names.len(),
{
    if names.len() > 0 {
        let init = names.drop_last();
        lemma_position(init, name);
        assert forall|j: int| 0 <= j < init.len() implies init[j] == names[j] by {}
    }
}

/// A name that is found in the first `n` names is found at the same place in all of them.
pub proof fn lemma_position_in_prefix(names: Seq<Seq<char>>, n: int, name: Seq<char>)
    requires
        0 <= n <= names.len(),
        position(names.take(n), name) is Some,
    ensures
        position(names, name) == position(names.take(n), name),
    decreases names.len() - n,
{
    if n < names.len() {
        assert(names.take(n + 1).drop_last() =~= names.take(n));
        lemma_position_in_prefix(names, n + 1, name);
    } else {
        assert(names.take(n) =~= names);
    }
}

/// A console: its prompt and its commands, each under the name that it gave when it
/// was registered. No two commands share a name.
pub struct Console<C: Command> {
    prompt: String,
    names: Vec<String>,
    commands: Vec<C>,
}

impl<C: Command> Console<C> {
    #[verifier::type_invariant]
    spec fn well_formed(&self) -> bool {
        &&& self.names@.len() == self.commands@.len()
        &&& forall|i: int, j: int|
            0 <= i < j < self.names@.len() ==> (#[trigger] self.names@[i])@
                != (#[trigger] self.names@[j])@
    }

    /// The text that is shown before a line is read.
    pub closed spec fn prompt_text(&self) -> Seq<char> {
        self.prompt@
    }

    /// The names of the registered commands, in the order in which they came.
    pub closed spec fn names(&self) -> Seq<Seq<char>> {
        views(self.names@)
    }

    /// The registered commands, each at the position of its name.
    pub closed spec fn commands(&self) -> Seq<C> {
        self.commands@
    }

    /// What registering `command` under `name` makes of the console `before`: a
    /// command of that name is replaced where it stands, a new name goes to the end.
    pub open spec fn registers(&self, before: &Self, name: Seq<char>, command: C) -> bool {
        &&& self.prompt_text() == before.prompt_text()
        &&& match position(before.names(), name) {
            Some(i) => {
                &&& self.names() == before.names()
                &&& self.commands() == before.commands().update(i, command)
            },
            None => {
                &&& self.names() == before.names().push(name)
                &&& self.commands() == before.commands().push(command)
            },
        }
    }

    /// A console with the prompt `> ` and no command.
    pub fn new() -> (console: Self)
        ensures
            console.prompt_text() == "> "@,
            console.names() == Seq::<Seq<char>>::empty(),
            console.commands() == Seq::<C>::empty(),
    {
        Console { prompt: String::from_str("> "), names: Vec::new(), commands: Vec::new() }
    }

    /// The text that is shown before a line is read.
    pub fn prompt(&self) -> (prompt: &str)
        ensures
            prompt@ == self.prompt_text(),
    {
        self.prompt.as_str()
    }

    /// The number of registered commands. There are as many names as commands, and
    /// no name occurs twice.
    pub fn len(&self) -> (n: usize)
        ensures
            n == self.names().len(),
            n == self.commands().len(),
            self.names().no_duplicates(),
    {
        proof {
            use_type_invariant(self);
        }
        self.names.len()
    }

    /// The name and the command at position `index`.
    pub fn entry(&self, index: usize) -> (entry: (&str, &C))
        requires
            index < self.commands().len(),
        ensures
            entry.0@ == self.names()[index as int],
            *entry.1 == self.commands()[index as int],
    {
        proof {
            use_type_invariant(self);
        }
        (self.names[index].as_str(), &self.commands[index])
    }

    /// Finds the command that is registered under `name`.
    pub fn find(&self, name: &str) -> (found: Option<usize>)
        ensures
            match found {
                Some(i) => position(self.names(), name@) == Some(i as int) && i
                    < self.commands().len(),
                None => position(self.names(), name@) is None,
            },
    {
        proof {
            use_type_invariant(self);
        }
        let wanted = name.to_owned();
        let mut i: usize = 0;
        while i < self.names.len()
            invariant
                i <= self.names@.len(),
                self.names@.len() == self.commands@.len(),
                wanted@ == name@,
                position(self.names().take(i as int), name@) is None,
            decreases self.names@.len() - i,
        {
            assert(self.names().take(i + 1).drop_last() =~= self.names().take(i as int));
            if self.names[i] == wanted {
                proof {
                    lemma_position_in_prefix(self.names(), i + 1, name@);
                }
                return Some(i);
            }
            i += 1;
        }
        assert(self.names().take(i as int) =~= self.names());
        None
    }

    /// Registers `command` under `name`. A command that is registered under that name
    /// already is replaced.
    pub fn register(self, name: String, command: C) -> (console: Self)
        ensures
            console.registers(&self, name@, command),
    {
        proof {
            use_type_invariant(&self);
            lemma_position(self.names(), name@);
        }
        let found = self.find(name.as_str());
        let Console { prompt, names, commands } = self;
        let ghost old_names = names@;
        let mut names = names;
        let mut commands = commands;
        match found {
            Some(i) => {
                commands.set(i, command);
            },
            None => {
                assert forall|j: int| 0 <= j < old_names.len() implies (#[trigger] old_names[j])@
                    != name@ by {
                    assert(views(old_names)[j] == old_names[j]@);
                }
                names.push(name);
                commands.push(command);
                assert(views(names@) =~= views(old_names).push(name@));
            },
        }
        Console { prompt, names, commands }
    }

    /// Registers `command` under the name that it gives.
    pub fn add_command(self, command: C) -> (console: Self)
        ensures
            exists|name: Seq<char>| console.registers(&self, name, command),
    {
        let name = command.get_name();
        self.register(name, command)
    }
}

impl<C: Command> Default for Console<C> {
    /// A console with the prompt `> ` and no command.
    fn default() -> (console: Self)
        ensures
            console.prompt_text() == "> "@,
            console.names() == Seq::<Seq<char>>::empty(),
            console.commands() == Seq::<C>::empty(),
    {
        Console::new()
    }
}

} // verus!
