//! The table of commands: each name with the action that is run when the
//! command is dispatched.
//!
//! The library stores actions and never runs one, so an action is a value of
//! any type `A`; the program chooses it.

use vstd::hash_map::StringHashMap;
use vstd::prelude::*;

verus! {

/// A command: its name and what it does.
pub struct CommandItem<A> {
    pub name: String,
    pub action: A,
}

/// The commands by name. A name stands for one command.
#[verifier::reject_recursive_types(A)]
pub struct CommandRegistry<A> {
    pub commands: StringHashMap<CommandItem<A>>,
}

impl<A> View for CommandRegistry<A> {
    type V = Map<Seq<char>, CommandItem<A>>;

    open spec fn view(&self) -> Map<Seq<char>, CommandItem<A>> {
        self.commands@
    }
}

impl<A> Default for CommandRegistry<A> {
    /// The registry without commands.
    fn default() -> (registry: Self)
        ensures
            registry@ == Map::<Seq<char>, CommandItem<A>>::empty(),
    {
        CommandRegistry { commands: StringHashMap::new() }
    }
}

impl<A> CommandRegistry<A> {
    /// Registers `action` under `name`. A command that was registered under
    /// that name before is replaced; every other command stays.
    pub fn add_command(&mut self, name: String, action: A)
        ensures
            final(self)@ == old(self)@.insert(name@, (CommandItem { name: name, action: action })),
    {
        self.commands.insert(name.clone(), CommandItem { name, action });
    }
}

/// What a component implements that has commands to offer: it puts them into
/// the registry, once, before the registry is shared.
pub trait CommandRegistrar<A> {
    fn register_commands(registry: &mut CommandRegistry<A>);
}

} // verus!
