//! The command registry: a fixed, ordered table of the ten known commands,
//! and tab completion against it.

use vstd::prelude::*;
use vstd::string::*;
use crate::text::{prefix_nocase, str_prefix_nocase};

verus! {

/// One registry entry: a command name and the one-line description that
/// `help` prints for it.
#[derive(PartialEq, Debug)]
pub struct CommandInfo {
    pub name: String,
    pub description: String,
}

/// Mathematical value of a [`CommandInfo`].
pub struct CommandInfoV {
    pub name: Seq<char>,
    pub description: Seq<char>,
}

impl View for CommandInfo {
    type V = CommandInfoV;

    open spec fn view(&self) -> CommandInfoV {
        CommandInfoV { name: self.name@, description: self.description@ }
    }
}

impl DeepView for CommandInfo {
    type V = CommandInfoV;

    open spec fn deep_view(&self) -> CommandInfoV {
        self@
    }
}

impl Clone for CommandInfo {
    fn clone(&self) -> (r: Self)
        ensures
            r@ == self@,
    {
        CommandInfo { name: self.name.clone(), description: self.description.clone() }
    }
}

/// Element-wise copy of a registry table, with the views carried over.
pub(crate) fn clone_infos(v: &Vec<CommandInfo>) -> (r: Vec<CommandInfo>)
    ensures
        r.deep_view() == v.deep_view(),
{
    let mut r: Vec<CommandInfo> = Vec::new();
    let mut k: usize = 0;
    while k < v.len()
        invariant
            0 <= k <= v@.len(),
            r@.len() == k,
            forall|i: int| 0 <= i < k ==> r@[i]@ == v@[i]@,
        decreases v@.len() - k,
    {
        r.push(v[k].clone());
        k += 1;
    }
    proof {
        assert(r.deep_view() =~= v.deep_view());
    }
    r
}

/// The registry: ten entries, in this order, fixed for the whole session.
pub open spec fn registry_spec() -> Seq<CommandInfoV> {
    seq![
        CommandInfoV { name: "about"@, description: "Learn more about me"@ },
        CommandInfoV { name: "skills"@, description: "List my professional skills"@ },
        CommandInfoV { name: "projects"@, description: "View my featured projects"@ },
        CommandInfoV { name: "contact"@, description: "Get my contact information"@ },
        CommandInfoV { name: "technologies"@, description: "Tools and platforms I use"@ },
        CommandInfoV { name: "work-experience"@, description: "My professional journey"@ },
        CommandInfoV { name: "help"@, description: "Show this help message"@ },
        CommandInfoV { name: "clear"@, description: "Clear the terminal screen"@ },
        CommandInfoV { name: "restart"@, description: "Reboot the terminal session"@ },
        CommandInfoV { name: "poweroff"@, description: "Shut down the system"@ },
    ]
}

fn entry(name: &str, description: &str) -> (r: CommandInfo)
    ensures
        r@ == (CommandInfoV { name: name@, description: description@ }),
{
    CommandInfo { name: String::from_str(name), description: String::from_str(description) }
}

/// Builds the registry table.
pub fn registry() -> (r: Vec<CommandInfo>)
    ensures
        r.deep_view() == registry_spec(),
{
    let mut r: Vec<CommandInfo> = Vec::new();
    r.push(entry("about", "Learn more about me"));
    r.push(entry("skills", "List my professional skills"));
    r.push(entry("projects", "View my featured projects"));
    r.push(entry("contact", "Get my contact information"));
    r.push(entry("technologies", "Tools and platforms I use"));
    r.push(entry("work-experience", "My professional journey"));
    r.push(entry("help", "Show this help message"));
    r.push(entry("clear", "Clear the terminal screen"));
    r.push(entry("restart", "Reboot the terminal session"));
    r.push(entry("poweroff", "Shut down the system"));
    proof {
        assert(r.deep_view() =~= registry_spec());
    }
    r
}

/// The first entry of `names`, in order, whose name the input is a
/// case-insensitive prefix of; `None` when there is none.
pub open spec fn first_completion(names: Seq<CommandInfoV>, input: Seq<char>) -> Option<Seq<char>>
    decreases names.len(),
{
    if names.len() == 0 {
        None
    } else if prefix_nocase(input, names[0].name) {
        Some(names[0].name)
    } else {
        first_completion(names.drop_first(), input)
    }
}

proof fn lemma_first_completion_skip(names: Seq<CommandInfoV>, input: Seq<char>, i: int)
    requires
        0 <= i < names.len(),
        !prefix_nocase(input, names[i].name),
        first_completion(names, input) == first_completion(
            names.subrange(i, names.len() as int),
            input,
        ),
    ensures
        first_completion(names, input) == first_completion(
            names.subrange(i + 1, names.len() as int),
            input,
        ),
{
    let tail = names.subrange(i, names.len() as int);
    assert(tail[0] == names[i]);
    assert(tail.drop_first() =~= names.subrange(i + 1, names.len() as int));
}

/// Tab completion: the full name of the first registry entry the live input
/// is a case-insensitive prefix of, or `None` when no entry matches.
pub fn complete(input: &str) -> (r: Option<String>)
    ensures
        match r {
            Some(s) => first_completion(registry_spec(), input@) == Some(s@),
            None => first_completion(registry_spec(), input@) is None,
        },
{
    let table = registry();
    let n = table.len();
    proof {
        assert(table.deep_view().len() == table@.len());
        assert(registry_spec().subrange(0, registry_spec().len() as int) =~= registry_spec());
    }
    let mut i: usize = 0;
    loop
        invariant
            table.deep_view() == registry_spec(),
            n == registry_spec().len(),
            n == table@.len(),
            0 <= i <= n,
            first_completion(registry_spec(), input@) == first_completion(
                registry_spec().subrange(i as int, n as int),
                input@,
            ),
        decreases n - i,
    {
        if i == n {
            proof {
                assert(registry_spec().subrange(i as int, n as int).len() == 0);
            }
            return None;
        }
        proof {
            assert(table.deep_view()[i as int] == table@[i as int]@);
            assert(registry_spec().subrange(i as int, n as int)[0] == registry_spec()[i as int]);
        }
        if str_prefix_nocase(input, table[i].name.as_str()) {
            let name = table[i].name.clone();
            return Some(name);
        }
        proof {
            lemma_first_completion_skip(registry_spec(), input@, i as int);
        }
        i += 1;
    }
}

} // verus!
