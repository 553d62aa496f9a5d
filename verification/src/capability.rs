//! The closed set of host-mediated capabilities a script can reach.

use crate::text::str_eq;
use vstd::prelude::*;

verus! {

/// One of the ten operations the host offers to a script. Nothing outside
/// this enumeration can be invoked from inside the sandbox.
#[derive(Clone, Copy, Debug, PartialEq, Eq, Hash, Structural)]
pub enum Capability {
    Fetch,
    Secrets,
    Invoke,
    Input,
    Output,
    Describe,
    Query,
    Read,
    Write,
    Blob,
}

/// Every capability, in declaration order.
pub open spec fn capability_list() -> Seq<Capability> {
    seq![
        Capability::Fetch,
        Capability::Secrets,
        Capability::Invoke,
        Capability::Input,
        Capability::Output,
        Capability::Describe,
        Capability::Query,
        Capability::Read,
        Capability::Write,
        Capability::Blob,
    ]
}

/// The capability a script reaches under `name`, if there is one.
pub open spec fn capability_named(name: Seq<char>) -> Option<Capability> {
    if name == Capability::Fetch.spec_name() {
        Some(Capability::Fetch)
    } else if name == Capability::Secrets.spec_name() {
        Some(Capability::Secrets)
    } else if name == Capability::Invoke.spec_name() {
        Some(Capability::Invoke)
    } else if name == Capability::Input.spec_name() {
        Some(Capability::Input)
    } else if name == Capability::Output.spec_name() {
        Some(Capability::Output)
    } else if name == Capability::Describe.spec_name() {
        Some(Capability::Describe)
    } else if name == Capability::Query.spec_name() {
        Some(Capability::Query)
    } else if name == Capability::Read.spec_name() {
        Some(Capability::Read)
    } else if name == Capability::Write.spec_name() {
        Some(Capability::Write)
    } else if name == Capability::Blob.spec_name() {
        Some(Capability::Blob)
    } else {
        None
    }
}

impl Capability {
    /// The property name under which a script sees the capability.
    pub open spec fn spec_name(self) -> Seq<char> {
        match self {
            Capability::Fetch => "fetch"@,
            Capability::Secrets => "secrets"@,
            Capability::Invoke => "invoke"@,
            Capability::Input => "input"@,
            Capability::Output => "output"@,
            Capability::Describe => "describe"@,
            Capability::Query => "query"@,
            Capability::Read => "read"@,
            Capability::Write => "write"@,
            Capability::Blob => "blob"@,
        }
    }

    /// The name of the host binding that serves the capability: the property
    /// name followed by `_capability`.
    pub open spec fn spec_binding_name(self) -> Seq<char> {
        self.spec_name() + "_capability"@
    }

    /// The property name under which a script sees the capability.
    pub fn name(self) -> (name: &'static str)
        ensures
            name@ == self.spec_name(),
    {
        match self {
            Capability::Fetch => "fetch",
            Capability::Secrets => "secrets",
            Capability::Invoke => "invoke",
            Capability::Input => "input",
            Capability::Output => "output",
            Capability::Describe => "describe",
            Capability::Query => "query",
            Capability::Read => "read",
            Capability::Write => "write",
            Capability::Blob => "blob",
        }
    }

    /// The name of the host binding that serves the capability.
    pub fn binding_name(self) -> (name: String)
        ensures
            name@ == self.spec_binding_name(),
    {
        String::from_str(self.name()).concat("_capability")
    }

    /// The capability that a script reaches under `name`; `None` for every
    /// other text.
    pub fn from_name(name: &str) -> (found: Option<Capability>)
        ensures
            found == capability_named(name@),
            found matches Some(c) ==> c.spec_name() == name@,
            found is None ==> forall|c: Capability| c.spec_name() != name@,
    {
        let found = if str_eq(name, "fetch") {
            Some(Capability::Fetch)
        } else if str_eq(name, "secrets") {
            Some(Capability::Secrets)
        } else if str_eq(name, "invoke") {
            Some(Capability::Invoke)
        } else if str_eq(name, "input") {
            Some(Capability::Input)
        } else if str_eq(name, "output") {
            Some(Capability::Output)
        } else if str_eq(name, "describe") {
            Some(Capability::Describe)
        } else if str_eq(name, "query") {
            Some(Capability::Query)
        } else if str_eq(name, "read") {
            Some(Capability::Read)
        } else if str_eq(name, "write") {
            Some(Capability::Write)
        } else if str_eq(name, "blob") {
            Some(Capability::Blob)
        } else {
            None
        };
        proof {
            lemma_named_is_inverse(name@);
        }
        found
    }

    /// Every capability, in declaration order.
    pub fn all() -> (list: Vec<Capability>)
        ensures
            list@ == capability_list(),
    {
        let mut list: Vec<Capability> = Vec::new();
        list.push(Capability::Fetch);
        list.push(Capability::Secrets);
        list.push(Capability::Invoke);
        list.push(Capability::Input);
        list.push(Capability::Output);
        list.push(Capability::Describe);
        list.push(Capability::Query);
        list.push(Capability::Read);
        list.push(Capability::Write);
        list.push(Capability::Blob);
        proof {
            assert(list@ =~= capability_list());
        }
        list
    }
}

/// The names of a list of capabilities, in order.
pub open spec fn names_of(list: Seq<Capability>) -> Seq<Seq<char>> {
    Seq::new(list.len(), |i: int| list[i].spec_name())
}

/// The texts of a list of names.
pub open spec fn name_texts(names: Seq<&'static str>) -> Seq<Seq<char>> {
    Seq::new(names.len(), |i: int| names[i]@)
}

/// The capabilities as a module that a script can import: its exports are
/// the ten capability names and nothing else.
pub struct CapabilitiesModule;

impl CapabilitiesModule {
    /// The names that the module declares as its exports: the name of each
    /// capability, in declaration order.
    pub fn declare() -> (names: Vec<&'static str>)
        ensures
            name_texts(names@) == names_of(capability_list()),
    {
        let list = Capability::all();
        let mut names: Vec<&'static str> = Vec::new();
        let mut i: usize = 0;
        while i < list.len()
            invariant
                i <= list.len(),
                list@ == capability_list(),
                name_texts(names@) == names_of(capability_list().take(i as int)),
            decreases list.len() - i,
        {
            let ghost before = names@;
            names.push(list[i].name());
            proof {
                assert(name_texts(names@) =~= name_texts(before).push(list@[i as int].spec_name()));
                assert(names_of(capability_list().take(i + 1)) =~= names_of(
                    capability_list().take(i as int),
                ).push(list@[i as int].spec_name()));
            }
            i += 1;
        }
        proof {
            assert(capability_list().take(list.len() as int) =~= capability_list());
        }
        names
    }

    /// What the module binds to each export when it is evaluated: under each
    /// declared name, the capability of that name.
    pub fn evaluate() -> (exports: Vec<(&'static str, Capability)>)
        ensures
            exports@.len() == capability_list().len(),
            forall|i: int|
                0 <= i < exports@.len() ==> (#[trigger] exports@[i]).1 == capability_list()[i]
                    && exports@[i].0@ == capability_list()[i].spec_name(),
    {
        let list = Capability::all();
        let mut exports: Vec<(&'static str, Capability)> = Vec::new();
        let mut i: usize = 0;
        while i < list.len()
            invariant
                i <= list.len(),
                list@ == capability_list(),
                exports@.len() == i,
                forall|k: int|
                    0 <= k < i ==> (#[trigger] exports@[k]).1 == capability_list()[k]
                        && exports@[k].0@ == capability_list()[k].spec_name(),
            decreases list.len() - i,
        {
            exports.push((list[i].name(), list[i]));
            i += 1;
        }
        exports
    }
}

/// No two capabilities share a name.
pub proof fn lemma_names_distinct(a: Capability, b: Capability)
    ensures
        a.spec_name() == b.spec_name() <==> a == b,
{
    reveal_strlit("fetch");
    reveal_strlit("secrets");
    reveal_strlit("invoke");
    reveal_strlit("input");
    reveal_strlit("output");
    reveal_strlit("describe");
    reveal_strlit("query");
    reveal_strlit("read");
    reveal_strlit("write");
    reveal_strlit("blob");
    if a != b && a.spec_name() == b.spec_name() {
        let x = a.spec_name();
        let y = b.spec_name();
        assert(x.len() == y.len());
        assert(x[0] == y[0]);
        assert(x[1] == y[1]);
    }
}

/// Looking a name up gives the capability that carries it, and nothing for
/// a text that no capability carries.
pub proof fn lemma_named_is_inverse(name: Seq<char>)
    ensures
        capability_named(name) matches Some(c) ==> c.spec_name() == name,
        capability_named(name) is None ==> forall|c: Capability| c.spec_name() != name,
        forall|c: Capability| #[trigger] c.spec_name() == name ==> capability_named(name) == Some(c),
{
    assert forall|c: Capability| #[trigger] c.spec_name() == name implies capability_named(name)
        == Some(c) by {
        let d = capability_named(name)->Some_0;
        lemma_names_distinct(c, d);
    }
}

/// The list holds each capability exactly once: the set is closed and has
/// ten members.
pub proof fn lemma_list_is_closed()
    ensures
        capability_list().len() == 10,
        capability_list().no_duplicates(),
        forall|c: Capability| capability_list().contains(c),
        forall|i: int, j: int|
            0 <= i < j < 10 ==> capability_list()[i].spec_name() != capability_list()[j].spec_name(),
{
    let list = capability_list();
    assert forall|c: Capability| list.contains(c) by {
        match c {
            Capability::Fetch => assert(list[0] == c),
            Capability::Secrets => assert(list[1] == c),
            Capability::Invoke => assert(list[2] == c),
            Capability::Input => assert(list[3] == c),
            Capability::Output => assert(list[4] == c),
            Capability::Describe => assert(list[5] == c),
            Capability::Query => assert(list[6] == c),
            Capability::Read => assert(list[7] == c),
            Capability::Write => assert(list[8] == c),
            Capability::Blob => assert(list[9] == c),
        }
    }
    assert forall|i: int, j: int| 0 <= i < j < 10 implies list[i].spec_name()
        != list[j].spec_name() by {
        lemma_names_distinct(list[i], list[j]);
    }
}

} // verus!
