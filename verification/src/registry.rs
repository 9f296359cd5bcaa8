//! The tools that a swarm can call, by name.

use vstd::prelude::*;
use crate::assoc::{
    distinct_keys, find_key, keyed, lemma_with_entry_distinct, lemma_with_entry_lookup,
    lemma_with_values_entry, lemma_with_values_index, lookup, put_entry, with_entry, with_values,
};
use crate::json::{Json, JsonView};
use crate::types::{Tool, ToolView};

verus! {

/// What a tool does when it is called: it takes the arguments of the call, a
/// JSON object that also holds the shared variables, and gives back JSON.
/// A handler can be shared among threads.
///
/// A handler may say in `may_answer` what it answers to which arguments; one
/// that says nothing may answer anything. The contracts of a turn speak of
/// the answers through `may_answer`, and hold of a handler as far as its own
/// `invoke` keeps to what its `may_answer` says.
pub trait ToolHandler: Send + Sync {
    /// Whether `answer` is something that this handler may give when it is
    /// called with `arguments`.
    open spec fn may_answer(&self, arguments: JsonView, answer: JsonView) -> bool {
        true
    }

    /// Answers one call of the tool.
    fn invoke(&self, arguments: Json) -> (r: Json)
        ensures
            self.may_answer(arguments@, r@),
    ;
}

/// The tools of a registry as the contracts see them: each name with what is
/// advertised under it, in the order in which the names were first registered.
pub type ToolsView = Seq<(Seq<char>, ToolView)>;

/// The registered tools: under each name what is advertised to the model and
/// the handler that is called. A name stands once; registering it again
/// replaces both.
pub struct ToolRegistry<H> {
    entries: Vec<(String, (Tool, H))>,
}

impl<H> ToolRegistry<H> {
    #[verifier::type_invariant]
    spec fn names_are_distinct(&self) -> bool {
        distinct_keys(keyed(self.entries))
    }

    /// Each name with the tool advertised under it.
    pub closed spec fn tools(&self) -> ToolsView {
        with_values(keyed(self.entries), |entry: (Tool, H)| entry.0@)
    }

    /// Each name with the handler registered under it.
    pub closed spec fn functions(&self) -> Seq<(Seq<char>, H)> {
        with_values(keyed(self.entries), |entry: (Tool, H)| entry.1)
    }

    /// Whether a tool is registered under `name`.
    pub open spec fn has(&self, name: Seq<char>) -> bool {
        lookup(self.functions(), name) is Some
    }

    /// A registry without tools.
    pub fn new() -> (r: ToolRegistry<H>)
        ensures
            r.tools() == ToolsView::empty(),
            r.functions() == Seq::<(Seq<char>, H)>::empty(),
            forall|name: Seq<char>| !#[trigger] r.has(name),
    {
        let r = ToolRegistry { entries: Vec::new() };
        assert(r.tools() =~= ToolsView::empty());
        assert(r.functions() =~= Seq::<(Seq<char>, H)>::empty());
        r
    }

    /// The number of registered names.
    pub fn len(&self) -> (r: usize)
        ensures
            r == self.tools().len(),
            r == self.functions().len(),
            distinct_keys(self.tools()),
            distinct_keys(self.functions()),
    {
        proof {
            use_type_invariant(self);
            lemma_with_values_index(keyed(self.entries), |entry: (Tool, H)| entry.0@, Seq::empty());
            lemma_with_values_index(keyed(self.entries), |entry: (Tool, H)| entry.1, Seq::empty());
        }
        self.entries.len()
    }

    /// Registers `function` under `name`, advertised with `description` and
    /// the schema `parameters`. What the name held before is replaced.
    pub fn register_tool(&mut self, name: &str, description: &str, parameters: Json, function: H)
        ensures
            final(self).tools() == with_entry(
                old(self).tools(),
                name@,
                ToolView { name: name@, description: description@, parameters: parameters@ },
            ),
            final(self).functions() == with_entry(old(self).functions(), name@, function),
            forall|other: Seq<char>| #[trigger]
                lookup(final(self).functions(), other) == if other == name@ {
                    Some(function)
                } else {
                    lookup(old(self).functions(), other)
                },
            forall|other: Seq<char>| #[trigger]
                lookup(final(self).tools(), other) == if other == name@ {
                    Some(
                        ToolView {
                            name: name@,
                            description: description@,
                            parameters: parameters@,
                        },
                    )
                } else {
                    lookup(old(self).tools(), other)
                },
    {
        let tool = Tool::new(name, description, parameters);
        proof {
            assert forall|other: Seq<char>| #[trigger]
                lookup(with_entry(self.functions(), name@, function), other) == if other == name@ {
                    Some(function)
                } else {
                    lookup(self.functions(), other)
                } by {
                lemma_with_entry_lookup(self.functions(), name@, function, other);
            }
            assert forall|other: Seq<char>| #[trigger]
                lookup(with_entry(self.tools(), name@, tool@), other) == if other == name@ {
                    Some(tool@)
                } else {
                    lookup(self.tools(), other)
                } by {
                lemma_with_entry_lookup(self.tools(), name@, tool@, other);
            }
            use_type_invariant(&*self);
            lemma_with_entry_distinct(keyed(self.entries), name@, (tool, function));
            lemma_with_values_entry(
                keyed(self.entries),
                |entry: (Tool, H)| entry.0@,
                name@,
                (tool, function),
            );
            lemma_with_values_entry(
                keyed(self.entries),
                |entry: (Tool, H)| entry.1,
                name@,
                (tool, function),
            );
        }
        let mut entries: Vec<(String, (Tool, H))> = Vec::new();
        std::mem::swap(&mut self.entries, &mut entries);
        put_entry(&mut entries, name, (tool, function));
        self.entries = entries;
    }

    /// The handler registered under `name`.
    pub fn get_function(&self, name: &str) -> (r: Option<&H>)
        ensures
            match r {
                Some(function) => lookup(self.functions(), name@) == Some(*function),
                None => lookup(self.functions(), name@) is None,
            },
    {
        proof {
            lemma_with_values_index(keyed(self.entries), |entry: (Tool, H)| entry.1, name@);
        }
        match find_key(&self.entries, name) {
            Some(i) => Some(&self.entries[i].1.1),
            None => None,
        }
    }

    /// The tool advertised under `name`.
    pub fn get_tool(&self, name: &str) -> (r: Option<&Tool>)
        ensures
            match r {
                Some(tool) => lookup(self.tools(), name@) == Some(tool@),
                None => lookup(self.tools(), name@) is None,
            },
    {
        proof {
            lemma_with_values_index(keyed(self.entries), |entry: (Tool, H)| entry.0@, name@);
        }
        match find_key(&self.entries, name) {
            Some(i) => Some(&self.entries[i].1.0),
            None => None,
        }
    }

    /// The advertised tools, in the order in which their names were first
    /// registered.
    pub fn specs(&self) -> (r: Vec<Tool>)
        ensures
            r.len() == self.tools().len(),
            forall|i: int| 0 <= i < r.len() ==> (#[trigger] r[i])@ == self.tools()[i].1,
    {
        let mut out: Vec<Tool> = Vec::new();
        let mut i: usize = 0;
        while i < self.entries.len()
            invariant
                i <= self.entries.len(),
                out.len() == i,
                forall|k: int| 0 <= k < i ==> (#[trigger] out[k])@ == self.entries[k].1.0@,
            decreases self.entries.len() - i,
        {
            out.push(self.entries[i].1.0.clone());
            i += 1;
        }
        out
    }
}

impl<H> Default for ToolRegistry<H> {
    fn default() -> (r: ToolRegistry<H>)
        ensures
            r.tools() == ToolsView::empty(),
            r.functions() == Seq::<(Seq<char>, H)>::empty(),
    {
        ToolRegistry::new()
    }
}

} // verus!
