//! The variables that the tools of one conversation share.

use vstd::prelude::*;
use crate::assoc::{
    distinct_keys, find_key, keyed, lemma_key_index, lemma_with_entry_distinct,
    lemma_with_entry_lookup, lemma_with_values_entry, lemma_with_values_index, lookup, put_entry,
    with_entry, with_values,
};
use crate::json::{Json, JsonView};

verus! {

/// The variables as the contracts see them: each key with its value, in the
/// order in which the keys were first set.
pub type ContextView = Seq<(Seq<char>, Seq<char>)>;

/// A map from text keys to text values. Setting a key that is there replaces
/// its value.
#[derive(Debug)]
pub struct ContextVariables {
    entries: Vec<(String, String)>,
}

/// `base` after each entry of `update` is written into it, in order: the
/// last writer of a key wins.
pub open spec fn merged(base: ContextView, update: ContextView) -> ContextView
    decreases update.len(),
{
    if update.len() == 0 {
        base
    } else {
        with_entry(merged(base, update.drop_last()), update.last().0, update.last().1)
    }
}

/// The JSON object that holds each variable as a string.
pub open spec fn context_json(variables: ContextView) -> JsonView {
    JsonView::Object(with_values(variables, |value: Seq<char>| JsonView::Text(value)))
}

/// After a merge a key holds what the update gave it, and else what it held
/// before.
pub proof fn lemma_merged_lookup(base: ContextView, update: ContextView, key: Seq<char>)
    ensures
        lookup(merged(base, update), key) == match lookup(update, key) {
            Some(value) => Some(value),
            None => lookup(base, key),
        },
    decreases update.len(),
{
    if update.len() > 0 {
        let rest = update.drop_last();
        lemma_merged_lookup(base, rest, key);
        lemma_with_entry_lookup(merged(base, rest), update.last().0, update.last().1, key);
        lemma_key_index(update, key);
        lemma_key_index(rest, key);
    }
}

/// The variables that a JSON value spells out: those of an object whose
/// values are all strings, written in the order of its fields.
pub open spec fn context_of_json(json: JsonView) -> Option<ContextView> {
    match json {
        JsonView::Object(fields) => if forall|i: int|
            0 <= i < fields.len() ==> (#[trigger] fields[i]).1 is Text {
            Some(merged(Seq::empty(), with_values(fields, |value: JsonView| value->Text_0)))
        } else {
            None
        },
        _ => None,
    }
}

impl View for ContextVariables {
    type V = ContextView;

    closed spec fn view(&self) -> ContextView {
        with_values(keyed(self.entries), |value: String| value@)
    }
}

impl ContextVariables {
    #[verifier::type_invariant]
    spec fn keys_are_distinct(&self) -> bool {
        distinct_keys(keyed(self.entries))
    }

    /// No variables.
    pub fn new() -> (r: ContextVariables)
        ensures
            r@ == ContextView::empty(),
            forall|key: Seq<char>| #[trigger] lookup(r@, key) is None,
    {
        let r = ContextVariables { entries: Vec::new() };
        assert(r@ =~= ContextView::empty());
        r
    }

    /// The number of variables.
    pub fn len(&self) -> (r: usize)
        ensures
            r == self@.len(),
            distinct_keys(self@),
    {
        proof {
            use_type_invariant(self);
            lemma_with_values_index(keyed(self.entries), |value: String| value@, Seq::empty());
        }
        self.entries.len()
    }

    /// The value of the variable `key`.
    pub fn get(&self, key: &str) -> (r: Option<&String>)
        ensures
            match r {
                Some(value) => lookup(self@, key@) == Some(value@),
                None => lookup(self@, key@) is None,
            },
    {
        proof {
            lemma_with_values_index(keyed(self.entries), |value: String| value@, key@);
        }
        match find_key(&self.entries, key) {
            Some(i) => Some(&self.entries[i].1),
            None => None,
        }
    }

    /// The key and the value at place `i`.
    pub fn entry(&self, i: usize) -> (r: (&String, &String))
        requires
            i < self@.len(),
        ensures
            r.0@ == self@[i as int].0,
            r.1@ == self@[i as int].1,
    {
        (&self.entries[i].0, &self.entries[i].1)
    }

    /// Sets the variable `key` to `value`.
    pub fn insert(&mut self, key: &str, value: String)
        ensures
            final(self)@ == with_entry(old(self)@, key@, value@),
            forall|other: Seq<char>| #[trigger]
                lookup(final(self)@, other) == if other == key@ {
                    Some(value@)
                } else {
                    lookup(old(self)@, other)
                },
    {
        proof {
            assert forall|other: Seq<char>| #[trigger]
                lookup(with_entry(self@, key@, value@), other) == if other == key@ {
                    Some(value@)
                } else {
                    lookup(self@, other)
                } by {
                lemma_with_entry_lookup(self@, key@, value@, other);
            }
            use_type_invariant(&*self);
            lemma_with_entry_distinct(keyed(self.entries), key@, value);
            lemma_with_values_entry(keyed(self.entries), |value: String| value@, key@, value);
        }
        let mut entries: Vec<(String, String)> = Vec::new();
        std::mem::swap(&mut self.entries, &mut entries);
        put_entry(&mut entries, key, value);
        self.entries = entries;
    }
}

impl ContextVariables {
    /// Writes each variable of `update` into these, in order.
    pub fn extend(&mut self, update: &ContextVariables)
        ensures
            final(self)@ == merged(old(self)@, update@),
            forall|key: Seq<char>| #[trigger]
                lookup(final(self)@, key) == match lookup(update@, key) {
                    Some(value) => Some(value),
                    None => lookup(old(self)@, key),
                },
    {
        proof {
            assert forall|key: Seq<char>| #[trigger]
                lookup(merged(self@, update@), key) == match lookup(update@, key) {
                    Some(value) => Some(value),
                    None => lookup(self@, key),
                } by {
                lemma_merged_lookup(self@, update@, key);
            }
        }
        let mut i: usize = 0;
        while i < update.len()
            invariant
                i <= update@.len(),
                self@ == merged(old(self)@, update@.take(i as int)),
            decreases update@.len() - i,
        {
            let (key, value) = update.entry(i);
            self.insert(key.as_str(), value.clone());
            proof {
                assert(update@.take(i + 1).drop_last() =~= update@.take(i as int));
            }
            i += 1;
        }
        proof {
            assert(update@.take(i as int) =~= update@);
        }
    }

    /// The JSON object that holds each variable as a string.
    pub fn to_json(&self) -> (r: Json)
        ensures
            r@ == context_json(self@),
    {
        let mut fields: Vec<(String, Json)> = Vec::new();
        let mut i: usize = 0;
        while i < self.len()
            invariant
                i <= self@.len(),
                fields.len() == i,
                forall|k: int|
                    0 <= k < i ==> fields[k].0@ == self@[k].0 && fields[k].1@ == JsonView::Text(
                        self@[k].1,
                    ),
            decreases self@.len() - i,
        {
            let (key, value) = self.entry(i);
            fields.push((key.clone(), Json::Text(value.clone())));
            i += 1;
        }
        proof {
            let wanted = with_values(self@, |value: Seq<char>| JsonView::Text(value));
            assert forall|k: int| 0 <= k < wanted.len() implies crate::json::fields_view(fields)[k]
                == wanted[k] by {
                assert(fields[k].0@ == self@[k].0);
            }
            assert(crate::json::fields_view(fields) =~= wanted);
        }
        Json::Object(fields)
    }

    /// Reads the variables from a JSON object whose values are all strings.
    pub fn from_json(json: &Json) -> (r: Option<ContextVariables>)
        ensures
            match r {
                Some(variables) => context_of_json(json@) == Some(variables@),
                None => context_of_json(json@) is None,
            },
    {
        match json {
            Json::Object(fields) => {
                let ghost all = json@->Object_0;
                let ghost texts = with_values(all, |value: JsonView| value->Text_0);
                proof {
                    crate::json::lemma_fields_view(*fields);
                }
                let mut variables = ContextVariables::new();
                let mut i: usize = 0;
                while i < fields.len()
                    invariant
                        i <= fields.len(),
                        json@ == JsonView::Object(all),
                        all == crate::json::fields_view(*fields),
                        all.len() == fields.len(),
                        texts == with_values(all, |value: JsonView| value->Text_0),
                        forall|k: int| 0 <= k < i ==> (#[trigger] all[k]).1 is Text,
                        variables@ == merged(Seq::empty(), texts.take(i as int)),
                    decreases fields.len() - i,
                {
                    assert(all[i as int] == (fields[i as int].0@, fields[i as int].1@));
                    match &fields[i].1 {
                        Json::Text(value) => {
                            variables.insert(fields[i].0.as_str(), value.clone());
                        },
                        _ => {
                            assert(!(all[i as int].1 is Text));
                            return None;
                        },
                    }
                    proof {
                        assert(texts.take(i + 1).drop_last() =~= texts.take(i as int));
                    }
                    i += 1;
                }
                proof {
                    assert(texts.take(i as int) =~= texts);
                }
                Some(variables)
            },
            _ => None,
        }
    }
}

impl Clone for ContextVariables {
    fn clone(&self) -> (r: ContextVariables)
        ensures
            r@ == self@,
    {
        let mut entries: Vec<(String, String)> = Vec::new();
        let mut i: usize = 0;
        proof {
            use_type_invariant(self);
        }
        while i < self.entries.len()
            invariant
                i <= self.entries.len(),
                entries.len() == i,
                forall|k: int| 0 <= k < i ==> entries[k] == self.entries[k],
            decreases self.entries.len() - i,
        {
            entries.push((self.entries[i].0.clone(), self.entries[i].1.clone()));
            i += 1;
        }
        assert(keyed(entries) =~= keyed(self.entries));
        ContextVariables { entries }
    }
}

} // verus!
