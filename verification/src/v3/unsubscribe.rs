//! How unsubscribes are handled for a message.

use std::collections::HashSet;
use vstd::prelude::*;
use vstd::std_specs::iter::IteratorSpec;
use crate::error::{SendgridError, SendgridResult};
use crate::json::{
    decimal, docs_of, field, lemma_docs_of_push, members_of, put, JsonDoc, JsonValue, Members,
    Number, ToJson,
};

verus! {

/// The most groups that can be shown on the unsubscribe preferences page.
pub const MAX_GROUPS_TO_DISPLAY: usize = 25;

/// What an [`ASM`] holds.
pub struct AsmView {
    pub group_id: u32,
    pub groups_to_display: Seq<u32>,
}

/// An array of numbers.
pub open spec fn numbers_doc(items: Seq<u32>) -> JsonDoc {
    JsonDoc::Array(items.map_values(|n: u32| JsonDoc::Number(decimal(n as nat))))
}

impl AsmView {
    /// Whether the groups to display are few enough, and none occurs twice.
    pub open spec fn wf(self) -> bool {
        &&& self.groups_to_display.len() <= MAX_GROUPS_TO_DISPLAY
        &&& self.groups_to_display.no_duplicates()
    }

    /// The members of the setting: `group_id` and `groups_to_display`.
    pub open spec fn members(self) -> Members {
        field("group_id"@, JsonDoc::Number(decimal(self.group_id as nat))) + field(
            "groups_to_display"@,
            numbers_doc(self.groups_to_display),
        )
    }
}

/// An object allowing you to specify how to handle unsubscribes.
#[derive(Debug)]
pub struct ASM {
    group_id: u32,
    groups_to_display: Vec<u32>,
}

impl View for ASM {
    type V = AsmView;

    closed spec fn view(&self) -> AsmView {
        AsmView { group_id: self.group_id, groups_to_display: self.groups_to_display@ }
    }
}

impl ASM {
    #[verifier::type_invariant]
    spec fn well_formed(self) -> bool {
        self@.wf()
    }

    /// Construct an object allowing you to specify how to handle unsubscribes.
    pub fn new() -> (r: Self)
        ensures
            r@ == (AsmView { group_id: 0, groups_to_display: Seq::empty() }),
    {
        ASM { group_id: 0, groups_to_display: Vec::new() }
    }

    /// The number of groups to display: 25 at most, and each of them once.
    pub fn group_count(&self) -> (n: usize)
        ensures
            n == self@.groups_to_display.len(),
            self@.wf(),
    {
        proof {
            use_type_invariant(self);
        }
        self.groups_to_display.len()
    }

    /// The unsubscribe group to associate with this email.
    pub fn set_group_id(self, group_id: u32) -> (r: Self)
        ensures
            r@ == (AsmView { group_id: group_id, ..self@ }),
    {
        proof {
            use_type_invariant(&self);
        }
        let mut r = self;
        r.group_id = group_id;
        r
    }

    /// A set containing the unsubscribe groups that you would like to be displayed on the
    /// unsubscribe preferences page. More than 25 are refused.
    pub fn set_groups_to_display(self, groups_to_display: HashSet<u32>) -> (r: SendgridResult<Self>)
        ensures
            r is Ok <==> groups_to_display@.len() <= MAX_GROUPS_TO_DISPLAY,
            r matches Err(e) ==> e is TooManyItems,
            r matches Ok(settings) ==> {
                &&& settings@.group_id == self@.group_id
                &&& settings@.groups_to_display.to_set() == groups_to_display@
                &&& settings@.wf()
            },
    {
        broadcast use vstd::std_specs::hash::group_hash_axioms;

        if groups_to_display.len() > MAX_GROUPS_TO_DISPLAY {
            return Err(SendgridError::TooManyItems);
        }
        let ghost keys = vstd::std_specs::hash::spec_hash_keys_iter(&groups_to_display).remaining();
        let mut groups: Vec<u32> = Vec::new();
        for group in iter: groups_to_display.iter()
            invariant
                iter.seq() == keys,
                groups@ == keys.unref().take(iter.index() as int),
        {
            assert(keys.unref().take(iter.index() + 1) =~= keys.unref().take(iter.index() as int).push(
                *group,
            ));
            groups.push(*group);
        }
        proof {
            use_type_invariant(&self);
            assert(groups@ =~= keys.unref());
            assert(keys.unref().no_duplicates()) by {
                assert forall|i: int, j: int|
                    0 <= i < keys.len() && 0 <= j < keys.len() && i != j implies keys.unref()[i]
                    != keys.unref()[j] by {
                    assert(keys[i] != keys[j]);
                }
            }
        }
        let mut r = self;
        r.groups_to_display = groups;
        Ok(r)
    }
}

impl Default for ASM {
    fn default() -> (r: Self)
        ensures
            r@ == (AsmView { group_id: 0, groups_to_display: Seq::empty() }),
    {
        ASM::new()
    }
}

impl ToJson for ASM {
    open spec fn doc(&self) -> JsonDoc {
        JsonDoc::Object(self@.members())
    }

    fn to_json(&self) -> (v: JsonValue) {
        let ghost target = self.groups_to_display@.map_values(
            |n: u32| JsonDoc::Number(decimal(n as nat)),
        );
        let mut values: Vec<JsonValue> = Vec::new();
        let mut i: usize = 0;
        assert(docs_of(values@) =~= target.take(0));
        while i < self.groups_to_display.len()
            invariant
                i <= self.groups_to_display.len(),
                target == self.groups_to_display@.map_values(
                    |n: u32| JsonDoc::Number(decimal(n as nat)),
                ),
                docs_of(values@) == target.take(i as int),
            decreases self.groups_to_display.len() - i,
        {
            let value = JsonValue::Number(Number::from_u64(self.groups_to_display[i] as u64));
            proof {
                lemma_docs_of_push(values@, value);
                assert(target.take(i as int).push(value@) =~= target.take(i as int + 1));
            }
            values.push(value);
            i = i + 1;
        }
        assert(target.take(self.groups_to_display@.len() as int) =~= target);
        let mut members: Vec<(String, JsonValue)> = Vec::new();
        assert(members_of(members@) =~= Members::empty());
        put(&mut members, "group_id", JsonValue::Number(Number::from_u64(self.group_id as u64)));
        put(&mut members, "groups_to_display", JsonValue::Array(values));
        assert(members_of(members@) =~= self@.members());
        JsonValue::Object(members)
    }
}

} // verus!
