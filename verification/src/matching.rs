//! Application-context classification: an ordered table of match rules over
//! message fields and the root verifier address, mapping to a label. The
//! first matching rule wins; no match yields no label.

use vstd::prelude::*;

use crate::message::AetheriumMessage;
use crate::primitives::H256;

verus! {

broadcast use vstd::array::group_array_axioms;

/// A single field pattern: match anything, or one of the listed values.
#[derive(Debug, Clone)]
pub enum Filter<T> {
    Wildcard,
    Enumerated(Vec<T>),
}

/// Whether a domain filter accepts a domain id.
pub open spec fn spec_filter_matches_u32(f: Filter<u32>, v: u32) -> bool {
    match f {
        Filter::Wildcard => true,
        Filter::Enumerated(l) => l@.contains(v),
    }
}

/// Whether an address filter accepts an address.
pub open spec fn spec_filter_matches_h256(f: Filter<H256>, v: H256) -> bool {
    match f {
        Filter::Wildcard => true,
        Filter::Enumerated(l) => l@.contains(v),
    }
}

#[verifier::loop_isolation(false)]
fn filter_matches_u32(f: &Filter<u32>, v: u32) -> (r: bool)
    ensures
        r == spec_filter_matches_u32(*f, v),
{
    match f {
        Filter::Wildcard => true,
        Filter::Enumerated(l) => {
            let len = l.len();
            let mut i: usize = 0;
            while i < len
                invariant
                    i <= len == l@.len(),
                    forall|j: int| 0 <= j < i ==> l@[j] != v,
                decreases len - i,
            {
                if l[i] == v {
                    proof {
                        assert(l@.contains(v)) by {
                            assert(l@[i as int] == v);
                        }
                    }
                    return true;
                }
                i = i + 1;
            }
            proof {
                assert(!l@.contains(v));
            }
            false
        },
    }
}

#[verifier::loop_isolation(false)]
fn filter_matches_h256(f: &Filter<H256>, v: H256) -> (r: bool)
    ensures
        r == spec_filter_matches_h256(*f, v),
{
    match f {
        Filter::Wildcard => true,
        Filter::Enumerated(l) => {
            let len = l.len();
            let mut i: usize = 0;
            while i < len
                invariant
                    i <= len == l@.len(),
                    forall|j: int| 0 <= j < i ==> l@[j] != v,
                decreases len - i,
            {
                if l[i] == v {
                    proof {
                        assert(l@[i as int].0@ == v.0@);
                        assert(l@[i as int].0 == v.0);
                        assert(l@.contains(v)) by {
                            assert(l@[i as int] == v);
                        }
                    }
                    return true;
                }
                proof {
                    assert(l@[i as int].0@ != v.0@);
                    if l@[i as int] == v {
                        assert(l@[i as int].0@ == v.0@);
                    }
                }
                i = i + 1;
            }
            proof {
                assert(!l@.contains(v));
            }
            false
        },
    }
}

/// One rule of the policy table: five independently wildcardable patterns
/// over the message fields and the verifier address.
#[derive(Debug, Clone)]
pub struct ListElement {
    pub origin_domain: Filter<u32>,
    pub sender_address: Filter<H256>,
    pub destination_domain: Filter<u32>,
    pub recipient_address: Filter<H256>,
    pub verifier_address: Filter<H256>,
}

impl ListElement {
    /// Builds a rule from its five patterns, in message-field order.
    pub fn new(
        origin_domain: Filter<u32>,
        sender_address: Filter<H256>,
        destination_domain: Filter<u32>,
        recipient_address: Filter<H256>,
        verifier_address: Filter<H256>,
    ) -> (r: ListElement)
        ensures
            r.origin_domain == origin_domain,
            r.sender_address == sender_address,
            r.destination_domain == destination_domain,
            r.recipient_address == recipient_address,
            r.verifier_address == verifier_address,
    {
        ListElement {
            origin_domain,
            sender_address,
            destination_domain,
            recipient_address,
            verifier_address,
        }
    }
}

/// Whether a rule accepts the message together with the verifier address.
pub open spec fn spec_element_matches(e: ListElement, m: AetheriumMessage, verifier: H256) -> bool {
    &&& spec_filter_matches_u32(e.origin_domain, m.origin)
    &&& spec_filter_matches_h256(e.sender_address, m.sender)
    &&& spec_filter_matches_u32(e.destination_domain, m.destination)
    &&& spec_filter_matches_h256(e.recipient_address, m.recipient)
    &&& spec_filter_matches_h256(e.verifier_address, verifier)
}

fn element_matches(e: &ListElement, m: &AetheriumMessage, verifier: H256) -> (r: bool)
    ensures
        r == spec_element_matches(*e, *m, verifier),
{
    filter_matches_u32(&e.origin_domain, m.origin) && filter_matches_h256(
        &e.sender_address,
        m.sender,
    ) && filter_matches_u32(&e.destination_domain, m.destination) && filter_matches_h256(
        &e.recipient_address,
        m.recipient,
    ) && filter_matches_h256(&e.verifier_address, verifier)
}

/// An ordered list of rules; an absent list accepts everything.
#[derive(Debug, Clone)]
pub struct MatchingList(pub Option<Vec<ListElement>>);

/// Whether the list accepts the message and verifier: an absent list always
/// does, a present list when some rule of it does.
pub open spec fn spec_list_matches(l: MatchingList, m: AetheriumMessage, verifier: H256) -> bool {
    match l.0 {
        Option::None => true,
        Option::Some(rules) => exists|i: int|
            0 <= i < rules@.len() && spec_element_matches(#[trigger] rules@[i], m, verifier),
    }
}

impl MatchingList {
    /// Whether this list accepts the message and verifier.
    #[verifier::loop_isolation(false)]
    pub fn matches(&self, m: &AetheriumMessage, verifier: H256) -> (r: bool)
        ensures
            r == spec_list_matches(*self, *m, verifier),
    {
        match &self.0 {
            Option::None => true,
            Option::Some(rules) => {
                let len = rules.len();
                let mut i: usize = 0;
                while i < len
                    invariant
                        i <= len == rules@.len(),
                        forall|j: int| 0 <= j < i ==> !spec_element_matches(
                            #[trigger] rules@[j],
                            *m,
                            verifier,
                        ),
                    decreases len - i,
                {
                    if element_matches(&rules[i], m, verifier) {
                        proof {
                            assert(spec_element_matches(rules@[i as int], *m, verifier));
                        }
                        return true;
                    }
                    i = i + 1;
                }
                false
            },
        }
    }
}

/// The label of the first list accepting the message and verifier.
pub open spec fn spec_app_context(
    lists: Seq<(MatchingList, String)>,
    m: AetheriumMessage,
    verifier: H256,
) -> Option<String>
    decreases lists.len(),
{
    if lists.len() == 0 {
        Option::None
    } else if spec_list_matches(lists[0].0, m, verifier) {
        Option::Some(lists[0].1)
    } else {
        spec_app_context(lists.drop_first(), m, verifier)
    }
}

/// Assigns an optional application label to a (message, root verifier) pair
/// by first match over an ordered rule table.
#[derive(Debug, Clone)]
pub struct IsmAwareAppContextClassifier {
    pub app_matching_lists: Vec<(MatchingList, String)>,
}

impl IsmAwareAppContextClassifier {
    /// Builds a classifier over the given ordered rule table.
    pub fn new(app_matching_lists: Vec<(MatchingList, String)>) -> (r: IsmAwareAppContextClassifier)
        ensures
            r.app_matching_lists@ == app_matching_lists@,
    {
        IsmAwareAppContextClassifier { app_matching_lists }
    }

    /// The label of the first rule table entry whose list accepts the message
    /// and root verifier; nothing when none does.
    #[verifier::loop_isolation(false)]
    pub fn get_app_context(&self, message: &AetheriumMessage, root_ism: H256) -> (r: Option<String>)
        ensures
            match r {
                Some(label) => spec_app_context(self.app_matching_lists@, *message, root_ism)
                    matches Some(l) && l@ == label@,
                None => spec_app_context(self.app_matching_lists@, *message, root_ism) is None,
            },
    {
        let lists = &self.app_matching_lists;
        let len = lists.len();
        proof {
            assert(lists@.skip(0) =~= lists@);
        }
        let mut i: usize = 0;
        while i < len
            invariant
                i <= len == lists@.len(),
                spec_app_context(lists@, *message, root_ism) == spec_app_context(
                    lists@.skip(i as int),
                    *message,
                    root_ism,
                ),
            decreases len - i,
        {
            proof {
                assert(lists@.skip(i as int)[0] == lists@[i as int]);
                assert(lists@.skip(i as int).drop_first() =~= lists@.skip(i + 1));
            }
            if lists[i].0.matches(message, root_ism) {
                proof {
                    assert(spec_app_context(lists@.skip(i as int), *message, root_ism) == Some(
                        lists@[i as int].1,
                    ));
                }
                return Some(lists[i].1.clone());
            }
            i = i + 1;
        }
        proof {
            assert(lists@.skip(len as int) =~= Seq::<(MatchingList, String)>::empty());
        }
        None
    }
}

} // verus!
