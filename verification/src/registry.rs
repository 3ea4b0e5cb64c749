//! The state-proof parser registry: which routines verify the replies of
//! which transaction type.

use crate::text::same_text;
use vstd::prelude::*;

verus! {

/// The verification strategy for one transaction type: a routine that parses a
/// reply into state-proof fragments and the routine that releases what the
/// first one allocated.
pub struct StateProofParser<P, R> {
    pub txn_type: String,
    pub parse: P,
    pub release: R,
}

/// Parsers by transaction type. A type has at most one parser: registering a
/// second one replaces the first.
pub struct StateProofRegistry<P, R> {
    parsers: Vec<StateProofParser<P, R>>,
}

/// Whether no two parsers in the list are for the same transaction type.
pub open spec fn one_per_type<P, R>(parsers: Seq<StateProofParser<P, R>>) -> bool {
    forall|i: int, j: int|
        0 <= i < j < parsers.len() ==> (#[trigger] parsers[i]).txn_type@ != (
        #[trigger] parsers[j]).txn_type@
}

/// Whether the list holds a parser for the transaction type.
pub open spec fn lists<P, R>(parsers: Seq<StateProofParser<P, R>>, txn_type: Seq<char>) -> bool {
    exists|i: int| 0 <= i < parsers.len() && (#[trigger] parsers[i]).txn_type@ == txn_type
}

/// The place of a transaction type's parser in the list.
pub open spec fn place<P, R>(parsers: Seq<StateProofParser<P, R>>, txn_type: Seq<char>) -> int {
    choose|i: int| 0 <= i < parsers.len() && (#[trigger] parsers[i]).txn_type@ == txn_type
}

impl<P, R> StateProofRegistry<P, R> {
    #[verifier::type_invariant]
    spec fn well_formed(&self) -> bool {
        one_per_type(self.parsers@)
    }

    /// The registered routines, by transaction type.
    pub closed spec fn view(&self) -> Map<Seq<char>, (P, R)> {
        Map::new(
            |txn_type: Seq<char>| lists(self.parsers@, txn_type),
            |txn_type: Seq<char>|
                {
                    let parser = self.parsers@[place(self.parsers@, txn_type)];
                    (parser.parse, parser.release)
                },
        )
    }

    /// A registry without parsers.
    pub fn new() -> (registry: Self)
        ensures
            registry@ == Map::<Seq<char>, (P, R)>::empty(),
    {
        let registry = StateProofRegistry { parsers: Vec::new() };
        assert(registry@ =~= Map::<Seq<char>, (P, R)>::empty());
        registry
    }

    /// Where the parser of a transaction type stands in the list, if it has one.
    fn find(&self, txn_type: &str) -> (found: Option<usize>)
        ensures
            match found {
                Some(i) => i < self.parsers@.len() && self.parsers@[i as int].txn_type@
                    == txn_type@,
                None => !lists(self.parsers@, txn_type@),
            },
    {
        let mut i: usize = 0;
        while i < self.parsers.len()
            invariant
                0 <= i <= self.parsers.len(),
                forall|k: int| 0 <= k < i ==> (#[trigger] self.parsers@[k]).txn_type@ != txn_type@,
            decreases self.parsers.len() - i,
        {
            if same_text(self.parsers[i].txn_type.as_str(), txn_type) {
                return Some(i);
            }
            i += 1;
        }
        None
    }

    /// Registers the routines for a transaction type, in place of those that
    /// were registered for it before.
    pub fn register(&mut self, txn_type: String, parse: P, release: R)
        ensures
            final(self)@ == old(self)@.insert(txn_type@, (parse, release)),
    {
        proof {
            use_type_invariant(&*self);
        }
        let ghost before = self.parsers@;
        let ghost tag = txn_type@;
        let parser = StateProofParser { txn_type, parse, release };
        let found = self.find(parser.txn_type.as_str());
        let mut parsers: Vec<StateProofParser<P, R>> = Vec::new();
        core::mem::swap(&mut self.parsers, &mut parsers);
        match found {
            Some(i) => {
                parsers.set(i, parser);
                proof {
                    let after = parsers@;
                    assert forall|t: Seq<char>| lists(after, t) <==> lists(before, t) || t
                        == tag by {
                        if lists(before, t) {
                            let k = place(before, t);
                            assert(after[k].txn_type@ == t);
                        }
                        if lists(after, t) {
                            let k = place(after, t);
                            if k != i {
                                assert(before[k].txn_type@ == t);
                            }
                        }
                        assert(after[i as int].txn_type@ == tag);
                    }
                    assert forall|t: Seq<char>| lists(after, t) && t != tag implies after[place(
                        after,
                        t,
                    )] == before[place(before, t)] by {
                        let k = place(after, t);
                        assert(before[k].txn_type@ == t);
                        let m = place(before, t);
                        assert(k == m);
                    }
                    assert(after[i as int].txn_type@ == tag);
                    assert forall|a: int, b: int| 0 <= a < b < after.len() implies (
                    #[trigger] after[a]).txn_type@ != (#[trigger] after[b]).txn_type@ by {
                        assert(after[a].txn_type@ == before[a].txn_type@);
                        assert(after[b].txn_type@ == before[b].txn_type@);
                    }
                    let k = place(after, tag);
                    assert(after[k].txn_type@ == tag);
                    assert(k == i);
                }
            },
            None => {
                parsers.push(parser);
                proof {
                    let after = parsers@;
                    let last = before.len() as int;
                    assert(after[last].txn_type@ == tag);
                    assert forall|t: Seq<char>| lists(after, t) <==> lists(before, t) || t
                        == tag by {
                        if lists(before, t) {
                            let k = place(before, t);
                            assert(after[k].txn_type@ == t);
                        }
                        if lists(after, t) {
                            let k = place(after, t);
                            if k != last {
                                assert(before[k].txn_type@ == t);
                            }
                        }
                    }
                    assert forall|t: Seq<char>| lists(after, t) && t != tag implies after[place(
                        after,
                        t,
                    )] == before[place(before, t)] by {
                        let k = place(after, t);
                        assert(before[k].txn_type@ == t);
                        let m = place(before, t);
                        assert(after[m].txn_type@ == t);
                        assert(k == m);
                    }
                    assert forall|a: int, b: int| 0 <= a < b < after.len() implies (
                    #[trigger] after[a]).txn_type@ != (#[trigger] after[b]).txn_type@ by {
                        assert(after[a] == before[a]);
                        if b < last {
                            assert(after[b] == before[b]);
                        }
                    }
                    let k = place(after, tag);
                    assert(after[k].txn_type@ == tag);
                    if k != last {
                        assert(before[k].txn_type@ == tag);
                    }
                    assert(k == last);
                }
            },
        }
        self.parsers = parsers;
        assert(self@ =~= old(self)@.insert(tag, (parse, release)));
    }

    /// The routines registered for a transaction type.
    pub fn lookup(&self, txn_type: &str) -> (found: Option<(&P, &R)>)
        ensures
            match found {
                Some((parse, release)) => self@.dom().contains(txn_type@) && self@[txn_type@] == (
                    *parse,
                    *release,
                ),
                None => !self@.dom().contains(txn_type@),
            },
    {
        proof {
            use_type_invariant(self);
        }
        match self.find(txn_type) {
            Some(i) => {
                assert(place(self.parsers@, txn_type@) == i);
                let parser = &self.parsers[i];
                Some((&parser.parse, &parser.release))
            },
            None => None,
        }
    }

    /// Whether routines are registered for a transaction type.
    pub fn is_registered(&self, txn_type: &str) -> (known: bool)
        ensures
            known == self@.dom().contains(txn_type@),
    {
        self.find(txn_type).is_some()
    }
}

} // verus!
