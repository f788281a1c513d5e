//! The headers of a record, in the order in which they were added.

use vstd::prelude::*;
use crate::record_header::RecordHeader;

verus! {

#[derive(Clone)]
pub struct RecordHeaders(Vec<RecordHeader>);

impl View for RecordHeaders {
    type V = Seq<RecordHeader>;

    closed spec fn view(&self) -> Seq<RecordHeader> {
        self.0@
    }
}

/// The place of the last header of the run that has the key; -1 where none
/// has it.
pub open spec fn last_with(headers: Seq<RecordHeader>, key: Seq<char>) -> int
    decreases headers.len(),
{
    if headers.len() == 0 {
        -1
    } else if headers.last().key@ == key {
        headers.len() - 1
    } else {
        last_with(headers.drop_last(), key)
    }
}

/// The last header with the key has the key, and no header after it has.
pub proof fn lemma_last_with(headers: Seq<RecordHeader>, key: Seq<char>)
    ensures
        -1 <= last_with(headers, key) < headers.len(),
        last_with(headers, key) >= 0 ==> headers[last_with(headers, key)].key@ == key,
        forall|i: int|
            last_with(headers, key) < i < headers.len() ==> (#[trigger] headers[i]).key@ != key,
    decreases headers.len(),
{
    if headers.len() > 0 && headers.last().key@ != key {
        lemma_last_with(headers.drop_last(), key);
        assert(forall|i: int|
            0 <= i < headers.len() - 1 ==> headers.drop_last()[i] == #[trigger] headers[i]);
    }
}

impl Default for RecordHeaders {
    /// No headers.
    fn default() -> (headers: Self)
        ensures
            headers@ == Seq::<RecordHeader>::empty(),
    {
        RecordHeaders(Vec::new())
    }
}

impl RecordHeaders {
    /// How many headers there are.
    pub fn len(&self) -> (n: usize)
        ensures
            n == self@.len(),
    {
        self.0.len()
    }

    /// All the headers, in their order.
    pub fn to_array(&self) -> (all: &[RecordHeader])
        ensures
            all@ == self@,
    {
        self.0.as_slice()
    }

    /// Adds a header after the others.
    pub fn add(&mut self, header: RecordHeader)
        ensures
            final(self)@ == old(self)@.push(header),
    {
        self.0.push(header);
    }

    /// Takes out every header that has the key; the others keep their order.
    pub fn remove(&mut self, key: &String)
        ensures
            final(self)@ == old(self)@.filter(|h: RecordHeader| h.key@ != key@),
    {
        let ghost before = self@;
        let ghost keeps = |h: RecordHeader| h.key@ != key@;
        let mut i: usize = self.0.len();
        let mut kept: Vec<RecordHeader> = Vec::new();
        proof {
            reveal(Seq::filter);
            assert(before.take(i as int) =~= before);
        }
        // The headers are taken off the end one by one; `kept` gathers, in
        // reverse, those that stay.
        while i > 0
            invariant
                i == self.0.len(),
                i <= before.len(),
                self.0@ == before.take(i as int),
                keeps == (|h: RecordHeader| h.key@ != key@),
                before.take(i as int).filter(keeps) + kept@.reverse() == before.filter(keeps),
            decreases i,
        {
            let header = self.0.pop().unwrap();
            proof {
                reveal(Seq::filter);
                let upto = before.take(i as int);
                assert(upto.drop_last() =~= before.take(i - 1));
                assert(upto.last() == header);
                if keeps(header) {
                    assert(kept@.push(header).reverse() =~= seq![header] + kept@.reverse());
                    assert(upto.filter(keeps) =~= before.take(i - 1).filter(keeps).push(header));
                    assert(before.take(i - 1).filter(keeps) + (seq![header] + kept@.reverse())
                        =~= upto.filter(keeps) + kept@.reverse());
                }
            }
            if header.key != *key {
                kept.push(header);
            }
            i = i - 1;
        }
        proof {
            reveal(Seq::filter);
            assert(before.take(0).filter(keeps) =~= Seq::<RecordHeader>::empty());
            assert(kept@.reverse() =~= before.filter(keeps));
        }
        let ghost gathered = kept@;
        while kept.len() > 0
            invariant
                kept.len() <= gathered.len(),
                kept@ == gathered.take(kept.len() as int),
                self.0@ == gathered.reverse().take(gathered.len() - kept.len()),
            decreases kept.len(),
        {
            let ghost n = kept.len() as int;
            let header = kept.pop().unwrap();
            self.0.push(header);
            proof {
                assert(kept@ =~= gathered.take(n - 1));
                assert(self.0@ =~= gathered.reverse().take(gathered.len() - n + 1));
            }
        }
        proof {
            assert(self.0@ =~= gathered.reverse());
        }
    }

    /// The last header that has the key: no header after it has the key, and
    /// where there is none, no header has it.
    pub fn last_header(&self, key: &String) -> (found: Option<&RecordHeader>)
        ensures
            match found {
                Some(header) => {
                    &&& 0 <= last_with(self@, key@) < self@.len()
                    &&& *header == self@[last_with(self@, key@)]
                    &&& header.key@ == key@
                    &&& forall|i: int|
                        last_with(self@, key@) < i < self@.len() ==> (#[trigger] self@[i]).key@
                            != key@
                },
                None => forall|i: int| 0 <= i < self@.len() ==> (#[trigger] self@[i]).key@ != key@,
            },
    {
        let mut i: usize = self.0.len();
        proof {
            assert(self@.take(i as int) =~= self@);
        }
        while i > 0
            invariant
                i <= self.0.len(),
                last_with(self@, key@) == last_with(self@.take(i as int), key@),
            decreases i,
        {
            proof {
                assert(self@.take(i as int).drop_last() =~= self@.take(i - 1));
            }
            if self.0[i - 1].key == *key {
                proof {
                    lemma_last_with(self@, key@);
                }
                return Some(&self.0[i - 1]);
            }
            i = i - 1;
        }
        proof {
            lemma_last_with(self@, key@);
        }
        None
    }

    /// The headers that have the key, in their order.
    pub fn headers(&self, key: &String) -> (found: Vec<&RecordHeader>)
        ensures
            found@.len() == self@.filter(|h: RecordHeader| h.key@ == key@).len(),
            forall|i: int|
                0 <= i < found@.len() ==> *#[trigger] found@[i] == self@.filter(
                    |h: RecordHeader| h.key@ == key@,
                )[i],
    {
        let ghost has = |h: RecordHeader| h.key@ == key@;
        let mut found: Vec<&RecordHeader> = Vec::new();
        let mut i: usize = 0;
        proof {
            reveal(Seq::filter);
        }
        while i < self.0.len()
            invariant
                i <= self.0.len(),
                has == (|h: RecordHeader| h.key@ == key@),
                found@.len() == self@.take(i as int).filter(has).len(),
                forall|j: int|
                    0 <= j < found@.len() ==> *#[trigger] found@[j] == self@.take(i as int).filter(
                        has,
                    )[j],
            decreases self.0.len() - i,
        {
            proof {
                reveal(Seq::filter);
                assert(self@.take(i + 1).drop_last() =~= self@.take(i as int));
            }
            if self.0[i].key == *key {
                found.push(&self.0[i]);
            }
            i = i + 1;
        }
        proof {
            assert(self@.take(i as int) =~= self@);
        }
        found
    }
}

} // verus!
