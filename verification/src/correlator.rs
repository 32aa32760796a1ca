//! The names of the tools called so far, by the identifier of the call.
//!
//! One backend wants a tool's result reported under the tool's name, while
//! the conversation reports it under the identifier of the call. The
//! correlator is filled while a conversation is read in order, and answers
//! with the name that the latest call under an identifier had.

use vstd::prelude::*;

use crate::text::same;
use crate::views::views;

verus! {

/// The name under which a result for `id` is reported: the name recorded
/// for `id`, or `id` itself where none was.
pub open spec fn resolved(names: Map<Seq<char>, Seq<char>>, id: Seq<char>) -> Seq<char> {
    if names.contains_key(id) {
        names[id]
    } else {
        id
    }
}

/// The map that holds each pair, a later pair replacing an earlier one
/// with the same identifier.
pub open spec fn names_of(pairs: Seq<(Seq<char>, Seq<char>)>) -> Map<Seq<char>, Seq<char>>
    decreases pairs.len(),
{
    if pairs.len() == 0 {
        Map::empty()
    } else {
        names_of(pairs.drop_last()).insert(pairs.last().0, pairs.last().1)
    }
}

/// The map from call identifier to tool name, for one pass over one
/// conversation.
pub struct Correlator {
    pairs: Vec<(String, String)>,
}

impl View for Correlator {
    type V = Map<Seq<char>, Seq<char>>;

    closed spec fn view(&self) -> Map<Seq<char>, Seq<char>> {
        names_of(views(self.pairs@))
    }
}

impl Correlator {
    /// A correlator that knows no call.
    pub fn new() -> (r: Correlator)
        ensures
            r@ == Map::<Seq<char>, Seq<char>>::empty(),
    {
        let r = Correlator { pairs: Vec::new() };
        assert(views(r.pairs@) =~= Seq::empty());
        r
    }

    /// Records that the call `id` was of the tool `name`, in place of what
    /// was recorded for `id` before.
    pub fn record(&mut self, id: &str, name: &str)
        ensures
            final(self)@ == old(self)@.insert(id@, name@),
    {
        let ghost before = views(self.pairs@);
        self.pairs.push((id.to_owned(), name.to_owned()));
        proof {
            let after = views(self.pairs@);
            assert(after.drop_last() =~= before);
            assert(after.last() == (id@, name@));
        }
    }

    /// The name under which a result for the call `id` is reported.
    pub fn resolve(&self, id: &str) -> (name: String)
        ensures
            name@ == resolved(self@, id@),
    {
        let ghost all = views(self.pairs@);
        let mut i: usize = self.pairs.len();
        assert(all.take(i as int) =~= all);
        while i > 0
            invariant
                i <= self.pairs.len(),
                all == views(self.pairs@),
                resolved(names_of(all), id@) == resolved(names_of(all.take(i as int)), id@),
            decreases i,
        {
            i -= 1;
            proof {
                let upto = all.take(i + 1);
                assert(upto.drop_last() =~= all.take(i as int));
                assert(upto.last() == all[i as int]);
            }
            if same(self.pairs[i].0.as_str(), id) {
                return self.pairs[i].1.clone();
            }
        }
        id.to_owned()
    }
}

} // verus!
