use vstd::prelude::*;

use crate::text::copy_string;

verus! {

/// One line of the transcript: `speaker: utterance`.
pub open spec fn entry_line(e: (Seq<char>, Seq<char>)) -> Seq<char> {
    e.0 + ": "@ + e.1
}

/// The transcript as one string: the first line as it is, each later line
/// after a newline and two spaces.
pub open spec fn transcript(entries: Seq<(Seq<char>, Seq<char>)>) -> Seq<char>
    decreases entries.len(),
{
    if entries.len() == 0 {
        Seq::empty()
    } else if entries.len() == 1 {
        entry_line(entries[0])
    } else {
        transcript(entries.drop_last()) + "\n  "@ + entry_line(entries.last())
    }
}

/// The conversation so far, as `(speaker, utterance)` pairs in order.
pub struct History {
    entries: Vec<(String, String)>,
}

impl View for History {
    type V = Seq<(Seq<char>, Seq<char>)>;

    closed spec fn view(&self) -> Seq<(Seq<char>, Seq<char>)> {
        self.entries@.map_values(|e: (String, String)| (e.0@, e.1@))
    }
}

impl History {
    pub fn new() -> (r: History)
        ensures
            r@ == Seq::<(Seq<char>, Seq<char>)>::empty(),
    {
        let r = History { entries: Vec::new() };
        assert(r@ =~= Seq::<(Seq<char>, Seq<char>)>::empty());
        r
    }

    pub fn len(&self) -> (r: usize)
        ensures
            r == self@.len(),
    {
        self.entries.len()
    }

    /// Adds `speaker: text` at the end.
    pub fn append(&mut self, speaker: &String, text: &String)
        ensures
            final(self)@ == old(self)@.push((speaker@, text@)),
    {
        let ghost prev = self.entries@;
        self.entries.push((copy_string(speaker), copy_string(text)));
        assert(self@ =~= old(self)@.push((speaker@, text@))) by {
            assert(self.entries@ == prev.push(self.entries@.last()));
        }
    }

    /// Forgets every entry.
    pub fn reset(&mut self)
        ensures
            final(self)@ == Seq::<(Seq<char>, Seq<char>)>::empty(),
    {
        self.entries = Vec::new();
        assert(self@ =~= Seq::<(Seq<char>, Seq<char>)>::empty());
    }

    /// The transcript as one string.
    pub fn render(&self) -> (r: String)
        ensures
            r@ == transcript(self@),
    {
        let mut out = String::new();
        let mut i: usize = 0;
        while i < self.entries.len()
            invariant
                i <= self.entries.len(),
                self@.len() == self.entries.len(),
                out@ == transcript(self@.subrange(0, i as int)),
            decreases self.entries.len() - i,
        {
            let ghost sub = self@.subrange(0, i + 1);
            proof {
                assert(sub.drop_last() =~= self@.subrange(0, i as int));
                assert(self@[i as int] == (self.entries@[i as int].0@, self.entries@[i as int].1@));
            }
            if i > 0 {
                out.append("\n  ");
            }
            out.append(self.entries[i].0.as_str());
            out.append(": ");
            out.append(self.entries[i].1.as_str());
            proof {
                if i == 0 {
                    assert(out@ =~= entry_line(sub[0]));
                } else {
                    assert(out@ =~= transcript(sub.drop_last()) + "\n  "@ + entry_line(sub.last()));
                }
            }
            i = i + 1;
        }
        assert(self@.subrange(0, i as int) =~= self@);
        out
    }
}

} // verus!
