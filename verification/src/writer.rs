//! Assembling JSON objects and arrays from the texts of their parts.

use vstd::prelude::*;
use vstd::string::*;

verus! {

/// The parts in order, with a comma between neighbours.
pub open spec fn joined(parts: Seq<Seq<char>>) -> Seq<char>
    decreases parts.len(),
{
    if parts.len() == 0 {
        Seq::empty()
    } else if parts.len() == 1 {
        parts[0]
    } else {
        joined(parts.drop_last()) + ","@ + parts.last()
    }
}

/// One member of an object: the key in quotes, a colon, the value's text.
pub open spec fn member_text(key: Seq<char>, value: Seq<char>) -> Seq<char> {
    "\""@ + key + "\":"@ + value
}

/// The text of each member of a list of (key, value text) pairs.
pub open spec fn members_text(members: Seq<(Seq<char>, Seq<char>)>) -> Seq<Seq<char>> {
    Seq::new(members.len(), |i: int| member_text(members[i].0, members[i].1))
}

/// The keys of a list of (key, value text) pairs.
pub open spec fn keys_of(members: Seq<(Seq<char>, Seq<char>)>) -> Seq<Seq<char>> {
    Seq::new(members.len(), |i: int| members[i].0)
}

/// An object with the given members, in their order.
pub open spec fn object_text(members: Seq<(Seq<char>, Seq<char>)>) -> Seq<char> {
    "{"@ + joined(members_text(members)) + "}"@
}

/// An array with the given element texts, in their order.
pub open spec fn array_text(elements: Seq<Seq<char>>) -> Seq<char> {
    "["@ + joined(elements) + "]"@
}

/// The contents of a vector of strings.
pub open spec fn texts_of(texts: Seq<String>) -> Seq<Seq<char>> {
    Seq::new(texts.len(), |i: int| texts[i]@)
}

/// Writes one JSON object, member by member. Its view is the list of members
/// written so far, each a key and the JSON text of its value.
pub struct ObjectWriter {
    buf: String,
    empty: bool,
    members: Ghost<Seq<(Seq<char>, Seq<char>)>>,
}

impl ObjectWriter {
    /// The members written so far.
    pub closed spec fn view(&self) -> Seq<(Seq<char>, Seq<char>)> {
        self.members@
    }

    /// The buffer holds the opening brace and the members written so far.
    #[verifier::type_invariant]
    spec fn wf(&self) -> bool {
        &&& self.buf@ == "{"@ + joined(members_text(self.members@))
        &&& self.empty == (self.members@.len() == 0)
    }

    /// A writer with no member yet.
    pub fn new() -> (w: Self)
        ensures
            w@ == Seq::<(Seq<char>, Seq<char>)>::empty(),
    {
        let mut buf = String::new();
        buf.append("{");
        proof {
            assert(members_text(Seq::empty()) =~= Seq::empty());
            assert(buf@ =~= "{"@ + joined(members_text(Seq::empty())));
        }
        ObjectWriter { buf, empty: true, members: Ghost(Seq::empty()) }
    }

    /// Adds a member. `key` is written between quotes as it is; `value` is the
    /// JSON text of the member's value.
    pub fn member(self, key: &str, value: &str) -> (w: Self)
        ensures
            w@ == self@.push((key@, value@)),
    {
        proof {
            use_type_invariant(&self);
        }
        let ghost before = self.members@;
        let ghost after = before.push((key@, value@));
        let was_empty = self.empty;
        let mut buf = self.buf;
        if !was_empty {
            buf.append(",");
        }
        buf.append("\"");
        buf.append(key);
        buf.append("\":");
        buf.append(value);
        proof {
            let parts = members_text(after);
            assert(parts.drop_last() =~= members_text(before));
            assert(parts.last() == member_text(key@, value@));
            assert(buf@ =~= "{"@ + joined(parts));
        }
        ObjectWriter { buf, empty: false, members: Ghost(after) }
    }

    /// Closes the object and hands out its text.
    pub fn finish(self) -> (s: String)
        ensures
            s@ == object_text(self@),
    {
        proof {
            use_type_invariant(&self);
        }
        let mut buf = self.buf;
        buf.append("}");
        buf
    }
}

/// The JSON array whose elements are the given texts, in their order.
pub fn array_of(texts: &Vec<String>) -> (s: String)
    ensures
        s@ == array_text(texts_of(texts@)),
{
    let mut buf = String::new();
    buf.append("[");
    let ghost parts = texts_of(texts@);
    let mut i: usize = 0;
    proof {
        assert(buf@ =~= "["@ + joined(parts.take(0)));
    }
    while i < texts.len()
        invariant
            i <= texts.len(),
            parts == texts_of(texts@),
            buf@ == "["@ + joined(parts.take(i as int)),
        decreases texts.len() - i,
    {
        if i > 0 {
            buf.append(",");
        }
        buf.append(texts[i].as_str());
        proof {
            let next = parts.take(i + 1);
            assert(next.drop_last() =~= parts.take(i as int));
            assert(next.last() == texts@[i as int]@);
            assert(buf@ =~= "["@ + joined(next));
        }
        i += 1;
    }
    proof {
        assert(parts.take(i as int) =~= parts);
    }
    buf.append("]");
    buf
}

} // verus!
