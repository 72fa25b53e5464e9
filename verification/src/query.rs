//! Query strings: `key=value` pairs joined by `&` behind a leading `?`.
//!
//! Only the parameters that are present are written. A parameter with several
//! values is written once per value, under the same key. With no parameter at
//! all the query string is empty and has no `?`.

use vstd::prelude::*;
use vstd::string::StringExecFns;
use crate::text::{bool_text, decimal, push_bool, push_decimal};

verus! {

/// One parameter as it is written: the key, `=`, the value.
pub open spec fn pair(key: Seq<char>, value: Seq<char>) -> Seq<char> {
    key + seq!['='] + value
}

/// The pairs in order, with `&` between neighbours.
pub open spec fn joined(parts: Seq<Seq<char>>) -> Seq<char>
    decreases parts.len(),
{
    if parts.len() == 0 {
        Seq::empty()
    } else if parts.len() == 1 {
        parts[0]
    } else {
        joined(parts.drop_last()) + seq!['&'] + parts.last()
    }
}

/// The query string of the pairs: empty when there is none, else `?` and the
/// joined pairs.
pub open spec fn query_string(parts: Seq<Seq<char>>) -> Seq<char> {
    if parts.len() == 0 {
        Seq::empty()
    } else {
        seq!['?'] + joined(parts)
    }
}

/// What an optional parameter contributes: its pair when present, nothing when
/// absent.
pub open spec fn optional(key: Seq<char>, value: Option<Seq<char>>) -> Seq<Seq<char>> {
    match value {
        Some(v) => seq![pair(key, v)],
        None => Seq::empty(),
    }
}

/// What a list-valued parameter contributes: one pair per value, in order, all
/// under the same key.
pub open spec fn repeated(key: Seq<char>, values: Seq<Seq<char>>) -> Seq<Seq<char>> {
    Seq::new(values.len(), |i: int| pair(key, values[i]))
}

/// The texts of a list of string slices.
pub open spec fn texts(values: Seq<&str>) -> Seq<Seq<char>> {
    Seq::new(values.len(), |i: int| values[i]@)
}

/// An optional number as the optional text of its decimal numeral.
pub open spec fn decimal_of(value: Option<u32>) -> Option<Seq<char>> {
    match value {
        Some(n) => Some(decimal(n as nat)),
        None => None,
    }
}

/// An optional boolean as the optional text `true` or `false`.
pub open spec fn bool_text_of(value: Option<bool>) -> Option<Seq<char>> {
    match value {
        Some(b) => Some(bool_text(b)),
        None => None,
    }
}

/// A query string is empty exactly when it has no parameter, and otherwise
/// begins with `?`.
pub proof fn lemma_query_string_shape(parts: Seq<Seq<char>>)
    ensures
        query_string(parts).len() == 0 <==> parts.len() == 0,
        parts.len() > 0 ==> query_string(parts)[0] == '?',
{
}

/// The parameters of one request, in the order in which they were added.
pub struct Query {
    parts: Vec<String>,
}

impl View for Query {
    type V = Seq<Seq<char>>;

    /// The pairs added so far, each as `key=value`.
    closed spec fn view(&self) -> Seq<Seq<char>> {
        Seq::new(self.parts@.len(), |i: int| self.parts@[i]@)
    }
}

impl Query {
    /// A query without parameters.
    pub fn new() -> (q: Query)
        ensures
            q@ == Seq::<Seq<char>>::empty(),
    {
        let q = Query { parts: Vec::new() };
        assert(q@ =~= Seq::<Seq<char>>::empty());
        q
    }

    /// Tells whether no parameter has been added.
    pub fn is_empty(&self) -> (b: bool)
        ensures
            b == (self@.len() == 0),
    {
        self.parts.len() == 0
    }

    /// Adds the parameter `key=value`.
    pub fn push(&mut self, key: &str, value: &str)
        ensures
            final(self)@ == old(self)@.push(pair(key@, value@)),
    {
        let mut part = String::from_str(key);
        part.push('=');
        part.append(value);
        assert(part@ =~= pair(key@, value@));
        self.parts.push(part);
        assert(self@ =~= old(self)@.push(pair(key@, value@)));
    }

    /// Adds the parameter `key=value` with the number written in decimal.
    pub fn push_number(&mut self, key: &str, value: u32)
        ensures
            final(self)@ == old(self)@.push(pair(key@, decimal(value as nat))),
    {
        let mut part = String::from_str(key);
        part.push('=');
        push_decimal(&mut part, value as u64);
        assert(part@ =~= pair(key@, decimal(value as nat)));
        self.parts.push(part);
        assert(self@ =~= old(self)@.push(pair(key@, decimal(value as nat))));
    }

    /// Adds the parameter `key=value` with the boolean written as `true` or
    /// `false`.
    pub fn push_bool(&mut self, key: &str, value: bool)
        ensures
            final(self)@ == old(self)@.push(pair(key@, bool_text(value))),
    {
        let mut part = String::from_str(key);
        part.push('=');
        push_bool(&mut part, value);
        assert(part@ =~= pair(key@, bool_text(value)));
        self.parts.push(part);
        assert(self@ =~= old(self)@.push(pair(key@, bool_text(value))));
    }

    /// Adds one parameter per value, in order, all under `key`.
    pub fn push_each(&mut self, key: &str, values: &Vec<&str>)
        ensures
            final(self)@ == old(self)@ + repeated(key@, texts(values@)),
    {
        let n = values.len();
        let mut i: usize = 0;
        assert(self@ =~= old(self)@ + repeated(key@, texts(values@)).take(0));
        while i < n
            invariant
                n == values@.len(),
                i <= n,
                self@ == old(self)@ + repeated(key@, texts(values@)).take(i as int),
            decreases n - i,
        {
            let ghost before = self@;
            self.push(key, values[i]);
            proof {
                let all = repeated(key@, texts(values@));
                assert(all.take(i as int + 1) =~= all.take(i as int).push(all[i as int]));
                assert(self@ =~= old(self)@ + all.take(i as int + 1));
            }
            i += 1;
        }
        proof {
            let all = repeated(key@, texts(values@));
            assert(all.take(n as int) =~= all);
        }
    }

    /// Writes the query string: nothing for an empty query, else `?` and the
    /// parameters joined by `&`.
    pub fn finish(&self) -> (s: String)
        ensures
            s@ == query_string(self@),
    {
        let n = self.parts.len();
        let mut out = String::new();
        if n == 0 {
            return out;
        }
        out.push('?');
        out.append(self.parts[0].as_str());
        assert(self@.take(1) =~= seq![self@[0]]);
        assert(out@ =~= seq!['?'] + joined(self@.take(1)));
        let mut i: usize = 1;
        while i < n
            invariant
                n == self.parts@.len(),
                n == self@.len(),
                1 <= i <= n,
                out@ == seq!['?'] + joined(self@.take(i as int)),
            decreases n - i,
        {
            out.push('&');
            out.append(self.parts[i].as_str());
            proof {
                let next = self@.take(i as int + 1);
                assert(next.drop_last() =~= self@.take(i as int));
                assert(next.last() == self@[i as int]);
                assert(out@ =~= seq!['?'] + joined(next));
            }
            i += 1;
        }
        assert(self@.take(n as int) =~= self@);
        out
    }
}

} // verus!
