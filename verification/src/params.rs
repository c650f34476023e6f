//! Query parameters: a string-keyed map and the `a=b&c=d` parser that
//! fills it.

use vstd::prelude::*;
use vstd::string::StringExecFns;
use crate::text::{chars_of, push_char, string_from_chars};

verus! {

// ---------------------------------------------------------------------------
// The map
// ---------------------------------------------------------------------------

/// A map from parameter names to parameter values. A name occurs at most once.
pub struct ParamMap {
    entries: Vec<(String, String)>,
}

impl ParamMap {
    #[verifier::type_invariant]
    spec fn names_distinct(self) -> bool {
        forall|i: int, j: int|
            0 <= i < j < self.entries@.len() ==> #[trigger] self.entries@[i].0@
                != #[trigger] self.entries@[j].0@
    }

    spec fn has_name_at(self, k: Seq<char>, i: int) -> bool {
        0 <= i < self.entries@.len() && self.entries@[i].0@ == k
    }

    /// The parameters as a map from name to value.
    pub closed spec fn view(&self) -> Map<Seq<char>, Seq<char>> {
        Map::new(
            |k: Seq<char>| exists|i: int| self.has_name_at(k, i),
            |k: Seq<char>| self.entries@[choose|i: int| self.has_name_at(k, i)].1@,
        )
    }

    /// An empty map.
    pub fn new() -> (m: ParamMap)
        ensures
            m@ == Map::<Seq<char>, Seq<char>>::empty(),
    {
        let m = ParamMap { entries: Vec::new() };
        assert(m@ =~= Map::<Seq<char>, Seq<char>>::empty());
        m
    }

    /// The number of parameters.
    pub fn len(&self) -> (n: usize)
        ensures
            n == self@.len(),
    {
        proof {
            use_type_invariant(self);
            self.lemma_len();
        }
        self.entries.len()
    }

    proof fn lemma_len(&self)
        requires
            self.names_distinct(),
        ensures
            self@.dom().finite(),
            self@.len() == self.entries@.len(),
        decreases self.entries@.len(),
    {
        let keys = Seq::new(self.entries@.len(), |i: int| self.entries@[i].0@);
        assert forall|i: int, j: int| 0 <= i < j < keys.len() implies keys[i] != keys[j] by {
            assert(self.entries@[i].0@ != self.entries@[j].0@);
        }
        keys.unique_seq_to_set();
        assert forall|k: Seq<char>| self@.dom().contains(k) <==> keys.to_set().contains(k) by {
            if self@.dom().contains(k) {
                let i = choose|i: int| self.has_name_at(k, i);
                assert(keys[i] == k);
            }
            if keys.to_set().contains(k) {
                let i = choose|i: int| 0 <= i < keys.len() && keys[i] == k;
                assert(self.has_name_at(k, i));
            }
        }
        assert(self@.dom() =~= keys.to_set());
    }

    fn find(&self, name: &String) -> (r: Option<usize>)
        ensures
            match r {
                Some(i) => self.has_name_at(name@, i as int),
                None => forall|i: int| !self.has_name_at(name@, i),
            },
    {
        let mut i: usize = 0;
        while i < self.entries.len()
            invariant
                i <= self.entries@.len(),
                forall|j: int| 0 <= j < i ==> self.entries@[j].0@ != name@,
            decreases self.entries.len() - i,
        {
            if self.entries[i].0 == *name {
                return Some(i);
            }
            i += 1;
        }
        None
    }

    /// The value of the parameter called `name`, if there is one.
    pub fn get(&self, name: &str) -> (r: Option<&String>)
        ensures
            match r {
                Some(v) => self@.contains_key(name@) && v@ == self@[name@],
                None => !self@.contains_key(name@),
            },
    {
        proof {
            use_type_invariant(self);
        }
        let key = String::from_str(name);
        match self.find(&key) {
            Some(i) => {
                proof {
                    let j = choose|j: int| self.has_name_at(name@, j);
                    assert(j == i);
                }
                Some(&self.entries[i].1)
            },
            None => None,
        }
    }

    /// Sets the parameter `name` to `value`, replacing an earlier value.
    pub fn insert(&mut self, name: String, value: String)
        ensures
            final(self)@ == old(self)@.insert(name@, value@),
    {
        proof {
            use_type_invariant(&*self);
        }
        let ghost pre = *self;
        let ghost k = name@;
        let ghost v = value@;
        match self.find(&name) {
            Some(i) => {
                let mut entries = Vec::new();
                std::mem::swap(&mut entries, &mut self.entries);
                entries.set(i, (name, value));
                self.entries = entries;
                proof {
                    assert forall|key: Seq<char>| #[trigger]
                        self@.dom().contains(key) == pre@.insert(k, v).dom().contains(key) by {
                        if pre@.dom().contains(key) {
                            let j = choose|j: int| pre.has_name_at(key, j);
                            assert(self.has_name_at(key, j));
                        }
                        if self@.dom().contains(key) {
                            let j = choose|j: int| self.has_name_at(key, j);
                            if j != i {
                                assert(pre.has_name_at(key, j));
                            }
                        }
                    }
                    assert forall|key: Seq<char>| #[trigger] self@.dom().contains(key) implies
                        self@[key] == pre@.insert(k, v)[key] by {
                        let j = choose|j: int| self.has_name_at(key, j);
                        if key == k {
                            assert(self.has_name_at(key, i as int));
                        } else {
                            assert(pre.has_name_at(key, j));
                            let j2 = choose|j2: int| pre.has_name_at(key, j2);
                            assert(j2 == j);
                        }
                    }
                    assert(self@ =~= pre@.insert(k, v));
                }
            },
            None => {
                let mut entries = Vec::new();
                std::mem::swap(&mut entries, &mut self.entries);
                entries.push((name, value));
                proof {
                    assert forall|a: int, b: int|
                        0 <= a < b < entries@.len() implies #[trigger] entries@[a].0@
                        != #[trigger] entries@[b].0@ by {
                        if b == pre.entries@.len() {
                            assert(!pre.has_name_at(k, a));
                        } else {
                            assert(pre.entries@[a].0@ != pre.entries@[b].0@);
                        }
                    }
                }
                self.entries = entries;
                proof {
                    let n: int = pre.entries@.len() as int;
                    assert forall|key: Seq<char>| #[trigger]
                        self@.dom().contains(key) == pre@.insert(k, v).dom().contains(key) by {
                        if pre@.dom().contains(key) {
                            let j = choose|j: int| pre.has_name_at(key, j);
                            assert(self.has_name_at(key, j));
                        }
                        if key == k {
                            assert(self.has_name_at(key, n));
                        }
                        if self@.dom().contains(key) {
                            let j = choose|j: int| self.has_name_at(key, j);
                            if j != n {
                                assert(pre.has_name_at(key, j));
                            }
                        }
                    }
                    assert forall|key: Seq<char>| #[trigger] self@.dom().contains(key) implies
                        self@[key] == pre@.insert(k, v)[key] by {
                        let j = choose|j: int| self.has_name_at(key, j);
                        if key == k {
                            assert(self.has_name_at(key, n));
                        } else {
                            assert(pre.has_name_at(key, j));
                            let j2 = choose|j2: int| pre.has_name_at(key, j2);
                            assert(j2 == j);
                        }
                    }
                    assert(self@ =~= pre@.insert(k, v));
                }
            },
        }
    }
}


// ---------------------------------------------------------------------------
// Splitting
// ---------------------------------------------------------------------------

/// The pieces of `s` between occurrences of `sep`, as `str::split` yields
/// them: always at least one piece, empty pieces included.
pub open spec fn split_on(s: Seq<char>, sep: char) -> Seq<Seq<char>>
    decreases s.len(),
{
    if s.len() == 0 {
        seq![Seq::<char>::empty()]
    } else {
        let prev = split_on(s.drop_last(), sep);
        if s.last() == sep {
            prev.push(Seq::<char>::empty())
        } else {
            prev.update(prev.len() - 1, prev.last().push(s.last()))
        }
    }
}

/// Splitting never yields an empty list of pieces.
pub proof fn lemma_split_nonempty(s: Seq<char>, sep: char)
    ensures
        split_on(s, sep).len() >= 1,
    decreases s.len(),
{
    if s.len() > 0 {
        lemma_split_nonempty(s.drop_last(), sep);
    }
}

/// The contents of each vector in a sequence of character vectors.
pub open spec fn char_vec_views(v: Seq<Vec<char>>) -> Seq<Seq<char>> {
    v.map_values(|x: Vec<char>| x@)
}

/// Splits a slice of characters at every `sep`.
pub fn split_chars(cs: &[char], sep: char) -> (parts: Vec<Vec<char>>)
    ensures
        char_vec_views(parts@) == split_on(cs@, sep),
{
    let mut done: Vec<Vec<char>> = Vec::new();
    let mut cur: Vec<char> = Vec::new();
    let mut i: usize = 0;
    while i < cs.len()
        invariant
            i <= cs.len(),
            split_on(cs@.take(i as int), sep) == char_vec_views(done@).push(cur@),
        decreases cs.len() - i,
    {
        let c = cs[i];
        proof {
            assert(cs@.take(i + 1).drop_last() =~= cs@.take(i as int));
        }
        if c == sep {
            let ghost before = char_vec_views(done@);
            let mut fresh: Vec<char> = Vec::new();
            std::mem::swap(&mut fresh, &mut cur);
            done.push(fresh);
            proof {
                assert(char_vec_views(done@) =~= before.push(fresh@));
            }
        } else {
            let ghost before = char_vec_views(done@).push(cur@);
            cur.push(c);
            proof {
                assert(char_vec_views(done@).push(cur@) =~= before.update(
                    before.len() - 1,
                    before.last().push(c),
                ));
            }
        }
        i += 1;
    }
    proof {
        assert(cs@.take(cs.len() as int) =~= cs@);
    }
    let ghost before = char_vec_views(done@);
    done.push(cur);
    proof {
        assert(char_vec_views(done@) =~= before.push(cur@));
    }
    done
}

// ---------------------------------------------------------------------------
// Parsing `name=value&name=value`
// ---------------------------------------------------------------------------

/// What reading a query string comes to.
pub ghost enum QueryReading {
    /// Every piece was read; the map holds the pairs, later names overriding
    /// earlier ones.
    Read(Map<Seq<char>, Seq<char>>),
    /// A piece held two or more `=`.
    TooManyParts,
    /// A non-empty piece held no `=` (the reader has no value to take).
    NoValue,
}

/// Reads one `&`-separated piece into what was read so far.
pub open spec fn read_piece(acc: QueryReading, piece: Seq<char>) -> QueryReading {
    match acc {
        QueryReading::Read(m) => {
            if piece.len() == 0 {
                QueryReading::Read(m)
            } else {
                let kv = split_on(piece, '=');
                if kv.len() == 1 {
                    QueryReading::NoValue
                } else if kv.len() == 2 {
                    QueryReading::Read(m.insert(kv[0], kv[1]))
                } else {
                    QueryReading::TooManyParts
                }
            }
        },
        other => other,
    }
}

/// Reads the pieces in order, stopping at the first that cannot be read.
pub open spec fn read_pieces(pieces: Seq<Seq<char>>) -> QueryReading
    decreases pieces.len(),
{
    if pieces.len() == 0 {
        QueryReading::Read(Map::empty())
    } else {
        read_piece(read_pieces(pieces.drop_last()), pieces.last())
    }
}

/// What reading the query string `s` comes to.
pub open spec fn read_query(s: Seq<char>) -> QueryReading {
    read_pieces(split_on(s, '&'))
}

/// Why a query string could not be read.
#[derive(PartialEq, Eq, Structural, Clone, Copy, Debug)]
pub enum QueryError {
    /// A piece held two or more `=`.
    TooManyParts,
    /// A non-empty piece held no `=`.
    NoValue,
}

/// Reads a query string `name=value&name=value...` into a map, reporting
/// which kind of piece stopped it otherwise.
pub fn read_query_string(string: &str) -> (r: Result<ParamMap, QueryError>)
    ensures
        match r {
            Ok(m) => read_query(string@) == QueryReading::Read(m@),
            Err(QueryError::TooManyParts) => read_query(string@) is TooManyParts,
            Err(QueryError::NoValue) => read_query(string@) is NoValue,
        },
{
    let cs = chars_of(string);
    let pieces = split_chars(cs.as_slice(), '&');
    let ghost all = char_vec_views(pieces@);
    let mut map = ParamMap::new();
    let mut i: usize = 0;
    while i < pieces.len()
        invariant
            i <= pieces@.len(),
            all == char_vec_views(pieces@),
            all == split_on(string@, '&'),
            read_pieces(all.take(i as int)) == QueryReading::Read(map@),
        decreases pieces.len() - i,
    {
        proof {
            assert(all.take(i + 1).drop_last() =~= all.take(i as int));
            assert(pieces@[i as int]@ == all[i as int]);
            lemma_stuck_reading_stays(all, i as int + 1);
        }
        let piece = &pieces[i];
        if piece.len() > 0 {
            let kv = split_chars(piece.as_slice(), '=');
            proof {
                assert(char_vec_views(kv@) == split_on(all[i as int], '='));
                lemma_split_nonempty(all[i as int], '=');
            }
            if kv.len() == 1 {
                return Err(QueryError::NoValue);
            } else if kv.len() == 2 {
                assert(kv@[0]@ == char_vec_views(kv@)[0]);
                assert(kv@[1]@ == char_vec_views(kv@)[1]);
                let name = string_from_chars(kv[0].as_slice());
                let value = string_from_chars(kv[1].as_slice());
                map.insert(name, value);
            } else {
                return Err(QueryError::TooManyParts);
            }
        }
        i += 1;
    }
    proof {
        assert(all.take(all.len() as int) =~= all);
    }
    Ok(map)
}

/// Reads a query string `name=value&name=value...` into a map. Empty pieces
/// are skipped; a value may be empty; a later name overrides an earlier one.
/// A piece with two or more `=` makes the whole string fail with
/// "param greater than 3". A non-empty piece without `=` reached before any
/// failure has no value to read and is outside what this function accepts.
pub fn to_hashmap_from_str(string: &str) -> (r: Result<ParamMap, String>)
    requires
        !(read_query(string@) is NoValue),
    ensures
        match r {
            Ok(m) => read_query(string@) == QueryReading::Read(m@),
            Err(e) => read_query(string@) is TooManyParts && e@ == "param greater than 3"@,
        },
{
    match read_query_string(string) {
        Ok(m) => Ok(m),
        Err(_) => Err(String::from_str("param greater than 3")),
    }
}

/// Once reading gets stuck it stays stuck.
proof fn lemma_stuck_reading_stays(pieces: Seq<Seq<char>>, n: int)
    requires
        0 <= n <= pieces.len(),
    ensures
        !(read_pieces(pieces.take(n)) is Read) ==> read_pieces(pieces) == read_pieces(
            pieces.take(n),
        ),
    decreases pieces.len() - n,
{
    if n < pieces.len() {
        lemma_stuck_reading_stays(pieces, n + 1);
        assert(pieces.take(n + 1).drop_last() =~= pieces.take(n));
    } else {
        assert(pieces.take(n) =~= pieces);
    }
}

/// Splitting `s + t` where `t` holds no separator extends the last piece of
/// `s` by `t`.
pub proof fn lemma_split_extend(s: Seq<char>, t: Seq<char>, sep: char)
    requires
        forall|i: int| 0 <= i < t.len() ==> t[i] != sep,
    ensures
        split_on(s + t, sep) == split_on(s, sep).update(
            split_on(s, sep).len() - 1,
            split_on(s, sep).last() + t,
        ),
    decreases t.len(),
{
    lemma_split_nonempty(s, sep);
    if t.len() == 0 {
        assert(s + t =~= s);
        assert(split_on(s, sep).last() + t =~= split_on(s, sep).last());
        assert(split_on(s, sep).update(split_on(s, sep).len() - 1, split_on(s, sep).last())
            =~= split_on(s, sep));
    } else {
        let t0 = t.drop_last();
        lemma_split_extend(s, t0, sep);
        assert((s + t).drop_last() =~= s + t0);
        assert((s + t).last() == t.last());
        let prev = split_on(s + t0, sep);
        let base = split_on(s, sep);
        assert(prev.last() == base.last() + t0);
        assert(prev.last().push(t.last()) =~= base.last() + t);
        assert(prev.update(prev.len() - 1, prev.last().push(t.last())) =~= base.update(
            base.len() - 1,
            base.last() + t,
        ));
    }
}

/// `s` holds no `sep`.
pub open spec fn free_of(s: Seq<char>, sep: char) -> bool {
    forall|i: int| 0 <= i < s.len() ==> s[i] != sep
}

/// A text without the separator is a single piece.
pub proof fn lemma_split_single(s: Seq<char>, sep: char)
    requires
        free_of(s, sep),
    ensures
        split_on(s, sep) == seq![s],
{
    lemma_split_extend(Seq::<char>::empty(), s, sep);
    assert(Seq::<char>::empty() + s =~= s);
    assert(split_on(Seq::<char>::empty(), sep) == seq![Seq::<char>::empty()]);
    assert(Seq::<char>::empty() + s =~= s);
    assert(seq![Seq::<char>::empty()].update(0, Seq::<char>::empty() + s) =~= seq![s]);
}

/// Joining `s` and a separator-free `t` with the separator adds `t` as a
/// piece of its own.
pub proof fn lemma_split_joined(s: Seq<char>, t: Seq<char>, sep: char)
    requires
        free_of(t, sep),
    ensures
        split_on(s.push(sep) + t, sep) == split_on(s, sep).push(t),
{
    assert(s.push(sep).drop_last() =~= s);
    lemma_split_extend(s.push(sep), t, sep);
    let base = split_on(s.push(sep), sep);
    assert(base == split_on(s, sep).push(Seq::<char>::empty()));
    assert(Seq::<char>::empty() + t =~= t);
    assert(base.update(base.len() - 1, base.last() + t) =~= split_on(s, sep).push(t));
}

/// A separator-free name and value joined by `=` read as one pair.
pub proof fn lemma_split_pair(name: Seq<char>, value: Seq<char>)
    requires
        free_of(name, '='),
        free_of(value, '='),
    ensures
        split_on(name.push('=') + value, '=') == seq![name, value],
{
    lemma_split_joined(name, value, '=');
    lemma_split_single(name, '=');
    assert(seq![name].push(value) =~= seq![name, value]);
}

/// Reading one more piece after a prefix.
pub proof fn lemma_read_pieces_push(pieces: Seq<Seq<char>>, piece: Seq<char>)
    ensures
        read_pieces(pieces.push(piece)) == read_piece(read_pieces(pieces), piece),
{
    assert(pieces.push(piece).drop_last() =~= pieces);
}

} // verus!
