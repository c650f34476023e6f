//! Character-level helpers shared by the rest of the library.

use vstd::prelude::*;

verus! {

/// Appends one character to a string (`String::push`).
///
/// Trusted: `String::push` is documented to append the given `char` to the
/// end of the string; nothing else changes.
#[verifier::external_body]
pub(crate) fn push_char(s: &mut String, c: char)
    ensures
        final(s)@ == old(s)@.push(c),
{
    s.push(c);
}

/// The characters of a string slice, in order.
pub fn chars_of(s: &str) -> (v: Vec<char>)
    ensures
        v@ == s@,
{
    let mut v: Vec<char> = Vec::new();
    for c in it: s.chars()
        invariant
            v@ == it.seq().take(it.index() as int),
    {
        v.push(c);
    }
    v
}

/// Whether a character is the dash that separates the groups of a printed UUID.
pub open spec fn not_dash(c: char) -> bool {
    c != '-'
}

/// `s` with every `-` taken out.
pub open spec fn without_dashes(s: Seq<char>) -> Seq<char> {
    s.filter(|c: char| not_dash(c))
}

/// Builds a string out of a slice of characters.
pub fn string_from_chars(cs: &[char]) -> (s: String)
    ensures
        s@ == cs@,
{
    let mut s = String::new();
    let mut i: usize = 0;
    while i < cs.len()
        invariant
            i <= cs.len(),
            s@ == cs@.take(i as int),
        decreases cs.len() - i,
    {
        push_char(&mut s, cs[i]);
        assert(cs@.take(i + 1) =~= cs@.take(i as int).push(cs@[i as int]));
        i += 1;
    }
    assert(cs@.take(cs.len() as int) =~= cs@);
    s
}

/// The account id with every `-` removed: the form used as CouchDB user and
/// database name ("slim" account id).
pub fn slim_account_id(account_id: &str) -> (slim: String)
    ensures
        slim@ == without_dashes(account_id@),
{
    let cs = chars_of(account_id);
    let mut out = String::new();
    let mut i: usize = 0;
    while i < cs.len()
        invariant
            i <= cs.len(),
            cs@ == account_id@,
            out@ == cs@.take(i as int).filter(|c: char| not_dash(c)),
        decreases cs.len() - i,
    {
        let c = cs[i];
        proof {
            cs@.take(i as int).lemma_filter_push(c, |c: char| not_dash(c));
            assert(cs@.take(i + 1) =~= cs@.take(i as int).push(c));
        }
        if c != '-' {
            push_char(&mut out, c);
        }
        i += 1;
    }
    assert(cs@.take(cs.len() as int) =~= cs@);
    out
}

/// An account id without dashes holds no dash, and taking the dashes out
/// of it again changes nothing: every service that derives a database name
/// from an account id, from the full or from the already shortened form,
/// arrives at the same name.
pub proof fn law_slim_account_id_is_stable(account_id: Seq<char>)
    ensures
        crate::params::free_of(without_dashes(account_id), '-'),
        without_dashes(without_dashes(account_id)) == without_dashes(account_id),
{
    let slim = account_id.filter(|c: char| not_dash(c));
    assert forall|i: int| 0 <= i < slim.len() implies slim[i] != '-' by {
        account_id.lemma_filter_pred(|c: char| not_dash(c), i);
    }
    lemma_filter_of_free(slim);
}

proof fn lemma_filter_of_free(s: Seq<char>)
    requires
        forall|i: int| 0 <= i < s.len() ==> s[i] != '-',
    ensures
        s.filter(|c: char| not_dash(c)) == s,
    decreases s.len(),
{
    if s.len() > 0 {
        lemma_filter_of_free(s.drop_last());
        s.drop_last().lemma_filter_push(s.last(), |c: char| not_dash(c));
        assert(s.drop_last().push(s.last()) =~= s);
    } else {
        reveal(Seq::filter);
    }
}

} // verus!
