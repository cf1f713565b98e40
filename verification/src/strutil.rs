use vstd::prelude::*;
use vstd::string::*;

verus! {

/// The character sequences behind a sequence of strings, allocation
/// identity abstracted away.
pub open spec fn views_of_strings(s: Seq<String>) -> Seq<Seq<char>> {
    s.map_values(|x: String| x@)
}

/// Relies on `String::push`: appends exactly the one character to the end.
#[verifier::external_body]
pub fn push_char(s: &mut String, c: char)
    ensures
        final(s)@ == old(s)@.push(c),
{
    s.push(c)
}

/// Decode a string into its sequence of characters.
pub fn string_to_chars(s: &str) -> (r: Vec<char>)
    ensures
        r@ == s@,
{
    let n = s.unicode_len();
    let mut v: Vec<char> = Vec::new();
    let mut i: usize = 0;
    while i < n
        invariant
            i <= n,
            n == s@.len(),
            v@ == s@.subrange(0, i as int),
        decreases n - i,
    {
        let c = s.get_char(i);
        v.push(c);
        assert(v@ =~= s@.subrange(0, i + 1));
        i += 1;
    }
    assert(v@ =~= s@);
    v
}

/// Encode the characters `v[from..to]` back into a string.
pub fn chars_range_to_string(v: &Vec<char>, from: usize, to: usize) -> (r: String)
    requires
        from <= to <= v@.len(),
    ensures
        r@ == v@.subrange(from as int, to as int),
{
    let mut s = String::new();
    let mut i: usize = from;
    while i < to
        invariant
            from <= i <= to <= v@.len(),
            s@ == v@.subrange(from as int, i as int),
        decreases to - i,
    {
        push_char(&mut s, v[i]);
        assert(s@ =~= v@.subrange(from as int, i + 1));
        i += 1;
    }
    s
}

/// Encode a whole character sequence back into a string.
pub fn chars_to_string(v: &Vec<char>) -> (r: String)
    ensures
        r@ == v@,
{
    let r = chars_range_to_string(v, 0, v.len());
    assert(v@.subrange(0, v@.len() as int) =~= v@);
    r
}

/// Append `other` onto `s`.
pub fn append_str(s: &mut String, other: &str)
    ensures
        final(s)@ == old(s)@ + other@,
{
    s.append(other)
}

/// The parts glued together with `sep` between each two neighbours.
pub open spec fn spec_join(parts: Seq<Seq<char>>, sep: Seq<char>) -> Seq<char>
    decreases parts.len(),
{
    if parts.len() == 0 {
        Seq::empty()
    } else if parts.len() == 1 {
        parts[0]
    } else {
        parts[0] + sep + spec_join(parts.drop_first(), sep)
    }
}

/// Gluing one more part onto the end keeps the join shape: the previous
/// join, the separator, the new part.
pub proof fn lemma_join_push(parts: Seq<Seq<char>>, sep: Seq<char>, more: Seq<char>)
    requires
        parts.len() >= 1,
    ensures
        spec_join(parts.push(more), sep) == spec_join(parts, sep) + sep + more,
    decreases parts.len(),
{
    if parts.len() == 1 {
        assert(parts.push(more).drop_first() =~= seq![more]);
        assert(spec_join(seq![more], sep) == seq![more][0]);
        assert(parts.push(more)[0] == parts[0]);
        assert(spec_join(parts.push(more), sep) =~= parts[0] + sep + more);
        assert(spec_join(parts, sep) + sep + more =~= parts[0] + sep + more);
    } else {
        lemma_join_push(parts.drop_first(), sep, more);
        assert(parts.push(more).drop_first() =~= parts.drop_first().push(more));
        assert(spec_join(parts.push(more), sep) =~= spec_join(parts, sep) + sep + more);
    }
}

/// Glue the strings together with `sep` between each two neighbours.
pub fn join_strings(v: &Vec<String>, sep: &str) -> (r: String)
    ensures
        r@ == spec_join(views_of_strings(v@), sep@),
{
    let mut r = String::new();
    if v.len() == 0 {
        return r;
    }
    append_str(&mut r, v[0].as_str());
    assert(r@ =~= views_of_strings(v@)[0]);
    let mut i: usize = 1;
    while i < v.len()
        invariant
            1 <= i <= v@.len(),
            r@ == spec_join(views_of_strings(v@).subrange(0, i as int), sep@),
        decreases v@.len() - i,
    {
        append_str(&mut r, sep);
        append_str(&mut r, v[i].as_str());
        proof {
            let vs = views_of_strings(v@);
            assert(vs.subrange(0, i as int).push(vs[i as int]) =~= vs.subrange(0, i + 1));
            lemma_join_push(vs.subrange(0, i as int), sep@, vs[i as int]);
        }
        i += 1;
    }
    proof {
        assert(views_of_strings(v@).subrange(0, v@.len() as int) =~= views_of_strings(v@));
    }
    r
}

} // verus!
