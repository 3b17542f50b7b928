use vstd::prelude::*;

verus! {

/// What `str::to_uppercase` returns for a string.
pub uninterp spec fn upper_of(s: Seq<char>) -> Seq<char>;

/// The characters after the last `ch` of `s`: all of `s` when it holds no `ch`.
pub open spec fn last_segment(s: Seq<char>, ch: char) -> Seq<char>
    decreases s.len(),
{
    if s.len() == 0 {
        Seq::empty()
    } else if s.last() == ch {
        Seq::empty()
    } else {
        last_segment(s.drop_last(), ch).push(s.last())
    }
}

/// `s` with every `-` replaced by `_`.
pub open spec fn dashes_to_underscores(s: Seq<char>) -> Seq<char> {
    s.map_values(|c: char| if c == '-' { '_' } else { c })
}

/// The text of an optional field, empty where it is absent.
pub open spec fn text_or_empty(field: Option<Seq<char>>) -> Seq<char> {
    match field {
        Some(f) => f,
        None => Seq::empty(),
    }
}

/// The environment-variable key for a record name: its last `/` segment,
/// upper-cased, with `-` turned into `_`.
pub open spec fn sanitized(name: Seq<char>) -> Seq<char> {
    dashes_to_underscores(upper_of(last_segment(name, '/')))
}

/// The part of the key rule that this library computes itself: last segment,
/// then `-` to `_`.
pub open spec fn segment_key(name: Seq<char>) -> Seq<char> {
    dashes_to_underscores(last_segment(name, '/'))
}

pub open spec fn opt_view(o: Option<String>) -> Option<Seq<char>> {
    match o {
        Some(s) => Some(s@),
        None => None,
    }
}

proof fn lemma_last_segment_from(s: Seq<char>, ch: char, i: int)
    requires
        0 <= i <= s.len(),
        i == 0 || s[i - 1] == ch,
        forall|j: int| i <= j < s.len() ==> s[j] != ch,
    ensures
        last_segment(s, ch) == s.subrange(i, s.len() as int),
    decreases s.len(),
{
    if s.len() == i {
        assert(s.subrange(i, s.len() as int) =~= Seq::<char>::empty());
    } else {
        let t = s.drop_last();
        lemma_last_segment_from(t, ch, i);
        assert(s.subrange(i, s.len() as int) =~= t.subrange(i, t.len() as int).push(s.last()));
    }
}

/// A last segment holds no `ch`.
pub proof fn lemma_last_segment_has_no_sep(s: Seq<char>, ch: char)
    ensures
        forall|j: int| 0 <= j < last_segment(s, ch).len() ==> last_segment(s, ch)[j] != ch,
    decreases s.len(),
{
    if s.len() > 0 && s.last() != ch {
        let t = s.drop_last();
        lemma_last_segment_has_no_sep(t, ch);
        let r = last_segment(s, ch);
        assert(r == last_segment(t, ch).push(s.last()));
        assert forall|j: int| 0 <= j < r.len() implies r[j] != ch by {
            if j < r.len() - 1 {
                assert(r[j] == last_segment(t, ch)[j]);
            }
        }
    }
}

/// The last segment of a string without `ch` is the string itself.
pub proof fn lemma_last_segment_whole(s: Seq<char>, ch: char)
    requires
        forall|j: int| 0 <= j < s.len() ==> s[j] != ch,
    ensures
        last_segment(s, ch) == s,
{
    lemma_last_segment_from(s, ch, 0);
    assert(s.subrange(0, s.len() as int) =~= s);
}

/// Taking the last segment and then turning `-` into `_` gives a key that the
/// same two steps leave as it is.
pub proof fn lemma_segment_key_idempotent(name: Seq<char>)
    ensures
        segment_key(segment_key(name)) == segment_key(name),
{
    let seg = last_segment(name, '/');
    let k = dashes_to_underscores(seg);
    lemma_last_segment_has_no_sep(name, '/');
    assert forall|j: int| 0 <= j < k.len() implies k[j] != '/' by {
        assert(seg[j] != '/');
    }
    lemma_last_segment_whole(k, '/');
    assert(dashes_to_underscores(k) =~= k);
}

/// Returns the text after the last `ch` of `field`; the empty string where
/// `field` is absent.
pub fn split_take_last(ch: char, field: Option<String>) -> (r: String)
    ensures
        r@ == last_segment(text_or_empty(opt_view(field)), ch),
{
    match field {
        None => String::new(),
        Some(f) => {
            let s = f.as_str();
            let n = s.unicode_len();
            let mut i: usize = n;
            while i > 0 && s.get_char(i - 1) != ch
                invariant
                    n == s@.len(),
                    i <= n,
                    forall|j: int| i <= j < n ==> s@[j] != ch,
                decreases i,
            {
                i = i - 1;
            }
            proof {
                lemma_last_segment_from(s@, ch, i as int);
            }
            String::from_str(s.substring_char(i, n))
        },
    }
}

/// Relies on `str::to_uppercase`: the upper-case form of `s`, which depends on
/// the characters of `s` alone.
#[verifier::external_body]
fn to_upper(s: &str) -> (r: String)
    ensures
        r@ == upper_of(s@),
{
    s.to_uppercase()
}

/// Returns `s` with every `-` replaced by `_`.
pub fn replace_dashes(s: &str) -> (r: String)
    ensures
        r@ == dashes_to_underscores(s@),
{
    let n = s.unicode_len();
    let mut out = String::new();
    let mut i: usize = 0;
    while i < n
        invariant
            n == s@.len(),
            i <= n,
            out@ == dashes_to_underscores(s@.subrange(0, i as int)),
        decreases n - i,
    {
        let c = s.get_char(i);
        if c == '-' {
            out.append("_");
        } else {
            out.append(s.substring_char(i, i + 1));
        }
        proof {
            reveal_strlit("_");
            assert(dashes_to_underscores(s@.subrange(0, i + 1)) =~= dashes_to_underscores(
                s@.subrange(0, i as int),
            ).push(if c == '-' { '_' } else { c }));
        }
        i = i + 1;
    }
    proof {
        assert(s@.subrange(0, n as int) =~= s@);
    }
    out
}

/// Returns the environment-variable key for a record name.
pub fn sanitize_key(name: Option<String>) -> (r: String)
    ensures
        r@ == sanitized(text_or_empty(opt_view(name))),
{
    let seg = split_take_last('/', name);
    let up = to_upper(seg.as_str());
    replace_dashes(up.as_str())
}

} // verus!
