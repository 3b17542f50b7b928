use vstd::prelude::*;
use crate::config::Config;
use crate::error::Error;
use crate::keys::{opt_view, text_or_empty};
use crate::records::SecretListEntry;

verus! {

pub open spec fn starts_with(s: Seq<char>, prefix: Seq<char>) -> bool {
    prefix.len() <= s.len() && s.subrange(0, prefix.len() as int) == prefix
}

/// Secrets of a namespace are named under `{namespace}/`.
pub open spec fn secret_prefix(path: Seq<char>) -> Seq<char> {
    path + seq!['/']
}

/// The full name of the secret `key` of a namespace: `{namespace}/{key}`.
pub open spec fn secret_path(path: Seq<char>, key: Seq<char>) -> Seq<char> {
    path + seq!['/'] + key
}

/// An entry is kept when it is not deleted and its name lies under `prefix`.
pub open spec fn is_live_under(e: SecretListEntry, prefix: Seq<char>) -> bool {
    e.deleted_date is None && starts_with(text_or_empty(opt_view(e.name)), prefix)
}

/// The entries of `s` that are kept, in their order.
pub open spec fn live_under(s: Seq<SecretListEntry>, prefix: Seq<char>) -> Seq<SecretListEntry>
    decreases s.len(),
{
    if s.len() == 0 {
        Seq::empty()
    } else if is_live_under(s.last(), prefix) {
        live_under(s.drop_last(), prefix).push(s.last())
    } else {
        live_under(s.drop_last(), prefix)
    }
}

pub open spec fn named(e: SecretListEntry, full: Seq<char>) -> bool {
    opt_view(e.name) == Some(full)
}

/// `i` is the first entry of `s` named `full`.
pub open spec fn first_named_at(s: Seq<SecretListEntry>, full: Seq<char>, i: int) -> bool {
    0 <= i < s.len() && named(s[i], full) && forall|j: int| 0 <= j < i ==> !named(s[j], full)
}

/// Every entry that `live_under` keeps is live under the prefix and comes from `s`.
pub proof fn lemma_live_under_sound(s: Seq<SecretListEntry>, prefix: Seq<char>)
    ensures
        forall|j: int|
            0 <= j < live_under(s, prefix).len() ==> is_live_under(
                #[trigger] live_under(s, prefix)[j],
                prefix,
            ) && s.contains(live_under(s, prefix)[j]),
    decreases s.len(),
{
    if s.len() > 0 {
        let t = s.drop_last();
        lemma_live_under_sound(t, prefix);
        let r = live_under(s, prefix);
        assert forall|j: int| 0 <= j < r.len() implies is_live_under(#[trigger] r[j], prefix)
            && s.contains(r[j]) by {
            if j < live_under(t, prefix).len() {
                assert(r[j] == live_under(t, prefix)[j]);
                let k = choose|k: int| 0 <= k < t.len() && t[k] == r[j];
                assert(s[k] == t[k]);
            } else {
                assert(r[j] == s.last());
                assert(s[s.len() - 1] == s.last());
            }
        }
    }
}

fn has_prefix(s: &str, prefix: &str) -> (r: bool)
    ensures
        r == starts_with(s@, prefix@),
{
    let n = s.unicode_len();
    let m = prefix.unicode_len();
    if m > n {
        return false;
    }
    let mut i: usize = 0;
    while i < m
        invariant
            n == s@.len(),
            m == prefix@.len(),
            m <= n,
            i <= m,
            forall|j: int| 0 <= j < i ==> s@[j] == prefix@[j],
        decreases m - i,
    {
        if s.get_char(i) != prefix.get_char(i) {
            proof {
                assert(s@.subrange(0, m as int)[i as int] != prefix@[i as int]);
            }
            return false;
        }
        i = i + 1;
    }
    proof {
        assert(s@.subrange(0, m as int) =~= prefix@);
    }
    true
}

/// Keeps the entries that are not deleted and whose name lies under
/// `{namespace}/`, in their order.
pub fn live_secrets(entries: &Vec<SecretListEntry>, config: &Config) -> (r: Vec<SecretListEntry>)
    ensures
        r@ == live_under(entries@, secret_prefix(config.path())),
{
    let mut prefix = config.as_path();
    prefix.append("/");
    proof {
        reveal_strlit("/");
        assert(prefix@ =~= secret_prefix(config.path()));
    }
    let mut out: Vec<SecretListEntry> = Vec::new();
    let mut i: usize = 0;
    while i < entries.len()
        invariant
            i <= entries@.len(),
            prefix@ == secret_prefix(config.path()),
            out@ == live_under(entries@.subrange(0, i as int), prefix@),
        decreases entries@.len() - i,
    {
        let e = &entries[i];
        let keep = match &e.name {
            Some(n) => e.deleted_date.is_none() && has_prefix(n.as_str(), prefix.as_str()),
            None => e.deleted_date.is_none() && has_prefix("", prefix.as_str()),
        };
        proof {
            reveal_strlit("");
            let t = entries@.subrange(0, i + 1);
            assert(t.drop_last() =~= entries@.subrange(0, i as int));
            assert(t.last() == entries@[i as int]);
            assert(keep == is_live_under(entries@[i as int], prefix@));
        }
        if keep {
            out.push(e.copy());
        }
        i = i + 1;
    }
    proof {
        assert(entries@.subrange(0, entries@.len() as int) =~= entries@);
    }
    out
}

/// Finds the first entry named `{namespace}/{key}` and returns its ARN.
/// Fails with `InvalidKey` carrying that full name when no entry has it, and
/// with `MissingField` when the entry found has no ARN.
pub fn find_secret_arn(secrets: &Vec<SecretListEntry>, config: &Config, key: &str) -> (r: Result<String, Error>)
    ensures
        match r {
            Ok(a) => exists|i: int|
                first_named_at(secrets@, secret_path(config.path(), key@), i) && opt_view(
                    secrets@[i].arn,
                ) == Some(a@),
            Err(Error::MissingField(m)) => m@ == secret_path(config.path(), key@) && exists|i: int|
                first_named_at(secrets@, secret_path(config.path(), key@), i)
                    && secrets@[i].arn is None,
            Err(Error::InvalidKey(k)) => k@ == secret_path(config.path(), key@) && forall|i: int|
                0 <= i < secrets@.len() ==> !named(secrets@[i], secret_path(config.path(), key@)),
            Err(_) => false,
        },
{
    let mut full = config.as_path();
    full.append("/");
    full.append(key);
    let ghost fv = secret_path(config.path(), key@);
    proof {
        reveal_strlit("/");
        assert(full@ =~= fv);
    }
    let mut i: usize = 0;
    while i < secrets.len()
        invariant
            i <= secrets@.len(),
            full@ == fv,
            fv == secret_path(config.path(), key@),
            forall|j: int| 0 <= j < i ==> !named(secrets@[j], fv),
        decreases secrets@.len() - i,
    {
        let hit = match &secrets[i].name {
            Some(n) => n.eq(&full),
            None => false,
        };
        if hit {
            proof {
                assert(first_named_at(secrets@, fv, i as int));
            }
            return match &secrets[i].arn {
                Some(a) => {
                    let r = a.clone();
                    proof {
                        assert(opt_view(secrets@[i as int].arn) == Some(r@));
                        assert(first_named_at(secrets@, secret_path(config.path(), key@), i as int)
                            && opt_view(secrets@[i as int].arn) == Some(r@));
                    }
                    Ok(r)
                },
                None => Err(Error::MissingField(full)),
            };
        }
        i = i + 1;
    }
    Err(Error::InvalidKey(full))
}

/// Returns the ARN of every entry, in order; fails with `MissingField`,
/// carrying the entry's name, at the first entry without one.
pub fn secret_arns(secrets: &Vec<SecretListEntry>) -> (r: Result<Vec<String>, Error>)
    ensures
        match r {
            Ok(v) => v@.len() == secrets@.len() && forall|i: int|
                0 <= i < secrets@.len() ==> opt_view(secrets@[i].arn) == Some(#[trigger] v@[i]@),
            Err(Error::MissingField(m)) => exists|i: int|
                0 <= i < secrets@.len() && secrets@[i].arn is None && m@ == text_or_empty(
                    opt_view(secrets@[i].name),
                ) && forall|j: int| 0 <= j < i ==> secrets@[j].arn is Some,
            Err(_) => false,
        },
{
    let mut out: Vec<String> = Vec::new();
    let mut i: usize = 0;
    while i < secrets.len()
        invariant
            i <= secrets@.len(),
            out@.len() == i,
            forall|j: int| 0 <= j < i ==> opt_view(secrets@[j].arn) == Some(#[trigger] out@[j]@),
        decreases secrets@.len() - i,
    {
        match &secrets[i].arn {
            Some(a) => {
                out.push(a.clone());
            },
            None => {
                let name = match &secrets[i].name {
                    Some(n) => n.clone(),
                    None => String::new(),
                };
                proof {
                    assert forall|j: int| 0 <= j < i implies secrets@[j].arn is Some by {
                        assert(opt_view(secrets@[j].arn) == Some(out@[j]@));
                    }
                }
                return Err(Error::MissingField(name));
            },
        }
        i = i + 1;
    }
    Ok(out)
}

} // verus!
