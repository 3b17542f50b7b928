use vstd::prelude::*;
use crate::keys::{opt_view, sanitize_key, sanitized, text_or_empty};
use crate::records::{copy_text, Parameter, ParameterMetadata, SecretListEntry, SecretValue};

verus! {

/// What `char::escape_default` yields for a character, as text.
pub uninterp spec fn escaped_of(c: char) -> Seq<char>;

/// The characters of `s`, each escaped.
pub open spec fn escaped_text(s: Seq<char>) -> Seq<char>
    decreases s.len(),
{
    if s.len() == 0 {
        Seq::empty()
    } else {
        escaped_text(s.drop_last()) + escaped_of(s.last())
    }
}

/// A secret value as it is exported: escaped and wrapped in double quotes.
pub open spec fn quoted(s: Seq<char>) -> Seq<char> {
    seq!['"'] + escaped_text(s) + seq!['"']
}

/// Relies on `char::escape_default`: the escape of `c`, which depends on `c` alone.
#[verifier::external_body]
fn escape_char(c: char) -> (r: String)
    ensures
        r@ == escaped_of(c),
{
    c.escape_default().to_string()
}

/// Returns `s` escaped character by character and wrapped in double quotes.
pub fn quote_value(s: &str) -> (r: String)
    ensures
        r@ == quoted(s@),
{
    let n = s.unicode_len();
    let mut out = String::from_str("\"");
    let mut i: usize = 0;
    proof {
        reveal_strlit("\"");
    }
    while i < n
        invariant
            n == s@.len(),
            i <= n,
            out@ == seq!['"'] + escaped_text(s@.subrange(0, i as int)),
        decreases n - i,
    {
        let c = s.get_char(i);
        let e = escape_char(c);
        out.append(e.as_str());
        proof {
            let t = s@.subrange(0, i + 1);
            assert(t.drop_last() =~= s@.subrange(0, i as int));
            assert(t.last() == c);
        }
        i = i + 1;
    }
    out.append("\"");
    proof {
        assert(s@.subrange(0, n as int) =~= s@);
    }
    out
}

/// Sequences of records that may be exported as environment pairs.
pub trait Exportable {
    /// Every record holds the value that its pair needs.
    spec fn has_values(&self) -> bool;

    /// The pairs, or none for records that carry no values.
    spec fn exported(&self) -> Option<Seq<(Seq<char>, Seq<char>)>>;

    fn values_present(&self) -> (r: bool)
        ensures
            r == self.has_values(),
    ;

    fn export(&self) -> (r: Option<Vec<(String, String)>>)
        requires
            self.has_values(),
        ensures
            r.deep_view() == self.exported(),
    ;
}

pub open spec fn parameter_pair(p: Parameter) -> (Seq<char>, Seq<char>) {
    (sanitized(text_or_empty(opt_view(p.name))), text_or_empty(opt_view(p.value)))
}

pub open spec fn secret_pair(s: SecretValue) -> (Seq<char>, Seq<char>) {
    (sanitized(text_or_empty(opt_view(s.name))), quoted(text_or_empty(opt_view(s.secret_string))))
}

impl Exportable for Vec<Parameter> {
    open spec fn has_values(&self) -> bool {
        forall|i: int| 0 <= i < self@.len() ==> (#[trigger] self@[i]).value is Some
    }

    open spec fn exported(&self) -> Option<Seq<(Seq<char>, Seq<char>)>> {
        Some(self@.map_values(|p: Parameter| parameter_pair(p)))
    }

    fn values_present(&self) -> (r: bool) {
        let mut i: usize = 0;
        while i < self.len()
            invariant
                i <= self@.len(),
                forall|j: int| 0 <= j < i ==> (#[trigger] self@[j]).value is Some,
            decreases self@.len() - i,
        {
            if self[i].value.is_none() {
                return false;
            }
            i = i + 1;
        }
        true
    }

    fn export(&self) -> (r: Option<Vec<(String, String)>>) {
        let mut pairs: Vec<(String, String)> = Vec::new();
        let mut i: usize = 0;
        while i < self.len()
            invariant
                i <= self@.len(),
                self.has_values(),
                pairs@.len() == i,
                forall|j: int|
                    0 <= j < i ==> (#[trigger] pairs@[j]).deep_view() == parameter_pair(self@[j]),
            decreases self@.len() - i,
        {
            let p = &self[i];
            let key = sanitize_key(copy_text(&p.name));
            let value = match &p.value {
                Some(v) => v.clone(),
                None => String::new(),
            };
            pairs.push((key, value));
            i = i + 1;
        }
        proof {
            assert(pairs.deep_view() =~= self@.map_values(|p: Parameter| parameter_pair(p)));
        }
        Some(pairs)
    }
}

impl Exportable for Vec<SecretValue> {
    open spec fn has_values(&self) -> bool {
        forall|i: int| 0 <= i < self@.len() ==> (#[trigger] self@[i]).secret_string is Some
    }

    open spec fn exported(&self) -> Option<Seq<(Seq<char>, Seq<char>)>> {
        Some(self@.map_values(|s: SecretValue| secret_pair(s)))
    }

    fn values_present(&self) -> (r: bool) {
        let mut i: usize = 0;
        while i < self.len()
            invariant
                i <= self@.len(),
                forall|j: int| 0 <= j < i ==> (#[trigger] self@[j]).secret_string is Some,
            decreases self@.len() - i,
        {
            if self[i].secret_string.is_none() {
                return false;
            }
            i = i + 1;
        }
        true
    }

    fn export(&self) -> (r: Option<Vec<(String, String)>>) {
        let mut pairs: Vec<(String, String)> = Vec::new();
        let mut i: usize = 0;
        while i < self.len()
            invariant
                i <= self@.len(),
                self.has_values(),
                pairs@.len() == i,
                forall|j: int|
                    0 <= j < i ==> (#[trigger] pairs@[j]).deep_view() == secret_pair(self@[j]),
            decreases self@.len() - i,
        {
            let s = &self[i];
            let key = sanitize_key(copy_text(&s.name));
            let value = match &s.secret_string {
                Some(v) => quote_value(v.as_str()),
                None => quote_value(""),
            };
            pairs.push((key, value));
            i = i + 1;
        }
        proof {
            assert(pairs.deep_view() =~= self@.map_values(|s: SecretValue| secret_pair(s)));
        }
        Some(pairs)
    }
}

impl Exportable for Vec<ParameterMetadata> {
    open spec fn has_values(&self) -> bool {
        true
    }

    open spec fn exported(&self) -> Option<Seq<(Seq<char>, Seq<char>)>> {
        None
    }

    fn values_present(&self) -> (r: bool) {
        true
    }

    fn export(&self) -> (r: Option<Vec<(String, String)>>) {
        None
    }
}

impl Exportable for Vec<SecretListEntry> {
    open spec fn has_values(&self) -> bool {
        true
    }

    open spec fn exported(&self) -> Option<Seq<(Seq<char>, Seq<char>)>> {
        None
    }

    fn values_present(&self) -> (r: bool) {
        true
    }

    fn export(&self) -> (r: Option<Vec<(String, String)>>) {
        None
    }
}

/// Exporting records that carry no values yields no export; exporting
/// value-bearing records yields one pair per record, in the records' order.
pub proof fn lemma_export_shape(
    parameters: Vec<Parameter>,
    values: Vec<SecretValue>,
    metadata: Vec<ParameterMetadata>,
    listed: Vec<SecretListEntry>,
)
    ensures
        metadata.exported() is None,
        listed.exported() is None,
        parameters.exported() matches Some(pairs) && pairs.len() == parameters@.len() && (forall|i: int|
            0 <= i < parameters@.len() ==> pairs[i] == parameter_pair(#[trigger] parameters@[i])),
        values.exported() matches Some(pairs) && pairs.len() == values@.len() && (forall|i: int|
            0 <= i < values@.len() ==> pairs[i] == secret_pair(#[trigger] values@[i])),
{
}

} // verus!
