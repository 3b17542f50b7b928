use vstd::prelude::*;
use crate::error::Error;
use crate::keys::{last_segment, opt_view, split_take_last, text_or_empty};
use crate::records::{copy_text, ParameterMetadata, SecretListEntry};

verus! {

/// The pairs of an export, none where there was no export.
pub open spec fn pairs_or_empty<T>(o: Option<Vec<T>>) -> Seq<T> {
    match o {
        Some(v) => v@,
        None => Seq::empty(),
    }
}

/// Joins the exports of the parameter store and the secret store, parameters
/// first; an absent export adds nothing.
pub fn merge_exports(
    parameters: Option<Vec<(String, String)>>,
    secrets: Option<Vec<(String, String)>>,
) -> (r: Vec<(String, String)>)
    ensures
        r@ == pairs_or_empty(parameters) + pairs_or_empty(secrets),
{
    let mut all: Vec<(String, String)> = match parameters {
        Some(v) => v,
        None => Vec::new(),
    };
    match secrets {
        Some(v) => {
            let mut v = v;
            all.append(&mut v);
        },
        None => {},
    }
    all
}

/// With nothing exported by either store, the command gets an empty
/// environment: the merged pairs that become its whole environment are none.
pub proof fn lemma_no_pairs_empty_environment(
    parameters: Option<Vec<(String, String)>>,
    secrets: Option<Vec<(String, String)>>,
)
    requires
        pairs_or_empty(parameters).len() == 0,
        pairs_or_empty(secrets).len() == 0,
    ensures
        pairs_or_empty(parameters) + pairs_or_empty(secrets) == Seq::<(String, String)>::empty(),
{
    assert(pairs_or_empty(parameters) + pairs_or_empty(secrets) =~= Seq::<(String, String)>::empty());
}

/// `KEY=VALUE`.
pub open spec fn assignment(key: Seq<char>, value: Seq<char>) -> Seq<char> {
    key + seq!['='] + value
}

/// `export KEY=VALUE` and a line break.
pub open spec fn export_statement(key: Seq<char>, value: Seq<char>) -> Seq<char> {
    seq!['e', 'x', 'p', 'o', 'r', 't', ' '] + assignment(key, value) + seq!['\n']
}

/// Returns one `KEY=VALUE` line per pair, in order.
pub fn assignment_lines(pairs: &Vec<(String, String)>) -> (r: Vec<String>)
    ensures
        r@.len() == pairs@.len(),
        forall|i: int|
            0 <= i < pairs@.len() ==> (#[trigger] r@[i])@ == assignment(pairs@[i].0@, pairs@[i].1@),
{
    let mut out: Vec<String> = Vec::new();
    let mut i: usize = 0;
    while i < pairs.len()
        invariant
            i <= pairs@.len(),
            out@.len() == i,
            forall|j: int|
                0 <= j < i ==> (#[trigger] out@[j])@ == assignment(pairs@[j].0@, pairs@[j].1@),
        decreases pairs@.len() - i,
    {
        let (k, v) = &pairs[i];
        let mut line = k.clone();
        line.append("=");
        line.append(v.as_str());
        proof {
            reveal_strlit("=");
            assert(line@ =~= assignment(k@, v@));
        }
        out.push(line);
        i = i + 1;
    }
    out
}

/// The text of an env file for `pairs`: their export statements, one after another.
pub open spec fn export_text(pairs: Seq<(String, String)>) -> Seq<char>
    decreases pairs.len(),
{
    if pairs.len() == 0 {
        Seq::empty()
    } else {
        export_text(pairs.drop_last()) + export_statement(pairs.last().0@, pairs.last().1@)
    }
}

/// Returns the text of an env file: one `export KEY=VALUE` line per pair.
pub fn export_file_text(pairs: &Vec<(String, String)>) -> (r: String)
    ensures
        r@ == export_text(pairs@),
{
    let mut out = String::new();
    let mut i: usize = 0;
    while i < pairs.len()
        invariant
            i <= pairs@.len(),
            out@ == export_text(pairs@.subrange(0, i as int)),
        decreases pairs@.len() - i,
    {
        let (k, v) = &pairs[i];
        let ghost before = out@;
        let head = "export ";
        let eq = "=";
        let nl = "\n";
        proof {
            reveal_strlit("export ");
            reveal_strlit("=");
            reveal_strlit("\n");
            assert(head@ =~= seq!['e', 'x', 'p', 'o', 'r', 't', ' ']);
            assert(eq@ =~= seq!['=']);
            assert(nl@ =~= seq!['\n']);
        }
        out.append(head);
        out.append(k.as_str());
        out.append(eq);
        out.append(v.as_str());
        out.append(nl);
        proof {
            let t = pairs@.subrange(0, i + 1);
            assert(t.drop_last() =~= pairs@.subrange(0, i as int));
            assert(t.last() == pairs@[i as int]);
            assert(out@ =~= before + export_statement(k@, v@));
        }
        i = i + 1;
    }
    proof {
        assert(pairs@.subrange(0, pairs@.len() as int) =~= pairs@);
    }
    out
}

/// A command to run: the program, its arguments, and the whole environment it
/// gets; nothing of the caller's environment is passed on.
#[derive(Debug)]
pub struct ExecPlan {
    pub program: String,
    pub args: Vec<String>,
    pub env: Vec<(String, String)>,
}

/// Splits `cmd` into program and arguments and gives it exactly `env`.
pub fn plan_exec(cmd: Vec<String>, env: Vec<(String, String)>) -> (r: ExecPlan)
    requires
        cmd@.len() >= 1,
    ensures
        r.program == cmd@[0],
        r.args@ == cmd@.subrange(1, cmd@.len() as int),
        r.env@ == env@,
{
    let mut cmd = cmd;
    let program = cmd.remove(0);
    ExecPlan { program, args: cmd, env }
}

/// A finished command is a success exactly when it exited successfully.
pub fn exit_result(success: bool) -> (r: Result<(), Error>)
    ensures
        success <==> r is Ok,
        !success ==> r matches Err(Error::ExecError),
{
    if success {
        Ok(())
    } else {
        Err(Error::ExecError)
    }
}

/// What a table row shows of a parameter's metadata: key, version (0 where
/// unknown) and the last segment of the user who changed it last.
pub fn metadata_row(p: &ParameterMetadata) -> (r: (String, i64, String))
    ensures
        r.0@ == last_segment(text_or_empty(opt_view(p.name)), '/'),
        r.1 == match p.version {
            Some(v) => v,
            None => 0,
        },
        r.2@ == last_segment(text_or_empty(opt_view(p.last_modified_user)), '/'),
{
    let key = split_take_last('/', copy_text(&p.name));
    let user = split_take_last('/', copy_text(&p.last_modified_user));
    let version = match p.version {
        Some(v) => v,
        None => 0,
    };
    (key, version, user)
}

pub open spec fn rotation_label(rotation_enabled: Option<bool>) -> Seq<char> {
    match rotation_enabled {
        Some(_) => seq!['l', 'a', 'm', 'b', 'd', 'a'],
        None => seq![
            'n', 'o', ' ', 'r', 'o', 't', 'a', 't', 'i', 'o', 'n', ' ', 'p', 'o', 'l', 'i', 'c', 'y',
        ],
    }
}

/// What a table row shows of a listed secret: its key, and `lambda` where a
/// rotation setting is present, else `no rotation policy`.
pub fn listing_row(s: &SecretListEntry) -> (r: (String, String))
    ensures
        r.0@ == last_segment(text_or_empty(opt_view(s.name)), '/'),
        r.1@ == rotation_label(s.rotation_enabled),
{
    let key = split_take_last('/', copy_text(&s.name));
    let label = match s.rotation_enabled {
        Some(_) => String::from_str("lambda"),
        None => String::from_str("no rotation policy"),
    };
    proof {
        reveal_strlit("lambda");
        reveal_strlit("no rotation policy");
        assert(label@ =~= rotation_label(s.rotation_enabled));
    }
    (key, label)
}

} // verus!
