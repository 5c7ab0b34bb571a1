use vstd::prelude::*;
use vstd::string::StringExecFns;

use crate::json::{find_member, find_str_member, json_document, member_of, parse_json, str_member, Json};

verus! {

/// How a build is run: `DryRun` only resolves the target to its derivation,
/// `Real` builds it.
#[derive(Debug, PartialEq, Eq, Structural, Clone, Copy)]
pub enum BuildMode {
    DryRun,
    Real,
}

/// What a finished tool process left behind.
#[derive(Debug)]
pub struct ToolOutput {
    /// Whether the process exited with status zero.
    pub success: bool,
    pub stdout: Vec<u8>,
    pub stderr: Vec<u8>,
}

/// Why a tool invocation gave no usable result. Each variant keeps the
/// arguments the tool was called with.
#[derive(Debug)]
pub enum ToolError {
    /// The process could not be started.
    Spawn { args: Vec<String>, reason: String },
    /// The process exited with a non-zero status.
    Exit { args: Vec<String>, stdout: String, stderr: String },
    /// The process succeeded but its output is not of the expected shape.
    Output { args: Vec<String> },
}

pub open spec fn texts(v: Seq<String>) -> Seq<Seq<char>> {
    v.map_values(|s: String| s@)
}

/// The text of each string, each after a single space.
pub open spec fn spaced(words: Seq<Seq<char>>) -> Seq<char>
    decreases words.len(),
{
    if words.len() == 0 {
        Seq::empty()
    } else {
        spaced(words.drop_last()) + " "@ + words.last()
    }
}

/// What a `ToolError` reads as.
pub open spec fn error_text(e: ToolError) -> Seq<char> {
    match e {
        ToolError::Spawn { args, reason } =>
            "`nix"@ + spaced(texts(args@)) + "` could not be started: "@ + reason@,
        ToolError::Exit { args, stdout, stderr } =>
            "`nix"@ + spaced(texts(args@)) + "` did not run successfully.\nStdout:"@ + stdout@
                + "\nStderr:"@ + stderr@,
        ToolError::Output { args } =>
            "`nix"@ + spaced(texts(args@)) + "` printed output that could not be read"@,
    }
}

impl ToolError {
    /// A message that names the command and carries what it printed.
    pub fn message(&self) -> (r: String)
        ensures
            r@ == error_text(*self),
    {
        let args = match self {
            ToolError::Spawn { args, .. } => args,
            ToolError::Exit { args, .. } => args,
            ToolError::Output { args } => args,
        };
        let mut r = String::from_str("`nix");
        let mut i: usize = 0;
        while i < args.len()
            invariant
                0 <= i <= args.len(),
                r@ == "`nix"@ + spaced(texts(args@).take(i as int)),
            decreases args.len() - i,
        {
            assert(texts(args@).take(i + 1).drop_last() =~= texts(args@).take(i as int));
            r.append(" ");
            r.append(args[i].as_str());
            i = i + 1;
        }
        assert(texts(args@).take(args.len() as int) =~= texts(args@));
        match self {
            ToolError::Spawn { reason, .. } => {
                r.append("` could not be started: ");
                r.append(reason.as_str());
            },
            ToolError::Exit { stdout, stderr, .. } => {
                r.append("` did not run successfully.\nStdout:");
                r.append(stdout.as_str());
                r.append("\nStderr:");
                r.append(stderr.as_str());
            },
            ToolError::Output { .. } => {
                r.append("` printed output that could not be read");
            },
        }
        r
    }
}

/// Arguments that list a flake's outputs as JSON.
pub fn show_args() -> (r: Vec<String>)
    ensures
        texts(r@) == seq!["flake"@, "show"@, "--json"@],
{
    let r = vec![String::from_str("flake"), String::from_str("show"), String::from_str("--json")];
    assert(texts(r@) =~= seq!["flake"@, "show"@, "--json"@]);
    r
}

/// Arguments that print the platform the tool runs on.
pub fn current_system_args() -> (r: Vec<String>)
    ensures
        texts(r@) == seq!["eval"@, "--impure"@, "--raw"@, "--expr"@, "builtins.currentSystem"@],
{
    let r = vec![
        String::from_str("eval"),
        String::from_str("--impure"),
        String::from_str("--raw"),
        String::from_str("--expr"),
        String::from_str("builtins.currentSystem"),
    ];
    assert(texts(r@) =~= seq!["eval"@, "--impure"@, "--raw"@, "--expr"@, "builtins.currentSystem"@]);
    r
}

/// The arguments of a build: the target, JSON output, the dry-run flag in
/// `DryRun` mode, then the caller's options in their order.
pub open spec fn build_args_spec(target: Seq<char>, mode: BuildMode, options: Seq<Seq<char>>) -> Seq<Seq<char>> {
    seq!["build"@, target, "--json"@] + (if mode == BuildMode::DryRun {
        seq!["--dry-run"@]
    } else {
        Seq::empty()
    }) + options
}

pub fn build_args(target: &String, mode: BuildMode, options: &Vec<String>) -> (r: Vec<String>)
    ensures
        texts(r@) == build_args_spec(target@, mode, texts(options@)),
{
    let mut r = vec![String::from_str("build"), target.clone(), String::from_str("--json")];
    if mode == BuildMode::DryRun {
        r.push(String::from_str("--dry-run"));
    }
    let ghost head = texts(r@);
    assert(head =~= build_args_spec(target@, mode, Seq::empty()));
    let mut i: usize = 0;
    while i < options.len()
        invariant
            0 <= i <= options.len(),
            texts(r@) == head + texts(options@).take(i as int),
        decreases options.len() - i,
    {
        let ghost before = r@;
        let o = options[i].clone();
        r.push(o);
        assert(r@ == before.push(o));
        assert(texts(before.push(o)) =~= texts(before).push(o@));
        assert(texts(options@).take(i + 1) =~= texts(options@).take(i as int).push(options@[i as int]@));
        assert(texts(r@) =~= head + texts(options@).take(i + 1));
        i = i + 1;
    }
    assert(texts(options@).take(options.len() as int) =~= texts(options@));
    assert(head + texts(options@) =~= build_args_spec(target@, mode, texts(options@)));
    r
}

/// Arguments that print the build log of a derivation.
pub fn log_args(drv_path: &String) -> (r: Vec<String>)
    ensures
        texts(r@) == seq!["log"@, drv_path@],
{
    let r = vec![String::from_str("log"), drv_path.clone()];
    assert(texts(r@) =~= seq!["log"@, drv_path@]);
    r
}

/// The text that `String::from_utf8_lossy` makes of `bytes`.
pub uninterp spec fn utf8_lossy(bytes: Seq<u8>) -> Seq<char>;

/// Relies on String::from_utf8_lossy: decodes bytes, putting U+FFFD for each
/// invalid sequence.
#[verifier::external_body]
fn lossy_text(bytes: &[u8]) -> (r: String)
    ensures
        r@ == utf8_lossy(bytes@),
{
    String::from_utf8_lossy(bytes).into_owned()
}

/// The text that `bytes` hold as UTF-8, or `None` where they are not UTF-8.
pub uninterp spec fn utf8_text(bytes: Seq<u8>) -> Option<Seq<char>>;

/// Relies on String::from_utf8: the same text where the bytes are valid
/// UTF-8, an error where they are not.
#[verifier::external_body]
fn decode_utf8(bytes: Vec<u8>) -> (r: Option<String>)
    ensures
        match r {
            Some(s) => utf8_text(bytes@) == Some(s@),
            None => utf8_text(bytes@) is None,
        },
{
    String::from_utf8(bytes).ok()
}

/// `e` is the error for a process that could not be started, or that exited
/// unsuccessfully, as `out` says.
pub open spec fn failed_run(args: Seq<Seq<char>>, out: Result<ToolOutput, String>, e: ToolError) -> bool {
    match out {
        Err(reason) => e matches ToolError::Spawn { args: a, reason: x } && texts(a@) == args && x == reason,
        Ok(o) => match e {
            ToolError::Exit { args: a, stdout, stderr } => texts(a@) == args && stdout@ == utf8_lossy(o.stdout@)
                && stderr@ == utf8_lossy(o.stderr@),
            _ => false,
        },
    }
}

/// `e` says that the output of a run with `args` could not be read.
pub open spec fn unreadable(args: Seq<Seq<char>>, e: ToolError) -> bool {
    e matches ToolError::Output { args: a } && texts(a@) == args
}

/// A copy of a list of arguments.
pub fn copy_args(v: &Vec<String>) -> (r: Vec<String>)
    ensures
        texts(r@) == texts(v@),
{
    let mut r: Vec<String> = Vec::new();
    let mut i: usize = 0;
    while i < v.len()
        invariant
            0 <= i <= v.len(),
            texts(r@) == texts(v@).take(i as int),
        decreases v.len() - i,
    {
        let ghost before = r@;
        let s = v[i].clone();
        r.push(s);
        assert(texts(before.push(s)) =~= texts(before).push(s@));
        assert(texts(v@).take(i + 1) =~= texts(v@).take(i as int).push(v@[i as int]@));
        i = i + 1;
    }
    assert(texts(v@).take(v.len() as int) =~= texts(v@));
    r
}

pub open spec fn ran(out: Result<ToolOutput, String>) -> bool {
    out matches Ok(o) && o.success
}

fn exit_error(args: &Vec<String>, o: &ToolOutput) -> (r: ToolError)
    ensures
        failed_run(texts(args@), Ok(*o), r),
{
    ToolError::Exit { args: copy_args(args), stdout: lossy_text(o.stdout.as_slice()), stderr: lossy_text(o.stderr.as_slice()) }
}

/// Reads the JSON document that a tool invocation printed.
pub fn read_json(args: &Vec<String>, out: Result<ToolOutput, String>) -> (r: Result<Json, ToolError>)
    ensures
        !ran(out) ==> (r matches Err(e) && failed_run(texts(args@), out, e)),
        ran(out) ==> match json_document(out->Ok_0.stdout@) {
            Some(d) => r == Ok::<Json, ToolError>(d),
            None => r matches Err(e) && unreadable(texts(args@), e),
        },
{
    let o = match out {
        Err(reason) => {
            return Err(ToolError::Spawn { args: copy_args(args), reason });
        },
        Ok(o) => o,
    };
    if !o.success {
        return Err(exit_error(args, &o));
    }
    match parse_json(o.stdout.as_slice()) {
        Some(d) => Ok(d),
        None => Err(ToolError::Output { args: copy_args(args) }),
    }
}

/// Reads what listing a flake's outputs (a run with `show_args`) printed.
pub fn show(out: Result<ToolOutput, String>) -> (r: Result<Json, ToolError>)
    ensures
        !ran(out) ==> (r matches Err(e) && failed_run(seq!["flake"@, "show"@, "--json"@], out, e)),
        ran(out) ==> match json_document(out->Ok_0.stdout@) {
            Some(d) => r == Ok::<Json, ToolError>(d),
            None => r matches Err(e) && unreadable(seq!["flake"@, "show"@, "--json"@], e),
        },
{
    read_json(&show_args(), out)
}

/// Reads the text that a tool invocation printed.
pub fn read_text(args: &Vec<String>, out: Result<ToolOutput, String>) -> (r: Result<String, ToolError>)
    ensures
        !ran(out) ==> (r matches Err(e) && failed_run(texts(args@), out, e)),
        ran(out) ==> match utf8_text(out->Ok_0.stdout@) {
            Some(t) => r matches Ok(s) && s@ == t,
            None => r matches Err(e) && unreadable(texts(args@), e),
        },
{
    let o = match out {
        Err(reason) => {
            return Err(ToolError::Spawn { args: copy_args(args), reason });
        },
        Ok(o) => o,
    };
    if !o.success {
        return Err(exit_error(args, &o));
    }
    match decode_utf8(o.stdout) {
        Some(t) => Ok(t),
        None => Err(ToolError::Output { args: copy_args(args) }),
    }
}

/// One derivation that a build reports.
#[derive(Debug)]
pub struct BuildDerivation {
    /// The store path of the derivation, which names its build log.
    pub drv_path: String,
    /// Each output's name and store path.
    pub outputs: Vec<(String, String)>,
}

/// A derivation as the texts it holds.
pub open spec fn derivation_view(d: BuildDerivation) -> (Seq<char>, Seq<(Seq<char>, Seq<char>)>) {
    (d.drv_path@, d.outputs@.map_values(|p: (String, String)| (p.0@, p.1@)))
}

pub open spec fn derivation_views(v: Seq<BuildDerivation>) -> Seq<(Seq<char>, Seq<(Seq<char>, Seq<char>)>)> {
    v.map_values(|d: BuildDerivation| derivation_view(d))
}

/// Every member holds a string.
pub open spec fn all_strings(members: Seq<(String, Json)>) -> bool {
    forall|i: int| 0 <= i < members.len() ==> #[trigger] members[i].1 is Str
}

/// The text of a string value.
pub open spec fn str_text(v: Json) -> Seq<char> {
    match v {
        Json::Str(s) => s@,
        _ => Seq::empty(),
    }
}

/// The names and texts of members that all hold strings.
pub open spec fn string_pairs(members: Seq<(String, Json)>) -> Seq<(Seq<char>, Seq<char>)> {
    members.map_values(|e: (String, Json)| (e.0@, str_text(e.1)))
}

/// One entry of a build's JSON report: an object with a string `drvPath`
/// and an `outputs` object of strings; its derivation path and outputs.
pub open spec fn build_entry(v: Json) -> Option<(Seq<char>, Seq<(Seq<char>, Seq<char>)>)> {
    match v {
        Json::Object(m) => match member_of(m@, "outputs"@) {
            Some(Json::Object(o)) => if all_strings(o@) {
                match str_member(m@, "drvPath"@) {
                    Some(p) => Some((p, string_pairs(o@))),
                    None => None,
                }
            } else {
                None
            },
            _ => None,
        },
        _ => None,
    }
}

/// The derivations of a build's JSON report, an array of entries; `None`
/// where it has another shape.
pub open spec fn build_entries(doc: Json) -> Option<Seq<(Seq<char>, Seq<(Seq<char>, Seq<char>)>)>> {
    match doc {
        Json::Array(items) => if forall|i: int| 0 <= i < items@.len() ==> #[trigger] build_entry(items@[i]) is Some {
            Some(items@.map_values(|v: Json| build_entry(v)->0))
        } else {
            None
        },
        _ => None,
    }
}

/// The members of an object that holds only strings, as name and text.
fn string_members(members: &Vec<(String, Json)>) -> (r: Option<Vec<(String, String)>>)
    ensures
        match r {
            Some(v) => all_strings(members@) && v@.map_values(|p: (String, String)| (p.0@, p.1@))
                == string_pairs(members@),
            None => !all_strings(members@),
        },
{
    let mut out: Vec<(String, String)> = Vec::new();
    let mut i: usize = 0;
    while i < members.len()
        invariant
            0 <= i <= members.len(),
            out@.len() == i,
            forall|j: int| 0 <= j < i ==> #[trigger] members@[j].1 is Str,
            forall|j: int|
                0 <= j < i ==> (#[trigger] out@[j]).0@ == members@[j].0@ && out@[j].1@ == str_text(
                    members@[j].1,
                ),
        decreases members.len() - i,
    {
        match &members[i].1 {
            Json::Str(t) => {
                out.push((members[i].0.clone(), t.clone()));
            },
            _ => {
                return None;
            },
        }
        i = i + 1;
    }
    assert(out@.map_values(|p: (String, String)| (p.0@, p.1@)) =~= string_pairs(members@));
    Some(out)
}

fn read_build_entry(v: &Json) -> (r: Option<BuildDerivation>)
    ensures
        match r {
            Some(d) => build_entry(*v) == Some(derivation_view(d)),
            None => build_entry(*v) is None,
        },
{
    let members = match v {
        Json::Object(m) => m,
        _ => {
            return None;
        },
    };
    let outputs = match find_member(members, &String::from_str("outputs")) {
        Some(i) => match &members[i].1 {
            Json::Object(o) => string_members(o),
            _ => None,
        },
        None => None,
    };
    let outputs = match outputs {
        Some(o) => o,
        None => {
            return None;
        },
    };
    match find_str_member(members, &String::from_str("drvPath")) {
        Some(p) => Some(BuildDerivation { drv_path: p.clone(), outputs }),
        None => None,
    }
}

/// The derivations of a build's JSON report, in their order.
pub fn derivations_of(doc: &Json) -> (r: Option<Vec<BuildDerivation>>)
    ensures
        match r {
            Some(ds) => build_entries(*doc) == Some(derivation_views(ds@)),
            None => build_entries(*doc) is None,
        },
{
    let items = match doc {
        Json::Array(items) => items,
        _ => {
            return None;
        },
    };
    let mut ds: Vec<BuildDerivation> = Vec::new();
    let mut i: usize = 0;
    while i < items.len()
        invariant
            0 <= i <= items.len(),
            ds@.len() == i,
            *doc == Json::Array(*items),
            forall|j: int| 0 <= j < i ==> #[trigger] build_entry(items@[j]) == Some(derivation_view(ds@[j])),
        decreases items.len() - i,
    {
        match read_build_entry(&items[i]) {
            Some(d) => ds.push(d),
            None => {
                assert(!(build_entry(items@[i as int]) is Some));
                return None;
            },
        }
        i = i + 1;
    }
    assert(derivation_views(ds@) =~= items@.map_values(|v: Json| build_entry(v)->0));
    Some(ds)
}

/// Reads the derivations that a build invocation reported.
pub fn read_build(args: &Vec<String>, out: Result<ToolOutput, String>) -> (r: Result<Vec<BuildDerivation>, ToolError>)
    ensures
        !ran(out) ==> (r matches Err(e) && failed_run(texts(args@), out, e)),
        ran(out) ==> match json_document(out->Ok_0.stdout@) {
            Some(d) => match build_entries(d) {
                Some(entries) => r matches Ok(ds) && derivation_views(ds@) == entries,
                None => r matches Err(e) && unreadable(texts(args@), e),
            },
            None => r matches Err(e) && unreadable(texts(args@), e),
        },
{
    let doc = read_json(args, out)?;
    match derivations_of(&doc) {
        Some(ds) => Ok(ds),
        None => Err(ToolError::Output { args: copy_args(args) }),
    }
}

} // verus!
