//! Help-content acquisition: candidate invocations are planned from the
//! configured templates, each child-process outcome is judged by fixed
//! selection rules, and manual-page output is de-formatted.  Running the
//! child processes is left to the caller; everything that decides is here.
use vstd::prelude::*;

use crate::config::{spec_help_flags, spec_subcommand_help_flags, Config};
use crate::text::{
    chars_contains_ci, chars_is_blank, chars_join, chars_split_ws, chars_to_string, contains_ci,
    is_blank, join_spec, split_ws_spec, starts_with, str_to_chars,
};

verus! {

/// Tags fetched content with the pipeline that produced it, so that callers
/// can treat manual-page content differently from plain `--help` output.
#[derive(Debug, Clone, Copy, PartialEq, Eq, Structural)]
pub enum ContentSource {
    Help,
    Man,
}

/// What a finished child process left behind: its exit status and the two
/// captured streams, already decoded to text.
pub struct ProcessOutput {
    pub success: bool,
    pub stdout: String,
    pub stderr: String,
}

#[verifier::ext_equal]
pub ghost struct ProcessOutputView {
    pub success: bool,
    pub stdout: Seq<char>,
    pub stderr: Seq<char>,
}

impl View for ProcessOutput {
    type V = ProcessOutputView;

    open spec fn view(&self) -> ProcessOutputView {
        ProcessOutputView { success: self.success, stdout: self.stdout@, stderr: self.stderr@ }
    }
}

impl DeepView for ProcessOutput {
    type V = ProcessOutputView;

    open spec fn deep_view(&self) -> ProcessOutputView {
        self.view()
    }
}

/// Why a fetch yielded nothing.
#[derive(Debug, Clone)]
pub enum FetchError {
    /// The command path was empty.
    NoCommand,
    /// Every strategy produced empty or unusable output for this path.
    FetchFailed { command: Vec<String> },
}

// ---------------------------------------------------------------------------
// Manual-page de-formatting
// ---------------------------------------------------------------------------
/// Parsing mode while scanning manual-page output: ordinary text, just after
/// an escape byte, or inside a CSI sequence.
#[derive(PartialEq, Eq, Structural)]
pub enum StripMode {
    Normal,
    SawEsc,
    InCsi,
}

pub open spec fn is_ascii_alpha(c: char) -> bool {
    ('a' <= c && c <= 'z') || ('A' <= c && c <= 'Z')
}

/// One step of the de-formatter: backspace removes the previously emitted
/// character, an escape followed by `[` opens a CSI sequence that runs to the
/// first ASCII letter, and everything else is emitted verbatim.
pub open spec fn strip_step(out: Seq<char>, mode: StripMode, c: char) -> (Seq<char>, StripMode) {
    match mode {
        StripMode::InCsi => {
            if is_ascii_alpha(c) {
                (out, StripMode::Normal)
            } else {
                (out, StripMode::InCsi)
            }
        },
        StripMode::SawEsc => {
            if c == '[' {
                (out, StripMode::InCsi)
            } else if c == '\u{8}' {
                (if out.len() > 0 {
                    out.drop_last()
                } else {
                    out
                }, StripMode::Normal)
            } else if c == '\u{1b}' {
                (out, StripMode::SawEsc)
            } else {
                (out.push(c), StripMode::Normal)
            }
        },
        StripMode::Normal => {
            if c == '\u{8}' {
                (if out.len() > 0 {
                    out.drop_last()
                } else {
                    out
                }, StripMode::Normal)
            } else if c == '\u{1b}' {
                (out, StripMode::SawEsc)
            } else {
                (out.push(c), StripMode::Normal)
            }
        },
    }
}

pub open spec fn strip_run(s: Seq<char>) -> (Seq<char>, StripMode)
    decreases s.len(),
{
    if s.len() == 0 {
        (Seq::empty(), StripMode::Normal)
    } else {
        let st = strip_run(s.drop_last());
        strip_step(st.0, st.1, s.last())
    }
}

/// The plain text behind manual-page output: bold and underline backspace
/// conventions collapse to the underlying character, CSI sequences vanish.
pub open spec fn strip_man_spec(s: Seq<char>) -> Seq<char> {
    strip_run(s).0
}

/// `s` carries no manual-page formatting: no backspace and no escape byte.
pub open spec fn formatting_free(s: Seq<char>) -> bool {
    forall|i: int| 0 <= i < s.len() ==> s[i] != '\u{8}' && s[i] != '\u{1b}'
}

#[verifier::loop_isolation(false)]
pub fn strip_man_formatting(text: &str) -> (r: String)
    ensures
        r@ == strip_man_spec(text@),
{
    let chars = str_to_chars(text);
    let mut out: Vec<char> = Vec::new();
    let mut in_csi = false;
    let mut saw_esc = false;
    let mut i: usize = 0;
    while i < chars.len()
        invariant
            0 <= i <= chars@.len(),
            chars@ == text@,
            out@ =~= strip_run(text@.take(i as int)).0,
            strip_run(text@.take(i as int)).1 == (if in_csi {
                StripMode::InCsi
            } else if saw_esc {
                StripMode::SawEsc
            } else {
                StripMode::Normal
            }),
            !(in_csi && saw_esc),
        decreases chars@.len() - i,
    {
        let c = chars[i];
        proof {
            assert(text@.take(i + 1).drop_last() =~= text@.take(i as int));
            assert(text@.take(i + 1).last() == text@[i as int]);
        }
        if in_csi {
            if ('a' <= c && c <= 'z') || ('A' <= c && c <= 'Z') {
                in_csi = false;
            }
        } else if saw_esc {
            saw_esc = false;
            if c == '[' {
                in_csi = true;
            } else if c == '\u{8}' {
                if out.len() > 0 {
                    out.pop();
                }
            } else if c == '\u{1b}' {
                saw_esc = true;
            } else {
                out.push(c);
            }
        } else {
            if c == '\u{8}' {
                if out.len() > 0 {
                    out.pop();
                }
            } else if c == '\u{1b}' {
                saw_esc = true;
            } else {
                out.push(c);
            }
        }
        i += 1;
    }
    proof {
        assert(text@.take(text@.len() as int) =~= text@);
    }
    chars_to_string(&out)
}

/// De-formatting never emits a backspace or an escape byte.
pub proof fn lemma_strip_output_formatting_free(s: Seq<char>)
    ensures
        formatting_free(strip_man_spec(s)),
    decreases s.len(),
{
    if s.len() > 0 {
        lemma_strip_output_formatting_free(s.drop_last());
        let st = strip_run(s.drop_last());
        assert(formatting_free(st.0));
        let stepped = strip_step(st.0, st.1, s.last());
        assert(formatting_free(stepped.0)) by {
            if stepped.0 =~= st.0 {
            } else if st.0.len() > 0 && stepped.0 =~= st.0.drop_last() {
            }
        }
    }
}

/// On formatting-free text the de-formatter is the identity.
pub proof fn lemma_strip_formatting_free_identity(s: Seq<char>)
    requires
        formatting_free(s),
    ensures
        strip_run(s) == (s, StripMode::Normal),
    decreases s.len(),
{
    if s.len() == 0 {
        assert(strip_run(s).0 =~= s);
    } else {
        assert(formatting_free(s.drop_last()));
        lemma_strip_formatting_free_identity(s.drop_last());
        assert(strip_run(s).0 =~= s);
    }
}

/// Applying the de-formatter twice yields the same result as applying it
/// once, on formatting-free input.
pub proof fn lemma_strip_idempotent(s: Seq<char>)
    requires
        formatting_free(s),
    ensures
        strip_man_spec(strip_man_spec(s)) == strip_man_spec(s),
{
    lemma_strip_formatting_free_identity(s);
    lemma_strip_formatting_free_identity(strip_man_spec(s));
}

/// De-formatting is in fact idempotent on every input, since its output
/// never carries formatting bytes.
pub proof fn lemma_strip_idempotent_all(s: Seq<char>)
    ensures
        strip_man_spec(strip_man_spec(s)) == strip_man_spec(s),
{
    lemma_strip_output_formatting_free(s);
    lemma_strip_formatting_free_identity(strip_man_spec(s));
}

// ---------------------------------------------------------------------------
// The looks-like-help heuristic
// ---------------------------------------------------------------------------
/// Case-insensitive occurrence of any of the five help markers.
pub open spec fn looks_like_help_spec(s: Seq<char>) -> bool {
    ||| contains_ci(s, "usage:"@)
    ||| contains_ci(s, "options:"@)
    ||| contains_ci(s, "commands:"@)
    ||| contains_ci(s, "--help"@)
    ||| contains_ci(s, "synopsis"@)
}

pub fn looks_like_help(text: &str) -> (r: bool)
    ensures
        r == looks_like_help_spec(text@),
{
    let chars = str_to_chars(text);
    let u = str_to_chars("usage:");
    let o = str_to_chars("options:");
    let c = str_to_chars("commands:");
    let h = str_to_chars("--help");
    let s = str_to_chars("synopsis");
    chars_contains_ci(&chars, &u) || chars_contains_ci(&chars, &o) || chars_contains_ci(
        &chars,
        &c,
    ) || chars_contains_ci(&chars, &h) || chars_contains_ci(&chars, &s)
}

// ---------------------------------------------------------------------------
// Template expansion
// ---------------------------------------------------------------------------
/// Replacement of every occurrence of `from`, scanned left to right.
pub open spec fn replace_spec(s: Seq<char>, from: Seq<char>, to: Seq<char>) -> Seq<char>
    decreases s.len(),
{
    if from.len() == 0 || s.len() < from.len() {
        s
    } else if starts_with(s, from) {
        to + replace_spec(s.skip(from.len() as int), from, to)
    } else {
        seq![s[0]] + replace_spec(s.drop_first(), from, to)
    }
}

#[verifier::loop_isolation(false)]
pub fn chars_replace(s: &Vec<char>, from: &Vec<char>, to: &Vec<char>) -> (r: Vec<char>)
    ensures
        r@ == replace_spec(s@, from@, to@),
{
    let mut out: Vec<char> = Vec::new();
    let mut i: usize = 0;
    proof {
        assert(s@.skip(0) =~= s@);
    }
    while i < s.len()
        invariant
            0 <= i <= s@.len(),
            replace_spec(s@, from@, to@) =~= out@ + replace_spec(
                s@.skip(i as int),
                from@,
                to@,
            ),
        decreases s@.len() - i,
    {
        let rest_len = s.len() - i;
        let mut matched = false;
        if from.len() > 0 && from.len() <= rest_len {
            matched = true;
            let mut j: usize = 0;
            while j < from.len()
                invariant
                    0 <= j <= from@.len(),
                    from@.len() <= s@.len() - i,
                    matched ==> forall|k: int| 0 <= k < j ==> s@[i + k] == from@[k],
                    !matched ==> !starts_with(s@.skip(i as int), from@),
                decreases from@.len() - j,
            {
                if s[i + j] != from[j] {
                    matched = false;
                    proof {
                        assert(s@.skip(i as int)[j as int] == s@[i + j]);
                    }
                    break;
                }
                j += 1;
            }
            proof {
                if matched {
                    assert(forall|k: int|
                        0 <= k < from@.len() ==> s@.skip(i as int)[k] == s@[i + k]);
                    assert(starts_with(s@.skip(i as int), from@));
                }
            }
        }
        if matched {
            let ghost out0 = out@;
            let mut j: usize = 0;
            while j < to.len()
                invariant
                    0 <= j <= to@.len(),
                    out@ =~= out0 + to@.take(j as int),
                decreases to@.len() - j,
            {
                out.push(to[j]);
                j += 1;
            }
            proof {
                assert(out@ =~= out0 + to@);
                assert(s@.skip(i as int).skip(from@.len() as int) =~= s@.skip(
                    i + from@.len(),
                ));
            }
            i += from.len();
        } else {
            proof {
                if from@.len() == 0 || s@.skip(i as int).len() < from@.len() {
                } else {
                    assert(!starts_with(s@.skip(i as int), from@));
                }
                assert(s@.skip(i as int).drop_first() =~= s@.skip(i + 1));
                assert(s@.skip(i as int)[0] == s@[i as int]);
            }
            out.push(s[i]);
            i += 1;
        }
    }
    proof {
        assert(s@.skip(s@.len() as int) =~= Seq::<char>::empty());
    }
    out
}

/// A help-fetch template with its placeholders filled in: `{cmd}` is the
/// whole path joined by spaces, `{base}` its first token, `{sub}` the rest.
pub open spec fn expand_template_spec(
    t: Seq<char>,
    cmd: Seq<char>,
    base: Seq<char>,
    sub: Seq<char>,
) -> Seq<char> {
    replace_spec(replace_spec(replace_spec(t, "{cmd}"@, cmd), "{base}"@, base), "{sub}"@, sub)
}

/// The argument vector a template yields for a command path: expand the
/// placeholders, then split on whitespace.
pub open spec fn argv_of_template(t: Seq<char>, path: Seq<Seq<char>>) -> Seq<Seq<char>> {
    split_ws_spec(
        expand_template_spec(
            t,
            join_spec(path, " "@),
            path[0],
            join_spec(path.drop_first(), " "@),
        ),
    )
}

// ---------------------------------------------------------------------------
// Planning the candidate invocations
// ---------------------------------------------------------------------------
/// How a candidate invocation's output is to be judged: as plain help output
/// or as manual-page output.
#[derive(Debug, Clone, Copy, PartialEq, Eq, Structural)]
pub enum RequestKind {
    Help,
    Man,
}

/// One candidate invocation: the argument vector to spawn (first element is
/// the program) and how to judge its output.
pub struct CommandRequest {
    pub argv: Vec<String>,
    pub kind: RequestKind,
}

#[verifier::ext_equal]
pub ghost struct CommandRequestView {
    pub argv: Seq<Seq<char>>,
    pub kind: RequestKind,
}

impl View for CommandRequest {
    type V = CommandRequestView;

    open spec fn view(&self) -> CommandRequestView {
        CommandRequestView { argv: self.argv.deep_view(), kind: self.kind }
    }
}

impl DeepView for CommandRequest {
    type V = CommandRequestView;

    open spec fn deep_view(&self) -> CommandRequestView {
        self.view()
    }
}

/// The non-empty argument vectors of the templates, in order.
pub open spec fn plan_templates(flags: Seq<Seq<char>>, path: Seq<Seq<char>>) -> Seq<
    Seq<Seq<char>>,
>
    decreases flags.len(),
{
    if flags.len() == 0 {
        Seq::empty()
    } else {
        let init = plan_templates(flags.drop_last(), path);
        let argv = argv_of_template(flags.last(), path);
        if argv.len() > 0 {
            init.push(argv)
        } else {
            init
        }
    }
}

/// All candidate invocations for a command path, in the order they are
/// tried: template invocations first, then the manual-page fallback
/// (`man base-sub1-...`, and for a bare base command `man base` once more).
pub open spec fn plan_spec(path: Seq<Seq<char>>, c: &Config) -> Seq<CommandRequestView> {
    let flags = if path.len() == 1 {
        spec_help_flags(c, path[0])
    } else {
        spec_subcommand_help_flags(c, path[0])
    };
    let helps = plan_templates(flags, path).map_values(
        |argv: Seq<Seq<char>>| CommandRequestView { argv, kind: RequestKind::Help },
    );
    let man_joined = CommandRequestView {
        argv: seq!["man"@, join_spec(path, "-"@)],
        kind: RequestKind::Man,
    };
    if path.len() == 1 {
        helps + seq![man_joined, CommandRequestView {
            argv: seq!["man"@, path[0]],
            kind: RequestKind::Man,
        }]
    } else {
        helps + seq![man_joined]
    }
}

#[verifier::loop_isolation(false)]
pub(crate) fn strings_of_chars(v: Vec<Vec<char>>) -> (r: Vec<String>)
    ensures
        r.deep_view() == v.deep_view(),
{
    let mut r: Vec<String> = Vec::new();
    let mut i: usize = 0;
    proof {
        assert forall|k: int| 0 <= k < v@.len() implies #[trigger] v.deep_view()[k] == v@[k]@ by {
            assert(v@[k].deep_view() =~= v@[k]@);
        }
    }
    while i < v.len()
        invariant
            0 <= i <= v@.len(),
            r.deep_view() =~~= v.deep_view().take(i as int),
        decreases v@.len() - i,
    {
        r.push(chars_to_string(&v[i]));
        proof {
            assert(r.deep_view() =~~= v.deep_view().take(i + 1));
        }
        i += 1;
    }
    proof {
        assert(v.deep_view().take(v@.len() as int) =~~= v.deep_view());
    }
    r
}

/// Expands one template against a command path and tokenizes the result.
#[verifier::loop_isolation(false)]
pub fn template_argv(template: &str, path: &Vec<String>) -> (r: Vec<String>)
    requires
        path@.len() > 0,
    ensures
        r.deep_view() == argv_of_template(template@, path.deep_view()),
{
    let full = crate::text::join_strings(path, " ");
    let base = &path[0];
    let mut tail: Vec<String> = Vec::new();
    let mut i: usize = 1;
    while i < path.len()
        invariant
            1 <= i <= path@.len(),
            tail.deep_view() =~~= path.deep_view().subrange(1, i as int),
        decreases path@.len() - i,
    {
        tail.push(path[i].clone());
        proof {
            assert(tail.deep_view() =~~= path.deep_view().subrange(1, i + 1));
        }
        i += 1;
    }
    proof {
        assert(path.deep_view().subrange(1, path@.len() as int) =~~= path.deep_view().drop_first());
    }
    let sub = crate::text::join_strings(&tail, " ");
    let t = str_to_chars(template);
    let step1 = chars_replace(&t, &str_to_chars("{cmd}"), &str_to_chars(full.as_str()));
    let step2 = chars_replace(&step1, &str_to_chars("{base}"), &str_to_chars(base.as_str()));
    let step3 = chars_replace(&step2, &str_to_chars("{sub}"), &str_to_chars(sub.as_str()));
    let words = chars_split_ws(&step3);
    strings_of_chars(words)
}

/// Plans every candidate invocation for a command path; an empty path is the
/// one input that is refused.
#[verifier::loop_isolation(false)]
pub fn plan_requests(cmd: &Vec<String>, config: &Config) -> (r: Result<
    Vec<CommandRequest>,
    FetchError,
>)
    ensures
        cmd@.len() == 0 ==> r matches Err(FetchError::NoCommand),
        cmd@.len() > 0 ==> (r matches Ok(v) && v.deep_view() == plan_spec(
            cmd.deep_view(),
            config,
        )),
{
    if cmd.len() == 0 {
        return Err(FetchError::NoCommand);
    }
    let flags = if cmd.len() == 1 {
        config.get_help_flags(cmd[0].as_str())
    } else {
        config.get_subcommand_help_flags(cmd[0].as_str())
    };
    let ghost flags_v = flags.deep_view();
    let mut reqs: Vec<CommandRequest> = Vec::new();
    let mut i: usize = 0;
    while i < flags.len()
        invariant
            0 <= i <= flags@.len(),
            flags.deep_view() == flags_v,
            reqs.deep_view() =~~= plan_templates(
                flags_v.take(i as int),
                cmd.deep_view(),
            ).map_values(
                |argv: Seq<Seq<char>>| CommandRequestView { argv, kind: RequestKind::Help },
            ),
        decreases flags@.len() - i,
    {
        proof {
            assert(flags_v.take(i + 1).drop_last() =~~= flags_v.take(i as int));
            assert(flags_v.take(i + 1).last() == flags_v[i as int]);
            assert(flags.deep_view()[i as int] == flags@[i as int]@);
        }
        let argv = template_argv(flags[i].as_str(), cmd);
        proof {
            let f = |argv: Seq<Seq<char>>| CommandRequestView { argv, kind: RequestKind::Help };
            let pt0 = plan_templates(flags_v.take(i as int), cmd.deep_view());
            let pt1 = plan_templates(flags_v.take(i + 1), cmd.deep_view());
            let a = argv_of_template(flags_v[i as int], cmd.deep_view());
            assert(argv.deep_view() == a);
            if a.len() > 0 {
                assert(pt1 == pt0.push(a));
                assert(pt1.map_values(f) =~~= pt0.map_values(f).push(f(a)));
            } else {
                assert(pt1 == pt0);
            }
        }
        if argv.len() > 0 {
            reqs.push(CommandRequest { argv, kind: RequestKind::Help });
        }
        proof {
            assert(reqs.deep_view() =~~= plan_templates(
                flags_v.take(i + 1),
                cmd.deep_view(),
            ).map_values(
                |argv: Seq<Seq<char>>| CommandRequestView { argv, kind: RequestKind::Help },
            ));
        }
        i += 1;
    }
    proof {
        assert(flags_v.take(flags_v.len() as int) =~~= flags_v);
    }
    let dash = str_to_chars("-");
    let mut cparts: Vec<Vec<char>> = Vec::new();
    let mut j: usize = 0;
    while j < cmd.len()
        invariant
            0 <= j <= cmd@.len(),
            cparts.deep_view() =~~= cmd.deep_view().take(j as int),
        decreases cmd@.len() - j,
    {
        cparts.push(str_to_chars(cmd[j].as_str()));
        proof {
            assert(cparts.deep_view() =~~= cmd.deep_view().take(j + 1));
        }
        j += 1;
    }
    proof {
        assert(cparts.deep_view() =~~= cmd.deep_view());
    }
    let man_page = chars_to_string(&chars_join(&cparts, &dash));
    let mut man_argv: Vec<String> = Vec::new();
    man_argv.push("man".to_owned());
    man_argv.push(man_page);
    reqs.push(CommandRequest { argv: man_argv, kind: RequestKind::Man });
    if cmd.len() == 1 {
        let mut man_argv1: Vec<String> = Vec::new();
        man_argv1.push("man".to_owned());
        man_argv1.push(cmd[0].clone());
        reqs.push(CommandRequest { argv: man_argv1, kind: RequestKind::Man });
    }
    proof {
        assert(reqs.deep_view() =~~= plan_spec(cmd.deep_view(), config));
    }
    Ok(reqs)
}

// ---------------------------------------------------------------------------
// Judging one captured output
// ---------------------------------------------------------------------------
/// The text accepted from one invocation's output, if any.  Help output:
/// non-blank stdout wins; else non-blank stderr of a successful run; else
/// non-blank stderr that looks like help.  Manual-page output: the
/// de-formatted stdout of a successful run, when non-blank.
pub open spec fn spec_accept(kind: RequestKind, out: ProcessOutputView) -> Option<Seq<char>> {
    match kind {
        RequestKind::Help => {
            if !is_blank(out.stdout) {
                Some(out.stdout)
            } else if out.success && !is_blank(out.stderr) {
                Some(out.stderr)
            } else if !is_blank(out.stderr) && looks_like_help_spec(out.stderr) {
                Some(out.stderr)
            } else {
                None
            }
        },
        RequestKind::Man => {
            if out.success && !is_blank(strip_man_spec(out.stdout)) {
                Some(strip_man_spec(out.stdout))
            } else {
                None
            }
        },
    }
}

/// Judges one captured output by the rules above.
pub fn evaluate_request(kind: RequestKind, output: &ProcessOutput) -> (r: Option<String>)
    ensures
        r.deep_view() == spec_accept(kind, output@),
{
    match kind {
        RequestKind::Help => {
            let out_chars = str_to_chars(output.stdout.as_str());
            if !chars_is_blank(&out_chars) {
                return Some(output.stdout.clone());
            }
            let err_chars = str_to_chars(output.stderr.as_str());
            if output.success && !chars_is_blank(&err_chars) {
                return Some(output.stderr.clone());
            }
            if !chars_is_blank(&err_chars) && looks_like_help(output.stderr.as_str()) {
                return Some(output.stderr.clone());
            }
            None
        },
        RequestKind::Man => {
            if !output.success {
                return None;
            }
            let stripped = strip_man_formatting(output.stdout.as_str());
            let stripped_chars = str_to_chars(stripped.as_str());
            if !chars_is_blank(&stripped_chars) {
                Some(stripped)
            } else {
                None
            }
        },
    }
}

/// The source tag of accepted content.
pub open spec fn source_of_kind(kind: RequestKind) -> ContentSource {
    match kind {
        RequestKind::Help => ContentSource::Help,
        RequestKind::Man => ContentSource::Man,
    }
}

/// The first invocation whose output is accepted, walking requests and
/// outputs in step.
pub open spec fn first_accept(
    reqs: Seq<CommandRequestView>,
    outs: Seq<ProcessOutputView>,
) -> Option<(Seq<char>, ContentSource)>
    decreases reqs.len(),
{
    if reqs.len() == 0 || outs.len() == 0 {
        None
    } else {
        match spec_accept(reqs[0].kind, outs[0]) {
            Some(t) => Some((t, source_of_kind(reqs[0].kind))),
            None => first_accept(reqs.drop_first(), outs.drop_first()),
        }
    }
}

/// Selects the best help content for a command path, given one captured
/// output per planned invocation (extra or missing outputs are treated as
/// not accepted).  An empty path yields the no-command error; when nothing
/// is accepted, the failure names the path.
#[verifier::loop_isolation(false)]
pub fn fetch_help(cmd: &Vec<String>, config: &Config, outputs: &Vec<ProcessOutput>) -> (r:
    Result<(String, ContentSource), FetchError>)
    ensures
        cmd@.len() == 0 ==> r matches Err(FetchError::NoCommand),
        cmd@.len() > 0 ==> match first_accept(
            plan_spec(cmd.deep_view(), config),
            outputs.deep_view(),
        ) {
            Some(ts) => (r matches Ok(p) && p.0@ == ts.0 && p.1 == ts.1),
            None => (r matches Err(FetchError::FetchFailed { command }) && command.deep_view()
                == cmd.deep_view()),
        },
{
    let reqs = match plan_requests(cmd, config) {
        Ok(v) => v,
        Err(e) => {
            return Err(e);
        },
    };
    let ghost reqs_v = reqs.deep_view();
    let ghost outs_v = outputs.deep_view();
    let n = if reqs.len() < outputs.len() {
        reqs.len()
    } else {
        outputs.len()
    };
    let mut i: usize = 0;
    proof {
        assert(reqs_v.skip(0) =~~= reqs_v);
        assert(outs_v.skip(0) =~~= outs_v);
    }
    while i < n
        invariant
            0 <= i <= n,
            n <= reqs@.len(),
            n <= outputs@.len(),
            reqs.deep_view() == reqs_v,
            outputs.deep_view() == outs_v,
            first_accept(reqs_v, outs_v) == first_accept(
                reqs_v.skip(i as int),
                outs_v.skip(i as int),
            ),
        decreases n - i,
    {
        proof {
            assert(reqs_v.skip(i as int)[0] == reqs_v[i as int]);
            assert(outs_v.skip(i as int)[0] == outs_v[i as int]);
            assert(reqs_v.skip(i as int).drop_first() =~~= reqs_v.skip(i + 1));
            assert(outs_v.skip(i as int).drop_first() =~~= outs_v.skip(i + 1));
        }
        match evaluate_request(reqs[i].kind, &outputs[i]) {
            Some(text) => {
                let source = match reqs[i].kind {
                    RequestKind::Help => ContentSource::Help,
                    RequestKind::Man => ContentSource::Man,
                };
                return Ok((text, source));
            },
            None => {},
        }
        i += 1;
    }
    proof {
        if i == reqs@.len() {
            assert(reqs_v.skip(i as int) =~~= Seq::<CommandRequestView>::empty());
        } else {
            assert(outs_v.skip(i as int) =~~= Seq::<ProcessOutputView>::empty());
        }
    }
    Err(FetchError::FetchFailed { command: crate::toolpacks::clone_strings(cmd) })
}

// ---------------------------------------------------------------------------
// Direct invocation for toolpack-driven drills
// ---------------------------------------------------------------------------
/// The argument vector of an invoke template, with `{base}` and `{name}`
/// expanded.
pub open spec fn invoke_argv_spec(template: Seq<char>, base: Seq<char>, name: Seq<char>) -> Seq<
    Seq<char>,
> {
    split_ws_spec(replace_spec(replace_spec(template, "{base}"@, base), "{name}"@, name))
}

/// Expands an invoke template for a drill into a discovered item.
pub fn invoke_argv(base_cmd: &str, item_name: &str, invoke_template: &str) -> (r: Vec<String>)
    ensures
        r.deep_view() == invoke_argv_spec(invoke_template@, base_cmd@, item_name@),
{
    let t = str_to_chars(invoke_template);
    let step1 = chars_replace(&t, &str_to_chars("{base}"), &str_to_chars(base_cmd));
    let step2 = chars_replace(&step1, &str_to_chars("{name}"), &str_to_chars(item_name));
    let words = chars_split_ws(&step2);
    strings_of_chars(words)
}

/// The text accepted from a direct invocation: non-blank stdout, else
/// non-blank stderr when the run succeeded or the text looks like help.
pub open spec fn spec_accept_invoke(out: ProcessOutputView) -> Option<Seq<char>> {
    if !is_blank(out.stdout) {
        Some(out.stdout)
    } else if !is_blank(out.stderr) && (out.success || looks_like_help_spec(out.stderr)) {
        Some(out.stderr)
    } else {
        None
    }
}

/// Judges the output of a direct invocation; a template that expands to no
/// tokens is refused as having no command.
pub fn fetch_help_with_invoke(
    base_cmd: &str,
    item_name: &str,
    invoke_template: &str,
    output: &ProcessOutput,
) -> (r: Result<String, FetchError>)
    ensures
        invoke_argv_spec(invoke_template@, base_cmd@, item_name@).len() == 0 ==> r matches Err(
            FetchError::NoCommand,
        ),
        invoke_argv_spec(invoke_template@, base_cmd@, item_name@).len() > 0 ==> match spec_accept_invoke(
            output@,
        ) {
            Some(t) => (r matches Ok(s) && s@ == t),
            None => (r matches Err(FetchError::FetchFailed { command }) && command.deep_view()
                == seq![base_cmd@, item_name@]),
        },
{
    let argv = invoke_argv(base_cmd, item_name, invoke_template);
    if argv.len() == 0 {
        return Err(FetchError::NoCommand);
    }
    let out_chars = str_to_chars(output.stdout.as_str());
    if !chars_is_blank(&out_chars) {
        return Ok(output.stdout.clone());
    }
    let err_chars = str_to_chars(output.stderr.as_str());
    if !chars_is_blank(&err_chars) && (output.success || looks_like_help(
        output.stderr.as_str(),
    )) {
        return Ok(output.stderr.clone());
    }
    let mut command: Vec<String> = Vec::new();
    command.push(base_cmd.to_owned());
    command.push(item_name.to_owned());
    Err(FetchError::FetchFailed { command })
}

/// The source tag a drill template implies: manual-page content when the
/// template starts with `man `, plain help otherwise.
pub fn invoke_source(invoke_template: &str) -> (r: ContentSource)
    ensures
        r == (if starts_with(invoke_template@, "man "@) {
            ContentSource::Man
        } else {
            ContentSource::Help
        }),
{
    let t = str_to_chars(invoke_template);
    let prefix = str_to_chars("man ");
    if crate::text::chars_starts_with(&t, &prefix) {
        ContentSource::Man
    } else {
        ContentSource::Help
    }
}

} // verus!
