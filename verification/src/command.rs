use vstd::prelude::*;

use crate::config::LaunchConfig;
use crate::text::{decimal, decimal_text, has_infix, push_decimal, replace_all, replace_text};

verus! {

broadcast use vstd::string::group_string_axioms;

/// One option of the server's command line: its flag, its value if it has
/// one, and whether the shown command puts the value in double quotes.
pub struct LaunchOption {
    pub flag: &'static str,
    pub value: Option<String>,
    pub quoted: bool,
}

pub open spec fn opt_value_view(v: Option<String>) -> Option<Seq<char>> {
    match v {
        Some(s) => Some(s@),
        None => None,
    }
}

impl DeepView for LaunchOption {
    type V = (Seq<char>, Option<Seq<char>>, bool);

    open spec fn deep_view(&self) -> Self::V {
        (self.flag@, opt_value_view(self.value), self.quoted)
    }
}

pub open spec fn opt(flag: Seq<char>, value: Seq<char>) -> (Seq<char>, Option<Seq<char>>, bool) {
    (flag, Some(value), false)
}

pub open spec fn quoted_opt(flag: Seq<char>, value: Seq<char>) -> (
    Seq<char>,
    Option<Seq<char>>,
    bool,
) {
    (flag, Some(value), true)
}

pub open spec fn switch(flag: Seq<char>) -> (Seq<char>, Option<Seq<char>>, bool) {
    (flag, None, false)
}

pub open spec fn when(
    cond: bool,
    o: (Seq<char>, Option<Seq<char>>, bool),
) -> Seq<(Seq<char>, Option<Seq<char>>, bool)> {
    if cond {
        seq![o]
    } else {
        seq![]
    }
}

/// The options with which the server is started, in order.
pub open spec fn launch_options(c: LaunchConfig) -> Seq<(Seq<char>, Option<Seq<char>>, bool)> {
    seq![
        quoted_opt("--model"@, c.model_path@),
        opt("--host"@, c.host@),
        opt("--port"@, decimal_text(c.port as int)),
        opt("--n-gpu-layers"@, decimal_text(c.n_gpu_layers as int)),
        opt("--ctx-size"@, decimal_text(c.ctx_size as int)),
        opt("--threads"@, decimal_text(c.threads as int)),
        opt("--threads-batch"@, decimal_text(c.threads_batch as int)),
        opt("--batch-size"@, decimal_text(c.batch_size as int)),
        opt("--ubatch-size"@, decimal_text(c.ubatch_size as int)),
    ] + when(c.flash_attn, opt("--flash-attn"@, "on"@)) + seq![
        opt("--cache-type-k"@, c.kv_cache_type@),
        opt("--cache-type-v"@, c.kv_cache_type@),
    ] + when(c.verbose, switch("--verbose"@)) + when(!c.warmup, switch("--no-warmup"@)) + when(
        !c.continuous_batching,
        switch("--no-cont-batching"@),
    ) + seq![opt("--parallel"@, decimal_text(c.n_parallel as int))] + when(
        c.mmproj_path@.len() > 0,
        quoted_opt("--mmproj"@, c.mmproj_path@),
    ) + seq![switch("--props"@)]
}

/// The separate arguments that one option adds to the command line.
pub open spec fn option_tokens(o: (Seq<char>, Option<Seq<char>>, bool)) -> Seq<Seq<char>> {
    match o.1 {
        Some(v) => seq![o.0, v],
        None => seq![o.0],
    }
}

/// How one option is shown in the command preview.
pub open spec fn option_text(o: (Seq<char>, Option<Seq<char>>, bool)) -> Seq<char> {
    match o.1 {
        Some(v) => o.0 + " "@ + (if o.2 {
            "\""@ + v + "\""@
        } else {
            v
        }),
        None => o.0,
    }
}

/// The arguments for a list of options.
pub open spec fn tokens_of(opts: Seq<(Seq<char>, Option<Seq<char>>, bool)>) -> Seq<Seq<char>>
    decreases opts.len(),
{
    if opts.len() == 0 {
        seq![]
    } else {
        tokens_of(opts.drop_last()) + option_tokens(opts.last())
    }
}

/// The line break, with the continuation mark of the Windows shell, that
/// precedes each option in the command preview.
pub open spec fn preview_separator() -> Seq<char> {
    " ^\n  "@
}

/// The preview text for a list of options, each on a line of its own.
pub open spec fn preview_of(opts: Seq<(Seq<char>, Option<Seq<char>>, bool)>) -> Seq<char>
    decreases opts.len(),
{
    if opts.len() == 0 {
        seq![]
    } else {
        preview_of(opts.drop_last()) + preview_separator() + option_text(opts.last())
    }
}

/// The arguments with which the server program is started.
pub open spec fn launch_arguments(c: LaunchConfig) -> Seq<Seq<char>> {
    tokens_of(launch_options(c))
}

/// The command shown to the user: the server program, then each option on
/// a continued line.
pub open spec fn command_preview(c: LaunchConfig) -> Seq<char> {
    c.llama_server_path@ + preview_of(launch_options(c))
}

fn option_value(flag: &'static str, value: String) -> (r: LaunchOption)
    ensures
        r.deep_view() == opt(flag@, value@),
{
    LaunchOption { flag, value: Some(value), quoted: false }
}

fn number_option(flag: &'static str, n: i64) -> (r: LaunchOption)
    ensures
        r.deep_view() == opt(flag@, decimal_text(n as int)),
{
    LaunchOption { flag, value: Some(decimal(n)), quoted: false }
}

fn switch_option(flag: &'static str) -> (r: LaunchOption)
    ensures
        r.deep_view() == switch(flag@),
{
    LaunchOption { flag, value: None, quoted: false }
}

fn push_when(r: &mut Vec<LaunchOption>, cond: bool, o: LaunchOption)
    ensures
        final(r).deep_view() == old(r).deep_view() + when(cond, o.deep_view()),
{
    let ghost before = r.deep_view();
    if cond {
        r.push(o);
    }
    assert(r.deep_view() =~= before + when(cond, o.deep_view()));
}

fn sized_options(c: &LaunchConfig) -> (r: Vec<LaunchOption>)
    ensures
        r.deep_view() == seq![
            quoted_opt("--model"@, c.model_path@),
            opt("--host"@, c.host@),
            opt("--port"@, decimal_text(c.port as int)),
            opt("--n-gpu-layers"@, decimal_text(c.n_gpu_layers as int)),
            opt("--ctx-size"@, decimal_text(c.ctx_size as int)),
            opt("--threads"@, decimal_text(c.threads as int)),
            opt("--threads-batch"@, decimal_text(c.threads_batch as int)),
            opt("--batch-size"@, decimal_text(c.batch_size as int)),
            opt("--ubatch-size"@, decimal_text(c.ubatch_size as int)),
        ],
{
    let mut r: Vec<LaunchOption> = Vec::new();
    r.push(LaunchOption { flag: "--model", value: Some(c.model_path.clone()), quoted: true });
    r.push(option_value("--host", c.host.clone()));
    r.push(number_option("--port", c.port as i64));
    r.push(number_option("--n-gpu-layers", c.n_gpu_layers as i64));
    r.push(number_option("--ctx-size", c.ctx_size as i64));
    r.push(number_option("--threads", c.threads as i64));
    r.push(number_option("--threads-batch", c.threads_batch as i64));
    r.push(number_option("--batch-size", c.batch_size as i64));
    r.push(number_option("--ubatch-size", c.ubatch_size as i64));
    assert(r.deep_view() =~= seq![
        quoted_opt("--model"@, c.model_path@),
        opt("--host"@, c.host@),
        opt("--port"@, decimal_text(c.port as int)),
        opt("--n-gpu-layers"@, decimal_text(c.n_gpu_layers as int)),
        opt("--ctx-size"@, decimal_text(c.ctx_size as int)),
        opt("--threads"@, decimal_text(c.threads as int)),
        opt("--threads-batch"@, decimal_text(c.threads_batch as int)),
        opt("--batch-size"@, decimal_text(c.batch_size as int)),
        opt("--ubatch-size"@, decimal_text(c.ubatch_size as int)),
    ]);
    r
}

/// The options with which the server is started, in order.
pub fn launch_option_list(c: &LaunchConfig) -> (r: Vec<LaunchOption>)
    ensures
        r.deep_view() == launch_options(*c),
{
    let mut r = sized_options(c);
    push_when(&mut r, c.flash_attn, option_value("--flash-attn", String::from_str("on")));
    let ghost a = r.deep_view();
    r.push(option_value("--cache-type-k", c.kv_cache_type.clone()));
    r.push(option_value("--cache-type-v", c.kv_cache_type.clone()));
    assert(r.deep_view() =~= a + seq![
        opt("--cache-type-k"@, c.kv_cache_type@),
        opt("--cache-type-v"@, c.kv_cache_type@),
    ]);
    push_when(&mut r, c.verbose, switch_option("--verbose"));
    push_when(&mut r, !c.warmup, switch_option("--no-warmup"));
    push_when(&mut r, !c.continuous_batching, switch_option("--no-cont-batching"));
    let ghost b = r.deep_view();
    r.push(number_option("--parallel", c.n_parallel as i64));
    assert(r.deep_view() =~= b + seq![opt("--parallel"@, decimal_text(c.n_parallel as int))]);
    let has_mmproj = c.mmproj_path.as_str().unicode_len() > 0;
    push_when(
        &mut r,
        has_mmproj,
        LaunchOption { flag: "--mmproj", value: Some(c.mmproj_path.clone()), quoted: true },
    );
    let ghost d = r.deep_view();
    r.push(switch_option("--props"));
    assert(r.deep_view() =~= d + seq![switch("--props"@)]);
    r
}

/// The arguments with which the server program is started.
pub fn launch_args(config: &LaunchConfig) -> (r: Vec<String>)
    ensures
        r.deep_view() == launch_arguments(*config),
{
    let opts = launch_option_list(config);
    let ghost ov = opts.deep_view();
    let mut r: Vec<String> = Vec::new();
    let n = opts.len();
    for i in 0..n
        invariant
            n == opts@.len(),
            ov == opts.deep_view(),
            r.deep_view() == tokens_of(ov.take(i as int)),
    {
        let o = &opts[i];
        assert(ov.take(i + 1).drop_last() =~= ov.take(i as int));
        assert(ov.take(i + 1).last() == ov[i as int]);
        r.push(String::from_str(o.flag));
        match &o.value {
            Some(v) => {
                r.push(v.clone());
            },
            None => {},
        }
        assert(r.deep_view() =~= tokens_of(ov.take(i + 1)));
    }
    assert(ov.take(n as int) =~= ov);
    r
}

/// The command line shown to the user before the server is started.
pub fn build_command(config: &LaunchConfig) -> (r: String)
    ensures
        r@ == command_preview(*config),
{
    let opts = launch_option_list(config);
    let ghost ov = opts.deep_view();
    let mut r = config.llama_server_path.clone();
    let n = opts.len();
    for i in 0..n
        invariant
            n == opts@.len(),
            ov == opts.deep_view(),
            r@ == config.llama_server_path@ + preview_of(ov.take(i as int)),
    {
        let o = &opts[i];
        assert(ov.take(i + 1).drop_last() =~= ov.take(i as int));
        assert(ov.take(i + 1).last() == ov[i as int]);
        r.append(" ^\n  ");
        r.append(o.flag);
        match &o.value {
            Some(v) => {
                r.append(" ");
                if o.quoted {
                    r.append("\"");
                    r.append(v.as_str());
                    r.append("\"");
                } else {
                    r.append(v.as_str());
                }
            },
            None => {},
        }
        assert(r@ =~= config.llama_server_path@ + preview_of(ov.take(i + 1)));
    }
    assert(ov.take(n as int) =~= ov);
    r
}

/// The server's OpenAI-compatible endpoint for a host and port.
pub open spec fn api_url_text(host: Seq<char>, port: u16) -> Seq<char> {
    "http://"@ + host + ":"@ + decimal_text(port as int) + "/v1"@
}

/// The address of the server's properties endpoint.
pub open spec fn props_url_text(host: Seq<char>, port: u16) -> Seq<char> {
    "http://"@ + host + ":"@ + decimal_text(port as int) + "/props"@
}

/// The address of the server's web interface.
pub open spec fn web_ui_url_text(port: u16) -> Seq<char> {
    "http://localhost:"@ + decimal_text(port as int)
}

fn host_port_url(host: &str, port: u16, path: &str) -> (r: String)
    ensures
        r@ == "http://"@ + host@ + ":"@ + decimal_text(port as int) + path@,
{
    let mut r = String::from_str("http://");
    r.append(host);
    r.append(":");
    push_decimal(&mut r, port as i64);
    r.append(path);
    r
}

/// The server's OpenAI-compatible endpoint.
pub fn api_url(host: &str, port: u16) -> (r: String)
    ensures
        r@ == api_url_text(host@, port),
{
    host_port_url(host, port, "/v1")
}

/// The address of the server's properties endpoint.
pub fn props_url(host: &str, port: u16) -> (r: String)
    ensures
        r@ == props_url_text(host@, port),
{
    host_port_url(host, port, "/props")
}

/// The address of the server's web interface on this machine.
pub fn web_ui_url(port: u16) -> (r: String)
    ensures
        r@ == web_ui_url_text(port),
{
    let mut r = String::from_str("http://localhost:");
    push_decimal(&mut r, port as i64);
    r
}

/// The arguments for `curl` that fetch the server's properties; the
/// background check gives up after two seconds without a connection.
pub open spec fn props_request(host: Seq<char>, port: u16, with_timeout: bool) -> Seq<
    Seq<char>,
> {
    if with_timeout {
        seq!["-s"@, "--connect-timeout"@, "2"@, props_url_text(host, port)]
    } else {
        seq!["-s"@, props_url_text(host, port)]
    }
}

/// The arguments for `curl` that fetch the server's properties.
pub fn props_request_args(host: &str, port: u16, with_timeout: bool) -> (r: Vec<String>)
    ensures
        r.deep_view() == props_request(host@, port, with_timeout),
{
    let mut r: Vec<String> = Vec::new();
    r.push(String::from_str("-s"));
    if with_timeout {
        r.push(String::from_str("--connect-timeout"));
        r.push(String::from_str("2"));
    }
    r.push(props_url(host, port));
    assert(r.deep_view() =~= props_request(host@, port, with_timeout));
    r
}

/// The arguments for the Windows shell that open an address in the
/// default browser.
pub open spec fn open_url_command(url: Seq<char>) -> Seq<Seq<char>> {
    seq!["/c"@, "start"@, ""@, url]
}

/// The arguments for the Windows shell that open `url` in the browser.
pub fn open_url_args(url: &str) -> (r: Vec<String>)
    ensures
        r.deep_view() == open_url_command(url@),
{
    proof {
        reveal_strlit("");
    }
    let mut r: Vec<String> = Vec::new();
    r.push(String::from_str("/c"));
    r.push(String::from_str("start"));
    let blank = String::new();
    assert(blank@ =~= ""@);
    r.push(blank);
    r.push(String::from_str(url));
    assert(r.deep_view() =~= open_url_command(url@));
    r
}

/// `text` as a single-quoted PowerShell string: each quote is doubled.
pub open spec fn powershell_quoted(text: Seq<char>) -> Seq<char> {
    "'"@ + replace_all(text, "'"@, "''"@) + "'"@
}

/// The PowerShell arguments that put `text` on the clipboard.
pub open spec fn clipboard_command(text: Seq<char>) -> Seq<Seq<char>> {
    seq!["-command"@, "Set-Clipboard -Value "@ + powershell_quoted(text)]
}

/// The PowerShell arguments that put `text` on the clipboard.
pub fn clipboard_args(text: &str) -> (r: Vec<String>)
    ensures
        r.deep_view() == clipboard_command(text@),
{
    proof {
        reveal_strlit("'");
    }
    let mut script = String::from_str("Set-Clipboard -Value ");
    script.append("'");
    let escaped = replace_text(text, "'", "''");
    script.append(escaped.as_str());
    script.append("'");
    assert(script@ =~= "Set-Clipboard -Value "@ + powershell_quoted(text@));
    let mut r: Vec<String> = Vec::new();
    r.push(String::from_str("-command"));
    r.push(script);
    assert(r.deep_view() =~= clipboard_command(text@));
    r
}

/// `a` divided by the positive `b`, rounded toward zero as Rust's integer
/// division rounds.
pub open spec fn quotient(a: int, b: int) -> int
    recommends
        b > 0,
{
    if a >= 0 {
        a / b
    } else {
        -((-a) / b)
    }
}

/// `a / b` for a positive `b`, rounded toward zero.
pub fn div_toward_zero(a: i64, b: i64) -> (r: i64)
    requires
        b > 0,
    ensures
        r == quotient(a as int, b as int),
{
    let x = a as i128;
    let y = b as i128;
    let q: i128 = if x >= 0 {
        x / y
    } else {
        -((-x) / y)
    };
    proof {
        if x >= 0 {
            let xx: int = x as int;
            let yy: int = y as int;
            assert(0 <= xx / yy <= xx) by (nonlinear_arith)
                requires
                    xx >= 0,
                    yy > 0,
            ;
        } else {
            let nx: int = -(x as int);
            let yy: int = y as int;
            assert(0 <= nx / yy <= nx) by (nonlinear_arith)
                requires
                    nx > 0,
                    yy > 0,
            ;
        }
    }
    q as i64
}

/// The context each parallel slot gets when the server runs more than one.
pub open spec fn ctx_share(ctx_size: i32, n_parallel: i32) -> Option<int> {
    if n_parallel > 1 {
        Some(quotient(ctx_size as int, n_parallel as int))
    } else {
        None
    }
}

/// The context per sequence when more than one slot runs in parallel.
pub fn ctx_per_seq(ctx_size: i32, n_parallel: i32) -> (r: Option<i32>)
    ensures
        match r {
            Some(v) => ctx_share(ctx_size, n_parallel) == Some(v as int),
            None => ctx_share(ctx_size, n_parallel) is None,
        },
{
    if n_parallel > 1 {
        let q = div_toward_zero(ctx_size as i64, n_parallel as i64);
        proof {
            let a = ctx_size as int;
            let b = n_parallel as int;
            if a >= 0 {
                assert(0 <= a / b <= a) by (nonlinear_arith)
                    requires
                        a >= 0,
                        b > 0,
                ;
            } else {
                let na: int = -a;
                assert(0 <= na / b <= na) by (nonlinear_arith)
                    requires
                        na > 0,
                        b > 0,
                ;
            }
        }
        Some(q as i32)
    } else {
        None
    }
}

/// What PowerShell reads out of the inside of a single-quoted string: each
/// doubled quote stands for one quote.
pub open spec fn powershell_unquoted(inner: Seq<char>) -> Seq<char> {
    replace_all(inner, "''"@, "'"@)
}

proof fn lemma_doubled_quotes_empty(t: Seq<char>)
    ensures
        (replace_all(t, "'"@, "''"@).len() == 0) == (t.len() == 0),
{
    reveal_strlit("'");
    reveal_strlit("''");
}

/// The text put on the clipboard is the text given: undoing the doubling
/// of quotes inside the quoted PowerShell string gives it back.
pub proof fn lemma_clipboard_round_trip(text: Seq<char>)
    ensures
        powershell_unquoted(replace_all(text, "'"@, "''"@)) == text,
    decreases text.len(),
{
    reveal_strlit("'");
    reveal_strlit("''");
    let q = "'"@;
    let qq = "''"@;
    if text.len() > 0 {
        let rest = text.skip(1);
        lemma_clipboard_round_trip(rest);
        let e_rest = replace_all(rest, q, qq);
        if text.take(1) == q {
            let e = qq + e_rest;
            assert(replace_all(text, q, qq) == e);
            assert(e.take(2) =~= qq);
            assert(e.skip(2) =~= e_rest);
            assert(replace_all(e, qq, q) == q + replace_all(e_rest, qq, q));
            assert(q + rest =~= text) by {
                assert(text[0] == q[0]);
            }
        } else {
            let e = seq![text[0]] + e_rest;
            assert(replace_all(text, q, qq) == e);
            lemma_doubled_quotes_empty(rest);
            if e.len() < 2 {
                assert(e_rest.len() == 0);
                assert(rest.len() == 0);
                assert(text =~= seq![text[0]]);
            } else {
                assert(text[0] != '\'') by {
                    if text[0] == '\'' {
                        assert(text.take(1) =~= q);
                    }
                }
                assert(e.take(2) != qq) by {
                    assert(e.take(2)[0] == text[0]);
                }
                assert(e.skip(1) =~= e_rest);
                assert(seq![text[0]] + rest =~= text);
            }
        }
    }
}

// ---------------------------------------------------------------------------
// Each option carries its own field
// ---------------------------------------------------------------------------

/// Whether `flag` is directly followed by `value` among some arguments.
pub open spec fn passes(args: Seq<Seq<char>>, flag: Seq<char>, value: Seq<char>) -> bool {
    exists|k: int|
        0 <= k && k + 1 < args.len() && #[trigger] args[k] == flag && args[k + 1] == value
}

/// Whether the server is started with `flag` followed by `value`, and the
/// preview shows that value after the flag at the start of a line.
pub open spec fn carries(c: LaunchConfig, flag: Seq<char>, value: Seq<char>) -> bool {
    &&& passes(launch_arguments(c), flag, value)
    &&& has_infix(command_preview(c), preview_separator() + flag + " "@ + value)
}

/// An option with a value puts its flag and then its value among the
/// arguments.
proof fn lemma_tokens_pass(opts: Seq<(Seq<char>, Option<Seq<char>>, bool)>, i: int)
    requires
        0 <= i < opts.len(),
        opts[i].1 is Some,
    ensures
        passes(tokens_of(opts), opts[i].0, opts[i].1->0),
    decreases opts.len(),
{
    let d = opts.drop_last();
    let t = tokens_of(opts);
    let td = tokens_of(d);
    assert(t == td + option_tokens(opts.last()));
    if i == opts.len() - 1 {
        let k = td.len() as int;
        assert(t[k] == opts[i].0);
        assert(t[k + 1] == opts[i].1->0);
    } else {
        assert(d[i] == opts[i]);
        lemma_tokens_pass(d, i);
        let k = choose|k: int|
            0 <= k && k + 1 < td.len() && #[trigger] td[k] == opts[i].0 && td[k + 1]
                == opts[i].1->0;
        assert(t[k] == td[k]);
        assert(t[k + 1] == td[k + 1]);
    }
}

/// Text found in a beginning is found in the whole.
proof fn lemma_infix_of_prefix(a: Seq<char>, b: Seq<char>, x: Seq<char>)
    requires
        has_infix(a, x),
    ensures
        has_infix(a + b, x),
{
    let j = choose|j: int|
        0 <= j && j + x.len() <= a.len() && #[trigger] a.subrange(j, j + x.len()) == x;
    assert((a + b).subrange(j, j + x.len()) =~= a.subrange(j, j + x.len()));
}

/// Text found in an ending is found in the whole.
proof fn lemma_infix_of_suffix(a: Seq<char>, b: Seq<char>, x: Seq<char>)
    requires
        has_infix(b, x),
    ensures
        has_infix(a + b, x),
{
    let j = choose|j: int|
        0 <= j && j + x.len() <= b.len() && #[trigger] b.subrange(j, j + x.len()) == x;
    assert((a + b).subrange(a.len() + j, a.len() + j + x.len()) =~= b.subrange(j, j + x.len()));
}

/// Each option is shown on a line of its own in the preview.
proof fn lemma_preview_shows(opts: Seq<(Seq<char>, Option<Seq<char>>, bool)>, i: int)
    requires
        0 <= i < opts.len(),
    ensures
        has_infix(preview_of(opts), preview_separator() + option_text(opts[i])),
    decreases opts.len(),
{
    let d = opts.drop_last();
    let pd = preview_of(d);
    let x = preview_separator() + option_text(opts[i]);
    assert(preview_of(opts) == pd + preview_separator() + option_text(opts.last()));
    if i == opts.len() - 1 {
        assert(preview_of(opts) =~= pd + x);
        assert((pd + x).subrange(pd.len() as int, (pd.len() + x.len()) as int) =~= x);
    } else {
        assert(d[i] == opts[i]);
        lemma_preview_shows(d, i);
        assert(preview_of(opts) =~= pd + (preview_separator() + option_text(opts.last())));
        lemma_infix_of_prefix(pd, preview_separator() + option_text(opts.last()), x);
    }
}

/// The option at `i` of the launch options reaches both the arguments and
/// the preview.
proof fn lemma_option_carried(c: LaunchConfig, i: int)
    requires
        0 <= i < launch_options(c).len(),
        launch_options(c)[i].1 is Some,
    ensures
        passes(launch_arguments(c), launch_options(c)[i].0, launch_options(c)[i].1->0),
        has_infix(command_preview(c), preview_separator() + option_text(launch_options(c)[i])),
{
    lemma_tokens_pass(launch_options(c), i);
    lemma_preview_shows(launch_options(c), i);
    lemma_infix_of_suffix(
        c.llama_server_path@,
        preview_of(launch_options(c)),
        preview_separator() + option_text(launch_options(c)[i]),
    );
}

/// An unquoted option at `i` carries its value.
proof fn lemma_plain_option_carried(c: LaunchConfig, i: int, flag: Seq<char>, value: Seq<char>)
    requires
        0 <= i < launch_options(c).len(),
        launch_options(c)[i] == opt(flag, value),
    ensures
        carries(c, flag, value),
{
    lemma_option_carried(c, i);
    assert(preview_separator() + option_text(opt(flag, value)) =~= preview_separator() + flag
        + " "@ + value);
}

/// A quoted option at `i` is passed as it is and shown in double quotes.
proof fn lemma_quoted_option_carried(c: LaunchConfig, i: int, flag: Seq<char>, value: Seq<char>)
    requires
        0 <= i < launch_options(c).len(),
        launch_options(c)[i] == quoted_opt(flag, value),
    ensures
        passes(launch_arguments(c), flag, value),
        has_infix(command_preview(c), preview_separator() + flag + " \""@ + value + "\""@),
{
    lemma_option_carried(c, i);
    reveal_strlit(" ");
    reveal_strlit("\"");
    reveal_strlit(" \"");
    assert(preview_separator() + option_text(quoted_opt(flag, value)) =~= preview_separator()
        + flag + " \""@ + value + "\""@);
}

/// Every option of the server's command line that takes a value carries
/// the value of its own field of the configuration: among the arguments
/// the flag is directly followed by it, and the preview shows it after the
/// flag at the start of a line. The model and the projector file are shown
/// in double quotes; the projector is passed when one is set, and
/// `--flash-attn on` when flash attention is on.
pub proof fn lemma_options_carry_their_fields(c: LaunchConfig)
    ensures
        passes(launch_arguments(c), "--model"@, c.model_path@),
        has_infix(
            command_preview(c),
            preview_separator() + "--model"@ + " \""@ + c.model_path@ + "\""@,
        ),
        carries(c, "--host"@, c.host@),
        carries(c, "--port"@, decimal_text(c.port as int)),
        carries(c, "--n-gpu-layers"@, decimal_text(c.n_gpu_layers as int)),
        carries(c, "--ctx-size"@, decimal_text(c.ctx_size as int)),
        carries(c, "--threads"@, decimal_text(c.threads as int)),
        carries(c, "--threads-batch"@, decimal_text(c.threads_batch as int)),
        carries(c, "--batch-size"@, decimal_text(c.batch_size as int)),
        carries(c, "--ubatch-size"@, decimal_text(c.ubatch_size as int)),
        carries(c, "--cache-type-k"@, c.kv_cache_type@),
        carries(c, "--cache-type-v"@, c.kv_cache_type@),
        carries(c, "--parallel"@, decimal_text(c.n_parallel as int)),
        c.flash_attn ==> carries(c, "--flash-attn"@, "on"@),
        c.mmproj_path@.len() > 0 ==> passes(launch_arguments(c), "--mmproj"@, c.mmproj_path@),
        c.mmproj_path@.len() > 0 ==> has_infix(
            command_preview(c),
            preview_separator() + "--mmproj"@ + " \""@ + c.mmproj_path@ + "\""@,
        ),
{
    let o = launch_options(c);
    let f: int = if c.flash_attn { 1 } else { 0 };
    let s: int = (if c.verbose { 1int } else { 0int }) + (if !c.warmup { 1int } else { 0int }) + (
    if !c.continuous_batching { 1int } else { 0int });
    lemma_quoted_option_carried(c, 0, "--model"@, c.model_path@);
    lemma_plain_option_carried(c, 1, "--host"@, c.host@);
    lemma_plain_option_carried(c, 2, "--port"@, decimal_text(c.port as int));
    lemma_plain_option_carried(c, 3, "--n-gpu-layers"@, decimal_text(c.n_gpu_layers as int));
    lemma_plain_option_carried(c, 4, "--ctx-size"@, decimal_text(c.ctx_size as int));
    lemma_plain_option_carried(c, 5, "--threads"@, decimal_text(c.threads as int));
    lemma_plain_option_carried(c, 6, "--threads-batch"@, decimal_text(c.threads_batch as int));
    lemma_plain_option_carried(c, 7, "--batch-size"@, decimal_text(c.batch_size as int));
    lemma_plain_option_carried(c, 8, "--ubatch-size"@, decimal_text(c.ubatch_size as int));
    if c.flash_attn {
        lemma_plain_option_carried(c, 9, "--flash-attn"@, "on"@);
    }
    lemma_plain_option_carried(c, 9 + f, "--cache-type-k"@, c.kv_cache_type@);
    lemma_plain_option_carried(c, 10 + f, "--cache-type-v"@, c.kv_cache_type@);
    lemma_plain_option_carried(c, 11 + f + s, "--parallel"@, decimal_text(c.n_parallel as int));
    if c.mmproj_path@.len() > 0 {
        lemma_quoted_option_carried(c, 12 + f + s, "--mmproj"@, c.mmproj_path@);
    }
}

} // verus!
