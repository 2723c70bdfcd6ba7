use vstd::prelude::*;

use crate::command::{quotient, div_toward_zero};
use crate::text::{decimal_text, push_decimal, push_decimal_u64};

verus! {

broadcast use vstd::string::group_string_axioms;

/// `prefix`, the decimal text of `n`, then `suffix`.
pub open spec fn with_number(prefix: Seq<char>, n: int, suffix: Seq<char>) -> Seq<char> {
    prefix + decimal_text(n) + suffix
}

/// `prefix`, the decimal text of `n`, then `suffix`.
pub fn number_text(prefix: &str, n: i64, suffix: &str) -> (r: String)
    ensures
        r@ == with_number(prefix@, n as int, suffix@),
{
    let mut r = String::from_str(prefix);
    push_decimal(&mut r, n);
    r.append(suffix);
    r
}

/// The log line after a manual check found another context size.
pub open spec fn mismatch_warning(n: int, expected: int) -> Seq<char> {
    with_number("[WARN] ctx_size mismatch! Server actual: "@, n, ", GUI setting: "@)
        + decimal_text(expected)
        + ". The model may not support the requested context size."@
}

/// The hint that follows it.
pub open spec fn per_seq_hint(n: int) -> Seq<char> {
    with_number(
        "[INFO] The actual ctx per sequence may be "@,
        n,
        " (total / parallel). Model max context may limit the value."@,
    )
}

/// The log line after a manual check found the context size asked for.
pub open spec fn ctx_ok_note(n: int) -> Seq<char> {
    with_number("[OK] ctx_size verified: "@, n, " matches GUI setting"@)
}

/// The log lines after a manual check of the server's properties, given
/// the context size the server reported and the one asked for.
pub open spec fn manual_ctx_lines(reported: Option<i64>, expected: i32) -> Seq<Seq<char>> {
    match reported {
        Some(n) => if n != expected {
            seq![mismatch_warning(n as int, expected as int), per_seq_hint(n as int)]
        } else {
            seq![ctx_ok_note(n as int)]
        },
        None => seq![],
    }
}

pub fn mismatch_warning_text(n: i64, expected: i32) -> (r: String)
    ensures
        r@ == mismatch_warning(n as int, expected as int),
{
    let mut r = number_text("[WARN] ctx_size mismatch! Server actual: ", n, ", GUI setting: ");
    push_decimal(&mut r, expected as i64);
    r.append(". The model may not support the requested context size.");
    r
}

/// The log line after the background check found the context size asked
/// for.
pub open spec fn ctx_verified_note(n: int) -> Seq<char> {
    with_number("[✓] ctx_size verified: "@, n, " (matches GUI setting)"@)
}

/// The log line after the background check found another context size.
pub open spec fn mismatch_alert(n: int, expected: int) -> Seq<char> {
    with_number("[⚠] ctx_size MISMATCH! Server actual: "@, n, ", GUI setting: "@)
        + decimal_text(expected)
}

/// The hint about parallel slots sharing the context.
pub open spec fn parallel_hint(n_parallel: int, n: int) -> Seq<char> {
    with_number("[INFO] This may be due to --parallel "@, n_parallel, ": ctx_per_seq = "@)
        + decimal_text(n) + " / "@ + decimal_text(n_parallel) + " = "@ + decimal_text(
        quotient(n, n_parallel),
    )
}

/// The closing advice after a mismatch.
pub open spec fn mismatch_tip() -> Seq<char> {
    "[TIP] The model may not support the requested context size. Check llama-server logs for details."@
}

/// The log lines after the background check, given the context size the
/// server reported, the one asked for and the number of parallel slots.
pub open spec fn auto_ctx_lines(n: i64, expected: i32, n_parallel: i32) -> Seq<Seq<char>> {
    if n == expected {
        seq![ctx_verified_note(n as int)]
    } else if n_parallel > 1 {
        seq![
            mismatch_alert(n as int, expected as int),
            parallel_hint(n_parallel as int, n as int),
            mismatch_tip(),
        ]
    } else {
        seq![mismatch_alert(n as int, expected as int), mismatch_tip()]
    }
}

pub fn mismatch_alert_text(n: i64, expected: i32) -> (r: String)
    ensures
        r@ == mismatch_alert(n as int, expected as int),
{
    let mut r = number_text("[⚠] ctx_size MISMATCH! Server actual: ", n, ", GUI setting: ");
    push_decimal(&mut r, expected as i64);
    r
}

pub fn parallel_hint_text(n_parallel: i32, n: i64) -> (r: String)
    requires
        n_parallel > 1,
    ensures
        r@ == parallel_hint(n_parallel as int, n as int),
{
    let mut r = number_text(
        "[INFO] This may be due to --parallel ",
        n_parallel as i64,
        ": ctx_per_seq = ",
    );
    push_decimal(&mut r, n);
    r.append(" / ");
    push_decimal(&mut r, n_parallel as i64);
    r.append(" = ");
    let q = div_toward_zero(n, n_parallel as i64);
    push_decimal(&mut r, q);
    r
}

/// The log line that reports how the server was started when it runs more
/// than one slot.
pub open spec fn parallel_start_note(ctx_size: int, n_parallel: int) -> Seq<char> {
    with_number("[INFO] ctx-size="@, ctx_size, ", parallel="@) + decimal_text(n_parallel)
        + ", ctx per sequence="@ + decimal_text(quotient(ctx_size, n_parallel))
}

pub fn parallel_start_note_text(ctx_size: i32, n_parallel: i32) -> (r: String)
    requires
        n_parallel > 1,
    ensures
        r@ == parallel_start_note(ctx_size as int, n_parallel as int),
{
    let mut r = number_text("[INFO] ctx-size=", ctx_size as i64, ", parallel=");
    push_decimal(&mut r, n_parallel as i64);
    r.append(", ctx per sequence=");
    let q = div_toward_zero(ctx_size as i64, n_parallel as i64);
    push_decimal(&mut r, q);
    r
}

/// How an exit code is shown: `Some(n)` or `None`, as `{:?}` writes it.
pub open spec fn exit_code_text(code: Option<i32>) -> Seq<char> {
    match code {
        Some(n) => with_number("Some("@, n as int, ")"@),
        None => "None"@,
    }
}

pub fn exit_code_line(code: Option<i32>) -> (r: String)
    ensures
        r@ == "Exit code: "@ + exit_code_text(code),
{
    match code {
        Some(n) => {
            let r = number_text("Exit code: Some(", n as i64, ")");
            assert(r@ =~= "Exit code: "@ + exit_code_text(code)) by {
                reveal_strlit("Exit code: Some(");
                reveal_strlit("Exit code: ");
                reveal_strlit("Some(");
            }
            r
        },
        None => {
            let r = String::from_str("Exit code: None");
            assert(r@ =~= "Exit code: "@ + exit_code_text(code)) by {
                reveal_strlit("Exit code: None");
                reveal_strlit("Exit code: ");
                reveal_strlit("None");
            }
            r
        },
    }
}

/// Lines joined into one text, separated by newlines.
pub open spec fn join_lines(lines: Seq<Seq<char>>) -> Seq<char>
    decreases lines.len(),
{
    if lines.len() == 0 {
        seq![]
    } else if lines.len() == 1 {
        lines[0]
    } else {
        join_lines(lines.drop_last()) + "\n"@ + lines.last()
    }
}

/// Lines joined into one text, separated by newlines (`join("\n")`).
pub fn join_with_newlines(lines: &Vec<String>) -> (r: String)
    ensures
        r@ == join_lines(lines.deep_view()),
{
    let ghost lv = lines.deep_view();
    let mut r = String::new();
    let n = lines.len();
    for i in 0..n
        invariant
            n == lines@.len(),
            lv == lines.deep_view(),
            r@ == join_lines(lv.take(i as int)),
    {
        assert(lv.take(i + 1).drop_last() =~= lv.take(i as int));
        assert(lv.take(i + 1).last() == lines@[i as int]@);
        if i > 0 {
            r.append("\n");
        }
        r.append(lines[i].as_str());
        assert(i == 0 ==> r@ =~= lv.take(1)[0]);
    }
    assert(lv.take(n as int) =~= lv);
    r
}

/// The name offered for a saved log: the time in seconds since 1970.
pub open spec fn log_file_name_text(secs: u64) -> Seq<char> {
    with_number("llama_log_"@, secs as int, ".txt"@)
}

/// The name offered for a saved log, made of the time `secs` in seconds
/// since 1970.
pub fn log_file_name(secs: u64) -> (r: String)
    ensures
        r@ == log_file_name_text(secs),
{
    let mut r = String::from_str("llama_log_");
    push_decimal_u64(&mut r, secs);
    r.append(".txt");
    r
}

} // verus!
