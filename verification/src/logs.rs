use vstd::prelude::*;

use crate::text::{chars_of, contains_text, has_infix, push_char};

verus! {

broadcast use vstd::string::group_string_axioms;

// ---------------------------------------------------------------------------
// Decoding
// ---------------------------------------------------------------------------

/// The text that `String::from_utf8_lossy` makes of some bytes: invalid
/// sequences become U+FFFD.
pub uninterp spec fn utf8_lossy(bytes: Seq<u8>) -> Seq<char>;

/// Decodes bytes as UTF-8, replacing invalid sequences with U+FFFD
/// (`String::from_utf8_lossy`).
///
/// Trusted: the contract names the result `utf8_lossy(bytes)`, a function of
/// the bytes alone, and states what the documentation promises: bytes that
/// are valid UTF-8 are decoded as they are, and only invalid sequences are
/// replaced. As UTF-8 uses byte 0x0A for `\n` alone and never inside another
/// character, bytes without it give no `\n`, and bytes whose only 0x0A is the
/// last give text whose only `\n` is the last.
#[verifier::external_body]
pub(crate) fn decode_lossy(bytes: &[u8]) -> (r: String)
    ensures
        r@ == utf8_lossy(bytes@),
        vstd::utf8::valid_utf8(bytes@) ==> r@ == vstd::utf8::decode_utf8(bytes@),
        no_newline(bytes@) ==> !r@.contains('\n'),
        bytes@.len() > 0 && bytes@.last() == newline() && no_newline(bytes@.drop_last()) ==> (
        r@.len() > 0 && r@.last() == '\n' && !r@.drop_last().contains('\n')),
{
    String::from_utf8_lossy(bytes).into_owned()
}

/// Whether each of some lines decodes as UTF-8 when it is valid.
pub open spec fn all_decode_as_utf8(lines: Seq<Seq<u8>>) -> bool {
    forall|k: int| 0 <= k < lines.len() ==> decodes_as_utf8(#[trigger] lines[k])
}

/// Whether the lossy decoding of `bytes` is their plain decoding when they
/// are valid UTF-8.
pub open spec fn decodes_as_utf8(bytes: Seq<u8>) -> bool {
    vstd::utf8::valid_utf8(bytes) ==> utf8_lossy(bytes) == vstd::utf8::decode_utf8(bytes)
}

/// `s` without any trailing `c`s (`str::trim_end_matches` with one char).
pub open spec fn strip_trailing(s: Seq<char>, c: char) -> Seq<char>
    decreases s.len(),
{
    if s.len() > 0 && s.last() == c {
        strip_trailing(s.drop_last(), c)
    } else {
        s
    }
}

/// Dropping trailing characters leaves a beginning of the text.
proof fn lemma_strip_trailing_prefix(s: Seq<char>, c: char)
    ensures
        strip_trailing(s, c).len() <= s.len(),
        strip_trailing(s, c) == s.take(strip_trailing(s, c).len() as int),
    decreases s.len(),
{
    if s.len() > 0 && s.last() == c {
        lemma_strip_trailing_prefix(s.drop_last(), c);
        let t = strip_trailing(s.drop_last(), c);
        assert(s.drop_last().take(t.len() as int) =~= s.take(t.len() as int));
    } else {
        assert(s.take(s.len() as int) =~= s);
    }
}

/// A character that the text lacks is still missing once trailing
/// characters are dropped.
proof fn lemma_strip_trailing_lacks(s: Seq<char>, c: char, x: char)
    requires
        !s.contains(x),
    ensures
        !strip_trailing(s, c).contains(x),
{
    lemma_strip_trailing_prefix(s, c);
    let t = strip_trailing(s, c);
    if t.contains(x) {
        let i = choose|i: int| 0 <= i < t.len() && t[i] == x;
        assert(s[i] == x);
    }
}

/// `s` without any trailing `c`s.
pub fn trim_end_char(s: &str, c: char) -> (r: String)
    ensures
        r@ == strip_trailing(s@, c),
{
    let cs = chars_of(s);
    let mut end = cs.len();
    assert(s@.take(end as int) =~= s@);
    while end > 0 && cs[end - 1] == c
        invariant
            cs@ == s@,
            end <= cs@.len(),
            strip_trailing(s@, c) == strip_trailing(s@.take(end as int), c),
        decreases end,
    {
        assert(s@.take(end as int).drop_last() =~= s@.take(end - 1));
        end = end - 1;
    }
    let mut r = String::new();
    for i in 0..end
        invariant
            cs@ == s@,
            end <= cs@.len(),
            r@ == s@.take(i as int),
    {
        push_char(&mut r, cs[i]);
        assert(s@.take(i + 1) =~= s@.take(i as int).push(s@[i as int]));
    }
    r
}

// ---------------------------------------------------------------------------
// Splitting the server's output into lines
// ---------------------------------------------------------------------------

/// The newline byte.
pub open spec fn newline() -> u8 {
    10u8
}

/// Splits `bytes`, read after the unfinished line `cur`, into the lines it
/// completes (each with its newline) and the new unfinished line.
pub open spec fn split_from(cur: Seq<u8>, bytes: Seq<u8>) -> (Seq<Seq<u8>>, Seq<u8>)
    decreases bytes.len(),
{
    if bytes.len() == 0 {
        (seq![], cur)
    } else {
        let (lines, rest) = split_from(cur, bytes.drop_last());
        if bytes.last() == newline() {
            (lines.push(rest.push(newline())), seq![])
        } else {
            (lines, rest.push(bytes.last()))
        }
    }
}

/// How a complete line of output is logged: decoded, then without trailing
/// carriage returns, then without trailing newlines.
pub open spec fn line_text(line: Seq<u8>) -> Seq<char> {
    strip_trailing(strip_trailing(utf8_lossy(line), '\r'), '\n')
}

/// The log entries for some complete lines; lines that come out empty are
/// left out.
pub open spec fn log_lines(lines: Seq<Seq<u8>>) -> Seq<Seq<char>>
    decreases lines.len(),
{
    if lines.len() == 0 {
        seq![]
    } else {
        let t = line_text(lines.last());
        if t.len() > 0 {
            log_lines(lines.drop_last()).push(t)
        } else {
            log_lines(lines.drop_last())
        }
    }
}

/// The log entry for what is left when the output ends: decoded and
/// without trailing carriage returns, if that leaves anything.
pub open spec fn final_line(rest: Seq<u8>) -> Option<Seq<char>> {
    if rest.len() == 0 {
        None
    } else {
        let t = strip_trailing(utf8_lossy(rest), '\r');
        if t.len() > 0 {
            Some(t)
        } else {
            None
        }
    }
}

/// Collects the bytes that the server writes and cuts them into log lines.
pub struct LineBuffer {
    pending: Vec<u8>,
}

impl View for LineBuffer {
    type V = Seq<u8>;

    /// The bytes of the line not finished yet.
    closed spec fn view(&self) -> Seq<u8> {
        self.pending@
    }
}

/// Whether some bytes hold no newline.
pub open spec fn no_newline(s: Seq<u8>) -> bool {
    forall|i: int| 0 <= i < s.len() ==> s[i] != newline()
}

impl LineBuffer {
    /// The unfinished line holds no newline: each newline ends a line.
    #[verifier::type_invariant]
    spec fn pending_unfinished(self) -> bool {
        no_newline(self.pending@)
    }

    /// An empty buffer.
    pub fn new() -> (r: LineBuffer)
        ensures
            r@ == Seq::<u8>::empty(),
    {
        LineBuffer { pending: Vec::new() }
    }

    /// Takes the next chunk of output and returns the log entries for the
    /// lines it completes; the unfinished rest is kept. No entry is empty
    /// or holds a newline, and a line that is valid UTF-8 is decoded as it
    /// is.
    pub fn feed(&mut self, chunk: &[u8]) -> (r: Vec<String>)
        ensures
            final(self)@ == split_from(old(self)@, chunk@).1,
            r.deep_view() == log_lines(split_from(old(self)@, chunk@).0),
            forall|i: int|
                0 <= i < r.len() ==> (#[trigger] r@[i])@.len() > 0 && !r@[i]@.contains('\n'),
            all_decode_as_utf8(split_from(old(self)@, chunk@).0),
    {
        proof {
            use_type_invariant(&*self);
        }
        let ghost start = self.pending@;
        let mut pending: Vec<u8> = Vec::new();
        std::mem::swap(&mut pending, &mut self.pending);
        let mut r: Vec<String> = Vec::new();
        let n = chunk.len();
        for i in 0..n
            invariant
                n == chunk@.len(),
                no_newline(start),
                no_newline(pending@),
                split_from(start, chunk@.take(i as int)).1 == pending@,
                r.deep_view() == log_lines(split_from(start, chunk@.take(i as int)).0),
                forall|j: int|
                    0 <= j < r.len() ==> (#[trigger] r@[j])@.len() > 0 && !r@[j]@.contains('\n'),
                all_decode_as_utf8(split_from(start, chunk@.take(i as int)).0),
        {
            let b = chunk[i];
            let ghost prefix = chunk@.take(i + 1);
            assert(prefix.drop_last() =~= chunk@.take(i as int));
            assert(prefix.last() == b);
            let ghost lines_before = split_from(start, chunk@.take(i as int)).0;
            if b == 10 {
                let ghost before = pending@;
                pending.push(10);
                let mut line: Vec<u8> = Vec::new();
                std::mem::swap(&mut line, &mut pending);
                assert(line@.drop_last() =~= before);
                let decoded = decode_lossy(line.as_slice());
                let t1 = trim_end_char(decoded.as_str(), '\r');
                let text = trim_end_char(t1.as_str(), '\n');
                proof {
                    let d = decoded@;
                    assert(strip_trailing(d, '\r') == d);
                    assert(!d.drop_last().contains('\n'));
                    if d.drop_last().len() > 0 {
                        assert(d.drop_last().contains(d.drop_last().last()));
                    }
                    assert(strip_trailing(d.drop_last(), '\n') == d.drop_last());
                    assert(text@ == d.drop_last());
                }
                let ghost lines_after = lines_before.push(line@);
                assert(lines_after.drop_last() =~= lines_before);
                if text.as_str().unicode_len() > 0 {
                    r.push(text);
                }
                assert(r.deep_view() =~= log_lines(lines_after));
                assert forall|k: int| 0 <= k < lines_after.len() implies decodes_as_utf8(
                    #[trigger] lines_after[k],
                ) by {
                    if k < lines_before.len() {
                        assert(lines_after[k] == lines_before[k]);
                    } else {
                        assert(lines_after[k] == line@);
                        assert(decodes_as_utf8(line@));
                    }
                }
                assert(split_from(start, prefix).0 == lines_after);
            } else {
                pending.push(b);
                assert forall|j: int| 0 <= j < pending@.len() implies pending@[j] != newline() by {
                    if j < pending@.len() - 1 {
                        assert(pending@[j] == split_from(start, chunk@.take(i as int)).1[j]);
                    }
                }
            }
        }
        assert(chunk@.take(n as int) =~= chunk@);
        assert(split_from(start, chunk@.take(n as int)) == split_from(start, chunk@));
        self.pending = pending;
        r
    }

    /// The log entry for the unfinished line left when the output ends. It
    /// holds no newline, and a line that is valid UTF-8 is decoded as it is.
    pub fn finish(self) -> (r: Option<String>)
        ensures
            match r {
                Some(s) => final_line(self@) == Some(s@),
                None => final_line(self@) is None,
            },
            r matches Some(s) ==> !s@.contains('\n'),
            self@.len() > 0 ==> decodes_as_utf8(self@),
    {
        proof {
            use_type_invariant(&self);
        }
        if self.pending.len() == 0 {
            return None;
        }
        let decoded = decode_lossy(self.pending.as_slice());
        let text = trim_end_char(decoded.as_str(), '\r');
        proof {
            lemma_strip_trailing_lacks(decoded@, '\r', '\n');
        }
        if text.as_str().unicode_len() > 0 {
            Some(text)
        } else {
            None
        }
    }
}

/// All the bytes of some lines, one after another.
pub open spec fn joined(lines: Seq<Seq<u8>>) -> Seq<u8>
    decreases lines.len(),
{
    if lines.len() == 0 {
        seq![]
    } else {
        joined(lines.drop_last()) + lines.last()
    }
}

/// Cutting output into lines loses no byte and adds none: the complete
/// lines followed by the unfinished rest are the old unfinished line
/// followed by the new bytes. Every complete line ends with its only
/// newline, and the rest holds none.
pub proof fn lemma_split_keeps_bytes(cur: Seq<u8>, bytes: Seq<u8>)
    requires
        no_newline(cur),
    ensures
        joined(split_from(cur, bytes).0) + split_from(cur, bytes).1 == cur + bytes,
        no_newline(split_from(cur, bytes).1),
        forall|k: int|
            0 <= k < split_from(cur, bytes).0.len() ==> {
                let l = #[trigger] split_from(cur, bytes).0[k];
                &&& l.len() > 0
                &&& l.last() == newline()
                &&& no_newline(l.drop_last())
            },
    decreases bytes.len(),
{
    if bytes.len() > 0 {
        let prev = bytes.drop_last();
        lemma_split_keeps_bytes(cur, prev);
        let (lines, rest) = split_from(cur, prev);
        assert(prev.push(bytes.last()) =~= bytes);
        if bytes.last() == newline() {
            let l = rest.push(newline());
            assert(lines.push(l).drop_last() =~= lines);
            assert(l.drop_last() =~= rest);
            assert(joined(lines.push(l)) == joined(lines) + l);
            assert(joined(lines) + l =~= (joined(lines) + rest).push(newline()));
            assert((cur + prev).push(newline()) =~= cur + bytes);
            assert(joined(lines.push(l)) + Seq::<u8>::empty() =~= joined(lines.push(l)));
        } else {
            assert(joined(lines) + rest.push(bytes.last()) =~= (joined(lines) + rest).push(
                bytes.last(),
            ));
            assert((cur + prev).push(bytes.last()) =~= cur + bytes);
        }
    }
}

// ---------------------------------------------------------------------------
// The bounded log
// ---------------------------------------------------------------------------

/// The most lines the logs hold before the oldest are dropped.
pub const LOG_LIMIT: usize = 200;

/// How many of the oldest lines are dropped when the logs grow too long.
pub const LOG_TRIM: usize = 50;

/// The logs after growing: once they hold more than `LOG_LIMIT` lines, the
/// oldest `LOG_TRIM` are dropped.
pub open spec fn capped(logs: Seq<Seq<char>>) -> Seq<Seq<char>> {
    if logs.len() > LOG_LIMIT {
        logs.skip(LOG_TRIM as int)
    } else {
        logs
    }
}

/// Drops the oldest lines once the logs hold more than `LOG_LIMIT`.
pub fn cap_logs(logs: &mut Vec<String>)
    ensures
        final(logs).deep_view() == capped(old(logs).deep_view()),
{
    if logs.len() > LOG_LIMIT {
        let tail = logs.split_off(LOG_TRIM);
        *logs = tail;
        assert(logs.deep_view() =~= old(logs).deep_view().skip(LOG_TRIM as int));
    }
}

/// Adds a line to the logs, then drops the oldest lines if they have grown
/// past `LOG_LIMIT`.
pub fn push_log(logs: &mut Vec<String>, line: String)
    ensures
        final(logs).deep_view() == capped(old(logs).deep_view().push(line@)),
{
    logs.push(line);
    assert(logs.deep_view() =~= old(logs).deep_view().push(line@));
    cap_logs(logs);
}

/// Logs that hold at most `LOG_LIMIT` lines still do after a line is added.
pub proof fn lemma_push_keeps_bound(logs: Seq<Seq<char>>, line: Seq<char>)
    requires
        logs.len() <= LOG_LIMIT,
    ensures
        capped(logs.push(line)).len() <= LOG_LIMIT,
        capped(logs.push(line)).last() == line,
{
}

// ---------------------------------------------------------------------------
// What the server's output says about the context size
// ---------------------------------------------------------------------------

/// The text that `str::to_lowercase` makes of `s`.
pub uninterp spec fn lowercase(s: Seq<char>) -> Seq<char>;

/// `s` in lower case (`str::to_lowercase`).
///
/// Trusted: the contract names the result `lowercase(s)`, a function of the
/// text alone.
#[verifier::external_body]
pub(crate) fn to_lowercase(s: &str) -> (r: String)
    ensures
        r@ == lowercase(s@),
{
    s.to_lowercase()
}

/// A lower-case line that reports a failed assertion in the server.
pub open spec fn reports_failed_assert(lower: Seq<char>) -> bool {
    has_infix(lower, "ggml_assert"@) || (has_infix(lower, "assert"@) && has_infix(
        lower,
        "failed"@,
    ))
}

/// A lower-case line in which the server says that the model's context is
/// not fully used.
pub open spec fn reports_ctx_shortfall(lower: Seq<char>) -> bool {
    (has_infix(lower, "n_ctx_per_seq"@) && has_infix(lower, "n_ctx_train"@)) || (has_infix(
        lower,
        "full capacity"@,
    ) && has_infix(lower, "not be utilized"@))
}

/// The context flags (mismatch warned, verified) after one line of output.
pub open spec fn line_flags(warned: bool, verified: bool, line: Seq<char>) -> (bool, bool) {
    let lower = lowercase(line);
    if reports_failed_assert(lower) || (reports_ctx_shortfall(lower) && !warned) {
        (true, true)
    } else {
        (warned, verified)
    }
}

/// The context flags after some lines of output, read in order.
pub open spec fn scan_flags(warned: bool, verified: bool, lines: Seq<Seq<char>>) -> (bool, bool)
    decreases lines.len(),
{
    if lines.len() == 0 {
        (warned, verified)
    } else {
        let (w, v) = scan_flags(warned, verified, lines.drop_last());
        line_flags(w, v, lines.last())
    }
}

/// The context flags after reading some lines of the server's output.
pub fn scan_server_lines(warned: bool, verified: bool, lines: &Vec<String>) -> (r: (bool, bool))
    ensures
        r == scan_flags(warned, verified, lines.deep_view()),
{
    let ghost lv = lines.deep_view();
    let mut w = warned;
    let mut v = verified;
    let n = lines.len();
    for i in 0..n
        invariant
            n == lines@.len(),
            lv == lines.deep_view(),
            (w, v) == scan_flags(warned, verified, lv.take(i as int)),
    {
        assert(lv.take(i + 1).drop_last() =~= lv.take(i as int));
        assert(lv.take(i + 1).last() == lines@[i as int]@);
        let lower = to_lowercase(lines[i].as_str());
        let l = lower.as_str();
        if contains_text(l, "ggml_assert") || contains_text(l, "assert") && contains_text(
            l,
            "failed",
        ) {
            w = true;
            v = true;
        }
        if contains_text(l, "n_ctx_per_seq") && contains_text(l, "n_ctx_train") {
            if !w {
                w = true;
                v = true;
            }
        }
        if contains_text(l, "full capacity") && contains_text(l, "not be utilized") {
            if !w {
                w = true;
                v = true;
            }
        }
    }
    assert(lv.take(n as int) =~= lv);
    (w, v)
}

/// A line that holds `ggml_assert` holds `assert`.
proof fn lemma_ggml_assert_is_assert(lower: Seq<char>)
    requires
        has_infix(lower, "ggml_assert"@),
    ensures
        has_infix(lower, "assert"@),
{
    reveal_strlit("ggml_assert");
    reveal_strlit("assert");
    let j = choose|j: int|
        0 <= j && j + "ggml_assert"@.len() <= lower.len() && #[trigger] lower.subrange(
            j,
            j + "ggml_assert"@.len(),
        ) == "ggml_assert"@;
    assert(lower.subrange(j + 5, j + 11) =~= "assert"@) by {
        assert forall|t: int| 0 <= t < 6 implies lower.subrange(j + 5, j + 11)[t]
            == "assert"@[t] by {
            assert(lower.subrange(j, j + 11)[t + 5] == "ggml_assert"@[t + 5]);
        }
    }
    assert(lower.subrange(j + 5, j + 5 + "assert"@.len()) == "assert"@);
}

/// What one line of output does to the context flags. A line that
/// mentions no assertion changes them only if it reports a shortfall of
/// the context, which takes both `n_ctx_per_seq` and `n_ctx_train`, or both
/// `full capacity` and `not be utilized` (case aside), and only while no
/// mismatch was flagged. A line that reports a failed assertion, or such a
/// shortfall before any mismatch, flags the context as mismatched and
/// checked.
pub proof fn lemma_line_flags(warned: bool, verified: bool, line: Seq<char>)
    ensures
        ({
            let lower = lowercase(line);
            &&& !has_infix(lower, "assert"@) && (warned || ((!has_infix(lower, "n_ctx_per_seq"@)
                || !has_infix(lower, "n_ctx_train"@)) && (!has_infix(lower, "full capacity"@)
                || !has_infix(lower, "not be utilized"@)))) ==> line_flags(warned, verified, line)
                == (warned, verified)
            &&& has_infix(lower, "ggml_assert"@) ==> line_flags(warned, verified, line) == (
                true,
                true,
            )
            &&& has_infix(lower, "assert"@) && has_infix(lower, "failed"@) ==> line_flags(
                warned,
                verified,
                line,
            ) == (true, true)
            &&& !warned && has_infix(lower, "n_ctx_per_seq"@) && has_infix(lower, "n_ctx_train"@)
                ==> line_flags(warned, verified, line) == (true, true)
            &&& !warned && has_infix(lower, "full capacity"@) && has_infix(
                lower,
                "not be utilized"@,
            ) ==> line_flags(warned, verified, line) == (true, true)
        }),
{
    let lower = lowercase(line);
    if has_infix(lower, "ggml_assert"@) {
        lemma_ggml_assert_is_assert(lower);
    }
}

/// Lines of output that mention no assertion, no `n_ctx_train` and no
/// `full capacity` (case aside) leave the context flags as they were.
pub proof fn lemma_quiet_lines_keep_flags(warned: bool, verified: bool, lines: Seq<Seq<char>>)
    requires
        forall|i: int|
            0 <= i < lines.len() ==> {
                let lower = lowercase(#[trigger] lines[i]);
                &&& !has_infix(lower, "assert"@)
                &&& !has_infix(lower, "n_ctx_train"@)
                &&& !has_infix(lower, "full capacity"@)
            },
    ensures
        scan_flags(warned, verified, lines) == (warned, verified),
    decreases lines.len(),
{
    if lines.len() > 0 {
        let d = lines.drop_last();
        assert forall|i: int| 0 <= i < d.len() implies {
            let lower = lowercase(#[trigger] d[i]);
            &&& !has_infix(lower, "assert"@)
            &&& !has_infix(lower, "n_ctx_train"@)
            &&& !has_infix(lower, "full capacity"@)
        } by {
            assert(d[i] == lines[i]);
        }
        lemma_quiet_lines_keep_flags(warned, verified, d);
        assert(lines.last() == lines[lines.len() - 1]);
        lemma_line_flags(warned, verified, lines.last());
    }
}

/// Reading more output never clears the context flags, and the mismatch
/// flag is never raised without the verified flag.
pub proof fn lemma_scan_flags_monotone(warned: bool, verified: bool, lines: Seq<Seq<char>>)
    ensures
        warned ==> scan_flags(warned, verified, lines).0,
        verified ==> scan_flags(warned, verified, lines).1,
        scan_flags(warned, verified, lines).0 && !warned ==> scan_flags(
            warned,
            verified,
            lines,
        ).1,
    decreases lines.len(),
{
    if lines.len() > 0 {
        lemma_scan_flags_monotone(warned, verified, lines.drop_last());
    }
}

// ---------------------------------------------------------------------------
// A whole stream of output
// ---------------------------------------------------------------------------

/// Cutting `a` then `b` after the unfinished line `cur` is cutting `a + b`.
pub proof fn lemma_split_append(cur: Seq<u8>, a: Seq<u8>, b: Seq<u8>)
    ensures
        split_from(cur, a + b) == (
            split_from(cur, a).0 + split_from(split_from(cur, a).1, b).0,
            split_from(split_from(cur, a).1, b).1,
        ),
    decreases b.len(),
{
    if b.len() == 0 {
        assert(a + b =~= a);
        assert(split_from(cur, a).0 + Seq::<Seq<u8>>::empty() =~= split_from(cur, a).0);
    } else {
        lemma_split_append(cur, a, b.drop_last());
        assert((a + b).drop_last() =~= a + b.drop_last());
        assert((a + b).last() == b.last());
        let mid = split_from(cur, a);
        let (l2, r2) = split_from(mid.1, b.drop_last());
        if b.last() == newline() {
            assert((mid.0 + l2).push(r2.push(newline())) =~= mid.0 + l2.push(r2.push(newline())));
        }
    }
}

/// The log entries of two runs of lines are those of each, in order.
pub proof fn lemma_log_lines_append(x: Seq<Seq<u8>>, y: Seq<Seq<u8>>)
    ensures
        log_lines(x + y) == log_lines(x) + log_lines(y),
    decreases y.len(),
{
    if y.len() == 0 {
        assert(x + y =~= x);
        assert(log_lines(x) + Seq::<Seq<char>>::empty() =~= log_lines(x));
    } else {
        lemma_log_lines_append(x, y.drop_last());
        assert((x + y).drop_last() =~= x + y.drop_last());
        assert((x + y).last() == y.last());
        let t = line_text(y.last());
        if t.len() > 0 {
            assert((log_lines(x) + log_lines(y.drop_last())).push(t) =~= log_lines(x) + log_lines(
                y.drop_last(),
            ).push(t));
        }
    }
}

/// The log entries and the unfinished line after feeding the chunks one by
/// one to a `LineBuffer` that held `cur`.
pub open spec fn feed_all(cur: Seq<u8>, chunks: Seq<Seq<u8>>) -> (Seq<Seq<char>>, Seq<u8>)
    decreases chunks.len(),
{
    if chunks.len() == 0 {
        (seq![], cur)
    } else {
        let (lines, rest) = feed_all(cur, chunks.drop_last());
        let (done, rest2) = split_from(rest, chunks.last());
        (lines + log_lines(done), rest2)
    }
}

/// Feeding chunks one by one logs what cutting all their bytes at once
/// would: how the output is split into reads does not matter.
pub proof fn lemma_feed_all(cur: Seq<u8>, chunks: Seq<Seq<u8>>)
    ensures
        feed_all(cur, chunks) == (
            log_lines(split_from(cur, joined(chunks)).0),
            split_from(cur, joined(chunks)).1,
        ),
    decreases chunks.len(),
{
    if chunks.len() > 0 {
        let front = chunks.drop_last();
        lemma_feed_all(cur, front);
        lemma_split_append(cur, joined(front), chunks.last());
        let mid = split_from(cur, joined(front));
        lemma_log_lines_append(mid.0, split_from(mid.1, chunks.last()).0);
    }
}

/// The log entries for a whole stream: its complete lines, then what is
/// left when it ends.
pub open spec fn stream_lines(bytes: Seq<u8>) -> Seq<Seq<char>> {
    let (done, rest) = split_from(seq![], bytes);
    log_lines(done) + match final_line(rest) {
        Some(t) => seq![t],
        None => seq![],
    }
}

/// The logs after each line is added with `push_log`, in order.
pub open spec fn push_all(logs: Seq<Seq<char>>, lines: Seq<Seq<char>>) -> Seq<Seq<char>>
    decreases lines.len(),
{
    if lines.len() == 0 {
        logs
    } else {
        capped(push_all(logs, lines.drop_last()).push(lines.last()))
    }
}

/// Whether `a` is what is left of `b` after dropping some of its first
/// elements.
pub open spec fn is_suffix(a: Seq<Seq<char>>, b: Seq<Seq<char>>) -> bool {
    a.len() <= b.len() && a == b.skip(b.len() - a.len())
}

/// Adding lines one by one keeps the logs within `LOG_LIMIT` and leaves them
/// the newest part of the old logs followed by the lines.
pub proof fn lemma_push_all(logs: Seq<Seq<char>>, lines: Seq<Seq<char>>)
    requires
        logs.len() <= LOG_LIMIT,
    ensures
        push_all(logs, lines).len() <= LOG_LIMIT,
        is_suffix(push_all(logs, lines), logs + lines),
    decreases lines.len(),
{
    if lines.len() == 0 {
        assert(logs + lines =~= logs);
        assert(logs.skip(0) =~= logs);
    } else {
        let front = lines.drop_last();
        lemma_push_all(logs, front);
        let p = push_all(logs, front);
        let whole = logs + lines;
        let before = logs + front;
        assert(whole =~= before.push(lines.last()));
        let q = p.push(lines.last());
        assert(q =~= whole.skip(whole.len() - q.len()));
        if q.len() > LOG_LIMIT {
            assert(q.skip(LOG_TRIM as int) =~= whole.skip(
                whole.len() - (q.len() - LOG_TRIM as int),
            ));
        }
    }
}

/// Adds lines to the logs in order, each with `push_log`. Logs that held at
/// most `LOG_LIMIT` lines still do, and are the newest part of the old logs
/// followed by the lines.
pub fn push_lines(logs: &mut Vec<String>, lines: &Vec<String>)
    ensures
        final(logs).deep_view() == push_all(old(logs).deep_view(), lines.deep_view()),
        old(logs).len() <= LOG_LIMIT ==> {
            &&& final(logs).len() <= LOG_LIMIT
            &&& is_suffix(final(logs).deep_view(), old(logs).deep_view() + lines.deep_view())
        },
{
    let n = lines.len();
    assert(lines.deep_view().take(0) =~= Seq::<Seq<char>>::empty());
    for i in 0..n
        invariant
            n == lines.len(),
            logs.deep_view() == push_all(old(logs).deep_view(), lines.deep_view().take(i as int)),
    {
        let line = lines[i].clone();
        push_log(logs, line);
        assert(lines.deep_view().take(i + 1).drop_last() =~= lines.deep_view().take(i as int));
        assert(lines.deep_view().take(i + 1).last() == line@);
    }
    assert(lines.deep_view().take(n as int) =~= lines.deep_view());
    proof {
        if old(logs).len() <= LOG_LIMIT {
            lemma_push_all(old(logs).deep_view(), lines.deep_view());
        }
    }
}

/// Adding two runs of lines is adding the first, then the second.
proof fn lemma_push_all_append(logs: Seq<Seq<char>>, a: Seq<Seq<char>>, b: Seq<Seq<char>>)
    ensures
        push_all(logs, a + b) == push_all(push_all(logs, a), b),
    decreases b.len(),
{
    if b.len() == 0 {
        assert(a + b =~= a);
    } else {
        lemma_push_all_append(logs, a, b.drop_last());
        assert((a + b).drop_last() =~= a + b.drop_last());
        assert((a + b).last() == b.last());
    }
}

proof fn lemma_log_lines_not_empty(lines: Seq<Seq<u8>>)
    ensures
        forall|i: int|
            0 <= i < log_lines(lines).len() ==> #[trigger] log_lines(lines)[i].len() > 0,
    decreases lines.len(),
{
    if lines.len() > 0 {
        let prev = log_lines(lines.drop_last());
        lemma_log_lines_not_empty(lines.drop_last());
        assert forall|i: int|
            0 <= i < log_lines(lines).len() implies #[trigger] log_lines(lines)[i].len() > 0 by {
            if i < prev.len() {
                assert(log_lines(lines)[i] == prev[i]);
            }
        }
    }
}

/// What a whole stream of output does to the logs. The chunks, read one by
/// one, give the log entries of all their bytes cut at once; none of them is
/// empty; and once each is added, logs that held at most `LOG_LIMIT` lines
/// still do and are the newest part of the old logs followed by the
/// entries.
pub proof fn lemma_stream_into_logs(logs: Seq<Seq<char>>, chunks: Seq<Seq<u8>>)
    requires
        logs.len() <= LOG_LIMIT,
    ensures
        ({
            let (lines, rest) = feed_all(seq![], chunks);
            let entries = lines + match final_line(rest) {
                Some(t) => seq![t],
                None => seq![],
            };
            &&& entries == stream_lines(joined(chunks))
            &&& forall|i: int| 0 <= i < entries.len() ==> #[trigger] entries[i].len() > 0
            &&& push_all(logs, entries).len() <= LOG_LIMIT
            &&& is_suffix(push_all(logs, entries), logs + entries)
        }),
{
    lemma_feed_all(seq![], chunks);
    let (lines, rest) = feed_all(seq![], chunks);
    let entries = lines + match final_line(rest) {
        Some(t) => seq![t],
        None => seq![],
    };
    lemma_log_lines_not_empty(split_from(seq![], joined(chunks)).0);
    assert forall|i: int| 0 <= i < entries.len() implies #[trigger] entries[i].len() > 0 by {
        if i < lines.len() {
            assert(entries[i] == lines[i]);
        }
    }
    lemma_push_all(logs, entries);
}

/// Logs the whole output of a stream, read in the given chunks: its lines
/// are cut, decoded and added one by one with `push_log`. The entries are
/// those of all the bytes cut at once; none is empty or holds a newline;
/// and logs that held at most `LOG_LIMIT` lines still do and are the newest
/// part of the old logs followed by the entries.
pub fn log_stream(logs: &mut Vec<String>, chunks: &Vec<Vec<u8>>)
    ensures
        final(logs).deep_view() == push_all(
            old(logs).deep_view(),
            stream_lines(joined(chunks.deep_view())),
        ),
        forall|i: int|
            0 <= i < stream_lines(joined(chunks.deep_view())).len() ==> {
                let e = #[trigger] stream_lines(joined(chunks.deep_view()))[i];
                &&& e.len() > 0
                &&& !e.contains('\n')
            },
        old(logs).len() <= LOG_LIMIT ==> {
            &&& final(logs).len() <= LOG_LIMIT
            &&& is_suffix(
                final(logs).deep_view(),
                old(logs).deep_view() + stream_lines(joined(chunks.deep_view())),
            )
        },
{
    let ghost cs = chunks.deep_view();
    let ghost start = logs.deep_view();
    let mut buf = LineBuffer::new();
    let ghost mut entries: Seq<Seq<char>> = seq![];
    let n = chunks.len();
    assert(cs.take(0) =~= Seq::<Seq<u8>>::empty());
    for i in 0..n
        invariant
            n == chunks.len(),
            cs == chunks.deep_view(),
            start == old(logs).deep_view(),
            feed_all(seq![], cs.take(i as int)) == (entries, buf@),
            logs.deep_view() == push_all(start, entries),
            forall|j: int|
                0 <= j < entries.len() ==> (#[trigger] entries[j]).len() > 0
                    && !entries[j].contains('\n'),
    {
        let lines = buf.feed(chunks[i].as_slice());
        proof {
            let before = entries;
            assert(cs.take(i + 1).drop_last() =~= cs.take(i as int));
            assert(cs.take(i + 1).last() == chunks@[i as int]@);
            entries = entries + lines.deep_view();
            assert forall|j: int| 0 <= j < entries.len() implies (#[trigger] entries[j]).len() > 0
                && !entries[j].contains('\n') by {
                if j < before.len() {
                    assert(entries[j] == before[j]);
                } else {
                    assert(entries[j] == lines@[j - before.len()]@);
                }
            }
            lemma_push_all_append(start, before, lines.deep_view());
        }
        push_lines(logs, &lines);
    }
    assert(cs.take(n as int) =~= cs);
    let ghost done = entries;
    match buf.finish() {
        Some(text) => {
            let last = vec![text];
            proof {
                entries = entries + last.deep_view();
                assert(last.deep_view() =~= seq![text@]);
                lemma_push_all_append(start, done, last.deep_view());
                assert forall|j: int| 0 <= j < entries.len() implies (#[trigger] entries[j]).len()
                    > 0 && !entries[j].contains('\n') by {
                    if j < done.len() {
                        assert(entries[j] == done[j]);
                    } else {
                        assert(entries[j] == text@);
                    }
                }
            }
            push_lines(logs, &last);
        },
        None => {
            assert(entries + Seq::<Seq<char>>::empty() =~= entries);
        },
    }
    proof {
        lemma_stream_into_logs(seq![], cs);
        assert(entries == stream_lines(joined(cs)));
        if start.len() <= LOG_LIMIT {
            lemma_push_all(start, entries);
        }
    }
}

} // verus!
