//! The connection to the IDE: where its socket is looked for, how a request
//! is framed, how replies are cut into frames, and when a failed attempt is
//! retried.

use vstd::prelude::*;
use std::sync::atomic::{AtomicU64, Ordering};
use crate::json::{
    Json, JsonView, as_str_opt, get, json_parse, json_parse_error, json_quoted, parse_json_text, quote_json,
};
use crate::text::{
    chars_of, contains, decimal, join, join_strings, push_char, push_decimal, push_str, str_contains,
    str_eq, to_owned_string, trim, trim_string,
};

verus! {

/// The socket file name the IDE uses when `XOJO_IPCPATH` is not set.
pub const DEFAULT_SOCKET_NAME: &'static str = "XojoIDE";

/// How many rounds of attempts a request gets.
pub const MAX_RETRIES: u32 = 5;

/// A character that Xojo allows in `XOJO_IPCPATH`: `a-z A-Z 0-9 _`.
pub open spec fn is_name_char(c: char) -> bool {
    ('a' <= c && c <= 'z') || ('A' <= c && c <= 'Z') || ('0' <= c && c <= '9') || c == '_'
}

/// The socket name for the value of `XOJO_IPCPATH`: the value itself when
/// it is non-empty and made of allowed characters only, the default name
/// otherwise.
pub open spec fn socket_name_for(raw: Option<Seq<char>>) -> Seq<char> {
    match raw {
        Some(name) => if name.len() > 0 && (forall|i: int| 0 <= i < name.len() ==> is_name_char(#[trigger] name[i])) {
            name
        } else {
            DEFAULT_SOCKET_NAME@
        },
        None => DEFAULT_SOCKET_NAME@,
    }
}

/// Resolves the IPC socket file name from the value of `XOJO_IPCPATH`.
pub fn resolve_socket_name(raw: Option<String>) -> (r: String)
    ensures
        r@ == socket_name_for(
            match raw {
                Some(s) => Some(s@),
                None => None,
            },
        ),
{
    match raw {
        Some(name) => {
            let v = chars_of(name.as_str());
            if v.len() == 0 {
                return to_owned_string(DEFAULT_SOCKET_NAME);
            }
            let mut i: usize = 0;
            while i < v.len()
                invariant
                    i <= v.len(),
                    v@ == name@,
                    raw == Some(name),
                    forall|k: int| 0 <= k < i ==> is_name_char(#[trigger] v@[k]),
                decreases v.len() - i,
            {
                let c = v[i];
                if !(('a' <= c && c <= 'z') || ('A' <= c && c <= 'Z') || ('0' <= c && c <= '9') || c == '_') {
                    assert(!is_name_char(name@[i as int]));
                    return to_owned_string(DEFAULT_SOCKET_NAME);
                }
                i = i + 1;
            }
            name
        },
        None => to_owned_string(DEFAULT_SOCKET_NAME),
    }
}

/// `Path::join` on Unix for `base` and a relative or absolute `name`: an
/// absolute `name` replaces `base`; otherwise a `/` goes between them
/// unless `base` is empty or already ends in one.
pub open spec fn path_join(base: Seq<char>, name: Seq<char>) -> Seq<char> {
    if name.len() > 0 && name[0] == '/' {
        name
    } else if base.len() == 0 || base.last() == '/' {
        base + name
    } else {
        base + seq!['/'] + name
    }
}

/// The resolved socket name is always a usable one: non-empty and made of
/// the characters Xojo allows.
pub proof fn law_socket_name_is_valid(raw: Option<Seq<char>>)
    ensures
        socket_name_for(raw).len() > 0,
        forall|i: int| 0 <= i < socket_name_for(raw).len() ==> is_name_char(#[trigger] socket_name_for(raw)[i]),
{
    reveal_strlit("XojoIDE");
}

/// The socket paths to try for socket `name`, in the IDE's order: `/tmp`,
/// `/private/tmp`, then the temporary directory `tmpdir` when it is set and
/// not empty.
pub open spec fn candidates_for(name: Seq<char>, tmpdir: Option<Seq<char>>) -> Seq<Seq<char>> {
    let fixed = seq!["/tmp/"@ + name, "/private/tmp/"@ + name];
    match tmpdir {
        Some(t) => if t.len() > 0 {
            fixed.push(path_join(t, name))
        } else {
            fixed
        },
        None => fixed,
    }
}

fn join_path(base: &str, name: &str) -> (r: String)
    ensures
        r@ == path_join(base@, name@),
{
    let b = chars_of(base);
    let n = chars_of(name);
    if n.len() > 0 && n[0] == '/' {
        return to_owned_string(name);
    }
    let mut r = to_owned_string(base);
    if !(b.len() == 0 || b[b.len() - 1] == '/') {
        push_char(&mut r, '/');
    }
    push_str(&mut r, name);
    r
}

/// The socket paths to try for socket `name` with temporary directory `tmpdir`.
pub fn candidate_paths(name: &str, tmpdir: Option<String>) -> (r: Vec<String>)
    ensures
        r@.map_values(|p: String| p@) == candidates_for(
            name@,
            match tmpdir {
                Some(t) => Some(t@),
                None => None,
            },
        ),
{
    let mut paths: Vec<String> = Vec::new();
    let mut a = to_owned_string("/tmp/");
    push_str(&mut a, name);
    paths.push(a);
    let mut b = to_owned_string("/private/tmp/");
    push_str(&mut b, name);
    paths.push(b);
    match tmpdir {
        Some(t) => {
            if !t.as_str().is_empty() {
                paths.push(join_path(t.as_str(), name));
            }
        },
        None => {},
    }
    assert(paths@.map_values(|p: String| p@) =~= candidates_for(
        name@,
        match tmpdir {
            Some(t) => Some(t@),
            None => None,
        },
    ));
    paths
}

/// The paths of `paths[0..n]` whose key in `keys` did not occur before:
/// the first path of each key, in order.
pub open spec fn first_per_key(paths: Seq<Seq<char>>, keys: Seq<Seq<char>>, n: int) -> Seq<Seq<char>>
    decreases n,
{
    if n <= 0 {
        Seq::empty()
    } else {
        let rest = first_per_key(paths, keys, n - 1);
        if keys.take(n - 1).contains(keys[n - 1]) {
            rest
        } else {
            rest.push(paths[n - 1])
        }
    }
}

/// Drops the socket paths that lead to the same socket as an earlier one:
/// `canonical[i]` is where `paths[i]` resolves to (on macOS `/tmp` and
/// `/private/tmp` are the same directory).
pub fn unique_socket_paths(paths: Vec<String>, canonical: &Vec<String>) -> (r: Vec<String>)
    requires
        paths.len() == canonical.len(),
    ensures
        r@.map_values(|p: String| p@) == first_per_key(
            paths@.map_values(|p: String| p@),
            canonical@.map_values(|p: String| p@),
            paths.len() as int,
        ),
{
    let ghost pv = paths@.map_values(|p: String| p@);
    let ghost kv = canonical@.map_values(|p: String| p@);
    let mut seen: Vec<String> = Vec::new();
    let mut out: Vec<String> = Vec::new();
    let mut i: usize = 0;
    while i < paths.len()
        invariant
            i <= paths.len(),
            paths.len() == canonical.len(),
            pv == paths@.map_values(|p: String| p@),
            kv == canonical@.map_values(|p: String| p@),
            seen@.map_values(|p: String| p@) == kv.take(i as int),
            out@.map_values(|p: String| p@) == first_per_key(pv, kv, i as int),
        decreases paths.len() - i,
    {
        let key = &canonical[i];
        let mut found = false;
        let mut j: usize = 0;
        while j < seen.len()
            invariant
                j <= seen.len(),
                found == exists|k: int| 0 <= k < j && seen@[k]@ == key@,
            decreases seen.len() - j,
        {
            if str_eq(seen[j].as_str(), key.as_str()) {
                found = true;
            }
            j = j + 1;
        }
        proof {
            let sv = seen@.map_values(|p: String| p@);
            assert(found == sv.contains(key@)) by {
                if found {
                    let k = choose|k: int| 0 <= k < seen.len() && seen@[k]@ == key@;
                    assert(sv[k] == key@);
                }
                if sv.contains(key@) {
                    let k = choose|k: int| 0 <= k < sv.len() && sv[k] == key@;
                    assert(seen@[k]@ == key@);
                }
            }
            assert(kv.take(i + 1).take(i as int) =~= kv.take(i as int));
            assert(kv[i as int] == key@);
        }
        let ghost before_out = out@;
        let ghost before_seen = seen@;
        if !found {
            out.push(paths[i].clone());
            proof {
                assert(out@.map_values(|p: String| p@) =~= before_out.map_values(|p: String| p@).push(pv[i as int]));
            }
        }
        seen.push(canonical[i].clone());
        proof {
            assert(seen@.map_values(|p: String| p@) =~= before_seen.map_values(|p: String| p@).push(kv[i as int]));
            assert(kv.take(i + 1) =~= kv.take(i as int).push(kv[i as int]));
        }
        i = i + 1;
    }
    out
}

/// An error message marks a transient failure, one worth retrying: the
/// socket is not there yet, refuses, times out, or closes.
pub open spec fn retryable(err: Seq<char>) -> bool {
    contains(err, "not found"@) || contains(err, "Connection refused"@) || contains(err, "(timeout)"@)
        || contains(err, "connection closed"@)
}

/// Whether `err` describes a transient failure worth retrying.
pub fn is_retryable(err: &str) -> (r: bool)
    ensures
        r == retryable(err@),
{
    str_contains(err, "not found") || str_contains(err, "Connection refused") || str_contains(
        err,
        "(timeout)",
    ) || str_contains(err, "connection closed")
}

/// Two to the power `n`.
pub open spec fn two_to(n: nat) -> nat
    decreases n,
{
    if n == 0 {
        1
    } else {
        2 * two_to((n - 1) as nat)
    }
}

/// The pause, in milliseconds, before attempt number `attempt`: it doubles
/// from 100 ms with each attempt, and stops growing after the seventh.
pub open spec fn pause_millis(attempt: u32) -> nat {
    let shift: nat = if attempt == 0 {
        0
    } else if attempt - 1 > 6 {
        6
    } else {
        (attempt - 1) as nat
    };
    100 * two_to(shift)
}

/// The exponential back-off before attempt number `attempt`, in
/// milliseconds: 100, 200, 400, 800 ...
pub fn retry_pause(attempt: u32) -> (ms: u64)
    ensures
        ms == pause_millis(attempt),
{
    let shift = if attempt == 0 {
        0
    } else if attempt - 1 > 6 {
        6
    } else {
        attempt - 1
    };
    assert(two_to(0) == 1);
    assert(two_to(1) == 2);
    assert(two_to(2) == 4);
    assert(two_to(3) == 8);
    assert(two_to(4) == 16);
    assert(two_to(5) == 32);
    assert(two_to(6) == 64);
    if shift == 0 {
        100
    } else if shift == 1 {
        200
    } else if shift == 2 {
        400
    } else if shift == 3 {
        800
    } else if shift == 4 {
        1600
    } else if shift == 5 {
        3200
    } else {
        6400
    }
}

/// `j` is the first entry of `t` whose message is `e`.
pub open spec fn tally_at(t: Seq<(Seq<char>, nat)>, e: Seq<char>, j: int) -> bool {
    0 <= j < t.len() && t[j].0 == e && forall|k: int| 0 <= k < j ==> t[k].0 != e
}

/// The distinct messages of `errors` in the order they first appear, each
/// with how often it occurs.
pub open spec fn tally(errors: Seq<Seq<char>>) -> Seq<(Seq<char>, nat)>
    decreases errors.len(),
{
    if errors.len() == 0 {
        Seq::empty()
    } else {
        let t = tally(errors.drop_last());
        let e = errors.last();
        if exists|j: int| tally_at(t, e, j) {
            let j = choose|j: int| tally_at(t, e, j);
            t.update(j, (e, t[j].1 + 1))
        } else {
            t.push((e, 1nat))
        }
    }
}

/// One entry of the summary: the message, with `" (×n)"` when it occurred
/// `n > 1` times.
pub open spec fn tally_text(entry: (Seq<char>, nat)) -> Seq<char> {
    if entry.1 > 1 {
        entry.0 + " (×"@ + decimal(entry.1) + ")"@
    } else {
        entry.0
    }
}

/// The summary of `errors`: each distinct message once, in first-seen order,
/// with its count when repeated, separated by `"; "`.
pub open spec fn summary(errors: Seq<Seq<char>>) -> Seq<char> {
    join(tally(errors).map_values(|e: (Seq<char>, nat)| tally_text(e)), "; "@)
}

proof fn lemma_tally_of_copies(errors: Seq<Seq<char>>, e: Seq<char>)
    requires
        errors.len() > 0,
        forall|i: int| 0 <= i < errors.len() ==> #[trigger] errors[i] == e,
    ensures
        tally(errors) == seq![(e, errors.len())],
    decreases errors.len(),
{
    assert(errors.last() == errors[errors.len() - 1]);
    if errors.len() == 1 {
        assert(errors.drop_last() =~= Seq::<Seq<char>>::empty());
        assert(tally(errors.drop_last()) == Seq::<(Seq<char>, nat)>::empty());
        assert(!exists|j: int| tally_at(Seq::<(Seq<char>, nat)>::empty(), e, j));
        assert(Seq::<(Seq<char>, nat)>::empty().push((e, 1nat)) =~= seq![(e, errors.len())]);
    } else {
        assert forall|i: int| 0 <= i < errors.drop_last().len() implies #[trigger] errors.drop_last()[i] == e by {
            assert(errors.drop_last()[i] == errors[i]);
        }
        lemma_tally_of_copies(errors.drop_last(), e);
        let t = tally(errors.drop_last());
        assert(tally_at(t, e, 0));
        let j = choose|j: int| tally_at(t, e, j);
        assert(j == 0);
        assert(t.update(0, (e, t[0].1 + 1)) =~= seq![(e, errors.len())]);
    }
}

/// The same error `n` times over is summarised once, as `e (×n)` when
/// `n > 1` and as `e` when it occurred once.
pub proof fn law_repeated_error_collapses(errors: Seq<Seq<char>>, e: Seq<char>)
    requires
        errors.len() > 0,
        forall|i: int| 0 <= i < errors.len() ==> #[trigger] errors[i] == e,
    ensures
        summary(errors) == if errors.len() > 1 {
            e + " (×"@ + decimal(errors.len()) + ")"@
        } else {
            e
        },
{
    lemma_tally_of_copies(errors, e);
    let parts = tally(errors).map_values(|x: (Seq<char>, nat)| tally_text(x));
    assert(parts =~= seq![tally_text((e, errors.len()))]);
}

/// Collapses repeated errors into `"<err> (×N)"` while keeping the order in
/// which distinct errors first appeared.
pub fn summarize_errors(errors: &Vec<String>) -> (r: String)
    ensures
        r@ == summary(errors@.map_values(|e: String| e@)),
{
    let ghost ev = errors@.map_values(|e: String| e@);
    let mut msgs: Vec<String> = Vec::new();
    let mut counts: Vec<u64> = Vec::new();
    let mut i: usize = 0;
    while i < errors.len()
        invariant
            i <= errors.len(),
            ev == errors@.map_values(|e: String| e@),
            msgs.len() == counts.len(),
            msgs.len() == tally(ev.take(i as int)).len(),
            forall|k: int|
                0 <= k < msgs.len() ==> (#[trigger] msgs@[k])@ == tally(ev.take(i as int))[k].0
                    && counts@[k] == tally(ev.take(i as int))[k].1,
            forall|k: int| 0 <= k < counts.len() ==> #[trigger] counts@[k] <= i,
        decreases errors.len() - i,
    {
        let ghost t = tally(ev.take(i as int));
        proof {
            assert(ev.take(i + 1).drop_last() =~= ev.take(i as int));
            assert(ev.take(i + 1).last() == ev[i as int]);
        }
        let e = &errors[i];
        let ghost old_msgs = msgs@;
        let ghost old_counts = counts@;
        let mut j: usize = 0;
        while j < msgs.len() && !str_eq(msgs[j].as_str(), e.as_str())
            invariant
                j <= msgs.len(),
                msgs.len() == t.len(),
                forall|k: int| 0 <= k < msgs.len() ==> (#[trigger] msgs@[k])@ == t[k].0,
                forall|k: int| 0 <= k < j ==> t[k].0 != e@,
            decreases msgs.len() - j,
        {
            j = j + 1;
        }
        if j < msgs.len() {
            proof {
                assert(tally_at(t, e@, j as int));
                let c = choose|c: int| tally_at(t, e@, c);
                if c < j {
                    assert(t[c].0 != e@);
                } else if c > j {
                    assert(t[j as int].0 != e@);
                }
            }
            let n = counts[j] + 1;
            counts.set(j, n);
            proof {
                let t2 = tally(ev.take(i + 1));
                assert(t2 == t.update(j as int, (e@, t[j as int].1 + 1)));
                assert forall|k: int| 0 <= k < msgs.len() implies (#[trigger] msgs@[k])@ == t2[k].0
                    && counts@[k] == t2[k].1 by {
                    assert(msgs@[k] == old_msgs[k]);
                    if k == j {
                        assert(msgs@[k]@ == e@);
                        assert(counts@[k] == old_counts[k] + 1);
                        assert(old_counts[k] == t[k].1);
                    } else {
                        assert(counts@[k] == old_counts[k]);
                        assert(t2[k] == t[k]);
                    }
                }
            }
        } else {
            proof {
                if exists|c: int| tally_at(t, e@, c) {
                    let c = choose|c: int| tally_at(t, e@, c);
                    assert(t[c].0 != e@);
                }
            }
            msgs.push(e.clone());
            counts.push(1);
            proof {
                let t2 = tally(ev.take(i + 1));
                assert(t2 == t.push((e@, 1nat)));
                assert forall|k: int| 0 <= k < msgs.len() implies (#[trigger] msgs@[k])@ == t2[k].0
                    && counts@[k] == t2[k].1 by {
                    if k < t.len() {
                        assert(msgs@[k] == old_msgs[k]);
                        assert(counts@[k] == old_counts[k]);
                    } else {
                        assert(k == t.len());
                        assert(msgs@[k]@ == e@);
                        assert(counts@[k] == 1);
                    }
                }
            }
        }
        i = i + 1;
    }
    assert(ev.take(errors.len() as int) =~= ev);
    let mut parts: Vec<String> = Vec::new();
    let mut k: usize = 0;
    let ghost t = tally(ev);
    while k < msgs.len()
        invariant
            k <= msgs.len(),
            msgs.len() == counts.len(),
            msgs.len() == t.len(),
            forall|q: int| 0 <= q < msgs.len() ==> (#[trigger] msgs@[q])@ == t[q].0 && counts@[q] == t[q].1,
            parts@.map_values(|p: String| p@) == t.take(k as int).map_values(
                |e: (Seq<char>, nat)| tally_text(e),
            ),
        decreases msgs.len() - k,
    {
        let ghost before = parts@;
        let mut p = msgs[k].clone();
        if counts[k] > 1 {
            push_str(&mut p, " (×");
            push_decimal(&mut p, counts[k]);
            push_str(&mut p, ")");
        }
        parts.push(p);
        proof {
            assert(parts@.map_values(|p: String| p@) =~= before.map_values(|p: String| p@).push(
                tally_text(t[k as int]),
            ));
            assert(t.take(k + 1).map_values(|e: (Seq<char>, nat)| tally_text(e)) =~= t.take(
                k as int,
            ).map_values(|e: (Seq<char>, nat)| tally_text(e)).push(tally_text(t[k as int])));
        }
        k = k + 1;
    }
    assert(t.take(msgs.len() as int) =~= t);
    join_strings(&parts, "; ")
}

/// The tag of request number `n`.
pub open spec fn tag_text(n: u64) -> Seq<char> {
    "xmcp_"@ + decimal(n as nat)
}

/// The tag of request number `n`: `xmcp_<n>`.
pub fn tag_for(n: u64) -> (r: String)
    ensures
        r@ == tag_text(n),
{
    let mut r = to_owned_string("xmcp_");
    push_decimal(&mut r, n);
    r
}

/// The connection to the IDE: it numbers its requests.
pub struct Communicator {
    pub tag_counter: AtomicU64,
    pub verbose: bool,
}

impl Communicator {
    /// A communicator whose first request is number 0.
    pub fn new(verbose: bool) -> (r: Self)
        ensures
            r.verbose == verbose,
    {
        Communicator { tag_counter: AtomicU64::new(0), verbose }
    }

    /// The tag of the next request: `xmcp_<n>` for the counter's value,
    /// which the call advances. The counter is shared between threads, so
    /// the number is whatever the counter held.
    pub fn next_tag(&self) -> (r: String)
        ensures
            exists|n: u64| r@ == tag_text(n),
    {
        let n = self.tag_counter.fetch_add(1, Ordering::Relaxed);
        tag_for(n)
    }
}

/// The bytes of a request as text: the protocol-2 handshake
/// `{"protocol":2}` and the request `{"script":...,"tag":...}`, each
/// followed by a NUL character.
pub open spec fn payload_text(tag: Seq<char>, script: Seq<char>) -> Seq<char> {
    "{\"protocol\":2}"@ + seq!['\0'] + "{\"script\":"@ + json_quoted(script) + ",\"tag\":"@
        + json_quoted(tag) + "}"@ + seq!['\0']
}

/// The request for `script` under `tag`, framed for the IDE's protocol 2.
pub fn build_payload(tag: &str, script: &str) -> (r: String)
    ensures
        r@ == payload_text(tag@, script@),
{
    let mut r = to_owned_string("{\"protocol\":2}");
    push_char(&mut r, '\0');
    push_str(&mut r, "{\"script\":");
    let qs = quote_json(script);
    push_str(&mut r, qs.as_str());
    push_str(&mut r, ",\"tag\":");
    let qt = quote_json(tag);
    push_str(&mut r, qt.as_str());
    push_str(&mut r, "}");
    push_char(&mut r, '\0');
    r
}

/// The reply `response` is the one for request `tag`: its `tag` member is
/// that string.
pub open spec fn reply_for(response: JsonView, tag: Seq<char>) -> bool {
    as_str_opt(get(response, "tag"@)) == Some(tag)
}

/// Whether `response` answers the request tagged `tag`.
pub fn is_reply_for(response: &Json, tag: &str) -> (r: bool)
    ensures
        r == reply_for(response@, tag@),
{
    match response.get("tag") {
        Some(t) => match t.as_str() {
            Some(s) => str_eq(s.as_str(), tag),
            None => false,
        },
        None => false,
    }
}

/// What to do with a frame of the reply whose text parsed as `parsed`
/// (or failed to, with that message).
pub enum FrameStep {
    /// The frame answers another request: read on.
    Next,
    /// Stop with this error.
    Fail(String),
    /// The reply to this request.
    Reply(Json),
}

/// The mathematical form of a [`FrameStep`].
pub enum FrameStepView {
    Next,
    Fail(Seq<char>),
    Reply(JsonView),
}

/// The view of a step.
pub open spec fn frame_step_view(s: FrameStep) -> FrameStepView {
    match s {
        FrameStep::Next => FrameStepView::Next,
        FrameStep::Fail(m) => FrameStepView::Fail(m@),
        FrameStep::Reply(j) => FrameStepView::Reply(j@),
    }
}

/// The step for a frame of text whose JSON parse gave `parsed`: an error
/// for text that is not JSON, the reply when its `tag` is this request's,
/// else on to the next frame.
pub open spec fn reply_step_spec(parsed: Result<JsonView, Seq<char>>, tag: Seq<char>) -> FrameStepView {
    match parsed {
        Err(e) => FrameStepView::Fail("Invalid JSON in IPC frame: "@ + e),
        Ok(v) => if reply_for(v, tag) {
            FrameStepView::Reply(v)
        } else {
            FrameStepView::Next
        },
    }
}

/// Decides on one decoded frame, given the result of parsing its text as
/// JSON (the parse error's message on failure).
pub fn reply_step(parsed: Result<Json, String>, tag: &str) -> (r: FrameStep)
    ensures
        frame_step_view(r) == reply_step_spec(
            match parsed {
                Ok(v) => Ok(v@),
                Err(e) => Err(e@),
            },
            tag@,
        ),
{
    match parsed {
        Err(e) => {
            let mut m = to_owned_string("Invalid JSON in IPC frame: ");
            push_str(&mut m, e.as_str());
            FrameStep::Fail(m)
        },
        Ok(v) => if is_reply_for(&v, tag) {
            FrameStep::Reply(v)
        } else {
            FrameStep::Next
        },
    }
}

/// What one probe of a socket path came to, short of a reply.
pub enum ProbeFailure {
    /// No socket file at the path.
    Missing,
    /// Connecting, writing or reading failed with this message.
    Failed(String),
}

/// What to do next in the retry loop.
pub enum Step {
    /// Probe candidate path number `0`.
    Probe(usize),
    /// Pause for this many milliseconds, then start the next round.
    Pause(u64),
    /// Stop and report this message.
    GiveUp(String),
}

/// The state of the retry loop over the candidate socket paths: the round,
/// the next candidate in it, the errors so far, and whether the last one
/// was transient.
pub struct Attempts {
    pub attempt: u32,
    pub next: usize,
    pub candidates: usize,
    pub errors: Vec<String>,
    pub last_retryable: bool,
}

/// The message for a missing socket file.
pub open spec fn missing_message(path: Seq<char>) -> Seq<char> {
    "IPC socket not found at: "@ + path
}

/// The message when every attempt failed.
pub open spec fn give_up_message(errors: Seq<Seq<char>>) -> Seq<char> {
    if errors.len() == 0 {
        "No IPC socket candidates found."@
    } else {
        summary(errors)
    }
}

impl Attempts {
    /// The loop's invariant: a round below the limit, the next candidate in
    /// range, and one error recorded for every probe made.
    pub open spec fn wf(&self) -> bool {
        &&& self.attempt < MAX_RETRIES
        &&& self.next <= self.candidates
        &&& self.errors.len() == self.attempt * self.candidates + self.next
    }

    /// The errors so far, as text.
    pub open spec fn error_texts(&self) -> Seq<Seq<char>> {
        self.errors@.map_values(|e: String| e@)
    }

    /// A new loop over `candidates` paths: round 0, first candidate, no
    /// errors, and a failure counted as transient.
    pub fn start(candidates: usize) -> (r: Self)
        ensures
            r.wf(),
            r.attempt == 0,
            r.next == 0,
            r.candidates == candidates,
            r.errors@.len() == 0,
            r.last_retryable,
    {
        Attempts { attempt: 0, next: 0, candidates, errors: Vec::new(), last_retryable: true }
    }

    /// The next step: probe the next candidate of this round; after the
    /// round, pause before the next one while rounds are left and the last
    /// failure was transient; otherwise give up with the summary of the
    /// errors.
    pub fn step(&self) -> (r: Step)
        requires
            self.wf(),
        ensures
            self.next < self.candidates ==> (r matches Step::Probe(k) && k == self.next),
            self.next == self.candidates && self.attempt + 1 < MAX_RETRIES && self.last_retryable
                ==> (r matches Step::Pause(ms) && ms == pause_millis((self.attempt + 1) as u32)),
            self.next == self.candidates && !(self.attempt + 1 < MAX_RETRIES && self.last_retryable)
                ==> (r matches Step::GiveUp(m) && m@ == give_up_message(self.error_texts())),
    {
        if self.next < self.candidates {
            Step::Probe(self.next)
        } else if self.attempt + 1 < MAX_RETRIES && self.last_retryable {
            Step::Pause(retry_pause(self.attempt + 1))
        } else if self.errors.len() == 0 {
            Step::GiveUp(to_owned_string("No IPC socket candidates found."))
        } else {
            Step::GiveUp(summarize_errors(&self.errors))
        }
    }

    /// Records the failed probe of candidate `path`: a missing socket counts
    /// as transient; another failure is transient when its message says so.
    pub fn record(&mut self, path: &str, failure: ProbeFailure)
        requires
            old(self).wf(),
            old(self).next < old(self).candidates,
        ensures
            final(self).wf(),
            final(self).attempt == old(self).attempt,
            final(self).candidates == old(self).candidates,
            final(self).next == old(self).next + 1,
            match failure {
                ProbeFailure::Missing => final(self).error_texts() == old(self).error_texts().push(
                    missing_message(path@),
                ) && final(self).last_retryable,
                ProbeFailure::Failed(e) => final(self).error_texts() == old(self).error_texts().push(e@)
                    && final(self).last_retryable == retryable(e@),
            },
    {
        let ghost before = self.errors@;
        proof {
            assert(self.attempt * self.candidates + self.next < MAX_RETRIES * self.candidates) by (nonlinear_arith)
                requires
                    self.attempt < MAX_RETRIES,
                    self.next < self.candidates,
            ;
        }
        match failure {
            ProbeFailure::Missing => {
                let mut m = to_owned_string("IPC socket not found at: ");
                push_str(&mut m, path);
                self.errors.push(m);
                self.last_retryable = true;
            },
            ProbeFailure::Failed(e) => {
                self.last_retryable = is_retryable(e.as_str());
                self.errors.push(e);
            },
        }
        self.next = self.next + 1;
        proof {
            assert(self.errors@.map_values(|e: String| e@) =~= before.map_values(|e: String| e@).push(
                self.errors@.last()@,
            ));
        }
    }

    /// Starts the next round after a pause.
    pub fn resume(&mut self)
        requires
            old(self).wf(),
            old(self).next == old(self).candidates,
            old(self).attempt + 1 < MAX_RETRIES,
        ensures
            final(self).wf(),
            final(self).attempt == old(self).attempt + 1,
            final(self).next == 0,
            final(self).candidates == old(self).candidates,
            final(self).errors@ == old(self).errors@,
            final(self).last_retryable == old(self).last_retryable,
    {
        proof {
            assert((self.attempt + 1) * self.candidates == self.attempt * self.candidates + self.candidates)
                by (nonlinear_arith);
        }
        self.attempt = self.attempt + 1;
        self.next = 0;
    }
}

/// The loop makes at most `MAX_RETRIES` rounds of probes, one error per
/// probe, so it records at most `MAX_RETRIES` times the number of
/// candidates errors before it gives up.
pub proof fn law_attempts_are_bounded(a: Attempts)
    requires
        a.wf(),
    ensures
        a.errors.len() <= MAX_RETRIES * a.candidates,
{
    assert(a.attempt * a.candidates + a.next <= MAX_RETRIES * a.candidates) by (nonlinear_arith)
        requires
            a.attempt < MAX_RETRIES,
            a.next <= a.candidates,
    ;
}

/// The pauses grow from 100 ms and never exceed 6.4 s.
pub proof fn law_pauses_are_bounded(attempt: u32)
    ensures
        100 <= pause_millis(attempt) <= 6400,
        attempt >= 1 && attempt <= 6 ==> pause_millis((attempt + 1) as u32) == 2 * pause_millis(attempt),
{
    assert(two_to(0) == 1);
    assert(two_to(1) == 2);
    assert(two_to(2) == 4);
    assert(two_to(3) == 8);
    assert(two_to(4) == 16);
    assert(two_to(5) == 32);
    assert(two_to(6) == 64);
}

/// The reply bytes received so far, and how far they have been cut into
/// frames: the bytes from `cursor` on are still pending.
pub struct FrameBuffer {
    pub buffer: Vec<u8>,
    pub cursor: usize,
}

impl FrameBuffer {
    /// The cursor lies within the buffer.
    pub open spec fn wf(&self) -> bool {
        self.cursor <= self.buffer.len()
    }

    /// The bytes not yet cut into frames.
    pub open spec fn pending(&self) -> Seq<u8> {
        self.buffer@.skip(self.cursor as int)
    }

    /// An empty buffer: no bytes received, none cut into frames.
    pub fn new() -> (r: Self)
        ensures
            r.buffer@ == Seq::<u8>::empty(),
            r.cursor == 0,
            r.wf(),
            r.pending() == Seq::<u8>::empty(),
    {
        let r = FrameBuffer { buffer: Vec::new(), cursor: 0 };
        assert(r.pending() =~= Seq::<u8>::empty());
        r
    }

    /// Appends bytes read from the socket.
    pub fn push_bytes(&mut self, data: &[u8])
        requires
            old(self).wf(),
        ensures
            final(self).wf(),
            final(self).pending() == old(self).pending() + data@,
    {
        let ghost start = self.buffer@;
        let ghost c0 = self.cursor;
        let mut i: usize = 0;
        while i < data.len()
            invariant
                i <= data.len(),
                self.cursor == c0,
                self.cursor <= start.len(),
                self.buffer@ == start + data@.take(i as int),
            decreases data.len() - i,
        {
            self.buffer.push(data[i]);
            assert(start + data@.take(i + 1) =~= (start + data@.take(i as int)).push(data@[i as int]));
            i = i + 1;
        }
        assert(data@.take(data.len() as int) =~= data@);
        assert(self.pending() =~= start.skip(self.cursor as int) + data@);
    }

    /// Cuts off the next NUL-terminated frame, if the pending bytes hold a
    /// NUL: the bytes before the first NUL; the pending bytes then start
    /// after it.
    pub fn next_frame(&mut self) -> (r: Option<Vec<u8>>)
        requires
            old(self).wf(),
        ensures
            final(self).wf(),
            final(self).buffer@ == old(self).buffer@,
            match r {
                Some(frame) => {
                    &&& !frame@.contains(0u8)
                    &&& old(self).pending() == frame@ + seq![0u8] + final(self).pending()
                },
                None => !old(self).pending().contains(0u8) && final(self).pending() == old(self).pending(),
            },
    {
        let mut k = self.cursor;
        while k < self.buffer.len() && self.buffer[k] != 0
            invariant
                self.cursor <= k <= self.buffer.len(),
                forall|j: int| self.cursor <= j < k ==> self.buffer@[j] != 0,
            decreases self.buffer.len() - k,
        {
            k = k + 1;
        }
        let ghost p = self.pending();
        if k == self.buffer.len() {
            proof {
                assert(!p.contains(0u8)) by {
                    if p.contains(0u8) {
                        let j = choose|j: int| 0 <= j < p.len() && p[j] == 0u8;
                        assert(self.buffer@[j + self.cursor] != 0);
                    }
                }
            }
            return None;
        }
        let mut frame: Vec<u8> = Vec::new();
        let mut i = self.cursor;
        while i < k
            invariant
                self.cursor <= i <= k < self.buffer.len(),
                frame@ == self.buffer@.subrange(self.cursor as int, i as int),
            decreases k - i,
        {
            frame.push(self.buffer[i]);
            assert(self.buffer@.subrange(self.cursor as int, i + 1) =~= self.buffer@.subrange(
                self.cursor as int,
                i as int,
            ).push(self.buffer@[i as int]));
            i = i + 1;
        }
        let ghost old_cursor = self.cursor;
        self.cursor = k + 1;
        proof {
            assert(!frame@.contains(0u8)) by {
                if frame@.contains(0u8) {
                    let j = choose|j: int| 0 <= j < frame@.len() && frame@[j] == 0u8;
                    assert(self.buffer@[j + old_cursor] != 0);
                }
            }
            assert(p =~= frame@ + seq![0u8] + self.pending());
        }
        Some(frame)
    }

    /// Reclaims the consumed prefix once it is more than 4096 bytes and more
    /// than half of the buffer; the pending bytes do not change.
    pub fn compact(&mut self)
        requires
            old(self).wf(),
        ensures
            final(self).wf(),
            final(self).pending() == old(self).pending(),
            old(self).cursor > 4096 && old(self).cursor * 2 > old(self).buffer.len() ==> final(self).cursor == 0,
            !(old(self).cursor > 4096 && old(self).cursor * 2 > old(self).buffer.len()) ==> final(self).buffer@
                == old(self).buffer@ && final(self).cursor == old(self).cursor,
    {
        if self.cursor > 4096 && self.cursor > self.buffer.len() - self.cursor {
            let mut rest: Vec<u8> = Vec::new();
            let mut i = self.cursor;
            while i < self.buffer.len()
                invariant
                    self.cursor <= i <= self.buffer.len(),
                    rest@ == self.buffer@.subrange(self.cursor as int, i as int),
                decreases self.buffer.len() - i,
            {
                rest.push(self.buffer[i]);
                assert(self.buffer@.subrange(self.cursor as int, i + 1) =~= self.buffer@.subrange(
                    self.cursor as int,
                    i as int,
                ).push(self.buffer@[i as int]));
                i = i + 1;
            }
            let ghost p = self.pending();
            self.buffer = rest;
            self.cursor = 0;
            assert(self.pending() =~= p);
        }
    }
}

/// The message `std` gives for bytes that are not UTF-8 (the `Display` of
/// `Utf8Error`).
pub uninterp spec fn utf8_error_text(bytes: Seq<u8>) -> Seq<char>;

/// Calls `std::str::from_utf8`. The contract claims what its documentation
/// says: it succeeds exactly on valid UTF-8 and then holds the decoded
/// characters; the error's text is named, not stated.
#[verifier::external_body]
fn decode_utf8_bytes(bytes: &[u8]) -> (r: Result<String, String>)
    ensures
        match r {
            Ok(s) => vstd::utf8::valid_utf8(bytes@) && s@ == vstd::utf8::decode_utf8(bytes@),
            Err(m) => !vstd::utf8::valid_utf8(bytes@) && m@ == utf8_error_text(bytes@),
        },
{
    match std::str::from_utf8(bytes) {
        Ok(s) => Ok(s.to_string()),
        Err(e) => Err(e.to_string()),
    }
}

/// The text of a frame: an error for bytes that are not UTF-8, nothing for
/// a frame that is blank, else the trimmed text.
pub open spec fn frame_text(frame: Seq<u8>) -> Result<Option<Seq<char>>, Seq<char>> {
    if vstd::utf8::valid_utf8(frame) {
        let t = trim(vstd::utf8::decode_utf8(frame));
        if t.len() == 0 {
            Ok(None)
        } else {
            Ok(Some(t))
        }
    } else {
        Err("Invalid UTF-8 in IPC frame: "@ + utf8_error_text(frame))
    }
}

/// Decodes and trims one frame of a reply.
pub fn decode_frame(frame: &[u8]) -> (r: Result<Option<String>, String>)
    ensures
        match r {
            Ok(Some(t)) => frame_text(frame@) == Ok::<Option<Seq<char>>, Seq<char>>(Some(t@)),
            Ok(None) => frame_text(frame@) == Ok::<Option<Seq<char>>, Seq<char>>(None),
            Err(m) => frame_text(frame@) == Err::<Option<Seq<char>>, Seq<char>>(m@),
        },
{
    match decode_utf8_bytes(frame) {
        Ok(s) => {
            let t = trim_string(s.as_str());
            if t.as_str().is_empty() {
                Ok(None)
            } else {
                Ok(Some(t))
            }
        },
        Err(e) => {
            let mut m = to_owned_string("Invalid UTF-8 in IPC frame: ");
            push_str(&mut m, e.as_str());
            Err(m)
        },
    }
}

/// What to do with one frame of the reply to request `tag`: an error for
/// bytes that are not UTF-8 or text that is not JSON, on to the next frame
/// for a blank frame or a reply to another request, else the reply.
pub open spec fn frame_verdict(frame: Seq<u8>, tag: Seq<char>) -> FrameStepView {
    match frame_text(frame) {
        Err(m) => FrameStepView::Fail(m),
        Ok(None) => FrameStepView::Next,
        Ok(Some(t)) => reply_step_spec(
            match json_parse(t) {
                Some(v) => Ok(v),
                None => Err(json_parse_error(t)),
            },
            tag,
        ),
    }
}

/// Decides on one frame of the reply: decodes it, parses its text as JSON
/// and checks its tag.
pub fn judge_frame(frame: &[u8], tag: &str) -> (r: FrameStep)
    ensures
        frame_step_view(r) == frame_verdict(frame@, tag@),
{
    match decode_frame(frame) {
        Err(m) => FrameStep::Fail(m),
        Ok(None) => FrameStep::Next,
        Ok(Some(t)) => {
            let parsed = parse_json_text(t.as_str());
            reply_step(parsed, tag)
        },
    }
}

/// A frame is taken as the reply only when its `tag` member is the
/// request's own tag: a reply to another request is never returned.
pub proof fn law_only_the_own_reply_is_taken(frame: Seq<u8>, tag: Seq<char>)
    ensures
        frame_verdict(frame, tag) matches FrameStepView::Reply(v) ==> as_str_opt(get(v, "tag"@)) == Some(tag),
{
}

} // verus!
