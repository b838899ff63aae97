use vstd::prelude::*;

use crate::context::{decoded_from, encoded_store_effect, read_outcome, store_effect, Context};
use crate::error::{displays_as, join_text, persist_message, DuraflowError};
use crate::store::Storage;

verus! {

/// What a typed read returned, without the completion count.
pub open spec fn found_value<O>(r: Option<(O, usize)>) -> Option<O> {
    match r {
        Some((v, _)) => Some(v),
        None => None,
    }
}

/// What persisting answers when the count was `count` and the store's
/// write answered `w`: the new count after a successful write, else the
/// `Persist` error for task `id` that carries the store's error.
pub open spec fn persist_reply(
    count: int,
    id: Seq<char>,
    w: Result<(), std::io::Error>,
    r: Result<usize, DuraflowError>,
) -> bool {
    match w {
        Ok(_) => r matches Ok(n) && n == count + 1,
        Err(src) => r matches Err(DuraflowError::Persist { key, source }) && key@ == id && source
            == src,
    }
}

/// What a run that reports persistence errors answers: the output with the
/// new count after a successful write, else the `Persist` error for `id`
/// that carries the store's error.
pub open spec fn run_result_reply<O>(
    count: int,
    id: Seq<char>,
    result: O,
    w: Result<(), std::io::Error>,
    r: Result<(O, usize), DuraflowError>,
) -> bool {
    match w {
        Ok(_) => r matches Ok((v, n)) && v == result && n == count + 1,
        Err(src) => r matches Err(DuraflowError::Persist { key, source }) && key@ == id && source
            == src,
    }
}

/// Whether `line` is the warning of a plain run whose persist of task `id`
/// failed with `src`: `persist failed for <id>: ` followed by the message of
/// the `Persist` error.
pub open spec fn persist_warning(id: Seq<char>, src: std::io::Error, line: Seq<char>) -> bool {
    exists|pm: Seq<char>| persist_message(id, src, pm) && line == "persist failed for "@ + id + ": "@
        + pm
}

/// What a plain run answers: always the output, beside the new count after
/// a successful write, else the warning line.
pub open spec fn run_reply<O>(
    count: int,
    id: Seq<char>,
    result: O,
    w: Result<(), std::io::Error>,
    r: (O, Result<usize, String>),
) -> bool {
    &&& r.0 == result
    &&& match w {
        Ok(_) => r.1 matches Ok(n) && n == count + 1,
        Err(src) => r.1 matches Err(line) && persist_warning(id, src, line@),
    }
}

/// What a scheduler-driven run answers for an output of its inner task: the
/// output with the new count after a successful write, else the message of
/// the `Persist` error.
pub open spec fn extract_reply<O>(
    count: int,
    id: Seq<char>,
    output: O,
    w: Result<(), std::io::Error>,
    r: Result<(O, usize), String>,
) -> bool {
    match w {
        Ok(_) => r matches Ok((v, n)) && v == output && n == count + 1,
        Err(src) => r matches Err(m) && persist_message(id, src, m@),
    }
}

/// Looks for the persisted output of task `id`. When it is there and decodes,
/// the task counts as completed: the count goes up by one, and the decoded
/// output is returned with the new count (the number that progress handlers
/// are given). Otherwise nothing changes and `None` tells the caller to run
/// the task.
pub fn try_cached_and_mark<S: Storage, O, F: Fn(String) -> Option<O>>(
    ctx: &mut Context<S>,
    id: &str,
    decode: F,
) -> (r: Option<(O, usize)>)
    requires
        old(ctx).completed_count < usize::MAX,
        forall|s: String| call_requires(decode, (s,)),
    ensures
        final(ctx).db == old(ctx).db,
        match r {
            Some((_, n)) => {
                &&& n == old(ctx).completed_count + 1
                &&& final(ctx).completed_count == n
            },
            None => final(ctx).completed_count == old(ctx).completed_count,
        },
        S::keeps_contents() ==> read_outcome(old(ctx).db.contents(), id@, decode, found_value(r)),
        r is Some ==> exists|text: Seq<char>| decoded_from(decode, text, found_value(r)),
{
    match ctx.get(id, decode) {
        Some(v) => {
            ctx.completed_count = ctx.completed_count + 1;
            Some((v, ctx.completed_count))
        },
        None => None,
    }
}

/// Persists the output `value` of task `id`, encoded by `encode`. On success
/// the task counts as completed: the count goes up by one and the new count
/// is returned. On failure the count stays, and the error is `Persist`, for
/// the key `id`, carrying the error of the write.
pub fn persist_and_mark<S: Storage, O, E: Fn(&O) -> Result<String, serde_json::Error>>(
    ctx: &mut Context<S>,
    id: &str,
    value: &O,
    encode: E,
) -> (r: Result<usize, DuraflowError>)
    requires
        old(ctx).completed_count < usize::MAX,
        call_requires(encode, (value,)),
    ensures
        final(ctx).completed_count == (if r is Ok {
            old(ctx).completed_count + 1
        } else {
            old(ctx).completed_count as int
        }),
        exists|w: Result<(), std::io::Error>|
            store_effect(old(ctx).db, final(ctx).db, id@, value, encode, w) && persist_reply(
                old(ctx).completed_count as int,
                id@,
                w,
                r,
            ),
{
    let saved = ctx.save(id, value, encode);
    let ghost w = saved;
    match saved {
        Ok(()) => {
            ctx.completed_count = ctx.completed_count + 1;
            let r = Ok(ctx.completed_count);
            assert(persist_reply(old(ctx).completed_count as int, id@, w, r));
            r
        },
        Err(source) => {
            let r = Err(DuraflowError::Persist { key: id.to_owned(), source });
            assert(persist_reply(old(ctx).completed_count as int, id@, w, r));
            r
        },
    }
}

/// The end of a run that reports persistence errors: the output `result` of
/// task `id` is persisted; on success it is handed back with the new count,
/// on failure the `Persist` error for `id`, carrying the error of the write,
/// is returned instead.
pub fn finish_run_result<S: Storage, O, E: Fn(&O) -> Result<String, serde_json::Error>>(
    ctx: &mut Context<S>,
    id: &str,
    result: O,
    encode: E,
) -> (r: Result<(O, usize), DuraflowError>)
    requires
        old(ctx).completed_count < usize::MAX,
        call_requires(encode, (&result,)),
    ensures
        final(ctx).completed_count == (if r is Ok {
            old(ctx).completed_count + 1
        } else {
            old(ctx).completed_count as int
        }),
        exists|w: Result<(), std::io::Error>|
            store_effect(old(ctx).db, final(ctx).db, id@, &result, encode, w) && run_result_reply(
                old(ctx).completed_count as int,
                id@,
                result,
                w,
                r,
            ),
{
    let p = persist_and_mark(ctx, id, &result, encode);
    let ghost w = choose|w: Result<(), std::io::Error>|
        store_effect(old(ctx).db, ctx.db, id@, &result, encode, w) && persist_reply(
            old(ctx).completed_count as int,
            id@,
            w,
            p,
        );
    let r = match p {
        Ok(n) => Ok((result, n)),
        Err(e) => Err(e),
    };
    assert(run_result_reply(old(ctx).completed_count as int, id@, result, w, r));
    r
}

/// The end of a plain run, which always hands back the output `result` of
/// task `id`: the output is persisted, and beside it comes either the new
/// count (persisted) or a warning line, `persist failed for <id>: ` followed
/// by the message of the `Persist` error, in which case the count stays.
pub fn finish_run<S: Storage, O, E: Fn(&O) -> Result<String, serde_json::Error>>(
    ctx: &mut Context<S>,
    id: &str,
    result: O,
    encode: E,
) -> (r: (O, Result<usize, String>))
    requires
        old(ctx).completed_count < usize::MAX,
        call_requires(encode, (&result,)),
    ensures
        final(ctx).completed_count == (if r.1 is Ok {
            old(ctx).completed_count + 1
        } else {
            old(ctx).completed_count as int
        }),
        exists|w: Result<(), std::io::Error>|
            store_effect(old(ctx).db, final(ctx).db, id@, &result, encode, w) && run_reply(
                old(ctx).completed_count as int,
                id@,
                result,
                w,
                r,
            ),
{
    let p = persist_and_mark(ctx, id, &result, encode);
    let ghost w = choose|w: Result<(), std::io::Error>|
        store_effect(old(ctx).db, ctx.db, id@, &result, encode, w) && persist_reply(
            old(ctx).completed_count as int,
            id@,
            w,
            p,
        );
    match p {
        Ok(n) => {
            let r = (result, Ok(n));
            assert(run_reply(old(ctx).completed_count as int, id@, result, w, r));
            r
        },
        Err(e) => {
            let head = join_text("persist failed for ", id);
            let head = join_text(head.as_str(), ": ");
            let d = e.message();
            let line = join_text(head.as_str(), d.as_str());
            assert(line@ == "persist failed for "@ + id@ + ": "@ + d@);
            assert(persist_warning(id@, w->Err_0, line@));
            let r = (result, Err(line));
            assert(run_reply(old(ctx).completed_count as int, id@, result, w, r));
            r
        },
    }
}

/// The end of a run driven by the scheduler, whose inner task either ran
/// (`ran` is its output) or failed with a message. A failure of the inner
/// task is handed on unchanged and nothing is persisted. An output is
/// persisted: on success it comes back with the new count, on failure the
/// message of the `Persist` error comes back, which reads
/// `persist failed for <id>: ` followed by the description of the write's
/// error.
pub fn finish_extract<S: Storage, O, E: Fn(&O) -> Result<String, serde_json::Error>>(
    ctx: &mut Context<S>,
    id: &str,
    ran: Result<O, String>,
    encode: E,
) -> (r: Result<(O, usize), String>)
    requires
        old(ctx).completed_count < usize::MAX,
        forall|v: &O| call_requires(encode, (v,)),
    ensures
        match ran {
            Err(m) => r == Err::<(O, usize), String>(m) && *final(ctx) == *old(ctx),
            Ok(output) => {
                &&& final(ctx).completed_count == (if r is Ok {
                    old(ctx).completed_count + 1
                } else {
                    old(ctx).completed_count as int
                })
                &&& exists|w: Result<(), std::io::Error>|
                    store_effect(old(ctx).db, final(ctx).db, id@, &output, encode, w)
                        && extract_reply(old(ctx).completed_count as int, id@, output, w, r)
            },
        },
{
    match ran {
        Err(m) => Err(m),
        Ok(output) => {
            let p = persist_and_mark(ctx, id, &output, encode);
            let ghost w = choose|w: Result<(), std::io::Error>|
                store_effect(old(ctx).db, ctx.db, id@, &output, encode, w) && persist_reply(
                    old(ctx).completed_count as int,
                    id@,
                    w,
                    p,
                );
            let r = match p {
                Ok(n) => Ok((output, n)),
                Err(e) => Err(e.message()),
            };
            assert(extract_reply(old(ctx).completed_count as int, id@, output, w, r));
            r
        },
    }
}

/// A look-up hands back the value it found, or nothing when it found
/// nothing; and for an id whose output is not stored, on a store that keeps
/// its contents, the look-up finds nothing, so the task is run.
pub proof fn law_look_up_finds_only_stored<O, F: Fn(String) -> Option<O>>(
    contents: Map<Seq<char>, Seq<char>>,
    id: Seq<char>,
    decode: F,
    r: Option<(O, usize)>,
)
    requires
        read_outcome(contents, id, decode, found_value(r)),
    ensures
        r matches Some((v, _)) ==> found_value(r) == Some(v),
        r is None ==> found_value(r) is None,
        !contents.contains_key(id) ==> r is None,
{
}

/// Persisting, whatever the count was: a successful write gives the count
/// plus one; a failed write gives the `Persist` error for the task's own id,
/// carrying the write's error.
pub proof fn law_persist_reply(
    count: int,
    id: Seq<char>,
    w: Result<(), std::io::Error>,
    r: Result<usize, DuraflowError>,
)
    requires
        persist_reply(count, id, w, r),
    ensures
        w is Ok ==> (r matches Ok(n) && n == count + 1),
        w matches Err(src) ==> (r matches Err(DuraflowError::Persist { key, source }) && key@ == id
            && source == src),
{
}

/// A run that reports persistence errors, whatever the count was: a
/// successful write gives the output and the count plus one; a failed write
/// gives the `Persist` error for the task's own id, carrying the write's
/// error.
pub proof fn law_run_result_reply<O>(
    count: int,
    id: Seq<char>,
    result: O,
    w: Result<(), std::io::Error>,
    r: Result<(O, usize), DuraflowError>,
)
    requires
        run_result_reply(count, id, result, w, r),
    ensures
        w is Ok ==> (r matches Ok((v, n)) && v == result && n == count + 1),
        w matches Err(src) ==> (r matches Err(DuraflowError::Persist { key, source }) && key@ == id
            && source == src),
{
}

/// A plain run, whatever the count was, hands back the output; beside it
/// the count plus one after a successful write, else the line
/// `persist failed for <id>: persist failed for <id>: ` followed by a text
/// that the write error's `to_string` gives.
pub proof fn law_run_reply<O>(
    count: int,
    id: Seq<char>,
    result: O,
    w: Result<(), std::io::Error>,
    r: (O, Result<usize, String>),
)
    requires
        run_reply(count, id, result, w, r),
    ensures
        r.0 == result,
        w is Ok ==> (r.1 matches Ok(n) && n == count + 1),
        w matches Err(src) ==> (r.1 matches Err(line) && exists|d: String|
            vstd::string::to_string_from_display_ensures::<std::io::Error>(&src, d) && line@
                == "persist failed for "@ + id + ": "@ + "persist failed for "@ + id + ": "@ + d@),
{
    if w is Err {
        let src = w->Err_0;
        let line = r.1->Err_0;
        let pm = choose|pm: Seq<char>|
            persist_message(id, src, pm) && line@ == "persist failed for "@ + id + ": "@ + pm;
        let t = choose|t: Seq<char>|
            displays_as(&src, t) && pm == "persist failed for "@ + id + ": "@ + t;
        let d = choose|d: String|
            vstd::string::to_string_from_display_ensures::<std::io::Error>(&src, d) && d@ == t;
        assert(line@ == "persist failed for "@ + id + ": "@ + "persist failed for "@ + id + ": "@
            + d@);
    }
}

/// A run driven by the scheduler, whatever the count was: a successful
/// write gives the output and the count plus one; a failed write gives the
/// message `persist failed for <id>: ` followed by a text that the write
/// error's `to_string` gives.
pub proof fn law_extract_reply<O>(
    count: int,
    id: Seq<char>,
    output: O,
    w: Result<(), std::io::Error>,
    r: Result<(O, usize), String>,
)
    requires
        extract_reply(count, id, output, w, r),
    ensures
        w is Ok ==> (r matches Ok((v, n)) && v == output && n == count + 1),
        w matches Err(src) ==> (r matches Err(m) && exists|d: String|
            vstd::string::to_string_from_display_ensures::<std::io::Error>(&src, d) && m@
                == "persist failed for "@ + id + ": "@ + d@),
{
    if w is Err {
        let src = w->Err_0;
        let m = r->Err_0;
        let t = choose|t: Seq<char>|
            displays_as(&src, t) && m@ == "persist failed for "@ + id + ": "@ + t;
        let d = choose|d: String|
            vstd::string::to_string_from_display_ensures::<std::io::Error>(&src, d) && d@ == t;
        assert(m@ == "persist failed for "@ + id + ": "@ + d@);
    }
}

/// Resumption: when the output `value` of task `id` was persisted (the
/// store keeps its contents, and the write succeeded), a later look-up of
/// `id` hands back `value` itself, provided that decoding the encoded text
/// gives the value back; so the task is not run again.
pub proof fn law_persisted_output_is_found<
    S: Storage,
    O,
    E: Fn(&O) -> Result<String, serde_json::Error>,
    F: Fn(String) -> Option<O>,
>(before: S, after: S, id: Seq<char>, value: &O, encode: E, decode: F)
    requires
        S::keeps_contents(),
        store_effect(before, after, id, value, encode, Ok(())),
        forall|enc: Result<String, serde_json::Error>, s: String, x: Option<O>|
            call_ensures(encode, (value,), enc) && (enc matches Ok(text) && s@ == text@)
                && call_ensures(decode, (s,), x) ==> x == Some(*value),
    ensures
        forall|r: Option<O>| read_outcome(after.contents(), id, decode, r) ==> r == Some(*value),
{
    let enc = choose|enc: Result<String, serde_json::Error>|
        call_ensures(encode, (value,), enc) && encoded_store_effect(before, after, id, enc, Ok(()));
    let text = enc->Ok_0;
    assert(after.contents().get(id) == Some(text@));
    assert forall|r: Option<O>| read_outcome(after.contents(), id, decode, r) implies r == Some(
        *value,
    ) by {
        let s = choose|s: String| s@ == text@ && call_ensures(decode, (s,), r);
    }
}

/// A plain run and a run that reports persistence errors agree, from the
/// same count, for the same task, output and answer of the store's write:
/// both succeed with the same output and count, or both fail, and the plain
/// run's warning then names the same task and the same cause as the
/// `Persist` error.
pub proof fn law_run_and_run_result_agree<O>(
    count: int,
    id: Seq<char>,
    result: O,
    w: Result<(), std::io::Error>,
    reported: Result<(O, usize), DuraflowError>,
    plain: (O, Result<usize, String>),
)
    requires
        run_result_reply(count, id, result, w, reported),
        run_reply(count, id, result, w, plain),
    ensures
        plain.0 == result,
        reported is Ok <==> plain.1 is Ok,
        reported matches Ok((v, n)) ==> v == plain.0 && plain.1 == Ok::<usize, String>(n),
        reported matches Err(DuraflowError::Persist { key, source }) ==> plain.1 matches Err(line)
            && key@ == id && persist_warning(key@, source, line@),
{
}

/// The number of completions among `done`.
pub open spec fn completions(done: Seq<bool>) -> int
    decreases done.len(),
{
    if done.len() == 0 {
        0
    } else {
        completions(done.drop_last()) + (if done.last() {
            1int
        } else {
            0int
        })
    }
}

/// Counting over a sequence of runs: when each run raises the count by one
/// if it completed and leaves it otherwise (as every function above does),
/// the count at the end is the count at the start plus the number of
/// completed runs, and it never goes down in between.
pub proof fn law_count_sums_completions(counts: Seq<int>, done: Seq<bool>)
    requires
        counts.len() == done.len() + 1,
        forall|i: int|
            0 <= i < done.len() ==> #[trigger] counts[i + 1] == counts[i] + (if done[i] {
                1int
            } else {
                0int
            }),
    ensures
        counts.last() == counts[0] + completions(done),
        forall|i: int, j: int| 0 <= i <= j < counts.len() ==> counts[i] <= counts[j],
    decreases done.len(),
{
    if done.len() > 0 {
        let c = counts.drop_last();
        let d = done.drop_last();
        assert forall|i: int| 0 <= i < d.len() implies #[trigger] c[i + 1] == c[i] + (if d[i] {
            1int
        } else {
            0int
        }) by {
            assert(counts[i + 1] == counts[i] + (if done[i] {
                1int
            } else {
                0int
            }));
        }
        law_count_sums_completions(c, d);
        let n = done.len() - 1;
        assert(counts[n + 1] == counts[n] + (if done[n] {
            1int
        } else {
            0int
        }));
        assert forall|i: int, j: int| 0 <= i <= j < counts.len() implies counts[i] <= counts[j] by {
            if i < j {
                assert(c[i] == counts[i]);
                if j < counts.len() - 1 {
                    assert(c[j] == counts[j]);
                    assert(c[i] <= c[j]);
                } else {
                    assert(c[n] == counts[n]);
                    assert(c[i] <= c[n]);
                }
            }
        }
    }
}

} // verus!
