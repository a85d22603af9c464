use vstd::prelude::*;

verus! {

/// The messages one after the other, with nothing between them.
pub open spec fn concat(msgs: Seq<Seq<char>>) -> Seq<char>
    decreases msgs.len(),
{
    if msgs.len() == 0 {
        Seq::empty()
    } else {
        concat(msgs.drop_last()) + msgs.last()
    }
}

/// The text of a report on a failed compilation: a fixed header line, then
/// every diagnostic message.
pub open spec fn report_text(msgs: Seq<Seq<char>>) -> Seq<char> {
    "compile error:\n"@ + concat(msgs)
}

/// The character views of the messages.
pub open spec fn messages_view(msgs: Seq<String>) -> Seq<Seq<char>> {
    msgs.map_values(|m: String| m@)
}

/// Relies on `String::push_str`: appends the characters of `t` to `s`.
#[verifier::external_body]
fn push_str(s: &mut String, t: &str)
    ensures
        final(s)@ == old(s)@ + t@,
{
    s.push_str(t)
}

/// The report on a failed compilation whose diagnostics carry `messages`:
/// all of them, in order, after the header.
pub fn format_diagnostics(messages: &Vec<String>) -> (r: String)
    ensures
        r@ == report_text(messages_view(messages@)),
{
    let mut out = "compile error:\n".to_owned();
    let mut i: usize = 0;
    while i < messages.len()
        invariant
            i <= messages@.len(),
            out@ == report_text(messages_view(messages@.subrange(0, i as int))),
        decreases messages@.len() - i,
    {
        push_str(&mut out, messages[i].as_str());
        proof {
            let pre = messages_view(messages@.subrange(0, i as int));
            let post = messages_view(messages@.subrange(0, i as int + 1));
            assert(post.drop_last() =~= pre);
            assert(post.last() == messages@[i as int]@);
        }
        i = i + 1;
    }
    assert(messages@.subrange(0, messages@.len() as int) =~= messages@);
    out
}

/// What a compilation pass produced: an exported document, a document the
/// exporter could not handle (with its message), or the diagnostics of a
/// failed compilation.
pub enum PassOutcome {
    Exported(Vec<u8>),
    ExportFailed(String),
    Diagnostics(Vec<String>),
}

/// The result handed back to the host: the exported bytes, the exporter's
/// message, or the report of all diagnostics.
pub fn pass_result(outcome: PassOutcome) -> (r: Result<Vec<u8>, String>)
    ensures
        match outcome {
            PassOutcome::Exported(b) => r matches Ok(v) && v@ == b@,
            PassOutcome::ExportFailed(m) => r matches Err(e) && e@ == m@,
            PassOutcome::Diagnostics(ms) => r matches Err(e) && e@ == report_text(
                messages_view(ms@),
            ),
        },
{
    match outcome {
        PassOutcome::Exported(b) => Ok(b),
        PassOutcome::ExportFailed(m) => Err(m),
        PassOutcome::Diagnostics(ms) => Err(format_diagnostics(&ms)),
    }
}

} // verus!
