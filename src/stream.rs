use vstd::prelude::*;

verus! {

/// One item of a streamed answer.
#[derive(Debug, Clone)]
pub enum StreamEvent {
    /// A chunk: for each choice, the text fragment that it carries, if any.
    Chunk(Vec<Option<String>>),
    /// A chunk that failed in transport; the text describes the failure.
    Failure(String),
}

/// The text of one choice's fragment.
pub open spec fn delta_text(d: Option<String>) -> Seq<char> {
    match d {
        Some(s) => s@,
        None => Seq::empty(),
    }
}

/// The fragments of a chunk's choices, in order, with nothing between them.
pub open spec fn deltas_text(ds: Seq<Option<String>>) -> Seq<char>
    decreases ds.len(),
{
    if ds.len() == 0 {
        Seq::empty()
    } else {
        deltas_text(ds.drop_last()) + delta_text(ds.last())
    }
}

/// What is printed for one event.
pub open spec fn event_text(e: StreamEvent) -> Seq<char> {
    match e {
        StreamEvent::Chunk(ds) => deltas_text(ds@),
        StreamEvent::Failure(msg) => "error: "@ + msg@ + "\n"@,
    }
}

/// What is printed for a whole stream of events.
pub open spec fn stream_text(es: Seq<StreamEvent>) -> Seq<char>
    decreases es.len(),
{
    if es.len() == 0 {
        Seq::empty()
    } else {
        stream_text(es.drop_last()) + event_text(es.last())
    }
}

/// The text to print for one event, which the caller then flushes.
pub fn render_event(e: &StreamEvent) -> (r: String)
    ensures
        r@ == event_text(*e),
{
    match e {
        StreamEvent::Chunk(ds) => {
            let mut out = String::new();
            let mut i: usize = 0;
            while i < ds.len()
                invariant
                    i <= ds@.len(),
                    out@ == deltas_text(ds@.take(i as int)),
                decreases ds@.len() - i,
            {
                assert(ds@.take(i as int + 1).drop_last() =~= ds@.take(i as int));
                match &ds[i] {
                    Some(s) => out.append(s.as_str()),
                    None => {},
                }
                i = i + 1;
            }
            assert(ds@.take(ds@.len() as int) =~= ds@);
            out
        },
        StreamEvent::Failure(msg) => {
            let mut out = String::from_str("error: ");
            out.append(msg.as_str());
            out.append("\n");
            out
        },
    }
}

/// The text printed for a whole stream of events.
pub fn render_stream(es: &Vec<StreamEvent>) -> (r: String)
    ensures
        r@ == stream_text(es@),
{
    let mut out = String::new();
    let mut i: usize = 0;
    while i < es.len()
        invariant
            i <= es@.len(),
            out@ == stream_text(es@.take(i as int)),
        decreases es@.len() - i,
    {
        assert(es@.take(i as int + 1).drop_last() =~= es@.take(i as int));
        let t = render_event(&es[i]);
        out.append(t.as_str());
        i = i + 1;
    }
    assert(es@.take(es@.len() as int) =~= es@);
    out
}

/// The text of two streams one after the other is the text of the first
/// followed by the text of the second.
pub proof fn lemma_stream_text_concat(a: Seq<StreamEvent>, b: Seq<StreamEvent>)
    ensures
        stream_text(a + b) == stream_text(a) + stream_text(b),
    decreases b.len(),
{
    if b.len() == 0 {
        assert(a + b =~= a);
        assert(stream_text(b) =~= Seq::<char>::empty());
        assert(stream_text(a) + stream_text(b) =~= stream_text(a));
    } else {
        lemma_stream_text_concat(a, b.drop_last());
        assert((a + b).drop_last() =~= a + b.drop_last());
        assert((a + b).last() == b.last());
        assert(stream_text(a) + stream_text(b) =~= (stream_text(a) + stream_text(b.drop_last()))
            + event_text(b.last()));
    }
}

/// A transport failure in the middle of a stream is printed as one
/// `error: <message>` line in its place, and the events after it are still
/// printed in full.
pub proof fn lemma_failure_does_not_end_stream(
    before: Seq<StreamEvent>,
    msg: String,
    after: Seq<StreamEvent>,
)
    ensures
        stream_text(before + seq![StreamEvent::Failure(msg)] + after) == stream_text(before)
            + "error: "@ + msg@ + "\n"@ + stream_text(after),
{
    let f = seq![StreamEvent::Failure(msg)];
    lemma_stream_text_concat(before + f, after);
    lemma_stream_text_concat(before, f);
    assert(f.drop_last() =~= Seq::<StreamEvent>::empty());
    assert(f.last() == StreamEvent::Failure(msg));
    assert(stream_text(f.drop_last()) =~= Seq::<char>::empty());
    assert(stream_text(f) =~= "error: "@ + msg@ + "\n"@);
    assert(stream_text(before) + stream_text(f) + stream_text(after) =~= stream_text(before)
        + "error: "@ + msg@ + "\n"@ + stream_text(after));
}

} // verus!
