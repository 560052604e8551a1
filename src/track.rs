use vstd::prelude::*;
use vstd::string::*;

verus! {

/// One playable item, as the resolver described it.
#[derive(Clone, Debug)]
pub struct Track {
    pub title: Option<String>,
    pub source_locator: Option<String>,
}

/// The title shown for a track, with a default when the resolver gave none.
pub open spec fn title_text(t: Track) -> Seq<char> {
    match t.title {
        Some(s) => s@,
        None => "Unknown Song"@,
    }
}

/// The locator shown for a track, with a placeholder when the resolver gave none.
pub open spec fn locator_text(t: Track) -> Seq<char> {
    match t.source_locator {
        Some(s) => s@,
        None => "https://youtu.be/"@,
    }
}

/// One line of a queue listing: `{title} / <{locator}>`.
pub open spec fn line_text(t: Track) -> Seq<char> {
    title_text(t) + " / <"@ + locator_text(t) + ">"@
}

/// The lines of a queue in order, joined by newlines.
pub open spec fn lines_text(q: Seq<Track>) -> Seq<char>
    decreases q.len(),
{
    if q.len() == 0 {
        Seq::empty()
    } else if q.len() == 1 {
        line_text(q[0])
    } else {
        lines_text(q.drop_last()) + "\n"@ + line_text(q.last())
    }
}

/// The full reply to a queue listing.
pub open spec fn queue_text(q: Seq<Track>) -> Seq<char> {
    "Current queue:\n"@ + lines_text(q)
}

fn title_of(t: &Track) -> (r: String)
    ensures
        r@ == title_text(*t),
{
    match &t.title {
        Some(s) => s.clone(),
        None => String::from_str("Unknown Song"),
    }
}

fn locator_of(t: &Track) -> (r: String)
    ensures
        r@ == locator_text(*t),
{
    match &t.source_locator {
        Some(s) => s.clone(),
        None => String::from_str("https://youtu.be/"),
    }
}

/// Renders one track as a line of a queue listing.
pub fn render_line(t: &Track) -> (r: String)
    ensures
        r@ == line_text(*t),
{
    let mut r = title_of(t);
    r.append(" / <");
    let loc = locator_of(t);
    r.append(loc.as_str());
    r.append(">");
    r
}

/// Renders a queue, head first, one line per track under a header.
pub fn render_queue(q: &Vec<Track>) -> (r: String)
    ensures
        r@ == queue_text(q@),
{
    let mut r = String::from_str("Current queue:\n");
    let mut i: usize = 0;
    while i < q.len()
        invariant
            i <= q@.len(),
            r@ == "Current queue:\n"@ + lines_text(q@.take(i as int)),
        decreases q@.len() - i,
    {
        let ghost before = r@;
        if i > 0 {
            r.append("\n");
        }
        let line = render_line(&q[i]);
        r.append(line.as_str());
        proof {
            let s = q@.take(i as int + 1);
            assert(s.drop_last() =~= q@.take(i as int));
            assert(s.last() == q@[i as int]);
            if i == 0 {
                assert(lines_text(q@.take(0)) =~= Seq::<char>::empty());
            }
            assert(r@ =~= "Current queue:\n"@ + lines_text(s));
        }
        i += 1;
    }
    proof {
        assert(q@.take(q@.len() as int) =~= q@);
    }
    r
}

} // verus!
