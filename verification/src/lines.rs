//! Every line the run emits: tagged output lines, the verbose connecting
//! notice, the spawn-failure report, and the check-only confirmation. The
//! multiplexer model says what draining one channel of a child process emits:
//! each completed line, in order, behind the host's tag, one whole unit per
//! line.

use vstd::prelude::*;
use vstd::string::StringExecFns;

use crate::dec::dec_spec;
use crate::dec::u64_to_string;

verus! {

/// One emitted unit: the host's tag, one space, the line as the host produced
/// it.
pub open spec fn tagged_line(tag: Seq<char>, line: Seq<char>) -> Seq<char> {
    tag + " "@ + line
}

/// Formats one line of a host's output behind its tag.
pub fn format_line(prefix: &String, line: &String) -> (r: String)
    ensures
        r@ == tagged_line(prefix@, line@),
{
    let mut s = prefix.clone();
    s.append(" ");
    s.append(line.as_str());
    proof {
        assert(s@ =~= tagged_line(prefix@, line@));
    }
    s
}

/// What draining one channel emits: every line the channel produced, in
/// order, each as one tagged unit.
pub open spec fn mux_spec(tag: Seq<char>, lines: Seq<Seq<char>>) -> Seq<Seq<char>> {
    Seq::new(lines.len(), |i: int| tagged_line(tag, lines[i]))
}

/// Turns the completed lines of one channel into the units the sink receives:
/// nothing dropped, nothing reordered, nothing merged or split.
pub fn mux_channel(prefix: &String, lines: &Vec<String>) -> (out: Vec<String>)
    ensures
        out.deep_view() == mux_spec(prefix@, lines.deep_view()),
{
    let mut out: Vec<String> = Vec::new();
    let n = lines.len();
    let mut i: usize = 0;
    while i < n
        invariant
            n == lines@.len(),
            0 <= i <= n,
            out@.len() == i,
            forall|j: int| 0 <= j < i ==> #[trigger] out@[j]@ == tagged_line(prefix@, lines@[j]@),
        decreases n - i,
    {
        out.push(format_line(prefix, &lines[i]));
        i += 1;
    }
    proof {
        assert(out.deep_view() =~= mux_spec(prefix@, lines.deep_view()));
    }
    out
}

/// Law: the multiplexer keeps one channel's order exactly — the sink sees as
/// many units as the channel produced lines, and the k-th unit is the k-th
/// line behind the tag.
pub proof fn lemma_channel_order_preserved(tag: Seq<char>, lines: Seq<Seq<char>>, k: int)
    requires
        0 <= k < lines.len(),
    ensures
        mux_spec(tag, lines).len() == lines.len(),
        mux_spec(tag, lines)[k] == tagged_line(tag, lines[k]),
{
}

/// Law: a tagged unit determines the line behind it — two calls that emit the
/// same unit under one tag were handed the same line, so units are never
/// merged.
pub proof fn lemma_tagged_line_injective(tag: Seq<char>, l1: Seq<char>, l2: Seq<char>)
    requires
        tagged_line(tag, l1) == tagged_line(tag, l2),
    ensures
        l1 == l2,
{
    reveal_strlit(" ");
    assert((tag + " "@ + l1).len() == tag.len() + 1 + l1.len());
    assert((tag + " "@ + l2).len() == tag.len() + 1 + l2.len());
    assert(l1.len() == l2.len());
    assert forall|i: int| 0 <= i < l1.len() implies l1[i] == l2[i] by {
        assert(tagged_line(tag, l1)[tag.len() + 1 + i] == l1[i]);
        assert(tagged_line(tag, l2)[tag.len() + 1 + i] == l2[i]);
    }
    assert(l1 =~= l2);
}

/// `c` is one of the ways the units of `a` and `b` can arrive at the shared
/// sink: a merge that keeps each source's own order.
pub open spec fn is_interleaving(c: Seq<Seq<char>>, a: Seq<Seq<char>>, b: Seq<Seq<char>>) -> bool
    decreases c.len(),
{
    if a.len() == 0 && b.len() == 0 {
        c.len() == 0
    } else {
        c.len() > 0 && ((a.len() > 0 && c[0] == a[0] && is_interleaving(c.drop_first(), a.drop_first(), b))
            || (b.len() > 0 && c[0] == b[0] && is_interleaving(c.drop_first(), a, b.drop_first())))
    }
}

/// Every unit of an interleaving comes from one of the two sources.
pub proof fn lemma_interleaving_elements(c: Seq<Seq<char>>, a: Seq<Seq<char>>, b: Seq<Seq<char>>)
    requires
        is_interleaving(c, a, b),
    ensures
        forall|k: int| 0 <= k < c.len() ==> a.contains(#[trigger] c[k]) || b.contains(c[k]),
    decreases c.len(),
{
    if c.len() > 0 {
        if a.len() > 0 && c[0] == a[0] && is_interleaving(c.drop_first(), a.drop_first(), b) {
            lemma_interleaving_elements(c.drop_first(), a.drop_first(), b);
            assert forall|k: int| 0 <= k < c.len() implies a.contains(#[trigger] c[k])
                || b.contains(c[k]) by {
                if k == 0 {
                    assert(a[0] == c[0]);
                    assert(a.contains(c[0]));
                } else {
                    assert(c.drop_first()[k - 1] == c[k]);
                    if a.drop_first().contains(c[k]) {
                        let j = choose|j: int|
                            0 <= j < a.drop_first().len() && a.drop_first()[j] == c[k];
                        assert(a[j + 1] == c[k]);
                        assert(a.contains(c[k]));
                    }
                }
            }
        } else {
            lemma_interleaving_elements(c.drop_first(), a, b.drop_first());
            assert forall|k: int| 0 <= k < c.len() implies a.contains(#[trigger] c[k])
                || b.contains(c[k]) by {
                if k == 0 {
                    assert(b[0] == c[0]);
                    assert(b.contains(c[0]));
                } else {
                    assert(c.drop_first()[k - 1] == c[k]);
                    if b.drop_first().contains(c[k]) {
                        let j = choose|j: int|
                            0 <= j < b.drop_first().len() && b.drop_first()[j] == c[k];
                        assert(b[j + 1] == c[k]);
                        assert(b.contains(c[k]));
                    }
                }
            }
        }
    }
}

/// Law: however the sink's stream interleaves two hosts' multiplexed
/// channels, every emitted unit is one complete, correctly tagged line of one
/// of the two hosts — units from different hosts never mix within one unit.
pub proof fn lemma_sink_units_whole(
    c: Seq<Seq<char>>,
    t1: Seq<char>,
    ls1: Seq<Seq<char>>,
    t2: Seq<char>,
    ls2: Seq<Seq<char>>,
)
    requires
        is_interleaving(c, mux_spec(t1, ls1), mux_spec(t2, ls2)),
    ensures
        forall|k: int|
            0 <= k < c.len() ==> (exists|i: int|
                0 <= i < ls1.len() && #[trigger] c[k] == tagged_line(t1, ls1[i])) || (exists|i: int|
                0 <= i < ls2.len() && c[k] == tagged_line(t2, ls2[i])),
{
    lemma_interleaving_elements(c, mux_spec(t1, ls1), mux_spec(t2, ls2));
    assert forall|k: int| 0 <= k < c.len() implies (exists|i: int|
        0 <= i < ls1.len() && #[trigger] c[k] == tagged_line(t1, ls1[i])) || (exists|i: int|
        0 <= i < ls2.len() && c[k] == tagged_line(t2, ls2[i])) by {
        if mux_spec(t1, ls1).contains(c[k]) {
            let j = choose|j: int| 0 <= j < mux_spec(t1, ls1).len() && mux_spec(t1, ls1)[j] == c[k];
            assert(c[k] == tagged_line(t1, ls1[j]));
        } else {
            let j = choose|j: int| 0 <= j < mux_spec(t2, ls2).len() && mux_spec(t2, ls2)[j] == c[k];
            assert(c[k] == tagged_line(t2, ls2[j]));
        }
    }
}

/// The verbose per-host notice printed before the client is launched.
pub open spec fn connecting_line_spec(prefix: Seq<char>, host: Seq<char>, port: u16) -> Seq<char> {
    prefix + " Connecting to "@ + host + ":"@ + dec_spec(port as nat) + "..."@
}

/// Formats the verbose connecting notice for one host.
pub fn connecting_line(prefix: &String, host: &String, port: u16) -> (r: String)
    ensures
        r@ == connecting_line_spec(prefix@, host@, port),
{
    let mut s = prefix.clone();
    s.append(" Connecting to ");
    s.append(host.as_str());
    s.append(":");
    let p = u64_to_string(port as u64);
    s.append(p.as_str());
    s.append("...");
    proof {
        assert(s@ =~= connecting_line_spec(prefix@, host@, port));
    }
    s
}

/// The per-host report when the external client could not be launched.
pub open spec fn spawn_failed_line_spec(prefix: Seq<char>, error: Seq<char>) -> Seq<char> {
    prefix + " Failed to spawn ssh command: "@ + error
}

/// Formats the spawn-failure report for one host.
pub fn spawn_failed_line(prefix: &String, error: &String) -> (r: String)
    ensures
        r@ == spawn_failed_line_spec(prefix@, error@),
{
    let mut s = prefix.clone();
    s.append(" Failed to spawn ssh command: ");
    s.append(error.as_str());
    proof {
        assert(s@ =~= spawn_failed_line_spec(prefix@, error@));
    }
    s
}

/// The single line a check-only run prints for a valid configuration.
pub fn check_ok_line() -> (r: String)
    ensures
        r@ == "Config is valid."@,
{
    String::from_str("Config is valid.")
}

} // verus!
