//! End-of-run log scraping: pick out the first few lines that carry an
//! error or warning marker. The harness reads the transport's log file and
//! hands the lines in; the selection itself is verified.

use vstd::prelude::*;
use vstd::slice::slice_index_get;
use vstd::string::*;
use vstd::utf8::encode_utf8;

verus! {

/// `n` occurs as a contiguous window of `h`.
pub open spec fn contains_seq(h: Seq<u8>, n: Seq<u8>) -> bool {
    exists|i: int|
        0 <= i <= h.len() - n.len() && #[trigger] h.subrange(i, i + n.len() as int) == n
}

/// The bytes of `n` appear at offset `i` of `h`.
fn window_eq(h: &[u8], n: &[u8], i: usize) -> (r: bool)
    requires
        i + n@.len() <= h@.len(),
    ensures
        r == (h@.subrange(i as int, i as int + n@.len() as int) == n@),
{
    let hl = h.len();
    let nl = n.len();
    let mut j: usize = 0;
    while j < nl
        invariant
            hl == h@.len(),
            nl == n@.len(),
            i + nl <= hl,
            j <= nl,
            forall|t: int| 0 <= t < j ==> h@[i + t] == n@[t],
        decreases nl - j,
    {
        if *slice_index_get(h, i + j) != *slice_index_get(n, j) {
            proof {
                assert(h@.subrange(i as int, i as int + n@.len() as int)[j as int] == h@[i + j]);
            }
            return false;
        }
        j += 1;
    }
    proof {
        assert(h@.subrange(i as int, i as int + n@.len() as int) =~= n@);
    }
    true
}

/// Naive substring search over bytes.
pub fn contains_bytes(h: &[u8], n: &[u8]) -> (r: bool)
    ensures
        r == contains_seq(h@, n@),
{
    let hl = h.len();
    let nl = n.len();
    if nl > hl {
        return false;
    }
    if nl == 0 {
        proof {
            assert(h@.subrange(0, 0 + n@.len() as int) =~= n@);
        }
        return true;
    }
    let mut i: usize = 0;
    while i <= hl - nl
        invariant
            0 < nl <= hl,
            hl == h@.len(),
            nl == n@.len(),
            i <= hl - nl + 1,
            forall|k: int|
                0 <= k < i ==> #[trigger] h@.subrange(k, k + n@.len() as int) != n@,
        decreases hl - nl + 1 - i,
    {
        if window_eq(h, n, i) {
            return true;
        }
        i += 1;
    }
    false
}

/// A log line is flagged when it mentions an error or warning marker.
pub open spec fn flagged_line(s: &str) -> bool {
    contains_seq(s.spec_bytes(), "ERROR".spec_bytes()) || contains_seq(
        s.spec_bytes(),
        "WARN".spec_bytes(),
    )
}

pub fn line_flagged(line: &str) -> (r: bool)
    ensures
        r == flagged_line(line),
{
    contains_bytes(line.as_bytes(), "ERROR".as_bytes()) || contains_bytes(
        line.as_bytes(),
        "WARN".as_bytes(),
    )
}

/// A flagged `String`, by its character content.
pub open spec fn flagged_string(s: String) -> bool {
    contains_seq(encode_utf8(s@), "ERROR".spec_bytes()) || contains_seq(
        encode_utf8(s@),
        "WARN".spec_bytes(),
    )
}

/// The first `cap` flagged lines, in order.
pub open spec fn scrape_spec(ls: Seq<String>, cap: int) -> Seq<String>
    decreases ls.len(),
{
    if ls.len() == 0 || cap <= 0 {
        Seq::empty()
    } else if flagged_string(ls[0]) {
        seq![ls[0]] + scrape_spec(ls.drop_first(), cap - 1)
    } else {
        scrape_spec(ls.drop_first(), cap)
    }
}

/// Number of flagged lines reported at end of run.
pub const SCRAPE_CAP: usize = 10;

/// Keep the first ten lines that carry an error or warning marker.
pub fn scrape_error_lines(lines: Vec<String>) -> (r: Vec<String>)
    ensures
        r@ == scrape_spec(lines@, SCRAPE_CAP as int),
{
    let mut rest = lines;
    let mut out: Vec<String> = Vec::new();
    while out.len() < SCRAPE_CAP && rest.len() > 0
        invariant
            out@.len() <= SCRAPE_CAP,
            scrape_spec(lines@, SCRAPE_CAP as int) == out@ + scrape_spec(
                rest@,
                SCRAPE_CAP - out@.len(),
            ),
        decreases rest@.len(),
    {
        let ghost pre_rest = rest@;
        let ghost pre_out = out@;
        let s = rest.remove(0);
        let fl = line_flagged(s.as_str());
        proof {
            assert(rest@ =~= pre_rest.drop_first());
            assert(fl == flagged_string(pre_rest[0]));
        }
        if fl {
            out.push(s);
            proof {
                assert(out@ =~= pre_out + seq![pre_rest[0]]);
                assert(scrape_spec(pre_rest, SCRAPE_CAP - pre_out.len()) == seq![pre_rest[0]]
                    + scrape_spec(rest@, SCRAPE_CAP - pre_out.len() - 1));
                assert(pre_out + scrape_spec(pre_rest, SCRAPE_CAP - pre_out.len()) =~= out@
                    + scrape_spec(rest@, SCRAPE_CAP - out@.len()));
            }
        } else {
            proof {
                assert(scrape_spec(pre_rest, SCRAPE_CAP - pre_out.len()) == scrape_spec(
                    rest@,
                    SCRAPE_CAP - out@.len(),
                ));
            }
        }
    }
    proof {
        if out@.len() == SCRAPE_CAP {
            assert(scrape_spec(rest@, 0) =~= Seq::<String>::empty());
        }
        assert(out@ + Seq::<String>::empty() =~= out@);
    }
    out
}

} // verus!
