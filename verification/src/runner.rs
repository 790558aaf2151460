//! The test runner's catalogue and run plan: which cases run, in which
//! order, for an optional case-name filter given on the command line.

use vstd::prelude::*;
use vstd::slice::slice_index_get;
use vstd::string::*;
use crate::format::{Encoding, VideoFormat};

verus! {

/// One planned session run.
#[derive(Clone, Copy, Debug)]
pub struct TestCase {
    pub format: VideoFormat,
    pub duration_secs: u32,
    pub use_alpha: bool,
}

/// Seconds each catalogue case streams.
pub const CASE_DURATION_SECS: u32 = 5;

/// The fixed catalogue of five cases.
pub open spec fn catalogue_spec() -> Seq<VideoFormat> {
    seq![
        VideoFormat {
            encoding: Encoding::Uyvy,
            width: 1280,
            height: 720,
            fps_n: 30,
            fps_d: 1,
            name: "UYVY_720p30",
        },
        VideoFormat {
            encoding: Encoding::Uyvy,
            width: 1920,
            height: 1080,
            fps_n: 30,
            fps_d: 1,
            name: "UYVY_1080p30",
        },
        VideoFormat {
            encoding: Encoding::Bgra,
            width: 1280,
            height: 720,
            fps_n: 30,
            fps_d: 1,
            name: "BGRA_720p30",
        },
        VideoFormat {
            encoding: Encoding::Bgra,
            width: 1920,
            height: 1080,
            fps_n: 30,
            fps_d: 1,
            name: "BGRA_1080p30",
        },
        VideoFormat {
            encoding: Encoding::Nv12,
            width: 1280,
            height: 720,
            fps_n: 30,
            fps_d: 1,
            name: "NV12_720p30",
        },
    ]
}

/// Every catalogue entry is well-formed and satisfies its encoding's
/// parity invariants.
pub proof fn lemma_catalogue_wf()
    ensures
        forall|i: int|
            0 <= i < catalogue_spec().len() ==> (#[trigger] catalogue_spec()[i]).wf()
                && catalogue_spec()[i].dims_ok(),
{
    assert forall|i: int|
        0 <= i < catalogue_spec().len() implies (#[trigger] catalogue_spec()[i]).wf()
        && catalogue_spec()[i].dims_ok() by {
        if i == 0 {
            assert(catalogue_spec()[0].wf() && catalogue_spec()[0].dims_ok());
        } else if i == 1 {
            assert(catalogue_spec()[1].wf() && catalogue_spec()[1].dims_ok());
        } else if i == 2 {
            assert(catalogue_spec()[2].wf() && catalogue_spec()[2].dims_ok());
        } else if i == 3 {
            assert(catalogue_spec()[3].wf() && catalogue_spec()[3].dims_ok());
        } else {
            assert(catalogue_spec()[4].wf() && catalogue_spec()[4].dims_ok());
        }
    }
}

/// The catalogue as a vector.
pub fn catalogue() -> (r: Vec<VideoFormat>)
    ensures
        r@ =~= catalogue_spec(),
{
    let mut v: Vec<VideoFormat> = Vec::new();
    v.push(
        VideoFormat {
            encoding: Encoding::Uyvy,
            width: 1280,
            height: 720,
            fps_n: 30,
            fps_d: 1,
            name: "UYVY_720p30",
        },
    );
    v.push(
        VideoFormat {
            encoding: Encoding::Uyvy,
            width: 1920,
            height: 1080,
            fps_n: 30,
            fps_d: 1,
            name: "UYVY_1080p30",
        },
    );
    v.push(
        VideoFormat {
            encoding: Encoding::Bgra,
            width: 1280,
            height: 720,
            fps_n: 30,
            fps_d: 1,
            name: "BGRA_720p30",
        },
    );
    v.push(
        VideoFormat {
            encoding: Encoding::Bgra,
            width: 1920,
            height: 1080,
            fps_n: 30,
            fps_d: 1,
            name: "BGRA_1080p30",
        },
    );
    v.push(
        VideoFormat {
            encoding: Encoding::Nv12,
            width: 1280,
            height: 720,
            fps_n: 30,
            fps_d: 1,
            name: "NV12_720p30",
        },
    );
    v
}

/// Byte-wise string equality; two `&str` are equal exactly when their
/// UTF-8 bytes are.
pub fn str_eq(a: &str, b: &str) -> (r: bool)
    ensures
        r == (a.spec_bytes() == b.spec_bytes()),
{
    let ab = a.as_bytes();
    let bb = b.as_bytes();
    if ab.len() != bb.len() {
        return false;
    }
    let mut i: usize = 0;
    while i < ab.len()
        invariant
            ab@ == a.spec_bytes(),
            bb@ == b.spec_bytes(),
            ab@.len() == bb@.len(),
            i <= ab@.len(),
            forall|j: int| 0 <= j < i ==> ab@[j] == bb@[j],
        decreases ab@.len() - i,
    {
        if *slice_index_get(ab, i) != *slice_index_get(bb, i) {
            return false;
        }
        i += 1;
    }
    proof {
        assert(ab@ =~= bb@);
    }
    true
}

/// Whether a case matches the filter: no filter selects everything; a
/// filter selects the cases whose name has exactly its bytes.
pub open spec fn case_selected(f: VideoFormat, filter: Option<Seq<u8>>) -> bool {
    match filter {
        Option::None => true,
        Option::Some(bs) => f.name.spec_bytes() == bs,
    }
}

/// The runs one selected case contributes: every case runs once without
/// the alpha flag, and BGRA cases run a second time with it.
pub open spec fn runs_for(f: VideoFormat, dur: u32) -> Seq<TestCase> {
    if f.encoding == Encoding::Bgra {
        seq![
            TestCase { format: f, duration_secs: dur, use_alpha: false },
            TestCase { format: f, duration_secs: dur, use_alpha: true },
        ]
    } else {
        seq![TestCase { format: f, duration_secs: dur, use_alpha: false }]
    }
}

/// The full run plan for a catalogue and a filter, in catalogue order.
pub open spec fn plan_of(fs: Seq<VideoFormat>, filter: Option<Seq<u8>>, dur: u32) -> Seq<TestCase>
    decreases fs.len(),
{
    if fs.len() == 0 {
        Seq::empty()
    } else {
        plan_of(fs.drop_last(), filter, dur) + if case_selected(fs.last(), filter) {
            runs_for(fs.last(), dur)
        } else {
            Seq::empty()
        }
    }
}

/// The filter's bytes, if one was given.
pub open spec fn filter_bytes(filter: Option<&str>) -> Option<Seq<u8>> {
    match filter {
        Option::None => Option::None,
        Option::Some(f) => Option::Some(f.spec_bytes()),
    }
}

/// Build the run plan for an optional case-name filter.
pub fn select_plan(filter: Option<&str>, duration_secs: u32) -> (r: Vec<TestCase>)
    ensures
        r@ == plan_of(catalogue_spec(), filter_bytes(filter), duration_secs),
{
    let cat = catalogue();
    let mut r: Vec<TestCase> = Vec::new();
    let mut i: usize = 0;
    while i < cat.len()
        invariant
            cat@ =~= catalogue_spec(),
            i <= cat@.len(),
            r@ == plan_of(cat@.take(i as int), filter_bytes(filter), duration_secs),
        decreases cat@.len() - i,
    {
        let f = *slice_index_get(cat.as_slice(), i);
        let selected = match filter {
            Option::None => true,
            Option::Some(flt) => str_eq(f.name, flt),
        };
        if selected {
            r.push(TestCase { format: f, duration_secs, use_alpha: false });
            if matches!(f.encoding, Encoding::Bgra) {
                r.push(TestCase { format: f, duration_secs, use_alpha: true });
            }
        }
        proof {
            let pre = cat@.take(i as int);
            let post = cat@.take(i as int + 1);
            assert(post.drop_last() =~= pre);
            assert(post.last() == cat@[i as int]);
            if case_selected(cat@[i as int], filter_bytes(filter)) {
                assert(r@ =~= plan_of(pre, filter_bytes(filter), duration_secs) + runs_for(
                    cat@[i as int],
                    duration_secs,
                ));
            } else {
                assert(r@ =~= plan_of(pre, filter_bytes(filter), duration_secs) + Seq::<
                    TestCase,
                >::empty());
            }
        }
        i += 1;
    }
    proof {
        assert(cat@.take(cat@.len() as int) =~= catalogue_spec());
    }
    r
}

/// Law: a filter that matches no name in the catalogue selects nothing —
/// the plan is empty and no session will be created.
pub proof fn lemma_unknown_name_selects_nothing(
    fs: Seq<VideoFormat>,
    filter: Seq<u8>,
    dur: u32,
)
    requires
        forall|i: int| 0 <= i < fs.len() ==> (#[trigger] fs[i]).name.spec_bytes() != filter,
    ensures
        plan_of(fs, Some(filter), dur).len() == 0,
    decreases fs.len(),
{
    if fs.len() > 0 {
        assert(fs.last().name.spec_bytes() != filter);
        assert(forall|i: int|
            0 <= i < fs.drop_last().len() ==> (#[trigger] fs.drop_last()[i]).name.spec_bytes()
                != filter);
        lemma_unknown_name_selects_nothing(fs.drop_last(), filter, dur);
    }
}

} // verus!
