//! Feature scheduling and aggregation engine of a status-line program.
//!
//! A fixed set of monitored features is refreshed on request and rendered
//! into one aggregate text line.  The engine itself is sequential:
//! concurrent triggers and the operating-system reads live outside the
//! library and feed it plain values — each queued refresh message arrives
//! together with what the feature's external source handed back.

use vstd::prelude::*;

pub mod conf;
pub mod dispatch;
pub mod error;
pub mod feature;
pub mod features;
pub mod laws;
pub mod message;
pub mod status_bar;
pub mod text;

use crate::dispatch::DispatchLoop;
use crate::dispatch::LoopInput;
use crate::dispatch::spec_run;
use crate::dispatch::spec_run_from;
use crate::dispatch::spec_step;
use crate::dispatch::spec_unique_ids;
use crate::dispatch::spec_views;
use crate::error::Error;
use crate::feature::Feature;
use crate::status_bar::StatusBar;

verus! {

/// Runs the dispatch loop to completion over the queued inputs, starting
/// with the initial full render.  The returned lines are everything the
/// run emitted, in order, exactly as `spec_run` describes; the run ends
/// cleanly when a `Terminate` is consumed or the queue is exhausted, and
/// with the first failure otherwise.
pub fn run(bar: StatusBar, features: Vec<Feature>, inputs: Vec<LoopInput>) -> (r: (
    Vec<String>,
    Result<(), Error>,
))
    requires
        spec_unique_ids(features@),
    ensures
        spec_views(r.0@) == spec_run(bar, features@, inputs@).lines,
        (spec_run(bar, features@, inputs@).fail is None) == (r.1 is Ok),
        r.1 matches Err(e) ==> (spec_run(bar, features@, inputs@).fail matches Some(fm) && e.kind
            == fm.kind && e.name@ == fm.name && e.description@ == fm.description && (match (
            e.cause,
            fm.cause,
        ) {
            (Option::None, Option::None) => true,
            (Some(c), Some(fc)) => c@ == fc,
            _ => false,
        })),
{
    let ghost fs0 = features@;
    let ghost ins0 = inputs@;
    if features.len() == 0 {
        let lines: Vec<String> = Vec::new();
        proof {
            assert(spec_views(lines@) =~= spec_run(bar, fs0, ins0).lines);
        }
        return (lines, Err(Error::configuration("empty config", "no features enabled")));
    }
    let mut lines: Vec<String> = Vec::new();
    let mut queue = inputs;
    let mut dl = DispatchLoop::new(bar, features);
    let first = dl.bar.render(&dl.features);
    lines.push(first);
    proof {
        assert(spec_views(lines@) =~= seq![bar.spec_line(fs0)]);
    }
    while queue.len() > 0
        invariant
            fs0 == features@,
            ins0 == inputs@,
            dl.wf(),
            dl.bar == bar,
            spec_run(bar, fs0, ins0).lines == spec_views(lines@) + spec_run_from(
                bar,
                dl.features@,
                dl.state,
                queue@,
            ).lines,
            spec_run(bar, fs0, ins0).fail == spec_run_from(
                bar,
                dl.features@,
                dl.state,
                queue@,
            ).fail,
        decreases queue@.len(),
    {
        let ghost q0 = queue@;
        let ghost vs0 = spec_views(lines@);
        let ghost fsb = dl.features@;
        let ghost stb = dl.state;
        let ghost m = spec_step(bar, fsb, stb, q0[0]);
        let input = queue.remove(0);
        proof {
            assert(input == q0[0]);
            assert(queue@ =~= q0.skip(1));
        }
        match dl.process(input) {
            Ok(Some(line)) => {
                lines.push(line);
                proof {
                    let rest = spec_run_from(bar, dl.features@, dl.state, queue@);
                    assert(m.emit matches Some(ev) && line@ == ev);
                    assert(spec_run_from(bar, fsb, stb, q0).lines == seq![line@] + rest.lines);
                    assert(spec_views(lines@) =~= vs0 + seq![line@]);
                    assert((vs0 + seq![line@]) + rest.lines =~= vs0 + (seq![line@] + rest.lines));
                }
            },
            Ok(None) => {
                proof {
                    let rest = spec_run_from(bar, dl.features@, dl.state, queue@);
                    assert(m.emit is None);
                    assert(spec_run_from(bar, fsb, stb, q0).lines == Seq::<Seq<char>>::empty()
                        + rest.lines);
                    assert(vs0 + (Seq::<Seq<char>>::empty() + rest.lines) =~= vs0 + rest.lines);
                }
            },
            Err(e) => {
                proof {
                    assert(m.fail is Some);
                    assert(spec_run_from(bar, fsb, stb, q0).fail == m.fail);
                    assert(spec_run_from(bar, fsb, stb, q0).lines =~= Seq::<Seq<char>>::empty());
                    assert(spec_views(lines@) + Seq::<Seq<char>>::empty() =~= spec_views(lines@));
                    assert(spec_run(bar, fs0, ins0).lines =~= spec_views(lines@));
                }
                return (lines, Err(e));
            },
        }
    }
    proof {
        assert(spec_run(bar, fs0, ins0).lines =~= spec_views(lines@));
    }
    (lines, Ok(()))
}

} // verus!
