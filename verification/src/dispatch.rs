//! The dispatch loop: the single consumer of all notifier messages.
//!
//! The loop owns the feature table and the display order, processes exactly
//! one message per step, and after each successful refresh recomputes the
//! whole aggregate line.  Because the loop alone mutates feature data, no
//! lock is needed anywhere.  What the external source hands back for a
//! refresh arrives as a plain value beside the message.

use vstd::prelude::*;
use crate::error::Error;
use crate::error::ErrorKind;
use crate::feature::Feature;
use crate::feature::FetchOutcome;
use crate::feature::Updater;
use crate::message::FeatureId;
use crate::message::Message;
use crate::status_bar::StatusBar;

verus! {

/// The loop's state: consuming messages, or done.
#[derive(Clone, Copy, Debug, PartialEq, Eq, Structural)]
pub enum LoopState {
    Running,
    Terminated,
}

/// One consumed message, together with what the external source handed
/// back in case the message asks for a refresh.
#[derive(Debug)]
pub enum LoopInput {
    Refresh(FeatureId, FetchOutcome),
    Terminate,
}

impl LoopInput {
    /// The message this input carries.
    pub open spec fn spec_message(&self) -> Message {
        match self {
            LoopInput::Refresh(id, _) => Message::Refresh(*id),
            LoopInput::Terminate => Message::Terminate,
        }
    }
}

/// The display order: every feature's id, in table order.
pub open spec fn spec_ids(fs: Seq<Feature>) -> Seq<Seq<char>> {
    fs.map_values(|f: Feature| f.id@)
}

/// No two features share an id.
pub open spec fn spec_unique_ids(fs: Seq<Feature>) -> bool {
    forall|i: int, j: int|
        0 <= i < j < fs.len() ==> (#[trigger] fs[i].id@) != (#[trigger] fs[j].id@)
}

/// Some feature carries this id.
pub open spec fn spec_has_id(fs: Seq<Feature>, id: Seq<char>) -> bool {
    exists|j: int| 0 <= j < fs.len() && (#[trigger] fs[j].id@) == id
}

/// The position of the feature carrying this id.
pub open spec fn spec_index_of(fs: Seq<Feature>, id: Seq<char>) -> int {
    choose|j: int| 0 <= j < fs.len() && (#[trigger] fs[j].id@) == id
}

/// A failure, described at the specification level.
pub struct FailModel {
    pub kind: ErrorKind,
    pub name: Seq<char>,
    pub description: Seq<char>,
    pub cause: Option<Seq<char>>,
}

/// The failure a refresh of the named feature reports.
pub open spec fn spec_refresh_error(name: Seq<char>, cause: Seq<char>) -> FailModel {
    FailModel {
        kind: ErrorKind::Refresh,
        name,
        description: "could not refresh feature"@,
        cause: Some(cause),
    }
}

/// The failure a message with an unknown id reports.
pub open spec fn spec_protocol_error(id: Seq<char>) -> FailModel {
    FailModel {
        kind: ErrorKind::Protocol,
        name: "invalid message"@,
        description: "message id "@ + id + " does not exist"@,
        cause: None,
    }
}

/// What processing one input does: the feature table and state after it,
/// the emitted line if one is emitted, and the failure if it fails.
pub struct StepModel {
    pub features: Seq<Feature>,
    pub state: LoopState,
    pub emit: Option<Seq<char>>,
    pub fail: Option<FailModel>,
}

/// The transition of the dispatch loop on one input.
///
/// In the `Terminated` state every input is ignored.  While `Running`,
/// `Terminate` stops the loop; a refresh for an unknown id fails with the
/// protocol error; a failed or ill-shaped fetch fails with a refresh
/// error; and a successful fetch replaces exactly the addressed feature's
/// data and emits the full aggregate line over the new table.
pub open spec fn spec_step(
    bar: StatusBar,
    fs: Seq<Feature>,
    state: LoopState,
    input: LoopInput,
) -> StepModel {
    if state is Terminated {
        StepModel { features: fs, state, emit: None, fail: None }
    } else {
        match input {
            LoopInput::Terminate => StepModel {
                features: fs,
                state: LoopState::Terminated,
                emit: None,
                fail: None,
            },
            LoopInput::Refresh(id, fetch) => {
                if !spec_has_id(fs, id@) {
                    StepModel {
                        features: fs,
                        state: LoopState::Terminated,
                        emit: None,
                        fail: Some(spec_protocol_error(id@)),
                    }
                } else {
                    let j = spec_index_of(fs, id@);
                    match fetch {
                        FetchOutcome::Fetched(d) => {
                            if d.spec_kind() == fs[j].updater.data.spec_kind() {
                                let fs2 = fs.update(
                                    j,
                                    Feature { updater: Updater { data: d }, ..fs[j] },
                                );
                                StepModel {
                                    features: fs2,
                                    state: LoopState::Running,
                                    emit: Some(bar.spec_line(fs2)),
                                    fail: None,
                                }
                            } else {
                                StepModel {
                                    features: fs,
                                    state: LoopState::Terminated,
                                    emit: None,
                                    fail: Some(
                                        spec_refresh_error(
                                            fs[j].name@,
                                            "fetched data of a different feature kind"@,
                                        ),
                                    ),
                                }
                            }
                        },
                        FetchOutcome::Unreachable(reason) => StepModel {
                            features: fs,
                            state: LoopState::Terminated,
                            emit: None,
                            fail: Some(spec_refresh_error(fs[j].name@, reason@)),
                        },
                    }
                }
            },
        }
    }
}

/// The views of a sequence of strings.
pub open spec fn spec_views(items: Seq<String>) -> Seq<Seq<char>> {
    items.map_values(|s: String| s@)
}

/// What a whole run does: the lines it emits, in order, and the failure
/// that ends it, if one does.
pub struct RunModel {
    pub lines: Seq<Seq<char>>,
    pub fail: Option<FailModel>,
}

/// The run from a given state over the queued inputs: inputs are taken
/// strictly in order, each step is `spec_step`, and the first failure ends
/// the run.  Anything queued behind a consumed `Terminate` is ignored.
pub open spec fn spec_run_from(
    bar: StatusBar,
    fs: Seq<Feature>,
    state: LoopState,
    inputs: Seq<LoopInput>,
) -> RunModel
    decreases inputs.len(),
{
    if inputs.len() == 0 {
        RunModel { lines: Seq::empty(), fail: None }
    } else {
        let m = spec_step(bar, fs, state, inputs[0]);
        if m.fail is Some {
            RunModel { lines: Seq::empty(), fail: m.fail }
        } else {
            let rest = spec_run_from(bar, m.features, m.state, inputs.skip(1));
            RunModel {
                lines: (match m.emit {
                    Some(l) => seq![l],
                    None => Seq::empty(),
                }) + rest.lines,
                fail: rest.fail,
            }
        }
    }
}

/// The whole run: an empty feature set is a configuration failure before
/// anything is emitted; otherwise the initial full render comes first and
/// the loop follows.
pub open spec fn spec_run(bar: StatusBar, fs: Seq<Feature>, inputs: Seq<LoopInput>) -> RunModel {
    if fs.len() == 0 {
        RunModel {
            lines: Seq::empty(),
            fail: Some(
                FailModel {
                    kind: ErrorKind::Configuration,
                    name: "empty config"@,
                    description: "no features enabled"@,
                    cause: None,
                },
            ),
        }
    } else {
        let rest = spec_run_from(bar, fs, LoopState::Running, inputs);
        RunModel { lines: seq![bar.spec_line(fs)] + rest.lines, fail: rest.fail }
    }
}

/// The position of the feature carrying this id, or nothing.
fn find_feature(features: &Vec<Feature>, id: &FeatureId) -> (r: Option<usize>)
    ensures
        r matches Some(j) ==> j < features@.len() && features@[j as int].id@ == id@,
        r is None ==> !spec_has_id(features@, id@),
{
    let mut i: usize = 0;
    while i < features.len()
        invariant
            i <= features@.len(),
            forall|k: int| 0 <= k < i ==> (#[trigger] features@[k].id@) != id@,
        decreases features@.len() - i,
    {
        if features[i].id == *id {
            return Some(i);
        }
        i += 1;
    }
    None
}

/// The dispatch loop: the status bar, the feature table in display order,
/// and whether the loop is still consuming.
#[derive(Debug)]
pub struct DispatchLoop {
    pub bar: StatusBar,
    pub features: Vec<Feature>,
    pub state: LoopState,
}

impl DispatchLoop {
    /// Feature ids are unique for the lifetime of the loop.
    pub open spec fn wf(&self) -> bool {
        spec_unique_ids(self.features@)
    }

    /// A running loop over the given features, in display order.
    pub fn new(bar: StatusBar, features: Vec<Feature>) -> (r: DispatchLoop)
        requires
            spec_unique_ids(features@),
        ensures
            r.bar == bar,
            r.features == features,
            r.state == LoopState::Running,
            r.wf(),
    {
        DispatchLoop { bar, features, state: LoopState::Running }
    }

    /// Processes one input, exactly as `spec_step` describes: the result
    /// carries the emitted line, nothing, or the failure.
    pub fn process(&mut self, input: LoopInput) -> (r: Result<Option<String>, Error>)
        requires
            old(self).wf(),
        ensures
            final(self).wf(),
            final(self).bar == old(self).bar,
            final(self).features@ == spec_step(
                old(self).bar,
                old(self).features@,
                old(self).state,
                input,
            ).features,
            final(self).state == spec_step(
                old(self).bar,
                old(self).features@,
                old(self).state,
                input,
            ).state,
            (spec_step(old(self).bar, old(self).features@, old(self).state, input).fail is None)
                == (r is Ok),
            r matches Ok(emitted) ==> (match (
                emitted,
                spec_step(old(self).bar, old(self).features@, old(self).state, input).emit,
            ) {
                (Some(l), Some(e)) => l@ == e,
                (None, None) => true,
                _ => false,
            }),
            r matches Err(e) ==> (spec_step(
                old(self).bar,
                old(self).features@,
                old(self).state,
                input,
            ).fail matches Some(fm) && e.kind == fm.kind && e.name@ == fm.name && e.description@
                == fm.description && (match (e.cause, fm.cause) {
                (Option::None, Option::None) => true,
                (Some(c), Some(fc)) => c@ == fc,
                _ => false,
            })),
    {
        let ghost fs0 = self.features@;
        match self.state {
            LoopState::Terminated => Ok(None),
            LoopState::Running => match input {
                LoopInput::Terminate => {
                    self.state = LoopState::Terminated;
                    Ok(None)
                },
                LoopInput::Refresh(id, fetch) => {
                    match find_feature(&self.features, &id) {
                        None => {
                            self.state = LoopState::Terminated;
                            Err(Error::protocol(id.as_str()))
                        },
                        Some(j) => {
                            proof {
                                assert(spec_has_id(fs0, id@));
                                let sj = spec_index_of(fs0, id@);
                                assert(0 <= sj < fs0.len() && fs0[sj].id@ == id@);
                                assert(sj == j);
                            }
                            let f = &mut self.features[j];
                            let res = f.refresh(fetch);
                            match res {
                                Ok(()) => {
                                    proof {
                                        assert(self.features@ =~= fs0.update(
                                            j as int,
                                            Feature {
                                                updater: Updater {
                                                    data: self.features@[j as int].updater.data,
                                                },
                                                ..fs0[j as int]
                                            },
                                        ));
                                        assert forall|a: int, b: int|
                                            0 <= a < b < self.features@.len() implies (
                                        #[trigger] self.features@[a].id@) != (
                                        #[trigger] self.features@[b].id@) by {
                                            assert(self.features@[a].id@ == fs0[a].id@);
                                            assert(self.features@[b].id@ == fs0[b].id@);
                                        }
                                    }
                                    let line = self.bar.render(&self.features);
                                    Ok(Some(line))
                                },
                                Err(e) => {
                                    proof {
                                        assert(self.features@[j as int] =~= fs0[j as int]);
                                        assert(self.features@ =~= fs0);
                                    }
                                    self.state = LoopState::Terminated;
                                    Err(e)
                                },
                            }
                        },
                    }
                },
            },
        }
    }
}

} // verus!
