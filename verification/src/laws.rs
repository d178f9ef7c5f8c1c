//! The engine's guarantees, stated over the dispatch model and proved.

use vstd::prelude::*;
use crate::dispatch::LoopInput;
use crate::dispatch::LoopState;
use crate::dispatch::spec_has_id;
use crate::dispatch::spec_ids;
use crate::dispatch::spec_index_of;
use crate::dispatch::spec_run_from;
use crate::dispatch::spec_step;
use crate::dispatch::spec_unique_ids;
use crate::error::ErrorKind;
use crate::feature::Data;
use crate::feature::Feature;
use crate::feature::FetchOutcome;
use crate::feature::Updater;
use crate::message::FeatureId;
use crate::status_bar::StatusBar;

verus! {

/// Order preservation: a step never changes the display order or the
/// uniqueness of ids, and the line it emits is the join of the features'
/// renders in that very order, whichever feature was refreshed.
pub proof fn lemma_order_preserved(
    bar: StatusBar,
    fs: Seq<Feature>,
    state: LoopState,
    input: LoopInput,
)
    requires
        spec_unique_ids(fs),
    ensures
        spec_ids(spec_step(bar, fs, state, input).features) == spec_ids(fs),
        spec_unique_ids(spec_step(bar, fs, state, input).features),
        spec_step(bar, fs, state, input).emit matches Some(l) ==> l == bar.spec_line(
            spec_step(bar, fs, state, input).features,
        ),
{
    let m = spec_step(bar, fs, state, input);
    assert(m.features.len() == fs.len());
    assert forall|k: int| 0 <= k < fs.len() implies (#[trigger] m.features[k].id@) == fs[k].id@ by {
    }
    assert(spec_ids(m.features) =~= spec_ids(fs));
    assert forall|a: int, b: int| 0 <= a < b < m.features.len() implies (
    #[trigger] m.features[a].id@) != (#[trigger] m.features[b].id@) by {
        assert(m.features[a].id@ == fs[a].id@);
        assert(m.features[b].id@ == fs[b].id@);
    }
}

/// Once `Terminate` is consumed, the loop is inert: nothing still queued
/// produces a render, a refresh or a failure.
pub proof fn lemma_terminated_inert(bar: StatusBar, fs: Seq<Feature>, inputs: Seq<LoopInput>)
    ensures
        spec_run_from(bar, fs, LoopState::Terminated, inputs).lines == Seq::<Seq<char>>::empty(),
        spec_run_from(bar, fs, LoopState::Terminated, inputs).fail is None,
    decreases inputs.len(),
{
    if inputs.len() > 0 {
        lemma_terminated_inert(bar, fs, inputs.skip(1));
        assert(Seq::<Seq<char>>::empty() + Seq::<Seq<char>>::empty() =~= Seq::<
            Seq<char>,
        >::empty());
    }
}

/// A run whose queue holds `Terminate` behaves exactly like the run over
/// the prefix that ends with it: messages queued behind the `Terminate`
/// change nothing.
pub proof fn lemma_terminate_cuts(
    bar: StatusBar,
    fs: Seq<Feature>,
    inputs: Seq<LoopInput>,
    t: int,
)
    requires
        0 <= t < inputs.len(),
        inputs[t] is Terminate,
    ensures
        spec_run_from(bar, fs, LoopState::Running, inputs).lines == spec_run_from(
            bar,
            fs,
            LoopState::Running,
            inputs.take(t + 1),
        ).lines,
        spec_run_from(bar, fs, LoopState::Running, inputs).fail == spec_run_from(
            bar,
            fs,
            LoopState::Running,
            inputs.take(t + 1),
        ).fail,
    decreases t,
{
    let pre = inputs.take(t + 1);
    assert(pre.len() == t + 1);
    assert(pre[0] == inputs[0]);
    let m = spec_step(bar, fs, LoopState::Running, inputs[0]);
    if m.fail is Some {
    } else if m.state is Terminated {
        assert(m.emit is None);
        lemma_terminated_inert(bar, m.features, inputs.skip(1));
        lemma_terminated_inert(bar, m.features, pre.skip(1));
        assert(spec_run_from(bar, fs, LoopState::Running, inputs).lines =~= Seq::<
            Seq<char>,
        >::empty());
        assert(spec_run_from(bar, fs, LoopState::Running, pre).lines =~= Seq::<
            Seq<char>,
        >::empty());
    } else {
        assert(t != 0);
        assert(inputs.skip(1)[t - 1] == inputs[t]);
        lemma_terminate_cuts(bar, m.features, inputs.skip(1), t - 1);
        assert(inputs.skip(1).take(t) =~= pre.skip(1));
    }
}

/// A refresh message whose id is absent from the feature table ends the
/// run with the protocol failure, and produces no render at all.
pub proof fn lemma_unknown_id_is_fatal(bar: StatusBar, fs: Seq<Feature>, inputs: Seq<LoopInput>)
    requires
        inputs.len() > 0,
        inputs[0] matches LoopInput::Refresh(id, fetch) && !spec_has_id(fs, id@),
    ensures
        spec_run_from(bar, fs, LoopState::Running, inputs).fail matches Some(fm) && fm.kind
            == ErrorKind::Protocol,
        spec_run_from(bar, fs, LoopState::Running, inputs).lines == Seq::<Seq<char>>::empty(),
{
}

/// Idempotence: when the external source is unchanged, refreshing the same
/// feature again leaves the feature table, and with it the rendered line,
/// exactly as the first refresh left them.
pub proof fn lemma_refresh_idempotent(bar: StatusBar, fs: Seq<Feature>, id: FeatureId, d: Data)
    requires
        spec_unique_ids(fs),
        spec_step(
            bar,
            fs,
            LoopState::Running,
            LoopInput::Refresh(id, FetchOutcome::Fetched(d)),
        ).fail is None,
    ensures
        spec_step(
            bar,
            spec_step(
                bar,
                fs,
                LoopState::Running,
                LoopInput::Refresh(id, FetchOutcome::Fetched(d)),
            ).features,
            LoopState::Running,
            LoopInput::Refresh(id, FetchOutcome::Fetched(d)),
        ).features == spec_step(
            bar,
            fs,
            LoopState::Running,
            LoopInput::Refresh(id, FetchOutcome::Fetched(d)),
        ).features,
        spec_step(
            bar,
            spec_step(
                bar,
                fs,
                LoopState::Running,
                LoopInput::Refresh(id, FetchOutcome::Fetched(d)),
            ).features,
            LoopState::Running,
            LoopInput::Refresh(id, FetchOutcome::Fetched(d)),
        ).emit == spec_step(
            bar,
            fs,
            LoopState::Running,
            LoopInput::Refresh(id, FetchOutcome::Fetched(d)),
        ).emit,
{
    let input = LoopInput::Refresh(id, FetchOutcome::Fetched(d));
    let m1 = spec_step(bar, fs, LoopState::Running, input);
    let j = spec_index_of(fs, id@);
    assert(spec_has_id(fs, id@));
    assert(0 <= j < fs.len() && fs[j].id@ == id@);
    lemma_order_preserved(bar, fs, LoopState::Running, input);
    assert(m1.features[j].id@ == id@);
    assert(spec_has_id(m1.features, id@));
    let j2 = spec_index_of(m1.features, id@);
    assert(0 <= j2 < m1.features.len() && m1.features[j2].id@ == id@);
    assert(j2 == j);
    assert(m1.features[j].updater.data == d);
    let m2 = spec_step(bar, m1.features, LoopState::Running, input);
    assert(m2.features =~= m1.features);
}

/// The data a single feature holds after a queue of applied inputs: the
/// most recent successfully fetched value addressed to its id, or its
/// initial data when none is.
pub open spec fn spec_data_after(f: Feature, inputs: Seq<LoopInput>) -> Data
    decreases inputs.len(),
{
    if inputs.len() == 0 {
        f.updater.data
    } else {
        let d0 = match inputs[0] {
            LoopInput::Refresh(id, FetchOutcome::Fetched(d)) => {
                if id@ == f.id@ && d.spec_kind() == f.updater.data.spec_kind() {
                    d
                } else {
                    f.updater.data
                }
            },
            _ => f.updater.data,
        };
        spec_data_after(Feature { updater: Updater { data: d0 }, ..f }, inputs.skip(1))
    }
}

/// Every queued input was applied: no step failed and none terminated the
/// loop.
pub open spec fn spec_all_applied(bar: StatusBar, fs: Seq<Feature>, inputs: Seq<LoopInput>) -> bool
    decreases inputs.len(),
{
    inputs.len() == 0 || {
        let m = spec_step(bar, fs, LoopState::Running, inputs[0]);
        m.fail is None && m.state is Running && spec_all_applied(bar, m.features, inputs.skip(1))
    }
}

/// The feature table after a queue of inputs.
pub open spec fn spec_features_after(
    bar: StatusBar,
    fs: Seq<Feature>,
    inputs: Seq<LoopInput>,
) -> Seq<Feature>
    decreases inputs.len(),
{
    if inputs.len() == 0 {
        fs
    } else {
        spec_features_after(
            bar,
            spec_step(bar, fs, LoopState::Running, inputs[0]).features,
            inputs.skip(1),
        )
    }
}

/// After any number of applied refresh messages, each emitted line is the
/// aggregate line over the feature table as of exactly that message:
/// never a partially applied and never a future state.
pub proof fn lemma_lines_reflect_each_step(
    bar: StatusBar,
    fs: Seq<Feature>,
    inputs: Seq<LoopInput>,
)
    requires
        spec_unique_ids(fs),
        spec_all_applied(bar, fs, inputs),
    ensures
        spec_run_from(bar, fs, LoopState::Running, inputs).lines.len() == inputs.len(),
        forall|k: int|
            0 <= k < inputs.len() ==> spec_run_from(bar, fs, LoopState::Running, inputs).lines[k]
                == bar.spec_line(spec_features_after(bar, fs, inputs.take(k + 1))),
    decreases inputs.len(),
{
    if inputs.len() > 0 {
        let m = spec_step(bar, fs, LoopState::Running, inputs[0]);
        assert(m.fail is None && m.state is Running);
        assert(m.emit is Some);
        lemma_order_preserved(bar, fs, LoopState::Running, inputs[0]);
        lemma_lines_reflect_each_step(bar, m.features, inputs.skip(1));
        let lines = spec_run_from(bar, fs, LoopState::Running, inputs).lines;
        let rest = spec_run_from(bar, m.features, LoopState::Running, inputs.skip(1));
        assert(lines.len() == 1 + rest.lines.len());
        assert forall|k: int| 0 <= k < inputs.len() implies lines[k] == bar.spec_line(
            spec_features_after(bar, fs, inputs.take(k + 1)),
        ) by {
            assert(inputs.take(k + 1)[0] == inputs[0]);
            assert(inputs.take(k + 1).skip(1) =~= inputs.skip(1).take(k));
            assert(spec_features_after(bar, fs, inputs.take(k + 1)) == spec_features_after(
                bar,
                m.features,
                inputs.skip(1).take(k),
            ));
            if k == 0 {
                assert(inputs.skip(1).take(0) =~= Seq::<LoopInput>::empty());
                assert(spec_features_after(bar, m.features, inputs.skip(1).take(0))
                    == m.features);
                assert(lines[0] == bar.spec_line(m.features));
            } else {
                assert(lines[k] == rest.lines[k - 1]);
            }
        }
    }
}

/// For every interleaving of applied refresh messages across distinct
/// feature ids, each feature ends up holding exactly the data of the most
/// recent successful refresh addressed to its own id — never another
/// feature's value, never an older one.
pub proof fn lemma_latest_refresh_wins(bar: StatusBar, fs: Seq<Feature>, inputs: Seq<LoopInput>)
    requires
        spec_unique_ids(fs),
        spec_all_applied(bar, fs, inputs),
    ensures
        spec_features_after(bar, fs, inputs).len() == fs.len(),
        forall|j: int|
            0 <= j < fs.len() ==> #[trigger] spec_features_after(bar, fs, inputs)[j] == (Feature {
                updater: Updater { data: spec_data_after(fs[j], inputs) },
                ..fs[j]
            }),
    decreases inputs.len(),
{
    if inputs.len() == 0 {
        assert forall|j: int| 0 <= j < fs.len() implies #[trigger] spec_features_after(
            bar,
            fs,
            inputs,
        )[j] == (Feature { updater: Updater { data: spec_data_after(fs[j], inputs) }, ..fs[j] }) by {
            assert(spec_data_after(fs[j], inputs) == fs[j].updater.data);
        }
    } else {
        let m = spec_step(bar, fs, LoopState::Running, inputs[0]);
        lemma_order_preserved(bar, fs, LoopState::Running, inputs[0]);
        lemma_latest_refresh_wins(bar, m.features, inputs.skip(1));
        assert(m.fail is None && m.state is Running);
        assert forall|j: int| 0 <= j < fs.len() implies #[trigger] spec_features_after(
            bar,
            fs,
            inputs,
        )[j] == (Feature { updater: Updater { data: spec_data_after(fs[j], inputs) }, ..fs[j] }) by {
            match inputs[0] {
                LoopInput::Refresh(id, FetchOutcome::Fetched(d)) => {
                    assert(spec_has_id(fs, id@));
                    let jx = spec_index_of(fs, id@);
                    assert(0 <= jx < fs.len() && fs[jx].id@ == id@);
                    assert(d.spec_kind() == fs[jx].updater.data.spec_kind());
                    if j == jx {
                        assert(m.features[j] == (Feature {
                            updater: Updater { data: d },
                            ..fs[j]
                        }));
                        assert(spec_data_after(fs[j], inputs) == spec_data_after(
                            m.features[j],
                            inputs.skip(1),
                        ));
                    } else {
                        assert(fs[j].id@ != fs[jx].id@);
                        assert(m.features[j] == fs[j]);
                        assert((Feature {
                            updater: Updater { data: fs[j].updater.data },
                            ..fs[j]
                        }) == fs[j]);
                        assert(spec_data_after(fs[j], inputs) == spec_data_after(
                            fs[j],
                            inputs.skip(1),
                        ));
                    }
                    assert(spec_features_after(bar, fs, inputs)[j] == spec_features_after(
                        bar,
                        m.features,
                        inputs.skip(1),
                    )[j]);
                },
                LoopInput::Refresh(id, FetchOutcome::Unreachable(reason)) => {
                    assert(false);
                },
                LoopInput::Terminate => {
                    assert(false);
                },
            }
        }
    }
}

} // verus!
