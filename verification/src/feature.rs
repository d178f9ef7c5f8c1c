//! The polymorphic feature: identity, trigger and updater bound into one
//! value.
//!
//! A feature is a tagged union over the feature kinds rather than a class
//! hierarchy: the composer binds a name, a notifier and an updater into
//! one value, and rendering dispatches on the data's kind.

use vstd::prelude::*;
use crate::error::Error;
use crate::error::ErrorKind;
use crate::features::battery::BatteryData;
use crate::features::cpu_load::CpuLoadData;
use crate::features::network::NetworkData;
use crate::message::FeatureId;

verus! {

/// The kinds of feature the system knows.
#[derive(Clone, Copy, Debug, PartialEq, Eq, Structural)]
pub enum FeatureKind {
    Battery,
    CpuLoad,
    Network,
}

/// The concurrent trigger that asks for a feature's refresh.  The library
/// only records how the trigger is to be armed; arming it and running it
/// happen outside.
#[derive(Clone, Copy, Debug, PartialEq, Eq, Structural)]
pub enum Notifier {
    /// A timer that fires every so many seconds.
    Interval(u64),
    /// A subscription to an external change-notification source.
    Event,
}

/// Feature-kind-specific state, holding the last successfully fetched
/// values together with the kind's render settings.
#[derive(Debug)]
pub enum Data {
    Battery(BatteryData),
    CpuLoad(CpuLoadData),
    Network(NetworkData),
}

/// What the external source handed back for one refresh: a freshly
/// derived data value, or the reason the source was unreachable or
/// malformed.
#[derive(Debug)]
pub enum FetchOutcome {
    Fetched(Data),
    Unreachable(String),
}

impl Data {
    /// The feature kind this data belongs to.
    pub open spec fn spec_kind(&self) -> FeatureKind {
        match self {
            Data::Battery(_) => FeatureKind::Battery,
            Data::CpuLoad(_) => FeatureKind::CpuLoad,
            Data::Network(_) => FeatureKind::Network,
        }
    }

    /// The battery table keeps its key order; the other kinds carry no
    /// internal invariant.
    pub open spec fn wf(&self) -> bool {
        match self {
            Data::Battery(d) => d.wf(),
            Data::CpuLoad(_) => true,
            Data::Network(_) => true,
        }
    }

    /// The rendered text of this data.
    pub open spec fn spec_render(&self) -> Seq<char> {
        match self {
            Data::Battery(d) => d.spec_render(),
            Data::CpuLoad(d) => d.spec_render(),
            Data::Network(d) => d.spec_render(),
        }
    }

    /// The feature kind this data belongs to.
    pub fn kind(&self) -> (k: FeatureKind)
        ensures
            k == self.spec_kind(),
    {
        match self {
            Data::Battery(_) => FeatureKind::Battery,
            Data::CpuLoad(_) => FeatureKind::CpuLoad,
            Data::Network(_) => FeatureKind::Network,
        }
    }

    /// Renders this data; rendering is pure and never fails.
    pub fn render(&self) -> (r: String)
        ensures
            r@ == self.spec_render(),
    {
        match self {
            Data::Battery(d) => d.render(),
            Data::CpuLoad(d) => d.render(),
            Data::Network(d) => d.render(),
        }
    }
}

/// Owns one data value, replaces it on refresh and formats it on render.
#[derive(Debug)]
pub struct Updater {
    pub data: Data,
}

impl Updater {
    /// An updater over its initial data.
    pub fn new(data: Data) -> (r: Updater)
        ensures
            r.data == data,
    {
        Updater { data }
    }

    /// Replaces the data with a freshly fetched value of the same kind; on
    /// any failure the data is left unchanged and the cause is handed
    /// back.  There is no retry: the caller decides what the failure
    /// means.
    pub fn refresh(&mut self, fetch: FetchOutcome) -> (r: Result<(), String>)
        ensures
            fetch matches FetchOutcome::Fetched(d) ==> (if d.spec_kind()
                == old(self).data.spec_kind() {
                r is Ok && final(self).data == d
            } else {
                r matches Err(c) && c@ == "fetched data of a different feature kind"@
                    && final(self).data == old(self).data
            }),
            fetch matches FetchOutcome::Unreachable(reason) ==> r matches Err(c) && c@ == reason@
                && final(self).data == old(self).data,
    {
        match fetch {
            FetchOutcome::Fetched(d) => {
                if d.kind() == self.data.kind() {
                    self.data = d;
                    Ok(())
                } else {
                    Err(String::from_str("fetched data of a different feature kind"))
                }
            },
            FetchOutcome::Unreachable(reason) => Err(reason),
        }
    }

    /// Renders the current data.
    pub fn render(&self) -> (r: String)
        ensures
            r@ == self.data.spec_render(),
    {
        self.data.render()
    }
}

/// One monitored feature: identity, name, trigger and updater.
#[derive(Debug)]
pub struct Feature {
    pub id: FeatureId,
    pub name: String,
    pub notifier: Notifier,
    pub updater: Updater,
}

impl Feature {
    /// The composer: binds an identity, a notifier and an updater into
    /// one feature.  Any notifier and updater pair may be combined; there
    /// is no hierarchy.
    pub fn compose(id: FeatureId, name: String, notifier: Notifier, updater: Updater) -> (r:
        Feature)
        ensures
            r.id == id,
            r.name == name,
            r.notifier == notifier,
            r.updater == updater,
    {
        Feature { id, name, notifier, updater }
    }

    /// Refreshes this feature from what the external source handed back,
    /// wrapping a failure with the feature's name.  Identity, name and
    /// trigger never change.
    pub fn refresh(&mut self, fetch: FetchOutcome) -> (r: Result<(), Error>)
        ensures
            final(self).id == old(self).id,
            final(self).name == old(self).name,
            final(self).notifier == old(self).notifier,
            fetch matches FetchOutcome::Fetched(d) ==> (if d.spec_kind()
                == old(self).updater.data.spec_kind() {
                r is Ok && final(self).updater.data == d
            } else {
                r matches Err(e) && e.kind == ErrorKind::Refresh && e.name@ == old(self).name@
                    && e.description@ == "could not refresh feature"@ && (e.cause matches Some(c)
                    && c@ == "fetched data of a different feature kind"@)
                    && final(self).updater.data == old(self).updater.data
            }),
            fetch matches FetchOutcome::Unreachable(reason) ==> (r matches Err(e) && e.kind
                == ErrorKind::Refresh && e.name@ == old(self).name@ && e.description@
                == "could not refresh feature"@ && (e.cause matches Some(c) && c@ == reason@)
                && final(self).updater.data == old(self).updater.data),
    {
        match self.updater.refresh(fetch) {
            Ok(()) => Ok(()),
            Err(cause) => Err(Error::refresh(self.name.as_str(), cause)),
        }
    }

    /// The feature's unique identity.
    pub fn id(&self) -> (r: &FeatureId)
        ensures
            r == &self.id,
    {
        &self.id
    }

    /// The feature's kind name.
    pub fn name(&self) -> (r: &String)
        ensures
            r == &self.name,
    {
        &self.name
    }

    /// Renders this feature's current data.
    pub fn render(&self) -> (r: String)
        ensures
            r@ == self.updater.data.spec_render(),
    {
        self.updater.render()
    }
}

} // verus!
