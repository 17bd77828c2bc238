//! One call site: a named metric whose identifier is resolved on first use
//! and kept for every later one.

use vstd::prelude::*;
use crate::kind::{MetricId, MetricKind, Value};
use crate::recorder::Recorder;

verus! {

/// What one execution of a call site does.
#[derive(Debug, Copy, Clone, Eq, PartialEq, Structural)]
pub enum SiteAction {
    /// No recorder is installed: nothing is sent.
    Skip,
    /// The metric is registered first, then the sample is forwarded.
    Register,
    /// The sample is forwarded under the cached identifier.
    Forward(MetricId),
}

/// A call site as contracts see it.
pub struct SiteModel {
    pub name: Seq<char>,
    pub unit: Seq<char>,
    pub kind: MetricKind,
    pub id: Option<MetricId>,
}

impl SiteModel {
    /// What the site does when it is executed.
    pub open spec fn action(self, installed: bool) -> SiteAction {
        if !installed {
            SiteAction::Skip
        } else {
            match self.id {
                None => SiteAction::Register,
                Some(id) => SiteAction::Forward(id),
            }
        }
    }

    /// The site once the identifier `reply` has come back for it: the first
    /// reply is kept, a later one changes nothing.
    pub open spec fn resolved(self, reply: MetricId) -> SiteModel {
        match self.id {
            None => SiteModel { id: Some(reply), ..self },
            Some(_) => self,
        }
    }

    /// The site after one execution, where `reply` is what a registration
    /// made now would return.
    pub open spec fn step(self, installed: bool, reply: MetricId) -> SiteModel {
        if installed {
            self.resolved(reply)
        } else {
            self
        }
    }

    /// The site after the executions `calls`, each given as whether a
    /// recorder was installed and what a registration would have returned.
    pub open spec fn run(self, calls: Seq<(bool, MetricId)>) -> SiteModel
        decreases calls.len(),
    {
        if calls.len() == 0 {
            self
        } else {
            self.step(calls[0].0, calls[0].1).run(calls.drop_first())
        }
    }

    /// How many of the executions `calls` register the metric.
    pub open spec fn registrations(self, calls: Seq<(bool, MetricId)>) -> nat
        decreases calls.len(),
    {
        if calls.len() == 0 {
            0
        } else {
            let here: nat = if self.action(calls[0].0) is Register {
                1
            } else {
                0
            };
            here + self.step(calls[0].0, calls[0].1).registrations(calls.drop_first())
        }
    }
}

/// A call site: the fixed name, unit and kind of one metric, and the
/// identifier once it is known.
pub struct CallSite {
    name: String,
    unit: String,
    kind: MetricKind,
    id: Option<MetricId>,
}

impl View for CallSite {
    type V = SiteModel;

    closed spec fn view(&self) -> SiteModel {
        SiteModel { name: self.name@, unit: self.unit@, kind: self.kind, id: self.id }
    }
}

impl CallSite {
    /// A call site whose identifier is not resolved yet.
    pub fn new(name: &str, unit: &str, kind: MetricKind) -> (site: Self)
        ensures
            site@ == (SiteModel { name: name@, unit: unit@, kind, id: None }),
    {
        CallSite { name: name.to_owned(), unit: unit.to_owned(), kind, id: None }
    }

    /// The cached identifier, if the site was resolved.
    pub fn id(&self) -> (id: Option<MetricId>)
        ensures
            id == self@.id,
    {
        self.id
    }

    /// The kind of the metric.
    pub fn kind(&self) -> (kind: MetricKind)
        ensures
            kind == self@.kind,
    {
        self.kind
    }

    /// The name of the metric.
    pub fn name(&self) -> (name: &str)
        ensures
            name@ == self@.name,
    {
        self.name.as_str()
    }

    /// The unit of the metric.
    pub fn unit(&self) -> (unit: &str)
        ensures
            unit@ == self@.unit,
    {
        self.unit.as_str()
    }

    /// What executing the site would do now.
    pub fn plan(&self, installed: bool) -> (action: SiteAction)
        ensures
            action == self@.action(installed),
    {
        if !installed {
            SiteAction::Skip
        } else {
            match self.id {
                None => SiteAction::Register,
                Some(id) => SiteAction::Forward(id),
            }
        }
    }

    /// Caches the identifier that a registration returned. Only the first
    /// one is kept.
    pub fn resolve(&mut self, reply: MetricId)
        ensures
            final(self)@ == old(self)@.resolved(reply),
    {
        match self.id {
            None => {
                self.id = Some(reply);
            },
            Some(_) => {},
        }
    }

    /// The identifier of the site under `recorder`: the cached one, or the
    /// one that a registration made now returns, which is then cached.
    pub fn id_for<R: Recorder>(&mut self, recorder: &R) -> (id: MetricId)
        ensures
            final(self)@ == old(self)@.resolved(id),
            final(self)@.id == Some(id),
            old(self)@.id is None ==> recorder.answers(
                old(self)@.name,
                old(self)@.kind,
                old(self)@.unit,
                id,
            ),
    {
        match self.id {
            Some(id) => id,
            None => {
                let id = recorder.allocate(self.name.as_str(), self.kind, self.unit.as_str());
                self.id = Some(id);
                id
            },
        }
    }

    /// Forwards one sample under the cached identifier, without touching the
    /// site: this is every execution after the first. Does nothing where no
    /// recorder is installed or the site is not resolved yet. Returns what
    /// it did.
    pub fn forward<R: Recorder>(&self, recorder: Option<&R>, value: Value) -> (done: SiteAction)
        ensures
            done == (if recorder is Some && self@.id is Some {
                SiteAction::Forward(self@.id->0)
            } else {
                SiteAction::Skip
            }),
            done is Forward ==> recorder->0.took(self@.id->0, value),
    {
        match (recorder, self.id) {
            (Some(r), Some(id)) => {
                r.record(id, value);
                SiteAction::Forward(id)
            },
            _ => SiteAction::Skip,
        }
    }

    /// Executes the site with one sample: does nothing where no recorder is
    /// installed; otherwise registers the metric if this is the first such
    /// execution, and forwards the sample. Returns what it did.
    pub fn emit<R: Recorder>(&mut self, recorder: Option<&R>, value: Value) -> (done: SiteAction)
        ensures
            done == old(self)@.action(recorder is Some),
            recorder is None ==> final(self)@ == old(self)@,
            recorder is Some ==> final(self)@.id is Some,
            recorder is Some ==> final(self)@ == old(self)@.resolved(final(self)@.id->0),
            recorder is Some && old(self)@.id is None ==> recorder->0.answers(
                old(self)@.name,
                old(self)@.kind,
                old(self)@.unit,
                final(self)@.id->0,
            ),
            recorder is Some ==> recorder->0.took(final(self)@.id->0, value),
    {
        let action = self.plan(recorder.is_some());
        match recorder {
            None => {},
            Some(r) => {
                let id = self.id_for(r);
                r.record(id, value);
            },
        }
        action
    }
}

/// A resolved site keeps its identifier and never registers again, whatever
/// executions follow.
pub proof fn lemma_resolved_site_is_stable(site: SiteModel, calls: Seq<(bool, MetricId)>)
    requires
        site.id is Some,
    ensures
        site.run(calls) == site,
        site.registrations(calls) == 0,
    decreases calls.len(),
{
    if calls.len() > 0 {
        lemma_resolved_site_is_stable(site, calls.drop_first());
    }
}

/// A call site registers its metric at most once over any run of executions:
/// exactly once if a recorder was installed at one of them, and then the
/// identifier of that registration is the one the site keeps.
pub proof fn lemma_registers_once(site: SiteModel, calls: Seq<(bool, MetricId)>)
    requires
        site.id is None,
    ensures
        site.registrations(calls) <= 1,
        site.registrations(calls) == 1 <==> exists|i: int| 0 <= i < calls.len() && calls[i].0,
        site.registrations(calls) == 1 <==> site.run(calls).id is Some,
        site.registrations(calls) == 0 ==> site.run(calls) == site,
    decreases calls.len(),
{
    if calls.len() > 0 {
        let rest = calls.drop_first();
        if calls[0].0 {
            lemma_resolved_site_is_stable(site.step(true, calls[0].1), rest);
            assert(calls[0].0);
        } else {
            lemma_registers_once(site, rest);
            if exists|i: int| 0 <= i < rest.len() && rest[i].0 {
                let i = choose|i: int| 0 <= i < rest.len() && rest[i].0;
                assert(calls[i + 1].0);
            }
            if exists|i: int| 0 <= i < calls.len() && calls[i].0 {
                let i = choose|i: int| 0 <= i < calls.len() && calls[i].0;
                assert(rest[i - 1].0);
            }
        }
    }
}

/// With a recorder installed throughout, any positive number of executions
/// of a fresh call site registers the metric exactly once.
pub proof fn lemma_loop_registers_once(site: SiteModel, calls: Seq<(bool, MetricId)>)
    requires
        site.id is None,
        calls.len() > 0,
        forall|i: int| 0 <= i < calls.len() ==> calls[i].0,
    ensures
        site.registrations(calls) == 1,
        site.run(calls).id == Some(calls[0].1),
{
    lemma_registers_once(site, calls);
    assert(calls[0].0);
    lemma_resolved_site_is_stable(site.step(true, calls[0].1), calls.drop_first());
}

} // verus!
