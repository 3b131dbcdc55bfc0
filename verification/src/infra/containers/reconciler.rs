//! The container reconciler: what to do with a container whose state
//! differs from the state it is asked for, as a list of effects that the
//! application carries out in order against the database and Docker.

use vstd::prelude::*;

use crate::db::queries::container::{Container, ContainerStatus, DesiredState, PortMapping};
use crate::text::{concat2, concat3, opt_view};

verus! {

/// What a reconcile pass does with one container.
#[derive(Debug, Clone, Copy, PartialEq, Eq, Structural)]
pub enum ReconcilePlan {
    /// Stop and remove it, then delete its project.
    Remove,
    /// Start the latest revision.
    Deploy,
    /// Replace the running container if a newer revision exists.
    CheckForCutover,
    /// Stop it.
    Stop,
    /// Leave it alone: converged, or in the middle of a transition.
    Skip,
}

/// The plan for a container in `status`, asked to reach `desired`, that has
/// a Docker container when `has_docker` holds.
pub open spec fn plan_for(desired: DesiredState, status: ContainerStatus, has_docker: bool) -> ReconcilePlan {
    match desired {
        DesiredState::Removed => match status {
            ContainerStatus::Running
            | ContainerStatus::Failed
            | ContainerStatus::Stopped
            | ContainerStatus::Pending => ReconcilePlan::Remove,
            _ => ReconcilePlan::Skip,
        },
        DesiredState::Running => match status {
            ContainerStatus::Pending
            | ContainerStatus::Stopped
            | ContainerStatus::Failed => if has_docker {
                ReconcilePlan::Skip
            } else {
                ReconcilePlan::Deploy
            },
            ContainerStatus::Running => if has_docker {
                ReconcilePlan::CheckForCutover
            } else {
                ReconcilePlan::Skip
            },
            _ => ReconcilePlan::Skip,
        },
        DesiredState::Stopped => match status {
            ContainerStatus::Running | ContainerStatus::Failed => if has_docker {
                ReconcilePlan::Stop
            } else {
                ReconcilePlan::Skip
            },
            _ => ReconcilePlan::Skip,
        },
    }
}

/// The plan for `c`.
pub fn plan_reconcile(c: &Container) -> (p: ReconcilePlan)
    ensures
        p == plan_for(c.desired_state, c.status, c.docker_container_id is Some),
{
    let has_docker = c.docker_container_id.is_some();
    match c.desired_state {
        DesiredState::Removed => match c.status {
            ContainerStatus::Running
            | ContainerStatus::Failed
            | ContainerStatus::Stopped
            | ContainerStatus::Pending => ReconcilePlan::Remove,
            _ => ReconcilePlan::Skip,
        },
        DesiredState::Running => match c.status {
            ContainerStatus::Pending
            | ContainerStatus::Stopped
            | ContainerStatus::Failed => if has_docker {
                ReconcilePlan::Skip
            } else {
                ReconcilePlan::Deploy
            },
            ContainerStatus::Running => if has_docker {
                ReconcilePlan::CheckForCutover
            } else {
                ReconcilePlan::Skip
            },
            _ => ReconcilePlan::Skip,
        },
        DesiredState::Stopped => match c.status {
            ContainerStatus::Running | ContainerStatus::Failed => if has_docker {
                ReconcilePlan::Stop
            } else {
                ReconcilePlan::Skip
            },
            _ => ReconcilePlan::Skip,
        },
    }
}

/// A running container is replaced only by a revision newer than its own.
pub fn cutover_needed(latest_revision: i64, current_revision: i64) -> (b: bool)
    ensures
        b == (latest_revision > current_revision),
{
    latest_revision > current_revision
}

/// A container with no revision yet has nothing to deploy.
pub fn has_revision(latest_revision: i64) -> (b: bool)
    ensures
        b == (latest_revision != 0),
{
    latest_revision != 0
}

/// The name of the Docker container of a container record.
pub open spec fn docker_name(id: Seq<char>) -> Seq<char> {
    "vulpecula-"@ + id
}

/// The name of the Docker container of the record with identifier `id`.
pub fn docker_container_name(id: &str) -> (s: String)
    ensures
        s@ == docker_name(id@),
{
    concat2("vulpecula-", id)
}

/// One step of a reconcile.
#[derive(Debug)]
pub enum ContainerEffect {
    /// Record the move from `from` to `to` and set the status to `to`.
    Transition { from: ContainerStatus, to: ContainerStatus, reason: Option<String> },
    /// Stop and remove a Docker container (absent ones count as removed).
    StopAndRemove { docker_container_id: String },
    /// Forget the Docker container of the record.
    ClearDockerContainerId,
    /// Create and start a Docker container from the loaded revision; its
    /// outcome decides the effects that follow.
    CreateAndStart { name: String },
    /// Remember the Docker container of the record.
    SetDockerContainerId { docker_container_id: String },
    /// Remember the Docker container that is to replace the current one.
    SetPendingDockerContainerId { docker_container_id: String },
    /// Make the pending Docker container the current one.
    PromotePendingToCurrent,
    /// Record the revision the container now runs.
    BumpCurrentRevision { revision: i64 },
    /// Delete the project the container belongs to.
    DeleteProject { project_id: String },
}

/// [`ContainerEffect`] as plain values.
pub enum EffectView {
    Transition { from: ContainerStatus, to: ContainerStatus, reason: Option<Seq<char>> },
    StopAndRemove { docker_container_id: Seq<char> },
    ClearDockerContainerId,
    CreateAndStart { name: Seq<char> },
    SetDockerContainerId { docker_container_id: Seq<char> },
    SetPendingDockerContainerId { docker_container_id: Seq<char> },
    PromotePendingToCurrent,
    BumpCurrentRevision { revision: i64 },
    DeleteProject { project_id: Seq<char> },
}

impl View for ContainerEffect {
    type V = EffectView;

    open spec fn view(&self) -> EffectView {
        match self {
            ContainerEffect::Transition { from, to, reason } => EffectView::Transition {
                from: *from,
                to: *to,
                reason: opt_view(*reason),
            },
            ContainerEffect::StopAndRemove { docker_container_id } => EffectView::StopAndRemove {
                docker_container_id: docker_container_id@,
            },
            ContainerEffect::ClearDockerContainerId => EffectView::ClearDockerContainerId,
            ContainerEffect::CreateAndStart { name } => EffectView::CreateAndStart { name: name@ },
            ContainerEffect::SetDockerContainerId { docker_container_id } => EffectView::SetDockerContainerId {
                docker_container_id: docker_container_id@,
            },
            ContainerEffect::SetPendingDockerContainerId { docker_container_id } => EffectView::SetPendingDockerContainerId {
                docker_container_id: docker_container_id@,
            },
            ContainerEffect::PromotePendingToCurrent => EffectView::PromotePendingToCurrent,
            ContainerEffect::BumpCurrentRevision { revision } => EffectView::BumpCurrentRevision {
                revision: *revision,
            },
            ContainerEffect::DeleteProject { project_id } => EffectView::DeleteProject {
                project_id: project_id@,
            },
        }
    }
}

/// A list of effects as plain values.
pub open spec fn effects_view(v: Seq<ContainerEffect>) -> Seq<EffectView> {
    v.map_values(|e: ContainerEffect| e@)
}

/// The columns of a container record that reconciling changes.
pub struct RecordView {
    pub status: ContainerStatus,
    pub docker_container_id: Option<Seq<char>>,
    pub pending_docker_container_id: Option<Seq<char>>,
    pub current_revision: i64,
}

/// The columns of `c` that reconciling changes.
pub open spec fn record_of(c: Container) -> RecordView {
    RecordView {
        status: c.status,
        docker_container_id: opt_view(c.docker_container_id),
        pending_docker_container_id: opt_view(c.pending_docker_container_id),
        current_revision: c.current_revision,
    }
}

/// What one effect does to the record.
pub open spec fn after_effect(r: RecordView, e: EffectView) -> RecordView {
    match e {
        EffectView::Transition { to, .. } => RecordView { status: to, ..r },
        EffectView::ClearDockerContainerId => RecordView { docker_container_id: None, ..r },
        EffectView::SetDockerContainerId { docker_container_id } => RecordView {
            docker_container_id: Some(docker_container_id),
            ..r
        },
        EffectView::SetPendingDockerContainerId { docker_container_id } => RecordView {
            pending_docker_container_id: Some(docker_container_id),
            ..r
        },
        EffectView::PromotePendingToCurrent => RecordView {
            docker_container_id: r.pending_docker_container_id,
            pending_docker_container_id: None,
            ..r
        },
        EffectView::BumpCurrentRevision { revision } => RecordView {
            current_revision: revision,
            ..r
        },
        _ => r,
    }
}

/// What a list of effects, carried out in order, does to the record.
pub open spec fn after_effects(r: RecordView, es: Seq<EffectView>) -> RecordView
    decreases es.len(),
{
    if es.len() == 0 {
        r
    } else {
        after_effects(after_effect(r, es[0]), es.drop_first())
    }
}

/// Whether every transition in `es` starts from the status the record is in
/// when it is carried out, so the status log forms an unbroken chain.
pub open spec fn transitions_chain(r: RecordView, es: Seq<EffectView>) -> bool
    decreases es.len(),
{
    if es.len() == 0 {
        true
    } else {
        (match es[0] {
            EffectView::Transition { from, .. } => from == r.status,
            _ => true,
        }) && transitions_chain(after_effect(r, es[0]), es.drop_first())
    }
}

/// Stops and removes the Docker container, if there is one, and forgets it.
pub open spec fn teardown_view(docker: Option<Seq<char>>) -> Seq<EffectView> {
    match docker {
        Some(d) => seq![
            EffectView::StopAndRemove { docker_container_id: d },
            EffectView::ClearDockerContainerId,
        ],
        None => Seq::empty(),
    }
}

/// Removing: mark it removing, remove its Docker container if any, mark it
/// removed and delete its project.
pub open spec fn remove_view(c: Container) -> Seq<EffectView> {
    seq![EffectView::Transition { from: c.status, to: ContainerStatus::Removing, reason: None }]
        + match opt_view(c.docker_container_id) {
        Some(d) => seq![EffectView::StopAndRemove { docker_container_id: d }],
        None => Seq::empty(),
    } + seq![
        EffectView::Transition {
            from: ContainerStatus::Removing,
            to: ContainerStatus::Removed,
            reason: None,
        },
        EffectView::DeleteProject { project_id: c.project_id@ },
    ]
}

/// Stopping: mark it stopping, remove and forget its Docker container if
/// any, mark it stopped.
pub open spec fn stop_view(c: Container) -> Seq<EffectView> {
    seq![EffectView::Transition { from: c.status, to: ContainerStatus::Stopping, reason: None }]
        + teardown_view(opt_view(c.docker_container_id)) + seq![
        EffectView::Transition {
            from: ContainerStatus::Stopping,
            to: ContainerStatus::Stopped,
            reason: None,
        },
    ]
}

/// Deploying, up to the Docker call: mark it creating, then create and
/// start its Docker container.
pub open spec fn deploy_start_view(c: Container) -> Seq<EffectView> {
    seq![
        EffectView::Transition { from: c.status, to: ContainerStatus::Creating, reason: None },
        EffectView::CreateAndStart { name: docker_name(c.id@) },
    ]
}

/// Deploying, after the Docker call: on success remember the new Docker
/// container and revision and mark it running; on failure mark it failed
/// with the reason.
pub open spec fn deploy_finish_view(revision: i64, outcome: Result<Seq<char>, Seq<char>>) -> Seq<
    EffectView,
> {
    match outcome {
        Ok(id) => seq![
            EffectView::SetDockerContainerId { docker_container_id: id },
            EffectView::BumpCurrentRevision { revision },
            EffectView::Transition {
                from: ContainerStatus::Creating,
                to: ContainerStatus::Running,
                reason: None,
            },
        ],
        Err(m) => seq![
            EffectView::Transition {
                from: ContainerStatus::Creating,
                to: ContainerStatus::Failed,
                reason: Some(m),
            },
        ],
    }
}

/// Cutting over, up to the Docker call: mark it cutting over, remove and
/// forget the old Docker container if any, create and start the new one.
pub open spec fn cutover_start_view(c: Container) -> Seq<EffectView> {
    seq![EffectView::Transition { from: c.status, to: ContainerStatus::CuttingOver, reason: None }]
        + teardown_view(opt_view(c.docker_container_id)) + seq![
        EffectView::CreateAndStart { name: docker_name(c.id@) },
    ]
}

/// Cutting over, after the Docker call: on success the new Docker container
/// becomes current, the revision is recorded and it is marked running; on
/// failure it is marked failed with the reason.
pub open spec fn cutover_finish_view(revision: i64, outcome: Result<Seq<char>, Seq<char>>) -> Seq<
    EffectView,
> {
    match outcome {
        Ok(id) => seq![
            EffectView::SetPendingDockerContainerId { docker_container_id: id },
            EffectView::PromotePendingToCurrent,
            EffectView::BumpCurrentRevision { revision },
            EffectView::Transition {
                from: ContainerStatus::CuttingOver,
                to: ContainerStatus::Running,
                reason: None,
            },
        ],
        Err(m) => seq![
            EffectView::Transition {
                from: ContainerStatus::CuttingOver,
                to: ContainerStatus::Failed,
                reason: Some(m),
            },
        ],
    }
}

/// The outcome of a Docker call as plain values.
pub open spec fn outcome_view(o: Result<String, String>) -> Result<Seq<char>, Seq<char>> {
    match o {
        Ok(s) => Ok(s@),
        Err(s) => Err(s@),
    }
}

fn push_effect(v: &mut Vec<ContainerEffect>, e: ContainerEffect)
    ensures
        effects_view(final(v)@) == effects_view(old(v)@).push(e@),
{
    let ghost before = effects_view(v@);
    let ghost ev = e@;
    v.push(e);
    assert(effects_view(v@) =~= before.push(ev));
}

fn push_teardown(v: &mut Vec<ContainerEffect>, docker: &Option<String>)
    ensures
        effects_view(final(v)@) == effects_view(old(v)@) + teardown_view(opt_view(*docker)),
{
    let ghost before = effects_view(v@);
    match docker {
        Some(d) => {
            push_effect(v, ContainerEffect::StopAndRemove { docker_container_id: d.clone() });
            push_effect(v, ContainerEffect::ClearDockerContainerId);
        },
        None => {},
    }
    assert(effects_view(v@) =~= before + teardown_view(opt_view(*docker)));
}

/// The effects that remove `c`.
pub fn remove_effects(c: &Container) -> (v: Vec<ContainerEffect>)
    ensures
        effects_view(v@) == remove_view(*c),
{
    let mut v: Vec<ContainerEffect> = Vec::new();
    push_effect(
        &mut v,
        ContainerEffect::Transition { from: c.status, to: ContainerStatus::Removing, reason: None },
    );
    match &c.docker_container_id {
        Some(d) => {
            push_effect(&mut v, ContainerEffect::StopAndRemove { docker_container_id: d.clone() });
        },
        None => {},
    }
    push_effect(
        &mut v,
        ContainerEffect::Transition {
            from: ContainerStatus::Removing,
            to: ContainerStatus::Removed,
            reason: None,
        },
    );
    push_effect(&mut v, ContainerEffect::DeleteProject { project_id: c.project_id.clone() });
    assert(effects_view(v@) =~= remove_view(*c));
    v
}

/// The effects that stop `c`.
pub fn stop_effects(c: &Container) -> (v: Vec<ContainerEffect>)
    ensures
        effects_view(v@) == stop_view(*c),
{
    let mut v: Vec<ContainerEffect> = Vec::new();
    push_effect(
        &mut v,
        ContainerEffect::Transition { from: c.status, to: ContainerStatus::Stopping, reason: None },
    );
    push_teardown(&mut v, &c.docker_container_id);
    push_effect(
        &mut v,
        ContainerEffect::Transition {
            from: ContainerStatus::Stopping,
            to: ContainerStatus::Stopped,
            reason: None,
        },
    );
    assert(effects_view(v@) =~= stop_view(*c));
    v
}

/// The effects that deploy `c`, up to the Docker call.
pub fn deploy_start_effects(c: &Container) -> (v: Vec<ContainerEffect>)
    ensures
        effects_view(v@) == deploy_start_view(*c),
{
    let mut v: Vec<ContainerEffect> = Vec::new();
    push_effect(
        &mut v,
        ContainerEffect::Transition { from: c.status, to: ContainerStatus::Creating, reason: None },
    );
    push_effect(&mut v, ContainerEffect::CreateAndStart { name: docker_container_name(&c.id) });
    assert(effects_view(v@) =~= deploy_start_view(*c));
    v
}

/// The effects that finish a deploy of `revision`, given what creating the
/// Docker container gave: its identifier, or the reason it failed.
pub fn deploy_finish_effects(revision: i64, outcome: &Result<String, String>) -> (v: Vec<
    ContainerEffect,
>)
    ensures
        effects_view(v@) == deploy_finish_view(revision, outcome_view(*outcome)),
{
    let mut v: Vec<ContainerEffect> = Vec::new();
    match outcome {
        Ok(id) => {
            push_effect(
                &mut v,
                ContainerEffect::SetDockerContainerId { docker_container_id: id.clone() },
            );
            push_effect(&mut v, ContainerEffect::BumpCurrentRevision { revision });
            push_effect(
                &mut v,
                ContainerEffect::Transition {
                    from: ContainerStatus::Creating,
                    to: ContainerStatus::Running,
                    reason: None,
                },
            );
        },
        Err(m) => {
            push_effect(
                &mut v,
                ContainerEffect::Transition {
                    from: ContainerStatus::Creating,
                    to: ContainerStatus::Failed,
                    reason: Some(m.clone()),
                },
            );
        },
    }
    assert(effects_view(v@) =~= deploy_finish_view(revision, outcome_view(*outcome)));
    v
}

/// The effects that replace the Docker container of `c`, up to the Docker
/// call.
pub fn cutover_start_effects(c: &Container) -> (v: Vec<ContainerEffect>)
    ensures
        effects_view(v@) == cutover_start_view(*c),
{
    let mut v: Vec<ContainerEffect> = Vec::new();
    push_effect(
        &mut v,
        ContainerEffect::Transition {
            from: c.status,
            to: ContainerStatus::CuttingOver,
            reason: None,
        },
    );
    push_teardown(&mut v, &c.docker_container_id);
    push_effect(&mut v, ContainerEffect::CreateAndStart { name: docker_container_name(&c.id) });
    assert(effects_view(v@) =~= cutover_start_view(*c));
    v
}

/// The effects that finish a cutover to `revision`, given what creating the
/// new Docker container gave.
pub fn cutover_finish_effects(revision: i64, outcome: &Result<String, String>) -> (v: Vec<
    ContainerEffect,
>)
    ensures
        effects_view(v@) == cutover_finish_view(revision, outcome_view(*outcome)),
{
    let mut v: Vec<ContainerEffect> = Vec::new();
    match outcome {
        Ok(id) => {
            push_effect(
                &mut v,
                ContainerEffect::SetPendingDockerContainerId { docker_container_id: id.clone() },
            );
            push_effect(&mut v, ContainerEffect::PromotePendingToCurrent);
            push_effect(&mut v, ContainerEffect::BumpCurrentRevision { revision });
            push_effect(
                &mut v,
                ContainerEffect::Transition {
                    from: ContainerStatus::CuttingOver,
                    to: ContainerStatus::Running,
                    reason: None,
                },
            );
        },
        Err(m) => {
            push_effect(
                &mut v,
                ContainerEffect::Transition {
                    from: ContainerStatus::CuttingOver,
                    to: ContainerStatus::Failed,
                    reason: Some(m.clone()),
                },
            );
        },
    }
    assert(effects_view(v@) =~= cutover_finish_view(revision, outcome_view(*outcome)));
    v
}

} // verus!

verus! {

/// A container in the middle of a transition is never acted on, and one
/// that has reached what it is asked for is left alone (a running one is
/// only looked at for a newer revision).
pub proof fn law_transitional_and_converged_are_skipped(desired: DesiredState, has_docker: bool)
    ensures
        plan_for(desired, ContainerStatus::Creating, has_docker) == ReconcilePlan::Skip,
        plan_for(desired, ContainerStatus::Stopping, has_docker) == ReconcilePlan::Skip,
        plan_for(desired, ContainerStatus::Removing, has_docker) == ReconcilePlan::Skip,
        plan_for(desired, ContainerStatus::CuttingOver, has_docker) == ReconcilePlan::Skip,
        plan_for(DesiredState::Stopped, ContainerStatus::Stopped, has_docker) == ReconcilePlan::Skip,
        plan_for(DesiredState::Removed, ContainerStatus::Removed, has_docker) == ReconcilePlan::Skip,
        plan_for(DesiredState::Running, ContainerStatus::Running, has_docker) != ReconcilePlan::Deploy,
{
}

/// A deploy is only planned for a container asked to run that has no
/// Docker container, so a second one is never started beside it; a stop
/// only for one that has a Docker container.
pub proof fn law_deploy_never_doubles(desired: DesiredState, status: ContainerStatus, has_docker: bool)
    ensures
        plan_for(desired, status, has_docker) == ReconcilePlan::Deploy ==> !has_docker && desired
            == DesiredState::Running,
        plan_for(desired, status, has_docker) == ReconcilePlan::CheckForCutover ==> has_docker
            && status == ContainerStatus::Running,
        plan_for(desired, status, has_docker) == ReconcilePlan::Stop ==> has_docker && desired
            == DesiredState::Stopped,
        plan_for(desired, status, has_docker) == ReconcilePlan::Remove ==> desired
            == DesiredState::Removed,
{
}

/// A deploy that Docker accepts leaves the record running the new Docker
/// container at the deployed revision, with a status log that forms an
/// unbroken chain; one that Docker refuses leaves it failed, its Docker
/// container and revision untouched.
pub proof fn law_deploy_outcome(c: Container, revision: i64, outcome: Result<Seq<char>, Seq<char>>)
    ensures
        ({
            let es = deploy_start_view(c) + deploy_finish_view(revision, outcome);
            let r0 = record_of(c);
            let r = after_effects(r0, es);
            &&& transitions_chain(r0, es)
            &&& r.pending_docker_container_id == r0.pending_docker_container_id
            &&& match outcome {
                Ok(id) => r.status == ContainerStatus::Running && r.docker_container_id == Some(id)
                    && r.current_revision == revision,
                Err(_) => r.status == ContainerStatus::Failed && r.docker_container_id
                    == r0.docker_container_id && r.current_revision == r0.current_revision,
            }
        }),
{
    let es = deploy_start_view(c) + deploy_finish_view(revision, outcome);
    reveal_with_fuel(after_effects, 6);
    reveal_with_fuel(transitions_chain, 6);
    match outcome {
        Ok(id) => {
            assert(es =~= seq![
                EffectView::Transition { from: c.status, to: ContainerStatus::Creating, reason: None },
                EffectView::CreateAndStart { name: docker_name(c.id@) },
                EffectView::SetDockerContainerId { docker_container_id: id },
                EffectView::BumpCurrentRevision { revision },
                EffectView::Transition {
                    from: ContainerStatus::Creating,
                    to: ContainerStatus::Running,
                    reason: None,
                },
            ]);
        },
        Err(m) => {
            assert(es =~= seq![
                EffectView::Transition { from: c.status, to: ContainerStatus::Creating, reason: None },
                EffectView::CreateAndStart { name: docker_name(c.id@) },
                EffectView::Transition {
                    from: ContainerStatus::Creating,
                    to: ContainerStatus::Failed,
                    reason: Some(m),
                },
            ]);
        },
    }
}

/// A cutover that Docker accepts leaves the record running the new Docker
/// container, with nothing pending, at the new revision; one that Docker
/// refuses leaves it failed at its old revision, with the old Docker
/// container gone.  Either way the status log forms an unbroken chain.
pub proof fn law_cutover_outcome(c: Container, revision: i64, outcome: Result<Seq<char>, Seq<char>>)
    ensures
        ({
            let es = cutover_start_view(c) + cutover_finish_view(revision, outcome);
            let r0 = record_of(c);
            let r = after_effects(r0, es);
            &&& transitions_chain(r0, es)
            &&& match outcome {
                Ok(id) => r.status == ContainerStatus::Running && r.docker_container_id == Some(id)
                    && r.pending_docker_container_id is None && r.current_revision == revision,
                Err(_) => r.status == ContainerStatus::Failed && r.docker_container_id is None
                    && r.current_revision == r0.current_revision,
            }
        }),
{
    let es = cutover_start_view(c) + cutover_finish_view(revision, outcome);
    reveal_with_fuel(after_effects, 10);
    reveal_with_fuel(transitions_chain, 10);
    let t0 = EffectView::Transition { from: c.status, to: ContainerStatus::CuttingOver, reason: None };
    let cs = EffectView::CreateAndStart { name: docker_name(c.id@) };
    let fin = cutover_finish_view(revision, outcome);
    match opt_view(c.docker_container_id) {
        Some(d) => {
            let sr = EffectView::StopAndRemove { docker_container_id: d };
            match outcome {
                Ok(id) => {
                    assert(es =~= seq![t0, sr, EffectView::ClearDockerContainerId, cs, fin[0], fin[1], fin[2], fin[3]]);
                },
                Err(m) => {
                    assert(es =~= seq![t0, sr, EffectView::ClearDockerContainerId, cs, fin[0]]);
                },
            }
        },
        None => {
            match outcome {
                Ok(id) => {
                    assert(es =~= seq![t0, cs, fin[0], fin[1], fin[2], fin[3]]);
                },
                Err(m) => {
                    assert(es =~= seq![t0, cs, fin[0]]);
                },
            }
        },
    }
}

/// Stopping leaves the record stopped with no Docker container; removing
/// leaves it removed.  Both log an unbroken chain.
pub proof fn law_stop_and_remove(c: Container)
    ensures
        after_effects(record_of(c), stop_view(c)).status == ContainerStatus::Stopped,
        after_effects(record_of(c), stop_view(c)).docker_container_id is None,
        after_effects(record_of(c), stop_view(c)).current_revision == c.current_revision,
        transitions_chain(record_of(c), stop_view(c)),
        after_effects(record_of(c), remove_view(c)).status == ContainerStatus::Removed,
        transitions_chain(record_of(c), remove_view(c)),
{
    reveal_with_fuel(after_effects, 5);
    reveal_with_fuel(transitions_chain, 5);
    let t0 = EffectView::Transition { from: c.status, to: ContainerStatus::Stopping, reason: None };
    let t1 = EffectView::Transition {
        from: ContainerStatus::Stopping,
        to: ContainerStatus::Stopped,
        reason: None,
    };
    let r0 = EffectView::Transition { from: c.status, to: ContainerStatus::Removing, reason: None };
    let r1 = EffectView::Transition {
        from: ContainerStatus::Removing,
        to: ContainerStatus::Removed,
        reason: None,
    };
    let dp = EffectView::DeleteProject { project_id: c.project_id@ };
    match opt_view(c.docker_container_id) {
        Some(d) => {
            let sr = EffectView::StopAndRemove { docker_container_id: d };
            assert(stop_view(c) =~= seq![t0, sr, EffectView::ClearDockerContainerId, t1]);
            assert(remove_view(c) =~= seq![r0, sr, r1, dp]);
        },
        None => {
            assert(stop_view(c) =~= seq![t0, t1]);
            assert(remove_view(c) =~= seq![r0, r1, dp]);
        },
    }
}

} // verus!

verus! {

/// The container port and host port of a revision's port mapping.
pub open spec fn ports_of(port: Option<PortMapping>) -> (Option<u16>, Option<u16>) {
    match port {
        Some(p) => (Some(p.container_port), p.host_port),
        None => (None, None),
    }
}

/// The container port and host port of a revision's port mapping.
pub fn spec_ports(port: &Option<PortMapping>) -> (r: (Option<u16>, Option<u16>))
    ensures
        r == ports_of(*port),
{
    match port {
        Some(p) => (Some(p.container_port), p.host_port),
        None => (None, None),
    }
}

/// The `NAME=value` assignment of an environment variable.
pub fn env_assignment(name: &str, value: &str) -> (s: String)
    ensures
        s@ == name@ + "="@ + value@,
{
    concat3(name, "=", value)
}

} // verus!

verus! {

/// Every container away from what it is asked for gets a step towards it:
/// one asked to run with no Docker container is deployed, whether it is
/// new, was stopped or failed; one running is checked for a newer
/// revision; one asked to stop that runs or failed with a Docker container
/// is stopped; and one asked to be removed that is settled is removed,
/// with or without a Docker container.
pub proof fn law_reconcile_makes_progress(status: ContainerStatus, has_docker: bool)
    ensures
        status == ContainerStatus::Pending || status == ContainerStatus::Stopped || status
            == ContainerStatus::Failed ==> plan_for(DesiredState::Running, status, false)
            == ReconcilePlan::Deploy,
        plan_for(DesiredState::Running, ContainerStatus::Running, true)
            == ReconcilePlan::CheckForCutover,
        status == ContainerStatus::Running || status == ContainerStatus::Failed ==> plan_for(
            DesiredState::Stopped,
            status,
            true,
        ) == ReconcilePlan::Stop,
        status == ContainerStatus::Running || status == ContainerStatus::Failed || status
            == ContainerStatus::Stopped || status == ContainerStatus::Pending ==> plan_for(
            DesiredState::Removed,
            status,
            has_docker,
        ) == ReconcilePlan::Remove,
{
}

} // verus!
