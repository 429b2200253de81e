use vstd::prelude::*;
use vstd::string::*;

use crate::errors::{AppError, ErrorView};
use crate::middleware::{missing_message, RequestContext};
use crate::models::User;

verus! {

/// The kinds of resource that carry an owner.
#[derive(Debug, Clone, Copy, PartialEq, Eq, Structural)]
pub enum Resource {
    Post,
    Comment,
}

/// The writes a protected handler performs.
#[derive(Debug, Clone, Copy, PartialEq, Eq, Structural)]
pub enum Mutation {
    Create,
    Update,
    Delete,
}

/// Where a protected write stands.
#[derive(Debug, Clone, Copy, PartialEq, Eq, Structural)]
pub enum Stage {
    /// Waiting for the user row of the verified subject.
    ResolvingUser,
    /// Waiting for the owner of the resource; the acting user is known.
    CheckingOwner { user_id: i64 },
    /// The write was issued on behalf of the user.
    Writing { user_id: i64 },
    /// A response was decided; nothing more happens.
    Done,
}

/// What the store reported back.
pub enum Event {
    /// The user row found under the subject's name, if any.
    UserFound(Option<User>),
    /// The owner id of the resource, if the resource exists.
    OwnerFound(Option<i64>),
    /// How many rows the write touched.
    Written { rows_affected: u64 },
}

/// What the store is asked to do next, or the response.
#[derive(Debug, Clone)]
pub enum Action {
    /// Look up the user row of this name.
    LoadUser { username: String },
    /// Look up the owner of the resource the request names.
    LoadOwner,
    /// Perform the write, on behalf of (and, for a creation, owned by) this user.
    Write { user_id: i64 },
    /// Answer with this success status.
    Respond { status: u16 },
    /// Answer with this failure.
    Fail(AppError),
}

/// An event as plain values; a found user is known by its id.
pub enum EventView {
    UserFound(Option<i64>),
    OwnerFound(Option<i64>),
    Written(u64),
}

/// An action as plain values.
pub enum ActionView {
    LoadUser(Seq<char>),
    LoadOwner,
    Write(i64),
    Respond(u16),
    Fail(ErrorView),
}

impl View for Event {
    type V = EventView;

    open spec fn view(&self) -> EventView {
        match self {
            Event::UserFound(Some(u)) => EventView::UserFound(Some(u.id)),
            Event::UserFound(None) => EventView::UserFound(None),
            Event::OwnerFound(o) => EventView::OwnerFound(*o),
            Event::Written { rows_affected } => EventView::Written(*rows_affected),
        }
    }
}

impl View for Action {
    type V = ActionView;

    open spec fn view(&self) -> ActionView {
        match self {
            Action::LoadUser { username } => ActionView::LoadUser(username@),
            Action::LoadOwner => ActionView::LoadOwner,
            Action::Write { user_id } => ActionView::Write(*user_id),
            Action::Respond { status } => ActionView::Respond(*status),
            Action::Fail(e) => ActionView::Fail(e@),
        }
    }
}

/// Message for a verified subject that has no user row any more.
pub open spec fn unknown_user_message() -> Seq<char> {
    "User no longer exists"@
}

/// Message for an event that the current stage does not expect.
pub open spec fn out_of_order_message() -> Seq<char> {
    "unexpected store reply"@
}

pub open spec fn resource_name(r: Resource) -> Seq<char> {
    match r {
        Resource::Post => "Post"@,
        Resource::Comment => "Comment"@,
    }
}

/// Message for a write by someone who does not own the resource.
pub open spec fn forbidden_message(r: Resource, m: Mutation) -> Seq<char> {
    match (r, m) {
        (Resource::Post, Mutation::Delete) => "无权限删除此文章"@,
        (Resource::Post, _) => "无权限修改此文章"@,
        (Resource::Comment, Mutation::Delete) => "无权限删除此评论"@,
        (Resource::Comment, _) => "无权限修改此评论"@,
    }
}

/// Message for a resource that is not there.
pub open spec fn missing_resource_message(r: Resource) -> Seq<char> {
    resource_name(r) + " not found"@
}

/// Success status of a completed write.
pub open spec fn success_status(m: Mutation) -> u16 {
    match m {
        Mutation::Create => 201,
        Mutation::Update => 200,
        Mutation::Delete => 204,
    }
}

/// One step of a protected write: from a stage and a reply of the store, the next stage and
/// action. Ownership is checked after the resource is fetched and before any write; a write
/// that touched no row means the resource went away in between.
pub open spec fn transition(r: Resource, m: Mutation, stage: Stage, e: EventView) -> (Stage, ActionView) {
    match (stage, e) {
        (Stage::ResolvingUser, EventView::UserFound(None)) =>
            (Stage::Done, ActionView::Fail(ErrorView::Authentication(unknown_user_message()))),
        (Stage::ResolvingUser, EventView::UserFound(Some(id))) =>
            if m == Mutation::Create {
                (Stage::Writing { user_id: id }, ActionView::Write(id))
            } else {
                (Stage::CheckingOwner { user_id: id }, ActionView::LoadOwner)
            },
        (Stage::CheckingOwner { user_id }, EventView::OwnerFound(None)) =>
            (Stage::Done, ActionView::Fail(ErrorView::NotFound(missing_resource_message(r)))),
        (Stage::CheckingOwner { user_id }, EventView::OwnerFound(Some(owner))) =>
            if owner == user_id {
                (Stage::Writing { user_id }, ActionView::Write(user_id))
            } else {
                (Stage::Done, ActionView::Fail(ErrorView::Authorization(forbidden_message(r, m))))
            },
        (Stage::Writing { user_id }, EventView::Written(rows)) =>
            if m == Mutation::Create || rows > 0 {
                (Stage::Done, ActionView::Respond(success_status(m)))
            } else {
                (Stage::Done, ActionView::Fail(ErrorView::NotFound(missing_resource_message(r))))
            },
        _ => (Stage::Done, ActionView::Fail(ErrorView::Internal(out_of_order_message()))),
    }
}

/// The actions a run of replies draws from a stage.
pub open spec fn run(r: Resource, m: Mutation, stage: Stage, events: Seq<EventView>) -> Seq<ActionView>
    decreases events.len(),
{
    if events.len() == 0 {
        Seq::empty()
    } else {
        let (next, a) = transition(r, m, stage, events[0]);
        seq![a] + run(r, m, next, events.drop_first())
    }
}

/// Whether an action asks the store for the owner or changes the store.
pub open spec fn reaches_guard_or_write(a: ActionView) -> bool {
    a is LoadOwner || a is Write
}

/// The first stage and action of a write, from what the authentication check verified.
pub open spec fn opening(ctx_identity: Option<Seq<char>>) -> (Stage, ActionView) {
    match ctx_identity {
        None => (Stage::Done, ActionView::Fail(ErrorView::Authentication(missing_message()))),
        Some(sub) => (Stage::ResolvingUser, ActionView::LoadUser(sub)),
    }
}

pub open spec fn identity_of(ctx: RequestContext) -> Option<Seq<char>> {
    match ctx.identity {
        Some(c) => Some(c.sub@),
        None => None,
    }
}

/// A protected write in progress.
pub struct MutationFlow {
    pub resource: Resource,
    pub mutation: Mutation,
    pub stage: Stage,
}

fn resource_text(r: Resource) -> (t: &'static str)
    ensures
        t@ == resource_name(r),
{
    match r {
        Resource::Post => "Post",
        Resource::Comment => "Comment",
    }
}

fn forbidden_text(r: Resource, m: Mutation) -> (t: &'static str)
    ensures
        t@ == forbidden_message(r, m),
{
    match (r, m) {
        (Resource::Post, Mutation::Delete) => "无权限删除此文章",
        (Resource::Post, _) => "无权限修改此文章",
        (Resource::Comment, Mutation::Delete) => "无权限删除此评论",
        (Resource::Comment, _) => "无权限修改此评论",
    }
}

fn missing_resource(r: Resource) -> (e: AppError)
    ensures
        e@ == ErrorView::NotFound(missing_resource_message(r)),
{
    AppError::NotFound { message: resource_text(r).to_owned().concat(" not found") }
}

impl MutationFlow {
    /// Opens a write from the request context: without a verified identity it ends at once
    /// as an authentication failure; otherwise the subject's user row is asked for.
    pub fn start(resource: Resource, mutation: Mutation, ctx: &RequestContext) -> (r: (MutationFlow, Action))
        ensures
            r.0.resource == resource,
            r.0.mutation == mutation,
            (r.0.stage, r.1@) == opening(identity_of(*ctx)),
    {
        match &ctx.identity {
            None => (
                MutationFlow { resource, mutation, stage: Stage::Done },
                Action::Fail(AppError::authentication("Missing Authorization header")),
            ),
            Some(c) => (
                MutationFlow { resource, mutation, stage: Stage::ResolvingUser },
                Action::LoadUser { username: c.sub.clone() },
            ),
        }
    }

    /// Advances the write by one reply of the store.
    pub fn step(&mut self, event: Event) -> (a: Action)
        ensures
            final(self).resource == old(self).resource,
            final(self).mutation == old(self).mutation,
            (final(self).stage, a@) == transition(old(self).resource, old(self).mutation, old(self).stage, event@),
    {
        let r = self.resource;
        let m = self.mutation;
        match (self.stage, event) {
            (Stage::ResolvingUser, Event::UserFound(None)) => {
                self.stage = Stage::Done;
                Action::Fail(AppError::authentication("User no longer exists"))
            },
            (Stage::ResolvingUser, Event::UserFound(Some(u))) => {
                if m == Mutation::Create {
                    self.stage = Stage::Writing { user_id: u.id };
                    Action::Write { user_id: u.id }
                } else {
                    self.stage = Stage::CheckingOwner { user_id: u.id };
                    Action::LoadOwner
                }
            },
            (Stage::CheckingOwner { user_id }, Event::OwnerFound(None)) => {
                self.stage = Stage::Done;
                Action::Fail(missing_resource(r))
            },
            (Stage::CheckingOwner { user_id }, Event::OwnerFound(Some(owner))) => {
                if owner == user_id {
                    self.stage = Stage::Writing { user_id };
                    Action::Write { user_id }
                } else {
                    self.stage = Stage::Done;
                    Action::Fail(AppError::authorization(forbidden_text(r, m)))
                }
            },
            (Stage::Writing { user_id }, Event::Written { rows_affected }) => {
                self.stage = Stage::Done;
                if m == Mutation::Create || rows_affected > 0 {
                    let status: u16 = match m {
                        Mutation::Create => 201,
                        Mutation::Update => 200,
                        Mutation::Delete => 204,
                    };
                    Action::Respond { status }
                } else {
                    Action::Fail(missing_resource(r))
                }
            },
            _ => {
                self.stage = Stage::Done;
                Action::Fail(AppError::internal("unexpected store reply"))
            },
        }
    }
}

/// A run draws one action per reply.
pub proof fn lemma_run_len(r: Resource, m: Mutation, stage: Stage, events: Seq<EventView>)
    ensures
        run(r, m, stage, events).len() == events.len(),
    decreases events.len(),
{
    if events.len() > 0 {
        let (next, a) = transition(r, m, stage, events[0]);
        lemma_run_len(r, m, next, events.drop_first());
    }
}

/// Once a response is decided, no reply of the store leads to an owner lookup or a write.
pub proof fn lemma_done_is_final(r: Resource, m: Mutation, events: Seq<EventView>)
    ensures
        forall|i: int| 0 <= i < events.len() ==> !reaches_guard_or_write(#[trigger] run(r, m, Stage::Done, events)[i]),
    decreases events.len(),
{
    if events.len() > 0 {
        lemma_done_is_final(r, m, events.drop_first());
        lemma_run_len(r, m, Stage::Done, events.drop_first());
        let (next, a) = transition(r, m, Stage::Done, events[0]);
        let rest = run(r, m, Stage::Done, events.drop_first());
        let whole = run(r, m, Stage::Done, events);
        assert(next == Stage::Done);
        assert(whole == seq![a] + rest);
        assert forall|i: int| 0 <= i < events.len() implies !reaches_guard_or_write(#[trigger] run(r, m, Stage::Done, events)[i]) by {
            if i > 0 {
                assert(whole[i] == rest[i - 1]);
            }
        }
    }
}

/// A write that reaches its handler without a verified identity fails as an authentication
/// failure, and whatever the store reports afterwards, neither the ownership check nor any
/// write is ever reached.
pub proof fn lemma_unauthenticated_never_writes(r: Resource, m: Mutation, events: Seq<EventView>)
    ensures
        opening(None).1 == ActionView::Fail(ErrorView::Authentication(missing_message())),
        forall|i: int| 0 <= i < events.len() ==> !reaches_guard_or_write(#[trigger] run(r, m, opening(None).0, events)[i]),
{
    lemma_done_is_final(r, m, events);
}

/// A user who does not own a resource cannot update or delete it: the ownership check
/// fails as an authorization failure, and no write follows, whatever the store reports next.
pub proof fn lemma_non_owner_forbidden(r: Resource, m: Mutation, user_id: i64, owner: i64, rest: Seq<EventView>)
    requires
        m != Mutation::Create,
        owner != user_id,
    ensures
        ({
            let actions = run(r, m, Stage::CheckingOwner { user_id }, seq![EventView::OwnerFound(Some(owner))] + rest);
            &&& actions[0] == ActionView::Fail(ErrorView::Authorization(forbidden_message(r, m)))
            &&& forall|i: int| 0 <= i < actions.len() ==> !(#[trigger] actions[i] is Write)
        }),
{
    let evs = seq![EventView::OwnerFound(Some(owner))] + rest;
    assert(evs.drop_first() =~= rest);
    lemma_done_is_final(r, m, rest);
    lemma_run_len(r, m, Stage::Done, rest);
    let actions = run(r, m, Stage::CheckingOwner { user_id }, evs);
    let tail = run(r, m, Stage::Done, rest);
    assert(actions == seq![ActionView::Fail(ErrorView::Authorization(forbidden_message(r, m)))] + tail);
    assert forall|i: int| 0 <= i < actions.len() implies !(#[trigger] actions[i] is Write) by {
        if i > 0 {
            assert(actions[i] == tail[i - 1]);
            assert(!reaches_guard_or_write(tail[i - 1]));
        }
    }
}

} // verus!
