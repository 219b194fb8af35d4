//! The fashion service. Each of its operations is a run of requests to a fashion
//! repository; the service decides, from what the repository answered, which
//! request comes next and what the operation gives back. Whoever holds the
//! repository performs the requests and hands back the replies.
use vstd::prelude::*;
use std::sync::Arc;
use crate::fashion::{
    clone_tags, opt_character, opt_text, patched_view, tag_texts, Fashion, FashionIdentifier, FashionView,
};
use crate::names::TagName;

verus! {

/// Why an operation of the service failed.
#[derive(Debug)]
pub enum Error<E> {
    /// The repository gave back a fashion without an id.
    MissingFashionId,
    /// The repository failed with `E`.
    Repository(E),
}

impl<E> Error<E> {
    /// What the error says of itself; a repository error speaks for itself.
    pub open spec fn spec_message(&self) -> Option<Seq<char>> {
        match self {
            Error::MissingFashionId => Some("Fashion template has no id"@),
            Error::Repository(_) => None,
        }
    }

    /// What the error says of itself; `None` for a repository error, whose own
    /// message is the one to show.
    pub fn message(&self) -> (r: Option<&'static str>)
        ensures
            match r {
                Some(m) => self.spec_message() == Some(m@),
                None => self.spec_message() is None,
            },
    {
        match self {
            Error::MissingFashionId => Some("Fashion template has no id"),
            Error::Repository(_) => None,
        }
    }
}

/// The fashion service, over a repository of fashions.
pub struct Service<R> {
    fashion_repo: Arc<R>,
}

impl<R> Service<R> {
    pub closed spec fn spec_repository(&self) -> Arc<R> {
        self.fashion_repo
    }

    /// The service over `fashion_repo`.
    pub fn new(fashion_repo: Arc<R>) -> (r: Self)
        ensures
            r.spec_repository() == fashion_repo,
    {
        Service { fashion_repo }
    }

    /// The repository that the requests of the service go to.
    pub fn repository(&self) -> (r: &Arc<R>)
        ensures
            *r == self.spec_repository(),
    {
        &self.fashion_repo
    }
}

/// A request to the fashion repository.
#[derive(Debug)]
pub enum Request {
    /// Store a new fashion; the repository answers with the stored fashion.
    InsertFashion(Fashion),
    /// Store a fashion over the one with its id; answered with the stored fashion.
    UpdateFashion(Fashion),
    /// The fashion with this name (and character, where given).
    GetFashionByName { name: String, character: Option<String> },
    /// The fashion with this id.
    GetFashionById(uuid::Uuid),
    /// The tags of the fashion with this id.
    GetFashionTags(uuid::Uuid),
    /// Take every tag off the fashion with this id; answered with `Done`.
    RemoveAllFashionTags(uuid::Uuid),
    /// Tag the fashion with this id with these tags; answered with `Done`.
    EnsureFashionTags(uuid::Uuid, Vec<TagName>),
}

/// A request, as values.
pub enum RequestView {
    InsertFashion(FashionView),
    UpdateFashion(FashionView),
    GetFashionByName(Seq<char>, Option<Seq<char>>),
    GetFashionById(uuid::Uuid),
    GetFashionTags(uuid::Uuid),
    RemoveAllFashionTags(uuid::Uuid),
    EnsureFashionTags(uuid::Uuid, Seq<Seq<char>>),
}

impl View for Request {
    type V = RequestView;

    open spec fn view(&self) -> RequestView {
        match self {
            Request::InsertFashion(f) => RequestView::InsertFashion(f@),
            Request::UpdateFashion(f) => RequestView::UpdateFashion(f@),
            Request::GetFashionByName { name, character } => RequestView::GetFashionByName(
                name@,
                opt_text(*character),
            ),
            Request::GetFashionById(id) => RequestView::GetFashionById(*id),
            Request::GetFashionTags(id) => RequestView::GetFashionTags(*id),
            Request::RemoveAllFashionTags(id) => RequestView::RemoveAllFashionTags(*id),
            Request::EnsureFashionTags(id, tags) => RequestView::EnsureFashionTags(
                *id,
                tag_texts(tags@),
            ),
        }
    }
}

/// What the repository answered to a request.
#[derive(Debug)]
pub enum Reply {
    Fashion(Fashion),
    Tags(Vec<TagName>),
    Done,
}

/// What an operation gives back.
#[derive(Debug)]
pub enum Answer {
    Fashion(Fashion),
    Id(uuid::Uuid),
}

/// What follows once a fashion has been found and its tags read.
#[derive(Debug)]
pub enum Then {
    /// Give the fashion back.
    Return,
    /// Give its id back.
    ResolveId,
    /// Store this fashion under the id found.
    Replace(Fashion),
    /// Patch the fashion found with this one, and store the result.
    Patch(Fashion),
}

/// Where an operation stands: which reply it waits for, and what it keeps.
#[derive(Debug)]
pub enum Op {
    /// Waits for the fashion stored from this one.
    Inserting(Fashion),
    /// Waits for the fashion named by the identifier.
    Finding(FashionIdentifier, Then),
    /// Waits for the tags of this fashion, whose id is given.
    ReadingTags(Fashion, uuid::Uuid, Then),
    /// Waits for `stored` to be stored; then `tags` go on the fashion (after
    /// taking its tags off when `untag` is set), and it is given back with
    /// `answer_tags` as its tags.
    Updating { stored: Fashion, tags: Vec<TagName>, answer_tags: Vec<TagName>, untag: bool },
    /// Waits for the tags of `id` to be taken off; then `tags` go on it.
    Untagging { id: uuid::Uuid, tags: Vec<TagName>, answer: Fashion },
    /// Waits for `tags` to go on `id`; then `answer` is given back.
    Tagging { id: uuid::Uuid, tags: Vec<TagName>, answer: Fashion },
}

/// What comes next in an operation: a request to perform, with the state that waits
/// for its reply, or the end of the operation.
#[derive(Debug)]
pub enum Next<E> {
    Ask(Op, Request),
    Finish(Result<Answer, Error<E>>),
}

/// The request that finds the fashion `identifier` names.
pub open spec fn finding(identifier: FashionIdentifier) -> RequestView {
    match identifier {
        FashionIdentifier::Id(id) => RequestView::GetFashionById(id),
        FashionIdentifier::NameAndCharacter { name, character } => RequestView::GetFashionByName(
            name@,
            opt_text(character),
        ),
    }
}

/// The request that `op` waits on.
pub open spec fn pending(op: Op) -> RequestView {
    match op {
        Op::Inserting(f) => RequestView::InsertFashion(f@),
        Op::Finding(identifier, _) => finding(identifier),
        Op::ReadingTags(_, id, _) => RequestView::GetFashionTags(id),
        Op::Updating { stored, .. } => RequestView::UpdateFashion(stored@),
        Op::Untagging { id, .. } => RequestView::RemoveAllFashionTags(id),
        Op::Tagging { id, tags, .. } => RequestView::EnsureFashionTags(id, tag_texts(tags@)),
    }
}

/// Every request asked is the one that its state waits on.
pub open spec fn asks_pending<E>(next: Next<E>) -> bool {
    next matches Next::Ask(op, q) ==> q@ == pending(op)
}

/// The state that stores `fashion` under `id` and then puts its tags back on it,
/// after taking the old ones off.
pub open spec fn setting(fashion: Fashion, id: uuid::Uuid, op: Op) -> bool {
    op matches Op::Updating { stored, tags, answer_tags, untag } && stored == (Fashion {
        id: Some(id),
        ..fashion
    }) && tag_texts(tags@) == tag_texts(fashion.tags@) && tag_texts(answer_tags@) == tag_texts(
        fashion.tags@,
    ) && untag
}

/// The fashion `f` with the texts `tags` as its tags.
pub open spec fn with_tag_texts(f: FashionView, tags: Seq<Seq<char>>) -> FashionView {
    FashionView { tags, ..f }
}

/// What answering `op` with `reply` leads to. A reply of the wrong kind for the
/// pending request leaves the state as it was and asks the request again.
pub open spec fn stepped<E>(op: Op, reply: Reply, next: Next<E>) -> bool {
    match (op, reply) {
        (Op::Inserting(requested), Reply::Fashion(created)) => match created.id {
            None => next == Next::<E>::Finish(Err(Error::MissingFashionId)),
            Some(id) => next matches Next::Ask(Op::Tagging { id: i, tags, answer }, _) && i == id
                && tags == requested.tags && answer@ == with_tag_texts(
                created@,
                tag_texts(created.tags@) + tag_texts(requested.tags@),
            ),
        },
        (Op::Finding(_, then), Reply::Fashion(found)) => match found.id {
            None => next == Next::<E>::Finish(Err(Error::MissingFashionId)),
            Some(id) => next matches Next::Ask(o, _) && o == Op::ReadingTags(found, id, then),
        },
        (Op::ReadingTags(found, id, then), Reply::Tags(tags)) => {
            let f = Fashion { tags, ..found };
            match then {
                Then::Return => next == Next::<E>::Finish(Ok(Answer::Fashion(f))),
                Then::ResolveId => next == Next::<E>::Finish(Ok(Answer::Id(id))),
                Then::Replace(requested) => next matches Next::Ask(o, _) && setting(requested, id, o),
                Then::Patch(requested) => next matches Next::Ask(
                    Op::Updating { stored, tags: t, answer_tags, untag },
                    _,
                ) && stored@ == patched_view(f@, requested@) && tag_texts(t@) == tag_texts(
                    requested.tags@,
                ) && tag_texts(answer_tags@) == stored@.tags && !untag,
            }
        },
        (Op::Updating { stored: _, tags, answer_tags, untag }, Reply::Fashion(updated)) => match updated.id {
            None => next == Next::<E>::Finish(Err(Error::MissingFashionId)),
            Some(id) => {
                let answer = Fashion { tags: answer_tags, ..updated };
                next matches Next::Ask(o, _) && o == (if untag {
                    Op::Untagging { id, tags, answer }
                } else {
                    Op::Tagging { id, tags, answer }
                })
            },
        },
        (Op::Untagging { id, tags, answer }, Reply::Done) => next matches Next::Ask(o, _) && o
            == Op::Tagging { id, tags, answer },
        (Op::Tagging { id: _, tags: _, answer }, Reply::Done) => next == Next::<E>::Finish(
            Ok(Answer::Fashion(answer)),
        ),
        (op, _) => next matches Next::Ask(o, _) && o == op,
    }
}

/// Whether `reply` is of the kind that `request` is answered with: a fashion for a
/// request that stores or finds one, tags for a request of tags, `Done` otherwise.
pub open spec fn answers(request: RequestView, reply: Reply) -> bool {
    match request {
        RequestView::InsertFashion(_) | RequestView::UpdateFashion(_)
        | RequestView::GetFashionByName(..) | RequestView::GetFashionById(_) => reply is Fashion,
        RequestView::GetFashionTags(_) => reply is Tags,
        RequestView::RemoveAllFashionTags(_) | RequestView::EnsureFashionTags(..) => reply is Done,
    }
}

/// The most requests an operation in state `op` still makes, when each is answered.
pub open spec fn steps_left(op: Op) -> nat {
    match op {
        Op::Tagging { .. } => 1,
        Op::Untagging { .. } => 2,
        Op::Updating { .. } => 3,
        Op::Inserting(_) => 2,
        Op::ReadingTags(_, _, then) => after_reading(then),
        Op::Finding(_, then) => after_reading(then) + 1,
    }
}

/// The most requests made from reading the tags of a found fashion on.
pub open spec fn after_reading(then: Then) -> nat {
    match then {
        Then::Return | Then::ResolveId => 1,
        Then::Replace(_) | Then::Patch(_) => 4,
    }
}

/// A reply of the kind that the pending request calls for moves an operation on: it
/// ends, or it waits in a state with fewer requests left. An operation starts with
/// at most five requests left, so against a repository that answers each request,
/// every operation ends after at most five of them.
pub proof fn law_step_progress<E>(op: Op, reply: Reply, next: Next<E>)
    requires
        answers(pending(op), reply),
        stepped(op, reply, next),
    ensures
        next matches Next::Ask(o, _) ==> steps_left(o) < steps_left(op),
        steps_left(op) <= 5,
{
}

/// `base` followed by `more`.
fn appended_tags(base: Vec<TagName>, more: &Vec<TagName>) -> (r: Vec<TagName>)
    ensures
        tag_texts(r@) == tag_texts(base@) + tag_texts(more@),
{
    let mut r = base;
    let ghost start = tag_texts(r@);
    let mut i: usize = 0;
    while i < more.len()
        invariant
            i <= more@.len(),
            tag_texts(r@) == start + tag_texts(more@).subrange(0, i as int),
        decreases more@.len() - i,
    {
        let ghost before = r@;
        r.push(more[i].clone());
        proof {
            assert(tag_texts(r@) =~= tag_texts(before).push(more@[i as int]@));
            assert(tag_texts(more@).subrange(0, i + 1) =~= tag_texts(more@).subrange(
                0,
                i as int,
            ).push(more@[i as int]@));
        }
        i = i + 1;
    }
    assert(tag_texts(more@).subrange(0, more@.len() as int) =~= tag_texts(more@));
    r
}

fn clone_opt_text(o: &Option<String>) -> (r: Option<String>)
    ensures
        opt_text(r) == opt_text(*o),
{
    match o {
        Some(s) => Some(s.clone()),
        None => None,
    }
}

impl Op {
    /// The request this state waits on.
    pub fn request(&self) -> (r: Request)
        ensures
            r@ == pending(*self),
    {
        match self {
            Op::Inserting(f) => Request::InsertFashion(f.clone()),
            Op::Finding(identifier, _) => match identifier {
                FashionIdentifier::Id(id) => Request::GetFashionById(*id),
                FashionIdentifier::NameAndCharacter { name, character } => {
                    Request::GetFashionByName {
                        name: name.clone(),
                        character: clone_opt_text(character),
                    }
                },
            },
            Op::ReadingTags(_, id, _) => Request::GetFashionTags(*id),
            Op::Updating { stored, .. } => Request::UpdateFashion(stored.clone()),
            Op::Untagging { id, .. } => Request::RemoveAllFashionTags(*id),
            Op::Tagging { id, tags, .. } => Request::EnsureFashionTags(*id, clone_tags(tags)),
        }
    }

    fn ask<E>(self) -> (r: Next<E>)
        ensures
            r matches Next::Ask(o, q) && o == self && q@ == pending(self),
    {
        let q = self.request();
        Next::Ask(self, q)
    }

    /// `create`: store `fashion`, then put its tags on the stored fashion, which is
    /// given back with them added to its own.
    pub fn create<E>(fashion: Fashion) -> (r: Next<E>)
        ensures
            asks_pending(r),
            r matches Next::Ask(o, _) && o == Op::Inserting(fashion),
    {
        Op::Inserting(fashion).ask()
    }

    /// `get`: the fashion `identifier` names, with its tags.
    pub fn get<E>(identifier: FashionIdentifier) -> (r: Next<E>)
        ensures
            asks_pending(r),
            r matches Next::Ask(o, _) && o == Op::Finding(identifier, Then::Return),
    {
        Op::Finding(identifier, Then::Return).ask()
    }

    /// The tags of a fashion the repository gave: asked by the fashion's id, which it
    /// must have.
    pub fn retrieve_tags<E>(fashion: Fashion) -> (r: Next<E>)
        ensures
            asks_pending(r),
            match fashion.id {
                None => r == Next::<E>::Finish(Err(Error::MissingFashionId)),
                Some(id) => r matches Next::Ask(o, _) && o == Op::ReadingTags(
                    fashion,
                    id,
                    Then::Return,
                ),
            },
    {
        match fashion.id {
            None => Next::Finish(Err(Error::MissingFashionId)),
            Some(id) => Op::ReadingTags(fashion, id, Then::Return).ask(),
        }
    }

    /// `resolve_id`: the id itself, or the id of the fashion found by name.
    pub fn resolve_id<E>(identifier: FashionIdentifier) -> (r: Next<E>)
        ensures
            asks_pending(r),
            match identifier {
                FashionIdentifier::Id(id) => r == Next::<E>::Finish(Ok(Answer::Id(id))),
                FashionIdentifier::NameAndCharacter { .. } => r matches Next::Ask(o, _) && o
                    == Op::Finding(identifier, Then::ResolveId),
            },
    {
        match identifier {
            FashionIdentifier::Id(id) => Next::Finish(Ok(Answer::Id(id))),
            FashionIdentifier::NameAndCharacter { .. } => Op::Finding(
                identifier,
                Then::ResolveId,
            ).ask(),
        }
    }

    fn setting<E>(fashion: Fashion, id: uuid::Uuid) -> (r: Next<E>)
        ensures
            asks_pending(r),
            r matches Next::Ask(o, _) && setting(fashion, id, o),
    {
        let stored = fashion.with_id(id);
        let tags = clone_tags(&stored.tags);
        let answer_tags = clone_tags(&stored.tags);
        Op::Updating { stored, tags, answer_tags, untag: true }.ask()
    }

    /// `set`: store `fashion` over the one it identifies (by its id, or found by
    /// its name), replace that one's tags with its own, and give it back.
    pub fn set<E>(fashion: Fashion) -> (r: Next<E>)
        ensures
            asks_pending(r),
            match fashion.id {
                Some(id) => r matches Next::Ask(o, _) && setting(fashion, id, o),
                None => r matches Next::Ask(Op::Finding(identifier, then), _) && then
                    == Then::Replace(fashion) && finding(identifier) == RequestView::GetFashionByName(
                    fashion.name@,
                    opt_character(fashion.character),
                ),
            },
    {
        let identifier = FashionIdentifier::from_fashion(&fashion);
        match identifier {
            FashionIdentifier::Id(id) => Op::setting(fashion, id),
            FashionIdentifier::NameAndCharacter { .. } => Op::Finding(
                identifier,
                Then::Replace(fashion),
            ).ask(),
        }
    }

    /// `patch`: find the fashion `fashion` identifies, patch it with `fashion`,
    /// store the result, add the tags of `fashion` to it, and give it back.
    pub fn patch<E>(fashion: Fashion) -> (r: Next<E>)
        ensures
            asks_pending(r),
            r matches Next::Ask(Op::Finding(identifier, then), _) && then == Then::Patch(fashion)
                && finding(identifier) == match fashion.id {
                Some(id) => RequestView::GetFashionById(id),
                None => RequestView::GetFashionByName(fashion.name@, opt_character(fashion.character)),
            },
    {
        let identifier = FashionIdentifier::from_fashion(&fashion);
        Op::Finding(identifier, Then::Patch(fashion)).ask()
    }

    /// Takes the repository's `reply` to the pending request (see `stepped`).
    pub fn step<E>(self, reply: Reply) -> (r: Next<E>)
        ensures
            asks_pending(r),
            stepped(self, reply, r),
    {
        match (self, reply) {
            (Op::Inserting(requested), Reply::Fashion(created)) => match created.id {
                None => Next::Finish(Err(Error::MissingFashionId)),
                Some(id) => {
                    let Fashion {
                        id: cid,
                        name,
                        description,
                        character,
                        wardrobe_template,
                        travel_template,
                        created_at,
                        updated_at,
                        tags: ctags,
                    } = created;
                    let all = appended_tags(ctags, &requested.tags);
                    let answer = Fashion {
                        id: cid,
                        name,
                        description,
                        character,
                        wardrobe_template,
                        travel_template,
                        created_at,
                        updated_at,
                        tags: all,
                    };
                    Op::Tagging { id, tags: requested.tags, answer }.ask()
                },
            },
            (Op::Finding(_, then), Reply::Fashion(found)) => match found.id {
                None => Next::Finish(Err(Error::MissingFashionId)),
                Some(id) => Op::ReadingTags(found, id, then).ask(),
            },
            (Op::ReadingTags(found, id, then), Reply::Tags(tags)) => {
                let f = Fashion { tags, ..found };
                match then {
                    Then::Return => Next::Finish(Ok(Answer::Fashion(f))),
                    Then::ResolveId => Next::Finish(Ok(Answer::Id(id))),
                    Then::Replace(requested) => Op::setting(requested, id),
                    Then::Patch(requested) => {
                        let tags = clone_tags(&requested.tags);
                        let stored = f.patch(&requested);
                        let answer_tags = clone_tags(&stored.tags);
                        Op::Updating { stored, tags, answer_tags, untag: false }.ask()
                    },
                }
            },
            (Op::Updating { stored: _, tags, answer_tags, untag }, Reply::Fashion(updated)) => {
                match updated.id {
                    None => Next::Finish(Err(Error::MissingFashionId)),
                    Some(id) => {
                        let answer = Fashion { tags: answer_tags, ..updated };
                        if untag {
                            Op::Untagging { id, tags, answer }.ask()
                        } else {
                            Op::Tagging { id, tags, answer }.ask()
                        }
                    },
                }
            },
            (Op::Untagging { id, tags, answer }, Reply::Done) => Op::Tagging {
                id,
                tags,
                answer,
            }.ask(),
            (Op::Tagging { id: _, tags: _, answer }, Reply::Done) => Next::Finish(
                Ok(Answer::Fashion(answer)),
            ),
            (op, _) => op.ask(),
        }
    }
}

} // verus!
