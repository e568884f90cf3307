//! The reconciler of an image: it is published, fetched, created and
//! deleted by plans, each a run of tasks whose answers decide how the plan
//! goes on.

use crate::containers::properties::{image_publication, AvailableImage, Publication, PublicationView};
use crate::ident::Uuid;
use vstd::prelude::*;
use vstd::string::StringExecFns;

verus! {

/// How far an image has come on the device.
#[derive(Debug, Clone, Copy, PartialEq, Eq, Structural)]
pub enum ImageStatus {
    /// The store knows of the image.
    Received,
    /// Upstream has been told of the image.
    Published,
    /// The runtime holds the image.
    Pulled,
}

/// Whether the runtime holds a resource.
#[derive(Debug, Clone, Copy, PartialEq, Eq, Structural)]
pub enum State {
    Missing,
    Created,
}

/// An image: where it comes from, and the name under which the runtime
/// holds it, if it does.
#[derive(Debug, PartialEq, Eq)]
pub struct Image {
    pub id: Option<String>,
    pub reference: String,
}

/// What an [`Image`] holds.
pub struct ImageView {
    pub id: Option<Seq<char>>,
    pub reference: Seq<char>,
}

impl View for Image {
    type V = ImageView;

    open spec fn view(&self) -> ImageView {
        ImageView {
            id: match self.id {
                Some(id) => Some(id@),
                None => None,
            },
            reference: self.reference@,
        }
    }
}

impl Clone for Image {
    fn clone(&self) -> (r: Self)
        ensures
            r@ == self@,
    {
        Image {
            id: match &self.id {
                Some(id) => Some(id.clone()),
                None => None,
            },
            reference: self.reference.clone(),
        }
    }
}

/// The image as a resource of the device.
#[derive(Debug, Clone, PartialEq, Eq)]
pub struct ImageResource {
    pub image: Image,
}

impl View for ImageResource {
    type V = ImageView;

    open spec fn view(&self) -> ImageView {
        self.image@
    }
}

/// Why a plan failed.
#[derive(Debug, Clone, PartialEq, Eq)]
pub enum ResourceError {
    /// The store does not know the resource.
    Missing { id: Uuid, resource: String },
    /// The store failed.
    Store(String),
    /// The runtime failed.
    Runtime(String),
}

/// What a [`ResourceError`] holds.
pub enum ResourceErrorView {
    Missing { id: u128, resource: Seq<char> },
    Store(Seq<char>),
    Runtime(Seq<char>),
}

impl View for ResourceError {
    type V = ResourceErrorView;

    open spec fn view(&self) -> ResourceErrorView {
        match *self {
            ResourceError::Missing { id, resource } => ResourceErrorView::Missing {
                id: id.0,
                resource: resource@,
            },
            ResourceError::Store(reason) => ResourceErrorView::Store(reason@),
            ResourceError::Runtime(reason) => ResourceErrorView::Runtime(reason@),
        }
    }
}

/// What is asked of the store, of the runtime or of the upstream client.
#[derive(Debug, Clone, PartialEq, Eq)]
pub enum Task {
    /// Look the image up in the store.
    Find,
    /// Ask the runtime whether it holds the image.
    Inspect(Image),
    /// Let the runtime pull the image.
    Pull(Image),
    /// Let the runtime remove the image.
    Remove(Image),
    /// Record in the store the name under which the runtime holds the image.
    StoreLocalId(Option<String>),
    /// Record in the store how far the image has come.
    StoreStatus(ImageStatus),
    /// Delete the record of the image from the store.
    DeleteRecord,
    /// Send a property upstream, or unset it.
    Publish(Publication),
}

/// What a [`Task`] holds.
pub enum TaskView {
    Find,
    Inspect(ImageView),
    Pull(ImageView),
    Remove(ImageView),
    StoreLocalId(Option<Seq<char>>),
    StoreStatus(ImageStatus),
    DeleteRecord,
    Publish(PublicationView),
}

impl View for Task {
    type V = TaskView;

    open spec fn view(&self) -> TaskView {
        match *self {
            Task::Find => TaskView::Find,
            Task::Inspect(image) => TaskView::Inspect(image@),
            Task::Pull(image) => TaskView::Pull(image@),
            Task::Remove(image) => TaskView::Remove(image@),
            Task::StoreLocalId(Some(id)) => TaskView::StoreLocalId(Some(id@)),
            Task::StoreLocalId(None) => TaskView::StoreLocalId(None),
            Task::StoreStatus(status) => TaskView::StoreStatus(status),
            Task::DeleteRecord => TaskView::DeleteRecord,
            Task::Publish(publication) => TaskView::Publish(publication@),
        }
    }
}

/// The answer to a task.
#[derive(Debug, Clone, PartialEq, Eq)]
pub enum Answer {
    /// The task is done.
    Done,
    /// The record of the image in the store, if there is one.
    Record(Option<Image>),
    /// The name under which the runtime holds the image, if it does.
    LocalId(Option<String>),
    /// The task failed.
    Failed(String),
}

/// What an [`Answer`] holds.
pub enum AnswerView {
    Done,
    Record(Option<ImageView>),
    LocalId(Option<Seq<char>>),
    Failed(Seq<char>),
}

impl View for Answer {
    type V = AnswerView;

    open spec fn view(&self) -> AnswerView {
        match *self {
            Answer::Done => AnswerView::Done,
            Answer::Record(Some(image)) => AnswerView::Record(Some(image@)),
            Answer::Record(None) => AnswerView::Record(None),
            Answer::LocalId(Some(id)) => AnswerView::LocalId(Some(id@)),
            Answer::LocalId(None) => AnswerView::LocalId(None),
            Answer::Failed(reason) => AnswerView::Failed(reason@),
        }
    }
}

/// Where a plan stands: the task whose answer it waits for, or its end.
#[derive(Debug, Clone, PartialEq, Eq)]
pub enum Stage {
    PublishSend,
    PublishStore,
    FetchFind,
    FetchInspect(Image),
    FetchStore(Image),
    CreatePull(Image),
    CreateStoreId(Image),
    CreateSend(Image),
    CreateStoreStatus(Image),
    DeleteRemove(Image),
    DeleteUnset,
    DeleteRecord,
    /// The image was published.
    Published,
    /// The image was fetched: whether the runtime holds it, and the image.
    Fetched(State, ImageResource),
    /// The image was created.
    Created(ImageResource),
    /// The image was deleted.
    Deleted,
    /// The plan failed.
    Failed(ResourceError),
}

/// What a [`Stage`] holds.
pub enum StageView {
    PublishSend,
    PublishStore,
    FetchFind,
    FetchInspect(ImageView),
    FetchStore(ImageView),
    CreatePull(ImageView),
    CreateStoreId(ImageView),
    CreateSend(ImageView),
    CreateStoreStatus(ImageView),
    DeleteRemove(ImageView),
    DeleteUnset,
    DeleteRecord,
    Published,
    Fetched(State, ImageView),
    Created(ImageView),
    Deleted,
    Failed(ResourceErrorView),
}

impl View for Stage {
    type V = StageView;

    open spec fn view(&self) -> StageView {
        match *self {
            Stage::PublishSend => StageView::PublishSend,
            Stage::PublishStore => StageView::PublishStore,
            Stage::FetchFind => StageView::FetchFind,
            Stage::FetchInspect(image) => StageView::FetchInspect(image@),
            Stage::FetchStore(image) => StageView::FetchStore(image@),
            Stage::CreatePull(image) => StageView::CreatePull(image@),
            Stage::CreateStoreId(image) => StageView::CreateStoreId(image@),
            Stage::CreateSend(image) => StageView::CreateSend(image@),
            Stage::CreateStoreStatus(image) => StageView::CreateStoreStatus(image@),
            Stage::DeleteRemove(image) => StageView::DeleteRemove(image@),
            Stage::DeleteUnset => StageView::DeleteUnset,
            Stage::DeleteRecord => StageView::DeleteRecord,
            Stage::Published => StageView::Published,
            Stage::Fetched(state, resource) => StageView::Fetched(state, resource@),
            Stage::Created(resource) => StageView::Created(resource@),
            Stage::Deleted => StageView::Deleted,
            Stage::Failed(error) => StageView::Failed(error@),
        }
    }
}

impl StageView {
    /// Whether the plan has come to its end.
    pub open spec fn ended(self) -> bool {
        self is Published || self is Fetched || self is Created || self is Deleted
            || self is Failed
    }

    /// Whether the plan waits for the upstream client.
    pub open spec fn sends(self) -> bool {
        self is PublishSend || self is CreateSend || self is DeleteUnset
    }
}

/// The image under the name that the runtime gave.
pub open spec fn named(image: ImageView, id: Option<Seq<char>>) -> ImageView {
    ImageView { id, reference: image.reference }
}

/// The task of a stage, for the image with the identifier; none at the end
/// of a plan.
pub open spec fn task_of(id: u128, stage: StageView) -> Option<TaskView> {
    match stage {
        StageView::PublishSend => Some(TaskView::Publish(image_publication(id, Some(false)))),
        StageView::PublishStore => Some(TaskView::StoreStatus(ImageStatus::Published)),
        StageView::FetchFind => Some(TaskView::Find),
        StageView::FetchInspect(image) => Some(TaskView::Inspect(image)),
        StageView::FetchStore(image) => Some(TaskView::StoreLocalId(image.id)),
        StageView::CreatePull(image) => Some(TaskView::Pull(image)),
        StageView::CreateStoreId(image) => Some(TaskView::StoreLocalId(image.id)),
        StageView::CreateSend(_) => Some(TaskView::Publish(image_publication(id, Some(true)))),
        StageView::CreateStoreStatus(_) => Some(TaskView::StoreStatus(ImageStatus::Pulled)),
        StageView::DeleteRemove(image) => Some(TaskView::Remove(image)),
        StageView::DeleteUnset => Some(TaskView::Publish(image_publication(id, None))),
        StageView::DeleteRecord => Some(TaskView::DeleteRecord),
        _ => None,
    }
}

/// The stage after the answer to a task of the store: its failure ends the
/// plan.
pub open spec fn after_store(answer: AnswerView, then: StageView, stay: StageView) -> StageView {
    match answer {
        AnswerView::Done => then,
        AnswerView::Failed(reason) => StageView::Failed(ResourceErrorView::Store(reason)),
        _ => stay,
    }
}

/// How a plan goes on after an answer. A failure of the store or of the
/// runtime ends the plan; a failure of the upstream client does not, for
/// the store is what counts and the property is sent again later. An answer
/// that the stage does not wait for changes nothing.
pub open spec fn advance(id: u128, stage: StageView, answer: AnswerView) -> StageView {
    match stage {
        StageView::PublishSend => match answer {
            AnswerView::Done | AnswerView::Failed(_) => StageView::PublishStore,
            _ => stage,
        },
        StageView::PublishStore => after_store(answer, StageView::Published, stage),
        StageView::FetchFind => match answer {
            AnswerView::Record(Some(image)) => StageView::FetchInspect(image),
            AnswerView::Record(None) => StageView::Failed(
                ResourceErrorView::Missing { id, resource: "image"@ },
            ),
            AnswerView::Failed(reason) => StageView::Failed(ResourceErrorView::Store(reason)),
            _ => stage,
        },
        StageView::FetchInspect(image) => match answer {
            AnswerView::LocalId(Some(local)) => StageView::FetchStore(named(image, Some(local))),
            AnswerView::LocalId(None) => StageView::Fetched(State::Missing, image),
            AnswerView::Failed(reason) => StageView::Failed(ResourceErrorView::Runtime(reason)),
            _ => stage,
        },
        StageView::FetchStore(image) => after_store(
            answer,
            StageView::Fetched(State::Created, image),
            stage,
        ),
        StageView::CreatePull(image) => match answer {
            AnswerView::LocalId(local) => StageView::CreateStoreId(named(image, local)),
            AnswerView::Failed(reason) => StageView::Failed(ResourceErrorView::Runtime(reason)),
            _ => stage,
        },
        StageView::CreateStoreId(image) => after_store(answer, StageView::CreateSend(image), stage),
        StageView::CreateSend(image) => match answer {
            AnswerView::Done | AnswerView::Failed(_) => StageView::CreateStoreStatus(image),
            _ => stage,
        },
        StageView::CreateStoreStatus(image) => after_store(
            answer,
            StageView::Created(image),
            stage,
        ),
        StageView::DeleteRemove(image) => match answer {
            AnswerView::Done => StageView::DeleteUnset,
            AnswerView::Failed(reason) => StageView::Failed(ResourceErrorView::Runtime(reason)),
            _ => stage,
        },
        StageView::DeleteUnset => match answer {
            AnswerView::Done | AnswerView::Failed(_) => StageView::DeleteRecord,
            _ => stage,
        },
        StageView::DeleteRecord => after_store(answer, StageView::Deleted, stage),
        _ => stage,
    }
}

/// A plan for the image with an identifier.
#[derive(Debug, Clone, PartialEq, Eq)]
pub struct Plan {
    pub id: Uuid,
    pub stage: Stage,
}

impl ImageResource {
    /// The resource of an image.
    pub fn new(image: Image) -> (r: Self)
        ensures
            r.image == image,
    {
        Self { image }
    }

    /// The plan that tells upstream of the image: the property is sent with
    /// `false`, then the store records that the image is published.
    pub fn publish(id: Uuid) -> (r: Plan)
        ensures
            r.id == id,
            r.stage@ == StageView::PublishSend,
    {
        Plan { id, stage: Stage::PublishSend }
    }

    /// The plan that looks the image up in the store and asks the runtime
    /// whether it holds the image.
    pub fn fetch(id: Uuid) -> (r: Plan)
        ensures
            r.id == id,
            r.stage@ == StageView::FetchFind,
    {
        Plan { id, stage: Stage::FetchFind }
    }

    /// The plan that pulls the image, records its name, tells upstream that
    /// it is held, and records that it is pulled.
    pub fn create(self, id: Uuid) -> (r: Plan)
        ensures
            r.id == id,
            r.stage@ == StageView::CreatePull(self@),
    {
        Plan { id, stage: Stage::CreatePull(self.image) }
    }

    /// The plan that removes the image from the runtime, takes its property
    /// away, and deletes its record.
    pub fn delete(self, id: Uuid) -> (r: Plan)
        ensures
            r.id == id,
            r.stage@ == StageView::DeleteRemove(self@),
    {
        Plan { id, stage: Stage::DeleteRemove(self.image) }
    }
}

/// The stage after the answer to a task of the store.
fn stored(answer: Answer, then: Stage, stay: Stage) -> (r: Stage)
    ensures
        r@ == after_store(answer@, then@, stay@),
{
    match answer {
        Answer::Done => then,
        Answer::Failed(reason) => Stage::Failed(ResourceError::Store(reason)),
        _ => stay,
    }
}

impl Plan {
    /// The task to do now; none when the plan has come to its end.
    pub fn task(&self) -> (r: Option<Task>)
        ensures
            match task_of(self.id.0, self.stage@) {
                Some(task) => r is Some && r->0@ == task,
                None => r is None,
            },
    {
        let property = AvailableImage::new(&self.id);
        match &self.stage {
            Stage::PublishSend => Some(Task::Publish(property.send(false))),
            Stage::PublishStore => Some(Task::StoreStatus(ImageStatus::Published)),
            Stage::FetchFind => Some(Task::Find),
            Stage::FetchInspect(image) => Some(Task::Inspect(image.clone())),
            Stage::FetchStore(image) => Some(Task::StoreLocalId(image.clone().id)),
            Stage::CreatePull(image) => Some(Task::Pull(image.clone())),
            Stage::CreateStoreId(image) => Some(Task::StoreLocalId(image.clone().id)),
            Stage::CreateSend(_) => Some(Task::Publish(property.send(true))),
            Stage::CreateStoreStatus(_) => Some(Task::StoreStatus(ImageStatus::Pulled)),
            Stage::DeleteRemove(image) => Some(Task::Remove(image.clone())),
            Stage::DeleteUnset => Some(Task::Publish(property.unset())),
            Stage::DeleteRecord => Some(Task::DeleteRecord),
            _ => None,
        }
    }

    /// Whether the plan has come to its end.
    pub fn is_ended(&self) -> (r: bool)
        ensures
            r == self.stage@.ended(),
    {
        match &self.stage {
            Stage::Published => true,
            Stage::Fetched(_, _) => true,
            Stage::Created(_) => true,
            Stage::Deleted => true,
            Stage::Failed(_) => true,
            _ => false,
        }
    }

    /// Goes on after the answer to the task of the stage.
    pub fn advance(self, answer: Answer) -> (r: Plan)
        ensures
            r.id == self.id,
            r.stage@ == advance(self.id.0, self.stage@, answer@),
    {
        let Plan { id, stage } = self;
        let stage = match stage {
            Stage::PublishSend => match answer {
                Answer::Done => Stage::PublishStore,
                Answer::Failed(_) => Stage::PublishStore,
                _ => Stage::PublishSend,
            },
            Stage::PublishStore => stored(answer, Stage::Published, Stage::PublishStore),
            Stage::FetchFind => match answer {
                Answer::Record(Some(image)) => Stage::FetchInspect(image),
                Answer::Record(None) => Stage::Failed(
                    ResourceError::Missing { id, resource: String::from_str("image") },
                ),
                Answer::Failed(reason) => Stage::Failed(ResourceError::Store(reason)),
                _ => Stage::FetchFind,
            },
            Stage::FetchInspect(image) => match answer {
                Answer::LocalId(Some(local)) => Stage::FetchStore(
                    Image { id: Some(local), reference: image.reference },
                ),
                Answer::LocalId(None) => Stage::Fetched(State::Missing, ImageResource::new(image)),
                Answer::Failed(reason) => Stage::Failed(ResourceError::Runtime(reason)),
                _ => Stage::FetchInspect(image),
            },
            Stage::FetchStore(image) => {
                let kept = image.clone();
                stored(
                    answer,
                    Stage::Fetched(State::Created, ImageResource::new(image)),
                    Stage::FetchStore(kept),
                )
            },
            Stage::CreatePull(image) => match answer {
                Answer::LocalId(local) => Stage::CreateStoreId(
                    Image { id: local, reference: image.reference },
                ),
                Answer::Failed(reason) => Stage::Failed(ResourceError::Runtime(reason)),
                _ => Stage::CreatePull(image),
            },
            Stage::CreateStoreId(image) => {
                let kept = image.clone();
                stored(answer, Stage::CreateSend(image), Stage::CreateStoreId(kept))
            },
            Stage::CreateSend(image) => match answer {
                Answer::Done => Stage::CreateStoreStatus(image),
                Answer::Failed(_) => Stage::CreateStoreStatus(image),
                _ => Stage::CreateSend(image),
            },
            Stage::CreateStoreStatus(image) => {
                let kept = image.clone();
                stored(
                    answer,
                    Stage::Created(ImageResource::new(image)),
                    Stage::CreateStoreStatus(kept),
                )
            },
            Stage::DeleteRemove(image) => match answer {
                Answer::Done => Stage::DeleteUnset,
                Answer::Failed(reason) => Stage::Failed(ResourceError::Runtime(reason)),
                _ => Stage::DeleteRemove(image),
            },
            Stage::DeleteUnset => match answer {
                Answer::Done => Stage::DeleteRecord,
                Answer::Failed(_) => Stage::DeleteRecord,
                _ => Stage::DeleteUnset,
            },
            Stage::DeleteRecord => stored(answer, Stage::Deleted, Stage::DeleteRecord),
            ended => ended,
        };
        Plan { id, stage }
    }
}

/// A failure of the upstream client is swallowed: the plan goes on as after
/// a property that was sent, and never fails there.
pub proof fn lemma_publisher_failure_is_swallowed(
    id: u128,
    stage: StageView,
    reason: Seq<char>,
)
    requires
        stage.sends(),
    ensures
        advance(id, stage, AnswerView::Failed(reason)) == advance(id, stage, AnswerView::Done),
        !(advance(id, stage, AnswerView::Failed(reason)) is Failed),
{
}

/// While an image is created, its property is sent only once the store has
/// recorded the name under which the runtime holds the image; and the plan
/// of a creation never asks the store to take anything back.
pub proof fn lemma_send_follows_store(id: u128, stage: StageView, answer: AnswerView)
    ensures
        advance(id, stage, answer) is CreateSend && !(stage is CreateSend) ==> stage
            is CreateStoreId && answer is Done && task_of(id, stage) == Some(
            TaskView::StoreLocalId(stage->CreateStoreId_0.id),
        ),
        (stage is CreateSend || stage is CreateStoreStatus) ==> task_of(
            id,
            advance(id, stage, answer),
        ) != Some(TaskView::DeleteRecord),
{
}

/// Every plan comes to its end: an answer that the stage waits for brings
/// the plan one stage further, and no plan has more than four stages.
pub proof fn lemma_plan_advances(id: u128, stage: StageView, answer: AnswerView)
    ensures
        stages_left(advance(id, stage, answer)) <= stages_left(stage),
        advance(id, stage, answer) == stage || stages_left(advance(id, stage, answer))
            < stages_left(stage),
        stages_left(stage) <= 4,
        stages_left(stage) == 0 <==> stage.ended(),
{
}

/// An upper bound on the tasks that a plan still asks for.
pub open spec fn stages_left(stage: StageView) -> nat {
    match stage {
        StageView::PublishSend => 2,
        StageView::PublishStore => 1,
        StageView::FetchFind => 3,
        StageView::FetchInspect(_) => 2,
        StageView::FetchStore(_) => 1,
        StageView::CreatePull(_) => 4,
        StageView::CreateStoreId(_) => 3,
        StageView::CreateSend(_) => 2,
        StageView::CreateStoreStatus(_) => 1,
        StageView::DeleteRemove(_) => 3,
        StageView::DeleteUnset => 2,
        StageView::DeleteRecord => 1,
        _ => 0,
    }
}

} // verus!
