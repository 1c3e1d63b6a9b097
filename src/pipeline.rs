use vstd::prelude::*;
use crate::error::{Error, ErrorKind};
use crate::image::{renders, resolution, resolve_body, Image};
use crate::uri::{metadata_url_of, query_uri, save_path, uri_parse};

verus! {

/// The stage a batch is in.
#[derive(Clone, Copy, Debug, PartialEq, Eq, Structural)]
pub enum Stage {
    /// Metadata queries are out for every name.
    Resolving,
    /// Every name is resolved; images are being downloaded and saved.
    Saving,
    /// Every image is saved.
    Finished,
    /// A task failed; the batch has no result.
    Failed,
}

/// How far one image has come in the saving stage.
#[derive(Clone, Copy, Debug, PartialEq, Eq, Structural)]
pub enum Progress {
    /// Its download is out.
    Waiting,
    /// Its bytes arrived and are being written.
    Downloaded,
    /// Its file is written.
    Written,
}

/// How writing a file went.
#[derive(Clone, Debug)]
pub enum SaveOutcome {
    Written,
    /// The file could not be created; the cause's description.
    CreateFailed(String),
    /// The file could not be written; the cause's description.
    WriteFailed(String),
}

/// What the outside world reports back to a batch. `index` is the position
/// of the name the report is about; a transport failure comes as its
/// description.
#[derive(Debug)]
pub enum Event {
    /// The metadata query for a name answered with a body, or failed.
    Metadata { index: usize, body: Result<Vec<u8>, String> },
    /// The download of an image answered with its bytes, or failed.
    Image { index: usize, body: Result<Vec<u8>, String> },
    /// Writing an image's file finished.
    Saved { index: usize, outcome: SaveOutcome },
}

/// What a batch asks the outside world to do.
#[derive(Debug)]
pub enum Action {
    /// Send the metadata query for the name at `index`.
    FetchMetadata { index: usize, uri: hyper::Uri },
    /// Download the image at `index` from `url`.
    FetchImage { index: usize, url: String },
    /// Write `bytes` to the file at `path` (create or truncate it).
    Save { index: usize, path: String, bytes: Vec<u8> },
    /// The batch succeeded: the saved paths, one per name, in order.
    Finish { paths: Vec<String> },
    /// The batch failed with `error`.
    Fail { error: Error },
}

/// A batch run: one task per name, resolved all together, then downloaded
/// and saved all together, failing as a whole on the first failure.
pub struct Batch {
    names: Vec<String>,
    images: Vec<Option<Image>>,
    progress: Vec<Progress>,
    stage: Stage,
}

/// The state of a batch: its names, the `(title, url)` resolved for each,
/// how far each image has come, and the stage.
pub struct BatchView {
    pub names: Seq<Seq<char>>,
    pub images: Seq<Option<(Seq<char>, Seq<char>)>>,
    pub progress: Seq<Progress>,
    pub stage: Stage,
}

pub open spec fn image_view(o: Option<Image>) -> Option<(Seq<char>, Seq<char>)> {
    match o {
        Some(img) => Some((img.title@, img.url@)),
        None => None,
    }
}

impl View for Batch {
    type V = BatchView;

    closed spec fn view(&self) -> BatchView {
        BatchView {
            names: self.names@.map_values(|s: String| s@),
            images: self.images@.map_values(|o: Option<Image>| image_view(o)),
            progress: self.progress@,
            stage: self.stage,
        }
    }
}

impl BatchView {
    pub open spec fn wf(self) -> bool {
        &&& self.images.len() == self.names.len()
        &&& self.progress.len() == self.names.len()
        &&& (self.stage == Stage::Saving || self.stage == Stage::Finished) ==> all_resolved(self.images)
    }

    /// The same state in stage `stage`.
    pub open spec fn with_stage(self, stage: Stage) -> BatchView {
        BatchView { names: self.names, images: self.images, progress: self.progress, stage }
    }
}

pub open spec fn all_resolved(images: Seq<Option<(Seq<char>, Seq<char>)>>) -> bool {
    forall|i: int| 0 <= i < images.len() ==> (#[trigger] images[i]) is Some
}

pub open spec fn all_written(progress: Seq<Progress>) -> bool {
    forall|i: int| 0 <= i < progress.len() ==> #[trigger] progress[i] == Progress::Written
}

/// `acts` is the single action that fails the batch with an error of kind
/// `kind` and message chain `messages`.
pub open spec fn fails_with(acts: Seq<Action>, kind: ErrorKind, messages: Seq<Seq<char>>) -> bool {
    acts.len() == 1 && match acts[0] {
        Action::Fail { error } => error.kind == kind && error.messages() == messages,
        _ => false,
    }
}

/// `a` asks for the metadata of the name at `i`.
pub open spec fn is_fetch_metadata(a: Action, i: int, name: Seq<char>) -> bool {
    match a {
        Action::FetchMetadata { index, uri } => index == i && uri_parse(metadata_url_of(name)) == Some(uri),
        _ => false,
    }
}

/// `a` asks for the download of the image at `i` from `url`.
pub open spec fn is_fetch_image(a: Action, i: int, url: Seq<char>) -> bool {
    match a {
        Action::FetchImage { index, url: u } => index == i && u@ == url,
        _ => false,
    }
}

/// The title of a resolved image.
pub open spec fn title_in(o: Option<(Seq<char>, Seq<char>)>) -> Seq<char> {
    match o {
        Some((title, _)) => title,
        None => Seq::empty(),
    }
}

/// The url of a resolved image.
pub open spec fn url_in(o: Option<(Seq<char>, Seq<char>)>) -> Seq<char> {
    match o {
        Some((_, url)) => url,
        None => Seq::empty(),
    }
}

/// The file an image titled `title` is saved to.
pub open spec fn path_of(title: Seq<char>) -> Seq<char> {
    seq!['.', '/'] + title
}

/// `acts` downloads every resolved image, in order.
pub open spec fn fetches_images(acts: Seq<Action>, images: Seq<Option<(Seq<char>, Seq<char>)>>) -> bool {
    &&& acts.len() == images.len()
    &&& forall|i: int| 0 <= i < images.len() ==> is_fetch_image(#[trigger] acts[i], i, url_in(images[i]))
}

/// `acts` reports success with one path per image, in order.
pub open spec fn finishes(acts: Seq<Action>, images: Seq<Option<(Seq<char>, Seq<char>)>>) -> bool {
    acts.len() == 1 && match acts[0] {
        Action::Finish { paths } => paths@.len() == images.len() && forall|i: int|
            0 <= i < images.len() ==> (#[trigger] paths@[i])@ == path_of(title_in(images[i])),
        _ => false,
    }
}

/// The state after the metadata answer `body` for the name at `index`.
pub open spec fn on_metadata(pre: BatchView, index: usize, body: Result<Vec<u8>, String>, post: BatchView, acts: Seq<Action>) -> bool {
    if pre.stage == Stage::Resolving && index < pre.names.len() && pre.images[index as int] is None {
        match body {
            Err(m) => post == pre.with_stage(Stage::Failed)
                && fails_with(acts, ErrorKind::Fetch, seq!["cannot resolve response body"@, m@]),
            Ok(b) => match resolution(b@) {
                Err((kind, messages)) => post == pre.with_stage(Stage::Failed) && fails_with(acts, kind, messages),
                Ok(img) => {
                    let images = pre.images.update(index as int, Some(img));
                    if all_resolved(images) {
                        post == BatchView { images, ..pre }.with_stage(Stage::Saving) && fetches_images(acts, images)
                    } else {
                        post == BatchView { images, ..pre } && acts.len() == 0
                    }
                },
            },
        }
    } else {
        post == pre && acts.len() == 0
    }
}

/// The state after the download answer `body` for the image at `index`.
pub open spec fn on_image(pre: BatchView, index: usize, body: Result<Vec<u8>, String>, post: BatchView, acts: Seq<Action>) -> bool {
    if pre.stage == Stage::Saving && index < pre.names.len() && pre.progress[index as int] == Progress::Waiting {
        match body {
            Err(m) => post == pre.with_stage(Stage::Failed)
                && fails_with(acts, ErrorKind::Fetch, seq!["cannot resolve response body"@, m@]),
            Ok(b) => post == BatchView { progress: pre.progress.update(index as int, Progress::Downloaded), ..pre }
                && acts.len() == 1 && match acts[0] {
                    Action::Save { index: i, path, bytes } => i == index && path@ == path_of(title_in(pre.images[index as int]))
                        && bytes@ == b@,
                    _ => false,
                },
        }
    } else {
        post == pre && acts.len() == 0
    }
}

/// The state after the file of the image at `index` was written, or not.
pub open spec fn on_saved(pre: BatchView, index: usize, outcome: SaveOutcome, post: BatchView, acts: Seq<Action>) -> bool {
    if pre.stage == Stage::Saving && index < pre.names.len() && pre.progress[index as int] == Progress::Downloaded {
        match outcome {
            SaveOutcome::Written => {
                let progress = pre.progress.update(index as int, Progress::Written);
                if all_written(progress) {
                    post == BatchView { progress, ..pre }.with_stage(Stage::Finished) && finishes(acts, pre.images)
                } else {
                    post == BatchView { progress, ..pre } && acts.len() == 0
                }
            },
            SaveOutcome::CreateFailed(m) => post == pre.with_stage(Stage::Failed)
                && fails_with(acts, ErrorKind::Io, seq!["cannot create file"@, m@]),
            SaveOutcome::WriteFailed(m) => post == pre.with_stage(Stage::Failed)
                && fails_with(acts, ErrorKind::Io, seq!["cannot write file"@, m@]),
        }
    } else {
        post == pre && acts.len() == 0
    }
}

/// How a batch moves on `event` from `pre` to `post`, asking for `acts`.
pub open spec fn transition(pre: BatchView, event: Event, post: BatchView, acts: Seq<Action>) -> bool {
    match event {
        Event::Metadata { index, body } => on_metadata(pre, index, body, post, acts),
        Event::Image { index, body } => on_image(pre, index, body, post, acts),
        Event::Saved { index, outcome } => on_saved(pre, index, outcome, post, acts),
    }
}

/// No name resolved yet, and no download out.
pub open spec fn is_resolving_start(v: BatchView) -> bool {
    &&& v.stage == Stage::Resolving
    &&& forall|i: int| 0 <= i < v.names.len() ==> (#[trigger] v.images[i]) is None
    &&& forall|i: int| 0 <= i < v.names.len() ==> #[trigger] v.progress[i] == Progress::Waiting
}

impl Batch {
    pub open spec fn wf(&self) -> bool {
        self@.wf()
    }

    /// Starts a batch over `names`: one metadata query per name, in order.
    /// A batch of no names is finished at once, with no paths.
    pub fn start(names: Vec<String>) -> (r: (Batch, Vec<Action>))
        ensures
            r.0.wf(),
            r.0@.names == names@.map_values(|s: String| s@),
            names@.len() == 0 ==> r.0@.stage == Stage::Finished && finishes(r.1@, r.0@.images),
            names@.len() > 0 ==> {
                &&& is_resolving_start(r.0@)
                &&& r.1@.len() == names@.len()
                &&& forall|i: int| 0 <= i < names@.len() ==> is_fetch_metadata(#[trigger] r.1@[i], i, names@[i]@)
            },
    {
        let n = names.len();
        let mut images: Vec<Option<Image>> = Vec::new();
        let mut progress: Vec<Progress> = Vec::new();
        let mut acts: Vec<Action> = Vec::new();
        let mut i: usize = 0;
        while i < n
            invariant
                n == names.len(),
                i <= n,
                images@.len() == i,
                progress@.len() == i,
                acts@.len() == i,
                forall|j: int| 0 <= j < i ==> (#[trigger] images@[j]) is None,
                forall|j: int| 0 <= j < i ==> #[trigger] progress@[j] == Progress::Waiting,
                forall|j: int| 0 <= j < i ==> is_fetch_metadata(#[trigger] acts@[j], j, names@[j]@),
            decreases n - i,
        {
            let uri = match query_uri(names[i].as_str()) {
                Ok(u) => u,
                Err(error) => {
                    // `query_uri` never fails.
                    let batch = Batch { names, images, progress, stage: Stage::Failed };
                    let mut fail: Vec<Action> = Vec::new();
                    fail.push(Action::Fail { error });
                    return (batch, fail);
                },
            };
            images.push(None);
            progress.push(Progress::Waiting);
            acts.push(Action::FetchMetadata { index: i, uri });
            i = i + 1;
        }
        let stage = if n == 0 { Stage::Finished } else { Stage::Resolving };
        let batch = Batch { names, images, progress, stage };
        if n == 0 {
            let paths: Vec<String> = Vec::new();
            let mut fin: Vec<Action> = Vec::new();
            fin.push(Action::Finish { paths });
            return (batch, fin);
        }
        (batch, acts)
    }

    /// The stage the batch is in.
    pub fn stage(&self) -> (r: Stage)
        ensures
            r == self@.stage,
    {
        self.stage
    }

    /// The names of the batch, in order.
    pub fn names(&self) -> (r: &Vec<String>)
        ensures
            r@.map_values(|s: String| s@) == self@.names,
    {
        &self.names
    }

    fn resolved(&self) -> (r: bool)
        ensures
            r == all_resolved(self@.images),
    {
        let mut i: usize = 0;
        while i < self.images.len()
            invariant
                i <= self.images@.len(),
                forall|j: int| 0 <= j < i ==> (#[trigger] self.images@[j]) is Some,
            decreases self.images@.len() - i,
        {
            if self.images[i].is_none() {
                assert(self@.images[i as int] is None);
                return false;
            }
            i = i + 1;
        }
        assert forall|j: int| 0 <= j < self@.images.len() implies (#[trigger] self@.images[j]) is Some by {
            assert(self.images@[j] is Some);
        }
        true
    }

    fn written(&self) -> (r: bool)
        ensures
            r == all_written(self@.progress),
    {
        let mut i: usize = 0;
        while i < self.progress.len()
            invariant
                i <= self.progress@.len(),
                forall|j: int| 0 <= j < i ==> #[trigger] self.progress@[j] == Progress::Written,
            decreases self.progress@.len() - i,
        {
            if self.progress[i] != Progress::Written {
                return false;
            }
            i = i + 1;
        }
        true
    }

    fn image_fetches(&self) -> (acts: Vec<Action>)
        requires
            self.wf(),
            all_resolved(self@.images),
        ensures
            fetches_images(acts@, self@.images),
    {
        let mut acts: Vec<Action> = Vec::new();
        let mut i: usize = 0;
        while i < self.images.len()
            invariant
                self.wf(),
                all_resolved(self@.images),
                i <= self.images@.len(),
                acts@.len() == i,
                forall|j: int| 0 <= j < i ==> is_fetch_image(#[trigger] acts@[j], j, url_in(self@.images[j])),
            decreases self.images@.len() - i,
        {
            assert(self@.images[i as int] is Some);
            match &self.images[i] {
                Some(img) => {
                    acts.push(Action::FetchImage { index: i, url: img.url.clone() });
                },
                None => {},
            }
            i = i + 1;
        }
        acts
    }

    fn paths(&self) -> (paths: Vec<String>)
        requires
            self.wf(),
            all_resolved(self@.images),
        ensures
            paths@.len() == self@.images.len(),
            forall|i: int| 0 <= i < paths@.len() ==> (#[trigger] paths@[i])@ == path_of(title_in(self@.images[i])),
    {
        let mut paths: Vec<String> = Vec::new();
        let mut i: usize = 0;
        while i < self.images.len()
            invariant
                self.wf(),
                all_resolved(self@.images),
                i <= self.images@.len(),
                paths@.len() == i,
                forall|j: int| 0 <= j < i ==> (#[trigger] paths@[j])@ == path_of(title_in(self@.images[j])),
            decreases self.images@.len() - i,
        {
            assert(self@.images[i as int] is Some);
            match &self.images[i] {
                Some(img) => {
                    paths.push(save_path(img.title.as_str()));
                },
                None => {},
            }
            i = i + 1;
        }
        paths
    }

    fn fail(&mut self, error: Error) -> (acts: Vec<Action>)
        requires
            old(self).wf(),
        ensures
            final(self)@ == old(self)@.with_stage(Stage::Failed),
            final(self).wf(),
            acts@ == seq![Action::Fail { error }],
    {
        self.stage = Stage::Failed;
        let mut acts: Vec<Action> = Vec::new();
        acts.push(Action::Fail { error });
        acts
    }

    /// Moves the batch on by one report from the outside world. A report
    /// that does not fit the stage (a second answer for one index, an index
    /// out of range, anything after the batch finished or failed) changes
    /// nothing and asks for nothing.
    pub fn step(&mut self, event: Event) -> (acts: Vec<Action>)
        requires
            old(self).wf(),
        ensures
            final(self).wf(),
            transition(old(self)@, event, final(self)@, acts@),
    {
        match event {
            Event::Metadata { index, body } => self.on_metadata(index, body),
            Event::Image { index, body } => self.on_image(index, body),
            Event::Saved { index, outcome } => self.on_saved(index, outcome),
        }
    }

    fn on_metadata(&mut self, index: usize, body: Result<Vec<u8>, String>) -> (acts: Vec<Action>)
        requires
            old(self).wf(),
        ensures
            final(self).wf(),
            on_metadata(old(self)@, index, body, final(self)@, acts@),
    {
        if self.stage != Stage::Resolving || index >= self.images.len() || self.images[index].is_some() {
            return Vec::new();
        }
        match body {
            Err(m) => {
                self.fail(Error::caused(ErrorKind::Fetch, "cannot resolve response body", m))
            },
            Ok(b) => {
                let resolved = resolve_body(b.as_slice());
                match resolved {
                    Err(e) => self.fail(e),
                    Ok(img) => {
                        let ghost pre = self@;
                        self.images.set(index, Some(img));
                        let ghost images = pre.images.update(index as int, image_view(Some(img)));
                        assert(self@.images =~= images);
                        assert(self@ == BatchView { images, ..pre });
                        if self.resolved() {
                            self.stage = Stage::Saving;
                            self.image_fetches()
                        } else {
                            Vec::new()
                        }
                    },
                }
            },
        }
    }

    fn on_image(&mut self, index: usize, body: Result<Vec<u8>, String>) -> (acts: Vec<Action>)
        requires
            old(self).wf(),
        ensures
            final(self).wf(),
            on_image(old(self)@, index, body, final(self)@, acts@),
    {
        if self.stage != Stage::Saving || index >= self.progress.len() || self.progress[index] != Progress::Waiting {
            return Vec::new();
        }
        match body {
            Err(m) => {
                self.fail(Error::caused(ErrorKind::Fetch, "cannot resolve response body", m))
            },
            Ok(bytes) => {
                assert(self@.images[index as int] is Some);
                let path = match &self.images[index] {
                    Some(img) => save_path(img.title.as_str()),
                    None => String::new(),
                };
                self.progress.set(index, Progress::Downloaded);
                let mut acts: Vec<Action> = Vec::new();
                acts.push(Action::Save { index, path, bytes });
                acts
            },
        }
    }

    fn on_saved(&mut self, index: usize, outcome: SaveOutcome) -> (acts: Vec<Action>)
        requires
            old(self).wf(),
        ensures
            final(self).wf(),
            on_saved(old(self)@, index, outcome, final(self)@, acts@),
    {
        if self.stage != Stage::Saving || index >= self.progress.len() || self.progress[index] != Progress::Downloaded {
            return Vec::new();
        }
        match outcome {
            SaveOutcome::Written => {
                self.progress.set(index, Progress::Written);
                if self.written() {
                    self.stage = Stage::Finished;
                    let paths = self.paths();
                    let mut acts: Vec<Action> = Vec::new();
                    acts.push(Action::Finish { paths });
                    acts
                } else {
                    Vec::new()
                }
            },
            SaveOutcome::CreateFailed(m) => self.fail(Error::caused(ErrorKind::Io, "cannot create file", m)),
            SaveOutcome::WriteFailed(m) => self.fail(Error::caused(ErrorKind::Io, "cannot write file", m)),
        }
    }
}

/// `event` reports that a task failed: a transport failure, a metadata
/// body that does not resolve, or a file that could not be written.
pub open spec fn reports_failure(event: Event) -> bool {
    match event {
        Event::Metadata { body, .. } => match body {
            Err(_) => true,
            Ok(b) => resolution(b@) is Err,
        },
        Event::Image { body, .. } => body is Err,
        Event::Saved { outcome, .. } => !(outcome is Written),
    }
}

/// `event` is the answer a batch in state `pre` waits for.
pub open spec fn is_awaited(pre: BatchView, event: Event) -> bool {
    match event {
        Event::Metadata { index, .. } => pre.stage == Stage::Resolving && index < pre.names.len()
            && pre.images[index as int] is None,
        Event::Image { index, .. } => pre.stage == Stage::Saving && index < pre.names.len()
            && pre.progress[index as int] == Progress::Waiting,
        Event::Saved { index, .. } => pre.stage == Stage::Saving && index < pre.names.len()
            && pre.progress[index as int] == Progress::Downloaded,
    }
}

/// Whether `a` reports success.
pub open spec fn is_finish(a: Action) -> bool {
    a is Finish
}

/// A batch reports its result in input order: when it finishes, it gives
/// one path per name, the i-th being `./` followed by the title resolved for
/// the i-th name. It finishes only from the saving stage, once every file
/// is written.
pub proof fn lemma_finish_in_input_order(pre: BatchView, event: Event, post: BatchView, acts: Seq<Action>, k: int)
    requires
        pre.wf(),
        transition(pre, event, post, acts),
        0 <= k < acts.len(),
        is_finish(acts[k]),
    ensures
        pre.stage == Stage::Saving,
        post.stage == Stage::Finished,
        all_written(post.progress),
        finishes(acts, pre.images),
        all_resolved(pre.images),
        pre.images.len() == pre.names.len(),
{
}

/// One failing task fails the whole batch, however many of its siblings
/// have already succeeded: the batch moves to `Failed` and asks for nothing
/// but the failure.
pub proof fn lemma_task_failure_fails_batch(pre: BatchView, event: Event, post: BatchView, acts: Seq<Action>)
    requires
        pre.wf(),
        transition(pre, event, post, acts),
        is_awaited(pre, event),
        reports_failure(event),
    ensures
        post.stage == Stage::Failed,
        acts.len() == 1,
        acts[0] is Fail,
{
}

/// A failed batch stays failed: whatever it is told next, it keeps its
/// state and asks for nothing, so it never reports success.
pub proof fn lemma_failure_is_final(pre: BatchView, event: Event, post: BatchView, acts: Seq<Action>)
    requires
        transition(pre, event, post, acts),
        pre.stage == Stage::Failed,
    ensures
        post == pre,
        acts.len() == 0,
{
}

/// The order in which metadata answers come in does not matter: two
/// answers for different names, each resolving, lead to the same state
/// whichever comes first, and then to the same downloads.
pub proof fn lemma_metadata_answers_commute(
    pre: BatchView,
    i: usize,
    bi: Vec<u8>,
    j: usize,
    bj: Vec<u8>,
    mid1: BatchView,
    post1: BatchView,
    first1: Seq<Action>,
    second1: Seq<Action>,
    mid2: BatchView,
    post2: BatchView,
    first2: Seq<Action>,
    second2: Seq<Action>,
)
    requires
        pre.wf(),
        pre.stage == Stage::Resolving,
        i != j,
        i < pre.names.len(),
        j < pre.names.len(),
        pre.images[i as int] is None,
        pre.images[j as int] is None,
        resolution(bi@) is Ok,
        resolution(bj@) is Ok,
        transition(pre, Event::Metadata { index: i, body: Ok(bi) }, mid1, first1),
        transition(mid1, Event::Metadata { index: j, body: Ok(bj) }, post1, second1),
        transition(pre, Event::Metadata { index: j, body: Ok(bj) }, mid2, first2),
        transition(mid2, Event::Metadata { index: i, body: Ok(bi) }, post2, second2),
    ensures
        post1 == post2,
        post1.stage == Stage::Saving ==> fetches_images(second1, post1.images) && fetches_images(second2, post1.images),
        post1.stage == Stage::Resolving ==> second1.len() == 0 && second2.len() == 0,
{
    let x = Some(resolution(bi@)->Ok_0);
    let y = Some(resolution(bj@)->Ok_0);
    let images1 = pre.images.update(i as int, x);
    let images2 = pre.images.update(j as int, y);
    assert(images1[j as int] is None);
    assert(images2[i as int] is None);
    assert(!all_resolved(images1));
    assert(!all_resolved(images2));
    assert(images1.update(j as int, y) =~= images2.update(i as int, x));
}

/// The order in which files are reported written does not matter: two
/// reports for different images lead to the same state whichever comes
/// first, and then to the same result.
pub proof fn lemma_saved_reports_commute(
    pre: BatchView,
    i: usize,
    j: usize,
    mid1: BatchView,
    post1: BatchView,
    first1: Seq<Action>,
    second1: Seq<Action>,
    mid2: BatchView,
    post2: BatchView,
    first2: Seq<Action>,
    second2: Seq<Action>,
)
    requires
        pre.wf(),
        pre.stage == Stage::Saving,
        i != j,
        i < pre.names.len(),
        j < pre.names.len(),
        pre.progress[i as int] == Progress::Downloaded,
        pre.progress[j as int] == Progress::Downloaded,
        transition(pre, Event::Saved { index: i, outcome: SaveOutcome::Written }, mid1, first1),
        transition(mid1, Event::Saved { index: j, outcome: SaveOutcome::Written }, post1, second1),
        transition(pre, Event::Saved { index: j, outcome: SaveOutcome::Written }, mid2, first2),
        transition(mid2, Event::Saved { index: i, outcome: SaveOutcome::Written }, post2, second2),
    ensures
        post1 == post2,
        post1.stage == Stage::Finished ==> finishes(second1, post1.images) && finishes(second2, post1.images),
        post1.stage == Stage::Saving ==> second1.len() == 0 && second2.len() == 0,
{
    let progress1 = pre.progress.update(i as int, Progress::Written);
    let progress2 = pre.progress.update(j as int, Progress::Written);
    assert(progress1[j as int] == Progress::Downloaded);
    assert(progress2[i as int] == Progress::Downloaded);
    assert(!all_written(progress1));
    assert(!all_written(progress2));
    assert(progress1.update(j as int, Progress::Written) =~= progress2.update(i as int, Progress::Written));
}

} // verus!
