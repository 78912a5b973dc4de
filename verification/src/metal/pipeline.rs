//! Compiling kernels: what a batch's results come to, and what becomes of its
//! archive.
//!
//! The compiler and the file system are the caller's. What is decided here is
//! which failure a request reports, and whether the batch's archive is written:
//! a partial archive would be served back on the next run as if it were the
//! whole batch.

use crate::metal::error;
use crate::metal::error::{Error, ErrorView};
use crate::seam::says;
use crate::strings::str_eq;
use vstd::prelude::*;
use vstd::string::*;

verus! {

/// What one batch did about its archive.
#[derive(Debug)]
pub enum Archived {
    /// The archive was found and every pipeline came out of it.
    Hit,
    /// It was not there; the batch was compiled and the archive written.
    Written,
    /// There is no cache directory.
    Disabled,
    /// Nothing was written, because not every request built.
    Skipped,
    /// The write was attempted and refused. The pipelines are still built.
    Failed(Error),
}

impl Archived {
    /// Whether the pipelines came out of an archive rather than a compiler.
    pub fn is_hit(&self) -> (yes: bool)
        ensures
            yes <==> self is Hit,
    {
        match self {
            Archived::Hit => true,
            _ => false,
        }
    }
}

/// What a batch built, and what it did about the cache.
#[derive(Debug)]
pub struct Compiled<P> {
    /// One result per request, positionally.
    pub pipelines: Vec<Result<P, Error>>,
    /// What became of the archive for this batch.
    pub archive: Archived,
}

/// The first failure of a run of results, when there is one.
pub open spec fn first_failure<P>(results: Seq<Result<P, Error>>) -> Option<Error>
    decreases results.len(),
{
    if results.len() == 0 {
        None
    } else {
        match results[0] {
            Err(e) => Some(e),
            Ok(_) => first_failure(results.skip(1)),
        }
    }
}

/// The pipelines of a run of results that all built.
pub open spec fn pipelines_of<P>(results: Seq<Result<P, Error>>) -> Seq<P> {
    Seq::new(results.len(), |i: int| results[i]->Ok_0)
}

impl<P> Compiled<P> {
    /// The pipelines, if every request built; else the first failure.
    pub fn all(self) -> (all: Result<Vec<P>, Error>)
        ensures
            match all {
                Ok(built) => first_failure(self.pipelines@) is None && built@ == pipelines_of(
                    self.pipelines@,
                ),
                Err(e) => first_failure(self.pipelines@) == Some(e),
            },
    {
        let ghost results = self.pipelines@;
        let mut left = self.pipelines;
        let mut built: Vec<P> = Vec::new();
        while left.len() > 0
            invariant
                results == self.pipelines@,
                left@.len() + built@.len() == results.len(),
                left@ == results.skip(built@.len() as int),
                first_failure(results) == first_failure(left@),
                forall|i: int|
                    0 <= i < built@.len() ==> results[i] == Ok::<P, Error>(#[trigger] built@[i]),
            decreases left@.len(),
        {
            let ghost n = built@.len() as int;
            assert(left@[0] == results[n]);
            assert(left@.skip(1) =~= results.skip(n + 1));
            match left.remove(0) {
                Err(e) => {
                    return Err(e);
                },
                Ok(p) => {
                    built.push(p);
                    assert(left@ =~= results.skip(n + 1));
                },
            }
        }
        assert(built@ =~= pipelines_of(results));
        Ok(built)
    }
}

/// Did every request build?
fn all_built<P>(results: &Vec<Result<P, Error>>) -> (yes: bool)
    ensures
        yes <==> every_one_built(built_view(results@)),
{
    let mut i: usize = 0;
    while i < results.len()
        invariant
            i <= results@.len(),
            forall|k: int| 0 <= k < i ==> #[trigger] built_view(results@)[k] is Ok,
        decreases results@.len() - i,
    {
        if results[i].is_err() {
            assert(!(built_view(results@)[i as int] is Ok));
            return false;
        }
        i += 1;
    }
    true
}

/// One entry point to build, off one of the batch's libraries.
#[derive(Debug)]
pub struct BatchRequest {
    /// Which of the batch's files.
    pub library: usize,
    /// The entry point.
    pub function: String,
}

/// Requests, and the distinct files they are built from.
#[derive(Debug)]
pub struct Batch {
    /// Each file, once.
    pub paths: Vec<String>,
    /// For each file, why it could not be read, if it could not.
    pub unread: Vec<Option<Error>>,
    /// The requests.
    pub requests: Vec<BatchRequest>,
}

/// [`Batch`] with its texts as sequences.
pub struct BatchView {
    /// Each file, once.
    pub paths: Seq<Seq<char>>,
    /// For each file, why it could not be read, if it could not.
    pub unread: Seq<Option<ErrorView>>,
    /// For each request, which file it is built from.
    pub library_of: Seq<int>,
    /// For each request, its entry point.
    pub functions: Seq<Seq<char>>,
}

/// An optional refusal, with its texts as sequences.
pub open spec fn refusal_view(e: Option<Error>) -> Option<ErrorView> {
    match e {
        None => None,
        Some(e) => Some(e@),
    }
}

/// Refusals, with their texts as sequences.
pub open spec fn refusals_view(refusals: Seq<Option<Error>>) -> Seq<Option<ErrorView>> {
    Seq::new(refusals.len(), |i: int| refusal_view(refusals[i]))
}

impl View for Batch {
    type V = BatchView;

    open spec fn view(&self) -> BatchView {
        BatchView {
            paths: Seq::new(self.paths@.len(), |i: int| self.paths@[i]@),
            unread: refusals_view(self.unread@),
            library_of: Seq::new(self.requests@.len(), |i: int| self.requests@[i].library as int),
            functions: Seq::new(self.requests@.len(), |i: int| self.requests@[i].function@),
        }
    }
}

impl BatchView {
    /// Every file was read or was not, and every request is built from one.
    pub open spec fn wf(self) -> bool {
        &&& self.unread.len() == self.paths.len()
        &&& forall|i: int|
            0 <= i < self.library_of.len() ==> 0 <= #[trigger] self.library_of[i]
                < self.paths.len()
    }
}

/// A result with its refusal's texts as sequences.
pub open spec fn result_view<P>(r: Result<P, Error>) -> Result<P, ErrorView> {
    match r {
        Ok(p) => Ok(p),
        Err(e) => Err(e@),
    }
}

/// Results with their refusals' texts as sequences.
pub open spec fn built_view<P>(built: Seq<Result<P, Error>>) -> Seq<Result<P, ErrorView>> {
    Seq::new(built.len(), |i: int| result_view(built[i]))
}

/// [`Archived`] with its texts as sequences.
pub enum ArchivedView {
    Hit,
    Written,
    Disabled,
    Skipped,
    Failed(ErrorView),
}

impl View for Archived {
    type V = ArchivedView;

    open spec fn view(&self) -> ArchivedView {
        match *self {
            Archived::Hit => ArchivedView::Hit,
            Archived::Written => ArchivedView::Written,
            Archived::Disabled => ArchivedView::Disabled,
            Archived::Skipped => ArchivedView::Skipped,
            Archived::Failed(e) => ArchivedView::Failed(e@),
        }
    }
}

/// [`Compiled`] with its texts as sequences.
pub struct CompiledView<P> {
    /// One result per request, positionally.
    pub pipelines: Seq<Result<P, ErrorView>>,
    /// What became of the archive for this batch.
    pub archive: ArchivedView,
}

impl<P> View for Compiled<P> {
    type V = CompiledView<P>;

    open spec fn view(&self) -> CompiledView<P> {
        CompiledView { pipelines: built_view(self.pipelines@), archive: self.archive@ }
    }
}

/// A batch being compiled.
#[derive(Debug)]
pub struct BatchCompile<P> {
    batch: Batch,
    /// Is there a cache directory?
    cached: bool,
    /// Was the batch's archive found in it?
    hit: bool,
    /// For each library settled so far, why it could not be built.
    libraries: Vec<Option<Error>>,
    /// What each request settled so far came to.
    built: Vec<Result<P, Error>>,
}

/// What a [`BatchCompile`] knows.
pub struct BatchCompileView<P> {
    /// The batch.
    pub batch: BatchView,
    /// Is there a cache directory?
    pub cached: bool,
    /// Was the batch's archive found in it?
    pub hit: bool,
    /// For each library settled so far, why it could not be built.
    pub libraries: Seq<Option<ErrorView>>,
    /// What each request settled so far came to.
    pub built: Seq<Result<P, ErrorView>>,
}

impl<P> View for BatchCompile<P> {
    type V = BatchCompileView<P>;

    closed spec fn view(&self) -> BatchCompileView<P> {
        BatchCompileView {
            batch: self.batch@,
            cached: self.cached,
            hit: self.hit,
            libraries: refusals_view(self.libraries@),
            built: built_view(self.built@),
        }
    }
}

/// What to do next for a batch.
#[derive(Clone, Copy, Debug, PartialEq, Eq, Structural)]
pub enum CompileAction {
    /// Look the batch's archive up.
    LookUp,
    /// Build the library of this file.
    BuildLibrary(usize),
    /// Build this request's pipeline.
    BuildPipeline {
        /// Which request.
        request: usize,
        /// Off which library.
        library: usize,
        /// Looking in the archive that was found.
        lookup: bool,
    },
    /// Write the archive.
    Write,
}

/// What came of it.
#[derive(Debug)]
pub enum CompileEvent<P> {
    /// The archive was found and can be used, or not.
    Looked(bool),
    /// The library was built, or was not.
    Library(Result<(), Error>),
    /// The pipeline was built, or was not.
    Pipeline(Result<P, Error>),
    /// The archive was written, or was not.
    Written(Result<(), Error>),
}

/// [`CompileEvent`] with its texts as sequences.
pub enum CompileEventView<P> {
    Looked(bool),
    Library(Result<(), ErrorView>),
    Pipeline(Result<P, ErrorView>),
    Written(Result<(), ErrorView>),
}

impl<P> View for CompileEvent<P> {
    type V = CompileEventView<P>;

    open spec fn view(&self) -> CompileEventView<P> {
        match *self {
            CompileEvent::Looked(found) => CompileEventView::Looked(found),
            CompileEvent::Library(r) => CompileEventView::Library(result_view(r)),
            CompileEvent::Pipeline(r) => CompileEventView::Pipeline(result_view(r)),
            CompileEvent::Written(r) => CompileEventView::Written(result_view(r)),
        }
    }
}

/// Where a batch stands: something is to be done for it, or it is done.
#[derive(Debug)]
pub enum CompileNext<P> {
    /// Do this, and say what came of it.
    Act(BatchCompile<P>, CompileAction),
    /// The batch is done.
    Done(Compiled<P>),
}

/// [`CompileNext`] with its texts as sequences.
pub enum CompileNextView<P> {
    Act(BatchCompileView<P>, CompileAction),
    Done(CompiledView<P>),
}

impl<P> View for CompileNext<P> {
    type V = CompileNextView<P>;

    open spec fn view(&self) -> CompileNextView<P> {
        match *self {
            CompileNext::Act(s, action) => CompileNextView::Act(s@, action),
            CompileNext::Done(c) => CompileNextView::Done(c@),
        }
    }
}

/// A read failure, restated for the requests that share it.
pub open spec fn unreadable(e: ErrorView, path: Seq<char>) -> ErrorView {
    ErrorView::Compile { function: Seq::empty(), message: path + ": "@ + error::error_text(e) }
}

/// A library's failure, restated for the requests that share it.
pub open spec fn shared(e: ErrorView) -> ErrorView {
    ErrorView::Compile { function: Seq::empty(), message: error::error_text(e) }
}

/// Every request built.
pub open spec fn every_one_built<P>(built: Seq<Result<P, ErrorView>>) -> bool {
    forall|i: int| 0 <= i < built.len() ==> #[trigger] built[i] is Ok
}

impl<P> BatchCompileView<P> {
    /// No more is settled than was asked for, and no request before the
    /// libraries.
    pub open spec fn wf(self) -> bool {
        &&& self.batch.wf()
        &&& self.libraries.len() <= self.batch.paths.len() <= usize::MAX
        &&& self.built.len() <= self.batch.library_of.len() <= usize::MAX
        &&& self.libraries.len() < self.batch.paths.len() ==> self.built.len() == 0
    }

    /// The next thing to do is the building of a library.
    pub open spec fn on_library(self) -> bool {
        &&& self.libraries.len() < self.batch.paths.len()
        &&& self.batch.unread[self.libraries.len() as int] is None
    }

    /// The next thing to do is the building of a pipeline.
    pub open spec fn on_pipeline(self) -> bool {
        &&& self.libraries.len() == self.batch.paths.len()
        &&& self.built.len() < self.batch.library_of.len()
        &&& self.libraries[self.batch.library_of[self.built.len() as int]] is None
    }

    /// Is this what can come next?
    pub open spec fn awaits(self, event: CompileEventView<P>) -> bool {
        match event {
            CompileEventView::Looked(_) => self.cached && self.libraries.len() == 0,
            CompileEventView::Library(_) => self.on_library(),
            CompileEventView::Pipeline(_) => self.on_pipeline(),
            CompileEventView::Written(_) => self.libraries.len() == self.batch.paths.len()
                && self.built.len() == self.batch.library_of.len(),
        }
    }

    /// One more library is settled.
    pub open spec fn with_library(self, failure: Option<ErrorView>) -> Self {
        BatchCompileView { libraries: self.libraries.push(failure), ..self }
    }

    /// One more request is settled.
    pub open spec fn with_built(self, result: Result<P, ErrorView>) -> Self {
        BatchCompileView { built: self.built.push(result), ..self }
    }

    /// The batch as it stands, with this said of its archive.
    pub open spec fn done(self, archive: ArchivedView) -> CompileNextView<P> {
        CompileNextView::Done(CompiledView { pipelines: self.built, archive })
    }

    /// What is left to settle.
    pub open spec fn left(self) -> nat {
        ((self.batch.paths.len() - self.libraries.len()) + (self.batch.library_of.len()
            - self.built.len())) as nat
    }
}

/// A batch whose requests are all settled: what became of its archive, or that
/// it is to be written. A partial archive would be served back on the next run
/// as if it were the whole batch.
pub open spec fn settled<P>(s: BatchCompileView<P>) -> CompileNextView<P> {
    if s.hit {
        s.done(ArchivedView::Hit)
    } else if !s.cached {
        s.done(ArchivedView::Disabled)
    } else if !every_one_built(s.built) {
        s.done(ArchivedView::Skipped)
    } else {
        CompileNextView::Act(s, CompileAction::Write)
    }
}

/// Settle what needs no compiler, up to the first thing that does: a file that
/// was not read is no library, and a request without its library fails with it.
pub open spec fn advanced<P>(s: BatchCompileView<P>) -> CompileNextView<P>
    recommends
        s.wf(),
    decreases s.batch.paths.len() - s.libraries.len(), s.batch.library_of.len() - s.built.len(),
{
    if s.libraries.len() < s.batch.paths.len() {
        let j = s.libraries.len() as int;
        match s.batch.unread[j] {
            Some(e) => advanced(s.with_library(Some(unreadable(e, s.batch.paths[j])))),
            None => CompileNextView::Act(s, CompileAction::BuildLibrary(j as usize)),
        }
    } else if s.built.len() < s.batch.library_of.len() {
        let i = s.built.len() as int;
        let library = s.batch.library_of[i];
        match s.libraries[library] {
            Some(e) => advanced(s.with_built(Err(shared(e)))),
            None => CompileNextView::Act(
                s,
                CompileAction::BuildPipeline {
                    request: i as usize,
                    library: library as usize,
                    lookup: s.hit,
                },
            ),
        }
    } else {
        settled(s)
    }
}

/// A batch with nothing settled.
pub open spec fn unsettled<P>(batch: BatchView, cached: bool) -> BatchCompileView<P> {
    BatchCompileView {
        batch,
        cached,
        hit: false,
        libraries: Seq::empty(),
        built: Seq::empty(),
    }
}

/// Where a batch begins. One of no requests leaves the cache alone.
pub open spec fn begun<P>(batch: BatchView, cached: bool) -> CompileNextView<P> {
    let s = unsettled::<P>(batch, cached);
    if batch.library_of.len() == 0 {
        s.done(ArchivedView::Skipped)
    } else if cached {
        CompileNextView::Act(s, CompileAction::LookUp)
    } else {
        advanced(s)
    }
}

/// Where a batch stands next, after this.
pub open spec fn continued<P>(s: BatchCompileView<P>, event: CompileEventView<P>) -> CompileNextView<
    P,
> {
    match event {
        CompileEventView::Looked(found) => advanced(BatchCompileView { hit: found, ..s }),
        CompileEventView::Library(r) => advanced(
            s.with_library(
                match r {
                    Ok(_) => None,
                    Err(e) => Some(e),
                },
            ),
        ),
        CompileEventView::Pipeline(r) => advanced(s.with_built(r)),
        CompileEventView::Written(r) => s.done(
            match r {
                Ok(_) => ArchivedView::Written,
                Err(e) => ArchivedView::Failed(e),
            },
        ),
    }
}

/// The runtime shader compiler, as far as its cache goes.
#[derive(Debug)]
pub struct Compiler {
    /// The directory archives are looked up and written in, if there is one.
    archives: Option<String>,
}

impl Compiler {
    /// The cache directory, if there is one.
    pub closed spec fn cache(&self) -> Option<String> {
        self.archives
    }

    /// A compiler against a cache directory, or against none.
    pub fn with_archives(archives: Option<String>) -> (compiler: Self)
        ensures
            compiler.cache() == archives,
    {
        Compiler { archives }
    }

    /// Where this compiler caches compiled pipelines.
    pub fn archives(&self) -> (archives: &Option<String>)
        ensures
            *archives == self.cache(),
    {
        &self.archives
    }

    /// Begin building every request of a batch, reusing libraries and the
    /// archive.
    ///
    /// Positional: one result per request, in order, and a request that fails
    /// fails alone. The archive is written only on a miss, and only when every
    /// request built.
    pub fn compile_batch<P>(&self, batch: Batch) -> (next: CompileNext<P>)
        requires
            batch@.wf(),
        ensures
            next@ == begun::<P>(batch@, self.cache() is Some),
            next matches CompileNext::Act(s, _) ==> s@.wf(),
    {
        let cached = self.archives.is_some();
        let state: BatchCompile<P> = BatchCompile {
            batch,
            cached,
            hit: false,
            libraries: Vec::new(),
            built: Vec::new(),
        };
        assert(state@.libraries =~= Seq::<Option<ErrorView>>::empty());
        assert(state@.built =~= Seq::<Result<P, ErrorView>>::empty());
        assert(state.batch.paths.len() <= usize::MAX && state.batch.requests.len() <= usize::MAX);
        if state.batch.requests.len() == 0 {
            return state.finish(Archived::Skipped);
        }
        if cached {
            return CompileNext::Act(state, CompileAction::LookUp);
        }
        state.advance()
    }
}

impl<P> BatchCompile<P> {
    /// Go on with the batch, after this.
    pub fn resume(self, event: CompileEvent<P>) -> (next: CompileNext<P>)
        requires
            self@.wf(),
            self@.awaits(event@),
        ensures
            next@ == continued(self@, event@),
            next matches CompileNext::Act(s, _) ==> s@.wf(),
    {
        let mut state = self;
        match event {
            CompileEvent::Looked(found) => {
                state.hit = found;
                state.advance()
            },
            CompileEvent::Library(r) => {
                let failure: Option<Error> = match r {
                    Ok(_) => None,
                    Err(e) => Some(e),
                };
                state.libraries.push(failure);
                assert(state@.libraries =~= self@.libraries.push(refusal_view(failure)));
                state.advance()
            },
            CompileEvent::Pipeline(r) => {
                state.built.push(r);
                assert(state@.built =~= self@.built.push(result_view(r)));
                state.advance()
            },
            CompileEvent::Written(r) => {
                let archive = match r {
                    Ok(_) => Archived::Written,
                    Err(e) => Archived::Failed(e),
                };
                state.finish(archive)
            },
        }
    }

    /// The batch as it stands, with this said of its archive.
    fn finish(self, archive: Archived) -> (next: CompileNext<P>)
        ensures
            next@ == self@.done(archive@),
            next is Done,
    {
        CompileNext::Done(Compiled { pipelines: self.built, archive })
    }

    /// Settle what needs no compiler, up to the first thing that does.
    fn advance(self) -> (next: CompileNext<P>)
        requires
            self@.wf(),
        ensures
            next@ == advanced(self@),
            next matches CompileNext::Act(s, _) ==> s@.wf(),
    {
        let mut state = self;
        while state.libraries.len() < state.batch.paths.len()
            invariant
                state@.wf(),
                advanced(state@) == advanced(self@),
            decreases state@.batch.paths.len() - state@.libraries.len(),
        {
            let j: usize = state.libraries.len();
            let ghost before = state@;
            assert(before.batch.unread[j as int] == refusal_view(state.batch.unread@[j as int]));
            let failure: Option<Error> = match &state.batch.unread[j] {
                None => None,
                Some(e) => Some(clone_read_error(e, state.batch.paths[j].as_str())),
            };
            if failure.is_none() {
                return CompileNext::Act(state, CompileAction::BuildLibrary(j));
            }
            state.libraries.push(failure);
            assert(state@.libraries =~= before.libraries.push(refusal_view(failure)));
            assert(state@ == before.with_library(refusal_view(failure)));
        }
        while state.built.len() < state.batch.requests.len()
            invariant
                state@.wf(),
                state@.libraries.len() == state@.batch.paths.len(),
                advanced(state@) == advanced(self@),
            decreases state@.batch.library_of.len() - state@.built.len(),
        {
            let i: usize = state.built.len();
            let ghost before = state@;
            let library: usize = state.batch.requests[i].library;
            assert(before.batch.library_of[i as int] == library);
            assert(before.libraries[library as int] == refusal_view(
                state.libraries@[library as int],
            ));
            let failure: Option<Error> = match &state.libraries[library] {
                None => None,
                Some(e) => Some(clone_error(e)),
            };
            match failure {
                None => {
                    let lookup = state.hit;
                    return CompileNext::Act(
                        state,
                        CompileAction::BuildPipeline { request: i, library, lookup },
                    );
                },
                Some(e) => {
                    let result: Result<P, Error> = Err(e);
                    state.built.push(result);
                    assert(state@.built =~= before.built.push(result_view(result)));
                    assert(state@ == before.with_built(result_view(result)));
                },
            }
        }
        if state.hit {
            return state.finish(Archived::Hit);
        }
        if !state.cached {
            return state.finish(Archived::Disabled);
        }
        if !all_built(&state.built) {
            return state.finish(Archived::Skipped);
        }
        CompileNext::Act(state, CompileAction::Write)
    }
}

/// What the file system and the compiler answer for a batch.
pub struct Answers<P> {
    /// The batch's archive is found and can be used.
    pub found: bool,
    /// What building each library comes to.
    pub library: spec_fn(int) -> Result<(), ErrorView>,
    /// What building each request's pipeline comes to.
    pub pipeline: spec_fn(int) -> Result<P, ErrorView>,
    /// What writing the archive comes to.
    pub written: Result<(), ErrorView>,
}

/// The answer to an action.
pub open spec fn answered<P>(a: Answers<P>, action: CompileAction) -> CompileEventView<P> {
    match action {
        CompileAction::LookUp => CompileEventView::Looked(a.found),
        CompileAction::BuildLibrary(j) => CompileEventView::Library((a.library)(j as int)),
        CompileAction::BuildPipeline { request, .. } => CompileEventView::Pipeline(
            (a.pipeline)(request as int),
        ),
        CompileAction::Write => CompileEventView::Written(a.written),
    }
}

/// What a batch comes to when each action is answered in its turn, if that
/// takes no more than `turns`.
pub open spec fn driven<P>(next: CompileNextView<P>, a: Answers<P>, turns: nat) -> Option<
    CompiledView<P>,
>
    decreases turns,
{
    match next {
        CompileNextView::Done(c) => Some(c),
        CompileNextView::Act(s, action) => if turns == 0 {
            None
        } else {
            driven(continued(s, answered(a, action)), a, (turns - 1) as nat)
        },
    }
}

/// Why a library is not there, if it is not: its file was not read, or it did
/// not build.
pub open spec fn library_failure<P>(batch: BatchView, a: Answers<P>, j: int) -> Option<ErrorView> {
    match batch.unread[j] {
        Some(e) => Some(unreadable(e, batch.paths[j])),
        None => match (a.library)(j) {
            Ok(_) => None,
            Err(e) => Some(e),
        },
    }
}

/// What one request comes to: its library's failure, or its own build.
pub open spec fn request_result<P>(batch: BatchView, a: Answers<P>, i: int) -> Result<
    P,
    ErrorView,
> {
    match library_failure(batch, a, batch.library_of[i]) {
        Some(e) => Err(shared(e)),
        None => (a.pipeline)(i),
    }
}

/// What every request comes to, in order.
pub open spec fn request_results<P>(batch: BatchView, a: Answers<P>) -> Seq<
    Result<P, ErrorView>,
> {
    Seq::new(batch.library_of.len(), |i: int| request_result(batch, a, i))
}

/// What becomes of a batch's archive.
pub open spec fn archive_of<P>(batch: BatchView, cached: bool, a: Answers<P>) -> ArchivedView {
    if batch.library_of.len() == 0 {
        ArchivedView::Skipped
    } else if !cached {
        ArchivedView::Disabled
    } else if a.found {
        ArchivedView::Hit
    } else if !every_one_built(request_results(batch, a)) {
        ArchivedView::Skipped
    } else {
        match a.written {
            Ok(_) => ArchivedView::Written,
            Err(e) => ArchivedView::Failed(e),
        }
    }
}

/// What is settled so far is what the answers make of it.
spec fn on_course<P>(s: BatchCompileView<P>, a: Answers<P>) -> bool {
    &&& s.wf()
    &&& s.batch.library_of.len() > 0
    &&& s.hit == (s.cached && a.found)
    &&& forall|j: int|
        0 <= j < s.libraries.len() ==> #[trigger] s.libraries[j] == library_failure(s.batch, a, j)
    &&& forall|i: int|
        0 <= i < s.built.len() ==> #[trigger] s.built[i] == request_result(s.batch, a, i)
}

proof fn lemma_driven_to_the_end<P>(s: BatchCompileView<P>, a: Answers<P>, turns: nat)
    requires
        on_course(s, a),
        turns > s.left(),
    ensures
        driven(advanced(s), a, turns) == Some(
            CompiledView {
                pipelines: request_results(s.batch, a),
                archive: archive_of(s.batch, s.cached, a),
            },
        ),
    decreases s.left(),
{
    if s.libraries.len() < s.batch.paths.len() {
        let j = s.libraries.len() as int;
        match s.batch.unread[j] {
            Some(e) => {
                let next = s.with_library(Some(unreadable(e, s.batch.paths[j])));
                lemma_driven_to_the_end(next, a, turns);
            },
            None => {
                let failure = library_failure(s.batch, a, j);
                lemma_driven_to_the_end(s.with_library(failure), a, (turns - 1) as nat);
            },
        }
    } else if s.built.len() < s.batch.library_of.len() {
        let i = s.built.len() as int;
        let library = s.batch.library_of[i];
        assert(s.libraries[library] == library_failure(s.batch, a, library));
        let next = s.with_built(request_result(s.batch, a, i));
        match s.libraries[library] {
            Some(e) => {
                lemma_driven_to_the_end(next, a, turns);
            },
            None => {
                lemma_driven_to_the_end(next, a, (turns - 1) as nat);
            },
        }
    } else {
        assert(s.built =~= request_results(s.batch, a));
        reveal_with_fuel(driven, 2);
    }
}

/// Answered turn by turn, a batch gets done, with one result per request, in
/// order: its library's failure or its own build, and nothing of any other
/// request's.
pub proof fn law_a_request_that_fails_fails_alone<P>(
    batch: BatchView,
    cached: bool,
    a: Answers<P>,
    turns: nat,
)
    requires
        batch.wf(),
        batch.paths.len() <= usize::MAX,
        batch.library_of.len() <= usize::MAX,
        turns >= batch.paths.len() + batch.library_of.len() + 2,
    ensures
        driven(begun::<P>(batch, cached), a, turns) == Some(
            CompiledView {
                pipelines: request_results(batch, a),
                archive: archive_of(batch, cached, a),
            },
        ),
{
    let s = unsettled::<P>(batch, cached);
    if batch.library_of.len() == 0 {
        assert(s.built =~= request_results(batch, a));
    } else if cached {
        let looked = BatchCompileView { hit: a.found, ..s };
        lemma_driven_to_the_end(looked, a, (turns - 1) as nat);
    } else {
        lemma_driven_to_the_end(s, a, turns);
    }
}

/// An archive is written only on a miss, and only when every request built.
pub proof fn law_only_a_whole_batch_is_archived<P>(batch: BatchView, cached: bool, a: Answers<P>)
    ensures
        archive_of(batch, cached, a) is Written ==> cached && !a.found && every_one_built(
            request_results(batch, a),
        ),
{
}

/// What becomes of an archive follows from what was there and what was built:
/// a batch of nothing leaves it alone, without a directory there is none, one
/// that was found serves the batch, and one that was not is written where every
/// request built.
pub proof fn law_the_archive_tells_what_was_done<P>(batch: BatchView, cached: bool, a: Answers<P>)
    requires
        batch.library_of.len() > 0,
    ensures
        archive_of(batch, cached, a) is Disabled <==> !cached,
        archive_of(batch, cached, a) is Hit <==> cached && a.found,
        archive_of(batch, cached, a) is Skipped <==> cached && !a.found && exists|i: int|
            0 <= i < batch.library_of.len() && #[trigger] request_result(batch, a, i) is Err,
        archive_of(batch, cached, a) is Written ==> a.written is Ok,
        archive_of(batch, cached, a) matches ArchivedView::Failed(e) ==> a.written == Err::<
            (),
            ErrorView,
        >(e),
{
    let results = request_results(batch, a);
    if every_one_built(results) {
        assert forall|i: int| 0 <= i < batch.library_of.len() implies !(
        #[trigger] request_result(batch, a, i) is Err) by {
            assert(results[i] is Ok);
        }
    } else {
        let i = choose|i: int| 0 <= i < results.len() && !(#[trigger] results[i] is Ok);
        assert(request_result(batch, a, i) is Err);
    }
}

/// A batch asks for its own next work: the next library whose file was read;
/// the next request's pipeline, off that request's library, which was built,
/// and looking in the archive exactly where one was found; and the archive's
/// writing only on a miss, once every request has built. What it asks for is
/// what it then awaits, and when it is done every request has its result.
pub proof fn law_a_batch_asks_for_its_own_next_work<P>(s: BatchCompileView<P>)
    requires
        s.wf(),
    ensures
        match advanced(s) {
            CompileNextView::Act(t, action) => {
                &&& t.wf()
                &&& t.batch == s.batch && t.cached == s.cached && t.hit == s.hit
                &&& match action {
                    CompileAction::LookUp => false,
                    CompileAction::BuildLibrary(j) => {
                        &&& j == t.libraries.len() && j < t.batch.paths.len()
                        &&& t.batch.unread[j as int] is None
                        &&& forall|r: Result<(), ErrorView>| #[trigger]
                            t.awaits(CompileEventView::Library(r))
                    },
                    CompileAction::BuildPipeline { request, library, lookup } => {
                        &&& request == t.built.len() && request < t.batch.library_of.len()
                        &&& library == t.batch.library_of[request as int]
                        &&& t.libraries.len() == t.batch.paths.len()
                        &&& t.libraries[library as int] is None
                        &&& lookup == t.hit
                        &&& forall|r: Result<P, ErrorView>| #[trigger]
                            t.awaits(CompileEventView::Pipeline(r))
                    },
                    CompileAction::Write => {
                        &&& t.cached && !t.hit
                        &&& t.built.len() == t.batch.library_of.len()
                        &&& forall|i: int| 0 <= i < t.built.len() ==> #[trigger] t.built[i] is Ok
                        &&& forall|r: Result<(), ErrorView>| #[trigger]
                            t.awaits(CompileEventView::Written(r))
                    },
                }
            },
            CompileNextView::Done(c) => c.pipelines.len() == s.batch.library_of.len(),
        },
    decreases s.left(),
{
    if s.libraries.len() < s.batch.paths.len() {
        let j = s.libraries.len() as int;
        if let Some(e) = s.batch.unread[j] {
            law_a_batch_asks_for_its_own_next_work(
                s.with_library(Some(unreadable(e, s.batch.paths[j]))),
            );
        }
    } else if s.built.len() < s.batch.library_of.len() {
        let i = s.built.len() as int;
        if let Some(e) = s.libraries[s.batch.library_of[i]] {
            law_a_batch_asks_for_its_own_next_work(s.with_built(Err(shared(e))));
        }
    }
}

/// A batch that built hands over each request's own pipeline, in the requests'
/// order.
pub proof fn law_each_pipeline_is_its_own_requests<P>(results: Seq<Result<P, Error>>, i: int, p: P)
    requires
        0 <= i < results.len(),
        results[i] == Ok::<P, Error>(p),
    ensures
        pipelines_of(results).len() == results.len(),
        pipelines_of(results)[i] == p,
{
}

/// The failure a batch reports is the first: every request before it built. It
/// reports none exactly where every request did.
pub proof fn law_the_first_failure_is_reported<P>(results: Seq<Result<P, Error>>)
    ensures
        match first_failure(results) {
            None => forall|i: int| 0 <= i < results.len() ==> #[trigger] results[i] is Ok,
            Some(e) => exists|i: int|
                #![trigger results[i]]
                0 <= i < results.len() && results[i] == Err::<P, Error>(e) && forall|j: int|
                    0 <= j < i ==> #[trigger] results[j] is Ok,
        },
    decreases results.len(),
{
    if results.len() > 0 && results[0] is Ok {
        let rest = results.skip(1);
        law_the_first_failure_is_reported(rest);
        match first_failure(rest) {
            None => {
                assert forall|i: int| 0 <= i < results.len() implies #[trigger] results[i] is Ok by {
                    if i > 0 {
                        assert(rest[i - 1] is Ok);
                    }
                }
            },
            Some(e) => {
                let k = choose|k: int|
                    #![trigger rest[k]]
                    0 <= k < rest.len() && rest[k] == Err::<P, Error>(e) && forall|j: int|
                        0 <= j < k ==> #[trigger] rest[j] is Ok;
                assert(results[k + 1] == Err::<P, Error>(e));
                assert forall|j: int| 0 <= j < k + 1 implies #[trigger] results[j] is Ok by {
                    if j > 0 {
                        assert(rest[j - 1] is Ok);
                    }
                }
            },
        }
    }
}

/// A failure restated blames no entry point and ends with its own text, behind
/// the path where it is a file's.
pub proof fn law_a_restated_failure_keeps_its_text(e: ErrorView, path: Seq<char>)
    ensures
        shared(e) matches ErrorView::Compile { function, message } && function.len() == 0 && message
            == error::error_text(e),
        unreadable(e, path) matches ErrorView::Compile { function, message } && function.len() == 0
            && path.is_prefix_of(message) && error::error_text(e).is_suffix_of(message)
            && message.len() == path.len() + 2 + error::error_text(e).len(),
{
    reveal_strlit(": ");
    let message = unreadable(e, path)->Compile_message;
    let text = error::error_text(e);
    assert(path =~= message.subrange(0, path.len() as int));
    assert(text =~= message.subrange((message.len() - text.len()) as int, message.len() as int));
}

/// Restate a read failure that several requests have to share: the path and
/// the text, which is everything a caller reads out of it.
pub fn clone_read_error(error: &Error, path: &str) -> (restated: Error)
    ensures
        restated@ == unreadable(error@, path@),
{
    let text = error.text();
    let mut message = String::from_str(path);
    message.append(": ");
    message.append(text.as_str());
    Error::Compile { function: String::new(), message }
}

/// The same, for a library failure shared by several requests.
pub fn clone_error(error: &Error) -> (restated: Error)
    ensures
        restated@ == shared(error@),
{
    Error::Compile { function: String::new(), message: error.text() }
}

/// A list of names with a comma between each two.
pub open spec fn listed(exported: Seq<String>) -> Seq<char>
    decreases exported.len(),
{
    if exported.len() == 0 {
        Seq::empty()
    } else if exported.len() == 1 {
        exported[0]@
    } else {
        listed(exported.drop_last()) + ", "@ + exported.last()@
    }
}

/// Some library function has this name.
pub open spec fn exports(exported: Seq<String>, function: Seq<char>) -> bool {
    exists|i: int| 0 <= i < exported.len() && #[trigger] exported[i]@ == function
}

/// The names, with a comma between each two.
fn join_names(exported: &Vec<String>) -> (text: String)
    ensures
        text@ == listed(exported@),
{
    let mut text = String::new();
    let mut i: usize = 0;
    assert(exported@.take(0) =~= Seq::<String>::empty());
    while i < exported.len()
        invariant
            i <= exported@.len(),
            text@ == listed(exported@.take(i as int)),
        decreases exported@.len() - i,
    {
        assert(exported@.take(i + 1).drop_last() =~= exported@.take(i as int));
        assert(exported@.take(i + 1).last() == exported@[i as int]);
        if i > 0 {
            text.append(", ");
        }
        text.append(exported[i].as_str());
        assert(text@ =~= listed(exported@.take(i + 1)));
        i += 1;
    }
    assert(exported@.take(i as int) =~= exported@);
    text
}

/// Does the library export the entry point? Asked before the pipeline is
/// built, so the refusal can list what it does export.
pub fn check_entry(exported: &Vec<String>, function: &str) -> (checked: Result<(), Error>)
    ensures
        checked is Ok <==> exports(exported@, function@),
        checked matches Err(e) ==> e@ == (ErrorView::Compile {
            function: function@,
            message:
                "the source compiled but exports no such entry point; it exports ["@ + listed(
                exported@,
            ) + "]"@,
        }),
{
    let mut i: usize = 0;
    while i < exported.len()
        invariant
            i <= exported@.len(),
            forall|j: int| 0 <= j < i ==> #[trigger] exported@[j]@ != function@,
        decreases exported@.len() - i,
    {
        if str_eq(exported[i].as_str(), function) {
            return Ok(());
        }
        i += 1;
    }
    let names = join_names(exported);
    let mut message = String::from_str(
        "the source compiled but exports no such entry point; it exports [",
    );
    message.append(names.as_str());
    message.append("]");
    Err(Error::Compile { function: function.to_owned(), message })
}

/// The word a device and a language version come to.
pub open spec fn salted(registry_id: u64, language_version: u64) -> u64 {
    registry_id ^ ((language_version << 32) | (language_version >> 32))
}

/// What an archive's key includes that the sources do not say: the device,
/// because a binary compiled for one is not valid on another, and the language
/// version, turned half-way round, because the same text compiled as two
/// dialects is two sets of binaries.
pub fn salt(registry_id: u64, language_version: u64) -> (salt: u64)
    ensures
        salt == registry_id ^ ((language_version << 32) | (language_version >> 32)),
        salt == salted(registry_id, language_version),
{
    registry_id ^ ((language_version << 32) | (language_version >> 32))
}

/// On one device, language versions of 32 bits salt differently; under one
/// language version, devices do.
pub proof fn law_the_salt_tells_devices_and_dialects_apart(a: u64, v: u64, b: u64, w: u64)
    requires
        v <= u32::MAX,
        w <= u32::MAX,
    ensures
        v != w ==> a ^ ((v << 32) | (v >> 32)) != a ^ ((w << 32) | (w >> 32)),
        a != b ==> a ^ ((v << 32) | (v >> 32)) != b ^ ((v << 32) | (v >> 32)),
{
    assert(v <= 0xffff_ffff && w <= 0xffff_ffff && v != w ==> a ^ ((v << 32u64) | (v >> 32u64)) != a
        ^ ((w << 32u64) | (w >> 32u64))) by (bit_vector);
    assert(a != b ==> a ^ ((v << 32u64) | (v >> 32u64)) != b ^ ((v << 32u64) | (v >> 32u64)))
        by (bit_vector);
}

/// The salt keeps the device's low half, and has the language version in its
/// high half: a version of 32 bits changes no bit of the low one.
pub proof fn law_the_version_lands_in_the_high_half(registry_id: u64, language_version: u64)
    requires
        language_version <= u32::MAX,
    ensures
        salted(registry_id, language_version) & 0xffff_ffff == registry_id & 0xffff_ffff,
        salted(registry_id, language_version) >> 32 == (registry_id >> 32) ^ language_version,
{
    let a = registry_id;
    let v = language_version;
    assert((a ^ ((v << 32u64) | (v >> 32u64))) & 0xffff_ffff == a & 0xffff_ffff) by (bit_vector)
        requires
            v <= 0xffff_ffff,
    ;
    assert((a ^ ((v << 32u64) | (v >> 32u64))) >> 32u64 == (a >> 32u64) ^ v) by (bit_vector)
        requires
            v <= 0xffff_ffff,
    ;
}

/// A refused entry point is answered with every name the library exports.
pub proof fn law_every_export_is_listed(exported: Seq<String>, i: int)
    requires
        0 <= i < exported.len(),
    ensures
        says(listed(exported), exported[i]@),
    decreases exported.len(),
{
    let name = exported[i]@;
    let whole = listed(exported);
    if exported.len() == 1 {
        assert(whole.subrange(0, 0int + name.len()) =~= name);
    } else if i == exported.len() - 1 {
        let k = whole.len() - name.len();
        assert(whole.subrange(k, k + name.len()) =~= name);
    } else {
        let before = exported.drop_last();
        law_every_export_is_listed(before, i);
        assert(before[i] == exported[i]);
        let k = choose|k: int|
            0 <= k <= listed(before).len() - name.len() && #[trigger] listed(before).subrange(
                k,
                k + name.len(),
            ) == name;
        assert(whole.subrange(k, k + name.len()) =~= listed(before).subrange(k, k + name.len()));
    }
}

} // verus!
