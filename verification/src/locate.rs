//! The search for the nearest directory that holds a file, from a
//! directory upward. The search decides; the caller looks at the disk.

use vstd::prelude::*;
use crate::path::{FsPath, PathModel};

verus! {

/// What a directory holds under the name that is searched for.
#[derive(Debug, Clone, Copy, PartialEq, Eq, Structural)]
pub enum FileState {
    /// No such file.
    Absent,
    /// A file that no known schema can read.
    Corrupt,
    /// A file that can be read.
    Valid,
}

/// Whether a file ends the search: a search that parses asks for a file
/// that can be read, one that does not is content with any file.
pub open spec fn qualifies(state: FileState, parsing: bool) -> bool {
    state == FileState::Valid || (!parsing && state == FileState::Corrupt)
}

/// The nearest directory, from `dir` upward and `dir` included, whose
/// file qualifies.
pub open spec fn located(
    dir: PathModel,
    files: spec_fn(PathModel) -> FileState,
    parsing: bool,
) -> Option<PathModel>
    decreases dir.components.len(),
{
    if qualifies(files(dir), parsing) {
        Some(dir)
    } else {
        match dir.parent() {
            Some(parent) => located(parent, files, parsing),
            None => None,
        }
    }
}

/// The directory `levels` above `dir`; the anchor where there are fewer.
pub open spec fn ancestor(dir: PathModel, levels: nat) -> PathModel {
    PathModel {
        anchor: dir.anchor,
        components: dir.components.subrange(
            0,
            if levels <= dir.components.len() {
                dir.components.len() - levels
            } else {
                0
            },
        ),
    }
}

/// Where no file qualifies from a directory up to its anchor, the search
/// finds nothing.
pub proof fn lemma_nothing_located(
    dir: PathModel,
    files: spec_fn(PathModel) -> FileState,
    parsing: bool,
)
    requires
        forall|levels: nat|
            levels <= dir.components.len() ==> !qualifies(
                #[trigger] files(ancestor(dir, levels)),
                parsing,
            ),
    ensures
        located(dir, files, parsing) is None,
    decreases dir.components.len(),
{
    assert(ancestor(dir, 0).components =~= dir.components);
    assert(ancestor(dir, 0) == dir);
    if dir.components.len() > 0 {
        let parent = dir.parent().unwrap();
        assert forall|levels: nat| levels <= parent.components.len() implies !qualifies(
            #[trigger] files(ancestor(parent, levels)),
            parsing,
        ) by {
            assert(ancestor(parent, levels).components =~= ancestor(
                dir,
                levels + 1,
            ).components);
            assert(ancestor(parent, levels) == ancestor(dir, levels + 1));
        }
        lemma_nothing_located(parent, files, parsing);
    }
}

/// What the search finds is the nearest directory whose file qualifies:
/// it lies `levels` above the start, for some `levels`, and no file
/// nearer to the start qualifies.
pub proof fn lemma_located_is_nearest(
    dir: PathModel,
    files: spec_fn(PathModel) -> FileState,
    parsing: bool,
) -> (levels: nat)
    requires
        located(dir, files, parsing) is Some,
    ensures
        levels <= dir.components.len(),
        located(dir, files, parsing) == Some(ancestor(dir, levels)),
        qualifies(files(ancestor(dir, levels)), parsing),
        forall|nearer: nat| nearer < levels ==> !qualifies(
            #[trigger] files(ancestor(dir, nearer)),
            parsing,
        ),
    decreases dir.components.len(),
{
    assert(ancestor(dir, 0).components =~= dir.components);
    assert(ancestor(dir, 0) == dir);
    if qualifies(files(dir), parsing) {
        0
    } else {
        let parent = dir.parent().unwrap();
        let above = lemma_located_is_nearest(parent, files, parsing);
        assert forall|levels: nat| levels <= parent.components.len() implies ancestor(
            parent,
            levels,
        ) == ancestor(dir, levels + 1) by {
            assert(ancestor(parent, levels).components =~= ancestor(
                dir,
                levels + 1,
            ).components);
        }
        assert forall|nearer: nat| nearer < above + 1 implies !qualifies(
            #[trigger] files(ancestor(dir, nearer)),
            parsing,
        ) by {
            if nearer > 0 {
                assert(ancestor(parent, (nearer - 1) as nat) == ancestor(dir, nearer));
            }
        }
        above + 1
    }
}

/// Where a search stands.
#[derive(Debug)]
pub enum SearchState {
    /// It is not known yet whether the directory holds the file.
    Probing(FsPath),
    /// The directory holds the file; it is not known yet whether the file
    /// can be read.
    Reading(FsPath),
    /// The search has ended at this directory.
    Found(FsPath),
    /// The search has ended, and found nothing.
    Exhausted,
}

/// Where a search stands, mathematically.
pub enum SearchModel {
    Probing(PathModel),
    Reading(PathModel),
    Found(PathModel),
    Exhausted,
}

impl DeepView for SearchState {
    type V = SearchModel;

    open spec fn deep_view(&self) -> SearchModel {
        match self {
            SearchState::Probing(dir) => SearchModel::Probing(dir@),
            SearchState::Reading(dir) => SearchModel::Reading(dir@),
            SearchState::Found(dir) => SearchModel::Found(dir@),
            SearchState::Exhausted => SearchModel::Exhausted,
        }
    }
}

/// What the search asks of its caller.
#[derive(Debug)]
pub enum Request {
    /// Says whether this file exists.
    Exists(FsPath),
    /// Says whether this file can be read under a known schema.
    Read(FsPath),
    /// Nothing: the search has ended, at this directory or without one.
    Done(Option<FsPath>),
}

/// What the caller has found on disk.
#[derive(Debug, Clone, Copy, PartialEq, Eq, Structural)]
pub enum Answer {
    /// Whether the file exists.
    Exists(bool),
    /// Whether the file could be read under a known schema.
    Parsed(bool),
}

/// A search for the nearest directory, from a start upward, that holds a
/// file of a given name.
#[derive(Debug)]
pub struct Search {
    /// The name of the file.
    pub file_name: String,
    /// Whether the file must be readable to end the search.
    pub parsing: bool,
    /// Where the search stands.
    pub state: SearchState,
}

/// The search above `dir`: at its parent, or at an end where it has none.
pub open spec fn ascend(dir: PathModel) -> SearchModel {
    match dir.parent() {
        Some(parent) => SearchModel::Probing(parent),
        None => SearchModel::Exhausted,
    }
}

/// Where a search stands after an answer. An answer to a question that
/// was not asked changes nothing.
pub open spec fn step_model(state: SearchModel, parsing: bool, answer: Answer) -> SearchModel {
    match (state, answer) {
        (SearchModel::Probing(dir), Answer::Exists(true)) => if parsing {
            SearchModel::Reading(dir)
        } else {
            SearchModel::Found(dir)
        },
        (SearchModel::Probing(dir), Answer::Exists(false)) => ascend(dir),
        (SearchModel::Reading(dir), Answer::Parsed(true)) => SearchModel::Found(dir),
        (SearchModel::Reading(dir), Answer::Parsed(false)) => ascend(dir),
        _ => state,
    }
}

/// Whether an answer says of the disk `files` what the search asked.
pub open spec fn truthful(
    state: SearchModel,
    answer: Answer,
    files: spec_fn(PathModel) -> FileState,
) -> bool {
    match (state, answer) {
        (SearchModel::Probing(dir), Answer::Exists(exists)) => exists == (files(dir)
            != FileState::Absent),
        (SearchModel::Reading(dir), Answer::Parsed(parsed)) => parsed == (files(dir)
            == FileState::Valid),
        _ => false,
    }
}

/// What a search that stands at `state` will find on the disk `files`.
pub open spec fn outcome(
    state: SearchModel,
    parsing: bool,
    files: spec_fn(PathModel) -> FileState,
) -> Option<PathModel> {
    match state {
        SearchModel::Probing(dir) => located(dir, files, parsing),
        SearchModel::Reading(dir) => if files(dir) == FileState::Valid {
            Some(dir)
        } else {
            match dir.parent() {
                Some(parent) => located(parent, files, parsing),
                None => None,
            }
        },
        SearchModel::Found(dir) => Some(dir),
        SearchModel::Exhausted => None,
    }
}

/// How far a search is from its end, at most.
pub open spec fn distance(state: SearchModel) -> nat {
    match state {
        SearchModel::Probing(dir) => 2 * dir.components.len() + 2,
        SearchModel::Reading(dir) => 2 * dir.components.len() + 1,
        SearchModel::Found(_) => 0,
        SearchModel::Exhausted => 0,
    }
}

/// A truthful answer leaves what the search will find as it was: so a
/// search that is answered truthfully to its end finds the nearest
/// directory whose file qualifies, and a file that cannot be read does not
/// hide one above it.
pub proof fn lemma_step_keeps_outcome(
    state: SearchModel,
    parsing: bool,
    answer: Answer,
    files: spec_fn(PathModel) -> FileState,
)
    requires
        truthful(state, answer, files),
        state is Reading ==> parsing,
    ensures
        outcome(step_model(state, parsing, answer), parsing, files) == outcome(
            state,
            parsing,
            files,
        ),
{
}

/// Every answer to the question that was asked brings the search nearer
/// to its end: a search ends.
pub proof fn lemma_step_nears_end(state: SearchModel, parsing: bool, answer: Answer)
    requires
        (state is Probing && answer is Exists) || (state is Reading && answer is Parsed),
    ensures
        distance(step_model(state, parsing, answer)) < distance(state),
{
}

/// What a caller who looks at the disk `files` answers to what the search
/// asks.
pub open spec fn honest_answer(
    state: SearchModel,
    files: spec_fn(PathModel) -> FileState,
) -> Answer {
    match state {
        SearchModel::Probing(dir) => Answer::Exists(files(dir) != FileState::Absent),
        SearchModel::Reading(dir) => Answer::Parsed(files(dir) == FileState::Valid),
        _ => Answer::Exists(false),
    }
}

/// Where a search ends that is answered honestly from `state` on.
pub open spec fn run(
    state: SearchModel,
    parsing: bool,
    files: spec_fn(PathModel) -> FileState,
) -> SearchModel
    decreases distance(state),
{
    if distance(state) == 0 {
        state
    } else {
        run(step_model(state, parsing, honest_answer(state, files)), parsing, files)
    }
}

/// A search that is answered honestly ends, and it ends at the nearest
/// directory whose file qualifies, or without one where there is none.
pub proof fn lemma_run_ends_at_outcome(
    state: SearchModel,
    parsing: bool,
    files: spec_fn(PathModel) -> FileState,
)
    requires
        state is Reading ==> parsing,
    ensures
        run(state, parsing, files) == match outcome(state, parsing, files) {
            Some(dir) => SearchModel::Found(dir),
            None => SearchModel::Exhausted,
        },
    decreases distance(state),
{
    if distance(state) > 0 {
        let answer = honest_answer(state, files);
        lemma_step_keeps_outcome(state, parsing, answer, files);
        lemma_step_nears_end(state, parsing, answer);
        lemma_run_ends_at_outcome(step_model(state, parsing, answer), parsing, files);
    }
}

/// A search from `start` that is answered honestly ends at the nearest
/// directory, from `start` upward, whose file qualifies; and where no
/// file qualifies, it ends with nothing.
pub proof fn lemma_search_locates(
    start: PathModel,
    parsing: bool,
    files: spec_fn(PathModel) -> FileState,
)
    ensures
        run(SearchModel::Probing(start), parsing, files) == match located(
            start,
            files,
            parsing,
        ) {
            Some(dir) => SearchModel::Found(dir),
            None => SearchModel::Exhausted,
        },
{
    lemma_run_ends_at_outcome(SearchModel::Probing(start), parsing, files);
}

impl Search {
    /// A search that starts at `start` for a file that must be readable.
    pub fn locate(start: &FsPath, file_name: &str) -> (search: Search)
        ensures
            search.file_name@ == file_name@,
            search.parsing,
            search.state.deep_view() == SearchModel::Probing(start@),
    {
        Search {
            file_name: file_name.to_owned(),
            parsing: true,
            state: SearchState::Probing(start.clone()),
        }
    }

    /// A search that starts at `start` for a file that need only exist.
    pub fn locate_possible(start: &FsPath, file_name: &str) -> (search: Search)
        ensures
            search.file_name@ == file_name@,
            !search.parsing,
            search.state.deep_view() == SearchModel::Probing(start@),
    {
        Search {
            file_name: file_name.to_owned(),
            parsing: false,
            state: SearchState::Probing(start.clone()),
        }
    }

    /// What the search asks next.
    pub fn request(&self) -> (request: Request)
        ensures
            match self.state.deep_view() {
                SearchModel::Probing(dir) => request matches Request::Exists(file) && file@
                    == dir.join(self.file_name@),
                SearchModel::Reading(dir) => request matches Request::Read(file) && file@
                    == dir.join(self.file_name@),
                SearchModel::Found(dir) => request matches Request::Done(Some(found)) && found@
                    == dir,
                SearchModel::Exhausted => request matches Request::Done(None),
            },
    {
        match &self.state {
            SearchState::Probing(dir) => Request::Exists(dir.join(self.file_name.as_str())),
            SearchState::Reading(dir) => Request::Read(dir.join(self.file_name.as_str())),
            SearchState::Found(dir) => Request::Done(Some(dir.clone())),
            SearchState::Exhausted => Request::Done(None),
        }
    }

    /// Whether the search has ended.
    pub fn is_done(&self) -> (done: bool)
        ensures
            done == (distance(self.state.deep_view()) == 0),
    {
        match &self.state {
            SearchState::Found(_) => true,
            SearchState::Exhausted => true,
            _ => false,
        }
    }

    /// The search after the caller's answer.
    pub fn step(self, answer: Answer) -> (next: Search)
        ensures
            next.file_name == self.file_name,
            next.parsing == self.parsing,
            next.state.deep_view() == step_model(self.state.deep_view(), self.parsing, answer),
    {
        let state = match (self.state, answer) {
            (SearchState::Probing(dir), Answer::Exists(true)) => if self.parsing {
                SearchState::Reading(dir)
            } else {
                SearchState::Found(dir)
            },
            (SearchState::Probing(dir), Answer::Exists(false)) => match dir.parent() {
                Some(parent) => SearchState::Probing(parent),
                None => SearchState::Exhausted,
            },
            (SearchState::Reading(dir), Answer::Parsed(true)) => SearchState::Found(dir),
            (SearchState::Reading(dir), Answer::Parsed(false)) => match dir.parent() {
                Some(parent) => SearchState::Probing(parent),
                None => SearchState::Exhausted,
            },
            (state, _) => state,
        };
        Search { file_name: self.file_name, parsing: self.parsing, state }
    }
}

} // verus!
