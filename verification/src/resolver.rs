//! The resolver: from what the user typed to one target path.
//!
//! The resolver never touches the file system. It holds what it is waiting
//! for, names the request that the host has to perform, and decides on the
//! host's reply what comes next.

use crate::errors::{outcome_view, Failure, PeekError};
use crate::file_search::{
    is_accepted, search, search_fails_iff_nothing_matches, search_file,
};
use crate::host::{Reply, ReplyView, Request, RequestView, World};
use crate::text::{has_substring, lowercase_of};
use crate::utils::{canonical_or_invalid, canonicalize_path};
use vstd::prelude::*;
use vstd::string::*;

verus! {

/// A resolution under way: what the resolver is waiting for.
#[derive(Debug, PartialEq, Eq)]
pub enum Resolver {
    /// No input was given: waiting for the current directory, which is the
    /// target chosen.
    DefaultDir,
    /// Waiting to learn whether the input names an existing entry.
    Probing { input: String },
    /// The input names no entry: waiting for the current directory, which
    /// is the target chosen where the input is empty, and is searched
    /// otherwise.
    Locating { input: String },
    /// Waiting for the listing of the current directory.
    Listing { input: String, dir: String },
    /// A target is chosen: waiting for its canonical form.
    Finishing { path: String },
}

/// A `Resolver` with its texts as sequences of characters.
pub enum ResolverView {
    DefaultDir,
    Probing { input: Seq<char> },
    Locating { input: Seq<char> },
    Listing { input: Seq<char>, dir: Seq<char> },
    Finishing { path: Seq<char> },
}

impl View for Resolver {
    type V = ResolverView;

    open spec fn view(&self) -> ResolverView {
        match self {
            Resolver::DefaultDir => ResolverView::DefaultDir,
            Resolver::Probing { input } => ResolverView::Probing { input: input@ },
            Resolver::Locating { input } => ResolverView::Locating { input: input@ },
            Resolver::Listing { input, dir } => ResolverView::Listing { input: input@, dir: dir@ },
            Resolver::Finishing { path } => ResolverView::Finishing { path: path@ },
        }
    }
}

/// Where a resolution stands after a step: still waiting, or done with the
/// target or a failure.
#[derive(Debug, PartialEq, Eq)]
pub enum Resolution {
    Pending(Resolver),
    Done(Result<String, PeekError>),
}

/// A `Resolution` with its texts as sequences of characters.
pub enum ResolutionView {
    Pending(ResolverView),
    Done(Result<Seq<char>, Failure>),
}

impl View for Resolution {
    type V = ResolutionView;

    open spec fn view(&self) -> ResolutionView {
        match self {
            Resolution::Pending(resolver) => ResolutionView::Pending(resolver@),
            Resolution::Done(outcome) => ResolutionView::Done(outcome_view(*outcome)),
        }
    }
}

/// The failure of asking for the current directory.
pub open spec fn no_current_dir(error: Seq<char>) -> Failure {
    Failure::IoError("Failed to get current directory: "@ + error)
}

impl ResolverView {
    /// The state in which the resolution of `input` begins.
    pub open spec fn start(input: Option<Seq<char>>) -> ResolverView {
        match input {
            Some(input) => ResolverView::Probing { input },
            None => ResolverView::DefaultDir,
        }
    }

    /// The request that the host has to perform in this state.
    pub open spec fn request(self) -> RequestView {
        match self {
            ResolverView::DefaultDir => RequestView::CurrentDir,
            ResolverView::Probing { input } => RequestView::Exists(input),
            ResolverView::Locating { .. } => RequestView::CurrentDir,
            ResolverView::Listing { dir, .. } => RequestView::ListDir(dir),
            ResolverView::Finishing { path } => RequestView::Canonicalize(path),
        }
    }

    /// The step taken in this state on `reply`. A reply that does not
    /// answer the state's request changes nothing.
    pub open spec fn advance(self, reply: ReplyView) -> ResolutionView {
        match (self, reply) {
            (ResolverView::DefaultDir, ReplyView::CurrentDir(Ok(dir))) => ResolutionView::Pending(
                ResolverView::Finishing { path: dir },
            ),
            (ResolverView::DefaultDir, ReplyView::CurrentDir(Err(error))) => ResolutionView::Done(
                Err(no_current_dir(error)),
            ),
            (ResolverView::Probing { input }, ReplyView::Exists(true)) => ResolutionView::Pending(
                ResolverView::Finishing { path: input },
            ),
            (ResolverView::Probing { input }, ReplyView::Exists(false)) => ResolutionView::Pending(
                ResolverView::Locating { input },
            ),
            (ResolverView::Locating { input }, ReplyView::CurrentDir(Ok(dir))) => {
                if input.len() == 0 {
                    ResolutionView::Pending(ResolverView::Finishing { path: dir })
                } else {
                    ResolutionView::Pending(ResolverView::Listing { input, dir })
                }
            },
            (ResolverView::Locating { input }, ReplyView::CurrentDir(Err(error))) => {
                ResolutionView::Done(Err(no_current_dir(error)))
            },
            (ResolverView::Listing { input, .. }, ReplyView::Entries(entries)) => {
                match search(entries, input) {
                    Some(path) => ResolutionView::Pending(ResolverView::Finishing { path }),
                    None => ResolutionView::Done(Err(Failure::FileNotFound(input))),
                }
            },
            (ResolverView::Finishing { path }, ReplyView::Canonical(outcome)) => {
                ResolutionView::Done(canonical_or_invalid(path, outcome))
            },
            (state, _) => ResolutionView::Pending(state),
        }
    }
}

/// The target that `input` resolves to on a host that answers as `world`
/// does.
///
/// Without an input the current directory is chosen. An input that names
/// an existing entry chooses that entry. The empty input, which names no
/// entry, chooses the current directory too. Any other input is a pattern:
/// the current directory is searched for it, and the entry found is
/// chosen. The target is the canonical form of what was chosen.
pub open spec fn resolve(world: World, input: Option<Seq<char>>) -> Result<Seq<char>, Failure> {
    match input {
        None => match world.current_dir {
            Ok(dir) => canonical_or_invalid(dir, (world.canonical)(dir)),
            Err(error) => Err(no_current_dir(error)),
        },
        Some(input) => if (world.exists)(input) {
            canonical_or_invalid(input, (world.canonical)(input))
        } else {
            match world.current_dir {
                Ok(dir) => if input.len() == 0 {
                    canonical_or_invalid(dir, (world.canonical)(dir))
                } else {
                    match search((world.listing)(dir), input) {
                        Some(path) => canonical_or_invalid(path, (world.canonical)(path)),
                        None => Err(Failure::FileNotFound(input)),
                    }
                },
                Err(error) => Err(no_current_dir(error)),
            }
        },
    }
}

/// What a resolution in state `state` comes to when the host answers as
/// `world` does, within `steps` steps. `None` where it takes more.
pub open spec fn run_resolver(world: World, state: ResolverView, steps: nat) -> Option<
    Result<Seq<char>, Failure>,
>
    decreases steps,
{
    if steps == 0 {
        None
    } else {
        match state.advance(world.answer(state.request())) {
            ResolutionView::Done(outcome) => Some(outcome),
            ResolutionView::Pending(next) => run_resolver(world, next, (steps - 1) as nat),
        }
    }
}

/// The requests that a resolution in state `state` makes of a host that
/// answers as `world` does, in order, up to `steps` of them.
pub open spec fn resolver_requests(world: World, state: ResolverView, steps: nat) -> Seq<
    RequestView,
>
    decreases steps,
{
    if steps == 0 {
        Seq::empty()
    } else {
        match state.advance(world.answer(state.request())) {
            ResolutionView::Done(_) => seq![state.request()],
            ResolutionView::Pending(next) => seq![state.request()] + resolver_requests(
                world,
                next,
                (steps - 1) as nat,
            ),
        }
    }
}

/// The requests that the resolution of `input` makes of a host that
/// answers as `world` does, from the first to the last. The current
/// directory is listed at most once, and only for an input that is not
/// empty and names no existing entry; only what was chosen is brought into
/// canonical form.
pub open spec fn resolve_requests(world: World, input: Option<Seq<char>>) -> Seq<RequestView> {
    match input {
        None => match world.current_dir {
            Ok(dir) => seq![RequestView::CurrentDir, RequestView::Canonicalize(dir)],
            Err(_) => seq![RequestView::CurrentDir],
        },
        Some(input) => if (world.exists)(input) {
            seq![RequestView::Exists(input), RequestView::Canonicalize(input)]
        } else {
            match world.current_dir {
                Ok(dir) => if input.len() == 0 {
                    seq![
                        RequestView::Exists(input),
                        RequestView::CurrentDir,
                        RequestView::Canonicalize(dir),
                    ]
                } else {
                    match search((world.listing)(dir), input) {
                        Some(path) => seq![
                            RequestView::Exists(input),
                            RequestView::CurrentDir,
                            RequestView::ListDir(dir),
                            RequestView::Canonicalize(path),
                        ],
                        None => seq![
                            RequestView::Exists(input),
                            RequestView::CurrentDir,
                            RequestView::ListDir(dir),
                        ],
                    }
                },
                Err(_) => seq![RequestView::Exists(input), RequestView::CurrentDir],
            }
        },
    }
}

impl Resolver {
    /// Begins the resolution of `input`: what the user typed, if anything.
    pub fn new(input: Option<String>) -> (resolver: Resolver)
        ensures
            resolver@ == ResolverView::start(
                match input {
                    Some(text) => Some(text@),
                    None => None,
                },
            ),
    {
        match input {
            Some(input) => Resolver::Probing { input },
            None => Resolver::DefaultDir,
        }
    }

    /// The request that the host has to perform next.
    pub fn request(&self) -> (request: Request)
        ensures
            request@ == self@.request(),
    {
        match self {
            Resolver::DefaultDir => Request::CurrentDir,
            Resolver::Probing { input } => Request::Exists(input.clone()),
            Resolver::Locating { .. } => Request::CurrentDir,
            Resolver::Listing { dir, .. } => Request::ListDir(dir.clone()),
            Resolver::Finishing { path } => Request::Canonicalize(path.clone()),
        }
    }
}

/// One step of resolving a target: takes the host's reply to the request of
/// `resolver` and says what comes next. A reply that does not answer that
/// request leaves the resolution where it was.
pub fn resolve_target(resolver: Resolver, reply: Reply) -> (next: Resolution)
    ensures
        next@ == resolver@.advance(reply@),
{
    match (resolver, reply) {
        (Resolver::DefaultDir, Reply::CurrentDir(Ok(dir))) => Resolution::Pending(
            Resolver::Finishing { path: dir },
        ),
        (Resolver::DefaultDir, Reply::CurrentDir(Err(error))) => Resolution::Done(
            Err(current_dir_failure(error.as_str())),
        ),
        (Resolver::Probing { input }, Reply::Exists(true)) => Resolution::Pending(
            Resolver::Finishing { path: input },
        ),
        (Resolver::Probing { input }, Reply::Exists(false)) => Resolution::Pending(
            Resolver::Locating { input },
        ),
        (Resolver::Locating { input }, Reply::CurrentDir(Ok(dir))) => {
            if input.as_str().is_empty() {
                Resolution::Pending(Resolver::Finishing { path: dir })
            } else {
                Resolution::Pending(Resolver::Listing { input, dir })
            }
        },
        (Resolver::Locating { input }, Reply::CurrentDir(Err(error))) => Resolution::Done(
            Err(current_dir_failure(error.as_str())),
        ),
        (Resolver::Listing { input, .. }, Reply::Entries(entries)) => {
            match search_file(&entries, input.as_str()) {
                Some(path) => Resolution::Pending(Resolver::Finishing { path }),
                None => Resolution::Done(Err(PeekError::FileNotFound(input))),
            }
        },
        (Resolver::Finishing { path }, Reply::Canonical(outcome)) => Resolution::Done(
            canonicalize_path(path.as_str(), outcome),
        ),
        (state, _) => Resolution::Pending(state),
    }
}

/// The failure of asking for the current directory, with the system's
/// error as its detail.
fn current_dir_failure(error: &str) -> (failure: PeekError)
    ensures
        failure@ == no_current_dir(error@),
{
    PeekError::IoError(String::from_str("Failed to get current directory: ").concat(error))
}

/// The steps of the resolver, taken one after another on a host that
/// answers as `world` does, end within four steps with the target that
/// `resolve` describes.
pub proof fn resolver_steps_reach_resolve(world: World, input: Option<Seq<char>>)
    ensures
        run_resolver(world, ResolverView::start(input), 4) == Some(resolve(world, input)),
{
    reveal_with_fuel(run_resolver, 5);
}

/// The resolver asks of the host what `resolve_requests` lists, in that
/// order, and nothing else.
pub proof fn resolver_makes_listed_requests(world: World, input: Option<Seq<char>>)
    ensures
        resolver_requests(world, ResolverView::start(input), 4) == resolve_requests(world, input),
{
    reveal_with_fuel(resolver_requests, 5);
    assert(resolver_requests(world, ResolverView::start(input), 4) =~= resolve_requests(
        world,
        input,
    ));
}

/// An input that names an existing entry resolves to the canonical form of
/// that entry, whatever the current directory holds.
pub proof fn existing_path_resolves_to_canonical_form(
    world: World,
    path: Seq<char>,
    canonical: Seq<char>,
)
    requires
        (world.exists)(path),
        (world.canonical)(path) == Ok::<Seq<char>, Seq<char>>(canonical),
    ensures
        resolve(world, Some(path)) == Ok::<Seq<char>, Failure>(canonical),
{
}

/// An input that names an existing entry is never searched for: the result
/// is the same for every listing of the current directory, so no entry
/// whose name merely holds the input can take its place.
pub proof fn existing_input_bypasses_search(world: World, other: World, input: Seq<char>)
    requires
        (world.exists)(input),
        (other.exists)(input),
        (world.canonical)(input) == (other.canonical)(input),
    ensures
        resolve(world, Some(input)) == resolve(other, Some(input)),
        resolve(world, Some(input)) == canonical_or_invalid(input, (world.canonical)(input)),
{
}

/// An input that is the file name of an entry of the current directory, and
/// names that entry, resolves to the entry's canonical form: whether the
/// entry may be opened plays no part, nor do other entries that hold the
/// input in their names.
pub proof fn input_naming_an_entry_resolves_to_it(
    world: World,
    input: Seq<char>,
    dir: Seq<char>,
    i: int,
    canonical: Seq<char>,
)
    requires
        world.current_dir == Ok::<Seq<char>, Seq<char>>(dir),
        0 <= i < (world.listing)(dir).len(),
        (world.listing)(dir)[i].name == input,
        (world.exists)(input),
        (world.canonical)(input) == Ok::<Seq<char>, Seq<char>>(canonical),
        (world.canonical)((world.listing)(dir)[i].path) == Ok::<Seq<char>, Seq<char>>(canonical),
    ensures
        resolve(world, Some(input)) == Ok::<Seq<char>, Failure>(canonical),
{
}

/// The empty input means the current directory: where it names no entry
/// and the current directory can be read, the target is the current
/// directory in canonical form, whatever the directory holds.
pub proof fn empty_input_resolves_to_current_dir(world: World, input: Seq<char>, dir: Seq<char>)
    requires
        input.len() == 0,
        !(world.exists)(input),
        world.current_dir == Ok::<Seq<char>, Seq<char>>(dir),
    ensures
        resolve(world, Some(input)) == canonical_or_invalid(dir, (world.canonical)(dir)),
        resolve(world, Some(input)) == resolve(world, None),
{
}

/// A target is a fixed point of resolution: on a host whose canonical
/// paths exist and are their own canonical forms, the target that any input
/// resolves to resolves to itself.
pub proof fn resolved_target_resolves_to_itself(
    world: World,
    input: Option<Seq<char>>,
    target: Seq<char>,
)
    requires
        world.canonical_paths_are_fixed(),
        resolve(world, input) == Ok::<Seq<char>, Failure>(target),
    ensures
        resolve(world, Some(target)) == Ok::<Seq<char>, Failure>(target),
{
    match input {
        None => {
            assert((world.canonical)(world.current_dir->Ok_0) is Ok);
        },
        Some(text) => {
            if (world.exists)(text) {
                assert((world.canonical)(text) is Ok);
            } else if text.len() == 0 {
                assert((world.canonical)(world.current_dir->Ok_0) is Ok);
            } else {
                let found = search((world.listing)(world.current_dir->Ok_0), text)->Some_0;
                assert((world.canonical)(found) is Ok);
            }
        },
    }
}

/// Where the current directory can be read, an input other than the empty
/// one that names no existing entry, and that no accepted entry of the
/// current directory holds in its name without regard to case, is not
/// found.
pub proof fn unmatched_input_is_not_found(world: World, input: Seq<char>, dir: Seq<char>)
    requires
        input.len() > 0,
        !(world.exists)(input),
        world.current_dir == Ok::<Seq<char>, Seq<char>>(dir),
        forall|i: int|
            0 <= i < (world.listing)(dir).len() ==> !(is_accepted(#[trigger] (world.listing)(dir)[i])
                && has_substring(
                lowercase_of((world.listing)(dir)[i].name),
                lowercase_of(input),
            )),
    ensures
        resolve(world, Some(input)) == Err::<Seq<char>, Failure>(Failure::FileNotFound(input)),
{
    search_fails_iff_nothing_matches((world.listing)(dir), input);
}

/// Without an input the target is the current directory, in canonical
/// form: no search takes place, and nothing is reported as not found. Where
/// the current directory is its own canonical form, it is the target as the
/// host reports it.
pub proof fn no_input_resolves_to_current_dir(world: World, dir: Seq<char>)
    requires
        world.current_dir == Ok::<Seq<char>, Seq<char>>(dir),
    ensures
        resolve(world, None) == canonical_or_invalid(dir, (world.canonical)(dir)),
        !(resolve(world, None) matches Err(Failure::FileNotFound(_))),
        (world.canonical)(dir) == Ok::<Seq<char>, Seq<char>>(dir) ==> resolve(world, None) == Ok::<
            Seq<char>,
            Failure,
        >(dir),
{
}

} // verus!
