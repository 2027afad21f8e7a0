//! The opener: hands a target to a browser.
//!
//! Like the resolver, the opener starts nothing itself. It names the next
//! request for the host and decides on the reply: which browser to try,
//! when to fall back on the system's default application, and what to
//! report.

use crate::errors::{outcome_view, Failure, PeekError};
use crate::host::{Platform, Reply, ReplyView, Request, RequestView, World};
use crate::utils::{canonical_or_invalid, canonicalize_path};
use vstd::prelude::*;
use vstd::string::*;

verus! {

/// The browsers that are tried on `platform` before the system's default
/// application is asked, in the order of preference. Only Linux has any:
/// there the default application for a path need not be a browser.
pub open spec fn preferred_browsers(platform: Platform) -> Seq<Seq<char>> {
    match platform {
        Platform::Linux => seq![
            "firefox"@,
            "google-chrome"@,
            "chromium"@,
            "brave-browser"@,
            "microsoft-edge"@,
            "opera"@,
            "vivaldi"@,
            "librewolf"@,
        ],
        _ => Seq::empty(),
    }
}

/// The URL under which a browser finds the file or directory at `path`.
pub open spec fn file_url_of(path: Seq<char>) -> Seq<char> {
    "file://"@ + path
}

/// The line that reports what is being opened.
pub open spec fn opening_line_of(path: Seq<char>, is_dir: bool) -> Seq<char> {
    if is_dir {
        "📂 Opening directory: "@ + path
    } else {
        "📄 Opening file: "@ + path
    }
}

/// The launch to try after `failed` browsers have failed to start, or the
/// failure that says that none is left.
pub open spec fn next_launch(platform: Platform, url: Seq<char>, failed: nat) -> Result<
    RequestView,
    Failure,
> {
    if failed < preferred_browsers(platform).len() {
        Ok(RequestView::Launch { program: preferred_browsers(platform)[failed as int], url })
    } else {
        Err(Failure::BrowserError("No browser found"@))
    }
}

/// The failure of the system's default application to start.
pub open spec fn unopened(error: Seq<char>) -> Failure {
    Failure::BrowserError("Failed to open: "@ + error)
}

/// The preferred browsers of `platform`, in the order of
/// `preferred_browsers`.
fn preferred_browser_list(platform: Platform) -> (list: Vec<&'static str>)
    ensures
        list@.len() == preferred_browsers(platform).len(),
        forall|i: int|
            0 <= i < list@.len() ==> (#[trigger] list@[i])@ == preferred_browsers(platform)[i],
{
    match platform {
        Platform::Linux => vec![
            "firefox",
            "google-chrome",
            "chromium",
            "brave-browser",
            "microsoft-edge",
            "opera",
            "vivaldi",
            "librewolf",
        ],
        _ => Vec::new(),
    }
}

/// The URL under which a browser finds the file or directory at `path`.
pub fn file_url(path: &str) -> (url: String)
    ensures
        url@ == file_url_of(path@),
{
    String::from_str("file://").concat(path)
}

/// The line that reports what is being opened: a directory or a file.
pub fn opening_line(path: &str, is_dir: bool) -> (line: String)
    ensures
        line@ == opening_line_of(path@, is_dir),
{
    if is_dir {
        String::from_str("📂 Opening directory: ").concat(path)
    } else {
        String::from_str("📄 Opening file: ").concat(path)
    }
}

/// Chooses the browser to try next. `failed` is the number of preferred
/// browsers that have failed to start so far; they are tried in the order
/// of preference, each with `url` as its argument. When none is left the
/// result is the failure "No browser found".
pub fn open_with_browser(platform: Platform, url: &str, failed: usize) -> (next: Result<
    Request,
    PeekError,
>)
    ensures
        match next {
            Ok(request) => next_launch(platform, url@, failed as nat) == Ok::<RequestView, Failure>(
                request@,
            ),
            Err(failure) => next_launch(platform, url@, failed as nat) == Err::<
                RequestView,
                Failure,
            >(failure@),
        },
{
    let list = preferred_browser_list(platform);
    if failed < list.len() {
        Ok(
            Request::Launch {
                program: String::from_str(list[failed]),
                url: String::from_str(url),
            },
        )
    } else {
        Err(PeekError::BrowserError(String::from_str("No browser found")))
    }
}

/// An opening under way: what the opener is waiting for.
#[derive(Debug, PartialEq, Eq)]
pub enum Opener {
    /// Waiting to learn whether the path names an existing entry.
    Checking { path: String, platform: Platform },
    /// Waiting for the canonical form of the path.
    Resolving { path: String, platform: Platform },
    /// Waiting for a launch: of the next preferred browser where one is
    /// left after `failed` failures, else of the default application.
    Launching { target: String, platform: Platform, failed: usize },
    /// Something was started: waiting to learn whether the target is a
    /// directory.
    Classifying { target: String },
}

/// An `Opener` with its texts as sequences of characters.
pub enum OpenerView {
    Checking { path: Seq<char>, platform: Platform },
    Resolving { path: Seq<char>, platform: Platform },
    Launching { target: Seq<char>, platform: Platform, failed: nat },
    Classifying { target: Seq<char> },
}

impl View for Opener {
    type V = OpenerView;

    open spec fn view(&self) -> OpenerView {
        match self {
            Opener::Checking { path, platform } => OpenerView::Checking {
                path: path@,
                platform: *platform,
            },
            Opener::Resolving { path, platform } => OpenerView::Resolving {
                path: path@,
                platform: *platform,
            },
            Opener::Launching { target, platform, failed } => OpenerView::Launching {
                target: target@,
                platform: *platform,
                failed: *failed as nat,
            },
            Opener::Classifying { target } => OpenerView::Classifying { target: target@ },
        }
    }
}

/// Where an opening stands after a step: still waiting, or done with the
/// line to report or a failure.
#[derive(Debug, PartialEq, Eq)]
pub enum Opening {
    Pending(Opener),
    Done(Result<String, PeekError>),
}

/// An `Opening` with its texts as sequences of characters.
pub enum OpeningView {
    Pending(OpenerView),
    Done(Result<Seq<char>, Failure>),
}

impl View for Opening {
    type V = OpeningView;

    open spec fn view(&self) -> OpeningView {
        match self {
            Opening::Pending(opener) => OpeningView::Pending(opener@),
            Opening::Done(outcome) => OpeningView::Done(outcome_view(*outcome)),
        }
    }
}

impl OpenerView {
    /// The state in which the opening of `path` begins.
    pub open spec fn start(path: Seq<char>, platform: Platform) -> OpenerView {
        OpenerView::Checking { path, platform }
    }

    /// The request that the host has to perform in this state.
    pub open spec fn request(self) -> RequestView {
        match self {
            OpenerView::Checking { path, .. } => RequestView::Exists(path),
            OpenerView::Resolving { path, .. } => RequestView::Canonicalize(path),
            OpenerView::Launching { target, platform, failed } => match next_launch(
                platform,
                file_url_of(target),
                failed,
            ) {
                Ok(launch) => launch,
                Err(_) => RequestView::OpenDefault(target),
            },
            OpenerView::Classifying { target } => RequestView::IsDir(target),
        }
    }

    /// The step taken in this state on `reply`. A reply that does not
    /// answer the state's request changes nothing.
    pub open spec fn advance(self, reply: ReplyView) -> OpeningView {
        match (self, reply) {
            (OpenerView::Checking { path, platform }, ReplyView::Exists(true)) => {
                OpeningView::Pending(OpenerView::Resolving { path, platform })
            },
            (OpenerView::Checking { path, .. }, ReplyView::Exists(false)) => {
                OpeningView::Done(Err(Failure::FileNotFound(path)))
            },
            (OpenerView::Resolving { path, platform }, ReplyView::Canonical(outcome)) => {
                match canonical_or_invalid(path, outcome) {
                    Ok(target) => OpeningView::Pending(
                        OpenerView::Launching { target, platform, failed: 0 },
                    ),
                    Err(failure) => OpeningView::Done(Err(failure)),
                }
            },
            (OpenerView::Launching { target, platform, failed }, ReplyView::Launched(launched)) => {
                if failed >= preferred_browsers(platform).len() {
                    OpeningView::Pending(self)
                } else if launched {
                    OpeningView::Pending(OpenerView::Classifying { target })
                } else {
                    OpeningView::Pending(
                        OpenerView::Launching { target, platform, failed: failed + 1 },
                    )
                }
            },
            (OpenerView::Launching { target, platform, failed }, ReplyView::Opened(outcome)) => {
                if failed < preferred_browsers(platform).len() {
                    OpeningView::Pending(self)
                } else {
                    match outcome {
                        Ok(_) => OpeningView::Pending(OpenerView::Classifying { target }),
                        Err(error) => OpeningView::Done(Err(unopened(error))),
                    }
                }
            },
            (OpenerView::Classifying { target }, ReplyView::IsDir(is_dir)) => OpeningView::Done(
                Ok(opening_line_of(target, is_dir)),
            ),
            (state, _) => OpeningView::Pending(state),
        }
    }
}

/// Whether the preferred browser at position `i` starts for `url` on a host
/// that answers as `world` does.
pub open spec fn browser_starts(world: World, platform: Platform, url: Seq<char>, i: int) -> bool {
    &&& 0 <= i < preferred_browsers(platform).len()
    &&& (world.launches)(preferred_browsers(platform)[i], url)
}

/// Whether one of the preferred browsers from position `from` on starts.
pub open spec fn some_browser_starts(
    world: World,
    platform: Platform,
    url: Seq<char>,
    from: int,
) -> bool {
    exists|i: int| from <= i && browser_starts(world, platform, url, i)
}

/// What becomes of handing `target` to a browser once `failed` preferred
/// browsers have failed: success where a remaining browser or else the
/// default application starts, with the line that reports it.
pub open spec fn launch_outcome(
    world: World,
    platform: Platform,
    target: Seq<char>,
    failed: int,
) -> Result<Seq<char>, Failure> {
    if some_browser_starts(world, platform, file_url_of(target), failed) {
        Ok(opening_line_of(target, (world.is_dir)(target)))
    } else {
        match (world.opens)(target) {
            Ok(_) => Ok(opening_line_of(target, (world.is_dir)(target))),
            Err(error) => Err(unopened(error)),
        }
    }
}

/// What becomes of opening `path` on a host that answers as `world` does.
///
/// The path must name an existing entry, else it is not found, and have a
/// canonical form, else it is an invalid path. The canonical form is the
/// target. The target's URL is offered to the preferred browsers of the
/// platform; where none of them starts, the target is handed to the
/// system's default application. Success is reported with a line that says
/// whether a directory or a file is being opened.
pub open spec fn open_outcome(world: World, platform: Platform, path: Seq<char>) -> Result<
    Seq<char>,
    Failure,
> {
    if !(world.exists)(path) {
        Err(Failure::FileNotFound(path))
    } else {
        match canonical_or_invalid(path, (world.canonical)(path)) {
            Ok(target) => launch_outcome(world, platform, target, 0),
            Err(failure) => Err(failure),
        }
    }
}

/// What an opening in state `state` comes to when the host answers as
/// `world` does, within `steps` steps. `None` where it takes more.
pub open spec fn run_opener(world: World, state: OpenerView, steps: nat) -> Option<
    Result<Seq<char>, Failure>,
>
    decreases steps,
{
    if steps == 0 {
        None
    } else {
        match state.advance(world.answer(state.request())) {
            OpeningView::Done(outcome) => Some(outcome),
            OpeningView::Pending(next) => run_opener(world, next, (steps - 1) as nat),
        }
    }
}

/// The requests that an opening in state `state` makes of a host that
/// answers as `world` does, in order, up to `steps` of them.
pub open spec fn opener_requests(world: World, state: OpenerView, steps: nat) -> Seq<RequestView>
    decreases steps,
{
    if steps == 0 {
        Seq::empty()
    } else {
        match state.advance(world.answer(state.request())) {
            OpeningView::Done(_) => seq![state.request()],
            OpeningView::Pending(next) => seq![state.request()] + opener_requests(
                world,
                next,
                (steps - 1) as nat,
            ),
        }
    }
}

/// The position of the first preferred browser, from position `from` on,
/// that starts for `url`; the number of preferred browsers where none does.
pub open spec fn first_starting(world: World, platform: Platform, url: Seq<char>, from: nat) -> nat
    decreases preferred_browsers(platform).len() - from,
{
    if from >= preferred_browsers(platform).len() {
        preferred_browsers(platform).len()
    } else if (world.launches)(preferred_browsers(platform)[from as int], url) {
        from
    } else {
        first_starting(world, platform, url, from + 1)
    }
}

/// The requests that hand `target` to a browser once `failed` preferred
/// browsers have failed: a launch of each further browser up to the first
/// that starts; only where none starts, the default application; and after
/// a start the question whether the target is a directory.
pub open spec fn launch_requests(
    world: World,
    platform: Platform,
    target: Seq<char>,
    failed: nat,
) -> Seq<RequestView> {
    let url = file_url_of(target);
    let count = preferred_browsers(platform).len();
    let winner = first_starting(world, platform, url, failed);
    let tried = if winner < count {
        winner + 1 - failed
    } else {
        count - failed
    };
    let launches = Seq::new(
        tried as nat,
        |i: int| RequestView::Launch { program: preferred_browsers(platform)[failed + i], url },
    );
    if winner < count {
        launches + seq![RequestView::IsDir(target)]
    } else {
        match (world.opens)(target) {
            Ok(_) => launches + seq![RequestView::OpenDefault(target), RequestView::IsDir(target)],
            Err(_) => launches + seq![RequestView::OpenDefault(target)],
        }
    }
}

/// The requests that the opening of `path` makes of a host that answers as
/// `world` does, from the first to the last.
pub open spec fn open_requests(world: World, platform: Platform, path: Seq<char>) -> Seq<
    RequestView,
> {
    if !(world.exists)(path) {
        seq![RequestView::Exists(path)]
    } else {
        match (world.canonical)(path) {
            Ok(target) => seq![RequestView::Exists(path), RequestView::Canonicalize(path)]
                + launch_requests(world, platform, target, 0),
            Err(_) => seq![RequestView::Exists(path), RequestView::Canonicalize(path)],
        }
    }
}

/// The first browser that starts is found at or after the position where
/// the search for it begins, and no browser before it starts.
proof fn lemma_first_starting_bounds(world: World, platform: Platform, url: Seq<char>, from: nat)
    requires
        from <= preferred_browsers(platform).len(),
    ensures
        from <= first_starting(world, platform, url, from) <= preferred_browsers(platform).len(),
    decreases preferred_browsers(platform).len() - from,
{
    if from < preferred_browsers(platform).len() && !(world.launches)(
        preferred_browsers(platform)[from as int],
        url,
    ) {
        lemma_first_starting_bounds(world, platform, url, from + 1);
    }
}

/// Once a target is at hand, the opener makes the requests that
/// `launch_requests` lists, and no others.
proof fn lemma_launching_makes_requests(
    world: World,
    platform: Platform,
    target: Seq<char>,
    failed: nat,
    steps: nat,
)
    requires
        failed <= preferred_browsers(platform).len(),
        steps >= preferred_browsers(platform).len() - failed + 2,
    ensures
        opener_requests(world, OpenerView::Launching { target, platform, failed }, steps)
            == launch_requests(world, platform, target, failed),
    decreases preferred_browsers(platform).len() - failed,
{
    let url = file_url_of(target);
    let count = preferred_browsers(platform).len();
    let state = OpenerView::Launching { target, platform, failed };
    reveal_with_fuel(opener_requests, 3);
    if failed >= count {
        assert(opener_requests(world, state, steps) =~= launch_requests(
            world,
            platform,
            target,
            failed,
        ));
    } else {
        let program = preferred_browsers(platform)[failed as int];
        if (world.launches)(program, url) {
            assert(opener_requests(world, state, steps) =~= launch_requests(
                world,
                platform,
                target,
                failed,
            ));
        } else {
            let next = OpenerView::Launching { target, platform, failed: failed + 1 };
            lemma_launching_makes_requests(world, platform, target, failed + 1, (steps - 1) as nat);
            lemma_first_starting_bounds(world, platform, url, failed + 1);
            assert(opener_requests(world, state, steps) == seq![state.request()]
                + opener_requests(world, next, (steps - 1) as nat));
            assert(seq![state.request()] + launch_requests(world, platform, target, failed + 1)
                =~= launch_requests(world, platform, target, failed));
        }
    }
}

/// The opener asks of the host what `open_requests` lists, in that order,
/// and nothing else: the browsers are launched in the order of preference,
/// none after the first that starts, and the default application only
/// where no browser starts.
pub proof fn opener_makes_listed_requests(world: World, platform: Platform, path: Seq<char>)
    ensures
        opener_requests(
            world,
            OpenerView::start(path, platform),
            preferred_browsers(platform).len() + 4,
        ) == open_requests(world, platform, path),
{
    let count = preferred_browsers(platform).len();
    let start = OpenerView::start(path, platform);
    reveal_with_fuel(opener_requests, 3);
    if (world.exists)(path) {
        match (world.canonical)(path) {
            Ok(target) => {
                lemma_launching_makes_requests(world, platform, target, 0, count + 2);
                assert(opener_requests(world, start, count + 4) =~= open_requests(
                    world,
                    platform,
                    path,
                ));
            },
            Err(_) => {},
        }
    }
}

/// Once a target is at hand, the launches end as `launch_outcome` says,
/// within one step for each browser that is left and two more.
proof fn lemma_launching_reaches_outcome(
    world: World,
    platform: Platform,
    target: Seq<char>,
    failed: nat,
    steps: nat,
)
    requires
        failed <= preferred_browsers(platform).len(),
        steps >= preferred_browsers(platform).len() - failed + 2,
    ensures
        run_opener(world, OpenerView::Launching { target, platform, failed }, steps) == Some(
            launch_outcome(world, platform, target, failed as int),
        ),
    decreases preferred_browsers(platform).len() - failed,
{
    let url = file_url_of(target);
    let count = preferred_browsers(platform).len();
    reveal_with_fuel(run_opener, 3);
    if failed < count {
        if (world.launches)(preferred_browsers(platform)[failed as int], url) {
            assert(browser_starts(world, platform, url, failed as int));
        } else {
            lemma_launching_reaches_outcome(world, platform, target, failed + 1, (steps - 1) as nat);
            assert(some_browser_starts(world, platform, url, failed as int) == some_browser_starts(
                world,
                platform,
                url,
                failed as int + 1,
            ));
        }
    }
}

/// The steps of the opener, taken one after another on a host that answers
/// as `world` does, end with what `open_outcome` describes: within four
/// steps and one more for each preferred browser of the platform.
pub proof fn opener_steps_reach_outcome(world: World, platform: Platform, path: Seq<char>)
    ensures
        run_opener(
            world,
            OpenerView::start(path, platform),
            preferred_browsers(platform).len() + 4,
        ) == Some(open_outcome(world, platform, path)),
{
    let count = preferred_browsers(platform).len();
    reveal_with_fuel(run_opener, 3);
    if (world.exists)(path) {
        match (world.canonical)(path) {
            Ok(target) => {
                lemma_launching_reaches_outcome(world, platform, target, 0, count + 2);
            },
            Err(_) => {},
        }
    }
}

impl Opener {
    /// Begins the opening of `path` on `platform`.
    pub fn new(path: String, platform: Platform) -> (opener: Opener)
        ensures
            opener@ == OpenerView::start(path@, platform),
    {
        Opener::Checking { path, platform }
    }

    /// The request that the host has to perform next.
    pub fn request(&self) -> (request: Request)
        ensures
            request@ == self@.request(),
    {
        match self {
            Opener::Checking { path, .. } => Request::Exists(path.clone()),
            Opener::Resolving { path, .. } => Request::Canonicalize(path.clone()),
            Opener::Launching { target, platform, failed } => {
                let url = file_url(target.as_str());
                match open_with_browser(*platform, url.as_str(), *failed) {
                    Ok(launch) => launch,
                    Err(_) => Request::OpenDefault(target.clone()),
                }
            },
            Opener::Classifying { target } => Request::IsDir(target.clone()),
        }
    }
}

/// The number of browsers that are tried on `platform`.
fn preferred_browser_count(platform: Platform) -> (count: usize)
    ensures
        count == preferred_browsers(platform).len(),
{
    preferred_browser_list(platform).len()
}

/// One step of opening a target: takes the host's reply to the request of
/// `opener` and says what comes next. A path that names no existing entry
/// is not found; one without a canonical form is an invalid path. Then the preferred browsers of the platform are
/// launched one after another until one starts; when none does, or the
/// platform has none, the system's default application is asked, and its
/// refusal is the failure of the whole. A reply that does not answer the
/// request leaves the opening where it was.
pub fn open_in_browser(opener: Opener, reply: Reply) -> (next: Opening)
    ensures
        next@ == opener@.advance(reply@),
{
    match (opener, reply) {
        (Opener::Checking { path, platform }, Reply::Exists(true)) => Opening::Pending(
            Opener::Resolving { path, platform },
        ),
        (Opener::Checking { path, .. }, Reply::Exists(false)) => Opening::Done(
            Err(PeekError::FileNotFound(path)),
        ),
        (Opener::Resolving { path, platform }, Reply::Canonical(outcome)) => {
            match canonicalize_path(path.as_str(), outcome) {
                Ok(target) => Opening::Pending(Opener::Launching { target, platform, failed: 0 }),
                Err(failure) => Opening::Done(Err(failure)),
            }
        },
        (Opener::Launching { target, platform, failed }, Reply::Launched(launched)) => {
            if failed >= preferred_browser_count(platform) {
                Opening::Pending(Opener::Launching { target, platform, failed })
            } else if launched {
                Opening::Pending(Opener::Classifying { target })
            } else {
                Opening::Pending(Opener::Launching { target, platform, failed: failed + 1 })
            }
        },
        (Opener::Launching { target, platform, failed }, Reply::Opened(outcome)) => {
            if failed < preferred_browser_count(platform) {
                Opening::Pending(Opener::Launching { target, platform, failed })
            } else {
                match outcome {
                    Ok(_) => Opening::Pending(Opener::Classifying { target }),
                    Err(error) => Opening::Done(
                        Err(
                            PeekError::BrowserError(
                                String::from_str("Failed to open: ").concat(error.as_str()),
                            ),
                        ),
                    ),
                }
            }
        },
        (Opener::Classifying { target }, Reply::IsDir(is_dir)) => Opening::Done(
            Ok(opening_line(target.as_str(), is_dir)),
        ),
        (state, _) => Opening::Pending(state),
    }
}

} // verus!
