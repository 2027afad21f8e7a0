//! One invocation from end to end: the input is resolved to a target, and
//! the target is handed to a browser.

use crate::browser::{
    open_in_browser, open_outcome, opener_steps_reach_outcome, preferred_browsers, run_opener,
    Opener, OpenerView, Opening, OpeningView,
};
use crate::cli::Cli;
use crate::errors::{outcome_view, Failure, PeekError};
use crate::host::{Platform, Reply, ReplyView, Request, RequestView, World};
use crate::resolver::{
    resolve, resolve_target, resolver_steps_reach_resolve, run_resolver, Resolution,
    ResolutionView, Resolver, ResolverView,
};
use vstd::prelude::*;

verus! {

/// An invocation under way: first the resolver works, then the opener.
#[derive(Debug, PartialEq, Eq)]
pub enum Session {
    /// The target is being resolved; `platform` is kept for the opener.
    Resolving { resolver: Resolver, platform: Platform },
    /// The target is being opened.
    Opening { opener: Opener },
}

/// A `Session` with its texts as sequences of characters.
pub enum SessionView {
    Resolving { resolver: ResolverView, platform: Platform },
    Opening { opener: OpenerView },
}

impl View for Session {
    type V = SessionView;

    open spec fn view(&self) -> SessionView {
        match self {
            Session::Resolving { resolver, platform } => SessionView::Resolving {
                resolver: resolver@,
                platform: *platform,
            },
            Session::Opening { opener } => SessionView::Opening { opener: opener@ },
        }
    }
}

/// Where an invocation stands after a step: still waiting, or done with
/// the line to report or a failure.
#[derive(Debug, PartialEq, Eq)]
pub enum Progress {
    Pending(Session),
    Done(Result<String, PeekError>),
}

/// A `Progress` with its texts as sequences of characters.
pub enum ProgressView {
    Pending(SessionView),
    Done(Result<Seq<char>, Failure>),
}

impl View for Progress {
    type V = ProgressView;

    open spec fn view(&self) -> ProgressView {
        match self {
            Progress::Pending(session) => ProgressView::Pending(session@),
            Progress::Done(outcome) => ProgressView::Done(outcome_view(*outcome)),
        }
    }
}

impl SessionView {
    /// The state in which an invocation with `input` begins.
    pub open spec fn start(input: Option<Seq<char>>, platform: Platform) -> SessionView {
        SessionView::Resolving { resolver: ResolverView::start(input), platform }
    }

    /// The request that the host has to perform in this state.
    pub open spec fn request(self) -> RequestView {
        match self {
            SessionView::Resolving { resolver, .. } => resolver.request(),
            SessionView::Opening { opener } => opener.request(),
        }
    }

    /// The step taken in this state on `reply`: a step of the resolver
    /// until it is done, whereupon its target goes to the opener or its
    /// failure ends the invocation; then a step of the opener.
    pub open spec fn advance(self, reply: ReplyView) -> ProgressView {
        match self {
            SessionView::Resolving { resolver, platform } => match resolver.advance(reply) {
                ResolutionView::Pending(next) => ProgressView::Pending(
                    SessionView::Resolving { resolver: next, platform },
                ),
                ResolutionView::Done(Ok(target)) => ProgressView::Pending(
                    SessionView::Opening { opener: OpenerView::start(target, platform) },
                ),
                ResolutionView::Done(Err(failure)) => ProgressView::Done(Err(failure)),
            },
            SessionView::Opening { opener } => match opener.advance(reply) {
                OpeningView::Pending(next) => ProgressView::Pending(
                    SessionView::Opening { opener: next },
                ),
                OpeningView::Done(outcome) => ProgressView::Done(outcome),
            },
        }
    }
}

/// What an invocation with `input` comes to on a host that answers as
/// `world` does: the input is resolved, and the target is opened.
pub open spec fn invocation(world: World, platform: Platform, input: Option<Seq<char>>) -> Result<
    Seq<char>,
    Failure,
> {
    match resolve(world, input) {
        Ok(target) => open_outcome(world, platform, target),
        Err(failure) => Err(failure),
    }
}

/// What an invocation in state `state` comes to when the host answers as
/// `world` does, within `steps` steps. `None` where it takes more.
pub open spec fn run_session(world: World, state: SessionView, steps: nat) -> Option<
    Result<Seq<char>, Failure>,
>
    decreases steps,
{
    if steps == 0 {
        None
    } else {
        match state.advance(world.answer(state.request())) {
            ProgressView::Done(outcome) => Some(outcome),
            ProgressView::Pending(next) => run_session(world, next, (steps - 1) as nat),
        }
    }
}

impl Session {
    /// Begins an invocation with the arguments `cli` on `platform`.
    pub fn new(cli: Cli, platform: Platform) -> (session: Session)
        ensures
            session@ == SessionView::start(
                match cli.path {
                    Some(text) => Some(text@),
                    None => None,
                },
                platform,
            ),
    {
        Session::Resolving { resolver: Resolver::new(cli.path), platform }
    }

    /// The request that the host has to perform next.
    pub fn request(&self) -> (request: Request)
        ensures
            request@ == self@.request(),
    {
        match self {
            Session::Resolving { resolver, .. } => resolver.request(),
            Session::Opening { opener } => opener.request(),
        }
    }
}

/// One step of an invocation: takes the host's reply to the request of
/// `session` and says what comes next.
pub fn run(session: Session, reply: Reply) -> (next: Progress)
    ensures
        next@ == session@.advance(reply@),
{
    match session {
        Session::Resolving { resolver, platform } => match resolve_target(resolver, reply) {
            Resolution::Pending(next) => Progress::Pending(
                Session::Resolving { resolver: next, platform },
            ),
            Resolution::Done(Ok(target)) => Progress::Pending(
                Session::Opening { opener: Opener::new(target, platform) },
            ),
            Resolution::Done(Err(failure)) => Progress::Done(Err(failure)),
        },
        Session::Opening { opener } => match open_in_browser(opener, reply) {
            Opening::Pending(next) => Progress::Pending(Session::Opening { opener: next }),
            Opening::Done(outcome) => Progress::Done(outcome),
        },
    }
}

/// An invocation that has reached the opener ends as the opener does,
/// however many steps more it is given.
proof fn lemma_session_follows_opener(world: World, opener: OpenerView, needed: nat, given: nat)
    requires
        run_opener(world, opener, needed) is Some,
        given >= needed,
    ensures
        run_session(world, SessionView::Opening { opener }, given) == run_opener(
            world,
            opener,
            needed,
        ),
    decreases needed,
{
    match opener.advance(world.answer(opener.request())) {
        OpeningView::Done(_) => {},
        OpeningView::Pending(next) => {
            lemma_session_follows_opener(world, next, (needed - 1) as nat, (given - 1) as nat);
        },
    }
}

/// An invocation that is resolving ends with the resolver's failure, or
/// goes on to open the resolver's target.
proof fn lemma_session_follows_resolver(
    world: World,
    resolver: ResolverView,
    platform: Platform,
    needed: nat,
    opening: nat,
    given: nat,
)
    requires
        run_resolver(world, resolver, needed) is Some,
        run_resolver(world, resolver, needed) matches Some(Ok(target)) ==> run_opener(
            world,
            OpenerView::start(target, platform),
            opening,
        ) is Some,
        given >= needed + opening,
    ensures
        run_session(world, SessionView::Resolving { resolver, platform }, given) == Some(
            match run_resolver(world, resolver, needed).unwrap() {
                Ok(target) => run_opener(
                    world,
                    OpenerView::start(target, platform),
                    opening,
                ).unwrap(),
                Err(failure) => Err(failure),
            },
        ),
    decreases needed,
{
    match resolver.advance(world.answer(resolver.request())) {
        ResolutionView::Done(Ok(target)) => {
            lemma_session_follows_opener(
                world,
                OpenerView::start(target, platform),
                opening,
                (given - 1) as nat,
            );
        },
        ResolutionView::Done(Err(_)) => {},
        ResolutionView::Pending(next) => {
            lemma_session_follows_resolver(
                world,
                next,
                platform,
                (needed - 1) as nat,
                opening,
                (given - 1) as nat,
            );
        },
    }
}

/// The steps of an invocation, taken one after another on a host that
/// answers as `world` does, end with what `invocation` describes: within
/// eight steps and one more for each preferred browser of the platform.
pub proof fn session_steps_reach_invocation(
    world: World,
    platform: Platform,
    input: Option<Seq<char>>,
)
    ensures
        run_session(
            world,
            SessionView::start(input, platform),
            preferred_browsers(platform).len() + 8,
        ) == Some(invocation(world, platform, input)),
{
    let opening = preferred_browsers(platform).len() + 4;
    resolver_steps_reach_resolve(world, input);
    match resolve(world, input) {
        Ok(target) => {
            opener_steps_reach_outcome(world, platform, target);
        },
        Err(_) => {},
    }
    lemma_session_follows_resolver(
        world,
        ResolverView::start(input),
        platform,
        4,
        opening,
        opening + 4,
    );
}

} // verus!
