//! The tools that call the service: search, the check of followed
//! artists, playback and following.

use crate::client::spotify::v1::me::following::contains::{self, contains_request, Type};
use crate::client::spotify::v1::me::following::{follow_request, put, PutType};
use crate::client::spotify::v1::me::player::play::{self, play_request};
use crate::client::spotify::v1::search::artist::{get, search_request, GetQuery};
use crate::error::{Endpoint, Failure, FailureView};
use crate::outside::{Action, ActionView, Event, EventView};
use crate::text::texts;
use crate::tool::reply::{
    following_output, following_text, outcome_view, search_output, search_text,
};
use vstd::prelude::*;

verus! {

/// A tool that calls the service: what the caller asked for.
#[derive(Debug, PartialEq, Eq)]
pub enum UpstreamCall {
    /// Search the artists of a genre, first page.
    Search { genre: String },
    /// Ask which of the artists the user follows.
    IsFollowing { ids: Vec<String> },
    /// Start playback of the context.
    Play { context_uri: String },
    /// Follow the artists.
    Follow { ids: Vec<String> },
}

/// Where an invocation of a service tool stands.
#[derive(Debug, PartialEq, Eq)]
pub enum UpstreamStage {
    /// A token has been asked for.
    Token,
    /// The tool's request is under way with this token.
    Sent { token: String },
    /// The invocation is over.
    Finished(Result<String, Failure>),
}

/// One invocation of a tool that calls the service: it acquires a token,
/// makes its one call with it, and answers. A failed exchange ends it
/// before any call is made.
#[derive(Debug, PartialEq, Eq)]
pub struct UpstreamTool {
    call: UpstreamCall,
    stage: UpstreamStage,
}

/// Mathematical value of an [`UpstreamCall`].
pub enum UpstreamCallView {
    Search { genre: Seq<char> },
    IsFollowing { ids: Seq<Seq<char>> },
    Play { context_uri: Seq<char> },
    Follow { ids: Seq<Seq<char>> },
}

/// Mathematical value of an [`UpstreamStage`].
pub enum UpstreamStageView {
    Token,
    Sent { token: Seq<char> },
    Finished(Result<Seq<char>, FailureView>),
}

/// Mathematical value of an [`UpstreamTool`].
pub struct UpstreamToolView {
    pub call: UpstreamCallView,
    pub stage: UpstreamStageView,
}

impl View for UpstreamCall {
    type V = UpstreamCallView;

    open spec fn view(&self) -> UpstreamCallView {
        match self {
            UpstreamCall::Search { genre } => UpstreamCallView::Search { genre: genre@ },
            UpstreamCall::IsFollowing { ids } => UpstreamCallView::IsFollowing { ids: texts(ids@) },
            UpstreamCall::Play { context_uri } => UpstreamCallView::Play { context_uri: context_uri@ },
            UpstreamCall::Follow { ids } => UpstreamCallView::Follow { ids: texts(ids@) },
        }
    }
}

impl View for UpstreamStage {
    type V = UpstreamStageView;

    open spec fn view(&self) -> UpstreamStageView {
        match self {
            UpstreamStage::Token => UpstreamStageView::Token,
            UpstreamStage::Sent { token } => UpstreamStageView::Sent { token: token@ },
            UpstreamStage::Finished(outcome) => UpstreamStageView::Finished(outcome_view(*outcome)),
        }
    }
}

impl View for UpstreamTool {
    type V = UpstreamToolView;

    closed spec fn view(&self) -> UpstreamToolView {
        UpstreamToolView { call: self.call@, stage: self.stage@ }
    }
}

/// The endpoint that a service tool calls.
pub open spec fn endpoint_of(call: UpstreamCallView) -> Endpoint {
    match call {
        UpstreamCallView::Search { .. } => Endpoint::Search,
        UpstreamCallView::IsFollowing { .. } => Endpoint::Contains,
        UpstreamCallView::Play { .. } => Endpoint::Play,
        UpstreamCallView::Follow { .. } => Endpoint::Follow,
    }
}

/// The one call of a service tool, made with `token`.
pub open spec fn call_of(call: UpstreamCallView, token: Seq<char>) -> ActionView {
    match call {
        UpstreamCallView::Search { genre } => ActionView::Fetch(
            search_request(token, None, None, Some(genre)),
        ),
        UpstreamCallView::IsFollowing { ids } => ActionView::AskFollowing(
            contains_request(token, Type::Artist, ids),
        ),
        UpstreamCallView::Play { context_uri } => ActionView::Perform(
            play_request(token, context_uri),
        ),
        UpstreamCallView::Follow { ids } => ActionView::Perform(
            follow_request(token, PutType::Artist, ids),
        ),
    }
}

/// What an invocation of a service tool asks for while it stands as `tool`.
pub open spec fn upstream_pending(tool: UpstreamToolView) -> ActionView {
    match tool.stage {
        UpstreamStageView::Token => ActionView::AcquireToken,
        UpstreamStageView::Sent { token } => call_of(tool.call, token),
        UpstreamStageView::Finished(_) => ActionView::Finish,
    }
}

/// What a service tool answers once its call has given `event`; none
/// where the event is no answer to that call.
pub open spec fn upstream_reply(call: UpstreamCallView, event: EventView) -> Option<
    Result<Seq<char>, FailureView>,
> {
    match (call, event) {
        (_, EventView::Failed(cause)) => Some(
            Err(FailureView::UpstreamRequestFailed { endpoint: endpoint_of(call), cause }),
        ),
        (UpstreamCallView::Search { genre }, EventView::Page(response)) => Some(
            Ok(search_text(genre, response.artists.items@)),
        ),
        (UpstreamCallView::IsFollowing { .. }, EventView::Flags(flags)) => Some(
            Ok(following_text(flags)),
        ),
        (UpstreamCallView::Play { .. }, EventView::Sent) => Some(Ok("曲を再生しました"@)),
        (UpstreamCallView::Follow { .. }, EventView::Sent) => Some(
            Ok("アーティストをフォローしました"@),
        ),
        _ => None,
    }
}

/// The invocation of a service tool after `event`.
///
/// The token stage moves on with a token and ends with the failed exchange.
/// The call stage ends with the tool's answer, or with the failed call. An
/// event that answers nothing leaves the invocation as it is.
pub open spec fn upstream_next(tool: UpstreamToolView, event: EventView) -> UpstreamToolView {
    let stage = match (tool.stage, event) {
        (UpstreamStageView::Token, EventView::Token(token)) => UpstreamStageView::Sent { token },
        (UpstreamStageView::Token, EventView::Failed(cause)) => UpstreamStageView::Finished(
            Err(FailureView::AuthFailure { cause }),
        ),
        (UpstreamStageView::Sent { .. }, event) => match upstream_reply(tool.call, event) {
            Some(reply) => UpstreamStageView::Finished(reply),
            None => tool.stage,
        },
        (stage, _) => stage,
    };
    UpstreamToolView { call: tool.call, stage }
}

/// An invocation of a service tool before anything has happened.
pub open spec fn upstream_begun(call: UpstreamCallView) -> UpstreamToolView {
    UpstreamToolView { call, stage: UpstreamStageView::Token }
}

impl UpstreamTool {
    /// An invocation of the tool, before anything has happened.
    pub fn start(call: UpstreamCall) -> (tool: Self)
        ensures
            tool@ == upstream_begun(call@),
    {
        UpstreamTool { call, stage: UpstreamStage::Token }
    }

    /// An invocation of the search for the artists of `genre`.
    pub fn search(genre: String) -> (tool: Self)
        ensures
            tool@ == upstream_begun(UpstreamCallView::Search { genre: genre@ }),
    {
        Self::start(UpstreamCall::Search { genre })
    }

    /// An invocation of the check which of `ids` the user follows.
    pub fn is_following(ids: Vec<String>) -> (tool: Self)
        ensures
            tool@ == upstream_begun(UpstreamCallView::IsFollowing { ids: texts(ids@) }),
    {
        Self::start(UpstreamCall::IsFollowing { ids })
    }

    /// An invocation that starts playback of `context_uri`.
    pub fn play(context_uri: String) -> (tool: Self)
        ensures
            tool@ == upstream_begun(UpstreamCallView::Play { context_uri: context_uri@ }),
    {
        Self::start(UpstreamCall::Play { context_uri })
    }

    /// An invocation that follows the artists `ids`.
    pub fn follow(ids: Vec<String>) -> (tool: Self)
        ensures
            tool@ == upstream_begun(UpstreamCallView::Follow { ids: texts(ids@) }),
    {
        Self::start(UpstreamCall::Follow { ids })
    }

    /// Whether the invocation is over.
    pub fn finished(&self) -> (over: bool)
        ensures
            over == (self@.stage is Finished),
    {
        match &self.stage {
            UpstreamStage::Finished(_) => true,
            _ => false,
        }
    }

    /// What the invocation asks for now.
    pub fn pending(&self) -> (action: Action)
        ensures
            action@ == upstream_pending(self@),
    {
        match &self.stage {
            UpstreamStage::Token => Action::AcquireToken,
            UpstreamStage::Sent { token } => match &self.call {
                UpstreamCall::Search { genre } => {
                    let query = GetQuery { offset: None, limit: None, genre: Some(genre.clone()) };
                    Action::Fetch(get(token.as_str(), &query))
                },
                UpstreamCall::IsFollowing { ids } => Action::AskFollowing(
                    contains::get(token.as_str(), Type::Artist, ids.as_slice()),
                ),
                UpstreamCall::Play { context_uri } => Action::Perform(
                    play::put(token.as_str(), context_uri.as_str()),
                ),
                UpstreamCall::Follow { ids } => Action::Perform(
                    put(token.as_str(), PutType::Artist, ids.as_slice()),
                ),
            },
            UpstreamStage::Finished(_) => Action::Finish,
        }
    }

    /// Takes in what happened outside and moves the invocation on.
    pub fn step(self, event: Event) -> (tool: Self)
        ensures
            tool@ == upstream_next(self@, event@),
    {
        let UpstreamTool { call, stage } = self;
        let stage = match (stage, event) {
            (UpstreamStage::Token, Event::Token(token)) => UpstreamStage::Sent { token },
            (UpstreamStage::Token, Event::Failed(cause)) => UpstreamStage::Finished(
                Err(Failure::AuthFailure { cause }),
            ),
            (UpstreamStage::Sent { token }, Event::Failed(cause)) => {
                let endpoint = match &call {
                    UpstreamCall::Search { .. } => Endpoint::Search,
                    UpstreamCall::IsFollowing { .. } => Endpoint::Contains,
                    UpstreamCall::Play { .. } => Endpoint::Play,
                    UpstreamCall::Follow { .. } => Endpoint::Follow,
                };
                UpstreamStage::Finished(Err(Failure::UpstreamRequestFailed { endpoint, cause }))
            },
            (UpstreamStage::Sent { token }, Event::Page(response)) => match &call {
                UpstreamCall::Search { genre } => UpstreamStage::Finished(
                    Ok(search_output(genre.as_str(), response.artists.items.as_slice())),
                ),
                _ => UpstreamStage::Sent { token },
            },
            (UpstreamStage::Sent { token }, Event::Flags(flags)) => match &call {
                UpstreamCall::IsFollowing { .. } => UpstreamStage::Finished(
                    Ok(following_output(flags.as_slice())),
                ),
                _ => UpstreamStage::Sent { token },
            },
            (UpstreamStage::Sent { token }, Event::Sent) => match &call {
                UpstreamCall::Play { .. } => UpstreamStage::Finished(
                    Ok("曲を再生しました".to_owned()),
                ),
                UpstreamCall::Follow { .. } => UpstreamStage::Finished(
                    Ok("アーティストをフォローしました".to_owned()),
                ),
                _ => UpstreamStage::Sent { token },
            },
            (stage, _) => stage,
        };
        UpstreamTool { call, stage }
    }

    /// The outcome of an invocation that is over; none while it is under
    /// way.
    pub fn outcome(self) -> (outcome: Option<Result<String, Failure>>)
        ensures
            match outcome {
                Some(outcome) => self@.stage == UpstreamStageView::Finished(outcome_view(outcome)),
                None => !(self@.stage is Finished),
            },
    {
        match self.stage {
            UpstreamStage::Finished(outcome) => Some(outcome),
            _ => None,
        }
    }
}

/// Whether a stage lies behind the token exchange.
pub open spec fn authorized(stage: UpstreamStageView) -> bool {
    stage is Sent || stage matches UpstreamStageView::Finished(Ok(_))
}

/// The invocation after the events happened in order.
pub open spec fn upstream_after(tool: UpstreamToolView, events: Seq<EventView>) -> UpstreamToolView
    decreases events.len(),
{
    if events.len() == 0 {
        tool
    } else {
        upstream_next(upstream_after(tool, events.drop_last()), events.last())
    }
}

/// No call is made without a token: whatever happens to an invocation from
/// its beginning, it asks for its call, and it ends well, only after a
/// token has arrived. Until then it asks for the token, or it has ended
/// with a failure.
pub proof fn law_call_follows_token(call: UpstreamCallView, events: Seq<EventView>)
    ensures
        ({
            let tool = upstream_after(upstream_begun(call), events);
            let asked = upstream_pending(tool);
            &&& tool.call == call
            &&& authorized(tool.stage) ==> exists|i: int|
                0 <= i < events.len() && #[trigger] events[i] is Token
            &&& asked is Fetch || asked is AskFollowing || asked is Perform ==> tool.stage is Sent
        }),
    decreases events.len(),
{
    if events.len() > 0 {
        let front = events.drop_last();
        let before = upstream_after(upstream_begun(call), front);
        let tool = upstream_after(upstream_begun(call), events);
        law_call_follows_token(call, front);
        if authorized(tool.stage) {
            if before.stage is Token {
                assert(events[events.len() - 1] is Token);
            } else {
                let i = choose|i: int| 0 <= i < front.len() && #[trigger] front[i] is Token;
                assert(events[i] is Token);
            }
        }
    }
}

} // verus!
