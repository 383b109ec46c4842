//! The interface to the remote cloud collaborator, as plain values.
//!
//! Handlers never perform I/O themselves.  When a handler needs a remote
//! operation it hands a [`RemoteCall`] to the surrounding loop, which
//! performs the operation and feeds the outcome back as a [`RemoteResult`].
//! All decisions about the outcome are made — and verified — here in the
//! core, for every possible outcome.

use vstd::prelude::*;

use crate::appstate::{ProfileSource, Session, SessionView};
use crate::cloud_watch_logs_state::{CloudWatchLogGroup, CloudWatchLogGroupView};

verus! {

/// The identity reported by the identity-check operation.
pub struct AwsCallerIdentity {
    pub account: String,
    pub arn: String,
    pub user_id: String,
}

/// Mathematical abstraction of [`AwsCallerIdentity`].
#[verifier::ext_equal]
pub struct AwsCallerIdentityView {
    pub account: Seq<char>,
    pub arn: Seq<char>,
    pub user_id: Seq<char>,
}

impl View for AwsCallerIdentity {
    type V = AwsCallerIdentityView;

    open spec fn view(&self) -> AwsCallerIdentityView {
        AwsCallerIdentityView {
            account: self.account@,
            arn: self.arn@,
            user_id: self.user_id@,
        }
    }
}

/// A failed remote operation: a short user-facing message and a verbose
/// diagnostic string.
pub struct RemoteError {
    pub message: String,
    pub backtrace: String,
}

/// Mathematical abstraction of [`RemoteError`].
#[verifier::ext_equal]
pub struct RemoteErrorView {
    pub message: Seq<char>,
    pub backtrace: Seq<char>,
}

impl View for RemoteError {
    type V = RemoteErrorView;

    open spec fn view(&self) -> RemoteErrorView {
        RemoteErrorView { message: self.message@, backtrace: self.backtrace@ }
    }
}

/// One remote operation the store asks the surrounding loop to perform.
pub enum RemoteCall {
    /// Resolve a session for the named profile with the strategy keyed by
    /// its origin.
    CreateAwsConfig { profile_name: String, source: ProfileSource },
    /// Identity check on a resolved session.
    FetchCallerIdentity { session: Session },
    /// Enumerate the regions available to a session.
    DescribeRegions { session: Session },
    /// List log groups, optionally continuing from a token.
    DescribeLogGroups { session: Session, next_token: Option<String> },
}

/// Mathematical abstraction of [`RemoteCall`].
pub enum RemoteCallView {
    CreateAwsConfig { profile_name: Seq<char>, source: ProfileSource },
    FetchCallerIdentity { session: SessionView },
    DescribeRegions { session: SessionView },
    DescribeLogGroups { session: SessionView, next_token: Option<Seq<char>> },
}

impl View for RemoteCall {
    type V = RemoteCallView;

    open spec fn view(&self) -> RemoteCallView {
        match self {
            RemoteCall::CreateAwsConfig { profile_name, source } => {
                RemoteCallView::CreateAwsConfig { profile_name: profile_name@, source: *source }
            },
            RemoteCall::FetchCallerIdentity { session } => {
                RemoteCallView::FetchCallerIdentity { session: session@ }
            },
            RemoteCall::DescribeRegions { session } => {
                RemoteCallView::DescribeRegions { session: session@ }
            },
            RemoteCall::DescribeLogGroups { session, next_token } => {
                RemoteCallView::DescribeLogGroups {
                    session: session@,
                    next_token: next_token.deep_view(),
                }
            },
        }
    }
}

/// The outcome of one remote operation, as the surrounding loop reports it.
pub enum RemoteResult {
    Session(Result<Session, RemoteError>),
    Identity(Result<AwsCallerIdentity, RemoteError>),
    Regions(Result<Vec<String>, RemoteError>),
    LogGroups(Result<Vec<CloudWatchLogGroup>, RemoteError>),
}

/// Mathematical abstraction of [`RemoteResult`].
pub enum RemoteResultView {
    Session(Result<SessionView, RemoteErrorView>),
    Identity(Result<AwsCallerIdentityView, RemoteErrorView>),
    Regions(Result<Seq<Seq<char>>, RemoteErrorView>),
    LogGroups(Result<Seq<CloudWatchLogGroupView>, RemoteErrorView>),
}

impl View for RemoteResult {
    type V = RemoteResultView;

    open spec fn view(&self) -> RemoteResultView {
        match self {
            RemoteResult::Session(r) => RemoteResultView::Session(
                match r {
                    Ok(s) => Ok(s@),
                    Err(e) => Err(e@),
                },
            ),
            RemoteResult::Identity(r) => RemoteResultView::Identity(
                match r {
                    Ok(x) => Ok(x@),
                    Err(e) => Err(e@),
                },
            ),
            RemoteResult::Regions(r) => RemoteResultView::Regions(
                match r {
                    Ok(x) => Ok(x.deep_view()),
                    Err(e) => Err(e@),
                },
            ),
            RemoteResult::LogGroups(r) => RemoteResultView::LogGroups(
                match r {
                    Ok(x) => Ok(x.deep_view()),
                    Err(e) => Err(e@),
                },
            ),
        }
    }
}

impl DeepView for RemoteResult {
    type V = RemoteResultView;

    open spec fn deep_view(&self) -> RemoteResultView {
        self.view()
    }
}

} // verus!
