//! The ways an operation of this crate fails, and what each tells the caller.

use vstd::prelude::*;

verus! {

/// An upstream endpoint whose call can fail.
#[derive(Clone, Copy, Debug, PartialEq, Eq, Structural)]
pub enum Endpoint {
    TopTracks,
    Following,
    Follow,
    Contains,
    Play,
    Search,
}

/// A storage operation that can fail.
#[derive(Clone, Copy, Debug, PartialEq, Eq, Structural)]
pub enum Operation {
    FindExcludedArtists,
    InsertExcludedArtist,
    FindMusicGenres,
    FindProgress,
    InsertProgress,
    UpdateProgress,
}

/// Why an operation failed. No failure is retried here, and none is turned
/// into a success: the caller decides whether to run the operation again.
#[derive(Debug, PartialEq, Eq)]
pub enum Failure {
    /// The token exchange failed.
    AuthFailure { cause: String },
    /// A call to the service failed in transport, status or decoding.
    UpstreamRequestFailed { endpoint: Endpoint, cause: String },
    /// The storage refused or lost an operation.
    StorageFailure { operation: Operation, cause: String },
    /// The artist to exclude is on the exclusion list already.
    DuplicateExclusion { id: String },
}

/// Mathematical value of a [`Failure`].
pub enum FailureView {
    AuthFailure { cause: Seq<char> },
    UpstreamRequestFailed { endpoint: Endpoint, cause: Seq<char> },
    StorageFailure { operation: Operation, cause: Seq<char> },
    DuplicateExclusion { id: Seq<char> },
}

impl View for Failure {
    type V = FailureView;

    open spec fn view(&self) -> FailureView {
        match self {
            Failure::AuthFailure { cause } => FailureView::AuthFailure { cause: cause@ },
            Failure::UpstreamRequestFailed { endpoint, cause } => FailureView::UpstreamRequestFailed {
                endpoint: *endpoint,
                cause: cause@,
            },
            Failure::StorageFailure { operation, cause } => FailureView::StorageFailure {
                operation: *operation,
                cause: cause@,
            },
            Failure::DuplicateExclusion { id } => FailureView::DuplicateExclusion { id: id@ },
        }
    }
}

/// What is said when the call to `endpoint` fails, up to the cause.
pub open spec fn endpoint_text(endpoint: Endpoint) -> Seq<char> {
    match endpoint {
        Endpoint::TopTracks => "人気曲の取得に失敗しました,"@,
        Endpoint::Following => "フォロー中のアーティストの取得に失敗しました,"@,
        Endpoint::Follow => "アーティストのフォローに失敗しました,"@,
        Endpoint::Contains => "フォロー状況の取得に失敗しました,"@,
        Endpoint::Play => "曲の再生に失敗しました,"@,
        Endpoint::Search => "アーティストの検索に失敗しました,"@,
    }
}

/// What is said when `operation` fails, up to the cause.
pub open spec fn operation_text(operation: Operation) -> Seq<char> {
    match operation {
        Operation::FindExcludedArtists => "除外されているアーティストの取得に失敗しました ,"@,
        Operation::InsertExcludedArtist => "アーティストを除外リストに登録するのに失敗しました ,"@,
        Operation::FindMusicGenres => "音楽ジャンル一覧の取得に失敗しました,"@,
        Operation::FindProgress => "音楽検索の進捗の取得に失敗しました,"@,
        Operation::InsertProgress => "音楽検索の進捗の登録に失敗しました,"@,
        Operation::UpdateProgress => "音楽検索の進捗の更新に失敗しました,"@,
    }
}

/// The message of a failure: what failed, then the cause.
pub open spec fn message_text(failure: FailureView) -> Seq<char> {
    match failure {
        FailureView::AuthFailure { cause } => "アクセストークンの取得に失敗しました,"@ + cause,
        FailureView::UpstreamRequestFailed { endpoint, cause } => endpoint_text(endpoint) + cause,
        FailureView::StorageFailure { operation, cause } => operation_text(operation) + cause,
        FailureView::DuplicateExclusion { id } => "既に除外リストに登録されています,"@ + id,
    }
}

/// The machine-readable name of a failure's kind.
pub open spec fn code_text(failure: FailureView) -> Seq<char> {
    match failure {
        FailureView::AuthFailure { .. } => "AuthFailure"@,
        FailureView::UpstreamRequestFailed { .. } => "UpstreamRequestFailed"@,
        FailureView::StorageFailure { .. } => "StorageFailure"@,
        FailureView::DuplicateExclusion { .. } => "DuplicateExclusion"@,
    }
}

fn endpoint_str(endpoint: Endpoint) -> (text: &'static str)
    ensures
        text@ == endpoint_text(endpoint),
{
    match endpoint {
        Endpoint::TopTracks => "人気曲の取得に失敗しました,",
        Endpoint::Following => "フォロー中のアーティストの取得に失敗しました,",
        Endpoint::Follow => "アーティストのフォローに失敗しました,",
        Endpoint::Contains => "フォロー状況の取得に失敗しました,",
        Endpoint::Play => "曲の再生に失敗しました,",
        Endpoint::Search => "アーティストの検索に失敗しました,",
    }
}

fn operation_str(operation: Operation) -> (text: &'static str)
    ensures
        text@ == operation_text(operation),
{
    match operation {
        Operation::FindExcludedArtists => "除外されているアーティストの取得に失敗しました ,",
        Operation::InsertExcludedArtist => "アーティストを除外リストに登録するのに失敗しました ,",
        Operation::FindMusicGenres => "音楽ジャンル一覧の取得に失敗しました,",
        Operation::FindProgress => "音楽検索の進捗の取得に失敗しました,",
        Operation::InsertProgress => "音楽検索の進捗の登録に失敗しました,",
        Operation::UpdateProgress => "音楽検索の進捗の更新に失敗しました,",
    }
}

impl Failure {
    /// The failed token exchange with its cause.
    pub fn auth(cause: &str) -> (failure: Failure)
        ensures
            failure@ == (FailureView::AuthFailure { cause: cause@ }),
    {
        Failure::AuthFailure { cause: cause.to_owned() }
    }

    /// The failed call to `endpoint` with its cause.
    pub fn upstream(endpoint: Endpoint, cause: &str) -> (failure: Failure)
        ensures
            failure@ == (FailureView::UpstreamRequestFailed { endpoint, cause: cause@ }),
    {
        Failure::UpstreamRequestFailed { endpoint, cause: cause.to_owned() }
    }

    /// The failed storage `operation` with its cause.
    pub fn storage(operation: Operation, cause: &str) -> (failure: Failure)
        ensures
            failure@ == (FailureView::StorageFailure { operation, cause: cause@ }),
    {
        Failure::StorageFailure { operation, cause: cause.to_owned() }
    }

    /// The machine-readable name of this failure's kind.
    pub fn code(&self) -> (code: &'static str)
        ensures
            code@ == code_text(self@),
    {
        match self {
            Failure::AuthFailure { .. } => "AuthFailure",
            Failure::UpstreamRequestFailed { .. } => "UpstreamRequestFailed",
            Failure::StorageFailure { .. } => "StorageFailure",
            Failure::DuplicateExclusion { .. } => "DuplicateExclusion",
        }
    }

    /// The message shown to the caller.
    pub fn message(&self) -> (message: String)
        ensures
            message@ == message_text(self@),
    {
        match self {
            Failure::AuthFailure { cause } => {
                "アクセストークンの取得に失敗しました,".to_owned().concat(cause.as_str())
            },
            Failure::UpstreamRequestFailed { endpoint, cause } => {
                endpoint_str(*endpoint).to_owned().concat(cause.as_str())
            },
            Failure::StorageFailure { operation, cause } => {
                operation_str(*operation).to_owned().concat(cause.as_str())
            },
            Failure::DuplicateExclusion { id } => {
                "既に除外リストに登録されています,".to_owned().concat(id.as_str())
            },
        }
    }
}

} // verus!
