use vstd::prelude::*;

verus! {

/// A permission or validation guard whose rule lives in the shared API
/// utilities (it needs the database or the site settings).  Endpoints
/// receive the guard's outcome and refuse with `Refused(guard)` where it failed.
#[derive(Debug, Clone, Copy, PartialEq, Eq, Structural)]
pub enum Guard {
    /// The account is neither banned nor deleted.
    LocalUserValid,
    /// The account belongs to a site administrator.
    Admin,
    /// The person moderates the community, or is an administrator.
    ModOrAdmin,
    /// The person moderates some community, or is an administrator.
    ModOfAnyOrAdmin,
    /// The person may act as a moderator of the community.
    CommunityModAction,
    /// The person may act as a member of the community.
    CommunityUserAction,
    /// Anonymous access to a private instance is refused.
    PrivateInstance,
    /// A new password has an accepted length.
    PasswordLength,
    /// A name is a valid actor name.
    ActorName,
    /// A list is not longer than the API accepts.
    ApiElementsCount,
    /// A summary is not too long.
    SummaryLength,
    /// A text holds no slur.
    Slurs,
    /// An expiry time lies in the future.
    ExpireTime,
    /// The account's email address has been verified, where the site asks for it.
    EmailVerified,
    /// The acting admin ranks above the admins that the action touches.
    HigherAdmin,
}

/// The errors that the endpoints answer with.
#[derive(Debug, Clone, Copy, PartialEq, Eq, Structural)]
pub enum StudyCycleErrorType {
    NoCommentEditAllowed,
    NoIdGiven,
    PasswordsDoNotMatch,
    IncorrectLogin,
    CantBlockLocalInstance,
    NotLoggedIn,
    CannotCombineFederationBlocklistAndAllowlist,
    InvalidUrl,
    CouldntUpdate,
    NoPostEditAllowed,
    MultiCommunityUpdateWrongUser,
    InvalidUnixTime,
    PostScheduleTimeMustBeInFuture,
    TooManyScheduledPosts,
    EditPrivateMessageNotAllowed,
    /// An error that carries no type of its own, such as a link that does not parse.
    Unknown,
    /// A guard failed.
    Refused(Guard),
}

pub type StudyCycleResult<T> = Result<T, StudyCycleErrorType>;

/// `r` is the error `e`.
pub open spec fn fails_with<T>(r: StudyCycleResult<T>, e: StudyCycleErrorType) -> bool {
    r matches Err(x) && x == e
}

/// `r` is the refusal of guard `g`.
pub open spec fn refused_by<T>(r: StudyCycleResult<T>, g: Guard) -> bool {
    fails_with(r, StudyCycleErrorType::Refused(g))
}

/// Ok where the guard holds; otherwise the refusal of that guard.
pub fn require_guard(passed: bool, guard: Guard) -> (res: StudyCycleResult<()>)
    ensures
        res == (if passed { Ok(()) } else { Err::<(), StudyCycleErrorType>(StudyCycleErrorType::Refused(guard)) }),
{
    if passed {
        Ok(())
    } else {
        Err(StudyCycleErrorType::Refused(guard))
    }
}

} // verus!
