//! Laws of the state machine that span more than one transition, proved from
//! the transition relations alone.

use crate::contract::burn_post;
use crate::contract::execute_post;
use crate::contract::init_post;
use crate::contract::query_post;
use crate::contract::transfer_post;
use crate::contract::ConfigResponse;
use crate::contract::ContractError;
use crate::contract::Env;
use crate::contract::InitMsg;
use crate::contract::MessageInfo;
use crate::contract::Response;
use crate::state::State;
use vstd::prelude::*;

verus! {

/// Creation with a strictly future expiration succeeds, and a query of the
/// resulting record returns the submitted values unchanged: the caller as
/// both creator and owner, the attached funds as collateral, and the
/// requested counter-offer and expiration.
pub proof fn lemma_create_roundtrip(
    pre: Option<State>,
    post: Option<State>,
    env: Env,
    info: MessageInfo,
    msg: InitMsg,
    r: Result<Response, ContractError>,
    q: Result<ConfigResponse, ContractError>,
)
    requires
        msg.expires > env.block_height,
        init_post(pre, post, env, info, msg, r),
        query_post(post, q),
    ensures
        r is Ok,
        q matches Ok(c) && {
            &&& c.creator@ == info.sender@
            &&& c.owner@ == info.sender@
            &&& c.collateral@ == info.sent_funds@
            &&& c.counter_offer@ == msg.counter_offer@
            &&& c.expires == msg.expires
        },
{
}

/// Creation with an expiration at or before the current height is always
/// rejected with `InvalidExpiration` and writes nothing: the slot is exactly
/// what it was, so an empty instance stays empty.
pub proof fn lemma_create_expired_rejected(
    pre: Option<State>,
    post: Option<State>,
    env: Env,
    info: MessageInfo,
    msg: InitMsg,
    r: Result<Response, ContractError>,
)
    requires
        msg.expires <= env.block_height,
        init_post(pre, post, env, info, msg, r),
    ensures
        r == Err::<Response, ContractError>(ContractError::InvalidExpiration),
        post == pre,
{
}

/// Only the current owner may transfer ownership: any other caller is
/// rejected with `Unauthorized` and the record — the owner in particular —
/// is left exactly as it was.
pub proof fn lemma_transfer_owner_only(
    pre: Option<State>,
    post: Option<State>,
    info: MessageInfo,
    recipient: Seq<char>,
    r: Result<Response, ContractError>,
)
    requires
        pre matches Some(st) && info.sender@ != st.owner@,
        transfer_post(pre, post, info, recipient, r),
    ensures
        r == Err::<Response, ContractError>(ContractError::Unauthorized),
        post == pre,
{
}

/// After a successful transfer the recipient is the authorization principal:
/// a later transfer or exercise by anyone else is rejected with
/// `Unauthorized` and changes nothing, while the recipient's own calls are
/// never rejected for authorization.
pub proof fn lemma_transfer_changes_principal(
    pre: Option<State>,
    mid: Option<State>,
    info: MessageInfo,
    recipient: Seq<char>,
    r: Result<Response, ContractError>,
)
    requires
        transfer_post(pre, mid, info, recipient, r),
        r is Ok,
    ensures
        mid matches Some(m) && m.owner@ == recipient,
        forall|
            info2: MessageInfo,
            post2: Option<State>,
            recipient2: Seq<char>,
            r2: Result<Response, ContractError>,
        |
            #[trigger] transfer_post(mid, post2, info2, recipient2, r2) && info2.sender@
                != recipient ==> r2 == Err::<Response, ContractError>(ContractError::Unauthorized)
                && post2 == mid,
        forall|
            info2: MessageInfo,
            env2: Env,
            post2: Option<State>,
            r2: Result<Response, ContractError>,
        |
            #[trigger] execute_post(mid, post2, info2, env2, r2) && info2.sender@ != recipient
                ==> r2 == Err::<Response, ContractError>(ContractError::Unauthorized) && post2
                == mid,
        forall|
            info2: MessageInfo,
            env2: Env,
            post2: Option<State>,
            r2: Result<Response, ContractError>,
        |
            #[trigger] execute_post(mid, post2, info2, env2, r2) && info2.sender@ == recipient
                ==> r2 != Err::<Response, ContractError>(ContractError::Unauthorized),
        forall|
            info2: MessageInfo,
            post2: Option<State>,
            recipient2: Seq<char>,
            r2: Result<Response, ContractError>,
        |
            #[trigger] transfer_post(mid, post2, info2, recipient2, r2) && info2.sender@
                == recipient ==> r2 is Ok,
{
}

/// Ownership transfer never redirects a reclaim: whoever triggers it once
/// the option has expired, the collateral still returns to the creator
/// recorded at creation.
pub proof fn lemma_transfer_keeps_reclaim_target(
    st0: State,
    mid: Option<State>,
    info: MessageInfo,
    recipient: Seq<char>,
    r: Result<Response, ContractError>,
)
    requires
        transfer_post(Some(st0), mid, info, recipient, r),
        r is Ok,
    ensures
        forall|
            info2: MessageInfo,
            env2: Env,
            post2: Option<State>,
            r2: Result<Response, ContractError>,
        |
            #[trigger] burn_post(mid, post2, info2, env2, r2) ==> (r2 matches Ok(resp) ==> {
                &&& resp.messages@.len() == 1
                &&& resp.messages@[0].to_address@ == st0.creator@
            }),
{
}

/// Settlement is final: after a successful exercise the record is gone and
/// every later query fails with `NotFound`.
pub proof fn lemma_query_after_exercise(
    pre: Option<State>,
    post: Option<State>,
    info: MessageInfo,
    env: Env,
    r: Result<Response, ContractError>,
    q: Result<ConfigResponse, ContractError>,
)
    requires
        execute_post(pre, post, info, env, r),
        r is Ok,
        query_post(post, q),
    ensures
        post is None,
        q == Err::<ConfigResponse, ContractError>(ContractError::NotFound),
{
}

/// Settlement is final: after a successful reclaim the record is gone and
/// every later query fails with `NotFound`.
pub proof fn lemma_query_after_burn(
    pre: Option<State>,
    post: Option<State>,
    info: MessageInfo,
    env: Env,
    r: Result<Response, ContractError>,
    q: Result<ConfigResponse, ContractError>,
)
    requires
        burn_post(pre, post, info, env, r),
        r is Ok,
        query_post(post, q),
    ensures
        post is None,
        q == Err::<ConfigResponse, ContractError>(ContractError::NotFound),
{
}

} // verus!
