//! The option state machine: create, transfer ownership, exercise, reclaim
//! and query, each a pure transition on the single persisted record.

use crate::funds::funds_equiv;
use crate::funds::funds_match;
use crate::funds::wf_funds;
use crate::funds::Coin;
use crate::state::clone_state;
use crate::state::wf_record;
use crate::state::State;
use vstd::prelude::*;

verus! {

/// Everything a transition can reject a call with. All are terminal
/// validation failures: the record is left unchanged and no transfer
/// instruction is emitted.
#[derive(Clone, Copy, Debug, PartialEq, Eq)]
pub enum ContractError {
    /// Creation requested with an expiration not strictly after the current
    /// height.
    InvalidExpiration,
    /// Caller is not the owner (transfer, exercise).
    Unauthorized,
    /// Exercise attempted at or after expiration.
    Expired,
    /// Reclaim attempted before expiration.
    NotYetExpired,
    /// Exercise payment does not equal the counter-offer exactly.
    FundsMismatch,
    /// Reclaim attempted with attached funds.
    UnexpectedFunds,
    /// No active record (transfer, exercise, reclaim, query).
    NotFound,
}

/// The block height and contract address the host supplies with each call.
#[derive(Clone, Debug, PartialEq, Eq)]
pub struct Env {
    pub block_height: u64,
    pub contract_address: String,
}

/// The caller identity and the funds attached to the call.
#[derive(Clone, Debug, PartialEq, Eq)]
pub struct MessageInfo {
    pub sender: String,
    pub sent_funds: Vec<Coin>,
}

/// The creation request: the price of exercising and the height at which the
/// option lapses.
#[derive(Clone, Debug, PartialEq, Eq)]
pub struct InitMsg {
    pub counter_offer: Vec<Coin>,
    pub expires: u64,
}

/// The three mutating operations after creation.
#[derive(Clone, Debug, PartialEq, Eq)]
pub enum HandleMsg {
    Transfer { recipient: String },
    Execute {},
    Burn {},
}

/// The read-only operations.
#[derive(Clone, Debug, PartialEq, Eq)]
pub enum QueryMsg {
    Config {},
}

/// A query returns the record as stored.
pub type ConfigResponse = State;

/// An instruction to the external ledger: move `amount` from the contract's
/// own balance to `to_address`. The core only constructs these; it never
/// executes them.
#[derive(Clone, Debug, PartialEq, Eq)]
pub struct BankMsg {
    pub from_address: String,
    pub to_address: String,
    pub amount: Vec<Coin>,
}

/// A key-value note attached to a successful transition, for auditability.
#[derive(Clone, Debug, PartialEq, Eq)]
pub struct Attribute {
    pub key: String,
    pub value: String,
}

/// What a successful transition hands back to the dispatcher: the transfer
/// instructions to forward to the ledger, in order, and audit attributes.
#[derive(Clone, Debug, PartialEq, Eq)]
pub struct Response {
    pub messages: Vec<BankMsg>,
    pub attributes: Vec<Attribute>,
}

impl Response {
    /// An empty response: no transfers, no attributes.
    pub fn new() -> (r: Response)
        ensures
            r.messages@ == Seq::<BankMsg>::empty(),
            r.attributes@ == Seq::<Attribute>::empty(),
    {
        Response { messages: Vec::new(), attributes: Vec::new() }
    }

    /// Appends one transfer instruction.
    pub fn add_message(&mut self, msg: BankMsg)
        ensures
            final(self).messages@ == old(self).messages@.push(msg),
            final(self).attributes@ == old(self).attributes@,
    {
        self.messages.push(msg);
    }

    /// Appends one audit attribute.
    pub fn add_attribute(&mut self, attribute: Attribute)
        ensures
            final(self).messages@ == old(self).messages@,
            final(self).attributes@ == old(self).attributes@.push(attribute),
    {
        self.attributes.push(attribute);
    }
}

/// The instruction `m` moves `amount` from `from` to `to`.
pub open spec fn sends(m: BankMsg, from: Seq<char>, to: Seq<char>, amount: Seq<Coin>) -> bool {
    &&& m.from_address@ == from
    &&& m.to_address@ == to
    &&& m.amount@ == amount
}

/// The attribute `a` reads `key`: `value`.
pub open spec fn notes(a: Attribute, key: Seq<char>, value: Seq<char>) -> bool {
    a.key@ == key && a.value@ == value
}

/// What creation does: with an expiration not strictly in the future it is
/// rejected and the slot is untouched; otherwise the record is written with
/// the caller as both creator and owner, the attached funds as collateral,
/// and nothing is emitted.
pub open spec fn init_post(
    pre: Option<State>,
    post: Option<State>,
    env: Env,
    info: MessageInfo,
    msg: InitMsg,
    r: Result<Response, ContractError>,
) -> bool {
    if msg.expires <= env.block_height {
        r == Err::<Response, ContractError>(ContractError::InvalidExpiration) && post == pre
    } else {
        &&& r matches Ok(resp) && resp.messages@.len() == 0 && resp.attributes@.len() == 0
        &&& post matches Some(st) && {
            &&& st.creator@ == info.sender@
            &&& st.owner@ == info.sender@
            &&& st.collateral@ == info.sent_funds@
            &&& st.counter_offer@ == msg.counter_offer@
            &&& st.expires == msg.expires
        }
    }
}

/// Creates the option: locks the attached funds as collateral and records the
/// caller as creator and first owner.
pub fn init(
    record: &mut Option<State>,
    env: Env,
    info: MessageInfo,
    msg: InitMsg,
) -> (r: Result<Response, ContractError>)
    requires
        wf_record(*old(record)),
        wf_funds(info.sent_funds@),
        wf_funds(msg.counter_offer@),
    ensures
        init_post(*old(record), *final(record), env, info, msg, r),
        wf_record(*final(record)),
{
    if msg.expires <= env.block_height {
        return Err(ContractError::InvalidExpiration);
    }
    let state = State {
        creator: info.sender.clone(),
        owner: info.sender,
        collateral: info.sent_funds,
        counter_offer: msg.counter_offer,
        expires: msg.expires,
    };
    *record = Some(state);
    Ok(Response::new())
}

/// What an ownership transfer does: with no record it fails with `NotFound`;
/// a caller other than the owner is rejected with `Unauthorized` and the
/// record is untouched; the owner hands the exercise right to `recipient`,
/// everything else in the record stays as it was, and nothing is sent to the
/// ledger.
pub open spec fn transfer_post(
    pre: Option<State>,
    post: Option<State>,
    info: MessageInfo,
    recipient: Seq<char>,
    r: Result<Response, ContractError>,
) -> bool {
    match pre {
        None => r == Err::<Response, ContractError>(ContractError::NotFound) && post == pre,
        Some(st) => {
            if info.sender@ != st.owner@ {
                r == Err::<Response, ContractError>(ContractError::Unauthorized) && post == pre
            } else {
                &&& r matches Ok(resp) && {
                    &&& resp.messages@.len() == 0
                    &&& resp.attributes@.len() == 2
                    &&& notes(resp.attributes@[0], "action"@, "transfer"@)
                    &&& notes(resp.attributes@[1], "owner"@, recipient)
                }
                &&& post matches Some(p) && {
                    &&& p.creator@ == st.creator@
                    &&& p.owner@ == recipient
                    &&& p.collateral@ == st.collateral@
                    &&& p.counter_offer@ == st.counter_offer@
                    &&& p.expires == st.expires
                }
            }
        },
    }
}

/// Transfers the right to exercise to `recipient`. Only the current owner
/// may do so; the record itself stays in place.
pub fn handle_transfer(
    record: &mut Option<State>,
    info: MessageInfo,
    recipient: String,
) -> (r: Result<Response, ContractError>)
    requires
        wf_record(*old(record)),
    ensures
        transfer_post(*old(record), *final(record), info, recipient@, r),
        wf_record(*final(record)),
{
    match record {
        None => Err(ContractError::NotFound),
        Some(state) => {
            if !(info.sender == state.owner) {
                return Err(ContractError::Unauthorized);
            }
            state.owner = recipient.clone();
            let mut res = Response::new();
            res.add_attribute(Attribute { key: "action".to_owned(), value: "transfer".to_owned() });
            res.add_attribute(Attribute { key: "owner".to_owned(), value: recipient });
            Ok(res)
        },
    }
}

/// What exercising does, the checks in order: no record is `NotFound`; a
/// caller other than the owner is `Unauthorized`; at or after the expiration
/// height it is `Expired`; funds not worth exactly the counter-offer are a
/// `FundsMismatch`; every rejection leaves the record untouched. On success
/// exactly two instructions are emitted, in order — the counter-offer to the
/// creator, then the collateral to the owner — and the record is deleted.
pub open spec fn execute_post(
    pre: Option<State>,
    post: Option<State>,
    info: MessageInfo,
    env: Env,
    r: Result<Response, ContractError>,
) -> bool {
    match pre {
        None => r == Err::<Response, ContractError>(ContractError::NotFound) && post == pre,
        Some(st) => {
            if info.sender@ != st.owner@ {
                r == Err::<Response, ContractError>(ContractError::Unauthorized) && post == pre
            } else if env.block_height >= st.expires {
                r == Err::<Response, ContractError>(ContractError::Expired) && post == pre
            } else if !funds_equiv(info.sent_funds@, st.counter_offer@) {
                r == Err::<Response, ContractError>(ContractError::FundsMismatch) && post == pre
            } else {
                &&& post is None
                &&& r matches Ok(resp) && {
                    &&& resp.messages@.len() == 2
                    &&& sends(
                        resp.messages@[0],
                        env.contract_address@,
                        st.creator@,
                        st.counter_offer@,
                    )
                    &&& sends(resp.messages@[1], env.contract_address@, st.owner@, st.collateral@)
                    &&& resp.attributes@.len() == 1
                    &&& notes(resp.attributes@[0], "action"@, "execute"@)
                }
            }
        },
    }
}

/// Exercises the option: the owner, strictly before expiration, pays exactly
/// the counter-offer and receives the collateral. Settlement deletes the
/// record.
pub fn handle_execute(
    record: &mut Option<State>,
    info: MessageInfo,
    env: Env,
) -> (r: Result<Response, ContractError>)
    requires
        wf_record(*old(record)),
        wf_funds(info.sent_funds@),
    ensures
        execute_post(*old(record), *final(record), info, env, r),
        wf_record(*final(record)),
{
    match &*record {
        None => {
            return Err(ContractError::NotFound);
        },
        Some(state) => {
            if !(info.sender == state.owner) {
                return Err(ContractError::Unauthorized);
            }
            if env.block_height >= state.expires {
                return Err(ContractError::Expired);
            }
            if !funds_match(&info.sent_funds, &state.counter_offer) {
                return Err(ContractError::FundsMismatch);
            }
        },
    }
    let mut taken: Option<State> = None;
    core::mem::swap(record, &mut taken);
    let state = match taken {
        Some(state) => state,
        None => unreached(),
    };
    let mut res = Response::new();
    res.add_message(
        BankMsg {
            from_address: env.contract_address.clone(),
            to_address: state.creator,
            amount: state.counter_offer,
        },
    );
    res.add_message(
        BankMsg {
            from_address: env.contract_address,
            to_address: state.owner,
            amount: state.collateral,
        },
    );
    res.add_attribute(Attribute { key: "action".to_owned(), value: "execute".to_owned() });
    Ok(res)
}

/// What reclaiming does, the checks in order: no record is `NotFound`;
/// strictly before the expiration height it is `NotYetExpired`; attached
/// funds are `UnexpectedFunds`; every rejection leaves the record untouched.
/// Any caller may reclaim once expired. On success exactly one instruction is
/// emitted — the collateral back to the creator — and the record is deleted.
pub open spec fn burn_post(
    pre: Option<State>,
    post: Option<State>,
    info: MessageInfo,
    env: Env,
    r: Result<Response, ContractError>,
) -> bool {
    match pre {
        None => r == Err::<Response, ContractError>(ContractError::NotFound) && post == pre,
        Some(st) => {
            if env.block_height < st.expires {
                r == Err::<Response, ContractError>(ContractError::NotYetExpired) && post == pre
            } else if info.sent_funds@.len() > 0 {
                r == Err::<Response, ContractError>(ContractError::UnexpectedFunds) && post == pre
            } else {
                &&& post is None
                &&& r matches Ok(resp) && {
                    &&& resp.messages@.len() == 1
                    &&& sends(resp.messages@[0], env.contract_address@, st.creator@, st.collateral@)
                    &&& resp.attributes@.len() == 1
                    &&& notes(resp.attributes@[0], "action"@, "burn"@)
                }
            }
        },
    }
}

/// Reclaims an expired option: returns the collateral to the creator and
/// deletes the record. Any caller may trigger this once the option has
/// expired, but must attach no funds.
pub fn handle_burn(
    record: &mut Option<State>,
    info: MessageInfo,
    env: Env,
) -> (r: Result<Response, ContractError>)
    requires
        wf_record(*old(record)),
    ensures
        burn_post(*old(record), *final(record), info, env, r),
        wf_record(*final(record)),
{
    match &*record {
        None => {
            return Err(ContractError::NotFound);
        },
        Some(state) => {
            if env.block_height < state.expires {
                return Err(ContractError::NotYetExpired);
            }
            if info.sent_funds.len() > 0 {
                return Err(ContractError::UnexpectedFunds);
            }
        },
    }
    let mut taken: Option<State> = None;
    core::mem::swap(record, &mut taken);
    let state = match taken {
        Some(state) => state,
        None => unreached(),
    };
    let mut res = Response::new();
    res.add_message(
        BankMsg {
            from_address: env.contract_address,
            to_address: state.creator,
            amount: state.collateral,
        },
    );
    res.add_attribute(Attribute { key: "action".to_owned(), value: "burn".to_owned() });
    Ok(res)
}

/// What the dispatcher guarantees: each message variant behaves exactly as
/// the transition it names.
pub open spec fn handle_post(
    pre: Option<State>,
    post: Option<State>,
    info: MessageInfo,
    env: Env,
    msg: HandleMsg,
    r: Result<Response, ContractError>,
) -> bool {
    match msg {
        HandleMsg::Transfer { recipient } => transfer_post(pre, post, info, recipient@, r),
        HandleMsg::Execute {} => execute_post(pre, post, info, env, r),
        HandleMsg::Burn {} => burn_post(pre, post, info, env, r),
    }
}

/// Dispatches a decoded mutating message to its transition.
pub fn handle(
    record: &mut Option<State>,
    info: MessageInfo,
    env: Env,
    msg: HandleMsg,
) -> (r: Result<Response, ContractError>)
    requires
        wf_record(*old(record)),
        wf_funds(info.sent_funds@),
    ensures
        handle_post(*old(record), *final(record), info, env, msg, r),
        wf_record(*final(record)),
{
    match msg {
        HandleMsg::Transfer { recipient } => handle_transfer(record, info, recipient),
        HandleMsg::Execute {} => handle_execute(record, info, env),
        HandleMsg::Burn {} => handle_burn(record, info, env),
    }
}

/// What a query returns: the record as stored, field for field, or
/// `NotFound` if the option was settled or never created. The record is
/// never changed.
pub open spec fn query_post(
    pre: Option<State>,
    r: Result<ConfigResponse, ContractError>,
) -> bool {
    match pre {
        None => r == Err::<ConfigResponse, ContractError>(ContractError::NotFound),
        Some(st) => r matches Ok(c) && c.same_config(st),
    }
}

/// Reads the current record.
pub fn query_config(record: &Option<State>) -> (r: Result<ConfigResponse, ContractError>)
    ensures
        query_post(*record, r),
{
    match record {
        None => Err(ContractError::NotFound),
        Some(state) => Ok(clone_state(state)),
    }
}

/// Dispatches a decoded read-only message.
pub fn query(record: &Option<State>, msg: QueryMsg) -> (r: Result<ConfigResponse, ContractError>)
    ensures
        match msg {
            QueryMsg::Config {} => query_post(*record, r),
        },
{
    match msg {
        QueryMsg::Config {} => query_config(record),
    }
}

} // verus!
