//! The contract's operations, each from the state and a message to a
//! response and the state that follows.

use crate::authorizer::{
    authorization_verdict, authorize_direct, authorize_withdrawal, direct_verdict,
};
use crate::distribution::{burn_share, dev_share, owner_share, split, Distribution};
use crate::error::{ContractError, ErrorModel};
use crate::msg::{CommunityRole, ExecuteMsg, InstantiateMsg, MigrateMsg, QueryMsg};
use crate::payload::{decimal_string, decimal_text, payload_text};
use crate::signature::signature_verdict;
use crate::state::{Config, ConfigModel, NonceTable, BURN_ADDRESS};
use vstd::prelude::*;
use vstd::string::StringExecFns;

verus! {

/// An amount of one asset.
#[derive(Clone, Debug, PartialEq, Eq)]
pub struct Coin {
    pub denom: String,
    pub amount: u128,
}

/// Who calls, and the funds attached to the call.
#[derive(Clone, Debug, PartialEq, Eq)]
pub struct MessageInfo {
    pub sender: String,
    pub funds: Vec<Coin>,
}

/// One key and value of a response.
#[derive(Clone, Debug, PartialEq, Eq)]
pub struct Attribute {
    pub key: String,
    pub value: String,
}

/// An order to the host to send `amount` of `denom` to `to_address` once the
/// call has succeeded.
#[derive(Clone, Debug, PartialEq, Eq)]
pub struct Transfer {
    pub to_address: String,
    pub denom: String,
    pub amount: u128,
}

/// What a successful call hands back: attributes that describe it and the
/// transfers it orders.
#[derive(Clone, Debug, PartialEq, Eq)]
pub struct Response {
    pub attributes: Vec<Attribute>,
    pub messages: Vec<Transfer>,
}

/// The answer to a query.
#[derive(Clone, Debug, PartialEq, Eq)]
pub enum QueryAnswer {
    Address(String),
    Nonce(u64),
}

/// Everything the contract keeps between calls.
#[derive(Clone, Debug)]
pub struct State {
    pub config: Config,
    pub nonces: NonceTable,
}

/// A `Transfer` as plain values.
pub struct TransferModel {
    pub to_address: Seq<char>,
    pub denom: Seq<char>,
    pub amount: u128,
}

/// A `Response` as plain values.
pub struct ResponseModel {
    pub attributes: Seq<(Seq<char>, Seq<char>)>,
    pub messages: Seq<TransferModel>,
}

impl View for Attribute {
    type V = (Seq<char>, Seq<char>);

    open spec fn view(&self) -> (Seq<char>, Seq<char>) {
        (self.key@, self.value@)
    }
}

impl View for Transfer {
    type V = TransferModel;

    open spec fn view(&self) -> TransferModel {
        TransferModel { to_address: self.to_address@, denom: self.denom@, amount: self.amount }
    }
}

impl View for Response {
    type V = ResponseModel;

    open spec fn view(&self) -> ResponseModel {
        ResponseModel {
            attributes: self.attributes@.map_values(|a: Attribute| a@),
            messages: self.messages@.map_values(|t: Transfer| t@),
        }
    }
}

/// The outcome of a call as plain values.
pub open spec fn outcome(r: Result<Response, ContractError>) -> Result<ResponseModel, ErrorModel> {
    match r {
        Ok(response) => Ok(response@),
        Err(e) => Err(e@),
    }
}

/// A response that only names the operation that was carried out.
pub open spec fn method_response(method: Seq<char>, messages: Seq<TransferModel>) -> ResponseModel {
    ResponseModel { attributes: seq![("method"@, method)], messages }
}

/// The configuration that a contract starts with.
pub open spec fn initial_config(
    stable_denom: Seq<char>,
    community_owner: Seq<char>,
    community_dev: Seq<char>,
) -> ConfigModel {
    ConfigModel { stable_denom, burn_address: BURN_ADDRESS@, community_owner, community_dev }
}

/// The response to the creation of a contract.
pub open spec fn instantiate_response(
    stable_denom: Seq<char>,
    community_owner: Seq<char>,
    community_dev: Seq<char>,
) -> ResponseModel {
    ResponseModel {
        attributes: seq![
            ("method"@, "instantiate"@),
            ("denom"@, stable_denom),
            ("community_owner"@, community_owner),
            ("community_dev"@, community_dev),
        ],
        messages: seq![],
    }
}

/// What a deposit of `funds` comes to while `stable_denom` is accepted. The
/// first coin is looked at before the number of coins.
pub open spec fn deposit_outcome(stable_denom: Seq<char>, funds: Seq<Coin>) -> Result<
    ResponseModel,
    ErrorModel,
> {
    if funds.len() == 0 {
        Err(ErrorModel::NotReceivedFunds)
    } else if funds[0].amount == 0 {
        Err(ErrorModel::NotAllowZeroAmount)
    } else if funds[0].denom@ != stable_denom {
        Err(ErrorModel::NotAllowedDenom { denom: funds[0].denom@ })
    } else if funds.len() > 1 {
        Err(ErrorModel::NotAllowedMultipleDenoms)
    } else {
        Ok(
            ResponseModel {
                attributes: seq![("amount"@, decimal_text(funds[0].amount as nat))],
                messages: seq![],
            },
        )
    }
}

/// The configuration after `sender` hands `role` to `value`, or
/// `Unauthorized` where `sender` does not hold that role.
pub open spec fn role_change_outcome(
    config: ConfigModel,
    sender: Seq<char>,
    role: CommunityRole,
    value: Seq<char>,
) -> Result<ConfigModel, ErrorModel> {
    match role {
        CommunityRole::Owner {  } => if sender == config.community_owner {
            Ok(ConfigModel { community_owner: value, ..config })
        } else {
            Err(ErrorModel::Unauthorized)
        },
        CommunityRole::Developer {  } => if sender == config.community_dev {
            Ok(ConfigModel { community_dev: value, ..config })
        } else {
            Err(ErrorModel::Unauthorized)
        },
    }
}

/// The three transfers of a burn, in the order burn sink, owner, developer.
pub open spec fn burn_transfers(config: ConfigModel, amount: u128) -> Seq<TransferModel> {
    seq![
        TransferModel {
            to_address: config.burn_address,
            denom: config.stable_denom,
            amount: burn_share(amount as nat) as u128,
        },
        TransferModel {
            to_address: config.community_owner,
            denom: config.stable_denom,
            amount: owner_share(amount as nat) as u128,
        },
        TransferModel {
            to_address: config.community_dev,
            denom: config.stable_denom,
            amount: dev_share(amount as nat) as u128,
        },
    ]
}

/// The transfers of a burn go to the burn sink, the owner and the developer,
/// all in the accepted asset, and add up to exactly the amount released.
pub proof fn lemma_burn_transfers_sum_to_amount(config: ConfigModel, amount: u128)
    ensures
        burn_transfers(config, amount).len() == 3,
        burn_transfers(config, amount)[0].to_address == config.burn_address,
        burn_transfers(config, amount)[1].to_address == config.community_owner,
        burn_transfers(config, amount)[2].to_address == config.community_dev,
        forall|i: int| 0 <= i < 3 ==> burn_transfers(config, amount)[i].denom == config.stable_denom,
        burn_transfers(config, amount)[0].amount + burn_transfers(config, amount)[1].amount
            + burn_transfers(config, amount)[2].amount == amount,
{
}

/// What a burn of `amount` asked for by `sender` comes to. A burn is
/// authorized in direct mode.
pub open spec fn burn_outcome(config: ConfigModel, sender: Seq<char>, amount: u128) -> Result<
    ResponseModel,
    ErrorModel,
> {
    match direct_verdict(config.community_owner, sender) {
        Ok(_) => Ok(method_response("burn"@, burn_transfers(config, amount))),
        Err(e) => Err(e@),
    }
}

/// The response to an authorized withdrawal: the whole amount goes to the
/// recipient.
pub open spec fn withdraw_response(
    config: ConfigModel,
    recipient: Seq<char>,
    amount: u128,
) -> ResponseModel {
    method_response(
        "withdraw"@,
        seq![TransferModel { to_address: recipient, denom: config.stable_denom, amount }],
    )
}

/// What `withdraw` ensures. Without a signature only the owner is served,
/// and nothing changes. With one, an authorized request orders the transfer
/// and advances the sender's nonce, and a denied one changes nothing.
pub open spec fn withdraw_post(
    before: State,
    after: State,
    sender: Seq<char>,
    recipient: Seq<char>,
    amount: u128,
    signature: Option<Seq<char>>,
    r: Result<Response, ContractError>,
) -> bool {
    match signature {
        None => {
            &&& after == before
            &&& outcome(r) == match direct_verdict(before.config@.community_owner, sender) {
                Ok(_) => Ok::<ResponseModel, ErrorModel>(
                    withdraw_response(before.config@, recipient, amount),
                ),
                Err(e) => Err::<ResponseModel, ErrorModel>(e@),
            }
        },
        Some(text) => match authorization_verdict(
            before.nonces.nonce_of(sender),
            before.config@.community_owner,
            recipient,
            amount,
            text,
        ) {
            Ok(next) => {
                &&& outcome(r) == Ok::<ResponseModel, ErrorModel>(
                    withdraw_response(before.config@, recipient, amount),
                )
                &&& after.config == before.config
                &&& after.nonces@ == before.nonces@.insert(sender, next)
            },
            Err(e) => outcome(r) == Err::<ResponseModel, ErrorModel>(e@) && after == before,
        },
    }
}

/// A signature serves its submitter once. Where a withdrawal was authorized
/// by a signature, the submitter's nonce has advanced by one, and the same
/// request with the same signature is denied and changes nothing, unless the
/// signature is also the owner's over the payload of the advanced nonce.
/// Where it verifies as another key's there, the denial is `Unauthorized`.
pub proof fn lemma_replayed_withdrawal_is_denied(
    before: State,
    between: State,
    after: State,
    sender: Seq<char>,
    recipient: Seq<char>,
    amount: u128,
    signature: Seq<char>,
    first: Result<Response, ContractError>,
    second: Result<Response, ContractError>,
)
    requires
        withdraw_post(before, between, sender, recipient, amount, Some(signature), first),
        withdraw_post(between, after, sender, recipient, amount, Some(signature), second),
        first is Ok,
        signature_verdict(
            payload_text(recipient, amount, (before.nonces.nonce_of(sender) + 1) as u64),
            signature,
            before.config@.community_owner,
        ) != Ok::<bool, ContractError>(true),
    ensures
        between.nonces.nonce_of(sender) == before.nonces.nonce_of(sender) + 1,
        second is Err,
        after == between,
        signature_verdict(
            payload_text(recipient, amount, (before.nonces.nonce_of(sender) + 1) as u64),
            signature,
            before.config@.community_owner,
        ) == Ok::<bool, ContractError>(false) ==> outcome(second) == Err::<
            ResponseModel,
            ErrorModel,
        >(ErrorModel::Unauthorized),
{
    let nonce = before.nonces.nonce_of(sender);
    let owner = before.config@.community_owner;
    assert(authorization_verdict(nonce, owner, recipient, amount, signature) is Ok);
    assert(between.nonces.nonce_of(sender) == nonce + 1);
    assert(between.config@.community_owner == owner);
}

/// The text of an optional signature.
pub open spec fn signature_text(signature: Option<String>) -> Option<Seq<char>> {
    match signature {
        Some(text) => Some(text@),
        None => None,
    }
}

/// What `change_community_info` ensures: the holder of a role hands it on, and
/// nothing else changes; anyone else is denied, and nothing changes.
pub open spec fn role_change_post(
    before: Config,
    after: Config,
    sender: Seq<char>,
    role: CommunityRole,
    value: Seq<char>,
    r: Result<Response, ContractError>,
) -> bool {
    match role_change_outcome(before@, sender, role, value) {
        Ok(config) => {
            &&& after@ == config
            &&& outcome(r) == Ok::<ResponseModel, ErrorModel>(
                method_response("change_community_info"@, seq![]),
            )
        },
        Err(e) => outcome(r) == Err::<ResponseModel, ErrorModel>(e) && after == before,
    }
}

fn text(s: &str) -> (r: String)
    ensures
        r@ == s@,
{
    String::from_str(s)
}

fn method_attributes(method: &str) -> (attributes: Vec<Attribute>)
    ensures
        attributes@.map_values(|a: Attribute| a@) == seq![("method"@, method@)],
{
    let mut attributes: Vec<Attribute> = Vec::new();
    attributes.push(Attribute { key: text("method"), value: text(method) });
    assert(attributes@.map_values(|a: Attribute| a@) =~= seq![("method"@, method@)]);
    attributes
}

/// Creates the contract's state from the accepted asset and the first
/// holders of the two roles. The burn address is fixed.
pub fn instantiate(msg: InstantiateMsg) -> (r: (State, Response))
    ensures
        r.0.config@ == initial_config(
            msg.stable_denom@,
            msg.community_owner@,
            msg.community_dev@,
        ),
        r.0.config@.well_formed() <==> msg.stable_denom@.len() > 0 && msg.community_owner@.len()
            > 0 && msg.community_dev@.len() > 0,
        r.0.nonces@ == Map::<Seq<char>, u64>::empty(),
        r.1@ == instantiate_response(msg.stable_denom@, msg.community_owner@, msg.community_dev@),
{
    proof {
        reveal_strlit("terra1sk06e3dyexuq4shw77y3dsv480xv42mq73anxu");
    }
    let config = Config {
        stable_denom: msg.stable_denom.clone(),
        burn_address: text(BURN_ADDRESS),
        community_owner: msg.community_owner.clone(),
        community_dev: msg.community_dev.clone(),
    };
    let mut attributes: Vec<Attribute> = Vec::new();
    attributes.push(Attribute { key: text("method"), value: text("instantiate") });
    attributes.push(Attribute { key: text("denom"), value: msg.stable_denom });
    attributes.push(Attribute { key: text("community_owner"), value: msg.community_owner });
    attributes.push(Attribute { key: text("community_dev"), value: msg.community_dev });
    let response = Response { attributes, messages: Vec::new() };
    assert(response@.attributes =~= instantiate_response(
        msg.stable_denom@,
        msg.community_owner@,
        msg.community_dev@,
    ).attributes);
    assert(response@.messages =~= Seq::<TransferModel>::empty());
    (State { config, nonces: NonceTable::new() }, response)
}

/// Accepts a deposit: exactly one coin, of the accepted asset and not zero.
/// Nothing is recorded; the funds are the host's to keep.
pub fn deposit(config: &Config, info: &MessageInfo) -> (r: Result<Response, ContractError>)
    ensures
        outcome(r) == deposit_outcome(config.stable_denom@, info.funds@),
{
    if info.funds.len() == 0 {
        return Err(ContractError::NotReceivedFunds {  });
    }
    let received: &Coin = &info.funds[0];
    if received.amount == 0 {
        return Err(ContractError::NotAllowZeroAmount {  });
    }
    if received.denom != config.stable_denom {
        return Err(ContractError::NotAllowedDenom { denom: received.denom.clone() });
    }
    if info.funds.len() > 1 {
        return Err(ContractError::NotAllowedMultipleDenoms {  });
    }
    let mut attributes: Vec<Attribute> = Vec::new();
    attributes.push(Attribute { key: text("amount"), value: decimal_string(received.amount) });
    let response = Response { attributes, messages: Vec::new() };
    assert(response@.attributes =~= seq![("amount"@, decimal_text(received.amount as nat))]);
    assert(response@.messages =~= Seq::<TransferModel>::empty());
    Ok(response)
}

/// Sends `amount` to `recipient`. Without a signature the sender must be the
/// owner. With one, anyone may submit it: the signature must be the owner's
/// over this recipient, this amount and the sender's current nonce, and the
/// nonce that advances is the sender's.
pub fn withdraw(
    state: &mut State,
    info: &MessageInfo,
    recipient: &str,
    amount: u128,
    signature: &Option<String>,
) -> (r: Result<Response, ContractError>)
    ensures
        withdraw_post(
            *old(state),
            *final(state),
            info.sender@,
            recipient@,
            amount,
            signature_text(*signature),
            r,
        ),
{
    let owner: String = state.config.community_owner.clone();
    let authorized: Result<(), ContractError> = match signature {
        None => authorize_direct(owner.as_str(), info.sender.as_str()),
        Some(text) => authorize_withdrawal(
            &mut state.nonces,
            owner.as_str(),
            info.sender.as_str(),
            recipient,
            amount,
            text.as_str(),
        ),
    };
    match authorized {
        Ok(()) => {
            let mut messages: Vec<Transfer> = Vec::new();
            messages.push(
                Transfer {
                    to_address: text(recipient),
                    denom: state.config.stable_denom.clone(),
                    amount,
                },
            );
            let response = Response { attributes: method_attributes("withdraw"), messages };
            assert(response@.messages =~= withdraw_response(
                old(state).config@,
                recipient@,
                amount,
            ).messages);
            Ok(response)
        },
        Err(e) => Err(e),
    }
}

/// Hands a role to `value`. Only the current holder of the role may do so.
pub fn change_community_info(
    config: &mut Config,
    info: &MessageInfo,
    role: CommunityRole,
    value: String,
) -> (r: Result<Response, ContractError>)
    ensures
        role_change_post(*old(config), *final(config), info.sender@, role, value@, r),
        old(config)@.well_formed() && value@.len() > 0 ==> final(config)@.well_formed(),
{
    match role {
        CommunityRole::Owner {  } => {
            if info.sender != config.community_owner {
                return Err(ContractError::Unauthorized {  });
            }
            config.community_owner = value;
        },
        CommunityRole::Developer {  } => {
            if info.sender != config.community_dev {
                return Err(ContractError::Unauthorized {  });
            }
            config.community_dev = value;
        },
    }
    let response = Response {
        attributes: method_attributes("change_community_info"),
        messages: Vec::new(),
    };
    assert(response@.messages =~= Seq::<TransferModel>::empty());
    Ok(response)
}

/// Releases `amount` on the owner's own call: half to the burn sink, a tenth
/// of the rest to the developer, and what is left to the owner.
pub fn burn(config: &Config, info: &MessageInfo, amount: u128) -> (r: Result<
    Response,
    ContractError,
>)
    ensures
        outcome(r) == burn_outcome(config@, info.sender@, amount),
{
    match authorize_direct(config.community_owner.as_str(), info.sender.as_str()) {
        Ok(_) => {},
        Err(e) => {
            return Err(e);
        },
    }
    let shares: Distribution = split(amount);
    let mut messages: Vec<Transfer> = Vec::new();
    messages.push(
        Transfer {
            to_address: config.burn_address.clone(),
            denom: config.stable_denom.clone(),
            amount: shares.burn_amount,
        },
    );
    messages.push(
        Transfer {
            to_address: config.community_owner.clone(),
            denom: config.stable_denom.clone(),
            amount: shares.owner_amount,
        },
    );
    messages.push(
        Transfer {
            to_address: config.community_dev.clone(),
            denom: config.stable_denom.clone(),
            amount: shares.dev_amount,
        },
    );
    let response = Response { attributes: method_attributes("burn"), messages };
    assert(response@.messages =~= burn_transfers(config@, amount));
    Ok(response)
}

/// Carries out one message. A denied message leaves the state as it was.
pub fn execute(state: &mut State, info: &MessageInfo, msg: ExecuteMsg) -> (r: Result<
    Response,
    ContractError,
>)
    ensures
        r.is_err() ==> *final(state) == *old(state),
        final(state).config@.stable_denom == old(state).config@.stable_denom,
        final(state).config@.burn_address == old(state).config@.burn_address,
        forall|a: Seq<char>| final(state).nonces.nonce_of(a) >= old(state).nonces.nonce_of(a),
        forall|a: Seq<char>|
            old(state).nonces@.dom().contains(a) ==> final(state).nonces@.dom().contains(a),
        old(state).config@.well_formed() && !(msg matches ExecuteMsg::ChangeCommunityInfo {
            value,
            ..
        } && value@.len() == 0) ==> final(state).config@.well_formed(),
        match msg {
            ExecuteMsg::Deposit {  } => {
                &&& *final(state) == *old(state)
                &&& outcome(r) == deposit_outcome(old(state).config.stable_denom@, info.funds@)
            },
            ExecuteMsg::Withdraw { recipient, amount, signature } => withdraw_post(
                *old(state),
                *final(state),
                info.sender@,
                recipient@,
                amount,
                signature_text(signature),
                r,
            ),
            ExecuteMsg::ChangeCommunityInfo { role, value } => {
                &&& final(state).nonces == old(state).nonces
                &&& role_change_post(
                    old(state).config,
                    final(state).config,
                    info.sender@,
                    role,
                    value@,
                    r,
                )
            },
            ExecuteMsg::Burn { amount } => {
                &&& *final(state) == *old(state)
                &&& outcome(r) == burn_outcome(old(state).config@, info.sender@, amount)
            },
        },
{
    match msg {
        ExecuteMsg::Deposit {  } => deposit(&state.config, info),
        ExecuteMsg::Withdraw { recipient, amount, signature } => withdraw(
            state,
            info,
            recipient.as_str(),
            amount,
            &signature,
        ),
        ExecuteMsg::ChangeCommunityInfo { role, value } => change_community_info(
            &mut state.config,
            info,
            role,
            value,
        ),
        ExecuteMsg::Burn { amount } => burn(&state.config, info, amount),
    }
}

/// Answers a query: the holder of a role, or the nonce of a principal.
pub fn query(state: &State, msg: &QueryMsg) -> (answer: QueryAnswer)
    ensures
        match *msg {
            QueryMsg::CommunityOwner {  } => answer matches QueryAnswer::Address(a) && a@
                == state.config.community_owner@,
            QueryMsg::CommunityDeveloper {  } => answer matches QueryAnswer::Address(a) && a@
                == state.config.community_dev@,
            QueryMsg::Nonce { address } => answer == QueryAnswer::Nonce(
                state.nonces.nonce_of(address@),
            ),
        },
{
    match msg {
        QueryMsg::CommunityOwner {  } => QueryAnswer::Address(
            state.config.community_owner.clone(),
        ),
        QueryMsg::CommunityDeveloper {  } => QueryAnswer::Address(
            state.config.community_dev.clone(),
        ),
        QueryMsg::Nonce { address } => QueryAnswer::Nonce(state.nonces.load(address.as_str())),
    }
}

/// Migration keeps the state and reports nothing.
pub fn migrate(msg: MigrateMsg) -> (response: Response)
    ensures
        response@ == (ResponseModel { attributes: seq![], messages: seq![] }),
{
    let response = Response { attributes: Vec::new(), messages: Vec::new() };
    assert(response@.attributes =~= Seq::<(Seq<char>, Seq<char>)>::empty());
    assert(response@.messages =~= Seq::<TransferModel>::empty());
    response
}

} // verus!
