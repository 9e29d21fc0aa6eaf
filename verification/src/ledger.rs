use crate::error::{StdError, StdErrorView};
use crate::state::{
    PayableMetaV2, PayableMetaV2View, PayableScopeAttribute, PayableScopeAttributeView, StateV2,
    StateV2View, VersionInfoV1, VersionInfoV1View,
};
use vstd::prelude::*;
use vstd::string::StringExecFns;

verus! {

/// An amount of one denomination.
#[derive(Debug, PartialEq, Eq)]
pub struct Coin {
    pub denom: String,
    pub amount: u128,
}

pub struct CoinView {
    pub denom: Seq<char>,
    pub amount: u128,
}

impl View for Coin {
    type V = CoinView;

    open spec fn view(&self) -> CoinView {
        CoinView { denom: self.denom@, amount: self.amount }
    }
}

impl DeepView for Coin {
    type V = CoinView;

    open spec fn deep_view(&self) -> CoinView {
        self@
    }
}

impl Clone for Coin {
    fn clone(&self) -> (r: Self)
        ensures
            r@ == self@,
    {
        Coin { denom: self.denom.clone(), amount: self.amount }
    }
}

/// The coin of `amount` units of `denom`.
pub fn coin(amount: u128, denom: &str) -> (r: Coin)
    ensures
        r@ == (CoinView { denom: denom@, amount }),
{
    Coin { denom: String::from_str(denom), amount }
}

/// Who called, and the funds that came with the call.
#[derive(Debug, PartialEq, Eq)]
pub struct MessageInfo {
    pub sender: String,
    pub funds: Vec<Coin>,
}

pub struct MessageInfoView {
    pub sender: Seq<char>,
    pub funds: Seq<CoinView>,
}

impl View for MessageInfo {
    type V = MessageInfoView;

    open spec fn view(&self) -> MessageInfoView {
        MessageInfoView { sender: self.sender@, funds: self.funds.deep_view() }
    }
}

impl DeepView for MessageInfo {
    type V = MessageInfoView;

    open spec fn deep_view(&self) -> MessageInfoView {
        self@
    }
}

/// One event tag of a response: a key and its value.
#[derive(Debug, PartialEq, Eq)]
pub struct Attribute {
    pub key: String,
    pub value: String,
}

pub struct AttributeView {
    pub key: Seq<char>,
    pub value: Seq<char>,
}

impl View for Attribute {
    type V = AttributeView;

    open spec fn view(&self) -> AttributeView {
        AttributeView { key: self.key@, value: self.value@ }
    }
}

impl DeepView for Attribute {
    type V = AttributeView;

    open spec fn deep_view(&self) -> AttributeView {
        self@
    }
}

impl Attribute {
    /// The tag with the given key and value.
    pub fn new(key: &str, value: &str) -> (r: Attribute)
        ensures
            r@ == (AttributeView { key: key@, value: value@ }),
    {
        Attribute { key: String::from_str(key), value: String::from_str(value) }
    }
}

/// A party to a scope.
#[derive(Debug, PartialEq, Eq)]
pub struct Party {
    pub address: String,
}

pub struct PartyView {
    pub address: Seq<char>,
}

impl View for Party {
    type V = PartyView;

    open spec fn view(&self) -> PartyView {
        PartyView { address: self.address@ }
    }
}

impl DeepView for Party {
    type V = PartyView;

    open spec fn deep_view(&self) -> PartyView {
        self@
    }
}

/// A scope of the ledger's metadata registry, as far as the contract reads it: who
/// owns it, and which account holds its value.
#[derive(Debug, PartialEq, Eq)]
pub struct Scope {
    pub scope_id: String,
    pub owners: Vec<Party>,
    pub value_owner_address: String,
}

pub struct ScopeView {
    pub scope_id: Seq<char>,
    pub owners: Seq<PartyView>,
    pub value_owner_address: Seq<char>,
}

impl View for Scope {
    type V = ScopeView;

    open spec fn view(&self) -> ScopeView {
        ScopeView {
            scope_id: self.scope_id@,
            owners: self.owners.deep_view(),
            value_owner_address: self.value_owner_address@,
        }
    }
}

impl DeepView for Scope {
    type V = ScopeView;

    open spec fn deep_view(&self) -> ScopeView {
        self@
    }
}

impl Clone for Scope {
    fn clone(&self) -> (r: Self)
        ensures
            r@ == self@,
    {
        let mut owners: Vec<Party> = Vec::new();
        let mut i: usize = 0;
        while i < self.owners.len()
            invariant
                i <= self.owners.len(),
                owners.deep_view() == self.owners.deep_view().subrange(0, i as int),
            decreases self.owners.len() - i,
        {
            let ghost before = owners.deep_view();
            owners.push(Party { address: self.owners[i].address.clone() });
            i += 1;
            assert(self.owners.deep_view().subrange(0, i as int) =~= before.push(
                self.owners[i - 1]@,
            ));
        }
        assert(self.owners.deep_view().subrange(0, i as int) =~= self.owners.deep_view());
        Scope {
            scope_id: self.scope_id.clone(),
            owners,
            value_owner_address: self.value_owner_address.clone(),
        }
    }
}

/// A message that a response hands to the ledger, to be carried out after the call.
#[derive(Debug, PartialEq, Eq)]
pub enum LedgerMsg {
    /// Move coins from the contract's account to `to_address`.
    Send { to_address: String, amount: Vec<Coin> },
    /// Bind `name` to `address`; a restricted name admits no names below it from others.
    BindName { name: String, address: String, restrict: bool },
    /// Write `value`, encoded as JSON, as an attribute called `name` on `address`.
    AddJsonAttribute { address: String, name: String, value: PayableScopeAttribute },
    /// Remove every attribute called `name` from `address`.
    DeleteAttribute { address: String, name: String },
}

pub enum LedgerMsgView {
    Send { to_address: Seq<char>, amount: Seq<CoinView> },
    BindName { name: Seq<char>, address: Seq<char>, restrict: bool },
    AddJsonAttribute { address: Seq<char>, name: Seq<char>, value: PayableScopeAttributeView },
    DeleteAttribute { address: Seq<char>, name: Seq<char> },
}

impl View for LedgerMsg {
    type V = LedgerMsgView;

    open spec fn view(&self) -> LedgerMsgView {
        match self {
            LedgerMsg::Send { to_address, amount } => LedgerMsgView::Send {
                to_address: to_address@,
                amount: amount.deep_view(),
            },
            LedgerMsg::BindName { name, address, restrict } => LedgerMsgView::BindName {
                name: name@,
                address: address@,
                restrict: *restrict,
            },
            LedgerMsg::AddJsonAttribute { address, name, value } => {
                LedgerMsgView::AddJsonAttribute { address: address@, name: name@, value: value@ }
            },
            LedgerMsg::DeleteAttribute { address, name } => LedgerMsgView::DeleteAttribute {
                address: address@,
                name: name@,
            },
        }
    }
}

impl DeepView for LedgerMsg {
    type V = LedgerMsgView;

    open spec fn deep_view(&self) -> LedgerMsgView {
        self@
    }
}

/// The transfer of `amount` units of `denom` to `to_address`, as a message's view.
pub open spec fn send_view(to_address: Seq<char>, amount: u128, denom: Seq<char>) -> LedgerMsgView {
    LedgerMsgView::Send { to_address, amount: seq![CoinView { denom, amount }] }
}

/// The message that moves `amount` units of `denom` to `to_address`.
pub fn send(to_address: &str, amount: u128, denom: &str) -> (r: LedgerMsg)
    ensures
        r@ == send_view(to_address@, amount, denom@),
{
    let mut coins: Vec<Coin> = Vec::new();
    coins.push(coin(amount, denom));
    assert(coins.deep_view() =~= seq![CoinView { denom: denom@, amount }]);
    LedgerMsg::Send { to_address: String::from_str(to_address), amount: coins }
}

/// What a successful call hands back: messages for the ledger, and event tags.
#[derive(Debug, PartialEq, Eq)]
pub struct Response {
    pub messages: Vec<LedgerMsg>,
    pub attributes: Vec<Attribute>,
}

pub struct ResponseView {
    pub messages: Seq<LedgerMsgView>,
    pub attributes: Seq<AttributeView>,
}

impl View for Response {
    type V = ResponseView;

    open spec fn view(&self) -> ResponseView {
        ResponseView {
            messages: self.messages.deep_view(),
            attributes: self.attributes.deep_view(),
        }
    }
}

impl DeepView for Response {
    type V = ResponseView;

    open spec fn deep_view(&self) -> ResponseView {
        self@
    }
}

impl Response {
    /// The response with no message and no tag.
    pub fn new() -> (r: Response)
        ensures
            r@.messages == Seq::<LedgerMsgView>::empty(),
            r@.attributes == Seq::<AttributeView>::empty(),
    {
        let r = Response { messages: Vec::new(), attributes: Vec::new() };
        r
    }

    /// Appends one message.
    pub fn add_message(self, msg: LedgerMsg) -> (r: Response)
        ensures
            r@.messages == self@.messages.push(msg@),
            r@.attributes == self@.attributes,
    {
        let mut r = self;
        r.messages.push(msg);
        r
    }

    /// Appends one tag with the given key and value.
    pub fn add_attribute(self, key: &str, value: &str) -> (r: Response)
        ensures
            r@.messages == self@.messages,
            r@.attributes == self@.attributes.push(AttributeView { key: key@, value: value@ }),
    {
        let mut r = self;
        r.attributes.push(Attribute::new(key, value));
        r
    }
}

/// The view of an outcome: the view of what it holds on either side.
pub open spec fn result_view<A: DeepView, B: DeepView>(r: Result<A, B>) -> Result<A::V, B::V> {
    match r {
        Ok(a) => Ok(a.deep_view()),
        Err(b) => Err(b.deep_view()),
    }
}

/// What the ledger holds for one call: for each read that the call may make, its
/// outcome. The contract's own store gives `config`, `version_info` and `payable_meta`;
/// the ledger's registries give `scope` and `attributes`. The link is the one kept
/// under `payable_uuid`, and the scope and its records are those of `scope_id`: what is
/// asked of another payable or of another scope was not read, and counts as not found.
/// A call that succeeds leaves in the store's fields what it wrote there; one that
/// fails leaves every field as it was.
#[derive(Debug, PartialEq, Eq)]
pub struct Deps {
    /// The contract's configuration.
    pub config: Result<StateV2, StdError>,
    /// The identifier and version last stamped into the store.
    pub version_info: Result<VersionInfoV1, StdError>,
    /// The uuid of the payable whose link was looked up.
    pub payable_uuid: String,
    /// The link kept under `payable_uuid`.
    pub payable_meta: Result<PayableMetaV2, StdError>,
    /// The id of the scope that was looked up.
    pub scope_id: String,
    /// The scope `scope_id`, as the metadata registry has it.
    pub scope: Result<Scope, StdError>,
    /// Every record that the scope `scope_id` carries as an attribute under the
    /// contract's name.
    pub attributes: Result<Vec<PayableScopeAttribute>, StdError>,
}

pub struct DepsView {
    pub config: Result<StateV2View, StdErrorView>,
    pub version_info: Result<VersionInfoV1View, StdErrorView>,
    pub payable_uuid: Seq<char>,
    pub payable_meta: Result<PayableMetaV2View, StdErrorView>,
    pub scope_id: Seq<char>,
    pub scope: Result<ScopeView, StdErrorView>,
    pub attributes: Result<Seq<PayableScopeAttributeView>, StdErrorView>,
}

impl View for Deps {
    type V = DepsView;

    open spec fn view(&self) -> DepsView {
        DepsView {
            config: result_view(self.config),
            version_info: result_view(self.version_info),
            payable_uuid: self.payable_uuid@,
            payable_meta: result_view(self.payable_meta),
            scope_id: self.scope_id@,
            scope: result_view(self.scope),
            attributes: result_view(self.attributes),
        }
    }
}

} // verus!
