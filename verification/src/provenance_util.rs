use crate::error::{ContractError, ContractErrorView, StdError, StdErrorView};
use crate::ledger::{result_view, Deps, DepsView, LedgerMsg, LedgerMsgView, Scope, ScopeView};
use crate::state::{PayableScopeAttribute, PayableScopeAttributeView};
use crate::text::{blank, is_blank};
use vstd::prelude::*;
use vstd::string::StringExecFns;

verus! {

/// The two messages that replace a scope's record: the ledger has no update, so the old
/// attribute is deleted and the new one added.
#[derive(Debug, PartialEq, Eq)]
pub struct WriteAttributeMessages {
    pub delete_attributes_msg: LedgerMsg,
    pub add_attribute_msg: LedgerMsg,
}

pub struct WriteAttributeMessagesView {
    pub delete_attributes_msg: LedgerMsgView,
    pub add_attribute_msg: LedgerMsgView,
}

impl View for WriteAttributeMessages {
    type V = WriteAttributeMessagesView;

    open spec fn view(&self) -> WriteAttributeMessagesView {
        WriteAttributeMessagesView {
            delete_attributes_msg: self.delete_attributes_msg@,
            add_attribute_msg: self.add_attribute_msg@,
        }
    }
}

impl DeepView for WriteAttributeMessages {
    type V = WriteAttributeMessagesView;

    open spec fn deep_view(&self) -> WriteAttributeMessagesView {
        self@
    }
}

impl WriteAttributeMessages {
    /// The two messages in the order in which the ledger must carry them out: the
    /// deletion, then the addition.
    pub fn to_vec(self) -> (r: Vec<LedgerMsg>)
        ensures
            r.deep_view() == seq![self@.delete_attributes_msg, self@.add_attribute_msg],
    {
        let mut r: Vec<LedgerMsg> = Vec::new();
        r.push(self.delete_attributes_msg);
        r.push(self.add_attribute_msg);
        r
    }
}

/// The error with which the ledger's bindings refuse a blank address.
pub open spec fn blank_address_error() -> ContractErrorView {
    ContractErrorView::Std(StdErrorView::GenericErr { msg: "address must not be empty"@ })
}

/// The error with which the ledger's bindings refuse a blank name.
pub open spec fn blank_name_error() -> ContractErrorView {
    ContractErrorView::Std(StdErrorView::GenericErr { msg: "name must not be empty"@ })
}

/// The message that writes `attribute` on its scope under `contract_name`. Neither the
/// scope's address nor the name may be blank; the address is looked at first.
pub open spec fn add_attribute_msg(
    attribute: PayableScopeAttributeView,
    contract_name: Seq<char>,
) -> Result<LedgerMsgView, ContractErrorView> {
    if is_blank(attribute.scope_id) {
        Err(blank_address_error())
    } else if is_blank(contract_name) {
        Err(blank_name_error())
    } else {
        Ok(
            LedgerMsgView::AddJsonAttribute {
                address: attribute.scope_id,
                name: contract_name,
                value: attribute,
            },
        )
    }
}

/// The message that removes from the scope `scope_id` every attribute under
/// `contract_name`. Neither may be blank; the address is looked at first.
pub open spec fn delete_attributes_msg(scope_id: Seq<char>, contract_name: Seq<char>) -> Result<
    LedgerMsgView,
    ContractErrorView,
> {
    if is_blank(scope_id) {
        Err(blank_address_error())
    } else if is_blank(contract_name) {
        Err(blank_name_error())
    } else {
        Ok(LedgerMsgView::DeleteAttribute { address: scope_id, name: contract_name })
    }
}

/// The message that binds `name` to `address` as a restricted name. Neither may be
/// blank; the name is looked at first.
pub open spec fn bind_name_msg(name: Seq<char>, address: Seq<char>) -> Result<
    LedgerMsgView,
    ContractErrorView,
> {
    if is_blank(name) {
        Err(blank_name_error())
    } else if is_blank(address) {
        Err(blank_address_error())
    } else {
        Ok(LedgerMsgView::BindName { name, address, restrict: true })
    }
}

/// The pair of messages that replaces the record on `attribute`'s scope by `attribute`.
pub open spec fn upsert_attribute_msgs(
    attribute: PayableScopeAttributeView,
    contract_name: Seq<char>,
) -> Result<WriteAttributeMessagesView, ContractErrorView> {
    match delete_attributes_msg(attribute.scope_id, contract_name) {
        Err(e) => Err(e),
        Ok(delete) => match add_attribute_msg(attribute, contract_name) {
            Err(e) => Err(e),
            Ok(add) => Ok(
                WriteAttributeMessagesView {
                    delete_attributes_msg: delete,
                    add_attribute_msg: add,
                },
            ),
        },
    }
}

/// Whether the scope `scope_id` is known to carry a record under the contract's name
/// already, be it one or several.
pub open spec fn scope_carries_record(deps: DepsView, scope_id: Seq<char>) -> bool {
    deps.scope_id == scope_id && (deps.attributes matches Ok(attributes) && attributes.len() >= 1)
}

/// The scope `scope_id` as the metadata registry has it. A scope other than the one
/// that was looked up is not found.
pub open spec fn scope_read(deps: DepsView, scope_id: Seq<char>) -> Result<
    ScopeView,
    StdErrorView,
> {
    if deps.scope_id != scope_id {
        Err(StdErrorView::NotFound { kind: "Scope"@ })
    } else {
        deps.scope
    }
}

/// The message that writes the first record on a scope: refused as a duplicate where
/// the scope already carries a record under the contract's name, so that a scope is
/// registered once.
pub open spec fn initial_attribute_msg(
    deps: DepsView,
    attribute: PayableScopeAttributeView,
    contract_name: Seq<char>,
) -> Result<LedgerMsgView, ContractErrorView> {
    if scope_carries_record(deps, attribute.scope_id) {
        Err(ContractErrorView::DuplicateRegistration { scope_id: attribute.scope_id })
    } else {
        add_attribute_msg(attribute, contract_name)
    }
}

/// The view of a message or of the error in its place.
pub open spec fn msg_result_view(r: Result<LedgerMsg, ContractError>) -> Result<
    LedgerMsgView,
    ContractErrorView,
> {
    match r {
        Ok(m) => Ok(m@),
        Err(e) => Err(e@),
    }
}

/// The view of a pair of messages or of the error in its place.
pub open spec fn write_result_view(r: Result<WriteAttributeMessages, ContractError>) -> Result<
    WriteAttributeMessagesView,
    ContractErrorView,
> {
    match r {
        Ok(m) => Ok(m@),
        Err(e) => Err(e@),
    }
}

/// Builds the message that writes `attribute` on its scope under `contract_name`.
pub fn get_add_attribute_to_scope_msg(attribute: &PayableScopeAttribute, contract_name: &str) -> (r:
    Result<LedgerMsg, ContractError>)
    ensures
        msg_result_view(r) == add_attribute_msg(attribute@, contract_name@),
{
    if blank(attribute.scope_id.as_str()) {
        Err(ContractError::Std(StdError::generic_err("address must not be empty")))
    } else if blank(contract_name) {
        Err(ContractError::Std(StdError::generic_err("name must not be empty")))
    } else {
        Ok(
            LedgerMsg::AddJsonAttribute {
                address: attribute.scope_id.clone(),
                name: String::from_str(contract_name),
                value: attribute.clone(),
            },
        )
    }
}

/// Builds the message that removes every attribute under `contract_name` from a scope.
pub fn get_delete_attributes_msg(scope_id: &str, contract_name: &str) -> (r: Result<
    LedgerMsg,
    ContractError,
>)
    ensures
        msg_result_view(r) == delete_attributes_msg(scope_id@, contract_name@),
{
    if blank(scope_id) {
        Err(ContractError::Std(StdError::generic_err("address must not be empty")))
    } else if blank(contract_name) {
        Err(ContractError::Std(StdError::generic_err("name must not be empty")))
    } else {
        Ok(
            LedgerMsg::DeleteAttribute {
                address: String::from_str(scope_id),
                name: String::from_str(contract_name),
            },
        )
    }
}

/// Builds the message that binds `name`, restricted, to `address`.
pub fn get_bind_name_msg(name: &str, address: &str) -> (r: Result<LedgerMsg, ContractError>)
    ensures
        msg_result_view(r) == bind_name_msg(name@, address@),
{
    if blank(name) {
        Err(ContractError::Std(StdError::generic_err("name must not be empty")))
    } else if blank(address) {
        Err(ContractError::Std(StdError::generic_err("address must not be empty")))
    } else {
        Ok(
            LedgerMsg::BindName {
                name: String::from_str(name),
                address: String::from_str(address),
                restrict: true,
            },
        )
    }
}

/// How the contract reaches the ledger's registries. Each method's outcome depends on
/// its arguments alone, and is named by the spec function beside it.
pub trait ProvenanceUtil {
    /// What looking up `scope_id` gives.
    spec fn scope_by_id(&self, deps: DepsView, scope_id: Seq<char>) -> Result<
        ScopeView,
        StdErrorView,
    >;

    /// What asking for the first record's message gives.
    spec fn add_initial_attribute_to_scope_msg(
        &self,
        deps: DepsView,
        attribute: PayableScopeAttributeView,
        contract_name: Seq<char>,
    ) -> Result<LedgerMsgView, ContractErrorView>;

    /// What asking for a record's replacement gives.
    spec fn upsert_attribute(
        &self,
        attribute: PayableScopeAttributeView,
        contract_name: Seq<char>,
    ) -> Result<WriteAttributeMessagesView, ContractErrorView>;

    /// Looks up a scope by its id.
    fn get_scope_by_id(&self, deps: &Deps, scope_id: &str) -> (r: Result<Scope, StdError>)
        ensures
            result_view(r) == self.scope_by_id(deps@, scope_id@),
    ;

    /// Gives the message that writes the first record on a scope.
    fn get_add_initial_attribute_to_scope_msg(
        &self,
        deps: &Deps,
        attribute: &PayableScopeAttribute,
        contract_name: &str,
    ) -> (r: Result<LedgerMsg, ContractError>)
        ensures
            msg_result_view(r) == self.add_initial_attribute_to_scope_msg(
                deps@,
                attribute@,
                contract_name@,
            ),
    ;

    /// Gives the messages that replace a scope's record.
    fn upsert_attribute_to_scope(
        &self,
        attribute: &PayableScopeAttribute,
        contract_name: &str,
    ) -> (r: Result<WriteAttributeMessages, ContractError>)
        ensures
            write_result_view(r) == self.upsert_attribute(attribute@, contract_name@),
    ;
}

/// The contract's own way to the registries: a scope is what was read of it for the
/// call, and the messages are those that the ledger's bindings build.
pub struct ProvenanceUtilImpl;

impl ProvenanceUtil for ProvenanceUtilImpl {
    open spec fn scope_by_id(&self, deps: DepsView, scope_id: Seq<char>) -> Result<
        ScopeView,
        StdErrorView,
    > {
        scope_read(deps, scope_id)
    }

    open spec fn add_initial_attribute_to_scope_msg(
        &self,
        deps: DepsView,
        attribute: PayableScopeAttributeView,
        contract_name: Seq<char>,
    ) -> Result<LedgerMsgView, ContractErrorView> {
        initial_attribute_msg(deps, attribute, contract_name)
    }

    open spec fn upsert_attribute(
        &self,
        attribute: PayableScopeAttributeView,
        contract_name: Seq<char>,
    ) -> Result<WriteAttributeMessagesView, ContractErrorView> {
        upsert_attribute_msgs(attribute, contract_name)
    }

    fn get_scope_by_id(&self, deps: &Deps, scope_id: &str) -> (r: Result<Scope, StdError>) {
        get_scope_by_id(deps, scope_id)
    }

    fn get_add_initial_attribute_to_scope_msg(
        &self,
        deps: &Deps,
        attribute: &PayableScopeAttribute,
        contract_name: &str,
    ) -> (r: Result<LedgerMsg, ContractError>) {
        get_add_initial_attribute_to_scope_msg(deps, attribute, contract_name)
    }

    fn upsert_attribute_to_scope(
        &self,
        attribute: &PayableScopeAttribute,
        contract_name: &str,
    ) -> (r: Result<WriteAttributeMessages, ContractError>) {
        upsert_attribute_to_scope(attribute, contract_name)
    }
}

/// Looks up a scope by its id.
pub fn get_scope_by_id(deps: &Deps, scope_id: &str) -> (r: Result<Scope, StdError>)
    ensures
        result_view(r) == scope_read(deps@, scope_id@),
{
    if deps.scope_id != String::from_str(scope_id) {
        return Err(StdError::not_found("Scope"));
    }
    match &deps.scope {
        Ok(scope) => Ok(scope.clone()),
        Err(e) => Err(e.clone()),
    }
}

/// Builds the message that writes the first record on a scope, unless the scope
/// carries a record already.
pub fn get_add_initial_attribute_to_scope_msg(
    deps: &Deps,
    attribute: &PayableScopeAttribute,
    contract_name: &str,
) -> (r: Result<LedgerMsg, ContractError>)
    ensures
        msg_result_view(r) == initial_attribute_msg(deps@, attribute@, contract_name@),
{
    let carries_record = deps.scope_id == attribute.scope_id && match &deps.attributes {
        Ok(attributes) => attributes.len() >= 1,
        Err(_) => false,
    };
    if carries_record {
        return Err(ContractError::DuplicateRegistration { scope_id: attribute.scope_id.clone() });
    }
    get_add_attribute_to_scope_msg(attribute, contract_name)
}

/// Builds the two messages that replace the record on a scope.
pub fn upsert_attribute_to_scope(attribute: &PayableScopeAttribute, contract_name: &str) -> (r:
    Result<WriteAttributeMessages, ContractError>)
    ensures
        write_result_view(r) == upsert_attribute_msgs(attribute@, contract_name@),
{
    let delete_attributes_msg = match get_delete_attributes_msg(
        attribute.scope_id.as_str(),
        contract_name,
    ) {
        Ok(msg) => msg,
        Err(e) => {
            return Err(e);
        },
    };
    let add_attribute_msg = match get_add_attribute_to_scope_msg(attribute, contract_name) {
        Ok(msg) => msg,
        Err(e) => {
            return Err(e);
        },
    };
    Ok(WriteAttributeMessages { delete_attributes_msg, add_attribute_msg })
}

} // verus!
