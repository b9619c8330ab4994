use vstd::prelude::*;

use crate::address::{Address, Namespace, address_of};
use crate::authority::{Authority, verify_authority};
use crate::error::RegistryError;
use crate::records::{
    DocumentProof,
    EmployeeAccount,
    MAX_COMPANY_ID_LEN,
    OnboardingStatus,
    Record,
    company_id_fits,
    company_id_len,
};
use crate::store::RecordStore;

verus! {

/// What an employee's initialization is given besides its arguments: the acting
/// identity and the runtime's clock reading, in seconds since the epoch.
#[derive(Clone, Copy, Debug)]
pub struct InitializeEmployee {
    pub authority: Authority,
    pub unix_timestamp: i64,
}

/// What recording a document proof is given besides the document hash: the
/// address of the employee record it refers to, the acting identity, and the
/// runtime's clock reading.
#[derive(Clone, Copy, Debug)]
pub struct RecordDocumentProof {
    pub employee_account: Address,
    pub authority: Authority,
    pub unix_timestamp: i64,
}

/// The employee record that a successful initialization writes.
pub open spec fn new_employee_record(
    ctx: InitializeEmployee,
    employee_hash: [u8; 32],
    company_id: String,
) -> Record {
    Record::Employee(
        EmployeeAccount {
            employee_hash,
            company_id,
            onboarding_status: OnboardingStatus::Pending,
            created_at: ctx.unix_timestamp,
        },
    )
}

/// Outcome of initializing `employee_hash` on a store holding `store`: the
/// signature is checked first, then the company id's length, then whether the
/// employee's address is still free.
pub open spec fn initialize_result(
    store: Map<Address, Record>,
    ctx: InitializeEmployee,
    employee_hash: [u8; 32],
    company_id: String,
) -> Result<(), RegistryError> {
    if !ctx.authority.is_signer {
        Err(RegistryError::AuthorizationError)
    } else if company_id_len(company_id) > MAX_COMPANY_ID_LEN {
        Err(RegistryError::ValidationError)
    } else if store.contains_key(address_of(Namespace::Employee, employee_hash)) {
        Err(RegistryError::AlreadyExists)
    } else {
        Ok(())
    }
}

/// The store after initializing `employee_hash`: one record more on success,
/// unchanged otherwise.
pub open spec fn initialize_store(
    store: Map<Address, Record>,
    ctx: InitializeEmployee,
    employee_hash: [u8; 32],
    company_id: String,
) -> Map<Address, Record> {
    if initialize_result(store, ctx, employee_hash, company_id) is Ok {
        store.insert(
            address_of(Namespace::Employee, employee_hash),
            new_employee_record(ctx, employee_hash, company_id),
        )
    } else {
        store
    }
}

/// The employee record held at `address`, if there is one.
pub open spec fn employee_at(store: Map<Address, Record>, address: Address) -> Option<
    EmployeeAccount,
> {
    if store.contains_key(address) {
        match store[address] {
            Record::Employee(e) => Some(e),
            Record::Proof(_) => None,
        }
    } else {
        None
    }
}

/// The document proof that a successful recording writes. Its employee hash is
/// the one of the referenced record, never one supplied by the caller.
pub open spec fn new_proof_record(
    store: Map<Address, Record>,
    ctx: RecordDocumentProof,
    document_hash: [u8; 32],
) -> Record {
    Record::Proof(
        DocumentProof {
            employee_hash: employee_at(store, ctx.employee_account)->Some_0.employee_hash,
            document_hash,
            verified: true,
            verified_by: ctx.authority.key,
            timestamp: ctx.unix_timestamp,
        },
    )
}

/// Outcome of recording `document_hash`: the signature is checked first, then
/// that the referenced employee record exists, then whether the proof's address
/// is still free.
pub open spec fn record_result(
    store: Map<Address, Record>,
    ctx: RecordDocumentProof,
    document_hash: [u8; 32],
) -> Result<(), RegistryError> {
    if !ctx.authority.is_signer {
        Err(RegistryError::AuthorizationError)
    } else if employee_at(store, ctx.employee_account) is None {
        Err(RegistryError::NotFound)
    } else if store.contains_key(address_of(Namespace::Proof, document_hash)) {
        Err(RegistryError::AlreadyExists)
    } else {
        Ok(())
    }
}

/// The store after recording `document_hash`: one record more on success,
/// unchanged otherwise.
pub open spec fn record_store(
    store: Map<Address, Record>,
    ctx: RecordDocumentProof,
    document_hash: [u8; 32],
) -> Map<Address, Record> {
    if record_result(store, ctx, document_hash) is Ok {
        store.insert(
            address_of(Namespace::Proof, document_hash),
            new_proof_record(store, ctx, document_hash),
        )
    } else {
        store
    }
}

/// Creates the onboarding record of `employee_hash` with status `Pending`.
pub fn initialize_employee(
    store: &mut RecordStore,
    ctx: &InitializeEmployee,
    employee_hash: [u8; 32],
    company_id: String,
) -> (r: Result<(), RegistryError>)
    requires
        old(store).wf(),
    ensures
        final(store).wf(),
        r == initialize_result(old(store)@, *ctx, employee_hash, company_id),
        final(store)@ == initialize_store(old(store)@, *ctx, employee_hash, company_id),
{
    verify_authority(&ctx.authority)?;
    if !company_id_fits(&company_id) {
        return Err(RegistryError::ValidationError);
    }
    let address = match crate::address::derive(Namespace::Employee, employee_hash.as_slice()) {
        Ok(a) => a,
        Err(e) => return Err(e),
    };
    assert(address.key =~= employee_hash);
    let record = Record::Employee(
        EmployeeAccount {
            employee_hash,
            company_id,
            onboarding_status: OnboardingStatus::Pending,
            created_at: ctx.unix_timestamp,
        },
    );
    store.create_if_absent(address, record)
}

/// Creates the proof that `document_hash` was attested for the employee whose
/// record is at `ctx.employee_account`, copying that record's employee hash.
pub fn record_document_proof(
    store: &mut RecordStore,
    ctx: &RecordDocumentProof,
    document_hash: [u8; 32],
) -> (r: Result<(), RegistryError>)
    requires
        old(store).wf(),
    ensures
        final(store).wf(),
        r == record_result(old(store)@, *ctx, document_hash),
        final(store)@ == record_store(old(store)@, *ctx, document_hash),
{
    verify_authority(&ctx.authority)?;
    let employee_hash = match store.read(&ctx.employee_account) {
        Ok(Record::Employee(e)) => e.employee_hash,
        _ => return Err(RegistryError::NotFound),
    };
    let address = match crate::address::derive(Namespace::Proof, document_hash.as_slice()) {
        Ok(a) => a,
        Err(e) => return Err(e),
    };
    assert(address.key =~= document_hash);
    let record = Record::Proof(
        DocumentProof {
            employee_hash,
            document_hash,
            verified: true,
            verified_by: ctx.authority.key,
            timestamp: ctx.unix_timestamp,
        },
    );
    store.create_if_absent(address, record)
}

} // verus!
