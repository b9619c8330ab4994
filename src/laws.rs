use vstd::prelude::*;

use crate::address::{Address, Namespace, address_of};
use crate::error::RegistryError;
use crate::records::{
    DocumentProof,
    MAX_COMPANY_ID_LEN,
    OnboardingStatus,
    Record,
    company_id_len,
};
use crate::registry::{
    InitializeEmployee,
    RecordDocumentProof,
    employee_at,
    initialize_result,
    initialize_store,
    new_employee_record,
    record_result,
    record_store,
};

verus! {

/// One call of a registry operation, with its arguments.
pub enum Operation {
    /// `initialize_employee` with its context, employee hash and company id.
    Initialize(InitializeEmployee, [u8; 32], String),
    /// `record_document_proof` with its context and document hash.
    Record(RecordDocumentProof, [u8; 32]),
}

/// The store after one operation.
pub open spec fn apply(store: Map<Address, Record>, op: Operation) -> Map<Address, Record> {
    match op {
        Operation::Initialize(ctx, employee_hash, company_id) => initialize_store(
            store,
            ctx,
            employee_hash,
            company_id,
        ),
        Operation::Record(ctx, document_hash) => record_store(store, ctx, document_hash),
    }
}

/// The store after a sequence of operations, in order.
pub open spec fn apply_all(store: Map<Address, Record>, ops: Seq<Operation>) -> Map<
    Address,
    Record,
>
    decreases ops.len(),
{
    if ops.len() == 0 {
        store
    } else {
        apply(apply_all(store, ops.drop_last()), ops.last())
    }
}

/// The facts that the registry operations keep of a store: each record sits at
/// the address derived from its own key, every employee is `Pending`, and every
/// proof names an employee whose record is held.
pub open spec fn registry_consistent(store: Map<Address, Record>) -> bool {
    forall|a: Address| #[trigger] store.contains_key(a) ==> match store[a] {
        Record::Employee(e) => a == address_of(Namespace::Employee, e.employee_hash)
            && e.onboarding_status == OnboardingStatus::Pending,
        Record::Proof(p) => a == address_of(Namespace::Proof, p.document_hash) && employee_at(
            store,
            address_of(Namespace::Employee, p.employee_hash),
        ) is Some,
    }
}

/// Addresses are equal exactly when their namespaces and keys are.
pub proof fn lemma_address_injective(n1: Namespace, k1: [u8; 32], n2: Namespace, k2: [u8; 32])
    ensures
        (address_of(n1, k1) == address_of(n2, k2)) <==> (n1 == n2 && k1 == k2),
{
}

/// For every key, the employee address and the proof address of that key differ,
/// and so do the seeds of the two namespaces.
pub proof fn lemma_namespaces_separate(key: [u8; 32])
    ensures
        address_of(Namespace::Employee, key) != address_of(Namespace::Proof, key),
        Namespace::Employee.seed_spec() != Namespace::Proof.seed_spec(),
{
    assert(Namespace::Employee.seed_spec().len() != Namespace::Proof.seed_spec().len());
}

/// Initializing the same employee twice: the second call fails with
/// `AlreadyExists` and changes nothing, and the store holds one employee record
/// for that hash, the first call's.
pub proof fn lemma_initialize_twice(
    store: Map<Address, Record>,
    ctx: InitializeEmployee,
    employee_hash: [u8; 32],
    company_id: String,
)
    requires
        registry_consistent(store),
        initialize_result(store, ctx, employee_hash, company_id) is Ok,
    ensures
        ({
            let once = initialize_store(store, ctx, employee_hash, company_id);
            &&& initialize_result(once, ctx, employee_hash, company_id) == Err::<(), RegistryError>(
                RegistryError::AlreadyExists,
            )
            &&& initialize_store(once, ctx, employee_hash, company_id) == once
            &&& once[address_of(Namespace::Employee, employee_hash)] == new_employee_record(
                ctx,
                employee_hash,
                company_id,
            )
            &&& forall|a: Address|
                #![trigger once[a]]
                once.contains_key(a) && once[a] is Employee && once[a]->Employee_0.employee_hash
                    == employee_hash ==> a == address_of(Namespace::Employee, employee_hash)
        }),
{
    lemma_initialize_keeps_consistent(store, ctx, employee_hash, company_id);
}

/// Two initializations of one employee hash on a store without it, both signed
/// and with company ids that fit: the first succeeds, the second fails with
/// `AlreadyExists`, and the store holds exactly the first one's record.
pub proof fn lemma_initialize_race(
    store: Map<Address, Record>,
    employee_hash: [u8; 32],
    first: InitializeEmployee,
    first_company_id: String,
    second: InitializeEmployee,
    second_company_id: String,
)
    requires
        !store.contains_key(address_of(Namespace::Employee, employee_hash)),
        first.authority.is_signer,
        second.authority.is_signer,
        company_id_len(first_company_id) <= MAX_COMPANY_ID_LEN,
        company_id_len(second_company_id) <= MAX_COMPANY_ID_LEN,
    ensures
        ({
            let once = initialize_store(store, first, employee_hash, first_company_id);
            &&& initialize_result(store, first, employee_hash, first_company_id) is Ok
            &&& once == store.insert(
                address_of(Namespace::Employee, employee_hash),
                new_employee_record(first, employee_hash, first_company_id),
            )
            &&& initialize_result(once, second, employee_hash, second_company_id) == Err::<
                (),
                RegistryError,
            >(RegistryError::AlreadyExists)
            &&& initialize_store(once, second, employee_hash, second_company_id) == once
        }),
{
}

/// A proof recorded against a freshly initialized employee succeeds and carries
/// that employee's hash, taken from the stored record.
pub proof fn lemma_proof_copies_employee_hash(
    store: Map<Address, Record>,
    init: InitializeEmployee,
    employee_hash: [u8; 32],
    company_id: String,
    ctx: RecordDocumentProof,
    document_hash: [u8; 32],
)
    requires
        initialize_result(store, init, employee_hash, company_id) is Ok,
        ctx.authority.is_signer,
        ctx.employee_account == address_of(Namespace::Employee, employee_hash),
        !store.contains_key(address_of(Namespace::Proof, document_hash)),
    ensures
        ({
            let once = initialize_store(store, init, employee_hash, company_id);
            &&& record_result(once, ctx, document_hash) is Ok
            &&& record_store(once, ctx, document_hash)[address_of(Namespace::Proof, document_hash)]
                == Record::Proof(
                DocumentProof {
                    employee_hash,
                    document_hash,
                    verified: true,
                    verified_by: ctx.authority.key,
                    timestamp: ctx.unix_timestamp,
                },
            )
        }),
{
    lemma_namespaces_separate(document_hash);
}

/// A proof that refers to an address without an employee record is not created;
/// a signed request fails with `NotFound`.
pub proof fn lemma_proof_needs_employee(
    store: Map<Address, Record>,
    ctx: RecordDocumentProof,
    document_hash: [u8; 32],
)
    requires
        employee_at(store, ctx.employee_account) is None,
    ensures
        record_store(store, ctx, document_hash) == store,
        ctx.authority.is_signer ==> record_result(store, ctx, document_hash) == Err::<
            (),
            RegistryError,
        >(RegistryError::NotFound),
{
}

/// Initialization keeps a store consistent, and adds nothing but its record.
pub proof fn lemma_initialize_keeps_consistent(
    store: Map<Address, Record>,
    ctx: InitializeEmployee,
    employee_hash: [u8; 32],
    company_id: String,
)
    requires
        registry_consistent(store),
    ensures
        registry_consistent(initialize_store(store, ctx, employee_hash, company_id)),
        store.submap_of(initialize_store(store, ctx, employee_hash, company_id)),
{
    let after = initialize_store(store, ctx, employee_hash, company_id);
    assert forall|a: Address| #[trigger] after.contains_key(a) implies match after[a] {
        Record::Employee(e) => a == address_of(Namespace::Employee, e.employee_hash)
            && e.onboarding_status == OnboardingStatus::Pending,
        Record::Proof(p) => a == address_of(Namespace::Proof, p.document_hash) && employee_at(
            after,
            address_of(Namespace::Employee, p.employee_hash),
        ) is Some,
    } by {
        if store.contains_key(a) {
            if let Record::Proof(p) = store[a] {
                assert(store.contains_key(address_of(Namespace::Employee, p.employee_hash)));
            }
        }
    }
}

/// Recording a proof keeps a store consistent, and adds nothing but its record.
pub proof fn lemma_record_keeps_consistent(
    store: Map<Address, Record>,
    ctx: RecordDocumentProof,
    document_hash: [u8; 32],
)
    requires
        registry_consistent(store),
    ensures
        registry_consistent(record_store(store, ctx, document_hash)),
        store.submap_of(record_store(store, ctx, document_hash)),
{
    let after = record_store(store, ctx, document_hash);
    if record_result(store, ctx, document_hash) is Ok {
        let e = employee_at(store, ctx.employee_account)->Some_0;
        assert(store.contains_key(ctx.employee_account));
        assert(ctx.employee_account == address_of(Namespace::Employee, e.employee_hash));
        assert forall|a: Address| #[trigger] after.contains_key(a) implies match after[a] {
            Record::Employee(e) => a == address_of(Namespace::Employee, e.employee_hash)
                && e.onboarding_status == OnboardingStatus::Pending,
            Record::Proof(p) => a == address_of(Namespace::Proof, p.document_hash) && employee_at(
                after,
                address_of(Namespace::Employee, p.employee_hash),
            ) is Some,
        } by {
            if store.contains_key(a) {
                if let Record::Proof(p) = store[a] {
                    assert(store.contains_key(address_of(Namespace::Employee, p.employee_hash)));
                }
            }
        }
    }
}

/// From a consistent store, no sequence of registry operations changes or
/// removes a record, and every employee record stays `Pending`.
pub proof fn lemma_status_stays_pending(store: Map<Address, Record>, ops: Seq<Operation>)
    requires
        registry_consistent(store),
    ensures
        registry_consistent(apply_all(store, ops)),
        store.submap_of(apply_all(store, ops)),
        forall|a: Address|
            #![trigger apply_all(store, ops)[a]]
            apply_all(store, ops).contains_key(a) && apply_all(store, ops)[a] is Employee
                ==> apply_all(store, ops)[a]->Employee_0.onboarding_status
                == OnboardingStatus::Pending,
    decreases ops.len(),
{
    if ops.len() > 0 {
        let before = apply_all(store, ops.drop_last());
        lemma_status_stays_pending(store, ops.drop_last());
        match ops.last() {
            Operation::Initialize(ctx, employee_hash, company_id) => {
                lemma_initialize_keeps_consistent(before, ctx, employee_hash, company_id);
            },
            Operation::Record(ctx, document_hash) => {
                lemma_record_keeps_consistent(before, ctx, document_hash);
            },
        }
        let after = apply_all(store, ops);
        assert forall|a: Address| #[trigger] store.contains_key(a) implies after.contains_key(a)
            && after[a] == store[a] by {
            assert(before.contains_key(a));
        }
    }
    let after = apply_all(store, ops);
    assert forall|a: Address|
        #![trigger after[a]]
        after.contains_key(a) && after[a] is Employee implies after[a]->Employee_0.onboarding_status
        == OnboardingStatus::Pending by {
        assert(after.contains_key(a));
    }
}

/// The empty store is consistent.
pub proof fn lemma_empty_consistent()
    ensures
        registry_consistent(Map::<Address, Record>::empty()),
{
}

} // verus!
