use vstd::prelude::*;

verus! {

/// Largest length in bytes of an employee's company id.
pub const MAX_COMPANY_ID_LEN: usize = 50;

/// Bytes taken by a stored employee record: type tag, hash, company id, status, timestamp.
pub const EMPLOYEE_ACCOUNT_SPACE: usize = 8 + 32 + 50 + 2 + 8;

/// Bytes taken by a stored document proof: type tag, two hashes, flag, signer, timestamp.
pub const DOCUMENT_PROOF_SPACE: usize = 8 + 32 + 32 + 1 + 32 + 8;

/// Onboarding state of an employee. Only `Pending` is ever written by the registry.
#[derive(Clone, Copy, Debug, PartialEq, Eq, Structural)]
pub enum OnboardingStatus {
    Pending,
    Verified,
    Active,
}

/// An employee's onboarding identity, keyed by the hash of their identity data.
#[derive(Clone, Debug)]
pub struct EmployeeAccount {
    pub employee_hash: [u8; 32],
    pub company_id: String,
    pub onboarding_status: OnboardingStatus,
    pub created_at: i64,
}

/// An attestation that a document, by its hash, belongs to an employee.
#[derive(Clone, Copy, Debug)]
pub struct DocumentProof {
    pub employee_hash: [u8; 32],
    pub document_hash: [u8; 32],
    pub verified: bool,
    pub verified_by: [u8; 32],
    pub timestamp: i64,
}

/// A record held at one address of the store.
#[derive(Clone, Debug)]
pub enum Record {
    Employee(EmployeeAccount),
    Proof(DocumentProof),
}

/// Length in bytes of the UTF-8 encoding of a company id.
pub open spec fn company_id_len(company_id: String) -> nat {
    vstd::utf8::encode_utf8(company_id@).len()
}

/// Whether a record's variable-length field stays within its bound.
pub open spec fn record_fits(record: Record) -> bool {
    match record {
        Record::Employee(e) => company_id_len(e.company_id) <= MAX_COMPANY_ID_LEN,
        Record::Proof(_) => true,
    }
}

/// Whether `company_id` fits in the space an employee record reserves for it.
pub fn company_id_fits(company_id: &String) -> (r: bool)
    ensures
        r == (company_id_len(*company_id) <= MAX_COMPANY_ID_LEN),
{
    company_id.as_str().as_bytes().len() <= MAX_COMPANY_ID_LEN
}

/// Whether `record` fits the fixed layout of its kind.
pub fn check_record_fits(record: &Record) -> (r: bool)
    ensures
        r == record_fits(*record),
{
    match record {
        Record::Employee(e) => company_id_fits(&e.company_id),
        Record::Proof(_) => true,
    }
}

} // verus!
