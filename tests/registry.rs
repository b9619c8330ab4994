use lokachakra_verif::address::{Address, Namespace};
use lokachakra_verif::authority::{verify_authority, Authority};
use lokachakra_verif::error::RegistryError;
use lokachakra_verif::program_address::program_address;
use lokachakra_verif::records::{
    company_id_fits, EmployeeAccount, OnboardingStatus, Record, DOCUMENT_PROOF_SPACE,
    EMPLOYEE_ACCOUNT_SPACE, MAX_COMPANY_ID_LEN,
};
use lokachakra_verif::registry::{
    initialize_employee, record_document_proof, InitializeEmployee, RecordDocumentProof,
};
use lokachakra_verif::store::RecordStore;

fn signer(byte: u8) -> Authority {
    Authority { key: [byte; 32], is_signer: true }
}

fn init_ctx(byte: u8, now: i64) -> InitializeEmployee {
    InitializeEmployee { authority: signer(byte), unix_timestamp: now }
}

fn employee_address(hash: [u8; 32]) -> Address {
    Address { namespace: Namespace::Employee, key: hash }
}

fn proof_address(hash: [u8; 32]) -> Address {
    Address { namespace: Namespace::Proof, key: hash }
}

fn proof_ctx(employee: [u8; 32], byte: u8, now: i64) -> RecordDocumentProof {
    RecordDocumentProof {
        employee_account: employee_address(employee),
        authority: signer(byte),
        unix_timestamp: now,
    }
}

fn employee_in(store: &RecordStore, hash: [u8; 32]) -> EmployeeAccount {
    match store.read(&employee_address(hash)) {
        Ok(Record::Employee(e)) => e.clone(),
        other => panic!("no employee record: {:?}", other),
    }
}

#[test]
fn derive_accepts_32_byte_keys() {
    let key = [9u8; 32];
    let a = lokachakra_verif::address::derive(Namespace::Employee, &key).unwrap();
    assert_eq!(a, employee_address(key));
    let b = lokachakra_verif::address::derive(Namespace::Proof, &key).unwrap();
    assert_eq!(b, proof_address(key));
}

#[test]
fn derive_rejects_wrong_key_length() {
    assert_eq!(lokachakra_verif::address::derive(Namespace::Employee, &[1u8; 31]), Err(RegistryError::ValidationError));
    assert_eq!(lokachakra_verif::address::derive(Namespace::Proof, &[1u8; 33]), Err(RegistryError::ValidationError));
    assert_eq!(lokachakra_verif::address::derive(Namespace::Proof, &[]), Err(RegistryError::ValidationError));
}

#[test]
fn namespaces_separate_addresses() {
    for byte in [0u8, 1, 0x7f, 0xff] {
        let key = [byte; 32];
        assert_ne!(
            lokachakra_verif::address::derive(Namespace::Employee, &key).unwrap(),
            lokachakra_verif::address::derive(Namespace::Proof, &key).unwrap()
        );
    }
}

#[test]
fn namespace_seeds_are_ascii_names() {
    assert_eq!(Namespace::Employee.seed(), b"employee".to_vec());
    assert_eq!(Namespace::Proof.seed(), b"proof".to_vec());
}

#[test]
fn program_addresses_differ_by_namespace() {
    let program_id = [7u8; 32];
    let key = [3u8; 32];
    let (employee, _) = program_address(&employee_address(key), &program_id).unwrap();
    let (proof, _) = program_address(&proof_address(key), &program_id).unwrap();
    assert_ne!(employee, proof);
    assert_ne!(employee, key);
    assert_ne!(employee, program_id);
}

#[test]
fn program_address_is_deterministic() {
    let program_id = [5u8; 32];
    let a = employee_address([8u8; 32]);
    assert_eq!(program_address(&a, &program_id), program_address(&a, &program_id));
    let other_program = [6u8; 32];
    assert_ne!(
        program_address(&a, &program_id).unwrap().0,
        program_address(&a, &other_program).unwrap().0
    );
}

#[test]
fn authority_gate_admits_signers_only() {
    assert_eq!(verify_authority(&signer(1)), Ok(()));
    let unsigned = Authority { key: [1u8; 32], is_signer: false };
    assert_eq!(verify_authority(&unsigned), Err(RegistryError::AuthorizationError));
}

#[test]
fn initialize_creates_pending_record() {
    let mut store = RecordStore::new();
    let h = [1u8; 32];
    let r = initialize_employee(&mut store, &init_ctx(2, 1_700_000_000), h, "ACME".to_string());
    assert_eq!(r, Ok(()));
    assert_eq!(store.len(), 1);
    let e = employee_in(&store, h);
    assert_eq!(e.employee_hash, h);
    assert_eq!(e.company_id, "ACME");
    assert_eq!(e.onboarding_status, OnboardingStatus::Pending);
    assert_eq!(e.created_at, 1_700_000_000);
}

#[test]
fn initialize_twice_fails_already_exists() {
    let mut store = RecordStore::new();
    let h = [1u8; 32];
    assert_eq!(initialize_employee(&mut store, &init_ctx(2, 10), h, "ACME".to_string()), Ok(()));
    assert_eq!(
        initialize_employee(&mut store, &init_ctx(2, 11), h, "ACME".to_string()),
        Err(RegistryError::AlreadyExists)
    );
    assert_eq!(store.len(), 1);
    let e = employee_in(&store, h);
    assert_eq!(e.company_id, "ACME");
    assert_eq!(e.created_at, 10);
}

#[test]
fn concurrent_initializations_have_one_winner() {
    let mut store = RecordStore::new();
    let h = [4u8; 32];
    let first = initialize_employee(&mut store, &init_ctx(1, 100), h, "ACME".to_string());
    let second = initialize_employee(&mut store, &init_ctx(2, 101), h, "Globex".to_string());
    assert_eq!(first, Ok(()));
    assert_eq!(second, Err(RegistryError::AlreadyExists));
    assert_eq!(store.len(), 1);
    let e = employee_in(&store, h);
    assert_eq!(e.company_id, "ACME");
    assert_eq!(e.created_at, 100);
}

#[test]
fn company_id_of_50_bytes_fits_and_51_fails() {
    let mut store = RecordStore::new();
    let fifty = "a".repeat(50);
    let fifty_one = "a".repeat(51);
    assert_eq!(
        initialize_employee(&mut store, &init_ctx(1, 0), [1u8; 32], fifty_one),
        Err(RegistryError::ValidationError)
    );
    assert_eq!(store.len(), 0);
    assert_eq!(initialize_employee(&mut store, &init_ctx(1, 0), [1u8; 32], fifty), Ok(()));
    assert_eq!(store.len(), 1);
}

#[test]
fn company_id_length_counts_bytes() {
    let twenty_five = "\u{e9}".repeat(25);
    let twenty_six = "\u{e9}".repeat(26);
    assert!(company_id_fits(&twenty_five));
    assert!(!company_id_fits(&twenty_six));
    assert!(company_id_fits(&String::new()));
    assert_eq!(MAX_COMPANY_ID_LEN, 50);
}

#[test]
fn unsigned_initialize_fails_authorization() {
    let mut store = RecordStore::new();
    let ctx = InitializeEmployee {
        authority: Authority { key: [1u8; 32], is_signer: false },
        unix_timestamp: 0,
    };
    assert_eq!(
        initialize_employee(&mut store, &ctx, [1u8; 32], "a".repeat(60)),
        Err(RegistryError::AuthorizationError)
    );
    assert_eq!(store.len(), 0);
}

#[test]
fn proof_copies_employee_hash() {
    let mut store = RecordStore::new();
    let h1 = [1u8; 32];
    let d1 = [0xd1u8; 32];
    assert_eq!(initialize_employee(&mut store, &init_ctx(2, 5), h1, "ACME".to_string()), Ok(()));
    assert_eq!(record_document_proof(&mut store, &proof_ctx(h1, 3, 6), d1), Ok(()));
    assert_eq!(store.len(), 2);
    match store.read(&proof_address(d1)) {
        Ok(Record::Proof(p)) => {
            assert_eq!(p.employee_hash, h1);
            assert_eq!(p.document_hash, d1);
            assert!(p.verified);
            assert_eq!(p.verified_by, [3u8; 32]);
            assert_eq!(p.timestamp, 6);
        }
        other => panic!("no proof record: {:?}", other),
    }
}

#[test]
fn proof_for_missing_employee_fails_not_found() {
    let mut store = RecordStore::new();
    let d1 = [0xd1u8; 32];
    assert_eq!(
        record_document_proof(&mut store, &proof_ctx([0xeeu8; 32], 3, 6), d1),
        Err(RegistryError::NotFound)
    );
    assert!(!store.contains(&proof_address(d1)));
    assert_eq!(store.len(), 0);
}

#[test]
fn proof_referring_to_a_proof_fails_not_found() {
    let mut store = RecordStore::new();
    let h1 = [1u8; 32];
    let d1 = [2u8; 32];
    initialize_employee(&mut store, &init_ctx(2, 5), h1, "ACME".to_string()).unwrap();
    record_document_proof(&mut store, &proof_ctx(h1, 3, 6), d1).unwrap();
    let ctx = RecordDocumentProof {
        employee_account: proof_address(d1),
        authority: signer(3),
        unix_timestamp: 7,
    };
    assert_eq!(record_document_proof(&mut store, &ctx, [9u8; 32]), Err(RegistryError::NotFound));
    assert_eq!(store.len(), 2);
}

#[test]
fn duplicate_proof_fails_already_exists() {
    let mut store = RecordStore::new();
    let h1 = [1u8; 32];
    let h2 = [2u8; 32];
    let d1 = [0xd1u8; 32];
    initialize_employee(&mut store, &init_ctx(2, 5), h1, "ACME".to_string()).unwrap();
    initialize_employee(&mut store, &init_ctx(2, 5), h2, "ACME".to_string()).unwrap();
    assert_eq!(record_document_proof(&mut store, &proof_ctx(h1, 3, 6), d1), Ok(()));
    assert_eq!(
        record_document_proof(&mut store, &proof_ctx(h2, 4, 7), d1),
        Err(RegistryError::AlreadyExists)
    );
    match store.read(&proof_address(d1)) {
        Ok(Record::Proof(p)) => assert_eq!(p.employee_hash, h1),
        other => panic!("no proof record: {:?}", other),
    }
}

#[test]
fn unsigned_proof_fails_authorization() {
    let mut store = RecordStore::new();
    let h1 = [1u8; 32];
    initialize_employee(&mut store, &init_ctx(2, 5), h1, "ACME".to_string()).unwrap();
    let ctx = RecordDocumentProof {
        employee_account: employee_address(h1),
        authority: Authority { key: [3u8; 32], is_signer: false },
        unix_timestamp: 6,
    };
    assert_eq!(record_document_proof(&mut store, &ctx, [5u8; 32]), Err(RegistryError::AuthorizationError));
    assert_eq!(store.len(), 1);
}

#[test]
fn status_stays_pending_across_operations() {
    let mut store = RecordStore::new();
    let h1 = [1u8; 32];
    initialize_employee(&mut store, &init_ctx(2, 5), h1, "ACME".to_string()).unwrap();
    for d in 0u8..4 {
        record_document_proof(&mut store, &proof_ctx(h1, 3, 6), [d; 32]).unwrap();
    }
    let _ = initialize_employee(&mut store, &init_ctx(9, 8), h1, "Other".to_string());
    assert_eq!(employee_in(&store, h1).onboarding_status, OnboardingStatus::Pending);
}

#[test]
fn store_creates_once_and_reads_back() {
    let mut store = RecordStore::new();
    let a = employee_address([1u8; 32]);
    assert!(matches!(store.read(&a), Err(RegistryError::NotFound)));
    let record = Record::Employee(EmployeeAccount {
        employee_hash: [1u8; 32],
        company_id: "ACME".to_string(),
        onboarding_status: OnboardingStatus::Pending,
        created_at: -3,
    });
    assert_eq!(store.create_if_absent(a, record.clone()), Ok(()));
    assert_eq!(store.create_if_absent(a, record), Err(RegistryError::AlreadyExists));
    assert!(store.contains(&a));
    assert_eq!(store.len(), 1);
}

#[test]
fn store_rejects_oversized_company_id() {
    let mut store = RecordStore::new();
    let record = Record::Employee(EmployeeAccount {
        employee_hash: [1u8; 32],
        company_id: "x".repeat(51),
        onboarding_status: OnboardingStatus::Pending,
        created_at: 0,
    });
    assert_eq!(
        store.create_if_absent(employee_address([1u8; 32]), record),
        Err(RegistryError::ValidationError)
    );
    assert_eq!(store.len(), 0);
}

#[test]
fn record_layout_sizes() {
    assert_eq!(EMPLOYEE_ACCOUNT_SPACE, 100);
    assert_eq!(DOCUMENT_PROOF_SPACE, 113);
}
