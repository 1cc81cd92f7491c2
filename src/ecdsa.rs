use vstd::prelude::*;
use crate::error::EcdsaError;
use crate::kind::EcdsaStruct;
use crate::round::{Round, needs, needs_of};
use crate::store::{ArtifactKey, Contents, Store, has_all, session_used};

verus! {

/// How many session ids a first key generation round draws before it gives
/// up on finding one that the store does not hold yet.
pub const SESSION_ID_DRAWS: u32 = 8;

/// Relies on uuid's `Uuid::new_v4` and its `Display`: a random identifier
/// for a new session, in hyphenated form (36 characters). Nothing else is
/// known of its value.
#[verifier::external_body]
fn new_session_id() -> (r: String)
    ensures
        r@.len() == 36,
{
    uuid::Uuid::new_v4().to_string()
}

/// The stored form of a recovery position: four bytes, least significant
/// first.
pub open spec fn pos_bytes(p: u32) -> Seq<u8> {
    seq![
        (p % 256) as u8,
        ((p / 256) % 256) as u8,
        ((p / 65536) % 256) as u8,
        (p / 16777216) as u8,
    ]
}

/// The position that four stored bytes encode.
pub open spec fn pos_value(b: Seq<u8>) -> int {
    b[0] + 256 * b[1] + 65536 * b[2] + 16777216 * b[3]
}

/// Whether `m` holds everything a master key of session `id` is assembled
/// from.
pub open spec fn master_key_complete(m: Contents, c: Seq<char>, id: Seq<char>) -> bool {
    &&& m.contains_key((c, id, EcdsaStruct::Party1Private))
    &&& m.contains_key((c, id, EcdsaStruct::PaillierKeyPair))
    &&& m.contains_key((c, id, EcdsaStruct::CC))
    &&& m.contains_key((c, id, EcdsaStruct::Party2Public))
    &&& m.contains_key((c, id, EcdsaStruct::CommWitness))
}

/// What holds of every store that only the rounds of this module have
/// written:
/// a session holds any artifact only if it holds its position, it holds its
/// position only if it holds the first key generation message, and a
/// committed master key comes with everything it was assembled from.
pub open spec fn protocol_inv(m: Contents) -> bool {
    &&& forall|c: Seq<char>, id: Seq<char>, k: EcdsaStruct| #[trigger]
        m.contains_key((c, id, k)) ==> m.contains_key((c, id, EcdsaStruct::POS))
    &&& forall|c: Seq<char>, id: Seq<char>| #[trigger]
        m.contains_key((c, id, EcdsaStruct::POS)) ==> m.contains_key(
            (c, id, EcdsaStruct::KeyGenFirstMsg),
        )
    &&& forall|c: Seq<char>, id: Seq<char>| #[trigger]
        m.contains_key((c, id, EcdsaStruct::MasterKey)) ==> master_key_complete(m, c, id)
}

/// Whether `m` holds no artifact of session `id` under customer `c`.
pub open spec fn session_absent(m: Contents, c: Seq<char>, id: Seq<char>) -> bool {
    forall|k: EcdsaStruct| !#[trigger] m.contains_key((c, id, k))
}


/// The store after a first key generation round minted session `id`.
pub open spec fn first_effect(
    m: Contents,
    c: Seq<char>,
    id: Seq<char>,
    key_gen_first_msg: Seq<u8>,
    comm_witness: Seq<u8>,
    ec_key_pair: Seq<u8>,
) -> Contents {
    m.insert((c, id, EcdsaStruct::POS), pos_bytes(0)).insert(
        (c, id, EcdsaStruct::KeyGenFirstMsg),
        key_gen_first_msg,
    ).insert((c, id, EcdsaStruct::CommWitness), comm_witness).insert(
        (c, id, EcdsaStruct::EcKeyPair),
        ec_key_pair,
    )
}

/// The store after a second key generation round.
pub open spec fn second_effect(
    m: Contents,
    c: Seq<char>,
    id: Seq<char>,
    party2_public: Seq<u8>,
    paillier_key_pair: Seq<u8>,
    party1_private: Seq<u8>,
) -> Contents {
    m.insert((c, id, EcdsaStruct::Party2Public), party2_public).insert(
        (c, id, EcdsaStruct::PaillierKeyPair),
        paillier_key_pair,
    ).insert((c, id, EcdsaStruct::Party1Private), party1_private)
}

/// The store after a third key generation round.
pub open spec fn third_effect(
    m: Contents,
    c: Seq<char>,
    id: Seq<char>,
    pdl_decommit: Seq<u8>,
    alpha: Seq<u8>,
    party2_pdl_first: Seq<u8>,
) -> Contents {
    m.insert((c, id, EcdsaStruct::PDLDecommit), pdl_decommit).insert(
        (c, id, EcdsaStruct::Alpha),
        alpha,
    ).insert((c, id, EcdsaStruct::Party2PDLFirstMsg), party2_pdl_first)
}

/// The store after a first chain code round.
pub open spec fn chain_code_first_effect(
    m: Contents,
    c: Seq<char>,
    id: Seq<char>,
    cc_first_msg: Seq<u8>,
    cc_comm_witness: Seq<u8>,
    cc_ec_key_pair: Seq<u8>,
) -> Contents {
    m.insert((c, id, EcdsaStruct::CCKeyGenFirstMsg), cc_first_msg).insert(
        (c, id, EcdsaStruct::CCCommWitness),
        cc_comm_witness,
    ).insert((c, id, EcdsaStruct::CCEcKeyPair), cc_ec_key_pair)
}

/// The store after the session's master key was committed or replaced.
pub open spec fn master_key_effect(m: Contents, c: Seq<char>, id: Seq<char>, master_key: Seq<u8>) -> Contents {
    m.insert((c, id, EcdsaStruct::MasterKey), master_key)
}

/// The store after the chain code was stored and the master key committed.
pub open spec fn chain_code_effect(
    m: Contents,
    c: Seq<char>,
    id: Seq<char>,
    chain_code: Seq<u8>,
    master_key: Seq<u8>,
) -> Contents {
    master_key_effect(m.insert((c, id, EcdsaStruct::CC), chain_code), c, id, master_key)
}

/// The store after a first signing round.
pub open spec fn sign_first_effect(
    m: Contents,
    c: Seq<char>,
    id: Seq<char>,
    party2_eph_first: Seq<u8>,
    eph_ec_key_pair: Seq<u8>,
) -> Contents {
    m.insert((c, id, EcdsaStruct::EphKeyGenFirstMsg), party2_eph_first).insert(
        (c, id, EcdsaStruct::EphEcKeyPair),
        eph_ec_key_pair,
    )
}

/// The store after a first rotation round.
pub open spec fn rotate_first_effect(m: Contents, c: Seq<char>, id: Seq<char>, m1: Seq<u8>, r1: Seq<u8>) -> Contents {
    m.insert((c, id, EcdsaStruct::RotateCommitMessage1M), m1).insert(
        (c, id, EcdsaStruct::RotateCommitMessage1R),
        r1,
    )
}

/// The store after a second rotation round.
pub open spec fn rotate_second_effect(
    m: Contents,
    c: Seq<char>,
    id: Seq<char>,
    random1: Seq<u8>,
    rotation_first_msg: Seq<u8>,
    party1_private_new: Seq<u8>,
) -> Contents {
    m.insert((c, id, EcdsaStruct::RotateRandom1), random1).insert(
        (c, id, EcdsaStruct::RotateFirstMsg),
        rotation_first_msg,
    ).insert((c, id, EcdsaStruct::RotatePrivateNew), party1_private_new)
}

/// The store after a third rotation round.
pub open spec fn rotate_third_effect(
    m: Contents,
    c: Seq<char>,
    id: Seq<char>,
    alpha: Seq<u8>,
    pdl_decommit: Seq<u8>,
    party2_pdl_first: Seq<u8>,
    party1_second: Seq<u8>,
) -> Contents {
    m.insert((c, id, EcdsaStruct::Alpha), alpha).insert(
        (c, id, EcdsaStruct::RotatePdlDecom),
        pdl_decommit,
    ).insert((c, id, EcdsaStruct::RotateParty2First), party2_pdl_first).insert(
        (c, id, EcdsaStruct::RotateParty1Second),
        party1_second,
    )
}


proof fn lemma_has_all_at(m: Contents, c: Seq<char>, id: Seq<char>, ks: Seq<EcdsaStruct>, j: int)
    requires
        has_all(m, c, id, ks),
        0 <= j < ks.len(),
    ensures
        m.contains_key((c, id, ks[j])),
{
}

proof fn lemma_session_started(m: Contents, c: Seq<char>, id: Seq<char>, k: EcdsaStruct)
    requires
        protocol_inv(m),
        m.contains_key((c, id, k)),
    ensures
        m.contains_key((c, id, EcdsaStruct::POS)),
        m.contains_key((c, id, EcdsaStruct::KeyGenFirstMsg)),
{
}

/// Writes confined to one started session keep the invariant, as long as a
/// newly committed master key is complete.
proof fn lemma_inv_kept(m: Contents, m2: Contents, c: Seq<char>, id: Seq<char>)
    requires
        protocol_inv(m),
        m2.contains_key((c, id, EcdsaStruct::POS)),
        m2.contains_key((c, id, EcdsaStruct::KeyGenFirstMsg)),
        forall|k: ArtifactKey| #[trigger] m.contains_key(k) ==> m2.contains_key(k),
        forall|k: ArtifactKey| #[trigger]
            m2.contains_key(k) ==> m.contains_key(k) || (k.0 == c && k.1 == id),
        m2.contains_key((c, id, EcdsaStruct::MasterKey)) ==> m.contains_key(
            (c, id, EcdsaStruct::MasterKey),
        ) || master_key_complete(m2, c, id),
    ensures
        protocol_inv(m2),
{
    assert forall|c2: Seq<char>, id2: Seq<char>, k: EcdsaStruct| #[trigger]
        m2.contains_key((c2, id2, k)) implies m2.contains_key((c2, id2, EcdsaStruct::POS)) by {
        if !(c2 == c && id2 == id) {
            assert(m.contains_key((c2, id2, k)));
            assert(m.contains_key((c2, id2, EcdsaStruct::POS)));
        }
    }
    assert forall|c2: Seq<char>, id2: Seq<char>| #[trigger]
        m2.contains_key((c2, id2, EcdsaStruct::POS)) implies m2.contains_key(
        (c2, id2, EcdsaStruct::KeyGenFirstMsg),
    ) by {
        if !(c2 == c && id2 == id) {
            assert(m.contains_key((c2, id2, EcdsaStruct::POS)));
            assert(m.contains_key((c2, id2, EcdsaStruct::KeyGenFirstMsg)));
        }
    }
    assert forall|c2: Seq<char>, id2: Seq<char>| #[trigger]
        m2.contains_key((c2, id2, EcdsaStruct::MasterKey)) implies master_key_complete(
        m2,
        c2,
        id2,
    ) by {
        if !(c2 == c && id2 == id) || m.contains_key((c2, id2, EcdsaStruct::MasterKey)) {
            assert(m.contains_key((c2, id2, EcdsaStruct::MasterKey)));
            assert(master_key_complete(m, c2, id2));
            assert(m.contains_key((c2, id2, EcdsaStruct::Party1Private)));
            assert(m.contains_key((c2, id2, EcdsaStruct::PaillierKeyPair)));
            assert(m.contains_key((c2, id2, EcdsaStruct::CC)));
            assert(m.contains_key((c2, id2, EcdsaStruct::Party2Public)));
            assert(m.contains_key((c2, id2, EcdsaStruct::CommWitness)));
        }
    }
}



/// Whether everything round `round` needs is stored for the session.
pub fn ready(store: &Store, customer: &String, id: &String, round: Round) -> (r: bool)
    requires
        store.wf(),
    ensures
        r == has_all(store@, customer@, id@, needs(round)),
{
    let ks = needs_of(round);
    let mut i: usize = 0;
    while i < ks.len()
        invariant
            store.wf(),
            ks@ == needs(round),
            i <= ks.len(),
            forall|j: int| 0 <= j < i ==> #[trigger] store@.contains_key((customer@, id@, ks@[j])),
        decreases ks.len() - i,
    {
        if !store.contains(customer, id, ks[i]) {
            return false;
        }
        i = i + 1;
    }
    true
}

/// The stored values that round `round` is handed, in the order of
/// `needs(round)`; `NotFound` when one of them is missing.
pub fn round_inputs(store: &Store, customer: &String, id: &String, round: Round) -> (r: Result<
    Vec<Vec<u8>>,
    EcdsaError,
>)
    requires
        store.wf(),
    ensures
        r is Ok <==> has_all(store@, customer@, id@, needs(round)),
        r is Err ==> r == Err::<Vec<Vec<u8>>, EcdsaError>(EcdsaError::NotFound),
        r matches Ok(vs) ==> vs.len() == needs(round).len() && forall|i: int|
            0 <= i < vs.len() ==> #[trigger] vs[i]@ == store@[(customer@, id@, needs(round)[i])],
{
    let ks = needs_of(round);
    let mut vs: Vec<Vec<u8>> = Vec::new();
    let mut i: usize = 0;
    while i < ks.len()
        invariant
            store.wf(),
            ks@ == needs(round),
            i <= ks.len(),
            vs.len() == i,
            forall|j: int| 0 <= j < i ==> #[trigger] store@.contains_key((customer@, id@, ks@[j])),
            forall|j: int| 0 <= j < i ==> #[trigger] vs[j]@ == store@[(customer@, id@, ks@[j])],
        decreases ks.len() - i,
    {
        match store.get(customer, id, ks[i]) {
            Some(v) => {
                vs.push(v);
            },
            None => {
                return Err(EcdsaError::NotFound);
            },
        }
        i = i + 1;
    }
    Ok(vs)
}

/// The value stored under one kind of the session; `NotFound` when absent.
fn load(store: &Store, customer: &String, id: &String, kind: EcdsaStruct) -> (r: Result<
    Vec<u8>,
    EcdsaError,
>)
    requires
        store.wf(),
    ensures
        r matches Ok(v) ==> store@.contains_key((customer@, id@, kind)) && v@ == store@[(
            customer@,
            id@,
            kind,
        )],
        r is Err ==> r == Err::<Vec<u8>, EcdsaError>(EcdsaError::NotFound) && !store@.contains_key(
            (customer@, id@, kind),
        ),
{
    match store.get(customer, id, kind) {
        Some(v) => Ok(v),
        None => Err(EcdsaError::NotFound),
    }
}

/// Stores the chain code and the master key assembled with it.
fn write_chain_code(store: &mut Store, customer: &String, id: &String, chain_code: Vec<u8>, master_key: Vec<u8>)
    requires
        old(store).wf(),
        old(store)@.contains_key((customer@, id@, EcdsaStruct::Party2Public)),
        old(store)@.contains_key((customer@, id@, EcdsaStruct::PaillierKeyPair)),
        old(store)@.contains_key((customer@, id@, EcdsaStruct::Party1Private)),
        old(store)@.contains_key((customer@, id@, EcdsaStruct::CommWitness)),
    ensures
        final(store).wf(),
        final(store)@ == chain_code_effect(old(store)@, customer@, id@, chain_code@, master_key@),
        protocol_inv(old(store)@) ==> protocol_inv(final(store)@),
{
    let ghost m0 = store@;
    store.insert(customer, id, EcdsaStruct::CC, chain_code);
    store.insert(customer, id, EcdsaStruct::MasterKey, master_key);
    proof {
        if protocol_inv(m0) {
            lemma_session_started(m0, customer@, id@, EcdsaStruct::CommWitness);
            lemma_inv_kept(m0, store@, customer@, id@);
        }
    }
}

/// Where the answer to "does this customer already own an active share"
/// comes from.
#[derive(Debug)]
pub enum ShareQuery {
    /// The embedded store, which reports no active share.
    Local,
    /// The answer of the strongly consistent remote query for the customer's
    /// live master keys: the number of rows (none when the answer held no
    /// row list), or a failed query.
    Remote(Result<Option<usize>, ()>),
}

/// What the active-share check reports for `q`.
pub open spec fn share_answer(q: ShareQuery) -> Result<bool, EcdsaError> {
    match q {
        ShareQuery::Local => Ok(false),
        ShareQuery::Remote(Ok(rows)) => Ok(rows matches Some(n) && n > 0),
        ShareQuery::Remote(Err(_)) => Err(EcdsaError::StorageError),
    }
}

/// Whether the customer already owns an active share: never on the embedded
/// store; on the remote backend when its query returned a row;
/// `StorageError` when that query failed.
pub fn has_active_share(q: &ShareQuery) -> (r: Result<bool, EcdsaError>)
    ensures
        r == share_answer(*q),
{
    match q {
        ShareQuery::Local => Ok(false),
        ShareQuery::Remote(Ok(rows)) => Ok(active_share_in_rows(*rows)),
        ShareQuery::Remote(Err(_)) => Err(EcdsaError::StorageError),
    }
}

/// Whether the answer of a remote query for a customer's live master keys
/// reports an active share: it does when it holds at least one row.
pub fn active_share_in_rows(rows: Option<usize>) -> (r: bool)
    ensures
        r == (rows matches Some(n) && n > 0),
{
    match rows {
        Some(n) => n > 0,
        None => false,
    }
}

/// Whether the setting of the key generation toggle asks to refuse a
/// customer who already owns a share: only the exact value `true` does.
pub fn fail_keygen_if_active(setting: Option<String>) -> (r: bool)
    ensures
        r == (setting matches Some(s) && s@ == "true"@),
{
    match setting {
        Some(s) => s == String::from_str("true"),
        None => false,
    }
}


/// Second key generation round: stores the other party's public share, and
/// the Paillier key pair and private share that the cryptographic step
/// derived from the stored commitment witness and key pair.
pub fn second_message(
    store: &mut Store,
    customer: &String,
    id: &String,
    party2_public: Vec<u8>,
    paillier_key_pair: Vec<u8>,
    party1_private: Vec<u8>,
) -> (r: Result<(), EcdsaError>)
    requires
        old(store).wf(),
    ensures
        final(store).wf(),
        r is Ok <==> has_all(old(store)@, customer@, id@, needs(Round::KeyGenSecond)),
        r is Ok ==> final(store)@ == second_effect(old(store)@, customer@, id@, party2_public@, paillier_key_pair@, party1_private@),
        r is Err ==> r == Err::<(), EcdsaError>(EcdsaError::NotFound) && final(store)@ == old(store)@,
        protocol_inv(old(store)@) ==> protocol_inv(final(store)@),
{
    if !ready(store, customer, id, Round::KeyGenSecond) {
        return Err(EcdsaError::NotFound);
    }
    let ghost m0 = store@;
    proof {
        lemma_has_all_at(m0, customer@, id@, needs(Round::KeyGenSecond), 0);
    }
    store.insert(customer, id, EcdsaStruct::Party2Public, party2_public);
    store.insert(customer, id, EcdsaStruct::PaillierKeyPair, paillier_key_pair);
    store.insert(customer, id, EcdsaStruct::Party1Private, party1_private);
    proof {
        if protocol_inv(m0) {
            lemma_session_started(m0, customer@, id@, EcdsaStruct::POS);
            lemma_inv_kept(m0, store@, customer@, id@);
        }
    }
    Ok(())
}

/// Third key generation round: stores the decommitment and `alpha` that the
/// cryptographic step derived from the stored private share, and the other
/// party's first PDL message.
pub fn third_message(
    store: &mut Store,
    customer: &String,
    id: &String,
    pdl_decommit: Vec<u8>,
    alpha: Vec<u8>,
    party2_pdl_first: Vec<u8>,
) -> (r: Result<(), EcdsaError>)
    requires
        old(store).wf(),
    ensures
        final(store).wf(),
        r is Ok <==> has_all(old(store)@, customer@, id@, needs(Round::KeyGenThird)),
        r is Ok ==> final(store)@ == third_effect(old(store)@, customer@, id@, pdl_decommit@, alpha@, party2_pdl_first@),
        r is Err ==> r == Err::<(), EcdsaError>(EcdsaError::NotFound) && final(store)@ == old(store)@,
        protocol_inv(old(store)@) ==> protocol_inv(final(store)@),
{
    if !ready(store, customer, id, Round::KeyGenThird) {
        return Err(EcdsaError::NotFound);
    }
    let ghost m0 = store@;
    proof {
        lemma_has_all_at(m0, customer@, id@, needs(Round::KeyGenThird), 0);
    }
    store.insert(customer, id, EcdsaStruct::PDLDecommit, pdl_decommit);
    store.insert(customer, id, EcdsaStruct::Alpha, alpha);
    store.insert(customer, id, EcdsaStruct::Party2PDLFirstMsg, party2_pdl_first);
    proof {
        if protocol_inv(m0) {
            lemma_session_started(m0, customer@, id@, EcdsaStruct::POS);
            lemma_inv_kept(m0, store@, customer@, id@);
        }
    }
    Ok(())
}

/// First chain code round: stores this party's chain code commitment message,
/// witness and key pair. Runs only once the key generation rounds before it
/// have stored their artifacts.
pub fn chain_code_first_message(
    store: &mut Store,
    customer: &String,
    id: &String,
    cc_first_msg: Vec<u8>,
    cc_comm_witness: Vec<u8>,
    cc_ec_key_pair: Vec<u8>,
) -> (r: Result<(), EcdsaError>)
    requires
        old(store).wf(),
    ensures
        final(store).wf(),
        r is Ok <==> has_all(old(store)@, customer@, id@, needs(Round::ChainCodeFirst)),
        r is Ok ==> final(store)@ == chain_code_first_effect(old(store)@, customer@, id@, cc_first_msg@, cc_comm_witness@, cc_ec_key_pair@),
        r is Err ==> r == Err::<(), EcdsaError>(EcdsaError::NotFound) && final(store)@ == old(store)@,
        protocol_inv(old(store)@) ==> protocol_inv(final(store)@),
{
    if !ready(store, customer, id, Round::ChainCodeFirst) {
        return Err(EcdsaError::NotFound);
    }
    let ghost m0 = store@;
    proof {
        lemma_has_all_at(m0, customer@, id@, needs(Round::ChainCodeFirst), 0);
    }
    store.insert(customer, id, EcdsaStruct::CCKeyGenFirstMsg, cc_first_msg);
    store.insert(customer, id, EcdsaStruct::CCCommWitness, cc_comm_witness);
    store.insert(customer, id, EcdsaStruct::CCEcKeyPair, cc_ec_key_pair);
    proof {
        if protocol_inv(m0) {
            lemma_session_started(m0, customer@, id@, EcdsaStruct::POS);
            lemma_inv_kept(m0, store@, customer@, id@);
        }
    }
    Ok(())
}

/// First signing round: stores the other party's ephemeral first message and
/// this party's fresh ephemeral key pair. The session must hold a master key.
pub fn sign_first(
    store: &mut Store,
    customer: &String,
    id: &String,
    party2_eph_first: Vec<u8>,
    eph_ec_key_pair: Vec<u8>,
) -> (r: Result<(), EcdsaError>)
    requires
        old(store).wf(),
    ensures
        final(store).wf(),
        r is Ok <==> has_all(old(store)@, customer@, id@, needs(Round::SignFirst)),
        r is Ok ==> final(store)@ == sign_first_effect(old(store)@, customer@, id@, party2_eph_first@, eph_ec_key_pair@),
        r is Err ==> r == Err::<(), EcdsaError>(EcdsaError::NotFound) && final(store)@ == old(store)@,
        protocol_inv(old(store)@) ==> protocol_inv(final(store)@),
{
    if !ready(store, customer, id, Round::SignFirst) {
        return Err(EcdsaError::NotFound);
    }
    let ghost m0 = store@;
    proof {
        lemma_has_all_at(m0, customer@, id@, needs(Round::SignFirst), 0);
    }
    store.insert(customer, id, EcdsaStruct::EphKeyGenFirstMsg, party2_eph_first);
    store.insert(customer, id, EcdsaStruct::EphEcKeyPair, eph_ec_key_pair);
    proof {
        if protocol_inv(m0) {
            lemma_session_started(m0, customer@, id@, EcdsaStruct::MasterKey);
            lemma_inv_kept(m0, store@, customer@, id@);
        }
    }
    Ok(())
}

/// First rotation round: stores the secret and the blinding of this party's
/// coin-flip commitment. The session must hold a master key.
pub fn rotate_first(
    store: &mut Store,
    customer: &String,
    id: &String,
    m1: Vec<u8>,
    r1: Vec<u8>,
) -> (r: Result<(), EcdsaError>)
    requires
        old(store).wf(),
    ensures
        final(store).wf(),
        r is Ok <==> has_all(old(store)@, customer@, id@, needs(Round::RotateFirst)),
        r is Ok ==> final(store)@ == rotate_first_effect(old(store)@, customer@, id@, m1@, r1@),
        r is Err ==> r == Err::<(), EcdsaError>(EcdsaError::NotFound) && final(store)@ == old(store)@,
        protocol_inv(old(store)@) ==> protocol_inv(final(store)@),
{
    if !ready(store, customer, id, Round::RotateFirst) {
        return Err(EcdsaError::NotFound);
    }
    let ghost m0 = store@;
    proof {
        lemma_has_all_at(m0, customer@, id@, needs(Round::RotateFirst), 0);
    }
    store.insert(customer, id, EcdsaStruct::RotateCommitMessage1M, m1);
    store.insert(customer, id, EcdsaStruct::RotateCommitMessage1R, r1);
    proof {
        if protocol_inv(m0) {
            lemma_session_started(m0, customer@, id@, EcdsaStruct::MasterKey);
            lemma_inv_kept(m0, store@, customer@, id@);
        }
    }
    Ok(())
}

/// Second rotation round: stores the agreed randomness, this party's first
/// rotation message and its new private share.
pub fn rotate_second(
    store: &mut Store,
    customer: &String,
    id: &String,
    random1: Vec<u8>,
    rotation_first_msg: Vec<u8>,
    party1_private_new: Vec<u8>,
) -> (r: Result<(), EcdsaError>)
    requires
        old(store).wf(),
    ensures
        final(store).wf(),
        r is Ok <==> has_all(old(store)@, customer@, id@, needs(Round::RotateSecond)),
        r is Ok ==> final(store)@ == rotate_second_effect(old(store)@, customer@, id@, random1@, rotation_first_msg@, party1_private_new@),
        r is Err ==> r == Err::<(), EcdsaError>(EcdsaError::NotFound) && final(store)@ == old(store)@,
        protocol_inv(old(store)@) ==> protocol_inv(final(store)@),
{
    if !ready(store, customer, id, Round::RotateSecond) {
        return Err(EcdsaError::NotFound);
    }
    let ghost m0 = store@;
    proof {
        lemma_has_all_at(m0, customer@, id@, needs(Round::RotateSecond), 0);
    }
    store.insert(customer, id, EcdsaStruct::RotateRandom1, random1);
    store.insert(customer, id, EcdsaStruct::RotateFirstMsg, rotation_first_msg);
    store.insert(customer, id, EcdsaStruct::RotatePrivateNew, party1_private_new);
    proof {
        if protocol_inv(m0) {
            lemma_session_started(m0, customer@, id@, EcdsaStruct::MasterKey);
            lemma_inv_kept(m0, store@, customer@, id@);
        }
    }
    Ok(())
}

/// Third rotation round: stores the new `alpha`, the PDL decommitment, the
/// other party's first PDL message and this party's reply, all under the
/// session's own key.
pub fn rotate_third(
    store: &mut Store,
    customer: &String,
    id: &String,
    alpha: Vec<u8>,
    pdl_decommit: Vec<u8>,
    party2_pdl_first: Vec<u8>,
    party1_second: Vec<u8>,
) -> (r: Result<(), EcdsaError>)
    requires
        old(store).wf(),
    ensures
        final(store).wf(),
        r is Ok <==> has_all(old(store)@, customer@, id@, needs(Round::RotateThird)),
        r is Ok ==> final(store)@ == rotate_third_effect(old(store)@, customer@, id@, alpha@, pdl_decommit@, party2_pdl_first@, party1_second@),
        r is Err ==> r == Err::<(), EcdsaError>(EcdsaError::NotFound) && final(store)@ == old(store)@,
        protocol_inv(old(store)@) ==> protocol_inv(final(store)@),
{
    if !ready(store, customer, id, Round::RotateThird) {
        return Err(EcdsaError::NotFound);
    }
    let ghost m0 = store@;
    proof {
        lemma_has_all_at(m0, customer@, id@, needs(Round::RotateThird), 0);
    }
    store.insert(customer, id, EcdsaStruct::Alpha, alpha);
    store.insert(customer, id, EcdsaStruct::RotatePdlDecom, pdl_decommit);
    store.insert(customer, id, EcdsaStruct::RotateParty2First, party2_pdl_first);
    store.insert(customer, id, EcdsaStruct::RotateParty1Second, party1_second);
    proof {
        if protocol_inv(m0) {
            lemma_session_started(m0, customer@, id@, EcdsaStruct::MasterKey);
            lemma_inv_kept(m0, store@, customer@, id@);
        }
    }
    Ok(())
}


/// The stored form of position `p`.
fn encode_pos(p: u32) -> (r: Vec<u8>)
    ensures
        r@ == pos_bytes(p),
{
    let r = vec![
        (p % 256) as u8,
        ((p / 256) % 256) as u8,
        ((p / 65536) % 256) as u8,
        (p / 16777216) as u8,
    ];
    assert(r@ =~= pos_bytes(p));
    r
}

/// The position that stored bytes encode; `None` unless there are four.
fn decode_pos(b: &Vec<u8>) -> (r: Option<u32>)
    ensures
        b@.len() == 4 ==> r == Some(pos_value(b@) as u32) && pos_value(b@) < 0x1_0000_0000,
        b@.len() != 4 ==> r is None,
{
    if b.len() != 4 {
        return None;
    }
    let v: u32 = b[0] as u32 + 256 * (b[1] as u32) + 65536 * (b[2] as u32) + 16777216 * (b[3] as u32);
    Some(v)
}

/// First key generation round. `share` is the backend's answer on whether
/// the customer already owns an active share. When that answer is a failed
/// query, or is yes while `fail_if_active` is set, nothing is stored.
/// Otherwise draws a random session id that no customer holds yet in the
/// store, opens the session with `start_session` and returns the new id;
/// if `SESSION_ID_DRAWS` random ids were all taken it gives up with
/// `StorageError`. On a store that holds nothing the first draw is taken.
pub fn first_message(
    store: &mut Store,
    customer: &String,
    fail_if_active: bool,
    share: ShareQuery,
    key_gen_first_msg: Vec<u8>,
    comm_witness: Vec<u8>,
    ec_key_pair: Vec<u8>,
) -> (r: Result<String, EcdsaError>)
    requires
        old(store).wf(),
    ensures
        final(store).wf(),
        share_answer(share) is Err ==> r == Err::<String, EcdsaError>(EcdsaError::StorageError),
        share_answer(share) == Ok::<bool, EcdsaError>(true) && fail_if_active ==> r == Err::<
            String,
            EcdsaError,
        >(EcdsaError::AlreadyActive),
        share_answer(share) == Ok::<bool, EcdsaError>(false) || (share_answer(share) == Ok::<
            bool,
            EcdsaError,
        >(true) && !fail_if_active) ==> (r is Ok || r == Err::<String, EcdsaError>(
            EcdsaError::StorageError,
        )),
        (share_answer(share) == Ok::<bool, EcdsaError>(false) || (share_answer(share) == Ok::<
            bool,
            EcdsaError,
        >(true) && !fail_if_active)) && old(store)@ == Contents::empty() ==> r is Ok,
        r is Err ==> final(store)@ == old(store)@,
        r matches Ok(id) ==> id@.len() == 36 && !session_used(old(store)@, id@) && final(store)@
            == first_effect(
            old(store)@,
            customer@,
            id@,
            key_gen_first_msg@,
            comm_witness@,
            ec_key_pair@,
        ),
        protocol_inv(old(store)@) ==> protocol_inv(final(store)@),
{
    match has_active_share(&share) {
        Err(e) => {
            return Err(e);
        },
        Ok(active) => {
            if active && fail_if_active {
                return Err(EcdsaError::AlreadyActive);
            }
        },
    }
    let ghost m0 = store@;
    let mut draws: u32 = 0;
    while draws < SESSION_ID_DRAWS
        invariant
            store.wf(),
            store@ == m0,
            m0 == old(store)@,
            draws <= SESSION_ID_DRAWS,
            m0 == Contents::empty() ==> draws == 0,
            share_answer(share) is Ok,
            !(share_answer(share) == Ok::<bool, EcdsaError>(true) && fail_if_active),
        decreases SESSION_ID_DRAWS - draws,
    {
        let id = new_session_id();
        draws = draws + 1;
        if !store.session_in_use(&id) {
            let started = start_session(store, customer, &id, key_gen_first_msg, comm_witness, ec_key_pair);
            assert(started is Ok);
            return Ok(id);
        }
    }
    Err(EcdsaError::StorageError)
}

/// Opens session `id` for `customer`, unless some customer already holds an
/// artifact under that id (`StorageError`, nothing stored): seeds its
/// position to 0 and stores this party's first key generation message,
/// commitment witness and key pair.
pub fn start_session(
    store: &mut Store,
    customer: &String,
    id: &String,
    key_gen_first_msg: Vec<u8>,
    comm_witness: Vec<u8>,
    ec_key_pair: Vec<u8>,
) -> (r: Result<(), EcdsaError>)
    requires
        old(store).wf(),
    ensures
        final(store).wf(),
        r is Ok <==> !session_used(old(store)@, id@),
        r is Ok ==> final(store)@ == first_effect(
            old(store)@,
            customer@,
            id@,
            key_gen_first_msg@,
            comm_witness@,
            ec_key_pair@,
        ),
        r is Err ==> r == Err::<(), EcdsaError>(EcdsaError::StorageError) && final(store)@ == old(
            store,
        )@,
        protocol_inv(old(store)@) ==> protocol_inv(final(store)@),
{
    if store.session_in_use(id) {
        return Err(EcdsaError::StorageError);
    }
    let ghost m0 = store@;
    store.insert(customer, id, EcdsaStruct::POS, encode_pos(0));
    store.insert(customer, id, EcdsaStruct::KeyGenFirstMsg, key_gen_first_msg);
    store.insert(customer, id, EcdsaStruct::CommWitness, comm_witness);
    store.insert(customer, id, EcdsaStruct::EcKeyPair, ec_key_pair);
    proof {
        if protocol_inv(m0) {
            lemma_inv_kept(m0, store@, customer@, id@);
        }
    }
    Ok(())
}

/// Fourth key generation round. Nothing is stored; `outcome` is what the
/// cryptographic check of the other party's second PDL message gave on the
/// stored artifacts: its reply, or a failed check.
pub fn fourth_message(store: &Store, customer: &String, id: &String, outcome: Result<Vec<u8>, ()>) -> (r:
    Result<Vec<u8>, EcdsaError>)
    requires
        store.wf(),
    ensures
        !has_all(store@, customer@, id@, needs(Round::KeyGenFourth)) ==> r == Err::<
            Vec<u8>,
            EcdsaError,
        >(EcdsaError::NotFound),
        has_all(store@, customer@, id@, needs(Round::KeyGenFourth)) ==> r == match outcome {
            Ok(msg) => Ok(msg),
            Err(_) => Err::<Vec<u8>, EcdsaError>(EcdsaError::CryptoError),
        },
{
    if !ready(store, customer, id, Round::KeyGenFourth) {
        return Err(EcdsaError::NotFound);
    }
    match outcome {
        Ok(msg) => Ok(msg),
        Err(_) => Err(EcdsaError::CryptoError),
    }
}

/// Commits the session: stores the master key assembled from the stored
/// chain code, private share, Paillier key pair and public shares.
pub fn master_key(store: &mut Store, customer: &String, id: &String, key: Vec<u8>) -> (r: Result<
    (),
    EcdsaError,
>)
    requires
        old(store).wf(),
    ensures
        final(store).wf(),
        r is Ok <==> has_all(old(store)@, customer@, id@, needs(Round::MasterKeyCommit)),
        r is Ok ==> final(store)@ == master_key_effect(old(store)@, customer@, id@, key@),
        r is Err ==> r == Err::<(), EcdsaError>(EcdsaError::NotFound) && final(store)@ == old(store)@,
        protocol_inv(old(store)@) ==> protocol_inv(final(store)@),
{
    if !ready(store, customer, id, Round::MasterKeyCommit) {
        return Err(EcdsaError::NotFound);
    }
    let ghost m0 = store@;
    proof {
        let ks = needs(Round::MasterKeyCommit);
        lemma_has_all_at(m0, customer@, id@, ks, 0);
        lemma_has_all_at(m0, customer@, id@, ks, 1);
        lemma_has_all_at(m0, customer@, id@, ks, 2);
        lemma_has_all_at(m0, customer@, id@, ks, 3);
        lemma_has_all_at(m0, customer@, id@, ks, 4);
    }
    store.insert(customer, id, EcdsaStruct::MasterKey, key);
    proof {
        if protocol_inv(m0) {
            lemma_session_started(m0, customer@, id@, EcdsaStruct::CommWitness);
            lemma_inv_kept(m0, store@, customer@, id@);
        }
    }
    Ok(())
}

/// Stores the chain code computed from the stored chain code key pair and
/// the other party's chain code share, then commits the master key
/// assembled with it.
pub fn chain_code_compute_message(
    store: &mut Store,
    customer: &String,
    id: &String,
    chain_code: Vec<u8>,
    master_key: Vec<u8>,
) -> (r: Result<(), EcdsaError>)
    requires
        old(store).wf(),
    ensures
        final(store).wf(),
        r is Ok <==> has_all(old(store)@, customer@, id@, needs(Round::ChainCodeCompute)),
        r is Ok ==> final(store)@ == chain_code_effect(old(store)@, customer@, id@, chain_code@, master_key@),
        r is Err ==> r == Err::<(), EcdsaError>(EcdsaError::NotFound) && final(store)@ == old(store)@,
        protocol_inv(old(store)@) ==> protocol_inv(final(store)@),
{
    if !ready(store, customer, id, Round::ChainCodeCompute) {
        return Err(EcdsaError::NotFound);
    }
    proof {
        let ks = needs(Round::ChainCodeCompute);
        lemma_has_all_at(store@, customer@, id@, ks, 1);
        lemma_has_all_at(store@, customer@, id@, ks, 2);
        lemma_has_all_at(store@, customer@, id@, ks, 3);
        lemma_has_all_at(store@, customer@, id@, ks, 4);
    }
    write_chain_code(store, customer, id, chain_code, master_key);
    Ok(())
}

/// Second chain code round: runs once the first chain code round has stored
/// its artifacts, stores the chain code and commits the master key.
pub fn chain_code_second_message(
    store: &mut Store,
    customer: &String,
    id: &String,
    chain_code: Vec<u8>,
    master_key: Vec<u8>,
) -> (r: Result<(), EcdsaError>)
    requires
        old(store).wf(),
    ensures
        final(store).wf(),
        r is Ok <==> has_all(old(store)@, customer@, id@, needs(Round::ChainCodeSecond)),
        r is Ok ==> final(store)@ == chain_code_effect(old(store)@, customer@, id@, chain_code@, master_key@),
        r is Err ==> r == Err::<(), EcdsaError>(EcdsaError::NotFound) && final(store)@ == old(store)@,
        protocol_inv(old(store)@) ==> protocol_inv(final(store)@),
{
    if !ready(store, customer, id, Round::ChainCodeSecond) {
        return Err(EcdsaError::NotFound);
    }
    proof {
        let ks = needs(Round::ChainCodeSecond);
        lemma_has_all_at(store@, customer@, id@, ks, 2);
        lemma_has_all_at(store@, customer@, id@, ks, 4);
        lemma_has_all_at(store@, customer@, id@, ks, 5);
        lemma_has_all_at(store@, customer@, id@, ks, 6);
    }
    write_chain_code(store, customer, id, chain_code, master_key);
    Ok(())
}

/// Second signing round. Nothing is stored; `outcome` is what signing with
/// the child of the stored master key gave: the signature, or a failed
/// check of the other party's message.
pub fn sign_second(store: &Store, customer: &String, id: &String, outcome: Result<Vec<u8>, ()>) -> (r:
    Result<Vec<u8>, EcdsaError>)
    requires
        store.wf(),
    ensures
        !has_all(store@, customer@, id@, needs(Round::SignSecond)) ==> r == Err::<
            Vec<u8>,
            EcdsaError,
        >(EcdsaError::NotFound),
        has_all(store@, customer@, id@, needs(Round::SignSecond)) ==> r == match outcome {
            Ok(sig) => Ok(sig),
            Err(_) => Err::<Vec<u8>, EcdsaError>(EcdsaError::CryptoError),
        },
{
    if !ready(store, customer, id, Round::SignSecond) {
        return Err(EcdsaError::NotFound);
    }
    match outcome {
        Ok(sig) => Ok(sig),
        Err(_) => Err(EcdsaError::CryptoError),
    }
}

/// The session's master key; `NotFound` when the session holds none.
pub fn get_mk(store: &Store, customer: &String, id: &String) -> (r: Result<Vec<u8>, EcdsaError>)
    requires
        store.wf(),
    ensures
        store@.contains_key((customer@, id@, EcdsaStruct::MasterKey)) ==> (r matches Ok(v) && v@
            == store@[(customer@, id@, EcdsaStruct::MasterKey)]),
        !store@.contains_key((customer@, id@, EcdsaStruct::MasterKey)) ==> r == Err::<
            Vec<u8>,
            EcdsaError,
        >(EcdsaError::NotFound),
{
    load(store, customer, id, EcdsaStruct::MasterKey)
}

/// Fourth rotation round. `outcome` is what the cryptographic step gave on
/// the stored artifacts: this party's reply and the rotated master key, or a
/// failed check. Only on success is the master key replaced; otherwise the
/// store is left as it was.
pub fn rotate_fourth(
    store: &mut Store,
    customer: &String,
    id: &String,
    outcome: Result<(Vec<u8>, Vec<u8>), ()>,
) -> (r: Result<Vec<u8>, EcdsaError>)
    requires
        old(store).wf(),
    ensures
        final(store).wf(),
        !has_all(old(store)@, customer@, id@, needs(Round::RotateFourth)) ==> r == Err::<
            Vec<u8>,
            EcdsaError,
        >(EcdsaError::NotFound) && final(store)@ == old(store)@,
        has_all(old(store)@, customer@, id@, needs(Round::RotateFourth)) && outcome is Err ==> r
            == Err::<Vec<u8>, EcdsaError>(EcdsaError::CryptoError) && final(store)@ == old(store)@,
        has_all(old(store)@, customer@, id@, needs(Round::RotateFourth)) ==> (outcome matches Ok(
            (msg, mk),
        ) ==> r == Ok::<Vec<u8>, EcdsaError>(msg) && final(store)@ == master_key_effect(
            old(store)@,
            customer@,
            id@,
            mk@,
        )),
        protocol_inv(old(store)@) ==> protocol_inv(final(store)@),
{
    if !ready(store, customer, id, Round::RotateFourth) {
        return Err(EcdsaError::NotFound);
    }
    match outcome {
        Ok((msg, mk)) => {
            let ghost m0 = store@;
            proof {
                lemma_has_all_at(m0, customer@, id@, needs(Round::RotateFourth), 0);
            }
            store.insert(customer, id, EcdsaStruct::MasterKey, mk);
            proof {
                if protocol_inv(m0) {
                    lemma_session_started(m0, customer@, id@, EcdsaStruct::MasterKey);
                    lemma_inv_kept(m0, store@, customer@, id@);
                }
            }
            Ok(msg)
        },
        Err(_) => Err(EcdsaError::CryptoError),
    }
}

/// The session's recovery position; `NotFound` when the session holds none,
/// `StorageError` when the stored value is not four bytes.
pub fn recover(store: &Store, customer: &String, id: &String) -> (r: Result<u32, EcdsaError>)
    requires
        store.wf(),
    ensures
        !store@.contains_key((customer@, id@, EcdsaStruct::POS)) ==> r == Err::<u32, EcdsaError>(
            EcdsaError::NotFound,
        ),
        store@.contains_key((customer@, id@, EcdsaStruct::POS)) ==> r == if store@[(
            customer@,
            id@,
            EcdsaStruct::POS,
        )].len() == 4 {
            Ok::<u32, EcdsaError>(pos_value(store@[(customer@, id@, EcdsaStruct::POS)]) as u32)
        } else {
            Err::<u32, EcdsaError>(EcdsaError::StorageError)
        },
{
    let b = load(store, customer, id, EcdsaStruct::POS)?;
    match decode_pos(&b) {
        Some(p) => Ok(p),
        None => Err(EcdsaError::StorageError),
    }
}

} // verus!
