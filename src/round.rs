use vstd::prelude::*;
use crate::kind::EcdsaStruct;
use crate::kind::EcdsaStruct as K;

verus! {

/// A server round that continues an existing session.
#[derive(Debug, Clone, Copy, PartialEq, Eq, Structural)]
pub enum Round {
    KeyGenSecond,
    KeyGenThird,
    KeyGenFourth,
    ChainCodeFirst,
    ChainCodeSecond,
    ChainCodeCompute,
    MasterKeyCommit,
    SignFirst,
    SignSecond,
    RotateFirst,
    RotateSecond,
    RotateThird,
    RotateFourth,
    Recover,
}

/// What the first key generation round writes.
pub open spec fn keygen_first_kinds() -> Seq<EcdsaStruct> {
    seq![K::POS, K::KeyGenFirstMsg, K::CommWitness, K::EcKeyPair]
}

/// What the key generation rounds up to the third write.
pub open spec fn keygen_kinds() -> Seq<EcdsaStruct> {
    seq![
        K::POS,
        K::KeyGenFirstMsg,
        K::CommWitness,
        K::EcKeyPair,
        K::Party2Public,
        K::PaillierKeyPair,
        K::Party1Private,
        K::PDLDecommit,
        K::Alpha,
        K::Party2PDLFirstMsg,
    ]
}

/// What the master key is assembled from.
pub open spec fn master_key_parts() -> Seq<EcdsaStruct> {
    seq![K::Party2Public, K::PaillierKeyPair, K::CC, K::Party1Private, K::CommWitness]
}

/// The kinds that must be present before `r` runs: everything the earlier
/// messages of its protocol wrote (for signing and rotation, the committed
/// master key and what the earlier rounds wrote). A round is handed the
/// stored values of these kinds, in this order.
pub open spec fn needs(r: Round) -> Seq<EcdsaStruct> {
    match r {
        Round::KeyGenSecond => keygen_first_kinds(),
        Round::KeyGenThird => keygen_first_kinds() + seq![K::Party2Public, K::PaillierKeyPair, K::Party1Private],
        Round::KeyGenFourth => keygen_kinds(),
        Round::ChainCodeFirst => keygen_kinds(),
        Round::ChainCodeSecond => keygen_kinds() + seq![K::CCKeyGenFirstMsg, K::CCCommWitness, K::CCEcKeyPair],
        Round::ChainCodeCompute => seq![K::CCEcKeyPair, K::Party2Public, K::PaillierKeyPair, K::Party1Private, K::CommWitness],
        Round::MasterKeyCommit => master_key_parts(),
        Round::SignFirst => seq![K::MasterKey],
        Round::SignSecond => seq![K::MasterKey, K::EphEcKeyPair, K::EphKeyGenFirstMsg],
        Round::RotateFirst => seq![K::MasterKey],
        Round::RotateSecond => seq![K::MasterKey, K::RotateCommitMessage1M, K::RotateCommitMessage1R],
        Round::RotateThird => seq![
            K::MasterKey,
            K::RotateCommitMessage1M,
            K::RotateCommitMessage1R,
            K::RotateRandom1,
            K::RotateFirstMsg,
            K::RotatePrivateNew,
        ],
        Round::RotateFourth => seq![
            K::MasterKey,
            K::RotateCommitMessage1M,
            K::RotateCommitMessage1R,
            K::RotateRandom1,
            K::RotateFirstMsg,
            K::RotatePrivateNew,
            K::Alpha,
            K::RotatePdlDecom,
            K::RotateParty2First,
            K::RotateParty1Second,
        ],
        Round::Recover => seq![K::POS],
    }
}

/// The kinds that must be present before `r` runs.
pub fn needs_of(r: Round) -> (v: Vec<EcdsaStruct>)
    ensures
        v@ == needs(r),
{
    let v = match r {
        Round::KeyGenSecond => vec![K::POS, K::KeyGenFirstMsg, K::CommWitness, K::EcKeyPair],
        Round::KeyGenThird => vec![
            K::POS,
            K::KeyGenFirstMsg,
            K::CommWitness,
            K::EcKeyPair,
            K::Party2Public,
            K::PaillierKeyPair,
            K::Party1Private,
        ],
        Round::KeyGenFourth | Round::ChainCodeFirst => vec![
            K::POS,
            K::KeyGenFirstMsg,
            K::CommWitness,
            K::EcKeyPair,
            K::Party2Public,
            K::PaillierKeyPair,
            K::Party1Private,
            K::PDLDecommit,
            K::Alpha,
            K::Party2PDLFirstMsg,
        ],
        Round::ChainCodeSecond => vec![
            K::POS,
            K::KeyGenFirstMsg,
            K::CommWitness,
            K::EcKeyPair,
            K::Party2Public,
            K::PaillierKeyPair,
            K::Party1Private,
            K::PDLDecommit,
            K::Alpha,
            K::Party2PDLFirstMsg,
            K::CCKeyGenFirstMsg,
            K::CCCommWitness,
            K::CCEcKeyPair,
        ],
        Round::ChainCodeCompute => vec![K::CCEcKeyPair, K::Party2Public, K::PaillierKeyPair, K::Party1Private, K::CommWitness],
        Round::MasterKeyCommit => vec![K::Party2Public, K::PaillierKeyPair, K::CC, K::Party1Private, K::CommWitness],
        Round::SignFirst | Round::RotateFirst => vec![K::MasterKey],
        Round::SignSecond => vec![K::MasterKey, K::EphEcKeyPair, K::EphKeyGenFirstMsg],
        Round::RotateSecond => vec![K::MasterKey, K::RotateCommitMessage1M, K::RotateCommitMessage1R],
        Round::RotateThird => vec![
            K::MasterKey,
            K::RotateCommitMessage1M,
            K::RotateCommitMessage1R,
            K::RotateRandom1,
            K::RotateFirstMsg,
            K::RotatePrivateNew,
        ],
        Round::RotateFourth => vec![
            K::MasterKey,
            K::RotateCommitMessage1M,
            K::RotateCommitMessage1R,
            K::RotateRandom1,
            K::RotateFirstMsg,
            K::RotatePrivateNew,
            K::Alpha,
            K::RotatePdlDecom,
            K::RotateParty2First,
            K::RotateParty1Second,
        ],
        Round::Recover => vec![K::POS],
    };
    assert(v@ =~= needs(r));
    v
}

} // verus!
