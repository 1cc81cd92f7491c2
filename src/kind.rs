use vstd::prelude::*;

verus! {

/// The closed set of artifact kinds that a session can hold.
#[derive(Debug, Clone, Copy, PartialEq, Eq, Structural)]
pub enum EcdsaStruct {
    KeyGenFirstMsg,
    CommWitness,
    EcKeyPair,
    PaillierKeyPair,
    Party1Private,
    Party2Public,
    PDLDecommit,
    Alpha,
    Party2PDLFirstMsg,
    CCKeyGenFirstMsg,
    CCCommWitness,
    CCEcKeyPair,
    CC,
    MasterKey,
    EphEcKeyPair,
    EphKeyGenFirstMsg,
    RotateCommitMessage1M,
    RotateCommitMessage1R,
    RotateRandom1,
    RotateFirstMsg,
    RotatePrivateNew,
    RotatePdlDecom,
    RotateParty2First,
    RotateParty1Second,
    POS,
}

/// The name of a kind, as it appears in table names.
pub open spec fn kind_name(k: EcdsaStruct) -> Seq<char> {
    match k {
        EcdsaStruct::KeyGenFirstMsg => "KeyGenFirstMsg"@,
        EcdsaStruct::CommWitness => "CommWitness"@,
        EcdsaStruct::EcKeyPair => "EcKeyPair"@,
        EcdsaStruct::PaillierKeyPair => "PaillierKeyPair"@,
        EcdsaStruct::Party1Private => "Party1Private"@,
        EcdsaStruct::Party2Public => "Party2Public"@,
        EcdsaStruct::PDLDecommit => "PDLDecommit"@,
        EcdsaStruct::Alpha => "Alpha"@,
        EcdsaStruct::Party2PDLFirstMsg => "Party2PDLFirstMsg"@,
        EcdsaStruct::CCKeyGenFirstMsg => "CCKeyGenFirstMsg"@,
        EcdsaStruct::CCCommWitness => "CCCommWitness"@,
        EcdsaStruct::CCEcKeyPair => "CCEcKeyPair"@,
        EcdsaStruct::CC => "CC"@,
        EcdsaStruct::MasterKey => "MasterKey"@,
        EcdsaStruct::EphEcKeyPair => "EphEcKeyPair"@,
        EcdsaStruct::EphKeyGenFirstMsg => "EphKeyGenFirstMsg"@,
        EcdsaStruct::RotateCommitMessage1M => "RotateCommitMessage1M"@,
        EcdsaStruct::RotateCommitMessage1R => "RotateCommitMessage1R"@,
        EcdsaStruct::RotateRandom1 => "RotateRandom1"@,
        EcdsaStruct::RotateFirstMsg => "RotateFirstMsg"@,
        EcdsaStruct::RotatePrivateNew => "RotatePrivateNew"@,
        EcdsaStruct::RotatePdlDecom => "RotatePdlDecom"@,
        EcdsaStruct::RotateParty2First => "RotateParty2First"@,
        EcdsaStruct::RotateParty1Second => "RotateParty1Second"@,
        EcdsaStruct::POS => "POS"@,
    }
}

/// The remote table that holds artifacts of kind `k` in environment `env`.
/// The master key keeps its legacy name, `{env}_MasterKey`; every other kind
/// lives in `{env}-gotham-{kind}`.
pub open spec fn table_name(k: EcdsaStruct, env: Seq<char>) -> Seq<char> {
    if k == EcdsaStruct::MasterKey {
        env + "_"@ + kind_name(k)
    } else {
        env + "-gotham-"@ + kind_name(k)
    }
}

impl EcdsaStruct {
    /// The name of this kind.
    pub fn to_string(&self) -> (r: String)
        ensures
            r@ == kind_name(*self),
    {
        let s: &str = match self {
            EcdsaStruct::KeyGenFirstMsg => "KeyGenFirstMsg",
            EcdsaStruct::CommWitness => "CommWitness",
            EcdsaStruct::EcKeyPair => "EcKeyPair",
            EcdsaStruct::PaillierKeyPair => "PaillierKeyPair",
            EcdsaStruct::Party1Private => "Party1Private",
            EcdsaStruct::Party2Public => "Party2Public",
            EcdsaStruct::PDLDecommit => "PDLDecommit",
            EcdsaStruct::Alpha => "Alpha",
            EcdsaStruct::Party2PDLFirstMsg => "Party2PDLFirstMsg",
            EcdsaStruct::CCKeyGenFirstMsg => "CCKeyGenFirstMsg",
            EcdsaStruct::CCCommWitness => "CCCommWitness",
            EcdsaStruct::CCEcKeyPair => "CCEcKeyPair",
            EcdsaStruct::CC => "CC",
            EcdsaStruct::MasterKey => "MasterKey",
            EcdsaStruct::EphEcKeyPair => "EphEcKeyPair",
            EcdsaStruct::EphKeyGenFirstMsg => "EphKeyGenFirstMsg",
            EcdsaStruct::RotateCommitMessage1M => "RotateCommitMessage1M",
            EcdsaStruct::RotateCommitMessage1R => "RotateCommitMessage1R",
            EcdsaStruct::RotateRandom1 => "RotateRandom1",
            EcdsaStruct::RotateFirstMsg => "RotateFirstMsg",
            EcdsaStruct::RotatePrivateNew => "RotatePrivateNew",
            EcdsaStruct::RotatePdlDecom => "RotatePdlDecom",
            EcdsaStruct::RotateParty2First => "RotateParty2First",
            EcdsaStruct::RotateParty1Second => "RotateParty1Second",
            EcdsaStruct::POS => "POS",
        };
        String::from_str(s)
    }

    /// Whether records of this kind are indexed by customer as well as by
    /// session (only the master key is).
    pub fn require_customer_id(&self) -> (r: bool)
        ensures
            r == (*self == EcdsaStruct::MasterKey),
    {
        match self {
            EcdsaStruct::MasterKey => true,
            _ => false,
        }
    }

    /// The remote table name of this kind in environment `env`.
    pub fn to_table_name(&self, env: &str) -> (r: String)
        ensures
            r@ == table_name(*self, env@),
    {
        let name = self.to_string();
        let base = String::from_str(env);
        if self.require_customer_id() {
            base.concat("_").concat(name.as_str())
        } else {
            base.concat("-gotham-").concat(name.as_str())
        }
    }
}

} // verus!
