use vstd::prelude::*;

verus! {

/// A 256-bit unsigned integer, held as its 32 big-endian bytes.
#[derive(Clone, Copy, Debug, PartialEq, Eq)]
pub struct Uint256 {
    pub be: [u8; 32],
}

/// Opaque routing data attached unchanged to every outbound envelope.
#[derive(Debug)]
pub struct Metadata {
    pub creator: String,
    pub signers: Vec<String>,
}

impl View for Metadata {
    type V = (Seq<char>, Seq<Seq<char>>);

    open spec fn view(&self) -> (Seq<char>, Seq<Seq<char>>) {
        (self.creator@, self.signers.deep_view())
    }
}

impl Metadata {
    /// A copy with the same creator and signers.
    pub fn duplicate(&self) -> (r: Metadata)
        ensures
            r@ == self@,
    {
        let signers = self.signers.clone();
        proof {
            vstd::std_specs::vec::vec_clone_deep_view_proof(self.signers, signers);
        }
        Metadata { creator: self.creator.clone(), signers }
    }
}

pub struct InstantiateMsg {
    pub retry_delay: u64,
    pub job_arb_id: String,
    pub job_eth_id: String,
    pub creator: String,
    pub signers: Vec<String>,
}

pub struct WinnerInfo {
    pub winner: String,
    pub claimable_amount: Uint256,
}

pub struct EpochInfo {
    pub epoch_id: Uint256,
    pub competition_start: Uint256,
    pub competition_end: Uint256,
    pub entry_cnt: Uint256,
    pub prize_amount: Option<Uint256>,
}

pub enum ExecuteMsg {
    SetEthPaloma {},
    UpdateEthCompass { new_compass: String },
    SetRewardToken { new_reward_token: String, new_decimals: Uint256 },
    SendReward { amount: Uint256 },
    SetWinnerList { winner_infos: Vec<WinnerInfo> },
    SetArbPaloma {},
    UpdateArbCompass { new_compass: String },
    SetActiveEpoch { epoch_info: EpochInfo },
}

/// Envelope for a cross-chain call: the job to run, its ABI payload, and the
/// pass-through metadata.
pub struct PalomaMsg {
    pub job_id: String,
    pub payload: Vec<u8>,
    pub metadata: Metadata,
}

impl View for PalomaMsg {
    type V = (Seq<char>, Seq<u8>, (Seq<char>, Seq<Seq<char>>));

    open spec fn view(&self) -> Self::V {
        (self.job_id@, self.payload@, self.metadata@)
    }
}

/// What a successful command hands back: one envelope and the action taken.
pub struct Response {
    pub message: PalomaMsg,
    pub action: String,
}

impl View for Response {
    type V = ((Seq<char>, Seq<u8>, (Seq<char>, Seq<Seq<char>>)), Seq<char>);

    open spec fn view(&self) -> Self::V {
        (self.message@, self.action@)
    }
}

/// A key/value pair describing an instantiation.
pub struct Attribute {
    pub key: String,
    pub value: String,
}

#[derive(Clone, Copy, Debug, PartialEq, Eq)]
pub enum QueryMsg {
    GetEthJobId {},
    GetArbJobId {},
}

pub struct GetJobIdResponse {
    pub job_id: String,
}

#[derive(Clone, Copy, Debug, PartialEq, Eq)]
pub enum ContractError {
    /// The caller is not the configured owner.
    Unauthorized,
    /// An address string is not forty hex digits.
    InvalidAddress,
    /// The only subject of the command is still inside its retry window.
    AllPending,
}

} // verus!
