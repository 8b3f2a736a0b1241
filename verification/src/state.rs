//! The two account records of the escrow and their byte layouts.

use vstd::prelude::*;
use vstd::bytes::spec_u64_to_le_bytes;
use crate::address::Address;
use crate::error::ProgramError;
use crate::wire::{
    lemma_address_exists, lemma_address_from_view, lemma_i64_u64_casts,
    lemma_u64_bytes_round_trip,
    lemma_u64_round_trip, read_address, read_i64, read_u64, spec_bool_to_byte,
    spec_i64_to_le_bytes, spec_read_address, spec_read_i64, spec_read_u64, write_address,
    write_bool, write_i64, write_u64,
};

verus! {

/// Shortest lock of the locked share, in seconds: one minute.
pub const MIN_LOCK_DURATION: i64 = 60;

/// Longest lock of the locked share, in seconds: one year of 365 days.
pub const MAX_LOCK_DURATION: i64 = 31_536_000;

/// Where an investor's position stands.
#[derive(Debug, Clone, Copy, PartialEq, Eq, Structural)]
pub enum InvestorStatus {
    /// No deposit was recorded.
    Uninitialized,
    /// A payment was taken, tokens were issued, the locked share is held.
    Deposited,
    /// The locked share was paid out to the beneficiary.
    SolWithdrawn,
}

impl Default for InvestorStatus {
    fn default() -> (status: InvestorStatus)
        ensures
            status == InvestorStatus::Uninitialized,
    {
        InvestorStatus::Uninitialized
    }
}

impl InvestorStatus {
    /// The byte that stands for the status in a record.
    pub open spec fn spec_tag(self) -> u8 {
        match self {
            InvestorStatus::Uninitialized => 0,
            InvestorStatus::Deposited => 1,
            InvestorStatus::SolWithdrawn => 2,
        }
    }

    /// The status that a byte stands for, if any.
    pub open spec fn spec_from_tag(tag: u8) -> Option<InvestorStatus> {
        if tag == 0 {
            Some(InvestorStatus::Uninitialized)
        } else if tag == 1 {
            Some(InvestorStatus::Deposited)
        } else if tag == 2 {
            Some(InvestorStatus::SolWithdrawn)
        } else {
            None
        }
    }

    /// The byte that stands for the status in a record.
    pub fn tag(self) -> (tag: u8)
        ensures
            tag == self.spec_tag(),
    {
        match self {
            InvestorStatus::Uninitialized => 0,
            InvestorStatus::Deposited => 1,
            InvestorStatus::SolWithdrawn => 2,
        }
    }

    /// The status that a byte stands for, if any.
    pub fn from_tag(tag: u8) -> (status: Option<InvestorStatus>)
        ensures
            status == InvestorStatus::spec_from_tag(tag),
    {
        if tag == 0 {
            Some(InvestorStatus::Uninitialized)
        } else if tag == 1 {
            Some(InvestorStatus::Deposited)
        } else if tag == 2 {
            Some(InvestorStatus::SolWithdrawn)
        } else {
            None
        }
    }

    /// A position only moves forward: from no deposit to deposited to
    /// withdrawn.
    pub open spec fn may_become(self, next: InvestorStatus) -> bool {
        self.spec_tag() <= next.spec_tag()
    }
}

/// The record of one sale: its configuration, its totals and the oracle it
/// is bound to.
#[derive(Debug, Clone, Copy, PartialEq, Eq)]
pub struct GlobalEscrow {
    pub is_initialized: bool,
    /// The operator who created the sale.
    pub initializer_pubkey: Address,
    /// The token on sale.
    pub token_mint_pubkey: Address,
    /// The beneficiary: receives the unlocked half of every payment, the
    /// locked shares after the lock, and the unsold tokens.
    pub recipient_wallet: Address,
    /// Token units on offer: what the operator put into the vault, until
    /// the sale is closed; from then on what was sold.
    pub total_tokens_available: u64,
    pub tokens_sold: u64,
    pub total_sol_deposited: u64,
    /// Locked lamports paid out to the beneficiary so far.
    pub total_sol_withdrawn: u64,
    /// Seconds from creation until the locked shares unlock.
    pub lock_duration: i64,
    pub bump_seed: u8,
    /// The oracle program, fixed at creation.
    pub oracle_program_id: Address,
    /// The price feed, fixed at creation.
    pub price_feed_pubkey: Address,
    pub min_sol_investment: u64,
    /// Largest cumulative payment of one investor.
    pub max_sol_investment: u64,
    /// Largest age of a price, in seconds.
    pub price_staleness_threshold: u64,
    /// From when the unsold tokens can be reclaimed.
    pub sale_end_timestamp: i64,
    /// When the sale was created; the lock counts from here.
    pub initialization_timestamp: i64,
}

impl GlobalEscrow {
    /// Bytes of a sale record.
    pub const LEN: usize = 242;

    /// What holds of every sale record that the escrow writes: no more
    /// tokens are issued than offered, and the lock lasts between one minute
    /// and one year.
    pub open spec fn well_formed(self) -> bool {
        &&& self.is_initialized
        &&& self.tokens_sold <= self.total_tokens_available
        &&& MIN_LOCK_DURATION <= self.lock_duration <= MAX_LOCK_DURATION
    }

    /// What a later record of the same sale keeps: the parties, the lock,
    /// the oracle binding, the limits and the two instants never change.
    /// The offer is not among them: closing the sale takes the unsold
    /// tokens out of it.
    pub open spec fn same_sale(self, later: GlobalEscrow) -> bool {
        &&& later.is_initialized == self.is_initialized
        &&& later.initializer_pubkey == self.initializer_pubkey
        &&& later.token_mint_pubkey == self.token_mint_pubkey
        &&& later.recipient_wallet == self.recipient_wallet
        &&& later.lock_duration == self.lock_duration
        &&& later.bump_seed == self.bump_seed
        &&& later.oracle_program_id == self.oracle_program_id
        &&& later.price_feed_pubkey == self.price_feed_pubkey
        &&& later.min_sol_investment == self.min_sol_investment
        &&& later.max_sol_investment == self.max_sol_investment
        &&& later.price_staleness_threshold == self.price_staleness_threshold
        &&& later.sale_end_timestamp == self.sale_end_timestamp
        &&& later.initialization_timestamp == self.initialization_timestamp
    }

    /// Tokens offered and not yet issued; negative only for a record that
    /// breaks the invariant.
    pub open spec fn spec_tokens_remaining(self) -> int {
        self.total_tokens_available - self.tokens_sold
    }

    /// The instant from which every locked share can be withdrawn.
    pub open spec fn spec_unlock_time(self) -> int {
        self.initialization_timestamp + self.lock_duration
    }

    /// The 242 bytes of the record: the fields in order, integers low byte
    /// first, a flag as one byte.
    pub open spec fn spec_encode(self) -> Seq<u8> {
        seq![spec_bool_to_byte(self.is_initialized)] + self.initializer_pubkey@
            + self.token_mint_pubkey@ + self.recipient_wallet@ + spec_u64_to_le_bytes(
            self.total_tokens_available,
        ) + spec_u64_to_le_bytes(self.tokens_sold) + spec_u64_to_le_bytes(self.total_sol_deposited)
            + spec_u64_to_le_bytes(self.total_sol_withdrawn) + spec_i64_to_le_bytes(
            self.lock_duration,
        ) + seq![self.bump_seed] + self.oracle_program_id@ + self.price_feed_pubkey@
            + spec_u64_to_le_bytes(self.min_sol_investment) + spec_u64_to_le_bytes(
            self.max_sol_investment,
        ) + spec_u64_to_le_bytes(self.price_staleness_threshold) + spec_i64_to_le_bytes(
            self.sale_end_timestamp,
        ) + spec_i64_to_le_bytes(self.initialization_timestamp)
    }

    /// The record that `bytes` hold: there is one where the length is 242
    /// and the flag byte is 0 or 1.
    pub open spec fn spec_decode(bytes: Seq<u8>) -> Result<GlobalEscrow, ProgramError> {
        if bytes.len() != GlobalEscrow::LEN || bytes[0] > 1 {
            Err(ProgramError::BorshIoError)
        } else {
            Ok(
                GlobalEscrow {
                    is_initialized: bytes[0] == 1,
                    initializer_pubkey: spec_read_address(bytes, 1),
                    token_mint_pubkey: spec_read_address(bytes, 33),
                    recipient_wallet: spec_read_address(bytes, 65),
                    total_tokens_available: spec_read_u64(bytes, 97),
                    tokens_sold: spec_read_u64(bytes, 105),
                    total_sol_deposited: spec_read_u64(bytes, 113),
                    total_sol_withdrawn: spec_read_u64(bytes, 121),
                    lock_duration: spec_read_i64(bytes, 129),
                    bump_seed: bytes[137],
                    oracle_program_id: spec_read_address(bytes, 138),
                    price_feed_pubkey: spec_read_address(bytes, 170),
                    min_sol_investment: spec_read_u64(bytes, 202),
                    max_sol_investment: spec_read_u64(bytes, 210),
                    price_staleness_threshold: spec_read_u64(bytes, 218),
                    sale_end_timestamp: spec_read_i64(bytes, 226),
                    initialization_timestamp: spec_read_i64(bytes, 234),
                },
            )
        }
    }

    /// The bytes of the record.
    pub fn to_bytes(&self) -> (out: Vec<u8>)
        ensures
            out@ == self.spec_encode(),
            out@.len() == GlobalEscrow::LEN,
    {
        let mut out: Vec<u8> = Vec::new();
        write_bool(&mut out, self.is_initialized);
        assert(out@ =~= seq![spec_bool_to_byte(self.is_initialized)]);
        write_address(&mut out, &self.initializer_pubkey);
        write_address(&mut out, &self.token_mint_pubkey);
        write_address(&mut out, &self.recipient_wallet);
        write_u64(&mut out, self.total_tokens_available);
        write_u64(&mut out, self.tokens_sold);
        write_u64(&mut out, self.total_sol_deposited);
        write_u64(&mut out, self.total_sol_withdrawn);
        write_i64(&mut out, self.lock_duration);
        out.push(self.bump_seed);
        write_address(&mut out, &self.oracle_program_id);
        write_address(&mut out, &self.price_feed_pubkey);
        write_u64(&mut out, self.min_sol_investment);
        write_u64(&mut out, self.max_sol_investment);
        write_u64(&mut out, self.price_staleness_threshold);
        write_i64(&mut out, self.sale_end_timestamp);
        write_i64(&mut out, self.initialization_timestamp);
        proof {
            Self::lemma_encode_len(*self);
            assert(out@ =~= self.spec_encode());
        }
        out
    }

    /// Reads a record from its bytes: all 242 of them, and no more.
    pub fn try_from_slice(data: &[u8]) -> (res: Result<GlobalEscrow, ProgramError>)
        ensures
            res == GlobalEscrow::spec_decode(data@),
            res matches Ok(record) ==> record.spec_encode() == data@,
    {
        if data.len() != GlobalEscrow::LEN || data[0] > 1 {
            return Err(ProgramError::BorshIoError);
        }
        let record = GlobalEscrow {
            is_initialized: data[0] == 1,
            initializer_pubkey: read_address(data, 1),
            token_mint_pubkey: read_address(data, 33),
            recipient_wallet: read_address(data, 65),
            total_tokens_available: read_u64(data, 97),
            tokens_sold: read_u64(data, 105),
            total_sol_deposited: read_u64(data, 113),
            total_sol_withdrawn: read_u64(data, 121),
            lock_duration: read_i64(data, 129),
            bump_seed: data[137],
            oracle_program_id: read_address(data, 138),
            price_feed_pubkey: read_address(data, 170),
            min_sol_investment: read_u64(data, 202),
            max_sol_investment: read_u64(data, 210),
            price_staleness_threshold: read_u64(data, 218),
            sale_end_timestamp: read_i64(data, 226),
            initialization_timestamp: read_i64(data, 234),
        };
        proof {
            Self::lemma_encode_decode(data@);
        }
        Ok(record)
    }

    /// Every record takes 242 bytes.
    pub proof fn lemma_encode_len(record: GlobalEscrow)
        ensures
            record.spec_encode().len() == GlobalEscrow::LEN,
    {
        lemma_u64_round_trip(record.total_tokens_available);
        lemma_u64_round_trip(record.tokens_sold);
        lemma_u64_round_trip(record.total_sol_deposited);
        lemma_u64_round_trip(record.total_sol_withdrawn);
        lemma_u64_round_trip(record.lock_duration as u64);
        lemma_u64_round_trip(record.min_sol_investment);
        lemma_u64_round_trip(record.max_sol_investment);
        lemma_u64_round_trip(record.price_staleness_threshold);
        lemma_u64_round_trip(record.sale_end_timestamp as u64);
        lemma_u64_round_trip(record.initialization_timestamp as u64);
    }

    /// Writing the record that bytes hold gives those bytes back: bytes
    /// hold a record only as its encoding.
    pub proof fn lemma_encode_decode(bytes: Seq<u8>)
        requires
            GlobalEscrow::spec_decode(bytes) is Ok,
        ensures
            GlobalEscrow::spec_decode(bytes)->Ok_0.spec_encode() == bytes,
    {
        let record = GlobalEscrow::spec_decode(bytes)->Ok_0;
        lemma_address_exists(bytes.subrange(1, 33));
        lemma_address_exists(bytes.subrange(33, 65));
        lemma_address_exists(bytes.subrange(65, 97));
        lemma_address_exists(bytes.subrange(138, 170));
        lemma_address_exists(bytes.subrange(170, 202));
        lemma_u64_bytes_round_trip(bytes.subrange(97, 105));
        lemma_u64_bytes_round_trip(bytes.subrange(105, 113));
        lemma_u64_bytes_round_trip(bytes.subrange(113, 121));
        lemma_u64_bytes_round_trip(bytes.subrange(121, 129));
        lemma_u64_bytes_round_trip(bytes.subrange(129, 137));
        lemma_u64_bytes_round_trip(bytes.subrange(202, 210));
        lemma_u64_bytes_round_trip(bytes.subrange(210, 218));
        lemma_u64_bytes_round_trip(bytes.subrange(218, 226));
        lemma_u64_bytes_round_trip(bytes.subrange(226, 234));
        lemma_u64_bytes_round_trip(bytes.subrange(234, 242));
        lemma_i64_u64_casts(0, spec_read_u64(bytes, 129));
        lemma_i64_u64_casts(0, spec_read_u64(bytes, 226));
        lemma_i64_u64_casts(0, spec_read_u64(bytes, 234));
        Self::lemma_encode_len(record);
        assert(record.spec_encode() =~= bytes);
    }

    /// Reading the bytes of a record gives the record back.
    pub proof fn lemma_decode_encode(record: GlobalEscrow)
        ensures
            GlobalEscrow::spec_decode(record.spec_encode()) matches Ok(decoded) && decoded
                == record,
    {
        let bytes = record.spec_encode();
        Self::lemma_encode_len(record);
        lemma_u64_round_trip(record.total_tokens_available);
        lemma_u64_round_trip(record.tokens_sold);
        lemma_u64_round_trip(record.total_sol_deposited);
        lemma_u64_round_trip(record.total_sol_withdrawn);
        lemma_u64_round_trip(record.lock_duration as u64);
        lemma_u64_round_trip(record.min_sol_investment);
        lemma_u64_round_trip(record.max_sol_investment);
        lemma_u64_round_trip(record.price_staleness_threshold);
        lemma_u64_round_trip(record.sale_end_timestamp as u64);
        lemma_u64_round_trip(record.initialization_timestamp as u64);
        lemma_i64_u64_casts(record.lock_duration, 0);
        lemma_i64_u64_casts(record.sale_end_timestamp, 0);
        lemma_i64_u64_casts(record.initialization_timestamp, 0);
        lemma_address_from_view(record.initializer_pubkey);
        lemma_address_from_view(record.token_mint_pubkey);
        lemma_address_from_view(record.recipient_wallet);
        lemma_address_from_view(record.oracle_program_id);
        lemma_address_from_view(record.price_feed_pubkey);
        assert(bytes.subrange(1, 33) =~= record.initializer_pubkey@);
        assert(bytes.subrange(33, 65) =~= record.token_mint_pubkey@);
        assert(bytes.subrange(65, 97) =~= record.recipient_wallet@);
        assert(bytes.subrange(97, 105) =~= spec_u64_to_le_bytes(record.total_tokens_available));
        assert(bytes.subrange(105, 113) =~= spec_u64_to_le_bytes(record.tokens_sold));
        assert(bytes.subrange(113, 121) =~= spec_u64_to_le_bytes(record.total_sol_deposited));
        assert(bytes.subrange(121, 129) =~= spec_u64_to_le_bytes(record.total_sol_withdrawn));
        assert(bytes.subrange(129, 137) =~= spec_i64_to_le_bytes(record.lock_duration));
        assert(bytes.subrange(138, 170) =~= record.oracle_program_id@);
        assert(bytes.subrange(170, 202) =~= record.price_feed_pubkey@);
        assert(bytes.subrange(202, 210) =~= spec_u64_to_le_bytes(record.min_sol_investment));
        assert(bytes.subrange(210, 218) =~= spec_u64_to_le_bytes(record.max_sol_investment));
        assert(bytes.subrange(218, 226) =~= spec_u64_to_le_bytes(
            record.price_staleness_threshold,
        ));
        assert(bytes.subrange(226, 234) =~= spec_i64_to_le_bytes(record.sale_end_timestamp));
        assert(bytes.subrange(234, 242) =~= spec_i64_to_le_bytes(
            record.initialization_timestamp,
        ));
    }
}

/// The record of one investor in one sale.
#[derive(Debug, Clone, Copy, PartialEq, Eq)]
pub struct InvestorAccount {
    pub is_initialized: bool,
    pub investor_pubkey: Address,
    /// The sale that the position belongs to.
    pub global_escrow_pubkey: Address,
    /// Lamports paid by the investor, over all deposits.
    pub sol_deposited: u64,
    /// Tokens issued to the investor, over all deposits.
    pub tokens_received: u64,
    /// When the first deposit was made.
    pub deposit_timestamp: i64,
    /// The oracle price of the latest deposit.
    pub sol_usd_price: u64,
    pub status: InvestorStatus,
    pub bump_seed: u8,
}

impl InvestorAccount {
    /// Bytes of a position.
    pub const LEN: usize = 99;

    /// The locked share of the position: half of what was paid, rounded
    /// down.
    pub open spec fn spec_locked_sol_amount(self) -> u64 {
        self.sol_deposited / 2
    }

    /// Whether the position's own lock has run out at `current_timestamp`:
    /// `lock_duration` seconds after its first deposit.
    pub open spec fn spec_is_unlock_time(self, lock_duration: i64, current_timestamp: i64) -> bool {
        current_timestamp >= self.deposit_timestamp + lock_duration
    }

    /// Whether `lock_duration` seconds have passed since the position's
    /// first deposit.
    pub fn is_unlock_time(&self, lock_duration: i64, current_timestamp: i64) -> (unlocked: bool)
        ensures
            unlocked == self.spec_is_unlock_time(lock_duration, current_timestamp),
    {
        current_timestamp as i128 >= self.deposit_timestamp as i128 + lock_duration as i128
    }

    /// The locked share of the position.
    pub fn get_locked_sol_amount(&self) -> (locked: u64)
        ensures
            locked == self.spec_locked_sol_amount(),
    {
        self.sol_deposited / 2
    }

    /// The 99 bytes of the record: the fields in order, integers low byte
    /// first, a flag and the status as one byte each.
    pub open spec fn spec_encode(self) -> Seq<u8> {
        seq![spec_bool_to_byte(self.is_initialized)] + self.investor_pubkey@
            + self.global_escrow_pubkey@ + spec_u64_to_le_bytes(self.sol_deposited)
            + spec_u64_to_le_bytes(self.tokens_received) + spec_i64_to_le_bytes(
            self.deposit_timestamp,
        ) + spec_u64_to_le_bytes(self.sol_usd_price) + seq![self.status.spec_tag()]
            + seq![self.bump_seed]
    }

    /// The record that `bytes` hold: there is one where the length is 99,
    /// the flag byte is 0 or 1 and the status byte stands for a status.
    pub open spec fn spec_decode(bytes: Seq<u8>) -> Result<InvestorAccount, ProgramError> {
        if bytes.len() != InvestorAccount::LEN || bytes[0] > 1 || bytes[97] > 2 {
            Err(ProgramError::BorshIoError)
        } else {
            Ok(
                InvestorAccount {
                    is_initialized: bytes[0] == 1,
                    investor_pubkey: spec_read_address(bytes, 1),
                    global_escrow_pubkey: spec_read_address(bytes, 33),
                    sol_deposited: spec_read_u64(bytes, 65),
                    tokens_received: spec_read_u64(bytes, 73),
                    deposit_timestamp: spec_read_i64(bytes, 81),
                    sol_usd_price: spec_read_u64(bytes, 89),
                    status: InvestorStatus::spec_from_tag(bytes[97])->Some_0,
                    bump_seed: bytes[98],
                },
            )
        }
    }

    /// The bytes of the record.
    pub fn to_bytes(&self) -> (out: Vec<u8>)
        ensures
            out@ == self.spec_encode(),
            out@.len() == InvestorAccount::LEN,
    {
        let mut out: Vec<u8> = Vec::new();
        write_bool(&mut out, self.is_initialized);
        assert(out@ =~= seq![spec_bool_to_byte(self.is_initialized)]);
        write_address(&mut out, &self.investor_pubkey);
        write_address(&mut out, &self.global_escrow_pubkey);
        write_u64(&mut out, self.sol_deposited);
        write_u64(&mut out, self.tokens_received);
        write_i64(&mut out, self.deposit_timestamp);
        write_u64(&mut out, self.sol_usd_price);
        out.push(self.status.tag());
        out.push(self.bump_seed);
        proof {
            Self::lemma_encode_len(*self);
            assert(out@ =~= self.spec_encode());
        }
        out
    }

    /// Reads a record from its bytes: all 99 of them, and no more.
    pub fn try_from_slice(data: &[u8]) -> (res: Result<InvestorAccount, ProgramError>)
        ensures
            res == InvestorAccount::spec_decode(data@),
            res matches Ok(record) ==> record.spec_encode() == data@,
    {
        if data.len() != InvestorAccount::LEN || data[0] > 1 {
            return Err(ProgramError::BorshIoError);
        }
        let status: InvestorStatus = match InvestorStatus::from_tag(data[97]) {
            Some(status) => status,
            None => {
                return Err(ProgramError::BorshIoError);
            },
        };
        let record = InvestorAccount {
            is_initialized: data[0] == 1,
            investor_pubkey: read_address(data, 1),
            global_escrow_pubkey: read_address(data, 33),
            sol_deposited: read_u64(data, 65),
            tokens_received: read_u64(data, 73),
            deposit_timestamp: read_i64(data, 81),
            sol_usd_price: read_u64(data, 89),
            status,
            bump_seed: data[98],
        };
        proof {
            Self::lemma_encode_decode(data@);
        }
        Ok(record)
    }

    /// Every record takes 99 bytes.
    pub proof fn lemma_encode_len(record: InvestorAccount)
        ensures
            record.spec_encode().len() == InvestorAccount::LEN,
    {
        lemma_u64_round_trip(record.sol_deposited);
        lemma_u64_round_trip(record.tokens_received);
        lemma_u64_round_trip(record.deposit_timestamp as u64);
        lemma_u64_round_trip(record.sol_usd_price);
    }

    /// Writing the record that bytes hold gives those bytes back: bytes
    /// hold a record only as its encoding.
    pub proof fn lemma_encode_decode(bytes: Seq<u8>)
        requires
            InvestorAccount::spec_decode(bytes) is Ok,
        ensures
            InvestorAccount::spec_decode(bytes)->Ok_0.spec_encode() == bytes,
    {
        let record = InvestorAccount::spec_decode(bytes)->Ok_0;
        lemma_address_exists(bytes.subrange(1, 33));
        lemma_address_exists(bytes.subrange(33, 65));
        lemma_u64_bytes_round_trip(bytes.subrange(65, 73));
        lemma_u64_bytes_round_trip(bytes.subrange(73, 81));
        lemma_u64_bytes_round_trip(bytes.subrange(81, 89));
        lemma_u64_bytes_round_trip(bytes.subrange(89, 97));
        lemma_i64_u64_casts(0, spec_read_u64(bytes, 81));
        Self::lemma_encode_len(record);
        assert(record.spec_encode() =~= bytes);
    }

    /// Reading the bytes of a record gives the record back.
    pub proof fn lemma_decode_encode(record: InvestorAccount)
        ensures
            InvestorAccount::spec_decode(record.spec_encode()) matches Ok(decoded) && decoded
                == record,
    {
        let bytes = record.spec_encode();
        Self::lemma_encode_len(record);
        lemma_u64_round_trip(record.sol_deposited);
        lemma_u64_round_trip(record.tokens_received);
        lemma_u64_round_trip(record.deposit_timestamp as u64);
        lemma_u64_round_trip(record.sol_usd_price);
        lemma_i64_u64_casts(record.deposit_timestamp, 0);
        lemma_address_from_view(record.investor_pubkey);
        lemma_address_from_view(record.global_escrow_pubkey);
        assert(bytes.subrange(1, 33) =~= record.investor_pubkey@);
        assert(bytes.subrange(33, 65) =~= record.global_escrow_pubkey@);
        assert(bytes.subrange(65, 73) =~= spec_u64_to_le_bytes(record.sol_deposited));
        assert(bytes.subrange(73, 81) =~= spec_u64_to_le_bytes(record.tokens_received));
        assert(bytes.subrange(81, 89) =~= spec_i64_to_le_bytes(record.deposit_timestamp));
        assert(bytes.subrange(89, 97) =~= spec_u64_to_le_bytes(record.sol_usd_price));
    }
}

} // verus!
