use vstd::prelude::*;

use crate::codec::{le_bytes, le_u64_at, lemma_le_round_trip, push_u64_le, read_u64_le};
use crate::error::ProcessError;

verus! {

/// The stored size of a booth or oracle record: a `u64` and a `u8`.
pub const RECORD_LEN: usize = 9;

/// The booth's record: its fee as a fixed-point fraction `fee / 10^decimals`.
#[derive(Debug, Copy, Clone, PartialEq, Eq, Structural)]
pub struct ExchangeBoothAccount {
    pub fee: u64,
    pub decimals: u8,
}

/// The oracle's record: the rate from A to B as `exchange_rate / 10^decimals`.
#[derive(Debug, Copy, Clone, PartialEq, Eq, Structural)]
pub struct OracleAccount {
    pub exchange_rate: u64,
    pub decimals: u8,
}

/// The stored form of a record: the `u64` little-endian, then the `u8`.
pub open spec fn record_bytes(value: u64, decimals: u8) -> Seq<u8> {
    le_bytes(value) + seq![decimals]
}

fn write_record(value: u64, decimals: u8) -> (r: Vec<u8>)
    ensures
        r@ == record_bytes(value, decimals),
{
    let mut out: Vec<u8> = Vec::new();
    push_u64_le(&mut out, value);
    out.push(decimals);
    assert(out@ =~= record_bytes(value, decimals));
    out
}

proof fn lemma_record_round_trip(value: u64, decimals: u8)
    ensures
        record_bytes(value, decimals).len() == RECORD_LEN,
        le_u64_at(record_bytes(value, decimals), 0) == value,
        record_bytes(value, decimals)[8] == decimals,
{
    let b = record_bytes(value, decimals);
    lemma_le_round_trip(value);
    assert(b.subrange(0, 8) =~= le_bytes(value));
    assert(le_u64_at(b, 0) == le_u64_at(le_bytes(value), 0));
}

impl ExchangeBoothAccount {
    /// The record that `data` holds, where it is exactly a record's length.
    pub open spec fn spec_unpack(data: Seq<u8>) -> Option<ExchangeBoothAccount> {
        if data.len() == RECORD_LEN {
            Some(ExchangeBoothAccount { fee: le_u64_at(data, 0) as u64, decimals: data[8] })
        } else {
            None
        }
    }

    pub fn unpack(data: &[u8]) -> (r: Result<ExchangeBoothAccount, ProcessError>)
        ensures
            match Self::spec_unpack(data@) {
                Some(rec) => r == Ok::<ExchangeBoothAccount, ProcessError>(rec),
                None => r == Err::<ExchangeBoothAccount, ProcessError>(
                    ProcessError::InvalidAccountData,
                ),
            },
    {
        if data.len() != RECORD_LEN {
            return Err(ProcessError::InvalidAccountData);
        }
        Ok(ExchangeBoothAccount { fee: read_u64_le(data, 0), decimals: data[8] })
    }

    pub fn pack(&self) -> (r: Vec<u8>)
        ensures
            r@ == record_bytes(self.fee, self.decimals),
    {
        write_record(self.fee, self.decimals)
    }
}

impl OracleAccount {
    /// The record that `data` holds, where it is exactly a record's length.
    pub open spec fn spec_unpack(data: Seq<u8>) -> Option<OracleAccount> {
        if data.len() == RECORD_LEN {
            Some(OracleAccount { exchange_rate: le_u64_at(data, 0) as u64, decimals: data[8] })
        } else {
            None
        }
    }

    pub fn unpack(data: &[u8]) -> (r: Result<OracleAccount, ProcessError>)
        ensures
            match Self::spec_unpack(data@) {
                Some(rec) => r == Ok::<OracleAccount, ProcessError>(rec),
                None => r == Err::<OracleAccount, ProcessError>(ProcessError::InvalidAccountData),
            },
    {
        if data.len() != RECORD_LEN {
            return Err(ProcessError::InvalidAccountData);
        }
        Ok(OracleAccount { exchange_rate: read_u64_le(data, 0), decimals: data[8] })
    }

    pub fn pack(&self) -> (r: Vec<u8>)
        ensures
            r@ == record_bytes(self.exchange_rate, self.decimals),
    {
        write_record(self.exchange_rate, self.decimals)
    }
}

/// Reading back a stored booth record gives the record.
pub proof fn lemma_booth_record_round_trip(rec: ExchangeBoothAccount)
    ensures
        ExchangeBoothAccount::spec_unpack(record_bytes(rec.fee, rec.decimals)) == Some(rec),
{
    lemma_record_round_trip(rec.fee, rec.decimals);
}

/// Reading back a stored oracle record gives the record.
pub proof fn lemma_oracle_record_round_trip(rec: OracleAccount)
    ensures
        OracleAccount::spec_unpack(record_bytes(rec.exchange_rate, rec.decimals)) == Some(rec),
{
    lemma_record_round_trip(rec.exchange_rate, rec.decimals);
}

} // verus!
