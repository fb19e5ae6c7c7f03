//! The session: an append-only record of contract-layer operations, and the
//! decoding of their outcomes.
//!
//! The contract layer itself is an external collaborator: the driver performs
//! a deployment or call there and hands the raw outcome to the session, which
//! records it and decodes failures. By the collaborator's encoding
//! convention, return data carries a fixed two-byte prefix; a reverted
//! operation's data carries, after that prefix, the 4-byte little-endian
//! status code of the error.

use vstd::prelude::*;

use crate::sandbox::Sandbox;
use crate::status::{code_of_bytes, pack_bytes};
use crate::AccountId;

verus! {

/// The fixed number of prefix bytes the contract layer's encoding convention
/// reserves at the start of returned data.
pub const RETURN_DATA_PREFIX_LEN: usize = 2;

/// One recorded contract-layer operation.
pub struct OpRecord {
    /// Whether the operation deployed a contract (as opposed to calling one).
    pub deploy: bool,
    /// Whether the operation reverted.
    pub reverted: bool,
    /// The raw return data, prefix included; for a reverted operation, bytes
    /// 2 to 5 hold the status code.
    pub data: Vec<u8>,
    /// The address of the deployed contract, for a successful deployment.
    pub account: AccountId,
    /// The encoded contract events the operation emitted, oldest first.
    pub contract_events: Vec<Vec<u8>>,
}

/// Reads the little-endian status code that starts at byte
/// [`RETURN_DATA_PREFIX_LEN`] of reverted return data.
pub open spec fn spec_reverted_code(data: Seq<u8>) -> u32 {
    code_of_bytes(data[2], data[3], data[4], data[5])
}

/// Whether raw return data is long enough to carry a status code after the
/// prefix.
pub open spec fn spec_carries_code(data: Seq<u8>) -> bool {
    data.len() >= RETURN_DATA_PREFIX_LEN + 4
}

/// Decodes the status code of a reverted operation from its raw return data,
/// skipping the prefix.
pub fn decode_reverted_code(data: &Vec<u8>) -> (code: u32)
    requires
        spec_carries_code(data@),
    ensures
        code == spec_reverted_code(data@),
{
    pack_bytes(data[2], data[3], data[4], data[5])
}

/// Copies a byte string.
fn clone_bytes(bytes: &Vec<u8>) -> (r: Vec<u8>)
    ensures
        r@ == bytes@,
{
    let mut out: Vec<u8> = Vec::new();
    let mut i: usize = 0;
    while i < bytes.len()
        invariant
            i <= bytes.len(),
            out@ == bytes@.subrange(0, i as int),
        decreases bytes.len() - i,
    {
        out.push(bytes[i]);
        proof {
            assert(out@ =~= bytes@.subrange(0, i + 1));
        }
        i += 1;
    }
    proof {
        assert(out@ =~= bytes@);
    }
    out
}

/// The last deployment in a record list, if any.
pub open spec fn spec_last_deploy_of(s: Seq<OpRecord>) -> Option<OpRecord>
    decreases s.len(),
{
    if s.len() == 0 {
        None
    } else if s.last().deploy {
        Some(s.last())
    } else {
        spec_last_deploy_of(s.drop_last())
    }
}

/// A session: a sandbox together with the append-only record of the
/// contract-layer operations driven through it.
pub struct Session {
    /// The sandbox the session drives.
    pub sandbox: Sandbox,
    records: Vec<OpRecord>,
}

impl Session {
    /// The recorded operations, oldest first.
    pub closed spec fn records(self) -> Seq<OpRecord> {
        self.records@
    }

    /// The sandbox the session drives.
    pub closed spec fn spec_sandbox(self) -> Sandbox {
        self.sandbox
    }

    /// Opens a session over a sandbox, with an empty record.
    pub fn new(sandbox: Sandbox) -> (r: Session)
        ensures
            r.records() == Seq::<OpRecord>::empty(),
            r.spec_sandbox() == sandbox,
    {
        Session { sandbox, records: Vec::new() }
    }

    /// The last recorded deployment, if any.
    pub open spec fn spec_last_deploy(self) -> Option<OpRecord> {
        spec_last_deploy_of(self.records())
    }

    /// The last recorded operation, if any.
    pub open spec fn spec_last_record(self) -> Option<OpRecord> {
        if self.records().len() == 0 {
            None
        } else {
            Some(self.records().last())
        }
    }

    /// Appends an operation to the record.
    pub fn push_record(&mut self, record: OpRecord)
        ensures
            final(self).records() == old(self).records().push(record),
            final(self).spec_sandbox() == old(self).spec_sandbox(),
    {
        self.records.push(record);
    }

    /// The record of the most recent deployment, if any.
    pub fn last_deploy_result(&self) -> (r: Option<&OpRecord>)
        ensures
            match r {
                Some(rec) => Some(*rec) == self.spec_last_deploy(),
                None => self.spec_last_deploy() is None,
            },
    {
        let mut i: usize = self.records.len();
        proof {
            assert(self.records@.subrange(0, i as int) =~= self.records@);
        }
        while i > 0
            invariant
                i <= self.records.len(),
                spec_last_deploy_of(self.records@) == spec_last_deploy_of(
                    self.records@.subrange(0, i as int),
                ),
            decreases i,
        {
            proof {
                assert(self.records@.subrange(0, i as int).last() == self.records@[i - 1]);
                assert(self.records@.subrange(0, i as int).drop_last() =~= self.records@.subrange(
                    0,
                    i - 1,
                ));
            }
            if self.records[i - 1].deploy {
                return Some(&self.records[i - 1]);
            }
            i -= 1;
        }
        None
    }

    /// The encoded contract events of the last operation, oldest first.
    pub fn last_event_batch(&self) -> (r: Option<&Vec<Vec<u8>>>)
        ensures
            match r {
                Some(events) => self.spec_last_record() matches Some(rec) && events
                    == rec.contract_events,
                None => self.spec_last_record() is None,
            },
    {
        if self.records.len() == 0 {
            None
        } else {
            Some(&self.records[self.records.len() - 1].contract_events)
        }
    }
}

/// Deploys a contract through the session: records the outcome the contract
/// layer produced and decodes it. In case of success, returns the address of
/// the deployed contract; a reverted deployment's status code is decoded from
/// its raw return data, skipping the prefix.
pub fn deploy(session: &mut Session, outcome: OpRecord) -> (r: Result<AccountId, u32>)
    requires
        outcome.deploy,
        outcome.reverted ==> spec_carries_code(outcome.data@),
    ensures
        final(session).records() == old(session).records().push(outcome),
        final(session).spec_sandbox() == old(session).spec_sandbox(),
        r == if outcome.reverted {
            Result::<AccountId, u32>::Err(spec_reverted_code(outcome.data@))
        } else {
            Result::<AccountId, u32>::Ok(outcome.account)
        },
{
    let r = if outcome.reverted {
        Err(decode_reverted_code(&outcome.data))
    } else {
        Ok(outcome.account)
    };
    session.push_record(outcome);
    r
}

/// Calls a contract method through the session: records the outcome the
/// contract layer produced and decodes it. In case of success, returns the
/// returned data after the prefix; a reverted call's status code is decoded
/// from its raw return data, skipping the prefix.
pub fn call(session: &mut Session, outcome: OpRecord) -> (r: Result<Vec<u8>, u32>)
    requires
        !outcome.deploy,
        outcome.data@.len() >= RETURN_DATA_PREFIX_LEN,
        outcome.reverted ==> spec_carries_code(outcome.data@),
    ensures
        final(session).records() == old(session).records().push(outcome),
        final(session).spec_sandbox() == old(session).spec_sandbox(),
        match r {
            Result::Ok(data) => !outcome.reverted && data@ == outcome.data@.subrange(
                RETURN_DATA_PREFIX_LEN as int,
                outcome.data@.len() as int,
            ),
            Result::Err(code) => outcome.reverted && code == spec_reverted_code(outcome.data@),
        },
{
    let r = if outcome.reverted {
        Err(decode_reverted_code(&outcome.data))
    } else {
        let mut returned: Vec<u8> = Vec::new();
        let mut i: usize = RETURN_DATA_PREFIX_LEN;
        while i < outcome.data.len()
            invariant
                RETURN_DATA_PREFIX_LEN <= i <= outcome.data.len(),
                returned@ == outcome.data@.subrange(RETURN_DATA_PREFIX_LEN as int, i as int),
            decreases outcome.data.len() - i,
        {
            returned.push(outcome.data[i]);
            proof {
                assert(returned@ =~= outcome.data@.subrange(
                    RETURN_DATA_PREFIX_LEN as int,
                    i + 1,
                ));
            }
            i += 1;
        }
        Ok(returned)
    };
    session.push_record(outcome);
    r
}

/// The last contract event of the session's last operation, as its encoded
/// bytes.
pub fn last_contract_event(session: &Session) -> (r: Option<Vec<u8>>)
    ensures
        match r {
            Some(event) => {
                &&& session.spec_last_record() matches Some(rec)
                &&& rec.contract_events@.len() > 0
                &&& event@ == rec.contract_events@.last()@
            },
            None => match session.spec_last_record() {
                Some(rec) => rec.contract_events@.len() == 0,
                None => true,
            },
        },
{
    match session.last_event_batch() {
        Some(events) => if events.len() == 0 {
            None
        } else {
            Some(clone_bytes(&events[events.len() - 1]))
        },
        None => None,
    }
}

} // verus!
